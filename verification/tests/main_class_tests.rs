use fabric_install::main_class::select_main_class;
use fabric_install::meta::{FabricInstallSide, MainClassSpec};

#[test]
fn per_side_client_key_is_selected_for_client() {
    let spec = MainClassSpec::PerSide {
        client: Some("a.b.ClientMain".to_string()),
        server: Some("a.b.ServerMain".to_string()),
    };
    let choice = select_main_class(&spec, FabricInstallSide::Client);
    assert_eq!(choice.class_name, "a.b.ClientMain");
    assert!(choice.resolved);
}

#[test]
fn per_side_server_key_is_selected_for_server() {
    let spec = MainClassSpec::PerSide {
        client: Some("a.b.ClientMain".to_string()),
        server: Some("a.b.ServerMain".to_string()),
    };
    let choice = select_main_class(&spec, FabricInstallSide::Server);
    assert_eq!(choice.class_name, "a.b.ServerMain");
    assert!(choice.resolved);
}

#[test]
fn scalar_applies_to_both_sides() {
    let spec = MainClassSpec::Scalar("a.b.Main".to_string());
    let client = select_main_class(&spec, FabricInstallSide::Client);
    let server = select_main_class(&spec, FabricInstallSide::Server);
    assert_eq!(client.class_name, "a.b.Main");
    assert!(client.resolved);
    assert_eq!(server.class_name, "a.b.Main");
    assert!(server.resolved);
}

#[test]
fn absent_side_falls_back_to_empty_and_is_flagged() {
    let spec = MainClassSpec::PerSide { client: Some("a.b.ClientMain".to_string()), server: None };
    let choice = select_main_class(&spec, FabricInstallSide::Server);
    assert_eq!(choice.class_name, "");
    assert!(!choice.resolved);
}
