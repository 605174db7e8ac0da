use fabric_install::install::assemble_fabric_version;
use fabric_install::json::{descriptor_json, libraries_json};
use fabric_install::meta::{
    FabricArtifactVersion, FabricInstallOptions, FabricLoaderArtifact, FabricVersionDescriptor,
    LauncherMeta, LauncherMetaLibraries, LauncherMetaLibrariesItems, MainClassSpec,
};

fn artifact(maven: &str, version: &str) -> FabricArtifactVersion {
    FabricArtifactVersion {
        game_version: None,
        separator: None,
        build: None,
        maven: maven.to_string(),
        version: version.to_string(),
        stable: true,
    }
}

fn scenario_bundle() -> FabricLoaderArtifact {
    FabricLoaderArtifact {
        loader: artifact("net.fabricmc:fabric-loader:0.1.0.48", "0.1.0.48"),
        intermediary: artifact("net.fabricmc:intermediary:1.19.4", "1.19.4"),
        launcher_meta: LauncherMeta {
            version: 1,
            libraries: LauncherMetaLibraries { client: vec![], common: vec![], server: vec![] },
            main_class: MainClassSpec::Scalar("a.b.C".to_string()),
        },
    }
}

fn default_options() -> FabricInstallOptions {
    FabricInstallOptions { inherits_from: None, version_id: None, size: None, yarn_version: None }
}

#[test]
fn descriptor_json_exact_text() {
    let install = assemble_fabric_version(&scenario_bundle(), &default_options()).unwrap();
    let expected = r#"{
  "id": "1.19.4-fabric0.1.0.48",
  "inheritsFrom": "1.19.4",
  "mainClass": "a.b.C",
  "libraries": "[{\"name\":\"net.fabricmc:fabric-loader:0.1.0.48\",\"url\":\"https://maven.fabricmc.net/\"},{\"name\":\"net.fabricmc:intermediary:1.19.4\",\"url\":\"https://maven.fabricmc.net/\"}]",
  "arguments": {
    "game": [],
    "jvm": []
  },
  "releaseTime": "2023-05-13T15:58:54.493Z",
  "time": "2023-05-13T15:58:54.493Z"
}"#;
    assert_eq!(install.json, expected);
    assert_eq!(install.json, descriptor_json(&install.descriptor));
}

#[test]
fn descriptor_json_parses_back() {
    let install = assemble_fabric_version(&scenario_bundle(), &default_options()).unwrap();
    let value: serde_json::Value = serde_json::from_str(&install.json).unwrap();
    assert_eq!(value["id"].as_str(), Some("1.19.4-fabric0.1.0.48"));
    assert_eq!(value["inheritsFrom"].as_str(), Some("1.19.4"));
    assert_eq!(value["mainClass"].as_str(), Some("a.b.C"));
    assert_eq!(value["releaseTime"].as_str(), Some("2023-05-13T15:58:54.493Z"));
    assert_eq!(value["time"].as_str(), Some("2023-05-13T15:58:54.493Z"));
    assert!(value["arguments"]["game"].as_array().unwrap().is_empty());
    assert!(value["arguments"]["jvm"].as_array().unwrap().is_empty());
    let libraries: serde_json::Value =
        serde_json::from_str(value["libraries"].as_str().unwrap()).unwrap();
    let entries = libraries.as_array().unwrap();
    assert_eq!(entries.len(), 2);
    assert_eq!(entries[0]["name"].as_str(), Some("net.fabricmc:fabric-loader:0.1.0.48"));
    assert_eq!(entries[0]["url"].as_str(), Some("https://maven.fabricmc.net/"));
    assert_eq!(entries[1]["name"].as_str(), Some("net.fabricmc:intermediary:1.19.4"));
}

#[test]
fn libraries_json_escapes_special_characters() {
    let name = "a\"b\\c\nd\u{1}".to_string();
    let libs = vec![LauncherMetaLibrariesItems { name: Some(name.clone()), url: None }];
    let text = libraries_json(&libs);
    assert_eq!(text, "[{\"name\":\"a\\\"b\\\\c\\nd\\u0001\",\"url\":null}]");
    let value: serde_json::Value = serde_json::from_str(&text).unwrap();
    assert_eq!(value[0]["name"].as_str(), Some(name.as_str()));
    assert!(value[0]["url"].is_null());
}

#[test]
fn libraries_json_escapes_named_controls() {
    let libs = vec![LauncherMetaLibrariesItems {
        name: Some("\t\r\u{8}\u{c}\u{1f}".to_string()),
        url: Some("u".to_string()),
    }];
    let text = libraries_json(&libs);
    assert_eq!(text, "[{\"name\":\"\\t\\r\\b\\f\\u001f\",\"url\":\"u\"}]");
}

#[test]
fn libraries_json_empty_list() {
    let libs: Vec<LauncherMetaLibrariesItems> = vec![];
    assert_eq!(libraries_json(&libs), "[]");
}

#[test]
fn descriptor_json_of_hand_built_descriptor() {
    let descriptor = FabricVersionDescriptor {
        id: "i".to_string(),
        inherits_from: "b".to_string(),
        main_class: "m".to_string(),
        libraries: vec![],
        release_time: "r".to_string(),
        time: "t".to_string(),
    };
    let expected = "{\n  \"id\": \"i\",\n  \"inheritsFrom\": \"b\",\n  \"mainClass\": \"m\",\n  \"libraries\": \"[]\",\n  \"arguments\": {\n    \"game\": [],\n    \"jvm\": []\n  },\n  \"releaseTime\": \"r\",\n  \"time\": \"t\"\n}";
    assert_eq!(descriptor_json(&descriptor), expected);
}
