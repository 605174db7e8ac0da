//! The install pipeline: resolve the identifier, build the library list,
//! select the main class, and assemble the descriptor with its JSON text.
//! Writing the text to disk is the embedding application's step.

use vstd::prelude::*;

use crate::json::{descriptor_json, spec_descriptor_json};
use crate::libraries::{build_library_list, lib_views, spec_libraries};
use crate::main_class::{select_main_class, spec_main_class, spec_main_class_resolved};
use crate::meta::{
    DescriptorView, FabricInstallOptions, FabricLoaderArtifact, FabricVersionDescriptor,
    InstallOptionsView, LoaderArtifactView, ResolutionError,
};
use crate::resolve::{
    resolve_side, resolve_version, spec_base_version, spec_inherits_from, spec_side,
    spec_version_id, spec_yarn,
};

verus! {

/// The fixed timestamp both timestamp fields carry.
pub open spec fn spec_timestamp() -> Seq<char> {
    "2023-05-13T15:58:54.493Z"@
}

/// The descriptor one install assembles: every field is a function of the
/// loader artifact and the options alone.
pub open spec fn spec_descriptor(loader: LoaderArtifactView, opts: InstallOptionsView) -> DescriptorView {
    DescriptorView {
        id: spec_version_id(loader, opts),
        inherits_from: spec_inherits_from(loader, opts),
        main_class: spec_main_class(loader.launcher_meta.main_class, spec_side(opts)),
        libraries: spec_libraries(loader, spec_yarn(opts), spec_side(opts)),
        release_time: spec_timestamp(),
        time: spec_timestamp(),
    }
}

/// Law: an explicit version-id override becomes the descriptor's id exactly,
/// whatever the other options and the metadata hold.
pub proof fn lemma_id_override(loader: LoaderArtifactView, opts: InstallOptionsView)
    ensures
        opts.version_id matches Option::Some(id) ==> spec_descriptor(loader, opts).id == id,
{
}

/// Law: without an override, the id is the resolved base version followed by
/// `-loader` and the loader version when a mapping layer is selected, and by
/// `-fabric` and the loader version when it is not.
pub proof fn lemma_id_synthesis(loader: LoaderArtifactView, opts: InstallOptionsView)
    requires
        opts.version_id is None,
    ensures
        opts.yarn_version is Some ==> spec_descriptor(loader, opts).id == spec_base_version(
            loader,
            opts,
        ) + "-loader"@ + loader.loader.version,
        opts.yarn_version is None ==> spec_descriptor(loader, opts).id == spec_base_version(
            loader,
            opts,
        ) + "-fabric"@ + loader.loader.version,
{
}

/// Law: an install is reproducible. The descriptor, its two timestamp fields
/// included, and its JSON text are functions of the metadata and options
/// alone, so a rerun with inputs equal in value yields a descriptor equal in
/// every field and byte-equal JSON text.
pub proof fn lemma_install_reproducible(
    loader1: LoaderArtifactView,
    opts1: InstallOptionsView,
    loader2: LoaderArtifactView,
    opts2: InstallOptionsView,
)
    requires
        loader1 == loader2,
        opts1 == opts2,
    ensures
        spec_descriptor(loader1, opts1) == spec_descriptor(loader2, opts2),
        spec_descriptor_json(spec_descriptor(loader1, opts1)) == spec_descriptor_json(
            spec_descriptor(loader2, opts2),
        ),
        spec_descriptor(loader1, opts1).release_time == spec_timestamp(),
        spec_descriptor(loader1, opts1).time == spec_timestamp(),
{
}

/// The outcome of one install: the assembled descriptor, its JSON text, and
/// whether entry-point selection found a class name. An unresolved main
/// class leaves the empty class name in the descriptor and must be surfaced
/// by the caller; it does not stop generation.
pub struct FabricInstall {
    pub descriptor: FabricVersionDescriptor,
    pub json: String,
    pub main_class_resolved: bool,
}

/// Assembles the version descriptor and its JSON text for one install.
///
/// Fails exactly when the resolved identifier would be empty (an explicit
/// empty override); a descriptor with an empty id is never produced.
pub fn assemble_fabric_version(
    loader: &FabricLoaderArtifact,
    options: &FabricInstallOptions,
) -> (r: Result<FabricInstall, ResolutionError>)
    ensures
        r is Ok <==> spec_version_id(loader@, options@).len() > 0,
        options@.version_id is None ==> r is Ok,
        r matches Ok(inst) ==> inst.descriptor@ == spec_descriptor(loader@, options@)
            && inst.json@ == spec_descriptor_json(spec_descriptor(loader@, options@))
            && inst.main_class_resolved == spec_main_class_resolved(
            loader@.launcher_meta.main_class,
            spec_side(options@),
        ),
{
    let resolved = match resolve_version(loader, options) {
        Result::Ok(resolved) => resolved,
        Result::Err(e) => {
            return Result::Err(e);
        },
    };
    let side = resolve_side(options);
    let libraries = build_library_list(loader, &resolved.yarn, side);
    let choice = select_main_class(&loader.launcher_meta.main_class, side);
    let descriptor = FabricVersionDescriptor {
        id: resolved.id,
        inherits_from: resolved.inherits_from,
        main_class: choice.class_name,
        libraries,
        release_time: String::from_str("2023-05-13T15:58:54.493Z"),
        time: String::from_str("2023-05-13T15:58:54.493Z"),
    };
    proof {
        assert(descriptor@.libraries =~= lib_views(descriptor.libraries@));
        assert(descriptor@ == spec_descriptor(loader@, options@));
    }
    let json = descriptor_json(&descriptor);
    Result::Ok(FabricInstall { descriptor, json, main_class_resolved: choice.resolved })
}

} // verus!
