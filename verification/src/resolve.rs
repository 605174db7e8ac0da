//! Resolution of the final version identifier and the base ("inherits from")
//! version from a loader artifact and the install options.

use vstd::prelude::*;

use crate::meta::{
    FabricInstallOptions, FabricInstallSide, FabricLoaderArtifact, InstallOptionsView,
    LoaderArtifactView, ResolutionError, YarnVersion, YarnVersionView, opt_str_view,
};

verus! {

/// The mapping-layer version string the options select, if any: the raw
/// string itself, or the version string of the selected mapping artifact.
pub open spec fn spec_yarn(opts: InstallOptionsView) -> Option<Seq<char>> {
    match opts.yarn_version {
        Option::Some(YarnVersionView::Raw(s)) => Option::Some(s),
        Option::Some(YarnVersionView::Artifact(a)) => Option::Some(a.version),
        Option::None => Option::None,
    }
}

/// The resolved base game version: the bundle's intermediary version when no
/// mapping layer is selected, and empty otherwise (a mapping selector leaves
/// the base underivable from the bundle).
pub open spec fn spec_base_version(loader: LoaderArtifactView, opts: InstallOptionsView) -> Seq<
    char,
> {
    if opts.yarn_version is Some {
        Seq::empty()
    } else {
        loader.intermediary.version
    }
}

/// The final version identifier: the options' explicit override when
/// present, else `<base>-loader<loaderVersion>` when a mapping layer is
/// selected and `<base>-fabric<loaderVersion>` when it is not.
pub open spec fn spec_version_id(loader: LoaderArtifactView, opts: InstallOptionsView) -> Seq<
    char,
> {
    match opts.version_id {
        Option::Some(id) => id,
        Option::None => spec_base_version(loader, opts) + (if opts.yarn_version is Some {
            "-loader"@
        } else {
            "-fabric"@
        }) + loader.loader.version,
    }
}

/// The version the descriptor inherits from: the options' explicit override
/// when present, else the resolved base game version.
pub open spec fn spec_inherits_from(loader: LoaderArtifactView, opts: InstallOptionsView) -> Seq<
    char,
> {
    match opts.inherits_from {
        Option::Some(s) => s,
        Option::None => spec_base_version(loader, opts),
    }
}

/// The execution side the install targets: the options' side, client when
/// none is given.
pub open spec fn spec_side(opts: InstallOptionsView) -> FabricInstallSide {
    match opts.size {
        Option::Some(s) => s,
        Option::None => FabricInstallSide::Client,
    }
}

/// The outcome of version resolution: the final identifier, the version it
/// inherits from, and the selected mapping-layer version, if any.
pub struct ResolvedVersion {
    pub id: String,
    pub inherits_from: String,
    pub yarn: Option<String>,
}

/// Extracts the mapping-layer version string the options select.
pub fn resolve_yarn(options: &FabricInstallOptions) -> (r: Option<String>)
    ensures
        opt_str_view(r) == spec_yarn(options@),
{
    match &options.yarn_version {
        Option::Some(YarnVersion::Raw(s)) => Option::Some(s.clone()),
        Option::Some(YarnVersion::Artifact(a)) => Option::Some(a.version.clone()),
        Option::None => Option::None,
    }
}

/// Picks the execution side, defaulting to the client.
pub fn resolve_side(options: &FabricInstallOptions) -> (r: FabricInstallSide)
    ensures
        r == spec_side(options@),
{
    match options.size {
        Option::Some(s) => s,
        Option::None => FabricInstallSide::Client,
    }
}

/// A synthesized identifier is never empty: it contains the literal
/// `-loader` or `-fabric`.
pub proof fn lemma_synthesized_id_nonempty(loader: LoaderArtifactView, opts: InstallOptionsView)
    requires
        opts.version_id is None,
    ensures
        spec_version_id(loader, opts).len() > 0,
{
    reveal_strlit("-loader");
    reveal_strlit("-fabric");
}

/// Resolves the final version identifier and the inherited base version.
///
/// Fails exactly when the resolved identifier would be empty, which can only
/// come from an explicit empty override: a descriptor is never written with
/// an empty id.
pub fn resolve_version(loader: &FabricLoaderArtifact, options: &FabricInstallOptions) -> (r: Result<
    ResolvedVersion,
    ResolutionError,
>)
    ensures
        r is Ok <==> spec_version_id(loader@, options@).len() > 0,
        options@.version_id is None ==> r is Ok,
        r matches Ok(v) ==> v.id@ == spec_version_id(loader@, options@) && v.inherits_from@
            == spec_inherits_from(loader@, options@) && opt_str_view(v.yarn) == spec_yarn(
            options@,
        ),
{
    let yarn = resolve_yarn(options);
    let base: String = match &options.yarn_version {
        Option::Some(_) => String::new(),
        Option::None => loader.intermediary.version.clone(),
    };
    let id: String = match &options.version_id {
        Option::Some(id) => id.clone(),
        Option::None => {
            let mut s = base.clone();
            if yarn.is_some() {
                s.append("-loader");
            } else {
                s.append("-fabric");
            }
            s.append(loader.loader.version.as_str());
            s
        },
    };
    let inherits_from: String = match &options.inherits_from {
        Option::Some(s) => s.clone(),
        Option::None => base,
    };
    proof {
        if options@.version_id is None {
            lemma_synthesized_id_nonempty(loader@, options@);
        }
    }
    if id.as_str().is_empty() {
        Result::Err(ResolutionError)
    } else {
        Result::Ok(ResolvedVersion { id, inherits_from, yarn })
    }
}

} // verus!
