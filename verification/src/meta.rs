//! Metadata records describing Fabric loader and mapping artifacts, and the
//! options controlling one install.

use vstd::prelude::*;

verus! {

/// Mathematical value of an [`FabricArtifactVersion`]: every string is seen
/// as its character sequence.
pub struct ArtifactVersionView {
    pub game_version: Option<Seq<char>>,
    pub separator: Option<Seq<char>>,
    pub build: Option<usize>,
    pub maven: Seq<char>,
    pub version: Seq<char>,
    pub stable: bool,
}

/// One published artifact of loader or mapping metadata, as the remote index
/// reports it. Immutable once fetched.
pub struct FabricArtifactVersion {
    pub game_version: Option<String>,
    pub separator: Option<String>,
    pub build: Option<usize>,
    pub maven: String,
    pub version: String,
    pub stable: bool,
}

/// The view of an optional string: `None`, or the character sequence.
pub open spec fn opt_str_view(s: Option<String>) -> Option<Seq<char>> {
    match s {
        Option::Some(s) => Option::Some(s@),
        Option::None => Option::None,
    }
}

impl View for FabricArtifactVersion {
    type V = ArtifactVersionView;

    open spec fn view(&self) -> ArtifactVersionView {
        ArtifactVersionView {
            game_version: opt_str_view(self.game_version),
            separator: opt_str_view(self.separator),
            build: self.build,
            maven: self.maven@,
            version: self.version@,
            stable: self.stable,
        }
    }
}

/// The full artifact index: every known mapping artifact and every known
/// loader artifact.
pub struct FabricArtifacts {
    pub mappings: Vec<FabricArtifactVersion>,
    pub loader: Vec<FabricArtifactVersion>,
}

/// Mathematical value of a [`LauncherMetaLibrariesItems`].
pub struct LibraryRefView {
    pub name: Option<Seq<char>>,
    pub url: Option<Seq<char>>,
}

/// One library reference: a maven coordinate plus an optional repository
/// base URL. Order among references is significant and is preserved.
pub struct LauncherMetaLibrariesItems {
    pub name: Option<String>,
    pub url: Option<String>,
}

impl View for LauncherMetaLibrariesItems {
    type V = LibraryRefView;

    open spec fn view(&self) -> LibraryRefView {
        LibraryRefView { name: opt_str_view(self.name), url: opt_str_view(self.url) }
    }
}

impl Clone for LauncherMetaLibrariesItems {
    fn clone(&self) -> (r: Self)
        ensures
            r@ == self@,
    {
        LauncherMetaLibrariesItems { name: clone_opt_string(&self.name), url: clone_opt_string(
            &self.url,
        ) }
    }
}

/// Clones an optional string, keeping its character sequence.
pub fn clone_opt_string(s: &Option<String>) -> (r: Option<String>)
    ensures
        opt_str_view(r) == opt_str_view(*s),
{
    match s {
        Option::Some(s) => Option::Some(s.clone()),
        Option::None => Option::None,
    }
}

/// Mathematical value of a [`LauncherMetaLibraries`].
pub struct LibrariesView {
    pub client: Seq<LibraryRefView>,
    pub common: Seq<LibraryRefView>,
    pub server: Seq<LibraryRefView>,
}

/// The per-side library lists of one loader build: libraries needed only on
/// the client, on every side, and only on the server.
pub struct LauncherMetaLibraries {
    pub client: Vec<LauncherMetaLibrariesItems>,
    pub common: Vec<LauncherMetaLibrariesItems>,
    pub server: Vec<LauncherMetaLibrariesItems>,
}

impl View for LauncherMetaLibraries {
    type V = LibrariesView;

    open spec fn view(&self) -> LibrariesView {
        LibrariesView {
            client: self.client@.map_values(|l: LauncherMetaLibrariesItems| l@),
            common: self.common@.map_values(|l: LauncherMetaLibrariesItems| l@),
            server: self.server@.map_values(|l: LauncherMetaLibrariesItems| l@),
        }
    }
}

/// Mathematical value of a [`MainClassSpec`].
pub enum MainClassSpecView {
    Scalar(Seq<char>),
    PerSide { client: Option<Seq<char>>, server: Option<Seq<char>> },
}

/// The entry-point field of the launcher metadata: either one class name for
/// every side, or a mapping from side to class name. The per-side form may
/// leave a side out; selection then falls back to the empty class name.
pub enum MainClassSpec {
    Scalar(String),
    PerSide { client: Option<String>, server: Option<String> },
}

impl View for MainClassSpec {
    type V = MainClassSpecView;

    open spec fn view(&self) -> MainClassSpecView {
        match *self {
            MainClassSpec::Scalar(ref s) => MainClassSpecView::Scalar(s@),
            MainClassSpec::PerSide { ref client, ref server } => MainClassSpecView::PerSide {
                client: opt_str_view(*client),
                server: opt_str_view(*server),
            },
        }
    }
}

/// Mathematical value of a [`LauncherMeta`].
pub struct LauncherMetaView {
    pub version: usize,
    pub libraries: LibrariesView,
    pub main_class: MainClassSpecView,
}

/// Launcher metadata of one loader build: the metadata-format version, the
/// per-side library lists, and the entry-point specification.
pub struct LauncherMeta {
    pub version: usize,
    pub libraries: LauncherMetaLibraries,
    pub main_class: MainClassSpec,
}

impl View for LauncherMeta {
    type V = LauncherMetaView;

    open spec fn view(&self) -> LauncherMetaView {
        LauncherMetaView {
            version: self.version,
            libraries: self.libraries@,
            main_class: self.main_class@,
        }
    }
}

/// Mathematical value of a [`FabricLoaderArtifact`].
pub struct LoaderArtifactView {
    pub loader: ArtifactVersionView,
    pub intermediary: ArtifactVersionView,
    pub launcher_meta: LauncherMetaView,
}

/// A resolved pairing of a loader artifact, the intermediary mapping bridge
/// it works with, and the launcher metadata of that pairing.
pub struct FabricLoaderArtifact {
    pub loader: FabricArtifactVersion,
    pub intermediary: FabricArtifactVersion,
    pub launcher_meta: LauncherMeta,
}

impl View for FabricLoaderArtifact {
    type V = LoaderArtifactView;

    open spec fn view(&self) -> LoaderArtifactView {
        LoaderArtifactView {
            loader: self.loader@,
            intermediary: self.intermediary@,
            launcher_meta: self.launcher_meta@,
        }
    }
}

/// The execution side an install targets.
#[derive(Clone, Copy, PartialEq, Eq, Structural)]
pub enum FabricInstallSide {
    Client,
    Server,
}

/// Mathematical value of a [`YarnVersion`].
pub enum YarnVersionView {
    Raw(Seq<char>),
    Artifact(ArtifactVersionView),
}

/// A mapping-layer selector: either a raw version string, or a full mapping
/// artifact record whose version string is used.
pub enum YarnVersion {
    Raw(String),
    Artifact(FabricArtifactVersion),
}

impl View for YarnVersion {
    type V = YarnVersionView;

    open spec fn view(&self) -> YarnVersionView {
        match *self {
            YarnVersion::Raw(ref s) => YarnVersionView::Raw(s@),
            YarnVersion::Artifact(ref a) => YarnVersionView::Artifact(a@),
        }
    }
}

/// Mathematical value of a [`FabricInstallOptions`].
pub struct InstallOptionsView {
    pub inherits_from: Option<Seq<char>>,
    pub version_id: Option<Seq<char>>,
    pub size: Option<FabricInstallSide>,
    pub yarn_version: Option<YarnVersionView>,
}

/// User-supplied options of one install: an optional override of the base
/// ("inherits from") version, an optional override of the final version id,
/// the target side (client when absent), and an optional mapping-layer
/// selector.
pub struct FabricInstallOptions {
    pub inherits_from: Option<String>,
    pub version_id: Option<String>,
    pub size: Option<FabricInstallSide>,
    pub yarn_version: Option<YarnVersion>,
}

impl View for FabricInstallOptions {
    type V = InstallOptionsView;

    open spec fn view(&self) -> InstallOptionsView {
        InstallOptionsView {
            inherits_from: opt_str_view(self.inherits_from),
            version_id: opt_str_view(self.version_id),
            size: self.size,
            yarn_version: match self.yarn_version {
                Option::Some(ref y) => Option::Some(y@),
                Option::None => Option::None,
            },
        }
    }
}

/// Failure to resolve a usable version identifier: the options and metadata
/// at hand would leave the descriptor with an empty id.
#[derive(Debug)]
pub struct ResolutionError;

/// Mathematical value of a [`FabricVersionDescriptor`].
pub struct DescriptorView {
    pub id: Seq<char>,
    pub inherits_from: Seq<char>,
    pub main_class: Seq<char>,
    pub libraries: Seq<LibraryRefView>,
    pub release_time: Seq<char>,
    pub time: Seq<char>,
}

/// The assembled version descriptor: everything the on-disk artifact holds.
/// Its arguments block (the game and jvm argument lists) is always empty and
/// is added by the JSON rendering. The two timestamps are fixed constants,
/// so a rerun with the same inputs reproduces the descriptor byte for byte.
pub struct FabricVersionDescriptor {
    pub id: String,
    pub inherits_from: String,
    pub main_class: String,
    pub libraries: Vec<LauncherMetaLibrariesItems>,
    pub release_time: String,
    pub time: String,
}

impl View for FabricVersionDescriptor {
    type V = DescriptorView;

    open spec fn view(&self) -> DescriptorView {
        DescriptorView {
            id: self.id@,
            inherits_from: self.inherits_from@,
            main_class: self.main_class@,
            libraries: self.libraries@.map_values(|l: LauncherMetaLibrariesItems| l@),
            release_time: self.release_time@,
            time: self.time@,
        }
    }
}

} // verus!
