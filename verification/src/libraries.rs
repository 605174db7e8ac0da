//! Assembly of the ordered library list needed to run a resolved version on
//! a chosen side.

use vstd::prelude::*;

use crate::meta::{
    FabricInstallSide, FabricLoaderArtifact, LauncherMetaLibrariesItems, LibrariesView,
    LibraryRefView, LoaderArtifactView, opt_str_view,
};

verus! {

/// The character sequences of a sequence of library references.
pub open spec fn lib_views(s: Seq<LauncherMetaLibrariesItems>) -> Seq<LibraryRefView> {
    s.map_values(|l: LauncherMetaLibrariesItems| l@)
}

/// The fixed mod-loader repository URL every synthesized entry points at.
pub open spec fn spec_repo_url() -> Seq<char> {
    "https://maven.fabricmc.net/"@
}

/// The maven coordinate synthesized for a selected mapping-layer version.
pub open spec fn spec_yarn_coordinate(yarn: Seq<char>) -> Seq<char> {
    "net.fabricmc:yarn:"@ + yarn
}

/// The side-specific library list of the launcher metadata.
pub open spec fn spec_side_libraries(libs: LibrariesView, side: FabricInstallSide) -> Seq<
    LibraryRefView,
> {
    match side {
        FabricInstallSide::Client => libs.client,
        FabricInstallSide::Server => libs.server,
    }
}

/// The entry synthesized for a maven coordinate at the fixed repository.
pub open spec fn spec_repo_entry(name: Seq<char>) -> LibraryRefView {
    LibraryRefView { name: Option::Some(name), url: Option::Some(spec_repo_url()) }
}

/// The full ordered library list of one install: the loader's coordinate,
/// the intermediary's coordinate, the synthesized mapping coordinate when a
/// mapping layer is selected, every common entry, then every side-specific
/// entry, in exactly that order and without deduplication.
pub open spec fn spec_libraries(
    loader: LoaderArtifactView,
    yarn: Option<Seq<char>>,
    side: FabricInstallSide,
) -> Seq<LibraryRefView> {
    seq![spec_repo_entry(loader.loader.maven), spec_repo_entry(loader.intermediary.maven)] + (
    match yarn {
        Option::Some(y) => seq![spec_repo_entry(spec_yarn_coordinate(y))],
        Option::None => Seq::empty(),
    }) + loader.launcher_meta.libraries.common + spec_side_libraries(
        loader.launcher_meta.libraries,
        side,
    )
}

/// Law: the library list never drops an entry. Its length is two (loader and
/// intermediary) plus one when a mapping layer is selected plus the number of
/// common and side-specific entries, and every entry stands at the fixed
/// place the order prescribes.
pub proof fn lemma_library_list_shape(
    loader: LoaderArtifactView,
    yarn: Option<Seq<char>>,
    side: FabricInstallSide,
)
    ensures
        spec_libraries(loader, yarn, side).len() == 2 + (if yarn is Some {
            1int
        } else {
            0int
        }) + loader.launcher_meta.libraries.common.len() + spec_side_libraries(
            loader.launcher_meta.libraries,
            side,
        ).len(),
        spec_libraries(loader, yarn, side)[0] == spec_repo_entry(loader.loader.maven),
        spec_libraries(loader, yarn, side)[1] == spec_repo_entry(loader.intermediary.maven),
        yarn matches Option::Some(y) ==> spec_libraries(loader, yarn, side)[2] == spec_repo_entry(
            spec_yarn_coordinate(y),
        ),
        forall|j: int|
            0 <= j < loader.launcher_meta.libraries.common.len() ==> spec_libraries(
                loader,
                yarn,
                side,
            )[2 + (if yarn is Some {
                1int
            } else {
                0int
            }) + j] == loader.launcher_meta.libraries.common[j],
        forall|j: int|
            0 <= j < spec_side_libraries(loader.launcher_meta.libraries, side).len()
                ==> spec_libraries(loader, yarn, side)[2 + (if yarn is Some {
                1int
            } else {
                0int
            }) + loader.launcher_meta.libraries.common.len() + j] == spec_side_libraries(
                loader.launcher_meta.libraries,
                side,
            )[j],
{
}

/// Appends clones of every entry of `src` to `dst`, in order.
fn extend_libraries(dst: &mut Vec<LauncherMetaLibrariesItems>, src: &Vec<
    LauncherMetaLibrariesItems,
>)
    ensures
        lib_views(final(dst)@) == lib_views(old(dst)@) + lib_views(src@),
{
    let ghost dst0 = old(dst)@;
    let mut i: usize = 0;
    while i < src.len()
        invariant
            i <= src@.len(),
            lib_views(dst@) == lib_views(dst0) + lib_views(src@.subrange(0, i as int)),
        decreases src@.len() - i,
    {
        let ghost prev = dst@;
        dst.push(src[i].clone());
        proof {
            assert(lib_views(dst@) =~= lib_views(prev).push(src@[i as int]@));
            assert(lib_views(src@.subrange(0, i + 1 as int)) =~= lib_views(
                src@.subrange(0, i as int),
            ).push(src@[i as int]@));
            assert(lib_views(dst@) =~= lib_views(dst0) + lib_views(src@.subrange(0, i + 1 as int)));
        }
        i = i + 1;
    }
    proof {
        assert(src@.subrange(0, src@.len() as int) =~= src@);
    }
}

/// Builds a library entry for a maven coordinate at the fixed repository.
fn repo_entry(name: String) -> (r: LauncherMetaLibrariesItems)
    ensures
        r@ == spec_repo_entry(name@),
{
    LauncherMetaLibrariesItems {
        name: Option::Some(name),
        url: Option::Some(String::from_str("https://maven.fabricmc.net/")),
    }
}

/// Assembles the ordered library list for one install: loader, intermediary,
/// the synthesized mapping entry when `yarn` is selected, the common
/// entries, then the side-specific entries.
pub fn build_library_list(
    loader: &FabricLoaderArtifact,
    yarn: &Option<String>,
    side: FabricInstallSide,
) -> (libs: Vec<LauncherMetaLibrariesItems>)
    ensures
        lib_views(libs@) == spec_libraries(loader@, opt_str_view(*yarn), side),
{
    let mut libs: Vec<LauncherMetaLibrariesItems> = Vec::new();
    libs.push(repo_entry(loader.loader.maven.clone()));
    libs.push(repo_entry(loader.intermediary.maven.clone()));
    match yarn {
        Option::Some(y) => {
            let mut coordinate = String::from_str("net.fabricmc:yarn:");
            coordinate.append(y.as_str());
            libs.push(repo_entry(coordinate));
        },
        Option::None => {},
    }
    extend_libraries(&mut libs, &loader.launcher_meta.libraries.common);
    match side {
        FabricInstallSide::Client => {
            extend_libraries(&mut libs, &loader.launcher_meta.libraries.client);
        },
        FabricInstallSide::Server => {
            extend_libraries(&mut libs, &loader.launcher_meta.libraries.server);
        },
    }
    proof {
        assert(lib_views(libs@) =~= spec_libraries(loader@, opt_str_view(*yarn), side));
    }
    libs
}

} // verus!
