//! Selection of the entry-point class name for the chosen side.

use vstd::prelude::*;

use crate::meta::{FabricInstallSide, MainClassSpec, MainClassSpecView, opt_str_view};

verus! {

/// The class name selected for a side: the scalar form applies to every
/// side; the per-side form yields the entry of the requested side, and the
/// empty class name when that side is absent.
pub open spec fn spec_main_class(m: MainClassSpecView, side: FabricInstallSide) -> Seq<char> {
    match m {
        MainClassSpecView::Scalar(s) => s,
        MainClassSpecView::PerSide { client, server } => {
            let entry = if side == FabricInstallSide::Client {
                client
            } else {
                server
            };
            match entry {
                Option::Some(c) => c,
                Option::None => Seq::empty(),
            }
        },
    }
}

/// Whether selection found a class name rather than falling back to the
/// empty one: true for the scalar form, and for the per-side form exactly
/// when the requested side is present.
pub open spec fn spec_main_class_resolved(m: MainClassSpecView, side: FabricInstallSide) -> bool {
    match m {
        MainClassSpecView::Scalar(_) => true,
        MainClassSpecView::PerSide { client, server } => (if side == FabricInstallSide::Client {
            client
        } else {
            server
        }) is Some,
    }
}

/// Law: with a per-side specification that carries the requested side, the
/// selected class is that side's entry; with the scalar form the selected
/// class is the scalar itself, whatever the side.
pub proof fn lemma_main_class_selection(m: MainClassSpecView, side: FabricInstallSide)
    ensures
        m matches MainClassSpecView::PerSide { client: Option::Some(c), .. } ==> (side
            == FabricInstallSide::Client ==> spec_main_class(m, side) == c),
        m matches MainClassSpecView::PerSide { server: Option::Some(s), .. } ==> (side
            == FabricInstallSide::Server ==> spec_main_class(m, side) == s),
        m matches MainClassSpecView::Scalar(s) ==> spec_main_class(m, side) == s,
{
}

/// The outcome of entry-point selection: the class name, and whether a class
/// was actually found. An unresolved selection yields the empty class name;
/// it does not stop descriptor generation, but callers must surface it.
pub struct MainClassChoice {
    pub class_name: String,
    pub resolved: bool,
}

/// Selects the entry-point class name for the requested side.
pub fn select_main_class(spec: &MainClassSpec, side: FabricInstallSide) -> (r: MainClassChoice)
    ensures
        r.class_name@ == spec_main_class(spec@, side),
        r.resolved == spec_main_class_resolved(spec@, side),
{
    match spec {
        MainClassSpec::Scalar(s) => MainClassChoice { class_name: s.clone(), resolved: true },
        MainClassSpec::PerSide { client, server } => {
            let entry = if side == FabricInstallSide::Client {
                client
            } else {
                server
            };
            match entry {
                Option::Some(c) => MainClassChoice { class_name: c.clone(), resolved: true },
                Option::None => MainClassChoice { class_name: String::new(), resolved: false },
            }
        },
    }
}

} // verus!
