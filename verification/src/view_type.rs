use vstd::prelude::*;

use crate::text::str_eq;

verus! {

/// How the monitor lays out each price update on the terminal.
#[derive(Debug, Clone, Copy, PartialEq, Eq, Structural)]
pub enum ViewType {
    SEQUENTIAL,
    FIXED,
}

/// The identifier of each view: 1 for sequential, 2 for fixed.
pub open spec fn spec_view_id(v: ViewType) -> u8 {
    match v {
        ViewType::SEQUENTIAL => 1,
        ViewType::FIXED => 2,
    }
}

/// The view that follows `v` in the cycle sequential, fixed, sequential, ...
pub open spec fn spec_next_view(v: ViewType) -> ViewType {
    match v {
        ViewType::SEQUENTIAL => ViewType::FIXED,
        ViewType::FIXED => ViewType::SEQUENTIAL,
    }
}

/// The view whose identifier is `id`, if any.
pub open spec fn spec_view_from_id(id: u8) -> Option<ViewType> {
    if id == 1 {
        Some(ViewType::SEQUENTIAL)
    } else if id == 2 {
        Some(ViewType::FIXED)
    } else {
        None
    }
}

/// The name of a view shown to the user: Italian for locale `it`, English
/// for every other locale.
pub open spec fn spec_view_label(v: ViewType, locale: Seq<char>) -> Seq<char> {
    match v {
        ViewType::SEQUENTIAL => if locale == "it"@ { "Sequenziale"@ } else { "Sequential"@ },
        ViewType::FIXED => if locale == "it"@ { "Fissa"@ } else { "Fixed"@ },
    }
}

/// The list of all views, in declaration order.
pub open spec fn spec_all_views() -> Seq<ViewType> {
    seq![ViewType::SEQUENTIAL, ViewType::FIXED]
}

impl ViewType {
    /// The lowercase name of the view, as written in the settings file.
    pub fn as_str(&self) -> (s: &'static str)
        ensures
            *self == ViewType::SEQUENTIAL ==> s@ == "sequential"@,
            *self == ViewType::FIXED ==> s@ == "fixed"@,
    {
        match self {
            ViewType::SEQUENTIAL => "sequential",
            ViewType::FIXED => "fixed",
        }
    }


    /// The name of the view in the interface language `locale`.
    pub fn label(&self, locale: &str) -> (s: &'static str)
        ensures
            s@ == spec_view_label(*self, locale@),
    {
        let it = str_eq(locale, "it");
        match self {
            ViewType::SEQUENTIAL => if it { "Sequenziale" } else { "Sequential" },
            ViewType::FIXED => if it { "Fissa" } else { "Fixed" },
        }
    }

    /// The identifier of the view.
    pub fn id(&self) -> (r: u8)
        ensures
            r == spec_view_id(*self),
    {
        match self {
            ViewType::SEQUENTIAL => 1,
            ViewType::FIXED => 2,
        }
    }

    /// All views, in declaration order.
    pub fn variants() -> (r: &'static [ViewType])
        ensures
            r@ == spec_all_views(),
    {
        let r: &'static [ViewType] = &[ViewType::SEQUENTIAL, ViewType::FIXED];
        assert(r@ =~= spec_all_views());
        r
    }

    /// The view with identifier `id`, or `None` for an unknown identifier.
    pub fn from_id(id: u8) -> (r: Option<ViewType>)
        ensures
            r == spec_view_from_id(id),
    {
        match id {
            1 => Some(ViewType::SEQUENTIAL),
            2 => Some(ViewType::FIXED),
            _ => None,
        }
    }

    /// The view after this one in the list of all views, wrapping round at
    /// the end.
    pub fn next(self) -> (r: ViewType)
        ensures
            r == spec_next_view(self),
    {
        let vs = ViewType::variants();
        let mut idx: usize = 0;
        while idx < vs.len()
            invariant
                vs@ == spec_all_views(),
                idx <= vs.len(),
                forall|k: int| 0 <= k < idx ==> vs@[k] != self,
            ensures
                idx <= vs.len(),
                idx < vs.len() ==> vs@[idx as int] == self,
                forall|k: int| 0 <= k < idx ==> vs@[k] != self,
            decreases vs.len() - idx,
        {
            let same = match (vs[idx], self) {
                (ViewType::SEQUENTIAL, ViewType::SEQUENTIAL) => true,
                (ViewType::FIXED, ViewType::FIXED) => true,
                _ => false,
            };
            if same {
                break;
            }
            idx = idx + 1;
        }
        assert(idx < vs.len()) by {
            if idx == vs.len() {
                assert(vs@[0] != self && vs@[1] != self);
            }
        }
        vs[(idx + 1) % vs.len()]
    }
}

/// Reading a view back from its identifier gives the view.
pub proof fn lemma_from_id_of_id(v: ViewType)
    ensures
        spec_view_from_id(spec_view_id(v)) == Some(v),
{
}

/// Identifiers that name a view are exactly 1 and 2, and each names the view
/// that has it.
pub proof fn lemma_id_of_from_id(id: u8)
    ensures
        spec_view_from_id(id) is Some <==> (id == 1 || id == 2),
        spec_view_from_id(id) is Some ==> spec_view_id(spec_view_from_id(id)->0) == id,
{
}

/// Moving to the next view always changes the view, and doing it twice comes
/// back to the start.
pub proof fn lemma_next_view_cycles(v: ViewType)
    ensures
        spec_next_view(v) != v,
        spec_next_view(spec_next_view(v)) == v,
{
}

/// The next view is the one that follows in the list of all views, wrapping
/// round at the end.
pub proof fn lemma_next_view_follows_list(i: int)
    requires
        0 <= i < spec_all_views().len(),
    ensures
        spec_next_view(spec_all_views()[i]) == spec_all_views()[(i + 1) % spec_all_views().len() as int],
{
    if i == 0 {
        assert((0int + 1) % 2 == 1);
    } else {
        assert((1int + 1) % 2 == 0);
    }
}

} // verus!
