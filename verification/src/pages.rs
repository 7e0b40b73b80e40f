//! Top-level page selection: which tab controller is active.

use vstd::prelude::*;

verus! {

/// The page currently shown by the session: the status tab, the branch tab,
/// or the (empty) configuration tab. The default page is the status tab.
#[derive(PartialEq, Eq, Structural, Clone, Copy, Debug)]
pub enum Pages {
    StatusPAGE,
    BranchPAGE,
    ConfigPage,
}

impl Pages {
    /// Position of this page in the header strip.
    pub fn to_index(&self) -> (r: usize)
        ensures
            r == match *self {
                Pages::StatusPAGE => 0usize,
                Pages::BranchPAGE => 1usize,
                Pages::ConfigPage => 2usize,
            },
            r < 3,
    {
        match self {
            Pages::StatusPAGE => 0,
            Pages::BranchPAGE => 1,
            Pages::ConfigPage => 2,
        }
    }

    /// Page selected by a numeric key, counted from zero; any number past the
    /// last page falls back to the status tab.
    pub fn change_page(&mut self, value: u32) -> (r: Pages)
        ensures
            *final(self) == *old(self),
            r == spec_page_of_index(value as int),
    {
        match value {
            0 => Pages::StatusPAGE,
            1 => Pages::BranchPAGE,
            2 => Pages::ConfigPage,
            _ => Pages::StatusPAGE,
        }
    }
}

/// The page that a zero-based numeric selection lands on.
pub open spec fn spec_page_of_index(value: int) -> Pages {
    if value == 1 {
        Pages::BranchPAGE
    } else if value == 2 {
        Pages::ConfigPage
    } else {
        Pages::StatusPAGE
    }
}

} // verus!
