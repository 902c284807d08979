//! The section cursor.
//!
//! Eight content sections stand in a fixed order; a cursor selects one of
//! them and only moves forward, wrapping to the first section after the
//! last. No backward operation is offered. Whether that is a deliberate
//! choice or an oversight is an open question — the section order is
//! otherwise arbitrary — but the forward-only design is kept as it is
//! rather than quietly extended.

use vstd::prelude::*;
use vstd::string::StringExecFns;

verus! {

/// The index one forward of `i` among the eight sections, wrapping to the
/// first after the last.
pub open spec fn next_section_index(i: int) -> int {
    if i + 1 < 8 {
        i + 1
    } else {
        0
    }
}

/// `i` after `n` forward moves.
pub open spec fn advanced(i: int, n: nat) -> int
    decreases n,
{
    if n == 0 {
        i
    } else {
        next_section_index(advanced(i, (n - 1) as nat))
    }
}

/// A full round of eight forward moves returns the cursor to the section
/// it started on.
pub proof fn lemma_section_cycle(i: int)
    requires
        0 <= i < 8,
    ensures
        advanced(i, 8) == i,
{
    reveal_with_fuel(advanced, 9);
}

/// The ordered list of sections and the index of the selected one.
pub struct SectionTabs {
    pub index: usize,
    pub sections: Vec<String>,
}

impl SectionTabs {
    /// The cursor's invariant: eight sections, and the index among them.
    pub open spec fn wf(self) -> bool {
        &&& self.sections@.len() == 8
        &&& (self.index as int) < 8
    }

    /// The cursor over the fixed section list, starting on the first.
    pub fn new() -> (tabs: SectionTabs)
        ensures
            tabs.index == 0,
            tabs.wf(),
            tabs.sections@[0]@ == "world"@,
            tabs.sections@[1]@ == "sport"@,
            tabs.sections@[2]@ == "technology"@,
            tabs.sections@[3]@ == "science"@,
            tabs.sections@[4]@ == "culture"@,
            tabs.sections@[5]@ == "lifeandstyle"@,
            tabs.sections@[6]@ == "money"@,
            tabs.sections@[7]@ == "weather"@,
    {
        let mut sections: Vec<String> = Vec::new();
        sections.push(String::from_str("world"));
        sections.push(String::from_str("sport"));
        sections.push(String::from_str("technology"));
        sections.push(String::from_str("science"));
        sections.push(String::from_str("culture"));
        sections.push(String::from_str("lifeandstyle"));
        sections.push(String::from_str("money"));
        sections.push(String::from_str("weather"));
        SectionTabs { index: 0, sections }
    }

    /// Moves the cursor one section forward, wrapping to the first after
    /// the last.
    pub fn next(&mut self)
        requires
            old(self).wf(),
        ensures
            final(self).sections == old(self).sections,
            final(self).index as int == next_section_index(old(self).index as int),
            final(self).wf(),
    {
        if self.index < 7 {
            self.index = self.index + 1;
        } else {
            self.index = 0;
        }
    }

    /// The name of the selected section.
    pub fn selected_section(&self) -> (section: &str)
        requires
            self.wf(),
        ensures
            section@ == self.sections@[self.index as int]@,
    {
        self.sections[self.index].as_str()
    }
}

} // verus!
