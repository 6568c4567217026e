//! The summary shared by skills and tools: a name and what it is for.

use vstd::prelude::*;
use crate::text::copy_string;

verus! {

/// A capability mounted on the assistant, as listed to the user and model.
#[derive(Clone, Debug, PartialEq, Eq)]
pub struct CapabilitySummary {
    pub name: String,
    pub description: String,
}

impl CapabilitySummary {
    /// A summary with the given name and description.
    pub fn new(name: &str, description: &str) -> (r: Self)
        ensures
            r.name@ == name@,
            r.description@ == description@,
    {
        CapabilitySummary { name: name.to_owned(), description: description.to_owned() }
    }

    /// A copy with the same name and description.
    pub fn duplicate(&self) -> (r: Self)
        ensures
            r.name@ == self.name@,
            r.description@ == self.description@,
    {
        CapabilitySummary { name: copy_string(&self.name), description: copy_string(&self.description) }
    }
}

/// Names and descriptions of a list of summaries.
pub open spec fn summary_views(s: Seq<CapabilitySummary>) -> Seq<(Seq<char>, Seq<char>)> {
    s.map_values(|c: CapabilitySummary| (c.name@, c.description@))
}

/// The summaries have the same names and descriptions.
pub open spec fn same_summaries(a: Seq<CapabilitySummary>, b: Seq<CapabilitySummary>) -> bool {
    summary_views(a) == summary_views(b)
}

/// Copies a list of summaries.
pub fn duplicate_all(items: &Vec<CapabilitySummary>) -> (r: Vec<CapabilitySummary>)
    ensures
        same_summaries(r@, items@),
{
    let mut r: Vec<CapabilitySummary> = Vec::new();
    for i in 0..items.len()
        invariant
            r@.len() == i,
            forall|j: int| 0 <= j < i ==> r@[j].name@ == items@[j].name@ && r@[j].description@ == items@[j].description@,
    {
        r.push(items[i].duplicate());
    }
    assert(summary_views(r@) =~= summary_views(items@));
    r
}

} // verus!
