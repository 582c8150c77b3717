//! The table of callers that have switched the light, kept in the hash map of
//! `sails_rs::collections`.
//!
//! Verus does not look inside that map. This module says what the map holds by a
//! name, [`visitors_of`], and states of each map operation the library uses what
//! the operation does to that content. Those statements are believed, not proved.
use sails_rs::collections::HashMap;
use vstd::prelude::*;

verus! {

/// The identity of a caller: the 32 bytes the transport hands over with each call.
pub type CallerId = [u8; 32];

/// What a visitor table holds: for each caller on record, the light it last set.
pub type Visitors = Map<CallerId, Seq<char>>;

/// A listed visitor, as the pair of its identity and the light it last set.
pub type Visit = (CallerId, Seq<char>);

/// The visitor table of the traffic light.
///
/// It holds a `sails_rs::collections::HashMap` from caller to light. The field is
/// hidden from Verus; [`visitors_of`] stands for its content.
#[verifier::external_body]
#[derive(Debug)]
pub struct VisitorLog {
    map: HashMap<CallerId, String>,
}

/// The content of a visitor table: the caller-to-light map that the hash map holds.
pub uninterp spec fn visitors_of(log: VisitorLog) -> Visitors;

impl View for VisitorLog {
    type V = Visitors;

    open spec fn view(&self) -> Visitors {
        visitors_of(*self)
    }
}

/// The pairs of a listing, each light taken by its characters.
pub open spec fn visits(entries: Seq<(CallerId, String)>) -> Seq<Visit> {
    entries.map_values(|entry: (CallerId, String)| (entry.0, entry.1@))
}

/// `listing` names every visitor of `visitors` once, with its light, and nobody else.
/// The order of the listing is left open.
pub open spec fn enumerates(listing: Seq<Visit>, visitors: Visitors) -> bool {
    &&& forall|i: int|
        0 <= i < listing.len() ==> visitors.contains_pair(
            (#[trigger] listing[i]).0,
            listing[i].1,
        )
    &&& forall|i: int, j: int|
        0 <= i < j < listing.len() ==> (#[trigger] listing[i]).0 != (#[trigger] listing[j]).0
    &&& forall|caller: CallerId| #[trigger]
        visitors.dom().contains(caller) ==> exists|i: int|
            0 <= i < listing.len() && (#[trigger] listing[i]).0 == caller
}

/// A listing of a visitor table is as long as the table has visitors: the table is
/// finite, and no visitor is listed twice or left out.
pub proof fn lemma_listing_counts_visitors(listing: Seq<Visit>, visitors: Visitors)
    requires
        enumerates(listing, visitors),
    ensures
        visitors.dom().finite(),
        visitors.dom().len() == listing.len(),
    decreases listing.len(),
{
    if listing.len() == 0 {
        assert(visitors.dom() =~= Set::<CallerId>::empty());
    } else {
        let last = listing.last();
        let rest = listing.drop_last();
        let others = visitors.remove(last.0);
        assert forall|i: int| 0 <= i < rest.len() implies others.contains_pair(
            (#[trigger] rest[i]).0,
            rest[i].1,
        ) by {
            assert(rest[i] == listing[i]);
            assert(listing[i].0 != listing[listing.len() - 1].0);
        }
        assert forall|caller: CallerId| #[trigger] others.dom().contains(caller) implies exists|
            i: int,
        |
            0 <= i < rest.len() && (#[trigger] rest[i]).0 == caller by {
            assert(visitors.dom().contains(caller));
            let i = choose|i: int| 0 <= i < listing.len() && (#[trigger] listing[i]).0 == caller;
            assert(rest[i] == listing[i]);
        }
        assert(enumerates(rest, others));
        lemma_listing_counts_visitors(rest, others);
        assert(visitors.contains_pair(listing[listing.len() - 1].0, listing[listing.len() - 1].1));
        assert(visitors.dom() =~= others.dom().insert(last.0));
    }
}

/// A caller that a visitor table has on record stands at one place of a listing of
/// the table, with the light that the table records, and at no other place.
pub proof fn lemma_listing_names_visitor_once(
    listing: Seq<Visit>,
    visitors: Visitors,
    caller: CallerId,
) -> (at: int)
    requires
        enumerates(listing, visitors),
        visitors.dom().contains(caller),
    ensures
        0 <= at < listing.len(),
        listing[at] == (caller, visitors[caller]),
        forall|i: int| 0 <= i < listing.len() && (#[trigger] listing[i]).0 == caller ==> i == at,
{
    let at = choose|i: int| 0 <= i < listing.len() && (#[trigger] listing[i]).0 == caller;
    assert(visitors.contains_pair(listing[at].0, listing[at].1));
    assert forall|i: int| 0 <= i < listing.len() && (#[trigger] listing[i]).0 == caller implies i
        == at by {
        if i < at {
            assert(listing[i].0 != listing[at].0);
        } else if at < i {
            assert(listing[at].0 != listing[i].0);
        }
    }
    at
}

impl VisitorLog {
    /// Calls `HashMap::new`: the new map holds nothing.
    #[verifier::external_body]
    pub(crate) fn new() -> (log: VisitorLog)
        ensures
            visitors_of(log) == Visitors::empty(),
    {
        VisitorLog { map: HashMap::new() }
    }

    /// Calls `HashMap::insert`: afterwards `caller` maps to `light`, whether or not
    /// it was on record before, and every other entry is as it was.
    #[verifier::external_body]
    pub(crate) fn insert(&mut self, caller: CallerId, light: String)
        ensures
            visitors_of(*final(self)) == visitors_of(*old(self)).insert(caller, light@),
    {
        self.map.insert(caller, light);
    }

    /// Walks the map with `HashMap::iter` and copies each entry out. The map decides
    /// the order; every entry comes out once.
    #[verifier::external_body]
    pub(crate) fn entries(&self) -> (entries: Vec<(CallerId, String)>)
        ensures
            enumerates(visits(entries@), visitors_of(*self)),
    {
        self.map.iter().map(|(caller, light)| (*caller, light.clone())).collect()
    }

    /// Calls `HashMap::clone`: the copy holds the same entries.
    #[verifier::external_body]
    pub(crate) fn duplicate(&self) -> (copy: VisitorLog)
        ensures
            visitors_of(copy) == visitors_of(*self),
    {
        VisitorLog { map: self.map.clone() }
    }
}

} // verus!
