use vstd::prelude::*;

verus! {

#[verifier::external_type_specification]
#[verifier::external_body]
#[verifier::reject_recursive_types(T)]
pub struct ExGenericPatriciaSet<T>(patricia_tree::GenericPatriciaSet<T>);

/// The strings that a patricia set holds.
///
/// Only `&str` values are ever inserted; their UTF-8 encodings are distinct
/// exactly when their characters are, so the set is modelled over characters.
pub uninterp spec fn members(s: patricia_tree::PatriciaSet) -> Set<Seq<char>>;

/// Relies on `PatriciaSet::new`: the new set is empty.
#[verifier::external_body]
pub(crate) fn new_set() -> (r: patricia_tree::PatriciaSet)
    ensures
        members(r) == Set::<Seq<char>>::empty(),
{
    patricia_tree::PatriciaSet::new()
}

/// Relies on `PatriciaSet::insert`: it adds the value and returns `true`
/// exactly when the value was not present before.
#[verifier::external_body]
pub(crate) fn set_insert(s: &mut patricia_tree::PatriciaSet, v: &str) -> (r: bool)
    ensures
        r == !members(*old(s)).contains(v@),
        members(*final(s)) == members(*old(s)).insert(v@),
{
    s.insert(v)
}

/// The set of segment URIs seen during one download.
///
/// Keys are compared as raw strings; the set only grows.
pub struct SeenSet {
    links: patricia_tree::PatriciaSet,
}

impl SeenSet {
    /// The URIs in the set.
    pub closed spec fn view(&self) -> Set<Seq<char>> {
        members(self.links)
    }

    /// An empty set.
    pub fn new() -> (r: SeenSet)
        ensures
            r.view() == Set::<Seq<char>>::empty(),
    {
        SeenSet { links: new_set() }
    }

    /// Adds `uri`; returns `true` exactly when it was not there before.
    pub fn insert(&mut self, uri: &str) -> (r: bool)
        ensures
            r == !old(self).view().contains(uri@),
            final(self).view() == old(self).view().insert(uri@),
    {
        set_insert(&mut self.links, uri)
    }
}

} // verus!
