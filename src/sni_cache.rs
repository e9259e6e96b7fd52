//! The concurrent map that remembers rewritten hostnames.
use dashmap::DashMap;
use std::collections::hash_map::RandomState;
use vstd::prelude::*;

verus! {

#[verifier::external_type_specification]
#[verifier::external_body]
#[verifier::reject_recursive_types(K)]
#[verifier::reject_recursive_types(V)]
#[verifier::reject_recursive_types(S)]
pub struct ExDashMap<K, V, S>(DashMap<K, V, S>);

/// A concurrent map from client hostname to upstream hostname.
pub type SniMap = DashMap<String, String, RandomState>;

/// The hostname pairs a cache holds.
pub uninterp spec fn cache_contents(m: SniMap) -> Map<Seq<char>, Seq<char>>;

/// Relies on `DashMap::new`: a new map holds nothing.
#[verifier::external_body]
pub(crate) fn cache_new() -> (r: SniMap)
    ensures
        cache_contents(r).dom() == Set::<Seq<char>>::empty(),
{
    DashMap::new()
}

/// Relies on `DashMap::insert`: the key then maps to the value, other keys are unchanged.
#[verifier::external_body]
pub(crate) fn cache_insert(m: &mut DashMap<String, String>, k: String, v: String)
    ensures
        cache_contents(*final(m)) == cache_contents(*old(m)).insert(k@, v@),
{
    m.insert(k, v);
}

/// Relies on `DashMap::get`: the value stored under the key, if any, copied out.
#[verifier::external_body]
pub(crate) fn cache_get(m: &DashMap<String, String>, k: &str) -> (r: Option<String>)
    ensures
        match r {
            Some(v) => cache_contents(*m).contains_key(k@) && cache_contents(*m)[k@] == v@,
            None => !cache_contents(*m).contains_key(k@),
        },
{
    m.get(k).map(|e| e.value().clone())
}

} // verus!
