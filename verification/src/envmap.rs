//! The environment variable map.
//!
//! The configuration's environment travels as a list of name/value pairs;
//! what the compilation consumes is a map with unique keys, where a later
//! pair wins over an earlier one with the same name. The map itself is an
//! insertion-ordered map from an outside collection library; this layer
//! relies on its documented contract and proves everything built on top.

use vstd::prelude::*;

use crate::decimal::{dec_seq, u64_to_decimal};

verus! {

/// The outside insertion-ordered map type, as the collection library
/// defines it.
#[verifier::external_type_specification]
#[verifier::external_body]
#[verifier::reject_recursive_types(K)]
#[verifier::reject_recursive_types(V)]
#[verifier::reject_recursive_types(S)]
pub struct ExIndexMap<K, V, S>(indexmap::IndexMap<K, V, S>);

/// What an environment map holds: its entries, keyed by name.
pub uninterp spec fn env_map_contents(m: indexmap::IndexMap<String, String>) -> Map<
    Seq<char>,
    Seq<char>,
>;

/// The contents of a map with no entries.
pub open spec fn empty_env_contents() -> Map<Seq<char>, Seq<char>> {
    Map::empty()
}

/// Relies on `IndexMap::new`: creates an empty map.
#[verifier::external_body]
pub(crate) fn env_map_new() -> (m: indexmap::IndexMap<String, String>)
    ensures
        env_map_contents(m) == empty_env_contents(),
{
    indexmap::IndexMap::new()
}

/// Relies on `IndexMap::insert`: an equivalent key's value is updated and
/// the old value returned; a new key is appended with nothing returned.
#[verifier::external_body]
pub(crate) fn env_map_insert(
    m: &mut indexmap::IndexMap<String, String>,
    key: String,
    value: String,
) -> (prev: Option<String>)
    ensures
        env_map_contents(*final(m)) == env_map_contents(*old(m)).insert(key@, value@),
        prev is Some <==> env_map_contents(*old(m)).dom().contains(key@),
        prev matches Some(p) ==> p@ == env_map_contents(*old(m))[key@],
{
    m.insert(key, value)
}

/// Relies on `IndexMap::get`: returns the stored value for the key, if it
/// is present.
#[verifier::external_body]
pub(crate) fn env_map_get<'a>(m: &'a indexmap::IndexMap<String, String>, key: &String) -> (r: Option<
    &'a String,
>)
    ensures
        r is Some <==> env_map_contents(*m).dom().contains(key@),
        r matches Some(v) ==> v@ == env_map_contents(*m)[key@],
{
    m.get(key)
}

/// Relies on `IndexMap::len`: the number of entries.
#[verifier::external_body]
pub(crate) fn env_map_len(m: &indexmap::IndexMap<String, String>) -> (n: usize)
    ensures
        n == env_map_contents(*m).dom().len(),
{
    m.len()
}

/// Relies on `IndexMap::contains_key`: whether an equivalent key exists.
#[verifier::external_body]
pub(crate) fn env_map_contains_key(m: &indexmap::IndexMap<String, String>, key: &String) -> (r: bool)
    ensures
        r == env_map_contents(*m).dom().contains(key@),
{
    m.contains_key(key)
}

/// The map a list of pairs collects into: later pairs win.
pub open spec fn env_pairs_map(pairs: Seq<(Seq<char>, Seq<char>)>) -> Map<Seq<char>, Seq<char>>
    decreases pairs.len(),
{
    if pairs.len() == 0 {
        Map::empty()
    } else {
        env_pairs_map(pairs.drop_last()).insert(pairs.last().0, pairs.last().1)
    }
}

/// The views of a pair list.
pub open spec fn pair_views(pairs: Seq<(String, String)>) -> Seq<(Seq<char>, Seq<char>)> {
    pairs.map_values(|p: (String, String)| (p.0@, p.1@))
}

/// Collect the configuration's environment pairs into the map the
/// compilation consumes: unique keys, later pairs winning.
pub fn build_env_map(pairs: &Vec<(String, String)>) -> (m: indexmap::IndexMap<String, String>)
    ensures
        env_map_contents(m) == env_pairs_map(pair_views(pairs@)),
{
    let mut m = env_map_new();
    let n = pairs.len();
    let mut i: usize = 0;
    while i < n
        invariant
            n == pairs@.len(),
            i <= n,
            env_map_contents(m) == env_pairs_map(pair_views(pairs@.take(i as int))),
        decreases n - i,
    {
        let name = pairs[i].0.clone();
        let value = pairs[i].1.clone();
        env_map_insert(&mut m, name, value);
        proof {
            let views = pair_views(pairs@.take(i + 1));
            assert(views.drop_last() =~= pair_views(pairs@.take(i as int)));
            assert(views.last() == (pairs@[i as int].0@, pairs@[i as int].1@));
        }
        i += 1;
    }
    proof {
        assert(pairs@.take(n as int) =~= pairs@);
    }
    m
}

/// The environment overriding map the server hands the process loader: the
/// bound port, when there is one, published as `PORT`. With no port to
/// publish the environment is passed through unchanged, so there is no map.
pub fn server_env_overrides(port: Option<u16>) -> (r: Option<
    indexmap::IndexMap<String, String>,
>)
    ensures
        r is Some <==> port is Some,
        r matches Some(m) ==> (port matches Some(p) && env_map_contents(m)
            == empty_env_contents().insert("PORT"@, dec_seq(p as nat))),
{
    match port {
        Some(p) => {
            let mut m = env_map_new();
            let port_string = u64_to_decimal(p as u64);
            env_map_insert(&mut m, String::from_str("PORT"), port_string);
            Some(m)
        },
        None => None,
    }
}

/// Look a name up in an environment map.
pub fn env_lookup<'a>(m: &'a indexmap::IndexMap<String, String>, name: &String) -> (r: Option<
    &'a String,
>)
    ensures
        r is Some <==> env_map_contents(*m).dom().contains(name@),
        r matches Some(v) ==> v@ == env_map_contents(*m)[name@],
{
    env_map_get(m, name)
}

/// How many distinct names an environment map holds.
pub fn env_size(m: &indexmap::IndexMap<String, String>) -> (n: usize)
    ensures
        n == env_map_contents(*m).dom().len(),
{
    env_map_len(m)
}

/// Whether an environment map holds a name.
pub fn env_has(m: &indexmap::IndexMap<String, String>, name: &String) -> (r: bool)
    ensures
        r == env_map_contents(*m).dom().contains(name@),
{
    env_map_contains_key(m, name)
}

} // verus!
