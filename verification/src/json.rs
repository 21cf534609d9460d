//! Model of the settings document and the trusted boundary around serde_json.
//!
//! A settings document is a JSON object: a sequence of key/value entries whose
//! keys are pairwise distinct. Values of keys this library does not own are
//! opaque; they are only ever carried through unchanged. The abstraction of a
//! document is the map from key text to value, `entries_map`; parsing and
//! serialising are named, uninterpreted functions of that abstraction, tied to
//! serde_json by the contracts of the wrappers below.

use vstd::prelude::*;

verus! {

/// serde_json's JSON value, declared so it can stand in signatures and
/// fields. The verifier sees nothing inside such a value: values of keys
/// this library does not own are only ever moved, never inspected.
#[verifier::external_type_specification]
#[verifier::external_body]
pub struct ExValue(serde_json::Value);

/// The keys of the entries are pairwise distinct.
pub open spec fn unique_keys(es: Seq<(String, serde_json::Value)>) -> bool {
    forall|i: int, j: int| 0 <= i < j < es.len() ==> es[i].0@ != es[j].0@
}

/// The key/value map that a sequence of entries stands for. With duplicate
/// keys the later entry wins, as it does in the underlying JSON map.
pub open spec fn entries_map(es: Seq<(String, serde_json::Value)>) -> Map<
    Seq<char>,
    serde_json::Value,
>
    decreases es.len(),
{
    if es.len() == 0 {
        Map::empty()
    } else {
        entries_map(es.drop_last()).insert(es.last().0@, es.last().1)
    }
}

/// What parsing a text as a JSON object yields: the object's key/value map,
/// or nothing where the text is not a JSON object.
pub uninterp spec fn settings_entries(s: Seq<char>) -> Option<
    Map<Seq<char>, serde_json::Value>,
>;

/// What pretty-serialising a key/value map as a JSON object yields.
pub uninterp spec fn rendered_settings(m: Map<Seq<char>, serde_json::Value>) -> Seq<char>;

/// The JSON string value holding the given text.
pub uninterp spec fn str_value(s: Seq<char>) -> serde_json::Value;

/// The JSON number value holding the given unsigned integer.
pub uninterp spec fn u64_value(n: u64) -> serde_json::Value;

/// The JSON object value holding the given key/value map.
pub uninterp spec fn object_value(m: Map<Seq<char>, serde_json::Value>) -> serde_json::Value;

/// Relies on serde_json::from_str. Parsing is a function of the text alone;
/// the text parses as a JSON object exactly when `settings_entries` gives a
/// map, and the returned entries then carry that map, each key once.
#[verifier::external_body]
pub(crate) fn parse_settings(s: &str) -> (r: Option<Vec<(String, serde_json::Value)>>)
    ensures
        r is Some <==> settings_entries(s@) is Some,
        r matches Some(es) ==> unique_keys(es@) && Some(entries_map(es@)) == settings_entries(
            s@,
        ),
{
    match serde_json::from_str::<serde_json::Value>(s) {
        Ok(serde_json::Value::Object(m)) => Some(m.into_iter().collect()),
        _ => None,
    }
}

/// Relies on serde_json::to_string_pretty. For entries with pairwise
/// distinct keys the output depends only on the key/value map (the
/// underlying object map is ordered by key, so the order of the entries
/// handed in cannot show), and parsing the output back yields that same map.
#[verifier::external_body]
pub(crate) fn render_settings(es: Vec<(String, serde_json::Value)>) -> (r: String)
    requires
        unique_keys(es@),
    ensures
        r@ == rendered_settings(entries_map(es@)),
        settings_entries(r@) == Some(entries_map(es@)),
{
    let m: serde_json::Map<String, serde_json::Value> = es.into_iter().collect();
    serde_json::to_string_pretty(&serde_json::Value::Object(m)).unwrap()
}

/// Relies on serde_json::Value::String: wraps the given text as a JSON
/// string value.
#[verifier::external_body]
pub(crate) fn json_string(s: &str) -> (v: serde_json::Value)
    ensures
        v == str_value(s@),
{
    serde_json::Value::String(s.to_string())
}

/// Relies on serde_json::Number::from and serde_json::Value::Number: wraps
/// the given unsigned integer as a JSON number value.
#[verifier::external_body]
pub(crate) fn json_u64(n: u64) -> (v: serde_json::Value)
    ensures
        v == u64_value(n),
{
    serde_json::Value::Number(serde_json::Number::from(n))
}

/// Relies on serde_json::Value::Object: wraps entries with pairwise distinct
/// keys as the JSON object value carrying exactly that key/value map.
#[verifier::external_body]
pub(crate) fn json_object(es: Vec<(String, serde_json::Value)>) -> (v: serde_json::Value)
    requires
        unique_keys(es@),
    ensures
        v == object_value(entries_map(es@)),
{
    serde_json::Value::Object(es.into_iter().collect())
}

/// A key occurs in the map of a sequence of entries exactly when some entry
/// carries it.
pub proof fn lemma_entries_map_contains(es: Seq<(String, serde_json::Value)>, k: Seq<char>)
    ensures
        entries_map(es).dom().contains(k) <==> exists|i: int|
            0 <= i < es.len() && es[i].0@ == k,
    decreases es.len(),
{
    if es.len() > 0 {
        lemma_entries_map_contains(es.drop_last(), k);
        if es.last().0@ == k {
            assert(es[es.len() - 1].0@ == k);
        } else {
            if exists|i: int| 0 <= i < es.len() && es[i].0@ == k {
                let i = choose|i: int| 0 <= i < es.len() && es[i].0@ == k;
                assert(es.drop_last()[i] == es[i]);
            }
        }
    }
}

/// Dropping the last entry keeps the keys pairwise distinct.
pub proof fn lemma_unique_keys_drop_last(es: Seq<(String, serde_json::Value)>)
    requires
        unique_keys(es),
        es.len() > 0,
    ensures
        unique_keys(es.drop_last()),
{
    assert forall|i: int, j: int|
        0 <= i < j < es.drop_last().len() implies es.drop_last()[i].0@ != es.drop_last()[j].0@ by {
        assert(es.drop_last()[i] == es[i]);
        assert(es.drop_last()[j] == es[j]);
    }
}

/// Replacing the value of the entry at one position, keeping its key, turns
/// the map of the entries into the map with that key re-bound.
pub proof fn lemma_entries_map_update(
    es: Seq<(String, serde_json::Value)>,
    i: int,
    v: serde_json::Value,
)
    requires
        unique_keys(es),
        0 <= i < es.len(),
    ensures
        unique_keys(es.update(i, (es[i].0, v))),
        entries_map(es.update(i, (es[i].0, v))) == entries_map(es).insert(es[i].0@, v),
    decreases es.len(),
{
    let es2 = es.update(i, (es[i].0, v));
    assert forall|a: int, b: int| 0 <= a < b < es2.len() implies es2[a].0@ != es2[b].0@ by {
        assert(es2[a].0@ == es[a].0@);
        assert(es2[b].0@ == es[b].0@);
    }
    if i == es.len() - 1 {
        assert(es2.drop_last() =~= es.drop_last());
        assert(es2.last() == (es[i].0, v));
        assert(entries_map(es2) == entries_map(es.drop_last()).insert(es[i].0@, v));
        assert(entries_map(es.drop_last()).insert(es.last().0@, es.last().1).insert(es[i].0@, v)
            =~= entries_map(es.drop_last()).insert(es[i].0@, v));
    } else {
        lemma_unique_keys_drop_last(es);
        assert(es2.drop_last() =~= es.drop_last().update(i, (es[i].0, v)));
        assert(es.drop_last()[i] == es[i]);
        lemma_entries_map_update(es.drop_last(), i, v);
        assert(es2.last() == es.last());
        // The replaced key and the last key are distinct, so the two inserts
        // commute.
        assert(es[i].0@ != es.last().0@);
        assert(entries_map(es.drop_last()).insert(es[i].0@, v).insert(es.last().0@, es.last().1)
            =~= entries_map(es.drop_last()).insert(es.last().0@, es.last().1).insert(
            es[i].0@,
            v,
        ));
    }
}

/// Appending an entry whose key no entry carries keeps the keys pairwise
/// distinct and binds that key in the map of the entries.
pub proof fn lemma_entries_map_push(
    es: Seq<(String, serde_json::Value)>,
    e: (String, serde_json::Value),
)
    requires
        unique_keys(es),
        forall|i: int| 0 <= i < es.len() ==> es[i].0@ != e.0@,
    ensures
        unique_keys(es.push(e)),
        entries_map(es.push(e)) == entries_map(es).insert(e.0@, e.1),
{
    let es2 = es.push(e);
    assert forall|a: int, b: int| 0 <= a < b < es2.len() implies es2[a].0@ != es2[b].0@ by {
        if b < es.len() {
            assert(es2[a] == es[a]);
            assert(es2[b] == es[b]);
        } else {
            assert(es2[a] == es[a]);
            assert(es2[b] == e);
        }
    }
    assert(es2.drop_last() =~= es);
    assert(es2.last() == e);
}

} // verus!
