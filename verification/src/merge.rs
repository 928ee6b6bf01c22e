//! The field-preserving merge of a stored document into a default
//! document.

use vstd::prelude::*;
use crate::json::{distinct_keys, keys, lemma_lookup, lemma_lookup_at, lookup, Json, Member};

verus! {

/// What the merge leaves under the entry `d` of the default document, given
/// the entries `l` of the stored one: the merge of the two values where `l`
/// has the key too, else the default value.
pub open spec fn merge_member(l: Seq<Member>, d: Member) -> Member
    decreases d, 0int,
{
    Member {
        key: d.key,
        value: match lookup(l, d.key) {
            Some(lv) => merge(lv, d.value),
            None => d.value,
        },
    }
}

/// The merge of the document `loaded` into the document `default`.
///
/// Where both are objects, the result has the keys of `default`, in its
/// order: under a key that `loaded` has too stands the merge of the two
/// values, under any other key the value of `default`. Keys that only
/// `loaded` has are left out. Where either is no object, the result is
/// `loaded`.
pub open spec fn merge(loaded: Json, default: Json) -> Json
    decreases default, 1int,
{
    match (loaded, default) {
        (Json::Object(l), Json::Object(d)) => Json::Object(
            Seq::new(
                d.len(),
                |i: int|
                    if 0 <= i < d.len() {
                        merge_member(l, d[i])
                    } else {
                        Member { key: Seq::empty(), value: Json::Null }
                    },
            ),
        ),
        _ => loaded,
    }
}

/// What stands in `doc` at the end of `path`, a list of keys that leads from
/// object to object.
pub open spec fn at_path(doc: Json, path: Seq<Seq<char>>) -> Option<Json>
    decreases path.len(),
{
    if path.len() == 0 {
        Some(doc)
    } else {
        match doc {
            Json::Object(entries) => match lookup(entries, path[0]) {
                Some(v) => at_path(v, path.drop_first()),
                None => None,
            },
            _ => None,
        }
    }
}

/// The merge of two objects, key by key: a key of the default object keeps
/// its place and holds the merge of the two values where the stored object
/// has it too, the default value where it has not; any other key is absent.
pub proof fn lemma_merge_lookup(l: Seq<Member>, d: Seq<Member>, key: Seq<char>)
    ensures
        merge(Json::Object(l), Json::Object(d)) is Object,
        keys(merge(Json::Object(l), Json::Object(d))->Object_0) == keys(d),
        lookup(merge(Json::Object(l), Json::Object(d))->Object_0, key) == (match lookup(d, key) {
            Some(dv) => match lookup(l, key) {
                Some(lv) => Some(merge(lv, dv)),
                None => Some(dv),
            },
            None => None,
        }),
    decreases d.len(),
{
    let m = merge(Json::Object(l), Json::Object(d))->Object_0;
    assert(keys(m) =~= keys(d));
    if d.len() > 0 {
        lemma_merge_lookup(l, d.drop_first(), key);
        let rest = merge(Json::Object(l), Json::Object(d.drop_first()))->Object_0;
        assert(m.drop_first() =~= rest);
        assert(m[0] == merge_member(l, d[0]));
    }
}

/// The merge of two objects whose stored values are no objects: the result
/// has the keys of the default object, each with the stored value where the
/// stored object has the key, and with the default value where it has not.
pub proof fn lemma_merge_flat(l: Seq<Member>, d: Seq<Member>, expected: Seq<Member>)
    requires
        expected.len() == d.len(),
        forall|i: int|
            0 <= i < d.len() ==> (#[trigger] expected[i]).key == d[i].key && (match lookup(
                l,
                d[i].key,
            ) {
                Some(lv) => !(lv is Object) && expected[i].value == lv,
                None => expected[i].value == d[i].value,
            }),
    ensures
        merge(Json::Object(l), Json::Object(d)) == Json::Object(expected),
{
    let merged = merge(Json::Object(l), Json::Object(d));
    assert(merged matches Json::Object(m) && m =~= expected) by {
        let m = merged->Object_0;
        assert(m.len() == d.len());
        assert forall|i: int| 0 <= i < d.len() implies m[i] == expected[i] by {
            assert(m[i] == merge_member(l, d[i]));
            assert(expected[i].key == d[i].key);
        }
    }
}

/// A value that is no object replaces whatever the default document holds
/// in its place, and so does any value where the default holds no object.
pub proof fn lemma_merge_loaded_wins(loaded: Json, default: Json)
    requires
        !(loaded is Object) || !(default is Object),
    ensures
        merge(loaded, default) == loaded,
{
}

/// Following one more key from the end of a path.
pub proof fn lemma_at_path_push(doc: Json, path: Seq<Seq<char>>, key: Seq<char>)
    ensures
        at_path(doc, path.push(key)) == (match at_path(doc, path) {
            Some(Json::Object(entries)) => lookup(entries, key),
            _ => None,
        }),
    decreases path.len(),
{
    let longer = path.push(key);
    if path.len() == 0 {
        assert(longer.drop_first() =~= Seq::<Seq<char>>::empty());
        assert(longer[0] == key);
        match doc {
            Json::Object(entries) => {
                match lookup(entries, key) {
                    Some(v) => {
                        assert(at_path(v, longer.drop_first()) == Some(v));
                    },
                    None => {},
                }
            },
            _ => {},
        }
    } else {
        assert(longer.drop_first() =~= path.drop_first().push(key));
        assert(longer[0] == path[0]);
        match doc {
            Json::Object(entries) => {
                match lookup(entries, path[0]) {
                    Some(v) => {
                        lemma_at_path_push(v, path.drop_first(), key);
                    },
                    None => {},
                }
            },
            _ => {},
        }
    }
}

/// Wherever both documents hold a value at the end of the same path, the
/// merged document holds the merge of the two there. With
/// `lemma_merge_loaded_wins`: a stored value that is no object is kept as it
/// is, however deep it lies.
pub proof fn lemma_merge_at_path(loaded: Json, default: Json, path: Seq<Seq<char>>)
    requires
        at_path(loaded, path) is Some,
        at_path(default, path) is Some,
    ensures
        at_path(merge(loaded, default), path) == Some(
            merge(at_path(loaded, path)->0, at_path(default, path)->0),
        ),
    decreases path.len(),
{
    if path.len() > 0 {
        let l = loaded->Object_0;
        let d = default->Object_0;
        lemma_merge_lookup(l, d, path[0]);
        lemma_merge_at_path(lookup(l, path[0])->0, lookup(d, path[0])->0, path.drop_first());
    }
}

/// A stored value that is no object is kept as it is, at whatever depth it
/// lies, provided that the default document has a value in the same place.
pub proof fn lemma_merge_keeps_stored_value(loaded: Json, default: Json, path: Seq<Seq<char>>)
    requires
        at_path(loaded, path) matches Some(v) && !(v is Object),
        at_path(default, path) is Some,
    ensures
        at_path(merge(loaded, default), path) == at_path(loaded, path),
{
    lemma_merge_at_path(loaded, default, path);
}

/// A key that the stored document lacks, in an object that both documents
/// have at the end of the same path, holds the default value after the
/// merge.
pub proof fn lemma_merge_fills_default(
    loaded: Json,
    default: Json,
    path: Seq<Seq<char>>,
    key: Seq<char>,
)
    requires
        at_path(loaded, path) matches Some(Json::Object(l)) && lookup(l, key) is None,
        at_path(default, path) matches Some(Json::Object(d)) && lookup(d, key) is Some,
    ensures
        at_path(merge(loaded, default), path.push(key)) == at_path(default, path.push(key)),
{
    lemma_merge_at_path(loaded, default, path);
    lemma_merge_lookup(at_path(loaded, path)->0->Object_0, at_path(default, path)->0->Object_0, key);
    lemma_at_path_push(merge(loaded, default), path, key);
    lemma_at_path_push(default, path, key);
}

/// A key that the default document lacks, in an object that both documents
/// have at the end of the same path, is absent after the merge, whatever
/// the stored document holds under it.
pub proof fn lemma_merge_prunes_unknown(
    loaded: Json,
    default: Json,
    path: Seq<Seq<char>>,
    key: Seq<char>,
)
    requires
        at_path(loaded, path) matches Some(Json::Object(l)),
        at_path(default, path) matches Some(Json::Object(d)) && lookup(d, key) is None,
    ensures
        at_path(merge(loaded, default), path.push(key)) is None,
{
    lemma_merge_at_path(loaded, default, path);
    lemma_merge_lookup(at_path(loaded, path)->0->Object_0, at_path(default, path)->0->Object_0, key);
    lemma_at_path_push(merge(loaded, default), path, key);
}

/// Merging a document into itself changes nothing, provided that no object
/// in it holds a key twice.
pub proof fn lemma_merge_self(doc: Json)
    requires
        distinct_keys(doc),
    ensures
        merge(doc, doc) == doc,
    decreases doc,
{
    match doc {
        Json::Object(d) => {
            let m = merge(doc, doc)->Object_0;
            assert forall|i: int| 0 <= i < d.len() implies m[i] == d[i] by {
                lemma_lookup(d, d[i].key);
                lemma_merge_self(d[i].value);
            }
            assert(m =~= d);
        },
        _ => {},
    }
}

/// Merging a second time into the same default changes nothing, provided
/// that no object of the default holds a key twice: what the merge gives is
/// already up to date.
pub proof fn lemma_merge_idempotent(loaded: Json, default: Json)
    requires
        distinct_keys(default),
    ensures
        merge(merge(loaded, default), default) == merge(loaded, default),
    decreases default,
{
    match (loaded, default) {
        (Json::Object(l), Json::Object(d)) => {
            let once = merge(loaded, default);
            let m = once->Object_0;
            let again = merge(once, default)->Object_0;
            assert forall|i: int| 0 <= i < d.len() implies again[i] == m[i] by {
                let key = d[i].key;
                assert(m[i] == merge_member(l, d[i]));
                assert forall|j: int| 0 <= j < i implies m[j].key != key by {
                    assert(m[j] == merge_member(l, d[j]));
                }
                lemma_lookup_at(m, key, i);
                assert(again[i] == merge_member(m, d[i]));
                match lookup(l, key) {
                    Some(lv) => {
                        lemma_merge_idempotent(lv, d[i].value);
                    },
                    None => {
                        lemma_merge_self(d[i].value);
                    },
                }
            }
            assert(again =~= m);
        },
        _ => {},
    }
}

} // verus!
