//! The library's own model of a parsed JSON value tree.
//!
//! The analyzer infers a schema from the *structure* of one example value,
//! so this type records exactly what that inference reads: the kind of each
//! scalar, the elements of each array, and the key/value entries of each
//! object in source order.  The numeric, boolean and string contents of
//! scalars play no part in schema inference and are not kept, except for
//! object keys, which name the generated matcher components.

use vstd::prelude::*;

verus! {

broadcast use vstd::seq::group_seq_axioms, vstd::seq_lib::group_seq_lib_default,
    vstd::std_specs::vec::group_vec_axioms;

/// One parsed JSON value.  Arrays keep their elements in source order and
/// objects keep their entries in source key order.
pub enum JsonVal {
    Null,
    Boolean,
    Number,
    Text,
    Array(Vec<JsonVal>),
    Object(Vec<(String, JsonVal)>),
}

/// Mathematical model of `JsonVal`.
pub enum JsonValV {
    Null,
    Boolean,
    Number,
    Text,
    Array(Seq<JsonValV>),
    Object(Seq<(Seq<char>, JsonValV)>),
}

pub open spec fn json_seq_view(s: Seq<JsonVal>) -> Seq<JsonValV>
    decreases s,
{
    if s.len() == 0 {
        Seq::empty()
    } else {
        json_seq_view(s.drop_last()).push(s.last().view())
    }
}

pub open spec fn json_entries_view(s: Seq<(String, JsonVal)>) -> Seq<(Seq<char>, JsonValV)>
    decreases s,
{
    if s.len() == 0 {
        Seq::empty()
    } else {
        json_entries_view(s.drop_last()).push((s.last().0@, s.last().1.view()))
    }
}

impl View for JsonVal {
    type V = JsonValV;

    open spec fn view(&self) -> JsonValV
        decreases self,
    {
        match self {
            JsonVal::Null => JsonValV::Null,
            JsonVal::Boolean => JsonValV::Boolean,
            JsonVal::Number => JsonValV::Number,
            JsonVal::Text => JsonValV::Text,
            JsonVal::Array(elems) => JsonValV::Array(json_seq_view(elems@)),
            JsonVal::Object(entries) => JsonValV::Object(json_entries_view(entries@)),
        }
    }
}

pub proof fn lemma_json_seq_view_len(s: Seq<JsonVal>)
    ensures
        json_seq_view(s).len() == s.len(),
    decreases s,
{
    if s.len() > 0 {
        lemma_json_seq_view_len(s.drop_last());
        assert(json_seq_view(s) == json_seq_view(s.drop_last()).push(s.last()@));
    }
}

pub proof fn lemma_json_seq_view_index(s: Seq<JsonVal>, i: int)
    requires
        0 <= i < s.len(),
    ensures
        json_seq_view(s)[i] == s[i]@,
    decreases s,
{
    lemma_json_seq_view_len(s);
    lemma_json_seq_view_len(s.drop_last());
    assert(json_seq_view(s) == json_seq_view(s.drop_last()).push(s.last()@));
    if i == s.len() - 1 {
    } else {
        lemma_json_seq_view_index(s.drop_last(), i);
    }
}

pub proof fn lemma_json_entries_view_len(s: Seq<(String, JsonVal)>)
    ensures
        json_entries_view(s).len() == s.len(),
    decreases s,
{
    if s.len() > 0 {
        lemma_json_entries_view_len(s.drop_last());
        assert(json_entries_view(s) == json_entries_view(s.drop_last()).push(
            (s.last().0@, s.last().1@),
        ));
    }
}

pub proof fn lemma_json_entries_view_index(s: Seq<(String, JsonVal)>, i: int)
    requires
        0 <= i < s.len(),
    ensures
        json_entries_view(s)[i] == (s[i].0@, s[i].1@),
    decreases s,
{
    lemma_json_entries_view_len(s);
    lemma_json_entries_view_len(s.drop_last());
    assert(json_entries_view(s) == json_entries_view(s.drop_last()).push(
        (s.last().0@, s.last().1@),
    ));
    if i == s.len() - 1 {
    } else {
        lemma_json_entries_view_index(s.drop_last(), i);
    }
}

/// How far the inner depth can rise while the analyzer descends this
/// value: one level per array, two per object (the object itself and its
/// record layer), following only an array's first element (the one the
/// schema is sampled from) but every entry of an object.
pub open spec fn aheight(v: JsonValV) -> nat
    decreases v, 1int,
{
    match v {
        JsonValV::Null => 0,
        JsonValV::Boolean => 0,
        JsonValV::Number => 0,
        JsonValV::Text => 0,
        JsonValV::Array(elems) => {
            if elems.len() == 0 {
                1
            } else {
                1 + aheight(elems[0])
            }
        },
        JsonValV::Object(entries) => 2 + aheight_entries(entries),
    }
}

/// The largest analyzer descent depth over a set of object entries.
pub open spec fn aheight_entries(entries: Seq<(Seq<char>, JsonValV)>) -> nat
    decreases entries, 0int,
{
    if entries.len() == 0 {
        0
    } else {
        let h0 = aheight(entries[0].1);
        let hr = aheight_entries(entries.drop_first());
        if h0 > hr {
            h0
        } else {
            hr
        }
    }
}

/// The entry set's descent depth is the least bound on its entries'.
pub proof fn lemma_aheight_entries_le(entries: Seq<(Seq<char>, JsonValV)>, b: nat)
    ensures
        (aheight_entries(entries) <= b) <==> (forall|i: int|
            0 <= i < entries.len() ==> aheight((#[trigger] entries[i]).1) <= b),
    decreases entries,
{
    if entries.len() > 0 {
        lemma_aheight_entries_le(entries.drop_first(), b);
        if aheight_entries(entries) <= b {
            assert forall|i: int| 0 <= i < entries.len() implies aheight(
                (#[trigger] entries[i]).1,
            ) <= b by {
                lemma_aheight_entry(entries, i);
            }
        }
        if forall|i: int| 0 <= i < entries.len() ==> aheight((#[trigger] entries[i]).1) <= b {
            assert forall|i: int| 0 <= i < entries.drop_first().len() implies aheight(
                (#[trigger] entries.drop_first()[i]).1,
            ) <= b by {
                assert(entries.drop_first()[i] == entries[i + 1]);
            }
        }
    }
}

/// Each entry's descent depth is bounded by the entry set's.
pub proof fn lemma_aheight_entry(entries: Seq<(Seq<char>, JsonValV)>, i: int)
    requires
        0 <= i < entries.len(),
    ensures
        aheight(entries[i].1) <= aheight_entries(entries),
    decreases entries,
{
    if i > 0 {
        lemma_aheight_entry(entries.drop_first(), i - 1);
    }
}

} // verus!
