//! The type registry: deduplicates stream-type declarations so each
//! declaration is emitted once, however many entities reference it.

use vstd::prelude::*;

use crate::til::StreamType;

verus! {

broadcast use vstd::seq::group_seq_axioms, vstd::seq_lib::group_seq_lib_default,
    vstd::std_specs::vec::group_vec_axioms;

/// Registering one stream type: appended only if not already present.
pub open spec fn spec_reg_type(ts: Seq<StreamType>, t: StreamType) -> Seq<StreamType> {
    if ts.contains(t) {
        ts
    } else {
        ts.push(t)
    }
}

/// Registering a list of stream types, left to right.
pub open spec fn spec_reg_types(ts: Seq<StreamType>, list: Seq<StreamType>) -> Seq<StreamType>
    decreases list,
{
    if list.len() == 0 {
        ts
    } else {
        spec_reg_type(spec_reg_types(ts, list.drop_last()), list.last())
    }
}

/// No stream type occurs twice.
pub open spec fn types_distinct(ts: Seq<StreamType>) -> bool {
    forall|i: int, j: int| 0 <= i < j < ts.len() ==> #[trigger] ts[i] != #[trigger] ts[j]
}

pub proof fn lemma_reg_type_distinct(ts: Seq<StreamType>, t: StreamType)
    requires
        types_distinct(ts),
    ensures
        types_distinct(spec_reg_type(ts, t)),
        spec_reg_type(ts, t).contains(t),
        forall|x: StreamType| ts.contains(x) ==> #[trigger] spec_reg_type(ts, t).contains(x),
        forall|x: StreamType|
            #[trigger] spec_reg_type(ts, t).contains(x) ==> ts.contains(x) || x == t,
{
    if !ts.contains(t) {
        let r = ts.push(t);
        assert forall|i: int, j: int| 0 <= i < j < r.len() implies #[trigger] r[i] != #[trigger] r[j] by {
            if j < ts.len() {
            } else {
                assert(r[j] == t);
                assert(!ts.contains(t));
                assert(r[i] == ts[i]);
            }
        }
        assert(r[ts.len() as int] == t);
        assert forall|x: StreamType| ts.contains(x) implies #[trigger] r.contains(x) by {
            let w = choose|w: int| 0 <= w < ts.len() && ts[w] == x;
            assert(r[w] == x);
        }
        assert forall|x: StreamType| #[trigger] r.contains(x) implies ts.contains(x) || x == t by {
            let w = choose|w: int| 0 <= w < r.len() && r[w] == x;
            if w < ts.len() {
                assert(ts[w] == x);
            }
        }
    }
}

pub proof fn lemma_reg_types_distinct(ts: Seq<StreamType>, list: Seq<StreamType>)
    requires
        types_distinct(ts),
    ensures
        types_distinct(spec_reg_types(ts, list)),
        forall|x: StreamType|
            ts.contains(x) ==> #[trigger] spec_reg_types(ts, list).contains(x),
        forall|x: StreamType|
            list.contains(x) ==> #[trigger] spec_reg_types(ts, list).contains(x),
        forall|x: StreamType|
            #[trigger] spec_reg_types(ts, list).contains(x) ==> ts.contains(x) || list.contains(
                x,
            ),
    decreases list,
{
    if list.len() == 0 {
    } else {
        lemma_reg_types_distinct(ts, list.drop_last());
        lemma_reg_type_distinct(spec_reg_types(ts, list.drop_last()), list.last());
        assert forall|x: StreamType| list.contains(x) implies #[trigger] spec_reg_types(
            ts,
            list,
        ).contains(x) by {
            let w = choose|w: int| 0 <= w < list.len() && list[w] == x;
            if w < list.len() - 1 {
                assert(list.drop_last()[w] == x);
                assert(list.drop_last().contains(x));
            } else {
                assert(x == list.last());
            }
        }
        assert forall|x: StreamType| #[trigger] spec_reg_types(ts, list).contains(x) implies ts
            .contains(x) || list.contains(x) by {
            if spec_reg_types(ts, list.drop_last()).contains(x) {
                if list.drop_last().contains(x) {
                    let w = choose|w: int| 0 <= w < list.len() - 1 && list.drop_last()[w] == x;
                    assert(list[w] == x);
                }
            } else {
                assert(x == list.last());
            }
        }
    }
}

/// The deduplicated stream-type list, in first-registration order.
pub struct TypeManager {
    stream_types: Vec<StreamType>,
}

impl View for TypeManager {
    type V = Seq<StreamType>;

    closed spec fn view(&self) -> Seq<StreamType> {
        self.stream_types@
    }
}

impl TypeManager {
    /// An empty registry: no stream types registered yet.
    pub fn new() -> (r: TypeManager)
        ensures
            r@ == Seq::<StreamType>::empty(),
    {
        TypeManager { stream_types: Vec::new() }
    }

    /// Registers one stream type; true exactly when it was newly
    /// inserted, so a declaration is emitted only on the first
    /// registration of its name.
    pub fn register(&mut self, t: StreamType) -> (fresh: bool)
        ensures
            fresh == !old(self)@.contains(t),
            final(self)@ == spec_reg_type(old(self)@, t),
    {
        let mut i: usize = 0;
        while i < self.stream_types.len()
            invariant
                i <= self.stream_types.len(),
                self == old(self),
                forall|j: int| 0 <= j < i ==> self.stream_types@[j] != t,
            decreases self.stream_types.len() - i,
        {
            if self.stream_types[i] == t {
                assert(old(self)@.contains(t));
                return false;
            }
            i = i + 1;
        }
        assert(!old(self)@.contains(t));
        self.stream_types.push(t);
        true
    }

    /// Registers every stream type of a list, left to right.
    pub fn register_many(&mut self, list: &Vec<StreamType>)
        ensures
            final(self)@ == spec_reg_types(old(self)@, list@),
    {
        let mut i: usize = 0;
        while i < list.len()
            invariant
                i <= list.len(),
                self@ == spec_reg_types(old(self)@, list@.take(i as int)),
            decreases list.len() - i,
        {
            let t = list[i];
            self.register(t);
            proof {
                assert(list@.take(i + 1).drop_last() =~= list@.take(i as int));
                assert(list@.take(i + 1).last() == list@[i as int]);
            }
            i = i + 1;
        }
        proof {
            assert(list@.take(list@.len() as int) =~= list@);
        }
    }

    /// The deduplicated stream types, in first-registration order.
    pub fn get_stream_types(&self) -> (r: Vec<StreamType>)
        ensures
            r@ == self@,
    {
        let mut r: Vec<StreamType> = Vec::new();
        let mut i: usize = 0;
        while i < self.stream_types.len()
            invariant
                i <= self.stream_types.len(),
                r@ =~= self@.take(i as int),
            decreases self.stream_types.len() - i,
        {
            r.push(self.stream_types[i]);
            i = i + 1;
        }
        proof {
            assert(self@.take(self@.len() as int) =~= self@);
        }
        r
    }
}

} // verus!
