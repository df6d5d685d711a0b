//! The name registry: issues collision-free identifiers for generated
//! entities, keyed by a base name and a structural depth.
//!
//! An identifier is the triple (base name, depth, serial).  The registry
//! gives the same (base, depth) pair a fresh serial on every registration,
//! so all identifiers issued within one run are pairwise distinct.

use vstd::prelude::*;

verus! {

broadcast use vstd::seq::group_seq_axioms, vstd::seq_lib::group_seq_lib_default,
    vstd::std_specs::vec::group_vec_axioms;

/// A generated entity identifier: a base name, the outer depth it was
/// registered at, and a serial that disambiguates repeated registrations
/// of the same (base, depth) pair.
pub struct EntityName {
    pub base: String,
    pub depth: usize,
    pub serial: usize,
}

/// Mathematical model of `EntityName`.
pub struct NameV {
    pub base: Seq<char>,
    pub depth: int,
    pub serial: int,
}

impl View for EntityName {
    type V = NameV;

    open spec fn view(&self) -> NameV {
        NameV { base: self.base@, depth: self.depth as int, serial: self.serial as int }
    }
}

impl Clone for EntityName {
    fn clone(&self) -> (r: Self)
        ensures
            r@ == self@,
    {
        EntityName { base: self.base.clone(), depth: self.depth, serial: self.serial }
    }
}

/// How many of the already issued names share this (base, depth) pair.
pub open spec fn count_pair(names: Seq<NameV>, base: Seq<char>, depth: int) -> nat
    decreases names,
{
    if names.len() == 0 {
        0
    } else {
        count_pair(names.drop_last(), base, depth) + if names.last().base == base
            && names.last().depth == depth {
            1nat
        } else {
            0nat
        }
    }
}

/// The identifier that registering (base, depth) against the given issued
/// list yields.
pub open spec fn spec_register(names: Seq<NameV>, base: Seq<char>, depth: int) -> NameV {
    NameV { base, depth, serial: count_pair(names, base, depth) as int }
}

/// The registry invariant: every issued name's serial records how many
/// names with the same (base, depth) pair preceded it.
pub open spec fn names_wf(names: Seq<NameV>) -> bool {
    forall|i: int|
        0 <= i < names.len() ==> (#[trigger] names[i]).serial == count_pair(
            names.take(i),
            names[i].base,
            names[i].depth,
        )
}

/// A name at a matching position strictly raises the count of every longer
/// prefix.
pub proof fn lemma_count_pair_sees(names: Seq<NameV>, base: Seq<char>, depth: int, i: int, j: int)
    requires
        0 <= i < j <= names.len(),
        names[i].base == base,
        names[i].depth == depth,
    ensures
        count_pair(names.take(i), base, depth) < count_pair(names.take(j), base, depth),
    decreases j - i,
{
    if j == i + 1 {
        assert(names.take(j).drop_last() =~= names.take(i));
        assert(names.take(j).last() == names[i]);
    } else {
        lemma_count_pair_sees(names, base, depth, i, j - 1);
        assert(names.take(j).drop_last() =~= names.take(j - 1));
    }
}

/// Names issued under the registry invariant are pairwise distinct.
pub proof fn lemma_names_distinct(names: Seq<NameV>, i: int, j: int)
    requires
        names_wf(names),
        0 <= i < j < names.len(),
    ensures
        names[i] != names[j],
{
    if names[i].base == names[j].base && names[i].depth == names[j].depth {
        lemma_count_pair_sees(names, names[i].base, names[i].depth, i, j);
    }
}

/// Registering preserves the registry invariant.
pub proof fn lemma_register_wf(names: Seq<NameV>, base: Seq<char>, depth: int)
    requires
        names_wf(names),
    ensures
        names_wf(names.push(spec_register(names, base, depth))),
{
    let pushed = names.push(spec_register(names, base, depth));
    assert forall|i: int| 0 <= i < pushed.len() implies (#[trigger] pushed[i]).serial == count_pair(
        pushed.take(i),
        pushed[i].base,
        pushed[i].depth,
    ) by {
        assert(pushed.take(i) =~= names.take(i));
        if i < names.len() {
            assert(names[i].serial == count_pair(names.take(i), names[i].base, names[i].depth));
        } else {
            assert(names.take(i) =~= names);
        }
    }
}

/// The issued list of the name registry, oldest first.
pub struct NameReg {
    issued: Vec<EntityName>,
}

pub open spec fn names_view(s: Seq<EntityName>) -> Seq<NameV>
    decreases s,
{
    if s.len() == 0 {
        Seq::empty()
    } else {
        names_view(s.drop_last()).push(s.last()@)
    }
}

pub proof fn lemma_names_view_len(s: Seq<EntityName>)
    ensures
        names_view(s).len() == s.len(),
    decreases s,
{
    if s.len() > 0 {
        lemma_names_view_len(s.drop_last());
    }
}

pub proof fn lemma_names_view_index(s: Seq<EntityName>, i: int)
    requires
        0 <= i < s.len(),
    ensures
        names_view(s)[i] == s[i]@,
    decreases s,
{
    lemma_names_view_len(s);
    if i < s.len() - 1 {
        lemma_names_view_index(s.drop_last(), i);
        lemma_names_view_len(s.drop_last());
    }
}

pub proof fn lemma_names_view_push(s: Seq<EntityName>, x: EntityName)
    ensures
        names_view(s.push(x)) == names_view(s).push(x@),
{
    assert(s.push(x).drop_last() =~= s);
}

impl View for NameReg {
    type V = Seq<NameV>;

    closed spec fn view(&self) -> Seq<NameV> {
        names_view(self.issued@)
    }
}

impl NameReg {
    /// An empty registry: no names issued yet.
    pub fn new() -> (r: NameReg)
        ensures
            r@ == Seq::<NameV>::empty(),
    {
        NameReg { issued: Vec::new() }
    }

    /// Issues the identifier for (base, depth): the serial is the number
    /// of names already issued for that same pair, so the result differs
    /// from every name issued before it.
    pub fn register(&mut self, base: String, depth: usize) -> (r: EntityName)
        ensures
            r@ == spec_register(old(self)@, base@, depth as int),
            final(self)@ == old(self)@.push(r@),
    {
        let ghost names = self@;
        proof {
            lemma_names_view_len(self.issued@);
        }
        let mut count: usize = 0;
        let mut i: usize = 0;
        while i < self.issued.len()
            invariant
                i <= self.issued.len(),
                count <= i,
                self == old(self),
                names == self@,
                count as nat == count_pair(names.take(i as int), base@, depth as int),
            decreases self.issued.len() - i,
        {
            let hit = self.issued[i].base == base && self.issued[i].depth == depth;
            proof {
                lemma_names_view_len(self.issued@);
                lemma_names_view_index(self.issued@, i as int);
                assert(names.take(i + 1).drop_last() =~= names.take(i as int));
                assert(names.take(i + 1).last() == names[i as int]);
            }
            if hit {
                count = count + 1;
            }
            i = i + 1;
        }
        proof {
            lemma_names_view_len(self.issued@);
            assert(names.take(self.issued@.len() as int) =~= names);
        }
        let r = EntityName { base, depth, serial: count };
        let ghost issued_before = self.issued@;
        let rc = r.clone();
        let ghost rcg = rc;
        self.issued.push(rc);
        proof {
            lemma_names_view_push(issued_before, rcg);
            assert(rcg@ == r@);
        }
        r
    }
}

} // verus!
