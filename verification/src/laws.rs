//! Run-wide guarantees of the analysis, proved by induction over the
//! descent: all issued names and entity names are pairwise distinct, the
//! stream-type list is deduplicated and covers every referenced type, and
//! entities are emitted in post order (children before the component that
//! references them).

use vstd::prelude::*;

use crate::ParamsV;
use crate::analyzer::StV;
use crate::analyzer::box_child;
use crate::analyzer::empty_st;
use crate::analyzer::lower_entity;
use crate::analyzer::push_name;
use crate::analyzer::st_element;
use crate::analyzer::st_record;
use crate::analyzer::st_records;
use crate::components::ArrayV;
use crate::components::CompV;
use crate::components::JsonType;
use crate::components::KeyV;
use crate::components::RecV;
use crate::components::array_interface;
use crate::components::array_stream_types;
use crate::components::comp_entity_name;
use crate::components::key_interface;
use crate::components::key_stream_types;
use crate::components::matcher_interface;
use crate::components::matcher_stream_types;
use crate::components::record_interface;
use crate::components::record_stream_types;
use crate::components::value_interface;
use crate::components::value_stream_types;
use crate::json_value::JsonValV;
use crate::json_value::aheight;
use crate::json_value::aheight_entries;
use crate::names::NameV;
use crate::names::lemma_count_pair_sees;
use crate::names::lemma_names_distinct;
use crate::names::lemma_register_wf;
use crate::names::names_wf;
use crate::names::spec_register;
use crate::til::EntV;
use crate::til::InterfaceV;
use crate::til::StreamType;
use crate::type_manager::lemma_reg_types_distinct;
use crate::type_manager::spec_reg_types;
use crate::type_manager::types_distinct;

verus! {

broadcast use vstd::seq::group_seq_axioms, vstd::seq_lib::group_seq_lib_default;

/// Every port of this interface uses a stream type from `types`.
pub open spec fn streams_covered(interface: InterfaceV, types: Seq<StreamType>) -> bool {
    forall|k: int|
        0 <= k < interface.streams.len() ==> types.contains(
            (#[trigger] interface.streams[k]).stream_type,
        )
}

/// No two emitted entities share an instance name.
pub open spec fn ents_names_distinct(ents: Seq<EntV>) -> bool {
    forall|i: int, j: int|
        0 <= i < j < ents.len() ==> (#[trigger] ents[i]).name != (#[trigger] ents[j]).name
}

/// Every emitted entity's name was issued by the name registry.
pub open spec fn ents_names_issued(ents: Seq<EntV>, names: Seq<NameV>) -> bool {
    forall|i: int| 0 <= i < ents.len() ==> names.contains((#[trigger] ents[i]).name)
}

/// Every stream type referenced by any emitted entity is in the type
/// list.
pub open spec fn ents_types_covered(ents: Seq<EntV>, types: Seq<StreamType>) -> bool {
    forall|i: int|
        0 <= i < ents.len() ==> streams_covered((#[trigger] ents[i]).interface, types)
}

/// The run-state invariant every analysis step preserves.
pub open spec fn st_wf(st: StV) -> bool {
    &&& names_wf(st.names)
    &&& types_distinct(st.types)
    &&& ents_names_distinct(st.ents)
    &&& ents_names_issued(st.ents, st.names)
    &&& ents_types_covered(st.ents, st.types)
}

/// Some emitted entity bears this name.
pub open spec fn ent_present(ents: Seq<EntV>, n: NameV) -> bool {
    exists|i: int| 0 <= i < ents.len() && (#[trigger] ents[i]).name == n
}

/// The entity named `a` appears at a strictly earlier index than the one
/// named `b`.
pub open spec fn ent_before(ents: Seq<EntV>, a: NameV, b: NameV) -> bool {
    exists|i: int, j: int|
        0 <= i < j < ents.len() && (#[trigger] ents[i]).name == a && (#[trigger] ents[j]).name
            == b
}

/// A child's entity (if it has one) precedes its parent's, recursively.
pub open spec fn child_post_ordered(
    child: Option<Box<CompV>>,
    parent: NameV,
    ents: Seq<EntV>,
) -> bool
    decreases child,
{
    match child {
        Option::Some(b) => post_ordered(*b, ents) && match comp_entity_name(*b) {
            Option::Some(n) => ent_before(ents, n, parent),
            Option::None => true,
        },
        Option::None => true,
    }
}

/// Post-order emission over a whole component tree: every component's
/// entity is present, and each child's entity precedes its parent's.
pub open spec fn post_ordered(c: CompV, ents: Seq<EntV>) -> bool
    decreases c,
{
    match c {
        CompV::Value(v) => ent_present(ents, v.name),
        CompV::Array(a) => ent_present(ents, a.name) && child_post_ordered(a.child, a.name, ents),
        CompV::Object(o) => forall|i: int|
            0 <= i < o.records.len() ==> rec_post_ordered(#[trigger] o.records[i], ents),
        CompV::Record(r) => rec_post_ordered(r, ents),
        CompV::Key(k) => key_post_ordered(k, ents),
        CompV::Matcher(m) => ent_present(ents, m.name),
    }
}

pub open spec fn rec_post_ordered(r: RecV, ents: Seq<EntV>) -> bool
    decreases r,
{
    &&& ent_present(ents, r.name)
    &&& key_post_ordered(*r.key, ents)
    &&& ent_before(ents, (*r.key).name, r.name)
}

pub open spec fn key_post_ordered(k: KeyV, ents: Seq<EntV>) -> bool
    decreases k,
{
    &&& ent_present(ents, k.name)
    &&& ent_present(ents, k.matcher.name)
    &&& ent_before(ents, k.matcher.name, k.name)
    &&& child_post_ordered(k.child, k.name, ents)
}

proof fn lemma_prefix_index(a: Seq<EntV>, b: Seq<EntV>)
    requires
        a.is_prefix_of(b),
    ensures
        forall|i: int| 0 <= i < a.len() ==> a[i] == b[i],
{
    assert forall|i: int| 0 <= i < a.len() implies a[i] == b[i] by {
        assert(a[i] == b.subrange(0, a.len() as int)[i]);
    }
}

proof fn lemma_prefix_trans(a: Seq<EntV>, b: Seq<EntV>, c: Seq<EntV>)
    requires
        a.is_prefix_of(b),
        b.is_prefix_of(c),
    ensures
        a.is_prefix_of(c),
{
    lemma_prefix_index(a, b);
    lemma_prefix_index(b, c);
    assert(a =~= c.subrange(0, a.len() as int));
}

proof fn lemma_present_mono(e1: Seq<EntV>, e2: Seq<EntV>, n: NameV)
    requires
        e1.is_prefix_of(e2),
        ent_present(e1, n),
    ensures
        ent_present(e2, n),
{
    lemma_prefix_index(e1, e2);
    let i = choose|i: int| 0 <= i < e1.len() && (#[trigger] e1[i]).name == n;
    assert(e2[i].name == n);
}

proof fn lemma_before_mono(e1: Seq<EntV>, e2: Seq<EntV>, a: NameV, b: NameV)
    requires
        e1.is_prefix_of(e2),
        ent_before(e1, a, b),
    ensures
        ent_before(e2, a, b),
{
    lemma_prefix_index(e1, e2);
    let (i, j) = choose|i: int, j: int|
        0 <= i < j < e1.len() && (#[trigger] e1[i]).name == a && (#[trigger] e1[j]).name == b;
    assert(e2[i].name == a && e2[j].name == b);
}

proof fn lemma_post_ordered_mono(c: CompV, e1: Seq<EntV>, e2: Seq<EntV>)
    requires
        e1.is_prefix_of(e2),
        post_ordered(c, e1),
    ensures
        post_ordered(c, e2),
    decreases c,
{
    match c {
        CompV::Value(v) => {
            lemma_present_mono(e1, e2, v.name);
        },
        CompV::Array(a) => {
            lemma_present_mono(e1, e2, a.name);
            lemma_child_post_ordered_mono(a.child, a.name, e1, e2);
        },
        CompV::Object(o) => {
            assert forall|i: int| 0 <= i < o.records.len() implies rec_post_ordered(
                #[trigger] o.records[i],
                e2,
            ) by {
                lemma_rec_post_ordered_mono(o.records[i], e1, e2);
            }
        },
        CompV::Record(r) => {
            lemma_rec_post_ordered_mono(r, e1, e2);
        },
        CompV::Key(k) => {
            lemma_key_post_ordered_mono(k, e1, e2);
        },
        CompV::Matcher(m) => {
            lemma_present_mono(e1, e2, m.name);
        },
    }
}

proof fn lemma_child_post_ordered_mono(
    child: Option<Box<CompV>>,
    parent: NameV,
    e1: Seq<EntV>,
    e2: Seq<EntV>,
)
    requires
        e1.is_prefix_of(e2),
        child_post_ordered(child, parent, e1),
    ensures
        child_post_ordered(child, parent, e2),
    decreases child,
{
    match child {
        Option::Some(b) => {
            lemma_post_ordered_mono(*b, e1, e2);
            match comp_entity_name(*b) {
                Option::Some(n) => {
                    lemma_before_mono(e1, e2, n, parent);
                },
                Option::None => {},
            }
        },
        Option::None => {},
    }
}

proof fn lemma_rec_post_ordered_mono(r: RecV, e1: Seq<EntV>, e2: Seq<EntV>)
    requires
        e1.is_prefix_of(e2),
        rec_post_ordered(r, e1),
    ensures
        rec_post_ordered(r, e2),
    decreases r,
{
    lemma_present_mono(e1, e2, r.name);
    lemma_key_post_ordered_mono(*r.key, e1, e2);
    lemma_before_mono(e1, e2, (*r.key).name, r.name);
}

proof fn lemma_key_post_ordered_mono(k: KeyV, e1: Seq<EntV>, e2: Seq<EntV>)
    requires
        e1.is_prefix_of(e2),
        key_post_ordered(k, e1),
    ensures
        key_post_ordered(k, e2),
    decreases k,
{
    lemma_present_mono(e1, e2, k.name);
    lemma_present_mono(e1, e2, k.matcher.name);
    lemma_before_mono(e1, e2, k.matcher.name, k.name);
    lemma_child_post_ordered_mono(k.child, k.name, e1, e2);
}

/// A freshly registered name differs from every name issued before it.
proof fn lemma_register_fresh(names: Seq<NameV>, base: Seq<char>, depth: int)
    requires
        names_wf(names),
    ensures
        forall|i: int| 0 <= i < names.len() ==> names[i] != spec_register(names, base, depth),
{
    let n = spec_register(names, base, depth);
    assert forall|i: int| 0 <= i < names.len() implies names[i] != n by {
        if names[i].base == base && names[i].depth == depth {
            lemma_count_pair_sees(names, base, depth, i, names.len() as int);
            assert(names.take(names.len() as int) =~= names);
        }
    }
}

/// Registering and recording one name preserves the invariant.
proof fn lemma_push_name_wf(st: StV, base: Seq<char>, depth: int)
    requires
        st_wf(st),
    ensures
        ({
            let n = spec_register(st.names, base, depth);
            let st1 = push_name(st, n);
            &&& st_wf(st1)
            &&& forall|i: int| 0 <= i < st.ents.len() ==> (#[trigger] st.ents[i]).name != n
            &&& st1.names.contains(n)
            &&& forall|m: NameV| st.names.contains(m) ==> #[trigger] st1.names.contains(m)
        }),
{
    let n = spec_register(st.names, base, depth);
    let st1 = push_name(st, n);
    lemma_register_wf(st.names, base, depth);
    lemma_register_fresh(st.names, base, depth);
    assert(st1.names[st.names.len() as int] == n);
    assert forall|m: NameV| st.names.contains(m) implies #[trigger] st1.names.contains(m) by {
        let w = choose|w: int| 0 <= w < st.names.len() && st.names[w] == m;
        assert(st1.names[w] == m);
    }
    assert forall|i: int| 0 <= i < st.ents.len() implies (#[trigger] st.ents[i]).name != n by {
        let w = choose|w: int| 0 <= w < st.names.len() && st.names[w] == st.ents[i].name;
    }
    assert forall|i: int| 0 <= i < st1.ents.len() implies st1.names.contains(
        (#[trigger] st1.ents[i]).name,
    ) by {
        assert(st.names.contains(st.ents[i].name));
    }
}

/// Emitting one entity preserves the invariant when its name was issued,
/// is not yet used by an entity, and its ports' types are all in the
/// registered list.
proof fn lemma_lower_wf(
    st: StV,
    name: NameV,
    interface: InterfaceV,
    types: Seq<StreamType>,
    template: crate::file_manager::TemplateTypeV,
)
    requires
        st_wf(st),
        st.names.contains(name),
        forall|i: int| 0 <= i < st.ents.len() ==> (#[trigger] st.ents[i]).name != name,
        streams_covered(interface, types),
    ensures
        ({
            let st1 = lower_entity(st, name, interface, types, template);
            &&& st_wf(st1)
            &&& st.ents.is_prefix_of(st1.ents)
            &&& (forall|t: StreamType| st.types.contains(t) ==> #[trigger] st1.types.contains(t))
            &&& st1.ents.len() == st.ents.len() + 1
            &&& st1.ents.last() == (EntV { name, interface })
            &&& ent_present(st1.ents, name)
        }),
{
    let st1 = lower_entity(st, name, interface, types, template);
    lemma_reg_types_distinct(st.types, types);
    assert(st.ents =~= st1.ents.subrange(0, st.ents.len() as int));
    assert(st1.ents[st.ents.len() as int].name == name);
    assert forall|i: int, j: int| 0 <= i < j < st1.ents.len() implies (#[trigger] st1.ents[i]).name
        != (#[trigger] st1.ents[j]).name by {
        if j < st.ents.len() {
        } else {
            assert(st1.ents[j].name == name);
            if i < st.ents.len() {
                assert(st1.ents[i] == st.ents[i]);
            }
        }
    }
    assert forall|i: int| 0 <= i < st1.ents.len() implies st1.names.contains(
        (#[trigger] st1.ents[i]).name,
    ) by {
        if i < st.ents.len() {
            assert(st1.ents[i] == st.ents[i]);
            assert(st.names.contains(st.ents[i].name));
        }
    }
    assert forall|i: int| 0 <= i < st1.ents.len() implies streams_covered(
        (#[trigger] st1.ents[i]).interface,
        st1.types,
    ) by {
        if i < st.ents.len() {
            assert(st1.ents[i] == st.ents[i]);
            assert(streams_covered(st.ents[i].interface, st.types));
            assert forall|k: int| 0 <= k < st1.ents[i].interface.streams.len() implies st1.types
                .contains((#[trigger] st1.ents[i].interface.streams[k]).stream_type) by {
                assert(st.types.contains(st.ents[i].interface.streams[k].stream_type));
            }
        } else {
            assert forall|k: int| 0 <= k < interface.streams.len() implies st1.types.contains(
                (#[trigger] interface.streams[k]).stream_type,
            ) by {
                assert(types.contains(interface.streams[k].stream_type));
            }
        }
    }
}

proof fn lemma_value_covered(t: JsonType, outer: int, p: ParamsV)
    ensures
        streams_covered(value_interface(t, outer, p), value_stream_types(t)),
{
    let i = value_interface(t, outer, p);
    let ts = value_stream_types(t);
    assert(ts[0] == StreamType::Json);
    assert(ts.contains(i.streams[0].stream_type));
    assert(ts[1] == i.streams[1].stream_type);
    assert(ts.contains(i.streams[1].stream_type));
}

proof fn lemma_array_covered(outer: int, inner: int, p: ParamsV)
    ensures
        streams_covered(array_interface(outer, inner, p), array_stream_types()),
{
    let i = array_interface(outer, inner, p);
    let ts = array_stream_types();
    assert(ts[0] == StreamType::Json);
    assert(ts.contains(i.streams[0].stream_type));
    assert(ts.contains(i.streams[1].stream_type));
}

proof fn lemma_record_covered(outer: int, inner: int, p: ParamsV)
    ensures
        streams_covered(record_interface(outer, inner, p), record_stream_types()),
{
    let i = record_interface(outer, inner, p);
    let ts = record_stream_types();
    assert(ts[0] == StreamType::Json);
    assert(ts.contains(i.streams[0].stream_type));
    assert(ts.contains(i.streams[1].stream_type));
}

proof fn lemma_key_covered(outer: int, p: ParamsV)
    ensures
        streams_covered(key_interface(outer, p), key_stream_types()),
{
    let i = key_interface(outer, p);
    let ts = key_stream_types();
    assert(ts[0] == StreamType::Json);
    assert(ts[1] == StreamType::MatcherMatch);
    assert(ts.contains(i.streams[0].stream_type));
    assert(ts.contains(i.streams[1].stream_type));
    assert(ts.contains(i.streams[2].stream_type));
}

proof fn lemma_matcher_covered(p: ParamsV)
    ensures
        streams_covered(matcher_interface(p), matcher_stream_types()),
{
    let i = matcher_interface(p);
    let ts = matcher_stream_types();
    assert(ts[0] == StreamType::MatcherStr);
    assert(ts[1] == StreamType::MatcherMatch);
    assert(ts.contains(i.streams[0].stream_type));
    assert(ts.contains(i.streams[1].stream_type));
}

/// The invariant induction over one element.
pub proof fn lemma_element_wf(v: JsonValV, outer: int, inner: int, st: StV, p: ParamsV)
    requires
        st_wf(st),
    ensures
        ({
            let (c, ni, st2) = st_element(v, outer, inner, st, p);
            &&& st_wf(st2)
            &&& st.names.is_prefix_of(st2.names)
            &&& st.ents.is_prefix_of(st2.ents)
            &&& (forall|t: StreamType| st.types.contains(t) ==> #[trigger] st2.types.contains(t))
            &&& match c {
                Option::Some(cv) => post_ordered(cv, st2.ents),
                Option::None => true,
            }
        }),
    decreases aheight(v), 0int, 0int,
{
    let (c, ni, st2) = st_element(v, outer, inner, st, p);
    match v {
        JsonValV::Null => {
            assert(st.names.is_prefix_of(st.names)) by {
                assert(st.names =~= st.names.subrange(0, st.names.len() as int));
            }
            assert(st.ents.is_prefix_of(st.ents)) by {
                assert(st.ents =~= st.ents.subrange(0, st.ents.len() as int));
            }
        },
        JsonValV::Text => {
            lemma_scalar_wf(v, "string_parser"@, JsonType::Text, outer, st, p);
        },
        JsonValV::Number => {
            lemma_scalar_wf(v, "int_parser"@, JsonType::Integer, outer + 1, st, p);
        },
        JsonValV::Boolean => {
            lemma_scalar_wf(v, "bool_parser"@, JsonType::Boolean, outer + 1, st, p);
        },
        JsonValV::Array(elems) => {
            if elems.len() == 0 {
                assert(st.names.is_prefix_of(st.names)) by {
                    assert(st.names =~= st.names.subrange(0, st.names.len() as int));
                }
                assert(st.ents.is_prefix_of(st.ents)) by {
                    assert(st.ents =~= st.ents.subrange(0, st.ents.len() as int));
                }
            } else {
                lemma_element_wf(elems[0], outer + 1, inner, st, p);
                let r0 = st_element(elems[0], outer + 1, inner, st, p);
                let name = spec_register(r0.2.names, "array_parser"@, outer + 1);
                lemma_push_name_wf(r0.2, "array_parser"@, outer + 1);
                let st1 = push_name(r0.2, name);
                lemma_array_covered(outer + 1, r0.1, p);
                lemma_lower_wf(
                    st1,
                    name,
                    array_interface(outer + 1, r0.1, p),
                    array_stream_types(),
                    crate::file_manager::TemplateTypeV::Array,
                );
                let stl = lower_entity(
                    st1,
                    name,
                    array_interface(outer + 1, r0.1, p),
                    array_stream_types(),
                    crate::file_manager::TemplateTypeV::Array,
                );
                // Signals do not change the entity list or the invariant
                // fields.
                assert(st2.ents == stl.ents);
                assert(st2.names == stl.names);
                assert(st2.types == stl.types);
                assert(st_wf(st2));
                // Prefix chaining.
                assert(r0.2.ents.is_prefix_of(st2.ents));
                lemma_prefix_trans(st.ents, r0.2.ents, st2.ents);
                assert(st.names.is_prefix_of(st2.names)) by {
                    lemma_prefix_index_names(st.names, r0.2.names);
                    assert(st.names =~= st2.names.subrange(0, st.names.len() as int));
                }
                // Post order for the array component.
                let av = ArrayV { name, outer: outer + 1, inner: r0.1, child: box_child(r0.0) };
                assert(ent_present(st2.ents, name)) by {
                    assert(st2.ents[r0.2.ents.len() as int].name == name);
                }
                match r0.0 {
                    Option::Some(cv) => {
                        lemma_post_ordered_mono(cv, r0.2.ents, st2.ents);
                        match comp_entity_name(cv) {
                            Option::Some(cn) => {
                                let w = choose|w: int|
                                    0 <= w < r0.2.ents.len() && (#[trigger] r0.2.ents[w]).name
                                        == cn;
                                lemma_prefix_index(r0.2.ents, st2.ents);
                                assert(st2.ents[w].name == cn);
                                assert(st2.ents[r0.2.ents.len() as int].name == name);
                                assert(ent_before(st2.ents, cn, name));
                            },
                            Option::None => {},
                        }
                        assert(child_post_ordered(av.child, name, st2.ents));
                    },
                    Option::None => {},
                }
                assert(post_ordered(CompV::Array(av), st2.ents));
            }
        },
        JsonValV::Object(entries) => {
            lemma_records_wf(entries, outer, inner, st, p);
            let r = st_records(entries, outer, inner, st, p);
            assert forall|i: int| 0 <= i < r.0.len() implies rec_post_ordered(
                #[trigger] r.0[i],
                st2.ents,
            ) by {}
        },
    }
}

/// Shared argument for the three scalar cases.
proof fn lemma_scalar_wf(
    v: JsonValV,
    base: Seq<char>,
    t: JsonType,
    at: int,
    st: StV,
    p: ParamsV,
)
    requires
        st_wf(st),
    ensures
        ({
            let name = spec_register(st.names, base, at);
            let st1 = push_name(st, name);
            let stl = lower_entity(
                st1,
                name,
                value_interface(t, at, p),
                value_stream_types(t),
                value_template(t),
            );
            &&& st_wf(stl)
            &&& st.names.is_prefix_of(stl.names)
            &&& st.ents.is_prefix_of(stl.ents)
            &&& (forall|ty: StreamType|
                st.types.contains(ty) ==> #[trigger] stl.types.contains(ty))
            &&& ent_present(stl.ents, name)
        }),
{
    let name = spec_register(st.names, base, at);
    lemma_push_name_wf(st, base, at);
    let st1 = push_name(st, name);
    lemma_value_covered(t, at, p);
    lemma_lower_wf(st1, name, value_interface(t, at, p), value_stream_types(t), value_template(t));
    let stl = lower_entity(
        st1,
        name,
        value_interface(t, at, p),
        value_stream_types(t),
        value_template(t),
    );
    assert(st.names.is_prefix_of(stl.names)) by {
        assert(st.names =~= stl.names.subrange(0, st.names.len() as int));
    }
}

/// The template each scalar kind renders through.
pub open spec fn value_template(t: JsonType) -> crate::file_manager::TemplateTypeV {
    match t {
        JsonType::Text => crate::file_manager::TemplateTypeV::Text,
        JsonType::Integer => crate::file_manager::TemplateTypeV::Int,
        JsonType::Boolean => crate::file_manager::TemplateTypeV::Bool,
    }
}

proof fn lemma_prefix_index_names(a: Seq<NameV>, b: Seq<NameV>)
    requires
        a.is_prefix_of(b),
    ensures
        forall|i: int| 0 <= i < a.len() ==> a[i] == b[i],
{
    assert forall|i: int| 0 <= i < a.len() implies a[i] == b[i] by {
        assert(a[i] == b.subrange(0, a.len() as int)[i]);
    }
}

/// The invariant induction over one record.
pub proof fn lemma_record_wf(
    key: Seq<char>,
    val: JsonValV,
    outer: int,
    inner: int,
    st: StV,
    p: ParamsV,
)
    requires
        st_wf(st),
    ensures
        ({
            let (rec, ni, st2) = st_record(key, val, outer, inner, st, p);
            &&& st_wf(st2)
            &&& st.names.is_prefix_of(st2.names)
            &&& st.ents.is_prefix_of(st2.ents)
            &&& (forall|t: StreamType| st.types.contains(t) ==> #[trigger] st2.types.contains(t))
            &&& rec_post_ordered(rec, st2.ents)
        }),
    decreases aheight(val), 1int, 0int,
{
    lemma_element_wf(val, outer + 1, inner, st, p);
    let r0 = st_element(val, outer + 1, inner, st, p);
    let (rec, ni, st2) = st_record(key, val, outer, inner, st, p);

    let record_name = spec_register(r0.2.names, "record_parser"@, outer + 1);
    lemma_push_name_wf(r0.2, "record_parser"@, outer + 1);
    let sta = push_name(r0.2, record_name);
    let key_name = spec_register(sta.names, "key_parser"@, outer + 2);
    lemma_push_name_wf(sta, "key_parser"@, outer + 2);
    let stb = push_name(sta, key_name);
    let matcher_name = spec_register(stb.names, key + "_parser"@, outer + 2);
    lemma_push_name_wf(stb, key + "_parser"@, outer + 2);
    let stc = push_name(stb, matcher_name);

    // All three names are mutually distinct and unused by entities.
    assert(stc.names.contains(record_name)) by {
        assert(stc.names[r0.2.names.len() as int] == record_name);
    }
    assert(stc.names.contains(key_name)) by {
        assert(stc.names[sta.names.len() as int] == key_name);
    }
    assert(stc.names.contains(matcher_name)) by {
        assert(stc.names[stb.names.len() as int] == matcher_name);
    }
    lemma_names_distinct(stc.names, r0.2.names.len() as int, sta.names.len() as int);
    lemma_names_distinct(stc.names, r0.2.names.len() as int, stb.names.len() as int);
    lemma_names_distinct(stc.names, sta.names.len() as int, stb.names.len() as int);
    assert(record_name != key_name && record_name != matcher_name && key_name != matcher_name);

    lemma_matcher_covered(p);
    assert forall|i: int| 0 <= i < stc.ents.len() implies (#[trigger] stc.ents[i]).name
        != matcher_name by {
        assert(stc.ents == stb.ents);
    }
    lemma_lower_wf(
        stc,
        matcher_name,
        matcher_interface(p),
        matcher_stream_types(),
        crate::file_manager::TemplateTypeV::Matcher(key),
    );
    let std1 = lower_entity(
        stc,
        matcher_name,
        matcher_interface(p),
        matcher_stream_types(),
        crate::file_manager::TemplateTypeV::Matcher(key),
    );

    lemma_key_covered(outer + 2, p);
    assert forall|i: int| 0 <= i < std1.ents.len() implies (#[trigger] std1.ents[i]).name
        != key_name by {
        if i < stc.ents.len() {
            lemma_prefix_index(stc.ents, std1.ents);
        } else {
            assert(std1.ents[i].name == matcher_name);
        }
    }
    lemma_lower_wf(
        std1,
        key_name,
        key_interface(outer + 2, p),
        key_stream_types(),
        crate::file_manager::TemplateTypeV::Key,
    );
    let std2 = lower_entity(
        std1,
        key_name,
        key_interface(outer + 2, p),
        key_stream_types(),
        crate::file_manager::TemplateTypeV::Key,
    );

    lemma_record_covered(outer + 1, r0.1, p);
    assert forall|i: int| 0 <= i < std2.ents.len() implies (#[trigger] std2.ents[i]).name
        != record_name by {
        if i < stc.ents.len() {
            lemma_prefix_index(stc.ents, std1.ents);
            lemma_prefix_index(std1.ents, std2.ents);
        } else if i < std1.ents.len() {
            lemma_prefix_index(std1.ents, std2.ents);
            assert(std2.ents[i].name == matcher_name);
        } else {
            assert(std2.ents[i].name == key_name);
        }
    }
    lemma_lower_wf(
        std2,
        record_name,
        record_interface(outer + 1, r0.1, p),
        record_stream_types(),
        crate::file_manager::TemplateTypeV::Record,
    );
    let std3 = lower_entity(
        std2,
        record_name,
        record_interface(outer + 1, r0.1, p),
        record_stream_types(),
        crate::file_manager::TemplateTypeV::Record,
    );

    assert(st2.ents == std3.ents);
    assert(st2.names == std3.names);
    assert(st2.types == std3.types);

    // Prefix chains.
    lemma_prefix_trans(st.ents, r0.2.ents, std1.ents);
    lemma_prefix_trans(st.ents, std1.ents, std2.ents);
    lemma_prefix_trans(st.ents, std2.ents, std3.ents);
    assert(st.names.is_prefix_of(st2.names)) by {
        lemma_prefix_index_names(st.names, r0.2.names);
        assert(st.names =~= st2.names.subrange(0, st.names.len() as int));
    }

    // Post order of the produced record.
    let ml = r0.2.ents.len() as int;
    assert(st2.ents[ml].name == matcher_name) by {
        lemma_prefix_index(std1.ents, std2.ents);
        lemma_prefix_index(std2.ents, std3.ents);
        assert(std1.ents[ml].name == matcher_name);
    }
    assert(st2.ents[ml + 1].name == key_name) by {
        lemma_prefix_index(std2.ents, std3.ents);
        assert(std2.ents[ml + 1].name == key_name);
    }
    assert(st2.ents[ml + 2].name == record_name);
    assert(ent_present(st2.ents, matcher_name));
    assert(ent_present(st2.ents, key_name));
    assert(ent_present(st2.ents, record_name));
    assert(ent_before(st2.ents, matcher_name, key_name));
    assert(ent_before(st2.ents, key_name, record_name));
    match r0.0 {
        Option::Some(cv) => {
            lemma_prefix_trans(r0.2.ents, std1.ents, std2.ents);
            lemma_prefix_trans(r0.2.ents, std2.ents, std3.ents);
            lemma_post_ordered_mono(cv, r0.2.ents, st2.ents);
            match comp_entity_name(cv) {
                Option::Some(cn) => {
                    let w = choose|w: int|
                        0 <= w < r0.2.ents.len() && (#[trigger] r0.2.ents[w]).name == cn;
                    lemma_prefix_index(r0.2.ents, st2.ents);
                    assert(st2.ents[w].name == cn);
                    assert(ent_before(st2.ents, cn, key_name));
                },
                Option::None => {},
            }
        },
        Option::None => {},
    }
    assert(key_post_ordered(*rec.key, st2.ents));
    assert(rec_post_ordered(rec, st2.ents));
}

/// The invariant induction over an object's fields.
pub proof fn lemma_records_wf(
    entries: Seq<(Seq<char>, JsonValV)>,
    outer: int,
    inner: int,
    st: StV,
    p: ParamsV,
)
    requires
        st_wf(st),
    ensures
        ({
            let (recs, mi, st2) = st_records(entries, outer, inner, st, p);
            &&& st_wf(st2)
            &&& st.names.is_prefix_of(st2.names)
            &&& st.ents.is_prefix_of(st2.ents)
            &&& (forall|t: StreamType| st.types.contains(t) ==> #[trigger] st2.types.contains(t))
            &&& recs.len() == entries.len()
            &&& forall|i: int|
                0 <= i < recs.len() ==> rec_post_ordered(#[trigger] recs[i], st2.ents)
        }),
    decreases aheight_entries(entries), 2int, entries.len(),
{
    let (recs, mi, st2) = st_records(entries, outer, inner, st, p);
    if entries.len() == 0 {
        assert(st.names.is_prefix_of(st.names)) by {
            assert(st.names =~= st.names.subrange(0, st.names.len() as int));
        }
        assert(st.ents.is_prefix_of(st.ents)) by {
            assert(st.ents =~= st.ents.subrange(0, st.ents.len() as int));
        }
    } else {
        crate::json_value::lemma_aheight_entry(entries, 0);
        lemma_record_wf(entries[0].0, entries[0].1, outer, inner, st, p);
        let r0 = st_record(entries[0].0, entries[0].1, outer, inner, st, p);
        lemma_records_wf(entries.drop_first(), outer, inner, r0.2, p);
        let rest = st_records(entries.drop_first(), outer, inner, r0.2, p);
        lemma_prefix_trans(st.ents, r0.2.ents, rest.2.ents);
        assert(st.names.is_prefix_of(st2.names)) by {
            lemma_prefix_index_names(st.names, r0.2.names);
            lemma_prefix_index_names(r0.2.names, rest.2.names);
            assert(st.names =~= st2.names.subrange(0, st.names.len() as int));
        }
        assert forall|i: int| 0 <= i < recs.len() implies rec_post_ordered(
            #[trigger] recs[i],
            st2.ents,
        ) by {
            if i == 0 {
                assert(recs[0] == r0.0);
                lemma_rec_post_ordered_mono(r0.0, r0.2.ents, rest.2.ents);
            } else {
                assert(recs[i] == rest.0[i - 1]);
            }
        }
    }
}

/// Determinism: the outputs of a run are a function of the analyzed
/// value and the generation parameters alone, so two analyzers whose
/// state came from the same value and parameters hold byte-identical
/// entity, type and signal lists.
pub proof fn lemma_analysis_deterministic(st1: StV, st2: StV, v: JsonValV, p: ParamsV)
    requires
        st1 == st_element(v, 0, 0, empty_st(), p).2,
        st2 == st_element(v, 0, 0, empty_st(), p).2,
    ensures
        st1.ents == st2.ents,
        st1.types == st2.types,
        st1.sigs == st2.sigs,
        st1.files == st2.files,
{
}

/// The empty run state satisfies the invariant.
pub proof fn lemma_empty_st_wf()
    ensures
        st_wf(empty_st()),
{
}

/// Name uniqueness: all entity instance names of one full run are
/// pairwise distinct.
pub proof fn lemma_entity_names_unique(v: JsonValV, p: ParamsV)
    ensures
        ents_names_distinct(st_element(v, 0, 0, empty_st(), p).2.ents),
{
    lemma_empty_st_wf();
    lemma_element_wf(v, 0, 0, empty_st(), p);
}

/// Type dedup: after one full run the stream-type list holds each
/// declaration at most once and covers every type referenced by any
/// entity's ports; the type list as a whole precedes the entity list in
/// the rendered output.
pub proof fn lemma_type_dedup(v: JsonValV, p: ParamsV)
    ensures
        types_distinct(st_element(v, 0, 0, empty_st(), p).2.types),
        ents_types_covered(
            st_element(v, 0, 0, empty_st(), p).2.ents,
            st_element(v, 0, 0, empty_st(), p).2.types,
        ),
{
    lemma_empty_st_wf();
    lemma_element_wf(v, 0, 0, empty_st(), p);
}

/// Post-order emission: in the component tree of one full run, every
/// child's entity appears at a strictly earlier index in the entity list
/// than the entity of the component holding it.
pub proof fn lemma_post_order_emission(v: JsonValV, p: ParamsV)
    ensures
        ({
            let (c, ni, st2) = st_element(v, 0, 0, empty_st(), p);
            match c {
                Option::Some(cv) => post_ordered(cv, st2.ents),
                Option::None => true,
            }
        }),
{
    lemma_empty_st_wf();
    lemma_element_wf(v, 0, 0, empty_st(), p);
}

/// Record completeness: every key/value field analyzed appends exactly
/// three entities — a matcher whose base name derives from the key, then
/// a key parser, then a record parser — whatever the field's value, null
/// and empty constructs included.
pub proof fn lemma_record_completeness(
    key: Seq<char>,
    val: JsonValV,
    outer: int,
    inner: int,
    st: StV,
    p: ParamsV,
)
    ensures
        ({
            let (rec, ni, st2) = st_record(key, val, outer, inner, st, p);
            let sub = st_element(val, outer + 1, inner, st, p).2;
            &&& st2.ents.len() == sub.ents.len() + 3
            &&& st2.ents[st2.ents.len() - 3].name.base == key + "_parser"@
            &&& st2.ents[st2.ents.len() - 3].interface == matcher_interface(p)
            &&& st2.ents[st2.ents.len() - 2].interface == key_interface(outer + 2, p)
            &&& st2.ents[st2.ents.len() - 1].interface == record_interface(
                outer + 1,
                st_element(val, outer + 1, inner, st, p).1,
                p,
            )
            &&& (*rec.key).matcher.literal == key
        }),
{
}

/// The matcher literal and base name of each produced record derive from
/// that entry's key.
proof fn lemma_records_literals(
    entries: Seq<(Seq<char>, JsonValV)>,
    outer: int,
    inner: int,
    st: StV,
    p: ParamsV,
)
    ensures
        ({
            let (recs, mi, st2) = st_records(entries, outer, inner, st, p);
            &&& recs.len() == entries.len()
            &&& forall|i: int|
                0 <= i < entries.len() ==> (*(#[trigger] recs[i]).key).matcher.literal
                    == entries[i].0 && (*recs[i].key).matcher.name.base == entries[i].0
                    + "_parser"@
        }),
    decreases aheight_entries(entries), 2int, entries.len(),
{
    let (recs, mi, st2) = st_records(entries, outer, inner, st, p);
    if entries.len() > 0 {
        let r0 = st_record(entries[0].0, entries[0].1, outer, inner, st, p);
        lemma_records_literals(entries.drop_first(), outer, inner, r0.2, p);
        let rest = st_records(entries.drop_first(), outer, inner, r0.2, p);
        assert forall|i: int| 0 <= i < entries.len() implies (*(#[trigger] recs[i]).key).matcher
            .literal == entries[i].0 && (*recs[i].key).matcher.name.base == entries[i].0
            + "_parser"@ by {
            if i == 0 {
                assert(recs[0] == r0.0);
            } else {
                assert(recs[i] == rest.0[i - 1]);
                assert(entries.drop_first()[i - 1] == entries[i]);
            }
        }
    }
}

/// Record completeness over a whole object: every key/value entry yields
/// one record, whose matcher recognizes exactly that entry's key, whose
/// matcher entity's base name derives from that key, and whose matcher
/// and key entities both stand in the emitted entity list.  With name
/// uniqueness this makes the matcher/key pair of each entry unique.
pub proof fn lemma_object_record_completeness(
    entries: Seq<(Seq<char>, JsonValV)>,
    outer: int,
    inner: int,
    st: StV,
    p: ParamsV,
)
    requires
        st_wf(st),
    ensures
        ({
            let (recs, mi, st2) = st_records(entries, outer, inner, st, p);
            &&& recs.len() == entries.len()
            &&& forall|i: int|
                0 <= i < entries.len() ==> (*(#[trigger] recs[i]).key).matcher.literal
                    == entries[i].0 && (*recs[i].key).matcher.name.base == entries[i].0
                    + "_parser"@ && ent_present(st2.ents, (*recs[i].key).matcher.name)
                    && ent_present(st2.ents, (*recs[i].key).name)
        }),
{
    lemma_records_wf(entries, outer, inner, st, p);
    lemma_records_literals(entries, outer, inner, st, p);
    let (recs, mi, st2) = st_records(entries, outer, inner, st, p);
    assert forall|i: int| 0 <= i < entries.len() implies ent_present(
        st2.ents,
        (*(#[trigger] recs[i]).key).matcher.name,
    ) && ent_present(st2.ents, (*recs[i].key).name) by {
        assert(rec_post_ordered(recs[i], st2.ents));
        assert(key_post_ordered(*recs[i].key, st2.ents));
    }
}

/// Inner-depth bookkeeping is total and never underflows: every analysis
/// step only advances the inner-depth counter — degenerate constructs
/// (an empty array, a null value) included — and raises it by at most
/// the value's descent depth, so no subtraction ever occurs.
pub proof fn lemma_inner_depth_never_underflows(
    v: JsonValV,
    outer: int,
    inner: int,
    st: StV,
    p: ParamsV,
)
    ensures
        inner <= st_element(v, outer, inner, st, p).1 <= inner + aheight(v),
{
    crate::analyzer::lemma_st_element_bounds(v, outer, inner, st, p);
}

/// Array sampling: a non-empty array contributes exactly one child
/// schema, inferred from its first element only, however many elements
/// the array holds.
pub proof fn lemma_array_single_sample(
    elems: Seq<JsonValV>,
    outer: int,
    inner: int,
    st: StV,
    p: ParamsV,
)
    requires
        elems.len() > 0,
    ensures
        ({
            let (c, ni, st2) = st_element(JsonValV::Array(elems), outer, inner, st, p);
            match c {
                Option::Some(cv) => cv matches CompV::Array(a) && a.child == box_child(
                    st_element(elems[0], outer + 1, inner, st, p).0,
                ),
                Option::None => false,
            }
        }),
{
}

} // verus!

