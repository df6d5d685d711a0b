//! The analyzer: a recursive descent over one example JSON value that
//! builds the component model and, in post order, the run's outputs: the
//! issued name list, the entity list, the deduplicated stream-type list,
//! the signal list and the file schedule.
//!
//! Every step of the descent is mirrored by a spec function over the
//! value's mathematical model, so the whole analysis is a proved function
//! of the input value and the generation parameters alone.

use vstd::prelude::*;
use vstd::string::StringExecFns;

use crate::GeneratorParams;
use crate::ParamsV;
use crate::components::Array;
use crate::components::ArrayV;
use crate::components::CompV;
use crate::components::JsonComponent;
use crate::components::JsonType;
use crate::components::Key;
use crate::components::KeyV;
use crate::components::Matcher;
use crate::components::MatcherV;
use crate::components::Object;
use crate::components::ObjectV;
use crate::components::RecV;
use crate::components::Record;
use crate::components::Value;
use crate::components::ValueV;
use crate::components::array_interface;
use crate::components::array_stream_types;
use crate::components::child_view;
use crate::components::comp_entity_name;
use crate::components::key_interface;
use crate::components::key_stream_types;
use crate::components::matcher_interface;
use crate::components::matcher_signal;
use crate::components::matcher_view;
use crate::components::matcher_stream_types;
use crate::components::record_interface;
use crate::components::record_stream_types;
use crate::components::lemma_records_view_push;
use crate::components::record_view;
use crate::components::records_view;
use crate::components::value_interface;
use crate::components::value_stream_types;
use crate::file_manager::FileEntryV;
use crate::file_manager::FileManager;
use crate::file_manager::TemplateTypeV;
use crate::json_value::JsonVal;
use crate::json_value::JsonValV;
use crate::json_value::aheight;
use crate::json_value::aheight_entries;
use crate::json_value::json_entries_view;
use crate::json_value::json_seq_view;
use crate::json_value::lemma_aheight_entry;
use crate::json_value::lemma_json_entries_view_index;
use crate::json_value::lemma_json_entries_view_len;
use crate::json_value::lemma_json_seq_view_index;
use crate::json_value::lemma_json_seq_view_len;
use crate::names::NameReg;
use crate::names::NameV;
use crate::names::spec_register;
use crate::til::EntV;
use crate::til::InterfaceV;
use crate::til::PortName;
use crate::til::SigV;
use crate::til::StreamType;
use crate::til::TilSignal;
use crate::til::TilStreamlet;
use crate::til::ents_view;
use crate::til::lemma_ents_view_push;
use crate::til::lemma_sigs_view_push;
use crate::til::sigs_view;
use crate::type_manager::TypeManager;
use crate::type_manager::spec_reg_types;

verus! {

broadcast use vstd::seq::group_seq_axioms, vstd::seq_lib::group_seq_lib_default,
    vstd::std_specs::vec::group_vec_axioms;

/// The run state that analysis threads along: issued names, emitted
/// entities, registered stream types, derived signals, scheduled files.
/// All five lists grow monotonically and are never retracted.
#[verifier::ext_equal]
pub struct StV {
    pub names: Seq<NameV>,
    pub ents: Seq<EntV>,
    pub types: Seq<StreamType>,
    pub sigs: Seq<SigV>,
    pub files: Seq<FileEntryV>,
}

/// The state a fresh analyzer starts from.
pub open spec fn empty_st() -> StV {
    StV {
        names: Seq::empty(),
        ents: Seq::empty(),
        types: Seq::empty(),
        sigs: Seq::empty(),
        files: Seq::empty(),
    }
}

/// Issuing one name.
pub open spec fn push_name(st: StV, name: NameV) -> StV {
    StV {
        names: st.names.push(name),
        ents: st.ents,
        types: st.types,
        sigs: st.sigs,
        files: st.files,
    }
}

/// Emitting one entity: its declaration is appended, its referenced
/// stream types registered, and its physical template scheduled.
pub open spec fn lower_entity(
    st: StV,
    name: NameV,
    interface: InterfaceV,
    types: Seq<StreamType>,
    template: TemplateTypeV,
) -> StV {
    StV {
        names: st.names,
        ents: st.ents.push(EntV { name, interface }),
        types: spec_reg_types(st.types, types),
        sigs: st.sigs,
        files: st.files.push(FileEntryV { template, name }),
    }
}

/// Appending derived signals.
pub open spec fn push_sigs(st: StV, sigs: Seq<SigV>) -> StV {
    StV {
        names: st.names,
        ents: st.ents,
        types: st.types,
        sigs: st.sigs + sigs,
        files: st.files,
    }
}

/// The connection a child component's entity sends up to the entity that
/// structurally contains it, if the child has an entity of its own.
pub open spec fn child_signal(child: Option<CompV>, dest: NameV) -> Seq<SigV> {
    match child {
        Option::Some(c) => match comp_entity_name(c) {
            Option::Some(n) => seq![
                SigV {
                    source: n,
                    source_port: PortName::Output,
                    dest,
                    dest_port: PortName::Input,
                },
            ],
            Option::None => Seq::empty(),
        },
        Option::None => Seq::empty(),
    }
}

pub open spec fn box_child(child: Option<CompV>) -> Option<Box<CompV>> {
    match child {
        Option::Some(c) => Option::Some(Box::new(c)),
        Option::None => Option::None,
    }
}

/// One step of the descent on an element: the component it yields (if
/// any), the new inner depth, and the evolved run state.
pub open spec fn st_element(v: JsonValV, outer: int, inner: int, st: StV, p: ParamsV) -> (
    Option<CompV>,
    int,
    StV,
)
    decreases aheight(v), 0int, 0int,
{
    match v {
        JsonValV::Null => (Option::None, inner, st),
        JsonValV::Text => {
            let name = spec_register(st.names, "string_parser"@, outer);
            let st1 = push_name(st, name);
            let st2 = lower_entity(
                st1,
                name,
                value_interface(JsonType::Text, outer, p),
                value_stream_types(JsonType::Text),
                TemplateTypeV::Text,
            );
            (
                Option::Some(CompV::Value(ValueV { name, data_type: JsonType::Text, outer })),
                inner,
                st2,
            )
        },
        JsonValV::Number => {
            let name = spec_register(st.names, "int_parser"@, outer + 1);
            let st1 = push_name(st, name);
            let st2 = lower_entity(
                st1,
                name,
                value_interface(JsonType::Integer, outer + 1, p),
                value_stream_types(JsonType::Integer),
                TemplateTypeV::Int,
            );
            (
                Option::Some(
                    CompV::Value(ValueV { name, data_type: JsonType::Integer, outer: outer + 1 }),
                ),
                inner,
                st2,
            )
        },
        JsonValV::Boolean => {
            let name = spec_register(st.names, "bool_parser"@, outer + 1);
            let st1 = push_name(st, name);
            let st2 = lower_entity(
                st1,
                name,
                value_interface(JsonType::Boolean, outer + 1, p),
                value_stream_types(JsonType::Boolean),
                TemplateTypeV::Bool,
            );
            (
                Option::Some(
                    CompV::Value(ValueV { name, data_type: JsonType::Boolean, outer: outer + 1 }),
                ),
                inner,
                st2,
            )
        },
        JsonValV::Array(elems) => {
            if elems.len() == 0 {
                (Option::None, inner + 1, st)
            } else {
                let r0 = st_element(elems[0], outer + 1, inner, st, p);
                let name = spec_register(r0.2.names, "array_parser"@, outer + 1);
                let st1 = push_name(r0.2, name);
                let st2 = lower_entity(
                    st1,
                    name,
                    array_interface(outer + 1, r0.1, p),
                    array_stream_types(),
                    TemplateTypeV::Array,
                );
                let st3 = push_sigs(st2, child_signal(r0.0, name));
                (
                    Option::Some(
                        CompV::Array(
                            ArrayV {
                                name,
                                outer: outer + 1,
                                inner: r0.1,
                                child: box_child(r0.0),
                            },
                        ),
                    ),
                    r0.1 + 1,
                    st3,
                )
            }
        },
        JsonValV::Object(entries) => {
            let r = st_records(entries, outer, inner, st, p);
            (Option::Some(CompV::Object(ObjectV { records: r.0 })), r.1 + 1, r.2)
        },
    }
}

/// One step of the descent on one key/value field: always yields a record
/// whose matcher, key and record entities are emitted after the value
/// subtree's, in that order.
pub open spec fn st_record(
    key: Seq<char>,
    val: JsonValV,
    outer: int,
    inner: int,
    st: StV,
    p: ParamsV,
) -> (RecV, int, StV)
    decreases aheight(val), 1int, 0int,
{
    let r0 = st_element(val, outer + 1, inner, st, p);
    let record_name = spec_register(r0.2.names, "record_parser"@, outer + 1);
    let st2 = push_name(r0.2, record_name);
    let key_name = spec_register(st2.names, "key_parser"@, outer + 2);
    let st3 = push_name(st2, key_name);
    let matcher_name = spec_register(st3.names, key + "_parser"@, outer + 2);
    let st4 = push_name(st3, matcher_name);
    let mv = MatcherV { name: matcher_name, holder: key_name, literal: key, outer: outer + 2 };
    let kv = KeyV { name: key_name, matcher: mv, outer: outer + 2, child: box_child(r0.0) };
    let rv = RecV { name: record_name, outer: outer + 1, inner: r0.1, key: Box::new(kv) };
    let st5 = lower_entity(
        st4,
        matcher_name,
        matcher_interface(p),
        matcher_stream_types(),
        TemplateTypeV::Matcher(key),
    );
    let st6 = lower_entity(st5, key_name, key_interface(outer + 2, p), key_stream_types(),
        TemplateTypeV::Key);
    let st7 = lower_entity(
        st6,
        record_name,
        record_interface(outer + 1, r0.1, p),
        record_stream_types(),
        TemplateTypeV::Record,
    );
    let st8 = push_sigs(
        st7,
        child_signal(r0.0, key_name) + seq![
            matcher_signal(mv),
            SigV {
                source: key_name,
                source_port: PortName::Output,
                dest: record_name,
                dest_port: PortName::Input,
            },
        ],
    );
    (rv, r0.1 + 1, st8)
}

/// The descent over an object's fields, in source key order.  The
/// returned depth is the largest of the fields' results, or the incoming
/// depth for an object with no fields.
pub open spec fn st_records(
    entries: Seq<(Seq<char>, JsonValV)>,
    outer: int,
    inner: int,
    st: StV,
    p: ParamsV,
) -> (Seq<RecV>, int, StV)
    decreases aheight_entries(entries), 2int, entries.len(),
{
    if entries.len() == 0 {
        (Seq::empty(), inner, st)
    } else {
        let r0 = st_record(entries[0].0, entries[0].1, outer, inner, st, p);
        let rest = st_records(entries.drop_first(), outer, inner, r0.2, p);
        (
            seq![r0.0] + rest.0,
            if r0.1 > rest.1 {
                r0.1
            } else {
                rest.1
            },
            rest.2,
        )
    }
}

/// The returned inner depth never sinks below the incoming one and rises
/// at most by the value's descent depth.
pub proof fn lemma_st_element_bounds(v: JsonValV, outer: int, inner: int, st: StV, p: ParamsV)
    ensures
        inner <= st_element(v, outer, inner, st, p).1 <= inner + aheight(v),
    decreases aheight(v), 0int, 0int,
{
    match v {
        JsonValV::Array(elems) => {
            if elems.len() > 0 {
                lemma_st_element_bounds(elems[0], outer + 1, inner, st, p);
            }
        },
        JsonValV::Object(entries) => {
            lemma_st_records_bounds(entries, outer, inner, st, p);
        },
        _ => {},
    }
}

pub proof fn lemma_st_record_bounds(
    key: Seq<char>,
    val: JsonValV,
    outer: int,
    inner: int,
    st: StV,
    p: ParamsV,
)
    ensures
        inner + 1 <= st_record(key, val, outer, inner, st, p).1 <= inner + aheight(val) + 1,
    decreases aheight(val), 1int, 0int,
{
    lemma_st_element_bounds(val, outer + 1, inner, st, p);
}

pub proof fn lemma_st_records_bounds(
    entries: Seq<(Seq<char>, JsonValV)>,
    outer: int,
    inner: int,
    st: StV,
    p: ParamsV,
)
    ensures
        inner <= st_records(entries, outer, inner, st, p).1 <= inner + aheight_entries(entries)
            + 1,
    decreases aheight_entries(entries), 2int, entries.len(),
{
    if entries.len() > 0 {
        let r0 = st_record(entries[0].0, entries[0].1, outer, inner, st, p);
        lemma_aheight_entry(entries, 0);
        lemma_st_record_bounds(entries[0].0, entries[0].1, outer, inner, st, p);
        assert(aheight_entries(entries.drop_first()) <= aheight_entries(entries));
        lemma_st_records_bounds(entries.drop_first(), outer, inner, r0.2, p);
    }
}

pub open spec fn opt_comp_view(c: Option<JsonComponent>) -> Option<CompV> {
    match c {
        Option::Some(x) => Option::Some(x@),
        Option::None => Option::None,
    }
}

/// Whether an analysis has produced a root and that root is an object.
pub open spec fn object_top(t: Option<CompV>) -> bool {
    match t {
        Option::Some(c) => c is Object,
        Option::None => false,
    }
}

/// Set of functions to analyze the parsed JSON value into a component
/// structure from which the streaming-network description is generated.
pub struct Analyzer {
    name_reg: NameReg,
    type_manager: TypeManager,
    entity_list: Vec<TilStreamlet>,
    signal_list: Vec<TilSignal>,
    file_manager: FileManager,
    gen_params: GeneratorParams,
    top_component: Option<JsonComponent>,
}

/// Requesting the inferred root when no analysis has produced one, or
/// when the analyzed document's root was not an object.
#[derive(Debug)]
pub enum AnalyzerError {
    NoTop,
    PythonError(String),
}

impl Analyzer {
    /// The run state this analyzer has accumulated.
    pub closed spec fn st(&self) -> StV {
        StV {
            names: self.name_reg@,
            ents: ents_view(self.entity_list@),
            types: self.type_manager@,
            sigs: sigs_view(self.signal_list@),
            files: self.file_manager@,
        }
    }

    /// The generation parameters this analyzer carries.
    pub closed spec fn params(&self) -> ParamsV {
        self.gen_params@
    }

    /// The inferred root component, if an analysis has produced one.
    pub closed spec fn top(&self) -> Option<CompV> {
        opt_comp_view(self.top_component)
    }

    pub fn new() -> (r: Analyzer)
        ensures
            r.st() == empty_st(),
            r.top() is None,
            r.params() == crate::default_params(),
    {
        let r = Analyzer {
            name_reg: NameReg::new(),
            type_manager: TypeManager::new(),
            entity_list: Vec::new(),
            signal_list: Vec::new(),
            file_manager: FileManager::new(),
            gen_params: GeneratorParams::default(),
            top_component: None,
        };
        proof {
            assert(r.st() =~= empty_st());
        }
        r
    }

    /// Analyzes one element of the JSON value and recurses into arrays
    /// and objects.  A scalar or a non-empty array is lowered to its own
    /// entity here; an object's fields each lower themselves through
    /// `analyze_record`.
    pub fn analyze_element(&mut self, element: &JsonVal, outer_nesting: usize, inner_nesting: usize)
        -> (r: (Option<JsonComponent>, usize))
        requires
            outer_nesting + 2 * aheight(element@) + 2 <= usize::MAX,
            inner_nesting + aheight(element@) + 1 <= usize::MAX,
        ensures
            ({
                let (c, ni, st2) = st_element(
                    element@,
                    outer_nesting as int,
                    inner_nesting as int,
                    old(self).st(),
                    old(self).params(),
                );
                &&& opt_comp_view(r.0) == c
                &&& r.1 as int == ni
                &&& final(self).st() == st2
                &&& final(self).params() == old(self).params()
                &&& final(self).top() == old(self).top()
            }),
        decreases aheight(element@), 0int, 0int,
    {
        let ghost st0 = self.st();
        let ghost p = self.params();
        match element {
            JsonVal::Null => {
                proof {
                    assert(self.st() =~= st0);
                }
                (None, inner_nesting)
            },
            JsonVal::Text => {
                let name = self.name_reg.register(String::from_str("string_parser"), outer_nesting);
                let value = Value::new(name, JsonType::Text, outer_nesting);
                let til = value.to_til_component(&self.gen_params);
                let ghost tg = til;
                let ghost e0 = self.entity_list@;
                self.entity_list.push(til);
                proof {
                    lemma_ents_view_push(e0, tg);
                }
                let tys = value.get_streaming_types();
                self.type_manager.register_many(&tys);
                self.file_manager.add_entity(value.get_file_type(), value.name.clone());
                proof {
                    let tgt = st_element(element@, outer_nesting as int, inner_nesting as int, st0, p);
                    assert(self.st().names =~= tgt.2.names);
                    assert(self.st().ents =~= tgt.2.ents);
                    assert(self.st().types =~= tgt.2.types);
                    assert(self.st().sigs =~= tgt.2.sigs);
                    assert(self.st().files =~= tgt.2.files);
                    assert(self.st() =~= tgt.2);
                }
                (Some(JsonComponent::Value(value)), inner_nesting)
            },
            JsonVal::Number => {
                let name = self.name_reg.register(String::from_str("int_parser"), outer_nesting + 1);
                let value = Value::new(name, JsonType::Integer, outer_nesting + 1);
                let til = value.to_til_component(&self.gen_params);
                let ghost tg = til;
                let ghost e0 = self.entity_list@;
                self.entity_list.push(til);
                proof {
                    lemma_ents_view_push(e0, tg);
                }
                let tys = value.get_streaming_types();
                self.type_manager.register_many(&tys);
                self.file_manager.add_entity(value.get_file_type(), value.name.clone());
                proof {
                    let tgt = st_element(element@, outer_nesting as int, inner_nesting as int, st0, p);
                    assert(self.st().names =~= tgt.2.names);
                    assert(self.st().ents =~= tgt.2.ents);
                    assert(self.st().types =~= tgt.2.types);
                    assert(self.st().sigs =~= tgt.2.sigs);
                    assert(self.st().files =~= tgt.2.files);
                    assert(self.st() =~= tgt.2);
                }
                (Some(JsonComponent::Value(value)), inner_nesting)
            },
            JsonVal::Boolean => {
                let name = self.name_reg.register(String::from_str("bool_parser"), outer_nesting + 1);
                let value = Value::new(name, JsonType::Boolean, outer_nesting + 1);
                let til = value.to_til_component(&self.gen_params);
                let ghost tg = til;
                let ghost e0 = self.entity_list@;
                self.entity_list.push(til);
                proof {
                    lemma_ents_view_push(e0, tg);
                }
                let tys = value.get_streaming_types();
                self.type_manager.register_many(&tys);
                self.file_manager.add_entity(value.get_file_type(), value.name.clone());
                proof {
                    let tgt = st_element(element@, outer_nesting as int, inner_nesting as int, st0, p);
                    assert(self.st().names =~= tgt.2.names);
                    assert(self.st().ents =~= tgt.2.ents);
                    assert(self.st().types =~= tgt.2.types);
                    assert(self.st().sigs =~= tgt.2.sigs);
                    assert(self.st().files =~= tgt.2.files);
                    assert(self.st() =~= tgt.2);
                }
                (Some(JsonComponent::Value(value)), inner_nesting)
            },
            JsonVal::Array(elems) => {
                let ghost elems_v = json_seq_view(elems@);
                proof {
                    lemma_json_seq_view_len(elems@);
                }
                if elems.len() == 0 {
                    proof {
                        assert(self.st() =~= st0);
                    }
                    return (None, inner_nesting + 1);
                }
                proof {
                    lemma_json_seq_view_index(elems@, 0);
                    assert(aheight(element@) == 1 + aheight(elems_v[0]));
                    lemma_st_element_bounds(elems_v[0], outer_nesting + 1, inner_nesting as int, st0, p);
                }
                let child_element = &elems[0];
                let (child, new_inner) = self.analyze_element(child_element, outer_nesting + 1, inner_nesting);
                let ghost child_v = opt_comp_view(child);
                let name = self.name_reg.register(String::from_str("array_parser"), outer_nesting + 1);
                let boxed_child = match child {
                    Some(c) => Some(Box::new(c)),
                    None => None,
                };
                let array = Array::new(name, outer_nesting + 1, new_inner, boxed_child);
                let til = array.to_til_component(&self.gen_params);
                let ghost tg = til;
                let ghost e0 = self.entity_list@;
                self.entity_list.push(til);
                proof {
                    lemma_ents_view_push(e0, tg);
                }
                let tys = array.get_streaming_types();
                self.type_manager.register_many(&tys);
                self.file_manager.add_entity(array.get_file_type(), array.name.clone());
                match &array.child {
                    Some(b) => {
                        match b.entity_name() {
                            Some(n) => {
                                let sig = TilSignal {
                                    source: n.clone(),
                                    source_port: PortName::Output,
                                    dest: array.name.clone(),
                                    dest_port: PortName::Input,
                                };
                                let ghost sg = sig;
                                let ghost s0 = self.signal_list@;
                                self.signal_list.push(sig);
                                proof {
                                    lemma_sigs_view_push(s0, sg);
                                }
                            },
                            None => {},
                        }
                    },
                    None => {},
                }
                proof {
                    let tgt = st_element(element@, outer_nesting as int, inner_nesting as int, st0, p);
                    let r0 = st_element(elems_v[0], outer_nesting + 1, inner_nesting as int, st0, p);
                    assert(child_v == r0.0);
                    assert(self.st().names =~= tgt.2.names);
                    assert(self.st().ents =~= tgt.2.ents);
                    assert(self.st().types =~= tgt.2.types);
                    assert(self.st().sigs =~= tgt.2.sigs) by {
                        let before = r0.2.sigs;
                        match child_v {
                            Option::Some(cv) => {
                                match comp_entity_name(cv) {
                                    Option::Some(nm) => {
                                        assert(tgt.2.sigs =~= before.push(
                                            child_signal(child_v, array.name@)[0],
                                        ));
                                    },
                                    Option::None => {
                                        assert(tgt.2.sigs =~= before);
                                    },
                                }
                            },
                            Option::None => {
                                assert(tgt.2.sigs =~= before);
                            },
                        }
                    }
                    assert(self.st().files =~= tgt.2.files);
                    assert(self.st() =~= tgt.2);
                    match &array.child {
                        Option::Some(b) => {
                            assert(child_v == Option::Some((**b)@));
                            assert(child_view(array.child) == box_child(child_v));
                        },
                        Option::None => {
                            assert(child_view(array.child) == box_child(child_v));
                        },
                    }
                    assert(opt_comp_view(Option::Some(JsonComponent::Array(array))) == tgt.0);
                }
                (Some(JsonComponent::Array(array)), new_inner + 1)
            },
            JsonVal::Object(entries) => {
                let ghost entries_v = json_entries_view(entries@);
                let ghost full = st_records(
                    entries_v,
                    outer_nesting as int,
                    inner_nesting as int,
                    st0,
                    p,
                );
                proof {
                    lemma_json_entries_view_len(entries@);
                    lemma_st_records_bounds(
                        entries_v,
                        outer_nesting as int,
                        inner_nesting as int,
                        st0,
                        p,
                    );
                    assert(entries_v.subrange(0, entries_v.len() as int) =~= entries_v);
                    assert(records_view(Seq::empty()) =~= Seq::<RecV>::empty());
                    assert(full.0 =~= records_view(Seq::empty()) + full.0);
                }
                let mut children: Vec<Record> = Vec::new();
                let mut max_inner: usize = inner_nesting;
                let mut idx: usize = 0;
                while idx < entries.len()
                    invariant
                        idx <= entries.len(),
                        entries_v == json_entries_view(entries@),
                        entries_v.len() == entries@.len(),
                        element@ == JsonValV::Object(entries_v),
                        outer_nesting + 2 * aheight(element@) + 2 <= usize::MAX,
                        inner_nesting + aheight(element@) + 1 <= usize::MAX,
                        full == st_records(
                            entries_v,
                            outer_nesting as int,
                            inner_nesting as int,
                            st0,
                            p,
                        ),
                        self.params() == p,
                        self.top() == old(self).top(),
                        inner_nesting <= max_inner,
                        max_inner as int <= inner_nesting + aheight_entries(entries_v) + 1,
                        ({
                            let rem = st_records(
                                entries_v.subrange(idx as int, entries_v.len() as int),
                                outer_nesting as int,
                                inner_nesting as int,
                                self.st(),
                                p,
                            );
                            &&& full.0 == records_view(children@) + rem.0
                            &&& full.1 == (if max_inner as int > rem.1 {
                                max_inner as int
                            } else {
                                rem.1
                            })
                            &&& full.2 == rem.2
                        }),
                    decreases entries@.len() - idx,
                {
                    let ghost suffix = entries_v.subrange(idx as int, entries_v.len() as int);
                    let ghost st_i = self.st();
                    proof {
                        lemma_json_entries_view_index(entries@, idx as int);
                        lemma_aheight_entry(entries_v, idx as int);
                        assert(aheight(element@) == 2 + aheight_entries(entries_v));
                        assert(suffix[0] == entries_v[idx as int]);
                        lemma_st_record_bounds(
                            entries_v[idx as int].0,
                            entries_v[idx as int].1,
                            outer_nesting as int,
                            inner_nesting as int,
                            st_i,
                            p,
                        );
                    }
                    let kv = &entries[idx];
                    let (child, ret_inner) = self.analyze_record(
                        kv.0.as_str(),
                        &kv.1,
                        outer_nesting,
                        inner_nesting,
                    );
                    let ghost ch0 = children@;
                    if let Some(record) = child {
                        let ghost rg = record;
                        proof {
                            lemma_records_view_push(ch0, rg);
                        }
                        children.push(record);
                    }
                    if ret_inner > max_inner {
                        max_inner = ret_inner;
                    }
                    proof {
                        let r0 = st_record(
                            entries_v[idx as int].0,
                            entries_v[idx as int].1,
                            outer_nesting as int,
                            inner_nesting as int,
                            st_i,
                            p,
                        );
                        let rest = st_records(
                            suffix.drop_first(),
                            outer_nesting as int,
                            inner_nesting as int,
                            r0.2,
                            p,
                        );
                        assert(st_records(suffix, outer_nesting as int, inner_nesting as int, st_i, p)
                            == (seq![r0.0] + rest.0, if r0.1 > rest.1 { r0.1 } else { rest.1 }, rest.2));
                        assert(suffix.drop_first() =~= entries_v.subrange(
                            idx + 1,
                            entries_v.len() as int,
                        ));
                        assert(records_view(children@) =~= records_view(ch0).push(r0.0));
                        assert(records_view(ch0).push(r0.0) + rest.0 =~= records_view(ch0) + (seq![r0.0]
                            + rest.0));
                    }
                    idx = idx + 1;
                }
                proof {
                    assert(entries_v.subrange(entries_v.len() as int, entries_v.len() as int)
                        =~= Seq::<(Seq<char>, JsonValV)>::empty());
                    let rem = st_records(
                        Seq::<(Seq<char>, JsonValV)>::empty(),
                        outer_nesting as int,
                        inner_nesting as int,
                        self.st(),
                        p,
                    );
                    assert(rem.0 =~= Seq::<RecV>::empty());
                    assert(full.0 =~= records_view(children@));
                    assert(full.2 == self.st());
                }
                let object = Object::new(children);
                proof {
                    let tgt = st_element(element@, outer_nesting as int, inner_nesting as int, st0, p);
                    assert(tgt.2 == full.2);
                    assert(self.st() =~= tgt.2);
                }
                (Some(JsonComponent::Object(object)), max_inner + 1)
            },
        }
    }

    /// Analyzes one key/value field of an object.  The value subtree is
    /// analyzed (and emitted) first; then a matcher, a key and a record
    /// component are created for the field and emitted in that order, so
    /// every referenced entity precedes its referent.
    pub fn analyze_record(&mut self, key: &str, element: &JsonVal, outer_nesting: usize, inner_nesting: usize)
        -> (r: (Option<Record>, usize))
        requires
            outer_nesting + 2 * aheight(element@) + 4 <= usize::MAX,
            inner_nesting + aheight(element@) + 2 <= usize::MAX,
        ensures
            ({
                let (rec, ni, st2) = st_record(
                    key@,
                    element@,
                    outer_nesting as int,
                    inner_nesting as int,
                    old(self).st(),
                    old(self).params(),
                );
                &&& match r.0 {
                    Some(rc) => record_view(rc) == rec,
                    None => false,
                }
                &&& r.1 as int == ni
                &&& final(self).st() == st2
                &&& final(self).params() == old(self).params()
                &&& final(self).top() == old(self).top()
            }),
        decreases aheight(element@), 1int, 0int,
    {
        let ghost st0 = self.st();
        let ghost p = self.params();
        proof {
            lemma_st_element_bounds(element@, outer_nesting + 1, inner_nesting as int, st0, p);
        }
        let (child, new_inner) = self.analyze_element(element, outer_nesting + 1, inner_nesting);
        let ghost child_v = opt_comp_view(child);
        let record_name = self.name_reg.register(String::from_str("record_parser"), outer_nesting + 1);
        let key_name = self.name_reg.register(String::from_str("key_parser"), outer_nesting + 2);
        let matcher_base = key.to_owned().concat("_parser");
        let matcher_name = self.name_reg.register(matcher_base, outer_nesting + 2);
        let matcher = Matcher::new(matcher_name, key_name.clone(), key.to_owned(), outer_nesting + 2);
        let boxed_child = match child {
            Some(c) => Some(Box::new(c)),
            None => None,
        };
        let key_comp = Key::new(key_name, matcher, outer_nesting + 2, boxed_child);
        let record = Record::new(record_name, outer_nesting + 1, new_inner, key_comp);

        let matcher_til = record.key.matcher.to_til_component(&self.gen_params);
        let ghost mt = matcher_til;
        let ghost e0 = self.entity_list@;
        self.entity_list.push(matcher_til);
        proof {
            lemma_ents_view_push(e0, mt);
        }
        let tys = record.key.matcher.get_streaming_types();
        self.type_manager.register_many(&tys);
        self.file_manager.add_entity(
            record.key.matcher.get_file_type(),
            record.key.matcher.name.clone(),
        );

        let key_til = record.key.to_til_component(&self.gen_params);
        let ghost kt = key_til;
        let ghost e1 = self.entity_list@;
        self.entity_list.push(key_til);
        proof {
            lemma_ents_view_push(e1, kt);
        }
        let tys2 = record.key.get_streaming_types();
        self.type_manager.register_many(&tys2);
        self.file_manager.add_entity(record.key.get_file_type(), record.key.name.clone());

        let record_til = record.to_til_component(&self.gen_params);
        let ghost rt = record_til;
        let ghost e2 = self.entity_list@;
        self.entity_list.push(record_til);
        proof {
            lemma_ents_view_push(e2, rt);
        }
        let tys3 = record.get_streaming_types();
        self.type_manager.register_many(&tys3);
        self.file_manager.add_entity(record.get_file_type(), record.name.clone());

        match &record.key.child {
            Some(b) => {
                match b.entity_name() {
                    Some(n) => {
                        let sig = TilSignal {
                            source: n.clone(),
                            source_port: PortName::Output,
                            dest: record.key.name.clone(),
                            dest_port: PortName::Input,
                        };
                        let ghost sg = sig;
                        let ghost s0 = self.signal_list@;
                        self.signal_list.push(sig);
                        proof {
                            lemma_sigs_view_push(s0, sg);
                        }
                    },
                    None => {},
                }
            },
            None => {},
        }
        let mut msigs = record.key.matcher.get_outgoing_signals();
        let msig = msigs.pop();
        if let Some(sig) = msig {
            let ghost sg = sig;
            let ghost s0 = self.signal_list@;
            self.signal_list.push(sig);
            proof {
                lemma_sigs_view_push(s0, sg);
            }
        }
        let key_sig = record.to_til_signal();
        let ghost ks = key_sig;
        let ghost s1 = self.signal_list@;
        self.signal_list.push(key_sig);
        proof {
            lemma_sigs_view_push(s1, ks);
        }

        proof {
            let tgt = st_record(
                key@,
                element@,
                outer_nesting as int,
                inner_nesting as int,
                st0,
                p,
            );
            let r0 = st_element(element@, outer_nesting + 1, inner_nesting as int, st0, p);
            assert(child_v == r0.0);
            assert(self.st().names =~= tgt.2.names);
            assert(self.st().ents =~= tgt.2.ents);
            assert(self.st().types =~= tgt.2.types);
            assert(self.st().sigs =~= tgt.2.sigs) by {
                let before = r0.2.sigs;
                let kn = record.key.name@;
                match child_v {
                    Option::Some(cv) => {
                        match comp_entity_name(cv) {
                            Option::Some(nm) => {
                                assert(tgt.2.sigs =~= before.push(child_signal(child_v, kn)[0]).push(
                                    matcher_signal(matcher_view(record.key.matcher)),
                                ).push(
                                    SigV {
                                        source: record.key.name@,
                                        source_port: PortName::Output,
                                        dest: record.name@,
                                        dest_port: PortName::Input,
                                    },
                                ));
                            },
                            Option::None => {
                                assert(tgt.2.sigs =~= before.push(
                                    matcher_signal(matcher_view(record.key.matcher)),
                                ).push(
                                    SigV {
                                        source: record.key.name@,
                                        source_port: PortName::Output,
                                        dest: record.name@,
                                        dest_port: PortName::Input,
                                    },
                                ));
                            },
                        }
                    },
                    Option::None => {
                        assert(tgt.2.sigs =~= before.push(
                            matcher_signal(matcher_view(record.key.matcher)),
                        ).push(
                            SigV {
                                source: record.key.name@,
                                source_port: PortName::Output,
                                dest: record.name@,
                                dest_port: PortName::Input,
                            },
                        ));
                    },
                }
            }
            assert(self.st().files =~= tgt.2.files);
            assert(self.st() =~= tgt.2);
            assert(record_view(record) == tgt.0);
        }
        (Some(record), new_inner + 1)
    }

    /// Runs one analysis: stores the generation parameters, analyzes the
    /// root element at depth zero, and keeps the inferred root component.
    pub fn analyze(&mut self, root: &JsonVal, gen_params: GeneratorParams)
        requires
            2 * aheight(root@) + 2 <= usize::MAX,
            aheight(root@) + 1 <= usize::MAX,
        ensures
            ({
                let (c, ni, st2) = st_element(root@, 0, 0, old(self).st(), gen_params@);
                &&& final(self).st() == st2
                &&& final(self).top() == c
                &&& final(self).params() == gen_params@
            }),
    {
        self.gen_params = gen_params;
        let result = self.analyze_element(root, 0, 0);
        self.top_component = result.0;
    }

    /// The inferred root component.  The no-schema error is reported both
    /// when no analysis has run yet and when the analyzed document's root
    /// was not an object.
    pub fn get_root(&self) -> (r: Result<&JsonComponent, AnalyzerError>)
        ensures
            match r {
                Ok(c) => self.top() == Option::Some(c@) && c@ is Object,
                Err(e) => e is NoTop && !object_top(self.top()),
            },
    {
        match &self.top_component {
            Some(top) => {
                if matches!(top, JsonComponent::Object(_)) {
                    Ok(top)
                } else {
                    Err(AnalyzerError::NoTop)
                }
            },
            None => Err(AnalyzerError::NoTop),
        }
    }

    /// The run's outputs for the renderer: the deduplicated stream types
    /// and the ordered entity list.
    pub fn get_definitions(&self) -> (r: (Vec<StreamType>, &Vec<TilStreamlet>))
        ensures
            r.0@ == self.st().types,
            ents_view(r.1@) == self.st().ents,
    {
        (self.type_manager.get_stream_types(), &self.entity_list)
    }

    /// The derived point-to-point signals, in emission order.
    pub fn get_signals(&self) -> (r: &Vec<TilSignal>)
        ensures
            sigs_view(r@) == self.st().sigs,
    {
        &self.signal_list
    }

    /// The per-entity template schedule for the rendering stage.
    pub fn get_file_manager(&self) -> (r: &FileManager)
        ensures
            r@ == self.st().files,
    {
        &self.file_manager
    }
}

} // verus!
