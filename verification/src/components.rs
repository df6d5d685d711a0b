//! The component model: the closed tagged-variant tree representing the
//! inferred schema, and the per-variant lowering of each component to its
//! streamlet entity, referenced stream types, template and outgoing
//! signals.

use vstd::prelude::*;
use vstd::string::StringExecFns;

use crate::GeneratorParams;
use crate::ParamsV;
use crate::file_manager::TemplateType;
use crate::file_manager::TemplateTypeV;
use crate::names::EntityName;
use crate::names::NameV;
use crate::til::EntV;
use crate::til::Generic;
use crate::til::GenericKind;
use crate::til::GenericV;
use crate::til::InterfaceV;
use crate::til::PortName;
use crate::til::SigV;
use crate::til::StreamType;
use crate::til::TilSignal;
use crate::til::TilStream;
use crate::til::TilStreamDirection;
use crate::til::TilStreamingInterface;
use crate::til::TilStreamlet;
use crate::til::generics_view;

verus! {

broadcast use vstd::seq::group_seq_axioms, vstd::seq_lib::group_seq_lib_default,
    vstd::std_specs::vec::group_vec_axioms;

/// The primitive type of a scalar leaf.
#[derive(Clone, Copy, PartialEq, Eq, Structural, Debug)]
pub enum JsonType {
    Text,
    Integer,
    Boolean,
}

/// A scalar leaf parser.
pub struct Value {
    pub name: EntityName,
    pub data_type: JsonType,
    pub outer_nested: usize,
}

/// A repeated-element parser; the element schema is sampled from the
/// array's first element only, so there is at most one child.
pub struct Array {
    pub name: EntityName,
    pub outer_nested: usize,
    pub inner_nested: usize,
    pub child: Option<Box<JsonComponent>>,
}

/// An unordered field set: its record children, in source key order.
pub struct Object {
    pub records: Vec<Record>,
}

/// One key/value field of an object.
pub struct Record {
    pub name: EntityName,
    pub outer_nested: usize,
    pub inner_nested: usize,
    pub key: Key,
}

/// The field-name layer: bridges a matcher's output to the value subtree.
pub struct Key {
    pub name: EntityName,
    pub matcher: Matcher,
    pub outer_nested: usize,
    pub child: Option<Box<JsonComponent>>,
}

/// A literal key-name recognizer; terminal, never has children.
pub struct Matcher {
    pub name: EntityName,
    pub holder_name: EntityName,
    pub matcher: String,
    pub outer_nested: usize,
}

/// The inferred schema tree: a closed sum with exhaustive matching at
/// every consumer.
pub enum JsonComponent {
    Value(Value),
    Array(Array),
    Object(Object),
    Record(Record),
    Key(Key),
    Matcher(Matcher),
}

/// Mathematical model of `Value`.
pub struct ValueV {
    pub name: NameV,
    pub data_type: JsonType,
    pub outer: int,
}

/// Mathematical model of `Matcher`.
pub struct MatcherV {
    pub name: NameV,
    pub holder: NameV,
    pub literal: Seq<char>,
    pub outer: int,
}

/// Mathematical model of `Array`.
pub struct ArrayV {
    pub name: NameV,
    pub outer: int,
    pub inner: int,
    pub child: Option<Box<CompV>>,
}

/// Mathematical model of `Key`.
pub struct KeyV {
    pub name: NameV,
    pub matcher: MatcherV,
    pub outer: int,
    pub child: Option<Box<CompV>>,
}

/// Mathematical model of `Record`.
pub struct RecV {
    pub name: NameV,
    pub outer: int,
    pub inner: int,
    pub key: Box<KeyV>,
}

/// Mathematical model of `Object`.
pub struct ObjectV {
    pub records: Seq<RecV>,
}

/// Mathematical model of `JsonComponent`.
pub enum CompV {
    Value(ValueV),
    Array(ArrayV),
    Object(ObjectV),
    Record(RecV),
    Key(KeyV),
    Matcher(MatcherV),
}

pub open spec fn matcher_view(m: Matcher) -> MatcherV {
    MatcherV { name: m.name@, holder: m.holder_name@, literal: m.matcher@, outer: m.outer_nested as int }
}

pub open spec fn child_view(c: Option<Box<JsonComponent>>) -> Option<Box<CompV>>
    decreases c,
{
    match c {
        Option::None => Option::None,
        Option::Some(b) => Option::Some(Box::new((*b).view())),
    }
}

pub open spec fn key_view(k: Key) -> KeyV
    decreases k,
{
    KeyV {
        name: k.name@,
        matcher: matcher_view(k.matcher),
        outer: k.outer_nested as int,
        child: child_view(k.child),
    }
}

pub open spec fn record_view(r: Record) -> RecV
    decreases r,
{
    RecV {
        name: r.name@,
        outer: r.outer_nested as int,
        inner: r.inner_nested as int,
        key: Box::new(key_view(r.key)),
    }
}

pub open spec fn records_view(s: Seq<Record>) -> Seq<RecV>
    decreases s,
{
    if s.len() == 0 {
        Seq::empty()
    } else {
        records_view(s.drop_last()).push(record_view(s.last()))
    }
}

pub proof fn lemma_records_view_len(s: Seq<Record>)
    ensures
        records_view(s).len() == s.len(),
    decreases s,
{
    if s.len() > 0 {
        lemma_records_view_len(s.drop_last());
        assert(records_view(s) == records_view(s.drop_last()).push(record_view(s.last())));
    }
}

pub proof fn lemma_records_view_index(s: Seq<Record>, i: int)
    requires
        0 <= i < s.len(),
    ensures
        records_view(s)[i] == record_view(s[i]),
    decreases s,
{
    lemma_records_view_len(s);
    lemma_records_view_len(s.drop_last());
    assert(records_view(s) == records_view(s.drop_last()).push(record_view(s.last())));
    if i < s.len() - 1 {
        lemma_records_view_index(s.drop_last(), i);
    }
}

impl View for JsonComponent {
    type V = CompV;

    open spec fn view(&self) -> CompV
        decreases self,
    {
        match self {
            JsonComponent::Value(v) => CompV::Value(
                ValueV { name: v.name@, data_type: v.data_type, outer: v.outer_nested as int },
            ),
            JsonComponent::Array(a) => CompV::Array(
                ArrayV {
                    name: a.name@,
                    outer: a.outer_nested as int,
                    inner: a.inner_nested as int,
                    child: child_view(a.child),
                },
            ),
            JsonComponent::Object(o) => CompV::Object(ObjectV { records: records_view(o.records@) }),
            JsonComponent::Record(r) => CompV::Record(record_view(*r)),
            JsonComponent::Key(k) => CompV::Key(key_view(*k)),
            JsonComponent::Matcher(m) => CompV::Matcher(matcher_view(*m)),
        }
    }
}

/// The instance name of a component's own entity, if the component is
/// lowered to one (every variant but `Object`, whose children register
/// themselves).
pub open spec fn comp_entity_name(c: CompV) -> Option<NameV> {
    match c {
        CompV::Value(v) => Option::Some(v.name),
        CompV::Array(a) => Option::Some(a.name),
        CompV::Object(_) => Option::None,
        CompV::Record(r) => Option::Some(r.name),
        CompV::Key(k) => Option::Some(k.name),
        CompV::Matcher(m) => Option::Some(m.name),
    }
}

impl Clone for Value {
    /// A deep copy with the same model.
    fn clone(&self) -> (r: Self)
        ensures
            r.name@ == self.name@,
            r.data_type == self.data_type,
            r.outer_nested == self.outer_nested,
    {
        Value {
            name: self.name.clone(),
            data_type: self.data_type,
            outer_nested: self.outer_nested,
        }
    }
}

impl Clone for Matcher {
    /// A deep copy with the same model.
    fn clone(&self) -> (r: Self)
        ensures
            matcher_view(r) == matcher_view(*self),
    {
        Matcher {
            name: self.name.clone(),
            holder_name: self.holder_name.clone(),
            matcher: self.matcher.clone(),
            outer_nested: self.outer_nested,
        }
    }
}

impl Clone for Key {
    /// A deep copy with the same model.
    fn clone(&self) -> (r: Self)
        ensures
            key_view(r) == key_view(*self),
        decreases *self,
    {
        Key {
            name: self.name.clone(),
            matcher: self.matcher.clone(),
            outer_nested: self.outer_nested,
            child: match &self.child {
                Some(b) => Some(Box::new((**b).clone())),
                None => None,
            },
        }
    }
}

impl Clone for Record {
    /// A deep copy with the same model.
    fn clone(&self) -> (r: Self)
        ensures
            record_view(r) == record_view(*self),
        decreases *self,
    {
        Record {
            name: self.name.clone(),
            outer_nested: self.outer_nested,
            inner_nested: self.inner_nested,
            key: self.key.clone(),
        }
    }
}

impl Clone for Object {
    /// A deep copy with the same model.
    #[verifier::loop_isolation(false)]
    fn clone(&self) -> (r: Self)
        ensures
            records_view(r.records@) == records_view(self.records@),
        decreases *self,
    {
        let mut records: Vec<Record> = Vec::new();
        let mut i: usize = 0;
        while i < self.records.len()
            invariant
                i <= self.records.len(),
                records_view(records@) =~= records_view(self.records@).take(i as int),
            decreases self.records@.len() - i,
        {
            proof {
                assert(decreases_to!(*self => self.records));
                assert(decreases_to!(self.records => self.records[i as int]));
                lemma_records_view_len(self.records@);
                lemma_records_view_index(self.records@, i as int);
            }
            let ghost before = records@;
            let rc = self.records[i].clone();
            let ghost rcg = rc;
            records.push(rc);
            proof {
                lemma_records_view_push(before, rcg);
                let rv = records_view(self.records@);
                assert(rv.take(i + 1).drop_last() =~= rv.take(i as int));
                assert(rv.take(i + 1).last() == rv[i as int]);
                assert(records_view(records@) =~= rv.take(i + 1));
            }
            i = i + 1;
        }
        proof {
            let rv = records_view(self.records@);
            lemma_records_view_len(self.records@);
            assert(rv.take(rv.len() as int) =~= rv);
        }
        Object { records }
    }
}

pub proof fn lemma_records_view_push(s: Seq<Record>, x: Record)
    ensures
        records_view(s.push(x)) == records_view(s).push(record_view(x)),
{
    assert(s.push(x).drop_last() =~= s);
    assert(records_view(s.push(x)) == records_view(s.push(x).drop_last()).push(
        record_view(s.push(x).last()),
    ));
}

impl Clone for JsonComponent {
    /// A deep copy with the same model.
    fn clone(&self) -> (r: Self)
        ensures
            r@ == self@,
        decreases *self,
    {
        match self {
            JsonComponent::Value(v) => JsonComponent::Value(v.clone()),
            JsonComponent::Array(a) => JsonComponent::Array(
                Array {
                    name: a.name.clone(),
                    outer_nested: a.outer_nested,
                    inner_nested: a.inner_nested,
                    child: match &a.child {
                        Some(b) => Some(Box::new((**b).clone())),
                        None => None,
                    },
                },
            ),
            JsonComponent::Object(o) => JsonComponent::Object(o.clone()),
            JsonComponent::Record(r) => JsonComponent::Record(r.clone()),
            JsonComponent::Key(k) => JsonComponent::Key(k.clone()),
            JsonComponent::Matcher(m) => JsonComponent::Matcher(m.clone()),
        }
    }
}

impl JsonComponent {
    /// The name of this component's own entity, if it has one.
    pub fn entity_name(&self) -> (r: Option<&EntityName>)
        ensures
            match r {
                Some(n) => comp_entity_name(self@) == Option::Some(n@),
                None => comp_entity_name(self@) is None,
            },
    {
        match self {
            JsonComponent::Value(v) => Some(&v.name),
            JsonComponent::Array(a) => Some(&a.name),
            JsonComponent::Object(_) => None,
            JsonComponent::Record(r) => Some(&r.name),
            JsonComponent::Key(k) => Some(&k.name),
            JsonComponent::Matcher(m) => Some(&m.name),
        }
    }
}

pub open spec fn epc_generic(p: ParamsV) -> GenericV {
    GenericV { kind: GenericKind::Epc, value: p.epc }
}

pub open spec fn bpc_generic(p: ParamsV) -> GenericV {
    GenericV { kind: GenericKind::Bpc, value: p.epc }
}

pub open spec fn nesting_generic(outer: int) -> GenericV {
    GenericV { kind: GenericKind::NestingLevel, value: outer }
}

pub open spec fn dimensionality_generic(inner: int) -> GenericV {
    GenericV { kind: GenericKind::Dimensionality, value: inner }
}

pub open spec fn int_width_generic(p: ParamsV) -> GenericV {
    GenericV { kind: GenericKind::IntWidth, value: p.int_width }
}

pub open spec fn in_json_stream() -> TilStream {
    TilStream {
        name: PortName::Input,
        direction: TilStreamDirection::Input,
        stream_type: StreamType::Json,
    }
}

pub open spec fn out_stream(t: StreamType) -> TilStream {
    TilStream { name: PortName::Output, direction: TilStreamDirection::Output, stream_type: t }
}

/// The stream type a scalar parser emits.
pub open spec fn value_output_type(t: JsonType) -> StreamType {
    match t {
        JsonType::Text => StreamType::Text,
        JsonType::Integer => StreamType::Int,
        JsonType::Boolean => StreamType::Bool,
    }
}

/// Interface of a scalar parser: run-wide throughput, its nesting level,
/// for integers the integer width; a JSON byte input and a typed output.
pub open spec fn value_interface(t: JsonType, outer: int, p: ParamsV) -> InterfaceV {
    InterfaceV {
        generics: if t is Integer {
            seq![epc_generic(p), nesting_generic(outer), int_width_generic(p)]
        } else {
            seq![epc_generic(p), nesting_generic(outer)]
        },
        streams: seq![in_json_stream(), out_stream(value_output_type(t))],
    }
}

pub open spec fn value_stream_types(t: JsonType) -> Seq<StreamType> {
    seq![StreamType::Json, value_output_type(t)]
}

/// Interface of an array parser: JSON bytes in, JSON bytes out; its
/// inner depth rides along as the dimensionality of its streams.
pub open spec fn array_interface(outer: int, inner: int, p: ParamsV) -> InterfaceV {
    InterfaceV {
        generics: seq![epc_generic(p), nesting_generic(outer), dimensionality_generic(inner)],
        streams: seq![in_json_stream(), out_stream(StreamType::Json)],
    }
}

pub open spec fn array_stream_types() -> Seq<StreamType> {
    seq![StreamType::Json]
}

/// Interface of a record parser: JSON bytes in, JSON bytes out; its
/// inner depth rides along as the dimensionality of its streams.
pub open spec fn record_interface(outer: int, inner: int, p: ParamsV) -> InterfaceV {
    InterfaceV {
        generics: seq![epc_generic(p), nesting_generic(outer), dimensionality_generic(inner)],
        streams: seq![in_json_stream(), out_stream(StreamType::Json)],
    }
}

pub open spec fn record_stream_types() -> Seq<StreamType> {
    seq![StreamType::Json]
}

/// Interface of a key parser: JSON bytes in, the matcher verdict on its
/// dedicated port, JSON bytes out.
pub open spec fn key_interface(outer: int, p: ParamsV) -> InterfaceV {
    InterfaceV {
        generics: seq![epc_generic(p), nesting_generic(outer)],
        streams: seq![
            in_json_stream(),
            TilStream {
                name: PortName::MatcherMatch,
                direction: TilStreamDirection::Input,
                stream_type: StreamType::MatcherMatch,
            },
            out_stream(StreamType::Json),
        ],
    }
}

pub open spec fn key_stream_types() -> Seq<StreamType> {
    seq![StreamType::Json, StreamType::MatcherMatch]
}

/// Interface of a matcher: its byte throughput, a byte input and a match
/// verdict output.
pub open spec fn matcher_interface(p: ParamsV) -> InterfaceV {
    InterfaceV {
        generics: seq![bpc_generic(p)],
        streams: seq![
            TilStream {
                name: PortName::Input,
                direction: TilStreamDirection::Input,
                stream_type: StreamType::MatcherStr,
            },
            out_stream(StreamType::MatcherMatch),
        ],
    }
}

pub open spec fn matcher_stream_types() -> Seq<StreamType> {
    seq![StreamType::MatcherStr, StreamType::MatcherMatch]
}

/// The signal a matcher sends its holding key parser: the match verdict.
pub open spec fn matcher_signal(m: MatcherV) -> SigV {
    SigV {
        source: m.name,
        source_port: PortName::Output,
        dest: m.holder,
        dest_port: PortName::MatcherMatch,
    }
}

proof fn lemma_generics_view1(a: Generic)
    ensures
        generics_view(seq![a]) == seq![a@],
{
    let s = seq![a];
    assert(s.drop_last() =~= Seq::<Generic>::empty());
    assert(generics_view(s) == generics_view(s.drop_last()).push(s.last()@));
    assert(generics_view(s) =~= seq![a@]);
}

proof fn lemma_generics_view2(a: Generic, b: Generic)
    ensures
        generics_view(seq![a, b]) == seq![a@, b@],
{
    let s = seq![a, b];
    lemma_generics_view1(a);
    assert(s.drop_last() =~= seq![a]);
    assert(generics_view(s) == generics_view(s.drop_last()).push(s.last()@));
    assert(generics_view(s) =~= seq![a@, b@]);
}

proof fn lemma_generics_view3(a: Generic, b: Generic, c: Generic)
    ensures
        generics_view(seq![a, b, c]) == seq![a@, b@, c@],
{
    let s = seq![a, b, c];
    lemma_generics_view2(a, b);
    assert(s.drop_last() =~= seq![a, b]);
    assert(generics_view(s) == generics_view(s.drop_last()).push(s.last()@));
    assert(generics_view(s) =~= seq![a@, b@, c@]);
}

impl Value {
    pub fn new(name: EntityName, data_type: JsonType, outer_nested: usize) -> (r: Value)
        ensures
            r == (Value { name, data_type, outer_nested }),
    {
        Value { name, data_type, outer_nested }
    }

    pub fn get_nesting_level(&self) -> (r: usize)
        ensures
            r == self.outer_nested,
    {
        self.outer_nested
    }

    /// Lowers this scalar parser to its streamlet entity.
    pub fn to_til_component(&self, gen_params: &GeneratorParams) -> (r: TilStreamlet)
        ensures
            r@ == (EntV {
                name: self.name@,
                interface: value_interface(self.data_type, self.outer_nested as int, gen_params@),
            }),
    {
        let mut generics: Vec<Generic> = Vec::new();
        generics.push(Generic { kind: GenericKind::Epc, value: gen_params.epc });
        generics.push(Generic { kind: GenericKind::NestingLevel, value: self.outer_nested });
        if matches!(self.data_type, JsonType::Integer) {
            generics.push(Generic { kind: GenericKind::IntWidth, value: gen_params.int_width });
        }
        let mut streams: Vec<TilStream> = Vec::new();
        streams.push(TilStream {
            name: PortName::Input,
            direction: TilStreamDirection::Input,
            stream_type: StreamType::Json,
        });
        let out_type = match self.data_type {
            JsonType::Text => StreamType::Text,
            JsonType::Integer => StreamType::Int,
            JsonType::Boolean => StreamType::Bool,
        };
        streams.push(TilStream {
            name: PortName::Output,
            direction: TilStreamDirection::Output,
            stream_type: out_type,
        });
        proof {
            if self.data_type is Integer {
                assert(generics@ =~= seq![
                    Generic { kind: GenericKind::Epc, value: gen_params.epc },
                    Generic { kind: GenericKind::NestingLevel, value: self.outer_nested },
                    Generic { kind: GenericKind::IntWidth, value: gen_params.int_width },
                ]);
                lemma_generics_view3(
                    Generic { kind: GenericKind::Epc, value: gen_params.epc },
                    Generic { kind: GenericKind::NestingLevel, value: self.outer_nested },
                    Generic { kind: GenericKind::IntWidth, value: gen_params.int_width },
                );
            } else {
                assert(generics@ =~= seq![
                    Generic { kind: GenericKind::Epc, value: gen_params.epc },
                    Generic { kind: GenericKind::NestingLevel, value: self.outer_nested },
                ]);
                lemma_generics_view2(
                    Generic { kind: GenericKind::Epc, value: gen_params.epc },
                    Generic { kind: GenericKind::NestingLevel, value: self.outer_nested },
                );
            }
            assert(streams@ =~= value_interface(
                self.data_type,
                self.outer_nested as int,
                gen_params@,
            ).streams);
        }
        TilStreamlet {
            name: self.name.clone(),
            interface: TilStreamingInterface { generics, streams },
        }
    }

    /// The stream types this entity's ports reference.
    pub fn get_streaming_types(&self) -> (r: Vec<StreamType>)
        ensures
            r@ == value_stream_types(self.data_type),
    {
        let mut r: Vec<StreamType> = Vec::new();
        r.push(StreamType::Json);
        r.push(
            match self.data_type {
                JsonType::Text => StreamType::Text,
                JsonType::Integer => StreamType::Int,
                JsonType::Boolean => StreamType::Bool,
            },
        );
        proof {
            assert(r@ =~= value_stream_types(self.data_type));
        }
        r
    }

    /// The fixed template realizing this scalar parser.
    pub fn get_file_type(&self) -> (r: TemplateType)
        ensures
            r@ == (match self.data_type {
                JsonType::Text => TemplateTypeV::Text,
                JsonType::Integer => TemplateTypeV::Int,
                JsonType::Boolean => TemplateTypeV::Bool,
            }),
    {
        match self.data_type {
            JsonType::Text => TemplateType::Text,
            JsonType::Integer => TemplateType::Int,
            JsonType::Boolean => TemplateType::Bool,
        }
    }
}

impl Array {
    pub fn new(
        name: EntityName,
        outer_nested: usize,
        inner_nested: usize,
        child: Option<Box<JsonComponent>>,
    ) -> (r: Array)
        ensures
            r == (Array { name, outer_nested, inner_nested, child }),
    {
        Array { name, outer_nested, inner_nested, child }
    }

    pub fn get_nesting_level(&self) -> (r: usize)
        ensures
            r == self.outer_nested,
    {
        self.outer_nested
    }

    /// Lowers this array parser to its streamlet entity.
    pub fn to_til_component(&self, gen_params: &GeneratorParams) -> (r: TilStreamlet)
        ensures
            r@ == (EntV {
                name: self.name@,
                interface: array_interface(
                    self.outer_nested as int,
                    self.inner_nested as int,
                    gen_params@,
                ),
            }),
    {
        let mut generics: Vec<Generic> = Vec::new();
        generics.push(Generic { kind: GenericKind::Epc, value: gen_params.epc });
        generics.push(Generic { kind: GenericKind::NestingLevel, value: self.outer_nested });
        generics.push(Generic { kind: GenericKind::Dimensionality, value: self.inner_nested });
        let mut streams: Vec<TilStream> = Vec::new();
        streams.push(TilStream {
            name: PortName::Input,
            direction: TilStreamDirection::Input,
            stream_type: StreamType::Json,
        });
        streams.push(TilStream {
            name: PortName::Output,
            direction: TilStreamDirection::Output,
            stream_type: StreamType::Json,
        });
        proof {
            assert(generics@ =~= seq![
                Generic { kind: GenericKind::Epc, value: gen_params.epc },
                Generic { kind: GenericKind::NestingLevel, value: self.outer_nested },
                Generic { kind: GenericKind::Dimensionality, value: self.inner_nested },
            ]);
            lemma_generics_view3(
                Generic { kind: GenericKind::Epc, value: gen_params.epc },
                Generic { kind: GenericKind::NestingLevel, value: self.outer_nested },
                Generic { kind: GenericKind::Dimensionality, value: self.inner_nested },
            );
            assert(streams@ =~= array_interface(
                self.outer_nested as int,
                self.inner_nested as int,
                gen_params@,
            ).streams);
        }
        TilStreamlet {
            name: self.name.clone(),
            interface: TilStreamingInterface { generics, streams },
        }
    }

    pub fn get_streaming_types(&self) -> (r: Vec<StreamType>)
        ensures
            r@ == array_stream_types(),
    {
        let mut r: Vec<StreamType> = Vec::new();
        r.push(StreamType::Json);
        proof {
            assert(r@ =~= array_stream_types());
        }
        r
    }

    pub fn get_file_type(&self) -> (r: TemplateType)
        ensures
            r@ == TemplateTypeV::Array,
    {
        TemplateType::Array
    }
}

impl Object {
    pub fn new(records: Vec<Record>) -> (r: Object)
        ensures
            r == (Object { records }),
    {
        Object { records }
    }
}

impl Record {
    pub fn new(name: EntityName, outer_nested: usize, inner_nested: usize, key: Key) -> (r: Record)
        ensures
            r == (Record { name, outer_nested, inner_nested, key }),
    {
        Record { name, outer_nested, inner_nested, key }
    }

    pub fn get_nesting_level(&self) -> (r: usize)
        ensures
            r == self.outer_nested,
    {
        self.outer_nested
    }

    /// Lowers this record parser to its streamlet entity.
    pub fn to_til_component(&self, gen_params: &GeneratorParams) -> (r: TilStreamlet)
        ensures
            r@ == (EntV {
                name: self.name@,
                interface: record_interface(
                    self.outer_nested as int,
                    self.inner_nested as int,
                    gen_params@,
                ),
            }),
    {
        let mut generics: Vec<Generic> = Vec::new();
        generics.push(Generic { kind: GenericKind::Epc, value: gen_params.epc });
        generics.push(Generic { kind: GenericKind::NestingLevel, value: self.outer_nested });
        generics.push(Generic { kind: GenericKind::Dimensionality, value: self.inner_nested });
        let mut streams: Vec<TilStream> = Vec::new();
        streams.push(TilStream {
            name: PortName::Input,
            direction: TilStreamDirection::Input,
            stream_type: StreamType::Json,
        });
        streams.push(TilStream {
            name: PortName::Output,
            direction: TilStreamDirection::Output,
            stream_type: StreamType::Json,
        });
        proof {
            assert(generics@ =~= seq![
                Generic { kind: GenericKind::Epc, value: gen_params.epc },
                Generic { kind: GenericKind::NestingLevel, value: self.outer_nested },
                Generic { kind: GenericKind::Dimensionality, value: self.inner_nested },
            ]);
            lemma_generics_view3(
                Generic { kind: GenericKind::Epc, value: gen_params.epc },
                Generic { kind: GenericKind::NestingLevel, value: self.outer_nested },
                Generic { kind: GenericKind::Dimensionality, value: self.inner_nested },
            );
            assert(streams@ =~= record_interface(
                self.outer_nested as int,
                self.inner_nested as int,
                gen_params@,
            ).streams);
        }
        TilStreamlet {
            name: self.name.clone(),
            interface: TilStreamingInterface { generics, streams },
        }
    }

    pub fn get_streaming_types(&self) -> (r: Vec<StreamType>)
        ensures
            r@ == record_stream_types(),
    {
        let mut r: Vec<StreamType> = Vec::new();
        r.push(StreamType::Json);
        proof {
            assert(r@ =~= record_stream_types());
        }
        r
    }

    pub fn get_file_type(&self) -> (r: TemplateType)
        ensures
            r@ == TemplateTypeV::Record,
    {
        TemplateType::Record
    }

    /// The label this record carries in a rendered schema diagram: its
    /// outer and inner depth.
    pub fn to_graph_node(&self) -> (r: String)
        ensures
            r@ == "Record parser\nO: "@ + crate::text::spec_dec(self.outer_nested as nat)
                + ", I: "@ + crate::text::spec_dec(self.inner_nested as nat),
    {
        let r = String::from_str("Record parser\nO: ").concat(
            crate::text::dec_str(self.outer_nested).as_str(),
        ).concat(", I: ").concat(crate::text::dec_str(self.inner_nested).as_str());
        proof {
            assert(r@ =~= "Record parser\nO: "@ + crate::text::spec_dec(
                self.outer_nested as nat,
            ) + ", I: "@ + crate::text::spec_dec(self.inner_nested as nat));
        }
        r
    }

    /// A record's one child is its key layer.
    pub fn get_children(&self) -> (r: Vec<JsonComponent>)
        ensures
            r@.len() == 1,
            r@[0]@ == CompV::Key(key_view(self.key)),
    {
        let mut r: Vec<JsonComponent> = Vec::new();
        r.push(JsonComponent::Key(self.key.clone()));
        r
    }

    /// The connection from this record's key parser into the record
    /// parser itself.
    pub fn to_til_signal(&self) -> (r: TilSignal)
        ensures
            r@ == (SigV {
                source: self.key.name@,
                source_port: PortName::Output,
                dest: self.name@,
                dest_port: PortName::Input,
            }),
    {
        TilSignal {
            source: self.key.name.clone(),
            source_port: PortName::Output,
            dest: self.name.clone(),
            dest_port: PortName::Input,
        }
    }
}

impl Key {
    pub fn new(
        name: EntityName,
        matcher: Matcher,
        outer_nested: usize,
        child: Option<Box<JsonComponent>>,
    ) -> (r: Key)
        ensures
            r == (Key { name, matcher, outer_nested, child }),
    {
        Key { name, matcher, outer_nested, child }
    }

    pub fn get_nesting_level(&self) -> (r: usize)
        ensures
            r == self.outer_nested,
    {
        self.outer_nested
    }

    /// Lowers this key parser to its streamlet entity.
    pub fn to_til_component(&self, gen_params: &GeneratorParams) -> (r: TilStreamlet)
        ensures
            r@ == (EntV {
                name: self.name@,
                interface: key_interface(self.outer_nested as int, gen_params@),
            }),
    {
        let mut generics: Vec<Generic> = Vec::new();
        generics.push(Generic { kind: GenericKind::Epc, value: gen_params.epc });
        generics.push(Generic { kind: GenericKind::NestingLevel, value: self.outer_nested });
        let mut streams: Vec<TilStream> = Vec::new();
        streams.push(TilStream {
            name: PortName::Input,
            direction: TilStreamDirection::Input,
            stream_type: StreamType::Json,
        });
        streams.push(TilStream {
            name: PortName::MatcherMatch,
            direction: TilStreamDirection::Input,
            stream_type: StreamType::MatcherMatch,
        });
        streams.push(TilStream {
            name: PortName::Output,
            direction: TilStreamDirection::Output,
            stream_type: StreamType::Json,
        });
        proof {
            assert(generics@ =~= seq![
                Generic { kind: GenericKind::Epc, value: gen_params.epc },
                Generic { kind: GenericKind::NestingLevel, value: self.outer_nested },
            ]);
            lemma_generics_view2(
                Generic { kind: GenericKind::Epc, value: gen_params.epc },
                Generic { kind: GenericKind::NestingLevel, value: self.outer_nested },
            );
            assert(streams@ =~= key_interface(self.outer_nested as int, gen_params@).streams);
        }
        TilStreamlet {
            name: self.name.clone(),
            interface: TilStreamingInterface { generics, streams },
        }
    }

    pub fn get_streaming_types(&self) -> (r: Vec<StreamType>)
        ensures
            r@ == key_stream_types(),
    {
        let mut r: Vec<StreamType> = Vec::new();
        r.push(StreamType::Json);
        r.push(StreamType::MatcherMatch);
        proof {
            assert(r@ =~= key_stream_types());
        }
        r
    }

    pub fn get_file_type(&self) -> (r: TemplateType)
        ensures
            r@ == TemplateTypeV::Key,
    {
        TemplateType::Key
    }
}

impl Matcher {
    pub fn new(
        name: EntityName,
        holder_name: EntityName,
        matcher: String,
        outer_nested: usize,
    ) -> (r: Matcher)
        ensures
            r == (Matcher { name, holder_name, matcher, outer_nested }),
    {
        Matcher { name, holder_name, matcher, outer_nested }
    }

    /// The literal key string this matcher recognizes.
    pub fn get_matcher(&self) -> (r: &str)
        ensures
            r@ == self.matcher@,
    {
        self.matcher.as_str()
    }

    pub fn get_nesting_level(&self) -> (r: usize)
        ensures
            r == self.outer_nested,
    {
        self.outer_nested
    }

    pub fn get_name(&self) -> (r: &EntityName)
        ensures
            r == &self.name,
    {
        &self.name
    }

    /// The matcher's streaming interface: its byte throughput, a byte
    /// input and a match verdict output.
    pub fn get_streaming_interface(&self, gen_params: &GeneratorParams) -> (r:
        TilStreamingInterface)
        ensures
            r@ == matcher_interface(gen_params@),
    {
        let mut generics: Vec<Generic> = Vec::new();
        generics.push(Generic { kind: GenericKind::Bpc, value: gen_params.epc });
        let mut streams: Vec<TilStream> = Vec::new();
        streams.push(TilStream {
            name: PortName::Input,
            direction: TilStreamDirection::Input,
            stream_type: StreamType::MatcherStr,
        });
        streams.push(TilStream {
            name: PortName::Output,
            direction: TilStreamDirection::Output,
            stream_type: StreamType::MatcherMatch,
        });
        proof {
            assert(generics@ =~= seq![Generic { kind: GenericKind::Bpc, value: gen_params.epc }]);
            lemma_generics_view1(Generic { kind: GenericKind::Bpc, value: gen_params.epc });
            assert(streams@ =~= matcher_interface(gen_params@).streams);
        }
        TilStreamingInterface { generics, streams }
    }

    /// Lowers this matcher to its streamlet entity.
    pub fn to_til_component(&self, gen_params: &GeneratorParams) -> (r: TilStreamlet)
        ensures
            r@ == (EntV { name: self.name@, interface: matcher_interface(gen_params@) }),
    {
        let interface = self.get_streaming_interface(gen_params);
        TilStreamlet { name: self.name.clone(), interface }
    }

    pub fn get_streaming_types(&self) -> (r: Vec<StreamType>)
        ensures
            r@ == matcher_stream_types(),
    {
        let mut r: Vec<StreamType> = Vec::new();
        r.push(StreamType::MatcherStr);
        r.push(StreamType::MatcherMatch);
        proof {
            assert(r@ =~= matcher_stream_types());
        }
        r
    }

    /// The matcher's one outgoing connection: its verdict into the
    /// holding key parser's dedicated match port.
    pub fn get_outgoing_signals(&self) -> (r: Vec<TilSignal>)
        ensures
            r@.len() == 1,
            r@[0]@ == matcher_signal(matcher_view(*self)),
    {
        let mut r: Vec<TilSignal> = Vec::new();
        r.push(TilSignal {
            source: self.name.clone(),
            source_port: PortName::Output,
            dest: self.holder_name.clone(),
            dest_port: PortName::MatcherMatch,
        });
        r
    }

    pub fn num_outgoing_signals(&self) -> (r: usize)
        ensures
            r == 1,
    {
        1
    }

    /// The matcher's realization is synthesized from its literal string.
    pub fn get_file_type(&self) -> (r: TemplateType)
        ensures
            r@ == TemplateTypeV::Matcher(self.matcher@),
    {
        TemplateType::Matcher(self.matcher.clone())
    }

    /// The label this matcher carries in a rendered schema diagram.
    pub fn to_graph_node(&self) -> (r: String)
        ensures
            r@ == "Regex matcher\n\""@ + self.matcher@ + "\""@,
    {
        String::from_str("Regex matcher\n\"").concat(self.matcher.as_str()).concat("\"")
    }

    /// A matcher is terminal: it never has children.
    pub fn get_children(&self) -> (r: Vec<JsonComponent>)
        ensures
            r@.len() == 0,
    {
        Vec::new()
    }

    pub fn num_children(&self) -> (r: usize)
        ensures
            r == 0,
    {
        0
    }
}

} // verus!
