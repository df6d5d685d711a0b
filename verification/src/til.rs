//! The streaming-network description that analysis produces: streamlet
//! entities (a name, generic parameter bindings and ordered typed ports),
//! the named stream types their ports use, and point-to-point signals
//! between entity ports.

use vstd::prelude::*;

use crate::names::{EntityName, NameV};

verus! {

broadcast use vstd::seq::group_seq_axioms, vstd::seq_lib::group_seq_lib_default,
    vstd::std_specs::vec::group_vec_axioms;

/// A named stream type.  Identical declarations are shared: the type
/// registry emits each of these at most once per run.
#[derive(Clone, Copy, PartialEq, Eq, Structural, Debug)]
pub enum StreamType {
    /// The raw JSON byte stream flowing between structural parsers.
    Json,
    /// Output of an integer value parser.
    Int,
    /// Output of a boolean value parser.
    Bool,
    /// Output of a string value parser.
    Text,
    /// Byte stream feeding a key matcher.
    MatcherStr,
    /// Match-result stream leaving a key matcher.
    MatcherMatch,
}

/// The kind of a generic parameter carried by a streamlet declaration.
#[derive(Clone, Copy, PartialEq, Eq, Structural, Debug)]
pub enum GenericKind {
    /// Elements per cycle of the surrounding run.
    Epc,
    /// Bytes per cycle of a matcher.
    Bpc,
    /// The component's outer nesting level.
    NestingLevel,
    /// The component's inner (sequence/container) depth, which drives the
    /// dimensionality of the streams flowing through it.
    Dimensionality,
    /// Bit width of parsed integers.
    IntWidth,
}

/// One generic parameter binding of a streamlet declaration.
#[derive(Clone, Copy, PartialEq, Eq, Structural, Debug)]
pub struct Generic {
    pub kind: GenericKind,
    pub value: usize,
}

/// Mathematical model of `Generic`.
pub struct GenericV {
    pub kind: GenericKind,
    pub value: int,
}

impl View for Generic {
    type V = GenericV;

    open spec fn view(&self) -> GenericV {
        GenericV { kind: self.kind, value: self.value as int }
    }
}

/// A port name of a generated streamlet.
#[derive(Clone, Copy, PartialEq, Eq, Structural, Debug)]
pub enum PortName {
    Input,
    Output,
    /// The dedicated match-result input of a key parser.
    MatcherMatch,
}

#[derive(Clone, Copy, PartialEq, Eq, Structural, Debug)]
pub enum TilStreamDirection {
    Input,
    Output,
}

/// One typed port of a streamlet declaration.
#[derive(Clone, Copy, PartialEq, Eq, Structural, Debug)]
pub struct TilStream {
    pub name: PortName,
    pub direction: TilStreamDirection,
    pub stream_type: StreamType,
}

/// The streaming interface of one entity: its generic parameter bindings
/// and its ordered typed ports.
pub struct TilStreamingInterface {
    pub generics: Vec<Generic>,
    pub streams: Vec<TilStream>,
}

/// Mathematical model of `TilStreamingInterface`.
#[verifier::ext_equal]
pub struct InterfaceV {
    pub generics: Seq<GenericV>,
    pub streams: Seq<TilStream>,
}

pub open spec fn generics_view(s: Seq<Generic>) -> Seq<GenericV>
    decreases s,
{
    if s.len() == 0 {
        Seq::empty()
    } else {
        generics_view(s.drop_last()).push(s.last()@)
    }
}

impl View for TilStreamingInterface {
    type V = InterfaceV;

    open spec fn view(&self) -> InterfaceV {
        InterfaceV { generics: generics_view(self.generics@), streams: self.streams@ }
    }
}

/// One generated streamlet entity: a unique instance name and its
/// streaming interface.
pub struct TilStreamlet {
    pub name: EntityName,
    pub interface: TilStreamingInterface,
}

/// Mathematical model of `TilStreamlet`.
#[verifier::ext_equal]
pub struct EntV {
    pub name: NameV,
    pub interface: InterfaceV,
}

impl View for TilStreamlet {
    type V = EntV;

    open spec fn view(&self) -> EntV {
        EntV { name: self.name@, interface: self.interface@ }
    }
}

/// One point-to-point connection between a port of a generated entity and
/// a port of its structural parent.
pub struct TilSignal {
    pub source: EntityName,
    pub source_port: PortName,
    pub dest: EntityName,
    pub dest_port: PortName,
}

/// Mathematical model of `TilSignal`.
pub struct SigV {
    pub source: NameV,
    pub source_port: PortName,
    pub dest: NameV,
    pub dest_port: PortName,
}

impl View for TilSignal {
    type V = SigV;

    open spec fn view(&self) -> SigV {
        SigV {
            source: self.source@,
            source_port: self.source_port,
            dest: self.dest@,
            dest_port: self.dest_port,
        }
    }
}

pub open spec fn ents_view(s: Seq<TilStreamlet>) -> Seq<EntV>
    decreases s,
{
    if s.len() == 0 {
        Seq::empty()
    } else {
        ents_view(s.drop_last()).push(s.last()@)
    }
}

pub proof fn lemma_ents_view_push(s: Seq<TilStreamlet>, x: TilStreamlet)
    ensures
        ents_view(s.push(x)) == ents_view(s).push(x@),
{
    assert(s.push(x).drop_last() =~= s);
    assert(ents_view(s.push(x)) == ents_view(s.push(x).drop_last()).push(s.push(x).last()@));
}

pub open spec fn sigs_view(s: Seq<TilSignal>) -> Seq<SigV>
    decreases s,
{
    if s.len() == 0 {
        Seq::empty()
    } else {
        sigs_view(s.drop_last()).push(s.last()@)
    }
}

pub proof fn lemma_sigs_view_push(s: Seq<TilSignal>, x: TilSignal)
    ensures
        sigs_view(s.push(x)) == sigs_view(s).push(x@),
{
    assert(s.push(x).drop_last() =~= s);
    assert(sigs_view(s.push(x)) == sigs_view(s.push(x).drop_last()).push(s.push(x).last()@));
}

} // verus!
