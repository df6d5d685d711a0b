//! The run driver: parses one example JSON document through the outside
//! parser, guards the recursion depth, runs the analyzer, and renders the
//! inferred component tree as a text outline for inspection.

use vstd::prelude::*;
use vstd::string::StringExecFns;

use crate::GeneratorParams;
use crate::analyzer::Analyzer;
use crate::analyzer::StV;
use crate::analyzer::empty_st;
use crate::analyzer::st_element;
use crate::components::CompV;
use crate::components::JsonComponent;
use crate::components::JsonType;
use crate::components::KeyV;
use crate::components::RecV;
use crate::components::record_view;
use crate::components::records_view;
use crate::json_value::JsonVal;
use crate::json_value::JsonValV;
use crate::json_value::aheight;
use crate::json_value::aheight_entries;
use crate::json_value::json_entries_view;
use crate::json_value::lemma_aheight_entries_le;
use crate::json_value::lemma_json_entries_view_index;
use crate::json_value::lemma_json_entries_view_len;
use crate::json_value::lemma_json_seq_view_index;
use crate::json_value::lemma_json_seq_view_len;

verus! {

broadcast use vstd::seq::group_seq_axioms, vstd::seq_lib::group_seq_lib_default,
    vstd::std_specs::vec::group_vec_axioms;

/// The deepest document the driver accepts: a depth budget that keeps the
/// recursive descent's call stack and depth counters harmless.
pub const DEPTH_BUDGET: usize = 10000;

#[verifier::external_type_specification]
#[verifier::external_body]
pub struct ExJsonError(json::Error);

#[verifier::external_type_specification]
#[verifier::external_body]
pub struct ExJsonValue(json::JsonValue);

/// What the outside JSON parser yields for a given text, as this
/// library's value model: `None` where the text is rejected.  The result
/// depends on the text alone.
pub uninterp spec fn parsed_json(s: Seq<char>) -> Option<JsonValV>;

/// Relies on `json::parse`: deterministic parsing of one JSON text, and
/// on the public shape of `json::JsonValue`, converted variant for
/// variant into this library's value model.
#[verifier::external_body]
fn parse_json(s: &str) -> (r: Result<JsonVal, json::Error>)
    ensures
        match r {
            Ok(v) => parsed_json(s@) == Option::Some(v@),
            Err(_) => parsed_json(s@) is None,
        },
{
    match json::parse(s) {
        Ok(v) => Ok(convert(&v)),
        Err(e) => Err(e),
    }
}

/// Relies on the public enum `json::JsonValue` and `json::object::Object::iter`:
/// each parser variant is mapped to its counterpart in this library's
/// value model, keys and element order kept.
#[verifier::external_body]
fn convert(v: &json::JsonValue) -> JsonVal {
    match v {
        json::JsonValue::Null => JsonVal::Null,
        json::JsonValue::Boolean(_) => JsonVal::Boolean,
        json::JsonValue::Number(_) => JsonVal::Number,
        json::JsonValue::Short(_) => JsonVal::Text,
        json::JsonValue::String(_) => JsonVal::Text,
        json::JsonValue::Array(a) => JsonVal::Array(a.iter().map(convert).collect()),
        json::JsonValue::Object(o) => JsonVal::Object(
            o.iter().map(|kv| (kv.0.to_string(), convert(kv.1))).collect(),
        ),
    }
}

/// Whether the analyzer's descent depth of this value stays within the
/// budget.
fn depth_within(v: &JsonVal, budget: usize) -> (b: bool)
    ensures
        b == (aheight(v@) <= budget),
    decreases aheight(v@), 0int,
{
    match v {
        JsonVal::Null => true,
        JsonVal::Boolean => true,
        JsonVal::Number => true,
        JsonVal::Text => true,
        JsonVal::Array(elems) => {
            proof {
                lemma_json_seq_view_len(elems@);
            }
            if budget == 0 {
                false
            } else if elems.len() == 0 {
                true
            } else {
                proof {
                    lemma_json_seq_view_index(elems@, 0);
                }
                depth_within(&elems[0], budget - 1)
            }
        },
        JsonVal::Object(entries) => {
            proof {
                lemma_json_entries_view_len(entries@);
            }
            if budget < 2 {
                proof {
                    assert(aheight(v@) >= 2);
                }
                false
            } else {
                entries_depth_within(entries, budget - 2)
            }
        },
    }
}

/// Whether every entry's value stays within the budget.
fn entries_depth_within(entries: &Vec<(String, JsonVal)>, budget: usize) -> (b: bool)
    ensures
        b == (aheight_entries(json_entries_view(entries@)) <= budget),
    decreases aheight_entries(json_entries_view(entries@)) + 1, 0int,
{
    let ghost ev = json_entries_view(entries@);
    proof {
        lemma_json_entries_view_len(entries@);
        lemma_aheight_entries_le(ev, budget as nat);
    }
    let mut i: usize = 0;
    while i < entries.len()
        invariant
            i <= entries.len(),
            ev == json_entries_view(entries@),
            ev.len() == entries@.len(),
            forall|j: int| 0 <= j < i ==> aheight((#[trigger] ev[j]).1) <= budget,
            aheight_entries(ev) <= budget <==> (forall|j: int|
                0 <= j < ev.len() ==> aheight((#[trigger] ev[j]).1) <= budget),
        decreases entries@.len() - i,
    {
        proof {
            lemma_json_entries_view_index(entries@, i as int);
            crate::json_value::lemma_aheight_entry(ev, i as int);
        }
        if !depth_within(&entries[i].1, budget) {
            return false;
        }
        i = i + 1;
    }
    true
}

/// A failed run: a rejected document, a document deeper than the depth
/// budget, or a request for the root before any analysis succeeded.
#[derive(Debug)]
pub enum GeneratorError {
    JsonError(json::Error),
    NoRoot,
    TooDeep,
}

/// One generation run: parameters fixed at construction, one analyzer.
pub struct Generator {
    analyzer: Analyzer,
    gen_params: GeneratorParams,
}

impl Generator {
    /// The analyzer's accumulated run state.
    pub closed spec fn st(&self) -> StV {
        self.analyzer.st()
    }

    /// The inferred root component, if a run has produced one.
    pub closed spec fn top(&self) -> Option<CompV> {
        self.analyzer.top()
    }

    /// The parameters this generator analyzes under.
    pub closed spec fn params(&self) -> crate::ParamsV {
        self.gen_params@
    }

    pub fn new(project_name: &str, epc: usize, bit_width: usize, int_width: usize) -> (r:
        Generator)
        ensures
            r.st() == empty_st(),
            r.top() is None,
            r.params() == (crate::ParamsV {
                project_name: project_name@,
                comp_namespace: Seq::<char>::empty(),
                epc: epc as int,
                bit_width: bit_width as int,
                int_width: int_width as int,
            }),
    {
        let r = Generator {
            analyzer: Analyzer::new(),
            gen_params: GeneratorParams::new(epc, bit_width, int_width, "", project_name),
        };
        proof {
            reveal_strlit("");
            assert(""@ =~= Seq::<char>::empty());
        }
        r
    }

    /// Parses and analyzes one JSON document.  Succeeds exactly when the
    /// outside parser accepts the text and the document's nesting stays
    /// within the depth budget; the analyzer state is then the analysis
    /// of the parsed value under this generator's parameters.
    pub fn analyze(&mut self, json: &str) -> (r: Result<(), GeneratorError>)
        ensures
            ({
                let pj = parsed_json(json@);
                match pj {
                    Option::Some(v) => {
                        &&& (r is Ok <==> aheight(v) <= DEPTH_BUDGET)
                        &&& (aheight(v) > DEPTH_BUDGET ==> (r matches Err(e) && e is TooDeep
                            && *final(self) == *old(self)))
                        &&& (aheight(v) <= DEPTH_BUDGET ==> ({
                            let (c, ni, st2) = st_element(
                                v,
                                0,
                                0,
                                old(self).st(),
                                old(self).params(),
                            );
                            &&& final(self).st() == st2
                            &&& final(self).top() == c
                            &&& final(self).params() == old(self).params()
                        }))
                    },
                    Option::None => r matches Err(e) && e is JsonError && *final(self) == *old(
                        self,
                    ),
                }
            }),
    {
        let parsed = match parse_json(json) {
            Ok(v) => v,
            Err(e) => {
                return Err(GeneratorError::JsonError(e));
            },
        };
        if !depth_within(&parsed, DEPTH_BUDGET) {
            return Err(GeneratorError::TooDeep);
        }
        let params = self.gen_params.duplicate();
        self.analyzer.analyze(&parsed, params);
        Ok(())
    }

    /// Read access to the analyzer and its outputs.
    pub fn get_analyzer(&self) -> (r: &Analyzer)
        ensures
            r.st() == self.st(),
            r.top() == self.top(),
    {
        &self.analyzer
    }

    /// Renders the inferred component tree as an indented-free label
    /// outline, one component per line, for inspection; the no-schema
    /// error when no analysis has produced an object root yet.
    pub fn visualize(&self) -> (r: Result<String, GeneratorError>)
        ensures
            match r {
                Ok(s) => self.top() matches Some(c) && c is Object && s@ == dump_comp(c),
                Err(e) => e is NoRoot && !crate::analyzer::object_top(self.top()),
            },
    {
        match self.analyzer.get_root() {
            Ok(root) => Ok(dump_component(root)),
            Err(_) => Err(GeneratorError::NoRoot),
        }
    }
}

/// The label one component carries in the rendered outline.
pub open spec fn label_of(c: CompV) -> Seq<char> {
    match c {
        CompV::Value(v) => match v.data_type {
            JsonType::Text => "String parser"@,
            JsonType::Integer => "Int parser"@,
            JsonType::Boolean => "Bool parser"@,
        },
        CompV::Array(_) => "Array parser"@,
        CompV::Object(_) => "Object"@,
        CompV::Record(_) => "Record parser"@,
        CompV::Key(_) => "Key parser"@,
        CompV::Matcher(m) => "Regex matcher \""@ + m.literal + "\""@,
    }
}

/// The outline of a component tree: the component's label, then its
/// children's outlines, in structural order.
pub open spec fn dump_comp(c: CompV) -> Seq<char>
    decreases c,
{
    match c {
        CompV::Value(_) => label_of(c) + "\n"@,
        CompV::Array(a) => label_of(c) + "\n"@ + dump_child(a.child),
        CompV::Object(o) => label_of(c) + "\n"@ + dump_records(o.records),
        CompV::Record(r) => dump_rec(r),
        CompV::Key(k) => dump_key(k),
        CompV::Matcher(_) => label_of(c) + "\n"@,
    }
}

pub open spec fn dump_child(child: Option<Box<CompV>>) -> Seq<char>
    decreases child,
{
    match child {
        Option::Some(b) => dump_comp(*b),
        Option::None => Seq::empty(),
    }
}

pub open spec fn dump_rec(r: RecV) -> Seq<char>
    decreases r,
{
    "Record parser"@ + "\n"@ + dump_key(*r.key)
}

pub open spec fn dump_key(k: KeyV) -> Seq<char>
    decreases k,
{
    "Key parser"@ + "\n"@ + label_of(CompV::Matcher(k.matcher)) + "\n"@ + dump_child(k.child)
}

pub open spec fn dump_records(rs: Seq<RecV>) -> Seq<char>
    decreases rs,
{
    if rs.len() == 0 {
        Seq::empty()
    } else {
        dump_records(rs.drop_last()) + dump_rec(rs.last())
    }
}

/// Renders one component tree as its label outline.
#[verifier::loop_isolation(false)]
pub fn dump_component(c: &JsonComponent) -> (r: String)
    ensures
        r@ == dump_comp(c@),
    decreases *c,
{
    match c {
        JsonComponent::Value(v) => {
            let label = match v.data_type {
                JsonType::Text => "String parser",
                JsonType::Integer => "Int parser",
                JsonType::Boolean => "Bool parser",
            };
            label.to_owned().concat("\n")
        },
        JsonComponent::Array(a) => {
            let mut s = String::from_str("Array parser").concat("\n");
            match &a.child {
                Some(b) => {
                    let rest = dump_component(b);
                    s.append(rest.as_str());
                },
                None => {},
            }
            s
        },
        JsonComponent::Object(o) => {
            let mut s = String::from_str("Object").concat("\n");
            let mut i: usize = 0;
            while i < o.records.len()
                invariant
                    i <= o.records.len(),
                    s@ == "Object"@ + "\n"@ + dump_records(records_view(o.records@).take(i as int)),
                decreases o.records@.len() - i,
            {
                proof {
                    assert(decreases_to!(*c => o.records));
                    assert(decreases_to!(o.records => o.records[i as int]));
                }
                let rest = dump_record(&o.records[i]);
                s.append(rest.as_str());
                proof {
                    let rv = records_view(o.records@);
                    crate::components::lemma_records_view_len(o.records@);
                    crate::components::lemma_records_view_index(o.records@, i as int);
                    assert(rv.take(i + 1).drop_last() =~= rv.take(i as int));
                    assert(rv.take(i + 1).last() == rv[i as int]);
                }
                i = i + 1;
            }
            proof {
                let rv = records_view(o.records@);
                crate::components::lemma_records_view_len(o.records@);
                assert(rv.take(rv.len() as int) =~= rv);
            }
            s
        },
        JsonComponent::Record(r) => dump_record(r),
        JsonComponent::Key(k) => dump_key_component(k),
        JsonComponent::Matcher(m) => {
            String::from_str("Regex matcher \"").concat(m.get_matcher()).concat("\"").concat("\n")
        },
    }
}

/// Renders one record subtree.
pub fn dump_record(r: &crate::components::Record) -> (s: String)
    ensures
        s@ == dump_rec(record_view(*r)),
    decreases *r,
{
    let mut s = String::from_str("Record parser").concat("\n");
    let rest = dump_key_component(&r.key);
    s.append(rest.as_str());
    s
}

/// Renders one key subtree: the key's label, its matcher's, then the
/// value subtree.
pub fn dump_key_component(k: &crate::components::Key) -> (s: String)
    ensures
        s@ == dump_key(crate::components::key_view(*k)),
    decreases *k,
{
    let mut s = String::from_str("Key parser").concat("\n");
    let m = String::from_str("Regex matcher \"").concat(k.matcher.get_matcher()).concat("\"")
        .concat("\n");
    s.append(m.as_str());
    match &k.child {
        Some(b) => {
            let rest = dump_component(b);
            s.append(rest.as_str());
        },
        None => {},
    }
    s
}

} // verus!
