//! Per-entity template bookkeeping: which physical template realizes each
//! generated entity.  The physical rendering of templates into source
//! files is I/O and lives outside this library; here only the catalog and
//! the per-run list of (template, entity) pairs are kept.

use vstd::prelude::*;

use crate::names::{EntityName, NameV};

verus! {

broadcast use vstd::seq::group_seq_axioms, vstd::seq_lib::group_seq_lib_default,
    vstd::std_specs::vec::group_vec_axioms;

/// Which physical template realizes a generated entity.  Every variant
/// maps to one fixed template, except `Matcher`, whose realization is
/// synthesized externally from its literal key string.
pub enum TemplateType {
    Array,
    Int,
    Bool,
    Record,
    Key,
    Text,
    Matcher(String),
}

/// Mathematical model of `TemplateType`.
pub enum TemplateTypeV {
    Array,
    Int,
    Bool,
    Record,
    Key,
    Text,
    Matcher(Seq<char>),
}

impl View for TemplateType {
    type V = TemplateTypeV;

    open spec fn view(&self) -> TemplateTypeV {
        match self {
            TemplateType::Array => TemplateTypeV::Array,
            TemplateType::Int => TemplateTypeV::Int,
            TemplateType::Bool => TemplateTypeV::Bool,
            TemplateType::Record => TemplateTypeV::Record,
            TemplateType::Key => TemplateTypeV::Key,
            TemplateType::Text => TemplateTypeV::Text,
            TemplateType::Matcher(s) => TemplateTypeV::Matcher(s@),
        }
    }
}

/// The template source file that realizes each fixed-template variant.
pub open spec fn template_file_of(t: TemplateTypeV) -> Seq<char> {
    match t {
        TemplateTypeV::Array => "array_parser.vhd"@,
        TemplateTypeV::Int => "int_parser.vhd"@,
        TemplateTypeV::Bool => "bool_parser.vhd"@,
        TemplateTypeV::Record => "record_parser.vhd"@,
        TemplateTypeV::Key => "key_parser.vhd"@,
        TemplateTypeV::Text => "string_parser.vhd"@,
        TemplateTypeV::Matcher(_) => Seq::empty(),
    }
}

impl TemplateType {
    /// The name of the fixed template file realizing this variant, or
    /// `None` for a matcher, whose realization is synthesized from its
    /// literal string by an external tool.
    pub fn get_template(&self) -> (r: Option<String>)
        ensures
            match r {
                Some(f) => !(self@ is Matcher) && f@ == template_file_of(self@),
                None => self@ is Matcher,
            },
    {
        match self {
            TemplateType::Array => Some(String::from_str("array_parser.vhd")),
            TemplateType::Int => Some(String::from_str("int_parser.vhd")),
            TemplateType::Bool => Some(String::from_str("bool_parser.vhd")),
            TemplateType::Record => Some(String::from_str("record_parser.vhd")),
            TemplateType::Key => Some(String::from_str("key_parser.vhd")),
            TemplateType::Text => Some(String::from_str("string_parser.vhd")),
            TemplateType::Matcher(_) => None,
        }
    }
}

/// One entity scheduled for physical rendering: the template that
/// realizes it and the entity's generated name.
pub struct TemplateInstance {
    pub template_type: TemplateType,
    pub component_name: EntityName,
}

/// Mathematical model of `TemplateInstance`.
pub struct FileEntryV {
    pub template: TemplateTypeV,
    pub name: NameV,
}

impl View for TemplateInstance {
    type V = FileEntryV;

    open spec fn view(&self) -> FileEntryV {
        FileEntryV { template: self.template_type@, name: self.component_name@ }
    }
}

pub open spec fn files_view(s: Seq<TemplateInstance>) -> Seq<FileEntryV>
    decreases s,
{
    if s.len() == 0 {
        Seq::empty()
    } else {
        files_view(s.drop_last()).push(s.last()@)
    }
}

pub proof fn lemma_files_view_push(s: Seq<TemplateInstance>, x: TemplateInstance)
    ensures
        files_view(s.push(x)) == files_view(s).push(x@),
{
    assert(s.push(x).drop_last() =~= s);
    assert(files_view(s.push(x)) == files_view(s.push(x).drop_last()).push(s.push(x).last()@));
}

/// The ordered list of entities awaiting physical rendering.
pub struct FileManager {
    files: Vec<TemplateInstance>,
}

impl View for FileManager {
    type V = Seq<FileEntryV>;

    closed spec fn view(&self) -> Seq<FileEntryV> {
        files_view(self.files@)
    }
}

impl FileManager {
    /// An empty schedule: nothing to render yet.
    pub fn new() -> (r: FileManager)
        ensures
            r@ == Seq::<FileEntryV>::empty(),
    {
        FileManager { files: Vec::new() }
    }

    /// Appends one entity to the rendering schedule.
    pub fn add_entity(&mut self, template_type: TemplateType, component_name: EntityName)
        ensures
            final(self)@ == old(self)@.push(
                FileEntryV { template: template_type@, name: component_name@ },
            ),
    {
        let inst = TemplateInstance { template_type, component_name };
        let ghost instg = inst;
        let ghost before = self.files@;
        self.files.push(inst);
        proof {
            lemma_files_view_push(before, instg);
        }
    }

    /// Read access for the rendering stage: the scheduled entities in
    /// insertion order.
    pub fn entries(&self) -> (r: &Vec<TemplateInstance>)
        ensures
            files_view(r@) == self@,
    {
        &self.files
    }
}

} // verus!
