//! Infers a hierarchical hardware-component description from one example
//! JSON document and lowers it to a streaming-network description: an
//! ordered list of streamlet entities, a deduplicated list of stream
//! types, and a list of port-to-port signals.

use vstd::prelude::*;

pub mod components;
pub mod file_manager;
pub mod generator;
pub mod json_value;
pub mod laws;
pub mod analyzer;
pub mod names;
pub mod text;
pub mod til;
pub mod type_manager;

verus! {

/// Caller-supplied generation parameters, fixed for one analysis run and
/// threaded read-only through every lowering step.
pub struct GeneratorParams {
    pub project_name: String,
    pub comp_namespace: String,
    /// Elements per cycle: the throughput of every generated stream.
    pub epc: usize,
    /// Bit width of one stream element.
    pub bit_width: usize,
    /// Bit width of parsed integer values.
    pub int_width: usize,
}

/// Mathematical model of `GeneratorParams`.
pub struct ParamsV {
    pub project_name: Seq<char>,
    pub comp_namespace: Seq<char>,
    pub epc: int,
    pub bit_width: int,
    pub int_width: int,
}

impl View for GeneratorParams {
    type V = ParamsV;

    open spec fn view(&self) -> ParamsV {
        ParamsV {
            project_name: self.project_name@,
            comp_namespace: self.comp_namespace@,
            epc: self.epc as int,
            bit_width: self.bit_width as int,
            int_width: self.int_width as int,
        }
    }
}

/// The parameters a fresh analyzer starts with, before a run supplies
/// its own: empty names and zero widths.
pub open spec fn default_params() -> ParamsV {
    ParamsV {
        project_name: Seq::empty(),
        comp_namespace: Seq::empty(),
        epc: 0,
        bit_width: 0,
        int_width: 0,
    }
}

impl Default for GeneratorParams {
    fn default() -> (r: GeneratorParams)
        ensures
            r@ == default_params(),
    {
        let r = GeneratorParams::new(0, 0, 0, "", "");
        proof {
            reveal_strlit("");
            assert(""@ =~= Seq::<char>::empty());
        }
        r
    }
}

impl GeneratorParams {
    pub fn new(
        epc: usize,
        bit_width: usize,
        int_width: usize,
        comp_namespace: &str,
        project_name: &str,
    ) -> (r: GeneratorParams)
        ensures
            r@ == (ParamsV {
                project_name: project_name@,
                comp_namespace: comp_namespace@,
                epc: epc as int,
                bit_width: bit_width as int,
                int_width: int_width as int,
            }),
    {
        GeneratorParams {
            project_name: project_name.to_owned(),
            comp_namespace: comp_namespace.to_owned(),
            epc,
            bit_width,
            int_width,
        }
    }

    /// A value-identical copy, so one parameter set can serve several
    /// lowering calls.
    pub fn duplicate(&self) -> (r: GeneratorParams)
        ensures
            r@ == self@,
    {
        GeneratorParams {
            project_name: self.project_name.clone(),
            comp_namespace: self.comp_namespace.clone(),
            epc: self.epc,
            bit_width: self.bit_width,
            int_width: self.int_width,
        }
    }
}

} // verus!
