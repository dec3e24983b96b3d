//! A conversion session: translate a program, verify the module, hand out
//! its text.
//!
//! The session owns the module being built. A conversion either completes
//! — the module is stored, passes structural verification, and its
//! serialized text is returned — or fails outright with the first error,
//! leaving no partial output.

use vstd::prelude::*;

use crate::insn::Insn;
use crate::ir::{spec_module_wf, verify_module, Block, Module, SpecBlock, SpecModule};
use crate::text::{ascii_seq, render_module, spec_module_text};
use crate::translate::{spec_translate_program, translate_program, ConvertError};

verus! {

/// The module a fresh session holds: no instruction blocks, and an entry
/// block that nothing has terminated yet.
pub open spec fn spec_empty_module() -> SpecModule {
    SpecModule { entry: SpecBlock { stmts: Seq::empty(), term: None }, blocks: Seq::empty() }
}

/// The serialized module as the characters of a string.
pub open spec fn spec_ir_string(m: SpecModule) -> Seq<char> {
    spec_module_text(m).map_values(|b: u8| b as char)
}

/// What a whole conversion returns: the serialized text of the translated
/// module, the first translation error in source order, or
/// `VerificationFailed` for a module that is structurally unsound.
pub open spec fn spec_convert_result(insns: Seq<Insn>) -> Result<Seq<char>, ConvertError> {
    match spec_translate_program(insns) {
        Err(e) => Err(e),
        Ok(m) => if spec_module_wf(m) {
            Ok(spec_ir_string(m))
        } else {
            Err(ConvertError::VerificationFailed)
        },
    }
}

/// Relies on String::from_utf8: a sequence of ASCII bytes is valid UTF-8
/// and decodes to exactly one character per byte.
#[verifier::external_body]
fn ascii_string(v: Vec<u8>) -> (r: String)
    requires
        ascii_seq(v@),
    ensures
        r@ == v@.map_values(|b: u8| b as char),
{
    String::from_utf8(v).unwrap_or_default()
}

/// One conversion session and the module it accumulates.
pub struct Converter {
    pub module: Module,
}

impl Converter {
    /// A fresh session around an empty module.
    pub fn new() -> (r: Converter)
        ensures
            r.module@ == spec_empty_module(),
    {
        let entry = Block { stmts: Vec::new(), term: None };
        let blocks: Vec<Block> = Vec::new();
        let r = Converter { module: Module { entry, blocks } };
        proof {
            assert(r.module@.entry.stmts =~= Seq::<crate::ir::Assign>::empty());
            assert(r.module@.blocks =~= Seq::<SpecBlock>::empty());
        }
        r
    }

    /// Serialized text of the module the session currently holds.
    pub fn get_ir(&self) -> (r: String)
        ensures
            r@ == spec_ir_string(self.module@),
    {
        ascii_string(render_module(&self.module))
    }

    /// Convert a whole program: translate every instruction, store the
    /// finished module, check it structurally and return its text.
    ///
    /// A translation error aborts the conversion before anything is
    /// stored; a module that fails verification is kept for inspection,
    /// but no text is returned for it.
    pub fn convert(&mut self, insns: &[Insn]) -> (r: Result<String, ConvertError>)
        requires
            insns@.len() + 1 + u32::MAX <= u64::MAX,
        ensures
            match r {
                Ok(text) => spec_convert_result(insns@) == Ok::<Seq<char>, ConvertError>(text@),
                Err(e) => spec_convert_result(insns@) == Err::<Seq<char>, ConvertError>(e),
            },
            match spec_translate_program(insns@) {
                Ok(m) => final(self).module@ == m,
                Err(_) => *final(self) == *old(self),
            },
    {
        match translate_program(insns) {
            Err(e) => Err(e),
            Ok(m) => {
                self.module = m;
                if !verify_module(&self.module) {
                    Err(ConvertError::VerificationFailed)
                } else {
                    Ok(self.get_ir())
                }
            },
        }
    }
}

} // verus!
