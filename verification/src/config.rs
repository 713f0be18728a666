//! Configuration for translating a source module into the IR.
//!
//! This is the one place where cross-module linkage identity — the
//! content-addressed hash of a callee's compiled code — enters the IR
//! construction path.

use crate::felt::Felt;
use crate::ir::Symbol;
use vstd::prelude::*;

verus! {

/// How a function is invoked in generated code.
#[derive(Clone, Copy, PartialEq, Eq, Structural, Debug)]
pub enum FunctionInvocationMethod {
    /// The callee's code is spliced into the caller's execution context.
    Exec,
    /// The callee is invoked as a separate procedure.
    Call,
}

/// A content-addressed hash identifying a piece of compiled code: the root
/// of its authenticated syntax tree, as four field elements.
#[derive(Clone, Copy, Debug)]
pub struct MastRootHash {
    pub digest: [Felt; 4],
}

/// The identity of a function in a component interface: the interface's name
/// and the function's name within it.
#[derive(Clone, Copy, PartialEq, Eq, Structural, Debug)]
pub struct InterfaceFunctionIdent {
    pub interface: Symbol,
    pub function: Symbol,
}

/// The name under which a function is exported.
pub type FunctionExportName = Symbol;

/// Code-generation metadata for one imported function.
#[derive(Clone, Copy, Debug)]
pub struct ImportMetadata {
    /// The hash of the callee's compiled code, used in code generation.
    pub function_mast_root_hash: MastRootHash,
    /// The method of calling the function.
    pub invoke_method: FunctionInvocationMethod,
}

/// Metadata for one exported function.
#[derive(Clone, Copy, Debug)]
pub struct ExportMetadata {
    /// The method of calling the function.
    pub invoke_method: FunctionInvocationMethod,
}

/// Configuration for the translation of one source module.
#[derive(Debug)]
pub struct WasmTranslationConfig {
    /// The module name to use if the source module doesn't carry one.
    pub module_name_fallback: String,
    /// Whether to generate native debug information.
    pub generate_native_debuginfo: bool,
    /// Whether to retain debug sections in compiled modules.
    pub parse_wasm_debuginfo: bool,
    /// Import metadata, keyed by the identity of the imported interface
    /// function. Keys are unique in a well-formed configuration.
    pub import_metadata: Vec<(InterfaceFunctionIdent, ImportMetadata)>,
    /// Export metadata, keyed by export name. Keys are unique in a
    /// well-formed configuration.
    pub export_metadata: Vec<(FunctionExportName, ExportMetadata)>,
}

impl WasmTranslationConfig {
    /// Key uniqueness: each imported interface function and each export name
    /// carries at most one metadata entry.
    pub open spec fn wf(self) -> bool {
        &&& forall|i: int, j: int|
            0 <= i < j < self.import_metadata@.len() ==> self.import_metadata@[i].0
                != self.import_metadata@[j].0
        &&& forall|i: int, j: int|
            0 <= i < j < self.export_metadata@.len() ==> self.export_metadata@[i].0
                != self.export_metadata@[j].0
    }

    /// The import metadata recorded for the given interface function, if
    /// any: the first entry with that key, which in a well-formed
    /// configuration is the only one.
    pub fn import_metadata_for(&self, id: InterfaceFunctionIdent) -> (r: Option<&ImportMetadata>)
        ensures
            match r {
                Some(m) => exists|i: int|
                    0 <= i < self.import_metadata@.len() && self.import_metadata@[i].0 == id
                        && self.import_metadata@[i].1 == *m,
                None => forall|i: int|
                    0 <= i < self.import_metadata@.len() ==> self.import_metadata@[i].0 != id,
            },
    {
        let n = self.import_metadata.len();
        let mut i: usize = 0;
        while i < n
            invariant
                i <= n,
                n == self.import_metadata@.len(),
                forall|j: int| 0 <= j < i ==> self.import_metadata@[j].0 != id,
            decreases n - i,
        {
            if self.import_metadata[i].0 == id {
                return Some(&self.import_metadata[i].1);
            }
            i += 1;
        }
        None
    }

    /// The export metadata recorded for the given export name, if any: the
    /// first entry with that key, which in a well-formed configuration is
    /// the only one.
    pub fn export_metadata_for(&self, name: FunctionExportName) -> (r: Option<&ExportMetadata>)
        ensures
            match r {
                Some(m) => exists|i: int|
                    0 <= i < self.export_metadata@.len() && self.export_metadata@[i].0 == name
                        && self.export_metadata@[i].1 == *m,
                None => forall|i: int|
                    0 <= i < self.export_metadata@.len() ==> self.export_metadata@[i].0 != name,
            },
    {
        let n = self.export_metadata.len();
        let mut i: usize = 0;
        while i < n
            invariant
                i <= n,
                n == self.export_metadata@.len(),
                forall|j: int| 0 <= j < i ==> self.export_metadata@[j].0 != name,
            decreases n - i,
        {
            if self.export_metadata[i].0 == name {
                return Some(&self.export_metadata[i].1);
            }
            i += 1;
        }
        None
    }
}

impl Default for WasmTranslationConfig {
    /// The empty configuration: no import or export metadata, no debug
    /// information, and the fallback module name `"noname"`.
    fn default() -> (r: Self)
        ensures
            r.module_name_fallback@ == "noname"@,
            !r.generate_native_debuginfo,
            !r.parse_wasm_debuginfo,
            r.import_metadata@.len() == 0,
            r.export_metadata@.len() == 0,
            r.wf(),
    {
        Self {
            module_name_fallback: "noname".to_owned(),
            generate_native_debuginfo: false,
            parse_wasm_debuginfo: false,
            import_metadata: Vec::new(),
            export_metadata: Vec::new(),
        }
    }
}

} // verus!
