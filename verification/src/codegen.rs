//! The final pipeline phase: lowering the possibly-linked output of earlier
//! stages to target assembly.
//!
//! The input to code generation is either a single linked program or an
//! ordered collection of unlinked modules, depending on the upstream linking
//! decision. That duality is structural and is preserved through this stage:
//! a program lowers to one compiled program, a module collection to one
//! compiled module per input module, in input order. Any conversion failure
//! aborts the stage at once with that failure — there is no partial output.

use crate::ir::{FunctionIdent, Ident};
use crate::stage::{AnalysisManager, CompileError, Session, Stage};
use vstd::prelude::*;

verus! {

/// A unit of IR awaiting lowering, identified by its name. Code generation
/// never inspects a module beyond handing it to the converter.
#[derive(Debug)]
pub struct Module {
    /// The module's name.
    pub name: Ident,
}

/// A linked program: all modules resolved into one unit, with the entry
/// point fixed.
#[derive(Debug)]
pub struct Program {
    /// The modules linked into the program.
    pub modules: Vec<Module>,
    /// The function where execution starts.
    pub entry: FunctionIdent,
}

/// One module lowered to target assembly.
#[derive(Debug)]
pub struct CompiledModule {
    /// The name of the module this was lowered from.
    pub name: Ident,
}

/// A linked program lowered to target assembly.
#[derive(Debug)]
pub struct CompiledProgram {
    /// The entry point of the lowered program.
    pub entry: FunctionIdent,
}

/// The input to code generation: the artifact of the upstream linking
/// decision. Downstream consumers branch on the two shapes, so no stage may
/// collapse one into the other.
#[derive(Debug)]
pub enum MaybeLinked {
    /// A single program with all modules resolved.
    Linked(Program),
    /// An ordered collection of modules left unlinked.
    Unlinked(Vec<Module>),
}

/// The output of code generation, mirroring the input's duality.
#[derive(Debug)]
pub enum Compiled {
    /// The lowering of a linked program.
    Program(CompiledProgram),
    /// The lowerings of unlinked modules, in input order.
    Modules(Vec<CompiledModule>),
}

/// The target converter: the injected service that lowers IR to target
/// assembly, with one entry point for a linked program and one for a single
/// module.
///
/// Compilation is deterministic, which the spec functions capture: each
/// conversion's outcome is a function of the artifact and the converter's
/// current state alone. A converter may carry state from one module to the
/// next ([`Converter::after_module`]); it is not reset between modules.
pub trait Converter: Sized {
    /// The outcome of converting the given program in the current state.
    spec fn program_result(&self, program: Program) -> Result<CompiledProgram, CompileError>;

    /// The outcome of converting the given module in the current state.
    spec fn module_result(&self, module: Module) -> Result<CompiledModule, CompileError>;

    /// The converter's state after converting the given module.
    spec fn after_module(&self, module: Module) -> Self;

    /// Lowers a linked program.
    fn convert_program(&mut self, program: &Program) -> (r: Result<CompiledProgram, CompileError>)
        ensures
            r == old(self).program_result(*program),
    ;

    /// Lowers a single module.
    fn convert_module(&mut self, module: &Module) -> (r: Result<CompiledModule, CompileError>)
        ensures
            r == old(self).module_result(*module),
            *final(self) == old(self).after_module(*module),
    ;
}

/// The outcome of converting a sequence of modules in order, starting from
/// converter state `c`: the first failure aborts the whole conversion with
/// that failure; otherwise every lowered module is accumulated, in order.
pub open spec fn convert_modules_spec<C: Converter>(c: C, modules: Seq<Module>) -> Result<
    Seq<CompiledModule>,
    CompileError,
>
    decreases modules.len(),
{
    if modules.len() == 0 {
        Ok(Seq::empty())
    } else {
        match c.module_result(modules[0]) {
            Err(e) => Err(e),
            Ok(first) => match convert_modules_spec(c.after_module(modules[0]), modules.skip(1)) {
                Err(e) => Err(e),
                Ok(rest) => Ok(seq![first] + rest),
            },
        }
    }
}

/// The converter state reached after converting each module of `modules` in
/// order, starting from `c`.
pub open spec fn converter_after<C: Converter>(c: C, modules: Seq<Module>) -> C
    decreases modules.len(),
{
    if modules.len() == 0 {
        c
    } else {
        converter_after(c.after_module(modules[0]), modules.skip(1))
    }
}

/// Peeling one module off the front: the state after the first `i + 1`
/// modules is the state after the tail's first `i` modules, starting from
/// the state after the head.
proof fn lemma_converter_after_step<C: Converter>(c: C, modules: Seq<Module>, i: int)
    requires
        0 < modules.len(),
        0 <= i < modules.len(),
    ensures
        converter_after(c, modules.take(i + 1)) == converter_after(
            c.after_module(modules[0]),
            modules.skip(1).take(i),
        ),
{
    assert(modules.take(i + 1)[0] == modules[0]);
    assert(modules.take(i + 1).skip(1) =~= modules.skip(1).take(i));
}

/// When every module converts, the conversion of the whole sequence yields
/// exactly one compiled module per input module, in input order: the `i`-th
/// output is the conversion of the `i`-th input under the converter state
/// reached after the first `i` modules.
pub proof fn lemma_convert_modules_ok<C: Converter>(c: C, modules: Seq<Module>)
    requires
        convert_modules_spec(c, modules) is Ok,
    ensures
        convert_modules_spec(c, modules)->Ok_0.len() == modules.len(),
        forall|i: int|
            0 <= i < modules.len() ==> #[trigger] converter_after(c, modules.take(i)).module_result(
                modules[i],
            ) is Ok,
        forall|i: int|
            0 <= i < modules.len() ==> #[trigger] convert_modules_spec(c, modules)->Ok_0[i]
                == converter_after(c, modules.take(i)).module_result(modules[i])->Ok_0,
    decreases modules.len(),
{
    if modules.len() > 0 {
        let c1 = c.after_module(modules[0]);
        let tail = modules.skip(1);
        lemma_convert_modules_ok(c1, tail);
        assert(modules.take(0) =~= Seq::<Module>::empty());
        assert forall|i: int| 0 <= i < modules.len() implies {
            &&& #[trigger] converter_after(c, modules.take(i)).module_result(modules[i]) is Ok
            &&& convert_modules_spec(c, modules)->Ok_0[i] == converter_after(
                c,
                modules.take(i),
            ).module_result(modules[i])->Ok_0
        } by {
            if i == 0 {
                assert(converter_after(c, modules.take(0)) == c);
                assert(convert_modules_spec(c, modules)->Ok_0[0] == c.module_result(
                    modules[0],
                )->Ok_0);
            } else {
                lemma_converter_after_step(c, modules, i - 1);
                assert(tail[i - 1] == modules[i]);
                assert(convert_modules_spec(c, modules)->Ok_0[i] == convert_modules_spec(
                    c1,
                    tail,
                )->Ok_0[i - 1]);
            }
        }
    }
}

/// Fail-fast: when the modules before position `k` convert and module `k`
/// fails, the conversion of the whole sequence is exactly module `k`'s
/// failure — no compiled output for any module, earlier or later, is
/// observable.
pub proof fn lemma_convert_modules_fail_fast<C: Converter>(c: C, modules: Seq<Module>, k: int)
    requires
        0 <= k < modules.len(),
        forall|i: int|
            0 <= i < k ==> #[trigger] converter_after(c, modules.take(i)).module_result(
                modules[i],
            ) is Ok,
        converter_after(c, modules.take(k)).module_result(modules[k]) is Err,
    ensures
        convert_modules_spec(c, modules) == Result::<Seq<CompiledModule>, CompileError>::Err(
            converter_after(c, modules.take(k)).module_result(modules[k])->Err_0,
        ),
    decreases k,
{
    assert(modules.take(0) =~= Seq::<Module>::empty());
    if k == 0 {
    } else {
        let c1 = c.after_module(modules[0]);
        let tail = modules.skip(1);
        assert(converter_after(c, modules.take(0)).module_result(modules[0]) is Ok);
        assert forall|i: int| 0 <= i < k - 1 implies #[trigger] converter_after(
            c1,
            tail.take(i),
        ).module_result(tail[i]) is Ok by {
            lemma_converter_after_step(c, modules, i);
            assert(tail[i] == modules[i + 1]);
            assert(converter_after(c, modules.take(i + 1)).module_result(modules[i + 1]) is Ok);
        }
        lemma_converter_after_step(c, modules, k - 1);
        assert(tail[k - 1] == modules[k]);
        lemma_convert_modules_fail_fast(c1, tail, k - 1);
    }
}

/// The code-generation stage: lowers the possibly-linked output of previous
/// stages with the injected target converter, preserving the
/// linked/unlinked duality of its input. It runs only when the session
/// requests code generation.
pub struct CodegenStage<C: Converter> {
    /// The injected HIR-to-target-assembly converter.
    pub converter: C,
}

impl<C: Converter> Stage for CodegenStage<C> {
    type Input = MaybeLinked;

    type Output = Compiled;

    /// Code generation runs only when the session requests it.
    open spec fn spec_enabled(&self, session: &Session) -> bool {
        session.codegen_requested
    }

    fn enabled(&self, session: &Session) -> (r: bool) {
        session.should_codegen()
    }

    /// Lowers the input artifact, mirroring its duality: a linked program
    /// becomes one compiled program, an unlinked collection becomes one
    /// compiled module per input module in input order — or the first
    /// conversion failure, with no partial output. The analysis cache
    /// passes through untouched.
    #[verifier::loop_isolation(false)]
    fn run(&mut self, input: MaybeLinked, analyses: &mut AnalysisManager, session: &Session) -> (r:
        Result<Compiled, CompileError>)
        ensures
            final(analyses)@ == old(analyses)@,
            input matches MaybeLinked::Linked(program) ==> match old(
                self,
            ).converter.program_result(program) {
                Ok(p) => r == Ok::<Compiled, CompileError>(Compiled::Program(p)),
                Err(e) => r == Err::<Compiled, CompileError>(e),
            },
            input matches MaybeLinked::Unlinked(modules) ==> match convert_modules_spec(
                old(self).converter,
                modules@,
            ) {
                Ok(lowered) => (r matches Ok(c) && c matches Compiled::Modules(v) && v@
                    == lowered),
                Err(e) => r == Err::<Compiled, CompileError>(e),
            },
    {
        match input {
            MaybeLinked::Linked(program) => {
                match self.converter.convert_program(&program) {
                    Ok(p) => Ok(Compiled::Program(p)),
                    Err(e) => Err(e),
                }
            },
            MaybeLinked::Unlinked(modules) => {
                let ghost c0 = self.converter;
                let n = modules.len();
                let mut lowered: Vec<CompiledModule> = Vec::new();
                let mut i: usize = 0;
                proof {
                    assert(modules@.skip(0) =~= modules@);
                }
                while i < n
                    invariant
                        i <= n,
                        n == modules@.len(),
                        lowered@.len() == i,
                        match convert_modules_spec(self.converter, modules@.skip(i as int)) {
                            Ok(rest) => convert_modules_spec(c0, modules@) == Ok::<
                                Seq<CompiledModule>,
                                CompileError,
                            >(lowered@ + rest),
                            Err(e) => convert_modules_spec(c0, modules@) == Err::<
                                Seq<CompiledModule>,
                                CompileError,
                            >(e),
                        },
                    decreases n - i,
                {
                    proof {
                        assert(modules@.skip(i as int)[0] == modules@[i as int]);
                    }
                    let ghost before = lowered@;
                    let ghost pre = self.converter;
                    match self.converter.convert_module(&modules[i]) {
                        Err(e) => {
                            proof {
                                assert(convert_modules_spec(pre, modules@.skip(i as int))
                                    == Err::<Seq<CompiledModule>, CompileError>(e));
                            }
                            return Err(e);
                        },
                        Ok(one) => {
                            lowered.push(one);
                            proof {
                                assert(modules@.skip(i as int).skip(1) =~= modules@.skip(
                                    i as int + 1,
                                ));
                                assert(lowered@ =~= before + seq![one]);
                                match convert_modules_spec(
                                    self.converter,
                                    modules@.skip(i as int + 1),
                                ) {
                                    Ok(rest) => {
                                        assert((before + (seq![one] + rest)) =~= (lowered@
                                            + rest));
                                    },
                                    Err(_) => {},
                                }
                            }
                        },
                    }
                    i += 1;
                }
                proof {
                    assert(modules@.skip(n as int) =~= Seq::<Module>::empty());
                    assert(lowered@ + Seq::<CompiledModule>::empty() =~= lowered@);
                }
                Ok(Compiled::Modules(lowered))
            },
        }
    }
}

/// A converter with predetermined outcomes: a unit whose name appears in
/// the script is rejected with a conversion failure, and every other unit
/// lowers to the compiled artifact of the same name. It is stateless from
/// module to module. This converter exercises the stage protocol — duality
/// preservation, ordering and fail-fast — without committing to a target
/// instruction selection.
pub struct ScriptedConverter {
    /// Symbols of the unit names whose conversion fails.
    pub fail_on: Vec<u32>,
}

impl ScriptedConverter {
    /// Whether the script rejects the given name.
    pub open spec fn rejects(&self, name: Ident) -> bool {
        self.fail_on@.contains(name.name.0)
    }

    fn is_rejected(&self, name: &Ident) -> (r: bool)
        ensures
            r == self.rejects(*name),
    {
        let n = self.fail_on.len();
        let mut i: usize = 0;
        while i < n
            invariant
                i <= n,
                n == self.fail_on@.len(),
                forall|j: int| 0 <= j < i ==> self.fail_on@[j] != name.name.0,
            decreases n - i,
        {
            if self.fail_on[i] == name.name.0 {
                return true;
            }
            i += 1;
        }
        false
    }
}

impl Converter for ScriptedConverter {
    /// A program converts unless the module of its entry point is scripted
    /// to fail.
    open spec fn program_result(&self, program: Program) -> Result<CompiledProgram, CompileError> {
        if self.rejects(program.entry.module) {
            Err(CompileError::ConversionFailed { unit: program.entry.module })
        } else {
            Ok(CompiledProgram { entry: program.entry })
        }
    }

    /// A module converts to the compiled module of the same name unless its
    /// name is scripted to fail.
    open spec fn module_result(&self, module: Module) -> Result<CompiledModule, CompileError> {
        if self.rejects(module.name) {
            Err(CompileError::ConversionFailed { unit: module.name })
        } else {
            Ok(CompiledModule { name: module.name })
        }
    }

    /// Conversion carries no state from one module to the next.
    open spec fn after_module(&self, module: Module) -> Self {
        *self
    }

    fn convert_program(&mut self, program: &Program) -> (r: Result<CompiledProgram, CompileError>) {
        if self.is_rejected(&program.entry.module) {
            Err(CompileError::ConversionFailed { unit: program.entry.module })
        } else {
            Ok(CompiledProgram { entry: program.entry })
        }
    }

    fn convert_module(&mut self, module: &Module) -> (r: Result<CompiledModule, CompileError>) {
        if self.is_rejected(&module.name) {
            Err(CompileError::ConversionFailed { unit: module.name })
        } else {
            Ok(CompiledModule { name: module.name })
        }
    }
}

} // verus!
