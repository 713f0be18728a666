//! The uniform protocol every compilation phase satisfies, and the driver
//! step that sequences one phase.
//!
//! A stage declares its input and output artifact types, a gating predicate
//! over the session, and a transformation that may consult and extend a
//! shared analysis cache. Stages compose into a pipeline run strictly in
//! sequence by a driver that threads the cache and session through them; a
//! disabled stage is skipped by the driver and is never invoked.

use crate::ir::Ident;
use std::collections::HashMap;
use vstd::prelude::*;

verus! {

broadcast use vstd::std_specs::hash::group_hash_axioms;

/// The failure of a pipeline stage. A failure is always fatal to the
/// current pipeline invocation: compilation is deterministic, so retrying
/// with the same input would reproduce it. The value names the unit that
/// failed, so an outer layer can render it.
#[derive(Debug)]
pub enum CompileError {
    /// The target converter could not lower the named unit.
    ConversionFailed { unit: Ident },
}

impl PartialEq for CompileError {
    fn eq(&self, other: &Self) -> bool {
        match (self, other) {
            (
                CompileError::ConversionFailed { unit: a },
                CompileError::ConversionFailed { unit: b },
            ) => a == b,
        }
    }
}

impl vstd::std_specs::cmp::PartialEqSpecImpl for CompileError {
    open spec fn obeys_eq_spec() -> bool {
        true
    }

    open spec fn eq_spec(&self, other: &CompileError) -> bool {
        match (self, other) {
            (
                CompileError::ConversionFailed { unit: a },
                CompileError::ConversionFailed { unit: b },
            ) => a.name == b.name,
        }
    }
}

impl Eq for CompileError {}

/// The compilation session: the read-only configuration surface a stage may
/// consult while running. Stages never mutate it.
#[derive(Debug)]
pub struct Session {
    /// Whether code generation was requested, as opposed to a dry run that
    /// stops after IR emission for inspection.
    pub codegen_requested: bool,
}

impl Session {
    /// Whether the code-generation stage should run under this session.
    pub fn should_codegen(&self) -> (r: bool)
        ensures
            r == self.codegen_requested,
    {
        self.codegen_requested
    }
}

/// The shared cache of derived analyses, keyed by analysis identifier. The
/// discipline is "derive once, read many": a stage records an expensive
/// derived fact so later stages reuse it instead of recomputing it. The
/// cache is scoped to one pipeline run and torn down with it.
#[derive(Debug)]
pub struct AnalysisManager {
    cache: HashMap<u64, u64>,
}

impl View for AnalysisManager {
    type V = Map<u64, u64>;

    closed spec fn view(&self) -> Map<u64, u64> {
        self.cache@
    }
}

impl AnalysisManager {
    /// An empty cache, as a pipeline run starts with.
    pub fn new() -> (r: Self)
        ensures
            r@ == Map::<u64, u64>::empty(),
    {
        AnalysisManager { cache: HashMap::new() }
    }

    /// The fact recorded for `key`, if one was derived earlier in the run.
    pub fn get(&self, key: u64) -> (r: Option<u64>)
        ensures
            r == if self@.contains_key(key) {
                Some(self@[key])
            } else {
                None::<u64>
            },
    {
        match self.cache.get(&key) {
            Some(v) => Some(*v),
            None => None,
        }
    }

    /// Records the fact derived for `key`, replacing any earlier one.
    pub fn insert(&mut self, key: u64, fact: u64)
        ensures
            final(self)@ == old(self)@.insert(key, fact),
    {
        self.cache.insert(key, fact);
    }
}

/// The contract every pipeline phase satisfies, so that a driver can
/// sequence heterogeneous phases without knowing their internals.
///
/// A stage is never invoked when disabled: `run` requires the gating
/// predicate, and the driver ([`apply_stage`]) skips the stage instead of
/// calling it. A stage's side effects are confined to the analysis cache
/// and its explicit output, which is what makes re-runs reproducible.
pub trait Stage: Sized {
    /// The artifact type this stage consumes. The driver matches it against
    /// the previous stage's output type.
    type Input;

    /// The artifact type this stage produces.
    type Output;

    /// Whether this stage runs at all under the given session
    /// configuration.
    spec fn spec_enabled(&self, session: &Session) -> bool;

    /// The executable gating predicate, faithful to [`Stage::spec_enabled`].
    fn enabled(&self, session: &Session) -> (r: bool)
        ensures
            r == self.spec_enabled(session),
    ;

    /// The transformation itself. Failure aborts the pipeline: no partial
    /// output propagates to later stages.
    fn run(&mut self, input: Self::Input, analyses: &mut AnalysisManager, session: &Session) -> (r:
        Result<Self::Output, CompileError>)
        requires
            old(self).spec_enabled(session),
    ;
}

/// The driver-level outcome of offering an artifact to one stage.
pub enum StageOutcome<I, O> {
    /// The stage ran and produced its output artifact.
    Completed(O),
    /// The stage ran and failed; the pipeline invocation is aborted.
    Failed(CompileError),
    /// The stage was disabled for this session and was never invoked; the
    /// input is handed back untouched as an identity pass-through.
    Skipped(I),
}

/// Offers `input` to `stage`: runs the stage if its gating predicate allows
/// it, and skips the stage otherwise. A disabled stage is never invoked —
/// its state and the analysis cache come back untouched, and the input is
/// returned as an identity pass-through.
pub fn apply_stage<S: Stage>(
    stage: &mut S,
    input: S::Input,
    analyses: &mut AnalysisManager,
    session: &Session,
) -> (r: StageOutcome<S::Input, S::Output>)
    ensures
        !old(stage).spec_enabled(session) ==> (r == StageOutcome::<S::Input, S::Output>::Skipped(
            input,
        ) && *final(stage) == *old(stage) && final(analyses)@ == old(analyses)@),
        old(stage).spec_enabled(session) ==> !(r is Skipped),
{
    if stage.enabled(session) {
        match stage.run(input, analyses, session) {
            Ok(out) => StageOutcome::Completed(out),
            Err(e) => StageOutcome::Failed(e),
        }
    } else {
        StageOutcome::Skipped(input)
    }
}

} // verus!
