//! Run orchestrator: drives one optimization run. It parses the instance
//! text, hands the parsed representation to the importer collaborator,
//! derives the two phase configurations from the time budget, fixes the
//! random seed, arms the terminator's single global deadline exactly once,
//! invokes the external optimizer collaborator synchronously, and measures
//! wall-clock time around the whole run, import included.
//!
//! The importer and the optimizer are opaque collaborators reached through
//! the [`InstanceImporter`] and [`Optimizer`] traits; this layer defines
//! what they are handed and how the raw solution is reduced, and assumes
//! nothing about their ordering, completeness or failure modes.

use vstd::prelude::*;

use crate::budget::MAX_TIME_LIMIT_SECS;
use crate::config::NestingConfig;
use crate::config::NestingInput;
use crate::config::PhaseConfig;
use crate::errors::INPUT_PREFIX_MAX_CHARS;
use crate::errors::NestingError;
use crate::errors::bounded_prefix;
use crate::errors::spec_bounded_prefix;
use crate::serializer::InstanceModel;
use crate::serializer::NestingOutput;
use crate::serializer::SolutionModel;
use crate::serializer::area_fits;
use crate::serializer::lemma_requested_nonneg;
use crate::serializer::requested_fits;
use crate::serializer::spec_status;
use crate::terminator::NativeTerminator;
use crate::terminator::current_time_millis;
use jagua_rs::probs::spp::entities::SPInstance;
use jagua_rs::probs::spp::entities::SPSolution;
use jagua_rs::probs::spp::io::ext_repr::ExtSPInstance;

verus! {

/// The optimizer's external instance representation, carried through this
/// layer opaquely.
#[verifier::external_type_specification]
#[verifier::external_body]
pub struct ExExtSPInstance(ExtSPInstance);

/// The imported, validated problem instance, carried through opaquely.
#[verifier::external_type_specification]
#[verifier::external_body]
pub struct ExSPInstance(SPInstance);

/// The optimizer's raw solution, carried through opaquely; the collaborator
/// reads it into a plain [`SolutionModel`] for the reducer.
#[verifier::external_type_specification]
#[verifier::external_body]
pub struct ExSPSolution(SPSolution);

/// The parse diagnostic of the textual instance representation.
#[verifier::external_type_specification]
#[verifier::external_body]
pub struct ExSerdeJsonError(serde_json::Error);

/// Whether the text deserializes as the optimizer's external instance
/// representation. The external deserializer decides, deterministically in
/// its input alone; nothing here says which texts those are.
pub uninterp spec fn parses_as_instance(s: Seq<char>) -> bool;

/// Relies on `serde_json::from_str`: deserializes the textual instance into
/// the external representation, `Ok` exactly when the text matches the
/// schema — the decision `parses_as_instance` names — and `Err` carrying
/// the parse diagnostic.
#[verifier::external_body]
fn parse_ext_instance(json_str: &str) -> (r: Result<ExtSPInstance, serde_json::Error>)
    ensures
        r is Ok <==> parses_as_instance(json_str@),
{
    serde_json::from_str(json_str)
}

/// Relies on `serde_json::Error`'s `Display`: the parse diagnostic as text.
#[verifier::external_body]
fn json_error_message(err: &serde_json::Error) -> String {
    format!("{}", err)
}

/// Relies on the `name` field of `ExtSPInstance`: the instance's name.
#[verifier::external_body]
fn ext_instance_name(ext: &ExtSPInstance) -> String {
    ext.name.clone()
}

/// Relies on `rand::random`: a fresh, unpredictable 64-bit seed, drawn only
/// when the caller supplies none. Nothing is promised of the value.
#[verifier::external_body]
fn draw_seed() -> u64 {
    rand::random::<u64>()
}

/// What kind of solution the optimizer is reporting.
#[derive(Clone, Copy, Debug, PartialEq, Eq, Structural)]
pub enum ReportKind {
    /// A feasible solution found during exploration.
    ExplorationFeasible,
    /// An infeasible state reached during exploration.
    ExplorationInfeasible,
    /// An improving solution found during exploration.
    ExplorationImproving,
    /// A feasible solution found during compression.
    CompressionFeasible,
    /// The final solution of the run.
    Final,
}

/// Receives intermediate solutions from the optimizer for progress
/// reporting. Implemented by callers; nothing is imposed on or proved about
/// implementations.
pub trait SolutionListener {
    /// Called by the optimizer whenever it has a solution to report.
    fn report(&mut self, kind: ReportKind, solution: &SPSolution, instance: &SPInstance);
}

/// A listener that ignores every report.
pub struct NullListener;

impl SolutionListener for NullListener {
    fn report(&mut self, kind: ReportKind, solution: &SPSolution, instance: &SPInstance) {
    }
}

/// The importer collaborator: turns the parsed external instance into an
/// imported, validated one, or rejects it with a diagnostic. Implemented by
/// callers; nothing is imposed on or proved about implementations — the
/// geometric validation, and any failure mode of the geometry kernel behind
/// it, belong to the collaborator.
pub trait InstanceImporter {
    /// Imports the parsed instance, or explains why it is rejected.
    fn import(&mut self, ext: &ExtSPInstance) -> Result<SPInstance, String>;
}

/// The external optimizer collaborator. `optimize` is synchronous and
/// blocking, assumed eventually-returning once the terminator signals stop,
/// and expected (not verified) to be deterministic for one seed and to place
/// no more units of an item than requested. The two reader methods turn the
/// opaque structures into the plain records this layer reduces; they carry
/// the collaborator's fixed-point conversion of the geometry.
pub trait Optimizer<L: SolutionListener> {
    /// Runs the search on the imported instance, polling the terminator.
    fn optimize(
        &mut self,
        instance: &SPInstance,
        seed: u64,
        listener: &mut L,
        terminator: &NativeTerminator,
        exploration: &PhaseConfig,
        compression: &PhaseConfig,
    ) -> SPSolution;

    /// Reads the raw solution into plain placed-item records, in the
    /// optimizer's insertion order, and the derived strip width.
    fn solution_model(&self, solution: &SPSolution) -> SolutionModel;

    /// Reads the imported instance into plain item classes with quantities,
    /// and the fixed strip height.
    fn instance_model(&self, instance: &SPInstance) -> InstanceModel;
}

/// What one run returns: the raw solution, the imported instance, the
/// original external representation, the elapsed wall-clock time, and the
/// seed the run was driven with, surfaced so the run is reproducible.
pub struct NestingResult {
    /// The optimized solution with item placements.
    pub solution: SPSolution,
    /// The imported problem instance.
    pub instance: SPInstance,
    /// The external representation of the instance.
    pub ext_instance: ExtSPInstance,
    /// Wall-clock time of the whole run, import included, in milliseconds.
    pub computation_time_ms: u64,
    /// The seed handed to the optimizer: the configured one, or the freshly
    /// drawn one when none was configured.
    pub seed_used: u64,
}

/// Drives one optimization run: parses the instance text, imports it through
/// the importer collaborator, derives both phase configurations from the
/// time budget, fixes the seed, arms the terminator's single global deadline
/// to the full limit (or the substituted default) before the optimizer runs,
/// invokes the optimizer exactly once, and measures wall-clock time around
/// the whole of it. Never caches or retries; cancellation belongs to the
/// caller holding the terminator. The malformed-input error comes exactly
/// on the texts that do not parse; on a text that parses, only the importer
/// collaborator can still reject the run.
pub fn run_nesting<L: SolutionListener, I: InstanceImporter, O: Optimizer<L>>(
    json_str: &str,
    config: &NestingConfig,
    importer: &mut I,
    listener: &mut L,
    optimizer: &mut O,
    terminator: &NativeTerminator,
) -> (r: Result<NestingResult, NestingError>)
    requires
        config.time_limit matches Some(t) ==> t <= MAX_TIME_LIMIT_SECS,
    ensures
        r matches Ok(out) ==> (config.seed matches Some(s) ==> out.seed_used == s),
        r matches Err(e) ==> (e is MalformedInput || e is ImportFailure),
        (r matches Err(NestingError::MalformedInput { .. })) <==> !parses_as_instance(
            json_str@,
        ),
        r matches Err(NestingError::MalformedInput { detail, input_prefix }) ==> input_prefix@
            == spec_bounded_prefix(json_str@, INPUT_PREFIX_MAX_CHARS as int),
{
    let start_ms = current_time_millis();

    let ext_instance = match parse_ext_instance(json_str) {
        Ok(e) => e,
        Err(err) => {
            let detail = json_error_message(&err);
            let input_prefix = bounded_prefix(json_str, INPUT_PREFIX_MAX_CHARS);
            return Err(NestingError::MalformedInput { detail, input_prefix });
        },
    };

    let (exploration, compression) = crate::config::build_phase_configs(config);

    let seed_used: u64 = match config.seed {
        Some(s) => s,
        None => draw_seed(),
    };

    // One global deadline for the whole run; nested phase timeouts the
    // optimizer may request later cannot override it (arm-once).
    let overall_ms = exploration.time_limit_ms + compression.time_limit_ms;
    terminator.new_timeout(overall_ms);

    let instance = match importer.import(&ext_instance) {
        Ok(i) => i,
        Err(detail) => {
            return Err(NestingError::ImportFailure { detail });
        },
    };

    let solution = optimizer.optimize(
        &instance,
        seed_used,
        listener,
        terminator,
        &exploration,
        &compression,
    );

    let end_ms = current_time_millis();
    let computation_time_ms = if end_ms >= start_ms {
        end_ms - start_ms
    } else {
        0
    };

    Ok(
        NestingResult {
            solution,
            instance,
            ext_instance,
            computation_time_ms,
            seed_used,
        },
    )
}

/// The composed entry point: builds the run configuration from the raw
/// input, creates a fresh terminator, runs the orchestrated optimization,
/// reads the raw structures into plain records through the collaborator,
/// reduces them to the normalized report, and attaches the seed the run was
/// driven with so the run is reproducible after the fact. The rendered
/// graphic is left unset for the caller to attach. The malformed-input
/// error comes exactly on the texts that do not parse; an instance whose
/// requested quantities or total item area exceed the representable range
/// is rejected as an import failure.
pub fn run_nesting_engine<L: SolutionListener, I: InstanceImporter, O: Optimizer<L>>(
    input: &NestingInput,
    importer: &mut I,
    listener: &mut L,
    optimizer: &mut O,
) -> (r: Result<NestingOutput, NestingError>)
    requires
        input.time_limit matches Some(t) ==> t <= MAX_TIME_LIMIT_SECS,
    ensures
        r matches Err(e) ==> (e is MalformedInput || e is ImportFailure),
        (r matches Err(NestingError::MalformedInput { .. })) <==> !parses_as_instance(
            input.json_input@,
        ),
        r matches Ok(out) ==> {
            &&& out.items_requested is Some
            &&& out.total_items_placed == out.layouts@.len()
            &&& out.status == spec_status(
                out.total_items_placed as int,
                out.items_requested->Some_0 as int,
            )
            &&& out.svg_string is None
            &&& out.seed_used is Some
            &&& (input.seed matches Some(s) ==> out.seed_used == Some(s))
        },
{
    let config = input.to_config();
    let terminator = NativeTerminator::new();

    let result = match run_nesting(
        input.json_input.as_str(),
        &config,
        importer,
        listener,
        optimizer,
        &terminator,
    ) {
        Ok(res) => res,
        Err(e) => {
            return Err(e);
        },
    };

    let solution_model = optimizer.solution_model(&result.solution);
    let instance_model = optimizer.instance_model(&result.instance);

    if !requested_fits(&instance_model.items) || !area_fits(&instance_model.items) {
        let detail = "instance quantities or areas exceed the representable range".to_owned();
        return Err(NestingError::ImportFailure { detail });
    }
    proof {
        lemma_requested_nonneg(instance_model.items@);
    }

    let instance_name = ext_instance_name(&result.ext_instance);
    let mut output = NestingOutput::from_solution(
        &solution_model,
        &instance_model,
        instance_name,
        result.computation_time_ms,
    );
    output.seed_used = Some(result.seed_used);
    Ok(output)
}

} // verus!
