//! The execution backends: a mock that synthesises a proof document, and the
//! decisions around a run of the prover executable.

use vstd::prelude::*;
use crate::errors::{ZkpError, ZkpErrorView};
use crate::ident::utc_now;
use crate::status::outcome_view;
use crate::json::{json_check, json_defect, json_quote, json_string_text, json_well_formed};
use crate::types::{QueuedProofTask, TaskView};

verus! {

/// How long the mock backend pretends to work, in milliseconds.
pub const MOCK_DELAY_MS: u64 = 100;

/// The prover executable that is run where none is configured.
pub const DEFAULT_PROVER: &'static str = "nargo";

/// The strategy that produces a job's proof.
#[derive(Debug, Clone, Copy, PartialEq, Eq, Structural)]
pub enum Backend {
    /// Synthesises a proof document after a short delay.
    Mock,
    /// Runs the prover executable and reads the proof it writes.
    External,
}

impl Backend {
    /// The backend for a job: the mock if the process-wide switch or the
    /// request asks for it, the prover otherwise.
    pub open spec fn choice(process_wide: bool, requested: bool) -> Backend {
        if process_wide || requested {
            Backend::Mock
        } else {
            Backend::External
        }
    }

    /// Selects the backend for a job from the process-wide switch and the
    /// request's own flag.
    pub fn select(process_wide: bool, requested: bool) -> (backend: Backend)
        ensures
            backend == Backend::choice(process_wide, requested),
    {
        if process_wide || requested {
            Backend::Mock
        } else {
            Backend::External
        }
    }

    /// The backend that a queued job runs on. The job's flag already holds
    /// the process-wide switch.
    pub fn of_task(task: &QueuedProofTask) -> (backend: Backend)
        ensures
            backend == Backend::choice(task.mock_mode, false),
    {
        Backend::select(task.mock_mode, false)
    }
}

/// The marker that a mock proof carries: `mock_proof_`, then the job's
/// identifier.
pub open spec fn mock_marker(task_id: Seq<char>) -> Seq<char> {
    "mock_proof_"@ + task_id
}

/// The mock proof for `task`, generated at `timestamp`: a JSON object with
/// the circuit reference, the input document as it came, the marker, the
/// job's identifier and the timestamp, keys in alphabetical order.
pub open spec fn mock_document(task: TaskView, timestamp: Seq<char>) -> Seq<char> {
    "{\"circuit_path\":"@ + json_string_text(task.circuit_path) + ",\"input\":"@ + task.input
        + ",\"proof\":"@ + json_string_text(mock_marker(task.task_id)) + ",\"task_id\":"@
        + json_string_text(task.task_id) + ",\"timestamp\":"@ + json_string_text(timestamp) + "}"@
}

/// The marker of job `task_id`.
pub fn marker_for(task_id: &str) -> (marker: String)
    ensures
        marker@ == mock_marker(task_id@),
{
    String::from_str("mock_proof_").concat(task_id)
}

/// What the mock backend returns for `task` at `timestamp`: the mock
/// document, or a `JsonError` with the parser's message where the job's
/// input is not a well-formed JSON document.
pub open spec fn mock_outcome(task: TaskView, timestamp: Seq<char>) -> Result<
    Seq<char>,
    ZkpErrorView,
> {
    match json_defect(task.input) {
        None => Ok(mock_document(task, timestamp)),
        Some(message) => Err(ZkpErrorView::JsonError(message)),
    }
}

/// The mock backend's proof for `task`, stamped with `timestamp`. Fails
/// with `JsonError` if and only if the job's input is not a well-formed
/// JSON document.
pub fn mock_proof_at(task: &QueuedProofTask, timestamp: &str) -> (proof: Result<String, ZkpError>)
    ensures
        outcome_view(proof) == mock_outcome(task@, timestamp@),
{
    match json_check(task.input.as_str()) {
        Ok(()) => {},
        Err(e) => {
            return Err(e);
        },
    }
    let marker = marker_for(task.task_id.as_str());
    let mut text = String::from_str("{\"circuit_path\":");
    text.append(json_quote(task.circuit_path.as_str()).as_str());
    text.append(",\"input\":");
    text.append(task.input.as_str());
    text.append(",\"proof\":");
    text.append(json_quote(marker.as_str()).as_str());
    text.append(",\"task_id\":");
    text.append(json_quote(task.task_id.as_str()).as_str());
    text.append(",\"timestamp\":");
    text.append(json_quote(timestamp).as_str());
    text.append("}");
    Ok(text)
}

/// The mock backend: the proof for `task`, stamped with the current time.
/// Fails with `JsonError` if and only if the job's input is not a
/// well-formed JSON document.
pub fn generate_mock_proof(task: &QueuedProofTask) -> (proof: Result<String, ZkpError>)
    ensures
        proof is Ok <==> json_well_formed(task.input@),
        exists|stamp: Seq<char>| outcome_view(proof) == #[trigger] mock_outcome(task@, stamp),
{
    let stamp = utc_now();
    mock_proof_at(task, stamp.as_str())
}

/// Where the prover finds the witness for a circuit.
pub open spec fn witness_path_of(circuit_path: Seq<char>) -> Seq<char> {
    circuit_path + ".witness"@
}

/// Where the prover writes the proof for a circuit.
pub open spec fn proof_path_of(circuit_path: Seq<char>) -> Seq<char> {
    circuit_path + ".proof"@
}

/// The prover's arguments for `task`: the circuit path, the witness path,
/// the proof path and the input document.
pub open spec fn prover_args(task: TaskView) -> Seq<Seq<char>> {
    seq![
        task.circuit_path,
        witness_path_of(task.circuit_path),
        proof_path_of(task.circuit_path),
        task.input,
    ]
}

/// The texts of a sequence of strings.
pub open spec fn texts(strings: Seq<String>) -> Seq<Seq<char>> {
    strings.map_values(|s: String| s@)
}

/// One run of the prover executable: what to run, with which arguments,
/// and where the proof will be.
#[derive(Debug, PartialEq, Eq)]
pub struct ProverCommand {
    pub program: String,
    pub args: Vec<String>,
    pub proof_path: String,
}

/// The mathematical value of a [`ProverCommand`].
pub struct CommandView {
    pub program: Seq<char>,
    pub args: Seq<Seq<char>>,
    pub proof_path: Seq<char>,
}

impl View for ProverCommand {
    type V = CommandView;

    open spec fn view(&self) -> CommandView {
        CommandView {
            program: self.program@,
            args: texts(self.args@),
            proof_path: self.proof_path@,
        }
    }
}

/// The run of `program` for `task`: the arguments are the circuit path,
/// the witness path, the proof path and the input document, and the proof
/// is expected at the proof path.
pub open spec fn command_for(program: Seq<char>, task: TaskView) -> CommandView {
    CommandView {
        program,
        args: prover_args(task),
        proof_path: proof_path_of(task.circuit_path),
    }
}

/// What a run of the prover came to.
#[derive(Debug, PartialEq, Eq)]
pub enum ProverReport {
    /// The executable could not be launched at all.
    LaunchFailed { reason: String },
    /// The executable ran and ended with `code`, or without a code where a
    /// signal ended it; `stderr` is all it wrote to its error stream.
    Exited { code: Option<i32>, stderr: String },
}

/// What follows a run of the prover.
#[derive(Debug, PartialEq, Eq)]
pub enum ProverNext {
    /// The run succeeded: read the proof from `path`.
    ReadProof { path: String },
    /// The run failed: the job fails with this error.
    Fail(ZkpError),
}

/// Whether a run that ended with `code` succeeded: only with exit code
/// zero.
pub open spec fn exit_ok(code: Option<i32>) -> bool {
    code == Some(0i32)
}

/// The failure that a report amounts to, if any: a launch failure is a
/// `NoirCommandError` with the reason, an unsuccessful exit a
/// `ProofGenerationError` with the captured error stream.
pub open spec fn report_failure(report: ProverReport) -> Option<ZkpErrorView> {
    match report {
        ProverReport::LaunchFailed { reason } => Some(ZkpErrorView::NoirCommandError(reason@)),
        ProverReport::Exited { code, stderr } => if exit_ok(code) {
            None
        } else {
            Some(ZkpErrorView::ProofGenerationError(stderr@))
        },
    }
}

/// The outcome of reading the proof file: its contents as they are, or a
/// `ProofGenerationError` with the reason why it could not be read.
pub open spec fn read_outcome(read: Result<String, String>) -> Result<Seq<char>, ZkpErrorView> {
    match read {
        Ok(contents) => Ok(contents@),
        Err(reason) => Err(ZkpErrorView::ProofGenerationError(reason@)),
    }
}

/// Plans the run of `program` for `task`.
pub fn prover_command(program: &str, task: &QueuedProofTask) -> (command: ProverCommand)
    ensures
        command@ == command_for(program@, task@),
{
    let witness_path = task.circuit_path.clone().concat(".witness");
    let proof_path = task.circuit_path.clone().concat(".proof");
    let mut args: Vec<String> = Vec::new();
    args.push(task.circuit_path.clone());
    args.push(witness_path);
    args.push(proof_path.clone());
    args.push(task.input.clone());
    assert(texts(args@) =~= prover_args(task@));
    ProverCommand { program: String::from_str(program), args, proof_path }
}

/// Decides what follows a run of `command`: after a successful exit the
/// proof is read from the command's proof path; a launch failure or an
/// unsuccessful exit fails the job.
pub fn after_run(command: &ProverCommand, report: ProverReport) -> (next: ProverNext)
    ensures
        match next {
            ProverNext::ReadProof { path } => report_failure(report) is None && path@
                == command.proof_path@,
            ProverNext::Fail(e) => report_failure(report) == Some(e@),
        },
{
    match report {
        ProverReport::LaunchFailed { reason } => ProverNext::Fail(
            ZkpError::NoirCommandError(reason),
        ),
        ProverReport::Exited { code, stderr } => {
            let ok = match code {
                Some(c) => c == 0,
                None => false,
            };
            if ok {
                ProverNext::ReadProof { path: command.proof_path.clone() }
            } else {
                ProverNext::Fail(ZkpError::ProofGenerationError(stderr))
            }
        },
    }
}

/// Decides the job's outcome once the proof file was read, or could not
/// be: the contents as they are, or a `ProofGenerationError` with the
/// reason.
pub fn after_read(read: Result<String, String>) -> (outcome: Result<String, ZkpError>)
    ensures
        outcome_view(outcome) == read_outcome(read),
{
    match read {
        Ok(contents) => Ok(contents),
        Err(reason) => Err(ZkpError::ProofGenerationError(reason)),
    }
}

} // verus!
