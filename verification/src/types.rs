//! The data that moves through the service: job states, queued jobs, and
//! the request and response records of each operation.

use vstd::prelude::*;

verus! {

/// The lifecycle state of a proof job. Exactly one state belongs to a job
/// at any instant; `Completed` and `Failed` are terminal.
#[derive(Debug, PartialEq, Eq)]
pub enum ProofStatus {
    Pending,
    InProgress,
    Completed { proof: String },
    Failed { error: String },
}

/// The mathematical value of a [`ProofStatus`].
pub enum StatusView {
    Pending,
    InProgress,
    Completed { proof: Seq<char> },
    Failed { error: Seq<char> },
}

impl View for ProofStatus {
    type V = StatusView;

    open spec fn view(&self) -> StatusView {
        match self {
            ProofStatus::Pending => StatusView::Pending,
            ProofStatus::InProgress => StatusView::InProgress,
            ProofStatus::Completed { proof } => StatusView::Completed { proof: proof@ },
            ProofStatus::Failed { error } => StatusView::Failed { error: error@ },
        }
    }
}

impl Clone for ProofStatus {
    fn clone(&self) -> (copy: Self)
        ensures
            copy == *self,
    {
        match self {
            ProofStatus::Pending => ProofStatus::Pending,
            ProofStatus::InProgress => ProofStatus::InProgress,
            ProofStatus::Completed { proof } => ProofStatus::Completed { proof: proof.clone() },
            ProofStatus::Failed { error } => ProofStatus::Failed { error: error.clone() },
        }
    }
}

/// What the status store keeps for one job.
#[derive(Debug, PartialEq, Eq)]
pub struct ProofTask {
    pub status: ProofStatus,
}

impl View for ProofTask {
    type V = StatusView;

    open spec fn view(&self) -> StatusView {
        self.status@
    }
}

impl Clone for ProofTask {
    fn clone(&self) -> (copy: Self)
        ensures
            copy == *self,
    {
        ProofTask { status: self.status.clone() }
    }
}

/// A job as it waits in the work queue. `input` holds the input document
/// as JSON text.
#[derive(Debug, PartialEq, Eq)]
pub struct QueuedProofTask {
    pub task_id: String,
    pub circuit_path: String,
    pub input: String,
    pub mock_mode: bool,
}

/// The mathematical value of a [`QueuedProofTask`].
pub struct TaskView {
    pub task_id: Seq<char>,
    pub circuit_path: Seq<char>,
    pub input: Seq<char>,
    pub mock_mode: bool,
}

impl View for QueuedProofTask {
    type V = TaskView;

    open spec fn view(&self) -> TaskView {
        TaskView {
            task_id: self.task_id@,
            circuit_path: self.circuit_path@,
            input: self.input@,
            mock_mode: self.mock_mode,
        }
    }
}

impl Clone for QueuedProofTask {
    fn clone(&self) -> (copy: Self)
        ensures
            copy == *self,
    {
        QueuedProofTask {
            task_id: self.task_id.clone(),
            circuit_path: self.circuit_path.clone(),
            input: self.input.clone(),
            mock_mode: self.mock_mode,
        }
    }
}

/// A request for a proof. `input` holds the input document as JSON text;
/// `mock` asks for the mock backend whatever the process-wide switch says.
#[derive(Debug, PartialEq, Eq)]
pub struct ProofRequest {
    pub circuit_path: String,
    pub input: String,
    pub mock: bool,
}

impl Clone for ProofRequest {
    fn clone(&self) -> (copy: Self)
        ensures
            copy == *self,
    {
        ProofRequest {
            circuit_path: self.circuit_path.clone(),
            input: self.input.clone(),
            mock: self.mock,
        }
    }
}

/// What a caller learns about a job: its identifier, the name of its state,
/// the proof once completed, the error once failed.
#[derive(Debug, Clone, PartialEq, Eq)]
pub struct ProofResponse {
    pub task_id: String,
    pub status: String,
    pub proof: Option<String>,
    pub error: Option<String>,
}

/// The mathematical value of a [`ProofResponse`].
pub struct ResponseView {
    pub task_id: Seq<char>,
    pub status: Seq<char>,
    pub proof: Option<Seq<char>>,
    pub error: Option<Seq<char>>,
}

/// The text inside an optional string.
pub open spec fn text_of(value: Option<String>) -> Option<Seq<char>> {
    match value {
        Some(s) => Some(s@),
        None => None,
    }
}

impl View for ProofResponse {
    type V = ResponseView;

    open spec fn view(&self) -> ResponseView {
        ResponseView {
            task_id: self.task_id@,
            status: self.status@,
            proof: text_of(self.proof),
            error: text_of(self.error),
        }
    }
}

#[derive(Debug, Clone, PartialEq, Eq)]
pub struct PublicKeyResponse {
    pub public_key: String,
}

#[derive(Debug, Clone, PartialEq, Eq)]
pub struct WriteStateRequest {
    pub key: String,
    pub value: String,
}

#[derive(Debug, Clone, PartialEq, Eq)]
pub struct QueryStateResponse {
    pub value: Option<String>,
}

#[derive(Debug, Clone, PartialEq, Eq)]
pub struct ConsultXRequest {
    pub query: String,
}

#[derive(Debug, Clone, PartialEq, Eq)]
pub struct ConsultXResponse {
    pub result: String,
}

#[derive(Debug, Clone, PartialEq, Eq)]
pub struct SubmitXRequest {
    pub data: String,
}

#[derive(Debug, Clone, PartialEq, Eq)]
pub struct SubmitXResponse {
    pub submission_id: String,
}

#[derive(Debug, Clone, PartialEq, Eq)]
pub struct DecryptInputRequest {
    pub encrypted_data: String,
}

#[derive(Debug, Clone, PartialEq, Eq)]
pub struct DecryptInputResponse {
    pub decrypted: String,
}

#[derive(Debug, Clone, PartialEq, Eq)]
pub struct GitCloneRequest {
    pub gitrepo: String,
}

#[derive(Debug, Clone, PartialEq, Eq)]
pub struct GitCloneResponse {
    pub uuid: String,
}

#[derive(Debug, Clone, PartialEq, Eq)]
pub struct DeleteDirectoryRequest {
    pub dir_path: String,
}

#[derive(Debug, Clone, PartialEq, Eq)]
pub struct TrackedDirectoriesResponse {
    pub directories: Vec<String>,
}

#[derive(Debug, Clone, PartialEq, Eq)]
pub struct SignMessageRequest {
    pub message: String,
}

#[derive(Debug, Clone, PartialEq, Eq)]
pub struct SignMessageResponse {
    pub signature: String,
    pub public_key: String,
}

#[derive(Debug, Clone, PartialEq, Eq)]
pub struct ErrorResponse {
    pub error: String,
}

/// A payer's evidence of payment, as sent with a request for a paid
/// resource.
#[derive(Debug, Clone, PartialEq, Eq)]
pub struct PaymentProof {
    pub signature: String,
    pub amount: String,
    pub recipient: String,
    pub payer: String,
    pub nonce: String,
    pub timestamp: i64,
}

/// What the facilitator is asked to verify.
#[derive(Debug, Clone, PartialEq, Eq)]
pub struct VerifyPaymentRequest {
    pub payment_proof: PaymentProof,
    pub required_amount: String,
    pub required_recipient: String,
}

/// The facilitator's verdict on a payment.
#[derive(Debug, Clone, PartialEq, Eq)]
pub struct VerifyPaymentResponse {
    pub valid: bool,
    pub payment_id: Option<String>,
    pub settlement_tx_hash: Option<String>,
    pub settled: Option<bool>,
    pub error: Option<String>,
}

/// The answer to a request whose payment is missing or not accepted.
#[derive(Debug, Clone, PartialEq, Eq)]
pub struct PaymentRequiredResponse {
    pub error: String,
    pub amount: String,
    pub recipient: String,
    pub currency: Option<String>,
    pub network: Option<String>,
}

/// The paid resource itself.
#[derive(Debug, Clone, PartialEq, Eq)]
pub struct PaidResourceResponse {
    pub success: bool,
    pub data: String,
    pub payment_id: Option<String>,
}

} // verus!
