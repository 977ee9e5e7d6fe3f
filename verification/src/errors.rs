//! Property service errors and the fixed, client-safe errors of the batch
//! task read endpoints.

use vstd::prelude::*;

use crate::dependency_readiness::TaskDependencyReadiness;
use crate::subtask_hierarchy::TaskSubtaskCompletionReadiness;

verus! {

/// Failures of the properties service.
#[derive(Debug)]
pub enum PropertiesErr {
    Validation(String),
    NotFound,
    TaskDependenciesUnavailable,
    PermissionDenied,
    SystemPropertyNotModifiable,
    RequiredProperty,
    TeamMembershipRequired,
    OptionNotFound,
    DuplicateOptionValue,
    ConflictingTeamLabel(String),
    TaskDependencyCycle,
    Repo(String),
    PermissionServiceNotConfigured,
    EntityPropertyNotFound,
    TaskHierarchyCycle,
    TaskTransitionBlocked,
    /// A gated Status was refused; the caller-visible dependency readiness.
    TaskTransitionBlockedWithReadiness(TaskDependencyReadiness),
    /// Completion was refused; the caller-visible subtask readiness.
    TaskCompletionBlockedBySubtasks(TaskSubtaskCompletionReadiness),
}

/// Failures of an entity access check.
#[derive(Debug)]
pub enum AccessError {
    BadRequest(String),
    Unauthorized,
    UnauthorizedWithMessage(String),
    NotFound(String),
    Unavailable(String),
    Internal(String),
}

/// HTTP status codes used by the endpoints.
pub const STATUS_BAD_REQUEST: u16 = 400;

/// HTTP 401.
pub const STATUS_UNAUTHORIZED: u16 = 401;

/// HTTP 403.
pub const STATUS_FORBIDDEN: u16 = 403;

/// HTTP 404.
pub const STATUS_NOT_FOUND: u16 = 404;

/// HTTP 500.
pub const STATUS_INTERNAL_SERVER_ERROR: u16 = 500;

/// The fixed failure classes shared by the batch task read endpoints.
#[derive(Debug, Clone, Copy, PartialEq, Eq, Structural)]
pub enum BatchReadFailure {
    BadRequest,
    Unauthorized,
    Forbidden,
    NotFound,
    Internal,
}

/// The class of a rejected authorization, by its HTTP status.
pub open spec fn failure_of_status(status: u16) -> BatchReadFailure {
    if status == STATUS_BAD_REQUEST {
        BatchReadFailure::BadRequest
    } else if status == STATUS_UNAUTHORIZED {
        BatchReadFailure::Unauthorized
    } else if status == STATUS_FORBIDDEN {
        BatchReadFailure::Forbidden
    } else {
        BatchReadFailure::Internal
    }
}

/// The class of a properties service failure.
pub open spec fn failure_of_properties(error: PropertiesErr) -> BatchReadFailure {
    match error {
        PropertiesErr::Validation(_) => BatchReadFailure::BadRequest,
        PropertiesErr::NotFound | PropertiesErr::TaskDependenciesUnavailable =>
            BatchReadFailure::NotFound,
        PropertiesErr::PermissionDenied | PropertiesErr::SystemPropertyNotModifiable
        | PropertiesErr::RequiredProperty | PropertiesErr::TeamMembershipRequired =>
            BatchReadFailure::Forbidden,
        _ => BatchReadFailure::Internal,
    }
}

/// The class of an access failure on a task source (a missing source is not found).
pub open spec fn failure_of_source_access(error: AccessError) -> BatchReadFailure {
    match error {
        AccessError::BadRequest(_) => BatchReadFailure::BadRequest,
        AccessError::Unauthorized | AccessError::UnauthorizedWithMessage(_) =>
            BatchReadFailure::Forbidden,
        AccessError::NotFound(_) => BatchReadFailure::NotFound,
        AccessError::Unavailable(_) | AccessError::Internal(_) => BatchReadFailure::Internal,
    }
}

/// The class of an access failure on a project receipt: the project's
/// existence was already established, so a missing receipt is a denial.
pub open spec fn failure_of_project_access(error: AccessError) -> BatchReadFailure {
    match error {
        AccessError::BadRequest(_) => BatchReadFailure::BadRequest,
        AccessError::Unauthorized | AccessError::UnauthorizedWithMessage(_)
        | AccessError::NotFound(_) => BatchReadFailure::Forbidden,
        AccessError::Unavailable(_) | AccessError::Internal(_) => BatchReadFailure::Internal,
    }
}

/// HTTP status of a failure class.
pub open spec fn failure_status(failure: BatchReadFailure) -> u16 {
    match failure {
        BatchReadFailure::BadRequest => STATUS_BAD_REQUEST,
        BatchReadFailure::Unauthorized => STATUS_UNAUTHORIZED,
        BatchReadFailure::Forbidden => STATUS_FORBIDDEN,
        BatchReadFailure::NotFound => STATUS_NOT_FOUND,
        BatchReadFailure::Internal => STATUS_INTERNAL_SERVER_ERROR,
    }
}

/// Redacted message of a failure class.
pub open spec fn failure_message(failure: BatchReadFailure) -> Seq<char> {
    match failure {
        BatchReadFailure::BadRequest => "invalid request"@,
        BatchReadFailure::Unauthorized => "unauthorized"@,
        BatchReadFailure::Forbidden => "forbidden"@,
        BatchReadFailure::NotFound => "not found"@,
        BatchReadFailure::Internal => "internal server error"@,
    }
}

/// The redacted error body `{"error": true, "message": ...}`.
#[derive(Debug)]
pub struct ErrorBody {
    pub error: bool,
    pub message: String,
}

/// A failure rendered for the client.
#[derive(Debug)]
pub struct ErrorReply {
    pub status: u16,
    pub body: ErrorBody,
}

fn classify_status(status: u16) -> (failure: BatchReadFailure)
    ensures
        failure == failure_of_status(status),
{
    if status == STATUS_BAD_REQUEST {
        BatchReadFailure::BadRequest
    } else if status == STATUS_UNAUTHORIZED {
        BatchReadFailure::Unauthorized
    } else if status == STATUS_FORBIDDEN {
        BatchReadFailure::Forbidden
    } else {
        BatchReadFailure::Internal
    }
}

fn classify_properties(error: PropertiesErr) -> (failure: BatchReadFailure)
    ensures
        failure == failure_of_properties(error),
{
    match error {
        PropertiesErr::Validation(_) => BatchReadFailure::BadRequest,
        PropertiesErr::NotFound | PropertiesErr::TaskDependenciesUnavailable =>
            BatchReadFailure::NotFound,
        PropertiesErr::PermissionDenied | PropertiesErr::SystemPropertyNotModifiable
        | PropertiesErr::RequiredProperty | PropertiesErr::TeamMembershipRequired =>
            BatchReadFailure::Forbidden,
        _ => BatchReadFailure::Internal,
    }
}

fn classify_source_access(error: AccessError) -> (failure: BatchReadFailure)
    ensures
        failure == failure_of_source_access(error),
{
    match error {
        AccessError::BadRequest(_) => BatchReadFailure::BadRequest,
        AccessError::Unauthorized | AccessError::UnauthorizedWithMessage(_) =>
            BatchReadFailure::Forbidden,
        AccessError::NotFound(_) => BatchReadFailure::NotFound,
        AccessError::Unavailable(_) | AccessError::Internal(_) => BatchReadFailure::Internal,
    }
}

fn classify_project_access(error: AccessError) -> (failure: BatchReadFailure)
    ensures
        failure == failure_of_project_access(error),
{
    match error {
        AccessError::BadRequest(_) => BatchReadFailure::BadRequest,
        AccessError::Unauthorized | AccessError::UnauthorizedWithMessage(_)
        | AccessError::NotFound(_) => BatchReadFailure::Forbidden,
        AccessError::Unavailable(_) | AccessError::Internal(_) => BatchReadFailure::Internal,
    }
}

/// Renders a failure class as its status and redacted body.
pub fn render_failure(failure: BatchReadFailure) -> (reply: ErrorReply)
    ensures
        reply.status == failure_status(failure),
        reply.body.error,
        reply.body.message@ == failure_message(failure),
{
    let (status, message) = match failure {
        BatchReadFailure::BadRequest => (STATUS_BAD_REQUEST, "invalid request"),
        BatchReadFailure::Unauthorized => (STATUS_UNAUTHORIZED, "unauthorized"),
        BatchReadFailure::Forbidden => (STATUS_FORBIDDEN, "forbidden"),
        BatchReadFailure::NotFound => (STATUS_NOT_FOUND, "not found"),
        BatchReadFailure::Internal => (STATUS_INTERNAL_SERVER_ERROR, "internal server error"),
    };
    ErrorReply { status, body: ErrorBody { error: true, message: message.to_owned() } }
}

/// Redacted error envelope of the project task-dependency readiness endpoint.
#[derive(Debug)]
pub struct TaskDependencyReadinessErrorResponse {
    pub error: bool,
    pub message: String,
}

/// Fixed, client-safe failures of the project task-dependency readiness endpoint.
#[derive(Debug, Clone, Copy, PartialEq, Eq, Structural)]
pub enum ProjectTaskDependencyReadinessError {
    BadRequest,
    Unauthorized,
    Forbidden,
    NotFound,
    Internal,
}

/// Redacted error envelope of the task dependency relations endpoint.
#[derive(Debug)]
pub struct TaskDependencyRelationsErrorResponse {
    pub error: bool,
    pub message: String,
}

/// Fixed, client-safe failures of the task dependency relations endpoint.
#[derive(Debug, Clone, Copy, PartialEq, Eq, Structural)]
pub enum TaskDependencyRelationsError {
    BadRequest,
    Unauthorized,
    Forbidden,
    NotFound,
    Internal,
}

/// Redacted error envelope of the task subtask progress endpoint.
#[derive(Debug)]
pub struct TaskSubtaskProgressErrorResponse {
    pub error: bool,
    pub message: String,
}

/// Fixed, client-safe failures of the task subtask progress endpoint.
#[derive(Debug, Clone, Copy, PartialEq, Eq, Structural)]
pub enum TaskSubtaskProgressError {
    BadRequest,
    Unauthorized,
    Forbidden,
    NotFound,
    Internal,
}

/// The failure class of a readiness endpoint error.
pub open spec fn readiness_failure(e: ProjectTaskDependencyReadinessError) -> BatchReadFailure {
    match e {
        ProjectTaskDependencyReadinessError::BadRequest => BatchReadFailure::BadRequest,
        ProjectTaskDependencyReadinessError::Unauthorized => BatchReadFailure::Unauthorized,
        ProjectTaskDependencyReadinessError::Forbidden => BatchReadFailure::Forbidden,
        ProjectTaskDependencyReadinessError::NotFound => BatchReadFailure::NotFound,
        ProjectTaskDependencyReadinessError::Internal => BatchReadFailure::Internal,
    }
}

/// The failure class of a relations endpoint error.
pub open spec fn relations_failure(e: TaskDependencyRelationsError) -> BatchReadFailure {
    match e {
        TaskDependencyRelationsError::BadRequest => BatchReadFailure::BadRequest,
        TaskDependencyRelationsError::Unauthorized => BatchReadFailure::Unauthorized,
        TaskDependencyRelationsError::Forbidden => BatchReadFailure::Forbidden,
        TaskDependencyRelationsError::NotFound => BatchReadFailure::NotFound,
        TaskDependencyRelationsError::Internal => BatchReadFailure::Internal,
    }
}

/// The failure class of a progress endpoint error.
pub open spec fn progress_failure(e: TaskSubtaskProgressError) -> BatchReadFailure {
    match e {
        TaskSubtaskProgressError::BadRequest => BatchReadFailure::BadRequest,
        TaskSubtaskProgressError::Unauthorized => BatchReadFailure::Unauthorized,
        TaskSubtaskProgressError::Forbidden => BatchReadFailure::Forbidden,
        TaskSubtaskProgressError::NotFound => BatchReadFailure::NotFound,
        TaskSubtaskProgressError::Internal => BatchReadFailure::Internal,
    }
}

fn readiness_of_failure(failure: BatchReadFailure) -> (e: ProjectTaskDependencyReadinessError)
    ensures
        readiness_failure(e) == failure,
{
    match failure {
        BatchReadFailure::BadRequest => ProjectTaskDependencyReadinessError::BadRequest,
        BatchReadFailure::Unauthorized => ProjectTaskDependencyReadinessError::Unauthorized,
        BatchReadFailure::Forbidden => ProjectTaskDependencyReadinessError::Forbidden,
        BatchReadFailure::NotFound => ProjectTaskDependencyReadinessError::NotFound,
        BatchReadFailure::Internal => ProjectTaskDependencyReadinessError::Internal,
    }
}

fn relations_of_failure(failure: BatchReadFailure) -> (e: TaskDependencyRelationsError)
    ensures
        relations_failure(e) == failure,
{
    match failure {
        BatchReadFailure::BadRequest => TaskDependencyRelationsError::BadRequest,
        BatchReadFailure::Unauthorized => TaskDependencyRelationsError::Unauthorized,
        BatchReadFailure::Forbidden => TaskDependencyRelationsError::Forbidden,
        BatchReadFailure::NotFound => TaskDependencyRelationsError::NotFound,
        BatchReadFailure::Internal => TaskDependencyRelationsError::Internal,
    }
}

fn progress_of_failure(failure: BatchReadFailure) -> (e: TaskSubtaskProgressError)
    ensures
        progress_failure(e) == failure,
{
    match failure {
        BatchReadFailure::BadRequest => TaskSubtaskProgressError::BadRequest,
        BatchReadFailure::Unauthorized => TaskSubtaskProgressError::Unauthorized,
        BatchReadFailure::Forbidden => TaskSubtaskProgressError::Forbidden,
        BatchReadFailure::NotFound => TaskSubtaskProgressError::NotFound,
        BatchReadFailure::Internal => TaskSubtaskProgressError::Internal,
    }
}

impl ProjectTaskDependencyReadinessError {
    /// The error for a rejected authorization with this HTTP status.
    pub fn authorization(status: u16) -> (e: Self)
        ensures
            readiness_failure(e) == failure_of_status(status),
    {
        readiness_of_failure(classify_status(status))
    }

    /// The error for a failed project or team receipt.
    pub fn from_access(error: AccessError) -> (e: Self)
        ensures
            readiness_failure(e) == failure_of_project_access(error),
    {
        readiness_of_failure(classify_project_access(error))
    }

    /// The error for a failed properties read. Unlike the other endpoints, a
    /// dependency cycle or a repository failure is internal, never leaked.
    pub fn from_properties(error: PropertiesErr) -> (e: Self)
        ensures
            readiness_failure(e) == failure_of_properties(error),
    {
        readiness_of_failure(classify_properties(error))
    }

    /// Display text of the error.
    pub fn message(self) -> (text: String)
        ensures
            text@ == failure_message(readiness_failure(self)),
    {
        render_failure(readiness_failure_exec(self)).body.message
    }

    /// The HTTP reply: status and redacted body.
    pub fn into_response(self) -> (reply: (u16, TaskDependencyReadinessErrorResponse))
        ensures
            reply.0 == failure_status(readiness_failure(self)),
            reply.1.error,
            reply.1.message@ == failure_message(readiness_failure(self)),
    {
        let rendered = render_failure(readiness_failure_exec(self));
        (
            rendered.status,
            TaskDependencyReadinessErrorResponse {
                error: rendered.body.error,
                message: rendered.body.message,
            },
        )
    }
}

fn readiness_failure_exec(e: ProjectTaskDependencyReadinessError) -> (failure: BatchReadFailure)
    ensures
        failure == readiness_failure(e),
{
    match e {
        ProjectTaskDependencyReadinessError::BadRequest => BatchReadFailure::BadRequest,
        ProjectTaskDependencyReadinessError::Unauthorized => BatchReadFailure::Unauthorized,
        ProjectTaskDependencyReadinessError::Forbidden => BatchReadFailure::Forbidden,
        ProjectTaskDependencyReadinessError::NotFound => BatchReadFailure::NotFound,
        ProjectTaskDependencyReadinessError::Internal => BatchReadFailure::Internal,
    }
}

fn relations_failure_exec(e: TaskDependencyRelationsError) -> (failure: BatchReadFailure)
    ensures
        failure == relations_failure(e),
{
    match e {
        TaskDependencyRelationsError::BadRequest => BatchReadFailure::BadRequest,
        TaskDependencyRelationsError::Unauthorized => BatchReadFailure::Unauthorized,
        TaskDependencyRelationsError::Forbidden => BatchReadFailure::Forbidden,
        TaskDependencyRelationsError::NotFound => BatchReadFailure::NotFound,
        TaskDependencyRelationsError::Internal => BatchReadFailure::Internal,
    }
}

fn progress_failure_exec(e: TaskSubtaskProgressError) -> (failure: BatchReadFailure)
    ensures
        failure == progress_failure(e),
{
    match e {
        TaskSubtaskProgressError::BadRequest => BatchReadFailure::BadRequest,
        TaskSubtaskProgressError::Unauthorized => BatchReadFailure::Unauthorized,
        TaskSubtaskProgressError::Forbidden => BatchReadFailure::Forbidden,
        TaskSubtaskProgressError::NotFound => BatchReadFailure::NotFound,
        TaskSubtaskProgressError::Internal => BatchReadFailure::Internal,
    }
}

impl TaskDependencyRelationsError {
    /// The error for a rejected authorization with this HTTP status.
    pub fn authorization(status: u16) -> (e: Self)
        ensures
            relations_failure(e) == failure_of_status(status),
    {
        relations_of_failure(classify_status(status))
    }

    /// The error for a failed source receipt.
    pub fn access(error: AccessError) -> (e: Self)
        ensures
            relations_failure(e) == failure_of_source_access(error),
    {
        relations_of_failure(classify_source_access(error))
    }

    /// The error for a failed properties read.
    pub fn properties(error: PropertiesErr) -> (e: Self)
        ensures
            relations_failure(e) == failure_of_properties(error),
    {
        relations_of_failure(classify_properties(error))
    }

    /// Display text of the error.
    pub fn message(self) -> (text: String)
        ensures
            text@ == failure_message(relations_failure(self)),
    {
        render_failure(relations_failure_exec(self)).body.message
    }

    /// The HTTP reply: status and redacted body.
    pub fn into_response(self) -> (reply: (u16, TaskDependencyRelationsErrorResponse))
        ensures
            reply.0 == failure_status(relations_failure(self)),
            reply.1.error,
            reply.1.message@ == failure_message(relations_failure(self)),
    {
        let rendered = render_failure(relations_failure_exec(self));
        (
            rendered.status,
            TaskDependencyRelationsErrorResponse {
                error: rendered.body.error,
                message: rendered.body.message,
            },
        )
    }
}

impl TaskSubtaskProgressError {
    /// The error for a rejected authorization with this HTTP status.
    pub fn authorization(status: u16) -> (e: Self)
        ensures
            progress_failure(e) == failure_of_status(status),
    {
        progress_of_failure(classify_status(status))
    }

    /// The error for a failed source receipt.
    pub fn access(error: AccessError) -> (e: Self)
        ensures
            progress_failure(e) == failure_of_source_access(error),
    {
        progress_of_failure(classify_source_access(error))
    }

    /// The error for a failed properties read.
    pub fn properties(error: PropertiesErr) -> (e: Self)
        ensures
            progress_failure(e) == failure_of_properties(error),
    {
        progress_of_failure(classify_properties(error))
    }

    /// Display text of the error.
    pub fn message(self) -> (text: String)
        ensures
            text@ == failure_message(progress_failure(self)),
    {
        render_failure(progress_failure_exec(self)).body.message
    }

    /// The HTTP reply: status and redacted body.
    pub fn into_response(self) -> (reply: (u16, TaskSubtaskProgressErrorResponse))
        ensures
            reply.0 == failure_status(progress_failure(self)),
            reply.1.error,
            reply.1.message@ == failure_message(progress_failure(self)),
    {
        let rendered = render_failure(progress_failure_exec(self));
        (
            rendered.status,
            TaskSubtaskProgressErrorResponse {
                error: rendered.body.error,
                message: rendered.body.message,
            },
        )
    }
}

/// Every error reply of the batch endpoints is redacted: its body is one of
/// the five fixed messages and carries nothing of the underlying failure, and
/// its status is the one of that message.
pub proof fn lemma_replies_are_redacted(failure: BatchReadFailure)
    ensures
        failure_message(failure) == "invalid request"@ || failure_message(failure)
            == "unauthorized"@ || failure_message(failure) == "forbidden"@ || failure_message(
            failure,
        ) == "not found"@ || failure_message(failure) == "internal server error"@,
        failure_status(failure) == STATUS_INTERNAL_SERVER_ERROR <==> failure
            == BatchReadFailure::Internal,
{
}

} // verus!
