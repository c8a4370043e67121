//! How the message loop reports the failure of each stage of handling a
//! message: decoding it, processing its task, sending the response.

use vstd::prelude::*;
use vstd::string::*;
use crate::error::{AppError, AppErrorModel, ErrorKind, ErrorReport, ReportModel};

verus! {

/// Handles the messages of the request stream, one at a time.
pub struct MessageProcessor {}

/// The report of a stage that failed: the stage's message followed by the
/// failure as displayed, the given context entries, and the failure itself
/// as the source.
pub open spec fn stage_failure(
    kind: ErrorKind,
    message: Seq<char>,
    context: Seq<(Seq<char>, Seq<char>)>,
    cause: ReportModel,
) -> ReportModel {
    (AppErrorModel {
        kind,
        status: kind.spec_status(),
        operation: "process_message"@,
        message: message + cause.outermost(),
        context,
        source: Some(cause),
    }).report()
}

impl MessageProcessor {
    pub fn new() -> (r: MessageProcessor) {
        MessageProcessor {}
    }

    /// The report for a message that could not be decoded.
    pub fn decode_failed(&self, cause: ErrorReport) -> (r: ErrorReport)
        ensures
            r@ == stage_failure(
                ErrorKind::RabbitMQ,
                "Failed to decode message: "@,
                Seq::empty(),
                cause@,
            ),
    {
        let shown = cause.to_display_string();
        let mut msg = String::from_str("Failed to decode message: ");
        msg.append(shown.as_str());
        let e = AppError::new(ErrorKind::RabbitMQ, "process_message").message(msg.as_str()).source(
            cause,
        );
        e.into_anyhow()
    }

    /// The report for a task that could not be processed.
    pub fn processing_failed(&self, cause: ErrorReport, task_id: &str, correlation_id: &str) -> (r:
        ErrorReport)
        ensures
            r@ == stage_failure(
                ErrorKind::InvalidOperation,
                "Failed to process task: "@,
                seq![("task_id"@, task_id@), ("correlation_id"@, correlation_id@)],
                cause@,
            ),
    {
        let shown = cause.to_display_string();
        let mut msg = String::from_str("Failed to process task: ");
        msg.append(shown.as_str());
        let e = AppError::new(ErrorKind::InvalidOperation, "process_message").message(
            msg.as_str(),
        ).context("task_id", task_id).context("correlation_id", correlation_id).source(cause);
        assert(e@.context =~= seq![("task_id"@, task_id@), ("correlation_id"@, correlation_id@)]);
        e.into_anyhow()
    }

    /// The report for a response that could not be sent.
    pub fn send_failed(&self, cause: ErrorReport, task_id: &str, correlation_id: &str) -> (r:
        ErrorReport)
        ensures
            r@ == stage_failure(
                ErrorKind::RabbitMQ,
                "Failed to send response: "@,
                seq![("task_id"@, task_id@), ("correlation_id"@, correlation_id@)],
                cause@,
            ),
    {
        let shown = cause.to_display_string();
        let mut msg = String::from_str("Failed to send response: ");
        msg.append(shown.as_str());
        let e = AppError::new(ErrorKind::RabbitMQ, "process_message").message(msg.as_str()).context(
            "task_id",
            task_id,
        ).context("correlation_id", correlation_id).source(cause);
        assert(e@.context =~= seq![("task_id"@, task_id@), ("correlation_id"@, correlation_id@)]);
        e.into_anyhow()
    }
}

} // verus!
