//! The error model: error kinds and their retry policy, the layered error
//! report that travels between components, and the `AppError` builder that
//! turns into such a report.

use vstd::prelude::*;
use vstd::string::*;
use crate::text::{join, joined, views};

verus! {

/// Whether an error should be retried.
#[derive(Debug, Clone, Copy, PartialEq, Eq, Structural)]
pub enum ErrorStatus {
    Permanent,
    Temporary,
    Persistent,
}

/// What went wrong.
#[derive(Debug, Clone, Copy, PartialEq, Eq, Structural)]
pub enum ErrorKind {
    // Transient errors (should retry)
    NetworkTimeout,
    DatabaseUnavailable,
    TemporaryOverload,
    // Permanent errors (should not retry)
    InvalidTaskFormat,
    InvalidInput,
    AccountAlreadyExists,
    InsufficientBalance,
    InvalidOperation,
    ProtobufDecode,
    TigerBeetle,
    RabbitMQ,
}

impl ErrorKind {
    pub open spec fn spec_is_retryable(self) -> bool {
        ||| self is NetworkTimeout
        ||| self is DatabaseUnavailable
        ||| self is TemporaryOverload
    }

    pub open spec fn spec_retry_delay_ms(self) -> u64 {
        match self {
            ErrorKind::NetworkTimeout => 100,
            ErrorKind::DatabaseUnavailable => 1000,
            ErrorKind::TemporaryOverload => 500,
            _ => 0,
        }
    }

    /// The status an error of this kind starts with.
    pub open spec fn spec_status(self) -> ErrorStatus {
        if self.spec_is_retryable() {
            ErrorStatus::Temporary
        } else {
            ErrorStatus::Permanent
        }
    }

    /// The name of the kind, as its variant is written.
    pub open spec fn spec_name(self) -> Seq<char> {
        match self {
            ErrorKind::NetworkTimeout => "NetworkTimeout"@,
            ErrorKind::DatabaseUnavailable => "DatabaseUnavailable"@,
            ErrorKind::TemporaryOverload => "TemporaryOverload"@,
            ErrorKind::InvalidTaskFormat => "InvalidTaskFormat"@,
            ErrorKind::InvalidInput => "InvalidInput"@,
            ErrorKind::AccountAlreadyExists => "AccountAlreadyExists"@,
            ErrorKind::InsufficientBalance => "InsufficientBalance"@,
            ErrorKind::InvalidOperation => "InvalidOperation"@,
            ErrorKind::ProtobufDecode => "ProtobufDecode"@,
            ErrorKind::TigerBeetle => "TigerBeetle"@,
            ErrorKind::RabbitMQ => "RabbitMQ"@,
        }
    }

    pub fn is_retryable(&self) -> (r: bool)
        ensures
            r == self.spec_is_retryable(),
    {
        match self {
            ErrorKind::NetworkTimeout | ErrorKind::DatabaseUnavailable
            | ErrorKind::TemporaryOverload => true,
            _ => false,
        }
    }

    pub fn retry_delay_ms(&self) -> (r: u64)
        ensures
            r == self.spec_retry_delay_ms(),
    {
        match self {
            ErrorKind::NetworkTimeout => 100,
            ErrorKind::DatabaseUnavailable => 1000,
            ErrorKind::TemporaryOverload => 500,
            _ => 0,
        }
    }

    fn map_status(self) -> (r: ErrorStatus)
        ensures
            r == self.spec_status(),
    {
        match self {
            ErrorKind::TemporaryOverload | ErrorKind::DatabaseUnavailable
            | ErrorKind::NetworkTimeout => ErrorStatus::Temporary,
            _ => ErrorStatus::Permanent,
        }
    }

    pub fn name(&self) -> (r: &'static str)
        ensures
            r@ == self.spec_name(),
    {
        match self {
            ErrorKind::NetworkTimeout => "NetworkTimeout",
            ErrorKind::DatabaseUnavailable => "DatabaseUnavailable",
            ErrorKind::TemporaryOverload => "TemporaryOverload",
            ErrorKind::InvalidTaskFormat => "InvalidTaskFormat",
            ErrorKind::InvalidInput => "InvalidInput",
            ErrorKind::AccountAlreadyExists => "AccountAlreadyExists",
            ErrorKind::InsufficientBalance => "InsufficientBalance",
            ErrorKind::InvalidOperation => "InvalidOperation",
            ErrorKind::ProtobufDecode => "ProtobufDecode",
            ErrorKind::TigerBeetle => "TigerBeetle",
            ErrorKind::RabbitMQ => "RabbitMQ",
        }
    }

    /// The kind as it is displayed: its variant name.
    pub fn to_display_string(&self) -> (r: String)
        ensures
            r@ == self.spec_name(),
    {
        String::from_str(self.name())
    }
}

/// The marker that tags an error report with its kind.
pub open spec fn kind_tag(kind: ErrorKind) -> Seq<char> {
    "ErrorKind::"@ + kind.spec_name()
}

/// The marker that tags an error report with its kind.
pub fn kind_tag_string(kind: ErrorKind) -> (r: String)
    ensures
        r@ == kind_tag(kind),
{
    String::from_str("ErrorKind::").concat(kind.name())
}

/// The content of an error report: a root message and the context layers
/// wrapped around it, innermost first.
pub struct ReportModel {
    pub root: Seq<char>,
    pub layers: Seq<Seq<char>>,
}

impl ReportModel {
    /// What the report shows when displayed: its outermost layer.
    pub open spec fn outermost(self) -> Seq<char> {
        if self.layers.len() == 0 {
            self.root
        } else {
            self.layers.last()
        }
    }

    pub open spec fn wrap(self, layer: Seq<char>) -> ReportModel {
        ReportModel { root: self.root, layers: self.layers.push(layer) }
    }
}

/// A report of type `ReportModel` made of a message and one layer.
pub open spec fn message_with_layer(message: Seq<char>, layer: Seq<char>) -> ReportModel {
    ReportModel { root: message, layers: seq![layer] }
}

/// An error report: a root message with context layers wrapped around it,
/// innermost first.
#[derive(Debug)]
pub struct ErrorReport {
    pub message: String,
    pub context: Vec<String>,
}

impl View for ErrorReport {
    type V = ReportModel;

    open spec fn view(&self) -> ReportModel {
        ReportModel { root: self.message@, layers: views(self.context@) }
    }
}

impl ErrorReport {
    /// A report with the message alone.
    pub fn new(message: &str) -> (r: ErrorReport)
        ensures
            r@ == (ReportModel { root: message@, layers: Seq::empty() }),
    {
        let r = ErrorReport { message: String::from_str(message), context: Vec::new() };
        assert(r@.layers =~= Seq::<Seq<char>>::empty());
        r
    }

    /// Wraps the report in one more layer of context.
    pub fn context(self, layer: &str) -> (r: ErrorReport)
        ensures
            r@ == self@.wrap(layer@),
    {
        let mut r = self;
        r.context.push(String::from_str(layer));
        assert(r@.layers =~= self@.layers.push(layer@));
        r
    }

    /// What the report shows when displayed: its outermost layer.
    pub fn to_display_string(&self) -> (r: String)
        ensures
            r@ == self@.outermost(),
    {
        let n = self.context.len();
        if n == 0 {
            String::from_str(self.message.as_str())
        } else {
            String::from_str(self.context[n - 1].as_str())
        }
    }
}

/// Tagging an error with its kind.
pub trait ErrorKindExt: Sized {
    fn with_kind(self, kind: ErrorKind) -> Self;
}

impl ErrorKindExt for ErrorReport {
    /// Wraps the report in the tag of `kind`.
    fn with_kind(self, kind: ErrorKind) -> (r: ErrorReport)
        ensures
            r@ == self@.wrap(kind_tag(kind)),
    {
        let tag = kind_tag_string(kind);
        self.context(tag.as_str())
    }
}

/// The content of an `AppError`.
pub struct AppErrorModel {
    pub kind: ErrorKind,
    pub status: ErrorStatus,
    pub operation: Seq<char>,
    pub message: Seq<char>,
    pub context: Seq<(Seq<char>, Seq<char>)>,
    pub source: Option<ReportModel>,
}

/// A context entry as one report layer: `key=value`.
pub open spec fn context_layer(entry: (Seq<char>, Seq<char>)) -> Seq<char> {
    entry.0 + "="@ + entry.1
}

pub open spec fn context_layers(context: Seq<(Seq<char>, Seq<char>)>) -> Seq<Seq<char>> {
    context.map_values(|e: (Seq<char>, Seq<char>)| context_layer(e))
}

pub open spec fn context_views(context: Seq<(&'static str, String)>) -> Seq<(Seq<char>, Seq<char>)> {
    context.map_values(|p: (&'static str, String)| (p.0@, p.1@))
}

impl AppErrorModel {
    pub open spec fn is_retryable(self) -> bool {
        self.status == ErrorStatus::Temporary
    }

    /// The report an error turns into: the message (wrapped around the
    /// source, if any), then each context entry, the operation and the kind.
    pub open spec fn report(self) -> ReportModel {
        let base = match self.source {
            Some(s) => s.wrap(self.message),
            None => ReportModel { root: self.message, layers: Seq::empty() },
        };
        ReportModel {
            root: base.root,
            layers: base.layers + context_layers(self.context) + seq![
                "operation="@ + self.operation,
                kind_tag(self.kind),
            ],
        }
    }

    /// How the error is displayed.
    pub open spec fn display(self) -> Seq<char> {
        "["@ + self.operation + "] "@ + self.kind.spec_name() + ": "@ + self.message + (
        if self.context.len() == 0 {
            Seq::empty()
        } else {
            " ("@ + joined(context_layers(self.context), ", "@) + ")"@
        }) + (match self.source {
            Some(s) => " | caused by: "@ + s.outermost(),
            None => Seq::empty(),
        })
    }
}

/// An error under construction: kind, status, operation, message, context
/// entries and an optional source report.
#[derive(Debug)]
pub struct AppError {
    kind: ErrorKind,
    message: String,
    status: ErrorStatus,
    operation: &'static str,
    context: Vec<(&'static str, String)>,
    source: Option<ErrorReport>,
}

impl View for AppError {
    type V = AppErrorModel;

    closed spec fn view(&self) -> AppErrorModel {
        AppErrorModel {
            kind: self.kind,
            status: self.status,
            operation: self.operation@,
            message: self.message@,
            context: context_views(self.context@),
            source: match self.source {
                Some(s) => Some(s@),
                None => None,
            },
        }
    }
}

impl AppError {
    pub fn new(kind: ErrorKind, operation: &'static str) -> (r: AppError)
        ensures
            r@ == (AppErrorModel {
                kind,
                status: kind.spec_status(),
                operation: operation@,
                message: Seq::empty(),
                context: Seq::empty(),
                source: None,
            }),
    {
        let r = AppError {
            kind,
            message: String::new(),
            status: kind.map_status(),
            operation,
            context: Vec::new(),
            source: None,
        };
        assert(r@.context =~= Seq::<(Seq<char>, Seq<char>)>::empty());
        r
    }

    pub fn with_message(kind: ErrorKind, operation: &'static str, msg: &str) -> (r: AppError)
        ensures
            r@ == (AppErrorModel {
                kind,
                status: kind.spec_status(),
                operation: operation@,
                message: msg@,
                context: Seq::empty(),
                source: None,
            }),
    {
        let r = AppError {
            kind,
            message: String::from_str(msg),
            status: kind.map_status(),
            operation,
            context: Vec::new(),
            source: None,
        };
        assert(r@.context =~= Seq::<(Seq<char>, Seq<char>)>::empty());
        r
    }

    pub fn operation(self, operation: &'static str) -> (r: AppError)
        ensures
            r@ == (AppErrorModel { operation: operation@, ..self@ }),
    {
        let mut r = self;
        r.operation = operation;
        r
    }

    /// Replaces the kind; the status follows the new kind.
    pub fn kind(self, kind: ErrorKind) -> (r: AppError)
        ensures
            r@ == (AppErrorModel { kind, status: kind.spec_status(), ..self@ }),
    {
        let mut r = self;
        r.kind = kind;
        r.status = kind.map_status();
        r
    }

    /// Adds one context entry after the others.
    pub fn context(self, key: &'static str, value: &str) -> (r: AppError)
        ensures
            r@ == (AppErrorModel { context: self@.context.push((key@, value@)), ..self@ }),
    {
        let mut r = self;
        r.context.push((key, String::from_str(value)));
        assert(r@.context =~= self@.context.push((key@, value@)));
        r
    }

    /// Adds the given context entries after the others, in order.
    pub fn with_context(self, context: Vec<(&'static str, String)>) -> (r: AppError)
        ensures
            r@ == (AppErrorModel {
                context: self@.context + context_views(context@),
                ..self@
            }),
    {
        let mut r = self;
        let mut more = context;
        r.context.append(&mut more);
        assert(r@.context =~= self@.context + context_views(context@));
        r
    }

    pub fn message(self, msg: &str) -> (r: AppError)
        ensures
            r@ == (AppErrorModel { message: msg@, ..self@ }),
    {
        let mut r = self;
        r.message = String::from_str(msg);
        r
    }

    /// Replaces the status, whatever the kind.
    pub fn status(self, status: ErrorStatus) -> (r: AppError)
        ensures
            r@ == (AppErrorModel { status, ..self@ }),
    {
        let mut r = self;
        r.status = status;
        r
    }

    pub fn source(self, source: ErrorReport) -> (r: AppError)
        ensures
            r@ == (AppErrorModel { source: Some(source@), ..self@ }),
    {
        let mut r = self;
        r.source = Some(source);
        r
    }

    pub fn get_kind(&self) -> (r: ErrorKind)
        ensures
            r == self@.kind,
    {
        self.kind
    }

    pub fn get_status(&self) -> (r: ErrorStatus)
        ensures
            r == self@.status,
    {
        self.status
    }

    pub fn get_operation(&self) -> (r: &'static str)
        ensures
            r@ == self@.operation,
    {
        self.operation
    }

    pub fn get_message(&self) -> (r: &str)
        ensures
            r@ == self@.message,
    {
        self.message.as_str()
    }

    pub fn get_context(&self) -> (r: &[(&'static str, String)])
        ensures
            context_views(r@) == self@.context,
    {
        self.context.as_slice()
    }

    pub fn is_retryable(&self) -> (r: bool)
        ensures
            r == self@.is_retryable(),
    {
        match self.status {
            ErrorStatus::Temporary => true,
            _ => false,
        }
    }

    pub fn retry_delay_ms(&self) -> (r: u64)
        ensures
            r == self@.kind.spec_retry_delay_ms(),
    {
        self.kind.retry_delay_ms()
    }

    /// Turns the error into a report: the message (wrapped around the source,
    /// if any), then each context entry as `key=value`, then
    /// `operation=<operation>`, then the kind's tag as the outermost layer.
    pub fn into_anyhow(self) -> (r: ErrorReport)
        ensures
            r@ == self@.report(),
    {
        let ghost model = self@;
        let AppError { kind, message, status: _, operation, context, source } = self;
        let mut report = match source {
            Some(s) => s.context(message.as_str()),
            None => ErrorReport::new(message.as_str()),
        };
        let ghost base = report@;
        let mut i: usize = 0;
        while i < context.len()
            invariant
                i <= context@.len(),
                model.context == context_views(context@),
                report@.root == base.root,
                report@.layers == base.layers + context_layers(model.context).take(i as int),
            decreases context@.len() - i,
        {
            let mut layer = String::from_str(context[i].0);
            layer.append("=");
            layer.append(context[i].1.as_str());
            let ghost before = report@;
            report = report.context(layer.as_str());
            assert(context_layers(model.context).take(i + 1) =~= context_layers(
                model.context,
            ).take(i as int).push(layer@));
            i = i + 1;
        }
        assert(context_layers(model.context).take(context@.len() as int) =~= context_layers(
            model.context,
        ));
        let mut op_layer = String::from_str("operation=");
        op_layer.append(operation);
        report = report.context(op_layer.as_str());
        report = report.with_kind(kind);
        assert(report@.layers =~= model.report().layers);
        report
    }

    /// How the error is displayed:
    /// `[operation] Kind: message (k1=v1, k2=v2) | caused by: source`.
    pub fn to_display_string(&self) -> (r: String)
        ensures
            r@ == self@.display(),
    {
        let mut out = String::from_str("[");
        out.append(self.operation);
        out.append("] ");
        out.append(self.kind.name());
        out.append(": ");
        out.append(self.message.as_str());
        let ghost head = out@;
        if self.context.len() > 0 {
            let mut parts: Vec<String> = Vec::new();
            let mut i: usize = 0;
            while i < self.context.len()
                invariant
                    i <= self.context@.len(),
                    views(parts@) == context_layers(context_views(self.context@)).take(i as int),
                decreases self.context@.len() - i,
            {
                let mut layer = String::from_str(self.context[i].0);
                layer.append("=");
                layer.append(self.context[i].1.as_str());
                let ghost before = parts@;
                parts.push(layer);
                assert(views(parts@) =~= views(before).push(layer@));
                assert(context_layers(context_views(self.context@)).take(i + 1) =~= context_layers(
                    context_views(self.context@),
                ).take(i as int).push(layer@));
                i = i + 1;
            }
            assert(context_layers(context_views(self.context@)).take(
                self.context@.len() as int,
            ) =~= context_layers(context_views(self.context@)));
            let joined_parts = join(&parts, ", ");
            out.append(" (");
            out.append(joined_parts.as_str());
            out.append(")");
        }
        let ghost mid = out@;
        match &self.source {
            Some(s) => {
                let shown = s.to_display_string();
                out.append(" | caused by: ");
                out.append(shown.as_str());
            },
            None => {},
        }
        assert(out@ =~= self@.display());
        out
    }
}

/// The report of an `AppError` with a message and no context or source.
pub open spec fn plain_report(kind: ErrorKind, operation: Seq<char>, message: Seq<char>) -> ReportModel {
    ReportModel { root: message, layers: seq!["operation="@ + operation, kind_tag(kind)] }
}

/// The report of an `AppError` with a message and one context entry.
pub open spec fn report_with_entry(
    kind: ErrorKind,
    operation: Seq<char>,
    message: Seq<char>,
    key: Seq<char>,
    value: Seq<char>,
) -> ReportModel {
    ReportModel {
        root: message,
        layers: seq![key + "="@ + value, "operation="@ + operation, kind_tag(kind)],
    }
}

/// The report of an `AppError` with a message and no context or source.
pub fn reported(kind: ErrorKind, operation: &'static str, message: &str) -> (r: ErrorReport)
    ensures
        r@ == plain_report(kind, operation@, message@),
{
    let r = AppError::with_message(kind, operation, message).into_anyhow();
    assert(r@.layers =~= plain_report(kind, operation@, message@).layers);
    r
}

/// The report of an `AppError` with a message and one context entry.
pub fn reported_with_entry(
    kind: ErrorKind,
    operation: &'static str,
    message: &str,
    key: &'static str,
    value: &str,
) -> (r: ErrorReport)
    ensures
        r@ == report_with_entry(kind, operation@, message@, key@, value@),
{
    let e = AppError::with_message(kind, operation, message).context(key, value);
    assert(e@.context =~= seq![(key@, value@)]);
    let r = e.into_anyhow();
    assert(r@.layers =~= report_with_entry(kind, operation@, message@, key@, value@).layers);
    r
}

} // verus!
