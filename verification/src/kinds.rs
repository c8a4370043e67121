//! Finding the kind of an error report, and building kind-tagged reports.
//!
//! The kind of a report is read from the `Debug` rendering of each error in
//! the cause chain of the `anyhow::Error` that the report stands for: the
//! first cause, outermost first, that mentions a kind tag decides.

use vstd::prelude::*;
use vstd::string::*;
use crate::error::{kind_tag, kind_tag_string, message_with_layer, ErrorKind, ErrorReport, ReportModel};
use crate::text::{contains_seq, decimal, push_decimal, str_contains, views};

verus! {

/// The texts of a report that show the tag of `kind`: the root message or a
/// layer in which the tag occurs.
pub open spec fn shows_tag(m: ReportModel, kind: ErrorKind) -> bool {
    ||| contains_seq(m.root, kind_tag(kind))
    ||| exists|i: int| 0 <= i < m.layers.len() && contains_seq(#[trigger] m.layers[i], kind_tag(kind))
}

/// The report built as an `anyhow::Error` (`anyhow::Error::msg` on the
/// message, then `anyhow::Error::context` with each layer, innermost first),
/// and each error of its `anyhow::Error::chain` rendered with `{:?}`.
///
/// Stated, from anyhow's source: there is one cause per layer and one for the
/// message. The first cause's rendering writes the outermost layer escaped
/// char by char (`Debug` of `ContextError`), then the `Display` of every inner
/// layer and of the message, cut at line breaks only; or, with no layers, the
/// message escaped char by char. A kind tag, made of letters and `:` only,
/// comes through each of these unchanged, so a tag in any text of the report
/// occurs in the first cause. Left unsaid: the rest of the renderings, which
/// end with a backtrace when the environment asks for one.
#[verifier::external_body]
fn rendered_causes(report: &ErrorReport) -> (r: Vec<String>)
    ensures
        r@.len() == report@.layers.len() + 1,
        forall|k: ErrorKind| #[trigger] shows_tag(report@, k) ==> contains_seq(r@[0]@, kind_tag(k)),
{
    let error = report.context.iter().fold(
        anyhow::Error::msg(report.message.clone()),
        |error, layer| error.context(layer.clone()),
    );
    error.chain().map(|cause| format!("{cause:?}")).collect()
}

/// The first kind, in a fixed order of precedence, whose tag occurs in `s`.
pub open spec fn kind_found_in(s: Seq<char>) -> Option<ErrorKind> {
    if contains_seq(s, kind_tag(ErrorKind::NetworkTimeout)) {
        Some(ErrorKind::NetworkTimeout)
    } else if contains_seq(s, kind_tag(ErrorKind::DatabaseUnavailable)) {
        Some(ErrorKind::DatabaseUnavailable)
    } else if contains_seq(s, kind_tag(ErrorKind::TemporaryOverload)) {
        Some(ErrorKind::TemporaryOverload)
    } else if contains_seq(s, kind_tag(ErrorKind::InvalidTaskFormat)) {
        Some(ErrorKind::InvalidTaskFormat)
    } else if contains_seq(s, kind_tag(ErrorKind::AccountAlreadyExists)) {
        Some(ErrorKind::AccountAlreadyExists)
    } else if contains_seq(s, kind_tag(ErrorKind::InsufficientBalance)) {
        Some(ErrorKind::InsufficientBalance)
    } else if contains_seq(s, kind_tag(ErrorKind::InvalidOperation)) {
        Some(ErrorKind::InvalidOperation)
    } else if contains_seq(s, kind_tag(ErrorKind::ProtobufDecode)) {
        Some(ErrorKind::ProtobufDecode)
    } else if contains_seq(s, kind_tag(ErrorKind::TigerBeetle)) {
        Some(ErrorKind::TigerBeetle)
    } else if contains_seq(s, kind_tag(ErrorKind::RabbitMQ)) {
        Some(ErrorKind::RabbitMQ)
    } else if contains_seq(s, kind_tag(ErrorKind::InvalidInput)) {
        Some(ErrorKind::InvalidInput)
    } else {
        None
    }
}

/// The kind found in the first cause, outermost first, that mentions one.
pub open spec fn kind_in_chain(chain: Seq<Seq<char>>) -> Option<ErrorKind>
    decreases chain.len(),
{
    if chain.len() == 0 {
        None
    } else {
        match kind_found_in(chain[0]) {
            Some(k) => Some(k),
            None => kind_in_chain(chain.drop_first()),
        }
    }
}

fn mentions(s: &str, kind: ErrorKind) -> (r: bool)
    ensures
        r == contains_seq(s@, kind_tag(kind)),
{
    let tag = kind_tag_string(kind);
    str_contains(s, tag.as_str())
}

/// The first kind, in a fixed order of precedence, whose tag occurs in `s`.
pub fn kind_found_in_text(s: &str) -> (r: Option<ErrorKind>)
    ensures
        r == kind_found_in(s@),
{
    if mentions(s, ErrorKind::NetworkTimeout) {
        Some(ErrorKind::NetworkTimeout)
    } else if mentions(s, ErrorKind::DatabaseUnavailable) {
        Some(ErrorKind::DatabaseUnavailable)
    } else if mentions(s, ErrorKind::TemporaryOverload) {
        Some(ErrorKind::TemporaryOverload)
    } else if mentions(s, ErrorKind::InvalidTaskFormat) {
        Some(ErrorKind::InvalidTaskFormat)
    } else if mentions(s, ErrorKind::AccountAlreadyExists) {
        Some(ErrorKind::AccountAlreadyExists)
    } else if mentions(s, ErrorKind::InsufficientBalance) {
        Some(ErrorKind::InsufficientBalance)
    } else if mentions(s, ErrorKind::InvalidOperation) {
        Some(ErrorKind::InvalidOperation)
    } else if mentions(s, ErrorKind::ProtobufDecode) {
        Some(ErrorKind::ProtobufDecode)
    } else if mentions(s, ErrorKind::TigerBeetle) {
        Some(ErrorKind::TigerBeetle)
    } else if mentions(s, ErrorKind::RabbitMQ) {
        Some(ErrorKind::RabbitMQ)
    } else if mentions(s, ErrorKind::InvalidInput) {
        Some(ErrorKind::InvalidInput)
    } else {
        None
    }
}

/// The kind found in the first of the rendered causes, outermost first, that
/// mentions one.
pub fn error_kind_in_chain(causes: &Vec<String>) -> (r: Option<ErrorKind>)
    ensures
        r == kind_in_chain(views(causes@)),
{
    let mut i: usize = 0;
    assert(views(causes@).skip(0) =~= views(causes@));
    while i < causes.len()
        invariant
            i <= causes@.len(),
            kind_in_chain(views(causes@)) == kind_in_chain(views(causes@).skip(i as int)),
        decreases causes@.len() - i,
    {
        let found = kind_found_in_text(causes[i].as_str());
        let ghost rest = views(causes@).skip(i as int);
        assert(rest[0] == causes@[i as int]@);
        assert(rest.drop_first() =~= views(causes@).skip(i + 1));
        if found.is_some() {
            return found;
        }
        i = i + 1;
    }
    assert(views(causes@).skip(i as int).len() == 0);
    None
}

/// The place of a kind in the order in which the search tries the tags.
pub open spec fn kind_rank(kind: ErrorKind) -> int {
    match kind {
        ErrorKind::NetworkTimeout => 0,
        ErrorKind::DatabaseUnavailable => 1,
        ErrorKind::TemporaryOverload => 2,
        ErrorKind::InvalidTaskFormat => 3,
        ErrorKind::AccountAlreadyExists => 4,
        ErrorKind::InsufficientBalance => 5,
        ErrorKind::InvalidOperation => 6,
        ErrorKind::ProtobufDecode => 7,
        ErrorKind::TigerBeetle => 8,
        ErrorKind::RabbitMQ => 9,
        ErrorKind::InvalidInput => 10,
    }
}

/// What holds of the kind found for a report, whatever else the renderings
/// of its causes hold: for every kind whose tag the report's texts show, a
/// kind is found, and it is that kind or one tried before it.
pub open spec fn kind_found_fits(m: ReportModel, found: Option<ErrorKind>) -> bool {
    forall|k: ErrorKind|
        #[trigger] shows_tag(m, k) ==> (found matches Some(j) && kind_rank(j) <= kind_rank(k))
}

/// Whether the kind found, if any, is one to retry.
pub open spec fn retryable_of(found: Option<ErrorKind>) -> bool {
    match found {
        Some(k) => k.spec_is_retryable(),
        None => false,
    }
}

/// The retry delay of the kind found; 0 when none is found.
pub open spec fn delay_of(found: Option<ErrorKind>) -> u64 {
    match found {
        Some(k) => k.spec_retry_delay_ms(),
        None => 0,
    }
}

/// A text in which a kind's tag occurs is found to be of that kind or of one
/// tried before it.
proof fn lemma_found_in_text_rank(s: Seq<char>, k: ErrorKind)
    requires
        contains_seq(s, kind_tag(k)),
    ensures
        kind_found_in(s) matches Some(j) && kind_rank(j) <= kind_rank(k),
{
}

/// When every tag the report shows occurs in the first of at least one
/// rendered cause, the kind found in the renderings fits the report.
proof fn lemma_first_cause_decides(m: ReportModel, chain: Seq<Seq<char>>)
    requires
        chain.len() >= 1,
        forall|k: ErrorKind| #[trigger] shows_tag(m, k) ==> contains_seq(chain[0], kind_tag(k)),
    ensures
        kind_found_fits(m, kind_in_chain(chain)),
{
    assert forall|k: ErrorKind| #[trigger] shows_tag(m, k) implies (kind_in_chain(chain) matches Some(j)
        && kind_rank(j) <= kind_rank(k)) by {
        lemma_found_in_text_rank(chain[0], k);
    }
}

/// Whether the kind found in the first of the rendered causes, outermost
/// first, that mentions one is a kind to retry; `false` when none does.
pub fn retryable_in_chain(causes: &Vec<String>) -> (r: bool)
    ensures
        r == retryable_of(kind_in_chain(views(causes@))),
{
    match error_kind_in_chain(causes) {
        Some(kind) => kind.is_retryable(),
        None => false,
    }
}

/// The retry delay of the kind found in the first of the rendered causes,
/// outermost first, that mentions one; 0 when none does.
pub fn retry_delay_in_chain(causes: &Vec<String>) -> (r: u64)
    ensures
        r == delay_of(kind_in_chain(views(causes@))),
{
    match error_kind_in_chain(causes) {
        Some(kind) => kind.retry_delay_ms(),
        None => 0,
    }
}

/// The kind of an error report: the rendered causes of the error it stands
/// for are searched, outermost first, for a kind tag. Every kind whose tag
/// the report's texts show makes a kind found, that kind or one tried before
/// it; other tags in the renderings (a backtrace among them) may come first.
pub fn get_error_kind(error: &ErrorReport) -> (r: Option<ErrorKind>)
    ensures
        kind_found_fits(error@, r),
{
    let causes = rendered_causes(error);
    proof {
        lemma_first_cause_decides(error@, views(causes@));
    }
    error_kind_in_chain(&causes)
}

/// Whether the kind of an error report is one to retry; `false` when no kind
/// is found. A report that shows the tag of a kind to retry is retried: those
/// kinds are the first the search tries.
pub fn is_retryable(error: &ErrorReport) -> (r: bool)
    ensures
        exists|found: Option<ErrorKind>| kind_found_fits(error@, found) && r == retryable_of(found),
        forall|k: ErrorKind| #[trigger] shows_tag(error@, k) && k.spec_is_retryable() ==> r,
{
    let causes = rendered_causes(error);
    proof {
        lemma_first_cause_decides(error@, views(causes@));
        lemma_fitting_kind_retry(error@, kind_in_chain(views(causes@)));
    }
    retryable_in_chain(&causes)
}

/// The retry delay of the kind of an error report; 0 when no kind is found.
pub fn retry_delay_ms(error: &ErrorReport) -> (r: u64)
    ensures
        exists|found: Option<ErrorKind>| kind_found_fits(error@, found) && r == delay_of(found),
        r == 0 || r == 100 || r == 500 || r == 1000,
        forall|k: ErrorKind| #[trigger] shows_tag(error@, k) && k.spec_is_retryable() ==> r > 0,
        shows_tag(error@, ErrorKind::NetworkTimeout) ==> r == 100,
{
    let causes = rendered_causes(error);
    proof {
        lemma_first_cause_decides(error@, views(causes@));
        lemma_fitting_kind_retry(error@, kind_in_chain(views(causes@)));
    }
    retry_delay_in_chain(&causes)
}

/// A kind found that fits a report is retried, with a positive delay, when
/// the report shows the tag of a kind to retry; it is `NetworkTimeout`, with
/// a delay of 100 ms, when the report shows that tag.
pub proof fn lemma_fitting_kind_retry(m: ReportModel, found: Option<ErrorKind>)
    requires
        kind_found_fits(m, found),
    ensures
        forall|k: ErrorKind| #[trigger] shows_tag(m, k) && k.spec_is_retryable() ==> retryable_of(found)
            && delay_of(found) > 0,
        shows_tag(m, ErrorKind::NetworkTimeout) ==> found == Some(ErrorKind::NetworkTimeout)
            && delay_of(found) == 100,
        retryable_of(found) <==> delay_of(found) > 0,
{
    assert forall|k: ErrorKind| #[trigger] shows_tag(m, k) && k.spec_is_retryable() implies retryable_of(found)
        && delay_of(found) > 0 by {
        assert(found matches Some(j) && kind_rank(j) <= kind_rank(k));
    }
    if shows_tag(m, ErrorKind::NetworkTimeout) {
        assert(found matches Some(j) && kind_rank(j) <= 0);
    }
}

/// The report `message`, tagged with `kind`.
fn tagged(message: &str, kind: ErrorKind) -> (r: ErrorReport)
    ensures
        r@ == message_with_layer(message@, kind_tag(kind)),
{
    let tag = kind_tag_string(kind);
    let r = ErrorReport::new(message).context(tag.as_str());
    assert(r@.layers =~= seq![kind_tag(kind)]);
    r
}

pub fn network_timeout(msg: &str) -> (r: ErrorReport)
    ensures
        r@ == message_with_layer(msg@, kind_tag(ErrorKind::NetworkTimeout)),
{
    tagged(msg, ErrorKind::NetworkTimeout)
}

pub fn database_unavailable(msg: &str) -> (r: ErrorReport)
    ensures
        r@ == message_with_layer(msg@, kind_tag(ErrorKind::DatabaseUnavailable)),
{
    tagged(msg, ErrorKind::DatabaseUnavailable)
}

pub fn temporary_overload(msg: &str) -> (r: ErrorReport)
    ensures
        r@ == message_with_layer(msg@, kind_tag(ErrorKind::TemporaryOverload)),
{
    tagged(msg, ErrorKind::TemporaryOverload)
}

pub fn invalid_task_format(msg: &str) -> (r: ErrorReport)
    ensures
        r@ == message_with_layer(msg@, kind_tag(ErrorKind::InvalidTaskFormat)),
{
    tagged(msg, ErrorKind::InvalidTaskFormat)
}

pub fn account_already_exists(account_id: u128) -> (r: ErrorReport)
    ensures
        r@ == message_with_layer(
            "Account already exists: "@ + decimal(account_id as nat),
            kind_tag(ErrorKind::AccountAlreadyExists),
        ),
{
    let mut msg = String::from_str("Account already exists: ");
    push_decimal(&mut msg, account_id);
    tagged(msg.as_str(), ErrorKind::AccountAlreadyExists)
}

pub fn insufficient_balance(account_id: u128) -> (r: ErrorReport)
    ensures
        r@ == message_with_layer(
            "Insufficient balance in account: "@ + decimal(account_id as nat),
            kind_tag(ErrorKind::InsufficientBalance),
        ),
{
    let mut msg = String::from_str("Insufficient balance in account: ");
    push_decimal(&mut msg, account_id);
    tagged(msg.as_str(), ErrorKind::InsufficientBalance)
}

pub fn invalid_operation(msg: &str) -> (r: ErrorReport)
    ensures
        r@ == message_with_layer(msg@, kind_tag(ErrorKind::InvalidOperation)),
{
    tagged(msg, ErrorKind::InvalidOperation)
}

pub fn protobuf_decode(msg: &str) -> (r: ErrorReport)
    ensures
        r@ == message_with_layer(msg@, kind_tag(ErrorKind::ProtobufDecode)),
{
    tagged(msg, ErrorKind::ProtobufDecode)
}

pub fn tigerbeetle_error(msg: &str) -> (r: ErrorReport)
    ensures
        r@ == message_with_layer(msg@, kind_tag(ErrorKind::TigerBeetle)),
{
    tagged(msg, ErrorKind::TigerBeetle)
}

pub fn rabbitmq_error(msg: &str) -> (r: ErrorReport)
    ensures
        r@ == message_with_layer(msg@, kind_tag(ErrorKind::RabbitMQ)),
{
    tagged(msg, ErrorKind::RabbitMQ)
}

pub fn invalid_input(msg: &str) -> (r: ErrorReport)
    ensures
        r@ == message_with_layer(msg@, kind_tag(ErrorKind::InvalidInput)),
{
    tagged(msg, ErrorKind::InvalidInput)
}

} // verus!
