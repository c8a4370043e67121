//! Reading incoming messages: 128-bit integer halves, content types, the
//! message envelope and the mapping of decoding failures to error reports.

use vstd::prelude::*;
use vstd::string::*;
use crate::error::{
    plain_report, report_with_entry, reported, reported_with_entry, ErrorKind, ErrorReport,
};
use crate::text::{decimal, str_equal};
use crate::task::{split_u128, u128_value, TaskRequest, UInt128};

verus! {

/// Splits a 128-bit integer into its low and high 64-bit halves.
pub fn uint128_to_proto(value: u128) -> (r: UInt128)
    ensures
        r == split_u128(value),
        r.low == value % 0x1_0000_0000_0000_0000,
        r.high == value / 0x1_0000_0000_0000_0000,
{
    let low = value as u64;
    let high = (value >> 64u32) as u64;
    assert(value as u64 == value % 0x1_0000_0000_0000_0000) by (bit_vector);
    assert((value >> 64u32) as u64 == value / 0x1_0000_0000_0000_0000) by (bit_vector);
    UInt128 { low, high }
}

/// Joins the two 64-bit halves into one 128-bit integer.
pub fn proto_to_uint128(v: &UInt128) -> (r: u128)
    ensures
        r == u128_value(*v),
        r as int == v.high as int * 0x1_0000_0000_0000_0000 + v.low as int,
{
    let high = v.high;
    let low = v.low;
    let r = ((high as u128) << 64u32) | low as u128;
    assert(((high as u128) << 64u32) | low as u128 == high as int * 0x1_0000_0000_0000_0000
        + low as int) by (bit_vector);
    r
}

/// A point in time as nanoseconds since the epoch, cut to 64 bits; a time
/// before the epoch counts as the epoch itself. The argument is the time's
/// distance from the epoch in nanoseconds, `None` when it lies before it.
pub fn system_time_to_u64(since_epoch_nanos: Option<u128>) -> (r: u64)
    ensures
        r == (match since_epoch_nanos {
            Some(n) => n % 0x1_0000_0000_0000_0000,
            None => 0,
        }),
{
    match since_epoch_nanos {
        Some(n) => {
            assert(n as u64 == n % 0x1_0000_0000_0000_0000) by (bit_vector);
            n as u64
        },
        None => 0,
    }
}

/// How a message body is encoded.
#[derive(Debug, Clone, Copy, PartialEq, Eq, Structural)]
pub enum ContentType {
    Json,
    Protobuf,
}

/// The content type that a content type string names: JSON for exactly
/// `application/json`, protobuf for anything else.
pub open spec fn content_type_of(s: Seq<char>) -> ContentType {
    if s == "application/json"@ {
        ContentType::Json
    } else {
        ContentType::Protobuf
    }
}

impl ContentType {
    pub open spec fn spec_as_str(self) -> Seq<char> {
        match self {
            ContentType::Json => "application/json"@,
            ContentType::Protobuf => "application/x-protobuf"@,
        }
    }

    /// The content type that a content type string names: JSON for exactly
    /// `application/json`, protobuf for anything else.
    pub fn parse(s: &str) -> (r: ContentType)
        ensures
            r == content_type_of(s@),
    {
        if str_equal(s, "application/json") {
            ContentType::Json
        } else {
            ContentType::Protobuf
        }
    }

    pub fn as_str(&self) -> (r: &'static str)
        ensures
            r@ == self.spec_as_str(),
    {
        match self {
            ContentType::Json => "application/json",
            ContentType::Protobuf => "application/x-protobuf",
        }
    }
}

impl core::str::FromStr for ContentType {
    type Err = ();

    /// Never fails: anything but `application/json` is protobuf.
    fn from_str(s: &str) -> (r: Result<ContentType, ()>)
        ensures
            r == Ok::<ContentType, ()>(content_type_of(s@)),
    {
        Ok(ContentType::parse(s))
    }
}

/// The properties of a message that decoding reads.
#[derive(Debug, Clone)]
pub struct MessageProperties {
    pub content_type: Option<String>,
    pub correlation_id: Option<String>,
}

/// A message as it arrives: its body, if any, and its properties, if any.
#[derive(Debug, Clone)]
pub struct IncomingMessage {
    pub data: Option<Vec<u8>>,
    pub properties: Option<MessageProperties>,
}

/// What the envelope of a message says about its body.
#[derive(Debug, Clone)]
pub struct Envelope {
    pub content_type: ContentType,
    pub correlation_id: String,
}

/// The content type string of a message, defaulting to protobuf.
pub open spec fn content_type_text(props: Option<MessageProperties>) -> Seq<char> {
    match props {
        Some(p) => match p.content_type {
            Some(c) => c@,
            None => "application/x-protobuf"@,
        },
        None => "application/x-protobuf"@,
    }
}

/// Reads the envelope of a message: the body must be present, a correlation
/// id must be given, and the content type names the body's encoding
/// (protobuf when none is given).
pub fn read_envelope(msg: &IncomingMessage) -> (r: Result<Envelope, ErrorReport>)
    requires
        msg.data is Some ==> msg.properties is Some,
    ensures
        msg.data is None ==> r is Err && r->Err_0@ == plain_report(
            ErrorKind::RabbitMQ,
            "decode_message"@,
            "Message contains no data"@,
        ),
        msg.data is Some ==> match msg.properties->0.correlation_id {
            None => r is Err && r->Err_0@ == plain_report(
                ErrorKind::InvalidTaskFormat,
                "decode_message"@,
                "correlation_id must be provided"@,
            ),
            Some(id) => r is Ok && r->Ok_0.correlation_id@ == id@ && r->Ok_0.content_type
                == content_type_of(content_type_text(msg.properties)),
        },
{
    if msg.data.is_none() {
        return Err(reported(ErrorKind::RabbitMQ, "decode_message", "Message contains no data"));
    }
    let props = msg.properties.as_ref().unwrap();
    let content_type = match &props.content_type {
        Some(c) => ContentType::parse(c.as_str()),
        None => ContentType::parse("application/x-protobuf"),
    };
    match &props.correlation_id {
        Some(id) => Ok(Envelope { content_type, correlation_id: String::from_str(id.as_str()) }),
        None => Err(
            reported(ErrorKind::InvalidTaskFormat, "decode_message", "correlation_id must be provided"),
        ),
    }
}

/// The outcome of decoding a protobuf body, with a failure turned into a
/// report that names the body's length.
pub fn decode_protobuf(outcome: Result<TaskRequest, String>, bytes_len: usize) -> (r: Result<
    TaskRequest,
    ErrorReport,
>)
    ensures
        outcome is Ok ==> r is Ok && r->Ok_0 == outcome->Ok_0,
        outcome is Err ==> r is Err && r->Err_0@ == report_with_entry(
                ErrorKind::ProtobufDecode,
                "decode_protobuf"@,
                "Failed to decode protobuf: "@ + outcome->Err_0@,
                "bytes_len"@,
                decimal(bytes_len as nat),
            ),
{
    match outcome {
        Ok(t) => Ok(t),
        Err(e) => {
            let mut msg = String::from_str("Failed to decode protobuf: ");
            msg.append(e.as_str());
            let mut len = String::new();
            crate::text::push_decimal(&mut len, bytes_len as u128);
            Err(
                reported_with_entry(
                    ErrorKind::ProtobufDecode,
                    "decode_protobuf",
                    msg.as_str(),
                    "bytes_len",
                    len.as_str(),
                ),
            )
        },
    }
}

/// The outcome of decoding a JSON body, with a failure turned into a report
/// that names the body's length.
pub fn decode_json(outcome: Result<TaskRequest, String>, bytes_len: usize) -> (r: Result<
    TaskRequest,
    ErrorReport,
>)
    ensures
        outcome is Ok ==> r is Ok && r->Ok_0 == outcome->Ok_0,
        outcome is Err ==> r is Err && r->Err_0@ == report_with_entry(
                ErrorKind::InvalidTaskFormat,
                "decode_json"@,
                "Failed to decode JSON: "@ + outcome->Err_0@,
                "bytes_len"@,
                decimal(bytes_len as nat),
            ),
{
    match outcome {
        Ok(t) => Ok(t),
        Err(e) => {
            let mut msg = String::from_str("Failed to decode JSON: ");
            msg.append(e.as_str());
            let mut len = String::new();
            crate::text::push_decimal(&mut len, bytes_len as u128);
            Err(
                reported_with_entry(
                    ErrorKind::InvalidTaskFormat,
                    "decode_json",
                    msg.as_str(),
                    "bytes_len",
                    len.as_str(),
                ),
            )
        },
    }
}

/// A decoded task with the envelope it came in.
#[derive(Debug, Clone)]
pub struct DecodedMessage {
    pub task: TaskRequest,
    pub content_type: ContentType,
    pub correlation_id: String,
}

impl DecodedMessage {
    pub fn new(task: TaskRequest, content_type: ContentType, correlation_id: String) -> (r:
        DecodedMessage)
        ensures
            r.task == task,
            r.content_type == content_type,
            r.correlation_id == correlation_id,
    {
        DecodedMessage { task, content_type, correlation_id }
    }
}

/// Completes the decoding of a message: the outcome of decoding its body in
/// the encoding that the envelope names is mapped as `decode_json` or
/// `decode_protobuf` maps it.
pub fn decode_message(envelope: Envelope, bytes_len: usize, outcome: Result<TaskRequest, String>) -> (r:
    Result<DecodedMessage, ErrorReport>)
    ensures
        match outcome {
            Ok(t) => r is Ok && r->Ok_0.task == t && r->Ok_0.content_type == envelope.content_type
                && r->Ok_0.correlation_id == envelope.correlation_id,
            Err(e) => r is Err && r->Err_0@ == (match envelope.content_type {
                ContentType::Json => report_with_entry(
                    ErrorKind::InvalidTaskFormat,
                    "decode_json"@,
                    "Failed to decode JSON: "@ + e@,
                    "bytes_len"@,
                    decimal(bytes_len as nat),
                ),
                ContentType::Protobuf => report_with_entry(
                    ErrorKind::ProtobufDecode,
                    "decode_protobuf"@,
                    "Failed to decode protobuf: "@ + e@,
                    "bytes_len"@,
                    decimal(bytes_len as nat),
                ),
            }),
        },
{
    let task = match envelope.content_type {
        ContentType::Json => decode_json(outcome, bytes_len),
        ContentType::Protobuf => decode_protobuf(outcome, bytes_len),
    };
    match task {
        Ok(t) => Ok(DecodedMessage::new(t, envelope.content_type, envelope.correlation_id)),
        Err(e) => Err(e),
    }
}

/// The report for a response that could not be encoded.
pub fn encode_response_error(content_type: ContentType, detail: &str) -> (r: ErrorReport)
    ensures
        r@ == (match content_type {
            ContentType::Json => report_with_entry(
                ErrorKind::InvalidOperation,
                "encode_response"@,
                "Failed to serialize to JSON: "@ + detail@,
                "content_type"@,
                "application/json"@,
            ),
            ContentType::Protobuf => report_with_entry(
                ErrorKind::ProtobufDecode,
                "encode_response"@,
                "Failed to encode protobuf: "@ + detail@,
                "content_type"@,
                "application/x-protobuf"@,
            ),
        }),
{
    match content_type {
        ContentType::Json => {
            let mut msg = String::from_str("Failed to serialize to JSON: ");
            msg.append(detail);
            reported_with_entry(
                ErrorKind::InvalidOperation,
                "encode_response",
                msg.as_str(),
                "content_type",
                "application/json",
            )
        },
        ContentType::Protobuf => {
            let mut msg = String::from_str("Failed to encode protobuf: ");
            msg.append(detail);
            reported_with_entry(
                ErrorKind::ProtobufDecode,
                "encode_response",
                msg.as_str(),
                "content_type",
                "application/x-protobuf",
            )
        },
    }
}

} // verus!
