use rrconsumer::error::{AppError, ErrorKind, ErrorKindExt, ErrorReport, ErrorStatus};
use rrconsumer::kinds::{
    account_already_exists, database_unavailable, error_kind_in_chain, get_error_kind, kind_found_in_text, retry_delay_in_chain, retryable_in_chain,
    insufficient_balance, invalid_input, invalid_operation, invalid_task_format, is_retryable,
    network_timeout, protobuf_decode, rabbitmq_error, retry_delay_ms, temporary_overload,
    tigerbeetle_error,
};
use rrconsumer::processor::MessageProcessor;

fn layers(r: &ErrorReport) -> Vec<&str> {
    r.context.iter().map(|s| s.as_str()).collect()
}

const ALL_KINDS: [ErrorKind; 11] = [
    ErrorKind::NetworkTimeout,
    ErrorKind::DatabaseUnavailable,
    ErrorKind::TemporaryOverload,
    ErrorKind::InvalidTaskFormat,
    ErrorKind::InvalidInput,
    ErrorKind::AccountAlreadyExists,
    ErrorKind::InsufficientBalance,
    ErrorKind::InvalidOperation,
    ErrorKind::ProtobufDecode,
    ErrorKind::TigerBeetle,
    ErrorKind::RabbitMQ,
];

#[test]
fn kind_retry_policy() {
    assert!(ErrorKind::NetworkTimeout.is_retryable());
    assert!(ErrorKind::DatabaseUnavailable.is_retryable());
    assert!(ErrorKind::TemporaryOverload.is_retryable());
    assert!(!ErrorKind::InvalidInput.is_retryable());
    assert!(!ErrorKind::RabbitMQ.is_retryable());
    assert_eq!(ErrorKind::NetworkTimeout.retry_delay_ms(), 100);
    assert_eq!(ErrorKind::DatabaseUnavailable.retry_delay_ms(), 1000);
    assert_eq!(ErrorKind::TemporaryOverload.retry_delay_ms(), 500);
    assert_eq!(ErrorKind::TigerBeetle.retry_delay_ms(), 0);
}

#[test]
fn retryable_kinds_have_positive_delay() {
    for k in ALL_KINDS {
        assert_eq!(k.is_retryable(), k.retry_delay_ms() > 0);
        let e = AppError::new(k, "op");
        assert_eq!(e.is_retryable(), k.is_retryable());
        assert_eq!(e.get_status() == ErrorStatus::Temporary, k.is_retryable());
    }
}

#[test]
fn kind_display_is_variant_name() {
    assert_eq!(ErrorKind::NetworkTimeout.to_display_string(), "NetworkTimeout");
    assert_eq!(ErrorKind::RabbitMQ.to_display_string(), "RabbitMQ");
    for k in ALL_KINDS {
        assert_eq!(k.to_display_string(), format!("{k:?}"));
    }
}

#[test]
fn app_error_builders() {
    let e = AppError::new(ErrorKind::InvalidInput, "create")
        .message("bad")
        .context("a", "1")
        .with_context(vec![("b", "2".to_string()), ("c", "3".to_string())]);
    assert_eq!(e.get_kind(), ErrorKind::InvalidInput);
    assert_eq!(e.get_status(), ErrorStatus::Permanent);
    assert_eq!(e.get_operation(), "create");
    assert_eq!(e.get_message(), "bad");
    let ctx: Vec<(&str, &str)> = e.get_context().iter().map(|(k, v)| (*k, v.as_str())).collect();
    assert_eq!(ctx, vec![("a", "1"), ("b", "2"), ("c", "3")]);
    assert!(!e.is_retryable());
    assert_eq!(e.retry_delay_ms(), 0);

    let e = e.kind(ErrorKind::TemporaryOverload).operation("retry");
    assert_eq!(e.get_status(), ErrorStatus::Temporary);
    assert!(e.is_retryable());
    assert_eq!(e.retry_delay_ms(), 500);
    assert_eq!(e.get_operation(), "retry");

    let e = e.status(ErrorStatus::Persistent);
    assert!(!e.is_retryable());
    assert_eq!(e.get_kind(), ErrorKind::TemporaryOverload);
}

#[test]
fn with_message_sets_message_and_status() {
    let e = AppError::with_message(ErrorKind::NetworkTimeout, "send", "timed out");
    assert_eq!(e.get_message(), "timed out");
    assert_eq!(e.get_status(), ErrorStatus::Temporary);
    assert!(e.get_context().is_empty());
}

#[test]
fn into_anyhow_layers() {
    let r = AppError::new(ErrorKind::TigerBeetle, "create_account")
        .message("Failed")
        .context("account_id", "7")
        .into_anyhow();
    assert_eq!(r.message, "Failed");
    assert_eq!(layers(&r), vec!["account_id=7", "operation=create_account", "ErrorKind::TigerBeetle"]);
}

#[test]
fn into_anyhow_keeps_source_underneath() {
    let src = network_timeout("socket closed");
    let r = AppError::new(ErrorKind::RabbitMQ, "consume")
        .message("outer")
        .source(src)
        .into_anyhow();
    assert_eq!(r.message, "socket closed");
    assert_eq!(
        layers(&r),
        vec!["ErrorKind::NetworkTimeout", "outer", "operation=consume", "ErrorKind::RabbitMQ"]
    );
    assert_eq!(r.to_display_string(), "ErrorKind::RabbitMQ");
}

#[test]
fn app_error_display() {
    let e = AppError::new(ErrorKind::InvalidInput, "create_transfer").message("Debit and credit accounts must be different");
    assert_eq!(e.to_display_string(), "[create_transfer] InvalidInput: Debit and credit accounts must be different");
    let e = e.context("account_id", "5").context("k", "v");
    assert_eq!(
        e.to_display_string(),
        "[create_transfer] InvalidInput: Debit and credit accounts must be different (account_id=5, k=v)"
    );
    let e = e.source(ErrorReport::new("root").context("outermost"));
    assert_eq!(
        e.to_display_string(),
        "[create_transfer] InvalidInput: Debit and credit accounts must be different (account_id=5, k=v) | caused by: outermost"
    );
}

#[test]
fn report_display_is_outermost() {
    let r = ErrorReport::new("root");
    assert_eq!(r.to_display_string(), "root");
    let r = r.context("one").context("two");
    assert_eq!(r.to_display_string(), "two");
}

#[test]
fn with_kind_adds_tag() {
    let r = ErrorReport::new("x").with_kind(ErrorKind::ProtobufDecode);
    assert_eq!(layers(&r), vec!["ErrorKind::ProtobufDecode"]);
}

#[test]
fn constructors_tag_their_kind() {
    let cases: Vec<(ErrorReport, &str)> = vec![
        (network_timeout("m"), "ErrorKind::NetworkTimeout"),
        (database_unavailable("m"), "ErrorKind::DatabaseUnavailable"),
        (temporary_overload("m"), "ErrorKind::TemporaryOverload"),
        (invalid_task_format("m"), "ErrorKind::InvalidTaskFormat"),
        (invalid_operation("m"), "ErrorKind::InvalidOperation"),
        (protobuf_decode("m"), "ErrorKind::ProtobufDecode"),
        (tigerbeetle_error("m"), "ErrorKind::TigerBeetle"),
        (rabbitmq_error("m"), "ErrorKind::RabbitMQ"),
        (invalid_input("m"), "ErrorKind::InvalidInput"),
    ];
    for (r, tag) in cases {
        assert_eq!(r.message, "m");
        assert_eq!(layers(&r), vec![tag]);
    }
}

#[test]
fn account_constructors_render_ids() {
    let r = account_already_exists(340282366920938463463374607431768211455);
    assert_eq!(r.message, "Account already exists: 340282366920938463463374607431768211455");
    assert_eq!(layers(&r), vec!["ErrorKind::AccountAlreadyExists"]);
    let r = insufficient_balance(0);
    assert_eq!(r.message, "Insufficient balance in account: 0");
    assert_eq!(layers(&r), vec!["ErrorKind::InsufficientBalance"]);
}

#[test]
fn kind_of_tagged_reports() {
    assert_eq!(get_error_kind(&network_timeout("boom")), Some(ErrorKind::NetworkTimeout));
    assert_eq!(get_error_kind(&invalid_input("boom")), Some(ErrorKind::InvalidInput));
    assert_eq!(get_error_kind(&account_already_exists(3)), Some(ErrorKind::AccountAlreadyExists));
    assert_eq!(get_error_kind(&ErrorReport::new("plain")), None);
    let r = AppError::new(ErrorKind::RabbitMQ, "op").message("m").into_anyhow();
    assert_eq!(get_error_kind(&r), Some(ErrorKind::RabbitMQ));
}

#[test]
fn kind_search_prefers_listed_order_within_a_cause() {
    // The outermost cause renders the causes it wraps too, so the earlier
    // kind in the order of precedence wins.
    let r = AppError::new(ErrorKind::InvalidInput, "op")
        .message("m")
        .source(network_timeout("inner"))
        .into_anyhow();
    assert_eq!(get_error_kind(&r), Some(ErrorKind::NetworkTimeout));
}

#[test]
fn each_tag_names_its_kind() {
    for kind in ALL_KINDS {
        let tag = format!("ErrorKind::{kind:?}");
        assert_eq!(kind_found_in_text(&tag), Some(kind));
    }
}

#[test]
fn retry_policy_of_rendered_causes() {
    let chain = vec!["x ErrorKind::TemporaryOverload".to_string(), "ErrorKind::NetworkTimeout".to_string()];
    assert!(retryable_in_chain(&chain));
    assert_eq!(retry_delay_in_chain(&chain), 500);
    let chain = vec!["ErrorKind::RabbitMQ ErrorKind::DatabaseUnavailable".to_string()];
    assert!(retryable_in_chain(&chain));
    assert_eq!(retry_delay_in_chain(&chain), 1000);
    let chain = vec!["nothing".to_string(), "ErrorKind::InvalidInput".to_string()];
    assert!(!retryable_in_chain(&chain));
    assert_eq!(retry_delay_in_chain(&chain), 0);
    assert!(!retryable_in_chain(&vec![]));
    assert_eq!(retry_delay_in_chain(&vec![]), 0);
}

#[test]
fn constructed_reports_keep_their_kind() {
    let made: Vec<(ErrorReport, ErrorKind)> = vec![
        (network_timeout("t"), ErrorKind::NetworkTimeout),
        (database_unavailable("db down"), ErrorKind::DatabaseUnavailable),
        (temporary_overload("busy"), ErrorKind::TemporaryOverload),
        (invalid_task_format("Missing ledger"), ErrorKind::InvalidTaskFormat),
        (account_already_exists(42), ErrorKind::AccountAlreadyExists),
        (insufficient_balance(u128::MAX), ErrorKind::InsufficientBalance),
        (invalid_operation("op"), ErrorKind::InvalidOperation),
        (protobuf_decode("pb"), ErrorKind::ProtobufDecode),
        (tigerbeetle_error("tb"), ErrorKind::TigerBeetle),
        (rabbitmq_error("mq"), ErrorKind::RabbitMQ),
        (invalid_input("x"), ErrorKind::InvalidInput),
    ];
    for (report, kind) in made {
        assert_eq!(get_error_kind(&report), Some(kind));
        assert_eq!(is_retryable(&report), kind.is_retryable());
        assert_eq!(retry_delay_ms(&report), kind.retry_delay_ms());
        let wrapped = ErrorReport::new("plain").with_kind(kind);
        assert_eq!(get_error_kind(&wrapped), Some(kind));
        let app = AppError::new(kind, "op").message("m").context("key", "value").into_anyhow();
        assert_eq!(get_error_kind(&app), Some(kind));
        assert_eq!(retry_delay_ms(&app), kind.retry_delay_ms());
    }
}

#[test]
fn sole_tag_in_first_cause_decides() {
    for kind in ALL_KINDS {
        let chain = vec![format!("Error {{ context: \"ErrorKind::{kind:?}\", source: m }}"), "m".to_string()];
        assert_eq!(error_kind_in_chain(&chain), Some(kind));
        assert_eq!(retryable_in_chain(&chain), kind.is_retryable());
        assert_eq!(retry_delay_in_chain(&chain), kind.retry_delay_ms());
    }
}

#[test]
fn kind_in_chain_of_strings() {
    let chain = vec!["nothing".to_string(), "x ErrorKind::RabbitMQ y".to_string()];
    assert_eq!(error_kind_in_chain(&chain), Some(ErrorKind::RabbitMQ));
    let chain = vec!["ErrorKind::InvalidInput and ErrorKind::TigerBeetle".to_string()];
    assert_eq!(error_kind_in_chain(&chain), Some(ErrorKind::TigerBeetle));
    let chain = vec!["ErrorKind::Invalid".to_string()];
    assert_eq!(error_kind_in_chain(&chain), None);
    assert_eq!(error_kind_in_chain(&vec![]), None);
}

#[test]
fn retry_of_reports() {
    assert!(is_retryable(&database_unavailable("down")));
    assert_eq!(retry_delay_ms(&database_unavailable("down")), 1000);
    assert!(is_retryable(&temporary_overload("busy")));
    assert_eq!(retry_delay_ms(&network_timeout("slow")), 100);
    assert!(!is_retryable(&invalid_input("bad")));
    assert_eq!(retry_delay_ms(&invalid_input("bad")), 0);
    assert!(!is_retryable(&ErrorReport::new("untagged")));
    assert_eq!(retry_delay_ms(&ErrorReport::new("untagged")), 0);
}

#[test]
fn processor_wraps_stage_failures() {
    let p = MessageProcessor::new();
    let r = p.decode_failed(rabbitmq_error("no body"));
    assert_eq!(r.message, "no body");
    assert_eq!(
        layers(&r),
        vec![
            "ErrorKind::RabbitMQ",
            "Failed to decode message: ErrorKind::RabbitMQ",
            "operation=process_message",
            "ErrorKind::RabbitMQ"
        ]
    );
    let r = p.processing_failed(ErrorReport::new("boom"), "t1", "c1");
    assert_eq!(
        layers(&r),
        vec![
            "Failed to process task: boom",
            "task_id=t1",
            "correlation_id=c1",
            "operation=process_message",
            "ErrorKind::InvalidOperation"
        ]
    );
    let r = p.send_failed(ErrorReport::new("closed"), "t2", "c2");
    assert_eq!(layers(&r)[0], "Failed to send response: closed");
    assert_eq!(layers(&r)[4], "ErrorKind::RabbitMQ");
}
