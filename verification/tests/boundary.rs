use ore_session::boundary::{
    build_config, controller_error_message, conversion_error_message, convert_amount,
    convert_flag, convert_optional_endpoint, crash_message, crash_reply, greet, start_call,
    ConversionError,
};
use ore_session::config::MiningConfig;
use ore_session::controller::{ControllerError, Status};
use ore_session::registry::SessionRegistry;

fn build_with_ints(
    priority_fee: i32,
    tip: i32,
    worker_cores: i32,
    buffer_time_ms: i32,
) -> Result<MiningConfig, ConversionError> {
    build_config(
        "/keys/signer.json".to_owned(),
        "https://rpc.example.com".to_owned(),
        priority_fee,
        "".to_owned(),
        0,
        "/keys/payer.json".to_owned(),
        "https://jito.example.com".to_owned(),
        tip,
        "".to_owned(),
        worker_cores,
        buffer_time_ms,
    )
}

#[test]
fn build_config_accepts_convertible_arguments() {
    let config = build_with_ints(5000, 100, 4, 200).expect("all arguments are convertible");
    assert_eq!(config.rpc_endpoint, "https://rpc.example.com");
    assert_eq!(config.priority_fee, Some(5000));
    assert_eq!(config.dynamic_fee_endpoint, None);
    assert!(!config.dynamic_fee_enabled);
    assert_eq!(config.tip, 100);
    assert_eq!(config.pool_endpoint, None);
    assert_eq!(config.worker_cores, 4);
    assert_eq!(config.buffer_time_ms, 200);
}

#[test]
fn build_config_rejects_negative_priority_fee() {
    assert!(matches!(build_with_ints(-1, 100, 4, 200), Err(ConversionError::NegativePriorityFee)));
}

#[test]
fn build_config_rejects_negative_tip() {
    assert!(matches!(build_with_ints(5000, -3, 4, 200), Err(ConversionError::NegativeTip)));
}

#[test]
fn build_config_rejects_negative_worker_cores() {
    assert!(matches!(build_with_ints(5000, 100, -4, 200), Err(ConversionError::NegativeWorkerCores)));
}

#[test]
fn build_config_rejects_negative_buffer_time() {
    assert!(matches!(build_with_ints(5000, 100, 4, -200), Err(ConversionError::NegativeBufferTime)));
}

#[test]
fn build_config_names_the_first_offending_argument() {
    assert!(matches!(build_with_ints(-1, -3, -4, -200), Err(ConversionError::NegativePriorityFee)));
    assert!(matches!(build_with_ints(5000, -3, -4, -200), Err(ConversionError::NegativeTip)));
}

#[test]
fn malformed_argument_never_reaches_the_controller() {
    let mut registry = SessionRegistry::new();
    let reply = start_call(
        &mut registry,
        "/keys/signer.json".to_owned(),
        "https://rpc.example.com".to_owned(),
        -1,
        "".to_owned(),
        0,
        "/keys/payer.json".to_owned(),
        "https://jito.example.com".to_owned(),
        100,
        "".to_owned(),
        4,
        200,
    );
    assert_eq!(reply.reply.code, -1);
    assert_eq!(reply.reply.exception.as_deref(), Some("priority fee must not be negative"));
    assert!(reply.spawn.is_none());
    // No state was mutated: the registry is still idle and a later start succeeds.
    assert_eq!(registry.current_status(), Status::Idle);
    assert_eq!(registry.start(MiningConfig::default()), Ok(()));
}

#[test]
fn convert_amount_accepts_zero_and_positive() {
    assert_eq!(convert_amount(0), Some(0));
    assert_eq!(convert_amount(2147483647), Some(2147483647));
    assert_eq!(convert_amount(-1), None);
}

#[test]
fn convert_flag_maps_any_nonzero_byte_to_true() {
    assert!(!convert_flag(0));
    assert!(convert_flag(1));
    assert!(convert_flag(255));
}

#[test]
fn convert_optional_endpoint_maps_empty_text_to_none() {
    assert_eq!(convert_optional_endpoint("".to_owned()), None);
    assert_eq!(
        convert_optional_endpoint("https://pool.example.com".to_owned()),
        Some("https://pool.example.com".to_owned())
    );
}

#[test]
fn error_messages_are_exact_and_nonempty() {
    assert_eq!(
        controller_error_message(&ControllerError::AlreadyMining),
        "a mining session is already running"
    );
    assert_eq!(
        controller_error_message(&ControllerError::NotMining),
        "no mining session is running"
    );
    assert_eq!(
        conversion_error_message(&ConversionError::NegativeTip),
        "tip must not be negative"
    );
    assert_eq!(
        conversion_error_message(&ConversionError::NegativeWorkerCores),
        "worker core count must not be negative"
    );
    assert_eq!(
        conversion_error_message(&ConversionError::NegativeBufferTime),
        "buffer time must not be negative"
    );
}

#[test]
fn crash_message_keeps_a_nonempty_payload() {
    assert_eq!(crash_message(Some("mining task state was poisoned".to_owned())),
        "mining task state was poisoned");
}

#[test]
fn crash_message_falls_back_on_missing_or_empty_payload() {
    assert_eq!(crash_message(None), "Unknown panic occurred");
    assert_eq!(crash_message(Some("".to_owned())), "Unknown panic occurred");
}

#[test]
fn crash_reply_always_fails_with_a_nonempty_message() {
    let reply = crash_reply(Some("boom".to_owned()));
    assert_eq!(reply.code, -1);
    assert_eq!(reply.exception.as_deref(), Some("boom"));

    let reply = crash_reply(None);
    assert_eq!(reply.code, -1);
    let message = reply.exception.expect("a crash reply always carries a message");
    assert!(!message.is_empty());
}

#[test]
fn greet_builds_the_exact_greeting() {
    assert_eq!(greet("Ferris"), "Hello, I am Ferris the happy rustacean!");
    assert_eq!(greet(""), "Hello, I am  the happy rustacean!");
}

#[test]
fn default_config_points_at_mainnet() {
    let config = MiningConfig::default();
    assert_eq!(config.rpc_endpoint, "https://api.mainnet-beta.solana.com");
    assert_eq!(config.alternate_submission_endpoint, "https://api.mainnet-beta.solana.com");
    assert_eq!(config.priority_fee, None);
    assert_eq!(config.worker_cores, 1);
    assert_eq!(config.buffer_time_ms, 0);
    assert_eq!(config.pool_endpoint, None);
}
