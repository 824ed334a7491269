//! The boundary layer: conversion of host-provided primitive arguments and
//! translation of every outcome into a status code and an exception message.

use vstd::prelude::*;
use vstd::string::StringExecFns;

use crate::config::{ConfigModel, MiningConfig};
use crate::controller::{step, ControllerError, Op};
use crate::registry::SessionRegistry;

verus! {

/// A call-in argument that could not be converted to its semantic type.
/// Each variant names the argument at fault; a bad argument is reported,
/// never silently defaulted.
#[derive(Clone, Copy, Debug, PartialEq, Eq, Structural)]
pub enum ConversionError {
    /// The priority fee was below zero.
    NegativePriorityFee,
    /// The tip was below zero.
    NegativeTip,
    /// The worker-core count was below zero.
    NegativeWorkerCores,
    /// The submission buffer time was below zero.
    NegativeBufferTime,
}

/// Text reported for [`ControllerError::AlreadyMining`].
pub open spec fn already_mining_text() -> Seq<char> {
    "a mining session is already running"@
}

/// Text reported for [`ControllerError::NotMining`].
pub open spec fn not_mining_text() -> Seq<char> {
    "no mining session is running"@
}

/// The message carried by the exception raised for a controller error.
pub open spec fn controller_error_text(e: ControllerError) -> Seq<char> {
    match e {
        ControllerError::AlreadyMining => already_mining_text(),
        ControllerError::NotMining => not_mining_text(),
    }
}

/// Message for a controller error; never empty.
pub fn controller_error_message(e: &ControllerError) -> (m: &'static str)
    ensures
        m@ == controller_error_text(*e),
        m@.len() > 0,
{
    proof {
        reveal_strlit("a mining session is already running");
        reveal_strlit("no mining session is running");
    }
    match e {
        ControllerError::AlreadyMining => "a mining session is already running",
        ControllerError::NotMining => "no mining session is running",
    }
}

/// Text reported for each conversion error.
pub open spec fn conversion_error_text(e: ConversionError) -> Seq<char> {
    match e {
        ConversionError::NegativePriorityFee => "priority fee must not be negative"@,
        ConversionError::NegativeTip => "tip must not be negative"@,
        ConversionError::NegativeWorkerCores => "worker core count must not be negative"@,
        ConversionError::NegativeBufferTime => "buffer time must not be negative"@,
    }
}

/// Message for a conversion error; never empty.
pub fn conversion_error_message(e: &ConversionError) -> (m: &'static str)
    ensures
        m@ == conversion_error_text(*e),
        m@.len() > 0,
{
    proof {
        reveal_strlit("priority fee must not be negative");
        reveal_strlit("tip must not be negative");
        reveal_strlit("worker core count must not be negative");
        reveal_strlit("buffer time must not be negative");
    }
    match e {
        ConversionError::NegativePriorityFee => "priority fee must not be negative",
        ConversionError::NegativeTip => "tip must not be negative",
        ConversionError::NegativeWorkerCores => "worker core count must not be negative",
        ConversionError::NegativeBufferTime => "buffer time must not be negative",
    }
}

/// Convert a host-provided signed integer into an unsigned amount or count;
/// a negative value is a conversion failure, never wrapped.
pub fn convert_amount(raw: i32) -> (r: Option<u64>)
    ensures
        r == (if raw >= 0 {
            Some(raw as u64)
        } else {
            None::<u64>
        }),
{
    if raw >= 0 {
        Some(raw as u64)
    } else {
        None
    }
}

/// Convert a host-provided boolean (any non-zero byte is true).
pub fn convert_flag(raw: u8) -> (r: bool)
    ensures
        r == (raw != 0),
{
    raw != 0
}

/// Convert a host-provided endpoint that may be absent: empty text means
/// no endpoint was given.
pub fn convert_optional_endpoint(text: String) -> (r: Option<String>)
    ensures
        text@.len() == 0 ==> r is None,
        text@.len() > 0 ==> (r matches Some(s) && s@ == text@),
{
    if text.as_str().is_empty() {
        None
    } else {
        Some(text)
    }
}

/// Whether every integer argument of a `start` call-in is convertible.
pub open spec fn args_convertible(
    priority_fee: i32,
    tip: i32,
    worker_cores: i32,
    buffer_time_ms: i32,
) -> bool {
    priority_fee >= 0 && tip >= 0 && worker_cores >= 0 && buffer_time_ms >= 0
}

/// The conversion error reported for a `start` call-in whose integer
/// arguments are not all convertible: the first offending argument, in the
/// order of the call-in's argument list.
pub open spec fn first_conversion_error(
    priority_fee: i32,
    tip: i32,
    worker_cores: i32,
    buffer_time_ms: i32,
) -> ConversionError {
    if priority_fee < 0 {
        ConversionError::NegativePriorityFee
    } else if tip < 0 {
        ConversionError::NegativeTip
    } else if worker_cores < 0 {
        ConversionError::NegativeWorkerCores
    } else {
        ConversionError::NegativeBufferTime
    }
}

/// The configuration built from convertible `start` call-in arguments.
pub open spec fn converted_config(
    signer_key_path: Seq<char>,
    rpc_endpoint: Seq<char>,
    priority_fee: i32,
    dynamic_fee_endpoint: Seq<char>,
    dynamic_fee_enabled: u8,
    fee_payer_key_path: Seq<char>,
    alternate_submission_endpoint: Seq<char>,
    tip: i32,
    pool_endpoint: Seq<char>,
    worker_cores: i32,
    buffer_time_ms: i32,
) -> ConfigModel {
    ConfigModel {
        rpc_endpoint: rpc_endpoint,
        alternate_submission_endpoint: alternate_submission_endpoint,
        signer_key_path: signer_key_path,
        fee_payer_key_path: fee_payer_key_path,
        priority_fee: Some(priority_fee as u64),
        dynamic_fee_endpoint: if dynamic_fee_endpoint.len() == 0 {
            None
        } else {
            Some(dynamic_fee_endpoint)
        },
        dynamic_fee_enabled: dynamic_fee_enabled != 0,
        tip: tip as u64,
        pool_endpoint: if pool_endpoint.len() == 0 {
            None
        } else {
            Some(pool_endpoint)
        },
        worker_cores: worker_cores as u64,
        buffer_time_ms: buffer_time_ms as u64,
    }
}

/// Build a [`MiningConfig`] from the primitive arguments of a `start`
/// call-in. Fails, naming the first offending argument, exactly when one of
/// the integer arguments is negative.
pub fn build_config(
    signer_key_path: String,
    rpc_endpoint: String,
    priority_fee: i32,
    dynamic_fee_endpoint: String,
    dynamic_fee_enabled: u8,
    fee_payer_key_path: String,
    alternate_submission_endpoint: String,
    tip: i32,
    pool_endpoint: String,
    worker_cores: i32,
    buffer_time_ms: i32,
) -> (r: Result<MiningConfig, ConversionError>)
    ensures
        r is Ok <==> args_convertible(priority_fee, tip, worker_cores, buffer_time_ms),
        r matches Ok(c) ==> c@ == converted_config(
            signer_key_path@,
            rpc_endpoint@,
            priority_fee,
            dynamic_fee_endpoint@,
            dynamic_fee_enabled,
            fee_payer_key_path@,
            alternate_submission_endpoint@,
            tip,
            pool_endpoint@,
            worker_cores,
            buffer_time_ms,
        ),
        r matches Err(e) ==> e == first_conversion_error(
            priority_fee,
            tip,
            worker_cores,
            buffer_time_ms,
        ),
{
    let priority_fee: u64 = match convert_amount(priority_fee) {
        Some(v) => v,
        None => {
            return Err(ConversionError::NegativePriorityFee);
        }
    };
    let tip: u64 = match convert_amount(tip) {
        Some(v) => v,
        None => {
            return Err(ConversionError::NegativeTip);
        }
    };
    let worker_cores: u64 = match convert_amount(worker_cores) {
        Some(v) => v,
        None => {
            return Err(ConversionError::NegativeWorkerCores);
        }
    };
    let buffer_time_ms: u64 = match convert_amount(buffer_time_ms) {
        Some(v) => v,
        None => {
            return Err(ConversionError::NegativeBufferTime);
        }
    };
    Ok(MiningConfig {
        rpc_endpoint,
        alternate_submission_endpoint,
        signer_key_path,
        fee_payer_key_path,
        priority_fee: Some(priority_fee),
        dynamic_fee_endpoint: convert_optional_endpoint(dynamic_fee_endpoint),
        dynamic_fee_enabled: convert_flag(dynamic_fee_enabled),
        tip,
        pool_endpoint: convert_optional_endpoint(pool_endpoint),
        worker_cores,
        buffer_time_ms,
    })
}

/// What a call-in hands back to the host: a status code, and the message of
/// the exception to raise when the call failed.
pub struct CallReply {
    /// `0` on success, `-1` on failure.
    pub code: i32,
    /// The failure message; `None` exactly on success.
    pub exception: Option<String>,
}

/// Outcome of a `start` call-in: the reply for the host, and — on success —
/// the configuration the caller must hand to the detached mining task.
pub struct StartReply {
    /// The reply for the host.
    pub reply: CallReply,
    /// `Some` exactly on success: the configuration to spawn with.
    pub spawn: Option<MiningConfig>,
}

/// The whole computational path of a `start` call-in: convert the primitive
/// arguments, run the controller transition, translate the outcome.
///
/// A conversion failure is reported before any controller logic runs and
/// leaves the registry untouched. Otherwise the call succeeds exactly when
/// the registry was `Idle`; on success the caller receives a copy of the
/// installed configuration to spawn the detached task with.
pub fn start_call(
    registry: &mut SessionRegistry,
    signer_key_path: String,
    rpc_endpoint: String,
    priority_fee: i32,
    dynamic_fee_endpoint: String,
    dynamic_fee_enabled: u8,
    fee_payer_key_path: String,
    alternate_submission_endpoint: String,
    tip: i32,
    pool_endpoint: String,
    worker_cores: i32,
    buffer_time_ms: i32,
) -> (r: StartReply)
    requires
        old(registry).wf(),
    ensures
        final(registry).wf(),
        !args_convertible(priority_fee, tip, worker_cores, buffer_time_ms) ==> {
            &&& *final(registry) == *old(registry)
            &&& r.reply.code == -1
            &&& (r.reply.exception matches Some(m) && m@ == conversion_error_text(
                first_conversion_error(priority_fee, tip, worker_cores, buffer_time_ms),
            ))
            &&& r.spawn is None
        },
        args_convertible(priority_fee, tip, worker_cores, buffer_time_ms)
            && old(registry).status() is Idle ==> {
            &&& r.reply.code == 0
            &&& r.reply.exception is None
            &&& final(registry).status() is Running
            &&& final(registry).active_flag()
            &&& final(registry).config_model() == converted_config(
                signer_key_path@,
                rpc_endpoint@,
                priority_fee,
                dynamic_fee_endpoint@,
                dynamic_fee_enabled,
                fee_payer_key_path@,
                alternate_submission_endpoint@,
                tip,
                pool_endpoint@,
                worker_cores,
                buffer_time_ms,
            )
            &&& (r.spawn matches Some(c) && c@ == final(registry).config_model())
        },
        args_convertible(priority_fee, tip, worker_cores, buffer_time_ms)
            && old(registry).status() is Running ==> {
            &&& *final(registry) == *old(registry)
            &&& r.reply.code == -1
            &&& (r.reply.exception matches Some(m) && m@ == already_mining_text())
            &&& r.spawn is None
        },
        r.reply.code == 0 || r.reply.code == -1,
        r.reply.code == 0 <==> r.reply.exception is None,
        r.reply.code == 0 <==> r.spawn is Some,
{
    match build_config(
        signer_key_path,
        rpc_endpoint,
        priority_fee,
        dynamic_fee_endpoint,
        dynamic_fee_enabled,
        fee_payer_key_path,
        alternate_submission_endpoint,
        tip,
        pool_endpoint,
        worker_cores,
        buffer_time_ms,
    ) {
        Err(e) => StartReply {
            reply: CallReply {
                code: -1,
                exception: Some(conversion_error_message(&e).to_owned()),
            },
            spawn: None,
        },
        Ok(config) => {
            let spawn_copy = config.clone();
            match registry.start(config) {
                Ok(()) => StartReply {
                    reply: CallReply { code: 0, exception: None },
                    spawn: Some(spawn_copy),
                },
                Err(e) => StartReply {
                    reply: CallReply {
                        code: -1,
                        exception: Some(controller_error_message(&e).to_owned()),
                    },
                    spawn: None,
                },
            }
        }
    }
}

/// The whole computational path of a `stop` call-in: run the controller
/// transition and translate the outcome. Succeeds exactly when the registry
/// was `Running`.
pub fn stop_call(registry: &mut SessionRegistry) -> (r: CallReply)
    requires
        old(registry).wf(),
    ensures
        final(registry).wf(),
        final(registry).status() == step(old(registry).status(), Op::Stop),
        old(registry).status() is Running ==> {
            &&& r.code == 0
            &&& r.exception is None
            &&& final(registry).status() is Idle
            &&& !final(registry).active_flag()
        },
        old(registry).status() is Idle ==> {
            &&& *final(registry) == *old(registry)
            &&& r.code == -1
            &&& (r.exception matches Some(m) && m@ == not_mining_text())
        },
        r.code == 0 || r.code == -1,
        r.code == 0 <==> r.exception is None,
{
    match registry.stop() {
        Ok(()) => CallReply { code: 0, exception: None },
        Err(e) => CallReply {
            code: -1,
            exception: Some(controller_error_message(&e).to_owned()),
        },
    }
}

/// Text used for a crash whose payload carried no message.
pub open spec fn fallback_crash_text() -> Seq<char> {
    "Unknown panic occurred"@
}

/// The message extracted from a captured crash payload: the payload's own
/// text when it carried a non-empty one, a fixed fallback otherwise. Never
/// empty, so the host always sees a message.
pub fn crash_message(payload: Option<String>) -> (m: String)
    ensures
        m@.len() > 0,
        payload matches Some(s) ==> (s@.len() > 0 ==> m@ == s@) && (s@.len() == 0 ==> m@
            == fallback_crash_text()),
        payload is None ==> m@ == fallback_crash_text(),
{
    proof {
        reveal_strlit("Unknown panic occurred");
    }
    match payload {
        Some(s) => {
            if s.as_str().is_empty() {
                "Unknown panic occurred".to_owned()
            } else {
                s
            }
        }
        None => "Unknown panic occurred".to_owned(),
    }
}

/// The reply for a call-in whose synchronous path crashed: always the
/// failure code, always an exception with a non-empty message, so the crash
/// surfaces to the host instead of terminating it.
pub fn crash_reply(payload: Option<String>) -> (r: CallReply)
    ensures
        r.code == -1,
        r.exception matches Some(m) && m@.len() > 0,
        payload matches Some(s) ==> (s@.len() > 0 ==> (r.exception matches Some(m) && m@ == s@)),
        payload is None ==> (r.exception matches Some(m) && m@ == fallback_crash_text()),
{
    CallReply { code: -1, exception: Some(crash_message(payload)) }
}

/// The diagnostic greeting echoed back across the boundary.
pub open spec fn greeting_text(name: Seq<char>) -> Seq<char> {
    "Hello, I am "@ + name + " the happy rustacean!"@
}

/// Build the greeting for a boundary smoke test.
pub fn greet(name: &str) -> (r: String)
    ensures
        r@ == greeting_text(name@),
{
    let r = "Hello, I am ".to_owned().concat(name).concat(" the happy rustacean!");
    proof {
        assert(r@ =~= greeting_text(name@));
    }
    r
}

} // verus!
