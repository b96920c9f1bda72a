//! The native entry points, as values.
//!
//! This crate never calls the native library. Each operation is a small
//! machine that names the next native call as a [`Call`], with every integer
//! argument fixed, and takes what the call returned as a [`Reply`]. The caller
//! performs the call and hands the reply back, until the machine reports
//! [`Progress::Done`] with the operation's result.

use crate::error::ErrorStack;
use libc::{c_int, c_uint, size_t, time_t};
use vstd::prelude::*;

verus! {

/// The native identifier of AES-128 in counter mode, the one generator type
/// that this crate asks for.
pub const NID_AES_128_CTR: c_int = 904;

/// One call into the native library.
///
/// Handles are addresses; address 0 is the null pointer. A buffer that belongs
/// to the caller (the bytes to fill) is not part of the value: only its length
/// is.
#[derive(Debug, Clone, Copy, PartialEq, Eq)]
#[allow(inconsistent_fields)]
pub enum Call {
    /// The one-time initialization of the native library, which does nothing
    /// when it has run before.
    Init,
    /// `RAND_bytes(buf, num)`: fill the first `num` bytes of the caller's
    /// buffer.
    RandBytes { num: c_int },
    /// `RAND_keep_random_devices_open(keep)`.
    KeepRandomDevicesOpen { keep: c_int },
    /// `RAND_DRBG_new(type_, flags, parent)`.
    DrbgNew { type_: c_int, flags: c_uint, parent: usize },
    /// `RAND_DRBG_set_reseed_interval(drbg, interval)`.
    DrbgSetReseedInterval { drbg: usize, interval: c_uint },
    /// `RAND_DRBG_set_reseed_time_interval(drbg, interval)`.
    DrbgSetReseedTimeInterval { drbg: usize, interval: time_t },
    /// `RAND_DRBG_set_callbacks(drbg, get_entropy, cleanup_entropy, get_nonce,
    /// cleanup_nonce)`: each flag says whether the binding's function of that
    /// name is passed (`true`) or the null pointer (`false`).
    DrbgSetCallbacks {
        drbg: usize,
        get_entropy: bool,
        cleanup_entropy: bool,
        get_nonce: bool,
        cleanup_nonce: bool,
    },
    /// `RAND_DRBG_instantiate(drbg, pers, perslen)`, where `pers` is null: this
    /// crate has no personalization string.
    DrbgInstantiate { drbg: usize, perslen: size_t },
    /// `RAND_DRBG_generate(drbg, out, outlen, prediction_resistance, adin,
    /// adinlen)`, where `out` is the caller's buffer and `adin` is null: this
    /// crate has no additional input.
    DrbgGenerate { drbg: usize, outlen: size_t, prediction_resistance: c_int, adinlen: size_t },
    /// `RAND_DRBG_free(drbg)`.
    DrbgFree { drbg: usize },
    /// Drain the calling thread's error queue.
    ErrorStackGet,
}

/// What a native call handed back.
#[derive(Debug, PartialEq, Eq)]
pub enum Reply {
    /// The call returns nothing.
    Nothing,
    /// The call's status code.
    Code(c_int),
    /// The address that the call returned; 0 is the null pointer.
    Pointer(usize),
    /// The records that were on the error queue.
    Errors(ErrorStack),
}

impl Call {
    /// The generator that this call works on, if it works on one.
    pub open spec fn drbg(self) -> Option<usize> {
        match self {
            Call::DrbgSetReseedInterval { drbg, .. } => Some(drbg),
            Call::DrbgSetReseedTimeInterval { drbg, .. } => Some(drbg),
            Call::DrbgSetCallbacks { drbg, .. } => Some(drbg),
            Call::DrbgInstantiate { drbg, .. } => Some(drbg),
            Call::DrbgGenerate { drbg, .. } => Some(drbg),
            Call::DrbgFree { drbg } => Some(drbg),
            _ => None,
        }
    }

    /// Whether `reply` is of the kind that this call returns.
    pub open spec fn answered_by(self, reply: Reply) -> bool {
        match self {
            Call::Init => reply is Nothing,
            Call::RandBytes { .. } => reply is Code,
            Call::KeepRandomDevicesOpen { .. } => reply is Nothing,
            Call::DrbgNew { .. } => reply is Pointer,
            Call::DrbgSetReseedInterval { .. } => reply is Code,
            Call::DrbgSetReseedTimeInterval { .. } => reply is Code,
            Call::DrbgSetCallbacks { .. } => reply is Code,
            Call::DrbgInstantiate { .. } => reply is Code,
            Call::DrbgGenerate { .. } => reply is Code,
            Call::DrbgFree { .. } => reply is Nothing,
            Call::ErrorStackGet => reply is Errors,
        }
    }
}

/// How far an operation has come after a reply.
#[derive(Debug, PartialEq, Eq)]
pub enum Progress<S, T> {
    /// Another native call is to be made, the one that this state names.
    Pending(S),
    /// The operation is over, with this result.
    Done(T),
}

/// The native convention for a status code: a positive code reports success,
/// zero and every negative code a failure that left records on the error queue.
pub open spec fn succeeded(code: c_int) -> bool {
    code > 0
}

} // verus!
