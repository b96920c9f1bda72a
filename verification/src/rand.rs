//! Filling a buffer with cryptographically strong random bytes, and the
//! control over the native library's random devices.

use crate::error::ErrorStack;
use crate::native::{succeeded, Call, Progress, Reply};
use libc::c_int;
use vstd::prelude::*;

verus! {

/// Where a fill of the caller's buffer stands, by the native call that comes
/// next.
#[derive(Debug, Clone, Copy, PartialEq, Eq)]
pub enum FillState {
    /// The native library is to be initialized.
    Init { num: c_int },
    /// The native library is to write `num` bytes.
    Fill { num: c_int },
    /// The fill failed, and the error queue is to be drained.
    Errors,
}

/// How far a fill has come: another call is pending, or the fill is over,
/// with the full buffer or with the native library's errors.
pub type FillProgress = Progress<FillState, Result<(), ErrorStack>>;

impl FillState {
    /// The native call that comes next.
    pub open spec fn call(self) -> Call {
        match self {
            FillState::Init { .. } => Call::Init,
            FillState::Fill { num } => Call::RandBytes { num },
            FillState::Errors => Call::ErrorStackGet,
        }
    }

    /// Where the fill stands after the pending call returned `reply`.
    ///
    /// A status code that reports success ends the fill. Any other sends for
    /// the error queue, whose records then are the error. A reply of another
    /// kind than the pending call returns answers nothing: the call stays
    /// pending.
    pub open spec fn step(self, reply: Reply) -> FillProgress {
        if !self.call().answered_by(reply) {
            Progress::Pending(self)
        } else {
            match self {
                FillState::Init { num } => Progress::Pending(FillState::Fill { num }),
                FillState::Fill { .. } => if succeeded(reply->Code_0) {
                    Progress::Done(Ok(()))
                } else {
                    Progress::Pending(FillState::Errors)
                },
                FillState::Errors => Progress::Done(Err(reply->Errors_0)),
            }
        }
    }

    /// The most calls that the fill still makes, the pending one counted.
    pub open spec fn remaining(self) -> nat {
        match self {
            FillState::Init { .. } => 3,
            FillState::Fill { .. } => 2,
            FillState::Errors => 1,
        }
    }

    /// Whether each of `replies`, in its turn, is of the kind that the call
    /// pending then returns, as far as the fill reads them.
    pub open spec fn well_answered(self, replies: Seq<Reply>) -> bool
        decreases replies.len(),
    {
        replies.len() > 0 ==> self.call().answered_by(replies[0]) && match self.step(replies[0]) {
            Progress::Pending(next) => next.well_answered(replies.drop_first()),
            Progress::Done(_) => true,
        }
    }

    /// Whether no count of bytes but `num` is ever asked for from here.
    pub open spec fn asks_for(self, num: c_int) -> bool {
        match self {
            FillState::Init { num: count } => count == num,
            FillState::Fill { num: count } => count == num,
            FillState::Errors => true,
        }
    }

    /// The calls that the fill makes from here when the native library
    /// answers them with `replies`, one after the other, and where that
    /// leaves the fill. Replies that come after the fill is over are not
    /// read.
    pub open spec fn run(self, replies: Seq<Reply>) -> (Seq<Call>, FillProgress)
        decreases replies.len(),
    {
        if replies.len() == 0 {
            (Seq::empty(), Progress::Pending(self))
        } else {
            match self.step(replies[0]) {
                Progress::Pending(next) => {
                    let rest = next.run(replies.drop_first());
                    (seq![self.call()] + rest.0, rest.1)
                },
                Progress::Done(result) => (seq![self.call()], Progress::Done(result)),
            }
        }
    }
}

/// A fill of the caller's buffer that is under way.
///
/// The caller performs [`call`](RandBytes::call) on its buffer, hands what the
/// call returned to [`step`](RandBytes::step), and goes on with the state that
/// comes back until the fill is done. The view is the state of the fill.
#[derive(Debug, PartialEq, Eq)]
pub struct RandBytes {
    state: FillState,
}

impl View for RandBytes {
    type V = FillState;

    closed spec fn view(&self) -> FillState {
        self.state
    }
}

impl RandBytes {
    /// The native call to perform next.
    pub fn call(&self) -> (call: Call)
        ensures
            call == self@.call(),
    {
        match self.state {
            FillState::Init { .. } => Call::Init,
            FillState::Fill { num } => Call::RandBytes { num },
            FillState::Errors => Call::ErrorStackGet,
        }
    }

    /// Takes what the pending call returned. The fill is then over, with its
    /// result, or another call is pending.
    pub fn step(self, reply: Reply) -> (next: Progress<RandBytes, Result<(), ErrorStack>>)
        ensures
            match next {
                Progress::Pending(fill) => self@.step(reply) == FillProgress::Pending(fill@),
                Progress::Done(result) => self@.step(reply) == FillProgress::Done(result),
            },
            self@.call().answered_by(reply) ==> (next matches Progress::Pending(fill)
                ==> fill@.remaining() < self@.remaining()),
    {
        match (self.state, reply) {
            (FillState::Init { num }, Reply::Nothing) => Progress::Pending(
                RandBytes { state: FillState::Fill { num } },
            ),
            (FillState::Fill { .. }, Reply::Code(code)) => {
                if code > 0 {
                    Progress::Done(Ok(()))
                } else {
                    Progress::Pending(RandBytes { state: FillState::Errors })
                }
            },
            (FillState::Errors, Reply::Errors(errors)) => Progress::Done(Err(errors)),
            (state, _) => Progress::Pending(RandBytes { state }),
        }
    }
}

/// Starts to fill a buffer of `len` bytes with cryptographically strong
/// pseudo-random bytes.
///
/// The native library counts the bytes in a `c_int`, so no longer buffer can
/// be filled. The fill asks for `len` bytes, the whole buffer, after the
/// native library was initialized.
pub fn rand_bytes(len: usize) -> (fill: RandBytes)
    requires
        len <= c_int::MAX,
    ensures
        fill@ == (FillState::Init { num: len as c_int }),
{
    RandBytes { state: FillState::Init { num: len as c_int } }
}

/// The request to keep the random devices open (`keep`) or to close them after
/// each use. The native call returns nothing.
pub fn keep_random_devices_open(keep: bool) -> (call: Call)
    ensures
        call == (Call::KeepRandomDevicesOpen { keep: if keep { 1 } else { 0 } }),
{
    Call::KeepRandomDevicesOpen { keep: if keep { 1 } else { 0 } }
}

/// A fill whose native call reports success makes two calls, the
/// initialization and the call that writes all `len` bytes, and succeeds.
pub proof fn rand_bytes_succeeds(len: usize, code: c_int)
    requires
        len <= c_int::MAX,
        succeeded(code),
    ensures
        (FillState::Init { num: len as c_int }).run(seq![Reply::Nothing, Reply::Code(code)]) == (
            seq![Call::Init, Call::RandBytes { num: len as c_int }],
            FillProgress::Done(Ok(())),
        ),
{
    let init = FillState::Init { num: len as c_int };
    let replies = seq![Reply::Nothing, Reply::Code(code)];
    reveal_with_fuel(FillState::run, 3);
    assert(init.run(replies).0 =~= seq![Call::Init, Call::RandBytes { num: len as c_int }]);
}

/// A fill whose native call reports a failure drains the error queue after it
/// and fails with the records that were there.
pub proof fn rand_bytes_fails(len: usize, code: c_int, errors: ErrorStack)
    requires
        len <= c_int::MAX,
        !succeeded(code),
    ensures
        (FillState::Init { num: len as c_int }).run(
            seq![Reply::Nothing, Reply::Code(code), Reply::Errors(errors)],
        ) == (
            seq![Call::Init, Call::RandBytes { num: len as c_int }, Call::ErrorStackGet],
            FillProgress::Done(Err(errors)),
        ),
{
    let init = FillState::Init { num: len as c_int };
    let replies = seq![Reply::Nothing, Reply::Code(code), Reply::Errors(errors)];
    reveal_with_fuel(FillState::run, 4);
    assert(init.run(replies).0 =~= seq![
        Call::Init,
        Call::RandBytes { num: len as c_int },
        Call::ErrorStackGet,
    ]);
}

/// Whatever the native library answers, a fill never asks it to write any
/// other count of bytes than the one that the fill was started with: the
/// length of the buffer.
pub proof fn fill_asks_for_the_buffer(state: FillState, num: c_int, replies: Seq<Reply>)
    requires
        state.asks_for(num),
    ensures
        forall|i: int|
            0 <= i < state.run(replies).0.len() ==> (#[trigger] state.run(replies).0[i]
                matches Call::RandBytes { num: count } ==> count == num),
    decreases replies.len(),
{
    if replies.len() > 0 {
        match state.step(replies[0]) {
            Progress::Pending(next) => {
                fill_asks_for_the_buffer(next, num, replies.drop_first());
            },
            Progress::Done(_) => {},
        }
    }
}

/// A fill is over after three calls at most: once the native library has
/// answered as many calls as the fill had left, the fill is done.
pub proof fn fill_ends(state: FillState, replies: Seq<Reply>)
    requires
        state.well_answered(replies),
        replies.len() >= state.remaining(),
    ensures
        state.run(replies).1 is Done,
        state.run(replies).0.len() <= state.remaining(),
    decreases replies.len(),
{
    match state.step(replies[0]) {
        Progress::Pending(next) => {
            fill_ends(next, replies.drop_first());
        },
        Progress::Done(_) => {},
    }
}

} // verus!
