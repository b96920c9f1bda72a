//! The deterministic random bit generator: its construction, its use and its
//! release.
//!
//! A native generator is uninstantiated from its allocation until its
//! construction is over, instantiated from then on, and freed at last:
//! [`Lifecycle`]. Every generator is an AES-128 generator in counter mode
//! without a parent, without a cap on the calls or on the time between two
//! reseedings, seeded by the two fixed suppliers of this module.

use crate::error::ErrorStack;
use crate::native::{succeeded, Call, Progress, Reply, NID_AES_128_CTR};
use libc::{c_int, size_t};
use vstd::prelude::*;

verus! {

/// The entropy that [`get_entropy`] supplies: the bytes 0x00 to 0x1f.
///
/// These bytes are public and never change. A generator seeded with them is
/// predictable: it is fit for reproducible tests and for nothing else.
pub const ENTROPY_INPUT: [u8; 32] = [
    0x00, 0x01, 0x02, 0x03, 0x04, 0x05, 0x06, 0x07, 0x08, 0x09, 0x0a, 0x0b, 0x0c, 0x0d, 0x0e, 0x0f,
    0x10, 0x11, 0x12, 0x13, 0x14, 0x15, 0x16, 0x17, 0x18, 0x19, 0x1a, 0x1b, 0x1c, 0x1d, 0x1e, 0x1f,
];

/// The nonce that [`get_nonce`] supplies: the bytes 0x20 to 0x27. It is as
/// public and as fixed as [`ENTROPY_INPUT`].
pub const NONCE: [u8; 8] = [0x20, 0x21, 0x22, 0x23, 0x24, 0x25, 0x26, 0x27];

/// The `len` bytes that count up from `first`.
pub open spec fn counting_bytes(first: u8, len: nat) -> Seq<u8> {
    Seq::new(len, |i: int| (first + i) as u8)
}

/// The entropy supplier that every generator is given.
///
/// The native library calls it with the entropy and the lengths that it asks
/// for. None of them is read: the supply is [`ENTROPY_INPUT`] and its length,
/// whatever was asked.
#[allow(unused_variables)]
pub fn get_entropy(entropy: c_int, min_len: size_t, max_len: size_t, predict_resist: c_int) -> (supply:
    ([u8; 32], size_t))
    ensures
        supply.0 == ENTROPY_INPUT,
        supply.0@ == counting_bytes(0x00, 32),
        supply.1 == 32,
{
    assert(ENTROPY_INPUT@ =~= counting_bytes(0x00, 32));
    (ENTROPY_INPUT, 32)
}

/// The nonce supplier that every generator is given.
///
/// As [`get_entropy`], it reads nothing of what it is asked: the supply is
/// [`NONCE`] and its length.
#[allow(unused_variables)]
pub fn get_nonce(entropy: c_int, min_len: size_t, max_len: size_t) -> (supply: ([u8; 8], size_t))
    ensures
        supply.0 == NONCE,
        supply.0@ == counting_bytes(0x20, 8),
        supply.1 == 8,
{
    assert(NONCE@ =~= counting_bytes(0x20, 8));
    (NONCE, 8)
}

/// The states of a native generator.
#[derive(Debug, Clone, Copy, PartialEq, Eq)]
pub enum Lifecycle {
    /// Allocated, and not yet seeded.
    Uninstantiated,
    /// Seeded: it generates.
    Instantiated,
    /// Released: its address is no longer a generator.
    Freed,
}

/// A native generator: where it is and in which state.
pub struct DrbgState {
    /// The address of the native object, never 0 for a generator that was
    /// allocated.
    pub ptr: usize,
    /// How far the generator has come.
    pub lifecycle: Lifecycle,
}

impl DrbgState {
    /// The call that generates `len` bytes, for a generator that is
    /// instantiated; no call for any other.
    ///
    /// The call never asks for prediction resistance and gives no additional
    /// input.
    pub open spec fn generate(self, len: usize) -> Option<Call> {
        if self.lifecycle is Instantiated {
            Some(
                Call::DrbgGenerate {
                    drbg: self.ptr,
                    outlen: len,
                    prediction_resistance: 0,
                    adinlen: 0,
                },
            )
        } else {
            None
        }
    }

    /// The generator after its release, and the call that frees it; no call
    /// for a generator that is freed already.
    pub open spec fn release(self) -> (DrbgState, Option<Call>) {
        if self.lifecycle is Freed {
            (self, None)
        } else {
            (
                DrbgState { ptr: self.ptr, lifecycle: Lifecycle::Freed },
                Some(Call::DrbgFree { drbg: self.ptr }),
            )
        }
    }
}

/// Where the construction of a generator stands, by the native call that comes
/// next.
#[derive(Debug, PartialEq, Eq)]
pub enum ConstructionState {
    /// The generator is to be allocated.
    Allocate,
    /// The cap on the calls between two reseedings is to be lifted.
    SetReseedInterval { drbg: usize },
    /// The cap on the time between two reseedings is to be lifted.
    SetReseedTimeInterval { drbg: usize },
    /// The two suppliers are to be installed.
    SetCallbacks { drbg: usize },
    /// The generator is to be seeded.
    Instantiate { drbg: usize },
    /// A call failed, and the error queue is to be drained. `allocated` is the
    /// generator that the construction holds, if the allocation gave one.
    Errors { allocated: Option<usize> },
    /// The generator of the failed construction is to be freed.
    Free { drbg: usize, errors: ErrorStack },
}

/// How far a construction has come: another call is pending, or the
/// construction is over, with the generator or with the native library's
/// errors.
pub type ConstructionProgress = Progress<ConstructionState, Result<DrbgState, ErrorStack>>;

impl ConstructionState {
    /// The native call that comes next.
    pub open spec fn call(self) -> Call {
        match self {
            ConstructionState::Allocate => Call::DrbgNew {
                type_: NID_AES_128_CTR,
                flags: 0,
                parent: 0,
            },
            ConstructionState::SetReseedInterval { drbg } => Call::DrbgSetReseedInterval {
                drbg,
                interval: 0,
            },
            ConstructionState::SetReseedTimeInterval { drbg } => Call::DrbgSetReseedTimeInterval {
                drbg,
                interval: 0,
            },
            ConstructionState::SetCallbacks { drbg } => Call::DrbgSetCallbacks {
                drbg,
                get_entropy: true,
                cleanup_entropy: false,
                get_nonce: true,
                cleanup_nonce: false,
            },
            ConstructionState::Instantiate { drbg } => Call::DrbgInstantiate { drbg, perslen: 0 },
            ConstructionState::Errors { .. } => Call::ErrorStackGet,
            ConstructionState::Free { drbg, .. } => Call::DrbgFree { drbg },
        }
    }

    /// The generator that the construction holds: none before the allocation
    /// and none when the allocation gave the null pointer. It is
    /// uninstantiated as long as the construction lasts.
    pub open spec fn drbg(self) -> Option<DrbgState> {
        match self {
            ConstructionState::Allocate => None,
            ConstructionState::SetReseedInterval { drbg } => Some(uninstantiated(drbg)),
            ConstructionState::SetReseedTimeInterval { drbg } => Some(uninstantiated(drbg)),
            ConstructionState::SetCallbacks { drbg } => Some(uninstantiated(drbg)),
            ConstructionState::Instantiate { drbg } => Some(uninstantiated(drbg)),
            ConstructionState::Errors { allocated } => match allocated {
                Some(drbg) => Some(uninstantiated(drbg)),
                None => None,
            },
            ConstructionState::Free { drbg, .. } => Some(uninstantiated(drbg)),
        }
    }

    /// Where the construction stands after the pending call returned `reply`.
    ///
    /// The null pointer from the allocation and a status code that reports a
    /// failure send for the error queue: its records are the error of the
    /// construction, which comes once the generator, if there is one, is
    /// freed. After the last call the generator is instantiated. A reply of
    /// another kind than the pending call returns answers nothing: the call
    /// stays pending.
    pub open spec fn step(self, reply: Reply) -> ConstructionProgress {
        if !self.call().answered_by(reply) {
            Progress::Pending(self)
        } else {
            match self {
                ConstructionState::Allocate => if reply->Pointer_0 == 0 {
                    Progress::Pending(ConstructionState::Errors { allocated: None })
                } else {
                    Progress::Pending(
                        ConstructionState::SetReseedInterval { drbg: reply->Pointer_0 },
                    )
                },
                ConstructionState::SetReseedInterval { drbg } => Progress::Pending(
                    checked(reply->Code_0, drbg, ConstructionState::SetReseedTimeInterval { drbg }),
                ),
                ConstructionState::SetReseedTimeInterval { drbg } => Progress::Pending(
                    checked(reply->Code_0, drbg, ConstructionState::SetCallbacks { drbg }),
                ),
                ConstructionState::SetCallbacks { drbg } => Progress::Pending(
                    checked(reply->Code_0, drbg, ConstructionState::Instantiate { drbg }),
                ),
                ConstructionState::Instantiate { drbg } => if succeeded(reply->Code_0) {
                    Progress::Done(Ok(DrbgState { ptr: drbg, lifecycle: Lifecycle::Instantiated }))
                } else {
                    Progress::Pending(ConstructionState::Errors { allocated: Some(drbg) })
                },
                ConstructionState::Errors { allocated } => match allocated {
                    Some(drbg) => Progress::Pending(
                        ConstructionState::Free { drbg, errors: reply->Errors_0 },
                    ),
                    None => Progress::Done(Err(reply->Errors_0)),
                },
                ConstructionState::Free { errors, .. } => Progress::Done(Err(errors)),
            }
        }
    }

    /// The most calls that the construction still makes, the pending one
    /// counted.
    pub open spec fn remaining(self) -> nat {
        match self {
            ConstructionState::Allocate => 7,
            ConstructionState::SetReseedInterval { .. } => 6,
            ConstructionState::SetReseedTimeInterval { .. } => 5,
            ConstructionState::SetCallbacks { .. } => 4,
            ConstructionState::Instantiate { .. } => 3,
            ConstructionState::Errors { .. } => 2,
            ConstructionState::Free { .. } => 1,
        }
    }

    /// Whether each of `replies`, in its turn, is of the kind that the call
    /// pending then returns, as far as the construction reads them.
    pub open spec fn well_answered(self, replies: Seq<Reply>) -> bool
        decreases replies.len(),
    {
        replies.len() > 0 ==> self.call().answered_by(replies[0]) && match self.step(replies[0]) {
            Progress::Pending(next) => next.well_answered(replies.drop_first()),
            Progress::Done(_) => true,
        }
    }

    /// The calls that the construction makes from here when the native library
    /// answers them with `replies`, one after the other, and where that leaves
    /// the construction. Replies that come after the construction is over are
    /// not read.
    pub open spec fn run(self, replies: Seq<Reply>) -> (Seq<Call>, ConstructionProgress)
        decreases replies.len(),
    {
        if replies.len() == 0 {
            (Seq::empty(), Progress::Pending(self))
        } else {
            match self.step(replies[0]) {
                Progress::Pending(next) => {
                    let rest = next.run(replies.drop_first());
                    (seq![self.call()] + rest.0, rest.1)
                },
                Progress::Done(result) => (seq![self.call()], Progress::Done(result)),
            }
        }
    }
}

/// The generator at `ptr` while it is under construction.
pub open spec fn uninstantiated(ptr: usize) -> DrbgState {
    DrbgState { ptr, lifecycle: Lifecycle::Uninstantiated }
}

/// The state after a configuration call on the generator at `drbg` returned
/// `code`: `next` when the call succeeded, else the drain of the error queue.
pub open spec fn checked(code: c_int, drbg: usize, next: ConstructionState) -> ConstructionState {
    if succeeded(code) {
        next
    } else {
        ConstructionState::Errors { allocated: Some(drbg) }
    }
}

/// The construction of a generator that is under way.
///
/// The caller performs [`call`](Construction::call), hands what the call
/// returned to [`step`](Construction::step), and goes on with the state that
/// comes back until the construction is done. The view is the state of the
/// construction.
#[derive(Debug, PartialEq, Eq)]
pub struct Construction {
    state: ConstructionState,
}

impl View for Construction {
    type V = ConstructionState;

    closed spec fn view(&self) -> ConstructionState {
        self.state
    }
}

impl Construction {
    /// The native call to perform next.
    pub fn call(&self) -> (call: Call)
        ensures
            call == self@.call(),
    {
        match &self.state {
            ConstructionState::Allocate => Call::DrbgNew {
                type_: NID_AES_128_CTR,
                flags: 0,
                parent: 0,
            },
            ConstructionState::SetReseedInterval { drbg } => Call::DrbgSetReseedInterval {
                drbg: *drbg,
                interval: 0,
            },
            ConstructionState::SetReseedTimeInterval { drbg } => Call::DrbgSetReseedTimeInterval {
                drbg: *drbg,
                interval: 0,
            },
            ConstructionState::SetCallbacks { drbg } => Call::DrbgSetCallbacks {
                drbg: *drbg,
                get_entropy: true,
                cleanup_entropy: false,
                get_nonce: true,
                cleanup_nonce: false,
            },
            ConstructionState::Instantiate { drbg } => Call::DrbgInstantiate {
                drbg: *drbg,
                perslen: 0,
            },
            ConstructionState::Errors { .. } => Call::ErrorStackGet,
            ConstructionState::Free { drbg, .. } => Call::DrbgFree { drbg: *drbg },
        }
    }

    /// Takes what the pending call returned. The construction is then over,
    /// with the generator or with the error, or another call is pending.
    pub fn step(self, reply: Reply) -> (next: Progress<Construction, Result<RandDRBG, ErrorStack>>)
        ensures
            match next {
                Progress::Pending(construction) => self@.step(reply)
                    == ConstructionProgress::Pending(construction@),
                Progress::Done(Ok(drbg)) => self@.step(reply) == ConstructionProgress::Done(
                    Ok(drbg@),
                ),
                Progress::Done(Err(errors)) => self@.step(reply) == ConstructionProgress::Done(
                    Err(errors),
                ),
            },
            self@.call().answered_by(reply) ==> (next matches Progress::Pending(construction)
                ==> construction@.remaining() < self@.remaining()),
    {
        match (self.state, reply) {
            (ConstructionState::Allocate, Reply::Pointer(ptr)) => {
                if ptr == 0 {
                    pending(ConstructionState::Errors { allocated: None })
                } else {
                    pending(ConstructionState::SetReseedInterval { drbg: ptr })
                }
            },
            (ConstructionState::SetReseedInterval { drbg }, Reply::Code(code)) => pending(
                after(code, drbg, ConstructionState::SetReseedTimeInterval { drbg }),
            ),
            (ConstructionState::SetReseedTimeInterval { drbg }, Reply::Code(code)) => pending(
                after(code, drbg, ConstructionState::SetCallbacks { drbg }),
            ),
            (ConstructionState::SetCallbacks { drbg }, Reply::Code(code)) => pending(
                after(code, drbg, ConstructionState::Instantiate { drbg }),
            ),
            (ConstructionState::Instantiate { drbg }, Reply::Code(code)) => {
                if code > 0 {
                    Progress::Done(Ok(RandDRBG { ptr: drbg, lifecycle: Lifecycle::Instantiated }))
                } else {
                    pending(ConstructionState::Errors { allocated: Some(drbg) })
                }
            },
            (ConstructionState::Errors { allocated: Some(drbg) }, Reply::Errors(errors)) => pending(
                ConstructionState::Free { drbg, errors },
            ),
            (ConstructionState::Errors { allocated: None }, Reply::Errors(errors)) => {
                Progress::Done(Err(errors))
            },
            (ConstructionState::Free { errors, .. }, Reply::Nothing) => Progress::Done(Err(errors)),
            (state, _) => pending(state),
        }
    }
}

/// The construction that goes on in `state`.
fn pending(state: ConstructionState) -> (next: Progress<Construction, Result<RandDRBG, ErrorStack>>)
    ensures
        next matches Progress::Pending(construction) && construction@ == state,
{
    Progress::Pending(Construction { state })
}

/// The state after a configuration call on the generator at `drbg` returned
/// `code`.
fn after(code: c_int, drbg: usize, next: ConstructionState) -> (state: ConstructionState)
    ensures
        state == checked(code, drbg, next),
{
    if code > 0 {
        next
    } else {
        ConstructionState::Errors { allocated: Some(drbg) }
    }
}

/// A deterministic random bit generator of the native library, held by the one
/// value that may use and release it. There is no second handle to a
/// generator: the type is neither copied nor cloned.
///
/// Its seed is the fixed supply of [`get_entropy`] and [`get_nonce`], so what
/// it generates can be told in advance. The view says where the native
/// generator is and in which state.
#[derive(Debug, PartialEq, Eq)]
pub struct RandDRBG {
    ptr: usize,
    lifecycle: Lifecycle,
}

impl View for RandDRBG {
    type V = DrbgState;

    closed spec fn view(&self) -> DrbgState {
        DrbgState { ptr: self.ptr, lifecycle: self.lifecycle }
    }
}

impl RandDRBG {
    /// Starts the construction of a generator, with its allocation.
    pub fn new() -> (construction: Construction)
        ensures
            construction@ == ConstructionState::Allocate,
    {
        Construction { state: ConstructionState::Allocate }
    }

    /// The call that fills a buffer of `len` bytes from this generator, or
    /// `None` once the generator is released.
    ///
    /// Whether the native library filled the buffer is told by the status
    /// code that the call returns. That code is the caller's to read: this
    /// operation ends with the call and, by decision, reports no error.
    pub fn generate(&self, len: usize) -> (call: Option<Call>)
        ensures
            call == self@.generate(len),
    {
        match self.lifecycle {
            Lifecycle::Instantiated => Some(
                Call::DrbgGenerate {
                    drbg: self.ptr,
                    outlen: len,
                    prediction_resistance: 0,
                    adinlen: 0,
                },
            ),
            _ => None,
        }
    }

    /// Releases the generator: the call that frees it, the first time, and
    /// `None` every time after. The native call returns nothing.
    pub fn release(&mut self) -> (call: Option<Call>)
        ensures
            (final(self)@, call) == old(self)@.release(),
    {
        match self.lifecycle {
            Lifecycle::Freed => None,
            _ => {
                self.lifecycle = Lifecycle::Freed;
                Some(Call::DrbgFree { drbg: self.ptr })
            },
        }
    }
}

/// A construction whose calls all succeed makes five calls, on the generator
/// that the first of them allocated, and hands that generator out
/// instantiated: every call to generate from it is then to be had.
pub proof fn construction_succeeds(ptr: usize, codes: Seq<c_int>)
    requires
        ptr != 0,
        codes.len() == 4,
        forall|i: int| 0 <= i < 4 ==> succeeded(#[trigger] codes[i]),
    ensures
        ConstructionState::Allocate.run(
            seq![
                Reply::Pointer(ptr),
                Reply::Code(codes[0]),
                Reply::Code(codes[1]),
                Reply::Code(codes[2]),
                Reply::Code(codes[3]),
            ],
        ) == (
            seq![
                Call::DrbgNew { type_: NID_AES_128_CTR, flags: 0, parent: 0 },
                Call::DrbgSetReseedInterval { drbg: ptr, interval: 0 },
                Call::DrbgSetReseedTimeInterval { drbg: ptr, interval: 0 },
                Call::DrbgSetCallbacks {
                    drbg: ptr,
                    get_entropy: true,
                    cleanup_entropy: false,
                    get_nonce: true,
                    cleanup_nonce: false,
                },
                Call::DrbgInstantiate { drbg: ptr, perslen: 0 },
            ],
            ConstructionProgress::Done(Ok(DrbgState { ptr, lifecycle: Lifecycle::Instantiated })),
        ),
        forall|len: usize|
            (#[trigger] (DrbgState { ptr, lifecycle: Lifecycle::Instantiated }).generate(len))
                is Some,
{
    let replies = seq![
        Reply::Pointer(ptr),
        Reply::Code(codes[0]),
        Reply::Code(codes[1]),
        Reply::Code(codes[2]),
        Reply::Code(codes[3]),
    ];
    reveal_with_fuel(ConstructionState::run, 6);
    assert(ConstructionState::Allocate.run(replies).0 =~= seq![
        Call::DrbgNew { type_: NID_AES_128_CTR, flags: 0, parent: 0 },
        Call::DrbgSetReseedInterval { drbg: ptr, interval: 0 },
        Call::DrbgSetReseedTimeInterval { drbg: ptr, interval: 0 },
        Call::DrbgSetCallbacks {
            drbg: ptr,
            get_entropy: true,
            cleanup_entropy: false,
            get_nonce: true,
            cleanup_nonce: false,
        },
        Call::DrbgInstantiate { drbg: ptr, perslen: 0 },
    ]);
}

/// A construction whose allocation gives the null pointer drains the error
/// queue and fails with the records that were there. It frees nothing: there
/// is nothing to free.
pub proof fn allocation_fails(errors: ErrorStack)
    ensures
        ConstructionState::Allocate.run(seq![Reply::Pointer(0), Reply::Errors(errors)]) == (
            seq![
                Call::DrbgNew { type_: NID_AES_128_CTR, flags: 0, parent: 0 },
                Call::ErrorStackGet,
            ],
            ConstructionProgress::Done(Err(errors)),
        ),
{
    let replies = seq![Reply::Pointer(0), Reply::Errors(errors)];
    reveal_with_fuel(ConstructionState::run, 3);
    assert(ConstructionState::Allocate.run(replies).0 =~= seq![
        Call::DrbgNew { type_: NID_AES_128_CTR, flags: 0, parent: 0 },
        Call::ErrorStackGet,
    ]);
}

/// A construction that holds a generator when a call on it reports a failure
/// drains the error queue, frees the generator, and fails with the records
/// that were on the queue. The call that frees is the one that releases the
/// uninstantiated generator.
pub proof fn configuration_fails(state: ConstructionState, code: c_int, errors: ErrorStack)
    requires
        state.call().answered_by(Reply::Code(code)),
        !succeeded(code),
    ensures
        state.drbg() is Some,
        state.run(seq![Reply::Code(code), Reply::Errors(errors), Reply::Nothing]) == (
            seq![
                state.call(),
                Call::ErrorStackGet,
                Call::DrbgFree { drbg: state.drbg()->0.ptr },
            ],
            ConstructionProgress::Done(Err(errors)),
        ),
        state.drbg()->0.release() == (
            DrbgState { ptr: state.drbg()->0.ptr, lifecycle: Lifecycle::Freed },
            Some(Call::DrbgFree { drbg: state.drbg()->0.ptr }),
        ),
{
    let replies = seq![Reply::Code(code), Reply::Errors(errors), Reply::Nothing];
    reveal_with_fuel(ConstructionState::run, 4);
    assert(state.run(replies).0 =~= seq![
        state.call(),
        Call::ErrorStackGet,
        Call::DrbgFree { drbg: state.drbg()->0.ptr },
    ]);
}

/// Whether every call of `calls` that works on a generator works on `drbg`;
/// with no `drbg`, whether none of them works on a generator.
pub open spec fn works_on(calls: Seq<Call>, drbg: Option<usize>) -> bool {
    forall|i: int|
        0 <= i < calls.len() ==> (#[trigger] calls[i]).drbg() is Some ==> calls[i].drbg() == drbg
}

/// Whether no call of `calls` frees a generator, but for the last, which may.
pub open spec fn frees_last_at_most(calls: Seq<Call>) -> bool {
    forall|i: int| 0 <= i < calls.len() - 1 ==> !(#[trigger] calls[i] is DrbgFree)
}

/// Whatever the native library answers from here to a construction that has
/// allocated: the construction works on no generator but its own. When it
/// ends with a generator it has freed nothing and hands out its own,
/// instantiated. When it fails it has freed its own, if it has one, once, as
/// its last call.
pub proof fn construction_keeps_or_frees(state: ConstructionState, replies: Seq<Reply>)
    requires
        state !is Allocate,
        state.well_answered(replies),
    ensures
        ({
            let (calls, end) = state.run(replies);
            let own = state.drbg();
            &&& works_on(calls, if own is Some { Some(own->0.ptr) } else { None })
            &&& frees_last_at_most(calls)
            &&& end is Done && end->Done_0 is Ok ==> {
                &&& own is Some
                &&& end->Done_0->Ok_0 == (DrbgState {
                    ptr: own->0.ptr,
                    lifecycle: Lifecycle::Instantiated,
                })
                &&& !(calls.last() is DrbgFree)
            }
            &&& end is Done && end->Done_0 is Err && own is Some ==> calls.last()
                == Call::DrbgFree { drbg: own->0.ptr }
        }),
    decreases replies.len(),
{
    if replies.len() > 0 {
        match state.step(replies[0]) {
            Progress::Pending(next) => {
                construction_keeps_or_frees(next, replies.drop_first());
            },
            Progress::Done(_) => {},
        }
    }
}

/// Whatever the native library answers to a construction: every call that
/// works on a generator works on the one that the allocation gave, and none
/// does when the allocation gave the null pointer. A construction that ends
/// with a generator has freed nothing and hands out that one, instantiated. A
/// construction that fails after its allocation gave a generator has freed
/// it, once, as its last call.
pub proof fn construction_owns_its_generator(replies: Seq<Reply>)
    requires
        replies.len() > 0,
        ConstructionState::Allocate.well_answered(replies),
    ensures
        ({
            let (calls, end) = ConstructionState::Allocate.run(replies);
            let ptr = replies[0]->Pointer_0;
            &&& replies[0] is Pointer
            &&& works_on(calls, if ptr != 0 { Some(ptr) } else { None })
            &&& frees_last_at_most(calls)
            &&& end is Done && end->Done_0 is Ok ==> {
                &&& ptr != 0
                &&& end->Done_0->Ok_0 == (DrbgState { ptr, lifecycle: Lifecycle::Instantiated })
                &&& !(calls.last() is DrbgFree)
            }
            &&& end is Done && end->Done_0 is Err && ptr != 0 ==> calls.last()
                == Call::DrbgFree { drbg: ptr }
        }),
{
    let first = ConstructionState::Allocate;
    let next = first.step(replies[0])->Pending_0;
    let rest = next.run(replies.drop_first());
    construction_keeps_or_frees(next, replies.drop_first());
    assert(first.run(replies).0 =~= seq![first.call()] + rest.0);
}

/// A construction is over after seven calls at most: once the native library
/// has answered as many calls as the construction had left, it is done.
pub proof fn construction_ends(state: ConstructionState, replies: Seq<Reply>)
    requires
        state.well_answered(replies),
        replies.len() >= state.remaining(),
    ensures
        state.run(replies).1 is Done,
        state.run(replies).0.len() <= state.remaining(),
    decreases replies.len(),
{
    match state.step(replies[0]) {
        Progress::Pending(next) => {
            construction_ends(next, replies.drop_first());
        },
        Progress::Done(_) => {},
    }
}

/// A generator is freed once: its release leaves it freed, and a freed
/// generator has no call left, neither to free it again nor to generate.
pub proof fn release_once(drbg: DrbgState, len: usize)
    ensures
        drbg.lifecycle !is Freed ==> drbg.release().1 == Some(Call::DrbgFree { drbg: drbg.ptr }),
        drbg.release().0 == (DrbgState { ptr: drbg.ptr, lifecycle: Lifecycle::Freed }),
        drbg.release().0.release() == (drbg.release().0, None::<Call>),
        drbg.release().0.generate(len) is None,
{
}

} // verus!
