use vstd::prelude::*;

use crate::matcher::Matcher;

verus! {

/// Size in bytes of the device's result record.
pub const RESULT_LEN: usize = 64;

/// Size in bytes of the key root handed to each round.
pub const KEY_ROOT_LEN: usize = 64;

/// Longest prefix the kernel takes: its length travels as one byte.
pub const MAX_PREFIX_LEN: usize = 255;

/// Whether every byte of `s` is zero.
pub open spec fn all_zero(s: Seq<u8>) -> bool {
    forall|i: int| 0 <= i < s.len() ==> s[i] == 0u8
}

/// The all-zero result record: "no match yet, or already consumed".
pub open spec fn sentinel() -> Seq<u8> {
    Seq::new(RESULT_LEN as nat, |i: int| 0u8)
}

/// Tests whether every byte of `bytes` is zero.
pub fn is_all_zero(bytes: &[u8]) -> (r: bool)
    ensures
        r == all_zero(bytes@),
{
    let mut i: usize = 0;
    while i < bytes.len()
        invariant
            i <= bytes@.len(),
            forall|j: int| 0 <= j < i ==> bytes@[j] == 0u8,
        decreases bytes@.len() - i,
    {
        if bytes[i] != 0 {
            return false;
        }
        i = i + 1;
    }
    true
}

/// The bytes to write into the device's result buffer to reset it.
pub fn zeroed_result() -> (r: Vec<u8>)
    ensures
        r@ == sentinel(),
{
    let mut v: Vec<u8> = Vec::new();
    while v.len() < RESULT_LEN
        invariant
            v@.len() <= RESULT_LEN,
            all_zero(v@),
        decreases RESULT_LEN - v@.len(),
    {
        v.push(0u8);
    }
    assert(v@ =~= sentinel());
    v
}

/// Why a session could not be set up.
#[derive(Clone, Copy, Debug, PartialEq, Eq, Structural)]
pub enum ConfigError {
    /// No compute platform is installed.
    NoPlatforms,
    /// The platform index is past the last platform, `max`.
    PlatformIndexOutOfRange { index: usize, max: usize },
    /// The matcher's prefix is longer than the kernel can take.
    PrefixTooLong { len: usize },
}

/// Why a round step was refused; the session is left as it was.
#[derive(Clone, Copy, Debug, PartialEq, Eq, Structural)]
pub enum RoundError {
    /// The step does not follow from the session's phase.
    OutOfOrder,
    /// The output buffer is not `RESULT_LEN` bytes long.
    BadOutLength,
    /// The key root is not `KEY_ROOT_LEN` bytes long.
    BadKeyRootLength,
    /// The output buffer still holds a record: the caller has not cleared it.
    OutNotZero,
    /// The record read back is not `RESULT_LEN` bytes long.
    BadResultLength,
}

/// Where a session stands in its round.
#[derive(Clone, Copy, Debug, PartialEq, Eq, Structural)]
pub enum Phase {
    /// Between rounds.
    Idle,
    /// Waiting for the key root to reach the device.
    WritingRoot,
    /// Waiting for the kernel dispatch to complete.
    Dispatching,
    /// Waiting for the result record to be read back.
    Reading,
    /// Waiting for the result buffer to be reset after a match.
    Clearing,
}

/// What the session asks of the device next.
#[derive(Clone, Copy, Debug, PartialEq, Eq, Structural)]
pub enum Action {
    /// Copy the round's key root into the device's key-root buffer.
    WriteKeyRoot,
    /// Run the kernel over all lanes and wait for it.
    Dispatch,
    /// Copy the device's result buffer into the caller's output buffer.
    ReadResult,
    /// Write `zeroed_result()` into the device's result buffer.
    ClearResult,
    /// The round is over; the flag says whether a match was found.
    Finish(bool),
}

/// What the device did, as reported back to the session.
#[derive(Clone, Debug)]
pub enum Event {
    KeyRootWritten,
    Dispatched,
    /// The result record that was read back.
    ResultRead(Vec<u8>),
    ResultCleared,
}

/// An `Event` as the contracts see it.
pub enum EventModel {
    KeyRootWritten,
    Dispatched,
    ResultRead(Seq<u8>),
    ResultCleared,
}

impl View for Event {
    type V = EventModel;

    open spec fn view(&self) -> EventModel {
        match self {
            Event::KeyRootWritten => EventModel::KeyRootWritten,
            Event::Dispatched => EventModel::Dispatched,
            Event::ResultRead(b) => EventModel::ResultRead(b@),
            Event::ResultCleared => EventModel::ResultCleared,
        }
    }
}

/// A session as the contracts see it.
pub struct SessionModel {
    pub platform_index: nat,
    pub device_index: nat,
    /// Parallel lanes of each dispatch.
    pub lanes: nat,
    pub prefix_len: nat,
    pub generate_seed: bool,
    pub phase: Phase,
    /// What the device's result buffer is known to hold; `None` while a
    /// dispatch may have written it and it has not been read back.
    pub result: Option<Seq<u8>>,
}

/// The phase decides what is known of the result buffer.
pub open spec fn model_wf(m: SessionModel) -> bool {
    &&& m.prefix_len <= MAX_PREFIX_LEN
    &&& match m.phase {
        Phase::Idle | Phase::WritingRoot | Phase::Dispatching => m.result == Some(sentinel()),
        Phase::Reading => m.result is None,
        Phase::Clearing => m.result matches Some(b) && b.len() == RESULT_LEN && !all_zero(b),
    }
}

/// A session right after construction.
pub open spec fn fresh(
    platform_index: nat,
    device_index: nat,
    lanes: nat,
    prefix_len: nat,
    generate_seed: bool,
) -> SessionModel {
    SessionModel {
        platform_index,
        device_index,
        lanes,
        prefix_len,
        generate_seed,
        phase: Phase::Idle,
        result: Some(sentinel()),
    }
}

/// The model with another phase and result knowledge.
pub open spec fn with_phase(m: SessionModel, phase: Phase, result: Option<Seq<u8>>) -> SessionModel {
    SessionModel { phase, result, ..m }
}

/// Opening a round with output buffer `out` and key root `root`.
pub open spec fn start_spec(m: SessionModel, out: Seq<u8>, root: Seq<u8>) -> (SessionModel, Result<Action, RoundError>) {
    if m.phase != Phase::Idle {
        (m, Err(RoundError::OutOfOrder))
    } else if out.len() != RESULT_LEN {
        (m, Err(RoundError::BadOutLength))
    } else if root.len() != KEY_ROOT_LEN {
        (m, Err(RoundError::BadKeyRootLength))
    } else if !all_zero(out) {
        (m, Err(RoundError::OutNotZero))
    } else {
        (with_phase(m, Phase::WritingRoot, m.result), Ok(Action::WriteKeyRoot))
    }
}

/// Taking in what the device did.
pub open spec fn advance_spec(m: SessionModel, e: EventModel) -> (SessionModel, Result<Action, RoundError>) {
    match e {
        EventModel::KeyRootWritten => if m.phase == Phase::WritingRoot {
            (with_phase(m, Phase::Dispatching, m.result), Ok(Action::Dispatch))
        } else {
            (m, Err(RoundError::OutOfOrder))
        },
        EventModel::Dispatched => if m.phase == Phase::Dispatching {
            (with_phase(m, Phase::Reading, None), Ok(Action::ReadResult))
        } else {
            (m, Err(RoundError::OutOfOrder))
        },
        EventModel::ResultRead(b) => if m.phase != Phase::Reading {
            (m, Err(RoundError::OutOfOrder))
        } else if b.len() != RESULT_LEN {
            (m, Err(RoundError::BadResultLength))
        } else if all_zero(b) {
            (with_phase(m, Phase::Idle, Some(sentinel())), Ok(Action::Finish(false)))
        } else {
            (with_phase(m, Phase::Clearing, Some(b)), Ok(Action::ClearResult))
        },
        EventModel::ResultCleared => if m.phase == Phase::Clearing {
            (with_phase(m, Phase::Idle, Some(sentinel())), Ok(Action::Finish(true)))
        } else {
            (m, Err(RoundError::OutOfOrder))
        },
    }
}

/// The arguments the kernel is bound with, besides its buffers.
#[derive(Clone, Copy, Debug, PartialEq, Eq, Structural)]
pub struct KernelArgs {
    /// Global work size of each dispatch.
    pub lanes: usize,
    /// Prefix length, as the kernel's one-byte argument.
    pub prefix_len: u8,
    /// 1 when candidates are derived from a seed that is reported too, else 0.
    pub generate_seed: u8,
}

/// The host's side of a device session: what it is bound to, and the
/// protocol state of its rounds.
pub struct Gpu {
    platform_index: usize,
    device_index: usize,
    lanes: usize,
    prefix_len: u8,
    generate_seed: bool,
    phase: Phase,
    result: Ghost<Option<Seq<u8>>>,
}

impl View for Gpu {
    type V = SessionModel;

    closed spec fn view(&self) -> SessionModel {
        SessionModel {
            platform_index: self.platform_index as nat,
            device_index: self.device_index as nat,
            lanes: self.lanes as nat,
            prefix_len: self.prefix_len as nat,
            generate_seed: self.generate_seed,
            phase: self.phase,
            result: self.result@,
        }
    }
}

impl Gpu {
    pub open spec fn wf(&self) -> bool {
        model_wf(self@)
    }

    /// Sets up a session on platform `platform_idx` of `platform_count`, for
    /// device `device_idx` of it, dispatching `threads` lanes per round.
    /// The device index is not checked here: the device layer reports it.
    pub fn new(
        platform_count: usize,
        platform_idx: usize,
        device_idx: usize,
        threads: usize,
        matcher: &Matcher,
        generate_seed: bool,
    ) -> (r: Result<Gpu, ConfigError>)
        ensures
            platform_count == 0 ==> r == Err::<Gpu, ConfigError>(ConfigError::NoPlatforms),
            platform_count > 0 && platform_idx >= platform_count ==> r == Err::<Gpu, ConfigError>(
                ConfigError::PlatformIndexOutOfRange { index: platform_idx, max: (platform_count - 1) as usize },
            ),
            platform_idx < platform_count && matcher.pattern().len() > MAX_PREFIX_LEN ==> r
                == Err::<Gpu, ConfigError>(ConfigError::PrefixTooLong { len: matcher.pattern().len() as usize }),
            platform_idx < platform_count && matcher.pattern().len() <= MAX_PREFIX_LEN ==> (r matches Ok(g)
                && g@ == fresh(platform_idx as nat, device_idx as nat, threads as nat, matcher.pattern().len(), generate_seed)
                && g.wf()),
    {
        if platform_count == 0 {
            return Err(ConfigError::NoPlatforms);
        }
        if platform_idx >= platform_count {
            return Err(ConfigError::PlatformIndexOutOfRange { index: platform_idx, max: platform_count - 1 });
        }
        let len = matcher.prefix_len();
        if len > MAX_PREFIX_LEN {
            return Err(ConfigError::PrefixTooLong { len });
        }
        Ok(Gpu {
            platform_index: platform_idx,
            device_index: device_idx,
            lanes: threads,
            prefix_len: len as u8,
            generate_seed,
            phase: Phase::Idle,
            result: Ghost(Some(sentinel())),
        })
    }
    /// Opens a round that will read its result into `out` and derive its
    /// candidates from `key_root`. Asks for the key root to be written.
    /// On success the device's result buffer is known to hold the sentinel.
    pub fn start_round(&mut self, out: &[u8], key_root: &[u8]) -> (r: Result<Action, RoundError>)
        requires
            old(self).wf(),
        ensures
            final(self).wf(),
            (final(self)@, r) == start_spec(old(self)@, out@, key_root@),
            r is Ok ==> final(self)@.result == Some(sentinel()),
    {
        if self.phase != Phase::Idle {
            return Err(RoundError::OutOfOrder);
        }
        if out.len() != RESULT_LEN {
            return Err(RoundError::BadOutLength);
        }
        if key_root.len() != KEY_ROOT_LEN {
            return Err(RoundError::BadKeyRootLength);
        }
        if !is_all_zero(out) {
            return Err(RoundError::OutNotZero);
        }
        self.phase = Phase::WritingRoot;
        Ok(Action::WriteKeyRoot)
    }

    /// Takes in what the device did and says what it must do next. A round
    /// that found no match ends with the result buffer holding the sentinel;
    /// one that found a match ends only once the buffer has been reset.
    pub fn advance(&mut self, event: Event) -> (r: Result<Action, RoundError>)
        requires
            old(self).wf(),
        ensures
            final(self).wf(),
            (final(self)@, r) == advance_spec(old(self)@, event@),
            r == Ok::<Action, RoundError>(Action::Finish(false)) ==> final(self)@.result == Some(sentinel()),
            r == Ok::<Action, RoundError>(Action::Finish(true)) ==> old(self)@.phase == Phase::Clearing
                && event@ is ResultCleared && final(self)@.result == Some(sentinel()),
    {
        match event {
            Event::KeyRootWritten => {
                if self.phase != Phase::WritingRoot {
                    return Err(RoundError::OutOfOrder);
                }
                self.phase = Phase::Dispatching;
                Ok(Action::Dispatch)
            },
            Event::Dispatched => {
                if self.phase != Phase::Dispatching {
                    return Err(RoundError::OutOfOrder);
                }
                self.phase = Phase::Reading;
                self.result = Ghost(None);
                Ok(Action::ReadResult)
            },
            Event::ResultRead(bytes) => {
                if self.phase != Phase::Reading {
                    return Err(RoundError::OutOfOrder);
                }
                if bytes.len() != RESULT_LEN {
                    return Err(RoundError::BadResultLength);
                }
                if is_all_zero(bytes.as_slice()) {
                    self.phase = Phase::Idle;
                    self.result = Ghost(Some(sentinel()));
                    Ok(Action::Finish(false))
                } else {
                    self.phase = Phase::Clearing;
                    self.result = Ghost(Some(bytes@));
                    Ok(Action::ClearResult)
                }
            },
            Event::ResultCleared => {
                if self.phase != Phase::Clearing {
                    return Err(RoundError::OutOfOrder);
                }
                self.phase = Phase::Idle;
                self.result = Ghost(Some(sentinel()));
                Ok(Action::Finish(true))
            },
        }
    }

    /// The scalar arguments the kernel is bound with: the lane count, the
    /// prefix length as one byte (never truncated), and the seed flag as 0 or 1.
    pub fn kernel_args(&self) -> (r: KernelArgs)
        ensures
            r.lanes as nat == self@.lanes,
            r.prefix_len as nat == self@.prefix_len,
            r.generate_seed == (if self@.generate_seed { 1u8 } else { 0u8 }),
    {
        KernelArgs {
            lanes: self.lanes,
            prefix_len: self.prefix_len,
            generate_seed: if self.generate_seed { 1 } else { 0 },
        }
    }

    /// Index of the platform the session is bound to.
    pub fn platform_index(&self) -> (r: usize)
        ensures
            r as nat == self@.platform_index,
    {
        self.platform_index
    }

    /// Index of the device, within its platform, the session is bound to.
    pub fn device_index(&self) -> (r: usize)
        ensures
            r as nat == self@.device_index,
    {
        self.device_index
    }

    /// Where the session stands in its round.
    pub fn phase(&self) -> (r: Phase)
        ensures
            r == self@.phase,
    {
        self.phase
    }
}

} // verus!
