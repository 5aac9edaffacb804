//! A measurement session: its configuration, the native calls its operations
//! turn into, and the life cycle of its native handle.
//!
//! A `State` never touches the native engine. Each operation returns the
//! `Call` that the caller has to perform; what the engine answered comes back
//! through `attach` (the handle from `Init`), `complete` (the status of a
//! configuration or ingestion call) or `to_result_t` (status and value of a
//! measurement). The handle is given out for destruction once: `release`
//! returns the `Destroy` call for a live session and nothing ever after.
//!
//! A `State` cannot be cloned, so no two values hold the same live handle.

use crate::call::Call;
use crate::channel::{lemma_channel_alias, Channel};
use crate::error::{spec_is_known_status, spec_to_result_t, to_result, Error, STATUS_SUCCESS};
use crate::mode::{
    encode_modes, is_mode_mask, lemma_encode_modes, mask_enables, requested, spec_encode_modes,
    Mode,
};
use vstd::arithmetic::div_mod::{lemma_fundamental_div_mod, lemma_mod_multiples_basic};
use vstd::prelude::*;

verus! {

/// Where a session is in its life.
#[derive(Clone, Copy, PartialEq, Eq, Debug, Structural)]
pub enum Phase {
    /// Configured, native state not yet allocated.
    Pending,
    /// Holds a native state.
    Live,
    /// Holds no native state any more, or never got one.
    Closed,
}

/// What a session is, for specifications.
pub struct StateView {
    pub phase: Phase,
    /// Address of the native state; meaningful while the session is live.
    pub handle: usize,
    /// Channel count as the native engine has it.
    pub channels: u32,
    /// Sample rate as the native engine has it.
    pub samplerate: u64,
    /// Mode mask the native state was, or will be, created with.
    pub mode: i32,
}

/// Whether `frames` frames of `channels` channels hold exactly `samples`
/// samples: a frame is one sample for each channel.
pub open spec fn fills(frames: int, channels: int, samples: int) -> bool {
    frames * channels == samples
}

/// The number of whole frames in `samples` interleaved samples of `channels`
/// channels, if the samples make up whole frames.
pub open spec fn whole_frames(samples: int, channels: int) -> Option<int> {
    if channels > 0 && samples % channels == 0 {
        Some(samples / channels)
    } else if channels == 0 && samples == 0 {
        Some(0)
    } else {
        None
    }
}

impl StateView {
    /// A live session has a handle that is not null, and the mode mask is
    /// closed under prerequisites.
    pub open spec fn wf(self) -> bool {
        &&& self.phase is Live ==> self.handle != 0
        &&& is_mode_mask(self.mode)
    }

    pub open spec fn is_live(self) -> bool {
        self.phase is Live
    }

    /// The session that `new` makes.
    pub open spec fn pending(channels: u32, samplerate: u64, mode: i32) -> StateView {
        StateView { phase: Phase::Pending, handle: 0, channels, samplerate, mode }
    }

    /// The call that allocates the native state.
    pub open spec fn init(self) -> Call {
        Call::Init { channels: self.channels, samplerate: self.samplerate, mode: self.mode }
    }

    /// The session after the engine answered `Init` with `handle`.
    pub open spec fn attach(self, handle: usize) -> StateView {
        if handle != 0 {
            StateView { phase: Phase::Live, handle, ..self }
        } else {
            StateView { phase: Phase::Closed, ..self }
        }
    }

    pub open spec fn set_channel(self, channel_number: u32, value: Channel) -> Call {
        Call::SetChannel { handle: self.handle, channel_number, value: value.spec_native_value() }
    }

    pub open spec fn change_parameters(self, channels: u32, samplerate: u64) -> Call {
        Call::ChangeParameters { handle: self.handle, channels, samplerate }
    }

    /// The number of frames in a buffer of `samples` samples.
    pub open spec fn frames(self, samples: usize) -> Option<usize> {
        match whole_frames(samples as int, self.channels as int) {
            Some(frames) => Some(frames as usize),
            None => None,
        }
    }

    /// The session after the engine answered `call` with `status`: a
    /// successful change of parameters on this session's handle takes effect,
    /// nothing else changes anything.
    pub open spec fn complete(self, call: Call, status: i32) -> StateView {
        match call {
            Call::ChangeParameters { handle, channels, samplerate } => {
                if status == STATUS_SUCCESS && self.phase is Live && handle == self.handle {
                    StateView { channels, samplerate, ..self }
                } else {
                    self
                }
            },
            _ => self,
        }
    }

    /// The call that frees the native state, if there is one to free.
    pub open spec fn release_call(self) -> Option<Call> {
        if self.phase is Live {
            Some(Call::Destroy { handle: self.handle })
        } else {
            None
        }
    }

    /// The session after `release`.
    pub open spec fn release(self) -> StateView {
        StateView { phase: Phase::Closed, ..self }
    }
}

/// One measurement session.
#[derive(Debug)]
pub struct State {
    phase: Phase,
    handle: usize,
    channels: u32,
    samplerate: u64,
    mode: i32,
}

impl View for State {
    type V = StateView;

    closed spec fn view(&self) -> StateView {
        StateView {
            phase: self.phase,
            handle: self.handle,
            channels: self.channels,
            samplerate: self.samplerate,
            mode: self.mode,
        }
    }
}

impl State {
    #[verifier::type_invariant]
    spec fn inv(self) -> bool {
        self@.wf()
    }

    /// Configures a session. Nothing is allocated yet: the session is
    /// pending until the `init` call was performed and its answer attached.
    ///
    /// The channel count is cut to the 32 bits the native engine takes. The
    /// modes are combined into one mask, which enables exactly the modes that
    /// the list requests, directly or as a prerequisite.
    pub fn new(channels: usize, samplerate: u64, modes: &[Mode]) -> (state: State)
        ensures
            state@ == StateView::pending(channels as u32, samplerate, spec_encode_modes(modes@)),
            state@.wf(),
            forall|mode: Mode| mask_enables(state@.mode, mode) <==> requested(modes@, mode),
    {
        let mode = encode_modes(modes);
        State {
            phase: Phase::Pending,
            handle: 0,
            channels: #[verifier::truncate]
            (channels as u32),
            samplerate,
            mode,
        }
    }

    /// The call that allocates a native state with the configuration of this
    /// session. It is to be performed once, while the session is pending, and
    /// its answer handed to `attach`.
    pub fn init(&self) -> (call: Call)
        ensures
            call == self@.init(),
    {
        Call::Init { channels: self.channels, samplerate: self.samplerate, mode: self.mode }
    }

    /// Takes the engine's answer to `init`. A null handle means that the
    /// engine did not allocate: the session is closed at once, is never
    /// live, and `release` will give out nothing for it.
    #[must_use]
    pub fn attach(&mut self, handle: usize) -> (live: bool)
        requires
            old(self)@.phase is Pending,
        ensures
            final(self)@ == old(self)@.attach(handle),
            live == (handle != 0),
            live == final(self)@.is_live(),
    {
        proof {
            use_type_invariant(&*self);
        }
        if handle != 0 {
            self.handle = handle;
            self.phase = Phase::Live;
            true
        } else {
            self.phase = Phase::Closed;
            false
        }
    }

    /// Where the session is in its life.
    pub fn phase(&self) -> (phase: Phase)
        ensures
            phase == self@.phase,
    {
        self.phase
    }

    /// Whether the session holds a native state.
    pub fn is_live(&self) -> (live: bool)
        ensures
            live == self@.is_live(),
            live ==> self@.handle != 0,
    {
        proof {
            use_type_invariant(self);
        }
        match self.phase {
            Phase::Live => true,
            _ => false,
        }
    }

    /// Gives out the native state for destruction, once.
    ///
    /// For a live session the result is the `Destroy` call for its handle,
    /// and the session is closed. For a session that is pending or closed,
    /// whether it was released before or never got a handle, the result is
    /// `None`.
    #[must_use]
    pub fn release(&mut self) -> (call: Option<Call>)
        ensures
            call == old(self)@.release_call(),
            final(self)@ == old(self)@.release(),
            !final(self)@.is_live(),
            call is Some <==> old(self)@.is_live(),
    {
        proof {
            use_type_invariant(&*self);
        }
        let call = match self.phase {
            Phase::Live => Some(Call::Destroy { handle: self.handle }),
            _ => None,
        };
        self.phase = Phase::Closed;
        call
    }

    /// Takes the status with which the engine answered a configuration or
    /// ingestion call, and decodes it.
    ///
    /// A change of parameters that succeeded becomes the session's
    /// configuration. Whatever the status, the session stays in its phase and
    /// keeps its handle and its modes.
    pub fn complete(&mut self, call: Call, status: i32) -> (r: Result<(), Error>)
        requires
            spec_is_known_status(status),
        ensures
            r == spec_to_result_t(status, ()),
            r is Ok <==> status == STATUS_SUCCESS,
            final(self)@ == old(self)@.complete(call, status),
            final(self)@.phase == old(self)@.phase,
            final(self)@.handle == old(self)@.handle,
            final(self)@.mode == old(self)@.mode,
    {
        proof {
            use_type_invariant(&*self);
        }
        if status == STATUS_SUCCESS {
            match call {
                Call::ChangeParameters { handle, channels, samplerate } => {
                    if self.is_live() && handle == self.handle {
                        self.channels = channels;
                        self.samplerate = samplerate;
                    }
                },
                _ => {},
            }
        }
        to_result(status)
    }

    /// The call that gives channel `channel_number` the role `value`.
    ///
    /// The role goes out under the number the native engine knows it by, so
    /// roles that the engine does not tell apart give the same call.
    pub fn set_channel(&self, channel_number: u32, value: Channel) -> (call: Call)
        requires
            self@.is_live(),
        ensures
            call == self@.set_channel(channel_number, value),
            call == (Call::SetChannel {
                handle: self@.handle,
                channel_number,
                value: value.itu_position().spec_code(),
            }),
            self@.handle != 0,
    {
        proof {
            use_type_invariant(self);
        }
        Call::SetChannel { handle: self.handle, channel_number, value: value.native_value() }
    }

    /// The call that changes channel count and sample rate of the native
    /// state. The session's own record changes when `complete` is told that
    /// the call succeeded.
    pub fn change_parameters(&self, channels: u32, samplerate: u64) -> (call: Call)
        requires
            self@.is_live(),
        ensures
            call == self@.change_parameters(channels, samplerate),
            self@.handle != 0,
    {
        proof {
            use_type_invariant(self);
        }
        Call::ChangeParameters { handle: self.handle, channels, samplerate }
    }

    /// The call that bounds the window, in milliseconds, that
    /// `loudness_window` can be asked for.
    pub fn set_max_window(&self, window: usize) -> (call: Call)
        requires
            self@.is_live(),
        ensures
            call == (Call::SetMaxWindow { handle: self@.handle, window: window as u64 }),
            self@.handle != 0,
    {
        proof {
            use_type_invariant(self);
        }
        Call::SetMaxWindow { handle: self.handle, window: window as u64 }
    }

    /// The call that bounds the history that the native state keeps.
    pub fn set_max_history(&self, history: usize) -> (call: Call)
        requires
            self@.is_live(),
        ensures
            call == (Call::SetMaxHistory { handle: self@.handle, history: history as u64 }),
            self@.handle != 0,
    {
        proof {
            use_type_invariant(self);
        }
        Call::SetMaxHistory { handle: self.handle, history: history as u64 }
    }

    /// The number of frames in a buffer of `samples` interleaved samples.
    ///
    /// A frame holds one sample for each channel. The result is `None` when
    /// the samples do not make up whole frames, which no buffer but the empty
    /// one does for a session without channels.
    pub fn frames(&self, samples: usize) -> (frames: Option<usize>)
        ensures
            frames == self@.frames(samples),
            frames matches Some(n) ==> fills(n as int, self@.channels as int, samples as int),
            frames is None ==> forall|n: int|
                !#[trigger] fills(n, self@.channels as int, samples as int),
    {
        proof {
            lemma_whole_frames(samples as int, self@.channels as int);
        }
        let channels = self.channels as usize;
        if channels == 0 {
            if samples == 0 {
                Some(0)
            } else {
                None
            }
        } else if samples % channels == 0 {
            Some(samples / channels)
        } else {
            None
        }
    }

    /// The call that feeds a buffer of `samples` 16-bit integer samples, or
    /// `None` when the samples do not make up whole frames.
    pub fn add_frames_short(&self, samples: usize) -> (call: Option<Call>)
        requires
            self@.is_live(),
        ensures
            self@.frames(samples) matches Some(frames) ==> call == Some(
                Call::AddFramesShort { handle: self@.handle, frames },
            ) && fills(frames as int, self@.channels as int, samples as int),
            self@.frames(samples) is None ==> call is None,
            self@.handle != 0,
    {
        proof {
            use_type_invariant(self);
        }
        match self.frames(samples) {
            Some(frames) => Some(Call::AddFramesShort { handle: self.handle, frames }),
            None => None,
        }
    }

    /// The call that feeds a buffer of `samples` 32-bit integer samples, or
    /// `None` when the samples do not make up whole frames.
    pub fn add_frames_int(&self, samples: usize) -> (call: Option<Call>)
        requires
            self@.is_live(),
        ensures
            self@.frames(samples) matches Some(frames) ==> call == Some(
                Call::AddFramesInt { handle: self@.handle, frames },
            ) && fills(frames as int, self@.channels as int, samples as int),
            self@.frames(samples) is None ==> call is None,
            self@.handle != 0,
    {
        proof {
            use_type_invariant(self);
        }
        match self.frames(samples) {
            Some(frames) => Some(Call::AddFramesInt { handle: self.handle, frames }),
            None => None,
        }
    }

    /// The call that feeds a buffer of `samples` 32-bit floating-point
    /// samples, or `None` when the samples do not make up whole frames.
    pub fn add_frames_float(&self, samples: usize) -> (call: Option<Call>)
        requires
            self@.is_live(),
        ensures
            self@.frames(samples) matches Some(frames) ==> call == Some(
                Call::AddFramesFloat { handle: self@.handle, frames },
            ) && fills(frames as int, self@.channels as int, samples as int),
            self@.frames(samples) is None ==> call is None,
            self@.handle != 0,
    {
        proof {
            use_type_invariant(self);
        }
        match self.frames(samples) {
            Some(frames) => Some(Call::AddFramesFloat { handle: self.handle, frames }),
            None => None,
        }
    }

    /// The call that feeds a buffer of `samples` 64-bit floating-point
    /// samples, or `None` when the samples do not make up whole frames.
    pub fn add_frames_double(&self, samples: usize) -> (call: Option<Call>)
        requires
            self@.is_live(),
        ensures
            self@.frames(samples) matches Some(frames) ==> call == Some(
                Call::AddFramesDouble { handle: self@.handle, frames },
            ) && fills(frames as int, self@.channels as int, samples as int),
            self@.frames(samples) is None ==> call is None,
            self@.handle != 0,
    {
        proof {
            use_type_invariant(self);
        }
        match self.frames(samples) {
            Some(frames) => Some(Call::AddFramesDouble { handle: self.handle, frames }),
            None => None,
        }
    }

    /// The call that asks for the integrated loudness.
    pub fn loudness_global(&self) -> (call: Call)
        requires
            self@.is_live(),
        ensures
            call == (Call::LoudnessGlobal { handle: self@.handle }),
            self@.handle != 0,
    {
        proof {
            use_type_invariant(self);
        }
        Call::LoudnessGlobal { handle: self.handle }
    }

    /// The call that asks for the momentary loudness.
    pub fn loudness_momentary(&self) -> (call: Call)
        requires
            self@.is_live(),
        ensures
            call == (Call::LoudnessMomentary { handle: self@.handle }),
            self@.handle != 0,
    {
        proof {
            use_type_invariant(self);
        }
        Call::LoudnessMomentary { handle: self.handle }
    }

    /// The call that asks for the short-term loudness.
    pub fn loudness_shortterm(&self) -> (call: Call)
        requires
            self@.is_live(),
        ensures
            call == (Call::LoudnessShortterm { handle: self@.handle }),
            self@.handle != 0,
    {
        proof {
            use_type_invariant(self);
        }
        Call::LoudnessShortterm { handle: self.handle }
    }

    /// The call that asks for the loudness of the last `window` milliseconds.
    pub fn loudness_window(&self, window: usize) -> (call: Call)
        requires
            self@.is_live(),
        ensures
            call == (Call::LoudnessWindow { handle: self@.handle, window: window as u64 }),
            self@.handle != 0,
    {
        proof {
            use_type_invariant(self);
        }
        Call::LoudnessWindow { handle: self.handle, window: window as u64 }
    }

    /// The call that asks for the loudness range.
    pub fn loudness_range(&self) -> (call: Call)
        requires
            self@.is_live(),
        ensures
            call == (Call::LoudnessRange { handle: self@.handle }),
            self@.handle != 0,
    {
        proof {
            use_type_invariant(self);
        }
        Call::LoudnessRange { handle: self.handle }
    }

    /// The call that asks for the sample peak of a channel.
    pub fn sample_peak(&self, channel_number: u32) -> (call: Call)
        requires
            self@.is_live(),
        ensures
            call == (Call::SamplePeak { handle: self@.handle, channel_number }),
            self@.handle != 0,
    {
        proof {
            use_type_invariant(self);
        }
        Call::SamplePeak { handle: self.handle, channel_number }
    }

    /// The call that asks for the sample peak of a channel in the frames fed
    /// last.
    pub fn prev_sample_peak(&self, channel_number: u32) -> (call: Call)
        requires
            self@.is_live(),
        ensures
            call == (Call::PrevSamplePeak { handle: self@.handle, channel_number }),
            self@.handle != 0,
    {
        proof {
            use_type_invariant(self);
        }
        Call::PrevSamplePeak { handle: self.handle, channel_number }
    }

    /// The call that asks for the true peak of a channel.
    pub fn true_peak(&self, channel_number: u32) -> (call: Call)
        requires
            self@.is_live(),
        ensures
            call == (Call::TruePeak { handle: self@.handle, channel_number }),
            self@.handle != 0,
    {
        proof {
            use_type_invariant(self);
        }
        Call::TruePeak { handle: self.handle, channel_number }
    }

    /// The call that asks for the true peak of a channel in the frames fed
    /// last.
    pub fn prev_true_peak(&self, channel_number: u32) -> (call: Call)
        requires
            self@.is_live(),
        ensures
            call == (Call::PrevTruePeak { handle: self@.handle, channel_number }),
            self@.handle != 0,
    {
        proof {
            use_type_invariant(self);
        }
        Call::PrevTruePeak { handle: self.handle, channel_number }
    }

    /// The channel count of the session, as the native engine has it.
    pub fn channels(&self) -> (channels: u32)
        ensures
            channels == self@.channels,
    {
        self.channels
    }

    /// The sample rate of the session, as the native engine has it.
    pub fn samplerate(&self) -> (samplerate: u64)
        ensures
            samplerate == self@.samplerate,
    {
        self.samplerate
    }

    /// The mode mask of the session.
    pub fn mode(&self) -> (mode: i32)
        ensures
            mode == self@.mode,
            is_mode_mask(mode),
    {
        proof {
            use_type_invariant(self);
        }
        self.mode
    }

    /// Whether the session was created with `mode`, directly or as a
    /// prerequisite of another mode.
    pub fn enables(&self, mode: Mode) -> (enabled: bool)
        ensures
            enabled == mask_enables(self@.mode, mode),
    {
        let bits = mode.native_bits();
        self.mode & bits == bits
    }
}

/// `whole_frames` finds the frame count wherever there is one: its result
/// times the channel count is the sample count, and it is `None` only when no
/// number of frames has that many samples.
pub proof fn lemma_whole_frames(samples: int, channels: int)
    requires
        0 <= samples,
        0 <= channels,
    ensures
        whole_frames(samples, channels) matches Some(frames) ==> 0 <= frames <= samples && fills(
            frames,
            channels,
            samples,
        ),
        whole_frames(samples, channels) is None ==> forall|n: int|
            !#[trigger] fills(n, channels, samples),
{
    if channels > 0 {
        lemma_fundamental_div_mod(samples, channels);
        if samples % channels == 0 {
            let frames = samples / channels;
            assert(frames * channels == samples) by (nonlinear_arith)
                requires
                    samples == channels * frames,
            ;
            assert(0 <= frames <= samples) by (nonlinear_arith)
                requires
                    frames * channels == samples,
                    channels > 0,
                    samples >= 0,
            ;
        } else {
            assert forall|n: int| !#[trigger] fills(n, channels, samples) by {
                lemma_mod_multiples_basic(n, channels);
            }
        }
    } else if samples != 0 {
        assert forall|n: int| !#[trigger] fills(n, channels, samples) by {
            assert(n * 0 == 0) by (nonlinear_arith);
        }
    }
}

/// The mode mask that reaches the native engine at construction enables
/// every mode of the list together with everything that mode needs, and no
/// mode that the list does not ask for.
pub proof fn lemma_init_enables_prerequisites(
    channels: u32,
    samplerate: u64,
    modes: Seq<Mode>,
    i: int,
    needed: Mode,
)
    requires
        0 <= i < modes.len(),
        modes[i].implies(needed),
    ensures
        ({
            let mask = spec_encode_modes(modes);
            &&& StateView::pending(channels, samplerate, mask).init() == (Call::Init {
                channels,
                samplerate,
                mode: mask,
            })
            &&& mask_enables(mask, modes[i])
            &&& mask_enables(mask, needed)
            &&& forall|other: Mode| mask_enables(mask, other) ==> requested(modes, other)
        }),
{
    lemma_encode_modes(modes);
    assert(requested(modes, modes[i])) by {
        assert(modes[i].implies(modes[i]));
    }
    assert(requested(modes, needed));
}

/// Two roles that name the same ITU position turn into the same call: the
/// native engine sees one number for both.
pub proof fn lemma_set_channel_alias(state: StateView, channel_number: u32, a: Channel, b: Channel)
    requires
        a.itu_position() == b.itu_position(),
    ensures
        state.set_channel(channel_number, a) == state.set_channel(channel_number, b),
        state.set_channel(channel_number, a) == state.set_channel(channel_number, a.itu_position()),
{
    lemma_channel_alias(a, b);
}

} // verus!
