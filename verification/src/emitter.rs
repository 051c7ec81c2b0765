//! The emitter: the voices of the instrument and the grains they spawn.

use crate::audio_clip::AudioClip;
use crate::audio_clip::AudioClipView;
use crate::envelope::held_level;
use crate::envelope::released_level;
use crate::envelope::AdsrEnvelope;
use crate::envelope::GrainEnvelope;
use crate::grain::Grain;
use crate::grain::GrainView;
use crate::params::EmitterParams;
use crate::params::KeyMode;
use crate::units::clamp_level;
use crate::units::lemma_mul_bound;
use crate::units::time_add;
use crate::units::UNITY;
use rand::Rng;
use std::collections::VecDeque;
use std::sync::mpsc::Receiver;
use std::sync::Arc;
use vstd::prelude::*;

verus! {

/// The receiving end of a channel of std.
#[verifier::external_type_specification]
#[verifier::external_body]
#[verifier::reject_recursive_types(T)]
pub struct ExReceiver<T>(std::sync::mpsc::Receiver<T>);

/// `Receiver::try_recv` of std: the next message that waits in the
/// channel, without blocking; `None` where none waits or the sender is
/// gone. Nothing is claimed of the message.
#[verifier::external_body]
fn try_receive<T>(receiver: &Receiver<T>) -> (message: Option<T>) {
    receiver.try_recv().ok()
}

/// `Rng::gen_range` of rand on the generator of `rand::thread_rng`: a
/// number drawn from the half-open range from `low` to `high`.
#[verifier::external_body]
fn random_between(low: u32, high: u32) -> (drawn: u32)
    requires
        low < high,
    ensures
        low <= drawn < high,
{
    rand::thread_rng().gen_range(low..high)
}

/// Where a voice is in its life.
#[derive(Clone, Copy, Debug, PartialEq, Eq, Structural)]
pub enum NoteState {
    /// The key is down, since this long.
    Held(u64),
    /// The key went up this long ago.
    Released(u64),
    /// The release has run out.
    Finished,
}

/// One voice: a key that was pressed, with the envelope it was pressed
/// under.
#[derive(Clone, Copy, Debug)]
pub struct Note {
    /// The MIDI key.
    pub key: u8,
    /// The note envelope at the moment the key went down.
    pub envelope: AdsrEnvelope,
    /// Where the voice is in its life.
    pub state: NoteState,
    /// The time since the voice last spawned a grain.
    pub since_last_grain: u64,
}

/// The time a new voice counts as having waited for a grain: long enough
/// to be due at once.
pub const FIRST_GRAIN_WAIT: u64 = 100_000_000_000;

impl Note {
    /// A voice whose key has just gone down.
    pub fn new(key: u8, envelope: AdsrEnvelope) -> (note: Self)
        ensures
            note == (Note {
                key,
                envelope,
                state: NoteState::Held(0),
                since_last_grain: FIRST_GRAIN_WAIT,
            }),
    {
        Note { key, envelope, state: NoteState::Held(0), since_last_grain: FIRST_GRAIN_WAIT }
    }

    /// The voice `delta_time` later: its timers have run on, and a release
    /// that has reached the release time of the envelope is over.
    pub open spec fn updated(self, delta_time: int) -> Note {
        Note {
            since_last_grain: time_add(self.since_last_grain as int, delta_time) as u64,
            state: match self.state {
                NoteState::Held(time) => NoteState::Held(
                    time_add(time as int, delta_time) as u64,
                ),
                NoteState::Released(time) => if time_add(time as int, delta_time)
                    >= self.envelope.release_time() {
                    NoteState::Finished
                } else {
                    NoteState::Released(time_add(time as int, delta_time) as u64)
                },
                NoteState::Finished => NoteState::Finished,
            },
            ..self
        }
    }

    /// Lets `delta_time` pass.
    pub fn update(&mut self, delta_time: u64)
        ensures
            *final(self) == old(self).updated(delta_time as int),
    {
        self.since_last_grain = self.since_last_grain.saturating_add(delta_time);
        match self.state {
            NoteState::Held(time) => {
                self.state = NoteState::Held(time.saturating_add(delta_time));
            },
            NoteState::Released(time) => {
                let new_time = time.saturating_add(delta_time);
                if new_time >= self.envelope.release.get() {
                    self.state = NoteState::Finished;
                } else {
                    self.state = NoteState::Released(new_time);
                }
            },
            NoteState::Finished => {},
        }
    }

    /// The level of the voice: its envelope at the time it has been held or
    /// released for, and silence once it is finished.
    pub open spec fn level(self) -> int {
        match self.state {
            NoteState::Held(time) => held_level(
                self.envelope.attack_time(),
                self.envelope.decay_time(),
                self.envelope.sustain(),
                time as int,
            ),
            NoteState::Released(time) => released_level(
                self.envelope.release_time(),
                self.envelope.sustain(),
                time as int,
            ),
            NoteState::Finished => 0,
        }
    }

    /// The level of the voice.
    pub fn amplitude(&self) -> (level: u32)
        ensures
            level == self.level(),
            level <= UNITY,
    {
        match self.state {
            NoteState::Held(time) => self.envelope.held_amplitude(time),
            NoteState::Released(time) => self.envelope.released_amplitude(time),
            NoteState::Finished => 0,
        }
    }

    /// The voice with its key let go: a held voice starts its release, any
    /// other stays as it is.
    pub open spec fn let_go(self) -> Note {
        match self.state {
            NoteState::Held(_) => Note { state: NoteState::Released(0), ..self },
            _ => self,
        }
    }

    /// The voice is in its release and has at most `left` of it to go.
    pub open spec fn released_with(self, left: int) -> bool {
        match self.state {
            NoteState::Released(time) => self.envelope.release_time() - time <= left,
            _ => false,
        }
    }

    /// The voice after it has spawned a grain.
    pub open spec fn rearmed(self) -> Note {
        Note { since_last_grain: 0, ..self }
    }
}

/// What the control side sends to an emitter.
#[derive(Debug)]
pub enum EmitterMessage {
    /// A key went down.
    NoteOn { key: u8, vel: u8 },
    /// A key went up.
    NoteOff { key: u8, vel: u8 },
    /// New settings, which replace the live ones whole.
    Params(EmitterParams),
    /// The end of the stream.
    Terminate,
}

/// The musical interval that a grain is shifted by, in semitones: in pitch
/// mode the distance of the key from middle C (key 60) plus the transpose
/// setting, in slice mode the transpose setting alone. It saturates at the
/// bounds of `i32`.
pub open spec fn pitch_interval(mode: KeyMode, key: u8, transpose: i32) -> int {
    match mode {
        KeyMode::Pitch => if key + transpose - 60 < i32::MIN {
            i32::MIN as int
        } else if key + transpose - 60 > i32::MAX {
            i32::MAX as int
        } else {
            key + transpose - 60
        },
        KeyMode::Slice => transpose as int,
    }
}

/// The time between two grains of one voice at `density` grains per
/// thousand seconds; at a density of zero no grain is ever due.
pub open spec fn interval_of(density: int) -> Option<int> {
    if density <= 0 {
        None
    } else {
        Some(1_000_000_000_000int / density)
    }
}

/// The voice is due for a grain.
pub open spec fn is_due(note: Note, interval: Option<int>) -> bool {
    interval matches Some(i) && note.since_last_grain >= i
}

/// Half the width of the window that the spray opens round the start
/// position, as a share of the clip: half the spray time over the length
/// of the clip, and at most the whole clip.
pub open spec fn spray_reach(spray: int, clip_total: int) -> int {
    if spray <= 0 {
        0
    } else if clip_total <= 0 {
        UNITY as int
    } else if (spray * UNITY) / (2 * clip_total) > UNITY {
        UNITY as int
    } else {
        (spray * UNITY) / (2 * clip_total)
    }
}

/// What a grain is to be made of, but for the random draw of its start.
#[derive(Clone, Copy, Debug)]
pub struct GrainPlan {
    /// The share of the clip at which the grain starts without spray.
    pub position: u32,
    /// The lowest start that the spray allows.
    pub low: u32,
    /// The bound below which the spray keeps the start.
    pub high: u32,
    /// The length of the grain.
    pub length: u64,
    /// The musical interval of the grain, in semitones.
    pub interval: i32,
    /// The level of the voice that spawns the grain.
    pub amplitude: u32,
    /// The window of the grain.
    pub envelope: GrainEnvelope,
}

impl GrainPlan {
    /// `start` is a start that the plan allows: one inside the window of the
    /// spray where there is one, else the position itself.
    pub open spec fn allows(self, start: u32) -> bool {
        if self.low < self.high {
            self.low <= start < self.high
        } else {
            start == self.position
        }
    }

    /// `grain` is a new grain on `clip` made to the plan.
    pub open spec fn makes<I>(self, clip: AudioClipView<I>, grain: GrainView) -> bool {
        &&& self.allows(grain.start_position)
        &&& grain == Grain::spec_new(
            clip,
            grain.start_position,
            self.length,
            self.interval,
            self.amplitude,
            self.envelope,
        )
    }

    /// The grain of the plan that starts at `start`.
    pub fn grain<I>(&self, clip: &AudioClip<I>, start: u32) -> (grain: Grain)
        ensures
            grain@ == Grain::spec_new(
                clip@,
                start,
                self.length,
                self.interval,
                self.amplitude,
                self.envelope,
            ),
            self.allows(start) ==> self.makes(clip@, grain@),
    {
        Grain::new(clip, start, self.length, self.interval, self.amplitude, self.envelope)
    }
}

/// The share of the clip at which the grains of `note` start before any
/// spray: the position setting in pitch mode; in slice mode the start of
/// the slice that the key selects, the key counted modulo the number of
/// slices. With no slices there is no start.
pub open spec fn start_position(params: EmitterParams, note: Note) -> Option<int> {
    match params.key_mode {
        KeyMode::Pitch => Some(clamp_level(params.position@.value as int)),
        KeyMode::Slice => if params.num_slices@.value == 0 {
            None
        } else {
            Some(
                ((note.key as int % params.num_slices@.value as int) * UNITY)
                    / params.num_slices@.value as int,
            )
        },
    }
}

/// The plan of the grain that `note` spawns under `params` on a clip that
/// lasts `clip_total`, or `None` where no grain can be made.
pub open spec fn plan_for(params: EmitterParams, clip_total: int, note: Note) -> Option<GrainPlan> {
    match start_position(params, note) {
        None => None,
        Some(position) => {
            let reach = spray_reach(params.spray@.value as int, clip_total);
            Some(
                GrainPlan {
                    position: position as u32,
                    low: if position - reach < 0 {
                        0
                    } else {
                        (position - reach) as u32
                    },
                    high: if position + reach > UNITY {
                        UNITY
                    } else {
                        (position + reach) as u32
                    },
                    length: params.length@.value,
                    interval: pitch_interval(
                        params.key_mode,
                        note.key,
                        params.transpose@.value,
                    ) as i32,
                    amplitude: note.level() as u32,
                    envelope: params.grain_envelope,
                },
            )
        },
    }
}

/// One frame in the life of the voices: every voice is `delta_time` older;
/// a finished voice is gone; a voice that is due spawns a grain, where one
/// can be made, and waits anew. The result is the voices that live on and
/// the plans of the grains spawned, both in the order of the voices.
pub open spec fn frame_of(
    notes: Seq<Note>,
    delta_time: int,
    params: EmitterParams,
    clip_total: int,
) -> (Seq<Note>, Seq<GrainPlan>)
    decreases notes.len(),
{
    if notes.len() == 0 {
        (Seq::empty(), Seq::empty())
    } else {
        let (live, plans) = frame_of(notes.drop_last(), delta_time, params, clip_total);
        let note = notes.last().updated(delta_time);
        if note.state is Finished {
            (live, plans)
        } else if is_due(note, interval_of(params.density@.value as int)) {
            (
                live.push(note.rearmed()),
                match plan_for(params, clip_total, note) {
                    Some(plan) => plans.push(plan),
                    None => plans,
                },
            )
        } else {
            (live.push(note), plans)
        }
    }
}

/// The voices after a key went down: the oldest voices are gone as far as
/// the polyphony asks, and the new voice is the youngest. With a polyphony
/// of zero no voice is left.
pub open spec fn after_note_on(notes: Seq<Note>, polyphony: int, note: Note) -> Seq<Note> {
    if polyphony <= 0 {
        Seq::empty()
    } else if notes.len() + 1 > polyphony {
        notes.subrange(notes.len() + 1 - polyphony, notes.len() as int).push(note)
    } else {
        notes.push(note)
    }
}

/// The voices after a key went up: every held voice of that key is let go.
pub open spec fn after_note_off(notes: Seq<Note>, key: u8) -> Seq<Note> {
    Seq::new(
        notes.len(),
        |i: int|
            if notes[i].key == key {
                notes[i].let_go()
            } else {
                notes[i]
            },
    )
}

/// What an emitter holds besides its clip and its inbox.
pub struct EmitterState {
    /// The channel of the sample that is produced next.
    pub channel: u16,
    /// The live settings.
    pub params: EmitterParams,
    /// The voices, oldest first.
    pub notes: Seq<Note>,
    /// The stream has ended.
    pub terminated: bool,
}

impl EmitterState {
    /// The state after one message.
    pub open spec fn after_message(self, msg: EmitterMessage) -> EmitterState {
        match msg {
            EmitterMessage::NoteOn { key, vel } => EmitterState {
                notes: after_note_on(
                    self.notes,
                    self.params.polyphony as int,
                    Note {
                        key,
                        envelope: self.params.note_envelope,
                        state: NoteState::Held(0),
                        since_last_grain: FIRST_GRAIN_WAIT,
                    },
                ),
                ..self
            },
            EmitterMessage::NoteOff { key, vel } => EmitterState {
                notes: after_note_off(self.notes, key),
                ..self
            },
            EmitterMessage::Params(settings) => EmitterState { params: settings, ..self },
            EmitterMessage::Terminate => EmitterState { terminated: true, ..self },
        }
    }

    /// The state after the messages, taken in their order.
    pub open spec fn after_messages(self, msgs: Seq<EmitterMessage>) -> EmitterState
        decreases msgs.len(),
    {
        if msgs.len() == 0 {
            self
        } else {
            self.after_messages(msgs.drop_last()).after_message(msgs.last())
        }
    }

    /// The state after one sample was produced: at the first channel of a
    /// frame the voices have lived through the frame; the channel has moved
    /// on, by turns between the two channels of the output.
    pub open spec fn after_sample(self, frame_duration: int, clip_total: int) -> EmitterState {
        EmitterState {
            channel: ((self.channel + 1) % 2) as u16,
            notes: if self.channel == 0 {
                frame_of(self.notes, frame_duration, self.params, clip_total).0
            } else {
                self.notes
            },
            ..self
        }
    }

    /// The plans of the grains spawned while one sample was produced: none
    /// but at the first channel of a frame.
    pub open spec fn spawned(self, frame_duration: int, clip_total: int) -> Seq<GrainPlan> {
        if self.channel == 0 {
            frame_of(self.notes, frame_duration, self.params, clip_total).1
        } else {
            Seq::empty()
        }
    }
}

/// The grains are new grains on `clip`, one to each plan.
pub open spec fn made_to_plans<I>(
    plans: Seq<GrainPlan>,
    clip: AudioClipView<I>,
    grains: Seq<Grain>,
) -> bool {
    &&& grains.len() == plans.len()
    &&& forall|k: int| 0 <= k < plans.len() ==> (#[trigger] plans[k]).makes(clip, grains[k]@)
}

/// The control half of the instrument: it takes the messages of the
/// control side, keeps the voices, and says with each sample which grains
/// are born. The grains themselves are played by the caller.
pub struct Emitter<I> {
    audio_clip: Arc<AudioClip<I>>,
    current_audio_channel: u16,
    params: EmitterParams,
    msg_receiver: Receiver<EmitterMessage>,
    notes: VecDeque<Note>,
    terminated: bool,
}

impl<I> Emitter<I> {
    /// What the emitter holds.
    pub closed spec fn state(&self) -> EmitterState {
        EmitterState {
            channel: self.current_audio_channel,
            params: self.params,
            notes: self.notes@,
            terminated: self.terminated,
        }
    }

    /// The clip of the emitter.
    pub closed spec fn clip(&self) -> AudioClipView<I> {
        self.audio_clip@
    }

    /// An emitter on `audio_clip` that takes its messages from
    /// `msg_receiver`: it starts with the default settings and no voice.
    pub fn new(audio_clip: Arc<AudioClip<I>>, msg_receiver: Receiver<EmitterMessage>) -> (emitter:
        Emitter<I>)
        ensures
            emitter.clip() == audio_clip@,
            emitter.state().channel == 0,
            emitter.state().params.is_default(),
            emitter.state().notes.len() == 0,
            !emitter.state().terminated,
    {
        Emitter {
            audio_clip,
            current_audio_channel: 0,
            params: EmitterParams::default(),
            msg_receiver,
            notes: VecDeque::new(),
            terminated: false,
        }
    }

    /// The live settings.
    pub fn params(&self) -> (params: &EmitterParams)
        ensures
            *params == self.state().params,
    {
        &self.params
    }

    /// The time between two grains of one voice, or `None` at a density of
    /// zero.
    pub fn grain_interval(&self) -> (interval: Option<u64>)
        ensures
            match interval_of(self.state().params.density@.value as int) {
                Some(i) => interval == Some(i as u64) && i <= 1_000_000_000_000,
                None => interval.is_none(),
            },
    {
        let density = self.params.density.get();
        if density == 0 {
            None
        } else {
            proof {
                vstd::arithmetic::div_mod::lemma_div_is_ordered_by_denominator(
                    1_000_000_000_000,
                    1,
                    density as int,
                );
            }
            Some(1_000_000_000_000u64 / (density as u64))
        }
    }

    /// The plan of the grain that `note` spawns, or `None` where no grain can
    /// be made.
    pub fn grain_plan(&self, note: &Note) -> (plan: Option<GrainPlan>)
        ensures
            plan == plan_for(self.state().params, self.clip().total_duration(), *note),
    {
        let position: u32 = match self.params.key_mode {
            KeyMode::Pitch => {
                let p = self.params.position.get();
                if p > UNITY {
                    UNITY
                } else {
                    p
                }
            },
            KeyMode::Slice => {
                let slices = self.params.num_slices.get();
                if slices == 0 {
                    return None;
                }
                let slice = note.key % slices;
                proof {
                    lemma_mul_bound(slice as int, UNITY as int, 255, UNITY as int);
                    crate::envelope::lemma_phase(slice as int, slices as int);
                }
                ((slice as u32) * UNITY) / (slices as u32)
            },
        };
        let spray = self.params.spray.get();
        let clip_total = self.audio_clip.total_duration();
        let reach: u32 = if spray == 0 {
            0
        } else if clip_total == 0 {
            UNITY
        } else {
            proof {
                lemma_mul_bound(spray as int, UNITY as int, u64::MAX as int, UNITY as int);
            }
            let wide = ((spray as u128) * (UNITY as u128)) / (2 * (clip_total as u128));
            if wide > UNITY as u128 {
                UNITY
            } else {
                wide as u32
            }
        };
        let low = if position < reach {
            0
        } else {
            position - reach
        };
        let high = if position + reach > UNITY {
            UNITY
        } else {
            position + reach
        };
        let transpose = self.params.transpose.get();
        let interval: i32 = match self.params.key_mode {
            KeyMode::Pitch => {
                let wide = (note.key as i64) + (transpose as i64) - 60;
                if wide < i32::MIN as i64 {
                    i32::MIN
                } else if wide > i32::MAX as i64 {
                    i32::MAX
                } else {
                    wide as i32
                }
            },
            KeyMode::Slice => transpose,
        };
        Some(
            GrainPlan {
                position,
                low,
                high,
                length: self.params.length.get(),
                interval,
                amplitude: note.amplitude(),
                envelope: self.params.grain_envelope,
            },
        )
    }

    /// The grain that `note` spawns, or `None` where no grain can be made.
    /// With a spray the start of the grain is drawn at random inside the
    /// window of the spray.
    pub fn make_grain(&self, note: &Note) -> (grain: Option<Grain>)
        ensures
            match plan_for(self.state().params, self.clip().total_duration(), *note) {
                Some(plan) => grain.is_some() && plan.makes(self.clip(), grain.unwrap()@),
                None => grain.is_none(),
            },
    {
        match self.grain_plan(note) {
            None => None,
            Some(plan) => {
                let start = if plan.low < plan.high {
                    random_between(plan.low, plan.high)
                } else {
                    plan.position
                };
                Some(plan.grain(&*self.audio_clip, start))
            },
        }
    }

    /// Takes one message of the control side.
    pub fn handle_message(&mut self, msg: EmitterMessage)
        ensures
            final(self).state() == old(self).state().after_message(msg),
            final(self).clip() == old(self).clip(),
    {
        match msg {
            EmitterMessage::NoteOn { key, vel } => {
                let polyphony = self.params.polyphony as usize;
                let ghost before = self.notes@;
                if polyphony == 0 {
                    self.notes.clear();
                } else {
                    while self.notes.len() >= polyphony
                        invariant
                            polyphony > 0,
                            self.notes@.len() <= before.len(),
                            self.notes@ == before.subrange(
                                before.len() - self.notes@.len(),
                                before.len() as int,
                            ),
                            self.current_audio_channel == old(self).current_audio_channel,
                            self.params == old(self).params,
                            self.terminated == old(self).terminated,
                            self.audio_clip == old(self).audio_clip,
                            before.len() + 1 <= polyphony ==> self.notes@.len() == before.len(),
                            before.len() + 1 > polyphony ==> self.notes@.len() + 1 >= polyphony,
                        decreases self.notes@.len(),
                    {
                        self.notes.pop_front();
                        assert(self.notes@ =~= before.subrange(
                            before.len() - self.notes@.len(),
                            before.len() as int,
                        ));
                    }
                    assert(before.len() + 1 <= polyphony ==> self.notes@ =~= before);
                    self.notes.push_back(Note::new(key, self.params.note_envelope));
                }
            },
            EmitterMessage::NoteOff { key, vel } => {
                let n = self.notes.len();
                let ghost before = self.notes@;
                let mut let_go: VecDeque<Note> = VecDeque::new();
                let mut i: usize = 0;
                while i < n
                    invariant
                        i <= n,
                        n == before.len(),
                        self.notes@ == before,
                        let_go@ == after_note_off(before, key).take(i as int),
                    decreases n - i,
                {
                    let mut note = self.notes[i];
                    if note.key == key {
                        match note.state {
                            NoteState::Held(_) => {
                                note.state = NoteState::Released(0);
                            },
                            _ => {},
                        }
                    }
                    let_go.push_back(note);
                    assert(let_go@ =~= after_note_off(before, key).take(i + 1));
                    i = i + 1;
                }
                assert(let_go@ =~= after_note_off(before, key));
                self.notes = let_go;
            },
            EmitterMessage::Params(settings) => {
                self.params = settings;
            },
            EmitterMessage::Terminate => {
                self.terminated = true;
            },
        }
    }

    /// Produces one sample's worth of control: at the first channel of a
    /// frame every voice lives through one frame of the clip, and the grains
    /// of the voices that were due are returned; the channel moves on.
    pub fn advance(&mut self) -> (grains: Vec<Grain>)
        ensures
            final(self).state() == old(self).state().after_sample(
                old(self).clip().frame_duration(),
                old(self).clip().total_duration(),
            ),
            final(self).clip() == old(self).clip(),
            made_to_plans(
                old(self).state().spawned(
                    old(self).clip().frame_duration(),
                    old(self).clip().total_duration(),
                ),
                old(self).clip(),
                grains@,
            ),
    {
        let mut grains: Vec<Grain> = Vec::new();
        if self.current_audio_channel == 0 {
            let delta_time = self.audio_clip.frame_duration();
            let interval = self.grain_interval();
            let n = self.notes.len();
            let ghost before = self.notes@;
            let ghost clip_total = self.clip().total_duration();
            let mut live: VecDeque<Note> = VecDeque::new();
            let mut i: usize = 0;
            while i < n
                invariant
                    i <= n,
                    n == before.len(),
                    self.notes@ == before,
                    *self == *old(self),
                    clip_total == self.clip().total_duration(),
                    delta_time == self.clip().frame_duration(),
                    match interval_of(self.params.density@.value as int) {
                        Some(due) => interval == Some(due as u64) && due <= 1_000_000_000_000,
                        None => interval.is_none(),
                    },
                    live@ == frame_of(
                        before.take(i as int),
                        delta_time as int,
                        self.params,
                        clip_total,
                    ).0,
                    made_to_plans(
                        frame_of(before.take(i as int), delta_time as int, self.params, clip_total).1,
                        self.clip(),
                        grains@,
                    ),
                decreases n - i,
            {
                let mut note = self.notes[i];
                proof {
                    assert(before.take(i + 1).drop_last() =~= before.take(i as int));
                    assert(before.take(i + 1).last() == before[i as int]);
                }
                note.update(delta_time);
                let finished = match note.state {
                    NoteState::Finished => true,
                    _ => false,
                };
                if !finished {
                    let due = match interval {
                        Some(wait) => note.since_last_grain >= wait,
                        None => false,
                    };
                    if due {
                        match self.make_grain(&note) {
                            Some(grain) => {
                                grains.push(grain);
                            },
                            None => {},
                        }
                        note.since_last_grain = 0;
                    }
                    live.push_back(note);
                }
                i = i + 1;
            }
            proof {
                assert(before.take(n as int) =~= before);
            }
            self.notes = live;
        }
        self.current_audio_channel = (self.current_audio_channel % 2 + 1) % 2;
        grains
    }

    /// The messages that wait in the inbox, in their order. It never blocks.
    fn drain_inbox(&self) -> (msgs: Vec<EmitterMessage>) {
        let mut msgs: Vec<EmitterMessage> = Vec::new();
        let mut budget: usize = usize::MAX;
        while budget > 0
            decreases budget,
        {
            match try_receive(&self.msg_receiver) {
                Some(msg) => {
                    msgs.push(msg);
                },
                None => {
                    return msgs;
                },
            }
            budget = budget - 1;
        }
        msgs
    }

    /// Takes the messages in their order, then produces one sample's worth
    /// of control: `None` once the stream has ended, else the grains born
    /// with this sample.
    pub fn step(&mut self, msgs: Vec<EmitterMessage>) -> (grains: Option<Vec<Grain>>)
        ensures
            final(self).clip() == old(self).clip(),
            stepped(old(self).state(), old(self).clip(), msgs@, final(self).state(), grains),
    {
        let ghost all = msgs@;
        let ghost start = self.state();
        let mut msgs = msgs;
        let mut taken: Vec<EmitterMessage> = Vec::new();
        // The messages are owned one by one, from the back; `taken` turns
        // them round again.
        while msgs.len() > 0
            invariant
                msgs@.len() + taken@.len() == all.len(),
                forall|k: int| 0 <= k < msgs@.len() ==> msgs@[k] == all[k],
                forall|k: int|
                    0 <= k < taken@.len() ==> taken@[k] == all[all.len() - 1 - k],
                *self == *old(self),
            decreases msgs@.len(),
        {
            let msg = msgs.pop().unwrap();
            taken.push(msg);
        }
        let ghost mut done: Seq<EmitterMessage> = Seq::empty();
        while taken.len() > 0
            invariant
                done.len() + taken@.len() == all.len(),
                forall|k: int|
                    0 <= k < taken@.len() ==> taken@[k] == all[all.len() - 1 - k],
                done == all.take(done.len() as int),
                self.state() == start.after_messages(done),
                self.clip() == old(self).clip(),
                start == old(self).state(),
            decreases taken@.len(),
        {
            let msg = taken.pop().unwrap();
            proof {
                let next = done.push(msg);
                assert(next =~= all.take(done.len() as int + 1));
                assert(next.drop_last() =~= done);
                done = next;
            }
            self.handle_message(msg);
        }
        proof {
            assert(done =~= all);
        }
        if self.terminated {
            None
        } else {
            Some(self.advance())
        }
    }

    /// Polls the emitter for one sample: it drains the inbox, without
    /// blocking, and then does what [`Emitter::step`] does with the messages
    /// found there.
    pub fn next(&mut self) -> (grains: Option<Vec<Grain>>)
        ensures
            final(self).clip() == old(self).clip(),
            exists|msgs: Seq<EmitterMessage>|
                stepped(old(self).state(), old(self).clip(), msgs, final(self).state(), grains),
    {
        let msgs = self.drain_inbox();
        let ghost seen = msgs@;
        let grains = self.step(msgs);
        proof {
            assert(stepped(old(self).state(), old(self).clip(), seen, self.state(), grains));
        }
        grains
    }

    /// The number of channels of the output.
    pub fn channels(&self) -> (c: u16)
        ensures
            c == 2,
    {
        2
    }

    /// The sample rate of the output: that of the clip.
    pub fn sample_rate(&self) -> (r: u32)
        ensures
            r == self.clip().sample_rate,
    {
        self.audio_clip.sample_rate()
    }

    /// The clip of the emitter.
    pub fn audio_clip(&self) -> (clip: &Arc<AudioClip<I>>)
        ensures
            clip@ == self.clip(),
    {
        &self.audio_clip
    }

    /// The number of voices.
    pub fn note_count(&self) -> (n: usize)
        ensures
            n == self.state().notes.len(),
    {
        self.notes.len()
    }

    /// The voice at `index`, counted from the oldest, or `None` past the
    /// youngest.
    pub fn note(&self, index: usize) -> (note: Option<Note>)
        ensures
            note == if index < self.state().notes.len() {
                Some(self.state().notes[index as int])
            } else {
                None
            },
    {
        if index < self.notes.len() {
            Some(self.notes[index])
        } else {
            None
        }
    }

    /// The stream has ended.
    pub fn is_terminated(&self) -> (t: bool)
        ensures
            t == self.state().terminated,
    {
        self.terminated
    }
}

/// One poll of an emitter that found `msgs` in its inbox: the state has
/// taken the messages; if that ended the stream nothing comes out and
/// nothing else has changed; else one sample's worth of control was
/// produced, and the grains that come out are made to the plans of the
/// voices that were due.
pub open spec fn stepped<I>(
    before: EmitterState,
    clip: AudioClipView<I>,
    msgs: Seq<EmitterMessage>,
    after: EmitterState,
    grains: Option<Vec<Grain>>,
) -> bool {
    let taken = before.after_messages(msgs);
    if taken.terminated {
        grains.is_none() && after == taken
    } else {
        &&& after == taken.after_sample(clip.frame_duration(), clip.total_duration())
        &&& grains.is_some()
        &&& made_to_plans(
            taken.spawned(clip.frame_duration(), clip.total_duration()),
            clip,
            grains.unwrap()@,
        )
    }
}

/// Voice stealing: a key that goes down under a polyphony of `polyphony`
/// never leaves more voices than that; where the pool was full exactly
/// the oldest voice is gone, and where it was not no voice is gone; the
/// new voice is the youngest.
pub proof fn law_voice_stealing(notes: Seq<Note>, polyphony: int, note: Note)
    requires
        polyphony >= 1,
    ensures
        after_note_on(notes, polyphony, note).len() <= polyphony,
        after_note_on(notes, polyphony, note).last() == note,
        notes.len() == polyphony ==> after_note_on(notes, polyphony, note) == notes.drop_first().push(
            note,
        ),
        notes.len() < polyphony ==> after_note_on(notes, polyphony, note) == notes.push(note),
{
    if notes.len() == polyphony {
        assert(notes.subrange(1, notes.len() as int) =~= notes.drop_first());
    }
}

/// No message but new settings lets the pool outgrow the polyphony.
pub proof fn law_pool_bounded(state: EmitterState, msg: EmitterMessage)
    requires
        state.notes.len() <= state.params.polyphony,
        !(msg is Params),
    ensures
        state.after_message(msg).notes.len() <= state.after_message(msg).params.polyphony,
{
}

/// A frame adds no voice.
pub proof fn law_frame_adds_no_voice(
    notes: Seq<Note>,
    delta_time: int,
    params: EmitterParams,
    clip_total: int,
)
    ensures
        frame_of(notes, delta_time, params, clip_total).0.len() <= notes.len(),
        frame_of(notes, delta_time, params, clip_total).1.len() <= notes.len(),
        forall|k: int|
            0 <= k < frame_of(notes, delta_time, params, clip_total).0.len() ==> !((
            #[trigger] frame_of(notes, delta_time, params, clip_total).0[k]).state is Finished),
    decreases notes.len(),
{
    if notes.len() > 0 {
        law_frame_adds_no_voice(notes.drop_last(), delta_time, params, clip_total);
    }
}

/// Once the stream has ended no message starts it again.
pub proof fn law_terminated_stays(state: EmitterState, msgs: Seq<EmitterMessage>)
    requires
        state.terminated,
    ensures
        state.after_messages(msgs).terminated,
    decreases msgs.len(),
{
    if msgs.len() > 0 {
        law_terminated_stays(state, msgs.drop_last());
    }
}

/// A terminate message among the messages ends the stream, wherever it
/// stands.
pub proof fn law_terminate_found(state: EmitterState, msgs: Seq<EmitterMessage>, at: int)
    requires
        0 <= at < msgs.len(),
        msgs[at] is Terminate,
    ensures
        state.after_messages(msgs).terminated,
    decreases msgs.len(),
{
    if at < msgs.len() - 1 {
        law_terminate_found(state, msgs.drop_last(), at);
    }
}

/// Terminate ends the stream for good: a poll that finds a terminate
/// message in the inbox yields the end of the stream, whatever else waits
/// there, before or after it.
pub proof fn law_terminate<I>(
    state: EmitterState,
    clip: AudioClipView<I>,
    msgs: Seq<EmitterMessage>,
    at: int,
    after: EmitterState,
    grains: Option<Vec<Grain>>,
)
    requires
        0 <= at < msgs.len(),
        msgs[at] is Terminate,
        stepped(state, clip, msgs, after, grains),
    ensures
        state.after_messages(msgs).terminated,
        grains.is_none(),
        after.terminated,
{
    law_terminate_found(state, msgs, at);
}

/// The voices live through a frame once for every two samples: the two
/// channels of a frame stay in step.
pub proof fn law_once_per_frame(state: EmitterState, frame_duration: int, clip_total: int)
    requires
        state.channel == 0,
    ensures
        state.after_sample(frame_duration, clip_total).channel == 1,
        state.after_sample(frame_duration, clip_total).after_sample(
            frame_duration,
            clip_total,
        ).channel == 0,
        state.after_sample(frame_duration, clip_total).after_sample(
            frame_duration,
            clip_total,
        ).notes == frame_of(state.notes, frame_duration, state.params, clip_total).0,
        state.after_sample(frame_duration, clip_total).spawned(frame_duration, clip_total).len()
            == 0,
{
}

/// A voice only ever moves on in its life: a finished voice stays
/// finished, a released voice is never held again, and a released voice
/// is finished exactly when its release time has passed.
pub proof fn law_note_lifecycle(note: Note, delta_time: int)
    requires
        0 <= delta_time,
    ensures
        note.state is Finished ==> note.updated(delta_time).state is Finished,
        note.state is Released ==> !(note.updated(delta_time).state is Held),
        note.state is Held ==> note.updated(delta_time).state is Held,
        note.state matches NoteState::Released(time) ==> (note.updated(delta_time).state is Finished
            <==> time_add(time as int, delta_time) >= note.envelope.release_time()),
        note.let_go().state is Held == false,
        note.state is Held ==> note.let_go().state == NoteState::Released(0),
        note.updated(delta_time).key == note.key,
        note.updated(delta_time).envelope == note.envelope,
{
}

/// The voices after `frames` frames without a message.
pub open spec fn after_frames(
    notes: Seq<Note>,
    frames: nat,
    delta_time: int,
    params: EmitterParams,
    clip_total: int,
) -> Seq<Note>
    decreases frames,
{
    if frames == 0 {
        notes
    } else {
        frame_of(
            after_frames(notes, (frames - 1) as nat, delta_time, params, clip_total),
            delta_time,
            params,
            clip_total,
        ).0
    }
}

/// Every voice is in its release and has at most `left` of it to go.
pub open spec fn winding_down(notes: Seq<Note>, left: int) -> bool {
    forall|i: int| 0 <= i < notes.len() ==> (#[trigger] notes[i]).released_with(left)
}

/// A frame of `delta_time` takes that much off the release of every voice
/// that is winding down, and purges the voices that had no more to go.
pub proof fn lemma_frame_winds_down(
    notes: Seq<Note>,
    delta_time: int,
    params: EmitterParams,
    clip_total: int,
    left: int,
)
    requires
        winding_down(notes, left),
        0 <= delta_time,
    ensures
        winding_down(frame_of(notes, delta_time, params, clip_total).0, left - delta_time),
        left <= delta_time ==> frame_of(notes, delta_time, params, clip_total).0.len() == 0,
    decreases notes.len(),
{
    if notes.len() > 0 {
        let rest = notes.drop_last();
        assert(winding_down(rest, left)) by {
            assert forall|i: int| 0 <= i < rest.len() implies (#[trigger] rest[i]).released_with(
                left,
            ) by {
                assert(rest[i] == notes[i]);
            }
        }
        lemma_frame_winds_down(rest, delta_time, params, clip_total, left);
        let live = frame_of(rest, delta_time, params, clip_total).0;
        let last = notes.last();
        assert(last == notes[notes.len() - 1]);
        let note = last.updated(delta_time);
        let after = frame_of(notes, delta_time, params, clip_total).0;
        if !(note.state is Finished) {
            let kept = if is_due(note, interval_of(params.density@.value as int)) {
                note.rearmed()
            } else {
                note
            };
            assert(after == live.push(kept));
            assert forall|i: int| 0 <= i < after.len() implies (#[trigger] after[i]).released_with(
                left - delta_time,
            ) by {
                if i < live.len() {
                    assert(after[i] == live[i]);
                } else {
                    assert(after[i] == kept);
                }
            }
        }
    }
}

/// Frame after frame the voices that are winding down come nearer to
/// their end.
pub proof fn lemma_frames_wind_down(
    notes: Seq<Note>,
    frames: nat,
    delta_time: int,
    params: EmitterParams,
    clip_total: int,
    left: int,
)
    requires
        winding_down(notes, left),
        0 <= delta_time,
    ensures
        winding_down(
            after_frames(notes, frames, delta_time, params, clip_total),
            left - frames * delta_time,
        ),
    decreases frames,
{
    if frames > 0 {
        let before = (frames - 1) as nat;
        lemma_frames_wind_down(notes, before, delta_time, params, clip_total, left);
        lemma_frame_winds_down(
            after_frames(notes, before, delta_time, params, clip_total),
            delta_time,
            params,
            clip_total,
            left - before * delta_time,
        );
        assert(left - before * delta_time - delta_time == left - frames * delta_time)
            by (nonlinear_arith)
            requires
                before == frames - 1,
        ;
    } else {
        assert(left - frames * delta_time == left) by (nonlinear_arith)
            requires
                frames == 0,
        ;
    }
}

/// A pool of voices that are all in their release is empty once the
/// frames that have passed add up to the longest release that was left,
/// whatever the settings and however many grains were spawned on the way.
pub proof fn law_released_voices_are_purged(
    notes: Seq<Note>,
    frames: nat,
    delta_time: int,
    params: EmitterParams,
    clip_total: int,
    left: int,
)
    requires
        winding_down(notes, left),
        0 <= delta_time,
        frames >= 1,
        frames * delta_time >= left,
    ensures
        after_frames(notes, frames, delta_time, params, clip_total).len() == 0,
{
    let before = (frames - 1) as nat;
    lemma_frames_wind_down(notes, before, delta_time, params, clip_total, left);
    assert(left - before * delta_time <= delta_time) by (nonlinear_arith)
        requires
            before == frames - 1,
            frames * delta_time >= left,
    ;
    lemma_frame_winds_down(
        after_frames(notes, before, delta_time, params, clip_total),
        delta_time,
        params,
        clip_total,
        left - before * delta_time,
    );
}

/// Letting go of a key sets a pool that holds only voices of that key to
/// winding down: none of them has more to go than its whole release.
pub proof fn law_note_off_winds_down(notes: Seq<Note>, key: u8, left: int)
    requires
        forall|i: int|
            0 <= i < notes.len() ==> (#[trigger] notes[i]).key == key && !(notes[i].state
                is Finished) && notes[i].envelope.release_time() <= left,
    ensures
        winding_down(after_note_off(notes, key), left),
{
    let after = after_note_off(notes, key);
    assert forall|i: int| 0 <= i < after.len() implies (#[trigger] after[i]).released_with(
        left,
    ) by {
        assert(notes[i].key == key);
        assert(after[i] == notes[i].let_go());
    }
}

/// A voice spawns its first grain in the frame after its key went down,
/// at any density of at least ten grains in a thousand seconds and
/// wherever a grain can be made: the grain of the youngest voice is the
/// last of the frame.
pub proof fn law_new_voice_spawns_at_once(
    notes: Seq<Note>,
    key: u8,
    delta_time: int,
    params: EmitterParams,
    clip_total: int,
)
    requires
        0 <= delta_time,
        params.density@.value >= 10,
        plan_for(
            params,
            clip_total,
            (Note {
                key,
                envelope: params.note_envelope,
                state: NoteState::Held(0),
                since_last_grain: FIRST_GRAIN_WAIT,
            }).updated(delta_time),
        ) is Some,
    ensures
        ({
            let note = Note {
                key,
                envelope: params.note_envelope,
                state: NoteState::Held(0),
                since_last_grain: FIRST_GRAIN_WAIT,
            };
            let frame = frame_of(notes.push(note), delta_time, params, clip_total);
            &&& frame.1.len() >= 1
            &&& frame.1.last() == plan_for(params, clip_total, note.updated(delta_time)).unwrap()
            &&& frame.0.len() >= 1
            &&& frame.0.last() == note.updated(delta_time).rearmed()
        }),
{
    let note = Note {
        key,
        envelope: params.note_envelope,
        state: NoteState::Held(0),
        since_last_grain: FIRST_GRAIN_WAIT,
    };
    let pool = notes.push(note);
    assert(pool.drop_last() =~= notes);
    assert(pool.last() == note);
    let density = params.density@.value as int;
    vstd::arithmetic::div_mod::lemma_div_is_ordered_by_denominator(1_000_000_000_000, 10, density);
    assert(1_000_000_000_000int / 10 == 100_000_000_000int);
}

/// While the stream has not ended every poll yields grains, if only none;
/// and from an empty pool no grain is born and the pool stays empty.
pub proof fn law_stream_goes_on<I>(
    state: EmitterState,
    clip: AudioClipView<I>,
    msgs: Seq<EmitterMessage>,
    after: EmitterState,
    grains: Option<Vec<Grain>>,
)
    requires
        stepped(state, clip, msgs, after, grains),
    ensures
        !state.after_messages(msgs).terminated ==> grains.is_some(),
        !state.after_messages(msgs).terminated && state.after_messages(msgs).notes.len() == 0
            ==> grains.unwrap()@.len() == 0 && after.notes.len() == 0,
{
}

} // verus!
