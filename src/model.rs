use rand::Rng;
use vstd::prelude::*;

verus! {

/// Number of steps in the sequence.
pub const NOTE_COUNT: usize = 8;

/// Highest tempo, in beats per minute.
pub const MAX_BPM: u32 = 300;

/// Highest volume level.
pub const MAX_VOLUME: u32 = 11;

/// Nanoseconds per quarter of a beat at one beat per minute: 60 s / 4.
pub const NANOS_PER_STEP_AT_ONE_BPM: u128 = 15_000_000_000;

/// A pitch class.
#[derive(Clone, Copy, PartialEq, Eq, Structural, Debug)]
pub enum Note {
    A,
    B,
    C,
    D,
    E,
    F,
    G,
}

#[derive(Clone, Copy, PartialEq, Eq, Structural, Debug)]
pub enum TransportState {
    Stopped,
    Playing,
}

/// `x` clamped to `[lo, hi]`.
pub open spec fn clamp(x: int, lo: int, hi: int) -> int {
    if x < lo {
        lo
    } else if x > hi {
        hi
    } else {
        x
    }
}

/// The step under the playhead after `elapsed` nanoseconds of playing at `bpm`:
/// `floor(elapsed_seconds / 60 * bpm * 4) mod 8`.
pub open spec fn playhead(elapsed: nat, bpm: nat) -> nat {
    ((elapsed * bpm) / (NANOS_PER_STEP_AT_ONE_BPM as nat)) % (NOTE_COUNT as nat)
}

/// The abstract value of a `Model`.
pub struct ModelState {
    pub bpm: u32,
    pub volume: u32,
    pub transport: TransportState,
    pub position: usize,
    pub notes: Seq<Option<Note>>,
    pub elapsed: u64,
}

/// The sequencer's state, shared by every view.
pub struct Model {
    pub bpm: u32,
    pub volume: u32,
    pub transport: TransportState,
    pub position: usize,
    pub notes: Vec<Option<Note>>,
    /// Playing time accumulated so far, in nanoseconds.
    pub elapsed: u64,
}

impl View for Model {
    type V = ModelState;

    open spec fn view(&self) -> ModelState {
        ModelState {
            bpm: self.bpm,
            volume: self.volume,
            transport: self.transport,
            position: self.position,
            notes: self.notes@,
            elapsed: self.elapsed,
        }
    }
}

impl Model {
    /// A model is well formed when it holds one note slot per step and the
    /// playhead is on a step.
    pub open spec fn wf(&self) -> bool {
        &&& self.notes@.len() == NOTE_COUNT
        &&& self.position < NOTE_COUNT
    }

    /// A well-formed model within the tempo and volume bounds.
    pub open spec fn in_bounds(&self) -> bool {
        &&& self.wf()
        &&& self.bpm <= MAX_BPM
        &&& self.volume <= MAX_VOLUME
    }

    /// 120 BPM, volume 5, playing, every step empty, playhead on the first step.
    pub fn new() -> (r: Model)
        ensures
            r.in_bounds(),
            r.bpm == 120,
            r.volume == 5,
            r.transport == TransportState::Playing,
            r.position == 0,
            r.elapsed == 0,
            forall|i: int| 0 <= i < NOTE_COUNT ==> #[trigger] r.notes@[i] == None::<Note>,
    {
        let mut notes: Vec<Option<Note>> = Vec::new();
        let mut i: usize = 0;
        while i < NOTE_COUNT
            invariant
                i <= NOTE_COUNT,
                notes@.len() == i,
                forall|j: int| 0 <= j < i ==> #[trigger] notes@[j] == None::<Note>,
            decreases NOTE_COUNT - i,
        {
            notes.push(None);
            i = i + 1;
        }
        Model {
            bpm: 120,
            volume: 5,
            transport: TransportState::Playing,
            position: 0,
            notes,
            elapsed: 0,
        }
    }

    /// Advances the clock by `delta` nanoseconds. While playing, the elapsed
    /// time grows (saturating) and the playhead is recomputed from it; while
    /// stopped nothing changes.
    pub fn update(&mut self, delta: u64)
        ensures
            old(self).transport == TransportState::Stopped ==> *final(self) == *old(self),
            old(self).transport == TransportState::Playing ==> {
                &&& final(self).elapsed == clamp(
                    old(self).elapsed + delta,
                    0,
                    u64::MAX as int,
                )
                &&& final(self).position == playhead(
                    final(self).elapsed as nat,
                    old(self).bpm as nat,
                )
                &&& final(self).bpm == old(self).bpm
                &&& final(self).volume == old(self).volume
                &&& final(self).transport == old(self).transport
                &&& final(self).notes == old(self).notes
            },
            old(self).wf() ==> final(self).wf(),
    {
        match self.transport {
            TransportState::Playing => {
                if delta > u64::MAX - self.elapsed {
                    self.elapsed = u64::MAX;
                } else {
                    self.elapsed = self.elapsed + delta;
                }
                let e = self.elapsed as u128;
                let b = self.bpm as u128;
                assert(e * b <= u64::MAX as int * u32::MAX as int) by (nonlinear_arith)
                    requires
                        e <= u64::MAX,
                        b <= u32::MAX,
                ;
                let product: u128 = e * b;
                let steps: u128 = product / NANOS_PER_STEP_AT_ONE_BPM;
                self.position = (steps % (NOTE_COUNT as u128)) as usize;
            },
            TransportState::Stopped => {},
        }
    }

    /// One beat per minute faster, clamped to `[0, 300]`.
    pub fn speedup(&mut self)
        ensures
            final(self).bpm == clamp(old(self).bpm + 1, 0, MAX_BPM as int),
            *final(self) == (Model { bpm: final(self).bpm, ..*old(self) }),
    {
        if self.bpm >= MAX_BPM {
            self.bpm = MAX_BPM;
        } else {
            self.bpm = self.bpm + 1;
        }
    }

    /// One beat per minute slower, clamped to `[0, 300]`.
    pub fn slowdown(&mut self)
        ensures
            final(self).bpm == clamp(old(self).bpm - 1, 0, MAX_BPM as int),
            *final(self) == (Model { bpm: final(self).bpm, ..*old(self) }),
    {
        if self.bpm == 0 {
            self.bpm = 0;
        } else if self.bpm > MAX_BPM {
            self.bpm = MAX_BPM;
        } else {
            self.bpm = self.bpm - 1;
        }
    }

    /// One volume level louder, clamped to `[0, 11]`.
    pub fn pumpup(&mut self)
        ensures
            final(self).volume == clamp(old(self).volume + 1, 0, MAX_VOLUME as int),
            *final(self) == (Model { volume: final(self).volume, ..*old(self) }),
    {
        if self.volume >= MAX_VOLUME {
            self.volume = MAX_VOLUME;
        } else {
            self.volume = self.volume + 1;
        }
    }

    /// One volume level quieter, clamped to `[0, 11]`.
    pub fn receive_complaint(&mut self)
        ensures
            final(self).volume == clamp(old(self).volume - 1, 0, MAX_VOLUME as int),
            *final(self) == (Model { volume: final(self).volume, ..*old(self) }),
    {
        if self.volume == 0 {
            self.volume = 0;
        } else if self.volume > MAX_VOLUME {
            self.volume = MAX_VOLUME;
        } else {
            self.volume = self.volume - 1;
        }
    }

    /// Stopped becomes Playing and Playing becomes Stopped.
    pub fn toggle_transport(&mut self)
        ensures
            final(self).transport == toggled(old(self).transport),
            *final(self) == (Model { transport: final(self).transport, ..*old(self) }),
    {
        match self.transport {
            TransportState::Playing => {
                self.transport = TransportState::Stopped;
            },
            TransportState::Stopped => {
                self.transport = TransportState::Playing;
            },
        }
    }
}

/// The transport state that the P key leads to.
pub open spec fn toggled(t: TransportState) -> TransportState {
    match t {
        TransportState::Playing => TransportState::Stopped,
        TransportState::Stopped => TransportState::Playing,
    }
}

/// Relies on `rand::Rng::gen_range` over `rand::thread_rng()`: the value lies
/// in the inclusive range asked for.
#[verifier::external_body]
fn random_note_index() -> (r: u8)
    ensures
        r <= 6,
{
    rand::thread_rng().gen_range(0..=6u8)
}

/// The pitch class with index `i`, A being 0; every index past 6 is G.
pub open spec fn note_at(i: int) -> Note {
    if i <= 0 {
        Note::A
    } else if i == 1 {
        Note::B
    } else if i == 2 {
        Note::C
    } else if i == 3 {
        Note::D
    } else if i == 4 {
        Note::E
    } else if i == 5 {
        Note::F
    } else {
        Note::G
    }
}

impl Note {
    pub fn from_index(i: u8) -> (r: Note)
        ensures
            r == note_at(i as int),
    {
        match i {
            0 => Note::A,
            1 => Note::B,
            2 => Note::C,
            3 => Note::D,
            4 => Note::E,
            5 => Note::F,
            _ => Note::G,
        }
    }

    /// A pitch class drawn uniformly by the thread's random generator.
    pub fn random() -> (r: Note)
        ensures
            exists|i: int| 0 <= i <= 6 && r == note_at(i),
    {
        let i = random_note_index();
        Note::from_index(i)
    }
}

impl Default for Model {
    fn default() -> (r: Model)
        ensures
            r.in_bounds(),
            r.bpm == 120,
            r.volume == 5,
            r.transport == TransportState::Playing,
            r.position == 0,
            r.elapsed == 0,
            forall|i: int| 0 <= i < NOTE_COUNT ==> #[trigger] r.notes@[i] == None::<Note>,
    {
        Model::new()
    }
}

/// The tempo after a run of tempo keys, `true` for one faster and `false` for
/// one slower, each step clamped to `[0, 300]` as `speedup` and `slowdown` do.
pub open spec fn tempo_after(bpm: int, steps: Seq<bool>) -> int
    decreases steps.len(),
{
    if steps.len() == 0 {
        bpm
    } else {
        let before = tempo_after(bpm, steps.drop_last());
        if steps.last() {
            clamp(before + 1, 0, MAX_BPM as int)
        } else {
            clamp(before - 1, 0, MAX_BPM as int)
        }
    }
}

/// The volume after a run of volume keys, `true` for one louder and `false`
/// for one quieter, each step clamped to `[0, 11]` as `pumpup` and
/// `receive_complaint` do.
pub open spec fn volume_after(volume: int, steps: Seq<bool>) -> int
    decreases steps.len(),
{
    if steps.len() == 0 {
        volume
    } else {
        let before = volume_after(volume, steps.drop_last());
        if steps.last() {
            clamp(before + 1, 0, MAX_VOLUME as int)
        } else {
            clamp(before - 1, 0, MAX_VOLUME as int)
        }
    }
}

/// Whatever the run of tempo changes, a tempo in `[0, 300]` stays there.
pub proof fn lemma_tempo_stays_in_range(bpm: int, steps: Seq<bool>)
    requires
        0 <= bpm <= MAX_BPM,
    ensures
        0 <= tempo_after(bpm, steps) <= MAX_BPM,
    decreases steps.len(),
{
    if steps.len() > 0 {
        lemma_tempo_stays_in_range(bpm, steps.drop_last());
    }
}

/// Whatever the run of volume changes, a volume in `[0, 11]` stays there.
pub proof fn lemma_volume_stays_in_range(volume: int, steps: Seq<bool>)
    requires
        0 <= volume <= MAX_VOLUME,
    ensures
        0 <= volume_after(volume, steps) <= MAX_VOLUME,
    decreases steps.len(),
{
    if steps.len() > 0 {
        lemma_volume_stays_in_range(volume, steps.drop_last());
    }
}

/// Toggling the transport twice gives back the state it started in.
pub proof fn lemma_toggle_twice(t: TransportState)
    ensures
        toggled(toggled(t)) == t,
{
}

} // verus!
