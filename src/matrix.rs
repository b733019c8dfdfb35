use vstd::prelude::*;
use vstd::view::View as _;

use crate::model::{Model, ModelState, Note, NOTE_COUNT};
use crate::view::{
    at_most_one_active, first_active_from, is_press_of, lemma_first_active_in_range, pressed,
    Event, Key, MomentaryState, MomentaryView, MutexViewContainer, Paint, View,
};

verus! {

/// The selection that stands for "no note".
pub const NO_NOTE_SELECTION: usize = 7;

/// An opaque colour.
#[derive(Clone, Copy, PartialEq, Eq, Structural, Debug)]
pub struct Rgba {
    pub r: u8,
    pub g: u8,
    pub b: u8,
    pub a: u8,
}

/// The colour of each pitch class; black for an empty step.
pub open spec fn note_rgba(note: Option<Note>) -> Rgba {
    match note {
        Some(Note::A) => Rgba { r: 0x9b, g: 0x5f, b: 0xe0, a: 0xff },
        Some(Note::B) => Rgba { r: 0x16, g: 0xa4, b: 0xd8, a: 0xff },
        Some(Note::C) => Rgba { r: 0x60, g: 0xdb, b: 0xe8, a: 0xff },
        Some(Note::D) => Rgba { r: 0x8b, g: 0xd3, b: 0x46, a: 0xff },
        Some(Note::E) => Rgba { r: 0xef, g: 0xdf, b: 0x48, a: 0xff },
        Some(Note::F) => Rgba { r: 0xf9, g: 0xa5, b: 0x2c, a: 0xff },
        Some(Note::G) => Rgba { r: 0xd6, g: 0x4e, b: 0x12, a: 0xff },
        None => Rgba { r: 0, g: 0, b: 0, a: 0xff },
    }
}

/// The cursor position of a note: 0 to 6 for A to G, 7 for no note.
pub open spec fn selection_of(note: Option<Note>) -> nat {
    match note {
        Some(Note::A) => 0,
        Some(Note::B) => 1,
        Some(Note::C) => 2,
        Some(Note::D) => 3,
        Some(Note::E) => 4,
        Some(Note::F) => 5,
        Some(Note::G) => 6,
        None => 7,
    }
}

/// The note at a cursor position; every position past G means no note.
pub open spec fn note_of(selection: nat) -> Option<Note> {
    if selection == 0 {
        Some(Note::A)
    } else if selection == 1 {
        Some(Note::B)
    } else if selection == 2 {
        Some(Note::C)
    } else if selection == 3 {
        Some(Note::D)
    } else if selection == 4 {
        Some(Note::E)
    } else if selection == 5 {
        Some(Note::F)
    } else if selection == 6 {
        Some(Note::G)
    } else {
        None
    }
}

pub fn note_color(note: &Option<Note>) -> (r: Rgba)
    ensures
        r == note_rgba(*note),
{
    match note {
        Some(note) => match note {
            Note::A => Rgba { r: 0x9b, g: 0x5f, b: 0xe0, a: 0xff },
            Note::B => Rgba { r: 0x16, g: 0xa4, b: 0xd8, a: 0xff },
            Note::C => Rgba { r: 0x60, g: 0xdb, b: 0xe8, a: 0xff },
            Note::D => Rgba { r: 0x8b, g: 0xd3, b: 0x46, a: 0xff },
            Note::E => Rgba { r: 0xef, g: 0xdf, b: 0x48, a: 0xff },
            Note::F => Rgba { r: 0xf9, g: 0xa5, b: 0x2c, a: 0xff },
            Note::G => Rgba { r: 0xd6, g: 0x4e, b: 0x12, a: 0xff },
        },
        None => Rgba { r: 0, g: 0, b: 0, a: 0xff },
    }
}

pub fn selection_for_note(note: &Option<Note>) -> (r: usize)
    ensures
        r == selection_of(*note),
{
    match note {
        Some(note) => match note {
            Note::A => 0,
            Note::B => 1,
            Note::C => 2,
            Note::D => 3,
            Note::E => 4,
            Note::F => 5,
            Note::G => 6,
        },
        None => NO_NOTE_SELECTION,
    }
}

pub fn note_for_selection(selection: usize) -> (r: Option<Note>)
    ensures
        r == note_of(selection as nat),
{
    match selection {
        0 => Some(Note::A),
        1 => Some(Note::B),
        2 => Some(Note::C),
        3 => Some(Note::D),
        4 => Some(Note::E),
        5 => Some(Note::F),
        6 => Some(Note::G),
        _ => None,
    }
}

/// Mapping a cursor position to a note and back gives the same note, and the
/// same position for every position up to 7: the two mappings are inverse
/// bijections between the eight positions and the seven notes with "no note".
pub proof fn lemma_selection_round_trip(selection: nat)
    ensures
        note_of(selection_of(note_of(selection))) == note_of(selection),
        selection <= 7 ==> selection_of(note_of(selection)) == selection,
        forall|n: Option<Note>| note_of(#[trigger] selection_of(n)) == n,
{
    assert forall|n: Option<Note>| note_of(#[trigger] selection_of(n)) == n by {
        match n {
            Some(Note::A) => {},
            Some(Note::B) => {},
            Some(Note::C) => {},
            Some(Note::D) => {},
            Some(Note::E) => {},
            Some(Note::F) => {},
            Some(Note::G) => {},
            None => {},
        }
    }
}

/// The abstract state of a `NoteSelectionView`.
pub struct NoteCursor {
    pub selection: usize,
    pub number: usize,
}

/// The cursor after `e`: ArrowLeft moves it down to at least 0, ArrowRight up
/// to at most 7.
pub open spec fn next_selection(selection: usize, e: Event) -> usize {
    if is_press_of(Key::ArrowLeft, e) {
        if selection > 0 {
            (selection - 1) as usize
        } else {
            0
        }
    } else if is_press_of(Key::ArrowRight, e) {
        if selection + 1 > NO_NOTE_SELECTION {
            NO_NOTE_SELECTION
        } else {
            (selection + 1) as usize
        }
    } else {
        selection
    }
}

/// The note picker of one step: a cursor over A to G and "no note".
pub struct NoteSelectionView {
    selection: usize,
    number: usize,
}

impl NoteSelectionView {
    /// The picker of step `number`, its cursor on A.
    pub fn new(number: usize) -> (r: Self)
        requires
            number < NOTE_COUNT,
        ensures
            r.state() == (NoteCursor { selection: 0, number }),
            r.inv(),
    {
        NoteSelectionView { selection: 0, number }
    }
}

impl View for NoteSelectionView {
    type State = NoteCursor;

    closed spec fn state(&self) -> NoteCursor {
        NoteCursor { selection: self.selection, number: self.number }
    }

    closed spec fn inv(&self) -> bool {
        self.selection <= NO_NOTE_SELECTION && self.number < NOTE_COUNT
    }

    open spec fn active_in(s: NoteCursor, now: u64) -> bool {
        true
    }

    /// Moves the cursor, then writes the note under it into the step whether
    /// or not it moved; consumed only when the cursor moved.
    open spec fn fed(s: NoteCursor, e: Event, m: ModelState, now: u64) -> (
        NoteCursor,
        ModelState,
        bool,
    ) {
        let sel = next_selection(s.selection, e);
        (
            NoteCursor { selection: sel, ..s },
            ModelState { notes: m.notes.update(s.number as int, note_of(sel as nat)), ..m },
            sel != s.selection,
        )
    }

    /// The cursor is put back on the step's note.
    open spec fn activated(s: NoteCursor, m: ModelState) -> NoteCursor {
        NoteCursor { selection: selection_of(m.notes[s.number as int]) as usize, ..s }
    }

    open spec fn painted(s: NoteCursor, m: ModelState, now: u64) -> Seq<Paint> {
        seq![Paint::NotePicker { step: s.number, selection: s.selection }]
    }

    fn feed(&mut self, event: Event, model: &mut Model, now: u64) -> (consumed: bool) {
        let before = self.selection;
        if pressed(Key::ArrowLeft, event) {
            if self.selection > 0 {
                self.selection = self.selection - 1;
            }
        } else if pressed(Key::ArrowRight, event) {
            if self.selection + 1 > NO_NOTE_SELECTION {
                self.selection = NO_NOTE_SELECTION;
            } else {
                self.selection = self.selection + 1;
            }
        }
        model.notes.set(self.number, note_for_selection(self.selection));
        self.selection != before
    }

    fn activate(&mut self, model: &Model) {
        self.selection = selection_for_note(&model.notes[self.number]);
    }

    fn ui(&self, model: &Model, now: u64) -> (r: Vec<Paint>) {
        let mut r: Vec<Paint> = Vec::new();
        r.push(Paint::NotePicker { step: self.number, selection: self.selection });
        assert(r@ =~= seq![Paint::NotePicker { step: self.number, selection: self.selection }]);
        r
    }

    fn active(&self, now: u64) -> (r: bool) {
        true
    }
}

/// The trigger key of step `i`: the digits 1 to 8.
pub open spec fn step_key_of(i: int) -> Key {
    if i == 0 {
        Key::Num1
    } else if i == 1 {
        Key::Num2
    } else if i == 2 {
        Key::Num3
    } else if i == 3 {
        Key::Num4
    } else if i == 4 {
        Key::Num5
    } else if i == 5 {
        Key::Num6
    } else if i == 6 {
        Key::Num7
    } else {
        Key::Num8
    }
}

pub fn step_key(i: usize) -> (r: Key)
    ensures
        r == step_key_of(i as int),
{
    match i {
        0 => Key::Num1,
        1 => Key::Num2,
        2 => Key::Num3,
        3 => Key::Num4,
        4 => Key::Num5,
        5 => Key::Num6,
        6 => Key::Num7,
        _ => Key::Num8,
    }
}

/// The row of steps, as painted: each step's note, and which one is under the
/// playhead.
pub open spec fn step_paints(m: ModelState) -> Seq<Paint> {
    Seq::new(
        NOTE_COUNT as nat,
        |i: int| Paint::Step { index: i as usize, note: m.notes[i], at_playhead: i == m.position },
    )
}

/// The abstract state of the step editors.
pub type EditorStates = Seq<MomentaryState<NoteCursor>>;

/// Eight closed pickers, the one of step `i` keyed to digit `i + 1` with its
/// cursor on A.
pub open spec fn initial_editors() -> EditorStates {
    Seq::new(
        NOTE_COUNT as nat,
        |i: int|
            MomentaryState {
                key: step_key_of(i),
                active: false,
                child: NoteCursor { selection: 0, number: i as usize },
            },
    )
}

/// The step row, with one note picker per step that opens while the step's
/// digit key is held; at most one picker is routed to at a time.
pub struct MatrixView {
    note_views: MutexViewContainer<MomentaryView<NoteSelectionView>>,
}

impl MatrixView {
    pub fn new() -> (r: Self)
        ensures
            r.inv(),
            r.state() == initial_editors(),
    {
        let mut views: Vec<MomentaryView<NoteSelectionView>> = Vec::new();
        let mut i: usize = 0;
        while i < NOTE_COUNT
            invariant
                i <= NOTE_COUNT,
                views@.len() == i,
                forall|j: int| 0 <= j < i ==> (#[trigger] views@[j]).inv(),
                forall|j: int|
                    0 <= j < i ==> (#[trigger] views@[j]).state() == (MomentaryState {
                        key: step_key_of(j),
                        active: false,
                        child: NoteCursor { selection: 0, number: j as usize },
                    }),
            decreases NOTE_COUNT - i,
        {
            let v = MomentaryView::new(NoteSelectionView::new(i), step_key(i));
            views.push(v);
            i = i + 1;
        }
        let r = MatrixView { note_views: MutexViewContainer::new(views) };
        assert(r.state() =~= initial_editors());
        r
    }
}

impl Default for MatrixView {
    fn default() -> (r: Self)
        ensures
            r.inv(),
            r.state() == initial_editors(),
    {
        MatrixView::new()
    }
}

impl View for MatrixView {
    type State = EditorStates;

    closed spec fn state(&self) -> EditorStates {
        self.note_views.state()
    }

    closed spec fn inv(&self) -> bool {
        self.note_views.inv()
    }

    open spec fn active_in(s: EditorStates, now: u64) -> bool {
        true
    }

    open spec fn fed(s: EditorStates, e: Event, m: ModelState, now: u64) -> (
        EditorStates,
        ModelState,
        bool,
    ) {
        MutexViewContainer::<MomentaryView<NoteSelectionView>>::fed(s, e, m, now)
    }

    open spec fn activated(s: EditorStates, m: ModelState) -> EditorStates {
        s
    }

    /// The step row, then the open picker.
    open spec fn painted(s: EditorStates, m: ModelState, now: u64) -> Seq<Paint> {
        step_paints(m) + MutexViewContainer::<MomentaryView<NoteSelectionView>>::painted(
            s,
            m,
            now,
        )
    }

    fn feed(&mut self, event: Event, model: &mut Model, now: u64) -> (consumed: bool) {
        self.note_views.feed(event, model, now)
    }

    fn activate(&mut self, model: &Model) {
    }

    fn ui(&self, model: &Model, now: u64) -> (r: Vec<Paint>) {
        let mut out: Vec<Paint> = Vec::new();
        let mut i: usize = 0;
        while i < NOTE_COUNT
            invariant
                i <= NOTE_COUNT,
                model.wf(),
                out@ =~= step_paints(model@).subrange(0, i as int),
            decreases NOTE_COUNT - i,
        {
            out.push(
                Paint::Step { index: i, note: model.notes[i], at_playhead: i == model.position },
            );
            i = i + 1;
        }
        let mut rest = self.note_views.ui(model, now);
        out.append(&mut rest);
        out
    }

    fn active(&self, now: u64) -> (r: bool) {
        true
    }
}

/// A picker whose cursor agrees with its step's note leaves the model as it
/// was whenever it does not consume an event; and activation brings the
/// cursor into agreement with the step's note.
pub proof fn lemma_picker_sync(s: NoteCursor, e: Event, m: ModelState, now: u64)
    requires
        s.selection <= NO_NOTE_SELECTION,
        s.number < m.notes.len(),
    ensures
        m.notes[s.number as int] == note_of(s.selection as nat) && !NoteSelectionView::fed(
            s,
            e,
            m,
            now,
        ).2 ==> NoteSelectionView::fed(s, e, m, now).1 == m,
        ({
            let a = NoteSelectionView::activated(s, m);
            m.notes[a.number as int] == note_of(a.selection as nat)
        }),
{
    lemma_selection_round_trip(0);
    assert(m.notes[s.number as int] == note_of(s.selection as nat) ==> m.notes.update(
        s.number as int,
        note_of(s.selection as nat),
    ) =~= m.notes);
}

/// The step editors start with none open, so at most one is ever open: a
/// mutex container keeps that property from one event to the next.
pub proof fn lemma_editors_start_closed(now: u64)
    ensures
        first_active_from::<MomentaryView<NoteSelectionView>>(initial_editors(), 0, now) is None,
        at_most_one_active::<MomentaryView<NoteSelectionView>>(initial_editors(), now),
{
    lemma_first_active_in_range::<MomentaryView<NoteSelectionView>>(initial_editors(), 0, now);
}

} // verus!
