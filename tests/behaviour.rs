use synth_ui::matrix::{
    note_color, note_for_selection, selection_for_note, MatrixView, NoteSelectionView, Rgba,
};
use synth_ui::model::{Model, Note, TransportState};
use synth_ui::root::Root;
use synth_ui::view::{
    pressed, used, Event, Key, MomentaryTimedView, MomentaryView, MutexViewContainer, Paint,
    ViewContainer, View,
};
use synth_ui::volume::VolumeView;

fn press(key: Key) -> Event {
    Event::Key { key, pressed: true }
}

fn release(key: Key) -> Event {
    Event::Key { key, pressed: false }
}

#[test]
fn tempo_never_goes_below_zero() {
    let mut m = Model::default();
    assert_eq!(m.bpm, 120);
    for _ in 0..500 {
        m.slowdown();
    }
    assert_eq!(m.bpm, 0);
}

#[test]
fn tempo_never_goes_above_300() {
    let mut m = Model::default();
    for _ in 0..500 {
        m.speedup();
    }
    assert_eq!(m.bpm, 300);
    m.slowdown();
    assert_eq!(m.bpm, 299);
}

#[test]
fn volume_is_clamped() {
    let mut m = Model::default();
    assert_eq!(m.volume, 5);
    for _ in 0..20 {
        m.pumpup();
    }
    assert_eq!(m.volume, 11);
    for _ in 0..20 {
        m.receive_complaint();
    }
    assert_eq!(m.volume, 0);
    m.pumpup();
    assert_eq!(m.volume, 1);
}

#[test]
fn playhead_after_half_a_second_at_120() {
    let mut m = Model::default();
    m.update(500_000_000);
    assert_eq!(m.position, 4);
    assert_eq!(m.elapsed, 500_000_000);
}

#[test]
fn playhead_wraps_around_the_row() {
    let mut m = Model::default();
    // 0.9 s at 120 BPM is 7.2 steps.
    m.update(900_000_000);
    assert_eq!(m.position, 7);
    // 1.25 s is 10 steps: step 2 of the next bar.
    m.update(350_000_000);
    assert_eq!(m.position, 2);
}

#[test]
fn playhead_at_300_bpm() {
    let mut m = Model::default();
    m.bpm = 300;
    m.update(1_000_000_000);
    assert_eq!(m.position, 4);
}

#[test]
fn toggling_twice_restores_transport() {
    let mut m = Model::default();
    assert_eq!(m.transport, TransportState::Playing);
    m.toggle_transport();
    assert_eq!(m.transport, TransportState::Stopped);
    m.toggle_transport();
    assert_eq!(m.transport, TransportState::Playing);
}

#[test]
fn stopped_clock_keeps_playhead() {
    let mut m = Model::default();
    m.update(250_000_000);
    assert_eq!(m.position, 2);
    m.toggle_transport();
    m.update(5_000_000_000);
    assert_eq!(m.position, 2);
    assert_eq!(m.elapsed, 250_000_000);
    m.toggle_transport();
    m.update(250_000_000);
    assert_eq!(m.position, 4);
}

#[test]
fn elapsed_time_saturates() {
    let mut m = Model::default();
    m.update(u64::MAX);
    m.update(10);
    assert_eq!(m.elapsed, u64::MAX);
    assert!(m.position < 8);
}

#[test]
fn key_helpers() {
    assert!(pressed(Key::P, press(Key::P)));
    assert!(!pressed(Key::P, release(Key::P)));
    assert!(!pressed(Key::P, press(Key::V)));
    assert!(used(Key::P, release(Key::P)));
    assert!(!used(Key::P, Event::Other));
}

#[test]
fn momentary_view_press_and_release() {
    let mut m = Model::default();
    let mut v = MomentaryView::new(VolumeView::new(), Key::V);
    assert!(!v.active(0));
    assert!(!v.feed(press(Key::ArrowRight), &mut m, 0));
    assert_eq!(m.volume, 5);
    assert!(v.ui(&m, 0).is_empty());
    assert!(v.feed(press(Key::V), &mut m, 0));
    assert!(v.active(0));
    assert!(v.feed(press(Key::ArrowRight), &mut m, 0));
    assert_eq!(m.volume, 6);
    assert_eq!(v.ui(&m, 0), vec![Paint::Volume { level: 6 }]);
    assert!(v.feed(release(Key::V), &mut m, 0));
    assert!(!v.active(0));
    assert!(!v.feed(press(Key::ArrowLeft), &mut m, 0));
    assert_eq!(m.volume, 6);
}

#[test]
fn momentary_view_resyncs_picker_on_press() {
    let mut m = Model::default();
    let mut v = MomentaryView::new(NoteSelectionView::new(2), Key::Num3);
    assert!(v.feed(press(Key::Num3), &mut m, 0));
    assert_eq!(v.ui(&m, 0), vec![Paint::NotePicker { step: 2, selection: 7 }]);
    assert!(v.feed(press(Key::ArrowLeft), &mut m, 0));
    assert_eq!(m.notes[2], Some(Note::G));
    assert_eq!(v.ui(&m, 0), vec![Paint::NotePicker { step: 2, selection: 6 }]);
}

#[test]
fn timed_view_deadline() {
    let mut m = Model::default();
    let mut v = MomentaryTimedView::new(VolumeView::new(), Key::V, 1000);
    assert!(!v.active(0));
    assert!(!v.feed(press(Key::ArrowLeft), &mut m, 0));
    assert!(v.feed(press(Key::V), &mut m, 100));
    assert!(v.active(1100));
    assert!(!v.active(1101));
    assert_eq!(v.ui(&m, 1099), vec![Paint::Volume { level: 5 }]);
    assert!(v.ui(&m, 1100).is_empty());
    // A consumed event refreshes the deadline.
    assert!(v.feed(press(Key::ArrowLeft), &mut m, 600));
    assert_eq!(m.volume, 4);
    assert!(v.active(1600));
    assert!(!v.active(1601));
    // One the child does not consume leaves it.
    assert!(!v.feed(press(Key::P), &mut m, 1000));
    assert!(!v.active(1601));
    // A press while active refreshes it too.
    assert!(v.feed(press(Key::V), &mut m, 1500));
    assert!(v.active(2500));
    // After the timeout nothing reaches the child.
    assert!(!v.feed(press(Key::ArrowLeft), &mut m, 2501));
    assert_eq!(m.volume, 4);
    assert!(v.ui(&m, 2501).is_empty());
}

#[test]
fn container_gives_event_to_first_taker() {
    let mut m = Model::default();
    let mut c = ViewContainer::new(vec![VolumeView::new(), VolumeView::new()]);
    assert!(c.feed(press(Key::ArrowRight), &mut m, 0));
    assert_eq!(m.volume, 6);
    assert!(!c.feed(press(Key::P), &mut m, 0));
    assert_eq!(c.ui(&m, 0).len(), 2);
    assert!(c.active(0));
}

#[test]
fn container_skips_inactive_children() {
    let mut m = Model::default();
    let mut c = ViewContainer::new(vec![
        MomentaryView::new(VolumeView::new(), Key::Num1),
        MomentaryView::new(VolumeView::new(), Key::Num2),
    ]);
    assert!(!c.active(0));
    assert!(c.feed(press(Key::Num2), &mut m, 0));
    assert!(c.active(0));
    assert!(c.feed(press(Key::ArrowLeft), &mut m, 0));
    assert_eq!(m.volume, 4);
    assert_eq!(c.ui(&m, 0), vec![Paint::Volume { level: 4 }]);
}

#[test]
fn mutex_feeds_only_first_active_child() {
    let mut m = Model::default();
    let mut c = MutexViewContainer::new(vec![VolumeView::new(), VolumeView::new()]);
    assert!(c.feed(press(Key::ArrowRight), &mut m, 0));
    assert_eq!(m.volume, 6);
    assert_eq!(c.ui(&m, 0), vec![Paint::Volume { level: 6 }]);
}

#[test]
fn mutex_with_no_active_child_does_nothing() {
    let mut m = Model::default();
    let mut c = MutexViewContainer::new(vec![
        MomentaryView::new(VolumeView::new(), Key::Num1),
        MomentaryView::new(VolumeView::new(), Key::Num2),
    ]);
    assert!(!c.active(0));
    assert!(!c.feed(press(Key::Num1), &mut m, 0));
    assert!(!c.active(0));
    assert!(c.ui(&m, 0).is_empty());
}

#[test]
fn selection_round_trip() {
    for s in 0..8usize {
        let note = note_for_selection(s);
        assert_eq!(selection_for_note(&note), s);
        assert_eq!(note_for_selection(selection_for_note(&note)), note);
    }
    assert_eq!(note_for_selection(0), Some(Note::A));
    assert_eq!(note_for_selection(6), Some(Note::G));
    assert_eq!(note_for_selection(7), None);
    assert_eq!(note_for_selection(42), None);
    assert_eq!(selection_for_note(&Some(Note::D)), 3);
}

#[test]
fn note_colors() {
    assert_eq!(note_color(&Some(Note::A)), Rgba { r: 0x9b, g: 0x5f, b: 0xe0, a: 0xff });
    assert_eq!(note_color(&Some(Note::G)), Rgba { r: 0xd6, g: 0x4e, b: 0x12, a: 0xff });
    assert_eq!(note_color(&None), Rgba { r: 0, g: 0, b: 0, a: 0xff });
}

#[test]
fn picker_moves_and_writes_note() {
    let mut m = Model::default();
    let mut p = NoteSelectionView::new(0);
    // At the floor nothing moves, but the note under the cursor is written.
    assert!(!p.feed(press(Key::ArrowLeft), &mut m, 0));
    assert_eq!(m.notes[0], Some(Note::A));
    assert!(p.feed(press(Key::ArrowRight), &mut m, 0));
    assert_eq!(m.notes[0], Some(Note::B));
    for _ in 0..10 {
        p.feed(press(Key::ArrowRight), &mut m, 0);
    }
    assert_eq!(m.notes[0], None);
    assert!(!p.feed(press(Key::ArrowRight), &mut m, 0));
    m.notes[0] = Some(Note::E);
    p.activate(&m);
    assert_eq!(p.ui(&m, 0), vec![Paint::NotePicker { step: 0, selection: 4 }]);
}

#[test]
fn matrix_paints_row_with_playhead() {
    let mut m = Model::default();
    m.notes[3] = Some(Note::C);
    m.position = 3;
    let v = MatrixView::default();
    let paints = v.ui(&m, 0);
    assert_eq!(paints.len(), 8);
    assert_eq!(paints[3], Paint::Step { index: 3, note: Some(Note::C), at_playhead: true });
    assert_eq!(paints[0], Paint::Step { index: 0, note: None, at_playhead: false });
}

#[test]
fn matrix_editors_stay_closed() {
    let mut m = Model::default();
    let mut v = MatrixView::default();
    assert!(!v.feed(press(Key::Num1), &mut m, 0));
    assert!(!v.feed(press(Key::ArrowRight), &mut m, 0));
    assert_eq!(m.notes[0], None);
    assert_eq!(v.ui(&m, 0).len(), 8);
}

#[test]
fn root_handles_transport_and_tempo() {
    let mut m = Model::default();
    let mut r = Root::default();
    assert!(r.feed(press(Key::P), &mut m, 0));
    assert_eq!(m.transport, TransportState::Stopped);
    assert!(r.feed(press(Key::P), &mut m, 0));
    assert_eq!(m.transport, TransportState::Playing);
    assert!(r.feed(press(Key::ArrowLeft), &mut m, 0));
    assert_eq!(m.bpm, 119);
    assert!(r.feed(press(Key::ArrowRight), &mut m, 0));
    assert!(r.feed(press(Key::ArrowRight), &mut m, 0));
    assert_eq!(m.bpm, 121);
    assert!(!r.feed(release(Key::P), &mut m, 0));
    assert!(!r.feed(Event::Other, &mut m, 0));
}

#[test]
fn root_routes_arrows_to_volume_while_dial_is_up() {
    let mut m = Model::default();
    let mut r = Root::new();
    assert!(r.feed(press(Key::V), &mut m, 1_000));
    assert!(r.feed(press(Key::ArrowLeft), &mut m, 2_000));
    assert_eq!(m.volume, 4);
    assert_eq!(m.bpm, 120);
    let paints = r.ui(&m, 3_000);
    assert_eq!(paints[0], Paint::Tempo { bpm: 120 });
    assert_eq!(paints.len(), 10);
    assert_eq!(paints[9], Paint::Volume { level: 4 });
    // Over a second later the dial is gone and the arrows set the tempo.
    assert!(r.feed(press(Key::ArrowLeft), &mut m, 1_002_000_001));
    assert_eq!(m.volume, 4);
    assert_eq!(m.bpm, 119);
    assert_eq!(r.ui(&m, 1_002_000_001).len(), 9);
}

#[test]
fn notes_by_index() {
    assert_eq!(Note::from_index(0), Note::A);
    assert_eq!(Note::from_index(4), Note::E);
    assert_eq!(Note::from_index(6), Note::G);
    assert_eq!(Note::from_index(200), Note::G);
    for _ in 0..20 {
        let _ = Note::random();
    }
}
