use vstd::prelude::*;
use vstd::view::View as _;

use crate::model::{clamp, Model, ModelState, MAX_VOLUME};
use crate::view::{is_press_of, pressed, Event, Key, Paint, View};

verus! {

/// The volume dial: ArrowLeft turns it down, ArrowRight up.
pub struct VolumeView {}

impl VolumeView {
    pub fn new() -> (r: Self)
        ensures
            r.inv(),
    {
        VolumeView {  }
    }
}

impl Default for VolumeView {
    fn default() -> (r: Self)
        ensures
            r.inv(),
    {
        VolumeView::new()
    }
}

impl View for VolumeView {
    type State = ();

    closed spec fn state(&self) -> () {
        ()
    }

    closed spec fn inv(&self) -> bool {
        true
    }

    open spec fn active_in(s: (), now: u64) -> bool {
        true
    }

    /// The arrows step the volume within `[0, 11]` and are consumed; nothing
    /// else is.
    open spec fn fed(s: (), e: Event, m: ModelState, now: u64) -> ((), ModelState, bool) {
        if is_press_of(Key::ArrowLeft, e) {
            (s, ModelState { volume: clamp(m.volume - 1, 0, MAX_VOLUME as int) as u32, ..m }, true)
        } else if is_press_of(Key::ArrowRight, e) {
            (s, ModelState { volume: clamp(m.volume + 1, 0, MAX_VOLUME as int) as u32, ..m }, true)
        } else {
            (s, m, false)
        }
    }

    open spec fn activated(s: (), m: ModelState) -> () {
        s
    }

    open spec fn painted(s: (), m: ModelState, now: u64) -> Seq<Paint> {
        seq![Paint::Volume { level: m.volume }]
    }

    fn feed(&mut self, event: Event, model: &mut Model, now: u64) -> (consumed: bool) {
        if pressed(Key::ArrowLeft, event) {
            model.receive_complaint();
            true
        } else if pressed(Key::ArrowRight, event) {
            model.pumpup();
            true
        } else {
            false
        }
    }

    fn activate(&mut self, model: &Model) {
    }

    fn ui(&self, model: &Model, now: u64) -> (r: Vec<Paint>) {
        let mut r: Vec<Paint> = Vec::new();
        r.push(Paint::Volume { level: model.volume });
        assert(r@ =~= seq![Paint::Volume { level: model.volume }]);
        r
    }

    fn active(&self, now: u64) -> (r: bool) {
        true
    }
}

} // verus!
