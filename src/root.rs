use vstd::prelude::*;
use vstd::view::View as _;

use crate::matrix::{initial_editors, EditorStates, MatrixView};
use crate::model::{clamp, toggled, Model, ModelState, MAX_BPM};
use crate::view::{
    is_press_of, pressed, Event, Key, MomentaryTimedView, Paint, TimedState, ViewContainer, View,
};
use crate::volume::VolumeView;

verus! {

/// How long the volume dial stays up after its last use, in nanoseconds.
pub const VOLUME_TIMEOUT: u64 = 1_000_000_000;

/// A child of the root: the step row, or the volume dial behind the V key.
pub enum RootChild {
    Matrix(MatrixView),
    Volume(MomentaryTimedView<VolumeView>),
}

/// The abstract state of a `RootChild`.
pub enum RootChildState {
    Matrix(EditorStates),
    Volume(TimedState<()>),
}

impl View for RootChild {
    type State = RootChildState;

    closed spec fn state(&self) -> RootChildState {
        match self {
            RootChild::Matrix(v) => RootChildState::Matrix(v.state()),
            RootChild::Volume(v) => RootChildState::Volume(v.state()),
        }
    }

    closed spec fn inv(&self) -> bool {
        match self {
            RootChild::Matrix(v) => v.inv(),
            RootChild::Volume(v) => v.inv(),
        }
    }

    open spec fn active_in(s: RootChildState, now: u64) -> bool {
        match s {
            RootChildState::Matrix(t) => MatrixView::active_in(t, now),
            RootChildState::Volume(t) => MomentaryTimedView::<VolumeView>::active_in(t, now),
        }
    }

    open spec fn fed(s: RootChildState, e: Event, m: ModelState, now: u64) -> (
        RootChildState,
        ModelState,
        bool,
    ) {
        match s {
            RootChildState::Matrix(t) => {
                let r = MatrixView::fed(t, e, m, now);
                (RootChildState::Matrix(r.0), r.1, r.2)
            },
            RootChildState::Volume(t) => {
                let r = MomentaryTimedView::<VolumeView>::fed(t, e, m, now);
                (RootChildState::Volume(r.0), r.1, r.2)
            },
        }
    }

    open spec fn activated(s: RootChildState, m: ModelState) -> RootChildState {
        match s {
            RootChildState::Matrix(t) => RootChildState::Matrix(MatrixView::activated(t, m)),
            RootChildState::Volume(t) => RootChildState::Volume(
                MomentaryTimedView::<VolumeView>::activated(t, m),
            ),
        }
    }

    open spec fn painted(s: RootChildState, m: ModelState, now: u64) -> Seq<Paint> {
        match s {
            RootChildState::Matrix(t) => MatrixView::painted(t, m, now),
            RootChildState::Volume(t) => MomentaryTimedView::<VolumeView>::painted(t, m, now),
        }
    }

    fn feed(&mut self, event: Event, model: &mut Model, now: u64) -> (consumed: bool) {
        match self {
            RootChild::Matrix(v) => v.feed(event, model, now),
            RootChild::Volume(v) => v.feed(event, model, now),
        }
    }

    fn activate(&mut self, model: &Model) {
        match self {
            RootChild::Matrix(v) => v.activate(model),
            RootChild::Volume(v) => v.activate(model),
        }
    }

    fn ui(&self, model: &Model, now: u64) -> (r: Vec<Paint>) {
        match self {
            RootChild::Matrix(v) => v.ui(model, now),
            RootChild::Volume(v) => v.ui(model, now),
        }
    }

    fn active(&self, now: u64) -> (r: bool) {
        match self {
            RootChild::Matrix(v) => v.active(now),
            RootChild::Volume(v) => v.active(now),
        }
    }
}

/// The root's own keys, for an event that no child consumed: P toggles the
/// transport, ArrowLeft and ArrowRight step the tempo within `[0, 300]`.
pub open spec fn root_keys(e: Event, m: ModelState) -> (ModelState, bool) {
    if is_press_of(Key::P, e) {
        (ModelState { transport: toggled(m.transport), ..m }, true)
    } else if is_press_of(Key::ArrowLeft, e) {
        (ModelState { bpm: clamp(m.bpm - 1, 0, MAX_BPM as int) as u32, ..m }, true)
    } else if is_press_of(Key::ArrowRight, e) {
        (ModelState { bpm: clamp(m.bpm + 1, 0, MAX_BPM as int) as u32, ..m }, true)
    } else {
        (m, false)
    }
}

/// The children as the root starts: the step row with every picker closed,
/// then the volume dial, closed, behind V for one second.
pub open spec fn initial_children() -> Seq<RootChildState> {
    seq![
        RootChildState::Matrix(initial_editors()),
        RootChildState::Volume(
            TimedState { key: Key::V, timeout: VOLUME_TIMEOUT, until: None, child: () },
        ),
    ]
}

/// The top of the view tree: the step row and the volume dial, and the
/// transport and tempo keys that neither claims.
pub struct Root {
    children: ViewContainer<RootChild>,
}

impl Root {
    pub fn new() -> (r: Self)
        ensures
            r.inv(),
            r.state() == initial_children(),
    {
        let mut views: Vec<RootChild> = Vec::new();
        views.push(RootChild::Matrix(MatrixView::new()));
        views.push(
            RootChild::Volume(MomentaryTimedView::new(VolumeView::new(), Key::V, VOLUME_TIMEOUT)),
        );
        assert(views@[0].inv() && views@[1].inv());
        let r = Root { children: ViewContainer::new(views) };
        assert(r.state() =~= initial_children());
        r
    }

    fn feed_internal(&self, event: Event, model: &mut Model) -> (consumed: bool)
        ensures
            (final(model)@, consumed) == root_keys(event, old(model)@),
            old(model).wf() ==> final(model).wf(),
    {
        if pressed(Key::P, event) {
            model.toggle_transport();
            true
        } else if pressed(Key::ArrowLeft, event) {
            model.slowdown();
            true
        } else if pressed(Key::ArrowRight, event) {
            model.speedup();
            true
        } else {
            false
        }
    }
}

impl Default for Root {
    fn default() -> (r: Self)
        ensures
            r.inv(),
            r.state() == initial_children(),
    {
        Root::new()
    }
}

impl View for Root {
    type State = Seq<RootChildState>;

    closed spec fn state(&self) -> Seq<RootChildState> {
        self.children.state()
    }

    closed spec fn inv(&self) -> bool {
        self.children.inv()
    }

    open spec fn active_in(s: Seq<RootChildState>, now: u64) -> bool {
        true
    }

    /// The children first; what none of them consumes goes to the root's own
    /// keys.
    open spec fn fed(s: Seq<RootChildState>, e: Event, m: ModelState, now: u64) -> (
        Seq<RootChildState>,
        ModelState,
        bool,
    ) {
        let r = ViewContainer::<RootChild>::fed(s, e, m, now);
        if r.2 {
            r
        } else {
            let k = root_keys(e, r.1);
            (r.0, k.0, k.1)
        }
    }

    open spec fn activated(s: Seq<RootChildState>, m: ModelState) -> Seq<RootChildState> {
        s
    }

    /// The tempo, then the children.
    open spec fn painted(s: Seq<RootChildState>, m: ModelState, now: u64) -> Seq<Paint> {
        seq![Paint::Tempo { bpm: m.bpm }] + ViewContainer::<RootChild>::painted(s, m, now)
    }

    fn feed(&mut self, event: Event, model: &mut Model, now: u64) -> (consumed: bool) {
        if !self.children.feed(event, model, now) {
            return self.feed_internal(event, model);
        }
        true
    }

    fn activate(&mut self, model: &Model) {
    }

    fn ui(&self, model: &Model, now: u64) -> (r: Vec<Paint>) {
        let mut out: Vec<Paint> = Vec::new();
        out.push(Paint::Tempo { bpm: model.bpm });
        let mut rest = self.children.ui(model, now);
        out.append(&mut rest);
        assert(out@ =~= Self::painted(self.state(), model@, now));
        out
    }

    fn active(&self, now: u64) -> (r: bool) {
        true
    }
}

} // verus!
