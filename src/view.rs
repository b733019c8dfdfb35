use vstd::prelude::*;
use vstd::view::View as _;

use crate::model::{Model, ModelState, Note};

verus! {

/// The keys that the views react to; every other key is `Other`.
#[derive(Clone, Copy, PartialEq, Eq, Structural, Debug)]
pub enum Key {
    ArrowLeft,
    ArrowRight,
    P,
    V,
    Num1,
    Num2,
    Num3,
    Num4,
    Num5,
    Num6,
    Num7,
    Num8,
    Other,
}

/// An input event: a key transition, or anything else the host delivers.
#[derive(Clone, Copy, PartialEq, Eq, Structural, Debug)]
pub enum Event {
    Key { key: Key, pressed: bool },
    Other,
}

/// What a view asks to have painted.
#[derive(Clone, Copy, PartialEq, Eq, Debug)]
pub enum Paint {
    /// The tempo, as text.
    Tempo { bpm: u32 },
    /// One step of the row; `at_playhead` marks the step under the playhead.
    Step { index: usize, note: Option<Note>, at_playhead: bool },
    /// The note picker of one step, with its cursor.
    NotePicker { step: usize, selection: usize },
    /// The volume dial.
    Volume { level: u32 },
}

/// `e` is a press of `candidate`.
pub open spec fn is_press_of(candidate: Key, e: Event) -> bool {
    match e {
        Event::Key { key, pressed } => key == candidate && pressed,
        Event::Other => false,
    }
}

/// `e` is a press or a release of `candidate`.
pub open spec fn involves(candidate: Key, e: Event) -> bool {
    match e {
        Event::Key { key, pressed: _ } => key == candidate,
        Event::Other => false,
    }
}

/// Whether `event` is a press of `candidate`.
pub fn pressed(candidate: Key, event: Event) -> (r: bool)
    ensures
        r == is_press_of(candidate, event),
{
    match event {
        Event::Key { key, pressed } => key == candidate && pressed,
        Event::Other => false,
    }
}

/// Whether `event` is a press or a release of `candidate`.
pub fn used(candidate: Key, event: Event) -> (r: bool)
    ensures
        r == involves(candidate, event),
{
    match event {
        Event::Key { key, pressed: _ } => key == candidate,
        Event::Other => false,
    }
}

/// `a + b`, saturating at `u64::MAX`.
pub open spec fn sat_add(a: u64, b: u64) -> u64 {
    if a + b > u64::MAX {
        u64::MAX
    } else {
        (a + b) as u64
    }
}

/// `a + b`, saturating at `u64::MAX`.
pub fn saturating_add(a: u64, b: u64) -> (r: u64)
    ensures
        r == sat_add(a, b),
{
    if b > u64::MAX - a {
        u64::MAX
    } else {
        a + b
    }
}

/// An interactive panel of the view tree.
///
/// Each widget has an abstract `State`. Its behaviour is stated by spec
/// functions over that state: `fed` gives the next state, the next model and
/// whether the event was consumed; `painted` what it paints; `active_in`
/// whether it claims routing and painting at time `now` (nanoseconds of a
/// monotonic clock).
pub trait View: Sized {
    type State;

    spec fn state(&self) -> Self::State;

    /// The widget's internal well-formedness.
    spec fn inv(&self) -> bool;

    spec fn active_in(s: Self::State, now: u64) -> bool;

    spec fn fed(s: Self::State, e: Event, m: ModelState, now: u64) -> (Self::State, ModelState, bool);

    spec fn activated(s: Self::State, m: ModelState) -> Self::State;

    spec fn painted(s: Self::State, m: ModelState, now: u64) -> Seq<Paint>;

    /// Offers `event` to the widget; `true` when it consumed it.
    fn feed(&mut self, event: Event, model: &mut Model, now: u64) -> (consumed: bool)
        requires
            old(self).inv(),
            old(model).wf(),
        ensures
            final(self).inv(),
            final(model).wf(),
            (final(self).state(), final(model)@, consumed) == Self::fed(
                old(self).state(),
                event,
                old(model)@,
                now,
            ),
    ;

    /// Resynchronises the widget with the model when it becomes visible.
    fn activate(&mut self, model: &Model)
        requires
            old(self).inv(),
            model.wf(),
        ensures
            final(self).inv(),
            final(self).state() == Self::activated(old(self).state(), model@),
    ;

    /// What the widget paints at time `now`.
    fn ui(&self, model: &Model, now: u64) -> (r: Vec<Paint>)
        requires
            self.inv(),
            model.wf(),
        ensures
            r@ == Self::painted(self.state(), model@, now),
    ;

    /// Whether the widget claims routing and painting at time `now`.
    fn active(&self, now: u64) -> (r: bool)
        ensures
            r == Self::active_in(self.state(), now),
    ;
}

/// The abstract state of a `MomentaryView`.
pub struct MomentaryState<S> {
    pub key: Key,
    pub active: bool,
    pub child: S,
}

/// Shows and feeds its child only while the trigger key is held down.
pub struct MomentaryView<V> {
    view: V,
    key: Key,
    active: bool,
}

impl<V: View> MomentaryView<V> {
    /// A gate over `view` that opens while `key` is held; initially closed.
    pub fn new(view: V, key: Key) -> (r: Self)
        ensures
            r.state() == (MomentaryState { key, active: false, child: view.state() }),
            r.inv() == view.inv(),
    {
        MomentaryView { view, key, active: false }
    }
}

impl<V: View> View for MomentaryView<V> {
    type State = MomentaryState<V::State>;

    closed spec fn state(&self) -> MomentaryState<V::State> {
        MomentaryState { key: self.key, active: self.active, child: self.view.state() }
    }

    closed spec fn inv(&self) -> bool {
        self.view.inv()
    }

    open spec fn active_in(s: MomentaryState<V::State>, now: u64) -> bool {
        s.active
    }

    /// A press of the trigger key makes the view active and resynchronises the
    /// child, a release makes it inactive; both are consumed. Other events go
    /// to the child while active, and pass unconsumed while inactive.
    open spec fn fed(s: MomentaryState<V::State>, e: Event, m: ModelState, now: u64) -> (
        MomentaryState<V::State>,
        ModelState,
        bool,
    ) {
        if involves(s.key, e) {
            if is_press_of(s.key, e) {
                (MomentaryState { active: true, child: V::activated(s.child, m), ..s }, m, true)
            } else {
                (MomentaryState { active: false, ..s }, m, true)
            }
        } else if s.active {
            let r = V::fed(s.child, e, m, now);
            (MomentaryState { child: r.0, ..s }, r.1, r.2)
        } else {
            (s, m, false)
        }
    }

    open spec fn activated(s: MomentaryState<V::State>, m: ModelState) -> MomentaryState<V::State> {
        s
    }

    open spec fn painted(s: MomentaryState<V::State>, m: ModelState, now: u64) -> Seq<Paint> {
        if s.active {
            V::painted(s.child, m, now)
        } else {
            Seq::empty()
        }
    }

    fn feed(&mut self, event: Event, model: &mut Model, now: u64) -> (consumed: bool) {
        if used(self.key, event) {
            if pressed(self.key, event) {
                self.active = true;
                self.view.activate(model);
            } else {
                self.active = false;
            }
            true
        } else if self.active {
            self.view.feed(event, model, now)
        } else {
            false
        }
    }

    fn activate(&mut self, model: &Model) {
    }

    fn ui(&self, model: &Model, now: u64) -> (r: Vec<Paint>) {
        if self.active {
            self.view.ui(model, now)
        } else {
            Vec::new()
        }
    }

    fn active(&self, now: u64) -> (r: bool) {
        self.active
    }
}

/// The abstract state of a `MomentaryTimedView`; `until` is the deadline,
/// `None` before the first press.
pub struct TimedState<S> {
    pub key: Key,
    pub timeout: u64,
    pub until: Option<u64>,
    pub child: S,
}

/// Whether a deadline lies at or after `now`.
pub open spec fn before_deadline(until: Option<u64>, now: u64) -> bool {
    match until {
        Some(d) => d >= now,
        None => false,
    }
}

/// Shows and feeds its child from a press of the trigger key until `timeout`
/// nanoseconds pass without the child consuming an event.
pub struct MomentaryTimedView<V> {
    view: V,
    key: Key,
    timeout: u64,
    until: Option<u64>,
}

impl<V: View> MomentaryTimedView<V> {
    /// A gate over `view` opened by `key` for `timeout` nanoseconds; initially
    /// closed.
    pub fn new(view: V, key: Key, timeout: u64) -> (r: Self)
        ensures
            r.state() == (TimedState { key, timeout, until: None::<u64>, child: view.state() }),
            r.inv() == view.inv(),
    {
        MomentaryTimedView { view, key, timeout, until: None }
    }
}

impl<V: View> View for MomentaryTimedView<V> {
    type State = TimedState<V::State>;

    closed spec fn state(&self) -> TimedState<V::State> {
        TimedState {
            key: self.key,
            timeout: self.timeout,
            until: self.until,
            child: self.view.state(),
        }
    }

    closed spec fn inv(&self) -> bool {
        self.view.inv()
    }

    open spec fn active_in(s: TimedState<V::State>, now: u64) -> bool {
        before_deadline(s.until, now)
    }

    /// A press of the trigger refreshes the deadline (and resynchronises the
    /// child) and is consumed. Otherwise, while active, the event goes to the
    /// child; the deadline is refreshed only when the child consumed it.
    open spec fn fed(s: TimedState<V::State>, e: Event, m: ModelState, now: u64) -> (
        TimedState<V::State>,
        ModelState,
        bool,
    ) {
        if is_press_of(s.key, e) {
            (
                TimedState {
                    until: Some(sat_add(now, s.timeout)),
                    child: V::activated(s.child, m),
                    ..s
                },
                m,
                true,
            )
        } else if before_deadline(s.until, now) {
            let r = V::fed(s.child, e, m, now);
            if r.2 {
                (TimedState { until: Some(sat_add(now, s.timeout)), child: r.0, ..s }, r.1, true)
            } else {
                (TimedState { child: r.0, ..s }, r.1, false)
            }
        } else {
            (s, m, false)
        }
    }

    open spec fn activated(s: TimedState<V::State>, m: ModelState) -> TimedState<V::State> {
        s
    }

    /// The child's paint strictly before the deadline, nothing after.
    open spec fn painted(s: TimedState<V::State>, m: ModelState, now: u64) -> Seq<Paint> {
        match s.until {
            Some(d) => if now < d {
                V::painted(s.child, m, now)
            } else {
                Seq::empty()
            },
            None => Seq::empty(),
        }
    }

    fn feed(&mut self, event: Event, model: &mut Model, now: u64) -> (consumed: bool) {
        if pressed(self.key, event) {
            self.until = Some(saturating_add(now, self.timeout));
            self.view.activate(model);
            true
        } else if self.active(now) {
            if self.view.feed(event, model, now) {
                self.until = Some(saturating_add(now, self.timeout));
                true
            } else {
                false
            }
        } else {
            false
        }
    }

    fn activate(&mut self, model: &Model) {
    }

    fn ui(&self, model: &Model, now: u64) -> (r: Vec<Paint>) {
        match self.until {
            Some(d) => if now < d {
                self.view.ui(model, now)
            } else {
                Vec::new()
            },
            None => Vec::new(),
        }
    }

    fn active(&self, now: u64) -> (r: bool) {
        match self.until {
            Some(d) => d >= now,
            None => false,
        }
    }
}

/// The abstract states of a sequence of widgets.
pub open spec fn states_of<V: View>(views: Seq<V>) -> Seq<V::State> {
    views.map_values(|v: V| v.state())
}

/// Offers an event to the widgets from `i` on, in order, until one consumes
/// it; each widget sees the model as the ones before it left it.
pub open spec fn feed_from<V: View>(ss: Seq<V::State>, i: int, e: Event, m: ModelState, now: u64) -> (
    Seq<V::State>,
    ModelState,
    bool,
)
    decreases ss.len() - i,
{
    if i < 0 || i >= ss.len() {
        (ss, m, false)
    } else {
        let r = V::fed(ss[i], e, m, now);
        if r.2 {
            (ss.update(i, r.0), r.1, true)
        } else {
            feed_from::<V>(ss.update(i, r.0), i + 1, e, r.1, now)
        }
    }
}

/// What the widgets from `i` on paint, one after the other.
pub open spec fn paint_from<V: View>(ss: Seq<V::State>, i: int, m: ModelState, now: u64) -> Seq<Paint>
    decreases ss.len() - i,
{
    if i < 0 || i >= ss.len() {
        Seq::empty()
    } else {
        V::painted(ss[i], m, now) + paint_from::<V>(ss, i + 1, m, now)
    }
}

/// Whether some widget is active at `now`.
pub open spec fn any_active<V: View>(ss: Seq<V::State>, now: u64) -> bool {
    exists|i: int| 0 <= i < ss.len() && V::active_in(#[trigger] ss[i], now)
}

/// The index of the first widget from `i` on that is active at `now`.
pub open spec fn first_active_from<V: View>(ss: Seq<V::State>, i: int, now: u64) -> Option<int>
    decreases ss.len() - i,
{
    if i < 0 || i >= ss.len() {
        None
    } else if V::active_in(ss[i], now) {
        Some(i)
    } else {
        first_active_from::<V>(ss, i + 1, now)
    }
}

/// Routes each event to its children in order until one consumes it, and
/// paints every child.
pub struct ViewContainer<V> {
    views: Vec<V>,
}

impl<V: View> ViewContainer<V> {
    pub fn new(views: Vec<V>) -> (r: Self)
        ensures
            r.state() == states_of(views@),
            r.inv() == (forall|i: int| 0 <= i < views@.len() ==> (#[trigger] views@[i]).inv()),
    {
        let r = ViewContainer { views };
        assert(r.views@ == views@);
        r
    }
}

impl<V: View> View for ViewContainer<V> {
    type State = Seq<V::State>;

    closed spec fn state(&self) -> Seq<V::State> {
        states_of(self.views@)
    }

    closed spec fn inv(&self) -> bool {
        forall|i: int| 0 <= i < self.views@.len() ==> (#[trigger] self.views@[i]).inv()
    }

    open spec fn active_in(s: Seq<V::State>, now: u64) -> bool {
        any_active::<V>(s, now)
    }

    open spec fn fed(s: Seq<V::State>, e: Event, m: ModelState, now: u64) -> (
        Seq<V::State>,
        ModelState,
        bool,
    ) {
        feed_from::<V>(s, 0, e, m, now)
    }

    open spec fn activated(s: Seq<V::State>, m: ModelState) -> Seq<V::State> {
        s
    }

    open spec fn painted(s: Seq<V::State>, m: ModelState, now: u64) -> Seq<Paint> {
        paint_from::<V>(s, 0, m, now)
    }

    fn feed(&mut self, event: Event, model: &mut Model, now: u64) -> (consumed: bool) {
        let ghost s0 = self.state();
        let ghost m0 = model@;
        let n = self.views.len();
        let mut i: usize = 0;
        while i < n
            invariant
                n == self.views@.len(),
                i <= n,
                self.inv(),
                model.wf(),
                s0 == old(self).state(),
                m0 == old(model)@,
                feed_from::<V>(s0, 0, event, m0, now) == feed_from::<V>(
                    self.state(),
                    i as int,
                    event,
                    model@,
                    now,
                ),
            decreases n - i,
        {
            let ghost before = self.views@;
            let ghost mb = model@;
            assert(feed_from::<V>(s0, 0, event, m0, now) == feed_from::<V>(
                states_of(before),
                i as int,
                event,
                mb,
                now,
            ));
            let c = self.views[i].feed(event, model, now);
            proof {
                assert(self.views@ == before.update(i as int, self.views@[i as int]));
                assert(states_of(self.views@) =~= states_of(before).update(
                    i as int,
                    self.views@[i as int].state(),
                ));
                assert forall|j: int| 0 <= j < self.views@.len() implies (
                #[trigger] self.views@[j]).inv() by {
                    if j != i {
                        assert(self.views@[j] == before[j]);
                    }
                }
            }
            if c {
                assert(feed_from::<V>(states_of(before), i as int, event, mb, now) == (
                    self.state(),
                    model@,
                    true,
                ));
                return true;
            }
            i = i + 1;
        }
        false
    }

    fn activate(&mut self, model: &Model) {
    }

    fn ui(&self, model: &Model, now: u64) -> (r: Vec<Paint>) {
        let ghost ss = self.state();
        let mut out: Vec<Paint> = Vec::new();
        let n = self.views.len();
        let mut i: usize = 0;
        while i < n
            invariant
                n == self.views@.len(),
                i <= n,
                self.inv(),
                model.wf(),
                ss == self.state(),
                out@ + paint_from::<V>(ss, i as int, model@, now) == paint_from::<V>(
                    ss,
                    0,
                    model@,
                    now,
                ),
            decreases n - i,
        {
            let ghost prev = out@;
            let mut p = self.views[i].ui(model, now);
            assert(ss[i as int] == self.views@[i as int].state());
            out.append(&mut p);
            assert(prev + paint_from::<V>(ss, i as int, model@, now) =~= out@ + paint_from::<V>(
                ss,
                i + 1,
                model@,
                now,
            ));
            i = i + 1;
        }
        assert(out@ + paint_from::<V>(ss, n as int, model@, now) =~= out@);
        out
    }

    fn active(&self, now: u64) -> (r: bool) {
        let ghost ss = self.state();
        let n = self.views.len();
        let mut i: usize = 0;
        while i < n
            invariant
                n == self.views@.len(),
                i <= n,
                ss == self.state(),
                forall|j: int| 0 <= j < i ==> !V::active_in(#[trigger] ss[j], now),
            decreases n - i,
        {
            if self.views[i].active(now) {
                assert(V::active_in(ss[i as int], now));
                return true;
            }
            i = i + 1;
        }
        false
    }
}

/// Routes events to, and paints, only the first of its children that is
/// active; the others are neither fed nor painted.
pub struct MutexViewContainer<V> {
    views: Vec<V>,
}

/// The state after feeding only the first active widget.
pub open spec fn mutex_fed<V: View>(s: Seq<V::State>, e: Event, m: ModelState, now: u64) -> (
    Seq<V::State>,
    ModelState,
    bool,
) {
    match first_active_from::<V>(s, 0, now) {
        Some(k) => {
            let r = V::fed(s[k], e, m, now);
            (s.update(k, r.0), r.1, r.2)
        },
        None => (s, m, false),
    }
}

impl<V: View> MutexViewContainer<V> {
    pub fn new(views: Vec<V>) -> (r: Self)
        ensures
            r.state() == states_of(views@),
            r.inv() == (forall|i: int| 0 <= i < views@.len() ==> (#[trigger] views@[i]).inv()),
    {
        let r = MutexViewContainer { views };
        assert(r.views@ == views@);
        r
    }

    /// The index of the first child that is active at `now`.
    fn active_view(&self, now: u64) -> (r: Option<usize>)
        ensures
            match r {
                Some(k) => first_active_from::<V>(self.state(), 0, now) == Some(k as int),
                None => first_active_from::<V>(self.state(), 0, now) == None::<int>,
            },
    {
        let ghost ss = self.state();
        let n = self.views.len();
        let mut i: usize = 0;
        while i < n
            invariant
                n == self.views@.len(),
                i <= n,
                ss == self.state(),
                first_active_from::<V>(ss, 0, now) == first_active_from::<V>(ss, i as int, now),
            decreases n - i,
        {
            if self.views[i].active(now) {
                return Some(i);
            }
            i = i + 1;
        }
        None
    }
}

impl<V: View> View for MutexViewContainer<V> {
    type State = Seq<V::State>;

    closed spec fn state(&self) -> Seq<V::State> {
        states_of(self.views@)
    }

    closed spec fn inv(&self) -> bool {
        forall|i: int| 0 <= i < self.views@.len() ==> (#[trigger] self.views@[i]).inv()
    }

    open spec fn active_in(s: Seq<V::State>, now: u64) -> bool {
        first_active_from::<V>(s, 0, now) is Some
    }

    open spec fn fed(s: Seq<V::State>, e: Event, m: ModelState, now: u64) -> (
        Seq<V::State>,
        ModelState,
        bool,
    ) {
        mutex_fed::<V>(s, e, m, now)
    }

    open spec fn activated(s: Seq<V::State>, m: ModelState) -> Seq<V::State> {
        s
    }

    open spec fn painted(s: Seq<V::State>, m: ModelState, now: u64) -> Seq<Paint> {
        match first_active_from::<V>(s, 0, now) {
            Some(k) => V::painted(s[k], m, now),
            None => Seq::empty(),
        }
    }

    fn feed(&mut self, event: Event, model: &mut Model, now: u64) -> (consumed: bool) {
        match self.active_view(now) {
            Some(k) => {
                proof {
                    lemma_first_active_in_range::<V>(self.state(), 0, now);
                }
                let ghost before = self.views@;
                let c = self.views[k].feed(event, model, now);
                proof {
                    assert(states_of(self.views@) =~= states_of(before).update(
                        k as int,
                        self.views@[k as int].state(),
                    ));
                    assert forall|j: int| 0 <= j < self.views@.len() implies (
                    #[trigger] self.views@[j]).inv() by {
                        if j != k {
                            assert(self.views@[j] == before[j]);
                        }
                    }
                }
                c
            },
            None => false,
        }
    }

    fn activate(&mut self, model: &Model) {
    }

    fn ui(&self, model: &Model, now: u64) -> (r: Vec<Paint>) {
        match self.active_view(now) {
            Some(k) => {
                proof {
                    lemma_first_active_in_range::<V>(self.state(), 0, now);
                }
                self.views[k].ui(model, now)
            },
            None => Vec::new(),
        }
    }

    fn active(&self, now: u64) -> (r: bool) {
        self.active_view(now).is_some()
    }
}

/// The first active index, when there is one, is in range, at or after `i`,
/// and active.
pub proof fn lemma_first_active_in_range<V: View>(ss: Seq<V::State>, i: int, now: u64)
    ensures
        match first_active_from::<V>(ss, i, now) {
            Some(k) => i <= k < ss.len() && 0 <= k && V::active_in(ss[k], now) && (forall|j: int|
                i <= j < k ==> !V::active_in(#[trigger] ss[j], now)),
            None => forall|j: int|
                0 <= i <= j < ss.len() ==> !V::active_in(#[trigger] ss[j], now),
        },
    decreases ss.len() - i,
{
    if i < 0 || i >= ss.len() {
    } else if V::active_in(ss[i], now) {
    } else {
        lemma_first_active_in_range::<V>(ss, i + 1, now);
    }
}

/// A momentary view's gate: a press of its trigger key is consumed and opens
/// it, and the release that follows is consumed and closes it, the model left
/// as it was; while closed, an event about any other key is not consumed and
/// changes nothing.
pub proof fn lemma_momentary_gate<V: View>(
    s: MomentaryState<V::State>,
    e: Event,
    m: ModelState,
    now: u64,
    later: u64,
)
    ensures
        ({
            let p = MomentaryView::<V>::fed(s, Event::Key { key: s.key, pressed: true }, m, now);
            let q = MomentaryView::<V>::fed(
                p.0,
                Event::Key { key: s.key, pressed: false },
                p.1,
                later,
            );
            &&& p.2 && p.0.active && p.1 == m
            &&& q.2 && !q.0.active && q.1 == m
        }),
        !s.active && !involves(s.key, e) ==> MomentaryView::<V>::fed(s, e, m, now) == (
            s,
            m,
            false,
        ),
{
}

/// A timed view's deadline: a press of its trigger key always sets it to
/// `now + timeout`, active or not; an event that the child consumes while
/// active sets it likewise; one that the child does not consume leaves it as
/// it was and is not consumed; once the deadline has passed the view is
/// inactive and paints nothing.
pub proof fn lemma_timed_deadline<V: View>(
    s: TimedState<V::State>,
    e: Event,
    m: ModelState,
    now: u64,
)
    ensures
        ({
            let p = MomentaryTimedView::<V>::fed(s, Event::Key { key: s.key, pressed: true }, m, now);
            p.2 && p.0.until == Some(sat_add(now, s.timeout))
        }),
        !is_press_of(s.key, e) && before_deadline(s.until, now) && V::fed(s.child, e, m, now).2
            ==> ({
            let p = MomentaryTimedView::<V>::fed(s, e, m, now);
            p.2 && p.0.until == Some(sat_add(now, s.timeout))
        }),
        !is_press_of(s.key, e) && !V::fed(s.child, e, m, now).2 ==> ({
            let p = MomentaryTimedView::<V>::fed(s, e, m, now);
            !p.2 && p.0.until == s.until
        }),
        (match s.until {
            Some(d) => now > d,
            None => true,
        }) ==> !MomentaryTimedView::<V>::active_in(s, now) && MomentaryTimedView::<V>::painted(
            s,
            m,
            now,
        ) == Seq::<Paint>::empty(),
{
}

/// No two widgets are active at `now`.
pub open spec fn at_most_one_active<V: View>(ss: Seq<V::State>, now: u64) -> bool {
    forall|i: int, j: int|
        0 <= i < ss.len() && 0 <= j < ss.len() && V::active_in(#[trigger] ss[i], now)
            && V::active_in(#[trigger] ss[j], now) ==> i == j
}

/// A mutex container feeds only its first active child: every other child is
/// left as it was, and with no child active nothing changes and nothing is
/// painted. What it paints is what that child paints. So when at most one
/// child is active before an event, at most one is after it.
pub proof fn lemma_mutex_touches_only_active<V: View>(
    ss: Seq<V::State>,
    e: Event,
    m: ModelState,
    now: u64,
)
    ensures
        mutex_fed::<V>(ss, e, m, now).0.len() == ss.len(),
        forall|j: int|
            0 <= j < ss.len() && first_active_from::<V>(ss, 0, now) != Some(j) ==> (
            #[trigger] mutex_fed::<V>(ss, e, m, now).0[j]) == ss[j],
        first_active_from::<V>(ss, 0, now) is None ==> mutex_fed::<V>(ss, e, m, now) == (
            ss,
            m,
            false,
        ) && MutexViewContainer::<V>::painted(ss, m, now) == Seq::<Paint>::empty(),
        at_most_one_active::<V>(ss, now) ==> at_most_one_active::<V>(
            mutex_fed::<V>(ss, e, m, now).0,
            now,
        ),
{
    lemma_first_active_in_range::<V>(ss, 0, now);
    let t = mutex_fed::<V>(ss, e, m, now).0;
    if at_most_one_active::<V>(ss, now) {
        match first_active_from::<V>(ss, 0, now) {
            Some(k) => {
                assert forall|i: int, j: int|
                    0 <= i < t.len() && 0 <= j < t.len() && V::active_in(#[trigger] t[i], now)
                        && V::active_in(#[trigger] t[j], now) implies i == j by {
                    if i != k {
                        assert(t[i] == ss[i]);
                    }
                    if j != k {
                        assert(t[j] == ss[j]);
                    }
                }
            },
            None => {},
        }
    }
}

} // verus!
