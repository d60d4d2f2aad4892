//! Gesture recognition: the per-device state machine that turns button
//! transitions and relative-motion samples into discrete interaction events,
//! and the policy deciding which discovered devices are worth monitoring.
//!
//! Time enters the machine only as millisecond timestamps supplied by the
//! caller, so every transition is a pure function of state and inputs.

use vstd::prelude::*;
use vstd::string::StrSliceExecFns;

verus! {

/// Direction of a recognized swipe, named from the pointer's point of view.
#[derive(Debug, Clone, Copy, PartialEq, Eq, Structural)]
pub enum SwipeDirection {
    Left,
    Right,
    Up,
    Down,
}

/// A discrete interaction event: produced by recognition, consumed by dispatch.
#[derive(Debug, Clone, Copy, PartialEq, Eq, Structural)]
pub enum InputEvent {
    GestureTap,
    GestureSwipe(SwipeDirection),
    HorizontalScroll(i32),
}

/// A raw device sample, already stripped down to the parts recognition reads:
/// the gesture button's transition value, a signed delta on one of the two
/// motion axes, a horizontal-wheel delta, or anything else.
#[derive(Debug, Clone, Copy, PartialEq, Eq, Structural)]
pub enum RawEvent {
    /// The gesture button changed state; 1 means pressed, any other value released.
    ForwardButton(i32),
    RelativeX(i32),
    RelativeY(i32),
    RelativeHorizontalWheel(i32),
    Other,
}

/// Per-device recognizer state.  `moved` records whether a swipe has already
/// fired in the current active cycle; the accumulators hold motion since the
/// cycle began or since the last swipe fired.
#[derive(Debug, Clone, Copy, PartialEq, Eq, Structural)]
pub struct GestureState {
    pub active: bool,
    pub moved: bool,
    pub start_time_ms: u64,
    pub accumulated_x: i32,
    pub accumulated_y: i32,
    pub tap_timeout_ms: u64,
    pub movement_threshold: i32,
}

pub open spec fn abs_val(x: int) -> int {
    if x < 0 { -x } else { x }
}

/// Signed addition clamped to the `i32` range, the arithmetic the accumulators use.
pub open spec fn sat_add_i32(a: int, b: int) -> int {
    if a + b > i32::MAX as int {
        i32::MAX as int
    } else if a + b < i32::MIN as int {
        i32::MIN as int
    } else {
        a + b
    }
}

/// `a - b` on the millisecond clock, clamped at zero.
pub open spec fn sat_sub_u64(a: int, b: int) -> int {
    if a - b < 0 { 0 } else { a - b }
}

/// The dominant-axis rule: a swipe fires only along the axis whose accumulated
/// magnitude is at least the threshold and strictly greater than the other
/// axis's magnitude; an exact tie fires nothing.
pub open spec fn spec_swipe(x: int, y: int, threshold: int) -> Option<InputEvent> {
    let ax = abs_val(x);
    let ay = abs_val(y);
    if ax >= threshold && ax > ay {
        Some(InputEvent::GestureSwipe(if x < 0 { SwipeDirection::Left } else { SwipeDirection::Right }))
    } else if ay >= threshold && ay > ax {
        Some(InputEvent::GestureSwipe(if y < 0 { SwipeDirection::Up } else { SwipeDirection::Down }))
    } else {
        None
    }
}

pub open spec fn spec_new(tap_timeout_ms: u64, movement_threshold: i32, now_ms: u64) -> GestureState {
    GestureState {
        active: false,
        moved: false,
        start_time_ms: now_ms,
        accumulated_x: 0,
        accumulated_y: 0,
        tap_timeout_ms,
        movement_threshold,
    }
}

pub open spec fn spec_start(s: GestureState, now_ms: u64) -> GestureState {
    GestureState {
        active: true,
        moved: false,
        start_time_ms: now_ms,
        accumulated_x: 0,
        accumulated_y: 0,
        ..s
    }
}

pub open spec fn spec_check_threshold(s: GestureState) -> (GestureState, Option<InputEvent>) {
    match spec_swipe(s.accumulated_x as int, s.accumulated_y as int, s.movement_threshold as int) {
        Some(ev) => (GestureState { moved: true, accumulated_x: 0, accumulated_y: 0, ..s }, Some(ev)),
        None => (s, None),
    }
}

pub open spec fn spec_move_x(s: GestureState, delta: i32) -> (GestureState, Option<InputEvent>) {
    if !s.active {
        (s, None)
    } else {
        spec_check_threshold(
            GestureState { accumulated_x: sat_add_i32(s.accumulated_x as int, delta as int) as i32, ..s },
        )
    }
}

pub open spec fn spec_move_y(s: GestureState, delta: i32) -> (GestureState, Option<InputEvent>) {
    if !s.active {
        (s, None)
    } else {
        spec_check_threshold(
            GestureState { accumulated_y: sat_add_i32(s.accumulated_y as int, delta as int) as i32, ..s },
        )
    }
}

pub open spec fn spec_finish(s: GestureState, now_ms: u64) -> (GestureState, Option<InputEvent>) {
    if !s.active {
        (s, None)
    } else {
        let done = GestureState { active: false, ..s };
        if !s.moved && sat_sub_u64(now_ms as int, s.start_time_ms as int) <= s.tap_timeout_ms as int {
            (done, Some(InputEvent::GestureTap))
        } else {
            (done, None)
        }
    }
}

/// One step of the whole per-device routing: what `route_event` does.
pub open spec fn spec_step(s: GestureState, ev: RawEvent, now_ms: u64) -> (GestureState, Option<InputEvent>) {
    match ev {
        RawEvent::ForwardButton(value) => {
            if value == 1 {
                (spec_start(s, now_ms), None)
            } else {
                spec_finish(s, now_ms)
            }
        },
        RawEvent::RelativeX(delta) => spec_move_x(s, delta),
        RawEvent::RelativeY(delta) => spec_move_y(s, delta),
        RawEvent::RelativeHorizontalWheel(delta) => (s, Some(InputEvent::HorizontalScroll(delta))),
        RawEvent::Other => (s, None),
    }
}

impl GestureState {
    pub fn new(tap_timeout_ms: u64, movement_threshold: i32, now_ms: u64) -> (r: Self)
        ensures
            r == spec_new(tap_timeout_ms, movement_threshold, now_ms),
    {
        GestureState {
            active: false,
            moved: false,
            start_time_ms: now_ms,
            accumulated_x: 0,
            accumulated_y: 0,
            tap_timeout_ms,
            movement_threshold,
        }
    }

    /// Button-down: begin a fresh cycle, discarding anything a previous cycle left behind.
    pub fn start(&mut self, now_ms: u64)
        ensures
            *final(self) == spec_start(*old(self), now_ms),
    {
        *self = Self::new(self.tap_timeout_ms, self.movement_threshold, now_ms);
        self.active = true;
    }

    /// Button-up: end the cycle; a tap is emitted exactly when the cycle was
    /// active, no swipe fired during it, and it lasted at most the tap timeout.
    pub fn finish(&mut self, now_ms: u64) -> (r: Option<InputEvent>)
        ensures
            (*final(self), r) == spec_finish(*old(self), now_ms),
    {
        if !self.active {
            return None;
        }
        self.active = false;
        let elapsed_ms: u64 = if now_ms >= self.start_time_ms {
            now_ms - self.start_time_ms
        } else {
            0
        };
        if !self.moved && elapsed_ms <= self.tap_timeout_ms {
            Some(InputEvent::GestureTap)
        } else {
            None
        }
    }

    /// Motion sample on the horizontal axis.
    pub fn move_x(&mut self, delta: i32) -> (r: Option<InputEvent>)
        ensures
            (*final(self), r) == spec_move_x(*old(self), delta),
    {
        if !self.active {
            return None;
        }
        self.accumulated_x = Self::saturating_add(self.accumulated_x, delta);
        self.check_threshold()
    }

    /// Motion sample on the vertical axis.
    pub fn move_y(&mut self, delta: i32) -> (r: Option<InputEvent>)
        ensures
            (*final(self), r) == spec_move_y(*old(self), delta),
    {
        if !self.active {
            return None;
        }
        self.accumulated_y = Self::saturating_add(self.accumulated_y, delta);
        self.check_threshold()
    }

    fn saturating_add(a: i32, b: i32) -> (r: i32)
        ensures
            r as int == sat_add_i32(a as int, b as int),
    {
        let sum: i64 = a as i64 + b as i64;
        if sum > i32::MAX as i64 {
            i32::MAX
        } else if sum < i32::MIN as i64 {
            i32::MIN
        } else {
            sum as i32
        }
    }

    /// The dominant-axis check run after every motion sample of an active cycle.
    pub fn check_threshold(&mut self) -> (r: Option<InputEvent>)
        ensures
            (*final(self), r) == spec_check_threshold(*old(self)),
    {
        let x: i64 = self.accumulated_x as i64;
        let y: i64 = self.accumulated_y as i64;
        let ax: i64 = if x < 0 { -x } else { x };
        let ay: i64 = if y < 0 { -y } else { y };
        let threshold: i64 = self.movement_threshold as i64;
        if ax >= threshold && ax > ay {
            self.moved = true;
            let direction = if self.accumulated_x < 0 {
                SwipeDirection::Left
            } else {
                SwipeDirection::Right
            };
            self.reset_accumulation();
            Some(InputEvent::GestureSwipe(direction))
        } else if ay >= threshold && ay > ax {
            self.moved = true;
            let direction = if self.accumulated_y < 0 {
                SwipeDirection::Up
            } else {
                SwipeDirection::Down
            };
            self.reset_accumulation();
            Some(InputEvent::GestureSwipe(direction))
        } else {
            None
        }
    }

    pub fn reset_accumulation(&mut self)
        ensures
            *final(self) == (GestureState { accumulated_x: 0, accumulated_y: 0, ..*old(self) }),
    {
        self.accumulated_x = 0;
        self.accumulated_y = 0;
    }
}

/// Route one raw device sample: button transitions drive the state machine,
/// motion samples accumulate, horizontal-wheel samples pass through untouched.
pub fn route_event(gesture: &mut GestureState, event: RawEvent, now_ms: u64) -> (r: Option<InputEvent>)
    ensures
        (*final(gesture), r) == spec_step(*old(gesture), event, now_ms),
{
    match event {
        RawEvent::ForwardButton(value) => {
            if value == 1 {
                gesture.start(now_ms);
                None
            } else {
                gesture.finish(now_ms)
            }
        },
        RawEvent::RelativeX(delta) => gesture.move_x(delta),
        RawEvent::RelativeY(delta) => gesture.move_y(delta),
        RawEvent::RelativeHorizontalWheel(delta) => Some(InputEvent::HorizontalScroll(delta)),
        RawEvent::Other => None,
    }
}

/// The events one step emits, as a sequence of length zero or one.
pub open spec fn emitted(e: Option<InputEvent>) -> Seq<InputEvent> {
    match e {
        Some(ev) => seq![ev],
        None => Seq::empty(),
    }
}

/// Run the recognizer over a whole sequence of timestamped raw samples,
/// yielding the final state and everything emitted, in order.
pub open spec fn spec_run(s: GestureState, evs: Seq<(RawEvent, u64)>) -> (GestureState, Seq<InputEvent>)
    decreases evs.len(),
{
    if evs.len() == 0 {
        (s, Seq::empty())
    } else {
        let step = spec_step(s, evs[0].0, evs[0].1);
        let rest = spec_run(step.0, evs.subrange(1, evs.len() as int));
        (rest.0, emitted(step.1) + rest.1)
    }
}

pub open spec fn is_motion(ev: RawEvent) -> bool {
    ev matches RawEvent::RelativeX(_) || ev matches RawEvent::RelativeY(_)
}

/// A sequence of motion samples only: what happens between a button-down and
/// the matching button-up.
pub open spec fn motion_only(evs: Seq<(RawEvent, u64)>) -> bool {
    forall|i: int| 0 <= i < evs.len() ==> is_motion(#[trigger] evs[i].0)
}

pub open spec fn all_swipes(evs: Seq<InputEvent>) -> bool {
    forall|i: int| 0 <= i < evs.len() ==> (#[trigger] evs[i]) matches InputEvent::GestureSwipe(_)
}

pub open spec fn count_taps(evs: Seq<InputEvent>) -> int
    decreases evs.len(),
{
    if evs.len() == 0 {
        0
    } else {
        (if (evs[0] matches InputEvent::GestureTap) { 1int } else { 0int })
            + count_taps(evs.subrange(1, evs.len() as int))
    }
}

proof fn lemma_count_taps_concat(a: Seq<InputEvent>, b: Seq<InputEvent>)
    ensures
        count_taps(a + b) == count_taps(a) + count_taps(b),
    decreases a.len(),
{
    if a.len() == 0 {
        assert(a + b =~= b);
    } else {
        assert((a + b).subrange(1, (a + b).len() as int) =~= a.subrange(1, a.len() as int) + b);
        lemma_count_taps_concat(a.subrange(1, a.len() as int), b);
    }
}

proof fn lemma_all_swipes_no_taps(evs: Seq<InputEvent>)
    requires
        all_swipes(evs),
    ensures
        count_taps(evs) == 0,
    decreases evs.len(),
{
    if evs.len() > 0 {
        let tail = evs.subrange(1, evs.len() as int);
        assert forall|i: int| 0 <= i < tail.len() implies (#[trigger] tail[i]) matches InputEvent::GestureSwipe(_) by {
            assert(tail[i] == evs[i + 1]);
        }
        lemma_all_swipes_no_taps(tail);
    }
}

/// While the button is held, motion samples keep the cycle active, never touch
/// the start time or the configuration, emit swipes only, and leave `moved`
/// set exactly when a swipe has fired since the cycle began.
pub proof fn lemma_motion_run(s: GestureState, evs: Seq<(RawEvent, u64)>)
    requires
        s.active,
        motion_only(evs),
    ensures ({
        let run = spec_run(s, evs);
        &&& run.0.active
        &&& run.0.start_time_ms == s.start_time_ms
        &&& run.0.tap_timeout_ms == s.tap_timeout_ms
        &&& run.0.movement_threshold == s.movement_threshold
        &&& run.0.moved == (s.moved || run.1.len() > 0)
        &&& all_swipes(run.1)
    }),
    decreases evs.len(),
{
    if evs.len() > 0 {
        let step = spec_step(s, evs[0].0, evs[0].1);
        let tail = evs.subrange(1, evs.len() as int);
        assert(is_motion(evs[0].0));
        assert forall|i: int| 0 <= i < tail.len() implies is_motion(#[trigger] tail[i].0) by {
            assert(tail[i] == evs[i + 1]);
        }
        lemma_motion_run(step.0, tail);
        let rest = spec_run(step.0, tail);
        assert forall|i: int| 0 <= i < (emitted(step.1) + rest.1).len()
            implies (#[trigger] (emitted(step.1) + rest.1)[i]) matches InputEvent::GestureSwipe(_) by {
            if i >= emitted(step.1).len() {
                assert((emitted(step.1) + rest.1)[i] == rest.1[i - emitted(step.1).len()]);
            }
        }
    }
}

/// At most one tap per gesture cycle: a complete button-down, motion,
/// button-up cycle emits at most one `GestureTap`, and emits it exactly when
/// no swipe fired during the cycle and the hold lasted at most the tap
/// timeout.
pub proof fn lemma_one_tap_per_cycle(prev: GestureState, t0: u64, moves: Seq<(RawEvent, u64)>, t1: u64)
    requires
        motion_only(moves),
    ensures ({
        let run = spec_run(spec_start(prev, t0), moves);
        let fin = spec_finish(run.0, t1);
        let cycle = run.1 + emitted(fin.1);
        &&& count_taps(cycle) <= 1
        &&& (count_taps(cycle) == 1 <==> (run.1.len() == 0
                && sat_sub_u64(t1 as int, t0 as int) <= prev.tap_timeout_ms as int))
    }),
{
    let s0 = spec_start(prev, t0);
    lemma_motion_run(s0, moves);
    let run = spec_run(s0, moves);
    let fin = spec_finish(run.0, t1);
    lemma_all_swipes_no_taps(run.1);
    lemma_count_taps_concat(run.1, emitted(fin.1));
    match fin.1 {
        Some(ev) => {
            assert(seq![ev].subrange(1, 1) =~= Seq::<InputEvent>::empty());
        },
        None => {},
    }
}

/// A tie between the two accumulated magnitudes fires nothing: the
/// dominant-axis rule demands one axis strictly greater than the other.
pub proof fn lemma_tie_no_swipe(x: int, y: int, threshold: int)
    requires
        abs_val(x) == abs_val(y),
    ensures
        spec_swipe(x, y, threshold) is None,
{
}

/// A horizontal sample that lands the two magnitudes in an exact tie emits
/// nothing and keeps the accumulated values, so accumulation continues until
/// one axis strictly dominates.
pub proof fn lemma_tie_keeps_accumulating_x(s: GestureState, delta: i32)
    requires
        s.active,
        abs_val(sat_add_i32(s.accumulated_x as int, delta as int)) == abs_val(s.accumulated_y as int),
    ensures ({
        let r = spec_move_x(s, delta);
        &&& r.1 is None
        &&& r.0 == (GestureState {
            accumulated_x: sat_add_i32(s.accumulated_x as int, delta as int) as i32,
            ..s
        })
    }),
{
}

/// The vertical counterpart of `lemma_tie_keeps_accumulating_x`.
pub proof fn lemma_tie_keeps_accumulating_y(s: GestureState, delta: i32)
    requires
        s.active,
        abs_val(sat_add_i32(s.accumulated_y as int, delta as int)) == abs_val(s.accumulated_x as int),
    ensures ({
        let r = spec_move_y(s, delta);
        &&& r.1 is None
        &&& r.0 == (GestureState {
            accumulated_y: sat_add_i32(s.accumulated_y as int, delta as int) as i32,
            ..s
        })
    }),
{
}

/// No hidden state between cycles: what a cycle emits depends only on the
/// configured thresholds and on the inputs, so feeding one finished sequence
/// to two recognizers that share a configuration — freshly built, or carrying
/// residue of earlier cycles — produces the same events both times.
pub proof fn lemma_replay_same_events(s1: GestureState, s2: GestureState, t0: u64, evs: Seq<(RawEvent, u64)>)
    requires
        s1.tap_timeout_ms == s2.tap_timeout_ms,
        s1.movement_threshold == s2.movement_threshold,
    ensures
        spec_run(spec_start(s1, t0), evs) == spec_run(spec_start(s2, t0), evs),
{
    assert(spec_start(s1, t0) == spec_start(s2, t0));
}

/// What discovery learns about one candidate device file before filtering.
#[derive(Debug, Clone)]
pub struct DeviceCandidate {
    pub path: String,
    pub file_name: String,
    pub is_char_device: bool,
    pub has_forward_button: bool,
}

/// The platform's input-event naming convention: the file name starts with
/// the five characters of "event".
pub open spec fn spec_is_event_name(name: Seq<char>) -> bool {
    name.len() >= 5 && name[0] == 'e' && name[1] == 'v' && name[2] == 'e' && name[3] == 'n'
        && name[4] == 't'
}

/// A device is monitored when it is a character device, named by the
/// input-event convention, and reports the gesture button among its keys.
pub open spec fn spec_device_qualifies(c: DeviceCandidate) -> bool {
    c.is_char_device && spec_is_event_name(c.file_name@) && c.has_forward_button
}

/// The qualifying candidates' paths, in discovery order.
pub open spec fn spec_gesture_device_paths(cs: Seq<DeviceCandidate>) -> Seq<Seq<char>>
    decreases cs.len(),
{
    if cs.len() == 0 {
        Seq::empty()
    } else {
        let prefix = spec_gesture_device_paths(cs.drop_last());
        if spec_device_qualifies(cs.last()) {
            prefix.push(cs.last().path@)
        } else {
            prefix
        }
    }
}

fn name_starts_with_event(name: &str) -> (r: bool)
    ensures
        r == spec_is_event_name(name@),
{
    let n: usize = name.unicode_len();
    if n < 5 {
        return false;
    }
    name.get_char(0) == 'e' && name.get_char(1) == 'v' && name.get_char(2) == 'e'
        && name.get_char(3) == 'n' && name.get_char(4) == 't'
}

/// Holds the recognizer configuration and decides which discovered devices
/// are monitored for gestures.
#[derive(Debug, Clone, Copy)]
pub struct InputManager {
    pub tap_timeout_ms: u64,
    pub movement_threshold: i32,
}

impl InputManager {
    pub fn new(tap_timeout_ms: u64, movement_threshold: i32) -> (r: Self)
        ensures
            r.tap_timeout_ms == tap_timeout_ms,
            r.movement_threshold == movement_threshold,
    {
        InputManager { tap_timeout_ms, movement_threshold }
    }

    /// Whether a directory entry looks like an input-event device node.
    pub fn is_event_device(&self, file_name: &str, is_char_device: bool) -> (r: bool)
        ensures
            r == (is_char_device && spec_is_event_name(file_name@)),
    {
        is_char_device && name_starts_with_event(file_name)
    }

    /// The discovery policy: keep the paths of the candidates that qualify,
    /// in discovery order.  An empty result is not an error.
    pub fn find_gesture_devices(&self, candidates: &Vec<DeviceCandidate>) -> (r: Vec<String>)
        ensures
            r@.map_values(|p: String| p@) == spec_gesture_device_paths(candidates@),
    {
        let mut devices: Vec<String> = Vec::new();
        let mut i: usize = 0;
        while i < candidates.len()
            invariant
                i <= candidates.len(),
                devices@.map_values(|p: String| p@)
                    == spec_gesture_device_paths(candidates@.subrange(0, i as int)),
            decreases candidates.len() - i,
        {
            let c = &candidates[i];
            if self.is_event_device(c.file_name.as_str(), c.is_char_device) && c.has_forward_button {
                devices.push(c.path.clone());
            }
            proof {
                assert(candidates@.subrange(0, i as int + 1).drop_last()
                    =~= candidates@.subrange(0, i as int));
                assert(devices@.map_values(|p: String| p@)
                    =~= spec_gesture_device_paths(candidates@.subrange(0, i as int + 1)));
            }
            i += 1;
        }
        proof {
            assert(candidates@.subrange(0, candidates@.len() as int) =~= candidates@);
        }
        devices
    }
}

} // verus!
