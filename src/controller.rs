use vstd::prelude::*;

use crate::monitors::VirtualScreen;
use crate::rect::{has_i32_extent, height_of, width_of, Rect, Rectangle};

verus! {

/// Whether the window currently in the foreground has already been centered
/// during this stretch of focus.
#[derive(Clone, Copy, Debug, PartialEq, Eq, Structural)]
pub enum CenterState {
    /// Eligible: the next matching foreground window is centered.
    Idle,
    /// Already centered: nothing moves until a non-matching window is seen.
    Done,
}

/// Whether the configured `target` title selects a foreground window titled
/// `found`. An empty target selects every window.
pub open spec fn title_matches(target: Seq<char>, found: Seq<char>) -> bool {
    target.len() == 0 || found == target
}

/// The state after a poll tick that saw a window titled `found`.
pub open spec fn next_state(state: CenterState, target: Seq<char>, found: Seq<char>) -> CenterState {
    if title_matches(target, found) {
        // Idle -> Done by centering; Done stays Done.
        CenterState::Done
    } else {
        // Done -> Idle so that the window is centered when it comes back.
        CenterState::Idle
    }
}

/// Whether a poll tick in `state` that saw a window titled `found` moves it.
pub open spec fn tick_moves(state: CenterState, target: Seq<char>, found: Seq<char>) -> bool {
    state == CenterState::Idle && title_matches(target, found)
}

/// The state after a run of poll ticks from the start that saw the windows
/// titled `titles`, in order.
pub open spec fn state_after(target: Seq<char>, titles: Seq<Seq<char>>) -> CenterState
    decreases titles.len(),
{
    if titles.len() == 0 {
        CenterState::Idle
    } else {
        next_state(state_after(target, titles.drop_last()), target, titles.last())
    }
}

/// Decides whether the window titled `found` is selected by `target`.
pub fn matches_title(target: &String, found: &String) -> (b: bool)
    ensures
        b == title_matches(target@, found@),
{
    target.as_str().is_empty() || found.eq(target)
}

/// One poll tick of the state machine: the next state, and whether the
/// foreground window is to be centered on this tick.
pub fn step(state: CenterState, target: &String, found: &String) -> (r: (CenterState, bool))
    ensures
        r.0 == next_state(state, target@, found@),
        r.1 == tick_moves(state, target@, found@),
{
    let hit = matches_title(target, found);
    match state {
        CenterState::Idle => {
            if hit {
                (CenterState::Done, true)
            } else {
                (CenterState::Idle, false)
            }
        },
        CenterState::Done => {
            if hit {
                (CenterState::Done, false)
            } else {
                (CenterState::Idle, false)
            }
        },
    }
}

/// Half of `v`, rounded toward zero as integer division does.
pub open spec fn half_toward_zero(v: int) -> int {
    if v >= 0 {
        v / 2
    } else {
        -((-v) / 2)
    }
}

/// The offset that centers a span of length `inner` in one of length
/// `outer`: each length is halved on its own, then the halves subtracted.
pub open spec fn centered_offset(outer: int, inner: int) -> int {
    half_toward_zero(outer) - half_toward_zero(inner)
}

fn half(v: i32) -> (h: i32)
    ensures
        h == half_toward_zero(v as int),
{
    v / 2
}

/// The top-left corner at which `window`, keeping its size, is centered on
/// a display with bounds `screen`.
pub fn centered_origin(screen: &Rect, window: &Rect) -> (p: (i32, i32))
    requires
        has_i32_extent(*screen),
        has_i32_extent(*window),
    ensures
        p.0 == centered_offset(width_of(*screen), width_of(*window)),
        p.1 == centered_offset(height_of(*screen), height_of(*window)),
{
    let x = half(screen.width()) - half(window.width());
    let y = half(screen.height()) - half(window.height());
    (x, y)
}

/// Where the foreground window with bounds `window` is moved on a screen:
/// centered on the primary display, or nowhere when no display was found or
/// an extent does not fit the edge type.
pub fn placement(screen: &VirtualScreen, window: &Rect) -> (p: Option<(i32, i32)>)
    ensures
        screen@.len() == 0 ==> p is None,
        screen@.len() > 0 ==> (p is Some <==> has_i32_extent(screen@[0]) && has_i32_extent(
            *window,
        )),
        p matches Some(xy) ==> screen@.len() > 0 && xy.0 == centered_offset(
            width_of(screen@[0]),
            width_of(*window),
        ) && xy.1 == centered_offset(height_of(screen@[0]), height_of(*window)),
{
    match screen.primary_bounds() {
        None => None,
        Some(primary) => {
            if primary.has_i32_extent() && window.has_i32_extent() {
                Some(centered_origin(&primary, window))
            } else {
                None
            }
        },
    }
}

/// What the polling loop is to do after a tick.
#[derive(Clone, Copy, Debug, PartialEq, Eq, Structural)]
pub enum Action {
    /// Leave the foreground window where it is.
    Stay,
    /// Wait `delay_ms` milliseconds, measure the foreground window, and
    /// move it to its centered position.
    Center { delay_ms: u64 },
}

/// The abstract state of a [`Controller`].
pub struct ControllerView {
    pub target: Seq<char>,
    pub delay_ms: u64,
    pub state: CenterState,
}

/// The centering decisions for one configured target title, with the state
/// that the polling loop carries from one tick to the next.
pub struct Controller {
    target: String,
    delay_ms: u64,
    state: CenterState,
}

impl View for Controller {
    type V = ControllerView;

    closed spec fn view(&self) -> ControllerView {
        ControllerView { target: self.target@, delay_ms: self.delay_ms, state: self.state }
    }
}

impl Controller {
    /// A controller for windows titled `target` (every window when it is
    /// empty), waiting `delay_ms` before measuring; it starts eligible.
    pub fn new(target: String, delay_ms: u64) -> (c: Controller)
        ensures
            c@.target == target@,
            c@.delay_ms == delay_ms,
            c@.state == CenterState::Idle,
    {
        Controller { target, delay_ms, state: CenterState::Idle }
    }

    pub fn state(&self) -> (s: CenterState)
        ensures
            s == self@.state,
    {
        self.state
    }

    /// One poll tick that saw a foreground window titled `found`.
    pub fn tick(&mut self, found: &String) -> (a: Action)
        ensures
            final(self)@.target == old(self)@.target,
            final(self)@.delay_ms == old(self)@.delay_ms,
            final(self)@.state == next_state(old(self)@.state, old(self)@.target, found@),
            a == (if tick_moves(old(self)@.state, old(self)@.target, found@) {
                Action::Center { delay_ms: old(self)@.delay_ms }
            } else {
                Action::Stay
            }),
    {
        let (next, moves) = step(self.state, &self.target, found);
        self.state = next;
        if moves {
            Action::Center { delay_ms: self.delay_ms }
        } else {
            Action::Stay
        }
    }
}

/// An empty target title selects every foreground window, one with an empty
/// title included.
pub proof fn lemma_empty_target_matches_every_title(found: Seq<char>)
    ensures
        title_matches(Seq::empty(), found),
{
}

/// Starting idle, a window that matches is moved once; while it stays in the
/// foreground it is not moved again; a window that does not match makes the
/// state idle again without a move, from which the next matching window is
/// moved once more.
pub proof fn lemma_one_move_per_focus(target: Seq<char>, hit: Seq<char>, miss: Seq<char>)
    requires
        title_matches(target, hit),
        !title_matches(target, miss),
    ensures
        tick_moves(CenterState::Idle, target, hit),
        next_state(CenterState::Idle, target, hit) == CenterState::Done,
        !tick_moves(CenterState::Done, target, hit),
        next_state(CenterState::Done, target, hit) == CenterState::Done,
        !tick_moves(CenterState::Done, target, miss),
        next_state(CenterState::Done, target, miss) == CenterState::Idle,
{
}

/// Over any run of poll ticks from the start, tick `i` moves the window
/// exactly when its title matches and the title seen on the tick before did
/// not (or there was no tick before): a window that stays in the foreground
/// is centered once, when it arrives.
pub proof fn lemma_moves_only_on_arrival(target: Seq<char>, titles: Seq<Seq<char>>, i: int)
    requires
        0 <= i < titles.len(),
    ensures
        tick_moves(state_after(target, titles.take(i)), target, titles[i]) == (title_matches(
            target,
            titles[i],
        ) && (i == 0 || !title_matches(target, titles[i - 1]))),
{
    if i > 0 {
        assert(titles.take(i).drop_last() =~= titles.take(i - 1));
        assert(titles.take(i).last() == titles[i - 1]);
    }
}

} // verus!
