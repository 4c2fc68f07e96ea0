//! Integer state of the infrared tracker: raw dots, the tracking state and
//! the glitch filter that decides how the pointer position follows the
//! tracked sensor bar.
use vstd::prelude::*;

verus! {

/// A dot reported by the IR camera, in camera pixels (x in 0..1023, y in
/// 0..768); (1023, 1023) marks a dot that is not visible.
#[derive(Clone, Copy, Debug, PartialEq, Eq, Structural)]
pub struct RawDot {
    pub x: i32,
    pub y: i32,
}

pub open spec fn dot_visible(d: RawDot) -> bool {
    d.x != 1023 || d.y != 1023
}

impl RawDot {
    pub fn is_valid(&self) -> (r: bool)
        ensures
            r == dot_visible(*self),
    {
        self.x != 1023 || self.y != 1023
    }
}

impl Default for RawDot {
    /// The dot that is not visible.
    fn default() -> (r: RawDot)
        ensures
            r == (RawDot { x: 1023, y: 1023 }),
            !dot_visible(r),
    {
        RawDot { x: 1023, y: 1023 }
    }
}

/// Number of visible dots in `s`.
pub open spec fn count_visible(s: Seq<RawDot>) -> nat
    decreases s.len(),
{
    if s.len() == 0 {
        0
    } else {
        count_visible(s.drop_last()) + if dot_visible(s.last()) { 1nat } else { 0nat }
    }
}

proof fn lemma_count_update(s: Seq<RawDot>, i: int, x: RawDot)
    requires
        0 <= i < s.len(),
    ensures
        count_visible(s.update(i, x)) + (if dot_visible(s[i]) { 1nat } else { 0nat })
            == count_visible(s) + (if dot_visible(x) { 1nat } else { 0nat }),
    decreases s.len(),
{
    let u = s.update(i, x);
    if i == s.len() - 1 {
        assert(u.drop_last() =~= s.drop_last());
    } else {
        lemma_count_update(s.drop_last(), i, x);
        assert(u.drop_last() =~= s.drop_last().update(i, x));
    }
}

proof fn lemma_count_split(s: Seq<RawDot>, n: int)
    requires
        0 <= n <= s.len(),
        forall|i: int| 0 <= i < n ==> dot_visible(#[trigger] s[i]),
        forall|i: int| n <= i < s.len() ==> !dot_visible(#[trigger] s[i]),
    ensures
        count_visible(s) == n,
    decreases s.len(),
{
    if s.len() > 0 {
        let d = s.drop_last();
        if n == s.len() {
            assert forall|i: int| 0 <= i < n - 1 implies dot_visible(#[trigger] d[i]) by {
                assert(d[i] == s[i]);
            }
            lemma_count_split(d, n - 1);
        } else {
            assert forall|i: int| 0 <= i < n implies dot_visible(#[trigger] d[i]) by {
                assert(d[i] == s[i]);
            }
            assert forall|i: int| n <= i < d.len() implies !dot_visible(#[trigger] d[i]) by {
                assert(d[i] == s[i]);
            }
            lemma_count_split(d, n);
        }
    }
}

/// Moves the visible dots to the front of `dots`, as `partition_in_place`
/// of the standard library does: it scans from the front for a dot that is
/// not visible and from the back for one that is, and swaps them. Returns
/// the number of visible dots.
pub fn partition_visible(dots: &mut [RawDot; 4]) -> (n: usize)
    ensures
        n <= 4,
        n == count_visible(old(dots)@),
        final(dots)@.to_multiset() == old(dots)@.to_multiset(),
        forall|i: int| 0 <= i < n ==> dot_visible(#[trigger] final(dots)@[i]),
        forall|i: int| n <= i < 4 ==> !dot_visible(#[trigger] final(dots)@[i]),
{
    broadcast use vstd::seq_lib::group_to_multiset_ensures, vstd::multiset::group_multiset_axioms;
    let mut lo: usize = 0;
    let mut hi: usize = 4;
    loop
        invariant
            lo <= hi <= 4,
            dots@.len() == 4,
            dots@.to_multiset() == old(dots)@.to_multiset(),
            count_visible(dots@) == count_visible(old(dots)@),
            forall|i: int| 0 <= i < lo ==> dot_visible(#[trigger] dots@[i]),
            forall|i: int| hi <= i < 4 ==> !dot_visible(#[trigger] dots@[i]),
        ensures
            count_visible(dots@) == count_visible(old(dots)@),
            lo <= 4,
            dots@.to_multiset() == old(dots)@.to_multiset(),
            forall|i: int| 0 <= i < lo ==> dot_visible(#[trigger] dots@[i]),
            forall|i: int| lo <= i < 4 ==> !dot_visible(#[trigger] dots@[i]),
        decreases hi - lo,
    {
        while lo < hi && dots[lo].is_valid()
            invariant
                lo <= hi <= 4,
                dots@.len() == 4,
                forall|i: int| 0 <= i < lo ==> dot_visible(#[trigger] dots@[i]),
            decreases hi - lo,
        {
            lo += 1;
        }
        if lo == hi {
            break;
        }
        hi -= 1;
        while hi > lo && !dots[hi].is_valid()
            invariant
                lo <= hi < 4,
                dots@.len() == 4,
                !dot_visible(dots@[lo as int]),
                forall|i: int| hi < i < 4 ==> !dot_visible(#[trigger] dots@[i]),
            decreases hi - lo,
        {
            hi -= 1;
        }
        if hi == lo {
            break;
        }
        let front = dots[lo];
        let back = dots[hi];
        let ghost before = dots@;
        dots[lo] = back;
        dots[hi] = front;
        proof {
            assert(dots@ =~= before.update(lo as int, back).update(hi as int, front));
            let mid = before.update(lo as int, back);
            vstd::seq_lib::to_multiset_update(before, lo as int, back);
            vstd::seq_lib::to_multiset_update(mid, hi as int, front);
            lemma_count_update(before, lo as int, back);
            lemma_count_update(mid, hi as int, front);
            assert(mid[hi as int] == back);
            assert(before[lo as int] == front);
            assert(before[hi as int] == back);
            assert(before.contains(front));
            assert(before.contains(back));
            vstd::seq_lib::to_multiset_contains(before, front);
            vstd::seq_lib::to_multiset_contains(before, back);
            assert(before.to_multiset().count(front) > 0);
            assert(before.to_multiset().count(back) > 0);
            assert(mid.update(hi as int, front).to_multiset()
                =~= before.to_multiset());
        }
        lo += 1;
    }
    proof {
        lemma_count_split(dots@, lo as int);
    }
    lo
}

/// What the tracker knows of the sensor bar.
#[allow(non_camel_case_types)]
#[derive(Clone, Copy, Debug, PartialEq, Eq, Structural)]
pub enum IRState {
    /// No sensor bar has been seen yet.
    DEAD,
    /// Both dots of the sensor bar are tracked.
    GOOD,
    /// One dot is tracked, the other is guessed from the last sensor bar.
    SINGLE,
    /// The sensor bar was seen before but no dot is visible.
    LOST,
}

impl Default for IRState {
    fn default() -> (r: IRState)
        ensures
            r == IRState::DEAD,
    {
        IRState::DEAD
    }
}

/// The state after a camera frame, and whether the frame gives a sensor
/// bar position: with no visible dot it does not (the state becomes LOST,
/// unless no bar was ever seen); with a pair of dots that passes the sensor
/// bar checks the state is GOOD; otherwise one dot is tracked from the last
/// bar (SINGLE), which needs a bar to have been seen before.
pub open spec fn track_step(state: IRState, visible: nat, pair_found: bool) -> (IRState, bool) {
    if visible == 0 {
        (if state == IRState::DEAD { IRState::DEAD } else { IRState::LOST }, false)
    } else if pair_found {
        (IRState::GOOD, true)
    } else if state == IRState::DEAD {
        (IRState::DEAD, false)
    } else {
        (IRState::SINGLE, true)
    }
}

/// Decides the tracking state after a camera frame with `visible` dots, of
/// which a pair passed the sensor bar checks when `pair_found` holds.
/// Returns the new state and whether the frame yields a sensor bar position.
pub fn track_transition(state: IRState, visible: usize, pair_found: bool) -> (r: (IRState, bool))
    ensures
        r == track_step(state, visible as nat, pair_found),
{
    if visible == 0 {
        let next = match state {
            IRState::DEAD => IRState::DEAD,
            _ => IRState::LOST,
        };
        (next, false)
    } else if pair_found {
        (IRState::GOOD, true)
    } else {
        match state {
            IRState::DEAD => (IRState::DEAD, false),
            _ => (IRState::SINGLE, true),
        }
    }
}

/// Whether a lone dot is matched to the previous sensor bar: always, unless
/// the bar was lost, in which case only a dot close to one of its dots is.
pub fn try_single_adjust(state: IRState, close_to_bar: bool) -> (r: bool)
    ensures
        r == (state != IRState::LOST || close_to_bar),
{
    match state {
        IRState::LOST => close_to_bar,
        _ => true,
    }
}

/// Frames without a sensor bar that the pointer survives.
pub const ERROR_MAX_COUNT: u32 = 1;
/// Consecutive far jumps after which the pointer follows anyway.
pub const GLITCH_MAX_COUNT: u32 = 5;

/// What to do with the pointer position after a camera frame.
#[derive(Clone, Copy, Debug, PartialEq, Eq, Structural)]
pub enum FilterAction {
    /// Take the sensor bar position as the pointer position.
    Snap,
    /// Move the pointer towards the sensor bar position.
    Smooth,
    /// The jump is a glitch: keep the pointer where it is.
    Ignore,
    /// No sensor bar this frame, but keep the pointer for now.
    Keep,
    /// The pointer is gone.
    Clear,
}

/// Counters that decide how the pointer follows the tracked sensor bar:
/// frames without a bar that are still tolerated, and far jumps in a row.
pub struct GlitchFilter {
    errors_left: u32,
    glitch_cnt: u32,
    has_position: bool,
}

impl GlitchFilter {
    pub closed spec fn errors_left(&self) -> nat {
        self.errors_left as nat
    }

    pub closed spec fn glitch_count(&self) -> nat {
        self.glitch_cnt as nat
    }

    /// The pointer has a position.
    pub closed spec fn has_position(&self) -> bool {
        self.has_position
    }

    /// A filter that tolerates frames without a bar always has a position,
    /// and its counters stay in their ranges.
    pub closed spec fn wf(&self) -> bool {
        &&& self.errors_left <= ERROR_MAX_COUNT
        &&& self.glitch_cnt <= GLITCH_MAX_COUNT + 1
        &&& self.errors_left > 0 ==> self.has_position
    }

    pub fn new() -> (r: GlitchFilter)
        ensures
            r.wf(),
            r.errors_left() == 0,
            r.glitch_count() == 0,
            !r.has_position(),
    {
        GlitchFilter { errors_left: 0, glitch_cnt: 0, has_position: false }
    }

    /// Whether the next frame compares the sensor bar with the pointer:
    /// only while the pointer is being followed.
    pub fn following(&self) -> (r: bool)
        requires
            self.wf(),
        ensures
            r == (self.errors_left() > 0),
            r ==> self.has_position(),
    {
        self.errors_left > 0
    }

    pub fn has_pointer(&self) -> (r: bool)
        ensures
            r == self.has_position(),
    {
        self.has_position
    }

    /// Steps the filter after a camera frame. `bar_found` tells whether the
    /// frame gave a sensor bar position; `near` whether it lies within the
    /// glitch distance of the pointer (read only while following).
    pub fn step(&mut self, bar_found: bool, near: bool) -> (r: FilterAction)
        requires
            old(self).wf(),
        ensures
            final(self).wf(),
            r == filter_action(old(self).errors_left(), old(self).glitch_count(), bar_found, near),
            final(self).errors_left() == (if bar_found { ERROR_MAX_COUNT as nat }
                else if old(self).errors_left() > 0 { (old(self).errors_left() - 1) as nat }
                else { 0 }),
            final(self).glitch_count() == (match r {
                FilterAction::Snap | FilterAction::Smooth => 0,
                FilterAction::Ignore => old(self).glitch_count() + 1,
                _ => old(self).glitch_count(),
            }),
            bar_found ==> final(self).has_position(),
            final(self).has_position() == (match r {
                FilterAction::Snap => true,
                FilterAction::Clear => false,
                _ => old(self).has_position(),
            }),
    {
        if bar_found {
            let action = if self.errors_left > 0 {
                if near || self.glitch_cnt > GLITCH_MAX_COUNT {
                    self.glitch_cnt = 0;
                    FilterAction::Smooth
                } else {
                    self.glitch_cnt = self.glitch_cnt + 1;
                    FilterAction::Ignore
                }
            } else {
                self.has_position = true;
                self.glitch_cnt = 0;
                FilterAction::Snap
            };
            self.errors_left = ERROR_MAX_COUNT;
            action
        } else if self.errors_left > 0 {
            self.errors_left = self.errors_left - 1;
            FilterAction::Keep
        } else {
            self.has_position = false;
            FilterAction::Clear
        }
    }
}

/// The action of the glitch filter for a frame.
pub open spec fn filter_action(errors_left: nat, glitch_count: nat, bar_found: bool, near: bool) -> FilterAction {
    if bar_found {
        if errors_left > 0 {
            if near || glitch_count > GLITCH_MAX_COUNT { FilterAction::Smooth } else { FilterAction::Ignore }
        } else {
            FilterAction::Snap
        }
    } else if errors_left > 0 {
        FilterAction::Keep
    } else {
        FilterAction::Clear
    }
}

} // verus!
