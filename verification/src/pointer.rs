//! The mouse state of a render thread. A left press on empty space spawns a
//! ball that grows while the left button is held (and shrinks while both
//! are held), follows the cursor, and is launched when the left button is
//! released; a right press removes the ball under the cursor unless the
//! left button is held.
//!
//! The balls live with the caller; each step takes the number of balls and
//! says what to do to them, and the caller then adds or removes the ball it
//! was told to.

use vstd::prelude::*;

verus! {

/// Buttons held and the ball being grown, if any.
#[derive(Clone, Copy, Debug)]
pub struct PointerState {
    pub left_down: bool,
    pub right_down: bool,
    /// Index of the ball that is growing under the cursor.
    pub growing: Option<usize>,
}

/// What happens to the growing ball during one frame.
#[derive(Clone, Copy, PartialEq, Eq, Structural, Debug)]
pub enum Growth {
    /// Only the left button is held: the radius grows.
    Grow,
    /// Both buttons are held: the radius shrinks.
    Shrink,
    /// The radius stays as it is.
    Hold,
}

/// The state is consistent with a scene of `count` balls: a growing ball
/// exists, and only while the left button is held.
pub open spec fn pointer_inv(s: PointerState, count: nat) -> bool {
    s.growing matches Some(i) ==> s.left_down && i < count
}

pub open spec fn spec_idle() -> PointerState {
    PointerState { left_down: false, right_down: false, growing: None }
}

/// Left press. `hit` says whether the press landed on a ball (which then
/// reacts to the click itself). On empty space a new ball is spawned at the
/// end of the scene and starts growing; the flag returned says so.
pub open spec fn spec_press_left(s: PointerState, count: nat, hit: bool) -> (PointerState, bool) {
    if hit {
        (PointerState { left_down: true, ..s }, false)
    } else {
        (PointerState { left_down: true, growing: Some(count as usize), ..s }, true)
    }
}

/// Right press. `under` is the first ball under the cursor, if any; it is
/// the ball to remove, unless the left button is held.
pub open spec fn spec_press_right(s: PointerState, under: Option<usize>) -> (
    PointerState,
    Option<usize>,
) {
    (PointerState { right_down: true, ..s }, if s.left_down { None } else { under })
}

/// Left release: growing stops, and the grown ball, if it still exists, is
/// the one to launch.
pub open spec fn spec_release_left(s: PointerState, count: nat) -> (PointerState, Option<usize>) {
    (
        PointerState { left_down: false, growing: None, ..s },
        match s.growing {
            Some(i) => if i < count {
                Some(i)
            } else {
                None
            },
            None => None,
        },
    )
}

pub open spec fn spec_release_right(s: PointerState) -> PointerState {
    PointerState { right_down: false, ..s }
}

/// The growing ball of this frame, if it exists, and what its radius does.
pub open spec fn spec_growth(s: PointerState, count: nat) -> Option<(usize, Growth)> {
    match s.growing {
        Some(i) => if i < count {
            Some(
                (
                    i,
                    if s.left_down && !s.right_down {
                        Growth::Grow
                    } else if s.left_down && s.right_down {
                        Growth::Shrink
                    } else {
                        Growth::Hold
                    },
                ),
            )
        } else {
            None
        },
        None => None,
    }
}

impl PointerState {
    /// No button held, nothing growing.
    pub fn new() -> (s: Self)
        ensures
            s == spec_idle(),
    {
        PointerState { left_down: false, right_down: false, growing: None }
    }

    /// Left press on a scene of `count` balls; `hit` says whether a ball
    /// took the click. Returns whether a ball is to be spawned at the end of
    /// the scene.
    pub fn press_left(&mut self, count: usize, hit: bool) -> (spawn: bool)
        ensures
            (*final(self), spawn) == spec_press_left(*old(self), count as nat, hit),
    {
        self.left_down = true;
        if hit {
            false
        } else {
            self.growing = Some(count);
            true
        }
    }

    /// Right press; `under` is the first ball under the cursor. Returns the
    /// ball to remove, if any.
    pub fn press_right(&mut self, under: Option<usize>) -> (remove: Option<usize>)
        ensures
            (*final(self), remove) == spec_press_right(*old(self), under),
    {
        self.right_down = true;
        if !self.left_down {
            under
        } else {
            None
        }
    }

    /// Left release on a scene of `count` balls. Returns the ball to launch,
    /// if any.
    pub fn release_left(&mut self, count: usize) -> (launch: Option<usize>)
        ensures
            (*final(self), launch) == spec_release_left(*old(self), count as nat),
    {
        self.left_down = false;
        let g = self.growing;
        self.growing = None;
        match g {
            Some(i) => if i < count {
                Some(i)
            } else {
                None
            },
            None => None,
        }
    }

    pub fn release_right(&mut self)
        ensures
            *final(self) == spec_release_right(*old(self)),
    {
        self.right_down = false;
    }

    /// The growing ball of this frame on a scene of `count` balls, and what
    /// its radius does.
    pub fn growth(&self, count: usize) -> (g: Option<(usize, Growth)>)
        ensures
            g == spec_growth(*self, count as nat),
    {
        match self.growing {
            Some(i) => if i < count {
                let mode = if self.left_down && !self.right_down {
                    Growth::Grow
                } else if self.left_down && self.right_down {
                    Growth::Shrink
                } else {
                    Growth::Hold
                };
                Some((i, mode))
            } else {
                None
            },
            None => None,
        }
    }
}

/// Where ball `i` of the scene finds its new position after a physics step
/// that left out ball `excluded` (the growing one): ball `excluded` itself
/// keeps its own state, balls before it keep their index and balls after it
/// are one place earlier in the reduced scene. When `excluded` is not a
/// ball of the scene, nothing was left out.
pub open spec fn spec_stepped_index(i: nat, excluded: nat, count: nat) -> Option<nat> {
    if excluded >= count {
        Some(i)
    } else if i == excluded {
        None
    } else if i < excluded {
        Some(i)
    } else {
        Some((i - 1) as nat)
    }
}

pub fn stepped_index(i: usize, excluded: usize, count: usize) -> (k: Option<usize>)
    requires
        i < count,
    ensures
        k matches Some(k) ==> spec_stepped_index(i as nat, excluded as nat, count as nat) == Some(
            k as nat,
        ),
        k is None <==> spec_stepped_index(i as nat, excluded as nat, count as nat) is None,
{
    if excluded >= count {
        Some(i)
    } else if i == excluded {
        None
    } else if i < excluded {
        Some(i)
    } else {
        Some(i - 1)
    }
}

/// Every ball but the left-out one reads back a ball of the reduced scene,
/// and no two balls read back the same one.
pub proof fn stepped_index_is_a_matching(i: nat, j: nat, excluded: nat, count: nat)
    requires
        i < count,
        j < count,
        i != j,
    ensures
        spec_stepped_index(i, excluded, count) matches Some(k) ==> k < (if excluded < count {
            count - 1
        } else {
            count as int
        }),
        spec_stepped_index(i, excluded, count) is Some && spec_stepped_index(j, excluded, count) is Some
            ==> spec_stepped_index(i, excluded, count) != spec_stepped_index(j, excluded, count),
{
}

/// Each button event records that button's new position and leaves the
/// other button as it was: a right press always marks the right button as
/// held, whether or not a ball is removed, and the same for the others.
pub proof fn buttons_are_recorded(s: PointerState, count: nat, hit: bool, under: Option<usize>)
    ensures
        spec_press_left(s, count, hit).0.left_down,
        spec_press_left(s, count, hit).0.right_down == s.right_down,
        spec_press_right(s, under).0.right_down,
        spec_press_right(s, under).0.left_down == s.left_down,
        spec_press_right(s, under).0.growing == s.growing,
        !spec_release_left(s, count).0.left_down,
        spec_release_left(s, count).0.right_down == s.right_down,
        !spec_release_right(s).right_down,
        spec_release_right(s).left_down == s.left_down,
        spec_release_right(s).growing == s.growing,
{
}

/// With both buttons held the growing ball shrinks, whatever order they
/// were pressed in: a right press followed by a left press on empty space
/// makes the new ball shrink, and so does a left press followed by a right
/// press.
pub proof fn both_buttons_shrink(s: PointerState, count: nat, under: Option<usize>)
    requires
        count < usize::MAX,
    ensures
        ({
            let s1 = spec_press_right(s, under).0;
            let n = if spec_press_right(s, under).1 is Some { (count - 1) as nat } else { count };
            let s2 = spec_press_left(s1, n, false).0;
            n < usize::MAX ==> spec_growth(s2, n + 1) == Some((n as usize, Growth::Shrink))
        }),
        ({
            let s1 = spec_press_left(s, count, false).0;
            let s2 = spec_press_right(s1, under).0;
            spec_growth(s2, count + 1) == Some((count as usize, Growth::Shrink))
        }),
{
}

/// The idle state is consistent with any scene.
pub proof fn idle_is_consistent(count: nat)
    ensures
        pointer_inv(spec_idle(), count),
{
}

/// Each step keeps the state consistent with the scene, once the caller
/// has added the spawned ball or removed the ball it was told to remove
/// (`under` being a ball of the scene).
pub proof fn steps_keep_consistency(s: PointerState, count: nat, hit: bool, under: Option<usize>)
    requires
        pointer_inv(s, count),
        under matches Some(u) ==> u < count,
    ensures
        ({
            let (s1, spawn) = spec_press_left(s, count, hit);
            pointer_inv(s1, if spawn { count + 1 } else { count })
        }),
        ({
            let (s2, removed) = spec_press_right(s, under);
            pointer_inv(s2, if removed is Some { (count - 1) as nat } else { count })
        }),
        pointer_inv(spec_release_left(s, count).0, count),
        pointer_inv(spec_release_right(s), count),
{
}

/// No ball is removed while the left button is held, so the growing ball's
/// index never goes stale.
pub proof fn no_removal_while_growing(s: PointerState, count: nat, under: Option<usize>)
    requires
        pointer_inv(s, count),
        spec_press_right(s, under).1 is Some,
    ensures
        !s.left_down,
        s.growing is None,
{
}

/// A left press on empty space followed by a left release launches exactly
/// the ball that the press spawned.
pub proof fn spawned_ball_is_launched(s: PointerState, count: nat)
    requires
        pointer_inv(s, count),
        count < usize::MAX,
    ensures
        ({
            let (s1, spawn) = spec_press_left(s, count, false);
            &&& spawn
            &&& spec_release_left(s1, count + 1).1 == Some(count as usize)
            &&& spec_release_left(s1, count + 1).0.growing is None
        }),
{
}

/// While the left button is held on a spawned ball, it grows, or shrinks
/// when the right button is held too; once released it is no longer
/// touched.
pub proof fn growth_follows_buttons(s: PointerState, count: nat)
    requires
        pointer_inv(s, count),
    ensures
        spec_growth(s, count) matches Some((i, g)) ==> {
            &&& i < count
            &&& s.left_down
            &&& g == (if s.right_down { Growth::Shrink } else { Growth::Grow })
        },
        spec_growth(spec_release_left(s, count).0, count) is None,
{
}

} // verus!
