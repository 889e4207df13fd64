//! Touchpad and mouse swipe gestures, and the table that resolves them to
//! the same [`Action`]s the keyboard produces.
//!
//! Recognising a swipe — axis lock, travel, release velocity — is measured in
//! fractional pixels and belongs to the caller. What it hands over is the
//! finger count, the axis it locked onto and which way along it the fingers
//! went.

use std::collections::HashMap;

use vstd::prelude::*;

use crate::input::shortcuts::action::{Action, ActionView, WorkspaceRef};

verus! {

broadcast use vstd::std_specs::hash::group_hash_axioms;

#[derive(Debug, Clone, Copy, PartialEq, Eq, Hash, Structural)]
pub enum Fingers {
    Two,
    Three,
    Four,
    Five,
}

pub open spec fn spec_fingers(count: u32) -> Option<Fingers> {
    if count == 2 {
        Some(Fingers::Two)
    } else if count == 3 {
        Some(Fingers::Three)
    } else if count == 4 {
        Some(Fingers::Four)
    } else if count == 5 {
        Some(Fingers::Five)
    } else {
        None
    }
}

impl Fingers {
    /// The finger count a swipe began with; anything but two to five fingers
    /// is no gesture at all.
    pub fn from_count(count: u32) -> (r: Option<Self>)
        ensures
            r == spec_fingers(count),
    {
        match count {
            2 => Some(Fingers::Two),
            3 => Some(Fingers::Three),
            4 => Some(Fingers::Four),
            5 => Some(Fingers::Five),
            _ => None,
        }
    }
}

#[derive(Debug, Clone, Copy, PartialEq, Eq, Hash, Structural)]
pub enum SwipeGesture {
    LeftToRight(Fingers),
    RightToLeft(Fingers),
    BottomToTop(Fingers),
    TopToBottom(Fingers),
}

/// Which axis a swipe locked onto.
#[derive(Debug, Clone, Copy, PartialEq, Eq, Structural)]
pub enum Axis {
    Horizontal,
    Vertical,
}

pub open spec fn spec_swipe(fingers: Fingers, axis: Axis, forward: bool) -> SwipeGesture {
    match axis {
        Axis::Horizontal => if forward {
            SwipeGesture::LeftToRight(fingers)
        } else {
            SwipeGesture::RightToLeft(fingers)
        },
        Axis::Vertical => if forward {
            SwipeGesture::TopToBottom(fingers)
        } else {
            SwipeGesture::BottomToTop(fingers)
        },
    }
}

/// The gesture a committed swipe names: `forward` is travel towards positive
/// coordinates, rightwards or downwards.
pub fn swipe_gesture(fingers: Fingers, axis: Axis, forward: bool) -> (g: SwipeGesture)
    ensures
        g == spec_swipe(fingers, axis, forward),
{
    match axis {
        Axis::Horizontal => if forward {
            SwipeGesture::LeftToRight(fingers)
        } else {
            SwipeGesture::RightToLeft(fingers)
        },
        Axis::Vertical => if forward {
            SwipeGesture::TopToBottom(fingers)
        } else {
            SwipeGesture::BottomToTop(fingers)
        },
    }
}

/// Different swipes name different gestures.
pub proof fn lemma_swipes_distinct(
    f1: Fingers,
    a1: Axis,
    d1: bool,
    f2: Fingers,
    a2: Axis,
    d2: bool,
)
    requires
        spec_swipe(f1, a1, d1) == spec_swipe(f2, a2, d2),
    ensures
        f1 == f2 && a1 == a2 && d1 == d2,
{
}

pub open spec fn fingers_code(f: Fingers) -> u8 {
    match f {
        Fingers::Two => 0,
        Fingers::Three => 1,
        Fingers::Four => 2,
        Fingers::Five => 3,
    }
}

/// A gesture as one small integer: its direction above its finger count.
pub open spec fn gesture_code(g: SwipeGesture) -> u8 {
    match g {
        SwipeGesture::LeftToRight(f) => fingers_code(f),
        SwipeGesture::RightToLeft(f) => (4 + fingers_code(f)) as u8,
        SwipeGesture::BottomToTop(f) => (8 + fingers_code(f)) as u8,
        SwipeGesture::TopToBottom(f) => (12 + fingers_code(f)) as u8,
    }
}

proof fn lemma_gesture_code_injective(a: SwipeGesture, b: SwipeGesture)
    ensures
        gesture_code(a) == gesture_code(b) ==> a == b,
{
}

fn finger_code(f: Fingers) -> (c: u8)
    ensures
        c == fingers_code(f),
{
    match f {
        Fingers::Two => 0,
        Fingers::Three => 1,
        Fingers::Four => 2,
        Fingers::Five => 3,
    }
}

fn code_of(g: SwipeGesture) -> (c: u8)
    ensures
        c == gesture_code(g),
{
    match g {
        SwipeGesture::LeftToRight(f) => finger_code(f),
        SwipeGesture::RightToLeft(f) => 4 + finger_code(f),
        SwipeGesture::BottomToTop(f) => 8 + finger_code(f),
        SwipeGesture::TopToBottom(f) => 12 + finger_code(f),
    }
}

/// Swipe gestures and what they do.
#[derive(Debug)]
pub struct GestureBindings {
    map: HashMap<u8, Action>,
}

impl View for GestureBindings {
    type V = Map<SwipeGesture, ActionView>;

    closed spec fn view(&self) -> Map<SwipeGesture, ActionView> {
        Map::new(
            |g: SwipeGesture| self.map@.contains_key(gesture_code(g)),
            |g: SwipeGesture| self.map@[gesture_code(g)]@,
        )
    }
}

/// The built-in gestures: three fingers sideways step through workspaces,
/// four fingers up and down open and close the overview.
pub open spec fn spec_default_gestures() -> Map<SwipeGesture, ActionView> {
    map![
        SwipeGesture::LeftToRight(Fingers::Three) => ActionView::Workspace(WorkspaceRef::Relative(-1i32)),
        SwipeGesture::RightToLeft(Fingers::Three) => ActionView::Workspace(WorkspaceRef::Relative(1i32)),
        SwipeGesture::BottomToTop(Fingers::Four) => ActionView::OpenWorkspaceView,
        SwipeGesture::TopToBottom(Fingers::Four) => ActionView::CloseWorkspaceView,
    ]
}

impl GestureBindings {
    /// No gesture bound.
    pub fn new() -> (b: Self)
        ensures
            b@ == Map::<SwipeGesture, ActionView>::empty(),
    {
        let b = GestureBindings { map: HashMap::new() };
        assert(b@ =~= Map::<SwipeGesture, ActionView>::empty());
        b
    }

    /// Binds `gesture` to `action`, replacing what it had.
    pub fn bind(&mut self, gesture: SwipeGesture, action: Action)
        ensures
            final(self)@ == old(self)@.insert(gesture, action@),
    {
        let ghost a = action@;
        self.map.insert(code_of(gesture), action);
        proof {
            assert forall|g: SwipeGesture| #[trigger] self@.contains_key(g) == old(self)@.insert(
                gesture,
                a,
            ).contains_key(g) by {
                lemma_gesture_code_injective(g, gesture);
            }
            assert forall|g: SwipeGesture| self@.contains_key(g) implies #[trigger] self@[g] == old(
                self,
            )@.insert(gesture, a)[g] by {
                lemma_gesture_code_injective(g, gesture);
            }
            assert(self@ =~= old(self)@.insert(gesture, a));
        }
    }

    pub fn defaults() -> (b: Self)
        ensures
            b@ == spec_default_gestures(),
    {
        let mut b = GestureBindings::new();
        b.bind(
            SwipeGesture::LeftToRight(Fingers::Three),
            Action::Workspace(WorkspaceRef::Relative(-1i32)),
        );
        b.bind(
            SwipeGesture::RightToLeft(Fingers::Three),
            Action::Workspace(WorkspaceRef::Relative(1)),
        );
        b.bind(SwipeGesture::BottomToTop(Fingers::Four), Action::OpenWorkspaceView);
        b.bind(SwipeGesture::TopToBottom(Fingers::Four), Action::CloseWorkspaceView);
        assert(b@ =~= spec_default_gestures());
        b
    }

    pub fn lookup(&self, gesture: SwipeGesture) -> (r: Option<Action>)
        ensures
            match r {
                Some(a) => self@.contains_key(gesture) && a@ == self@[gesture],
                None => !self@.contains_key(gesture),
            },
    {
        match self.map.get(&code_of(gesture)) {
            Some(a) => Some(a.duplicate()),
            None => None,
        }
    }
}

} // verus!
