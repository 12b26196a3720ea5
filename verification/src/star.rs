//! The star tool: the gesture that a drag follows, and the outline of the star that
//! a finished drag asks for.

use vstd::prelude::*;
use crate::keys::{KbKey, is_shift_key, lemma_shift_key_is_named_shift};

verus! {

/// Where a star gesture stands. `P` is the type of a point in design space.
#[derive(Clone, Copy, Debug, PartialEq)]
pub enum GestureState<P> {
    Ready,
    Down(P),
    Begun { start: P, current: P },
    Finished,
}

/// The corners of a star being dragged out: the centre, the point under the mouse,
/// and whether the drag is held to a square (Shift locked).
#[derive(Clone, Copy, Debug, PartialEq)]
pub struct StarDrag<P> {
    pub start: P,
    pub current: P,
    pub square: bool,
}

/// The state of the star tool.
#[derive(Clone, Debug)]
pub struct Star<P> {
    gesture: GestureState<P>,
    shift_locked: bool,
}

/// What the star tool holds, as a value.
pub struct StarModel<P> {
    pub gesture: GestureState<P>,
    pub shift_locked: bool,
}

impl<P> View for Star<P> {
    type V = StarModel<P>;

    closed spec fn view(&self) -> StarModel<P> {
        StarModel { gesture: self.gesture, shift_locked: self.shift_locked }
    }
}

/// The tool before any input: no gesture, Shift not locked.
pub open spec fn initial_model<P>() -> StarModel<P> {
    StarModel { gesture: GestureState::Ready, shift_locked: false }
}

/// A key goes down: the Shift key locks the drag to a square.
pub open spec fn after_key_down<P>(s: StarModel<P>, key: &KbKey) -> StarModel<P> {
    if is_shift_key(key) {
        StarModel { shift_locked: true, ..s }
    } else {
        s
    }
}

/// A key goes up: the Shift key releases the square lock.
pub open spec fn after_key_up<P>(s: StarModel<P>, key: &KbKey) -> StarModel<P> {
    if is_shift_key(key) {
        StarModel { shift_locked: false, ..s }
    } else {
        s
    }
}

/// The gesture is cancelled.
pub open spec fn after_cancel<P>(s: StarModel<P>) -> StarModel<P> {
    StarModel { gesture: GestureState::Ready, ..s }
}

/// The left button goes down at `pt` (`count` is the click count, `shift` whether
/// Shift is held): a single click starts a gesture there.
pub open spec fn after_left_down<P>(s: StarModel<P>, count: u8, pt: P, shift: bool) -> StarModel<P> {
    if count == 1 {
        StarModel { gesture: GestureState::Down(pt), shift_locked: shift }
    } else {
        s
    }
}

/// A drag begins with the mouse at `pt`: a gesture that is down becomes begun.
pub open spec fn after_drag_began<P>(s: StarModel<P>, pt: P) -> StarModel<P> {
    match s.gesture {
        GestureState::Down(start) => StarModel {
            gesture: GestureState::Begun { start, current: pt },
            ..s
        },
        _ => s,
    }
}

/// The drag moves to `pt`: a begun gesture follows it.
pub open spec fn after_drag_changed<P>(s: StarModel<P>, pt: P) -> StarModel<P> {
    match s.gesture {
        GestureState::Begun { start, current } => StarModel {
            gesture: GestureState::Begun { start, current: pt },
            ..s
        },
        _ => s,
    }
}

/// The corners of the star being dragged out, if a drag has begun.
pub open spec fn drag_of<P>(s: StarModel<P>) -> Option<StarDrag<P>> {
    match s.gesture {
        GestureState::Begun { start, current } => Some(
            StarDrag { start, current, square: s.shift_locked },
        ),
        _ => None,
    }
}

/// The left button goes up: a begun drag is finished.
pub open spec fn after_left_up<P>(s: StarModel<P>) -> StarModel<P> {
    if drag_of(s) is Some {
        StarModel { gesture: GestureState::Finished, ..s }
    } else {
        s
    }
}

/// After a mouse event: a finished gesture goes back to ready.
pub open spec fn after_finish<P>(s: StarModel<P>) -> StarModel<P> {
    if s.gesture is Finished {
        StarModel { gesture: GestureState::Ready, ..s }
    } else {
        s
    }
}

impl<P: Copy> Star<P> {
    /// The tool before any input.
    pub fn new() -> (r: Star<P>)
        ensures
            r@ == initial_model::<P>(),
    {
        Star { gesture: GestureState::Ready, shift_locked: false }
    }

    /// The current gesture.
    pub fn gesture(&self) -> (r: GestureState<P>)
        ensures
            r == self@.gesture,
    {
        self.gesture
    }

    /// Whether the drag is locked to a square.
    pub fn shift_locked(&self) -> (r: bool)
        ensures
            r == self@.shift_locked,
    {
        self.shift_locked
    }

    /// The tool's name.
    pub fn name(&self) -> (r: &'static str)
        ensures
            r@ == seq!['S', 't', 'a', 'r'],
    {
        let r = "Star";
        proof {
            reveal_strlit("Star");
            assert(r@ =~= seq!['S', 't', 'a', 'r']);
        }
        r
    }

    /// A key goes down; returns whether the tool must be repainted.
    pub fn key_down(&mut self, key: &KbKey) -> (repaint: bool)
        ensures
            final(self)@ == after_key_down(old(self)@, key),
            repaint == is_shift_key(key),
    {
        if key.is_shift() {
            self.shift_locked = true;
            true
        } else {
            false
        }
    }

    /// A key goes up; returns whether the tool must be repainted.
    pub fn key_up(&mut self, key: &KbKey) -> (repaint: bool)
        ensures
            final(self)@ == after_key_up(old(self)@, key),
            repaint == is_shift_key(key),
    {
        if key.is_shift() {
            self.shift_locked = false;
            true
        } else {
            false
        }
    }

    /// The gesture is cancelled.
    pub fn cancel(&mut self)
        ensures
            final(self)@ == after_cancel(old(self)@),
    {
        self.gesture = GestureState::Ready;
    }

    /// The left button goes down at `pt`.
    pub fn left_down(&mut self, count: u8, pt: P, shift: bool)
        ensures
            final(self)@ == after_left_down(old(self)@, count, pt, shift),
    {
        if count == 1 {
            self.gesture = GestureState::Down(pt);
            self.shift_locked = shift;
        }
    }

    /// A drag begins with the mouse at `pt`.
    pub fn left_drag_began(&mut self, pt: P)
        ensures
            final(self)@ == after_drag_began(old(self)@, pt),
    {
        if let GestureState::Down(start) = self.gesture {
            self.gesture = GestureState::Begun { start, current: pt };
        }
    }

    /// The drag moves to `pt`.
    pub fn left_drag_changed(&mut self, pt: P)
        ensures
            final(self)@ == after_drag_changed(old(self)@, pt),
    {
        if let GestureState::Begun { start, current: _ } = self.gesture {
            self.gesture = GestureState::Begun { start, current: pt };
        }
    }

    /// The corners of the star being dragged out, if a drag has begun.
    pub fn pts_for_star(&self) -> (r: Option<StarDrag<P>>)
        ensures
            r == drag_of(self@),
    {
        if let GestureState::Begun { start, current } = self.gesture {
            Some(StarDrag { start, current, square: self.shift_locked })
        } else {
            None
        }
    }

    /// The left button goes up. Returns the corners of the star to add, if a drag
    /// had begun; the gesture is then finished.
    pub fn left_up(&mut self) -> (r: Option<StarDrag<P>>)
        ensures
            r == drag_of(old(self)@),
            final(self)@ == after_left_up(old(self)@),
    {
        let r = self.pts_for_star();
        if r.is_some() {
            self.gesture = GestureState::Finished;
        }
        r
    }

    /// Ends the handling of a mouse event: a finished gesture goes back to ready.
    /// Returns whether an edit was made.
    pub fn finish_event(&mut self) -> (edited: bool)
        ensures
            edited == (old(self)@.gesture is Finished),
            final(self)@ == after_finish(old(self)@),
    {
        if let GestureState::Finished = self.gesture {
            self.gesture = GestureState::Ready;
            true
        } else {
            false
        }
    }
}

impl<P> Default for GestureState<P> {
    fn default() -> (r: GestureState<P>)
        ensures
            r == GestureState::<P>::Ready,
    {
        GestureState::Ready
    }
}

impl<P: Copy> Default for Star<P> {
    fn default() -> (r: Star<P>)
        ensures
            r@ == initial_model::<P>(),
    {
        Star::new()
    }
}

/// The number of points of a star outline: five outer tips and five inner corners.
pub const STAR_VERTICES: usize = 10;

/// The radius of the inner corners, in thousandths of the radius of the tips
/// (close to the golden ratio, for a pleasing star).
pub const INNER_RADIUS_PERMILLE: u32 = 382;

/// The radius of the tips, in thousandths of the dragged radius.
pub const OUTER_RADIUS_PERMILLE: u32 = 1000;

/// One point of a star outline, in polar form around the star's centre: its angle in
/// degrees (0 points along the x axis, -90 at the top), and its distance from the
/// centre in thousandths of the dragged radius.
#[derive(Clone, Copy, Debug, PartialEq, Eq)]
pub struct StarVertex {
    pub angle_degrees: i32,
    pub radius_permille: u32,
}

/// The outline of a star: a closed path of on-curve points around `center`, whose
/// radius is the distance from `center` to `outer`.
pub struct StarPath<P> {
    pub center: P,
    pub outer: P,
    pub vertices: Vec<StarVertex>,
    pub closed: bool,
}

/// The `i`-th point of a star outline: starting at the top, every 36 degrees,
/// alternately a tip and an inner corner.
pub open spec fn star_vertex(i: int) -> StarVertex {
    StarVertex {
        angle_degrees: (-90 + 36 * i) as i32,
        radius_permille: if i % 2 == 0 {
            OUTER_RADIUS_PERMILLE
        } else {
            INNER_RADIUS_PERMILLE
        },
    }
}

/// The points of a star outline, in order.
pub open spec fn star_vertices() -> Seq<StarVertex> {
    Seq::new(STAR_VERTICES as nat, |i: int| star_vertex(i))
}

/// The outline of a star centred at `center` whose tips lie at the distance of `outer`.
pub fn make_star_path<P: Copy>(center: P, outer: P) -> (r: StarPath<P>)
    ensures
        r.center == center,
        r.outer == outer,
        r.vertices@ == star_vertices(),
        r.closed,
{
    let mut vertices: Vec<StarVertex> = Vec::new();
    let mut i: usize = 0;
    while i < STAR_VERTICES
        invariant
            i <= STAR_VERTICES,
            vertices@ == star_vertices().take(i as int),
        decreases STAR_VERTICES - i,
    {
        let radius_permille = if i % 2 == 0 {
            OUTER_RADIUS_PERMILLE
        } else {
            INNER_RADIUS_PERMILLE
        };
        let angle_degrees: i32 = -90 + 36 * (i as i32);
        vertices.push(StarVertex { angle_degrees, radius_permille });
        assert(star_vertices().take(i + 1) =~= star_vertices().take(i as int).push(star_vertex(i as int)));
        i = i + 1;
    }
    assert(vertices@ =~= star_vertices());
    StarPath { center, outer, vertices, closed: true }
}

/// The drag moves through the points `pts`, in order.
pub open spec fn after_drags<P>(s: StarModel<P>, pts: Seq<P>) -> StarModel<P>
    decreases pts.len(),
{
    if pts.len() == 0 {
        s
    } else {
        after_drags(after_drag_changed(s, pts[0]), pts.drop_first())
    }
}

/// The point that a begun drag ends at after moving through `pts` from `current`.
pub open spec fn last_point<P>(current: P, pts: Seq<P>) -> P {
    if pts.len() == 0 {
        current
    } else {
        pts.last()
    }
}

/// While a drag is begun, moving through points keeps its start and the Shift lock,
/// and leaves it at the last point.
pub proof fn lemma_drags_follow_mouse<P>(s: StarModel<P>, start: P, current: P, pts: Seq<P>)
    requires
        s.gesture == (GestureState::Begun { start, current }),
    ensures
        after_drags(s, pts) == (StarModel {
            gesture: GestureState::Begun { start, current: last_point(current, pts) },
            shift_locked: s.shift_locked,
        }),
    decreases pts.len(),
{
    if pts.len() > 0 {
        let s1 = after_drag_changed(s, pts[0]);
        lemma_drags_follow_mouse(s1, start, pts[0], pts.drop_first());
        if pts.len() > 1 {
            assert(pts.drop_first().last() == pts.last());
        }
    }
}

/// A complete gesture: the button goes down at `a` (a single click, with Shift held
/// or not), a drag begins at `b` and moves through `pts`, and the button goes up.
/// The star then asked for is centred at `a`, reaches to the last point of the drag,
/// and is held to a square exactly when Shift was held at the click; the gesture is
/// finished, an edit is reported, and the tool is ready again, whatever state it
/// started in.
pub proof fn lemma_complete_gesture<P>(s: StarModel<P>, a: P, shift: bool, b: P, pts: Seq<P>)
    ensures
        ({
            let dragged = after_drags(after_drag_began(after_left_down(s, 1, a, shift), b), pts);
            let released = after_left_up(dragged);
            &&& drag_of(dragged) == Some(
                StarDrag { start: a, current: last_point(b, pts), square: shift },
            )
            &&& released.gesture is Finished
            &&& after_finish(released) == (StarModel {
                gesture: GestureState::<P>::Ready,
                shift_locked: shift,
            })
        }),
{
    let begun = after_drag_began(after_left_down(s, 1, a, shift), b);
    lemma_drags_follow_mouse(begun, a, b, pts);
}

/// Releasing the button when no drag has begun asks for no star and changes nothing.
pub proof fn lemma_release_without_drag<P>(s: StarModel<P>)
    requires
        !(s.gesture is Begun),
    ensures
        drag_of(s) is None,
        after_left_up(s) == s,
{
}

/// Pressing and releasing Shift leaves the drag unlocked and the gesture as it was.
pub proof fn lemma_shift_press_release<P>(s: StarModel<P>, key: &KbKey)
    requires
        is_shift_key(key),
    ensures
        after_key_down(s, key).shift_locked,
        after_key_up(after_key_down(s, key), key) == (StarModel { shift_locked: false, ..s }),
{
}

/// Keys other than Shift change nothing.
pub proof fn lemma_other_keys<P>(s: StarModel<P>, key: &KbKey)
    requires
        !is_shift_key(key),
    ensures
        after_key_down(s, key) == s,
        after_key_up(s, key) == s,
{
}

/// Only the named key "Shift" locks or unlocks the drag: a character key, or a named
/// key of any other name, leaves the tool as it is; the Shift key locks it on the way
/// down and unlocks it on the way up, keeping the gesture.
pub proof fn lemma_only_shift_locks<P>(s: StarModel<P>, key: &KbKey)
    ensures
        (key matches KbKey::Named(n) && n@ == "Shift"@) ==> {
            &&& after_key_down(s, key) == (StarModel { gesture: s.gesture, shift_locked: true })
            &&& after_key_up(s, key) == (StarModel { gesture: s.gesture, shift_locked: false })
        },
        !(key matches KbKey::Named(n) && n@ == "Shift"@) ==> {
            &&& after_key_down(s, key) == s
            &&& after_key_up(s, key) == s
        },
{
    lemma_shift_key_is_named_shift(key);
}

/// Cancelling returns the gesture to ready from any state, and asks for no star.
pub proof fn lemma_cancel_resets<P>(s: StarModel<P>)
    ensures
        after_cancel(s).gesture is Ready,
        after_cancel(s).shift_locked == s.shift_locked,
        drag_of(after_cancel(s)) is None,
{
}

/// After a mouse event is handled the gesture is never left finished.
pub proof fn lemma_never_left_finished<P>(s: StarModel<P>)
    ensures
        !(after_finish(s).gesture is Finished),
{
}

/// A new star tool has no gesture and does not lock the drag to a square.
pub proof fn lemma_initial_model<P>()
    ensures
        initial_model::<P>().gesture is Ready,
        !initial_model::<P>().shift_locked,
{
}

/// The end of a mouse event changes only a finished gesture, which becomes ready (and
/// reports an edit); any other gesture, and the Shift lock, are kept as they are.
pub proof fn lemma_event_end_keeps_unfinished<P>(s: StarModel<P>)
    ensures
        !(s.gesture is Finished) ==> after_finish(s) == s,
        s.gesture is Finished ==> after_finish(s) == (StarModel {
            gesture: GestureState::<P>::Ready,
            shift_locked: s.shift_locked,
        }),
{
}

/// What each mouse step does, gesture by gesture. A single click starts a gesture at
/// the click (taking the Shift state of the click); other clicks change nothing. A drag
/// begins only from a gesture that is down, keeping the click as start; a drag moves
/// only a begun gesture's current point. Releasing finishes only a begun gesture and
/// asks for its start, current point and Shift lock; otherwise it changes nothing and
/// asks for nothing. Only the click changes the Shift lock.
pub proof fn lemma_mouse_steps<P>(s: StarModel<P>, count: u8, pt: P, shift: bool)
    ensures
        count == 1 ==> after_left_down(s, count, pt, shift) == (StarModel {
            gesture: GestureState::Down(pt),
            shift_locked: shift,
        }),
        count != 1 ==> after_left_down(s, count, pt, shift) == s,
        s.gesture matches GestureState::Down(a) ==> after_drag_began(s, pt) == (StarModel {
            gesture: GestureState::Begun { start: a, current: pt },
            shift_locked: s.shift_locked,
        }),
        !(s.gesture is Down) ==> after_drag_began(s, pt) == s,
        s.gesture matches GestureState::Begun { start: a, current: c } ==> after_drag_changed(s, pt)
            == (StarModel {
            gesture: GestureState::Begun { start: a, current: pt },
            shift_locked: s.shift_locked,
        }),
        !(s.gesture is Begun) ==> after_drag_changed(s, pt) == s,
        s.gesture matches GestureState::Begun { start: a, current: c } ==> {
            &&& drag_of(s) == Some(StarDrag { start: a, current: c, square: s.shift_locked })
            &&& after_left_up(s) == (StarModel {
                gesture: GestureState::<P>::Finished,
                shift_locked: s.shift_locked,
            })
        },
        !(s.gesture is Begun) ==> drag_of(s) is None && after_left_up(s) == s,
        after_cancel(s) == (StarModel { gesture: GestureState::<P>::Ready, shift_locked: s.shift_locked }),
{
}

/// A complete gesture as the tool sees it, with the end of each mouse event handled
/// after the click, the start of the drag, the move and the release: the drag begins
/// from the click, follows the mouse, and the release asks for the star from the click
/// to the last point (held to a square exactly when Shift was held at the click), after
/// which the tool is ready again.
pub proof fn lemma_complete_gesture_with_event_ends<P>(s: StarModel<P>, a: P, shift: bool, b: P, c: P)
    ensures
        ({
            let down = after_finish(after_left_down(s, 1, a, shift));
            let begun = after_finish(after_drag_began(down, b));
            let moved = after_finish(after_drag_changed(begun, c));
            let released = after_left_up(moved);
            &&& down == (StarModel { gesture: GestureState::Down(a), shift_locked: shift })
            &&& begun == (StarModel {
                gesture: GestureState::Begun { start: a, current: b },
                shift_locked: shift,
            })
            &&& moved == (StarModel {
                gesture: GestureState::Begun { start: a, current: c },
                shift_locked: shift,
            })
            &&& drag_of(moved) == Some(StarDrag { start: a, current: c, square: shift })
            &&& released.gesture is Finished
            &&& after_finish(released) == (StarModel {
                gesture: GestureState::<P>::Ready,
                shift_locked: shift,
            })
        }),
{
}

/// A click that is not a single click starts no gesture.
pub proof fn lemma_multi_click_ignored<P>(s: StarModel<P>, count: u8, pt: P, shift: bool)
    requires
        count != 1,
    ensures
        after_left_down(s, count, pt, shift) == s,
{
}

/// The star outline has ten points, starting at the top (-90 degrees) and evenly
/// spaced by 36 degrees so that the tenth is followed by the first after a full turn;
/// tips (full radius) and inner corners (0.382 of it) alternate, starting with a tip.
pub proof fn lemma_star_outline_shape()
    ensures
        star_vertices().len() == 10,
        star_vertices()[0].angle_degrees == -90,
        forall|i: int|
            0 <= i < 9 ==> #[trigger] star_vertices()[i + 1].angle_degrees
                == star_vertices()[i].angle_degrees + 36,
        star_vertices()[9].angle_degrees + 36 == star_vertices()[0].angle_degrees + 360,
        forall|i: int|
            0 <= i < 10 ==> (#[trigger] star_vertices()[i].radius_permille == 1000) == (i % 2
                == 0),
        forall|i: int|
            0 <= i < 10 && i % 2 == 1 ==> #[trigger] star_vertices()[i].radius_permille == 382,
{
}

} // verus!
