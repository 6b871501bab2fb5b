//! The ordered waypoint list and the click, reset and control transitions.
use vstd::prelude::*;
use crate::geometry::{Alliance, Point, on_field, displacement_spec, is_on_field, displacement};

verus! {

/// Largest magnitude of the pending rotation, in degrees.
pub const MAX_ANGLE: i32 = 360;

/// What the robot does to reach a waypoint from the one before it; the first
/// waypoint of a path is the `Start`, which has no predecessor.
/// Displacements are in millionths of a foot, angles in degrees.
#[derive(Clone, Copy, Debug, PartialEq, Eq)]
pub enum Action {
    Translate(i64, i64),
    TranslateAndRotate(i64, i64, i32),
    Start,
}

/// A clicked screen position together with the action that reaches it.
#[derive(Clone, Copy, Debug, PartialEq, Eq)]
pub struct Waypoint {
    pub position: Point,
    pub action: Action,
}

/// The abstract state of a planner.
pub ghost struct PlannerState {
    pub items: Seq<Waypoint>,
    pub angle: int,
    pub alliance: Alliance,
}

/// The action for a click at `click` after a waypoint at `prev`.
pub open spec fn action_spec(alliance: Alliance, prev: Point, click: Point, angle: int) -> Action {
    let (dx, dy) = displacement_spec(alliance, prev, click);
    if angle == 0 {
        Action::Translate(dx as i64, dy as i64)
    } else {
        Action::TranslateAndRotate(dx as i64, dy as i64, angle as i32)
    }
}

impl PlannerState {
    /// Every waypoint lies on the field, the first one is the start, and the
    /// pending angle is within a full turn either way.
    pub open spec fn well_formed(self) -> bool {
        &&& forall|i: int| 0 <= i < self.items.len() ==> on_field(#[trigger] self.items[i].position)
        &&& self.items.len() > 0 ==> self.items[0].action == Action::Start
        &&& -MAX_ANGLE <= self.angle <= MAX_ANGLE
    }

    /// The state after a click at `click`: off the field nothing changes;
    /// otherwise a waypoint is appended and the pending angle is consumed.
    pub open spec fn click(self, click: Point) -> PlannerState {
        if !on_field(click) {
            self
        } else if self.items.len() == 0 {
            PlannerState {
                items: self.items.push(Waypoint { position: click, action: Action::Start }),
                angle: 0,
                ..self
            }
        } else {
            let prev = self.items.last().position;
            PlannerState {
                items: self.items.push(
                    Waypoint { position: click, action: action_spec(self.alliance, prev, click, self.angle) },
                ),
                angle: 0,
                ..self
            }
        }
    }

    /// The state after a reset: an empty path, everything else kept.
    pub open spec fn reset(self) -> PlannerState {
        PlannerState { items: Seq::empty(), ..self }
    }

    /// The state after the clicks of `clicks`, in order.
    pub open spec fn clicks(self, clicks: Seq<Point>) -> PlannerState
        decreases clicks.len(),
    {
        if clicks.len() == 0 {
            self
        } else {
            self.clicks(clicks.drop_last()).click(clicks.last())
        }
    }
}

/// Clicks that all land on the field each add one waypoint: from an empty
/// path, the path ends up with exactly as many waypoints as there were clicks.
pub proof fn lemma_clicks_on_field_count(s: PlannerState, clicks: Seq<Point>)
    requires
        forall|i: int| 0 <= i < clicks.len() ==> on_field(#[trigger] clicks[i]),
    ensures
        s.clicks(clicks).items.len() == s.items.len() + clicks.len(),
    decreases clicks.len(),
{
    if clicks.len() > 0 {
        let rest = clicks.drop_last();
        assert forall|i: int| 0 <= i < rest.len() implies on_field(#[trigger] rest[i]) by {
            assert(rest[i] == clicks[i]);
        }
        lemma_clicks_on_field_count(s, rest);
        assert(on_field(clicks[clicks.len() - 1]));
    }
}

/// Whatever the clicks, a non-empty path begins with the `Start` waypoint,
/// provided it did so before them (as an empty path trivially does).
pub proof fn lemma_clicks_keep_start(s: PlannerState, clicks: Seq<Point>)
    requires
        s.items.len() > 0 ==> s.items[0].action == Action::Start,
    ensures
        s.clicks(clicks).items.len() > 0 ==> s.clicks(clicks).items[0].action == Action::Start,
    decreases clicks.len(),
{
    if clicks.len() > 0 {
        lemma_clicks_keep_start(s, clicks.drop_last());
    }
}

/// The state of the planner: the path, the pending rotation and the alliance.
pub struct Planner {
    items: Vec<Waypoint>,
    angle: i32,
    alliance: Alliance,
}

impl View for Planner {
    type V = PlannerState;

    closed spec fn view(&self) -> PlannerState {
        PlannerState { items: self.items@, angle: self.angle as int, alliance: self.alliance }
    }
}

/// The action for a click at `click` after a waypoint at `prev`: a translation,
/// with the pending rotation when it is not zero.
pub fn next_action(alliance: Alliance, prev: Point, click: Point, angle: i32) -> (r: Action)
    requires
        on_field(prev),
        on_field(click),
    ensures
        r == action_spec(alliance, prev, click, angle as int),
{
    let (dx, dy) = displacement(alliance, prev, click);
    if angle == 0 {
        Action::Translate(dx, dy)
    } else {
        Action::TranslateAndRotate(dx, dy, angle)
    }
}

impl Planner {
    #[verifier::type_invariant]
    spec fn inv(&self) -> bool {
        self@.well_formed()
    }

    /// An empty path, no pending rotation, planned for the Blue alliance.
    pub fn new() -> (r: Planner)
        ensures
            r@.items.len() == 0,
            r@.angle == 0,
            r@.alliance == Alliance::Blue,
            r@.well_formed(),
    {
        Planner { items: Vec::new(), angle: 0, alliance: Alliance::Blue }
    }

    /// The waypoints, in path order.
    pub fn items(&self) -> (r: &Vec<Waypoint>)
        ensures
            r@ == self@.items,
    {
        &self.items
    }

    /// The rotation the next waypoint will carry, in degrees.
    pub fn angle(&self) -> (r: i32)
        ensures
            r == self@.angle,
    {
        self.angle
    }

    /// The alliance the path is planned for.
    pub fn alliance(&self) -> (r: Alliance)
        ensures
            r == self@.alliance,
    {
        self.alliance
    }

    /// Sets the pending rotation, clamped to a full turn either way.
    pub fn set_angle(&mut self, angle: i32)
        ensures
            final(self)@.well_formed(),
            final(self)@ == (PlannerState {
                angle: if angle < -MAX_ANGLE {
                    -MAX_ANGLE as int
                } else if angle > MAX_ANGLE {
                    MAX_ANGLE as int
                } else {
                    angle as int
                },
                ..old(self)@
            }),
    {
        proof {
            use_type_invariant(&*self);
        }
        self.angle = if angle < -MAX_ANGLE {
            -MAX_ANGLE
        } else if angle > MAX_ANGLE {
            MAX_ANGLE
        } else {
            angle
        };
    }

    /// Chooses the alliance that later clicks are oriented for.
    pub fn set_alliance(&mut self, alliance: Alliance)
        ensures
            final(self)@.well_formed(),
            final(self)@ == (PlannerState { alliance, ..old(self)@ }),
    {
        proof {
            use_type_invariant(&*self);
        }
        self.alliance = alliance;
    }

    /// Discards the whole path; the pending rotation and alliance stay.
    pub fn reset(&mut self)
        ensures
            final(self)@.well_formed(),
            final(self)@ == old(self)@.reset(),
    {
        proof {
            use_type_invariant(&*self);
        }
        self.items = Vec::new();
    }

    /// Handles a click at `click`: on the field it appends a waypoint and
    /// consumes the pending rotation, and returns true; elsewhere it changes
    /// nothing and returns false.
    pub fn click(&mut self, click: Point) -> (r: bool)
        ensures
            r == on_field(click),
            final(self)@.well_formed(),
            final(self)@ == old(self)@.click(click),
    {
        proof {
            use_type_invariant(&*self);
        }
        if !is_on_field(click) {
            return false;
        }
        let n = self.items.len();
        let action = if n == 0 {
            Action::Start
        } else {
            let prev = self.items[n - 1].position;
            next_action(self.alliance, prev, click, self.angle)
        };
        // The path is rebuilt and stored whole, so that the planner's invariant
        // never rests on a field borrowed mutably across a call that may unwind.
        let mut items = self.items.clone();
        assert(items@ =~= self.items@);
        items.push(Waypoint { position: click, action });
        self.items = items;
        self.angle = 0;
        true
    }
}

} // verus!
