//! Cows, the enemies of the game, and the route each of them walks.

use vstd::prelude::*;
use vstd::arithmetic::div_mod::{
    lemma_div_is_ordered, lemma_div_multiples_vanish, lemma_div_pos_is_pos,
    lemma_fundamental_div_mod, lemma_mod_bound,
};
use vstd::arithmetic::mul::lemma_mul_upper_bound;
use crate::consts::{COW_SPEED, PATROL_PIVOT_OFFSET, WAYPOINT_LIMIT};
use crate::coords::Position;
use crate::math::{
    hypotenuse_is_longest, integer_sqrt, integer_sqrt_exists, isqrt, saturate_i64, saturating,
    truncated_quotient,
};

verus! {

/// Whether a waypoint lies close enough to the origin for a route through it
/// to be measured.
pub open spec fn in_reach(point: Position) -> bool {
    &&& -WAYPOINT_LIMIT <= point.x <= WAYPOINT_LIMIT
    &&& -WAYPOINT_LIMIT <= point.y <= WAYPOINT_LIMIT
}

/// The route of an enemy and the way it currently walks it.
#[derive(Debug)]
pub struct Patrol {
    /// The waypoints: the spawn point first.
    pub points: Vec<Position>,
    /// The waypoint headed for when the route was laid out; the walk does not
    /// read it.
    pub index: usize,
    /// Whether the enemy walks from the first waypoint toward the last.
    pub forward: bool,
}

/// The straight line an enemy walks: from the first waypoint to the last,
/// whose end is raised by the pivot offset.
pub struct Route {
    pub start_x: int,
    pub start_y: int,
    pub finish_x: int,
    pub finish_y: int,
}

/// The part of `COW_SPEED * delta_micros` that falls on one axis of a route:
/// scaled by the heading along that axis over the length of the route, and
/// rounded toward zero. A route without length gives no stride.
pub open spec fn scaled(heading: int, length: int, delta_micros: int) -> int {
    if length > 0 {
        truncated_quotient(COW_SPEED * delta_micros * heading, length)
    } else {
        0
    }
}

/// The number of frames an enemy walks from the near end of its route until
/// it has reached or passed the far end, `distance` away, at `stride` a frame.
pub open spec fn frames_to_far_end(distance: int, stride: int) -> nat
    recommends
        distance > 0,
        stride > 0,
{
    ((distance + stride - 1) / stride) as nat
}

/// The number of frames after which an enemy that set out from the near end
/// of its route is back there, walking forward again.
///
/// On a route that runs to the right the enemy walks to the far end, one
/// frame beyond it, back to the near end, one frame beyond that, and one
/// frame back. On a route that does not run to the right it is at or beyond
/// the far end from the start, and steps out and back. Where it does not
/// move at all, every frame is a round.
pub open spec fn frames_per_round(start_x: int, finish_x: int, stride_x: int) -> nat {
    if finish_x <= start_x {
        2
    } else if stride_x > 0 {
        2 * frames_to_far_end(finish_x - start_x, stride_x) + 4
    } else {
        1
    }
}

impl Route {
    /// The horizontal extent of the route, signed.
    pub open spec fn heading_x(self) -> int {
        self.finish_x - self.start_x
    }

    /// The vertical extent of the route, signed.
    pub open spec fn heading_y(self) -> int {
        self.finish_y - self.start_y
    }

    /// The length of the route, rounded down.
    pub open spec fn length(self) -> int {
        integer_sqrt(
            (self.heading_x() * self.heading_x() + self.heading_y() * self.heading_y()) as nat,
        ) as int
    }

    /// The horizontal distance walked forward in one frame.
    pub open spec fn stride_x(self, delta_micros: int) -> int {
        scaled(self.heading_x(), self.length(), delta_micros)
    }

    /// The vertical distance walked forward in one frame.
    pub open spec fn stride_y(self, delta_micros: int) -> int {
        scaled(self.heading_y(), self.length(), delta_micros)
    }
}

/// Where an enemy is on its route, and which way it walks.
pub struct Sweep {
    pub x: int,
    pub y: int,
    pub forward: bool,
}

impl Sweep {
    /// Whether the enemy turns round in this frame: walking forward it has
    /// reached or passed the far end, or walking backward the near end. Only
    /// the horizontal coordinate decides.
    pub open spec fn turns(self, start_x: int, finish_x: int) -> bool {
        (self.x >= finish_x && self.forward) || (self.x <= start_x && !self.forward)
    }

    /// The enemy one frame later, for the strides `stride_x` and `stride_y` of
    /// that frame. It still moves the way it walked before it turned round.
    pub open spec fn moved(self, start_x: int, finish_x: int, stride_x: int, stride_y: int) -> Sweep {
        Sweep {
            x: if self.forward {
                self.x + stride_x
            } else {
                self.x - stride_x
            },
            y: if self.forward {
                self.y + stride_y
            } else {
                self.y - stride_y
            },
            forward: self.forward != self.turns(start_x, finish_x),
        }
    }

    /// The enemy `frames` frames later, each frame with the same strides.
    pub open spec fn moved_for(
        self,
        start_x: int,
        finish_x: int,
        stride_x: int,
        stride_y: int,
        frames: nat,
    ) -> Sweep
        decreases frames,
    {
        if frames == 0 {
            self
        } else {
            self.moved_for(start_x, finish_x, stride_x, stride_y, (frames - 1) as nat).moved(
                start_x,
                finish_x,
                stride_x,
                stride_y,
            )
        }
    }

    /// The enemy after one frame of `delta_micros` microseconds on `route`.
    pub open spec fn after_step(self, route: Route, delta_micros: int) -> Sweep {
        self.moved(
            route.start_x,
            route.finish_x,
            route.stride_x(delta_micros),
            route.stride_y(delta_micros),
        )
    }
}

impl Patrol {
    /// Every waypoint is in reach.
    pub open spec fn wf(&self) -> bool {
        forall|i: int| 0 <= i < self.points@.len() ==> in_reach(#[trigger] self.points@[i])
    }

    /// Whether every waypoint is in reach.
    pub fn is_wf(&self) -> (ok: bool)
        ensures
            ok == self.wf(),
    {
        let mut i: usize = 0;
        while i < self.points.len()
            invariant
                i <= self.points.len(),
                forall|j: int| 0 <= j < i ==> in_reach(#[trigger] self.points@[j]),
            decreases self.points.len() - i,
        {
            if !within_reach(self.points[i]) {
                return false;
            }
            i += 1;
        }
        true
    }

    /// The line this patrol walks. It takes two waypoints to make one.
    pub open spec fn route(&self) -> Route
        recommends
            self.points@.len() >= 2,
    {
        Route {
            start_x: self.points@[0].x as int,
            start_y: self.points@[0].y as int,
            finish_x: self.points@.last().x as int,
            finish_y: self.points@.last().y + PATROL_PIVOT_OFFSET,
        }
    }

    /// The patrol of an enemy spawned at `spawn` whose level data lists the
    /// waypoints `route`: the spawn point comes first, the enemy walks
    /// forward. A waypoint out of reach makes the level data unusable, and no
    /// patrol comes back.
    pub fn bundle_entity(spawn: Position, route: &Vec<Position>) -> (bundle: Option<Patrol>)
        ensures
            bundle is Some <==> in_reach(spawn) && forall|i: int|
                0 <= i < route@.len() ==> in_reach(#[trigger] route@[i]),
            bundle matches Some(patrol) ==> {
                &&& patrol.wf()
                &&& patrol.points@ == seq![spawn] + route@
                &&& patrol.index == 1
                &&& patrol.forward
            },
    {
        if !within_reach(spawn) {
            return None;
        }
        let mut points: Vec<Position> = Vec::new();
        points.push(spawn);
        let mut i: usize = 0;
        while i < route.len()
            invariant
                i <= route.len(),
                points@ == seq![spawn] + route@.take(i as int),
                forall|j: int| 0 <= j < points@.len() ==> in_reach(#[trigger] points@[j]),
            decreases route.len() - i,
        {
            if !within_reach(route[i]) {
                return None;
            }
            points.push(route[i]);
            assert(route@.take(i + 1) == route@.take(i as int).push(route@[i as int]));
            i += 1;
        }
        assert(route@.take(route@.len() as int) == route@);
        assert forall|j: int| 0 <= j < route@.len() implies in_reach(#[trigger] route@[j]) by {
            assert(points@[j + 1] == route@[j]);
        }
        Some(Patrol { points, index: 1, forward: true })
    }
}

/// Whether a waypoint is in reach.
fn within_reach(point: Position) -> (within: bool)
    ensures
        within == in_reach(point),
{
    -WAYPOINT_LIMIT <= point.x && point.x <= WAYPOINT_LIMIT && -WAYPOINT_LIMIT <= point.y
        && point.y <= WAYPOINT_LIMIT
}

/// The largest magnitude a heading between two waypoints in reach can have.
spec fn max_heading() -> int {
    2 * WAYPOINT_LIMIT + PATROL_PIVOT_OFFSET
}

/// The largest product of a frame's pace and a heading.
spec fn max_numerator() -> int {
    70 * 0xffff_ffff_ffff_ffffint * (2 * 36_028_797_018_963_968 + 8_000_000)
}

/// The square of a heading between two waypoints in reach has its bound.
proof fn square_is_bounded(heading: int)
    requires
        -max_heading() <= heading <= max_heading(),
    ensures
        0 <= heading * heading <= 72_057_594_045_927_936 * 72_057_594_045_927_936,
{
    assert(0 <= heading * heading <= 72_057_594_045_927_936 * 72_057_594_045_927_936)
        by (nonlinear_arith)
        requires
            -72_057_594_045_927_936 <= heading <= 72_057_594_045_927_936,
    ;
}

/// The stride of one frame along one axis of a route of length `length`.
fn scale(heading: i128, length: u64, delta_micros: u64) -> (stride: i128)
    requires
        -max_heading() <= heading <= max_heading(),
    ensures
        stride == scaled(heading as int, length as int, delta_micros as int),
        -max_numerator() <= stride <= max_numerator(),
{
    if length == 0 {
        return 0;
    }
    let magnitude: u128 = if heading < 0 {
        (-heading) as u128
    } else {
        heading as u128
    };
    proof {
        let speed = COW_SPEED as int;
        assert(speed * delta_micros == 70 * delta_micros) by (nonlinear_arith)
            requires
                speed == 70,
        ;
        lemma_mul_upper_bound(
            70 * delta_micros,
            70 * 0xffff_ffff_ffff_ffffint,
            magnitude as int,
            max_heading(),
        );
    }
    let pace: u128 = COW_SPEED as u128 * delta_micros as u128;
    let numerator: u128 = pace * magnitude;
    let quotient: u128 = numerator / (length as u128);
    proof {
        let p = pace as int;
        let h = heading as int;
        assert(p * (-h) == -(p * h)) by (nonlinear_arith);
        assert(h < 0 && p > 0 ==> p * h < 0) by (nonlinear_arith);
        assert(p == 0 ==> p * h == 0) by (nonlinear_arith);
        assert(COW_SPEED * delta_micros * heading == p * h);
        assert(quotient <= numerator) by (nonlinear_arith)
            requires
                quotient == numerator / (length as u128),
                length >= 1,
        ;
    }
    if heading < 0 {
        -(quotient as i128)
    } else {
        quotient as i128
    }
}

/// Walks one enemy along its route for one frame of `delta_micros`
/// microseconds.
///
/// A route of fewer than two waypoints leaves the enemy where it is. Otherwise
/// the enemy moves along the line of its route in the direction it walked at
/// the start of the frame, and turns round for the next frame exactly when it
/// has reached or passed the end it was walking toward. Its position stops at
/// the ends of the `i64` range.
pub fn patrol_step(translation: &mut Position, patrol: &mut Patrol, delta_micros: u64)
    requires
        old(patrol).wf(),
    ensures
        final(patrol).points == old(patrol).points,
        final(patrol).index == old(patrol).index,
        old(patrol).points@.len() < 2 ==> {
            &&& *final(translation) == *old(translation)
            &&& final(patrol).forward == old(patrol).forward
        },
        old(patrol).points@.len() >= 2 ==> {
            let sweep = (Sweep {
                x: old(translation).x as int,
                y: old(translation).y as int,
                forward: old(patrol).forward,
            }).after_step(old(patrol).route(), delta_micros as int);
            &&& final(patrol).forward == sweep.forward
            &&& final(translation).x as int == saturate_i64(sweep.x)
            &&& final(translation).y as int == saturate_i64(sweep.y)
        },
{
    if patrol.points.len() <= 1 {
        return;
    }
    let start = patrol.points[0];
    let last = patrol.points[patrol.points.len() - 1];
    assert(in_reach(start) && in_reach(last));
    let finish_x: i128 = last.x as i128;
    let finish_y: i128 = last.y as i128 + PATROL_PIVOT_OFFSET as i128;
    let heading_x: i128 = finish_x - start.x as i128;
    let heading_y: i128 = finish_y - start.y as i128;
    proof {
        square_is_bounded(heading_x as int);
        square_is_bounded(heading_y as int);
    }
    let length: u64 = isqrt((heading_x * heading_x + heading_y * heading_y) as u128);
    let stride_x = scale(heading_x, length, delta_micros);
    let stride_y = scale(heading_y, length, delta_micros);

    let x: i128 = translation.x as i128;
    let y: i128 = translation.y as i128;
    let turns = (x >= finish_x && patrol.forward) || (x <= start.x as i128 && !patrol.forward);
    if patrol.forward {
        translation.x = saturating(x + stride_x);
        translation.y = saturating(y + stride_y);
    } else {
        translation.x = saturating(x - stride_x);
        translation.y = saturating(y - stride_y);
    }
    if turns {
        patrol.forward = !patrol.forward;
    }
}

/// An enemy: where it stands and the route it walks.
#[derive(Debug)]
pub struct Cow {
    pub translation: Position,
    pub patrol: Patrol,
}

impl Cow {
    /// The enemy after one frame of `delta_micros` microseconds.
    pub open spec fn walked(self, delta_micros: int) -> Cow {
        if self.patrol.points@.len() < 2 {
            self
        } else {
            let sweep = (Sweep {
                x: self.translation.x as int,
                y: self.translation.y as int,
                forward: self.patrol.forward,
            }).after_step(self.patrol.route(), delta_micros);
            Cow {
                translation: Position {
                    x: saturate_i64(sweep.x) as i64,
                    y: saturate_i64(sweep.y) as i64,
                },
                patrol: Patrol { forward: sweep.forward, ..self.patrol },
            }
        }
    }
}

/// Whether every enemy of `cows` has a route whose waypoints are in reach.
pub open spec fn herd_wf(cows: Seq<Cow>) -> bool {
    forall|i: int| 0 <= i < cows.len() ==> (#[trigger] cows[i]).patrol.wf()
}

/// Whether every enemy of `cows` has a route whose waypoints are in reach.
pub fn herd_is_wf(cows: &Vec<Cow>) -> (ok: bool)
    ensures
        ok == herd_wf(cows@),
{
    let mut i: usize = 0;
    while i < cows.len()
        invariant
            i <= cows.len(),
            forall|j: int| 0 <= j < i ==> (#[trigger] cows@[j]).patrol.wf(),
        decreases cows.len() - i,
    {
        if !cows[i].patrol.is_wf() {
            return false;
        }
        i += 1;
    }
    true
}

/// The enemies `cows`, each after one frame of `delta_micros` microseconds.
pub open spec fn walked_all(cows: Seq<Cow>, delta_micros: int) -> Seq<Cow> {
    Seq::new(cows.len(), |i: int| cows[i].walked(delta_micros))
}

/// Where the enemies `cows` stand.
pub open spec fn translations(cows: Seq<Cow>) -> Seq<Position> {
    Seq::new(cows.len(), |i: int| cows[i].translation)
}

/// Walks every enemy along its route for one frame of `delta_micros`
/// microseconds.
pub fn patrol(cows: &mut Vec<Cow>, delta_micros: u64)
    requires
        herd_wf(old(cows)@),
    ensures
        herd_wf(final(cows)@),
        final(cows)@ == walked_all(old(cows)@, delta_micros as int),
{
    let mut i: usize = 0;
    while i < cows.len()
        invariant
            i <= cows.len(),
            cows@.len() == old(cows)@.len(),
            forall|j: int| 0 <= j < i ==> #[trigger] cows@[j] == old(cows)@[j].walked(
                delta_micros as int,
            ),
            forall|j: int| i <= j < cows@.len() ==> #[trigger] cows@[j] == old(cows)@[j],
            herd_wf(old(cows)@),
        decreases cows.len() - i,
    {
        let cow = &mut cows[i];
        patrol_step(&mut cow.translation, &mut cow.patrol, delta_micros);
        i += 1;
    }
}

/// An enemy turns round exactly at the two ends of its route: walking
/// forward at or beyond the far end, or walking backward at or beyond the
/// near end, and in no other frame.
pub proof fn turns_only_at_the_ends(
    sweep: Sweep,
    start_x: int,
    finish_x: int,
    stride_x: int,
    stride_y: int,
)
    ensures
        (sweep.moved(start_x, finish_x, stride_x, stride_y).forward != sweep.forward) <==> ((
        sweep.forward && sweep.x >= finish_x) || (!sweep.forward && sweep.x <= start_x)),
{
}

/// Walking `first` frames and then `then` frames is walking them all.
proof fn moved_for_adds_up(
    sweep: Sweep,
    start_x: int,
    finish_x: int,
    stride_x: int,
    stride_y: int,
    first: nat,
    then: nat,
)
    ensures
        sweep.moved_for(start_x, finish_x, stride_x, stride_y, first).moved_for(
            start_x,
            finish_x,
            stride_x,
            stride_y,
            then,
        ) == sweep.moved_for(start_x, finish_x, stride_x, stride_y, first + then),
    decreases then,
{
    if then > 0 {
        moved_for_adds_up(
            sweep,
            start_x,
            finish_x,
            stride_x,
            stride_y,
            first,
            (then - 1) as nat,
        );
        assert(first + then - 1 == first + (then - 1));
    }
}

/// An enemy walking forward short of the far end goes straight on.
proof fn walks_straight_forward(
    sweep: Sweep,
    start_x: int,
    finish_x: int,
    stride_x: int,
    stride_y: int,
    frames: nat,
)
    requires
        sweep.forward,
        stride_x > 0,
        frames > 0 ==> sweep.x + (frames - 1) * stride_x < finish_x,
    ensures
        sweep.moved_for(start_x, finish_x, stride_x, stride_y, frames) == (Sweep {
            x: sweep.x + frames * stride_x,
            y: sweep.y + frames * stride_y,
            forward: true,
        }),
    decreases frames,
{
    if frames > 0 {
        let before = (frames - 1) as nat;
        assert(before > 0 ==> sweep.x + (before - 1) * stride_x < finish_x) by (nonlinear_arith)
            requires
                sweep.x + (frames - 1) * stride_x < finish_x,
                before == frames - 1,
                stride_x > 0,
        ;
        walks_straight_forward(sweep, start_x, finish_x, stride_x, stride_y, before);
        assert(before * stride_x + stride_x == frames * stride_x) by (nonlinear_arith)
            requires
                before == frames - 1,
        ;
        assert(before * stride_y + stride_y == frames * stride_y) by (nonlinear_arith)
            requires
                before == frames - 1,
        ;
    }
}

/// An enemy walking backward short of the near end goes straight on.
proof fn walks_straight_backward(
    sweep: Sweep,
    start_x: int,
    finish_x: int,
    stride_x: int,
    stride_y: int,
    frames: nat,
)
    requires
        !sweep.forward,
        stride_x > 0,
        frames > 0 ==> sweep.x - (frames - 1) * stride_x > start_x,
    ensures
        sweep.moved_for(start_x, finish_x, stride_x, stride_y, frames) == (Sweep {
            x: sweep.x - frames * stride_x,
            y: sweep.y - frames * stride_y,
            forward: false,
        }),
    decreases frames,
{
    if frames > 0 {
        let before = (frames - 1) as nat;
        assert(before > 0 ==> sweep.x - (before - 1) * stride_x > start_x) by (nonlinear_arith)
            requires
                sweep.x - (frames - 1) * stride_x > start_x,
                before == frames - 1,
                stride_x > 0,
        ;
        walks_straight_backward(sweep, start_x, finish_x, stride_x, stride_y, before);
        assert(before * stride_x + stride_x == frames * stride_x) by (nonlinear_arith)
            requires
                before == frames - 1,
        ;
        assert(before * stride_y + stride_y == frames * stride_y) by (nonlinear_arith)
            requires
                before == frames - 1,
        ;
    }
}

/// The count of frames to the far end is the first that gets there.
proof fn far_end_is_reached(distance: int, stride: int)
    requires
        distance > 0,
        stride > 0,
    ensures
        frames_to_far_end(distance, stride) >= 1,
        (frames_to_far_end(distance, stride) - 1) * stride < distance <= frames_to_far_end(
            distance,
            stride,
        ) * stride,
{
    let total = distance + stride - 1;
    let frames = total / stride;
    lemma_fundamental_div_mod(total, stride);
    lemma_mod_bound(total, stride);
    assert(stride * frames == frames * stride) by (nonlinear_arith);
    assert((frames - 1) * stride == frames * stride - stride) by (nonlinear_arith);
    if frames <= 0 {
        assert(frames * stride <= 0) by (nonlinear_arith)
            requires
                frames <= 0,
                stride > 0,
        ;
    }
}

/// One round of an enemy on its route ends where it began.
proof fn round_ends_at_start(
    start_x: int,
    start_y: int,
    finish_x: int,
    stride_x: int,
    stride_y: int,
)
    requires
        finish_x <= start_x ==> stride_x <= 0,
        finish_x > start_x ==> stride_x > 0 || (stride_x == 0 && stride_y == 0),
    ensures
        (Sweep { x: start_x, y: start_y, forward: true }).moved_for(
            start_x,
            finish_x,
            stride_x,
            stride_y,
            frames_per_round(start_x, finish_x, stride_x),
        ) == (Sweep { x: start_x, y: start_y, forward: true }),
{
    let home = Sweep { x: start_x, y: start_y, forward: true };
    reveal_with_fuel(Sweep::moved_for, 3);
    if finish_x > start_x && stride_x > 0 {
        let reach = frames_to_far_end(finish_x - start_x, stride_x);
        far_end_is_reached(finish_x - start_x, stride_x);
        walks_straight_forward(home, start_x, finish_x, stride_x, stride_y, reach);
        let at_far_end = home.moved_for(start_x, finish_x, stride_x, stride_y, reach);
        let turned = at_far_end.moved(start_x, finish_x, stride_x, stride_y);
        assert(turned == home.moved_for(start_x, finish_x, stride_x, stride_y, reach + 1));
        assert(turned == (Sweep {
            x: start_x + reach * stride_x + stride_x,
            y: start_y + reach * stride_y + stride_y,
            forward: false,
        }));
        assert(reach * stride_x + stride_x == (reach + 1) * stride_x) by (nonlinear_arith);
        assert(reach * stride_y + stride_y == (reach + 1) * stride_y) by (nonlinear_arith);
        walks_straight_backward(turned, start_x, finish_x, stride_x, stride_y, reach + 1);
        let at_near_end = turned.moved_for(start_x, finish_x, stride_x, stride_y, reach + 1);
        assert(at_near_end == (Sweep { x: start_x, y: start_y, forward: false }));
        moved_for_adds_up(home, start_x, finish_x, stride_x, stride_y, reach + 1, reach + 1);
        let beyond = at_near_end.moved(start_x, finish_x, stride_x, stride_y);
        assert(beyond == (Sweep {
            x: start_x - stride_x,
            y: start_y - stride_y,
            forward: true,
        }));
        assert(beyond.moved(start_x, finish_x, stride_x, stride_y) == home);
        assert(at_near_end.moved_for(start_x, finish_x, stride_x, stride_y, 2) == home);
        moved_for_adds_up(home, start_x, finish_x, stride_x, stride_y, 2 * reach + 2, 2);
    }
}

/// An enemy that sets out from the near end of a line is back there, and
/// walking forward, after every whole number of rounds, as long as each
/// frame brings the same strides.
///
/// The horizontal stride must follow the line: to the right on a line that
/// runs to the right, and not to the right on one that does not. On a line
/// to the right a horizontal stride of nothing is covered only where the
/// vertical stride is nothing too.
pub proof fn sweep_returns_to_start(
    start_x: int,
    start_y: int,
    finish_x: int,
    stride_x: int,
    stride_y: int,
    rounds: nat,
)
    requires
        finish_x <= start_x ==> stride_x <= 0,
        finish_x > start_x ==> stride_x > 0 || (stride_x == 0 && stride_y == 0),
    ensures
        (Sweep { x: start_x, y: start_y, forward: true }).moved_for(
            start_x,
            finish_x,
            stride_x,
            stride_y,
            rounds * frames_per_round(start_x, finish_x, stride_x),
        ) == (Sweep { x: start_x, y: start_y, forward: true }),
    decreases rounds,
{
    let home = Sweep { x: start_x, y: start_y, forward: true };
    let round = frames_per_round(start_x, finish_x, stride_x);
    if rounds > 0 {
        let before = (rounds - 1) as nat;
        sweep_returns_to_start(start_x, start_y, finish_x, stride_x, stride_y, before);
        round_ends_at_start(start_x, start_y, finish_x, stride_x, stride_y);
        moved_for_adds_up(home, start_x, finish_x, stride_x, stride_y, before * round, round);
        assert(before * round + round == rounds * round) by (nonlinear_arith)
            requires
                before == rounds - 1,
        ;
    } else {
        assert(rounds * round == 0) by (nonlinear_arith)
            requires
                rounds == 0,
        ;
    }
}

/// The stride along an axis points the way the route does, or is nothing.
pub proof fn stride_follows_heading(heading: int, length: int, delta_micros: u64)
    ensures
        heading >= 0 ==> scaled(heading, length, delta_micros as int) >= 0,
        heading <= 0 ==> scaled(heading, length, delta_micros as int) <= 0,
{
    if length > 0 {
        let pace = COW_SPEED * delta_micros;
        assert(pace >= 0) by (nonlinear_arith)
            requires
                pace == COW_SPEED * delta_micros,
                COW_SPEED == 70,
                delta_micros >= 0,
        ;
        assert(heading >= 0 ==> pace * heading >= 0) by (nonlinear_arith)
            requires
                pace >= 0,
        ;
        assert(heading <= 0 ==> pace * heading <= 0) by (nonlinear_arith)
            requires
                pace >= 0,
        ;
        let numerator = pace * heading;
        if numerator >= 0 {
            lemma_div_pos_is_pos(numerator, length);
        } else {
            lemma_div_pos_is_pos(-numerator, length);
        }
    }
}

/// An enemy never walks faster than its speed: along each axis the stride of
/// a frame is at most the speed times the frame time.
pub proof fn stride_within_speed(route: Route, delta_micros: u64)
    ensures
        -(COW_SPEED * delta_micros) <= route.stride_x(delta_micros as int) <= COW_SPEED
            * delta_micros,
        -(COW_SPEED * delta_micros) <= route.stride_y(delta_micros as int) <= COW_SPEED
            * delta_micros,
{
    let squares = (route.heading_x() * route.heading_x() + route.heading_y() * route.heading_y());
    assert(squares >= 0) by (nonlinear_arith)
        requires
            squares == route.heading_x() * route.heading_x() + route.heading_y()
                * route.heading_y(),
    ;
    integer_sqrt_exists(squares as nat);
    hypotenuse_is_longest(route.heading_x(), route.heading_y(), route.length() as nat);
    scaled_within_pace(route.heading_x(), route.length(), delta_micros);
    scaled_within_pace(route.heading_y(), route.length(), delta_micros);
}

/// A heading no longer than the route gives a stride no longer than the pace.
proof fn scaled_within_pace(heading: int, length: int, delta_micros: u64)
    requires
        -length <= heading <= length,
    ensures
        -(COW_SPEED * delta_micros) <= scaled(heading, length, delta_micros as int) <= COW_SPEED
            * delta_micros,
{
    let pace = COW_SPEED * delta_micros;
    assert(pace >= 0) by (nonlinear_arith)
        requires
            pace == COW_SPEED * delta_micros,
            COW_SPEED == 70,
            delta_micros >= 0,
    ;
    if length > 0 {
        let numerator = pace * heading;
        assert(-(pace * length) <= numerator <= pace * length) by (nonlinear_arith)
            requires
                numerator == pace * heading,
                pace >= 0,
                -length <= heading <= length,
        ;
        assert(pace * length == length * pace) by (nonlinear_arith);
        lemma_div_multiples_vanish(pace, length);
        if numerator >= 0 {
            lemma_div_is_ordered(numerator, pace * length, length);
            lemma_div_pos_is_pos(numerator, length);
        } else {
            lemma_div_is_ordered(-numerator, pace * length, length);
            lemma_div_pos_is_pos(-numerator, length);
        }
    }
}

/// An enemy that sets out from the first waypoint of its route, walking
/// forward, is back there and walking forward again after every whole number
/// of rounds, as long as every frame takes the same time.
///
/// One case is left out: a route that runs to the right, walked in frames so
/// short that the horizontal stride rounds to nothing while the vertical one
/// does not. There the enemy drifts along the vertical and never turns.
pub proof fn patrol_returns_to_start(route: Route, delta_micros: u64, rounds: nat)
    requires
        route.heading_x() > 0 && route.stride_x(delta_micros as int) == 0 ==> route.stride_y(
            delta_micros as int,
        ) == 0,
    ensures
        (Sweep { x: route.start_x, y: route.start_y, forward: true }).moved_for(
            route.start_x,
            route.finish_x,
            route.stride_x(delta_micros as int),
            route.stride_y(delta_micros as int),
            rounds * frames_per_round(
                route.start_x,
                route.finish_x,
                route.stride_x(delta_micros as int),
            ),
        ) == (Sweep { x: route.start_x, y: route.start_y, forward: true }),
{
    stride_follows_heading(route.heading_x(), route.length(), delta_micros);
    sweep_returns_to_start(
        route.start_x,
        route.start_y,
        route.finish_x,
        route.stride_x(delta_micros as int),
        route.stride_y(delta_micros as int),
        rounds,
    );
}

} // verus!
