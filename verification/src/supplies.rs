//! Supply items: drag state, the inventory layout, and the return-to-origin
//! integrator.
//!
//! A supply dragged away from its inventory slot drifts back to it when
//! released: each tick it moves a fixed speed's worth of distance along the
//! straight line to its origin, and snaps exactly onto the origin once it is
//! within the snap epsilon. The step is not clamped to the remaining
//! distance, so a large enough step overshoots past the origin; the next
//! tick then moves back. That bounce is deliberate behaviour, not a defect
//! to repair.

use vstd::prelude::*;

use crate::emote::Supply;
use crate::geom::Point;
use crate::geom::iabs;
use crate::timer::DT_LIMIT_US;
use vstd::pervasive::VecAdditionalExecFns;

verus! {

/// Width of an inventory slot, in world units.
pub const INVENTORY_WIDTH: i64 = 50;

/// Height of an inventory slot, in world units.
pub const INVENTORY_HEIGHT: i64 = 25;

/// Half-height of the playfield, in world units.
pub const Y_EXTENT: i64 = 250;

/// Vertical position of the inventory row: half a slot height plus a small
/// margin above the bottom edge of the playfield.
pub const INVENTORY_Y: i64 = -Y_EXTENT + 12 + 2;

/// Horizontal distance between neighbouring inventory slots.
pub const INVENTORY_STEP: i64 = INVENTORY_WIDTH + 2;

/// Speed at which a released supply returns to its slot, world units per
/// second.
pub const CLEANUP_VELOCITY: u64 = 500;

/// Distance to the origin, in world units, below which the integrator snaps
/// a returning supply exactly onto it.
pub const SNAP_DISTANCE: i64 = 3;

/// Largest coordinate magnitude the return integrator accepts.
pub const COORD_LIMIT: i64 = 1_000_000_000_000;

/// Largest return speed the integrator accepts, world units per second.
pub const SPEED_LIMIT: u64 = 1_000_000_000;

/// One supply item: its fixed identity and slot, and its mutable position
/// and drag flag.
#[derive(Copy, Clone, PartialEq, Eq, Structural, Hash, Debug)]
pub struct SupplyState {
    /// Which of the five supplies this is; fixed at creation.
    pub kind: Supply,
    /// Current position; moved by drags and by the return integrator.
    pub position: Point,
    /// The inventory slot this item returns to; fixed at creation.
    pub origin: Point,
    /// True while a pointer drag holds this item.
    pub dragging: bool,
    /// Return speed, world units per second.
    pub return_speed: u64,
}

/// A supply resting in the given inventory slot.
pub open spec fn spec_supply_at(kind: Supply, slot: Point) -> SupplyState {
    SupplyState { kind, position: slot, origin: slot, dragging: false, return_speed: CLEANUP_VELOCITY }
}

/// One supply of the given kind resting at horizontal slot position `x` on
/// the inventory row.
pub fn add_supply(kind: Supply, x: i64) -> (r: SupplyState)
    ensures
        r == spec_supply_at(kind, (Point { x, y: INVENTORY_Y })),
{
    let slot = Point { x, y: INVENTORY_Y };
    SupplyState {
        kind,
        position: slot,
        origin: slot,
        dragging: false,
        return_speed: CLEANUP_VELOCITY,
    }
}

/// The five supplies as they exist at startup, left to right on the
/// inventory row, in insertion order.
pub open spec fn spec_initial_supplies() -> Seq<SupplyState> {
    seq![
        spec_supply_at(Supply::Food, Point { x: ((-2 * INVENTORY_STEP) as i64), y: INVENTORY_Y }),
        spec_supply_at(Supply::Milk, Point { x: ((-1 * INVENTORY_STEP) as i64), y: INVENTORY_Y }),
        spec_supply_at(Supply::LitterScoop, Point { x: 0, y: INVENTORY_Y }),
        spec_supply_at(Supply::Litter, Point { x: ((1 * INVENTORY_STEP) as i64), y: INVENTORY_Y }),
        spec_supply_at(Supply::Toy, Point { x: ((2 * INVENTORY_STEP) as i64), y: INVENTORY_Y }),
    ]
}

/// Build the five supplies in their inventory slots.
pub fn make_supplies() -> (r: Vec<SupplyState>)
    ensures
        r@ == spec_initial_supplies(),
{
    let mut v: Vec<SupplyState> = Vec::new();
    v.push(add_supply(Supply::Food, -2 * INVENTORY_STEP));
    v.push(add_supply(Supply::Milk, -1 * INVENTORY_STEP));
    v.push(add_supply(Supply::LitterScoop, 0));
    v.push(add_supply(Supply::Litter, 1 * INVENTORY_STEP));
    v.push(add_supply(Supply::Toy, 2 * INVENTORY_STEP));
    proof {
        assert(v@ =~= spec_initial_supplies());
    }
    v
}

/// Drag-start handler: mark the item held.
pub fn set_click_state(s: &mut SupplyState)
    ensures
        *final(s) == (SupplyState { dragging: true, ..*old(s) }),
{
    s.dragging = true;
}

/// Drag-end handler: release the item.
pub fn unset_click_state(s: &mut SupplyState)
    ensures
        *final(s) == (SupplyState { dragging: false, ..*old(s) }),
{
    s.dragging = false;
}

/// The supply after a drag step: the pointer delta is applied with the
/// vertical axis inverted, pointer space growing downward and world space
/// upward.
pub open spec fn spec_dragged(s: SupplyState, delta: Point) -> SupplyState {
    SupplyState {
        position: Point {
            x: (s.position.x + delta.x) as i64,
            y: (s.position.y - delta.y) as i64,
        },
        ..s
    }
}

/// Drag handler: move the item by the pointer delta, unconditionally and
/// unbounded.
pub fn drag_supply(s: &mut SupplyState, delta: Point)
    requires
        i64::MIN <= old(s).position.x + delta.x <= i64::MAX,
        i64::MIN <= old(s).position.y - delta.y <= i64::MAX,
    ensures
        *final(s) == spec_dragged(*old(s), delta),
{
    s.position.x = s.position.x + delta.x;
    s.position.y = s.position.y - delta.y;
}

/// Squared Euclidean distance between two points.
pub open spec fn spec_dist_sq(a: Point, b: Point) -> int {
    (a.x - b.x) * (a.x - b.x) + (a.y - b.y) * (a.y - b.y)
}

/// The integer square root: the largest integer whose square does not
/// exceed `n`.
pub open spec fn sqrt_floor(n: int) -> int
    recommends
        n >= 0,
{
    choose|r: int| 0 <= r && #[trigger] (r * r) <= n && n < (r + 1) * (r + 1)
}

/// Any integer bracketing `n` between consecutive squares is its integer
/// square root.
pub proof fn lemma_sqrt_floor_unique(n: int, r: int)
    requires
        0 <= r,
        r * r <= n,
        n < (r + 1) * (r + 1),
    ensures
        sqrt_floor(n) == r,
{
    assert(0 <= r && r * r <= n && n < (r + 1) * (r + 1));
    let c = sqrt_floor(n);
    assert(0 <= c && c * c <= n && n < (c + 1) * (c + 1));
    assert(c == r) by (nonlinear_arith)
        requires
            0 <= r,
            r * r <= n,
            n < (r + 1) * (r + 1),
            0 <= c,
            c * c <= n,
            n < (c + 1) * (c + 1),
    ;
}

/// Integer square root by bisection.
pub fn isqrt(n: u128) -> (r: u128)
    ensures
        r * r <= n,
        n < (r + 1) * (r + 1),
        r as int == sqrt_floor(n as int),
{
    let mut lo: u128 = 0;
    let mut hi: u128 = 0x1_0000_0000_0000_0000;
    assert(n < hi * hi) by (nonlinear_arith)
        requires
            hi == 0x1_0000_0000_0000_0000u128,
            n <= u128::MAX,
    ;
    while lo + 1 < hi
        invariant
            lo < hi <= 0x1_0000_0000_0000_0000u128,
            lo * lo <= n,
            n < hi * hi,
        decreases hi - lo,
    {
        let mid: u128 = lo + (hi - lo) / 2;
        assert(mid * mid <= u128::MAX) by (nonlinear_arith)
            requires
                mid < 0x1_0000_0000_0000_0000u128,
        ;
        if mid * mid <= n {
            lo = mid;
        } else {
            hi = mid;
        }
    }
    proof {
        lemma_sqrt_floor_unique(n as int, lo as int);
    }
    lo
}

/// Length of one return step: the distance covered at `speed` world units
/// per second over `dt_us` microseconds, rounded down.
pub open spec fn spec_step_len(speed: u64, dt_us: u64) -> int {
    speed * dt_us / 1_000_000
}

/// One coordinate of the linear interpolation toward the origin: starting
/// from `x1`, move the fraction `step / d` of the way to `x0`, rounding the
/// moved amount toward zero. Nothing clamps the fraction at one, so
/// `step > d` moves past `x0`.
pub open spec fn spec_lerp_coord(x1: int, x0: int, step: int, d: int) -> int
    recommends
        d > 0,
        step >= 0,
{
    if x0 >= x1 {
        x1 + (x0 - x1) * step / d
    } else {
        x1 - (x1 - x0) * step / d
    }
}

/// Coordinates small enough for the integrator's arithmetic.
pub open spec fn spec_supply_in_bounds(s: SupplyState) -> bool {
    &&& -COORD_LIMIT <= s.position.x <= COORD_LIMIT
    &&& -COORD_LIMIT <= s.position.y <= COORD_LIMIT
    &&& -COORD_LIMIT <= s.origin.x <= COORD_LIMIT
    &&& -COORD_LIMIT <= s.origin.y <= COORD_LIMIT
    &&& s.return_speed <= SPEED_LIMIT
}

/// The supply after one return tick. A dragged item, or one already exactly
/// at its origin, is left untouched — the origin case is a skip, not a
/// convergence. Within the snap epsilon the position becomes exactly the
/// origin. Otherwise the item moves `spec_step_len` units along the line to
/// the origin, measured with the integer square root of the squared
/// distance.
pub open spec fn spec_return_step(s: SupplyState, dt_us: u64) -> SupplyState {
    if s.dragging || s.position == s.origin {
        s
    } else if spec_dist_sq(s.position, s.origin) < SNAP_DISTANCE * SNAP_DISTANCE {
        SupplyState { position: s.origin, ..s }
    } else {
        let d = sqrt_floor(spec_dist_sq(s.position, s.origin));
        let step = spec_step_len(s.return_speed, dt_us);
        SupplyState {
            position: Point {
                x: spec_lerp_coord(s.position.x as int, s.origin.x as int, step, d) as i64,
                y: spec_lerp_coord(s.position.y as int, s.origin.y as int, step, d) as i64,
            },
            ..s
        }
    }
}

/// A supply resting exactly on its origin is skipped by the return
/// integrator: the tick is a no-op, not a convergence to zero.
pub proof fn lemma_return_skips_at_origin(s: SupplyState, dt_us: u64)
    requires
        s.position == s.origin,
    ensures
        spec_return_step(s, dt_us) == s,
{
}

/// A supply held by a drag is never moved by the return integrator.
pub proof fn lemma_return_skips_dragging(s: SupplyState, dt_us: u64)
    requires
        s.dragging,
    ensures
        spec_return_step(s, dt_us) == s,
{
}

/// A released, displaced supply strictly closer to its origin than the snap
/// epsilon lands exactly on the origin in one tick, whatever the elapsed
/// time; nothing else about it changes.
pub proof fn lemma_return_snaps_within_epsilon(s: SupplyState, dt_us: u64)
    requires
        !s.dragging,
        s.position != s.origin,
        spec_dist_sq(s.position, s.origin) < SNAP_DISTANCE * SNAP_DISTANCE,
    ensures
        spec_return_step(s, dt_us) == (SupplyState { position: s.origin, ..s }),
{
}

/// Advance one supply by one return tick.
pub fn return_step(s: &mut SupplyState, dt_us: u64)
    requires
        spec_supply_in_bounds(*old(s)),
        dt_us <= DT_LIMIT_US,
    ensures
        *final(s) == spec_return_step(*old(s), dt_us),
{
    if s.dragging {
        return;
    }
    if s.position == s.origin {
        return;
    }
    let x1: i64 = s.position.x;
    let y1: i64 = s.position.y;
    let x0: i64 = s.origin.x;
    let y0: i64 = s.origin.y;
    let dx: i128 = (x1 as i128) - (x0 as i128);
    let dy: i128 = (y1 as i128) - (y0 as i128);
    assert(dx * dx + dy * dy <= 8_000_000_000_000_000_000_000_000 && dx * dx >= 0 && dy * dy
        >= 0) by (nonlinear_arith)
        requires
            -2_000_000_000_000 <= dx <= 2_000_000_000_000,
            -2_000_000_000_000 <= dy <= 2_000_000_000_000,
    ;
    let dsq: u128 = (dx * dx + dy * dy) as u128;
    if dsq < (SNAP_DISTANCE * SNAP_DISTANCE) as u128 {
        s.position = s.origin;
        return;
    }
    let d: u128 = isqrt(dsq);
    assert(3 <= d <= 3_000_000_000_000) by (nonlinear_arith)
        requires
            d * d <= dsq,
            dsq < (d + 1) * (d + 1),
            9 <= dsq <= 8_000_000_000_000_000_000_000_000,
    ;
    assert(iabs(dx as int) <= d && iabs(dy as int) <= d) by (nonlinear_arith)
        requires
            dsq == dx * dx + dy * dy,
            dsq < (d + 1) * (d + 1),
            d >= 0,
    ;
    assert((s.return_speed as u128) * (dt_us as u128) <= 1_000_000_000_000_000_000_000) by (nonlinear_arith)
        requires
            s.return_speed <= 1_000_000_000u64,
            dt_us <= 1_000_000_000_000u64,
    ;
    let step: u128 = (s.return_speed as u128) * (dt_us as u128) / 1_000_000;
    let nx: i64 = lerp_coord(x1, x0, step, d);
    let ny: i64 = lerp_coord(y1, y0, step, d);
    s.position = Point { x: nx, y: ny };
}

/// One coordinate of the interpolation toward the origin, matching
/// `spec_lerp_coord`.
fn lerp_coord(x1: i64, x0: i64, step: u128, d: u128) -> (r: i64)
    requires
        -COORD_LIMIT <= x1 <= COORD_LIMIT,
        -COORD_LIMIT <= x0 <= COORD_LIMIT,
        3 <= d <= 3_000_000_000_000,
        step <= 1_000_000_000_000_000,
        iabs(x0 - x1) <= d,
    ensures
        r as int == spec_lerp_coord(x1 as int, x0 as int, step as int, d as int),
{
    let diff: i128 = (x0 as i128) - (x1 as i128);
    let adiff: u128 = if diff < 0 {
        (-diff) as u128
    } else {
        diff as u128
    };
    assert((adiff as int) * (step as int) <= u128::MAX && (adiff as int) * (step as int) / (d as int)
        <= step as int) by (nonlinear_arith)
        requires
            adiff <= d <= 3_000_000_000_000u128,
            step <= 1_000_000_000_000_000u128,
            d >= 3,
    ;
    let q: u128 = adiff * step / d;
    if x0 >= x1 {
        let r: i128 = (x1 as i128) + (q as i128);
        r as i64
    } else {
        let r: i128 = (x1 as i128) - (q as i128);
        r as i64
    }
}

/// Advance every supply by one return tick, in place, leaving the order and
/// everything but the positions untouched.
pub fn move_back(supplies: &mut Vec<SupplyState>, dt_us: u64)
    requires
        forall|i: int|
            0 <= i < old(supplies)@.len() ==> spec_supply_in_bounds(#[trigger] old(supplies)@[i]),
        dt_us <= DT_LIMIT_US,
    ensures
        final(supplies)@.len() == old(supplies)@.len(),
        forall|i: int|
            0 <= i < old(supplies)@.len() ==> #[trigger] final(supplies)@[i] == spec_return_step(
                old(supplies)@[i],
                dt_us,
            ),
{
    let n: usize = supplies.len();
    let mut i: usize = 0;
    while i < n
        invariant
            i <= n,
            n == supplies@.len() == old(supplies)@.len(),
            dt_us <= DT_LIMIT_US,
            forall|j: int|
                0 <= j < n ==> spec_supply_in_bounds(#[trigger] old(supplies)@[j]),
            forall|j: int| i <= j < n ==> #[trigger] supplies@[j] == old(supplies)@[j],
            forall|j: int|
                0 <= j < i ==> #[trigger] supplies@[j] == spec_return_step(
                    old(supplies)@[j],
                    dt_us,
                ),
        decreases n - i,
    {
        let mut item: SupplyState = supplies[i];
        return_step(&mut item, dt_us);
        supplies.set(i, item);
        i = i + 1;
    }
}

} // verus!
