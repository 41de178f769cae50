//! Swept-circle collision against wall segments, in 16.16 fixed point.
//!
//! The narrow phase decomposes an attempted displacement against one wall:
//! the component parallel to the wall is kept (sliding), the component into
//! the wall is dropped, and a mover already closer than the minimum
//! separation is pushed back out along the wall's normal.  Fast movers are
//! resolved in sub-steps no longer than their radius so they cannot tunnel
//! through a thin wall.  Every step of the computation is stated exactly in
//! [`spec_single_collision`] and [`spec_multi_collision`].

use vstd::prelude::*;
use crate::fixed::{fdiv, floor_div, fmul, isqrt128, sqrt_floor};
use crate::map::{LevelMap, LineDef, LineDefFlags, Blockmaps};
use crate::math::Vector2;
use crate::types::ThingType;

verus! {

/// Positions the solver works on stay within this magnitude.
pub const POS_BOUND: i64 = 0x40_0000_0000;

/// Wall vertices, scaled to fixed point, stay within this magnitude.
pub const WALL_BOUND: i64 = 0x8000_0000;

/// The push-out buffer over the radius: 0.01 world units in fixed point.
pub const SEPARATION_BUFFER: i64 = 655;

/// Magnitude of an integer.
pub open spec fn sabs(x: int) -> int {
    if x < 0 {
        -x
    } else {
        x
    }
}

/// Fixed-point product, as the contracts state it.
pub open spec fn sfmul(a: int, b: int) -> int {
    (a * b) / 65536
}

/// Fixed-point quotient by a positive divisor, as the contracts state it.
pub open spec fn sfdiv(a: int, b: int) -> int {
    (a * 65536) / b
}

/// Fixed-point length of a fixed-point vector.
pub open spec fn flen(x: int, y: int) -> int {
    sqrt_floor(x * x + y * y)
}

/// How one collision pass corrects an attempted move from `p` to `np`
/// against the wall from `ws` to `we`, for a mover of the given radius.
pub open spec fn spec_single_collision(
    p: Vector2<i64>,
    np: Vector2<i64>,
    radius: i64,
    ws: Vector2<i64>,
    we: Vector2<i64>,
) -> (int, int) {
    let mx = np.x - p.x;
    let my = np.y - p.y;
    let wx = we.x - ws.x;
    let wy = we.y - ws.y;
    let len = flen(wx, wy);
    if len == 0 {
        (np.x as int, np.y as int)
    } else {
        let dx = sfdiv(wx, len);
        let dy = sfdiv(wy, len);
        let nx = -dy;
        let ny = dx;
        let tx = p.x - ws.x;
        let ty = p.y - ws.y;
        let perp = sfmul(tx, nx) + sfmul(ty, ny);
        let perp_abs = if perp < 0 {
            -perp
        } else {
            perp
        };
        if perp_abs > radius + 65536 {
            (np.x as int, np.y as int)
        } else {
            let along = sfmul(tx, dx) + sfmul(ty, dy);
            if along < -radius || along > len + radius {
                (np.x as int, np.y as int)
            } else {
                let toward = sfmul(mx, nx) + sfmul(my, ny);
                if toward >= 0 {
                    (np.x as int, np.y as int)
                } else {
                    let min_sep = radius + SEPARATION_BUFFER;
                    let pdot = sfmul(mx, dx) + sfmul(my, dy);
                    let par_x = sfmul(dx, pdot);
                    let par_y = sfmul(dy, pdot);
                    if perp_abs < min_sep {
                        let k = if perp < 0 {
                            perp_abs - min_sep
                        } else {
                            min_sep - perp
                        };
                        (p.x + sfmul(nx, k) + par_x, p.y + sfmul(ny, k) + par_y)
                    } else {
                        (p.x + par_x, p.y + par_y)
                    }
                }
            }
        }
    }
}

/// How `try_move` resolves an attempted move against one wall: a single
/// pass when the displacement is no longer than the radius, else equal
/// sub-steps resolved in sequence.
pub open spec fn spec_try_move(
    p: Vector2<i64>,
    np: Vector2<i64>,
    radius: i64,
    ws: Vector2<i64>,
    we: Vector2<i64>,
) -> (int, int) {
    let vx = np.x - p.x;
    let vy = np.y - p.y;
    let vlen = flen(vx, vy);
    if vlen <= radius {
        spec_single_collision(p, np, radius, ws, we)
    } else {
        let steps = (vlen + radius - 1) / radius as int;
        let step = Vector2 { x: (vx / steps) as i64, y: (vy / steps) as i64 };
        spec_multi_collision(p, step, radius, ws, we, steps as nat)
    }
}

/// `n` sub-steps of one step vector, each resolved against the wall; a
/// position that would leave the numeric working range stops the walk.
pub open spec fn spec_multi_collision(
    p: Vector2<i64>,
    step: Vector2<i64>,
    radius: i64,
    ws: Vector2<i64>,
    we: Vector2<i64>,
    n: nat,
) -> (int, int)
    decreases n,
{
    if n == 0 {
        (p.x as int, p.y as int)
    } else if p.x + step.x > POS_BOUND || p.x + step.x < -POS_BOUND || p.y + step.y > POS_BOUND
        || p.y + step.y < -POS_BOUND {
        (p.x as int, p.y as int)
    } else {
        let nxt = Vector2 { x: (p.x + step.x) as i64, y: (p.y + step.y) as i64 };
        let c = spec_single_collision(p, nxt, radius, ws, we);
        if c.0 > POS_BOUND || c.0 < -POS_BOUND || c.1 > POS_BOUND || c.1 < -POS_BOUND {
            c
        } else {
            spec_multi_collision(
                Vector2 { x: c.0 as i64, y: c.1 as i64 },
                step,
                radius,
                ws,
                we,
                (n - 1) as nat,
            )
        }
    }
}

/// Fixed-point product with a unit-scale factor `d` (a direction or
/// normal component), bounded so it can never overflow.
fn fmul_dir(d: i64, v: i64) -> (r: i64)
    requires
        -0x20000 <= d <= 0x20000,
        -0x400_0000_0000 <= v <= 0x400_0000_0000,
    ensures
        r == sfmul(d as int, v as int),
        -2 * sabs(v as int) - 1 <= r <= 2 * sabs(v as int),
{
    proof {
        let a = sabs(v as int);
        assert(-2 * a * 65536 <= d * v <= 2 * a * 65536) by (nonlinear_arith)
            requires
                -0x20000 <= d <= 0x20000 && a == sabs(v as int),
        ;
        vstd::arithmetic::div_mod::lemma_div_is_ordered(-2 * a * 65536, d as int * v as int, 65536);
        vstd::arithmetic::div_mod::lemma_div_is_ordered(d as int * v as int, 2 * a * 65536, 65536);
        vstd::arithmetic::div_mod::lemma_div_multiples_vanish(-2 * a, 65536);
        vstd::arithmetic::div_mod::lemma_div_multiples_vanish(2 * a, 65536);
        assert(-2 * a * 65536 == 65536 * (-2 * a)) by (nonlinear_arith);
        assert(2 * a * 65536 == 65536 * (2 * a)) by (nonlinear_arith);
    }
    fmul(d, v)
}

/// The wall's fixed-point length: at least each component's magnitude.
pub fn wall_length(wx: i64, wy: i64) -> (r: i64)
    requires
        -0x1_0000_0000 <= wx <= 0x1_0000_0000,
        -0x1_0000_0000 <= wy <= 0x1_0000_0000,
    ensures
        r == flen(wx as int, wy as int),
        r >= if wx < 0 { -(wx as int) } else { wx as int },
        r >= if wy < 0 { -(wy as int) } else { wy as int },
        0 <= r <= 0x2_0000_0000,
{
    proof {
        assert(wx * wx >= 0 && wx * wx <= 0x1_0000_0000_0000_0000 && wy * wy >= 0 && wy * wy
            <= 0x1_0000_0000_0000_0000) by (nonlinear_arith)
            requires
                -0x1_0000_0000 <= wx <= 0x1_0000_0000 && -0x1_0000_0000 <= wy <= 0x1_0000_0000,
        ;
    }
    let sq: u128 = (wx as i128 * wx as i128) as u128 + (wy as i128 * wy as i128) as u128;
    let r = isqrt128(sq);
    proof {
        let ri = r as int;
        let ax = if wx < 0 {
            -(wx as int)
        } else {
            wx as int
        };
        let ay = if wy < 0 {
            -(wy as int)
        } else {
            wy as int
        };
        assert(ri >= ax && ri >= ay && ri <= 0x2_0000_0000) by (nonlinear_arith)
            requires
                ri >= 0,
                (ri + 1) * (ri + 1) > wx * wx + wy * wy,
                ri * ri <= wx * wx + wy * wy,
                (ax == wx || ax == -(wx as int)) && ax >= 0,
                (ay == wy || ay == -(wy as int)) && ay >= 0,
                0 <= ax <= 0x1_0000_0000 && 0 <= ay <= 0x1_0000_0000,
        ;
    }
    r as i64
}

/// One component of the wall's unit direction.
pub fn wall_dir_component(w: i64, len: i64) -> (r: i64)
    requires
        0 < len <= 0x2_0000_0000,
        -len <= w <= len,
    ensures
        r == sfdiv(w as int, len as int),
        -0x10001 <= r <= 0x10000,
{
    proof {
        assert(-65536 * len <= w * 65536 <= 65536 * len) by (nonlinear_arith)
            requires
                -len <= w <= len,
        ;
        assert((-65536 * len) / len as int == -65536 && (65536 * len) / len as int == 65536)
            by (nonlinear_arith)
            requires
                len > 0,
        ;
        vstd::arithmetic::div_mod::lemma_div_is_ordered(
            -65536 * len,
            w as int * 65536,
            len as int,
        );
        vstd::arithmetic::div_mod::lemma_div_is_ordered(w as int * 65536, 65536 * len, len as int);
    }
    fdiv(w, len)
}

/// Classes of movers and obstacles, deciding who collides with whom.
#[derive(Clone, Copy, Debug, PartialEq, Eq, Structural)]
pub enum CollisionClass {
    Player,
    Monster,
    Static,
    Projectile,
    Pickup,
}

impl CollisionClass {
    /// The class an object type belongs to.
    pub fn new(thing_type: ThingType) -> (r: Self)
        ensures
            r == Self::spec_new(thing_type),
    {
        match thing_type {
            ThingType::Player1Start
            | ThingType::Player2Start
            | ThingType::Player3Start
            | ThingType::Player4Start => CollisionClass::Player,
            ThingType::ZombieMan
            | ThingType::ShotgunGuy
            | ThingType::HeavyWeaponDude
            | ThingType::Imp
            | ThingType::Demon
            | ThingType::Spectre
            | ThingType::LostSoul
            | ThingType::Cacodemon
            | ThingType::HellKnight
            | ThingType::BaronOfHell
            | ThingType::Arachnotron
            | ThingType::PainElemental
            | ThingType::Revenant
            | ThingType::Mancubus
            | ThingType::ArchVile
            | ThingType::Cyberdemon
            | ThingType::SpiderDemon => CollisionClass::Monster,
            ThingType::Shotgun
            | ThingType::SuperShotgun
            | ThingType::Chaingun
            | ThingType::RocketLauncher
            | ThingType::PlasmaRifle
            | ThingType::BFG9000
            | ThingType::Shell4
            | ThingType::BulletBox
            | ThingType::RocketBox
            | ThingType::ShellBox
            | ThingType::Clip
            | ThingType::EnergyCell
            | ThingType::EnergyPack => CollisionClass::Pickup,
            _ => CollisionClass::Static,
        }
    }

    /// The class an object type belongs to.
    pub open spec fn spec_new(thing_type: ThingType) -> CollisionClass {
        match thing_type {
            ThingType::Player1Start
            | ThingType::Player2Start
            | ThingType::Player3Start
            | ThingType::Player4Start => CollisionClass::Player,
            ThingType::ZombieMan
            | ThingType::ShotgunGuy
            | ThingType::HeavyWeaponDude
            | ThingType::Imp
            | ThingType::Demon
            | ThingType::Spectre
            | ThingType::LostSoul
            | ThingType::Cacodemon
            | ThingType::HellKnight
            | ThingType::BaronOfHell
            | ThingType::Arachnotron
            | ThingType::PainElemental
            | ThingType::Revenant
            | ThingType::Mancubus
            | ThingType::ArchVile
            | ThingType::Cyberdemon
            | ThingType::SpiderDemon => CollisionClass::Monster,
            ThingType::Shotgun
            | ThingType::SuperShotgun
            | ThingType::Chaingun
            | ThingType::RocketLauncher
            | ThingType::PlasmaRifle
            | ThingType::BFG9000
            | ThingType::Shell4
            | ThingType::BulletBox
            | ThingType::RocketBox
            | ThingType::ShellBox
            | ThingType::Clip
            | ThingType::EnergyCell
            | ThingType::EnergyPack => CollisionClass::Pickup,
            _ => CollisionClass::Static,
        }
    }

    /// Whether a mover of this class collides with one of the other.
    pub fn can_collide_with(&self, other_class: &CollisionClass) -> (r: bool)
        ensures
            r == match (*self, *other_class) {
                (CollisionClass::Player, CollisionClass::Monster) => true,
                (CollisionClass::Player, CollisionClass::Static) => true,
                (CollisionClass::Monster, CollisionClass::Static) => true,
                (CollisionClass::Monster, CollisionClass::Monster) => true,
                _ => false,
            },
    {
        match (*self, *other_class) {
            (CollisionClass::Player, CollisionClass::Monster) => true,
            (CollisionClass::Player, CollisionClass::Static) => true,
            (CollisionClass::Monster, CollisionClass::Static) => true,
            (CollisionClass::Monster, CollisionClass::Monster) => true,
            _ => false,
        }
    }

    /// Whether objects of this class can be shot.
    pub fn is_shootable(&self) -> (r: bool)
        ensures
            r == (*self == CollisionClass::Monster || *self == CollisionClass::Player),
    {
        match *self {
            CollisionClass::Monster | CollisionClass::Player => true,
            _ => false,
        }
    }

    /// Whether objects of this class block movement.
    pub fn blocks_movement(&self) -> (r: bool)
        ensures
            r == (*self == CollisionClass::Monster || *self == CollisionClass::Static || *self
                == CollisionClass::Player),
    {
        match *self {
            CollisionClass::Monster | CollisionClass::Static | CollisionClass::Player => true,
            _ => false,
        }
    }
}

/// The default collision radius of an object type, in world units.
pub fn get_default_radius(thing_type: &ThingType) -> (r: i32)
    ensures
        r == match *thing_type {
            ThingType::Player1Start
            | ThingType::Player2Start
            | ThingType::Player3Start
            | ThingType::Player4Start => 16int,
            ThingType::ZombieMan | ThingType::ShotgunGuy | ThingType::HeavyWeaponDude => 20int,
            ThingType::Imp => 20int,
            ThingType::Demon | ThingType::Spectre => 30int,
            ThingType::Cacodemon => 31int,
            ThingType::LostSoul => 16int,
            ThingType::BaronOfHell => 24int,
            _ => 20int,
        },
{
    match thing_type {
        ThingType::Player1Start
        | ThingType::Player2Start
        | ThingType::Player3Start
        | ThingType::Player4Start => 16,
        ThingType::ZombieMan | ThingType::ShotgunGuy | ThingType::HeavyWeaponDude => 20,
        ThingType::Imp => 20,
        ThingType::Demon | ThingType::Spectre => 30,
        ThingType::Cacodemon => 31,
        ThingType::LostSoul => 16,
        ThingType::BaronOfHell => 24,
        _ => 20,
    }
}

/// Whether a position vector lies within the solver's working range.
pub open spec fn pos_ok(v: Vector2<i64>) -> bool {
    -POS_BOUND <= v.x <= POS_BOUND && -POS_BOUND <= v.y <= POS_BOUND
}

/// Whether a wall endpoint lies within the vertex range.
pub open spec fn wall_ok(v: Vector2<i64>) -> bool {
    -WALL_BOUND <= v.x <= WALL_BOUND && -WALL_BOUND <= v.y <= WALL_BOUND
}

/// The collision resolver.
pub struct CollisionSolver {}

impl CollisionSolver {
    /// A resolver; it holds no state of its own.
    pub fn new() -> Self {
        CollisionSolver {  }
    }

    /// One collision pass of the attempted move from `position` to
    /// `newposition` against the wall from `wall_start` to `wall_end`.
    #[verifier::rlimit(60)]
    pub fn single_collision_check(
        &self,
        position: &Vector2<i64>,
        newposition: &Vector2<i64>,
        radius: i64,
        wall_start: &Vector2<i64>,
        wall_end: &Vector2<i64>,
    ) -> (r: Vector2<i64>)
        requires
            pos_ok(*position),
            pos_ok(*newposition),
            wall_ok(*wall_start),
            wall_ok(*wall_end),
            0 <= radius <= WALL_BOUND,
        ensures
            r.x == spec_single_collision(
                *position,
                *newposition,
                radius,
                *wall_start,
                *wall_end,
            ).0,
            r.y == spec_single_collision(
                *position,
                *newposition,
                radius,
                *wall_start,
                *wall_end,
            ).1,
    {
        let mx = newposition.x - position.x;
        let my = newposition.y - position.y;
        let wx = wall_end.x - wall_start.x;
        let wy = wall_end.y - wall_start.y;
        let len = wall_length(wx, wy);
        if len == 0 {
            return *newposition;
        }
        let dx = wall_dir_component(wx, len);
        let dy = wall_dir_component(wy, len);
        // The wall's left-hand normal: the side a one-sided wall faces.
        let nx = -dy;
        let ny = dx;
        let tx = position.x - wall_start.x;
        let ty = position.y - wall_start.y;
        let perp = fmul_dir(nx, tx) + fmul_dir(ny, ty);
        proof {
            assert(sfmul(nx as int, tx as int) == sfmul(tx as int, nx as int) && sfmul(
                ny as int,
                ty as int,
            ) == sfmul(ty as int, ny as int)) by (nonlinear_arith);
        }
        let perp_abs = if perp < 0 {
            -perp
        } else {
            perp
        };
        if perp_abs > radius + 65536 {
            return *newposition;
        }
        let along = fmul_dir(dx, tx) + fmul_dir(dy, ty);
        proof {
            assert(sfmul(dx as int, tx as int) == sfmul(tx as int, dx as int) && sfmul(
                dy as int,
                ty as int,
            ) == sfmul(ty as int, dy as int)) by (nonlinear_arith);
        }
        if along < -radius || along > len + radius {
            return *newposition;
        }
        let toward = fmul_dir(nx, mx) + fmul_dir(ny, my);
        proof {
            assert(sfmul(nx as int, mx as int) == sfmul(mx as int, nx as int) && sfmul(
                ny as int,
                my as int,
            ) == sfmul(my as int, ny as int)) by (nonlinear_arith);
        }
        if toward >= 0 {
            return *newposition;
        }
        let min_sep = radius + SEPARATION_BUFFER;
        let pdot = fmul_dir(dx, mx) + fmul_dir(dy, my);
        proof {
            assert(sfmul(dx as int, mx as int) == sfmul(mx as int, dx as int) && sfmul(
                dy as int,
                my as int,
            ) == sfmul(my as int, dy as int)) by (nonlinear_arith);
        }
        let par_x = fmul_dir(dx, pdot);
        let par_y = fmul_dir(dy, pdot);
        if perp_abs < min_sep {
            let k = if perp < 0 {
                perp_abs - min_sep
            } else {
                min_sep - perp
            };
            let push_x = fmul_dir(nx, k);
            let push_y = fmul_dir(ny, k);
            Vector2 { x: position.x + push_x + par_x, y: position.y + push_y + par_y }
        } else {
            Vector2 { x: position.x + par_x, y: position.y + par_y }
        }
    }

    /// Resolves the move from `position` to `newposition` against the
    /// wall of `line`; an attempted displacement longer than the radius
    /// is split into equal sub-steps resolved in sequence, so a fast
    /// mover cannot pass through the wall between two checks.  The
    /// radius must be at least one world unit: the sub-step count is
    /// the displacement over the radius, so a vanishing radius would
    /// ask for unboundedly many steps.
    pub fn try_move(
        &self,
        position: &Vector2<i64>,
        newposition: &Vector2<i64>,
        radius: i64,
        map: &LevelMap,
        line: &LineDef,
    ) -> (r: Vector2<i64>)
        requires
            pos_ok(*position),
            pos_ok(*newposition),
            65536 <= radius <= WALL_BOUND,
            newposition.x - position.x <= WALL_BOUND,
            newposition.x - position.x >= -WALL_BOUND,
            newposition.y - position.y <= WALL_BOUND,
            newposition.y - position.y >= -WALL_BOUND,
            line.ids_ok(*map),
        ensures
            ({
                let ws = spec_vertex_fixed(map.vertices@[line.start_vertex_id as int]);
                let we = spec_vertex_fixed(map.vertices@[line.end_vertex_id as int]);
                r.x == spec_try_move(*position, *newposition, radius, ws, we).0 && r.y
                    == spec_try_move(*position, *newposition, radius, ws, we).1
            }),
    {
        let vx = newposition.x - position.x;
        let vy = newposition.y - position.y;
        let wall_start = vertex_fixed(map.vertices[line.start_vertex_id as usize]);
        let wall_end = vertex_fixed(map.vertices[line.end_vertex_id as usize]);
        let vlen = wall_length(vx, vy);
        if vlen <= radius {
            return self.single_collision_check(
                position,
                newposition,
                radius,
                &wall_start,
                &wall_end,
            );
        }
        // ceil(vlen / radius) equal sub-steps
        let steps: i64 = (vlen + radius - 1) / radius;
        proof {
            assert(steps >= 1) by (nonlinear_arith)
                requires
                    steps == (vlen + radius - 1) / radius as int && vlen > radius && radius >= 1,
            ;
        }
        proof {
            vstd::arithmetic::div_mod::lemma_fundamental_div_mod(vx as int, steps as int);
            vstd::arithmetic::div_mod::lemma_mod_bound(vx as int, steps as int);
            vstd::arithmetic::div_mod::lemma_fundamental_div_mod(vy as int, steps as int);
            vstd::arithmetic::div_mod::lemma_mod_bound(vy as int, steps as int);
            assert(-0x8000_0000 <= vx as int / steps as int <= 0x8000_0000 && -0x8000_0000
                <= vy as int / steps as int <= 0x8000_0000) by (nonlinear_arith)
                requires
                    vx == steps * (vx as int / steps as int) + (vx as int % (steps as int)),
                    vy == steps * (vy as int / steps as int) + (vy as int % (steps as int)),
                    0 <= (vx as int % (steps as int)) < steps,
                    0 <= (vy as int % (steps as int)) < steps,
                    steps >= 1,
                    -0x8000_0000 <= vx <= 0x8000_0000,
                    -0x8000_0000 <= vy <= 0x8000_0000,
            ;
        }
        let step_x = floor_div(vx as i128, steps as i128) as i64;
        let step_y = floor_div(vy as i128, steps as i128) as i64;
        let step = Vector2 { x: step_x, y: step_y };
        let mut current = *position;
        let mut k: i64 = 0;
        while k < steps
            invariant
                0 <= k <= steps,
                pos_ok(current),
                line.ids_ok(*map),
                wall_start == spec_vertex_fixed(map.vertices@[line.start_vertex_id as int]),
                wall_end == spec_vertex_fixed(map.vertices@[line.end_vertex_id as int]),
                flen(newposition.x - position.x, newposition.y - position.y) > radius,
                steps == (flen(newposition.x - position.x, newposition.y - position.y) + radius
                    - 1) / radius as int,
                step.x == (newposition.x - position.x) as int / steps as int,
                step.y == (newposition.y - position.y) as int / steps as int,
                steps >= 1,
                spec_multi_collision(current, step, radius, wall_start, wall_end, (steps
                    - k) as nat) == spec_multi_collision(
                    *position,
                    step,
                    radius,
                    wall_start,
                    wall_end,
                    steps as nat,
                ),
                wall_ok(wall_start),
                wall_ok(wall_end),
                -WALL_BOUND <= step.x <= WALL_BOUND,
                -WALL_BOUND <= step.y <= WALL_BOUND,
                65536 <= radius <= WALL_BOUND,
            decreases steps - k,
        {
            let ghost n = (steps - k) as nat;
            let nxt_x = current.x + step.x;
            let nxt_y = current.y + step.y;
            if nxt_x > POS_BOUND || nxt_x < -POS_BOUND || nxt_y > POS_BOUND || nxt_y < -POS_BOUND {
                proof {
                    assert(spec_multi_collision(current, step, radius, wall_start, wall_end, n)
                        == (current.x as int, current.y as int));
                }
                return current;
            }
            let nxt = Vector2 { x: nxt_x, y: nxt_y };
            let c = self.single_collision_check(&current, &nxt, radius, &wall_start, &wall_end);
            proof {
                assert(spec_multi_collision(current, step, radius, wall_start, wall_end, n)
                    == if spec_single_collision(current, nxt, radius, wall_start, wall_end).0
                        > POS_BOUND || spec_single_collision(
                        current,
                        nxt,
                        radius,
                        wall_start,
                        wall_end,
                    ).0 < -POS_BOUND || spec_single_collision(
                        current,
                        nxt,
                        radius,
                        wall_start,
                        wall_end,
                    ).1 > POS_BOUND || spec_single_collision(
                        current,
                        nxt,
                        radius,
                        wall_start,
                        wall_end,
                    ).1 < -POS_BOUND {
                        spec_single_collision(current, nxt, radius, wall_start, wall_end)
                    } else {
                        spec_multi_collision(
                            Vector2 { x: c.x, y: c.y },
                            step,
                            radius,
                            wall_start,
                            wall_end,
                            (n - 1) as nat,
                        )
                    });
            }
            if c.x > POS_BOUND || c.x < -POS_BOUND || c.y > POS_BOUND || c.y < -POS_BOUND {
                return c;
            }
            proof {
                assert(Vector2 { x: c.x, y: c.y } == c);
            }
            current = c;
            k += 1;
        }
        proof {
            assert(spec_multi_collision(current, step, radius, wall_start, wall_end, 0) == (
            current.x as int,
            current.y as int,
            ));
        }
        current
    }
}

/// Whether a line of the given flags blocks a mover of the given class.
pub open spec fn spec_blocks(class: CollisionClass, line: LineDef) -> bool {
    match class {
        CollisionClass::Player => line.flag & 1 != 0,
        CollisionClass::Monster => (line.flag & 1 != 0) || (line.flag & 2 != 0),
        _ => false,
    }
}

/// Whether `try_move` may be applied from `op` toward `target`.
pub open spec fn move_in_range(op: Vector2<i64>, target: Vector2<i64>) -> bool {
    &&& pos_ok(target)
    &&& -WALL_BOUND <= target.x - op.x <= WALL_BOUND
    &&& -WALL_BOUND <= target.y - op.y <= WALL_BOUND
}

/// The whole-unit grid coordinate the blockmap is queried at: the
/// fixed-point coordinate cut to whole units toward zero, held inside
/// the 16-bit world.
pub open spec fn spec_query_coord(v: int) -> int {
    let q = if v >= 0 {
        v / 65536
    } else {
        -((-v) / 65536)
    };
    if q > 32767 {
        32767
    } else if q < -32768 {
        -32768
    } else {
        q
    }
}

/// The running target after each blocking line's correction is applied
/// in sequence, always sweeping from the same old position.
pub open spec fn spec_update_fold(
    m: LevelMap,
    op: Vector2<i64>,
    target: Vector2<i64>,
    radius: i64,
    class: CollisionClass,
    lines: Seq<u16>,
) -> Vector2<i64>
    decreases lines.len(),
{
    if lines.len() == 0 {
        target
    } else {
        let id = lines[0];
        let next = if id < m.line_defs@.len() {
            let line = m.line_defs@[id as int];
            if spec_blocks(class, line) && move_in_range(op, target) {
                let ws = spec_vertex_fixed(m.vertices@[line.start_vertex_id as int]);
                let we = spec_vertex_fixed(m.vertices@[line.end_vertex_id as int]);
                let c = spec_try_move(op, target, radius, ws, we);
                Vector2 { x: c.0 as i64, y: c.1 as i64 }
            } else {
                target
            }
        } else {
            target
        };
        spec_update_fold(m, op, next, radius, class, lines.drop_first())
    }
}

impl CollisionSolver {
    /// One tick of collision resolution for one mover: every line listed
    /// in the blockmap cells around the mover is applied in sequence to
    /// the attempted position, each correction sweeping from the old
    /// position.  A map without a blockmap leaves the attempt unchanged.
    pub fn update(
        &self,
        map: &LevelMap,
        class: CollisionClass,
        size: u16,
        old_position: &Vector2<i64>,
        new_position: &Vector2<i64>,
    ) -> (r: Vector2<i64>)
        requires
            map.wf(),
            pos_ok(*old_position),
            pos_ok(*new_position),
            1 <= size <= 0x7fff,
        ensures
            match map.blockmaps {
                None => r == *new_position,
                Some(bm) => r == spec_update_fold(
                    *map,
                    *old_position,
                    *new_position,
                    (size as i64 * 65536) as i64,
                    class,
                    bm.spec_radius_lists(
                        spec_query_coord(new_position.x as int),
                        spec_query_coord(new_position.y as int),
                        size as int,
                    ),
                ),
            },
    {
        let bm = match &map.blockmaps {
            Some(bm) => bm,
            None => {
                return *new_position;
            },
        };
        let radius: i64 = (size as i64) * 65536;
        let px64 = new_position.x / 65536;
        let py64 = new_position.y / 65536;
        let px: i16 = if px64 > 32767 {
            32767
        } else if px64 < -32768 {
            -32768
        } else {
            px64 as i16
        };
        let py: i16 = if py64 > 32767 {
            32767
        } else if py64 < -32768 {
            -32768
        } else {
            py64 as i16
        };
        proof {
            assert(px == spec_query_coord(new_position.x as int));
            assert(py == spec_query_coord(new_position.y as int));
        }
        let ids = bm.get_with_radius(px, py, size);
        let mut target = *new_position;
        let mut i: usize = 0;
        proof {
            assert(ids@.skip(0) =~= ids@);
        }
        while i < ids.len()
            invariant
                map.wf(),
                map.blockmaps matches Some(b) && b == bm,
                pos_ok(*old_position),
                65536 <= radius <= 0x7fff_0000,
                ids@ == bm.spec_radius_lists(
                    spec_query_coord(new_position.x as int),
                    spec_query_coord(new_position.y as int),
                    size as int,
                ),
                i <= ids@.len(),
                spec_update_fold(*map, *old_position, target, radius, class, ids@.skip(i as int))
                    == spec_update_fold(
                    *map,
                    *old_position,
                    *new_position,
                    radius,
                    class,
                    ids@,
                ),
            decreases ids@.len() - i,
        {
            let ghost rest = ids@.skip(i as int);
            let id = ids[i];
            proof {
                assert(rest[0] == id);
                assert(rest.drop_first() =~= ids@.skip(i + 1));
            }
            if (id as usize) < map.line_defs.len() {
                let line = &map.line_defs[id as usize];
                proof {
                    assert(map.line_defs@[id as int].ids_ok(*map));
                }
                let blocks = match class {
                    CollisionClass::Player => line.has_flag(LineDefFlags::Blocking),
                    CollisionClass::Monster => line.has_flag(LineDefFlags::Blocking)
                        || line.has_flag(LineDefFlags::BlockMonsters),
                    _ => false,
                };
                let dx_ok = target.x >= -POS_BOUND && target.x <= POS_BOUND && target.y
                    >= -POS_BOUND && target.y <= POS_BOUND && target.x - old_position.x
                    <= WALL_BOUND && target.x - old_position.x >= -WALL_BOUND && target.y
                    - old_position.y <= WALL_BOUND && target.y - old_position.y >= -WALL_BOUND;
                if blocks && dx_ok {
                    target = self.try_move(old_position, &target, radius, map, line);
                }
            }
            i += 1;
        }
        proof {
            assert(ids@.skip(ids@.len() as int) =~= Seq::<u16>::empty());
        }
        target
    }
}

/// A map vertex scaled to fixed point.
pub open spec fn spec_vertex_fixed(v: Vector2<i16>) -> Vector2<i64> {
    Vector2 { x: (v.x * 65536) as i64, y: (v.y * 65536) as i64 }
}

/// A map vertex scaled to fixed point.
pub fn vertex_fixed(v: Vector2<i16>) -> (r: Vector2<i64>)
    ensures
        r == spec_vertex_fixed(v),
        wall_ok(r),
{
    Vector2 { x: (v.x as i64) * 65536, y: (v.y as i64) * 65536 }
}

/// The wall's fixed-point length.
pub open spec fn wall_len_of(ws: Vector2<i64>, we: Vector2<i64>) -> int {
    flen(we.x - ws.x, we.y - ws.y)
}

/// The mover's signed distance to the wall's infinite line, along the
/// wall's left-hand normal (positive on the side a one-sided wall
/// faces).
pub open spec fn perp_dist(p: Vector2<i64>, ws: Vector2<i64>, we: Vector2<i64>) -> int {
    let len = wall_len_of(ws, we);
    let nx = -sfdiv(we.y - ws.y, len);
    let ny = sfdiv(we.x - ws.x, len);
    sfmul(p.x - ws.x, nx) + sfmul(p.y - ws.y, ny)
}

/// The mover's position projected onto the wall's direction.
pub open spec fn along_dist(p: Vector2<i64>, ws: Vector2<i64>, we: Vector2<i64>) -> int {
    let len = wall_len_of(ws, we);
    let dx = sfdiv(we.x - ws.x, len);
    let dy = sfdiv(we.y - ws.y, len);
    sfmul(p.x - ws.x, dx) + sfmul(p.y - ws.y, dy)
}

/// The attempted displacement's component into the wall.
pub open spec fn move_toward(
    p: Vector2<i64>,
    np: Vector2<i64>,
    ws: Vector2<i64>,
    we: Vector2<i64>,
) -> int {
    let len = wall_len_of(ws, we);
    let nx = -sfdiv(we.y - ws.y, len);
    let ny = sfdiv(we.x - ws.x, len);
    sfmul(np.x - p.x, nx) + sfmul(np.y - p.y, ny)
}

/// The attempted displacement's component along the wall.
pub open spec fn move_along(
    p: Vector2<i64>,
    np: Vector2<i64>,
    ws: Vector2<i64>,
    we: Vector2<i64>,
) -> int {
    let len = wall_len_of(ws, we);
    let dx = sfdiv(we.x - ws.x, len);
    let dy = sfdiv(we.y - ws.y, len);
    sfmul(np.x - p.x, dx) + sfmul(np.y - p.y, dy)
}

/// Stability of the wall response: a mover standing at least the minimum
/// separation from the wall, pressing straight into it (no component
/// along the wall), is held exactly in place.  Resolving the same input
/// again therefore returns the same position every tick: the mover
/// neither oscillates nor sinks into the wall.
pub proof fn lemma_collision_stability(
    p: Vector2<i64>,
    np: Vector2<i64>,
    radius: i64,
    ws: Vector2<i64>,
    we: Vector2<i64>,
)
    requires
        0 <= radius,
        wall_len_of(ws, we) != 0,
        sabs(perp_dist(p, ws, we)) <= radius + 65536,
        -radius <= along_dist(p, ws, we) <= wall_len_of(ws, we) + radius,
        move_toward(p, np, ws, we) < 0,
        move_along(p, np, ws, we) == 0,
        radius + SEPARATION_BUFFER <= sabs(perp_dist(p, ws, we)),
    ensures
        spec_single_collision(p, np, radius, ws, we) == (p.x as int, p.y as int),
{
    let len = wall_len_of(ws, we);
    let dx = sfdiv(we.x - ws.x, len);
    let dy = sfdiv(we.y - ws.y, len);
    assert(sfmul(dx, 0) == 0);
    assert(sfmul(dy, 0) == 0);
}

} // verus!
