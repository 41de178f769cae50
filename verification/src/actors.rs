//! The moving viewpoint: its transform, and the player that drives it
//! from control input, one simulation tick at a time.
//!
//! Input arrives as plain held-key flags; real devices are polled by the
//! embedding program, which hands the flags over each tick.

use vstd::prelude::*;
use crate::bsp::BSP;
use crate::collision::CollisionClass;
use crate::map::{LevelMap, Thing};
use crate::math::{cos_fixed, normalize_degrees, sin_fixed, Vector2, TURN};
use crate::types::ThingType;

verus! {

/// A viewpoint's placement: fixed-point position, facing angle in
/// [0, 360) fixed-point degrees, and height above the map origin.
#[derive(Clone, Copy, Debug, PartialEq, Eq, Structural)]
pub struct Transform {
    pub position: Vector2<i64>,
    pub angle: i64,
    pub height: i64,
}

impl Transform {
    /// The transform at the origin.
    pub fn new() -> (r: Transform)
        ensures
            r.position == (Vector2 { x: 0i64, y: 0i64 }),
            r.angle == 0,
            r.height == 0,
    {
        Transform { position: Vector2 { x: 0, y: 0 }, angle: 0, height: 0 }
    }

    /// A transform from its parts.
    pub fn set(position: Vector2<i64>, angle: i64, height: i64) -> (r: Transform)
        ensures
            r.position == position,
            r.angle == angle,
            r.height == height,
    {
        Transform { position, angle, height }
    }

    /// The position.
    pub fn position(&self) -> (r: Vector2<i64>)
        ensures
            r == self.position,
    {
        self.position
    }

    /// The facing angle.
    pub fn angle(&self) -> (r: i64)
        ensures
            r == self.angle,
    {
        self.angle
    }

    /// The height.
    pub fn height(&self) -> (r: i64)
        ensures
            r == self.height,
    {
        self.height
    }

    /// The position on the whole-unit grid, for map queries.
    pub fn position_as_int(&self) -> (r: Vector2<i16>)
        requires
            -0x7fff_0000 <= self.position.x <= 0x7fff_0000,
            -0x7fff_0000 <= self.position.y <= 0x7fff_0000,
        ensures
            r.x == (self.position.x + 32768) / 65536,
            r.y == (self.position.y + 32768) / 65536,
    {
        let rx = crate::fixed::floor_div((self.position.x + 32768) as i128, 65536) as i64;
        let ry = crate::fixed::floor_div((self.position.y + 32768) as i128, 65536) as i64;
        proof {
            crate::fixed::lemma_div_shrinks(self.position.x + 32768, 65536, 0x8000_0000);
            crate::fixed::lemma_div_shrinks(self.position.y + 32768, 65536, 0x8000_0000);
            assert(((self.position.x + 32768) as i128) as int == self.position.x + 32768);
            assert(((self.position.y + 32768) as i128) as int == self.position.y + 32768);
            crate::fixed::lemma_div_bounded(self.position.x + 32768, 65536, 0x7fff_8000);
            crate::fixed::lemma_div_bounded(self.position.y + 32768, 65536, 0x7fff_8000);
            vstd::arithmetic::div_mod::lemma_div_is_ordered(
                self.position.x + 32768,
                0x7fff_8000,
                65536,
            );
            vstd::arithmetic::div_mod::lemma_div_is_ordered(
                -0x7fff_8000,
                self.position.x + 32768,
                65536,
            );
            vstd::arithmetic::div_mod::lemma_div_is_ordered(
                self.position.y + 32768,
                0x7fff_8000,
                65536,
            );
            vstd::arithmetic::div_mod::lemma_div_is_ordered(
                -0x7fff_8000,
                self.position.y + 32768,
                65536,
            );
            vstd::arithmetic::div_mod::lemma_div_multiples_vanish(0x7fff, 65536);
            vstd::arithmetic::div_mod::lemma_div_multiples_vanish(-0x8000, 65536);
            assert(0x7fff_8000int == 65536 * 0x7fff + 32768);
            vstd::arithmetic::div_mod::lemma_div_is_ordered(
                self.position.x + 32768,
                65536int * 0x8000,
                65536,
            );
            vstd::arithmetic::div_mod::lemma_div_is_ordered(
                self.position.y + 32768,
                65536int * 0x8000,
                65536,
            );
            vstd::arithmetic::div_mod::lemma_div_multiples_vanish(0x8000, 65536);
        }
        Vector2 { x: rx as i16, y: ry as i16 }
    }

    /// The facing angle in whole degrees.
    pub fn angle_as_int(&self) -> (r: i16)
        requires
            0 <= self.angle < TURN,
        ensures
            r == (self.angle + 32768) / 65536,
    {
        let a = (self.angle + 32768) / 65536;
        a as i16
    }

    /// The height in whole units.
    pub fn height_as_int(&self) -> (r: i16)
        requires
            -0x7fff_0000 <= self.height <= 0x7fff_0000,
        ensures
            r == (self.height + 32768) / 65536,
    {
        let rh = crate::fixed::floor_div((self.height + 32768) as i128, 65536) as i64;
        proof {
            crate::fixed::lemma_div_shrinks(self.height + 32768, 65536, 0x8000_0000);
            assert(((self.height + 32768) as i128) as int == self.height + 32768);
            vstd::arithmetic::div_mod::lemma_div_is_ordered(
                self.height + 32768,
                65536int * 0x8000,
                65536,
            );
            vstd::arithmetic::div_mod::lemma_div_is_ordered(
                65536int * (-0x8000),
                self.height + 32768,
                65536,
            );
            vstd::arithmetic::div_mod::lemma_div_multiples_vanish(0x8000, 65536);
            vstd::arithmetic::div_mod::lemma_div_multiples_vanish(-0x8000, 65536);
        }
        rh as i16
    }
}

/// The held controls of one tick.
#[derive(Clone, Copy, Debug, PartialEq, Eq, Structural)]
pub struct ControlInput {
    pub forward: bool,
    pub backward: bool,
    pub strafe_left: bool,
    pub strafe_right: bool,
    pub turn_left: bool,
    pub turn_right: bool,
    pub jump: bool,
}

/// The player: a viewpoint with movement rates, driven by control
/// input and held to the floor by the partition tree.
pub struct Player {
    pub type_id: u16,
    pub thing_type: ThingType,
    pub collision_class: CollisionClass,
    pub flags: u16,
    pub transform: Transform,
    pub last_transform: Transform,
    pub size: i64,
    pub eye_height: i64,
    pub speed: i64,
    pub angle_speed: i64,
    pub jump: i64,
    pub jump_speed: i64,
    pub control_direction: Vector2<i64>,
    pub control_angle: i64,
    pub player_jump: i64,
    pub player_jump_lock: bool,
}

impl Player {
    /// A player standing on a placed object, facing its angle.
    pub fn new(thing: &Thing, configure: &crate::configure::Configure) -> (r: Player)
        ensures
            r.transform.position.x == thing.position.x as int * 65536,
            r.transform.position.y == thing.position.y as int * 65536,
            r.transform.angle == crate::math::spec_normalize_degrees(thing.angle as int * 65536),
            r.type_id == thing.type_id,
            r.thing_type == ThingType::spec_from_id(thing.type_id),
            r.collision_class == CollisionClass::spec_new(ThingType::spec_from_id(thing.type_id)),
            r.last_transform == r.transform,
    {
        let transform = Transform {
            position: Vector2 {
                x: (thing.position.x as i64) * 65536,
                y: (thing.position.y as i64) * 65536,
            },
            angle: normalize_degrees((thing.angle as i64) * 65536),
            height: configure.player.height,
        };
        let thing_type = ThingType::from_id(thing.type_id);
        Player {
            type_id: thing.type_id,
            thing_type,
            collision_class: CollisionClass::new(thing_type),
            flags: thing.flags,
            transform,
            last_transform: transform,
            size: configure.player.size,
            eye_height: configure.player.height,
            speed: configure.player.speed,
            angle_speed: configure.player.angle_speed,
            jump: configure.player.jump,
            jump_speed: configure.player.jump_speed,
            control_direction: Vector2 { x: 0, y: 0 },
            control_angle: 0,
            player_jump: 0,
            player_jump_lock: false,
        }
    }

    /// Reads one tick of held controls into the pending movement
    /// intent: a unit direction per axis and a turn sign.
    pub fn control(&mut self, input: &ControlInput)
        ensures
            final(self).control_direction.x == (if input.strafe_right && !input.strafe_left {
                1int
            } else if input.strafe_left && !input.strafe_right {
                -1int
            } else {
                0int
            }),
            final(self).control_direction.y == (if input.forward && !input.backward {
                1int
            } else if input.backward && !input.forward {
                -1int
            } else {
                0int
            }),
            final(self).control_angle == (if input.turn_left && !input.turn_right {
                1int
            } else if input.turn_right && !input.turn_left {
                -1int
            } else {
                0int
            }),
            final(self).transform == old(self).transform,
            final(self).last_transform == old(self).last_transform,
    {
        let dx: i64 = if input.strafe_right && !input.strafe_left {
            1
        } else if input.strafe_left && !input.strafe_right {
            -1
        } else {
            0
        };
        let dy: i64 = if input.forward && !input.backward {
            1
        } else if input.backward && !input.forward {
            -1
        } else {
            0
        };
        let da: i64 = if input.turn_left && !input.turn_right {
            1
        } else if input.turn_right && !input.turn_left {
            -1
        } else {
            0
        };
        self.control_direction = Vector2 { x: dx, y: dy };
        self.control_angle = da;
        if input.jump && self.player_jump < self.jump && !self.player_jump_lock {
            if self.player_jump <= 0x4000_0000_0000 && self.jump_speed >= 0 && self.jump_speed
                <= 0x4000_0000_0000 {
                self.player_jump = self.player_jump + self.jump_speed / 32;
            }
        } else if self.player_jump != 0 {
            self.player_jump_lock = true;
        }
    }

    /// One simulation tick: turn by the pending turn sign, walk the
    /// pending direction rotated into the facing frame, and stand at
    /// the floor under the new position plus the eye height.
    pub fn update(&mut self, map: &LevelMap, bsp: &BSP, last_frame_time: i64)
        requires
            map.wf(),
            bsp.root_id < map.nodes@.len(),
            0 <= last_frame_time <= 65536,
            0 <= old(self).transform.angle < TURN,
            -0x4000_0000 <= old(self).transform.position.x <= 0x4000_0000,
            -0x4000_0000 <= old(self).transform.position.y <= 0x4000_0000,
            0 <= old(self).speed <= 0x1000_0000,
            0 <= old(self).angle_speed <= 0x1000_0000,
            -0x1000_0000 <= old(self).eye_height <= 0x1000_0000,
            0 <= old(self).player_jump <= 0x1000_0000_0000,
            -1 <= old(self).control_angle <= 1,
            -1 <= old(self).control_direction.x <= 1,
            -1 <= old(self).control_direction.y <= 1,
        ensures
            final(self).last_transform == old(self).transform,
            0 <= final(self).transform.angle < TURN,
            final(self).transform.angle == crate::math::spec_normalize_degrees(
                old(self).transform.angle + old(self).control_angle * ((old(self).angle_speed
                    * last_frame_time) / 65536),
            ),
            final(self).control_angle == 0,
            final(self).control_direction == (Vector2 { x: 0i64, y: 0i64 }),
            // The walk: the pending direction is rotated into the new
            // facing frame and scaled by speed and frame time.
            ({
                let dir = old(self).control_direction;
                let ma = crate::math::spec_normalize_degrees(
                    final(self).transform.angle - 90 * 65536,
                );
                let psin = crate::math::spec_sin(ma);
                let pcos = crate::math::spec_cos(ma);
                let step = (old(self).speed * last_frame_time) / 65536;
                if dir.x == 0 && dir.y == 0 {
                    final(self).transform.position == old(self).transform.position
                } else {
                    final(self).transform.position.x == old(self).transform.position.x
                        + ((dir.x * pcos - dir.y * psin) * step) / 65536
                        && final(self).transform.position.y == old(self).transform.position.y
                        + ((dir.x * psin + dir.y * pcos) * step) / 65536
                }
            }),
            // The jump unwinds toward the ground while locked.
            final(self).player_jump == (if old(self).player_jump_lock {
                let fall = ((if old(self).jump_speed < 0 {
                    0int
                } else if old(self).jump_speed > 0x1000_0000 {
                    0x1000_0000int
                } else {
                    old(self).jump_speed as int
                }) * last_frame_time) / 65536;
                if 0 <= fall <= old(self).player_jump {
                    old(self).player_jump - fall
                } else {
                    0int
                }
            } else {
                old(self).player_jump as int
            }),
            // The viewpoint stands on the floor under the new position,
            // the eye height and the jump above it.
            final(self).transform.height == crate::bsp::spec_floor_height(
                *map,
                Vector2 {
                    x: crate::collision::spec_query_coord(
                        final(self).transform.position.x as int,
                    ) as i16,
                    y: crate::collision::spec_query_coord(
                        final(self).transform.position.y as int,
                    ) as i16,
                },
                bsp.root_id,
            ) as int * 65536 + old(self).eye_height + final(self).player_jump,
    {
        self.last_transform = self.transform;
        // Turn.
        proof {
            assert(0 <= self.angle_speed * last_frame_time <= 65536 * 0x1000_0000)
                by (nonlinear_arith)
                requires
                    0 <= self.angle_speed <= 0x1000_0000 && 0 <= last_frame_time <= 65536,
            ;
            crate::fixed::lemma_div_shrinks(
                self.angle_speed as int * last_frame_time,
                65536,
                0x1000_0000,
            );
        }
        let turn_step = crate::fixed::fmul(self.angle_speed, last_frame_time);
        let turn: i64 = if self.control_angle > 0 {
            turn_step
        } else if self.control_angle < 0 {
            -turn_step
        } else {
            0
        };
        proof {
            assert(turn == self.control_angle * turn_step) by (nonlinear_arith)
                requires
                    -1 <= self.control_angle <= 1 && (self.control_angle > 0 ==> turn == turn_step)
                        && (self.control_angle < 0 ==> turn == -turn_step) && (self.control_angle
                        == 0 ==> turn == 0),
            ;
        }
        self.transform.angle = normalize_degrees(self.transform.angle + turn);
        self.control_angle = 0;
        // Walk: the intent is rotated so that forward follows the
        // facing angle.
        let dir = self.control_direction;
        self.control_direction = Vector2 { x: 0, y: 0 };
        if dir.x != 0 || dir.y != 0 {
            let move_angle = normalize_degrees(self.transform.angle - 90 * 65536);
            let psin = sin_fixed(move_angle);
            let pcos = cos_fixed(move_angle);
            proof {
                assert(-65536 <= dir.x * pcos <= 65536 && -65536 <= dir.y * psin <= 65536
                    && -65536 <= dir.x * psin <= 65536 && -65536 <= dir.y * pcos <= 65536)
                    by (nonlinear_arith)
                    requires
                        -1 <= dir.x <= 1 && -1 <= dir.y <= 1 && -65536 <= psin <= 65536 && -65536
                            <= pcos <= 65536,
                ;
            }
            let vx = dir.x * pcos - dir.y * psin;
            let vy = dir.x * psin + dir.y * pcos;
            proof {
                assert(0 <= self.speed * last_frame_time <= 65536 * 0x1000_0000)
                    by (nonlinear_arith)
                    requires
                        0 <= self.speed <= 0x1000_0000 && 0 <= last_frame_time <= 65536,
                ;
                crate::fixed::lemma_div_shrinks(
                    self.speed as int * last_frame_time,
                    65536,
                    0x1000_0000,
                );
            }
            let step = crate::fixed::fmul(self.speed, last_frame_time);
            proof {
                assert(-65536 * 0x4000_0000_0000 <= vx * step <= 65536 * 0x4000_0000_0000
                    && -65536 * 0x4000_0000_0000 <= vy * step <= 65536 * 0x4000_0000_0000)
                    by (nonlinear_arith)
                    requires
                        -0x2_0000 <= vx <= 0x2_0000 && -0x2_0000 <= vy <= 0x2_0000 && 0 <= step
                            <= 0x1000_0000,
                ;
                crate::fixed::lemma_div_shrinks(vx as int * step, 65536, 0x4000_0000_0000);
                crate::fixed::lemma_div_shrinks(vy as int * step, 65536, 0x4000_0000_0000);
            }
            let dx = crate::fixed::fmul(vx, step);
            let dy = crate::fixed::fmul(vy, step);
            self.transform.position = Vector2 {
                x: self.transform.position.x + dx,
                y: self.transform.position.y + dy,
            };
        }
        // Fall back toward the ground while the jump unwinds.
        if self.player_jump_lock {
            let js = crate::math::clamp(self.jump_speed, 0, 0x1000_0000);
            proof {
                assert(0 <= js * last_frame_time <= 65536 * 0x1000_0000) by (nonlinear_arith)
                    requires
                        0 <= js <= 0x1000_0000 && 0 <= last_frame_time <= 65536,
                ;
                crate::fixed::lemma_div_shrinks(js as int * last_frame_time, 65536, 0x1000_0000);
            }
            let fall = crate::fixed::fmul(js, last_frame_time);
            if fall >= 0 && fall <= self.player_jump {
                self.player_jump = self.player_jump - fall;
            } else {
                self.player_jump = 0;
            }
            if self.player_jump == 0 {
                self.player_jump_lock = false;
            }
        }
        // Stand on the floor under the new position.
        let cell = Vector2 {
            x: crate::math::clamp(self.transform.position.x / 65536, -32768, 32767) as i16,
            y: crate::math::clamp(self.transform.position.y / 65536, -32768, 32767) as i16,
        };
        let floor = bsp.floor_height(map, &cell);
        self.transform.height = (floor as i64) * 65536 + self.eye_height + crate::math::clamp(
            self.player_jump,
            0,
            0x1000_0000_0000,
        );
    }

    /// The player's object identifier.
    pub fn get_type_id(&self) -> (r: u16)
        ensures
            r == self.type_id,
    {
        self.type_id
    }

    /// The current transform.
    pub fn get_transform(&self) -> (r: &Transform)
        ensures
            r == &self.transform,
    {
        &self.transform
    }

    /// The transform of the previous tick.
    pub fn get_last_transform(&self) -> (r: &Transform)
        ensures
            r == &self.last_transform,
    {
        &self.last_transform
    }

    /// Replaces the current transform, as the collision resolver does
    /// after correcting a move.
    pub fn set_transform(&mut self, transform: &Transform)
        ensures
            final(self).transform == *transform,
            final(self).last_transform == old(self).last_transform,
    {
        self.transform = *transform;
    }
}

} // verus!
