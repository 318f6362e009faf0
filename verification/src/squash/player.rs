//! The player character: ground movement from the four direction
//! actions, a jump from the floor, gravity in the air, and the squash
//! check over the frame's collisions — the first mob hit from above is
//! squashed and the player bounces off it.

use crate::geom::Vec3i;
use vstd::prelude::*;

verus! {

/// Upper bound on the character's tunables, thousandths per second.
pub const TUNABLE_CAP: i64 = 10_000_000;

/// The model's terminal fall speed: the engine's floating-point velocity
/// falls without bound, the fixed-point one saturates here.
pub const VELOCITY_CAP: i64 = 1_000_000_000;

/// Upper bound on a frame duration, in microseconds.
pub const DELTA_CAP: i64 = 10_000_000;

/// Thousandths of the unit diagonal component, as in the 2D games.
pub const DIAG_MILLI: i64 = 707;

/// A collision hit from above counts as landing on the mob when the
/// contact normal points up by more than this, in thousandths.
pub const SQUASH_NORMAL_MILLI: i64 = 100;

/// The four direction actions, as polled on one frame.
#[derive(Clone, Copy, PartialEq, Eq, Structural, Debug)]
pub struct MoveInput {
    pub right: bool,
    pub left: bool,
    pub back: bool,
    pub forward: bool,
}

/// One collision the physics step reported: whether the collider is a
/// mob, and the upward component of the contact normal, in thousandths.
#[derive(Clone, Copy, PartialEq, Eq, Structural, Debug)]
pub struct Contact {
    pub is_mob: bool,
    pub normal_y_milli: i64,
}

/// What one movement frame decides: the animation speed, where the
/// character faces (when it moves), and the velocity handed to the
/// physics step.
#[derive(Clone, Copy, PartialEq, Eq, Structural, Debug)]
pub struct MoveFrame {
    pub anim_scale: i64,
    pub facing: Option<Vec3i>,
    pub velocity: Vec3i,
}

/// Sideways direction of the input: `right` minus `left`.
pub open spec fn spec_dir_x(input: MoveInput) -> int {
    (if input.right {
        1int
    } else {
        0int
    }) - (if input.left {
        1int
    } else {
        0int
    })
}

/// Depth direction of the input: `back` minus `forward`.
pub open spec fn spec_dir_z(input: MoveInput) -> int {
    (if input.back {
        1int
    } else {
        0int
    }) - (if input.forward {
        1int
    } else {
        0int
    })
}

/// The ground speed along one axis: the full speed on a straight
/// course, its diagonal component on a diagonal one.
pub open spec fn spec_axis_speed(dx: int, dz: int, speed: int) -> int {
    if dx != 0 && dz != 0 {
        speed * DIAG_MILLI / 1000
    } else {
        speed
    }
}

/// The vertical velocity after the jump check and gravity: jumping from
/// the floor sets the jump impulse, falling subtracts gravity for the
/// frame (saturating at the model's terminal speed), and standing on
/// the floor keeps it as it is.
pub open spec fn spec_vertical(
    vy: int,
    on_floor: bool,
    jump_just_pressed: bool,
    jump_impulse: int,
    fall_acceleration: int,
    delta_us: int,
) -> int {
    let jumped = if on_floor && jump_just_pressed {
        jump_impulse
    } else {
        vy
    };
    if !on_floor {
        let dropped = jumped - fall_acceleration * delta_us / 1_000_000;
        if dropped >= -VELOCITY_CAP {
            dropped
        } else {
            -VELOCITY_CAP as int
        }
    } else {
        jumped
    }
}

/// Whether a contact squashes a mob: it is one, hit from above.
pub open spec fn spec_squashes(c: Contact) -> bool {
    c.is_mob && c.normal_y_milli > SQUASH_NORMAL_MILLI
}

/// The player: its exported tunables and the velocity it hands to the
/// physics step, all in thousandths.
pub struct Player {
    pub speed: i64,
    pub jump_impulse: i64,
    pub bounce_impulse: i64,
    pub fall_acceleration: i64,
    pub target_velocity: Vec3i,
}

impl Player {
    /// Tunables and velocity stay small enough for the frame arithmetic.
    pub open spec fn wf(self) -> bool {
        &&& 0 <= self.speed <= TUNABLE_CAP
        &&& 0 <= self.jump_impulse <= TUNABLE_CAP
        &&& 0 <= self.bounce_impulse <= TUNABLE_CAP
        &&& 0 <= self.fall_acceleration <= TUNABLE_CAP
        &&& -VELOCITY_CAP <= self.target_velocity.x <= VELOCITY_CAP
        &&& -VELOCITY_CAP <= self.target_velocity.y <= VELOCITY_CAP
        &&& -VELOCITY_CAP <= self.target_velocity.z <= VELOCITY_CAP
    }

    /// A fresh character; the scene then writes its exported tunables.
    pub fn init() -> (p: Player)
        ensures
            p.speed == 0,
            p.jump_impulse == 0,
            p.bounce_impulse == 0,
            p.fall_acceleration == 0,
            p.target_velocity == (Vec3i { x: 0, y: 0, z: 0 }),
            p.wf(),
    {
        Player {
            speed: 0,
            jump_impulse: 0,
            bounce_impulse: 0,
            fall_acceleration: 0,
            target_velocity: Vec3i { x: 0, y: 0, z: 0 },
        }
    }

    /// The movement half of a physics frame, before the engine moves the
    /// body: ground velocity from the input (diagonals normalized), the
    /// jump, and gravity.  A moving character faces its course and plays
    /// the walk animation four times as fast.
    pub fn physics_process(
        &mut self,
        input: MoveInput,
        jump_just_pressed: bool,
        on_floor: bool,
        delta_us: i64,
    ) -> (out: MoveFrame)
        requires
            old(self).wf(),
            0 <= delta_us <= DELTA_CAP,
        ensures
            final(self).target_velocity.x == spec_dir_x(input) * spec_axis_speed(
                spec_dir_x(input),
                spec_dir_z(input),
                old(self).speed as int,
            ),
            final(self).target_velocity.z == spec_dir_z(input) * spec_axis_speed(
                spec_dir_x(input),
                spec_dir_z(input),
                old(self).speed as int,
            ),
            final(self).target_velocity.y == spec_vertical(
                old(self).target_velocity.y as int,
                on_floor,
                jump_just_pressed,
                old(self).jump_impulse as int,
                old(self).fall_acceleration as int,
                delta_us as int,
            ),
            out.velocity == final(self).target_velocity,
            out.anim_scale == if spec_dir_x(input) == 0 && spec_dir_z(input) == 0 {
                1int
            } else {
                4int
            },
            out.facing == if spec_dir_x(input) == 0 && spec_dir_z(input) == 0 {
                Option::None::<Vec3i>
            } else {
                Option::Some(
                    Vec3i { x: spec_dir_x(input) as i64, y: 0, z: spec_dir_z(input) as i64 },
                )
            },
            final(self).speed == old(self).speed,
            final(self).jump_impulse == old(self).jump_impulse,
            final(self).bounce_impulse == old(self).bounce_impulse,
            final(self).fall_acceleration == old(self).fall_acceleration,
            final(self).wf(),
    {
        let dx: i64 = (if input.right {
            1i64
        } else {
            0i64
        }) - (if input.left {
            1i64
        } else {
            0i64
        });
        let dz: i64 = (if input.back {
            1i64
        } else {
            0i64
        }) - (if input.forward {
            1i64
        } else {
            0i64
        });

        let moving = dx != 0 || dz != 0;
        let axis: i64 = if dx != 0 && dz != 0 {
            (((self.speed as u64) * (DIAG_MILLI as u64)) / 1000) as i64
        } else {
            self.speed
        };
        let vx: i64 = if dx == 0 {
            0
        } else if dx > 0 {
            axis
        } else {
            -axis
        };
        let vz: i64 = if dz == 0 {
            0
        } else if dz > 0 {
            axis
        } else {
            -axis
        };
        proof {
            let a = dx as int;
            let b = dz as int;
            let st = axis as int;
            assert((a == 0 ==> a * st == 0) && (a == 1 ==> a * st == st) && (a == -1 ==> a * st
                == -st)) by (nonlinear_arith);
            assert((b == 0 ==> b * st == 0) && (b == 1 ==> b * st == st) && (b == -1 ==> b * st
                == -st)) by (nonlinear_arith);
        }

        let mut vy = self.target_velocity.y;
        if on_floor && jump_just_pressed {
            vy = self.jump_impulse;
        }
        if !on_floor {
            proof {
                let f = old(self).fall_acceleration as int;
                let d = delta_us as int;
                assert(0 <= f * d <= TUNABLE_CAP * DELTA_CAP) by (nonlinear_arith)
                    requires
                        0 <= f <= TUNABLE_CAP,
                        0 <= d <= DELTA_CAP,
                ;
                assert(0 <= f * d / 1_000_000 <= TUNABLE_CAP * DELTA_CAP / 1_000_000)
                    by (nonlinear_arith)
                    requires
                        0 <= f * d <= TUNABLE_CAP * DELTA_CAP,
                ;
            }
            let drop: i64 = (((self.fall_acceleration as u64) * (delta_us as u64)) / 1_000_000)
                as i64;
            if vy - drop >= -VELOCITY_CAP {
                vy = vy - drop;
            } else {
                vy = -VELOCITY_CAP;
            }
        }

        self.target_velocity = Vec3i { x: vx, y: vy, z: vz };

        MoveFrame {
            anim_scale: if moving {
                4
            } else {
                1
            },
            facing: if moving {
                Some(Vec3i { x: dx, y: 0, z: dz })
            } else {
                None
            },
            velocity: self.target_velocity,
        }
    }

    /// The squash half of a physics frame, over the collisions the move
    /// reported: the first mob hit from above is squashed — exactly one,
    /// so one squash never awards two points — and the player bounces
    /// up off it.
    pub fn process_collisions(&mut self, contacts: &Vec<Contact>) -> (squashed: Option<usize>)
        requires
            old(self).wf(),
        ensures
            match squashed {
                Option::Some(i) => {
                    &&& i < contacts@.len()
                    &&& spec_squashes(contacts@[i as int])
                    &&& forall|j: int| 0 <= j < i ==> !spec_squashes(contacts@[j])
                    &&& final(self).target_velocity.y == old(self).bounce_impulse
                },
                Option::None => {
                    &&& forall|j: int|
                        0 <= j < contacts@.len() ==> !spec_squashes(contacts@[j])
                    &&& final(self).target_velocity.y == old(self).target_velocity.y
                },
            },
            final(self).target_velocity.x == old(self).target_velocity.x,
            final(self).target_velocity.z == old(self).target_velocity.z,
            final(self).speed == old(self).speed,
            final(self).jump_impulse == old(self).jump_impulse,
            final(self).bounce_impulse == old(self).bounce_impulse,
            final(self).fall_acceleration == old(self).fall_acceleration,
            final(self).wf(),
    {
        let mut i: usize = 0;
        while i < contacts.len()
            invariant
                i <= contacts@.len(),
                forall|j: int| 0 <= j < i ==> !spec_squashes(contacts@[j]),
                *self == *old(self),
                old(self).wf(),
            decreases contacts@.len() - i,
        {
            let c = contacts[i];
            if c.is_mob && c.normal_y_milli > SQUASH_NORMAL_MILLI {
                self.target_velocity = Vec3i {
                    x: self.target_velocity.x,
                    y: self.bounce_impulse,
                    z: self.target_velocity.z,
                };
                return Some(i);
            }
            i = i + 1;
        }
        None
    }

}

} // verus!
