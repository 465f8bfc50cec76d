//! The actor: position, velocity, grounded state, animation frame and
//! respawn checkpoint, with the per-tick physics that drives them.

use vstd::prelude::*;
use crate::geom::{Aabb, Vec2, MAX_CENTER};

verus! {

/// Horizontal speed, in units per tick, applied as input axis times speed.
pub const GUY_HORZ_SPEED: i64 = 2;

/// Downward acceleration per tick.
pub const GRAVITY: i64 = 1;

/// Upward velocity granted by a jump.
pub const JUMP_VELOCITY: i64 = 10;

/// Gravity stops pulling once vertical velocity has fallen below this.
pub const TERMINAL_VELOCITY: i64 = -10;

/// Full side length of the actor's square collision box; its visual sprite
/// is larger.
pub const GUY_BOX_SIZE: i64 = 16;

/// The lowest animation frame of each frame cycle.
pub const FRAME_RIGHT_START: usize = 0;

pub const FRAME_LEFT_START: usize = 8;

pub const FRAME_IDLE_START: usize = 16;

/// The highest animation frame.
pub const FRAME_LAST: usize = 25;

/// The player-controlled actor.
#[derive(Clone, Copy, PartialEq, Eq, Structural, Debug)]
pub struct Guy {
    pub pos: Vec2,
    pub vel: Vec2,
    pub grounded: bool,
    pub frame: usize,
    pub respawn_pos: Vec2,
}

/// The animation frame following `frame`: idle, walking-right and
/// walking-left each cycle through their own range, and entering a category
/// from outside it restarts that category's cycle. Standing still or moving
/// vertically counts as idle.
pub open spec fn spec_next_frame(frame: int, horz: int, vert: int) -> int {
    if horz == 0 || vert != 0 {
        if 16 <= frame < 25 {
            frame + 1
        } else {
            16
        }
    } else if horz > 0 {
        if 0 <= frame < 7 {
            frame + 1
        } else {
            0
        }
    } else {
        if 8 <= frame < 15 {
            frame + 1
        } else {
            8
        }
    }
}

/// Vertical velocity after one tick: a jump (upward input while grounded)
/// replaces it with the jump velocity, and then gravity pulls one unit
/// unless the terminal velocity has been passed.
pub open spec fn spec_vel_y_after(vy: int, grounded: bool, vert: int) -> int {
    let jumped = if vert > 0 && grounded {
        JUMP_VELOCITY as int
    } else {
        vy
    };
    if jumped >= TERMINAL_VELOCITY {
        jumped - GRAVITY
    } else {
        jumped
    }
}

impl Guy {
    /// Field bounds every actor produced and consumed by this library keeps.
    pub open spec fn wf(self) -> bool {
        &&& -MAX_CENTER <= self.pos.x <= MAX_CENTER
        &&& -MAX_CENTER <= self.pos.y <= MAX_CENTER
        &&& -GUY_HORZ_SPEED <= self.vel.x <= GUY_HORZ_SPEED
        &&& TERMINAL_VELOCITY - GRAVITY <= self.vel.y <= JUMP_VELOCITY
        &&& -MAX_CENTER <= self.respawn_pos.x <= MAX_CENTER
        &&& -MAX_CENTER <= self.respawn_pos.y <= MAX_CENTER
        &&& self.frame <= FRAME_LAST
    }

    /// The actor's collision box at a given position.
    pub open spec fn spec_box_at(pos: Vec2) -> Aabb {
        Aabb { center: pos, size: Vec2 { x: GUY_BOX_SIZE, y: GUY_BOX_SIZE } }
    }

    /// The actor's current collision box.
    pub fn collision_box(&self) -> (r: Aabb)
        ensures
            r == Guy::spec_box_at(self.pos),
    {
        Aabb { center: self.pos, size: Vec2 { x: GUY_BOX_SIZE, y: GUY_BOX_SIZE } }
    }

    /// Pulls the vertical velocity down by one unit until the terminal
    /// velocity has been passed.
    #[allow(non_snake_case)]
    pub fn doGravity(&mut self)
        requires
            old(self).vel.y > i64::MIN,
        ensures
            final(self).vel.y == if old(self).vel.y >= TERMINAL_VELOCITY {
                old(self).vel.y - GRAVITY
            } else {
                old(self).vel.y as int
            },
            final(self).pos == old(self).pos,
            final(self).vel.x == old(self).vel.x,
            final(self).grounded == old(self).grounded,
            final(self).frame == old(self).frame,
            final(self).respawn_pos == old(self).respawn_pos,
    {
        if self.vel.y >= TERMINAL_VELOCITY {
            self.vel.y = self.vel.y - GRAVITY;
        }
    }

    /// Sets the horizontal velocity to the input axis times the horizontal
    /// speed.
    #[allow(non_snake_case)]
    pub fn setHorzVel(&mut self, direction: i64)
        requires
            -1 <= direction <= 1,
        ensures
            final(self).vel.x == direction * GUY_HORZ_SPEED,
            final(self).pos == old(self).pos,
            final(self).vel.y == old(self).vel.y,
            final(self).grounded == old(self).grounded,
            final(self).frame == old(self).frame,
            final(self).respawn_pos == old(self).respawn_pos,
    {
        self.vel.x = direction * GUY_HORZ_SPEED;
    }

    /// Starts a jump when an upward input arrives while grounded; a jump
    /// input while airborne changes nothing.
    pub fn handle_jump(&mut self, vert_dir: i64)
        ensures
            final(self).vel.y == if vert_dir > 0 && old(self).grounded {
                JUMP_VELOCITY as int
            } else {
                old(self).vel.y as int
            },
            final(self).grounded == if vert_dir > 0 && old(self).grounded {
                false
            } else {
                old(self).grounded
            },
            !old(self).grounded ==> final(self).vel == old(self).vel,
            final(self).pos == old(self).pos,
            final(self).vel.x == old(self).vel.x,
            final(self).frame == old(self).frame,
            final(self).respawn_pos == old(self).respawn_pos,
    {
        if vert_dir > 0 && self.grounded {
            self.vel.y = JUMP_VELOCITY;
            self.grounded = false;
        }
    }

    /// Makes the current position the respawn checkpoint.
    pub fn set_respawn(&mut self)
        ensures
            final(self).respawn_pos == old(self).pos,
            final(self).pos == old(self).pos,
            final(self).vel == old(self).vel,
            final(self).grounded == old(self).grounded,
            final(self).frame == old(self).frame,
    {
        self.respawn_pos = self.pos;
    }

    /// One tick of actor physics: horizontal velocity from the input axis, a
    /// jump when one is allowed, gravity, position integration, and the
    /// animation frame step.
    #[allow(non_snake_case)]
    pub fn moveGuy(&mut self, horz_dir: i64, vert_dir: i64)
        requires
            old(self).wf(),
            -1 <= horz_dir <= 1,
            -1 <= vert_dir <= 1,
            -MAX_CENTER + GUY_HORZ_SPEED <= old(self).pos.x <= MAX_CENTER - GUY_HORZ_SPEED,
            -MAX_CENTER + JUMP_VELOCITY + 1 <= old(self).pos.y <= MAX_CENTER - JUMP_VELOCITY - 1,
        ensures
            final(self).wf(),
            final(self).vel.x == horz_dir * GUY_HORZ_SPEED,
            final(self).vel.y == spec_vel_y_after(
                old(self).vel.y as int,
                old(self).grounded,
                vert_dir as int,
            ),
            final(self).grounded == if vert_dir > 0 && old(self).grounded {
                false
            } else {
                old(self).grounded
            },
            final(self).pos.x == old(self).pos.x + final(self).vel.x,
            final(self).pos.y == old(self).pos.y + final(self).vel.y,
            final(self).frame == spec_next_frame(
                old(self).frame as int,
                horz_dir as int,
                vert_dir as int,
            ),
            final(self).respawn_pos == old(self).respawn_pos,
    {
        self.setHorzVel(horz_dir);
        self.handle_jump(vert_dir);
        self.doGravity();

        self.pos.x = self.pos.x + self.vel.x;
        self.pos.y = self.pos.y + self.vel.y;

        if horz_dir == 0 || vert_dir != 0 {
            if FRAME_IDLE_START <= self.frame && self.frame < FRAME_LAST {
                self.frame = self.frame + 1;
            } else {
                self.frame = FRAME_IDLE_START;
            }
        } else if horz_dir > 0 {
            if self.frame < 7 {
                self.frame = self.frame + 1;
            } else {
                self.frame = FRAME_RIGHT_START;
            }
        } else {
            if FRAME_LEFT_START <= self.frame && self.frame < 15 {
                self.frame = self.frame + 1;
            } else {
                self.frame = FRAME_LEFT_START;
            }
        }
    }

    /// Sends the actor back to its respawn checkpoint.
    pub fn die(&mut self)
        ensures
            final(self).pos == old(self).respawn_pos,
            final(self).vel == old(self).vel,
            final(self).grounded == old(self).grounded,
            final(self).frame == old(self).frame,
            final(self).respawn_pos == old(self).respawn_pos,
    {
        self.pos = self.respawn_pos;
    }
}

} // verus!
