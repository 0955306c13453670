//! Sprite-sheet animation: a frame cursor that advances on a millisecond
//! timer, either looping or stopping after one pass.

use vstd::prelude::*;

verus! {

/// Upper bound on frame counts, sheet cells and cell sizes; keeps all
/// sprite-sheet arithmetic far from overflow.
pub const ANIM_LIMIT: i32 = 10000;

/// A cursor over a single row strip of a sprite sheet, starting at cell
/// `(first_row, first_col)` and scanning `total_frames` cells rightward.
#[derive(Clone, Copy, PartialEq, Eq, Structural, Debug)]
pub struct Animation {
    pub total_frames: i32,
    pub current_frame: i32,
    pub first_row: i32,
    pub first_col: i32,
    pub frame_w: i32,
    pub frame_h: i32,
    pub frames_per_sec: i32,
    pub timer_ms: u64,
    pub repeated: bool,
    pub finished: bool,
}

/// The cell rectangle of a sprite sheet, in pixels.
#[derive(Clone, Copy, PartialEq, Eq, Structural, Debug)]
pub struct FrameRect {
    pub x: i32,
    pub y: i32,
    pub w: i32,
    pub h: i32,
}

/// Well-formedness: the cursor points at a valid frame — even a finished
/// animation holds its last valid frame — and all fields are small enough
/// for the sheet arithmetic.  The timer never exceeds one second, and any
/// animation that actually advances has a positive frame rate.
pub open spec fn anim_wf(a: Animation) -> bool {
    &&& 1 <= a.total_frames <= ANIM_LIMIT
    &&& 0 <= a.current_frame < a.total_frames
    &&& 0 <= a.first_row <= ANIM_LIMIT
    &&& 0 <= a.first_col <= ANIM_LIMIT
    &&& 0 <= a.frame_w <= ANIM_LIMIT
    &&& 0 <= a.frame_h <= ANIM_LIMIT
    &&& 0 <= a.frames_per_sec <= ANIM_LIMIT
    &&& (a.total_frames > 1 ==> 1 <= a.frames_per_sec)
    &&& a.timer_ms <= 1000
}

/// One advance of the cursor by `dt` milliseconds.  A single-frame or
/// finished animation does not move.  Otherwise the timer accumulates, and
/// once it exceeds the frame period the cursor steps: past the last frame it
/// wraps when `repeated`, else it stops for good on the last frame.
pub open spec fn anim_step(a: Animation, dt: u32) -> Animation {
    if a.total_frames == 1 || a.finished {
        a
    } else if a.timer_ms + dt > 1000int / (a.frames_per_sec as int) {
        if a.current_frame + 1 == a.total_frames {
            if a.repeated {
                Animation { timer_ms: 0u64, current_frame: 0i32, ..a }
            } else {
                Animation { timer_ms: 0u64, finished: true, ..a }
            }
        } else {
            Animation { timer_ms: 0u64, current_frame: (a.current_frame + 1) as i32, ..a }
        }
    } else {
        Animation { timer_ms: (a.timer_ms + dt) as u64, ..a }
    }
}

/// The sheet rectangle shown for `a`.
pub open spec fn frame_rect_of(a: Animation) -> FrameRect {
    FrameRect {
        x: (a.first_col * a.frame_w + a.frame_w * a.current_frame) as i32,
        y: (a.first_row * a.frame_h) as i32,
        w: a.frame_w,
        h: a.frame_h,
    }
}

impl Animation {
    /// A static single-frame animation of the top-left sheet cell.
    pub fn new() -> (a: Animation)
        ensures
            a == (Animation {
                total_frames: 1i32,
                current_frame: 0i32,
                first_row: 0i32,
                first_col: 0i32,
                frame_w: 0i32,
                frame_h: 0i32,
                frames_per_sec: 0i32,
                timer_ms: 0u64,
                repeated: true,
                finished: false,
            }),
            anim_wf(a),
    {
        Animation {
            total_frames: 1,
            current_frame: 0,
            first_row: 0,
            first_col: 0,
            frame_w: 0,
            frame_h: 0,
            frames_per_sec: 0,
            timer_ms: 0,
            repeated: true,
            finished: false,
        }
    }

    /// A fully specified animation, starting on its first frame.
    pub fn construct(tf: i32, fr: i32, fc: i32, fw: i32, fh: i32, fps: i32, repeat: bool) -> (a:
        Animation)
        requires
            1 <= tf <= ANIM_LIMIT,
            0 <= fr <= ANIM_LIMIT,
            0 <= fc <= ANIM_LIMIT,
            0 <= fw <= ANIM_LIMIT,
            0 <= fh <= ANIM_LIMIT,
            0 <= fps <= ANIM_LIMIT,
            tf > 1 ==> 1 <= fps,
        ensures
            a == (Animation {
                total_frames: tf,
                current_frame: 0i32,
                first_row: fr,
                first_col: fc,
                frame_w: fw,
                frame_h: fh,
                frames_per_sec: fps,
                timer_ms: 0u64,
                repeated: repeat,
                finished: false,
            }),
            anim_wf(a),
    {
        Animation {
            total_frames: tf,
            current_frame: 0,
            first_row: fr,
            first_col: fc,
            frame_w: fw,
            frame_h: fh,
            frames_per_sec: fps,
            timer_ms: 0,
            repeated: repeat,
            finished: false,
        }
    }

    /// Advances the cursor by `dt` milliseconds.  Once `finished` is set it
    /// stays set and the whole animation freezes.
    pub fn update(&mut self, dt: u32)
        requires
            anim_wf(*old(self)),
        ensures
            *final(self) == anim_step(*old(self), dt),
            anim_wf(*final(self)),
            old(self).finished ==> *final(self) == *old(self),
            old(self).finished ==> final(self).finished,
    {
        if self.total_frames == 1 || self.finished {
            return ;
        }
        self.timer_ms = self.timer_ms + dt as u64;
        if self.timer_ms > 1000 / (self.frames_per_sec as u64) {
            self.timer_ms = 0;
            if self.current_frame + 1 == self.total_frames {
                if self.repeated {
                    self.current_frame = 0;
                } else {
                    self.finished = true;
                }
            } else {
                self.current_frame = self.current_frame + 1;
            }
        }
    }

    /// The sheet rectangle to draw: the strip cell under the cursor.
    pub fn get_frame_rect(&self) -> (r: FrameRect)
        requires
            anim_wf(*self),
        ensures
            r == frame_rect_of(*self),
    {
        proof {
            assert(0 <= self.first_col * self.frame_w <= ANIM_LIMIT * ANIM_LIMIT
                && 0 <= self.frame_w * self.current_frame <= ANIM_LIMIT * ANIM_LIMIT
                && 0 <= self.first_row * self.frame_h <= ANIM_LIMIT * ANIM_LIMIT)
                by (nonlinear_arith)
                requires
                    0 <= self.first_col <= ANIM_LIMIT,
                    0 <= self.frame_w <= ANIM_LIMIT,
                    0 <= self.current_frame <= ANIM_LIMIT,
                    0 <= self.first_row <= ANIM_LIMIT,
                    0 <= self.frame_h <= ANIM_LIMIT,
            ;
        }
        FrameRect {
            x: self.first_col * self.frame_w + self.frame_w * self.current_frame,
            y: self.first_row * self.frame_h,
            w: self.frame_w,
            h: self.frame_h,
        }
    }
}

/// A finished animation never advances again: `finished` is stable and the
/// cursor keeps holding the last frame, however often and however long the
/// update pass keeps running.
pub proof fn lemma_finished_freezes(a: Animation, dt: u32)
    requires
        a.finished,
    ensures
        anim_step(a, dt) == a,
        anim_step(a, dt).finished,
{
}

} // verus!
