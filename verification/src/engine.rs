use vstd::prelude::*;

use crate::color::Color;
use crate::fixed::{clamp_i64, clamp_spec, div_trunc64, lemma_trunc_div_mag, trunc_div};
use crate::raygen::{mat_wf, Mat3, RenderContext, TAN_MAX, VIEW_MAX};
use crate::scheduler::{buf_wf, frame_spec, render, PixelBuffer};
use crate::shade::GroundPattern;
use crate::vec3::{in_range, Vec3, CAM_DIR_MAX, POS_MAX};

verus! {

/// Half-turn in micro-radians: the exclusive upper bound for the field of
/// view, which must lie in the open interval (0, a half-turn).
pub const PI_MICRO: i64 = 3_141_593;

/// The movable pinhole camera: position and facing direction in world
/// micro-units, field of view in micro-radians, and the viewport size in
/// pixels.  The facing vector is used as a direction and need not be unit
/// length.
#[derive(Clone, Copy, PartialEq, Eq, Structural, Debug)]
pub struct Camera {
    pub pos: Vec3,
    pub dir: Vec3,
    pub fov: i64,
    pub width: usize,
    pub height: usize,
}

/// A camera the engine can work with: coordinates in fixed-point range, a
/// field of view inside (0, a half-turn), and a viewport of at least one
/// pixel each way.
pub open spec fn camera_wf(cam: Camera) -> bool {
    &&& in_range(cam.pos, POS_MAX as int)
    &&& in_range(cam.dir, CAM_DIR_MAX as int)
    &&& 0 < cam.fov < PI_MICRO
    &&& 1 <= cam.width <= VIEW_MAX
    &&& 1 <= cam.height <= VIEW_MAX
}

impl Camera {
    /// Builds a camera from an initial pose, field of view and viewport.
    pub fn new(pos: Vec3, dir: Vec3, fov: i64, width: usize, height: usize) -> (cam: Camera)
        requires
            in_range(pos, POS_MAX as int),
            in_range(dir, CAM_DIR_MAX as int),
            0 < fov < PI_MICRO,
            1 <= width <= VIEW_MAX,
            1 <= height <= VIEW_MAX,
        ensures
            cam == (Camera { pos, dir, fov, width, height }),
            camera_wf(cam),
    {
        Camera { pos, dir, fov, width, height }
    }
}

/// A tenth of a coordinate, truncated toward zero: one translation step
/// moves the camera a tenth of its facing vector.
pub open spec fn tenth(c: int) -> int {
    trunc_div(c, 10)
}

/// The translation step along the facing direction (the forward key).
pub open spec fn forward_step(dir: Vec3) -> Vec3 {
    Vec3 { x: tenth(dir.x as int) as i64, y: tenth(dir.y as int) as i64, z: tenth(dir.z as int) as i64 }
}

/// The translation step away from the facing direction (the back key).
pub open spec fn back_step(dir: Vec3) -> Vec3 {
    Vec3 {
        x: tenth(-(dir.x as int)) as i64,
        y: tenth(-(dir.y as int)) as i64,
        z: tenth(-(dir.z as int)) as i64,
    }
}

/// The rightward strafe step: a tenth of the cross product of the world z
/// axis with the facing vector, `(-dir.y, dir.x, 0)`, which points to the
/// camera's right along the ground.
pub open spec fn strafe_right_step(dir: Vec3) -> Vec3 {
    Vec3 { x: tenth(-(dir.y as int)) as i64, y: tenth(dir.x as int) as i64, z: 0 }
}

/// The leftward strafe step: the same ground vector with the sign flipped.
pub open spec fn strafe_left_step(dir: Vec3) -> Vec3 {
    Vec3 { x: tenth(dir.y as int) as i64, y: tenth(-(dir.x as int)) as i64, z: 0 }
}

/// A position translated by a step, every coordinate clamped into the
/// engine's coordinate range.
pub open spec fn moved(pos: Vec3, step: Vec3) -> Vec3 {
    Vec3 {
        x: clamp_spec(pos.x + step.x, POS_MAX as int) as i64,
        y: clamp_spec(pos.y + step.y, POS_MAX as int) as i64,
        z: clamp_spec(pos.z + step.z, POS_MAX as int) as i64,
    }
}

/// A viewport extent clamped into `[1, VIEW_MAX]`: a zero-sized viewport
/// would divide by zero in the per-pixel coordinates, so it is clamped to a
/// minimum of one pixel.
pub open spec fn clamp_view(v: int) -> int {
    if v < 1 {
        1
    } else if v > VIEW_MAX {
        VIEW_MAX as int
    } else {
        v
    }
}

/// The per-frame render snapshot derived from a camera pose: its position
/// and viewport, with the rotation and field-of-view scale handed in by the
/// caller (they are derived from the pose by the surrounding layer).
pub open spec fn ctx_of(cam: Camera, rot: Mat3, tan_half_fov: i64) -> RenderContext {
    RenderContext { pos: cam.pos, rot, tan_half_fov, width: cam.width, height: cam.height }
}

/// One render-gate step of the frame state machine: a dirty state renders
/// the frame and comes out clean; a clean state is left untouched.
pub open spec fn render_step(dirty: bool, buf: Seq<Color>, frame: Seq<Color>) -> (bool, Seq<
    Color,
>) {
    if dirty {
        (false, frame)
    } else {
        (dirty, buf)
    }
}

/// The render gate is idempotent: after one step the state is clean, and a
/// second step with no pose or viewport change in between leaves the buffer
/// byte-identical.
pub proof fn lemma_render_idempotent(dirty: bool, buf: Seq<Color>, frame: Seq<Color>)
    ensures
        ({
            let once = render_step(dirty, buf, frame);
            let twice = render_step(once.0, once.1, frame);
            twice == once
        }),
{
}

/// The whole renderer: the camera, the chosen ground pattern, the dirty
/// flag of the frame state machine, and the last finished frame.
#[derive(Clone, Debug)]
pub struct Engine {
    pub camera: Camera,
    pub pattern: GroundPattern,
    pub dirty: bool,
    pub buffer: PixelBuffer,
}

/// An engine the public methods preserve: a well-formed camera and a
/// well-formed buffer.
pub open spec fn engine_wf(e: Engine) -> bool {
    &&& camera_wf(e.camera)
    &&& buf_wf(e.buffer)
}

impl Engine {
    /// Starts the engine on an initial camera: the first frame is dirty, so
    /// the first render pass always draws.
    pub fn new(camera: Camera, pattern: GroundPattern) -> (e: Engine)
        requires
            camera_wf(camera),
        ensures
            e.camera == camera,
            e.pattern == pattern,
            e.dirty == true,
            e.buffer.width == 0,
            e.buffer.height == 0,
            e.buffer.pixels@ == Seq::<Color>::empty(),
            engine_wf(e),
    {
        Engine {
            camera,
            pattern,
            dirty: true,
            buffer: PixelBuffer { width: 0, height: 0, pixels: Vec::new() },
        }
    }

    /// Moves the camera one step along its facing direction and marks the
    /// frame dirty.
    pub fn move_forward(&mut self)
        requires
            engine_wf(*old(self)),
        ensures
            engine_wf(*final(self)),
            final(self).camera == (Camera {
                pos: moved(old(self).camera.pos, forward_step(old(self).camera.dir)),
                ..old(self).camera
            }),
            final(self).dirty == true,
            final(self).pattern == old(self).pattern,
            final(self).buffer == old(self).buffer,
    {
        let step = step_of(self.camera.dir.x, self.camera.dir.y, self.camera.dir.z);
        self.camera.pos = add_clamped(self.camera.pos, step);
        self.dirty = true;
    }

    /// Moves the camera one step against its facing direction and marks the
    /// frame dirty.
    pub fn move_back(&mut self)
        requires
            engine_wf(*old(self)),
        ensures
            engine_wf(*final(self)),
            final(self).camera == (Camera {
                pos: moved(old(self).camera.pos, back_step(old(self).camera.dir)),
                ..old(self).camera
            }),
            final(self).dirty == true,
            final(self).pattern == old(self).pattern,
            final(self).buffer == old(self).buffer,
    {
        let step = step_of(-self.camera.dir.x, -self.camera.dir.y, -self.camera.dir.z);
        self.camera.pos = add_clamped(self.camera.pos, step);
        self.dirty = true;
    }

    /// Strafes the camera one step to its right along the ground and marks
    /// the frame dirty.
    pub fn strafe_right(&mut self)
        requires
            engine_wf(*old(self)),
        ensures
            engine_wf(*final(self)),
            final(self).camera == (Camera {
                pos: moved(old(self).camera.pos, strafe_right_step(old(self).camera.dir)),
                ..old(self).camera
            }),
            final(self).dirty == true,
            final(self).pattern == old(self).pattern,
            final(self).buffer == old(self).buffer,
    {
        let step = step_of(-self.camera.dir.y, self.camera.dir.x, 0);
        self.camera.pos = add_clamped(self.camera.pos, step);
        self.dirty = true;
    }

    /// Strafes the camera one step to its left along the ground and marks
    /// the frame dirty.
    pub fn strafe_left(&mut self)
        requires
            engine_wf(*old(self)),
        ensures
            engine_wf(*final(self)),
            final(self).camera == (Camera {
                pos: moved(old(self).camera.pos, strafe_left_step(old(self).camera.dir)),
                ..old(self).camera
            }),
            final(self).dirty == true,
            final(self).pattern == old(self).pattern,
            final(self).buffer == old(self).buffer,
    {
        let step = step_of(self.camera.dir.y, -self.camera.dir.x, 0);
        self.camera.pos = add_clamped(self.camera.pos, step);
        self.dirty = true;
    }

    /// Points the camera at a new facing direction (computed by the
    /// surrounding layer from a pointer drag) and marks the frame dirty.
    pub fn set_facing(&mut self, dir: Vec3)
        requires
            engine_wf(*old(self)),
            in_range(dir, CAM_DIR_MAX as int),
        ensures
            engine_wf(*final(self)),
            final(self).camera == (Camera { dir, ..old(self).camera }),
            final(self).dirty == true,
            final(self).pattern == old(self).pattern,
            final(self).buffer == old(self).buffer,
    {
        self.camera.dir = dir;
        self.dirty = true;
    }

    /// Follows a viewport-size change: a size differing from the stored one
    /// (after clamping to at least one pixel each way) is stored and marks
    /// the frame dirty; the same size leaves the engine untouched.
    pub fn set_viewport(&mut self, width: usize, height: usize)
        requires
            engine_wf(*old(self)),
        ensures
            engine_wf(*final(self)),
            ({
                let w = clamp_view(width as int);
                let h = clamp_view(height as int);
                if w == old(self).camera.width && h == old(self).camera.height {
                    *final(self) == *old(self)
                } else {
                    final(self).camera == (Camera {
                        width: w as usize,
                        height: h as usize,
                        ..old(self).camera
                    }) && final(self).dirty == true && final(self).pattern == old(self).pattern
                        && final(self).buffer == old(self).buffer
                }
            }),
    {
        let w: usize = clamp_view_exec(width);
        let h: usize = clamp_view_exec(height);
        if w != self.camera.width || h != self.camera.height {
            self.camera.width = w;
            self.camera.height = h;
            self.dirty = true;
        }
    }

    /// Stores a frame assembled by the surrounding layer's own worker pool
    /// (one worker per band, each through `render_band`, joined and
    /// concatenated in band order) and clears the dirty flag: the fork-join
    /// route through the render gate.
    pub fn store_frame(&mut self, buffer: PixelBuffer)
        requires
            engine_wf(*old(self)),
            buf_wf(buffer),
        ensures
            engine_wf(*final(self)),
            final(self).camera == old(self).camera,
            final(self).pattern == old(self).pattern,
            final(self).dirty == false,
            final(self).buffer == buffer,
    {
        self.buffer = buffer;
        self.dirty = false;
    }

    /// The render gate: when the frame is dirty, renders the whole frame
    /// from the current pose — through the rotation and field-of-view scale
    /// the caller derived from it — stores it, and clears the dirty flag;
    /// when it is clean, reuses the previous buffer unchanged.
    pub fn render_frame(&mut self, rot: Mat3, tan_half_fov: i64)
        requires
            engine_wf(*old(self)),
            mat_wf(rot),
            -TAN_MAX <= tan_half_fov <= TAN_MAX,
        ensures
            engine_wf(*final(self)),
            final(self).camera == old(self).camera,
            final(self).pattern == old(self).pattern,
            (final(self).dirty, final(self).buffer.pixels@) == render_step(
                old(self).dirty,
                old(self).buffer.pixels@,
                frame_spec(ctx_of(old(self).camera, rot, tan_half_fov), old(self).pattern),
            ),
            old(self).dirty ==> final(self).buffer.width == old(self).camera.width
                && final(self).buffer.height == old(self).camera.height,
            !old(self).dirty ==> *final(self) == *old(self),
    {
        if self.dirty {
            let ctx = RenderContext {
                pos: self.camera.pos,
                rot,
                tan_half_fov,
                width: self.camera.width,
                height: self.camera.height,
            };
            self.buffer = render(&ctx, self.pattern);
            self.dirty = false;
        }
    }
}

/// One clamped translation step: `(sx, sy, sz)` scaled down to a tenth,
/// truncating.
fn step_of(sx: i64, sy: i64, sz: i64) -> (step: Vec3)
    requires
        -CAM_DIR_MAX <= sx <= CAM_DIR_MAX,
        -CAM_DIR_MAX <= sy <= CAM_DIR_MAX,
        -CAM_DIR_MAX <= sz <= CAM_DIR_MAX,
    ensures
        step == (Vec3 {
            x: tenth(sx as int) as i64,
            y: tenth(sy as int) as i64,
            z: tenth(sz as int) as i64,
        }),
        in_range(step, CAM_DIR_MAX as int),
{
    proof {
        lemma_trunc_div_mag(sx as int, 10, CAM_DIR_MAX as int);
        lemma_trunc_div_mag(sy as int, 10, CAM_DIR_MAX as int);
        lemma_trunc_div_mag(sz as int, 10, CAM_DIR_MAX as int);
    }
    Vec3 { x: div_trunc64(sx, 10), y: div_trunc64(sy, 10), z: div_trunc64(sz, 10) }
}

/// A position translated by a bounded step, clamped back into range.
fn add_clamped(pos: Vec3, step: Vec3) -> (p: Vec3)
    requires
        in_range(pos, POS_MAX as int),
        in_range(step, CAM_DIR_MAX as int),
    ensures
        p == moved(pos, step),
        in_range(p, POS_MAX as int),
{
    Vec3 {
        x: clamp_i64(pos.x + step.x, POS_MAX),
        y: clamp_i64(pos.y + step.y, POS_MAX),
        z: clamp_i64(pos.z + step.z, POS_MAX),
    }
}

/// A viewport extent clamped into `[1, VIEW_MAX]`.
fn clamp_view_exec(v: usize) -> (r: usize)
    ensures
        r == clamp_view(v as int),
{
    if v < 1 {
        1
    } else if v > VIEW_MAX {
        VIEW_MAX
    } else {
        v
    }
}

} // verus!
