//! The cycle that the host of the renderer runs through, and the rotation
//! that it advances once per frame.
//!
//! The host does the work of each phase (writing to the terminal, sampling
//! and projecting the surface, sleeping) and then asks for the next phase.

use vstd::prelude::*;

verus! {

/// The angle by which the first two axes turn per frame, in milliradians.
pub const ANGLE_STEP: u64 = 5;

/// The pause that ends every frame, in milliseconds.
pub const FRAME_PAUSE: u64 = 10;

/// The three accumulated rotation angles, in milliradians.
#[derive(Clone, Copy, Debug, PartialEq, Eq)]
pub struct RotationState {
    pub a: u64,
    pub b: u64,
    pub c: u64,
}

impl RotationState {
    /// No rotation about any axis.
    pub open spec fn zero() -> RotationState {
        RotationState { a: 0, b: 0, c: 0 }
    }

    /// Whether the angles can take one more step without leaving the range
    /// of their type.
    pub open spec fn can_advance(self) -> bool {
        self.a + ANGLE_STEP <= u64::MAX && self.b + ANGLE_STEP <= u64::MAX
    }

    /// The angles one frame later: the first two have turned by one step,
    /// the third is as it was.
    pub open spec fn advanced(self) -> RotationState {
        RotationState {
            a: (self.a + ANGLE_STEP) as u64,
            b: (self.b + ANGLE_STEP) as u64,
            c: self.c,
        }
    }

    /// The angles `frames` frames later.
    pub open spec fn turned(self, frames: nat) -> RotationState
        decreases frames,
    {
        if frames == 0 {
            self
        } else {
            self.turned((frames - 1) as nat).advanced()
        }
    }

    /// The rotation at the start of the first frame.
    pub fn new() -> (r: RotationState)
        ensures
            r == RotationState::zero(),
    {
        RotationState { a: 0, b: 0, c: 0 }
    }

    /// Turns the first two axes by one step.
    pub fn advance(&mut self)
        requires
            old(self).can_advance(),
        ensures
            *final(self) == old(self).advanced(),
            final(self).a == old(self).a + ANGLE_STEP,
            final(self).b == old(self).b + ANGLE_STEP,
            final(self).c == old(self).c,
    {
        self.a = self.a + ANGLE_STEP;
        self.b = self.b + ANGLE_STEP;
    }
}

/// After any number of frames the first two angles are that many steps and
/// the third is still zero.
pub proof fn rotation_after_frames(frames: nat)
    requires
        ANGLE_STEP * frames <= u64::MAX,
    ensures
        RotationState::zero().turned(frames).a == ANGLE_STEP * frames,
        RotationState::zero().turned(frames).b == ANGLE_STEP * frames,
        RotationState::zero().turned(frames).c == 0,
    decreases frames,
{
    if frames > 0 {
        rotation_after_frames((frames - 1) as nat);
    }
}

/// Where the frame loop stands.
#[derive(Clone, Copy, Debug, PartialEq, Eq)]
pub enum Phase {
    /// Before the first frame: the terminal is cleared.
    Initializing,
    /// The buffers are cleared and every sample is projected and drawn.
    RenderingFrame,
    /// The cursor goes home and the cells are written out.
    Presenting,
    /// The rotation takes its step and the loop pauses.
    Advancing,
}

/// The state that outlives a frame: the phase and the rotation.
#[derive(Clone, Copy, Debug, PartialEq, Eq)]
pub struct FrameLoop {
    pub phase: Phase,
    pub rotation: RotationState,
}

impl FrameLoop {
    /// The loop before anything has happened.
    pub open spec fn initial() -> FrameLoop {
        FrameLoop { phase: Phase::Initializing, rotation: RotationState::zero() }
    }

    /// Whether the loop can leave its present phase: only the step of the
    /// rotation, at the end of a frame, can be out of range.
    pub open spec fn can_step(self) -> bool {
        self.phase is Advancing ==> self.rotation.can_advance()
    }

    /// The loop after its present phase is done. The phases of a frame
    /// follow one another and lead back to rendering; there is no last
    /// phase. The rotation changes when, and only when, the loop leaves
    /// `Advancing`.
    pub open spec fn stepped(self) -> FrameLoop {
        match self.phase {
            Phase::Initializing => FrameLoop { phase: Phase::RenderingFrame, ..self },
            Phase::RenderingFrame => FrameLoop { phase: Phase::Presenting, ..self },
            Phase::Presenting => FrameLoop { phase: Phase::Advancing, ..self },
            Phase::Advancing => FrameLoop {
                phase: Phase::RenderingFrame,
                rotation: self.rotation.advanced(),
            },
        }
    }

    /// The loop after `frames` whole frames, counted from the start of a
    /// frame's rendering.
    pub open spec fn after_frames(self, frames: nat) -> FrameLoop
        decreases frames,
    {
        if frames == 0 {
            self
        } else {
            self.after_frames((frames - 1) as nat).stepped().stepped().stepped()
        }
    }

    /// The loop before anything has happened.
    pub fn new() -> (r: FrameLoop)
        ensures
            r == FrameLoop::initial(),
    {
        FrameLoop { phase: Phase::Initializing, rotation: RotationState::new() }
    }

    /// Leaves the present phase and reports the one that follows.
    pub fn step(&mut self) -> (next: Phase)
        requires
            old(self).can_step(),
        ensures
            *final(self) == old(self).stepped(),
            next == final(self).phase,
    {
        match self.phase {
            Phase::Initializing => {
                self.phase = Phase::RenderingFrame;
            },
            Phase::RenderingFrame => {
                self.phase = Phase::Presenting;
            },
            Phase::Presenting => {
                self.phase = Phase::Advancing;
            },
            Phase::Advancing => {
                self.rotation.advance();
                self.phase = Phase::RenderingFrame;
            },
        }
        self.phase
    }
}

/// Once initialized, the loop is at the start of a frame, and after any
/// number of whole frames it is there again, with the first two angles
/// turned by one step per frame and the third still zero.
pub proof fn loop_after_frames(frames: nat)
    requires
        ANGLE_STEP * frames <= u64::MAX,
    ensures
        FrameLoop::initial().stepped().after_frames(frames).phase == Phase::RenderingFrame,
        FrameLoop::initial().stepped().after_frames(frames).rotation
            == RotationState::zero().turned(frames),
        FrameLoop::initial().stepped().after_frames(frames).rotation.a == ANGLE_STEP * frames,
        FrameLoop::initial().stepped().after_frames(frames).rotation.b == ANGLE_STEP * frames,
        FrameLoop::initial().stepped().after_frames(frames).rotation.c == 0,
    decreases frames,
{
    rotation_after_frames(frames);
    if frames > 0 {
        loop_after_frames((frames - 1) as nat);
    }
}

} // verus!
