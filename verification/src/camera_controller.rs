//! The per-camera controller: the frame counter, the parameters handed to
//! each pass and the fixed order in which the passes run.

use vstd::prelude::*;
use rand::Rng;
use crate::camera::Camera;

pub mod passes;

verus! {

/// The parameters that every compute pass receives.
#[derive(Clone, Copy, Debug, PartialEq, Eq, Structural)]
pub struct PassParams {
    pub seed: u32,
    pub frame: u32,
}

/// `rand::thread_rng().gen::<u32>()`: one draw from the thread-local
/// generator, which the system seeds. Nothing is known of the value.
#[verifier::external_body]
pub(crate) fn random_seed() -> (seed: u32) {
    rand::thread_rng().gen()
}

/// The stages of one frame of one camera.
#[derive(Clone, Copy, Debug, PartialEq, Eq, Structural)]
pub enum Stage {
    Tracing,
    TemporalResampling,
    SpatialResampling,
    Resolving,
    Drawing,
}

impl Stage {
    /// Position of a stage in the frame.
    pub open spec fn spec_rank(&self) -> int {
        match self {
            Stage::Tracing => 0,
            Stage::TemporalResampling => 1,
            Stage::SpatialResampling => 2,
            Stage::Resolving => 3,
            Stage::Drawing => 4,
        }
    }

    /// The stage that follows, if any.
    pub open spec fn spec_next(&self) -> Option<Stage> {
        match self {
            Stage::Tracing => Some(Stage::TemporalResampling),
            Stage::TemporalResampling => Some(Stage::SpatialResampling),
            Stage::SpatialResampling => Some(Stage::Resolving),
            Stage::Resolving => Some(Stage::Drawing),
            Stage::Drawing => None,
        }
    }

    /// The stage that opens a frame.
    pub fn first() -> (r: Stage)
        ensures
            r == Stage::Tracing,
            r.spec_rank() == 0,
    {
        Stage::Tracing
    }

    /// The stage to run once this one is complete; none after drawing, which
    /// ends the frame.
    pub fn next(&self) -> (r: Option<Stage>)
        ensures
            r == self.spec_next(),
            r matches Some(s) ==> s.spec_rank() == self.spec_rank() + 1,
            r is None <==> *self == Stage::Drawing,
    {
        match self {
            Stage::Tracing => Some(Stage::TemporalResampling),
            Stage::TemporalResampling => Some(Stage::SpatialResampling),
            Stage::SpatialResampling => Some(Stage::Resolving),
            Stage::Resolving => Some(Stage::Drawing),
            Stage::Drawing => None,
        }
    }

    /// The order of the stages is total and strict: ranks tell stages apart.
    pub proof fn lemma_rank_injective(a: Stage, b: Stage)
        requires
            a.spec_rank() == b.spec_rank(),
        ensures
            a == b,
    {
    }
}

/// What a controller does next.
#[derive(Clone, Copy, Debug, PartialEq, Eq, Structural)]
pub enum Step {
    /// Record this stage's pass.
    Run(Stage),
    /// The frame is complete.
    Done,
}

/// Drives the passes of one camera.
#[derive(Clone, Copy, Debug, PartialEq, Eq)]
pub struct CameraController {
    pub camera: Camera,
    pub frame: u32,
    /// The stage to run next; none between frames.
    pub stage: Option<Stage>,
}

impl CameraController {
    /// A controller for a camera that was not seen before.
    pub fn new(camera: Camera) -> (r: CameraController)
        ensures
            r == (CameraController { camera, frame: 0, stage: None }),
    {
        CameraController { camera, frame: 0, stage: None }
    }

    /// What updating the camera leads to. A viewport of another size
    /// starts history over at frame zero; any other change keeps it.
    pub open spec fn spec_update(&self, camera: Camera) -> CameraController {
        if camera.spec_is_invalidated_by(&self.camera) {
            CameraController { camera, frame: 0, stage: None }
        } else {
            CameraController { camera, frame: self.frame, stage: self.stage }
        }
    }

    /// Takes this frame's camera from the host. Returns whether the
    /// per-camera buffers have to be made anew, which discards all history.
    pub fn update(&mut self, camera: Camera) -> (rebuild: bool)
        ensures
            *final(self) == old(self).spec_update(camera),
            rebuild == camera.spec_is_invalidated_by(&old(self).camera),
    {
        let rebuild = camera.is_invalidated_by(&self.camera);
        if rebuild {
            self.frame = 0;
            self.stage = None;
        }
        self.camera = camera;
        rebuild
    }

    /// State after the next step, and the step.
    pub open spec fn spec_advance(&self) -> (CameraController, Step) {
        match self.stage {
            None => (
                CameraController { stage: Some(Stage::Tracing), ..*self },
                Step::Run(Stage::Tracing),
            ),
            Some(done) => match done.spec_next() {
                Some(next) => (
                    CameraController { stage: Some(next), ..*self },
                    Step::Run(next),
                ),
                None => (
                    CameraController {
                        stage: None,
                        frame: if self.frame == u32::MAX {
                            0
                        } else {
                            (self.frame + 1) as u32
                        },
                        ..*self
                    },
                    Step::Done,
                ),
            },
        }
    }

    /// Moves on by one step. Between frames the step is tracing; after
    /// drawing the frame is done and the frame counter goes up by one,
    /// starting over after `u32::MAX`.
    pub fn advance(&mut self) -> (step: Step)
        ensures
            (*final(self), step) == old(self).spec_advance(),
            final(self).camera == old(self).camera,
    {
        match self.stage {
            None => {
                self.stage = Some(Stage::Tracing);
                Step::Run(Stage::Tracing)
            },
            Some(done) => match done.next() {
                Some(next) => {
                    self.stage = Some(next);
                    Step::Run(next)
                },
                None => {
                    self.stage = None;
                    self.frame = if self.frame == u32::MAX {
                        0
                    } else {
                        self.frame + 1
                    };
                    Step::Done
                },
            },
        }
    }

    /// Parameters for a pass of this frame, with a fresh random seed.
    pub fn pass_params(&self) -> (r: PassParams)
        ensures
            r.frame == self.frame,
    {
        PassParams { seed: random_seed(), frame: self.frame }
    }

    /// From between two frames, six steps run the five stages in their
    /// order and end the frame.
    pub proof fn lemma_frame_order(c: CameraController)
        requires
            c.stage is None,
        ensures
            ({
                let s1 = c.spec_advance();
                let s2 = s1.0.spec_advance();
                let s3 = s2.0.spec_advance();
                let s4 = s3.0.spec_advance();
                let s5 = s4.0.spec_advance();
                let s6 = s5.0.spec_advance();
                &&& s1.1 == Step::Run(Stage::Tracing)
                &&& s2.1 == Step::Run(Stage::TemporalResampling)
                &&& s3.1 == Step::Run(Stage::SpatialResampling)
                &&& s4.1 == Step::Run(Stage::Resolving)
                &&& s5.1 == Step::Run(Stage::Drawing)
                &&& s6.1 == Step::Done
                &&& s6.0.stage is None
                &&& s6.0.camera == c.camera
                &&& c.frame < u32::MAX ==> s6.0.frame == c.frame + 1
            }),
    {
    }
}

} // verus!
