//! The order in which a dispatch plan is carried out.

use vstd::prelude::*;

verus! {

/// One step of carrying out a dispatch plan on a device and its queue.
#[derive(Clone, Copy, Debug, PartialEq, Eq)]
pub enum Step {
    /// Create the input texture.
    CreateInputTexture,
    /// Schedule the write of the image's pixels into the input texture.
    WriteInputTexture,
    /// Create the output texture.
    CreateOutputTexture,
    /// Create the default view of each of the two textures.
    CreateTextureViews,
    /// Create the bind group layout with its two entries.
    CreateBindGroupLayout,
    /// Create the bind group that puts each view at its binding.
    CreateBindGroup,
    /// Create the compute pipeline around the kernel's entry point.
    CreatePipeline,
    /// Encode the compute pass: set the pipeline, set the bind group, and
    /// dispatch the grid.
    EncodeComputePass,
    /// Create the readback buffer.
    CreateReadbackBuffer,
    /// Encode the copy of the output texture into the readback buffer.
    EncodeCopyToReadback,
    /// Submit the encoded commands to the queue.
    Submit,
}

impl Step {
    /// The place of this step in the order of a dispatch, counted from zero.
    pub open spec fn position(self) -> int {
        match self {
            Step::CreateInputTexture => 0,
            Step::WriteInputTexture => 1,
            Step::CreateOutputTexture => 2,
            Step::CreateTextureViews => 3,
            Step::CreateBindGroupLayout => 4,
            Step::CreateBindGroup => 5,
            Step::CreatePipeline => 6,
            Step::EncodeComputePass => 7,
            Step::CreateReadbackBuffer => 8,
            Step::EncodeCopyToReadback => 9,
            Step::Submit => 10,
        }
    }

    /// Whether this step uses what the step `other` has made or scheduled:
    /// a resource that `other` created, or an effect on a texture that this
    /// step's commands must come after.
    pub open spec fn needs(self, other: Step) -> bool {
        match self {
            Step::CreateInputTexture => false,
            Step::WriteInputTexture => other == Step::CreateInputTexture,
            Step::CreateOutputTexture => false,
            Step::CreateTextureViews => other == Step::CreateInputTexture || other
                == Step::CreateOutputTexture,
            Step::CreateBindGroupLayout => false,
            Step::CreateBindGroup => other == Step::CreateTextureViews || other
                == Step::CreateBindGroupLayout,
            Step::CreatePipeline => other == Step::CreateBindGroupLayout,
            Step::EncodeComputePass => other == Step::CreatePipeline || other
                == Step::CreateBindGroup,
            Step::CreateReadbackBuffer => false,
            Step::EncodeCopyToReadback => other == Step::CreateOutputTexture || other
                == Step::CreateReadbackBuffer || other == Step::EncodeComputePass,
            Step::Submit => other == Step::WriteInputTexture || other == Step::EncodeComputePass
                || other == Step::EncodeCopyToReadback,
        }
    }
}

/// The steps of a dispatch, in order.
pub open spec fn dispatch_steps_spec() -> Seq<Step> {
    seq![
        Step::CreateInputTexture,
        Step::WriteInputTexture,
        Step::CreateOutputTexture,
        Step::CreateTextureViews,
        Step::CreateBindGroupLayout,
        Step::CreateBindGroup,
        Step::CreatePipeline,
        Step::EncodeComputePass,
        Step::CreateReadbackBuffer,
        Step::EncodeCopyToReadback,
        Step::Submit,
    ]
}

/// Every step occurs once in the order of a dispatch, at its position, and
/// after every step that it needs: the upload is scheduled and the compute
/// pass encoded before the copy out of the output texture, and all of them
/// before the submission.
pub proof fn lemma_steps_follow_their_needs()
    ensures
        dispatch_steps_spec().len() == 11,
        forall|step: Step| 0 <= #[trigger] step.position() < 11 && dispatch_steps_spec()[step.position()] == step,
        forall|i: int| 0 <= i < 11 ==> (#[trigger] dispatch_steps_spec()[i]).position() == i,
        forall|step: Step, other: Step| #[trigger]
            step.needs(other) ==> other.position() < step.position(),
{
}

/// The steps of a dispatch, in order.
pub fn dispatch_steps() -> (steps: Vec<Step>)
    ensures
        steps@ == dispatch_steps_spec(),
{
    let steps = vec![
        Step::CreateInputTexture,
        Step::WriteInputTexture,
        Step::CreateOutputTexture,
        Step::CreateTextureViews,
        Step::CreateBindGroupLayout,
        Step::CreateBindGroup,
        Step::CreatePipeline,
        Step::EncodeComputePass,
        Step::CreateReadbackBuffer,
        Step::EncodeCopyToReadback,
        Step::Submit,
    ];
    assert(steps@ =~= dispatch_steps_spec());
    steps
}

} // verus!
