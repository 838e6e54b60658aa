//! The errors of the renderer.
//!
//! Every failure of the graphics API is reported under the step that met it
//! and carries vulkano's own error. Nothing is retried.

use vstd::prelude::*;
use vstd::std_specs::convert::FromSpecImpl;
use vulkano::command_buffer::{AutoCommandBufferBuilderContextError, DrawIndexedError};
use vulkano::descriptor_set::{PersistentDescriptorSetBuildError, PersistentDescriptorSetError};
use vulkano::image::view::ImageViewCreationError;
use vulkano::image::ImageCreationError;
use vulkano::memory::DeviceMemoryAllocError;
use vulkano::pipeline::GraphicsPipelineCreationError;
use vulkano::sampler::SamplerCreationError;
use vulkano::sync::FlushError;

verus! {

/// vulkano's error for a graphics pipeline that could not be built.
#[verifier::external_type_specification]
#[verifier::external_body]
pub struct ExGraphicsPipelineCreationError(vulkano::pipeline::GraphicsPipelineCreationError);

/// vulkano's error for a sampler that could not be created.
#[verifier::external_type_specification]
#[verifier::external_body]
pub struct ExSamplerCreationError(vulkano::sampler::SamplerCreationError);

/// vulkano's error for an image view that could not be created.
#[verifier::external_type_specification]
#[verifier::external_body]
pub struct ExImageViewCreationError(vulkano::image::view::ImageViewCreationError);

/// vulkano's error for a resource that does not fit the descriptor set's layout.
#[verifier::external_type_specification]
#[verifier::external_body]
pub struct ExPersistentDescriptorSetError(vulkano::descriptor_set::PersistentDescriptorSetError);

/// vulkano's error for a descriptor set that could not be built.
#[verifier::external_type_specification]
#[verifier::external_body]
pub struct ExPersistentDescriptorSetBuildError(vulkano::descriptor_set::PersistentDescriptorSetBuildError);

/// vulkano's error for a command recorded in the wrong place.
#[verifier::external_type_specification]
#[verifier::external_body]
pub struct ExAutoCommandBufferBuilderContextError(vulkano::command_buffer::AutoCommandBufferBuilderContextError);

/// vulkano's error for device memory that could not be allocated.
#[verifier::external_type_specification]
#[verifier::external_body]
pub struct ExDeviceMemoryAllocError(vulkano::memory::DeviceMemoryAllocError);

/// vulkano's error for an indexed draw that was refused.
#[verifier::external_type_specification]
#[verifier::external_body]
pub struct ExDrawIndexedError(vulkano::command_buffer::DrawIndexedError);

/// vulkano's error for an image that could not be created.
#[verifier::external_type_specification]
#[verifier::external_body]
pub struct ExImageCreationError(vulkano::image::ImageCreationError);

/// vulkano's error for a submission that could not be flushed.
#[verifier::external_type_specification]
#[verifier::external_body]
pub struct ExFlushError(vulkano::sync::FlushError);

/// Why a painter could not be created.
#[derive(Debug)]
pub enum PainterCreationError {
    /// The graphics pipeline could not be built.
    CreatePipelineFailed(GraphicsPipelineCreationError),
    /// The sampler of the font atlas could not be created.
    CreateSamplerFailed(SamplerCreationError),
}

impl From<GraphicsPipelineCreationError> for PainterCreationError {
    fn from(source: GraphicsPipelineCreationError) -> (out: PainterCreationError) {
        PainterCreationError::CreatePipelineFailed(source)
    }
}

impl FromSpecImpl<GraphicsPipelineCreationError> for PainterCreationError {
    open spec fn obeys_from_spec() -> bool {
        true
    }

    open spec fn from_spec(source: GraphicsPipelineCreationError) -> PainterCreationError {
        PainterCreationError::CreatePipelineFailed(source)
    }
}

impl From<SamplerCreationError> for PainterCreationError {
    fn from(source: SamplerCreationError) -> (out: PainterCreationError) {
        PainterCreationError::CreateSamplerFailed(source)
    }
}

impl FromSpecImpl<SamplerCreationError> for PainterCreationError {
    open spec fn obeys_from_spec() -> bool {
        true
    }

    open spec fn from_spec(source: SamplerCreationError) -> PainterCreationError {
        PainterCreationError::CreateSamplerFailed(source)
    }
}

/// Why the image of the font atlas could not be created.
#[derive(Debug)]
pub enum CreateTextureError {
    /// The image could not be allocated.
    CreateImageFailed(ImageCreationError),
    /// The upload of the pixels could not be flushed.
    FlushFailed(FlushError),
}

impl From<ImageCreationError> for CreateTextureError {
    fn from(source: ImageCreationError) -> (out: CreateTextureError) {
        CreateTextureError::CreateImageFailed(source)
    }
}

impl FromSpecImpl<ImageCreationError> for CreateTextureError {
    open spec fn obeys_from_spec() -> bool {
        true
    }

    open spec fn from_spec(source: ImageCreationError) -> CreateTextureError {
        CreateTextureError::CreateImageFailed(source)
    }
}

impl From<FlushError> for CreateTextureError {
    fn from(source: FlushError) -> (out: CreateTextureError) {
        CreateTextureError::FlushFailed(source)
    }
}

impl FromSpecImpl<FlushError> for CreateTextureError {
    open spec fn obeys_from_spec() -> bool {
        true
    }

    open spec fn from_spec(source: FlushError) -> CreateTextureError {
        CreateTextureError::FlushFailed(source)
    }
}

/// Why the binding of the font atlas could not be rebuilt.
#[derive(Debug)]
pub enum UpdateSetError {
    /// The image could not be created or filled.
    CreateTextureFailed(CreateTextureError),
    /// No view of the image could be created.
    CreateImageViewFailed(ImageViewCreationError),
    /// The sampled image does not fit the pipeline's layout.
    IncorrectDefinition(PersistentDescriptorSetError),
    /// The descriptor set could not be built.
    BuildFailed(PersistentDescriptorSetBuildError),
}

impl From<CreateTextureError> for UpdateSetError {
    fn from(source: CreateTextureError) -> (out: UpdateSetError) {
        UpdateSetError::CreateTextureFailed(source)
    }
}

impl FromSpecImpl<CreateTextureError> for UpdateSetError {
    open spec fn obeys_from_spec() -> bool {
        true
    }

    open spec fn from_spec(source: CreateTextureError) -> UpdateSetError {
        UpdateSetError::CreateTextureFailed(source)
    }
}

impl From<ImageViewCreationError> for UpdateSetError {
    fn from(source: ImageViewCreationError) -> (out: UpdateSetError) {
        UpdateSetError::CreateImageViewFailed(source)
    }
}

impl FromSpecImpl<ImageViewCreationError> for UpdateSetError {
    open spec fn obeys_from_spec() -> bool {
        true
    }

    open spec fn from_spec(source: ImageViewCreationError) -> UpdateSetError {
        UpdateSetError::CreateImageViewFailed(source)
    }
}

impl From<PersistentDescriptorSetError> for UpdateSetError {
    fn from(source: PersistentDescriptorSetError) -> (out: UpdateSetError) {
        UpdateSetError::IncorrectDefinition(source)
    }
}

impl FromSpecImpl<PersistentDescriptorSetError> for UpdateSetError {
    open spec fn obeys_from_spec() -> bool {
        true
    }

    open spec fn from_spec(source: PersistentDescriptorSetError) -> UpdateSetError {
        UpdateSetError::IncorrectDefinition(source)
    }
}

impl From<PersistentDescriptorSetBuildError> for UpdateSetError {
    fn from(source: PersistentDescriptorSetBuildError) -> (out: UpdateSetError) {
        UpdateSetError::BuildFailed(source)
    }
}

impl FromSpecImpl<PersistentDescriptorSetBuildError> for UpdateSetError {
    open spec fn obeys_from_spec() -> bool {
        true
    }

    open spec fn from_spec(source: PersistentDescriptorSetBuildError) -> UpdateSetError {
        UpdateSetError::BuildFailed(source)
    }
}

/// Why a frame could not be drawn.
#[derive(Debug)]
pub enum DrawError {
    /// The binding of the font atlas could not be rebuilt.
    UpdateSetFailed(UpdateSetError),
    /// The recorder could not enter the subpass of the interface.
    NextSubpassFailed(AutoCommandBufferBuilderContextError),
    /// The vertex or index buffer could not be allocated.
    CreateBuffersFailed(DeviceMemoryAllocError),
    /// The graphics API refused a draw.
    DrawIndexedFailed(DrawIndexedError),
}

impl From<UpdateSetError> for DrawError {
    fn from(source: UpdateSetError) -> (out: DrawError) {
        DrawError::UpdateSetFailed(source)
    }
}

impl FromSpecImpl<UpdateSetError> for DrawError {
    open spec fn obeys_from_spec() -> bool {
        true
    }

    open spec fn from_spec(source: UpdateSetError) -> DrawError {
        DrawError::UpdateSetFailed(source)
    }
}

impl From<AutoCommandBufferBuilderContextError> for DrawError {
    fn from(source: AutoCommandBufferBuilderContextError) -> (out: DrawError) {
        DrawError::NextSubpassFailed(source)
    }
}

impl FromSpecImpl<AutoCommandBufferBuilderContextError> for DrawError {
    open spec fn obeys_from_spec() -> bool {
        true
    }

    open spec fn from_spec(source: AutoCommandBufferBuilderContextError) -> DrawError {
        DrawError::NextSubpassFailed(source)
    }
}

impl From<DeviceMemoryAllocError> for DrawError {
    fn from(source: DeviceMemoryAllocError) -> (out: DrawError) {
        DrawError::CreateBuffersFailed(source)
    }
}

impl FromSpecImpl<DeviceMemoryAllocError> for DrawError {
    open spec fn obeys_from_spec() -> bool {
        true
    }

    open spec fn from_spec(source: DeviceMemoryAllocError) -> DrawError {
        DrawError::CreateBuffersFailed(source)
    }
}

impl From<DrawIndexedError> for DrawError {
    fn from(source: DrawIndexedError) -> (out: DrawError) {
        DrawError::DrawIndexedFailed(source)
    }
}

impl FromSpecImpl<DrawIndexedError> for DrawError {
    open spec fn obeys_from_spec() -> bool {
        true
    }

    open spec fn from_spec(source: DrawIndexedError) -> DrawError {
        DrawError::DrawIndexedFailed(source)
    }
}

} // verus!
