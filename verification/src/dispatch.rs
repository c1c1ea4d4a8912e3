//! The resources and commands of one compute dispatch over an image, as
//! plain values: what is created, what is bound, what is copied, and in which
//! layout.

use crate::layout::{
    image_bytes_spec, lemma_row_stride_bounds, readback_bytes, readback_bytes_spec, row_bytes,
    row_bytes_spec, row_stride, row_stride_spec, valid_size,
};
use vstd::prelude::*;

verus! {

/// The pixel format of a texture.
#[derive(Clone, Copy, Debug, PartialEq, Eq)]
pub enum TextureFormat {
    /// Four 8-bit channels, red first, each read as a fraction of 255.
    Rgba8Unorm,
}

/// The number of dimensions of a texture or of a view into one.
#[derive(Clone, Copy, Debug, PartialEq, Eq)]
pub enum TextureDimension {
    D1,
    D2,
    D3,
}

/// How a shader may touch a storage texture.
#[derive(Clone, Copy, Debug, PartialEq, Eq)]
pub enum StorageAccess {
    WriteOnly,
    ReadOnly,
    ReadWrite,
}

/// Width, height and depth of a texture or of a copy, in texels.
#[derive(Clone, Copy, Debug, PartialEq, Eq)]
pub struct Extent {
    pub width: u32,
    pub height: u32,
    pub depth_or_array_layers: u32,
}

/// What a texture may be used for.
#[derive(Clone, Copy, Debug, PartialEq, Eq)]
pub struct TextureUsage {
    pub copy_src: bool,
    pub copy_dst: bool,
    pub texture_binding: bool,
    pub storage_binding: bool,
}

/// A texture to create.
#[derive(Clone, Copy, Debug, PartialEq, Eq)]
pub struct TextureSpec {
    pub size: Extent,
    pub mip_level_count: u32,
    pub sample_count: u32,
    pub dimension: TextureDimension,
    pub format: TextureFormat,
    pub usage: TextureUsage,
}

/// The shader stages that can see a binding.
#[derive(Clone, Copy, Debug, PartialEq, Eq)]
pub struct ShaderStages {
    pub vertex: bool,
    pub fragment: bool,
    pub compute: bool,
}

/// What a binding of the bind group layout holds.
#[derive(Clone, Copy, Debug, PartialEq, Eq)]
pub enum BindingKind {
    /// A texture whose texels the shader reads as floating point values.
    SampledFloatTexture { view_dimension: TextureDimension, filterable: bool, multisampled: bool },
    /// A texture that the shader accesses texel by texel, without a sampler.
    StorageTexture { view_dimension: TextureDimension, format: TextureFormat, access: StorageAccess },
}

/// Which of the two textures of a dispatch.
#[derive(Clone, Copy, Debug, PartialEq, Eq)]
pub enum TextureRole {
    /// The texture that holds the image as it came in.
    Input,
    /// The texture that the kernel fills.
    Output,
}

/// One entry of the bind group layout, together with the texture whose
/// default view the bind group puts there.
#[derive(Clone, Copy, Debug, PartialEq, Eq)]
pub struct BindingSlot {
    pub binding: u32,
    pub visibility: ShaderStages,
    pub kind: BindingKind,
    pub texture: TextureRole,
}

/// How the rows of an image lie in linear memory.
#[derive(Clone, Copy, Debug, PartialEq, Eq)]
pub struct DataLayout {
    pub offset: u64,
    pub bytes_per_row: u32,
    pub rows_per_image: u32,
}

/// What a buffer may be used for.
#[derive(Clone, Copy, Debug, PartialEq, Eq)]
pub struct BufferUsage {
    pub map_read: bool,
    pub copy_dst: bool,
}

/// A buffer to create.
#[derive(Clone, Copy, Debug, PartialEq, Eq)]
pub struct BufferSpec {
    pub size: u64,
    pub usage: BufferUsage,
    pub mapped_at_creation: bool,
}

/// A count in each of the three directions of the compute grid: workgroups
/// in a dispatch, or invocations in a workgroup.
#[derive(Clone, Copy, Debug, PartialEq, Eq)]
pub struct Workgroups {
    pub x: u32,
    pub y: u32,
    pub z: u32,
}

/// The values of everything that one dispatch creates and encodes: the input
/// texture and the upload into it, the output texture, the two bindings, the
/// pipeline's entry point, the compute pass, the readback buffer and the copy
/// of the output texture into it.
#[derive(Clone, Copy, Debug, PartialEq, Eq)]
pub struct DispatchPlan {
    /// The size of both textures and of both copies.
    pub extent: Extent,
    /// The texture that the kernel samples.
    pub input: TextureSpec,
    /// The layout of the pixels handed to the host-to-texture write.
    pub upload: DataLayout,
    /// The texture that the kernel writes.
    pub output: TextureSpec,
    /// The index at which the compute pass sets the bind group.
    pub bind_group_index: u32,
    /// The first binding of the group: the input texture, sampled.
    pub sampled_input: BindingSlot,
    /// The second binding of the group: the output texture, as storage.
    pub storage_output: BindingSlot,
    /// The name of the kernel's entry point.
    pub entry_point: &'static str,
    /// Bytes of push constants that the pipeline layout reserves.
    pub push_constant_bytes: u32,
    /// The invocations in one workgroup, which the kernel declares.
    pub workgroup_size: Workgroups,
    /// The workgroups that the compute pass launches.
    pub workgroups: Workgroups,
    /// The buffer that the output texture is copied into.
    pub readback: BufferSpec,
    /// The layout of the rows in the readback buffer.
    pub download: DataLayout,
}

/// A 2D extent of `width` by `height` texels, one layer deep.
pub open spec fn extent_2d(width: u32, height: u32) -> Extent {
    Extent { width, height, depth_or_array_layers: 1 }
}

/// A 2D RGBA8 texture with one mip level and one sample per texel.
pub open spec fn texture_2d(size: Extent, usage: TextureUsage) -> TextureSpec {
    TextureSpec {
        size,
        mip_level_count: 1,
        sample_count: 1,
        dimension: TextureDimension::D2,
        format: TextureFormat::Rgba8Unorm,
        usage,
    }
}

/// Usage of the input texture: bound for sampling, filled by a copy.
pub open spec fn input_usage() -> TextureUsage {
    TextureUsage { copy_src: false, copy_dst: true, texture_binding: true, storage_binding: false }
}

/// Usage of the output texture: bound as storage, read by a copy.
pub open spec fn output_usage() -> TextureUsage {
    TextureUsage { copy_src: true, copy_dst: false, texture_binding: false, storage_binding: true }
}

/// Visible to the compute stage and to no other.
pub open spec fn compute_only() -> ShaderStages {
    ShaderStages { vertex: false, fragment: false, compute: true }
}

impl DispatchPlan {
    /// Whether the compute pass runs the kernel at grid coordinate
    /// `(x, y, z)`: the grid has `workgroups` times `workgroup_size`
    /// invocations in each direction, each coordinate once.
    pub open spec fn invokes(self, x: int, y: int, z: int) -> bool {
        &&& 0 <= x < self.workgroups.x * self.workgroup_size.x
        &&& 0 <= y < self.workgroups.y * self.workgroup_size.y
        &&& 0 <= z < self.workgroups.z * self.workgroup_size.z
    }
}

/// The plan of the dispatch over an image of `width` by `height` pixels.
pub open spec fn dispatch_plan_spec(width: u32, height: u32) -> DispatchPlan {
    DispatchPlan {
        extent: extent_2d(width, height),
        input: texture_2d(extent_2d(width, height), input_usage()),
        upload: DataLayout {
            offset: 0,
            bytes_per_row: row_bytes_spec(width as nat) as u32,
            rows_per_image: height,
        },
        output: texture_2d(extent_2d(width, height), output_usage()),
        bind_group_index: 0,
        sampled_input: BindingSlot {
            binding: 0,
            visibility: compute_only(),
            kind: BindingKind::SampledFloatTexture {
                view_dimension: TextureDimension::D2,
                filterable: true,
                multisampled: false,
            },
            texture: TextureRole::Input,
        },
        storage_output: BindingSlot {
            binding: 1,
            visibility: compute_only(),
            kind: BindingKind::StorageTexture {
                view_dimension: TextureDimension::D2,
                format: TextureFormat::Rgba8Unorm,
                access: StorageAccess::WriteOnly,
            },
            texture: TextureRole::Output,
        },
        entry_point: "basic",
        push_constant_bytes: 0,
        workgroup_size: Workgroups { x: 1, y: 1, z: 1 },
        workgroups: Workgroups { x: width, y: height, z: 1 },
        readback: BufferSpec {
            size: readback_bytes_spec(width as nat, height as nat) as u64,
            usage: BufferUsage { map_read: true, copy_dst: true },
            mapped_at_creation: false,
        },
        download: DataLayout {
            offset: 0,
            bytes_per_row: row_stride_spec(width as nat) as u32,
            rows_per_image: height,
        },
    }
}

/// The numbers of the plan fit their types and agree with each other: the
/// upload reads exactly the image's bytes in unpadded rows; the rows of the
/// download are aligned, at least as long as the image's rows, and all of them
/// end inside the readback buffer, which they fill.
pub proof fn lemma_dispatch_plan_layout(width: u32, height: u32)
    requires
        valid_size(width, height),
    ensures
        ({
            let plan = dispatch_plan_spec(width, height);
            &&& plan.upload.bytes_per_row == 4 * width
            &&& plan.upload.bytes_per_row * plan.upload.rows_per_image == image_bytes_spec(
                width as nat,
                height as nat,
            )
            &&& plan.download.bytes_per_row == row_stride_spec(width as nat)
            &&& plan.download.bytes_per_row % 256 == 0
            &&& plan.download.bytes_per_row >= plan.upload.bytes_per_row
            &&& plan.readback.size == plan.download.bytes_per_row * plan.download.rows_per_image
            &&& plan.download.offset + (height - 1) * plan.download.bytes_per_row + 4 * width
                <= plan.readback.size
        }),
{
    lemma_row_stride_bounds(width as nat);
    let stride = row_stride_spec(width as nat);
    assert(stride * height <= u64::MAX) by (nonlinear_arith)
        requires
            stride <= u32::MAX,
            height <= u32::MAX,
    ;
    assert((height - 1) * stride + stride == stride * height) by (nonlinear_arith);
}

/// The compute pass runs the kernel once at every pixel of the image and
/// nowhere else.
pub proof fn lemma_one_invocation_per_pixel(width: u32, height: u32)
    ensures
        forall|x: int, y: int, z: int| #[trigger]
            dispatch_plan_spec(width, height).invokes(x, y, z) <==> 0 <= x < width && 0 <= y
                < height && z == 0,
{
}

/// Plans the dispatch over an image of `width` by `height` pixels.
pub fn plan_dispatch(width: u32, height: u32) -> (plan: DispatchPlan)
    requires
        valid_size(width, height),
    ensures
        plan == dispatch_plan_spec(width, height),
{
    let extent = Extent { width, height, depth_or_array_layers: 1 };
    let input = TextureSpec {
        size: extent,
        mip_level_count: 1,
        sample_count: 1,
        dimension: TextureDimension::D2,
        format: TextureFormat::Rgba8Unorm,
        usage: TextureUsage {
            copy_src: false,
            copy_dst: true,
            texture_binding: true,
            storage_binding: false,
        },
    };
    let output = TextureSpec {
        size: extent,
        mip_level_count: 1,
        sample_count: 1,
        dimension: TextureDimension::D2,
        format: TextureFormat::Rgba8Unorm,
        usage: TextureUsage {
            copy_src: true,
            copy_dst: false,
            texture_binding: false,
            storage_binding: true,
        },
    };
    let visibility = ShaderStages { vertex: false, fragment: false, compute: true };
    DispatchPlan {
        extent,
        input,
        upload: DataLayout { offset: 0, bytes_per_row: row_bytes(width), rows_per_image: height },
        output,
        bind_group_index: 0,
        sampled_input: BindingSlot {
            binding: 0,
            visibility,
            kind: BindingKind::SampledFloatTexture {
                view_dimension: TextureDimension::D2,
                filterable: true,
                multisampled: false,
            },
            texture: TextureRole::Input,
        },
        storage_output: BindingSlot {
            binding: 1,
            visibility,
            kind: BindingKind::StorageTexture {
                view_dimension: TextureDimension::D2,
                format: TextureFormat::Rgba8Unorm,
                access: StorageAccess::WriteOnly,
            },
            texture: TextureRole::Output,
        },
        entry_point: "basic",
        push_constant_bytes: 0,
        workgroup_size: Workgroups { x: 1, y: 1, z: 1 },
        workgroups: Workgroups { x: width, y: height, z: 1 },
        readback: BufferSpec {
            size: readback_bytes(width, height),
            usage: BufferUsage { map_read: true, copy_dst: true },
            mapped_at_creation: false,
        },
        download: DataLayout { offset: 0, bytes_per_row: row_stride(width), rows_per_image: height },
    }
}

} // verus!
