//! Flag sets passed to the native library.

use vstd::prelude::*;

verus! {

/// Optional device features requested at device creation.
#[derive(Clone, Copy, PartialEq, Eq, Structural, Debug, Default)]
pub struct DeviceFlags {
    bits: u64,
}

impl DeviceFlags {
    // The bits of each flag, to be used with `from_bits_retain`.
    pub const BUFFER_DEVICE_ADDRESS_CAPTURE_REPLAY_BIT: u64 = 1;
    pub const CONSERVATIVE_RASTERIZATION: u64 = 2;
    pub const MESH_SHADER_BIT: u64 = 4;
    pub const SHADER_ATOMIC64: u64 = 8;
    pub const IMAGE_ATOMIC64: u64 = 16;
    pub const VK_MEMORY_MODEL: u64 = 32;

    /// The raw bits, as contracts see them.
    pub closed spec fn spec_bits(&self) -> u64 {
        self.bits
    }

    /// The set with no flag.
    pub fn empty() -> (r: DeviceFlags)
        ensures
            r.spec_bits() == 0,
    {
        DeviceFlags { bits: 0 }
    }

    /// The set whose bits are exactly `bits`, known flags or not.
    pub fn from_bits_retain(bits: u64) -> (r: DeviceFlags)
        ensures
            r.spec_bits() == bits,
    {
        DeviceFlags { bits }
    }

    /// The raw bits of the set.
    pub fn bits(&self) -> (r: u64)
        ensures
            r == self.spec_bits(),
    {
        self.bits
    }

    /// Whether every flag of `other` is in this set.
    pub fn contains(&self, other: DeviceFlags) -> (r: bool)
        ensures
            r == (self.spec_bits() & other.spec_bits() == other.spec_bits()),
    {
        self.bits & other.bits == other.bits
    }

    /// The flags that are in either set.
    pub fn union(self, other: DeviceFlags) -> (r: DeviceFlags)
        ensures
            r.spec_bits() == self.spec_bits() | other.spec_bits(),
    {
        DeviceFlags { bits: self.bits | other.bits }
    }

    /// Adds the flags of `other` to this set.
    pub fn insert(&mut self, other: DeviceFlags)
        ensures
            final(self).spec_bits() == old(self).spec_bits() | other.spec_bits(),
    {
        self.bits = self.bits | other.bits;
    }
}

/// A set of pipeline stages, as used in command submission.
#[derive(Clone, Copy, PartialEq, Eq, Structural, Debug, Default)]
pub struct PipelineStageFlags {
    bits: i32,
}

impl PipelineStageFlags {
    // The bits of each stage, to be used with `from_bits_retain`.
    pub const TOP_OF_PIPE_BIT: i32 = 0x1;
    pub const DRAW_INDIRECT_BIT: i32 = 0x2;
    pub const VERTEX_INPUT_BIT: i32 = 0x4;
    pub const VERTEX_SHADER_BIT: i32 = 0x8;
    pub const TESSELLATION_CONTROL_SHADER_BIT: i32 = 0x10;
    pub const TESSELLATION_EVALUATION_SHADER_BIT: i32 = 0x20;
    pub const GEOMETRY_SHADER_BIT: i32 = 0x40;
    pub const FRAGMENT_SHADER_BIT: i32 = 0x80;
    pub const EARLY_FRAGMENT_TESTS_BIT: i32 = 0x100;
    pub const LATE_FRAGMENT_TESTS_BIT: i32 = 0x200;
    pub const COLOR_ATTACHMENT_OUTPUT_BIT: i32 = 0x400;
    pub const COMPUTE_SHADER_BIT: i32 = 0x800;
    pub const TRANSFER_BIT: i32 = 0x1000;
    pub const BOTTOM_OF_PIPE_BIT: i32 = 0x2000;
    pub const HOST_BIT: i32 = 0x4000;
    pub const ALL_GRAPHICS_BIT: i32 = 0x8000;
    pub const ALL_COMMANDS_BIT: i32 = 0x10000;
    pub const NONE: i32 = 0;
    pub const TRANSFORM_FEEDBACK_BIT_EXT: i32 = 0x0100_0000;
    pub const CONDITIONAL_RENDERING_BIT_EXT: i32 = 0x0004_0000;
    pub const ACCELERATION_STRUCTURE_BUILD_BIT_KHR: i32 = 0x0200_0000;
    pub const RAY_TRACING_SHADER_BIT_KHR: i32 = 0x0020_0000;
    pub const FRAGMENT_DENSITY_PROCESS_BIT_EXT: i32 = 0x0080_0000;
    pub const FRAGMENT_SHADING_RATE_ATTACHMENT_BIT_KHR: i32 = 0x0040_0000;
    pub const COMMAND_PREPROCESS_BIT_NV: i32 = 0x0002_0000;
    pub const TASK_SHADER_BIT_EXT: i32 = 0x0008_0000;
    pub const MESH_SHADER_BIT_EXT: i32 = 0x0010_0000;
    pub const SHADING_RATE_IMAGE_BIT_NV: i32 = 0x0040_0000;
    pub const RAY_TRACING_SHADER_BIT_NV: i32 = 0x0020_0000;
    pub const ACCELERATION_STRUCTURE_BUILD_BIT_NV: i32 = 0x0200_0000;
    pub const TASK_SHADER_BIT_NV: i32 = 0x0008_0000;
    pub const MESH_SHADER_BIT_NV: i32 = 0x0010_0000;
    pub const NONE_KHR: i32 = 0;

    /// The raw bits, as contracts see them.
    pub closed spec fn spec_bits(&self) -> i32 {
        self.bits
    }

    /// The set with no flag.
    pub fn empty() -> (r: PipelineStageFlags)
        ensures
            r.spec_bits() == 0,
    {
        PipelineStageFlags { bits: 0 }
    }

    /// The set whose bits are exactly `bits`, known flags or not.
    pub fn from_bits_retain(bits: i32) -> (r: PipelineStageFlags)
        ensures
            r.spec_bits() == bits,
    {
        PipelineStageFlags { bits }
    }

    /// The raw bits of the set.
    pub fn bits(&self) -> (r: i32)
        ensures
            r == self.spec_bits(),
    {
        self.bits
    }

    /// Whether every flag of `other` is in this set.
    pub fn contains(&self, other: PipelineStageFlags) -> (r: bool)
        ensures
            r == (self.spec_bits() & other.spec_bits() == other.spec_bits()),
    {
        self.bits & other.bits == other.bits
    }

    /// The flags that are in either set.
    pub fn union(self, other: PipelineStageFlags) -> (r: PipelineStageFlags)
        ensures
            r.spec_bits() == self.spec_bits() | other.spec_bits(),
    {
        PipelineStageFlags { bits: self.bits | other.bits }
    }

    /// Adds the flags of `other` to this set.
    pub fn insert(&mut self, other: PipelineStageFlags)
        ensures
            final(self).spec_bits() == old(self).spec_bits() | other.spec_bits(),
    {
        self.bits = self.bits | other.bits;
    }
}

} // verus!
