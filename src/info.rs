//! Descriptor values handed to the native library.

use vstd::prelude::*;
use crate::device::{BinarySemaphore, CommandRecorder, ImageId, Swapchain};
use crate::flags::{DeviceFlags, PipelineStageFlags};

verus! {

/// The kind of a physical device.
#[derive(Clone, Copy, PartialEq, Eq, Structural, Debug)]
pub enum DeviceType {
    Other,
    IntegratedGpu,
    DiscreteGpu,
    VirtualGpu,
    Cpu,
}

/// The native code of each device type.
pub open spec fn device_type_code(t: DeviceType) -> u32 {
    match t {
        DeviceType::Other => 0,
        DeviceType::IntegratedGpu => 1,
        DeviceType::DiscreteGpu => 2,
        DeviceType::VirtualGpu => 3,
        DeviceType::Cpu => 4,
    }
}

impl DeviceType {
    /// The native code of this device type.
    pub fn raw(&self) -> (r: u32)
        ensures
            r == device_type_code(*self),
    {
        match self {
            DeviceType::Other => 0,
            DeviceType::IntegratedGpu => 1,
            DeviceType::DiscreteGpu => 2,
            DeviceType::VirtualGpu => 3,
            DeviceType::Cpu => 4,
        }
    }

    /// The device type with native code `code`, if there is one.
    pub fn from_raw(code: u32) -> (r: Option<DeviceType>)
        ensures
            r is Some <==> code <= 4,
            r matches Some(t) ==> device_type_code(t) == code,
    {
        if code == 0 {
            Some(DeviceType::Other)
        } else if code == 1 {
            Some(DeviceType::IntegratedGpu)
        } else if code == 2 {
            Some(DeviceType::DiscreteGpu)
        } else if code == 3 {
            Some(DeviceType::VirtualGpu)
        } else if code == 4 {
            Some(DeviceType::Cpu)
        } else {
            None
        }
    }
}

/// The dimensionality of an image view.
#[derive(Clone, Copy, PartialEq, Eq, Structural, Debug)]
pub enum ImageViewType {
    OneDim,
    TwoDim,
    ThreeDim,
    Cube,
    OneDimArray,
    TwoDimArray,
    CubeArray,
}

/// The native code of each image view type.
pub open spec fn image_view_type_code(t: ImageViewType) -> i32 {
    match t {
        ImageViewType::OneDim => 0,
        ImageViewType::TwoDim => 1,
        ImageViewType::ThreeDim => 2,
        ImageViewType::Cube => 3,
        ImageViewType::OneDimArray => 4,
        ImageViewType::TwoDimArray => 5,
        ImageViewType::CubeArray => 6,
    }
}

impl ImageViewType {
    /// The native code of this image view type.
    pub fn raw(&self) -> (r: i32)
        ensures
            r == image_view_type_code(*self),
    {
        match self {
            ImageViewType::OneDim => 0,
            ImageViewType::TwoDim => 1,
            ImageViewType::ThreeDim => 2,
            ImageViewType::Cube => 3,
            ImageViewType::OneDimArray => 4,
            ImageViewType::TwoDimArray => 5,
            ImageViewType::CubeArray => 6,
        }
    }

    /// The image view type with native code `code`, if there is one.
    pub fn from_raw(code: i32) -> (r: Option<ImageViewType>)
        ensures
            r is Some <==> 0 <= code <= 6,
            r matches Some(t) ==> image_view_type_code(t) == code,
    {
        if code == 0 {
            Some(ImageViewType::OneDim)
        } else if code == 1 {
            Some(ImageViewType::TwoDim)
        } else if code == 2 {
            Some(ImageViewType::ThreeDim)
        } else if code == 3 {
            Some(ImageViewType::Cube)
        } else if code == 4 {
            Some(ImageViewType::OneDimArray)
        } else if code == 5 {
            Some(ImageViewType::TwoDimArray)
        } else if code == 6 {
            Some(ImageViewType::CubeArray)
        } else {
            None
        }
    }
}

/// A native texel format code.
pub type Format = i32;

/// A range of mip levels and array layers of an image.
#[derive(Clone, Copy, PartialEq, Eq, Structural, Debug, Default)]
pub struct ImageMipArraySlice {
    pub base_mip_level: u32,
    pub level_count: u32,
    pub base_array_layer: u32,
    pub layer_count: u32,
}

/// Describes an image view to create.
#[derive(Clone, Debug)]
pub struct ImageViewInfo {
    pub ty: ImageViewType,
    pub format: Format,
    pub image: ImageId,
    pub slice: ImageMipArraySlice,
    pub name: String,
}

/// Describes a sampler to create.
#[derive(Clone, Debug)]
pub struct SamplerInfo {
    pub ty: ImageViewType,
    pub format: Format,
    pub image: ImageId,
    pub slice: ImageMipArraySlice,
    pub name: String,
}

/// Describes the device to create. The device-selection callback is
/// supplied separately, at the native boundary.
#[derive(Clone, Debug)]
pub struct DeviceInfo {
    pub flags: DeviceFlags,
    pub max_allowed_images: u32,
    pub max_allowed_buffers: u32,
    pub max_allowed_samplers: u32,
    pub name: String,
}

/// How many resources of each kind a default device allows.
pub const DEFAULT_MAX_ALLOWED: u32 = 10000;

impl Default for DeviceInfo {
    /// Buffer device address capture and replay requested, the default
    /// resource limits, and no name.
    fn default() -> (r: DeviceInfo)
        ensures
            r.flags.spec_bits() == DeviceFlags::BUFFER_DEVICE_ADDRESS_CAPTURE_REPLAY_BIT,
            r.max_allowed_images == DEFAULT_MAX_ALLOWED,
            r.max_allowed_buffers == DEFAULT_MAX_ALLOWED,
            r.max_allowed_samplers == DEFAULT_MAX_ALLOWED,
            r.name@.len() == 0,
    {
        DeviceInfo {
            flags: DeviceFlags::from_bits_retain(DeviceFlags::BUFFER_DEVICE_ADDRESS_CAPTURE_REPLAY_BIT),
            max_allowed_images: DEFAULT_MAX_ALLOWED,
            max_allowed_buffers: DEFAULT_MAX_ALLOWED,
            max_allowed_samplers: DEFAULT_MAX_ALLOWED,
            name: String::new(),
        }
    }
}

/// What a command submission waits on, runs and signals.
#[derive(Clone, Debug)]
pub struct CommandSubmitInfo {
    pub wait_stages: PipelineStageFlags,
    pub cmd_recorders: Vec<CommandRecorder>,
    pub wait_binary_semaphores: Vec<BinarySemaphore>,
    pub signal_binary_semaphores: Vec<BinarySemaphore>,
    pub wait_timeline_semaphores: Vec<BinarySemaphore>,
    pub signal_timeline_semaphores: Vec<BinarySemaphore>,
}

/// What a presentation waits on, and the swapchain it presents to.
#[derive(Clone, Debug)]
pub struct PresentInfo {
    pub wait_binary_semaphores: Vec<BinarySemaphore>,
    pub swapchain: Swapchain,
}

} // verus!
