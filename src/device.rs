//! The device wrapper and the resource wrappers it hands out.

use vstd::prelude::*;
use crate::status::{StatusCode, SUCCESS, check_status, translated, with_status};

verus! {

/// The native handle of a logical device, as an opaque integer.
#[derive(Clone, Copy, PartialEq, Eq, Structural, Debug)]
pub struct DeviceHandle {
    pub raw: u64,
}

/// Native identifier of a buffer.
#[derive(Clone, Copy, PartialEq, Eq, Structural, Debug)]
pub struct BufferId {
    pub value: u64,
}

/// A buffer created by a device, with the device that created it.
#[derive(Clone, Copy, PartialEq, Eq, Structural, Debug)]
pub struct Buffer {
    device: DeviceHandle,
    handle: BufferId,
}

impl Buffer {
    /// The creating device, as contracts see it.
    pub closed spec fn spec_device(&self) -> DeviceHandle {
        self.device
    }

    /// The native identifier, as contracts see it.
    pub closed spec fn spec_id(&self) -> BufferId {
        self.handle
    }

    /// The native identifier of this buffer.
    pub fn id(&self) -> (r: BufferId)
        ensures
            r == self.spec_id(),
    {
        self.handle
    }

    /// The device that created this buffer.
    pub fn device(&self) -> (r: DeviceHandle)
        ensures
            r == self.spec_device(),
    {
        self.device
    }
}

/// Native identifier of an image.
#[derive(Clone, Copy, PartialEq, Eq, Structural, Debug)]
pub struct ImageId {
    pub value: u64,
}

/// Native identifier of an image view.
#[derive(Clone, Copy, PartialEq, Eq, Structural, Debug)]
pub struct ImageViewId {
    pub value: u64,
}

/// Native identifier of a sampler.
#[derive(Clone, Copy, PartialEq, Eq, Structural, Debug)]
pub struct SamplerId {
    pub value: u64,
}

/// An image created by a device, with the device that created it.
#[derive(Clone, Copy, PartialEq, Eq, Structural, Debug)]
pub struct Image {
    device: DeviceHandle,
    handle: ImageId,
}

impl Image {
    /// The creating device, as contracts see it.
    pub closed spec fn spec_device(&self) -> DeviceHandle {
        self.device
    }

    /// The native identifier, as contracts see it.
    pub closed spec fn spec_id(&self) -> ImageId {
        self.handle
    }

    /// The native identifier of this image.
    pub fn id(&self) -> (r: ImageId)
        ensures
            r == self.spec_id(),
    {
        self.handle
    }

    /// The device that created this image.
    pub fn device(&self) -> (r: DeviceHandle)
        ensures
            r == self.spec_device(),
    {
        self.device
    }
}

/// An image view created by a device, with the device that created it.
#[derive(Clone, Copy, PartialEq, Eq, Structural, Debug)]
pub struct ImageView {
    device: DeviceHandle,
    handle: ImageViewId,
}

impl ImageView {
    /// The creating device, as contracts see it.
    pub closed spec fn spec_device(&self) -> DeviceHandle {
        self.device
    }

    /// The native identifier, as contracts see it.
    pub closed spec fn spec_id(&self) -> ImageViewId {
        self.handle
    }

    /// The native identifier of this image view.
    pub fn id(&self) -> (r: ImageViewId)
        ensures
            r == self.spec_id(),
    {
        self.handle
    }

    /// The device that created this image view.
    pub fn device(&self) -> (r: DeviceHandle)
        ensures
            r == self.spec_device(),
    {
        self.device
    }
}

/// A sampler created by a device, with the device that created it.
#[derive(Clone, Copy, PartialEq, Eq, Structural, Debug)]
pub struct Sampler {
    device: DeviceHandle,
    handle: SamplerId,
}

impl Sampler {
    /// The creating device, as contracts see it.
    pub closed spec fn spec_device(&self) -> DeviceHandle {
        self.device
    }

    /// The native identifier, as contracts see it.
    pub closed spec fn spec_id(&self) -> SamplerId {
        self.handle
    }

    /// The native identifier of this sampler.
    pub fn id(&self) -> (r: SamplerId)
        ensures
            r == self.spec_id(),
    {
        self.handle
    }

    /// The device that created this sampler.
    pub fn device(&self) -> (r: DeviceHandle)
        ensures
            r == self.spec_device(),
    {
        self.device
    }
}

/// Native handle of a block of device memory; the native library owns what it refers to.
#[derive(Clone, Copy, PartialEq, Eq, Structural, Debug)]
pub struct MemoryBlock {
    pub handle: u64,
}

/// Native handle of a raster pipeline; the native library owns what it refers to.
#[derive(Clone, Copy, PartialEq, Eq, Structural, Debug)]
pub struct RasterPipeline {
    pub handle: u64,
}

/// Native handle of a compute pipeline; the native library owns what it refers to.
#[derive(Clone, Copy, PartialEq, Eq, Structural, Debug)]
pub struct ComputePipeline {
    pub handle: u64,
}

/// Native handle of a swapchain; the native library owns what it refers to.
#[derive(Clone, Copy, PartialEq, Eq, Structural, Debug)]
pub struct Swapchain {
    pub handle: u64,
}

/// Native handle of a command recorder; the native library owns what it refers to.
#[derive(Clone, Copy, PartialEq, Eq, Structural, Debug)]
pub struct CommandRecorder {
    pub handle: u64,
}

/// Native handle of a binary semaphore; the native library owns what it refers to.
#[derive(Clone, Copy, PartialEq, Eq, Structural, Debug)]
pub struct BinarySemaphore {
    pub handle: u64,
}

/// Native handle of a timeline semaphore; the native library owns what it refers to.
#[derive(Clone, Copy, PartialEq, Eq, Structural, Debug)]
pub struct TimelineSemaphore {
    pub handle: u64,
}

/// Native handle of an event; the native library owns what it refers to.
#[derive(Clone, Copy, PartialEq, Eq, Structural, Debug)]
pub struct Event {
    pub handle: u64,
}

/// Native handle of a timeline query pool; the native library owns what it refers to.
#[derive(Clone, Copy, PartialEq, Eq, Structural, Debug)]
pub struct TimelineQueryPool {
    pub handle: u64,
}

/// What is known of a device wrapper: its native handle, and whether the
/// native device has been handed over for destruction.
pub ghost struct DeviceView {
    pub handle: DeviceHandle,
    pub released: bool,
}

/// The state of a device after a destruction attempt.
pub open spec fn released_after(v: DeviceView) -> DeviceView {
    DeviceView { released: true, ..v }
}

/// The native handle that a destruction attempt hands to the native
/// destroy entry point, if any.
pub open spec fn destroy_request(v: DeviceView) -> Option<DeviceHandle> {
    if v.released {
        None
    } else {
        Some(v.handle)
    }
}

/// How many native destroy calls `n` successive destruction attempts on a
/// device in state `v` request.
pub open spec fn destroy_calls(v: DeviceView, n: nat) -> nat
    decreases n,
{
    if n == 0 {
        0
    } else {
        (if destroy_request(v) is Some { 1nat } else { 0nat }) + destroy_calls(released_after(v), (n - 1) as nat)
    }
}

/// However often destruction is attempted, a live device has its native
/// destroy entry point invoked exactly once, and a released one never again.
pub proof fn lemma_destroyed_once(v: DeviceView, n: nat)
    requires
        n >= 1,
    ensures
        destroy_calls(v, n) == (if v.released { 0nat } else { 1nat }),
    decreases n,
{
    if n == 1 {
        assert(destroy_calls(released_after(v), 0) == 0);
    } else {
        lemma_destroyed_once(released_after(v), (n - 1) as nat);
    }
}

/// Exclusive owner of a native device handle.
pub struct Device {
    handle: DeviceHandle,
    released: bool,
}

impl View for Device {
    type V = DeviceView;

    closed spec fn view(&self) -> DeviceView {
        DeviceView { handle: self.handle, released: self.released }
    }
}

impl Device {
    /// Takes ownership of a native device handle.
    pub fn new(handle: DeviceHandle) -> (r: Device)
        ensures
            r@ == (DeviceView { handle, released: false }),
    {
        Device { handle, released: false }
    }

    /// The native handle of this device.
    pub fn handle(&self) -> (r: DeviceHandle)
        ensures
            r == self@.handle,
    {
        self.handle
    }

    /// Whether the native device has already been handed over for destruction.
    pub fn is_released(&self) -> (r: bool)
        ensures
            r == self@.released,
    {
        self.released
    }

    /// Hands the native handle over for destruction, the first time only.
    ///
    /// The caller passes the returned handle to the native destroy entry
    /// point; every later call returns `None`, so the native device is
    /// destroyed at most once.
    pub fn release(&mut self) -> (r: Option<DeviceHandle>)
        ensures
            r == destroy_request(old(self)@),
            final(self)@ == released_after(old(self)@),
    {
        if self.released {
            None
        } else {
            self.released = true;
            Some(self.handle)
        }
    }

    /// Completes buffer creation from what the native create call reported:
    /// its status code and the identifier it wrote out.
    pub fn create_buffer(&self, status: StatusCode, handle: BufferId) -> (r: Result<Buffer, StatusCode>)
        ensures
            r is Ok <==> status == SUCCESS,
            r matches Ok(b) ==> b.spec_id() == handle && b.spec_device() == self@.handle,
            r matches Err(code) ==> code == status,
    {
        with_status(status, Buffer { device: self.handle, handle })
    }
    /// Completes image creation from what the native create call reported:
    /// its status code and the identifier it wrote out.
    pub fn create_image(&self, status: StatusCode, handle: ImageId) -> (r: Result<Image, StatusCode>)
        ensures
            r is Ok <==> status == SUCCESS,
            r matches Ok(x) ==> x.spec_id() == handle && x.spec_device() == self@.handle,
            r matches Err(code) ==> code == status,
    {
        with_status(status, Image { device: self.handle, handle })
    }

    /// Completes image view creation from what the native create call reported:
    /// its status code and the identifier it wrote out.
    pub fn create_image_view(&self, status: StatusCode, handle: ImageViewId) -> (r: Result<ImageView, StatusCode>)
        ensures
            r is Ok <==> status == SUCCESS,
            r matches Ok(x) ==> x.spec_id() == handle && x.spec_device() == self@.handle,
            r matches Err(code) ==> code == status,
    {
        with_status(status, ImageView { device: self.handle, handle })
    }

    /// Completes sampler creation from what the native create call reported:
    /// its status code and the identifier it wrote out.
    pub fn create_sampler(&self, status: StatusCode, handle: SamplerId) -> (r: Result<Sampler, StatusCode>)
        ensures
            r is Ok <==> status == SUCCESS,
            r matches Ok(x) ==> x.spec_id() == handle && x.spec_device() == self@.handle,
            r matches Err(code) ==> code == status,
    {
        with_status(status, Sampler { device: self.handle, handle })
    }

    /// Completes the creation of a block of device memory from what the native create call
    /// reported: its status code and the handle it wrote out.
    pub fn create_memory(&self, status: StatusCode, handle: MemoryBlock) -> (r: Result<MemoryBlock, StatusCode>)
        ensures
            r == translated(status, handle),
    {
        with_status(status, handle)
    }

    /// Completes the creation of a raster pipeline from what the native create call
    /// reported: its status code and the handle it wrote out.
    pub fn create_raster_pipeline(&self, status: StatusCode, handle: RasterPipeline) -> (r: Result<RasterPipeline, StatusCode>)
        ensures
            r == translated(status, handle),
    {
        with_status(status, handle)
    }

    /// Completes the creation of a compute pipeline from what the native create call
    /// reported: its status code and the handle it wrote out.
    pub fn create_compute_pipeline(&self, status: StatusCode, handle: ComputePipeline) -> (r: Result<ComputePipeline, StatusCode>)
        ensures
            r == translated(status, handle),
    {
        with_status(status, handle)
    }

    /// Completes the creation of a swapchain from what the native create call
    /// reported: its status code and the handle it wrote out.
    pub fn create_swapchain(&self, status: StatusCode, handle: Swapchain) -> (r: Result<Swapchain, StatusCode>)
        ensures
            r == translated(status, handle),
    {
        with_status(status, handle)
    }

    /// Completes the creation of a command recorder from what the native create call
    /// reported: its status code and the handle it wrote out.
    pub fn create_command_recorder(&self, status: StatusCode, handle: CommandRecorder) -> (r: Result<CommandRecorder, StatusCode>)
        ensures
            r == translated(status, handle),
    {
        with_status(status, handle)
    }

    /// Completes the creation of a binary semaphore from what the native create call
    /// reported: its status code and the handle it wrote out.
    pub fn create_binary_semaphore(&self, status: StatusCode, handle: BinarySemaphore) -> (r: Result<BinarySemaphore, StatusCode>)
        ensures
            r == translated(status, handle),
    {
        with_status(status, handle)
    }

    /// Completes the creation of a timeline semaphore from what the native create call
    /// reported: its status code and the handle it wrote out.
    pub fn create_timeline_semaphore(&self, status: StatusCode, handle: TimelineSemaphore) -> (r: Result<TimelineSemaphore, StatusCode>)
        ensures
            r == translated(status, handle),
    {
        with_status(status, handle)
    }

    /// Completes the creation of an event from what the native create call
    /// reported: its status code and the handle it wrote out.
    pub fn create_event(&self, status: StatusCode, handle: Event) -> (r: Result<Event, StatusCode>)
        ensures
            r == translated(status, handle),
    {
        with_status(status, handle)
    }

    /// Completes the creation of a timeline query pool from what the native create call
    /// reported: its status code and the handle it wrote out.
    pub fn create_timeline_query_pool(&self, status: StatusCode, handle: TimelineQueryPool) -> (r: Result<TimelineQueryPool, StatusCode>)
        ensures
            r == translated(status, handle),
    {
        with_status(status, handle)
    }

    /// Translates the status code of the native wait-idle call, which
    /// returns once the device's outstanding work has completed.
    pub fn wait_idle(&self, status: StatusCode) -> (r: Result<(), StatusCode>)
        ensures
            r == translated(status, ()),
    {
        check_status(status)
    }

    /// Translates the status code of the native garbage collection call.
    pub fn collect_garbage(&self, status: StatusCode) -> (r: Result<(), StatusCode>)
        ensures
            r == translated(status, ()),
    {
        check_status(status)
    }
}

} // verus!
