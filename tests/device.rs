use daxa::device::{
    BinarySemaphore, BufferId, CommandRecorder, ComputePipeline, Device, DeviceHandle, Event,
    ImageId, ImageViewId, MemoryBlock, RasterPipeline, SamplerId, Swapchain, TimelineQueryPool,
    TimelineSemaphore,
};
use daxa::status::{ERROR_OUT_OF_DEVICE_MEMORY, ERROR_OUT_OF_HOST_MEMORY, SUCCESS};

const DEVICE: DeviceHandle = DeviceHandle { raw: 0x5000 };

#[test]
fn buffer_accepted_by_native_yields_its_handle() {
    let device = Device::new(DEVICE);
    let canned = BufferId { value: 42 };
    let buffer = device.create_buffer(SUCCESS, canned).unwrap();
    assert_eq!(buffer.id(), canned);
    assert_eq!(buffer.device(), DEVICE);
}

#[test]
fn buffer_rejected_by_native_yields_its_code() {
    let device = Device::new(DEVICE);
    let r = device.create_buffer(ERROR_OUT_OF_DEVICE_MEMORY, BufferId { value: 42 });
    assert_eq!(r, Err(ERROR_OUT_OF_DEVICE_MEMORY));
}

#[test]
fn buffer_error_code_is_kept_verbatim() {
    let device = Device::new(DEVICE);
    let r = device.create_buffer(-1000011001, BufferId { value: 0 });
    assert_eq!(r, Err(-1000011001));
    let r = device.create_buffer(7, BufferId { value: 0 });
    assert_eq!(r, Err(7));
}

#[test]
fn image_creation_translates_status() {
    let device = Device::new(DEVICE);
    let image = device.create_image(SUCCESS, ImageId { value: 9 }).unwrap();
    assert_eq!(image.id(), ImageId { value: 9 });
    assert_eq!(image.device(), DEVICE);
    assert_eq!(
        device.create_image(ERROR_OUT_OF_HOST_MEMORY, ImageId { value: 9 }),
        Err(ERROR_OUT_OF_HOST_MEMORY)
    );
}

#[test]
fn image_view_creation_translates_status() {
    let device = Device::new(DEVICE);
    let view = device.create_image_view(SUCCESS, ImageViewId { value: 3 }).unwrap();
    assert_eq!(view.id(), ImageViewId { value: 3 });
    assert_eq!(view.device(), DEVICE);
    assert_eq!(
        device.create_image_view(-3, ImageViewId { value: 3 }),
        Err(-3)
    );
}

#[test]
fn sampler_creation_translates_status() {
    let device = Device::new(DEVICE);
    let sampler = device.create_sampler(SUCCESS, SamplerId { value: 11 }).unwrap();
    assert_eq!(sampler.id(), SamplerId { value: 11 });
    assert_eq!(sampler.device(), DEVICE);
    assert_eq!(
        device.create_sampler(ERROR_OUT_OF_DEVICE_MEMORY, SamplerId { value: 11 }),
        Err(ERROR_OUT_OF_DEVICE_MEMORY)
    );
}

#[test]
fn bare_handles_pass_through_on_success() {
    let device = Device::new(DEVICE);
    assert_eq!(
        device.create_memory(SUCCESS, MemoryBlock { handle: 1 }),
        Ok(MemoryBlock { handle: 1 })
    );
    assert_eq!(
        device.create_raster_pipeline(SUCCESS, RasterPipeline { handle: 2 }),
        Ok(RasterPipeline { handle: 2 })
    );
    assert_eq!(
        device.create_compute_pipeline(SUCCESS, ComputePipeline { handle: 3 }),
        Ok(ComputePipeline { handle: 3 })
    );
    assert_eq!(
        device.create_swapchain(SUCCESS, Swapchain { handle: 4 }),
        Ok(Swapchain { handle: 4 })
    );
    assert_eq!(
        device.create_command_recorder(SUCCESS, CommandRecorder { handle: 5 }),
        Ok(CommandRecorder { handle: 5 })
    );
    assert_eq!(
        device.create_binary_semaphore(SUCCESS, BinarySemaphore { handle: 6 }),
        Ok(BinarySemaphore { handle: 6 })
    );
    assert_eq!(
        device.create_timeline_semaphore(SUCCESS, TimelineSemaphore { handle: 7 }),
        Ok(TimelineSemaphore { handle: 7 })
    );
    assert_eq!(device.create_event(SUCCESS, Event { handle: 8 }), Ok(Event { handle: 8 }));
    assert_eq!(
        device.create_timeline_query_pool(SUCCESS, TimelineQueryPool { handle: 9 }),
        Ok(TimelineQueryPool { handle: 9 })
    );
}

#[test]
fn bare_handles_dropped_on_failure() {
    let device = Device::new(DEVICE);
    let code = ERROR_OUT_OF_DEVICE_MEMORY;
    assert_eq!(device.create_memory(code, MemoryBlock { handle: 1 }), Err(code));
    assert_eq!(device.create_raster_pipeline(code, RasterPipeline { handle: 2 }), Err(code));
    assert_eq!(device.create_compute_pipeline(code, ComputePipeline { handle: 3 }), Err(code));
    assert_eq!(device.create_swapchain(code, Swapchain { handle: 4 }), Err(code));
    assert_eq!(device.create_command_recorder(code, CommandRecorder { handle: 5 }), Err(code));
    assert_eq!(device.create_binary_semaphore(code, BinarySemaphore { handle: 6 }), Err(code));
    assert_eq!(device.create_timeline_semaphore(code, TimelineSemaphore { handle: 7 }), Err(code));
    assert_eq!(device.create_event(code, Event { handle: 8 }), Err(code));
    assert_eq!(device.create_timeline_query_pool(code, TimelineQueryPool { handle: 9 }), Err(code));
}

#[test]
fn wait_idle_and_garbage_collection_translate_status() {
    let device = Device::new(DEVICE);
    assert_eq!(device.wait_idle(SUCCESS), Ok(()));
    assert_eq!(device.wait_idle(-4), Err(-4));
    assert_eq!(device.collect_garbage(SUCCESS), Ok(()));
    assert_eq!(device.collect_garbage(ERROR_OUT_OF_HOST_MEMORY), Err(ERROR_OUT_OF_HOST_MEMORY));
}

#[test]
fn device_is_released_exactly_once() {
    let mut device = Device::new(DEVICE);
    assert_eq!(device.handle(), DEVICE);
    assert!(!device.is_released());
    assert_eq!(device.release(), Some(DEVICE));
    assert!(device.is_released());
    assert_eq!(device.release(), None);
    assert_eq!(device.release(), None);
    assert_eq!(device.handle(), DEVICE);
}
