use gpu_image_compute::acquire::{
    adapter_answered, adapter_request, device_answered, AdapterRequest, DeviceRequest,
    LimitsPreset, PowerPreference,
};
use gpu_image_compute::dispatch::{plan_dispatch, DispatchPlan};
use gpu_image_compute::error::GpuError;
use gpu_image_compute::readback::{map_request, read_pixels, MapMode, MapRequest, PollMode};
use gpu_image_compute::session::{Action, Event, Phase, Session};
use gpu_image_compute::steps::{dispatch_steps, Step};

/// What the copy of a texture into the readback buffer leaves there: the
/// rows of `texels` at the plan's stride, and `fill` in the padding.
fn copy_to_readback(plan: &DispatchPlan, texels: &[u8], fill: u8) -> Vec<u8> {
    let row = plan.upload.bytes_per_row as usize;
    let stride = plan.download.bytes_per_row as usize;
    let rows = plan.download.rows_per_image as usize;
    let mut buffer = vec![fill; plan.readback.size as usize];
    for i in 0..rows {
        buffer[i * stride..i * stride + row].copy_from_slice(&texels[i * row..(i + 1) * row]);
    }
    buffer
}

/// Runs a session over `pixels` with a GPU that always succeeds and whose
/// kernel is `kernel`, and returns what the session delivers.
fn run_with(width: u32, height: u32, pixels: &[u8], kernel: fn(&[u8]) -> Vec<u8>) -> Vec<u8> {
    let mut session = Session::new(width, height, pixels.len()).unwrap();
    assert_eq!(
        session.step(Event::Started),
        Some(Action::RequestAdapter(adapter_request()))
    );
    assert!(matches!(
        session.step(Event::AdapterAnswered { found: true }),
        Some(Action::RequestDevice(_))
    ));
    let plan = match session.step(Event::DeviceAnswered { outcome: Ok(()) }) {
        Some(Action::Dispatch { plan, steps }) => {
            assert_eq!(steps, dispatch_steps());
            plan
        }
        other => panic!("no dispatch: {:?}", other),
    };
    assert_eq!(
        plan.upload.bytes_per_row as usize * plan.upload.rows_per_image as usize,
        pixels.len()
    );
    let readback = copy_to_readback(&plan, &kernel(pixels), 0xAA);
    assert_eq!(
        session.step(Event::Submitted),
        Some(Action::MapReadback(MapRequest {
            offset: 0,
            size: plan.readback.size,
            mode: MapMode::Read,
            poll: PollMode::Wait,
        }))
    );
    let delivered = match session.step(Event::MapAnswered { mapped: Some(&readback) }) {
        Some(Action::Deliver(pixels)) => pixels,
        other => panic!("no delivery: {:?}", other),
    };
    assert_eq!(session.phase(), Phase::Done);
    delivered
}

fn identity(texels: &[u8]) -> Vec<u8> {
    texels.to_vec()
}

fn invert(texels: &[u8]) -> Vec<u8> {
    texels
        .chunks(4)
        .flat_map(|p| [255 - p[0], 255 - p[1], 255 - p[2], p[3]])
        .collect()
}

#[test]
fn tiny_image_comes_back_unchanged() {
    let pixels = vec![255, 0, 0, 255, 0, 255, 0, 255, 0, 0, 255, 255, 255, 255, 255, 255];
    let output = run_with(2, 2, &pixels, identity);
    assert_eq!(output.len(), 16);
    assert_eq!(output, pixels);
}

#[test]
fn non_aligned_width_loses_its_padding() {
    let pixels: Vec<u8> = vec![1, 2, 3, 4, 5, 6, 7, 8, 9, 10, 11, 12];
    let plan = plan_dispatch(3, 1);
    assert_eq!(plan.download.bytes_per_row, 256);
    assert_eq!(plan.readback.size, 256);
    let output = run_with(3, 1, &pixels, identity);
    assert_eq!(output.len(), 12);
    assert_eq!(output, pixels);
}

#[test]
fn inverted_pixel_is_read_back() {
    let output = run_with(1, 1, &[10, 20, 30, 255], invert);
    assert_eq!(output, vec![245, 235, 225, 255]);
}

#[test]
fn wide_row_has_no_padding_to_strip() {
    let pixels: Vec<u8> = (0..4096u32).map(|k| (k * 7 % 256) as u8).collect();
    let plan = plan_dispatch(1024, 1);
    assert_eq!(plan.download.bytes_per_row, 4096);
    assert_eq!(plan.readback.size, 4096);
    let output = run_with(1024, 1, &pixels, identity);
    assert_eq!(output.len(), 4096);
    assert_eq!(output, pixels);
}

#[test]
fn missing_adapter_fails_the_run() {
    let mut session = Session::new(2, 2, 16).unwrap();
    assert!(session.step(Event::Started).is_some());
    assert_eq!(
        session.step(Event::AdapterAnswered { found: false }),
        Some(Action::Fail(GpuError::NoAdapter))
    );
    assert_eq!(session.phase(), Phase::Done);
    // nothing further is asked for, and nothing is delivered
    assert_eq!(session.step(Event::AdapterAnswered { found: true }), None);
    assert_eq!(session.step(Event::DeviceAnswered { outcome: Ok(()) }), None);
    assert_eq!(session.step(Event::Submitted), None);
    assert_eq!(session.step(Event::MapAnswered { mapped: Some(&[0u8; 512]) }), None);
    assert_eq!(session.phase(), Phase::Done);
}

#[test]
fn refused_device_fails_the_run_with_the_reason() {
    let mut session = Session::new(2, 2, 16).unwrap();
    session.step(Event::Started);
    session.step(Event::AdapterAnswered { found: true });
    let action =
        session.step(Event::DeviceAnswered { outcome: Err(String::from("limits too high")) });
    assert_eq!(
        action,
        Some(Action::Fail(GpuError::DeviceRequestFailed(String::from("limits too high"))))
    );
    assert_eq!(session.phase(), Phase::Done);
    assert_eq!(session.step(Event::Submitted), None);
}

#[test]
fn failed_mapping_fails_the_run() {
    let mut session = Session::new(2, 2, 16).unwrap();
    session.step(Event::Started);
    session.step(Event::AdapterAnswered { found: true });
    session.step(Event::DeviceAnswered { outcome: Ok(()) });
    session.step(Event::Submitted);
    assert_eq!(session.phase(), Phase::AwaitingMap);
    assert_eq!(
        session.step(Event::MapAnswered { mapped: None }),
        Some(Action::Fail(GpuError::ReadbackFailed))
    );
    assert_eq!(session.phase(), Phase::Done);
}

#[test]
fn session_walks_through_its_phases_in_order() {
    let mut session = Session::new(3, 1, 12).unwrap();
    assert_eq!(session.phase(), Phase::Idle);
    assert_eq!(
        session.step(Event::Started),
        Some(Action::RequestAdapter(AdapterRequest {
            power_preference: PowerPreference::NoPreference,
            force_fallback_adapter: false,
        }))
    );
    assert_eq!(session.phase(), Phase::AwaitingAdapter);
    assert_eq!(
        session.step(Event::AdapterAnswered { found: true }),
        Some(Action::RequestDevice(DeviceRequest {
            feature_bits: 0,
            limits: LimitsPreset::DownlevelDefaults,
        }))
    );
    assert_eq!(session.phase(), Phase::AwaitingDevice);
    assert_eq!(
        session.step(Event::DeviceAnswered { outcome: Ok(()) }),
        Some(Action::Dispatch { plan: plan_dispatch(3, 1), steps: dispatch_steps() })
    );
    assert_eq!(session.phase(), Phase::AwaitingSubmit);
    assert_eq!(session.step(Event::Submitted), Some(Action::MapReadback(map_request(3, 1))));
    assert_eq!(session.phase(), Phase::AwaitingMap);
    let mut readback = vec![0u8; 256];
    readback[..12].copy_from_slice(&[1, 2, 3, 4, 5, 6, 7, 8, 9, 10, 11, 12]);
    assert_eq!(
        session.step(Event::MapAnswered { mapped: Some(&readback) }),
        Some(Action::Deliver(vec![1, 2, 3, 4, 5, 6, 7, 8, 9, 10, 11, 12]))
    );
    assert_eq!(session.phase(), Phase::Done);
}

#[test]
fn event_out_of_turn_changes_nothing() {
    let mut session = Session::new(2, 2, 16).unwrap();
    assert_eq!(session.step(Event::Submitted), None);
    assert_eq!(session.step(Event::AdapterAnswered { found: false }), None);
    assert_eq!(session.step(Event::DeviceAnswered { outcome: Ok(()) }), None);
    assert_eq!(session.step(Event::MapAnswered { mapped: None }), None);
    assert_eq!(session.phase(), Phase::Idle);
    session.step(Event::Started);
    assert_eq!(session.step(Event::Started), None);
    assert_eq!(session.phase(), Phase::AwaitingAdapter);
}

#[test]
fn mapped_bytes_of_the_wrong_size_are_not_taken() {
    let mut session = Session::new(2, 2, 16).unwrap();
    session.step(Event::Started);
    session.step(Event::AdapterAnswered { found: true });
    session.step(Event::DeviceAnswered { outcome: Ok(()) });
    session.step(Event::Submitted);
    assert_eq!(session.step(Event::MapAnswered { mapped: Some(&[0u8; 511]) }), None);
    assert_eq!(session.step(Event::MapAnswered { mapped: Some(&[0u8; 16]) }), None);
    assert_eq!(session.phase(), Phase::AwaitingMap);
    assert_eq!(
        session.step(Event::MapAnswered { mapped: Some(&[7u8; 512]) }),
        Some(Action::Deliver(vec![7u8; 16]))
    );
}

#[test]
fn session_takes_only_images_of_the_right_size() {
    assert!(Session::new(2, 2, 16).is_some());
    assert!(Session::new(3, 1, 12).is_some());
    assert!(Session::new(1024, 1, 4096).is_some());
    assert!(Session::new(2, 2, 15).is_none());
    assert!(Session::new(2, 2, 17).is_none());
    assert!(Session::new(2, 2, 12).is_none());
    assert!(Session::new(0, 2, 0).is_none());
    assert!(Session::new(2, 0, 0).is_none());
    assert!(Session::new(u32::MAX, 1, 0).is_none());
    assert!(Session::new(1073741760, 1, 4294967040).is_some());
    assert!(Session::new(1073741761, 1, 4294967044).is_none());
}

#[test]
fn delivered_pixels_have_the_size_of_the_image() {
    for (width, height) in [(1u32, 1u32), (2, 2), (3, 1), (5, 3), (64, 2), (65, 2), (100, 7)] {
        let pixels: Vec<u8> =
            (0..4 * width * height).map(|k| (k * 31 % 256) as u8).collect();
        let output = run_with(width, height, &pixels, identity);
        assert_eq!(output.len() as u64, 4 * width as u64 * height as u64);
        assert_eq!(output, pixels);
    }
}

#[test]
fn read_pixels_takes_each_row_from_its_stride() {
    let (width, height) = (5u32, 3u32);
    let stride = 256usize;
    let readback: Vec<u8> = (0..stride * height as usize).map(|k| (k * 13 % 256) as u8).collect();
    let pixels = read_pixels(width, height, Some(&readback)).unwrap();
    assert_eq!(pixels.len(), 60);
    for i in 0..height as usize {
        for j in 0..4 * width as usize {
            assert_eq!(pixels[i * 4 * width as usize + j], readback[i * stride + j]);
        }
    }
}

#[test]
fn map_request_covers_the_whole_buffer_for_reading() {
    assert_eq!(
        map_request(3, 1),
        MapRequest { offset: 0, size: 256, mode: MapMode::Read, poll: PollMode::Wait }
    );
    assert_eq!(
        map_request(65, 10),
        MapRequest { offset: 0, size: 5120, mode: MapMode::Read, poll: PollMode::Wait }
    );
    assert_eq!(map_request(2, 2).size, plan_dispatch(2, 2).readback.size);
}

#[test]
fn read_pixels_without_a_mapping_fails() {
    assert_eq!(read_pixels(2, 2, None), Err(GpuError::ReadbackFailed));
}

#[test]
fn dispatch_steps_come_in_their_order() {
    assert_eq!(
        dispatch_steps(),
        vec![
            Step::CreateInputTexture,
            Step::WriteInputTexture,
            Step::CreateOutputTexture,
            Step::CreateTextureViews,
            Step::CreateBindGroupLayout,
            Step::CreateBindGroup,
            Step::CreatePipeline,
            Step::EncodeComputePass,
            Step::CreateReadbackBuffer,
            Step::EncodeCopyToReadback,
            Step::Submit,
        ]
    );
}

#[test]
fn upload_and_compute_pass_come_before_the_copy_and_the_submission() {
    let steps = dispatch_steps();
    let at = |step: Step| steps.iter().position(|s| *s == step).unwrap();
    assert!(at(Step::CreateInputTexture) < at(Step::WriteInputTexture));
    assert!(at(Step::WriteInputTexture) < at(Step::Submit));
    assert!(at(Step::EncodeComputePass) < at(Step::EncodeCopyToReadback));
    assert!(at(Step::CreateReadbackBuffer) < at(Step::EncodeCopyToReadback));
    assert!(at(Step::EncodeCopyToReadback) < at(Step::Submit));
    assert_eq!(at(Step::Submit), steps.len() - 1);
}

#[test]
fn acquisition_asks_for_a_plain_device() {
    assert_eq!(
        adapter_request(),
        AdapterRequest { power_preference: PowerPreference::NoPreference, force_fallback_adapter: false }
    );
    assert_eq!(
        adapter_answered(true),
        Ok(DeviceRequest { feature_bits: 0, limits: LimitsPreset::DownlevelDefaults })
    );
    assert_eq!(adapter_answered(false), Err(GpuError::NoAdapter));
    assert_eq!(device_answered(Ok(())), Ok(()));
    assert_eq!(
        device_answered(Err(String::from("not supported"))),
        Err(GpuError::DeviceRequestFailed(String::from("not supported")))
    );
}

#[test]
fn errors_have_their_diagnostic_line() {
    assert_eq!(
        GpuError::NoAdapter.message(),
        "No adapters are found that suffice all the 'hard' options."
    );
    assert_eq!(
        GpuError::DeviceRequestFailed(String::from("device lost")).message(),
        "Request device failed: device lost"
    );
    assert_eq!(
        GpuError::DeviceRequestFailed(String::new()).message(),
        "Request device failed: "
    );
    assert_eq!(GpuError::ReadbackFailed.message(), "Couldn't run compute on the GPU.");
}
