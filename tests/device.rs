use rascam::bridge::camera_buffer_callback;
use rascam::{
    CameraError, CameraInfo, CapturePhase, Component, Delivery, ErrorKind, Link, PortId,
    SeriousCamera, TeardownPort, TeardownStep,
};

const EINVAL: u32 = 3;

fn driver_parts(e: &CameraError) -> (String, u32) {
    match e.kind() {
        ErrorKind::Mmal(m) => (m.message().to_string(), m.status_code()),
        _ => panic!("expected a driver error"),
    }
}

fn info() -> CameraInfo {
    CameraInfo {
        port_id: 0,
        max_width: 2592,
        max_height: 1944,
        lens_present: true,
        camera_name: "ov5647".to_string(),
    }
}

/// A still pipeline brought up as far as the pool, through the encoder.
fn brought_up() -> SeriousCamera {
    let mut c = SeriousCamera::new(0).unwrap();
    c.set_camera_num(0).unwrap();
    c.create_encoder(0).unwrap();
    c.enable_control_port(0).unwrap();
    c.enable(0).unwrap();
    c.enable_encoder_control_port(0).unwrap();
    c.enable_encoder(0).unwrap();
    c.create_pool(true, "vc.ril.image_encode:out:0").unwrap();
    c.connect_encoder(0).unwrap();
    c.enable_encoder_connection(0).unwrap();
    c
}

fn use_encoder(c: &mut SeriousCamera) {
    let settings = rascam::CameraSettings::default();
    let ports = rascam::PipelinePorts {
        preview: rascam::PortBuffers {
            buffer_num: 1,
            buffer_num_min: 1,
            buffer_num_recommended: 1,
            buffer_size: 1,
            buffer_size_min: 1,
            buffer_size_recommended: 1,
        },
        video: rascam::PortBuffers {
            buffer_num: 1,
            buffer_num_min: 1,
            buffer_num_recommended: 1,
            buffer_size: 1,
            buffer_size_min: 1,
            buffer_size_recommended: 1,
        },
        capture: rascam::PortBuffers {
            buffer_num: 1,
            buffer_num_min: 1,
            buffer_num_recommended: 1,
            buffer_size: 1,
            buffer_size_min: 1,
            buffer_size_recommended: 1,
        },
        encoder_output: rascam::PortBuffers {
            buffer_num: 1,
            buffer_num_min: 1,
            buffer_num_recommended: 1,
            buffer_size: 1,
            buffer_size_min: 1,
            buffer_size_recommended: 1,
        },
    };
    c.set_camera_format(&settings, &ports, true);
}

#[test]
fn creation_failure_reports_the_status() {
    let e = SeriousCamera::new(1).err().unwrap();
    assert_eq!(driver_parts(&e), ("Could not create camera".to_string(), 1));
}

#[test]
fn setup_failures_name_the_step_and_change_nothing() {
    let mut c = SeriousCamera::new(0).unwrap();
    let before = c.state();
    let e = c.create_encoder(EINVAL).unwrap_err();
    assert_eq!(driver_parts(&e), ("Unable to create encoder".to_string(), EINVAL));
    assert_eq!(c.state(), before);
    let e = c.enable(5).unwrap_err();
    assert_eq!(driver_parts(&e), ("Unable to enable camera component".to_string(), 5));
    assert_eq!(c.state(), before);
    assert_eq!(c.enable_still_port(EINVAL), Err(EINVAL));
    assert_eq!(c.state(), before);
    assert_eq!(c.enable_still_port(0), Ok(1));
    assert!(c.state().output_port_enabled);
}

#[test]
fn pool_failure_names_the_port() {
    let mut c = SeriousCamera::new(0).unwrap();
    let e = c.create_pool(false, "vc.ril.camera:out:2").unwrap_err();
    assert_eq!(
        driver_parts(&e),
        (
            "Failed to create buffer header pool for camera port vc.ril.camera:out:2".to_string(),
            0x7fff_ffff
        )
    );
    assert!(!c.state().pool_created);
}

#[test]
fn video_encoder_marks_a_video_pipeline() {
    let mut c = SeriousCamera::new(0).unwrap();
    c.create_video_encoder(0).unwrap();
    assert!(c.state().is_video && c.state().encoder_created);
    assert_eq!(c.encoder_source_port(), PortId::Video);
}

#[test]
fn bit_rate_beyond_the_level_is_a_driver_error() {
    let mut c = SeriousCamera::new(0).unwrap();
    c.create_video_encoder(0).unwrap();
    c.connect_encoder(0).unwrap();
    let e = c.enable_encoder_connection(EINVAL).unwrap_err();
    assert_eq!(
        driver_parts(&e),
        ("Unable to enable camera->encoder connection".to_string(), EINVAL)
    );
    assert!(!c.state().connection_enabled);
}

#[test]
fn camera_params_follow_the_frame_rate() {
    let cfg = SeriousCamera::set_camera_params(&info(), true, 30);
    assert_eq!((cfg.max_stills_w, cfg.max_stills_h), (2592, 1944));
    assert_eq!((cfg.max_preview_video_w, cfg.max_preview_video_h), (2592, 1944));
    assert!(cfg.one_shot_stills);
    assert_eq!(cfg.num_preview_video_frames, 3);
    assert_eq!(SeriousCamera::set_camera_params(&info(), false, 60).num_preview_video_frames, 6);
    assert_eq!(SeriousCamera::set_camera_params(&info(), false, 10).num_preview_video_frames, 3);
    assert_eq!(SeriousCamera::set_camera_params(&info(), false, 39).num_preview_video_frames, 3);
}

#[test]
fn teardown_of_a_fresh_device_only_destroys_the_camera() {
    let c = SeriousCamera::new(0).unwrap();
    assert_eq!(c.teardown_plan(), vec![TeardownStep::DestroyComponent(Component::Camera)]);
}

#[test]
fn teardown_after_failed_negotiation_skips_what_was_never_created() {
    let mut c = SeriousCamera::new(0).unwrap();
    c.set_camera_num(0).unwrap();
    c.create_encoder(0).unwrap();
    c.enable_control_port(0).unwrap();
    assert_eq!(
        c.teardown_plan(),
        vec![
            TeardownStep::DisablePort(TeardownPort::CameraControl),
            TeardownStep::DestroyComponent(Component::Encoder),
            TeardownStep::DestroyComponent(Component::Camera),
        ]
    );
}

#[test]
fn teardown_of_a_capturing_device_in_order() {
    let mut c = brought_up();
    use_encoder(&mut c);
    let plan = c.begin_capture().unwrap();
    assert_eq!(plan.port, PortId::EncoderOutput);
    assert!(plan.enable_port);
    c.enable_encoder_port(0).unwrap();
    c.set_buffer_callback();
    c.start_capture(0).unwrap();
    assert_eq!(
        c.teardown_plan(),
        vec![
            TeardownStep::StopCapture,
            TeardownStep::DisableConnection(Link::Encoder),
            TeardownStep::DestroyConnection(Link::Encoder),
            TeardownStep::DisablePort(TeardownPort::EncoderOutput),
            TeardownStep::DisablePort(TeardownPort::EncoderControl),
            TeardownStep::DisableComponent(Component::Encoder),
            TeardownStep::DisablePort(TeardownPort::CameraControl),
            TeardownStep::DetachCallback,
            TeardownStep::DestroyPool,
            TeardownStep::DisableComponent(Component::Camera),
            TeardownStep::DestroyComponent(Component::Encoder),
            TeardownStep::DestroyComponent(Component::Camera),
        ]
    );
}

#[test]
fn second_capture_fails_cleanly() {
    let mut c = brought_up();
    use_encoder(&mut c);
    c.begin_capture().unwrap();
    let during = c.state();
    let e = c.begin_capture().unwrap_err();
    assert!(matches!(e.kind(), ErrorKind::Busy));
    assert_eq!(c.state(), during);
    c.set_buffer_callback();
    c.start_capture(0).unwrap();
    let capturing = c.state();
    assert!(c.begin_capture().is_err());
    assert_eq!(c.state(), capturing);
    assert_eq!(c.state().phase, CapturePhase::Capturing);
}

#[test]
fn failed_arming_leaves_the_device_idle() {
    let mut c = brought_up();
    use_encoder(&mut c);
    let before = c.state();
    c.begin_capture().unwrap();
    c.set_buffer_callback();
    let e = c.start_capture(EINVAL).unwrap_err();
    assert_eq!(driver_parts(&e), ("Unable to set camera capture boolean".to_string(), EINVAL));
    assert_eq!(c.state(), before);
    c.begin_capture().unwrap();
    let e = c.arming_step(EINVAL, "Unable to set shutter speed").unwrap_err();
    assert_eq!(driver_parts(&e), ("Unable to set shutter speed".to_string(), EINVAL));
    assert_eq!(c.state(), before);
    assert!(c.begin_capture().is_ok());
}

#[test]
fn halt_right_after_start_reaches_end_of_stream() {
    let mut c = brought_up();
    use_encoder(&mut c);
    c.begin_capture().unwrap();
    c.set_buffer_callback();
    c.start_capture(0).unwrap();
    assert!(c.stop_capturing());
    assert_eq!(c.state().phase, CapturePhase::Draining);
    let delivery = camera_buffer_callback(c.state().callback_armed, 0, 4);
    assert_eq!(delivery, Delivery::EndOfStream);
    assert!(c.end_of_stream());
    assert_eq!(c.state().phase, CapturePhase::Idle);
    assert!(!c.state().callback_armed);
    assert!(!c.stop_capturing());
    assert!(c.begin_capture().is_ok());
}

#[test]
fn halt_without_capture_is_a_no_op() {
    let mut c = SeriousCamera::new(0).unwrap();
    let before = c.state();
    assert!(!c.stop_capturing());
    assert_eq!(c.state(), before);
    assert!(!c.end_of_stream());
    assert_eq!(c.state(), before);
}
