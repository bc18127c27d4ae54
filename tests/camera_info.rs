use rascam::{
    CameraInfo, CameraSettings, Info, RawCameraEntry, SetupStep, SimpleCamera, MMAL_ENCODING_H264,
};

fn entry(port_id: u32, name: &str, lens: u32) -> RawCameraEntry {
    RawCameraEntry {
        port_id,
        max_width: 2592,
        max_height: 1944,
        lens_present: lens,
        camera_name: name.to_string(),
    }
}

fn info() -> CameraInfo {
    CameraInfo {
        port_id: 0,
        max_width: 2592,
        max_height: 1944,
        lens_present: true,
        camera_name: "ov5647".to_string(),
    }
}

#[test]
fn info_takes_the_reported_number_of_cameras() {
    let entries = vec![entry(0, "ov5647", 1), entry(1, "imx219", 0), entry(0, "", 0), entry(0, "", 0)];
    let info = Info::from_entries(&entries, 2);
    assert_eq!(info.cameras.len(), 2);
    assert_eq!(info.cameras[0].camera_name, "ov5647");
    assert!(info.cameras[0].lens_present);
    assert_eq!(info.cameras[1].port_id, 1);
    assert!(!info.cameras[1].lens_present);
    assert_eq!(Info::from_entries(&entries, 9).cameras.len(), 4);
}

#[test]
fn configure_fills_in_the_maximum_size() {
    let mut cam = SimpleCamera::new(info());
    assert_eq!(cam.settings().width, 2592);
    cam.configure(CameraSettings { width: 0, height: 480, ..CameraSettings::default() });
    let s = cam.settings();
    assert_eq!((s.width, s.height), (2592, 480));
    cam.configure(CameraSettings { width: 640, height: 0, ..CameraSettings::default() });
    let s = cam.settings();
    assert_eq!((s.width, s.height), (640, 1944));
}

#[test]
fn activation_order_for_stills_and_video() {
    let mut cam = SimpleCamera::new(info());
    assert_eq!(
        cam.activate(),
        vec![
            SetupStep::SetCameraNum(0),
            SetupStep::CreateEncoder,
            SetupStep::EnableControlPort,
            SetupStep::SetCameraParams { one_shot_stills: true, framerate: 30 },
            SetupStep::SetCameraFormat,
            SetupStep::Enable,
            SetupStep::EnableEncoder,
            SetupStep::CreatePool,
            SetupStep::ConnectEncoder,
        ]
    );
    cam.configure(CameraSettings { encoding: MMAL_ENCODING_H264, framerate: 10, ..CameraSettings::default() });
    cam.set_preview(true);
    assert_eq!(
        cam.activate(),
        vec![
            SetupStep::SetCameraNum(0),
            SetupStep::CreateVideoEncoder,
            SetupStep::EnableControlPort,
            SetupStep::SetCameraParams { one_shot_stills: false, framerate: 10 },
            SetupStep::CreatePreview,
            SetupStep::SetVideoCameraFormat,
            SetupStep::Enable,
            SetupStep::EnableEncoder,
            SetupStep::CreatePool,
            SetupStep::ConnectPreview,
            SetupStep::ConnectEncoder,
        ]
    );
}
