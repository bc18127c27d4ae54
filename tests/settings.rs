use rascam::{
    AwbMode, CameraSettings, ExposureMode, FlickerAvoidMode, MeteringMode, Rotation, ISO,
    MMAL_ENCODING_BGR24, MMAL_ENCODING_H264, MMAL_ENCODING_JPEG, MMAL_ENCODING_OPAQUE,
    MMAL_ENCODING_RGB24, MMAL_VIDEO_LEVEL_H264_4, MMAL_VIDEO_PROFILE_H264_HIGH,
};

fn fourcc(s: &[u8; 4]) -> u32 {
    (s[0] as u32) | ((s[1] as u32) << 8) | ((s[2] as u32) << 16) | ((s[3] as u32) << 24)
}

#[test]
fn iso_values() {
    assert_eq!(ISO::IsoAuto.to_u32(), 0);
    assert_eq!(ISO::Iso125.to_u32(), 125);
    assert_eq!(ISO::Iso800.to_u32(), 800);
    assert_eq!(ISO::Iso3200.to_u32(), 3200);
}

#[test]
fn mode_values() {
    assert_eq!(MeteringMode::Average.to_i32(), 0);
    assert_eq!(MeteringMode::Matrix.to_i32(), 3);
    assert_eq!(ExposureMode::Off.to_i32(), 0);
    assert_eq!(ExposureMode::VeryLong.to_i32(), 9);
    assert_eq!(AwbMode::Auto.to_i32(), 1);
    assert_eq!(AwbMode::Incandescent.to_i32(), 7);
    assert_eq!(FlickerAvoidMode::Avoid60Hz.to_i32(), 3);
    assert_eq!(Rotation::Rotate270.to_i32(), 270);
}

#[test]
fn encodings_are_four_character_codes() {
    assert_eq!(MMAL_ENCODING_JPEG, fourcc(b"JPEG"));
    assert_eq!(MMAL_ENCODING_H264, fourcc(b"H264"));
    assert_eq!(MMAL_ENCODING_RGB24, fourcc(b"RGB3"));
    assert_eq!(MMAL_ENCODING_BGR24, fourcc(b"BGR3"));
    assert_eq!(MMAL_ENCODING_OPAQUE, fourcc(b"OPQV"));
}

#[test]
fn default_settings() {
    let s = CameraSettings::default();
    assert_eq!(s.encoding, MMAL_ENCODING_JPEG);
    assert_eq!((s.width, s.height), (0, 0));
    assert_eq!(s.iso, ISO::IsoAuto);
    assert_eq!(s.brightness, 50);
    assert!(s.use_encoder);
    assert!(!s.zero_copy);
    assert_eq!(s.framerate, 30);
    assert_eq!(s.video_profile, MMAL_VIDEO_PROFILE_H264_HIGH);
    assert_eq!(s.video_level, MMAL_VIDEO_LEVEL_H264_4);
}
