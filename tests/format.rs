use rascam::format::{align_up_u32, still_format_steps, video_format_steps};
use rascam::{
    CameraSettings, ErrorKind, FormatStep, PipelinePorts, PortBuffers, PortId, VideoFormat,
    MMAL_ENCODING_BGR24, MMAL_ENCODING_H264, MMAL_ENCODING_JPEG, MMAL_ENCODING_OPAQUE,
    MMAL_ENCODING_RGB24, MMAL_VIDEO_LEVEL_H264_4, MMAL_VIDEO_PROFILE_H264_HIGH,
};

const I420: u32 = 0x3032_3449;

fn buffers(num: u32, size: u32) -> PortBuffers {
    PortBuffers {
        buffer_num: num,
        buffer_num_min: 1,
        buffer_num_recommended: num + 1,
        buffer_size: size,
        buffer_size_min: size * 2,
        buffer_size_recommended: size * 3,
    }
}

fn ports() -> PipelinePorts {
    PipelinePorts {
        preview: buffers(2, 10),
        video: buffers(1, 20),
        capture: buffers(1, 30),
        encoder_output: buffers(1, 40),
    }
}

fn committed(steps: &[FormatStep], which: PortId) -> VideoFormat {
    for s in steps {
        if let FormatStep::CommitPort { port, format, .. } = s {
            if *port == which {
                return *format;
            }
        }
    }
    panic!("port not committed");
}

#[test]
fn align_up_values() {
    assert_eq!(align_up_u32(1, 32), 32);
    assert_eq!(align_up_u32(100, 16), 112);
    assert_eq!(align_up_u32(10000, 32), 10016);
    assert_eq!(align_up_u32(128, 32), 128);
    assert_eq!(align_up_u32(0, 16), 0);
}

#[test]
fn raw_still_crop_is_exact_while_geometry_is_padded() {
    let settings = CameraSettings {
        encoding: MMAL_ENCODING_RGB24,
        width: 100,
        height: 100,
        use_encoder: false,
        ..CameraSettings::default()
    };
    let steps = still_format_steps(&settings, &ports(), true);
    let f = committed(&steps, PortId::Capture);
    assert_eq!((f.crop_width, f.crop_height), (100, 100));
    assert_eq!((f.width, f.height), (128, 112));
    assert_eq!(f.encoding, MMAL_ENCODING_RGB24);
    assert_eq!(steps.len(), 5);
}

#[test]
fn still_steps_in_order_with_encoder() {
    let settings = CameraSettings { width: 2592, height: 1944, ..CameraSettings::default() };
    let steps = still_format_steps(&settings, &ports(), true);
    assert_eq!(steps.len(), 8);
    assert_eq!(steps[0], FormatStep::SetIso { iso: 0 });
    let preview = committed(&steps, PortId::Preview);
    assert_eq!((preview.width, preview.height), (1024, 768));
    assert_eq!(preview.encoding, MMAL_ENCODING_OPAQUE);
    assert_eq!(preview.encoding_variant, I420);
    assert_eq!(
        steps[2],
        FormatStep::CommitPort { port: PortId::Video, format: preview, buffer_num: 3, buffer_size: 20 }
    );
    assert_eq!(steps[3], FormatStep::SetZeroCopy { enabled: false });
    assert_eq!(
        steps[4],
        FormatStep::CommitPort {
            port: PortId::Capture,
            format: VideoFormat {
                encoding: MMAL_ENCODING_OPAQUE,
                encoding_variant: I420,
                width: 2592,
                height: 1952,
                crop_width: 2592,
                crop_height: 1944,
                frame_rate_num: 0,
                frame_rate_den: 1,
            },
            buffer_num: 2,
            buffer_size: 60,
        }
    );
    assert_eq!(
        steps[5],
        FormatStep::CommitStillEncoderOutput {
            encoding: MMAL_ENCODING_JPEG,
            buffer_num: 2,
            buffer_size: 120
        }
    );
    assert_eq!(steps[6], FormatStep::SetJpegQuality { quality: 90 });
    assert_eq!(steps[7], FormatStep::SetJpegRestartInterval { interval: 0 });
}

#[test]
fn rgb_order_follows_the_firmware() {
    let settings = CameraSettings {
        encoding: MMAL_ENCODING_RGB24,
        width: 64,
        height: 48,
        use_encoder: false,
        ..CameraSettings::default()
    };
    let steps = still_format_steps(&settings, &ports(), false);
    assert_eq!(committed(&steps, PortId::Capture).encoding, MMAL_ENCODING_BGR24);
}

fn video_settings(width: u32, height: u32) -> CameraSettings {
    CameraSettings {
        encoding: MMAL_ENCODING_H264,
        width,
        height,
        use_encoder: true,
        framerate: 10,
        video_profile: MMAL_VIDEO_PROFILE_H264_HIGH,
        video_level: MMAL_VIDEO_LEVEL_H264_4,
        ..CameraSettings::default()
    }
}

#[test]
fn video_cropped_dimensions_are_kept_in_the_crop() {
    let steps = video_format_steps(&video_settings(100, 100), &ports());
    for port in [PortId::Preview, PortId::Video, PortId::Capture] {
        let f = committed(&steps, port);
        assert_eq!((f.crop_width, f.crop_height), (100, 100));
        assert!(f.width > 100 && f.height > 100);
        assert_eq!((f.width, f.height), (128, 112));
    }
    assert_eq!(committed(&steps, PortId::Video).frame_rate_num, 10);
    assert_eq!(committed(&steps, PortId::Capture).frame_rate_num, 0);
}

#[test]
fn video_friendly_dimensions_are_unchanged() {
    let steps = video_format_steps(&video_settings(128, 112), &ports());
    let f = committed(&steps, PortId::Video);
    assert_eq!((f.width, f.height, f.crop_width, f.crop_height), (128, 112, 128, 112));
    let steps = video_format_steps(&video_settings(1920, 1080), &ports());
    let f = committed(&steps, PortId::Video);
    assert_eq!((f.width, f.height, f.crop_width, f.crop_height), (1920, 1088, 1920, 1080));
}

#[test]
fn video_encoder_output_and_profile() {
    let steps = video_format_steps(&video_settings(1920, 1088), &ports());
    assert_eq!(steps.len(), 6);
    assert_eq!(
        steps[4],
        FormatStep::CommitVideoEncoderOutput {
            encoding: MMAL_ENCODING_H264,
            bitrate: 17_000_000,
            frame_rate_num: 1_966_080,
            height: 1080,
            buffer_num: 2,
            buffer_size: 120,
        }
    );
    assert_eq!(steps[5], FormatStep::SetH264Profile { profile: 28, level: 28 });
    assert_eq!(
        steps[3],
        FormatStep::CommitPort {
            port: PortId::Capture,
            format: committed(&steps, PortId::Capture),
            buffer_num: 3,
            buffer_size: 60,
        }
    );
}

#[test]
fn each_step_reports_what_failed() {
    let steps = still_format_steps(&CameraSettings::default(), &ports(), true);
    let expected = [
        "Unable to set ISO",
        "Unable to set preview port format",
        "Unable to set video port format",
        "Unable to set zero copy to false",
        "Unable to set still port format",
        "Unable to set encoder output port format",
        "Unable to set JPEG quality",
        "Unable to set JPEG restart interval",
    ];
    for (step, message) in steps.iter().zip(expected.iter()) {
        match step.failure(3).kind() {
            ErrorKind::Mmal(m) => {
                assert_eq!(m.message(), *message);
                assert_eq!(m.status_code(), 3);
            }
            _ => panic!("expected a driver error"),
        }
    }
    let e = FormatStep::SetH264Profile { profile: 28, level: 30 }.failure(3);
    assert!(matches!(e.kind(), ErrorKind::Mmal(m) if m.message() == "Unable to set h264 settings"));
}
