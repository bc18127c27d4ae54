//! Format negotiation: what each port of the pipeline is given, in the order the
//! driver must be told, and what each step reports when the driver rejects it.
use vstd::prelude::*;

use crate::error::CameraError;
use crate::settings::{
    CameraSettings, MMAL_ENCODING_BGR24, MMAL_ENCODING_H264, MMAL_ENCODING_I420,
    MMAL_ENCODING_JPEG, MMAL_ENCODING_MJPEG, MMAL_ENCODING_OPAQUE, MMAL_ENCODING_RGB24,
};

verus! {

/// Buffers the video port is given at least.
pub const VIDEO_OUTPUT_BUFFERS_NUM: u32 = 3;

/// Size of the fixed still-preview window, which only has to exist.
pub const PREVIEW_WIDTH: u32 = 1024;
pub const PREVIEW_HEIGHT: u32 = 768;

/// JPEG quality of the image encoder.
pub const JPEG_QUALITY: u32 = 90;

/// Bit rate of the video encoder's output.
pub const VIDEO_BITRATE: u32 = 17_000_000;

/// Frame rate the video encoder's output starts from (30 in 16.16 fixed point); the
/// connection replaces it with the input's rate.
pub const ENCODER_OUTPUT_FRAME_RATE_NUM: u32 = 1_966_080;

/// Height the video encoder's output starts from; the connection replaces it too.
pub const ENCODER_OUTPUT_HEIGHT: u32 = 1080;

/// Encoder output buffer size for a non-H.264 video encoding.
pub const VIDEO_NON_H264_BUFFER_SIZE: u32 = 256 * 1024;

/// Largest width, height or frame rate: the driver holds crop rectangles and frame
/// rates in signed 32-bit fields.
pub const MAX_DIMENSION: u32 = 0x7fff_ffff;

/// The ports of the pipeline, by role.
#[derive(Debug, Clone, Copy, PartialEq, Eq, Structural)]
pub enum PortId {
    /// camera control port
    Control,
    /// camera output 0
    Preview,
    /// camera output 1
    Video,
    /// camera output 2 (still capture)
    Capture,
    /// encoder input 0
    EncoderInput,
    /// encoder output 0
    EncoderOutput,
}

/// A port's buffer figures as the driver reports them before negotiation.
#[derive(Debug, Clone, Copy, PartialEq, Eq, Structural)]
pub struct PortBuffers {
    pub buffer_num: u32,
    pub buffer_num_min: u32,
    pub buffer_num_recommended: u32,
    pub buffer_size: u32,
    pub buffer_size_min: u32,
    pub buffer_size_recommended: u32,
}

/// The buffer figures of the ports that negotiation reads.
#[derive(Debug, Clone, Copy, PartialEq, Eq, Structural)]
pub struct PipelinePorts {
    pub preview: PortBuffers,
    pub video: PortBuffers,
    pub capture: PortBuffers,
    /// read only where an encoder is attached
    pub encoder_output: PortBuffers,
}

/// An elementary-stream video format: buffer geometry, padded to the driver's
/// alignment, and the crop rectangle the caller asked for.
#[derive(Debug, Clone, Copy, PartialEq, Eq, Structural)]
pub struct VideoFormat {
    pub encoding: u32,
    pub encoding_variant: u32,
    pub width: u32,
    pub height: u32,
    pub crop_width: u32,
    pub crop_height: u32,
    pub frame_rate_num: u32,
    pub frame_rate_den: u32,
}

/// One step of format negotiation, to be applied in order.
#[derive(Debug, Clone, Copy, PartialEq, Eq, Structural)]
pub enum FormatStep {
    /// Set the ISO on the camera's control port.
    SetIso { iso: u32 },
    /// Set a camera output port's format and buffer figures, then commit it.
    CommitPort { port: PortId, format: VideoFormat, buffer_num: u32, buffer_size: u32 },
    /// Set zero-copy on the camera's video port.
    SetZeroCopy { enabled: bool },
    /// Copy the encoder input's format to its output, set the still encoding and the
    /// buffer figures, then commit it.
    CommitStillEncoderOutput { encoding: u32, buffer_num: u32, buffer_size: u32 },
    /// Copy the encoder input's format to its output, set the video encoding, bit
    /// rate, starting frame rate and height and the buffer figures, then commit it.
    CommitVideoEncoderOutput {
        encoding: u32,
        bitrate: u32,
        frame_rate_num: u32,
        height: u32,
        buffer_num: u32,
        buffer_size: u32,
    },
    /// Set the JPEG quality on the encoder output.
    SetJpegQuality { quality: u32 },
    /// Set the JPEG restart interval on the encoder output.
    SetJpegRestartInterval { interval: u32 },
    /// Set the H.264 profile and level on the encoder output.
    SetH264Profile { profile: u32, level: u32 },
}

/// The smallest multiple of `n` that is at least `v`.
pub open spec fn align_up(v: int, n: int) -> int
    recommends
        n > 0,
{
    ((v + n - 1) / n) * n
}

pub open spec fn max_u32(a: u32, b: u32) -> u32 {
    if a < b {
        b
    } else {
        a
    }
}

/// Width, height and frame rate fit the driver's signed fields.
pub open spec fn settings_fit(s: CameraSettings) -> bool {
    &&& s.width <= MAX_DIMENSION
    &&& s.height <= MAX_DIMENSION
    &&& s.framerate <= MAX_DIMENSION
}

/// A format whose geometry is the requested size padded to 32 by 16 pixels, and whose
/// crop rectangle is the requested size itself.
pub open spec fn padded_format(
    encoding: u32,
    variant: u32,
    width: u32,
    height: u32,
    frame_rate_num: u32,
    frame_rate_den: u32,
) -> VideoFormat {
    VideoFormat {
        encoding,
        encoding_variant: variant,
        width: align_up(width as int, 32) as u32,
        height: align_up(height as int, 16) as u32,
        crop_width: width,
        crop_height: height,
        frame_rate_num,
        frame_rate_den,
    }
}

/// The encoding a raw RGB capture asks of the camera: camera firmware that predates
/// the fix has the two byte orders reversed.
pub open spec fn raw_encoding(encoding: u32, rgb_order_fixed: bool) -> u32 {
    if encoding == MMAL_ENCODING_RGB24 || encoding == MMAL_ENCODING_BGR24 {
        if rgb_order_fixed {
            MMAL_ENCODING_RGB24
        } else {
            MMAL_ENCODING_BGR24
        }
    } else {
        encoding
    }
}

pub open spec fn is_jpeg(encoding: u32) -> bool {
    encoding == MMAL_ENCODING_JPEG || encoding == MMAL_ENCODING_MJPEG
}

pub open spec fn jpeg_steps(encoding: u32) -> Seq<FormatStep> {
    if is_jpeg(encoding) {
        seq![
            FormatStep::SetJpegQuality { quality: JPEG_QUALITY },
            FormatStep::SetJpegRestartInterval { interval: 0 },
        ]
    } else {
        seq![]
    }
}

/// The negotiation of a still capture.
pub open spec fn still_steps(s: CameraSettings, p: PipelinePorts, rgb_order_fixed: bool) -> Seq<
    FormatStep,
> {
    let enc = raw_encoding(s.encoding, rgb_order_fixed);
    let port_enc = if s.use_encoder {
        MMAL_ENCODING_OPAQUE
    } else {
        enc
    };
    let variant = if s.use_encoder {
        MMAL_ENCODING_I420
    } else {
        0
    };
    let preview = padded_format(port_enc, variant, PREVIEW_WIDTH, PREVIEW_HEIGHT, 0, 1);
    let capture = padded_format(port_enc, variant, s.width, s.height, 0, 1);
    let camera_steps = seq![
        FormatStep::SetIso { iso: s.iso.spec_value() },
        FormatStep::CommitPort {
            port: PortId::Preview,
            format: preview,
            buffer_num: p.preview.buffer_num,
            buffer_size: p.preview.buffer_size,
        },
        FormatStep::CommitPort {
            port: PortId::Video,
            format: preview,
            buffer_num: max_u32(p.video.buffer_num, VIDEO_OUTPUT_BUFFERS_NUM),
            buffer_size: p.video.buffer_size,
        },
        FormatStep::SetZeroCopy { enabled: s.zero_copy },
        FormatStep::CommitPort {
            port: PortId::Capture,
            format: capture,
            buffer_num: p.capture.buffer_num_recommended,
            buffer_size: max_u32(p.capture.buffer_size, p.capture.buffer_size_min),
        },
    ];
    if !s.use_encoder {
        camera_steps
    } else {
        camera_steps + seq![
            FormatStep::CommitStillEncoderOutput {
                encoding: enc,
                buffer_num: max_u32(
                    p.encoder_output.buffer_num_recommended,
                    p.encoder_output.buffer_num_min,
                ),
                buffer_size: max_u32(
                    p.encoder_output.buffer_size_recommended,
                    p.encoder_output.buffer_size_min,
                ),
            },
        ] + jpeg_steps(enc)
    }
}

/// The negotiation of a video capture.
pub open spec fn video_steps(s: CameraSettings, p: PipelinePorts) -> Seq<FormatStep> {
    let stream = padded_format(
        MMAL_ENCODING_OPAQUE,
        MMAL_ENCODING_I420,
        s.width,
        s.height,
        s.framerate,
        1,
    );
    let capture = padded_format(MMAL_ENCODING_OPAQUE, MMAL_ENCODING_I420, s.width, s.height, 0, 1);
    let camera_steps = seq![
        FormatStep::SetIso { iso: s.iso.spec_value() },
        FormatStep::CommitPort {
            port: PortId::Preview,
            format: stream,
            buffer_num: p.preview.buffer_num,
            buffer_size: p.preview.buffer_size,
        },
        FormatStep::CommitPort {
            port: PortId::Video,
            format: stream,
            buffer_num: max_u32(p.video.buffer_num, VIDEO_OUTPUT_BUFFERS_NUM),
            buffer_size: p.video.buffer_size,
        },
        FormatStep::CommitPort {
            port: PortId::Capture,
            format: capture,
            buffer_num: max_u32(p.capture.buffer_num_recommended, VIDEO_OUTPUT_BUFFERS_NUM),
            buffer_size: max_u32(p.capture.buffer_size, p.capture.buffer_size_min),
        },
    ];
    let out_size = if s.encoding == MMAL_ENCODING_H264 {
        p.encoder_output.buffer_size_recommended
    } else {
        VIDEO_NON_H264_BUFFER_SIZE
    };
    if !s.use_encoder {
        camera_steps
    } else {
        camera_steps + seq![
            FormatStep::CommitVideoEncoderOutput {
                encoding: s.encoding,
                bitrate: VIDEO_BITRATE,
                frame_rate_num: ENCODER_OUTPUT_FRAME_RATE_NUM,
                height: ENCODER_OUTPUT_HEIGHT,
                buffer_num: p.encoder_output.buffer_num_recommended,
                buffer_size: max_u32(out_size, p.encoder_output.buffer_size_min),
            },
        ] + jpeg_steps(s.encoding) + if s.encoding == MMAL_ENCODING_H264 {
            seq![FormatStep::SetH264Profile { profile: s.video_profile, level: s.video_level }]
        } else {
            seq![]
        }
    }
}

/// What a step reports when the driver rejects it: the port or parameter that failed.
pub open spec fn failure_message(step: FormatStep) -> Seq<char> {
    match step {
        FormatStep::SetIso { .. } => "Unable to set ISO"@,
        FormatStep::CommitPort { port, .. } => match port {
            PortId::Preview => "Unable to set preview port format"@,
            PortId::Video => "Unable to set video port format"@,
            PortId::Capture => "Unable to set still port format"@,
            _ => "Unable to set port format"@,
        },
        FormatStep::SetZeroCopy { enabled } => if enabled {
            "Unable to set zero copy to true"@
        } else {
            "Unable to set zero copy to false"@
        },
        FormatStep::CommitStillEncoderOutput { .. } => "Unable to set encoder output port format"@,
        FormatStep::CommitVideoEncoderOutput { .. } => "Unable to set encoder output port format"@,
        FormatStep::SetJpegQuality { .. } => "Unable to set JPEG quality"@,
        FormatStep::SetJpegRestartInterval { .. } => "Unable to set JPEG restart interval"@,
        FormatStep::SetH264Profile { .. } => "Unable to set h264 settings"@,
    }
}

/// Whether the settings' width, height and frame rate fit the driver's signed fields.
pub fn fits_driver(settings: &CameraSettings) -> (r: bool)
    ensures
        r == settings_fit(*settings),
{
    settings.width <= MAX_DIMENSION && settings.height <= MAX_DIMENSION && settings.framerate
        <= MAX_DIMENSION
}

/// Rounds `v` up to a multiple of `n`, a power of two.
pub fn align_up_u32(v: u32, n: u32) -> (r: u32)
    requires
        n == 16 || n == 32,
        v <= MAX_DIMENSION,
    ensures
        r == align_up(v as int, n as int),
        r >= v,
        r % n == 0,
        r - v < n,
{
    let q = (v + (n - 1)) / n;
    proof {
        let (vi, ni, qi) = (v as int, n as int, q as int);
        assert(qi == (vi + ni - 1) / ni);
        assert(qi * ni <= vi + ni - 1 && qi * ni >= vi && (qi * ni) % ni == 0) by (nonlinear_arith)
            requires
                qi == (vi + ni - 1) / ni,
                ni > 0,
        ;
    }
    let r = q * n;
    r
}

fn max_of(a: u32, b: u32) -> (r: u32)
    ensures
        r == max_u32(a, b),
{
    if a < b {
        b
    } else {
        a
    }
}

fn padded(
    encoding: u32,
    variant: u32,
    width: u32,
    height: u32,
    frame_rate_num: u32,
    frame_rate_den: u32,
) -> (r: VideoFormat)
    requires
        width <= MAX_DIMENSION,
        height <= MAX_DIMENSION,
    ensures
        r == padded_format(encoding, variant, width, height, frame_rate_num, frame_rate_den),
{
    VideoFormat {
        encoding,
        encoding_variant: variant,
        width: align_up_u32(width, 32),
        height: align_up_u32(height, 16),
        crop_width: width,
        crop_height: height,
        frame_rate_num,
        frame_rate_den,
    }
}

fn push_jpeg_steps(steps: &mut Vec<FormatStep>, encoding: u32)
    ensures
        final(steps)@ == old(steps)@ + jpeg_steps(encoding),
{
    let ghost start = steps@;
    if encoding == MMAL_ENCODING_JPEG || encoding == MMAL_ENCODING_MJPEG {
        steps.push(FormatStep::SetJpegQuality { quality: JPEG_QUALITY });
        steps.push(FormatStep::SetJpegRestartInterval { interval: 0 });
    }
    assert(steps@ =~= start + jpeg_steps(encoding));
}

/// The negotiation of a still capture: ISO, then the preview, video and capture
/// ports, then, where an encoder is attached, its output port and JPEG parameters.
pub fn still_format_steps(
    settings: &CameraSettings,
    ports: &PipelinePorts,
    rgb_order_fixed: bool,
) -> (r: Vec<FormatStep>)
    requires
        settings_fit(*settings),
    ensures
        r@ == still_steps(*settings, *ports, rgb_order_fixed),
{
    let s = settings;
    let p = ports;
    let enc = if s.encoding == MMAL_ENCODING_RGB24 || s.encoding == MMAL_ENCODING_BGR24 {
        if rgb_order_fixed {
            MMAL_ENCODING_RGB24
        } else {
            MMAL_ENCODING_BGR24
        }
    } else {
        s.encoding
    };
    let port_enc = if s.use_encoder {
        MMAL_ENCODING_OPAQUE
    } else {
        enc
    };
    let variant = if s.use_encoder {
        MMAL_ENCODING_I420
    } else {
        0
    };
    let preview = padded(port_enc, variant, PREVIEW_WIDTH, PREVIEW_HEIGHT, 0, 1);
    let capture = padded(port_enc, variant, s.width, s.height, 0, 1);
    let mut steps: Vec<FormatStep> = Vec::new();
    steps.push(FormatStep::SetIso { iso: s.iso.to_u32() });
    steps.push(
        FormatStep::CommitPort {
            port: PortId::Preview,
            format: preview,
            buffer_num: p.preview.buffer_num,
            buffer_size: p.preview.buffer_size,
        },
    );
    steps.push(
        FormatStep::CommitPort {
            port: PortId::Video,
            format: preview,
            buffer_num: max_of(p.video.buffer_num, VIDEO_OUTPUT_BUFFERS_NUM),
            buffer_size: p.video.buffer_size,
        },
    );
    steps.push(FormatStep::SetZeroCopy { enabled: s.zero_copy });
    steps.push(
        FormatStep::CommitPort {
            port: PortId::Capture,
            format: capture,
            buffer_num: p.capture.buffer_num_recommended,
            buffer_size: max_of(p.capture.buffer_size, p.capture.buffer_size_min),
        },
    );
    if s.use_encoder {
        steps.push(
            FormatStep::CommitStillEncoderOutput {
                encoding: enc,
                buffer_num: max_of(
                    p.encoder_output.buffer_num_recommended,
                    p.encoder_output.buffer_num_min,
                ),
                buffer_size: max_of(
                    p.encoder_output.buffer_size_recommended,
                    p.encoder_output.buffer_size_min,
                ),
            },
        );
        push_jpeg_steps(&mut steps, enc);
    }
    assert(steps@ =~= still_steps(*settings, *ports, rgb_order_fixed));
    steps
}

/// The negotiation of a video capture: ISO, then the preview, video and capture ports
/// at the requested size and frame rate, then, where an encoder is attached, its
/// output port and its JPEG or H.264 parameters.
pub fn video_format_steps(settings: &CameraSettings, ports: &PipelinePorts) -> (r: Vec<FormatStep>)
    requires
        settings_fit(*settings),
    ensures
        r@ == video_steps(*settings, *ports),
{
    let s = settings;
    let p = ports;
    let stream = padded(
        MMAL_ENCODING_OPAQUE,
        MMAL_ENCODING_I420,
        s.width,
        s.height,
        s.framerate,
        1,
    );
    let capture = padded(MMAL_ENCODING_OPAQUE, MMAL_ENCODING_I420, s.width, s.height, 0, 1);
    let mut steps: Vec<FormatStep> = Vec::new();
    steps.push(FormatStep::SetIso { iso: s.iso.to_u32() });
    steps.push(
        FormatStep::CommitPort {
            port: PortId::Preview,
            format: stream,
            buffer_num: p.preview.buffer_num,
            buffer_size: p.preview.buffer_size,
        },
    );
    steps.push(
        FormatStep::CommitPort {
            port: PortId::Video,
            format: stream,
            buffer_num: max_of(p.video.buffer_num, VIDEO_OUTPUT_BUFFERS_NUM),
            buffer_size: p.video.buffer_size,
        },
    );
    steps.push(
        FormatStep::CommitPort {
            port: PortId::Capture,
            format: capture,
            buffer_num: max_of(p.capture.buffer_num_recommended, VIDEO_OUTPUT_BUFFERS_NUM),
            buffer_size: max_of(p.capture.buffer_size, p.capture.buffer_size_min),
        },
    );
    if s.use_encoder {
        let out_size = if s.encoding == MMAL_ENCODING_H264 {
            p.encoder_output.buffer_size_recommended
        } else {
            VIDEO_NON_H264_BUFFER_SIZE
        };
        steps.push(
            FormatStep::CommitVideoEncoderOutput {
                encoding: s.encoding,
                bitrate: VIDEO_BITRATE,
                frame_rate_num: ENCODER_OUTPUT_FRAME_RATE_NUM,
                height: ENCODER_OUTPUT_HEIGHT,
                buffer_num: p.encoder_output.buffer_num_recommended,
                buffer_size: max_of(out_size, p.encoder_output.buffer_size_min),
            },
        );
        push_jpeg_steps(&mut steps, s.encoding);
        if s.encoding == MMAL_ENCODING_H264 {
            steps.push(
                FormatStep::SetH264Profile { profile: s.video_profile, level: s.video_level },
            );
        }
    }
    assert(steps@ =~= video_steps(*settings, *ports));
    steps
}

impl FormatStep {
    /// The driver error this step reports when the driver answers `status`.
    pub fn failure(&self, status: u32) -> (r: CameraError)
        ensures
            r.is_driver(failure_message(*self), status),
    {
        match self {
            FormatStep::SetIso { .. } => CameraError::driver("Unable to set ISO", status),
            FormatStep::CommitPort { port, .. } => match port {
                PortId::Preview => CameraError::driver("Unable to set preview port format", status),
                PortId::Video => CameraError::driver("Unable to set video port format", status),
                PortId::Capture => CameraError::driver("Unable to set still port format", status),
                _ => CameraError::driver("Unable to set port format", status),
            },
            FormatStep::SetZeroCopy { enabled } => if *enabled {
                CameraError::driver("Unable to set zero copy to true", status)
            } else {
                CameraError::driver("Unable to set zero copy to false", status)
            },
            FormatStep::CommitStillEncoderOutput { .. } => CameraError::driver(
                "Unable to set encoder output port format",
                status,
            ),
            FormatStep::CommitVideoEncoderOutput { .. } => CameraError::driver(
                "Unable to set encoder output port format",
                status,
            ),
            FormatStep::SetJpegQuality { .. } => CameraError::driver(
                "Unable to set JPEG quality",
                status,
            ),
            FormatStep::SetJpegRestartInterval { .. } => CameraError::driver(
                "Unable to set JPEG restart interval",
                status,
            ),
            FormatStep::SetH264Profile { .. } => CameraError::driver(
                "Unable to set h264 settings",
                status,
            ),
        }
    }
}

} // verus!
