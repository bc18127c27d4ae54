//! Safe access to the camera subsystem of a component-based native media driver.
//!
//! The driver's handles and calls stay with the caller; this library holds the logic
//! between the calls, verified: which format each port is given and in what order,
//! which sub-resources a device has brought up and how teardown undoes exactly those,
//! the capture session protocol with at most one session per device, how buffers
//! circulate between a pool, its port and the guards around delivered buffers, what
//! each driver delivery becomes on the consumer's channel, and how chunks become an
//! image or a sequence of frames.
pub mod bridge;
pub mod camera;
pub mod error;
pub mod format;
pub mod frames;
pub mod info;
pub mod pool;
pub mod settings;
pub mod simple;

pub use bridge::{ControlEvent, Delivery};
pub use camera::{
    ArmingPlan, CameraConfig, CapturePhase, Component, DeviceState, Link, SeriousCamera,
    TeardownPort, TeardownStep,
};
pub use error::{CameraError, ErrorKind, MmalError};
pub use format::{FormatStep, PipelinePorts, PortBuffers, PortId, VideoFormat};
pub use frames::{FrameAssembler, Message};
pub use info::{CameraInfo, Info, RawCameraEntry};
pub use pool::{BufferGuard, BufferPool, PoolState};
pub use settings::{
    AwbMode, CameraSettings, ExposureMode, FlickerAvoidMode, MeteringMode, Rotation, ISO,
    MMAL_ENCODING_BGR24, MMAL_ENCODING_GIF, MMAL_ENCODING_H264, MMAL_ENCODING_JPEG,
    MMAL_ENCODING_MJPEG, MMAL_ENCODING_OPAQUE, MMAL_ENCODING_PNG, MMAL_ENCODING_RGB24,
    MMAL_VIDEO_LEVEL_H264_4, MMAL_VIDEO_LEVEL_H264_41, MMAL_VIDEO_LEVEL_H264_42,
    MMAL_VIDEO_PROFILE_H264_BASELINE, MMAL_VIDEO_PROFILE_H264_HIGH,
};
pub use simple::{SetupStep, SimpleCamera};
