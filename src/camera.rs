//! The device: which native sub-resources have been brought up, the capture session
//! protocol, and the teardown that undoes exactly what was brought up.
use vstd::prelude::*;
use vstd::string::StringExecFns;

use crate::bridge::{delivery_of, Delivery};
use crate::error::{CameraError, MMAL_STATUS_MAX, MMAL_SUCCESS};
use crate::frames::{frames_of, lemma_frames_stop_at_end, still_bytes, Message};
use crate::format::{
    settings_fit, still_format_steps, still_steps, video_format_steps, video_steps, FormatStep,
    PipelinePorts, PortId,
};
use crate::info::CameraInfo;
use crate::settings::CameraSettings;

verus! {

/// Where a device stands in the capture protocol.
#[derive(Debug, Clone, Copy, PartialEq, Eq, Structural)]
pub enum CapturePhase {
    /// No session: the capture lock is free.
    Idle,
    /// A session holds the lock and is preparing the output port.
    Arming,
    /// The driver has been told to capture and delivers buffers.
    Capturing,
    /// Capturing was halted; the driver's end-of-stream delivery is awaited.
    Draining,
}

/// The device's record of what it has brought up.
#[derive(Debug, Clone, Copy, PartialEq, Eq, Structural)]
pub struct DeviceState {
    /// camera component enabled
    pub enabled: bool,
    pub control_port_enabled: bool,
    /// the camera's raw output port (video or still) enabled with the buffer callback
    pub output_port_enabled: bool,
    pub encoder_created: bool,
    pub encoder_control_port_enabled: bool,
    pub encoder_enabled: bool,
    pub encoder_output_port_enabled: bool,
    /// camera to encoder connection
    pub connection_created: bool,
    pub connection_enabled: bool,
    /// the discard sink behind the preview port
    pub preview_created: bool,
    pub preview_enabled: bool,
    pub preview_connection_created: bool,
    pub preview_connection_enabled: bool,
    pub pool_created: bool,
    pub use_encoder: bool,
    pub is_video: bool,
    pub phase: CapturePhase,
    /// a delivery context is attached to the active output port
    pub callback_armed: bool,
    /// the driver's capture switch is on
    pub capture_requested: bool,
}

/// The device's record is consistent: parts exist only inside what holds them, and the
/// delivery context is attached exactly while a session has armed it.
pub open spec fn state_wf(s: DeviceState) -> bool {
    &&& s.encoder_control_port_enabled ==> s.encoder_created
    &&& s.encoder_enabled ==> s.encoder_created
    &&& s.encoder_output_port_enabled ==> s.encoder_created
    &&& s.connection_created ==> s.encoder_created
    &&& s.connection_enabled ==> s.connection_created
    &&& s.preview_enabled ==> s.preview_created
    &&& s.preview_connection_created ==> s.preview_created
    &&& s.preview_connection_enabled ==> s.preview_connection_created
    &&& s.use_encoder ==> s.encoder_created
    &&& s.callback_armed ==> s.pool_created
    &&& s.phase == CapturePhase::Idle ==> !s.callback_armed
    &&& (s.phase == CapturePhase::Capturing || s.phase == CapturePhase::Draining)
        ==> s.callback_armed
    &&& s.phase == CapturePhase::Draining ==> !s.capture_requested
    &&& s.phase == CapturePhase::Capturing ==> s.capture_requested
}

/// The camera output that feeds the encoder, or that is read directly without one.
pub open spec fn camera_output(s: DeviceState) -> PortId {
    if s.is_video {
        PortId::Video
    } else {
        PortId::Capture
    }
}

/// The port whose buffers reach the caller: the encoder's output where an encoder is
/// used, else the camera output.
pub open spec fn active_port(s: DeviceState) -> PortId {
    if s.use_encoder {
        PortId::EncoderOutput
    } else {
        camera_output(s)
    }
}

pub open spec fn active_port_enabled(s: DeviceState) -> bool {
    if s.use_encoder {
        s.encoder_output_port_enabled
    } else {
        s.output_port_enabled
    }
}

/// Connections between two components.
#[derive(Debug, Clone, Copy, PartialEq, Eq, Structural)]
pub enum Link {
    /// camera output to encoder input
    Encoder,
    /// camera preview output to the discard sink
    Preview,
}

/// Native components.
#[derive(Debug, Clone, Copy, PartialEq, Eq, Structural)]
pub enum Component {
    Camera,
    Encoder,
    Preview,
}

/// Ports that teardown disables: the camera ports of [`PortId`] and the encoder's
/// control port.
#[derive(Debug, Clone, Copy, PartialEq, Eq, Structural)]
pub enum TeardownPort {
    EncoderOutput,
    EncoderControl,
    CameraVideo,
    CameraCapture,
    CameraControl,
}

/// One native teardown operation.
#[derive(Debug, Clone, Copy, PartialEq, Eq, Structural)]
pub enum TeardownStep {
    /// Turn the driver's capture switch off.
    StopCapture,
    DisableConnection(Link),
    DestroyConnection(Link),
    DisablePort(TeardownPort),
    /// Free the delivery context attached to the active output port.
    DetachCallback,
    DestroyPool,
    DisableComponent(Component),
    DestroyComponent(Component),
}

/// The place of each step in teardown: capture first, then connections, then the
/// encoder, then the camera's ports, then the components, disabled before destroyed.
pub open spec fn teardown_rank(step: TeardownStep) -> int {
    match step {
        TeardownStep::StopCapture => 0,
        TeardownStep::DisableConnection(Link::Encoder) => 1,
        TeardownStep::DestroyConnection(Link::Encoder) => 2,
        TeardownStep::DisableConnection(Link::Preview) => 3,
        TeardownStep::DestroyConnection(Link::Preview) => 4,
        TeardownStep::DisablePort(TeardownPort::EncoderOutput) => 5,
        TeardownStep::DisablePort(TeardownPort::EncoderControl) => 6,
        TeardownStep::DisableComponent(Component::Encoder) => 7,
        TeardownStep::DisablePort(TeardownPort::CameraVideo) => 8,
        TeardownStep::DisablePort(TeardownPort::CameraCapture) => 9,
        TeardownStep::DisablePort(TeardownPort::CameraControl) => 10,
        TeardownStep::DetachCallback => 11,
        TeardownStep::DestroyPool => 12,
        TeardownStep::DisableComponent(Component::Preview) => 13,
        TeardownStep::DisableComponent(Component::Camera) => 14,
        TeardownStep::DestroyComponent(Component::Preview) => 15,
        TeardownStep::DestroyComponent(Component::Encoder) => 16,
        TeardownStep::DestroyComponent(Component::Camera) => 17,
    }
}

/// The step undoes something that was brought up.
pub open spec fn brought_up(s: DeviceState, step: TeardownStep) -> bool {
    match step {
        TeardownStep::StopCapture => s.capture_requested,
        TeardownStep::DisableConnection(Link::Encoder) => s.connection_enabled,
        TeardownStep::DestroyConnection(Link::Encoder) => s.connection_created,
        TeardownStep::DisableConnection(Link::Preview) => s.preview_connection_enabled,
        TeardownStep::DestroyConnection(Link::Preview) => s.preview_connection_created,
        TeardownStep::DisablePort(TeardownPort::EncoderOutput) => s.encoder_output_port_enabled,
        TeardownStep::DisablePort(TeardownPort::EncoderControl) => s.encoder_control_port_enabled,
        TeardownStep::DisableComponent(Component::Encoder) => s.encoder_enabled,
        TeardownStep::DisablePort(TeardownPort::CameraVideo) => s.output_port_enabled && s.is_video,
        TeardownStep::DisablePort(TeardownPort::CameraCapture) => s.output_port_enabled
            && !s.is_video,
        TeardownStep::DisablePort(TeardownPort::CameraControl) => s.control_port_enabled,
        TeardownStep::DetachCallback => s.callback_armed,
        TeardownStep::DestroyPool => s.pool_created,
        TeardownStep::DisableComponent(Component::Preview) => s.preview_enabled,
        TeardownStep::DisableComponent(Component::Camera) => s.enabled,
        TeardownStep::DestroyComponent(Component::Preview) => s.preview_created,
        TeardownStep::DestroyComponent(Component::Encoder) => s.encoder_created,
        TeardownStep::DestroyComponent(Component::Camera) => true,
    }
}

/// Parameters pushed to the camera's control port before formats are set.
#[derive(Debug, Clone, Copy, PartialEq, Eq, Structural)]
pub struct CameraConfig {
    pub max_stills_w: u32,
    pub max_stills_h: u32,
    pub stills_yuv422: bool,
    pub one_shot_stills: bool,
    pub max_preview_video_w: u32,
    pub max_preview_video_h: u32,
    pub num_preview_video_frames: u32,
    pub stills_capture_circular_buffer_height: u32,
    pub fast_preview_resume: bool,
}

/// Preview frames the driver buffers: three, and one more for every ten frames per
/// second above thirty.
pub open spec fn preview_frames(framerate: u32) -> u32 {
    if framerate >= 30 {
        (3 + (framerate - 30) / 10) as u32
    } else {
        3
    }
}

/// What a session starts from: the port that will deliver, whether it must still be
/// enabled, and the camera port whose capture switch starts and stops it.
#[derive(Debug, Clone, Copy, PartialEq, Eq, Structural)]
pub struct ArmingPlan {
    pub port: PortId,
    pub enable_port: bool,
    pub capture_port: PortId,
    /// shutter speed to set first: 0 is automatic
    pub shutter_speed: u32,
}

/// The error of a step that the driver answered with `status`: none on success.
pub fn check_status(status: u32, message: &str) -> (r: Result<(), CameraError>)
    ensures
        status == MMAL_SUCCESS <==> r is Ok,
        r matches Err(e) ==> e.is_driver(message@, status),
{
    if status == MMAL_SUCCESS {
        Ok(())
    } else {
        Err(CameraError::driver(message, status))
    }
}

/// The error returned when a session is asked for while one is in flight.
pub open spec fn is_busy(e: CameraError) -> bool {
    e.spec_kind() is Busy
}

/// A camera component and the sub-resources it has brought up.
///
/// The native handles stay with the caller, who performs each driver operation and
/// reports the driver's status here; this record decides what follows and what
/// teardown must undo.
#[derive(Debug)]
pub struct SeriousCamera {
    st: DeviceState,
}

impl View for SeriousCamera {
    type V = DeviceState;

    closed spec fn view(&self) -> DeviceState {
        self.st
    }
}

impl SeriousCamera {
    pub open spec fn wf(&self) -> bool {
        state_wf(self@)
    }

    pub open spec fn fresh_state() -> DeviceState {
        DeviceState {
            enabled: false,
            control_port_enabled: false,
            output_port_enabled: false,
            encoder_created: false,
            encoder_control_port_enabled: false,
            encoder_enabled: false,
            encoder_output_port_enabled: false,
            connection_created: false,
            connection_enabled: false,
            preview_created: false,
            preview_enabled: false,
            preview_connection_created: false,
            preview_connection_enabled: false,
            pool_created: false,
            use_encoder: false,
            is_video: false,
            phase: CapturePhase::Idle,
            callback_armed: false,
            capture_requested: false,
        }
    }

    /// A device for a camera component whose creation the driver answered with `status`.
    pub fn new(status: u32) -> (r: Result<SeriousCamera, CameraError>)
        ensures
            status == MMAL_SUCCESS <==> r is Ok,
            r matches Ok(c) ==> c@ == Self::fresh_state() && c.wf(),
            r matches Err(e) ==> e.is_driver("Could not create camera"@, status),
    {
        if status == MMAL_SUCCESS {
            Ok(
                SeriousCamera {
                    st: DeviceState {
                        enabled: false,
                        control_port_enabled: false,
                        output_port_enabled: false,
                        encoder_created: false,
                        encoder_control_port_enabled: false,
                        encoder_enabled: false,
                        encoder_output_port_enabled: false,
                        connection_created: false,
                        connection_enabled: false,
                        preview_created: false,
                        preview_enabled: false,
                        preview_connection_created: false,
                        preview_connection_enabled: false,
                        pool_created: false,
                        use_encoder: false,
                        is_video: false,
                        phase: CapturePhase::Idle,
                        callback_armed: false,
                        capture_requested: false,
                    },
                },
            )
        } else {
            Err(CameraError::driver("Could not create camera", status))
        }
    }

    /// The record as it stands.
    pub fn state(&self) -> (r: DeviceState)
        ensures
            r == self@,
    {
        self.st
    }

    /// Binding to a camera number, which the driver answered with `status`.
    pub fn set_camera_num(&self, status: u32) -> (r: Result<(), CameraError>)
        ensures
            status == MMAL_SUCCESS <==> r is Ok,
            r matches Err(e) ==> e.is_driver("Unable to set camera number"@, status),
    {
        check_status(status, "Unable to set camera number")
    }

    /// Creation of the image encoder.
    pub fn create_encoder(&mut self, status: u32) -> (r: Result<(), CameraError>)
        requires
            old(self).wf(),
        ensures
            final(self).wf(),
            status == MMAL_SUCCESS <==> r is Ok,
            r is Ok ==> final(self)@ == (DeviceState { encoder_created: true, ..old(self)@ }),
            r matches Err(e) ==> e.is_driver("Unable to create encoder"@, status)
                && final(self)@ == old(self)@,
    {
        if status == MMAL_SUCCESS {
            self.st.encoder_created = true;
            Ok(())
        } else {
            Err(CameraError::driver("Unable to create encoder", status))
        }
    }

    /// Creation of the video encoder; the device becomes a video pipeline either way.
    pub fn create_video_encoder(&mut self, status: u32) -> (r: Result<(), CameraError>)
        requires
            old(self).wf(),
        ensures
            final(self).wf(),
            status == MMAL_SUCCESS <==> r is Ok,
            r is Ok ==> final(self)@ == (DeviceState {
                encoder_created: true,
                is_video: true,
                ..old(self)@
            }),
            r matches Err(e) ==> e.is_driver("Unable to create video encoder"@, status)
                && final(self)@ == (DeviceState { is_video: true, ..old(self)@ }),
    {
        if status == MMAL_SUCCESS {
            self.st = DeviceState { encoder_created: true, is_video: true, ..self.st };
            Ok(())
        } else {
            self.st = DeviceState { is_video: true, ..self.st };
            Err(CameraError::driver("Unable to create video encoder", status))
        }
    }

    /// Enabling the camera's control port.
    pub fn enable_control_port(&mut self, status: u32) -> (r: Result<(), CameraError>)
        requires
            old(self).wf(),
        ensures
            final(self).wf(),
            status == MMAL_SUCCESS <==> r is Ok,
            r is Ok ==> final(self)@ == (DeviceState {
                control_port_enabled: true,
                ..old(self)@
            }),
            r matches Err(e) ==> e.is_driver("Unable to enable control port"@, status)
                && final(self)@ == old(self)@,
    {
        if status == MMAL_SUCCESS {
            self.st.control_port_enabled = true;
            Ok(())
        } else {
            Err(CameraError::driver("Unable to enable control port", status))
        }
    }

    /// Enabling the encoder's output port with the buffer callback.
    pub fn enable_encoder_port(&mut self, status: u32) -> (r: Result<(), CameraError>)
        requires
            old(self).wf(),
            old(self)@.encoder_created,
        ensures
            final(self).wf(),
            status == MMAL_SUCCESS <==> r is Ok,
            r is Ok ==> final(self)@ == (DeviceState {
                encoder_output_port_enabled: true,
                ..old(self)@
            }),
            r matches Err(e) ==> e.is_driver("Unable to enable encoder port"@, status)
                && final(self)@ == old(self)@,
    {
        if status == MMAL_SUCCESS {
            self.st.encoder_output_port_enabled = true;
            Ok(())
        } else {
            Err(CameraError::driver("Unable to enable encoder port", status))
        }
    }

    /// Enabling the camera's output port with the buffer callback; a rejection hands
    /// the driver's status back.
    pub fn enable_still_port(&mut self, status: u32) -> (r: Result<u8, u32>)
        requires
            old(self).wf(),
        ensures
            final(self).wf(),
            status == MMAL_SUCCESS <==> r == Ok::<u8, u32>(1),
            r is Ok ==> final(self)@ == (DeviceState { output_port_enabled: true, ..old(self)@ }),
            r is Err ==> r == Err::<u8, u32>(status) && final(self)@ == old(self)@,
    {
        if status == MMAL_SUCCESS {
            self.st.output_port_enabled = true;
            Ok(1)
        } else {
            Err(status)
        }
    }

    /// The parameters for the control port: the camera's maximum size for stills and
    /// preview, one-shot or continuous stills, and the preview depth for the frame rate.
    pub fn set_camera_params(info: &CameraInfo, one_shot_stills: bool, framerate: u32) -> (r:
        CameraConfig)
        ensures
            r == (CameraConfig {
                max_stills_w: info.max_width,
                max_stills_h: info.max_height,
                stills_yuv422: false,
                one_shot_stills,
                max_preview_video_w: info.max_width,
                max_preview_video_h: info.max_height,
                num_preview_video_frames: preview_frames(framerate),
                stills_capture_circular_buffer_height: 0,
                fast_preview_resume: false,
            }),
    {
        let frames = if framerate >= 30 {
            3 + (framerate - 30) / 10
        } else {
            3
        };
        CameraConfig {
            max_stills_w: info.max_width,
            max_stills_h: info.max_height,
            stills_yuv422: false,
            one_shot_stills,
            max_preview_video_w: info.max_width,
            max_preview_video_h: info.max_height,
            num_preview_video_frames: frames,
            stills_capture_circular_buffer_height: 0,
            fast_preview_resume: false,
        }
    }

    /// The negotiation of a still pipeline; the device reads from the encoder from now
    /// on if the settings ask for one.
    pub fn set_camera_format(
        &mut self,
        settings: &CameraSettings,
        ports: &PipelinePorts,
        rgb_order_fixed: bool,
    ) -> (r: Vec<FormatStep>)
        requires
            old(self).wf(),
            old(self)@.phase == CapturePhase::Idle,
            settings_fit(*settings),
            settings.use_encoder ==> old(self)@.encoder_created,
        ensures
            final(self).wf(),
            final(self)@ == (DeviceState { use_encoder: settings.use_encoder, ..old(self)@ }),
            r@ == still_steps(*settings, *ports, rgb_order_fixed),
    {
        self.st.use_encoder = settings.use_encoder;
        still_format_steps(settings, ports, rgb_order_fixed)
    }

    /// The negotiation of a video pipeline; the device reads from the encoder from now
    /// on if the settings ask for one.
    pub fn set_video_camera_format(&mut self, settings: &CameraSettings, ports: &PipelinePorts) -> (r:
        Vec<FormatStep>)
        requires
            old(self).wf(),
            old(self)@.phase == CapturePhase::Idle,
            settings_fit(*settings),
            settings.use_encoder ==> old(self)@.encoder_created,
        ensures
            final(self).wf(),
            final(self)@ == (DeviceState { use_encoder: settings.use_encoder, ..old(self)@ }),
            r@ == video_steps(*settings, *ports),
    {
        self.st.use_encoder = settings.use_encoder;
        video_format_steps(settings, ports)
    }

    /// Enabling the camera component.
    pub fn enable(&mut self, status: u32) -> (r: Result<(), CameraError>)
        requires
            old(self).wf(),
        ensures
            final(self).wf(),
            status == MMAL_SUCCESS <==> r is Ok,
            r is Ok ==> final(self)@ == (DeviceState { enabled: true, ..old(self)@ }),
            r matches Err(e) ==> e.is_driver("Unable to enable camera component"@, status)
                && final(self)@ == old(self)@,
    {
        if status == MMAL_SUCCESS {
            self.st.enabled = true;
            Ok(())
        } else {
            Err(CameraError::driver("Unable to enable camera component", status))
        }
    }

    /// Enabling the encoder's control port, the first half of enabling the encoder.
    pub fn enable_encoder_control_port(&mut self, status: u32) -> (r: Result<(), CameraError>)
        requires
            old(self).wf(),
            old(self)@.encoder_created,
        ensures
            final(self).wf(),
            status == MMAL_SUCCESS <==> r is Ok,
            r is Ok ==> final(self)@ == (DeviceState {
                encoder_control_port_enabled: true,
                ..old(self)@
            }),
            r matches Err(e) ==> e.is_driver("Unable to enable encoder control port"@, status)
                && final(self)@ == old(self)@,
    {
        if status == MMAL_SUCCESS {
            self.st.encoder_control_port_enabled = true;
            Ok(())
        } else {
            Err(CameraError::driver("Unable to enable encoder control port", status))
        }
    }

    /// Enabling the encoder component, once its control port is enabled.
    pub fn enable_encoder(&mut self, status: u32) -> (r: Result<(), CameraError>)
        requires
            old(self).wf(),
            old(self)@.encoder_created,
        ensures
            final(self).wf(),
            status == MMAL_SUCCESS <==> r is Ok,
            r is Ok ==> final(self)@ == (DeviceState { encoder_enabled: true, ..old(self)@ }),
            r matches Err(e) ==> e.is_driver("Unable to enable encoder component"@, status)
                && final(self)@ == old(self)@,
    {
        if status == MMAL_SUCCESS {
            self.st.encoder_enabled = true;
            Ok(())
        } else {
            Err(CameraError::driver("Unable to enable encoder component", status))
        }
    }

    /// Enabling the discard sink behind the preview port.
    pub fn enable_preview(&mut self, status: u32) -> (r: Result<(), CameraError>)
        requires
            old(self).wf(),
            old(self)@.preview_created,
        ensures
            final(self).wf(),
            status == MMAL_SUCCESS <==> r is Ok,
            r is Ok ==> final(self)@ == (DeviceState { preview_enabled: true, ..old(self)@ }),
            r matches Err(e) ==> e.is_driver("Unable to enable preview"@, status)
                && final(self)@ == old(self)@,
    {
        if status == MMAL_SUCCESS {
            self.st.preview_enabled = true;
            Ok(())
        } else {
            Err(CameraError::driver("Unable to enable preview", status))
        }
    }

    /// The port a pool is created for: the one that will deliver.
    pub fn pool_port(&self) -> (r: PortId)
        ensures
            r == active_port(self@),
    {
        if self.st.use_encoder {
            PortId::EncoderOutput
        } else if self.st.is_video {
            PortId::Video
        } else {
            PortId::Capture
        }
    }

    /// Creation of the buffer pool for the port named `port_name`; the driver reports
    /// a failure only by handing back no pool, with no status.
    pub fn create_pool(&mut self, created: bool, port_name: &str) -> (r: Result<(), CameraError>)
        requires
            old(self).wf(),
        ensures
            final(self).wf(),
            created <==> r is Ok,
            r is Ok ==> final(self)@ == (DeviceState { pool_created: true, ..old(self)@ }),
            r matches Err(e) ==> e.is_driver(
                "Failed to create buffer header pool for camera port "@ + port_name@,
                MMAL_STATUS_MAX,
            ) && final(self)@ == old(self)@,
    {
        if created {
            self.st.pool_created = true;
            Ok(())
        } else {
            let mut message = String::from_str("Failed to create buffer header pool for camera port ");
            message.append(port_name);
            Err(CameraError::from(crate::error::MmalError::with_status(message, MMAL_STATUS_MAX)))
        }
    }

    /// Creation of the discard sink behind the preview port.
    pub fn create_preview(&mut self, status: u32) -> (r: Result<(), CameraError>)
        requires
            old(self).wf(),
        ensures
            final(self).wf(),
            status == MMAL_SUCCESS <==> r is Ok,
            r is Ok ==> final(self)@ == (DeviceState { preview_created: true, ..old(self)@ }),
            r matches Err(e) ==> e.is_driver("Unable to create null sink for preview"@, status)
                && final(self)@ == old(self)@,
    {
        if status == MMAL_SUCCESS {
            self.st.preview_created = true;
            Ok(())
        } else {
            Err(CameraError::driver("Unable to create null sink for preview", status))
        }
    }

    /// Creation of the connection from the preview port to the discard sink.
    pub fn connect_preview(&mut self, status: u32) -> (r: Result<(), CameraError>)
        requires
            old(self).wf(),
            old(self)@.preview_created,
        ensures
            final(self).wf(),
            status == MMAL_SUCCESS <==> r is Ok,
            r is Ok ==> final(self)@ == (DeviceState {
                preview_connection_created: true,
                ..old(self)@
            }),
            r matches Err(e) ==> e.is_driver("Unable to connect preview ports"@, status)
                && final(self)@ == old(self)@,
    {
        if status == MMAL_SUCCESS {
            self.st.preview_connection_created = true;
            Ok(())
        } else {
            Err(CameraError::driver("Unable to connect preview ports", status))
        }
    }

    /// Enabling the connection from the preview port to the discard sink.
    pub fn enable_preview_connection(&mut self, status: u32) -> (r: Result<(), CameraError>)
        requires
            old(self).wf(),
            old(self)@.preview_connection_created,
        ensures
            final(self).wf(),
            status == MMAL_SUCCESS <==> r is Ok,
            r is Ok ==> final(self)@ == (DeviceState {
                preview_connection_enabled: true,
                ..old(self)@
            }),
            r matches Err(e) ==> e.is_driver("Unable to enable preview connection"@, status)
                && final(self)@ == old(self)@,
    {
        if status == MMAL_SUCCESS {
            self.st.preview_connection_enabled = true;
            Ok(())
        } else {
            Err(CameraError::driver("Unable to enable preview connection", status))
        }
    }

    /// The camera port the encoder is connected to.
    pub fn encoder_source_port(&self) -> (r: PortId)
        ensures
            r == camera_output(self@),
    {
        if self.st.is_video {
            PortId::Video
        } else {
            PortId::Capture
        }
    }

    /// Creation of the connection from the camera to the encoder.
    pub fn connect_encoder(&mut self, status: u32) -> (r: Result<(), CameraError>)
        requires
            old(self).wf(),
            old(self)@.encoder_created,
        ensures
            final(self).wf(),
            status == MMAL_SUCCESS <==> r is Ok,
            r is Ok ==> final(self)@ == (DeviceState { connection_created: true, ..old(self)@ }),
            r matches Err(e) ==> e.is_driver("Unable to create camera->encoder connection"@, status)
                && final(self)@ == old(self)@,
    {
        if status == MMAL_SUCCESS {
            self.st.connection_created = true;
            Ok(())
        } else {
            Err(CameraError::driver("Unable to create camera->encoder connection", status))
        }
    }

    /// Enabling the connection from the camera to the encoder. This is where the
    /// driver refuses a stream that the encoder's profile and level cannot carry.
    pub fn enable_encoder_connection(&mut self, status: u32) -> (r: Result<(), CameraError>)
        requires
            old(self).wf(),
            old(self)@.connection_created,
        ensures
            final(self).wf(),
            status == MMAL_SUCCESS <==> r is Ok,
            r is Ok ==> final(self)@ == (DeviceState { connection_enabled: true, ..old(self)@ }),
            r matches Err(e) ==> e.is_driver("Unable to enable camera->encoder connection"@, status)
                && final(self)@ == old(self)@,
    {
        if status == MMAL_SUCCESS {
            self.st.connection_enabled = true;
            Ok(())
        } else {
            Err(CameraError::driver("Unable to enable camera->encoder connection", status))
        }
    }
}

/// The record once a session has taken the capture lock, where none held it.
pub open spec fn begin_state(s: DeviceState) -> DeviceState {
    DeviceState { phase: CapturePhase::Arming, ..s }
}

/// The record once a session that was being armed has been given up: the lock is free
/// and no delivery context is attached; what was brought up stays for teardown.
pub open spec fn abort_state(s: DeviceState) -> DeviceState {
    DeviceState { phase: CapturePhase::Idle, callback_armed: false, ..s }
}

/// The record once the driver has been told to capture.
pub open spec fn capturing_state(s: DeviceState) -> DeviceState {
    DeviceState { phase: CapturePhase::Capturing, capture_requested: true, ..s }
}

/// The record once capturing has been halted: the capture switch is off, and a
/// capturing session waits for the driver's end-of-stream delivery.
pub open spec fn halt_state(s: DeviceState) -> DeviceState {
    if !s.capture_requested {
        s
    } else {
        DeviceState {
            capture_requested: false,
            phase: if s.phase == CapturePhase::Capturing {
                CapturePhase::Draining
            } else {
                s.phase
            },
            ..s
        }
    }
}

/// The record once the driver's end-of-stream delivery has been handled: the delivery
/// context is detached and the capture lock released.
pub open spec fn end_state(s: DeviceState) -> DeviceState {
    if s.callback_armed {
        DeviceState { phase: CapturePhase::Idle, callback_armed: false, ..s }
    } else {
        s
    }
}

pub open spec fn arming_plan(s: DeviceState) -> ArmingPlan {
    ArmingPlan {
        port: active_port(s),
        enable_port: !active_port_enabled(s),
        capture_port: camera_output(s),
        shutter_speed: 0,
    }
}

/// Every teardown step has a place from 0 to 17.
pub proof fn lemma_rank_bounds(t: TeardownStep)
    ensures
        0 <= teardown_rank(t) <= 17,
{
}

fn push_if(v: &mut Vec<TeardownStep>, cond: bool, step: TeardownStep, Ghost(s): Ghost<DeviceState>)
    requires
        cond == brought_up(s, step),
        forall|i: int| 0 <= i < old(v)@.len() ==> brought_up(s, #[trigger] old(v)@[i]),
        forall|i: int, j: int|
            0 <= i < j < old(v)@.len() ==> teardown_rank(#[trigger] old(v)@[i]) < teardown_rank(
                #[trigger] old(v)@[j],
            ),
        forall|i: int|
            0 <= i < old(v)@.len() ==> teardown_rank(#[trigger] old(v)@[i]) < teardown_rank(step),
        forall|t: TeardownStep|
            teardown_rank(t) < teardown_rank(step) && brought_up(s, t) ==> #[trigger] old(v)@.contains(t),
    ensures
        forall|i: int| 0 <= i < final(v)@.len() ==> brought_up(s, #[trigger] final(v)@[i]),
        forall|i: int, j: int|
            0 <= i < j < final(v)@.len() ==> teardown_rank(#[trigger] final(v)@[i])
                < teardown_rank(#[trigger] final(v)@[j]),
        forall|i: int|
            0 <= i < final(v)@.len() ==> teardown_rank(#[trigger] final(v)@[i]) <= teardown_rank(
                step,
            ),
        forall|t: TeardownStep|
            teardown_rank(t) <= teardown_rank(step) && brought_up(s, t) ==> #[trigger] final(v)@.contains(t),
{
    let ghost before = v@;
    if cond {
        v.push(step);
        proof {
            assert(v@[before.len() as int] == step);
            assert forall|t: TeardownStep|
                teardown_rank(t) <= teardown_rank(step) && brought_up(s, t) implies v@.contains(
                t,
            ) by {
                if t == step {
                    assert(v@[before.len() as int] == t);
                } else {
                    assert(before.contains(t));
                    let k = choose|k: int| 0 <= k < before.len() && before[k] == t;
                    assert(v@[k] == t);
                }
            }
        }
    } else {
        proof {
            assert forall|t: TeardownStep|
                teardown_rank(t) <= teardown_rank(step) && brought_up(s, t) implies v@.contains(
                t,
            ) by {
                if t == step {
                } else {
                    assert(teardown_rank(t) != teardown_rank(step)) by {
                        lemma_rank_injective(t, step);
                    }
                }
            }
        }
    }
}

/// Distinct steps have distinct places.
pub proof fn lemma_rank_injective(a: TeardownStep, b: TeardownStep)
    ensures
        teardown_rank(a) == teardown_rank(b) ==> a == b,
{
}

impl SeriousCamera {
    /// Takes the capture lock for a session. Fails cleanly, changing nothing, while a
    /// session is in flight: a device has at most one.
    pub fn begin_capture(&mut self) -> (r: Result<ArmingPlan, CameraError>)
        requires
            old(self).wf(),
            old(self)@.pool_created,
        ensures
            final(self).wf(),
            old(self)@.phase == CapturePhase::Idle <==> r is Ok,
            r matches Ok(plan) ==> plan == arming_plan(old(self)@) && final(self)@ == begin_state(
                old(self)@,
            ),
            r matches Err(e) ==> is_busy(e) && final(self)@ == old(self)@,
    {
        match self.st.phase {
            CapturePhase::Idle => {
                self.st.phase = CapturePhase::Arming;
                let port = self.pool_port();
                let enable_port = if self.st.use_encoder {
                    !self.st.encoder_output_port_enabled
                } else {
                    !self.st.output_port_enabled
                };
                Ok(
                    ArmingPlan {
                        port,
                        enable_port,
                        capture_port: self.encoder_source_port(),
                        shutter_speed: 0,
                    },
                )
            },
            _ => Err(CameraError::busy()),
        }
    }

    /// A step of arming that the driver answered with `status`. A rejection gives the
    /// session up: the caller detaches the delivery context if one was attached.
    pub fn arming_step(&mut self, status: u32, message: &str) -> (r: Result<(), CameraError>)
        requires
            old(self).wf(),
            old(self)@.phase == CapturePhase::Arming,
        ensures
            final(self).wf(),
            status == MMAL_SUCCESS <==> r is Ok,
            r is Ok ==> final(self)@ == old(self)@,
            r matches Err(e) ==> e.is_driver(message@, status) && final(self)@ == abort_state(
                old(self)@,
            ),
    {
        if status == MMAL_SUCCESS {
            Ok(())
        } else {
            self.abort_capture();
            Err(CameraError::driver(message, status))
        }
    }

    /// Gives up a session that is being armed; true where a delivery context was
    /// attached and must be detached.
    pub fn abort_capture(&mut self) -> (detach: bool)
        requires
            old(self).wf(),
            old(self)@.phase == CapturePhase::Arming,
        ensures
            final(self).wf(),
            detach == old(self)@.callback_armed,
            final(self)@ == abort_state(old(self)@),
    {
        let detach = self.st.callback_armed;
        self.st.phase = CapturePhase::Idle;
        self.st.callback_armed = false;
        detach
    }

    /// Records that the session's delivery context is attached to the active port. A
    /// port holds one context at a time.
    pub fn set_buffer_callback(&mut self)
        requires
            old(self).wf(),
            old(self)@.phase == CapturePhase::Arming,
            !old(self)@.callback_armed,
            old(self)@.pool_created,
        ensures
            final(self).wf(),
            final(self)@ == (DeviceState { callback_armed: true, ..old(self)@ }),
    {
        self.st.callback_armed = true;
    }

    /// The driver's answer to the capture switch: the session captures, or is given up.
    pub fn start_capture(&mut self, status: u32) -> (r: Result<(), CameraError>)
        requires
            old(self).wf(),
            old(self)@.phase == CapturePhase::Arming,
            old(self)@.callback_armed,
        ensures
            final(self).wf(),
            status == MMAL_SUCCESS <==> r is Ok,
            r is Ok ==> final(self)@ == capturing_state(old(self)@),
            r matches Err(e) ==> e.is_driver("Unable to set camera capture boolean"@, status)
                && final(self)@ == abort_state(old(self)@),
    {
        if status == MMAL_SUCCESS {
            self.st.phase = CapturePhase::Capturing;
            self.st.capture_requested = true;
            Ok(())
        } else {
            self.abort_capture();
            Err(CameraError::driver("Unable to set camera capture boolean", status))
        }
    }

    /// Halts capturing; safe to call at any time. True where the caller must turn the
    /// driver's capture switch off on the camera port of [`Self::encoder_source_port`].
    pub fn stop_capturing(&mut self) -> (stop: bool)
        requires
            old(self).wf(),
        ensures
            final(self).wf(),
            stop == old(self)@.capture_requested,
            final(self)@ == halt_state(old(self)@),
    {
        if !self.st.capture_requested {
            return false;
        }
        self.st.capture_requested = false;
        if self.st.phase == CapturePhase::Capturing {
            self.st.phase = CapturePhase::Draining;
        }
        true
    }

    /// The driver's end-of-stream delivery: true where the session's delivery context
    /// was attached and is now detached, which releases the capture lock.
    pub fn end_of_stream(&mut self) -> (detached: bool)
        requires
            old(self).wf(),
        ensures
            final(self).wf(),
            detached == old(self)@.callback_armed,
            final(self)@ == end_state(old(self)@),
    {
        if self.st.callback_armed {
            self.st.callback_armed = false;
            self.st.phase = CapturePhase::Idle;
            true
        } else {
            false
        }
    }

    /// The native operations that tear the device down, in order: exactly the steps
    /// that undo something brought up, each once, capture first, then connections,
    /// then the encoder, then the camera's ports, then the pool and the components.
    pub fn teardown_plan(&self) -> (r: Vec<TeardownStep>)
        ensures
            forall|i: int| 0 <= i < r@.len() ==> brought_up(self@, #[trigger] r@[i]),
            forall|i: int, j: int|
                0 <= i < j < r@.len() ==> teardown_rank(#[trigger] r@[i]) < teardown_rank(
                    #[trigger] r@[j],
                ),
            forall|t: TeardownStep| brought_up(self@, t) ==> #[trigger] r@.contains(t),
    {
        let s = self.st;
        let ghost g = self@;
        let mut v: Vec<TeardownStep> = Vec::new();
        proof {
            assert forall|t: TeardownStep|
                teardown_rank(t) < 0 && brought_up(g, t) implies v@.contains(t) by {
                lemma_rank_bounds(t);
            }
        }
        push_if(&mut v, s.capture_requested, TeardownStep::StopCapture, Ghost(g));
        push_if(
            &mut v,
            s.connection_enabled,
            TeardownStep::DisableConnection(Link::Encoder),
            Ghost(g),
        );
        push_if(
            &mut v,
            s.connection_created,
            TeardownStep::DestroyConnection(Link::Encoder),
            Ghost(g),
        );
        push_if(
            &mut v,
            s.preview_connection_enabled,
            TeardownStep::DisableConnection(Link::Preview),
            Ghost(g),
        );
        push_if(
            &mut v,
            s.preview_connection_created,
            TeardownStep::DestroyConnection(Link::Preview),
            Ghost(g),
        );
        push_if(
            &mut v,
            s.encoder_output_port_enabled,
            TeardownStep::DisablePort(TeardownPort::EncoderOutput),
            Ghost(g),
        );
        push_if(
            &mut v,
            s.encoder_control_port_enabled,
            TeardownStep::DisablePort(TeardownPort::EncoderControl),
            Ghost(g),
        );
        push_if(
            &mut v,
            s.encoder_enabled,
            TeardownStep::DisableComponent(Component::Encoder),
            Ghost(g),
        );
        push_if(
            &mut v,
            s.output_port_enabled && s.is_video,
            TeardownStep::DisablePort(TeardownPort::CameraVideo),
            Ghost(g),
        );
        push_if(
            &mut v,
            s.output_port_enabled && !s.is_video,
            TeardownStep::DisablePort(TeardownPort::CameraCapture),
            Ghost(g),
        );
        push_if(
            &mut v,
            s.control_port_enabled,
            TeardownStep::DisablePort(TeardownPort::CameraControl),
            Ghost(g),
        );
        push_if(&mut v, s.callback_armed, TeardownStep::DetachCallback, Ghost(g));
        push_if(&mut v, s.pool_created, TeardownStep::DestroyPool, Ghost(g));
        push_if(
            &mut v,
            s.preview_enabled,
            TeardownStep::DisableComponent(Component::Preview),
            Ghost(g),
        );
        push_if(&mut v, s.enabled, TeardownStep::DisableComponent(Component::Camera), Ghost(g));
        push_if(
            &mut v,
            s.preview_created,
            TeardownStep::DestroyComponent(Component::Preview),
            Ghost(g),
        );
        push_if(
            &mut v,
            s.encoder_created,
            TeardownStep::DestroyComponent(Component::Encoder),
            Ghost(g),
        );
        push_if(&mut v, true, TeardownStep::DestroyComponent(Component::Camera), Ghost(g));
        proof {
            assert forall|t: TeardownStep| brought_up(g, t) implies v@.contains(t) by {
                lemma_rank_bounds(t);
            }
        }
        v
    }
}

/// The record once the session's delivery context is attached.
pub open spec fn armed_state(s: DeviceState) -> DeviceState {
    DeviceState { callback_armed: true, ..s }
}

/// A device has at most one capture session. While a session holds the capture lock,
/// through arming, capturing and draining, the device is never idle, so a request for
/// another session fails and changes nothing; only the end of the stream, or giving
/// the session up, frees the lock.
pub proof fn lemma_one_session_per_device(s: DeviceState)
    requires
        state_wf(s),
        s.phase == CapturePhase::Idle,
        s.pool_created,
    ensures
        state_wf(begin_state(s)),
        state_wf(armed_state(begin_state(s))),
        state_wf(capturing_state(armed_state(begin_state(s)))),
        state_wf(halt_state(capturing_state(armed_state(begin_state(s))))),
        begin_state(s).phase == CapturePhase::Arming,
        armed_state(begin_state(s)).phase == CapturePhase::Arming,
        capturing_state(armed_state(begin_state(s))).phase == CapturePhase::Capturing,
        halt_state(capturing_state(armed_state(begin_state(s)))).phase == CapturePhase::Draining,
        end_state(halt_state(capturing_state(armed_state(begin_state(s))))).phase
            == CapturePhase::Idle,
        end_state(capturing_state(armed_state(begin_state(s)))).phase == CapturePhase::Idle,
        abort_state(begin_state(s)).phase == CapturePhase::Idle,
        abort_state(armed_state(begin_state(s))).phase == CapturePhase::Idle,
{
}

/// Halting is idempotent, and a delivery context is detached exactly once: a second
/// end of stream, or a halt with nothing captured, changes nothing.
pub proof fn lemma_halt_and_detach_are_idempotent(s: DeviceState)
    requires
        state_wf(s),
    ensures
        halt_state(halt_state(s)) == halt_state(s),
        end_state(end_state(s)) == end_state(s),
        !end_state(s).callback_armed,
        state_wf(halt_state(s)),
        state_wf(end_state(s)),
{
}

/// Halting a capture leads the consumer to the end of the stream, even straight after
/// the capture started with no buffer delivered: the session drains with its delivery
/// context still attached, so the driver's terminal delivery becomes the end marker;
/// handling it frees the capture lock; and the consumer reads nothing past the marker,
/// so the frames it sees are finitely many.
pub proof fn lemma_halt_reaches_end_of_stream(
    s: DeviceState,
    flags: u32,
    delivered: Seq<Message>,
    extra: Seq<Message>,
)
    requires
        state_wf(s),
        s.phase == CapturePhase::Capturing,
    ensures
        state_wf(halt_state(s)),
        halt_state(s).phase == CapturePhase::Draining,
        delivery_of(halt_state(s).callback_armed, 0, flags) == Delivery::EndOfStream,
        state_wf(end_state(halt_state(s))),
        end_state(halt_state(s)).phase == CapturePhase::Idle,
        !end_state(halt_state(s)).callback_armed,
        frames_of(delivered.push(Message::End) + extra, seq![]) == frames_of(delivered, seq![]),
        still_bytes(delivered.push(Message::End) + extra) == still_bytes(delivered),
{
    lemma_frames_stop_at_end(delivered, extra, seq![]);
}

} // verus!
