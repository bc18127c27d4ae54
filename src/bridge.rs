//! The callback bridge: what each driver delivery becomes on the consumer's channel.
//!
//! The driver calls back on a thread of its own. The callback's only work is to turn
//! the delivery into a message; everything that reads buffers runs on the consumer side.
use vstd::prelude::*;

verus! {

/// Buffer flag: the buffer closes a still image or a video access unit.
pub const MMAL_BUFFER_HEADER_FLAG_FRAME_END: u32 = 4;

/// Buffer flag: the driver failed to transmit the frame.
pub const MMAL_BUFFER_HEADER_FLAG_TRANSMISSION_FAILED: u32 = 1024;

/// Control event `EPCH`: a parameter changed.
pub const MMAL_EVENT_PARAMETER_CHANGED: u32 = 0x4843_5045;

/// Control event `ERRO`: the sensor reported an error.
pub const MMAL_EVENT_ERROR: u32 = 0x4f52_5245;

/// The buffer closes a frame: it ends a frame or its transmission failed. The driver's
/// signal does not tell the two apart, and neither does this layer.
pub open spec fn frame_boundary(flags: u32) -> bool {
    flags & (MMAL_BUFFER_HEADER_FLAG_FRAME_END | MMAL_BUFFER_HEADER_FLAG_TRANSMISSION_FAILED)
        != 0
}

pub fn is_frame_boundary(flags: u32) -> (r: bool)
    ensures
        r == frame_boundary(flags),
{
    flags & (MMAL_BUFFER_HEADER_FLAG_FRAME_END | MMAL_BUFFER_HEADER_FLAG_TRANSMISSION_FAILED)
        != 0
}

/// What the buffer callback does with one delivery.
#[derive(Debug, Clone, Copy, PartialEq, Eq, Structural)]
pub enum Delivery {
    /// No session context is attached to the port: release the buffer to its pool.
    Unattended,
    /// A payload: lock it, wrap it in a guard and send the guard on the channel.
    Data { frame_end: bool },
    /// The zero-length terminal delivery: release the buffer, end the channel (an
    /// explicit end marker on a blocking channel, closing an asynchronous one), then
    /// detach the session context so the callback is never called for it again.
    EndOfStream,
}

pub open spec fn delivery_of(attached: bool, length: u32, flags: u32) -> Delivery {
    if !attached {
        Delivery::Unattended
    } else if length > 0 {
        Delivery::Data { frame_end: frame_boundary(flags) }
    } else {
        Delivery::EndOfStream
    }
}

/// The buffer callback's decision for a delivery of `length` bytes with `flags`, on a
/// port that has a session context attached or not.
pub fn camera_buffer_callback(attached: bool, length: u32, flags: u32) -> (r: Delivery)
    ensures
        r == delivery_of(attached, length, flags),
{
    if !attached {
        Delivery::Unattended
    } else if length > 0 {
        Delivery::Data { frame_end: is_frame_boundary(flags) }
    } else {
        Delivery::EndOfStream
    }
}

/// What a control-port event reports. The control callback only observes: it releases
/// every buffer it receives and never touches the data channel.
#[derive(Debug, Clone, Copy, PartialEq, Eq, Structural)]
pub enum ControlEvent {
    ParameterChanged,
    SensorError,
    Unexpected,
}

pub open spec fn control_event_of(cmd: u32) -> ControlEvent {
    if cmd == MMAL_EVENT_PARAMETER_CHANGED {
        ControlEvent::ParameterChanged
    } else if cmd == MMAL_EVENT_ERROR {
        ControlEvent::SensorError
    } else {
        ControlEvent::Unexpected
    }
}

/// The control callback's reading of an event command.
pub fn camera_control_callback(cmd: u32) -> (r: ControlEvent)
    ensures
        r == control_event_of(cmd),
{
    if cmd == MMAL_EVENT_PARAMETER_CHANGED {
        ControlEvent::ParameterChanged
    } else if cmd == MMAL_EVENT_ERROR {
        ControlEvent::SensorError
    } else {
        ControlEvent::Unexpected
    }
}

} // verus!
