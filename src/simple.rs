//! The simple interface: one camera, configured once, brought up in a fixed order.
use vstd::prelude::*;

use crate::info::CameraInfo;
use crate::settings::{CameraSettings, MMAL_ENCODING_H264};

verus! {

/// One step of bringing a camera up, in the order the driver needs.
#[derive(Debug, Clone, Copy, PartialEq, Eq, Structural)]
pub enum SetupStep {
    /// Bind the component to the camera with this number.
    SetCameraNum(u8),
    CreateEncoder,
    CreateVideoEncoder,
    /// Enable the camera's control port with the event callback.
    EnableControlPort,
    /// Push the stream parameters of [`crate::camera::SeriousCamera::set_camera_params`].
    SetCameraParams { one_shot_stills: bool, framerate: u32 },
    CreatePreview,
    /// Negotiate the formats of a still pipeline.
    SetCameraFormat,
    /// Negotiate the formats of a video pipeline.
    SetVideoCameraFormat,
    Enable,
    EnableEncoder,
    CreatePool,
    ConnectPreview,
    ConnectEncoder,
}

/// The settings with a width or height of 0 replaced by the camera's maximum.
pub open spec fn configured(info: CameraInfo, s: CameraSettings) -> CameraSettings {
    CameraSettings {
        width: if s.width == 0 {
            info.max_width
        } else {
            s.width
        },
        height: if s.height == 0 {
            info.max_height
        } else {
            s.height
        },
        ..s
    }
}

/// The bring-up of a camera for these settings. A video encoding gets the video
/// encoder and continuous capture, anything else the image encoder and one-shot
/// stills; the preview port is wired to a discard sink only where asked for.
pub open spec fn activation_steps(s: CameraSettings, preview: bool) -> Seq<SetupStep> {
    let video = s.encoding == MMAL_ENCODING_H264;
    seq![
        SetupStep::SetCameraNum(0),
        if video {
            SetupStep::CreateVideoEncoder
        } else {
            SetupStep::CreateEncoder
        },
        SetupStep::EnableControlPort,
        SetupStep::SetCameraParams { one_shot_stills: !video, framerate: s.framerate },
    ] + (if preview {
        seq![SetupStep::CreatePreview]
    } else {
        seq![]
    }) + seq![
        if video {
            SetupStep::SetVideoCameraFormat
        } else {
            SetupStep::SetCameraFormat
        },
        SetupStep::Enable,
        SetupStep::EnableEncoder,
        SetupStep::CreatePool,
    ] + (if preview {
        seq![SetupStep::ConnectPreview]
    } else {
        seq![]
    }) + seq![SetupStep::ConnectEncoder]
}

/// A camera with its static description and the settings it will be brought up with.
pub struct SimpleCamera {
    info: CameraInfo,
    settings: Option<CameraSettings>,
    preview: bool,
}

impl SimpleCamera {
    pub closed spec fn spec_info(&self) -> CameraInfo {
        self.info
    }

    pub closed spec fn spec_settings(&self) -> Option<CameraSettings> {
        self.settings
    }

    pub closed spec fn spec_preview(&self) -> bool {
        self.preview
    }

    /// The settings bring-up uses: those configured, or the defaults for this camera.
    pub open spec fn effective_settings(&self) -> CameraSettings {
        match self.spec_settings() {
            Some(s) => s,
            None => configured(self.spec_info(), CameraSettings::spec_default()),
        }
    }

    /// An unconfigured camera, without preview wiring.
    pub fn new(info: CameraInfo) -> (r: SimpleCamera)
        ensures
            r.spec_info() == info,
            r.spec_settings() is None,
            !r.spec_preview(),
    {
        SimpleCamera { info, settings: None, preview: false }
    }

    pub fn info(&self) -> (r: &CameraInfo)
        ensures
            *r == self.spec_info(),
    {
        &self.info
    }

    /// Keeps the settings, a width or height of 0 meaning the camera's maximum.
    pub fn configure(&mut self, settings: CameraSettings)
        ensures
            final(self).spec_settings() == Some(configured(old(self).spec_info(), settings)),
            final(self).spec_info() == old(self).spec_info(),
            final(self).spec_preview() == old(self).spec_preview(),
    {
        let mut settings = settings;
        if settings.width == 0 {
            settings.width = self.info.max_width;
        }
        if settings.height == 0 {
            settings.height = self.info.max_height;
        }
        self.settings = Some(settings);
    }

    /// Wires the preview port to a discard sink on bring-up, or not.
    pub fn set_preview(&mut self, enabled: bool)
        ensures
            final(self).spec_preview() == enabled,
            final(self).spec_info() == old(self).spec_info(),
            final(self).spec_settings() == old(self).spec_settings(),
    {
        self.preview = enabled;
    }

    /// The settings bring-up uses.
    pub fn settings(&self) -> (r: CameraSettings)
        ensures
            r == self.effective_settings(),
    {
        match self.settings {
            Some(s) => s,
            None => {
                let mut s = CameraSettings::default();
                if s.width == 0 {
                    s.width = self.info.max_width;
                }
                if s.height == 0 {
                    s.height = self.info.max_height;
                }
                s
            },
        }
    }

    /// The steps that bring the camera up.
    pub fn activate(&self) -> (r: Vec<SetupStep>)
        ensures
            r@ == activation_steps(self.effective_settings(), self.spec_preview()),
    {
        let s = self.settings();
        let video = s.encoding == MMAL_ENCODING_H264;
        let mut v: Vec<SetupStep> = Vec::new();
        v.push(SetupStep::SetCameraNum(0));
        v.push(
            if video {
                SetupStep::CreateVideoEncoder
            } else {
                SetupStep::CreateEncoder
            },
        );
        v.push(SetupStep::EnableControlPort);
        v.push(SetupStep::SetCameraParams { one_shot_stills: !video, framerate: s.framerate });
        if self.preview {
            v.push(SetupStep::CreatePreview);
        }
        v.push(
            if video {
                SetupStep::SetVideoCameraFormat
            } else {
                SetupStep::SetCameraFormat
            },
        );
        v.push(SetupStep::Enable);
        v.push(SetupStep::EnableEncoder);
        v.push(SetupStep::CreatePool);
        if self.preview {
            v.push(SetupStep::ConnectPreview);
        }
        v.push(SetupStep::ConnectEncoder);
        assert(v@ =~= activation_steps(s, self.preview));
        v
    }
}

} // verus!
