use vstd::prelude::*;

verus! {

/// Sensor sensitivity.
#[derive(Debug, Clone, Copy, PartialEq, Eq, Structural)]
pub enum ISO {
    IsoAuto,
    Iso125,
    Iso160,
    Iso200,
    Iso250,
    Iso320,
    Iso400,
    Iso500,
    Iso640,
    Iso800,
    Iso1000,
    Iso1250,
    Iso1600,
    Iso2000,
    Iso2500,
    Iso3200,
}

impl ISO {
    /// The value handed to the driver: the ISO number itself, 0 for automatic.
    pub open spec fn spec_value(self) -> u32 {
        match self {
            ISO::IsoAuto => 0,
            ISO::Iso125 => 125,
            ISO::Iso160 => 160,
            ISO::Iso200 => 200,
            ISO::Iso250 => 250,
            ISO::Iso320 => 320,
            ISO::Iso400 => 400,
            ISO::Iso500 => 500,
            ISO::Iso640 => 640,
            ISO::Iso800 => 800,
            ISO::Iso1000 => 1000,
            ISO::Iso1250 => 1250,
            ISO::Iso1600 => 1600,
            ISO::Iso2000 => 2000,
            ISO::Iso2500 => 2500,
            ISO::Iso3200 => 3200,
        }
    }

    pub fn to_u32(&self) -> (r: u32)
        ensures
            r == self.spec_value(),
    {
        match self {
            ISO::IsoAuto => 0,
            ISO::Iso125 => 125,
            ISO::Iso160 => 160,
            ISO::Iso200 => 200,
            ISO::Iso250 => 250,
            ISO::Iso320 => 320,
            ISO::Iso400 => 400,
            ISO::Iso500 => 500,
            ISO::Iso640 => 640,
            ISO::Iso800 => 800,
            ISO::Iso1000 => 1000,
            ISO::Iso1250 => 1250,
            ISO::Iso1600 => 1600,
            ISO::Iso2000 => 2000,
            ISO::Iso2500 => 2500,
            ISO::Iso3200 => 3200,
        }
    }
}

/// Exposure metering mode, numbered as the driver numbers it.
#[derive(Debug, Clone, Copy, PartialEq, Eq, Structural)]
pub enum MeteringMode {
    Average,
    Spot,
    Backlit,
    Matrix,
}

impl MeteringMode {
    pub open spec fn spec_value(self) -> i32 {
        match self {
            MeteringMode::Average => 0,
            MeteringMode::Spot => 1,
            MeteringMode::Backlit => 2,
            MeteringMode::Matrix => 3,
        }
    }

    pub fn to_i32(&self) -> (r: i32)
        ensures
            r == self.spec_value(),
    {
        match self {
            MeteringMode::Average => 0,
            MeteringMode::Spot => 1,
            MeteringMode::Backlit => 2,
            MeteringMode::Matrix => 3,
        }
    }
}

/// Exposure mode, numbered as the driver numbers it.
#[derive(Debug, Clone, Copy, PartialEq, Eq, Structural)]
pub enum ExposureMode {
    Off,
    Auto,
    Night,
    NightPreview,
    Backlight,
    Spotlight,
    Sports,
    Snow,
    Beach,
    VeryLong,
}

impl ExposureMode {
    pub open spec fn spec_value(self) -> i32 {
        match self {
            ExposureMode::Off => 0,
            ExposureMode::Auto => 1,
            ExposureMode::Night => 2,
            ExposureMode::NightPreview => 3,
            ExposureMode::Backlight => 4,
            ExposureMode::Spotlight => 5,
            ExposureMode::Sports => 6,
            ExposureMode::Snow => 7,
            ExposureMode::Beach => 8,
            ExposureMode::VeryLong => 9,
        }
    }

    pub fn to_i32(&self) -> (r: i32)
        ensures
            r == self.spec_value(),
    {
        match self {
            ExposureMode::Off => 0,
            ExposureMode::Auto => 1,
            ExposureMode::Night => 2,
            ExposureMode::NightPreview => 3,
            ExposureMode::Backlight => 4,
            ExposureMode::Spotlight => 5,
            ExposureMode::Sports => 6,
            ExposureMode::Snow => 7,
            ExposureMode::Beach => 8,
            ExposureMode::VeryLong => 9,
        }
    }
}

/// Auto white balance mode, numbered as the driver numbers it.
#[derive(Debug, Clone, Copy, PartialEq, Eq, Structural)]
pub enum AwbMode {
    Auto,
    Sunlight,
    Cloud,
    Shade,
    Tungsten,
    Fluorescent,
    Incandescent,
}

impl AwbMode {
    pub open spec fn spec_value(self) -> i32 {
        match self {
            AwbMode::Auto => 1,
            AwbMode::Sunlight => 2,
            AwbMode::Cloud => 3,
            AwbMode::Shade => 4,
            AwbMode::Tungsten => 5,
            AwbMode::Fluorescent => 6,
            AwbMode::Incandescent => 7,
        }
    }

    pub fn to_i32(&self) -> (r: i32)
        ensures
            r == self.spec_value(),
    {
        match self {
            AwbMode::Auto => 1,
            AwbMode::Sunlight => 2,
            AwbMode::Cloud => 3,
            AwbMode::Shade => 4,
            AwbMode::Tungsten => 5,
            AwbMode::Fluorescent => 6,
            AwbMode::Incandescent => 7,
        }
    }
}

/// Flicker reduction mode, numbered as the driver numbers it.
#[derive(Debug, Clone, Copy, PartialEq, Eq, Structural)]
pub enum FlickerAvoidMode {
    Off,
    Auto,
    Avoid50Hz,
    Avoid60Hz,
}

impl FlickerAvoidMode {
    pub open spec fn spec_value(self) -> i32 {
        match self {
            FlickerAvoidMode::Off => 0,
            FlickerAvoidMode::Auto => 1,
            FlickerAvoidMode::Avoid50Hz => 2,
            FlickerAvoidMode::Avoid60Hz => 3,
        }
    }

    pub fn to_i32(&self) -> (r: i32)
        ensures
            r == self.spec_value(),
    {
        match self {
            FlickerAvoidMode::Off => 0,
            FlickerAvoidMode::Auto => 1,
            FlickerAvoidMode::Avoid50Hz => 2,
            FlickerAvoidMode::Avoid60Hz => 3,
        }
    }
}

/// Image rotation in degrees.
#[derive(Debug, Clone, Copy, PartialEq, Eq, Structural)]
pub enum Rotation {
    Rotate0,
    Rotate90,
    Rotate180,
    Rotate270,
}

impl Rotation {
    pub open spec fn spec_value(self) -> i32 {
        match self {
            Rotation::Rotate0 => 0,
            Rotation::Rotate90 => 90,
            Rotation::Rotate180 => 180,
            Rotation::Rotate270 => 270,
        }
    }

    pub fn to_i32(&self) -> (r: i32)
        ensures
            r == self.spec_value(),
    {
        match self {
            Rotation::Rotate0 => 0,
            Rotation::Rotate90 => 90,
            Rotation::Rotate180 => 180,
            Rotation::Rotate270 => 270,
        }
    }
}


// Encodings are named by four-character codes, the first character in the lowest byte.

/// `JPEG`
pub const MMAL_ENCODING_JPEG: u32 = 0x4745_504a;
/// `GIF `
pub const MMAL_ENCODING_GIF: u32 = 0x2046_4947;
/// `PNG `
pub const MMAL_ENCODING_PNG: u32 = 0x2047_4e50;
/// `MJPG`
pub const MMAL_ENCODING_MJPEG: u32 = 0x4750_4a4d;
/// `OPQV`: the driver's own opaque handle format, used between its components.
pub const MMAL_ENCODING_OPAQUE: u32 = 0x5651_504f;
/// `I420`
pub const MMAL_ENCODING_I420: u32 = 0x3032_3449;
/// `RGB3`
pub const MMAL_ENCODING_RGB24: u32 = 0x3342_4752;
/// `BGR3`
pub const MMAL_ENCODING_BGR24: u32 = 0x3352_4742;
/// `H264`
pub const MMAL_ENCODING_H264: u32 = 0x3436_3248;

pub const MMAL_VIDEO_PROFILE_H264_BASELINE: u32 = 25;
pub const MMAL_VIDEO_PROFILE_H264_HIGH: u32 = 28;
pub const MMAL_VIDEO_LEVEL_H264_4: u32 = 28;
pub const MMAL_VIDEO_LEVEL_H264_41: u32 = 29;
pub const MMAL_VIDEO_LEVEL_H264_42: u32 = 30;

/// Frame rate of a video capture when none is chosen.
pub const DEFAULT_FRAMERATE: u32 = 30;

/// The declarative configuration of a capture.
#[derive(Debug, Clone, Copy)]
pub struct CameraSettings {
    /// still-image codec, raw pixel format, or H.264 for video
    pub encoding: u32,
    /// image width in pixels, 0 = maximum
    pub width: u32,
    /// image height in pixels, 0 = maximum
    pub height: u32,
    /// ISO. Default is Auto
    pub iso: ISO,
    /// 0 = auto, otherwise the shutter speed in microseconds
    pub shutter_speed: u32,
    pub exposure_mode: ExposureMode,
    pub metering_mode: MeteringMode,
    pub awb_mode: AwbMode,
    /// EV compensation in steps of 1/6 stop (-25 to +25)
    pub exposure_compensation: i32,
    /// 0 to 100, default 50
    pub brightness: u32,
    /// -100 to 100, default 0
    pub contrast: i32,
    /// -100 to 100, default 0
    pub saturation: i32,
    /// -100 to 100, default 0
    pub sharpness: i32,
    pub rotation: Rotation,
    pub horizontal_flip: bool,
    pub vertical_flip: bool,
    pub flicker_avoid: FlickerAvoidMode,
    pub zero_copy: bool,
    /// route the capture port through an encoder component
    pub use_encoder: bool,
    /// frames per second of a video capture
    pub framerate: u32,
    /// H.264 profile of a video capture
    pub video_profile: u32,
    /// H.264 level of a video capture
    pub video_level: u32,
}

impl CameraSettings {
    /// True for a video (H.264) capture; every other encoding is a still.
    pub open spec fn is_video(&self) -> bool {
        self.encoding == MMAL_ENCODING_H264
    }

    /// The default settings: JPEG through the encoder at the camera's maximum size.
    pub open spec fn spec_default() -> CameraSettings {
        CameraSettings {
            encoding: MMAL_ENCODING_JPEG,
            width: 0,
            height: 0,
            iso: ISO::IsoAuto,
            shutter_speed: 0,
            exposure_mode: ExposureMode::Auto,
            metering_mode: MeteringMode::Average,
            awb_mode: AwbMode::Auto,
            exposure_compensation: 0,
            brightness: 50,
            contrast: 0,
            saturation: 0,
            sharpness: 0,
            rotation: Rotation::Rotate0,
            horizontal_flip: false,
            vertical_flip: false,
            flicker_avoid: FlickerAvoidMode::Auto,
            zero_copy: false,
            use_encoder: true,
            framerate: DEFAULT_FRAMERATE,
            video_profile: MMAL_VIDEO_PROFILE_H264_HIGH,
            video_level: MMAL_VIDEO_LEVEL_H264_4,
        }
    }
}

impl Default for CameraSettings {
    fn default() -> (r: CameraSettings)
        ensures
            r == CameraSettings::spec_default(),
    {
        CameraSettings {
            encoding: MMAL_ENCODING_JPEG,
            width: 0,
            height: 0,
            iso: ISO::IsoAuto,
            shutter_speed: 0,
            exposure_mode: ExposureMode::Auto,
            metering_mode: MeteringMode::Average,
            awb_mode: AwbMode::Auto,
            exposure_compensation: 0,
            brightness: 50,
            contrast: 0,
            saturation: 0,
            sharpness: 0,
            rotation: Rotation::Rotate0,
            horizontal_flip: false,
            vertical_flip: false,
            flicker_avoid: FlickerAvoidMode::Auto,
            zero_copy: false,
            use_encoder: true,
            framerate: DEFAULT_FRAMERATE,
            video_profile: MMAL_VIDEO_PROFILE_H264_HIGH,
            video_level: MMAL_VIDEO_LEVEL_H264_4,
        }
    }
}

} // verus!
