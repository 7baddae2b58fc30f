//! USB video class function configuration.

use vstd::prelude::*;

use crate::text::{spec_decimal, spec_join_lines, u32_to_decimal, u64_to_decimal};

verus! {

/// USB video class frame format.
#[derive(Debug, Clone, Copy, PartialEq, Eq, Hash, Structural)]
pub enum Format {
    /// Packed YUV format; the only uncompressed format supported.
    Yuyv,
    /// MJPEG compressed format.
    Mjpeg,
}

impl Format {
    /// Every frame format.
    pub fn all() -> (r: Vec<Format>)
        ensures
            r@ == seq![Format::Yuyv, Format::Mjpeg],
    {
        let mut r: Vec<Format> = Vec::new();
        r.push(Format::Yuyv);
        r.push(Format::Mjpeg);
        proof {
            assert(r@ =~= seq![Format::Yuyv, Format::Mjpeg]);
        }
        r
    }

    /// Configuration directory name of the format.
    pub fn dir_name(&self) -> (r: &'static str)
        ensures
            *self == Format::Yuyv ==> r@ == "yuyv"@,
            *self == Format::Mjpeg ==> r@ == "mjpeg"@,
    {
        match self {
            Format::Yuyv => "yuyv",
            Format::Mjpeg => "mjpeg",
        }
    }

    /// Configuration group directory name of the format.
    pub fn group_dir_name(&self) -> (r: &'static str)
        ensures
            *self == Format::Yuyv ==> r@ == "uncompressed"@,
            *self == Format::Mjpeg ==> r@ == "mjpeg"@,
    {
        match self {
            Format::Yuyv => "uncompressed",
            Format::Mjpeg => "mjpeg",
        }
    }

    /// Path of the format's group under the streaming directory.
    pub fn group_path(&self) -> (r: String)
        ensures
            r@ == ("streaming/")@ + (match *self {
                Format::Yuyv => ("uncompressed")@,
                Format::Mjpeg => ("mjpeg")@,
            }) + ("/")@ + (match *self {
                Format::Yuyv => ("yuyv")@,
                Format::Mjpeg => ("mjpeg")@,
            }),
    {
        let mut s = String::from_str("streaming/");
        s.append(self.group_dir_name());
        s.append("/");
        s.append(self.dir_name());
        s
    }

    /// Path of the format's link under the streaming header.
    pub fn header_link_path(&self) -> (r: String)
        ensures
            r@ == ("streaming/header/h/")@ + (match *self {
                Format::Yuyv => ("yuyv")@,
                Format::Mjpeg => ("mjpeg")@,
            }),
    {
        let mut s = String::from_str("streaming/header/h/");
        s.append(self.dir_name());
        s
    }

    /// Path of the format's color matching directory.
    pub fn color_matching_path(&self) -> (r: String)
        ensures
            r@ == ("streaming/color_matching/")@ + (match *self {
                Format::Yuyv => ("yuyv")@,
                Format::Mjpeg => ("mjpeg")@,
            }),
    {
        let mut s = String::from_str("streaming/color_matching/");
        s.append(self.dir_name());
        s
    }

    /// Path of the format's color matching link inside its group.
    pub fn color_matching_link_path(&self) -> (r: String)
        ensures
            ({
                let dir = match *self {
                    Format::Yuyv => ("yuyv")@,
                    Format::Mjpeg => ("mjpeg")@,
                };
                let group = match *self {
                    Format::Yuyv => ("uncompressed")@,
                    Format::Mjpeg => ("mjpeg")@,
                };
                r@ == ("streaming/")@ + group + ("/")@ + dir + ("/color_matching")@
            }),
    {
        let mut s = self.group_path();
        s.append("/color_matching");
        s
    }
}

/// Frame color matching information.
///
/// Optional; when not given, the driver's defaults follow the Color
/// Matching Descriptor section of the UVC specification.
#[derive(Debug, Clone, Copy, PartialEq, Eq, Structural)]
pub struct ColorMatching {
    /// Color primaries.
    pub color_primaries: u8,
    /// Transfer characteristics.
    pub transfer_characteristics: u8,
    /// Matrix coefficients.
    pub matrix_coefficients: u8,
}

impl ColorMatching {
    /// Create new color matching information with the specified
    /// properties.
    pub fn new(color_primaries: u8, transfer_characteristics: u8, matrix_coefficients: u8) -> (r:
        Self)
        ensures
            r == (ColorMatching { color_primaries, transfer_characteristics, matrix_coefficients }),
    {
        Self { color_primaries, transfer_characteristics, matrix_coefficients }
    }
}

/// Helper to create a video frame from rates in frames per second.
#[derive(Debug, Clone, PartialEq, Eq)]
pub struct Frame {
    /// Frame width in pixels.
    pub width: u32,
    /// Frame height in pixels.
    pub height: u32,
    /// Frame format.
    pub format: Format,
    /// Frame rates available, in frames per second.
    pub fps: Vec<u16>,
}

impl Frame {
    /// Create a new frame with the specified properties.
    pub fn new(width: u32, height: u32, fps: Vec<u16>, format: Format) -> (r: Self)
        ensures
            r.width == width,
            r.height == height,
            r.fps@ == fps@,
            r.format == format,
    {
        Self { width, height, format, fps }
    }
}

/// USB video class frame configuration.
#[derive(Debug, Clone, PartialEq, Eq)]
pub struct UvcFrame {
    /// Frame width in pixels.
    pub width: u32,
    /// Frame height in pixels.
    pub height: u32,
    /// Frame intervals available, each in 100 ns units.
    pub intervals: Vec<u32>,
    /// Color matching information; the driver defaults apply when unset.
    pub color_matching: Option<ColorMatching>,
    /// Frame format.
    pub format: Format,
}

impl UvcFrame {
    /// Create a new frame with the specified properties.
    pub fn new(width: u32, height: u32, format: Format, intervals: Vec<u32>) -> (r: Self)
        ensures
            r.width == width,
            r.height == height,
            r.intervals@ == intervals@,
            r.color_matching is None,
            r.format == format,
    {
        Self { width, height, intervals, color_matching: None, format }
    }

    /// The frame of a frames-per-second description: each rate becomes
    /// its interval in 100 ns units.
    pub fn from_frame(frame: &Frame) -> (r: Self)
        requires
            forall|i: int| 0 <= i < frame.fps@.len() ==> (#[trigger] frame.fps@[i]) != 0,
        ensures
            r.width == frame.width,
            r.height == frame.height,
            r.format == frame.format,
            r.color_matching is None,
            r.intervals@ == frame.fps@.map_values(|f: u16| (1_000_000_000u32 / f as u32) as u32),
    {
        let ghost target = frame.fps@.map_values(|f: u16| (1_000_000_000u32 / f as u32) as u32);
        let mut intervals: Vec<u32> = Vec::new();
        let fps = &frame.fps;
        for i in 0..fps.len()
            invariant
                fps == &frame.fps,
                target == frame.fps@.map_values(|f: u16| (1_000_000_000u32 / f as u32) as u32),
                forall|j: int| 0 <= j < fps@.len() ==> (#[trigger] fps@[j]) != 0,
                intervals@ == target.take(i as int),
        {
            let f = fps[i];
            intervals.push(1_000_000_000 / (f as u32));
            proof {
                assert(intervals@ =~= target.take(i + 1));
            }
        }
        proof {
            assert(intervals@ =~= target);
        }
        Self {
            width: frame.width,
            height: frame.height,
            intervals,
            color_matching: None,
            format: frame.format,
        }
    }

    /// Configuration directory name of the frame: its height followed by
    /// `p`.
    pub fn dir_name(&self) -> (r: String)
        ensures
            r@ == spec_decimal(self.height as int) + ("p")@,
    {
        let mut s = u32_to_decimal(self.height);
        s.append("p");
        s
    }

    /// Path of the frame's directory inside its format group.
    pub fn path(&self) -> (r: String)
        ensures
            ({
                let dir = match self.format {
                    Format::Yuyv => ("yuyv")@,
                    Format::Mjpeg => ("mjpeg")@,
                };
                let group = match self.format {
                    Format::Yuyv => ("uncompressed")@,
                    Format::Mjpeg => ("mjpeg")@,
                };
                r@ == ("streaming/")@ + group + ("/")@ + dir + ("/")@ + spec_decimal(
                    self.height as int,
                ) + ("p")@
            }),
    {
        let mut s = self.format.group_path();
        s.append("/");
        s.append(self.dir_name().as_str());
        s
    }

    /// The `dwMaxVideoFrameBufferSize` value written during registration:
    /// width times height times two, with 32-bit wrap-around.
    pub fn max_video_frame_buffer_size(&self) -> (r: u32)
        ensures
            ({
                let wh = ((self.width as int) * (self.height as int)) % 0x1_0000_0000;
                r as int == (wh * 2) % 0x1_0000_0000
            }),
    {
        self.width.wrapping_mul(self.height).wrapping_mul(2)
    }

    /// The `dwFrameInterval` value written during registration: the
    /// intervals in decimal, one per line.
    pub fn interval_lines(&self) -> (r: String)
        ensures
            r@ == spec_join_lines(
                self.intervals@.map_values(|v: u32| spec_decimal(v as int)),
            ),
    {
        let ghost target = self.intervals@.map_values(|v: u32| spec_decimal(v as int));
        let mut parts: Vec<String> = Vec::new();
        let intervals = &self.intervals;
        for i in 0..intervals.len()
            invariant
                intervals == &self.intervals,
                target == self.intervals@.map_values(|v: u32| spec_decimal(v as int)),
                parts@.map_values(|p: String| p@) == target.take(i as int),
        {
            let ghost pre = parts@;
            let text = u64_to_decimal(intervals[i] as u64);
            parts.push(text);
            proof {
                assert(pre.map_values(|p: String| p@).len() == pre.len());
                assert(pre.len() == i);
                assert(parts@ == pre.push(text));
                assert(parts@.len() == i + 1);
                assert(parts@[i as int] == text);
                assert(target[i as int] == spec_decimal(self.intervals@[i as int] as int));
                assert(parts@[i as int]@ == target[i as int]);
                assert(parts@.map_values(|p: String| p@) =~= pre.map_values(|p: String| p@).push(
                    parts@[i as int]@,
                ));
                assert(target.take(i + 1) =~= target.take(i as int).push(target[i as int]));
                assert(parts@.map_values(|p: String| p@) =~= target.take(i + 1));
            }
        }
        proof {
            assert(parts@.map_values(|p: String| p@) =~= target);
        }
        crate::text::join_lines(&parts)
    }
}

/// Builder for a USB video class function.
///
/// Unset fields are left at the driver's default or generated values.
#[derive(Debug, Clone, PartialEq, Eq)]
pub struct UvcBuilder {
    /// Interval for polling the endpoint for data transfers.
    pub streaming_interval: Option<u8>,
    /// `bMaxBurst` of the super-speed companion descriptor; 1 to 15.
    pub streaming_max_burst: Option<u8>,
    /// Maximum packet size of the streaming endpoint; 1024, 2048 or
    /// 3072.
    pub streaming_max_packet: Option<u32>,
    /// Video device interface name.
    pub function_name: Option<String>,
    /// Video frames available.
    pub frames: Vec<UvcFrame>,
    /// The processing unit's `bmControls` field.
    pub processing_controls: Option<u8>,
    /// The camera terminal's `bmControls` field.
    pub camera_controls: Option<u8>,
}

impl UvcBuilder {
    /// A builder with no frames and no values set.
    pub fn new() -> (r: UvcBuilder)
        ensures
            r.streaming_interval is None,
            r.streaming_max_burst is None,
            r.streaming_max_packet is None,
            r.function_name is None,
            r.frames@.len() == 0,
            r.processing_controls is None,
            r.camera_controls is None,
    {
        UvcBuilder {
            streaming_interval: None,
            streaming_max_burst: None,
            streaming_max_packet: None,
            function_name: None,
            frames: Vec::new(),
            processing_controls: None,
            camera_controls: None,
        }
    }
}

} // verus!
