//! Framebuffer description records and pixel-format detection.  The
//! drawing pipeline itself lives outside this crate; here stand the
//! plain records a framebuffer reports and the rules that read them.

use vstd::prelude::*;

use crate::text::str_eq;

verus! {

/// What can go wrong around the framebuffer.
#[derive(Clone, Copy, Debug, PartialEq, Eq, Structural)]
pub enum Error {
    /// An operating-system call failed; holds the errno value.
    OsError(i32),
    /// An input or output call failed; holds the errno value.
    IoError(i32),
    /// The reported bits per pixel are not supported.
    UnsupportedPixelDepth,
    /// The reported channel layout is not supported.
    UnsupportedPixelFormat,
}

/// The e-ink refresh request kinds a legacy display driver accepts.
#[allow(non_camel_case_types)]
#[derive(Clone, Copy, Debug, PartialEq, Eq, Structural)]
pub enum fx_type {
    fx_update_partial,
    fx_update_full,
}

/// One color channel's position inside a pixel.
#[allow(non_camel_case_types)]
#[derive(Clone, Copy, Debug, PartialEq, Eq, Structural)]
pub struct fb_bitfield {
    pub offset: u32,
    pub length: u32,
    pub msb_right: u32,
}

/// The variable screen description a framebuffer device reports.
#[allow(non_camel_case_types)]
#[derive(Clone, Copy, Debug, PartialEq, Eq, Structural)]
pub struct fb_var_screeninfo {
    pub xres: u32,
    pub yres: u32,
    pub xres_virtual: u32,
    pub yres_virtual: u32,
    pub xoffset: u32,
    pub yoffset: u32,
    pub bits_per_pixel: u32,
    pub grayscale: u32,
    pub red: fb_bitfield,
    pub green: fb_bitfield,
    pub blue: fb_bitfield,
    pub transp: fb_bitfield,
    pub nonstd: u32,
    pub activate: u32,
    pub height: u32,
    pub width: u32,
    pub accel_flags: u32,
    pub pixclock: u32,
    pub left_margin: u32,
    pub right_margin: u32,
    pub upper_margin: u32,
    pub lower_margin: u32,
    pub hsync_len: u32,
    pub vsync_len: u32,
    pub sync: u32,
    pub vmode: u32,
    pub rotate: u32,
    pub colorspace: u32,
}

/// How pixel bytes are laid out.
#[derive(Clone, Copy, Debug, PartialEq, Eq, Structural)]
pub enum PixelFormat {
    RGBA8888,
    BGRA8888,
    RGB888,
    BGR888,
    RGB565,
    BGR565,
    Grayscale8,
    Grayscale16,
    Grayscale32,
}

/// Whether a channel occupies the given offset and length, most
/// significant bit left.
pub open spec fn chan(f: fb_bitfield, offset: u32, length: u32) -> bool {
    f.offset == offset && f.length == length && f.msb_right == 0
}

/// Whether a channel is absent.
pub open spec fn chan_none(f: fb_bitfield) -> bool {
    f.offset == 0 && f.length == 0 && f.msb_right == 0
}

/// The pixel format a screen description names: a grayscale mode by
/// depth alone, else a color layout read off the four channel
/// positions; an unknown layout or depth is refused.
pub open spec fn spec_pixel_format(v: fb_var_screeninfo) -> Result<(PixelFormat, u32), Error> {
    if v.grayscale == 1 {
        if v.bits_per_pixel == 32 {
            Ok((PixelFormat::Grayscale32, 32u32))
        } else if v.bits_per_pixel == 16 {
            Ok((PixelFormat::Grayscale16, 16u32))
        } else if v.bits_per_pixel == 8 {
            Ok((PixelFormat::Grayscale8, 8u32))
        } else {
            Err(Error::UnsupportedPixelFormat)
        }
    } else if v.bits_per_pixel == 32 || v.bits_per_pixel == 24 {
        if chan(v.red, 0, 8) && chan(v.green, 8, 8) && chan(v.blue, 16, 8) && chan(v.transp, 24, 8) {
            Ok((PixelFormat::RGBA8888, v.bits_per_pixel))
        } else if chan(v.red, 16, 8) && chan(v.green, 8, 8) && chan(v.blue, 0, 8) && chan(
            v.transp,
            24,
            8,
        ) {
            Ok((PixelFormat::BGRA8888, v.bits_per_pixel))
        } else if chan(v.red, 0, 8) && chan(v.green, 8, 8) && chan(v.blue, 16, 8) && chan_none(
            v.transp,
        ) {
            Ok((PixelFormat::RGB888, v.bits_per_pixel))
        } else if chan(v.red, 16, 8) && chan(v.green, 8, 8) && chan(v.blue, 0, 8) && chan_none(
            v.transp,
        ) {
            Ok((PixelFormat::BGR888, v.bits_per_pixel))
        } else {
            Err(Error::UnsupportedPixelFormat)
        }
    } else if v.bits_per_pixel == 16 {
        if chan(v.red, 0, 5) && chan(v.green, 5, 6) && chan(v.blue, 11, 5) && chan_none(v.transp) {
            Ok((PixelFormat::RGB565, 16u32))
        } else if chan(v.red, 11, 5) && chan(v.green, 5, 6) && chan(v.blue, 0, 5) && chan_none(
            v.transp,
        ) {
            Ok((PixelFormat::BGR565, 16u32))
        } else {
            Err(Error::UnsupportedPixelFormat)
        }
    } else {
        Err(Error::UnsupportedPixelDepth)
    }
}

/// Reads the pixel format off a screen description, exactly as
/// `spec_pixel_format` does.
pub fn pixel_format(var_screeninfo: fb_var_screeninfo) -> (r: Result<(PixelFormat, u32), Error>)
    ensures
        r == spec_pixel_format(var_screeninfo),
{
    let v = var_screeninfo;
    if v.grayscale == 1 {
        return if v.bits_per_pixel == 32 {
            Ok((PixelFormat::Grayscale32, 32))
        } else if v.bits_per_pixel == 16 {
            Ok((PixelFormat::Grayscale16, 16))
        } else if v.bits_per_pixel == 8 {
            Ok((PixelFormat::Grayscale8, 8))
        } else {
            Err(Error::UnsupportedPixelFormat)
        };
    }
    if v.bits_per_pixel == 32 || v.bits_per_pixel == 24 {
        let bpp = v.bits_per_pixel;
        if is_chan(v.red, 0, 8) && is_chan(v.green, 8, 8) && is_chan(v.blue, 16, 8) && is_chan(
            v.transp,
            24,
            8,
        ) {
            Ok((PixelFormat::RGBA8888, bpp))
        } else if is_chan(v.red, 16, 8) && is_chan(v.green, 8, 8) && is_chan(v.blue, 0, 8)
            && is_chan(v.transp, 24, 8) {
            Ok((PixelFormat::BGRA8888, bpp))
        } else if is_chan(v.red, 0, 8) && is_chan(v.green, 8, 8) && is_chan(v.blue, 16, 8)
            && is_chan_none(v.transp) {
            Ok((PixelFormat::RGB888, bpp))
        } else if is_chan(v.red, 16, 8) && is_chan(v.green, 8, 8) && is_chan(v.blue, 0, 8)
            && is_chan_none(v.transp) {
            Ok((PixelFormat::BGR888, bpp))
        } else {
            Err(Error::UnsupportedPixelFormat)
        }
    } else if v.bits_per_pixel == 16 {
        if is_chan(v.red, 0, 5) && is_chan(v.green, 5, 6) && is_chan(v.blue, 11, 5) && is_chan_none(
            v.transp,
        ) {
            Ok((PixelFormat::RGB565, 16))
        } else if is_chan(v.red, 11, 5) && is_chan(v.green, 5, 6) && is_chan(v.blue, 0, 5)
            && is_chan_none(v.transp) {
            Ok((PixelFormat::BGR565, 16))
        } else {
            Err(Error::UnsupportedPixelFormat)
        }
    } else {
        Err(Error::UnsupportedPixelDepth)
    }
}

/// Whether a channel occupies the given offset and length.
fn is_chan(f: fb_bitfield, offset: u32, length: u32) -> (r: bool)
    ensures
        r == chan(f, offset, length),
{
    f.offset == offset && f.length == length && f.msb_right == 0
}

/// Whether a channel is absent.
fn is_chan_none(f: fb_bitfield) -> (r: bool)
    ensures
        r == chan_none(f),
{
    f.offset == 0 && f.length == 0 && f.msb_right == 0
}

/// Quirks of known display hardware.
#[derive(Clone, Copy, Debug, PartialEq, Eq, Structural)]
pub struct DeviceFeatures {
    /// Colors are stored inverted and must be flipped when drawing.
    pub inverted_color: bool,
    /// The device needs explicit legacy e-ink refresh requests.
    pub kindle_legacy_eink_refresh: bool,
}

/// The quirks a device identification string names.
pub open spec fn spec_features_of(id: Seq<char>) -> DeviceFeatures {
    if id == "eink_fb"@ {
        DeviceFeatures { inverted_color: true, kindle_legacy_eink_refresh: true }
    } else {
        DeviceFeatures { inverted_color: false, kindle_legacy_eink_refresh: false }
    }
}

impl DeviceFeatures {
    /// Reads the quirks off a device identification string, exactly as
    /// `spec_features_of` does.
    pub fn from_id(device_id: &str) -> (r: DeviceFeatures)
        ensures
            r == spec_features_of(device_id@),
    {
        if str_eq(device_id, "eink_fb") {
            DeviceFeatures { inverted_color: true, kindle_legacy_eink_refresh: true }
        } else {
            DeviceFeatures { inverted_color: false, kindle_legacy_eink_refresh: false }
        }
    }
}

/// Configuration of a framebuffer to open.
#[derive(Debug)]
pub struct Builder {
    pub device: String,
    pub eink_refresh_rate: u32,
}

impl Builder {
    /// Starts configuration for the given device path.
    pub fn with_device(device: String) -> (b: Builder)
        ensures
            b.device@ == device@,
            b.eink_refresh_rate == 0,
    {
        Builder { device, eink_refresh_rate: 0 }
    }

    /// Refresh e-ink backed framebuffers every `rate` updates.
    pub fn eink_refresh_rate(self, rate: u32) -> (b: Builder)
        ensures
            b.device@ == self.device@,
            b.eink_refresh_rate == rate,
    {
        Builder { device: self.device, eink_refresh_rate: rate }
    }
}

} // verus!
