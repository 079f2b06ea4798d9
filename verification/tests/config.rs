use oikos::duration::Duration;
use oikos::fb::{
    fb_bitfield, fb_var_screeninfo, pixel_format, Builder, DeviceFeatures, Error, PixelFormat,
};
use oikos::keycode::KeyCode;
use oikos::opts::{ExitOnKeypress, Sleep};

fn no_chan() -> fb_bitfield {
    fb_bitfield { offset: 0, length: 0, msb_right: 0 }
}

fn chan(offset: u32, length: u32) -> fb_bitfield {
    fb_bitfield { offset, length, msb_right: 0 }
}

fn vsi(bpp: u32, grayscale: u32) -> fb_var_screeninfo {
    fb_var_screeninfo {
        xres: 600,
        yres: 800,
        xres_virtual: 600,
        yres_virtual: 800,
        xoffset: 0,
        yoffset: 0,
        bits_per_pixel: bpp,
        grayscale,
        red: no_chan(),
        green: no_chan(),
        blue: no_chan(),
        transp: no_chan(),
        nonstd: 0,
        activate: 0,
        height: 0,
        width: 0,
        accel_flags: 0,
        pixclock: 0,
        left_margin: 0,
        right_margin: 0,
        upper_margin: 0,
        lower_margin: 0,
        hsync_len: 0,
        vsync_len: 0,
        sync: 0,
        vmode: 0,
        rotate: 0,
        colorspace: 0,
    }
}

#[test]
fn grayscale_formats_go_by_depth() {
    assert_eq!(pixel_format(vsi(8, 1)), Ok((PixelFormat::Grayscale8, 8)));
    assert_eq!(pixel_format(vsi(16, 1)), Ok((PixelFormat::Grayscale16, 16)));
    assert_eq!(pixel_format(vsi(32, 1)), Ok((PixelFormat::Grayscale32, 32)));
    assert_eq!(pixel_format(vsi(24, 1)), Err(Error::UnsupportedPixelFormat));
}

#[test]
fn color_formats_go_by_channel_layout() {
    let mut v = vsi(32, 0);
    v.red = chan(0, 8);
    v.green = chan(8, 8);
    v.blue = chan(16, 8);
    v.transp = chan(24, 8);
    assert_eq!(pixel_format(v), Ok((PixelFormat::RGBA8888, 32)));
    v.red = chan(16, 8);
    v.blue = chan(0, 8);
    assert_eq!(pixel_format(v), Ok((PixelFormat::BGRA8888, 32)));
    let mut v = vsi(24, 0);
    v.red = chan(0, 8);
    v.green = chan(8, 8);
    v.blue = chan(16, 8);
    assert_eq!(pixel_format(v), Ok((PixelFormat::RGB888, 24)));
    v.red = chan(16, 8);
    v.blue = chan(0, 8);
    assert_eq!(pixel_format(v), Ok((PixelFormat::BGR888, 24)));
    let mut v = vsi(16, 0);
    v.red = chan(0, 5);
    v.green = chan(5, 6);
    v.blue = chan(11, 5);
    assert_eq!(pixel_format(v), Ok((PixelFormat::RGB565, 16)));
    v.red = chan(11, 5);
    v.blue = chan(0, 5);
    assert_eq!(pixel_format(v), Ok((PixelFormat::BGR565, 16)));
}

#[test]
fn unknown_layouts_and_depths_are_refused() {
    assert_eq!(pixel_format(vsi(32, 0)), Err(Error::UnsupportedPixelFormat));
    let mut v = vsi(16, 0);
    v.red = chan(3, 5);
    v.green = chan(5, 6);
    v.blue = chan(11, 5);
    assert_eq!(pixel_format(v), Err(Error::UnsupportedPixelFormat));
    assert_eq!(pixel_format(vsi(12, 0)), Err(Error::UnsupportedPixelDepth));
}

#[test]
fn device_quirks_by_identification() {
    let f = DeviceFeatures::from_id("eink_fb");
    assert!(f.inverted_color);
    assert!(f.kindle_legacy_eink_refresh);
    let f = DeviceFeatures::from_id("vfb");
    assert!(!f.inverted_color);
    assert!(!f.kindle_legacy_eink_refresh);
}

#[test]
fn framebuffer_builder_holds_its_configuration() {
    let b = Builder::with_device(String::from("/dev/fb0"));
    assert_eq!(b.eink_refresh_rate, 0);
    let b = b.eink_refresh_rate(5);
    assert_eq!(b.device, "/dev/fb0");
    assert_eq!(b.eink_refresh_rate, 5);
}

#[test]
fn durations() {
    assert!(Duration::from_secs(0).is_zero());
    assert!(!Duration::new(0, 1).is_zero());
    assert!(!Duration::from_secs(3).is_zero());
}

#[test]
fn sleep_guard() {
    let sleep = |secs: u64, suspend: bool| Sleep {
        duration: Duration::from_secs(secs),
        suspend,
        suspend_grace: Duration::from_secs(3),
        wakeup_rtc: String::from("/dev/rtc0"),
        exit_on_keypress: Some(ExitOnKeypress {
            keys: vec![KeyCode(102)],
            devices: String::from("/dev/input/event*"),
        }),
    };
    assert!(sleep(30, false).guard_ok());
    assert!(sleep(5, true).guard_ok());
    assert!(!sleep(5, false).guard_ok());
}
