//! The program's configuration model: plain records that the
//! command-line front end fills in.

use vstd::prelude::*;

use crate::duration::Duration;
use crate::keycode::KeyCode;

verus! {

/// Where the rendered image goes.
#[derive(Clone, Debug)]
pub enum Output {
    /// A framebuffer device, with the e-ink refresh cadence.
    Framebuffer { device: String, eink_refresh_rate: u32 },
    /// A PNG file.
    Image(String),
}

/// Exit-on-keypress configuration: which keys end the run, and the
/// device path pattern to search.
#[derive(Clone, Debug)]
pub struct ExitOnKeypress {
    pub keys: Vec<KeyCode>,
    pub devices: String,
}

/// Sleep configuration.
#[derive(Clone, Debug)]
pub struct Sleep {
    pub duration: Duration,
    pub suspend: bool,
    pub suspend_grace: Duration,
    pub wakeup_rtc: String,
    pub exit_on_keypress: Option<ExitOnKeypress>,
}

impl Sleep {
    /// The front end's acceptance rule for sleep options: the interval
    /// reaches half a minute, or suspend to RAM is requested.
    pub fn guard_ok(&self) -> (r: bool)
        ensures
            r <==> (self.duration.secs >= 30 || self.suspend),
    {
        self.duration.secs >= 30 || self.suspend
    }
}

/// Wait-for-network configuration.
#[derive(Clone, Debug)]
pub struct WaitForNetwork {
    pub host: String,
    pub timeout: Duration,
}

/// Everything the program is configured with.
#[derive(Clone, Debug)]
pub struct Options {
    pub template: String,
    pub script: Option<String>,
    pub sleep: Option<Sleep>,
    pub wait_for_network: Option<WaitForNetwork>,
    pub resources_dir: Option<String>,
    pub fonts_dir: Option<String>,
    pub system_fonts: bool,
    pub output: Output,
}

} // verus!
