use vstd::prelude::*;

verus! {

/// Notification timeout used when none is given, in milliseconds.
pub const DEFAULT_NOTIF_TIMEOUT: u32 = 5000;

/// What to take a screenshot of.
#[derive(Clone, Copy, Debug, PartialEq, Eq, Structural)]
pub enum Mode {
    Region,
    Window,
    Screen,
}

/// The options of one invocation.
#[derive(Debug)]
pub struct Args {
    /// What to capture.
    pub mode: Mode,
    /// Where to save the image; a timestamped file in the pictures
    /// directory when absent.
    pub output_path: Option<String>,
    /// Only copy the image to the clipboard.
    pub clipboard_only: bool,
    /// Write the raw image to standard output.
    pub raw: bool,
    /// Command to run on the saved image.
    pub command: Option<Vec<String>>,
    /// Send no notification.
    pub silent: bool,
    /// Notification timeout in milliseconds.
    pub notif_timeout: u32,
    /// Print debug information.
    pub debug: bool,
}

} // verus!
