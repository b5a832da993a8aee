//! The simulator's startup options, as plain data. The command-line
//! parsing that fills them in lives outside the library.

use vstd::prelude::*;

verus! {

/// How the simulated display window is drawn.
#[derive(Debug, Clone, Copy, PartialEq, Eq, Structural)]
pub struct GuiOptions {
    /// Use the red color channel.
    pub red: bool,
    /// Use the green color channel.
    pub green: bool,
    /// Use the blue color channel.
    pub blue: bool,
    /// Add spacers between tile rows to simulate gaps in the real
    /// display.
    pub spacers: bool,
}

/// The simulator's startup options.
#[derive(Debug, Clone, PartialEq, Eq)]
pub struct Cli {
    /// Address and port to bind the datagram socket to.
    pub bind: String,
    /// Lower the default log level.
    pub debug: bool,
    /// The name of the font family to use; `None` selects the system
    /// monospace font.
    pub font: Option<String>,
    pub gui: GuiOptions,
}

} // verus!
