use vstd::prelude::*;

verus! {

/// Console output mode bit: process control characters.
pub const ENABLE_PROCESSED_OUTPUT: u32 = 0x0001;

/// Console output mode bit: wrap the cursor at the end of a line.
pub const ENABLE_WRAP_AT_EOL_OUTPUT: u32 = 0x0002;

/// Console output mode bit: interpret virtual-terminal sequences.
pub const ENABLE_VIRTUAL_TERMINAL_PROCESSING: u32 = 0x0004;

/// Console output mode bit: do not return to column zero on line feed.
pub const DISABLE_NEWLINE_AUTO_RETURN: u32 = 0x0008;

/// Console input mode bit: deliver input as virtual-terminal sequences.
pub const ENABLE_VIRTUAL_TERMINAL_INPUT: u32 = 0x0200;

/// The input mode the originator sets while the bridge runs.
pub const BRIDGE_INPUT_MODE: u32 = ENABLE_VIRTUAL_TERMINAL_INPUT;

/// The output mode the originator sets while the bridge runs.
pub const BRIDGE_OUTPUT_MODE: u32 = ENABLE_PROCESSED_OUTPUT | ENABLE_WRAP_AT_EOL_OUTPUT
    | ENABLE_VIRTUAL_TERMINAL_PROCESSING | DISABLE_NEWLINE_AUTO_RETURN;

/// The console screen-buffer information the originator queries:
/// the viewport rectangle in buffer coordinates and the cursor cell.
#[derive(Clone, Copy, PartialEq, Eq, Structural, Debug)]
pub struct ScreenInfo {
    pub window_left: i16,
    pub window_top: i16,
    pub window_right: i16,
    pub window_bottom: i16,
    pub cursor_x: i16,
    pub cursor_y: i16,
}

/// The number of cells a viewport spans from `lo` to `hi` inclusive;
/// a degenerate rectangle counts one cell.
pub open spec fn spec_extent(lo: i16, hi: i16) -> nat {
    if hi >= lo {
        (hi - lo + 1) as nat
    } else {
        1
    }
}

/// The cursor coordinate clamped to the viewport's origin: how far the
/// cursor sits from `origin`, and zero when it sits above it.
pub open spec fn spec_rel(origin: i16, pos: i16) -> nat {
    if pos >= origin {
        (pos - origin) as nat
    } else {
        0
    }
}

impl ScreenInfo {
    /// Columns of the viewport.
    pub fn viewport_width(&self) -> (w: usize)
        ensures
            w == spec_extent(self.window_left, self.window_right),
    {
        if self.window_right >= self.window_left {
            (self.window_right as i32 - self.window_left as i32) as usize + 1
        } else {
            1
        }
    }

    /// Rows of the viewport.
    pub fn viewport_height(&self) -> (h: usize)
        ensures
            h == spec_extent(self.window_top, self.window_bottom),
    {
        if self.window_bottom >= self.window_top {
            (self.window_bottom as i32 - self.window_top as i32) as usize + 1
        } else {
            1
        }
    }

    /// Cursor column; the buffer coordinate is already viewport-relative
    /// horizontally, so a negative value only clamps to zero.
    pub fn cursor_col(&self) -> (c: usize)
        ensures
            c == spec_rel(0, self.cursor_x),
    {
        if self.cursor_x >= 0 {
            self.cursor_x as usize
        } else {
            0
        }
    }

    /// Cursor row relative to the viewport's top line.
    pub fn cursor_row(&self) -> (r: usize)
        ensures
            r == spec_rel(self.window_top, self.cursor_y),
    {
        if self.cursor_y >= self.window_top {
            (self.cursor_y as i32 - self.window_top as i32) as usize
        } else {
            0
        }
    }
}

/// The observable state of the originator's console, as the bridge
/// reads and mutates it. `has_input` / `has_output` say whether the
/// console input and output pseudo-devices can be opened at all;
/// `input_mode_ok` / `output_mode_ok` say whether reading the current
/// mode succeeds; `screen` is `None` when the screen-buffer query
/// fails. `soft_reset_seen` records that a terminal soft reset was
/// written to the output console.
#[derive(Clone, Copy, PartialEq, Eq, Structural, Debug)]
pub struct ConsoleState {
    pub has_input: bool,
    pub has_output: bool,
    pub input_mode: u32,
    pub output_mode: u32,
    pub input_mode_ok: bool,
    pub output_mode_ok: bool,
    pub screen: Option<ScreenInfo>,
    pub soft_reset_seen: bool,
}

impl ConsoleState {
    /// A console that is absent altogether: both pseudo-devices fail to
    /// open, as when the originator runs detached from any console.
    pub fn detached() -> (c: ConsoleState)
        ensures
            !c.has_input,
            !c.has_output,
            !c.soft_reset_seen,
    {
        ConsoleState {
            has_input: false,
            has_output: false,
            input_mode: 0,
            output_mode: 0,
            input_mode_ok: false,
            output_mode_ok: false,
            screen: None,
            soft_reset_seen: false,
        }
    }
}

} // verus!
