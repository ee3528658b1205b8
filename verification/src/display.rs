//! Display bookkeeping of the ST7735 screen: the display mode, the frame
//! counter, the temporary status message with its timeout, and the layout
//! of an error message. Drawing the pixels is outside this module.

use vstd::prelude::*;
use vstd::string::*;
use crate::text::{append_decimal, decimal, str_equal};
use crate::types::{Color, DisplayMode};

verus! {

/// Size of the status message buffer, terminator included
pub const STATUS_MESSAGE_CAPACITY: usize = 64;

/// Characters per line of an error message
pub const ERROR_LINE_CHARS: usize = 20;

/// Lines of an error message that fit on the screen: the first line is at
/// y = 50, each next one 12 pixels lower, and none starts below y = 140.
pub const ERROR_MAX_LINES: usize = 8;

/// Overboost state for display
#[derive(Debug, Clone, Copy, PartialEq, Eq, Structural)]
pub enum OverboostDisplayState {
    Normal,
    Warning,
    Active,
    Recovery,
}

/// Which status layout a display mode draws
#[derive(Debug, Clone, Copy, PartialEq, Eq, Structural)]
pub enum StatusLayout {
    /// The compact status lines below the gauges
    Compact,
    /// The full status page
    Full,
}

/// What a status update draws
#[derive(Debug, Clone, Copy, PartialEq, Eq, Structural)]
pub struct StatusScreenPlan {
    /// The status layout, or none in diagnostics mode
    pub layout: Option<StatusLayout>,
    /// Whether the temporary status message is overlaid
    pub show_message: bool,
    /// Whether the overboost warning is overlaid
    pub show_overboost_warning: bool,
}

/// Bookkeeping of the display
pub struct DisplayState {
    /// Current display mode
    pub mode: DisplayMode,
    /// Display update counter
    pub frame_counter: u32,
    /// Status message buffer: the message bytes, then a zero byte
    pub status_message: [u8; 64],
    /// Time left for the status message (ms)
    pub status_timeout: u32,
}

/// The number of bytes of a status message that are kept.
pub open spec fn kept_len(message_len: nat) -> nat {
    if message_len < STATUS_MESSAGE_CAPACITY - 1 { message_len } else { (STATUS_MESSAGE_CAPACITY - 1) as nat }
}

/// The number of lines an error message of `n` characters takes.
pub open spec fn error_line_count(n: nat) -> nat {
    let needed: int = (n + ERROR_LINE_CHARS - 1) / (ERROR_LINE_CHARS as int);
    if needed < ERROR_MAX_LINES { needed as nat } else { ERROR_MAX_LINES as nat }
}

/// Line `k` of an error message: its characters `20k .. 20k + 20`.
pub open spec fn error_line(message: Seq<char>, k: int) -> Seq<char> {
    let start = k * ERROR_LINE_CHARS;
    let end = if start + ERROR_LINE_CHARS < message.len() { start + ERROR_LINE_CHARS } else { message.len() as int };
    message.subrange(start, end)
}

impl DisplayState {
    /// Gauge mode, no frames drawn, no status message.
    pub fn new() -> (d: Self)
        ensures
            d.mode == DisplayMode::Gauges,
            d.frame_counter == 0,
            d.status_message@ == Seq::new(64, |i: int| 0u8),
            d.status_timeout == 0,
    {
        let d = DisplayState {
            mode: DisplayMode::Gauges,
            frame_counter: 0,
            status_message: [0u8; 64],
            status_timeout: 0,
        };
        assert(d.status_message@ =~= Seq::new(64, |i: int| 0u8));
        d
    }

    /// Show `message` for `timeout_ms`: its first 63 bytes at most are kept,
    /// followed by a zero byte; the bytes after that stay as they were.
    pub fn show_status_message(&mut self, message: &str, timeout_ms: u32)
        ensures
            final(self).status_message@ == message.spec_bytes().subrange(0, kept_len(message.spec_bytes().len()) as int)
                + seq![0u8]
                + old(self).status_message@.subrange(kept_len(message.spec_bytes().len()) + 1int, 64),
            final(self).status_timeout == timeout_ms,
            final(self).mode == old(self).mode,
            final(self).frame_counter == old(self).frame_counter,
    {
        let msg_bytes = message.as_bytes();
        let copy_len: usize = if msg_bytes.len() < STATUS_MESSAGE_CAPACITY - 1 {
            msg_bytes.len()
        } else {
            STATUS_MESSAGE_CAPACITY - 1
        };
        let ghost before = self.status_message@;
        let mut i: usize = 0;
        while i < copy_len
            invariant
                copy_len < STATUS_MESSAGE_CAPACITY,
                copy_len <= msg_bytes@.len(),
                msg_bytes@ == message.spec_bytes(),
                i <= copy_len,
                before.len() == 64,
                self.status_message@ =~= msg_bytes@.subrange(0, i as int) + before.subrange(i as int, 64),
                self.mode == old(self).mode,
                self.frame_counter == old(self).frame_counter,
            decreases copy_len - i,
        {
            self.status_message[i] = msg_bytes[i];
            i += 1;
        }
        self.status_message[copy_len] = 0;
        self.status_timeout = timeout_ms;
        assert(self.status_message@ =~= msg_bytes@.subrange(0, copy_len as int) + seq![0u8]
            + before.subrange(copy_len + 1, 64));
    }

    /// Count down the status message time.
    pub fn update_status_timeout(&mut self, elapsed_ms: u32)
        ensures
            final(self).status_timeout == if old(self).status_timeout > elapsed_ms {
                old(self).status_timeout - elapsed_ms
            } else {
                0
            },
            final(self).status_message == old(self).status_message,
            final(self).mode == old(self).mode,
            final(self).frame_counter == old(self).frame_counter,
    {
        if self.status_timeout > 0 {
            self.status_timeout = self.status_timeout.saturating_sub(elapsed_ms);
        }
    }

    /// Check if status message is active
    pub fn has_active_status(&self) -> (b: bool)
        ensures
            b == (self.status_timeout > 0),
    {
        self.status_timeout > 0
    }

    /// The bytes of the status message: those before the first zero byte.
    pub fn status_text_bytes(&self) -> (v: Vec<u8>)
        ensures
            v@.len() <= 64,
            v@ == self.status_message@.subrange(0, v@.len() as int),
            v@.len() < 64 ==> self.status_message@[v@.len() as int] == 0,
            forall|j: int| 0 <= j < v@.len() ==> self.status_message@[j] != 0,
    {
        let mut v: Vec<u8> = Vec::new();
        let mut i: usize = 0;
        while i < STATUS_MESSAGE_CAPACITY && self.status_message[i] != 0
            invariant
                i <= 64,
                v@ == self.status_message@.subrange(0, i as int),
                forall|j: int| 0 <= j < i ==> self.status_message@[j] != 0,
            decreases 64 - i,
        {
            v.push(self.status_message[i]);
            i += 1;
        }
        v
    }

    /// Switch the display mode; the screen is cleared (and the frame count
    /// restarts) only when the mode changes. Returns whether it changed.
    pub fn set_display_mode(&mut self, mode: DisplayMode) -> (changed: bool)
        ensures
            changed == (mode != old(self).mode),
            final(self).mode == mode,
            final(self).frame_counter == if changed { 0 } else { old(self).frame_counter },
            final(self).status_message == old(self).status_message,
            final(self).status_timeout == old(self).status_timeout,
    {
        if mode != self.mode {
            self.mode = mode;
            self.clear();
            true
        } else {
            false
        }
    }

    /// Clearing the screen restarts the frame count.
    pub fn clear(&mut self)
        ensures
            final(self).frame_counter == 0,
            final(self).mode == old(self).mode,
            final(self).status_message == old(self).status_message,
            final(self).status_timeout == old(self).status_timeout,
    {
        self.frame_counter = 0;
    }

    /// Count a drawn frame.
    pub fn count_frame(&mut self)
        requires
            old(self).frame_counter < u32::MAX,
        ensures
            final(self).frame_counter == old(self).frame_counter + 1,
            final(self).mode == old(self).mode,
            final(self).status_message == old(self).status_message,
            final(self).status_timeout == old(self).status_timeout,
    {
        self.frame_counter = self.frame_counter + 1;
    }

    /// What a status update draws: the gauge mode shows the compact status,
    /// the status mode the full page, each with the status message while it
    /// is active and the overboost warning while an overboost is active;
    /// the diagnostics mode draws nothing here.
    pub fn plan_status_screen(&self, overboost: OverboostDisplayState) -> (p: StatusScreenPlan)
        ensures
            self.mode == DisplayMode::Diagnostics ==> p == (StatusScreenPlan {
                layout: None,
                show_message: false,
                show_overboost_warning: false,
            }),
            self.mode == DisplayMode::Gauges ==> p.layout == Some(StatusLayout::Compact),
            self.mode == DisplayMode::Status ==> p.layout == Some(StatusLayout::Full),
            self.mode != DisplayMode::Diagnostics ==> {
                &&& p.show_message == (self.status_timeout > 0)
                &&& p.show_overboost_warning == (overboost == OverboostDisplayState::Active)
            },
    {
        let layout = match self.mode {
            DisplayMode::Gauges => StatusLayout::Compact,
            DisplayMode::Status => StatusLayout::Full,
            DisplayMode::Diagnostics => {
                return StatusScreenPlan { layout: None, show_message: false, show_overboost_warning: false };
            },
        };
        StatusScreenPlan {
            layout: Some(layout),
            show_message: self.has_active_status(),
            show_overboost_warning: overboost == OverboostDisplayState::Active,
        }
    }

    /// Get current display mode
    pub fn get_display_mode(&self) -> (m: DisplayMode)
        ensures
            m == self.mode,
    {
        self.mode
    }
}

/// RPM readout colour: red above 6500 RPM, yellow above 6000, else white.
pub fn rpm_color(rpm: u16) -> (c: Color)
    ensures
        c == if rpm > 6500 { Color::Red } else if rpm > 6000 { Color::Yellow } else { Color::White },
{
    if rpm > 6500 {
        Color::Red
    } else if rpm > 6000 {
        Color::Yellow
    } else {
        Color::White
    }
}

/// `text` padded on the left with spaces to `width` characters, as the
/// `{:width}` format pads numbers; longer text is kept whole.
pub open spec fn right_aligned(text: Seq<char>, width: nat) -> Seq<char> {
    if text.len() < width {
        Seq::new((width - text.len()) as nat, |i: int| ' ') + text
    } else {
        text
    }
}

/// Width of the RPM readout number
pub const RPM_READOUT_WIDTH: usize = 4;

/// RPM readout: the RPM right-aligned in four characters, then "rpm".
pub fn rpm_readout(rpm: u16) -> (t: String)
    ensures
        t@ == right_aligned(decimal(rpm as nat), RPM_READOUT_WIDTH as nat) + "rpm"@,
{
    let mut digits = String::new();
    append_decimal(&mut digits, rpm as u64);
    assert(digits@ =~= decimal(rpm as nat));
    let n = digits.as_str().unicode_len();
    let mut t = String::new();
    let mut k: usize = 0;
    while k + n < RPM_READOUT_WIDTH
        invariant
            n == decimal(rpm as nat).len(),
            k + n <= RPM_READOUT_WIDTH || k == 0,
            t@ == Seq::new(k as nat, |i: int| ' '),
        decreases RPM_READOUT_WIDTH - k,
    {
        proof {
            reveal_strlit(" ");
        }
        t.append(" ");
        k = k + 1;
        assert(t@ =~= Seq::new(k as nat, |i: int| ' '));
    }
    let ghost padding = t@;
    t.append(digits.as_str());
    t.append("rpm");
    proof {
        if n < RPM_READOUT_WIDTH {
            assert(k + n == RPM_READOUT_WIDTH);
            assert(padding =~= Seq::new((RPM_READOUT_WIDTH - n) as nat, |i: int| ' '));
        } else {
            assert(k == 0);
            assert(padding =~= Seq::<char>::empty());
        }
        assert(t@ =~= right_aligned(decimal(rpm as nat), RPM_READOUT_WIDTH as nat) + "rpm"@);
    }
    t
}

/// CAN status readout
pub fn can_status_text(connected: bool) -> (t: &'static str)
    ensures
        t@ == if connected { "CAN:OK"@ } else { "CAN:ERR"@ },
{
    if connected { "CAN:OK" } else { "CAN:ERR" }
}

/// The five-letter tag of a profile on the status screen: the four stock
/// profiles by name, "CUSTM" for any other.
pub open spec fn spec_profile_tag(name: Seq<char>) -> Seq<char> {
    if name == "Daily Driver"@ {
        "DAILY"@
    } else if name == "Sport Mode"@ {
        "SPORT"@
    } else if name == "Track Day"@ {
        "TRACK"@
    } else if name == "Valet Mode"@ {
        "VALET"@
    } else {
        "CUSTM"@
    }
}

/// The five-letter tag of a profile on the status screen
pub fn profile_short_name(profile_name: &str) -> (t: &'static str)
    ensures
        t@ == spec_profile_tag(profile_name@),
{
    if str_equal(profile_name, "Daily Driver") {
        "DAILY"
    } else if str_equal(profile_name, "Sport Mode") {
        "SPORT"
    } else if str_equal(profile_name, "Track Day") {
        "TRACK"
    } else if str_equal(profile_name, "Valet Mode") {
        "VALET"
    } else {
        "CUSTM"
    }
}

/// The lines an error message is drawn as: 20 characters each, at most 8.
pub fn error_message_lines(error_message: &str) -> (lines: Vec<String>)
    ensures
        lines@.len() == error_line_count(error_message@.len()),
        forall|k: int| 0 <= k < lines@.len() ==> #[trigger] lines@[k]@ == error_line(error_message@, k),
{
    let n = error_message.unicode_len();
    let mut lines: Vec<String> = Vec::new();
    let mut start: usize = 0;
    while start < n && lines.len() < ERROR_MAX_LINES
        invariant
            n == error_message@.len(),
            start == lines@.len() * ERROR_LINE_CHARS,
            lines@.len() <= ERROR_MAX_LINES,
            start <= n + ERROR_LINE_CHARS,
            lines@.len() <= error_line_count(n as nat),
            forall|k: int| 0 <= k < lines@.len() ==> #[trigger] lines@[k]@ == error_line(error_message@, k),
        decreases ERROR_MAX_LINES - lines@.len(),
    {
        let end: usize = if n - start > ERROR_LINE_CHARS { start + ERROR_LINE_CHARS } else { n };
        let line = error_message.substring_char(start, end);
        lines.push(String::from_str(line));
        start = start + ERROR_LINE_CHARS;
    }
    lines
}

} // verus!
