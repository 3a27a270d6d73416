//! Key bindings and colours.

use vstd::prelude::*;

verus! {

/// A key.
#[derive(Debug, Copy, Clone, PartialEq, Eq, Structural)]
pub enum AppKey {
    /// Backspace.
    Backspace,
    /// Left arrow.
    Left,
    /// Right arrow.
    Right,
    /// Up arrow.
    Up,
    /// Down arrow.
    Down,
    /// Home key.
    Home,
    /// End key.
    End,
    /// Page Up key.
    PageUp,
    /// Page Down key.
    PageDown,
    /// Backward Tab key.
    BackTab,
    /// Delete key.
    Delete,
    /// Insert key.
    Insert,
    /// Function keys 1 through 12.
    F(u8),
    /// Normal character.
    Char(char),
    /// Alt modified character.
    Alt(char),
    /// Ctrl modified character.
    Ctrl(char),
    /// Null byte.
    Null,
    /// Esc key.
    Esc,
}

/// Bold text.
pub const BOLD: u16 = 0b0000_0000_0001;

/// Dim text.
pub const DIM: u16 = 0b0000_0000_0010;

/// Italic text.
pub const ITALIC: u16 = 0b0000_0000_0100;

/// Underlined text.
pub const UNDERLINED: u16 = 0b0000_0000_1000;

/// Slowly blinking text.
pub const SLOW_BLINK: u16 = 0b0000_0001_0000;

/// Rapidly blinking text.
pub const RAPID_BLINK: u16 = 0b0000_0010_0000;

/// Foreground and background exchanged.
pub const REVERSED: u16 = 0b0000_0100_0000;

/// Hidden text.
pub const HIDDEN: u16 = 0b0000_1000_0000;

/// Crossed-out text.
pub const CROSSED_OUT: u16 = 0b0001_0000_0000;

/// Every bit that names a text modifier.
pub const ALL_MODIFIERS: u16 = 0b0001_1111_1111;

/// A set of text modifiers, one bit each.
#[derive(Debug, Clone, Copy, PartialEq, Eq, Structural)]
pub struct AppMod {
    bits: u16,
}

/// The name under which a modifier value is written: chosen by the number
/// that the bits make, 1 to 9, and `RESET` for every other value.
pub open spec fn modifier_name(bits: u16) -> Seq<char> {
    if bits == 1 {
        "BOLD"@
    } else if bits == 2 {
        "DIM"@
    } else if bits == 3 {
        "ITALIC"@
    } else if bits == 4 {
        "UNDERLINED"@
    } else if bits == 5 {
        "SLOW_BLINK"@
    } else if bits == 6 {
        "RAPID_BLINK"@
    } else if bits == 7 {
        "REVERSED"@
    } else if bits == 8 {
        "HIDDEN"@
    } else if bits == 9 {
        "CROSSED_OUT"@
    } else {
        "RESET"@
    }
}

/// The bits that a modifier name stands for, if it is one.
pub open spec fn named_modifier(name: Seq<char>) -> Option<u16> {
    if name == "BOLD"@ {
        Some(BOLD)
    } else if name == "DIM"@ {
        Some(DIM)
    } else if name == "ITALIC"@ {
        Some(ITALIC)
    } else if name == "UNDERLINED"@ {
        Some(UNDERLINED)
    } else if name == "SLOW_BLINK"@ {
        Some(SLOW_BLINK)
    } else if name == "RAPID_BLINK"@ {
        Some(RAPID_BLINK)
    } else if name == "REVERSED"@ {
        Some(REVERSED)
    } else if name == "HIDDEN"@ {
        Some(HIDDEN)
    } else if name == "CROSSED_OUT"@ {
        Some(CROSSED_OUT)
    } else if name == "RESET"@ {
        Some(0u16)
    } else {
        None
    }
}

impl AppMod {
    /// The bits of the set.
    pub closed spec fn spec_bits(&self) -> u16 {
        self.bits
    }

    /// The set without any modifier.
    pub fn empty() -> (m: AppMod)
        ensures
            m.spec_bits() == 0,
    {
        AppMod { bits: 0 }
    }

    /// The set that the bits make, unless a bit among them names no modifier.
    pub fn from_bits(bits: u16) -> (m: Option<AppMod>)
        ensures
            m.is_some() <==> bits & !ALL_MODIFIERS == 0,
            m matches Some(s) ==> s.spec_bits() == bits,
    {
        if bits & !ALL_MODIFIERS == 0 {
            Some(AppMod { bits })
        } else {
            None
        }
    }

    /// The bits of the set.
    #[verifier::when_used_as_spec(spec_bits)]
    pub fn bits(&self) -> (bits: u16)
        ensures
            bits == self.spec_bits(),
    {
        self.bits
    }

    /// The name under which the set is written.
    pub fn modifier(&self) -> (name: &'static str)
        ensures
            name@ == modifier_name(self.bits()),
    {
        match self.bits {
            1 => "BOLD",
            2 => "DIM",
            3 => "ITALIC",
            4 => "UNDERLINED",
            5 => "SLOW_BLINK",
            6 => "RAPID_BLINK",
            7 => "REVERSED",
            8 => "HIDDEN",
            9 => "CROSSED_OUT",
            _ => "RESET",
        }
    }

    /// The set that a name stands for.
    pub fn from_name(name: &str) -> (m: Option<AppMod>)
        ensures
            m.is_some() <==> named_modifier(name@).is_some(),
            m matches Some(s) ==> named_modifier(name@) == Some(s.bits()),
    {
        if name.eq("BOLD") {
            Some(AppMod { bits: BOLD })
        } else if name.eq("DIM") {
            Some(AppMod { bits: DIM })
        } else if name.eq("ITALIC") {
            Some(AppMod { bits: ITALIC })
        } else if name.eq("UNDERLINED") {
            Some(AppMod { bits: UNDERLINED })
        } else if name.eq("SLOW_BLINK") {
            Some(AppMod { bits: SLOW_BLINK })
        } else if name.eq("RAPID_BLINK") {
            Some(AppMod { bits: RAPID_BLINK })
        } else if name.eq("REVERSED") {
            Some(AppMod { bits: REVERSED })
        } else if name.eq("HIDDEN") {
            Some(AppMod { bits: HIDDEN })
        } else if name.eq("CROSSED_OUT") {
            Some(AppMod { bits: CROSSED_OUT })
        } else if name.eq("RESET") {
            Some(AppMod { bits: 0 })
        } else {
            None
        }
    }
}

/// A colour of the terminal.
#[derive(Debug, Clone, Copy, PartialEq, Eq, Structural)]
pub enum AppColor {
    Reset,
    Black,
    Red,
    Green,
    Yellow,
    Blue,
    Magenta,
    Cyan,
    Gray,
    DarkGray,
    LightRed,
    LightGreen,
    LightYellow,
    LightBlue,
    LightMagenta,
    LightCyan,
    White,
    Rgb(u8, u8, u8),
    Indexed(u8),
}

/// A foreground colour, a background colour and text modifiers.
#[derive(Debug, Clone, Copy, PartialEq, Eq, Structural)]
pub struct AppStyle {
    pub fg: AppColor,
    pub bg: AppColor,
    pub modifier: AppMod,
}

/// The style of each part of the screen.
#[derive(Clone, Copy, Debug)]
pub struct ColorCfg {
    pub normal: AppStyle,
    pub highlight: AppStyle,
    pub tabs: AppStyle,
    pub titles: AppStyle,
    pub text: AppStyle,
}

/// The title of the application, the character of each control key, and
/// the colours.
#[derive(Clone, Debug)]
pub struct AppConfig {
    pub title: String,
    pub new_sticky_note_char_ctrl: char,
    pub new_note_char_ctrl: char,
    pub new_todo_char_ctrl: char,
    pub edit_todo_char_ctrl: char,
    pub mark_done: AppKey,
    pub remove_todo: AppKey,
    pub remove_sticky_note_char_ctrl: char,
    pub save_state_to_db_char_ctrl: char,
    pub exit_key_char_ctrl: char,
    pub highlight_string: String,
    pub app_colors: ColorCfg,
}

/// A style over the terminal's own background.
pub open spec fn plain_style(style: AppStyle, fg: AppColor, modifier: u16) -> bool {
    &&& style.fg == fg
    &&& style.bg == AppColor::Reset
    &&& style.modifier.bits() == modifier
}

/// The colours of a first run.
pub open spec fn first_run_colors(colors: ColorCfg) -> bool {
    &&& plain_style(colors.normal, AppColor::White, 0)
    &&& plain_style(colors.highlight, AppColor::Yellow, BOLD)
    &&& plain_style(colors.tabs, AppColor::Cyan, BOLD)
    &&& plain_style(colors.titles, AppColor::Red, BOLD)
    &&& plain_style(colors.text, AppColor::Green, ITALIC)
}

/// The colours of a first run.
impl Default for ColorCfg {
    fn default() -> (colors: Self)
        ensures
            first_run_colors(colors),
    {
        ColorCfg {
            normal: AppStyle {
                fg: AppColor::White,
                bg: AppColor::Reset,
                modifier: AppMod { bits: 0 },
            },
            highlight: AppStyle {
                fg: AppColor::Yellow,
                bg: AppColor::Reset,
                modifier: AppMod { bits: BOLD },
            },
            tabs: AppStyle {
                fg: AppColor::Cyan,
                bg: AppColor::Reset,
                modifier: AppMod { bits: BOLD },
            },
            titles: AppStyle {
                fg: AppColor::Red,
                bg: AppColor::Reset,
                modifier: AppMod { bits: BOLD },
            },
            text: AppStyle {
                fg: AppColor::Green,
                bg: AppColor::Reset,
                modifier: AppMod { bits: ITALIC },
            },
        }
    }
}

/// The configuration of a first run.
impl Default for AppConfig {
    /// The bindings and colours of a first run.
    fn default() -> (cfg: Self)
        ensures
            cfg.title@ == "Forget It"@,
            cfg.new_sticky_note_char_ctrl == 'h',
            cfg.new_note_char_ctrl == 'k',
            cfg.new_todo_char_ctrl == 'n',
            cfg.edit_todo_char_ctrl == 'e',
            cfg.mark_done == AppKey::Backspace,
            cfg.remove_todo == AppKey::Delete,
            cfg.remove_sticky_note_char_ctrl == 'u',
            cfg.save_state_to_db_char_ctrl == 's',
            cfg.exit_key_char_ctrl == 'q',
            cfg.highlight_string@ == "\u{2714}\u{fe0f}"@,
            first_run_colors(cfg.app_colors),
    {
        AppConfig {
            title: "Forget It".to_owned(),
            new_sticky_note_char_ctrl: 'h',
            new_note_char_ctrl: 'k',
            new_todo_char_ctrl: 'n',
            edit_todo_char_ctrl: 'e',
            mark_done: AppKey::Backspace,
            remove_todo: AppKey::Delete,
            remove_sticky_note_char_ctrl: 'u',
            save_state_to_db_char_ctrl: 's',
            exit_key_char_ctrl: 'q',
            highlight_string: "\u{2714}\u{fe0f}".to_owned(),
            app_colors: ColorCfg::default(),
        }
    }
}

} // verus!
