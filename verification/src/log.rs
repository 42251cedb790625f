//! The logging policy: which messages a given verbosity setting lets
//! through, and the exact text of a rendered log line.
//!
//! The process-wide registration of a log callback is owned by the
//! unverified surroundings; logging is optional there and its absence is a
//! no-op. What is verified here is the policy those surroundings apply: the
//! level comparison that admits a message, and the rendering of the line
//! that is handed to the callback, `file:line: message` with a trailing
//! newline.

use vstd::prelude::*;
use vstd::string::StringExecFns;

use crate::ffi;

verus! {

/// Verbosity of the process-wide log.
#[derive(PartialEq, Eq, Clone, Debug, Copy, Structural)]
pub enum LogLevel {
    /// Logging is turned off.
    Disabled,
    /// Noteworthy messages only.
    Normal,
    /// Every message.
    Verbose,
}

impl LogLevel {
    /// The native ABI code of this level.
    pub open spec fn spec_to_raw(self) -> ffi::cubeb_log_level {
        match self {
            LogLevel::Disabled => ffi::CUBEB_LOG_DISABLED,
            LogLevel::Normal => ffi::CUBEB_LOG_NORMAL,
            LogLevel::Verbose => ffi::CUBEB_LOG_VERBOSE,
        }
    }

    /// The level a native ABI code denotes, absent for an unrecognized
    /// code.
    pub open spec fn spec_from_raw(code: ffi::cubeb_log_level) -> Option<LogLevel> {
        if code == ffi::CUBEB_LOG_DISABLED {
            Some(LogLevel::Disabled)
        } else if code == ffi::CUBEB_LOG_NORMAL {
            Some(LogLevel::Normal)
        } else if code == ffi::CUBEB_LOG_VERBOSE {
            Some(LogLevel::Verbose)
        } else {
            None
        }
    }

    /// The native ABI code of this level.
    pub fn to_raw(self) -> (code: ffi::cubeb_log_level)
        ensures
            code == self.spec_to_raw(),
            Self::spec_from_raw(code) == Some(self),
    {
        match self {
            LogLevel::Disabled => ffi::CUBEB_LOG_DISABLED,
            LogLevel::Normal => ffi::CUBEB_LOG_NORMAL,
            LogLevel::Verbose => ffi::CUBEB_LOG_VERBOSE,
        }
    }

    /// Translates a native ABI code, reporting an unrecognized code as
    /// absent.
    pub fn from_raw(code: ffi::cubeb_log_level) -> (r: Option<LogLevel>)
        ensures
            r == Self::spec_from_raw(code),
    {
        if code == ffi::CUBEB_LOG_DISABLED {
            Some(LogLevel::Disabled)
        } else if code == ffi::CUBEB_LOG_NORMAL {
            Some(LogLevel::Normal)
        } else if code == ffi::CUBEB_LOG_VERBOSE {
            Some(LogLevel::Verbose)
        } else {
            None
        }
    }
}

/// Whether a message at `message_level` passes a log configured at
/// `global_level`: levels are ordered by their codes, disabled below normal
/// below verbose, and a message passes when its level does not exceed the
/// configured one. No message is logged at the disabled level, so a message
/// carries `Normal` or `Verbose`.
pub open spec fn spec_log_enabled(message_level: LogLevel, global_level: LogLevel) -> bool {
    message_level.spec_to_raw() <= global_level.spec_to_raw() && message_level != LogLevel::Disabled
}

/// Reports whether a message at `message_level` passes a log configured at
/// `global_level`.
pub fn log_enabled(message_level: LogLevel, global_level: LogLevel) -> (r: bool)
    ensures
        r == spec_log_enabled(message_level, global_level),
{
    message_level.to_raw() <= global_level.to_raw() && message_level.to_raw()
        != ffi::CUBEB_LOG_DISABLED
}

/// The decimal digit character of a value below ten.
pub open spec fn spec_digit_char(d: int) -> char {
    if d == 0 {
        '0'
    } else if d == 1 {
        '1'
    } else if d == 2 {
        '2'
    } else if d == 3 {
        '3'
    } else if d == 4 {
        '4'
    } else if d == 5 {
        '5'
    } else if d == 6 {
        '6'
    } else if d == 7 {
        '7'
    } else if d == 8 {
        '8'
    } else {
        '9'
    }
}

/// The decimal rendering of a non-negative number, most significant digit
/// first, without leading zeros (a single zero for zero itself).
pub open spec fn spec_decimal(n: int) -> Seq<char>
    decreases n,
{
    if n < 10 {
        seq![spec_digit_char(n)]
    } else {
        spec_decimal(n / 10).push(spec_digit_char(n % 10))
    }
}

/// The one-character string of a decimal digit.
fn digit_str(d: u32) -> (s: &'static str)
    requires
        d < 10,
    ensures
        s@ == seq![spec_digit_char(d as int)],
{
    proof {
        reveal_strlit("0");
        reveal_strlit("1");
        reveal_strlit("2");
        reveal_strlit("3");
        reveal_strlit("4");
        reveal_strlit("5");
        reveal_strlit("6");
        reveal_strlit("7");
        reveal_strlit("8");
        reveal_strlit("9");
    }
    let s: &'static str = if d == 0 {
        "0"
    } else if d == 1 {
        "1"
    } else if d == 2 {
        "2"
    } else if d == 3 {
        "3"
    } else if d == 4 {
        "4"
    } else if d == 5 {
        "5"
    } else if d == 6 {
        "6"
    } else if d == 7 {
        "7"
    } else if d == 8 {
        "8"
    } else {
        "9"
    };
    proof {
        assert(s@ =~= seq![spec_digit_char(d as int)]);
    }
    s
}

/// Renders a number in decimal.
pub fn u32_to_decimal(n: u32) -> (s: String)
    ensures
        s@ == spec_decimal(n as int),
    decreases n,
{
    if n < 10 {
        String::from_str(digit_str(n))
    } else {
        let mut s = u32_to_decimal(n / 10);
        s.append(digit_str(n % 10));
        proof {
            assert(s@ =~= spec_decimal(n as int));
        }
        s
    }
}

/// The exact text of a log line: the file name, a colon, the line number in
/// decimal, a colon and a space, the message, and a newline.
pub open spec fn spec_log_line(file: Seq<char>, line: int, message: Seq<char>) -> Seq<char> {
    file + ":"@ + spec_decimal(line) + ": "@ + message + "\n"@
}

/// Renders the log line for a message: `file:line: message` and a trailing
/// newline.
pub fn format_log_line(file: &str, line: u32, message: &str) -> (s: String)
    ensures
        s@ == spec_log_line(file@, line as int, message@),
{
    let mut s = String::from_str(file);
    s.append(":");
    let digits = u32_to_decimal(line);
    s.append(digits.as_str());
    s.append(": ");
    s.append(message);
    s.append("\n");
    proof {
        assert(s@ =~= spec_log_line(file@, line as int, message@));
    }
    s
}

/// The one decision the process-wide logger applies to a message: the
/// rendered line when the configured verbosity admits it, nothing when it
/// does not. The surroundings hand the result to the registered callback; an
/// absent callback makes the whole operation a no-op.
pub fn render_log(
    message_level: LogLevel,
    global_level: LogLevel,
    file: &str,
    line: u32,
    message: &str,
) -> (r: Option<String>)
    ensures
        r is Some <==> spec_log_enabled(message_level, global_level),
        r matches Some(s) ==> s@ == spec_log_line(file@, line as int, message@),
{
    if log_enabled(message_level, global_level) {
        Some(format_log_line(file, line, message))
    } else {
        None
    }
}

} // verus!
