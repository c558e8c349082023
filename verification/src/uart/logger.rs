use vstd::prelude::*;
use crate::numfmt::{dec_digits, push_decimal, is_dec_text, lemma_dec_digits_denote};

verus! {

/// The severity of a log record, most severe first: the levels of the `log` facade.
#[derive(Clone, Copy, Debug, PartialEq, Eq, Structural)]
pub enum LogLevel {
    Error,
    Warn,
    Info,
    Debug,
    Trace,
}

impl LogLevel {
    /// The rank of the level, from 1 for `Error` to 5 for `Trace`: a smaller rank is more
    /// severe, and levels compare by rank.
    pub open spec fn rank(self) -> nat {
        match self {
            LogLevel::Error => 1,
            LogLevel::Warn => 2,
            LogLevel::Info => 3,
            LogLevel::Debug => 4,
            LogLevel::Trace => 5,
        }
    }

    /// The upper-case name of the level.
    pub open spec fn name(self) -> Seq<char> {
        match self {
            LogLevel::Error => "ERROR"@,
            LogLevel::Warn => "WARN"@,
            LogLevel::Info => "INFO"@,
            LogLevel::Debug => "DEBUG"@,
            LogLevel::Trace => "TRACE"@,
        }
    }

    /// The upper-case name of the level, as the log facade prints it.
    pub fn as_str(&self) -> (s: &'static str)
        ensures
            s@ == self.name(),
    {
        match self {
            LogLevel::Error => "ERROR",
            LogLevel::Warn => "WARN",
            LogLevel::Info => "INFO",
            LogLevel::Debug => "DEBUG",
            LogLevel::Trace => "TRACE",
        }
    }
}

/// The line that the UART logger writes for a record:
/// `[<LEVEL>]|[<file>:<line>]| <message>` or, without a line number,
/// `[<LEVEL>]|[<file>]| <message>`, ended by `\r\n`.
pub open spec fn log_line(level: LogLevel, file: Seq<char>, line: Option<u32>, message: Seq<char>) -> Seq<char> {
    let place = match line {
        Some(n) => file + ":"@ + dec_digits(n as nat),
        None => file,
    };
    "["@ + level.name() + "]|["@ + place + "]| "@ + message + "\r\n"@
}

/// A record with a line number gives it as `{}` writes it, a decimal text that denotes the
/// whole line number, between the file and the message.
pub proof fn lemma_log_line_denotes(level: LogLevel, file: Seq<char>, line: u32, message: Seq<char>)
    ensures
        exists|d: Seq<char>|
            #![trigger is_dec_text(d, line as nat)]
            is_dec_text(d, line as nat) && log_line(level, file, Some(line), message) == "["@ + level.name()
                + "]|["@ + file + ":"@ + d + "]| "@ + message + "\r\n"@,
{
    lemma_dec_digits_denote(line as nat);
    let d = dec_digits(line as nat);
    assert(is_dec_text(d, line as nat));
    assert(log_line(level, file, Some(line), message) =~= "["@ + level.name() + "]|["@ + file + ":"@ + d
        + "]| "@ + message + "\r\n"@);
}

/// The names of the levels are those that the log facade prints: `ERROR`, `WARN`, `INFO`,
/// `DEBUG` and `TRACE`, and a record is written exactly when its level is `Error`, `Warn`
/// or `Info`.
pub proof fn lemma_level_names(level: LogLevel)
    ensures
        level == LogLevel::Error ==> level.name() == "ERROR"@,
        level == LogLevel::Warn ==> level.name() == "WARN"@,
        level == LogLevel::Info ==> level.name() == "INFO"@,
        level == LogLevel::Debug ==> level.name() == "DEBUG"@,
        level == LogLevel::Trace ==> level.name() == "TRACE"@,
        (level.rank() <= LogLevel::Info.rank()) <==> (level == LogLevel::Error || level == LogLevel::Warn
            || level == LogLevel::Info),
{
}

/// The file that a record names, or `UNKNOWN` where it names none.
pub open spec fn file_or_unknown(file: Option<&str>) -> Seq<char> {
    match file {
        Some(f) => f@,
        None => "UNKNOWN"@,
    }
}

/// A logger that writes records of level `Info` and more severe to the UART.
pub struct UartLogger;

impl UartLogger {
    /// Whether records of `level` are written: those of `Info` and more severe.
    pub fn enabled(&self, level: LogLevel) -> (r: bool)
        ensures
            r == (level.rank() <= LogLevel::Info.rank()),
    {
        match level {
            LogLevel::Error | LogLevel::Warn | LogLevel::Info => true,
            LogLevel::Debug | LogLevel::Trace => false,
        }
    }

    /// The line to write for a record of `level` from `file` at `line` whose formatted
    /// text is `message`, or `None` where the level is not enabled.
    pub fn log(&self, level: LogLevel, file: Option<&str>, line: Option<u32>, message: &str) -> (r: Option<String>)
        ensures
            r is None <==> !(level.rank() <= LogLevel::Info.rank()),
            r matches Some(s) ==> s@ == log_line(level, file_or_unknown(file), line, message@),
    {
        if !self.enabled(level) {
            return None;
        }
        let file = match file {
            Some(f) => f,
            None => "UNKNOWN",
        };
        let mut out = String::new();
        out.append("[");
        out.append(level.as_str());
        out.append("]|[");
        out.append(file);
        match line {
            Some(line_num) => {
                out.append(":");
                push_decimal(&mut out, line_num);
            },
            None => {},
        }
        out.append("]| ");
        out.append(message);
        out.append("\r\n");
        proof {
            assert(out@ =~= log_line(level, file_or_unknown(Some(file)), line, message@));
        }
        Some(out)
    }

    /// Writes are unbuffered: there is nothing to flush.
    pub fn flush(&self) {
    }
}

} // verus!
