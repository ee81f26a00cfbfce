use vstd::prelude::*;

verus! {

/// Severity of a diagnostic, from the most to the least severe.
#[derive(Clone, Copy, Debug, PartialEq, Eq, Structural)]
pub enum LogLevel {
    Error,
    Warn,
    Info,
    Debug,
    Verbose,
}

impl LogLevel {
    /// The escape sequence that ends a coloured span.
    pub const ANSI_RESET: &'static str = "\x1b[0m";

    /// Rank of the level: Error 0, Warn 1, Info 2, Debug 3, Verbose 4.
    pub open spec fn rank(self) -> u8 {
        match self {
            LogLevel::Error => 0,
            LogLevel::Warn => 1,
            LogLevel::Info => 2,
            LogLevel::Debug => 3,
            LogLevel::Verbose => 4,
        }
    }

    /// The level's name in capitals.
    pub open spec fn name(self) -> Seq<char> {
        match self {
            LogLevel::Error => "ERROR"@,
            LogLevel::Warn => "WARN"@,
            LogLevel::Info => "INFO"@,
            LogLevel::Debug => "DEBUG"@,
            LogLevel::Verbose => "VERBOSE"@,
        }
    }

    /// The ANSI escape sequence of the level's colour.
    pub open spec fn color(self) -> Seq<char> {
        match self {
            LogLevel::Error => "\x1b[31m"@,
            LogLevel::Warn => "\x1b[33m"@,
            LogLevel::Info => "\x1b[32m"@,
            LogLevel::Debug => "\x1b[95m"@,
            LogLevel::Verbose => "\x1b[96m"@,
        }
    }

    /// The level's name in capitals.
    pub fn as_str(&self) -> (r: &'static str)
        ensures
            r@ == self.name(),
    {
        match self {
            LogLevel::Error => "ERROR",
            LogLevel::Warn => "WARN",
            LogLevel::Info => "INFO",
            LogLevel::Debug => "DEBUG",
            LogLevel::Verbose => "VERBOSE",
        }
    }

    /// The ANSI escape sequence that colours messages of this level.
    pub fn ansi_color_code(&self) -> (r: &'static str)
        ensures
            r@ == self.color(),
    {
        match self {
            LogLevel::Error => "\x1b[31m",
            LogLevel::Warn => "\x1b[33m",
            LogLevel::Info => "\x1b[32m",
            LogLevel::Debug => "\x1b[95m",
            LogLevel::Verbose => "\x1b[96m",
        }
    }

    /// The level's rank.
    pub fn to_u8(self) -> (r: u8)
        ensures
            r == self.rank(),
    {
        match self {
            LogLevel::Error => 0,
            LogLevel::Warn => 1,
            LogLevel::Info => 2,
            LogLevel::Debug => 3,
            LogLevel::Verbose => 4,
        }
    }

    /// The level of a rank; ranks past 4 have none.
    pub fn from_u8(value: u8) -> (r: Option<LogLevel>)
        ensures
            r matches Some(l) ==> l.rank() == value,
            r is None <==> value > 4,
    {
        match value {
            0 => Some(LogLevel::Error),
            1 => Some(LogLevel::Warn),
            2 => Some(LogLevel::Info),
            3 => Some(LogLevel::Debug),
            4 => Some(LogLevel::Verbose),
            _ => None,
        }
    }
}

impl From<LogLevel> for u8 {
    fn from(level: LogLevel) -> (r: u8) {
        level.to_u8()
    }
}

impl vstd::std_specs::convert::FromSpecImpl<LogLevel> for u8 {
    open spec fn obeys_from_spec() -> bool {
        true
    }

    open spec fn from_spec(level: LogLevel) -> u8 {
        level.rank()
    }
}

} // verus!
