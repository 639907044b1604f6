//! The direction of change attached to a reading.
use vstd::prelude::*;
use crate::error::same_text;

verus! {

/// How fast and in which direction the glucose level is moving.
#[derive(Debug, Clone, Copy, PartialEq, Eq, Structural)]
pub enum Trend {
    NoTrend,
    DoubleUp,
    SingleUp,
    FortyFiveUp,
    Flat,
    FortyFiveDown,
    SingleDown,
    DoubleDown,
    NotComputable,
    RateOutOfRange,
}

/// The trend that the service writes by this name.
pub open spec fn trend_named(s: Seq<char>) -> Option<Trend> {
    if s == "None"@ {
        Some(Trend::NoTrend)
    } else if s == "DoubleUp"@ {
        Some(Trend::DoubleUp)
    } else if s == "SingleUp"@ {
        Some(Trend::SingleUp)
    } else if s == "FortyFiveUp"@ {
        Some(Trend::FortyFiveUp)
    } else if s == "Flat"@ {
        Some(Trend::Flat)
    } else if s == "FortyFiveDown"@ {
        Some(Trend::FortyFiveDown)
    } else if s == "SingleDown"@ {
        Some(Trend::SingleDown)
    } else if s == "DoubleDown"@ {
        Some(Trend::DoubleDown)
    } else if s == "NotComputable"@ {
        Some(Trend::NotComputable)
    } else if s == "RateOutOfRange"@ {
        Some(Trend::RateOutOfRange)
    } else {
        None
    }
}

/// The trend that the service writes by this number: its place in the list,
/// counting from zero.
pub open spec fn trend_numbered(n: int) -> Option<Trend> {
    if n == 0 {
        Some(Trend::NoTrend)
    } else if n == 1 {
        Some(Trend::DoubleUp)
    } else if n == 2 {
        Some(Trend::SingleUp)
    } else if n == 3 {
        Some(Trend::FortyFiveUp)
    } else if n == 4 {
        Some(Trend::Flat)
    } else if n == 5 {
        Some(Trend::FortyFiveDown)
    } else if n == 6 {
        Some(Trend::SingleDown)
    } else if n == 7 {
        Some(Trend::DoubleDown)
    } else if n == 8 {
        Some(Trend::NotComputable)
    } else if n == 9 {
        Some(Trend::RateOutOfRange)
    } else {
        None
    }
}

/// The glyph shown for each trend.
pub open spec fn trend_glyph(t: Trend) -> Seq<char> {
    match t {
        Trend::NoTrend => "-"@,
        Trend::DoubleUp => "↑↑"@,
        Trend::SingleUp => "↑"@,
        Trend::FortyFiveUp => "↗"@,
        Trend::Flat => "→"@,
        Trend::FortyFiveDown => "↘"@,
        Trend::SingleDown => "↓"@,
        Trend::DoubleDown => "↓↓"@,
        Trend::NotComputable => "?"@,
        Trend::RateOutOfRange => "!"@,
    }
}

impl Trend {
    /// The trend that the service writes by this name, if any.
    pub fn from_name(s: &str) -> (r: Option<Trend>)
        ensures
            r == trend_named(s@),
    {
        if same_text(s, "None") {
            Some(Trend::NoTrend)
        } else if same_text(s, "DoubleUp") {
            Some(Trend::DoubleUp)
        } else if same_text(s, "SingleUp") {
            Some(Trend::SingleUp)
        } else if same_text(s, "FortyFiveUp") {
            Some(Trend::FortyFiveUp)
        } else if same_text(s, "Flat") {
            Some(Trend::Flat)
        } else if same_text(s, "FortyFiveDown") {
            Some(Trend::FortyFiveDown)
        } else if same_text(s, "SingleDown") {
            Some(Trend::SingleDown)
        } else if same_text(s, "DoubleDown") {
            Some(Trend::DoubleDown)
        } else if same_text(s, "NotComputable") {
            Some(Trend::NotComputable)
        } else if same_text(s, "RateOutOfRange") {
            Some(Trend::RateOutOfRange)
        } else {
            None
        }
    }

    /// The trend that the service writes by this number, if any.
    pub fn from_index(n: i64) -> (r: Option<Trend>)
        ensures
            r == trend_numbered(n as int),
    {
        match n {
            0 => Some(Trend::NoTrend),
            1 => Some(Trend::DoubleUp),
            2 => Some(Trend::SingleUp),
            3 => Some(Trend::FortyFiveUp),
            4 => Some(Trend::Flat),
            5 => Some(Trend::FortyFiveDown),
            6 => Some(Trend::SingleDown),
            7 => Some(Trend::DoubleDown),
            8 => Some(Trend::NotComputable),
            9 => Some(Trend::RateOutOfRange),
            _ => None,
        }
    }

    /// The glyph shown for this trend.
    pub fn glyph(&self) -> (r: &'static str)
        ensures
            r@ == trend_glyph(*self),
    {
        match self {
            Trend::NoTrend => "-",
            Trend::DoubleUp => "↑↑",
            Trend::SingleUp => "↑",
            Trend::FortyFiveUp => "↗",
            Trend::Flat => "→",
            Trend::FortyFiveDown => "↘",
            Trend::SingleDown => "↓",
            Trend::DoubleDown => "↓↓",
            Trend::NotComputable => "?",
            Trend::RateOutOfRange => "!",
        }
    }

    /// The glyph shown for this trend, as an owned string.
    pub fn to_string(&self) -> (r: String)
        ensures
            r@ == trend_glyph(*self),
    {
        self.glyph().to_owned()
    }
}

} // verus!
