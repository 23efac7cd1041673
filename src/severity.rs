use vstd::prelude::*;

verus! {

/// How verbose a message, or a threshold, is: `Off` is the least verbose
/// (nothing passes it) and `Trace` the most.
#[derive(Clone, Copy, Debug, PartialEq, Eq, Structural)]
pub enum Severity {
    Off,
    Error,
    Warn,
    Info,
    Debug,
    Trace,
}

impl Severity {
    /// The position of the severity in the order `Off < Error < ... < Trace`.
    pub open spec fn rank(self) -> nat {
        match self {
            Severity::Off => 0,
            Severity::Error => 1,
            Severity::Warn => 2,
            Severity::Info => 3,
            Severity::Debug => 4,
            Severity::Trace => 5,
        }
    }

    /// The more verbose of two severities.
    pub open spec fn spec_max(self, other: Severity) -> Severity {
        if self.rank() >= other.rank() {
            self
        } else {
            other
        }
    }

    /// The severity's position in the order, from 0 for `Off` to 5 for `Trace`.
    pub fn verbosity(self) -> (r: u8)
        ensures
            r as nat == self.rank(),
    {
        match self {
            Severity::Off => 0,
            Severity::Error => 1,
            Severity::Warn => 2,
            Severity::Info => 3,
            Severity::Debug => 4,
            Severity::Trace => 5,
        }
    }

    /// The more verbose of `self` and `other`.
    pub fn most_verbose(self, other: Severity) -> (r: Severity)
        ensures
            r == self.spec_max(other),
    {
        if self.verbosity() >= other.verbosity() {
            self
        } else {
            other
        }
    }

    /// Whether a message of this severity passes the threshold `threshold`:
    /// `Off` never passes, any other severity passes a threshold at least as
    /// verbose as itself.
    pub open spec fn spec_passes(self, threshold: Severity) -> bool {
        self != Severity::Off && self.rank() <= threshold.rank()
    }

    /// Whether a message of this severity passes the threshold `threshold`.
    pub fn passes(self, threshold: Severity) -> (r: bool)
        ensures
            r == self.spec_passes(threshold),
    {
        self != Severity::Off && self.verbosity() <= threshold.verbosity()
    }

    /// The upper-case name under which records of this severity are shown.
    pub open spec fn spec_label(self) -> Seq<char> {
        match self {
            Severity::Off => "OFF"@,
            Severity::Error => "ERROR"@,
            Severity::Warn => "WARN"@,
            Severity::Info => "INFO"@,
            Severity::Debug => "DEBUG"@,
            Severity::Trace => "TRACE"@,
        }
    }

    /// The upper-case name under which records of this severity are shown.
    pub fn label(self) -> (r: &'static str)
        ensures
            r@ == self.spec_label(),
    {
        match self {
            Severity::Off => "OFF",
            Severity::Error => "ERROR",
            Severity::Warn => "WARN",
            Severity::Info => "INFO",
            Severity::Debug => "DEBUG",
            Severity::Trace => "TRACE",
        }
    }

    /// The terminal color of the severity's name.
    pub open spec fn spec_color_name(self) -> Seq<char> {
        match self {
            Severity::Off => "white"@,
            Severity::Error => "red"@,
            Severity::Warn => "yellow"@,
            Severity::Info => "green"@,
            Severity::Debug => "blue"@,
            Severity::Trace => "magenta"@,
        }
    }

    /// The terminal color of the severity's name.
    pub fn color_name(self) -> (r: &'static str)
        ensures
            r@ == self.spec_color_name(),
    {
        match self {
            Severity::Off => "white",
            Severity::Error => "red",
            Severity::Warn => "yellow",
            Severity::Info => "green",
            Severity::Debug => "blue",
            Severity::Trace => "magenta",
        }
    }
}

} // verus!
