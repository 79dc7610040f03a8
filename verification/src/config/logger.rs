//! What the process logs, and in which form.

use vstd::prelude::*;
use vstd::string::*;

verus! {

/// The form of a log line.
#[derive(Debug, Clone, Copy, PartialEq, Eq, Structural)]
pub enum LogFormat {
    Compact,
    Full,
    Json,
    Pretty,
}

impl LogFormat {
    /// The name of the form, as the settings file writes it.
    pub open spec fn name(self) -> Seq<char> {
        match self {
            LogFormat::Compact => "compact"@,
            LogFormat::Full => "full"@,
            LogFormat::Json => "json"@,
            LogFormat::Pretty => "pretty"@,
        }
    }

    /// Writes the name of the form.
    pub fn to_string(&self) -> (r: String)
        ensures
            r@ == self.name(),
    {
        match self {
            LogFormat::Compact => "compact".to_owned(),
            LogFormat::Full => "full".to_owned(),
            LogFormat::Json => "json".to_owned(),
            LogFormat::Pretty => "pretty".to_owned(),
        }
    }
}

/// From which severity on events are logged.
#[derive(Debug, Clone, Copy, PartialEq, Eq, Structural)]
pub enum LogLevel {
    Debug,
    Error,
    Info,
    Off,
    Trace,
    Warn,
}

impl LogLevel {
    /// The name of the level, as filter directives write it.
    pub open spec fn name(self) -> Seq<char> {
        match self {
            LogLevel::Debug => "debug"@,
            LogLevel::Error => "error"@,
            LogLevel::Info => "info"@,
            LogLevel::Off => "off"@,
            LogLevel::Trace => "trace"@,
            LogLevel::Warn => "warn"@,
        }
    }

    /// Writes the name of the level.
    pub fn to_string(&self) -> (r: String)
        ensures
            r@ == self.name(),
    {
        match self {
            LogLevel::Debug => "debug".to_owned(),
            LogLevel::Error => "error".to_owned(),
            LogLevel::Info => "info".to_owned(),
            LogLevel::Off => "off".to_owned(),
            LogLevel::Trace => "trace".to_owned(),
            LogLevel::Warn => "warn".to_owned(),
        }
    }
}

/// The settings of logging: the level, the form, and the targets to which
/// the level applies.
#[derive(Debug, Clone, PartialEq, Eq)]
pub struct Telemetry {
    pub level: LogLevel,
    pub format: LogFormat,
    pub directives: Vec<String>,
}

/// The filter directive that sets `target` to `level`.
pub open spec fn directive_text(target: Seq<char>, level: LogLevel) -> Seq<char> {
    target + "="@ + level.name()
}

impl Telemetry {
    pub fn new(level: LogLevel, format: LogFormat, directives: Vec<String>) -> (r: Telemetry)
        ensures
            r.level == level,
            r.format == format,
            r.directives == directives,
    {
        Telemetry { level, format, directives }
    }

    pub fn level(&self) -> (r: LogLevel)
        ensures
            r == self.level,
    {
        self.level
    }

    pub fn format(&self) -> (r: LogFormat)
        ensures
            r == self.format,
    {
        self.format
    }

    /// Writes the filter directive that sets `target` to the level.
    pub fn directive(&self, target: &str) -> (r: String)
        ensures
            r@ == directive_text(target@, self.level),
    {
        let mut text = target.to_owned();
        text.append("=");
        text.append(self.level.to_string().as_str());
        text
    }

    /// The filter directives of the settings: one for each target, in
    /// their order, each setting its target to the level.
    pub fn directives(&self) -> (r: Vec<String>)
        ensures
            r@.len() == self.directives@.len(),
            forall|i: int|
                0 <= i < r@.len() ==> (#[trigger] r@[i])@ == directive_text(
                    self.directives@[i]@,
                    self.level,
                ),
    {
        let mut list: Vec<String> = Vec::new();
        let mut i: usize = 0;
        while i < self.directives.len()
            invariant
                i <= self.directives@.len(),
                list@.len() == i,
                forall|j: int|
                    0 <= j < i ==> (#[trigger] list@[j])@ == directive_text(
                        self.directives@[j]@,
                        self.level,
                    ),
            decreases self.directives@.len() - i,
        {
            list.push(self.directive(self.directives[i].as_str()));
            i += 1;
        }
        list
    }

    /// The filter to fall back on when the environment names none: the
    /// crate's own target at the level if the settings name no targets, an
    /// empty filter otherwise, since the directives then say it all.
    pub fn default_filter(&self, own_target: &str) -> (r: String)
        ensures
            r@ == if self.directives@.len() == 0 {
                directive_text(own_target@, self.level)
            } else {
                Seq::<char>::empty()
            },
    {
        if self.directives.len() == 0 {
            self.directive(own_target)
        } else {
            String::new()
        }
    }
}

} // verus!
