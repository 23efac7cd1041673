use vstd::prelude::*;

use colored::Colorize;

use crate::filter::{config_model, enabled_spec, FilterConfig, FilterModel};
use crate::severity::Severity;
use crate::text::{decimal_spec, decimal_text, pad_right, pad_right_spec};

verus! {

/// log's error for a refused installation of a global logger, declared so
/// that `init` can keep the facade's result type.
#[verifier::external_type_specification]
#[verifier::external_body]
pub struct ExSetLoggerError(log::SetLoggerError);

/// Relies on `log::set_max_level`: it stores the logging facade's global
/// gate, the level at which the facade stops passing calls on; `Off` maps to
/// `LevelFilter::Off` and each other severity to the level of its name.
#[verifier::external_body]
fn open_facade_gate(level: Severity) {
    log::set_max_level(
        match level {
            Severity::Off => log::LevelFilter::Off,
            Severity::Error => log::LevelFilter::Error,
            Severity::Warn => log::LevelFilter::Warn,
            Severity::Info => log::LevelFilter::Info,
            Severity::Debug => log::LevelFilter::Debug,
            Severity::Trace => log::LevelFilter::Trace,
        },
    )
}

/// Whether `color` is one of the color names that records use.
pub open spec fn is_record_color(color: Seq<char>) -> bool {
    color == "red"@ || color == "yellow"@ || color == "green"@ || color == "blue"@ || color
        == "magenta"@ || color == "white"@
}

/// The ANSI foreground code of a color name that records use.
pub open spec fn ansi_code(color: Seq<char>) -> Seq<char> {
    if color == "red"@ {
        "31"@
    } else if color == "yellow"@ {
        "33"@
    } else if color == "green"@ {
        "32"@
    } else if color == "blue"@ {
        "34"@
    } else if color == "magenta"@ {
        "35"@
    } else {
        "37"@
    }
}

/// `text` between the escape code that sets the foreground color `color` and
/// the escape code that resets all attributes.
pub open spec fn painted(text: Seq<char>, color: Seq<char>) -> Seq<char> {
    "\u{1b}["@ + ansi_code(color) + "m"@ + text + "\u{1b}[0m"@
}

/// Relies on colored's `Colorize::color` on `&str`, its `From<&str> for
/// Color` on a plain color name, and the `Display` of `ColoredString`: with
/// coloring on, the text between the foreground code of the color and the
/// reset code; with coloring off (as the environment and terminal of the
/// process decide), the bare text.
#[verifier::external_body]
fn paint(text: &str, color: &str) -> (r: String)
    requires
        is_record_color(color@),
        forall|i: int| 0 <= i < text@.len() ==> text@[i] != '\u{1b}',
    ensures
        r@ == text@ || r@ == painted(text@, color@),
{
    text.color(color).to_string()
}

/// The configuration text as `init` receives it.
pub open spec fn source_view(src: Option<&str>) -> Option<Seq<char>> {
    match src {
        Some(s) => Some(s@),
        None => None,
    }
}

/// The logger state after an initialization with the configuration text
/// `src`: the configuration of `src` alone, whatever was installed before.
pub open spec fn after_init(
    state: Option<FilterModel>,
    src: Option<Seq<char>>,
) -> Option<FilterModel> {
    Some(config_model(src))
}

/// Whether a logger in state `state` emits a message of severity `sev` for
/// `target`: never before initialization.
pub open spec fn emits(state: Option<FilterModel>, target: Seq<char>, sev: Severity) -> bool {
    match state {
        Some(m) => enabled_spec(m, target, sev),
        None => false,
    }
}

/// The text of one record line, around the already colored severity name
/// `level`: `[<level> - <thread> - <module>:<line>] <message>`, with the
/// thread number padded to three characters.
pub open spec fn line_spec(
    level: Seq<char>,
    thread: Seq<char>,
    module: Seq<char>,
    line: nat,
    message: Seq<char>,
) -> Seq<char> {
    "["@ + level + " - "@ + pad_right_spec(thread, 3) + " - "@ + module + ":"@ + decimal_spec(line)
        + "] "@ + message
}

/// The severity name of `sev` as a record shows it: padded to five
/// characters, and painted in the color of `sev` where coloring is on.
pub open spec fn label_text(sev: Severity, coloring: bool) -> Seq<char> {
    let name = pad_right_spec(sev.spec_label(), 5);
    if coloring {
        painted(name, sev.spec_color_name())
    } else {
        name
    }
}

/// The record line for a message of severity `sev`, with coloring on or off.
pub open spec fn record_spec(
    sev: Severity,
    coloring: bool,
    thread: Seq<char>,
    module: Seq<char>,
    line: nat,
    message: Seq<char>,
) -> Seq<char> {
    line_spec(label_text(sev, coloring), thread, module, line, message)
}

/// Lays out one record line around the already colored severity name
/// `level`.
pub fn layout_line(
    level: &str,
    thread: &str,
    module: &str,
    line: u32,
    message: &str,
) -> (r: String)
    ensures
        r@ == line_spec(level@, thread@, module@, line as nat, message@),
{
    let mut r = "[".to_string();
    r.append(level);
    r.append(" - ");
    r.append(pad_right(thread, 3).as_str());
    r.append(" - ");
    r.append(module);
    r.append(":");
    r.append(decimal_text(line as u64).as_str());
    r.append("] ");
    r.append(message);
    r
}

/// Renders one record line: the severity name, padded to five characters and
/// colored after its severity, the thread number, the module and line of the
/// call, and the message.
pub fn format_record(
    severity: Severity,
    thread: &str,
    module: &str,
    line: u32,
    message: &str,
) -> (r: String)
    ensures
        r@ == record_spec(severity, false, thread@, module@, line as nat, message@) || r@
            == record_spec(severity, true, thread@, module@, line as nat, message@),
{
    let name = pad_right(severity.label(), 5);
    proof {
        reveal_strlit("OFF");
        reveal_strlit("ERROR");
        reveal_strlit("WARN");
        reveal_strlit("INFO");
        reveal_strlit("DEBUG");
        reveal_strlit("TRACE");
        assert forall|i: int| 0 <= i < name@.len() implies name@[i] != '\u{1b}' by {
            if i >= severity.spec_label().len() {
                assert(name@[i] == ' ');
            }
        }
    }
    let level = paint(name.as_str(), severity.color_name());
    layout_line(level.as_str(), thread, module, line, message)
}

/// Whether `i` is the first position of `c` in `s`.
pub open spec fn first_at(s: Seq<char>, c: char, i: int) -> bool {
    0 <= i < s.len() && s[i] == c && forall|j: int| 0 <= j < i ==> s[j] != c
}

/// The first position of `c` in `s`.
fn find_char(s: &str, c: char) -> (r: Option<usize>)
    ensures
        match r {
            Some(i) => first_at(s@, c, i as int),
            None => forall|j: int| 0 <= j < s@.len() ==> s@[j] != c,
        },
{
    let n = s.unicode_len();
    let mut i: usize = 0;
    while i < n
        invariant
            n == s@.len(),
            i <= n,
            forall|j: int| 0 <= j < i ==> s@[j] != c,
        decreases n - i,
    {
        if s.get_char(i) == c {
            return Some(i);
        }
        i = i + 1;
    }
    None
}

/// The number of a thread, out of its debug text `ThreadId(<number>)`: the
/// text between the first `(` and the first `)`, where both are there in this
/// order; `Unknown` otherwise.
pub open spec fn thread_number_spec(s: Seq<char>) -> Seq<char> {
    if exists|a: int, b: int| first_at(s, '(', a) && first_at(s, ')', b) && a < b {
        let (a, b) = choose|a: int, b: int| first_at(s, '(', a) && first_at(s, ')', b) && a < b;
        s.subrange(a + 1, b)
    } else {
        "Unknown"@
    }
}

/// The number of a thread, out of its debug text `ThreadId(<number>)`.
pub fn thread_number(debug_text: &str) -> (r: String)
    ensures
        r@ == thread_number_spec(debug_text@),
{
    let s = debug_text;
    match (find_char(s, '('), find_char(s, ')')) {
        (Some(a), Some(b)) => {
            if a < b {
                proof {
                    let (x, y) = choose|x: int, y: int|
                        first_at(s@, '(', x) && first_at(s@, ')', y) && x < y;
                    assert(x == a as int);
                    assert(y == b as int);
                }
                return s.substring_char(a + 1, b).to_string();
            }
        },
        _ => {},
    }
    "Unknown".to_string()
}

/// The process's logger: absent until the first initialization, then the
/// filter configuration that the last initialization installed.
pub struct Logger {
    active: Option<FilterConfig>,
}

impl View for Logger {
    type V = Option<FilterModel>;

    closed spec fn view(&self) -> Option<FilterModel> {
        match self.active {
            Some(c) => Some(c@),
            None => None,
        }
    }
}

impl Logger {
    /// A logger that no initialization has reached yet: it emits nothing.
    pub fn new() -> (r: Logger)
        ensures
            r@ is None,
    {
        Logger { active: None }
    }

    /// Whether a message of severity `severity` for `target` is emitted.
    pub fn enabled(&self, target: &str, severity: Severity) -> (r: bool)
        ensures
            r == emits(self@, target@, severity),
    {
        match &self.active {
            Some(c) => c.enabled(target, severity),
            None => false,
        }
    }

    /// The line to write for a log call, where the call is enabled; `None`
    /// where it is not, and before any initialization.
    pub fn render(
        &self,
        target: &str,
        severity: Severity,
        module: &str,
        line: u32,
        thread: &str,
        message: &str,
    ) -> (r: Option<String>)
        ensures
            r is Some <==> emits(self@, target@, severity),
            r matches Some(text) ==> text@ == record_spec(
                severity,
                false,
                thread@,
                module@,
                line as nat,
                message@,
            ) || text@ == record_spec(severity, true, thread@, module@, line as nat, message@),
    {
        if self.enabled(target, severity) {
            Some(format_record(severity, thread, module, line, message))
        } else {
            None
        }
    }
}

/// Installs the configuration of the text `source` (absent where no
/// configuration is given) as the logger's only configuration, replacing any
/// earlier one, and opens the logging facade's gate so that all filtering
/// happens here. It always succeeds.
pub fn init(logger: &mut Logger, source: Option<&str>) -> (r: Result<(), log::SetLoggerError>)
    ensures
        final(logger)@ == after_init(old(logger)@, source_view(source)),
        r is Ok,
{
    let cfg = FilterConfig::parse(source);
    logger.active = Some(cfg);
    open_facade_gate(Severity::Trace);
    Ok(())
}

} // verus!
