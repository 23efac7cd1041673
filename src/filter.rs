use vstd::prelude::*;

use crate::severity::Severity;
use crate::text::{lemma_split_nonempty, split_on, split_spec, texts};

verus! {

/// What a filter configuration means: a global default threshold, and a
/// threshold for each named target.
pub ghost struct FilterModel {
    pub global: Severity,
    pub per_target: Map<Seq<char>, Severity>,
}

/// The configuration in force when no configuration text is given: every
/// target silent.
pub open spec fn silent_model() -> FilterModel {
    FilterModel { global: Severity::Off, per_target: Map::empty() }
}

/// The severity that a level token names: a name in lower case or a digit
/// from 1 (`error`) to 5 (`trace`); anything else means `Info`.
pub open spec fn level_spec(tok: Seq<char>) -> Severity {
    if tok == "trace"@ || tok == "5"@ {
        Severity::Trace
    } else if tok == "debug"@ || tok == "4"@ {
        Severity::Debug
    } else if tok == "info"@ || tok == "3"@ {
        Severity::Info
    } else if tok == "warn"@ || tok == "2"@ {
        Severity::Warn
    } else if tok == "error"@ || tok == "1"@ {
        Severity::Error
    } else {
        Severity::Info
    }
}

/// The target that a configuration entry `target[=level]` names: the text
/// before its first `=`.
pub open spec fn entry_target(e: Seq<char>) -> Seq<char> {
    split_spec(e, '=')[0]
}

/// The severity that a configuration entry sets: that of the text between
/// its first `=` and the next `=` (or its end); `Info` for a bare target.
pub open spec fn entry_level(e: Seq<char>) -> Severity {
    let pieces = split_spec(e, '=');
    if pieces.len() > 1 {
        level_spec(pieces[1])
    } else {
        Severity::Info
    }
}

/// The configuration after one more entry: `all` sets the global default,
/// another non-empty target gets (or replaces) its own threshold, and an
/// entry with an empty target changes nothing.
pub open spec fn apply_entry(m: FilterModel, e: Seq<char>) -> FilterModel {
    let t = entry_target(e);
    let l = entry_level(e);
    if t == "all"@ {
        FilterModel { global: l, ..m }
    } else if t.len() == 0 {
        m
    } else {
        FilterModel { per_target: m.per_target.insert(t, l), ..m }
    }
}

/// The configuration made by the entries `es`, applied in order, the later
/// overriding the earlier.
pub open spec fn apply_entries(es: Seq<Seq<char>>) -> FilterModel
    decreases es.len(),
{
    if es.len() == 0 {
        silent_model()
    } else {
        apply_entry(apply_entries(es.drop_last()), es.last())
    }
}

/// The configuration that a configuration text gives: its comma-separated
/// entries, applied in order; with no text, every target silent.
pub open spec fn config_model(src: Option<Seq<char>>) -> FilterModel {
    match src {
        Some(s) => apply_entries(split_spec(s, ',')),
        None => silent_model(),
    }
}

/// The threshold of `target`: the more verbose of its own threshold (the
/// global default where it has none) and the global default.
pub open spec fn threshold_spec(m: FilterModel, target: Seq<char>) -> Severity {
    let own = if m.per_target.contains_key(target) {
        m.per_target[target]
    } else {
        m.global
    };
    own.spec_max(m.global)
}

/// Whether a message of severity `sev` for `target` is emitted under `m`.
pub open spec fn enabled_spec(m: FilterModel, target: Seq<char>, sev: Severity) -> bool {
    sev.spec_passes(threshold_spec(m, target))
}

/// Whether two texts are equal.
fn same_text(a: &str, b: &str) -> (r: bool)
    ensures
        r == (a@ == b@),
{
    let n = a.unicode_len();
    if n != b.unicode_len() {
        return false;
    }
    let mut i: usize = 0;
    while i < n
        invariant
            n == a@.len() == b@.len(),
            i <= n,
            a@.take(i as int) == b@.take(i as int),
        decreases n - i,
    {
        if a.get_char(i) != b.get_char(i) {
            return false;
        }
        assert(a@.take(i as int + 1) =~= a@.take(i as int).push(a@[i as int]));
        assert(b@.take(i as int + 1) =~= b@.take(i as int).push(b@[i as int]));
        i = i + 1;
    }
    assert(a@ =~= a@.take(n as int));
    assert(b@ =~= b@.take(n as int));
    true
}

/// The severity that a level token names: `trace`/`5`, `debug`/`4`,
/// `info`/`3`, `warn`/`2`, `error`/`1`; any other token means `Info`.
pub fn level_from_token(tok: &str) -> (r: Severity)
    ensures
        r == level_spec(tok@),
{
    if same_text(tok, "trace") || same_text(tok, "5") {
        Severity::Trace
    } else if same_text(tok, "debug") || same_text(tok, "4") {
        Severity::Debug
    } else if same_text(tok, "info") || same_text(tok, "3") {
        Severity::Info
    } else if same_text(tok, "warn") || same_text(tok, "2") {
        Severity::Warn
    } else if same_text(tok, "error") || same_text(tok, "1") {
        Severity::Error
    } else {
        Severity::Info
    }
}

/// The threshold of one target.
pub struct TargetLevel {
    pub name: String,
    pub level: Severity,
}

/// The threshold recorded for `k` in `entries`: that of the last entry named
/// `k`, if any.
pub open spec fn lookup(entries: Seq<TargetLevel>, k: Seq<char>) -> Option<Severity>
    decreases entries.len(),
{
    if entries.len() == 0 {
        None
    } else if entries.last().name@ == k {
        Some(entries.last().level)
    } else {
        lookup(entries.drop_last(), k)
    }
}

/// A parsed filter configuration: the global default, and the thresholds of
/// named targets, where a later entry for a name overrides an earlier one.
pub struct FilterConfig {
    pub all: Severity,
    pub targets: Vec<TargetLevel>,
}

impl View for FilterConfig {
    type V = FilterModel;

    open spec fn view(&self) -> FilterModel {
        FilterModel {
            global: self.all,
            per_target: Map::new(
                |k: Seq<char>| lookup(self.targets@, k) is Some,
                |k: Seq<char>| lookup(self.targets@, k)->0,
            ),
        }
    }
}

impl FilterConfig {
    /// The configuration under which every target is silent.
    pub fn silent() -> (r: FilterConfig)
        ensures
            r@ == silent_model(),
    {
        let r = FilterConfig { all: Severity::Off, targets: Vec::new() };
        assert(r@.per_target =~= Map::<Seq<char>, Severity>::empty());
        r
    }

    /// Gives `name` the threshold `level`, over any it had.
    fn set_target(&mut self, name: String, level: Severity)
        ensures
            final(self)@ == (FilterModel {
                per_target: old(self)@.per_target.insert(name@, level),
                ..old(self)@
            }),
    {
        let ghost before = self.targets@;
        self.targets.push(TargetLevel { name, level });
        proof {
            assert(self.targets@.drop_last() =~= before);
            assert(self@.per_target =~= old(self)@.per_target.insert(name@, level));
        }
    }

    /// Applies one configuration entry `target[=level]`.
    fn apply(&mut self, entry: &str)
        ensures
            final(self)@ == apply_entry(old(self)@, entry@),
    {
        let pieces = split_on(entry, '=');
        proof {
            lemma_split_nonempty(entry@, '=');
            assert(texts(pieces@)[0] == pieces@[0]@);
        }
        let level = if pieces.len() > 1 {
            assert(texts(pieces@)[1] == pieces@[1]@);
            level_from_token(pieces[1].as_str())
        } else {
            Severity::Info
        };
        let target = pieces[0].as_str();
        if same_text(target, "all") {
            self.all = level;
        } else if target.unicode_len() == 0 {
        } else {
            self.set_target(target.to_string(), level);
        }
    }

    /// Parses a configuration text: comma-separated entries `target=level`
    /// or bare `target` (level `Info`), applied in order, where the target
    /// `all` sets the global default. With no text, every target is silent.
    /// No text is refused.
    pub fn parse(src: Option<&str>) -> (r: FilterConfig)
        ensures
            r@ == config_model(match src {
                Some(s) => Some(s@),
                None => None,
            }),
    {
        let mut cfg = FilterConfig::silent();
        match src {
            None => cfg,
            Some(s) => {
                let entries = split_on(s, ',');
                let mut i: usize = 0;
                while i < entries.len()
                    invariant
                        i <= entries@.len(),
                        texts(entries@) == split_spec(s@, ','),
                        cfg@ == apply_entries(texts(entries@).take(i as int)),
                    decreases entries@.len() - i,
                {
                    proof {
                        let es = texts(entries@);
                        assert(es.take(i as int + 1).drop_last() =~= es.take(i as int));
                        assert(es[i as int] == entries@[i as int]@);
                    }
                    cfg.apply(entries[i].as_str());
                    i = i + 1;
                }
                assert(texts(entries@).take(i as int) =~= texts(entries@));
                cfg
            },
        }
    }

    /// The threshold recorded for `target`, if it has one.
    fn own_level(&self, target: &str) -> (r: Option<Severity>)
        ensures
            r == lookup(self.targets@, target@),
    {
        let mut i: usize = self.targets.len();
        assert(self.targets@.take(i as int) =~= self.targets@);
        while i > 0
            invariant
                i <= self.targets@.len(),
                lookup(self.targets@, target@) == lookup(self.targets@.take(i as int), target@),
            decreases i,
        {
            let e = &self.targets[i - 1];
            assert(self.targets@.take(i as int).drop_last() =~= self.targets@.take(i - 1));
            if same_text(e.name.as_str(), target) {
                return Some(e.level);
            }
            i = i - 1;
        }
        None
    }

    /// The threshold in force for `target`.
    pub fn threshold(&self, target: &str) -> (r: Severity)
        ensures
            r == threshold_spec(self@, target@),
    {
        let own = match self.own_level(target) {
            Some(l) => l,
            None => self.all,
        };
        own.most_verbose(self.all)
    }

    /// Whether a message of severity `severity` for `target` is emitted.
    pub fn enabled(&self, target: &str, severity: Severity) -> (r: bool)
        ensures
            r == enabled_spec(self@, target@, severity),
    {
        severity.passes(self.threshold(target))
    }
}

} // verus!
