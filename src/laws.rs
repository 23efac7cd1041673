use vstd::prelude::*;

use crate::filter::{
    apply_entries, apply_entry, config_model, enabled_spec, entry_level, entry_target,
    level_spec, silent_model, threshold_spec, FilterModel,
};
use crate::logger::{after_init, emits};
use crate::severity::Severity;
use crate::text::{lemma_split_after, lemma_split_no_sep, split_spec};

verus! {

/// Whether `c` does not occur in `s`.
pub open spec fn lacks(s: Seq<char>, c: char) -> bool {
    forall|i: int| 0 <= i < s.len() ==> s[i] != c
}

/// An entry `t=l`, with no `=` in `t` or `l`, names the target `t` and the
/// level of `l`.
proof fn lemma_entry(t: Seq<char>, l: Seq<char>)
    requires
        lacks(t, '='),
        lacks(l, '='),
    ensures
        entry_target(t + seq!['='] + l) == t,
        entry_level(t + seq!['='] + l) == level_spec(l),
{
    lemma_split_after(t, l, '=');
    lemma_split_no_sep(l, '=');
    assert(split_spec(t + seq!['='] + l, '=') =~= seq![t, l]);
}

/// A configuration text without a comma is one entry.
proof fn lemma_one_entry(e: Seq<char>)
    requires
        lacks(e, ','),
    ensures
        config_model(Some(e)) == apply_entry(silent_model(), e),
{
    lemma_split_no_sep(e, ',');
    let es = seq![e];
    assert(es.drop_last() =~= Seq::<Seq<char>>::empty());
    assert(es.last() == e);
    assert(apply_entries(es) == apply_entry(apply_entries(es.drop_last()), es.last()));
}

/// Without configuration text nothing is emitted, and neither is anything
/// before the first initialization.
pub proof fn law_default_silence(state: Option<FilterModel>, target: Seq<char>, sev: Severity)
    ensures
        !emits(None, target, sev),
        !emits(after_init(state, None), target, sev),
{
    assert(!silent_model().per_target.contains_key(target));
}

/// Under `all=debug`, every target emits errors, warnings, information and
/// debug messages, and no trace messages.
pub proof fn law_all_threshold(target: Seq<char>)
    ensures
        threshold_spec(config_model(Some("all=debug"@)), target) == Severity::Debug,
        enabled_spec(config_model(Some("all=debug"@)), target, Severity::Error),
        enabled_spec(config_model(Some("all=debug"@)), target, Severity::Warn),
        enabled_spec(config_model(Some("all=debug"@)), target, Severity::Info),
        enabled_spec(config_model(Some("all=debug"@)), target, Severity::Debug),
        !enabled_spec(config_model(Some("all=debug"@)), target, Severity::Trace),
{
    reveal_strlit("all=debug");
    reveal_strlit("all");
    reveal_strlit("debug");
    reveal_strlit("trace");
    reveal_strlit("5");
    let t = seq!['a', 'l', 'l'];
    let l = seq!['d', 'e', 'b', 'u', 'g'];
    assert("all=debug"@ =~= t + seq!['='] + l);
    assert("all"@ =~= t);
    assert("debug"@ =~= l);
    assert(lacks("all=debug"@, ','));
    lemma_entry(t, l);
    lemma_one_entry("all=debug"@);
    assert(level_spec(l) == Severity::Debug);
    assert(!config_model(Some("all=debug"@)).per_target.contains_key(target));
}

/// A target's own threshold that is no more verbose than the global default
/// has no effect: the target is filtered as if it had none.
pub proof fn law_floor_asymmetry(m: FilterModel, target: Seq<char>, sev: Severity)
    requires
        m.per_target.contains_key(target),
        m.per_target[target].rank() <= m.global.rank(),
    ensures
        threshold_spec(m, target) == m.global,
        enabled_spec(m, target, sev) == enabled_spec(
            FilterModel { per_target: m.per_target.remove(target), ..m },
            target,
            sev,
        ),
{
}

/// Under `mod1=debug`, `mod1` emits everything up to debug messages, and any
/// other target emits nothing.
pub proof fn law_target_isolation(target: Seq<char>, sev: Severity)
    ensures
        threshold_spec(config_model(Some("mod1=debug"@)), "mod1"@) == Severity::Debug,
        target != "mod1"@ ==> !enabled_spec(config_model(Some("mod1=debug"@)), target, sev),
{
    reveal_strlit("mod1=debug");
    reveal_strlit("mod1");
    reveal_strlit("all");
    reveal_strlit("debug");
    reveal_strlit("trace");
    reveal_strlit("5");
    let t = seq!['m', 'o', 'd', '1'];
    let l = seq!['d', 'e', 'b', 'u', 'g'];
    assert("mod1=debug"@ =~= t + seq!['='] + l);
    assert("mod1"@ =~= t);
    assert("debug"@ =~= l);
    assert(lacks("mod1=debug"@, ','));
    lemma_entry(t, l);
    lemma_one_entry("mod1=debug"@);
    assert(t != "all"@);
    assert(level_spec(l) == Severity::Debug);
    let m = config_model(Some("mod1=debug"@));
    assert(m.per_target =~= Map::<Seq<char>, Severity>::empty().insert(t, Severity::Debug));
}

/// An entry whose level token names no level sets `Info`: the configuration
/// `t=tok` is the configuration `t=info`.
pub proof fn law_unknown_token_is_info(t: Seq<char>, tok: Seq<char>)
    requires
        lacks(t, ','),
        lacks(t, '='),
        lacks(tok, ','),
        lacks(tok, '='),
        level_spec(tok) == Severity::Info,
    ensures
        config_model(Some(t + "="@ + tok)) == config_model(Some(t + "=info"@)),
{
    reveal_strlit("=");
    reveal_strlit("=info");
    reveal_strlit("info");
    reveal_strlit("trace");
    reveal_strlit("5");
    reveal_strlit("debug");
    reveal_strlit("4");
    let i = seq!['i', 'n', 'f', 'o'];
    assert("="@ =~= seq!['=']);
    assert("=info"@ =~= seq!['='] + i);
    assert("info"@ =~= i);
    assert(t + "="@ + tok =~= t + seq!['='] + tok);
    assert(t + "=info"@ =~= t + seq!['='] + i);
    lemma_entry(t, tok);
    lemma_entry(t, i);
    assert(level_spec(i) == Severity::Info);
    lemma_one_entry(t + seq!['='] + tok);
    lemma_one_entry(t + seq!['='] + i);
}

/// A second initialization replaces the first: nothing of the first
/// configuration survives.
pub proof fn law_reinit_replaces(
    state: Option<FilterModel>,
    first: Option<Seq<char>>,
    second: Option<Seq<char>>,
    target: Seq<char>,
    sev: Severity,
)
    ensures
        after_init(after_init(state, first), second) == after_init(None, second),
        emits(after_init(after_init(state, first), second), target, sev) == enabled_spec(
            config_model(second),
            target,
            sev,
        ),
{
}

} // verus!
