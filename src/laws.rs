//! Laws of the rule engine, stated over the rule models.
use vstd::prelude::*;
use crate::pattern::replaced_all;
use crate::rules::{RuleModel, apply_rule, apply_rules, rule_applies};

verus! {

/// A rule set in which no rule applies leaves every line as it is.
pub proof fn lemma_no_applicable_rule_is_identity(
    rules: Seq<RuleModel>,
    command: Seq<char>,
    locale: Seq<char>,
    text: Seq<char>,
)
    requires
        forall|i: int| 0 <= i < rules.len() ==> !rule_applies(#[trigger] rules[i], command, locale),
    ensures
        apply_rules(rules, command, locale, text) == text,
    decreases rules.len(),
{
    if rules.len() > 0 {
        assert forall|i: int| 0 <= i < rules.drop_last().len() implies !rule_applies(
            #[trigger] rules.drop_last()[i],
            command,
            locale,
        ) by {
            assert(rules.drop_last()[i] == rules[i]);
        }
        lemma_no_applicable_rule_is_identity(rules.drop_last(), command, locale, text);
        assert(!rule_applies(rules[rules.len() - 1], command, locale));
    }
}

/// Taking out a rule that does not apply to the run changes no output.
pub proof fn lemma_inapplicable_rule_is_inert(
    rules: Seq<RuleModel>,
    i: int,
    command: Seq<char>,
    locale: Seq<char>,
    text: Seq<char>,
)
    requires
        0 <= i < rules.len(),
        !rule_applies(rules[i], command, locale),
    ensures
        apply_rules(rules, command, locale, text) == apply_rules(rules.remove(i), command, locale, text),
    decreases rules.len(),
{
    if i == rules.len() - 1 {
        assert(rules.remove(i) =~= rules.drop_last());
    } else {
        lemma_inapplicable_rule_is_inert(rules.drop_last(), i, command, locale, text);
        assert(rules.remove(i).drop_last() =~= rules.drop_last().remove(i));
        assert(rules.remove(i).last() == rules.last());
    }
}

/// A rule whose locale is not the selected one never alters the output: the
/// result is that of the rule set without it.
pub proof fn lemma_locale_isolation(
    rules: Seq<RuleModel>,
    i: int,
    command: Seq<char>,
    locale: Seq<char>,
    text: Seq<char>,
)
    requires
        0 <= i < rules.len(),
        rules[i].locale != locale,
    ensures
        apply_rules(rules, command, locale, text) == apply_rules(rules.remove(i), command, locale, text),
{
    lemma_inapplicable_rule_is_inert(rules, i, command, locale, text);
}

/// A rule limited to commands that do not include the run's (lowercase) command
/// name never alters the output.
pub proof fn lemma_command_filter_excludes(
    rules: Seq<RuleModel>,
    i: int,
    command: Seq<char>,
    locale: Seq<char>,
    text: Seq<char>,
)
    requires
        0 <= i < rules.len(),
        rules[i].commands.len() > 0,
        !rules[i].commands.contains(command),
    ensures
        apply_rules(rules, command, locale, text) == apply_rules(rules.remove(i), command, locale, text),
{
    lemma_inapplicable_rule_is_inert(rules, i, command, locale, text);
}

/// A rule of the selected locale whose filters name the run's command replaces
/// its pattern in the text it is given.
pub proof fn lemma_command_filter_admits(
    r: RuleModel,
    command: Seq<char>,
    locale: Seq<char>,
    text: Seq<char>,
)
    requires
        r.commands.contains(command),
        r.locale == locale,
    ensures
        apply_rule(r, command, locale, text) == replaced_all(r.pattern, text, r.replacement),
{
}

/// Two rules are independent in a run when applying them in either order gives the
/// same text, whatever the text.
pub open spec fn independent(a: RuleModel, b: RuleModel, command: Seq<char>, locale: Seq<char>) -> bool {
    forall|t: Seq<char>|
        #[trigger] apply_rule(b, command, locale, apply_rule(a, command, locale, t)) == apply_rule(
            a,
            command,
            locale,
            apply_rule(b, command, locale, t),
        )
}

/// The rule set with the rules at `i` and `i + 1` exchanged.
pub open spec fn swap_adjacent(rules: Seq<RuleModel>, i: int) -> Seq<RuleModel> {
    rules.update(i, rules[i + 1]).update(i + 1, rules[i])
}

/// Exchanging two adjacent independent rules yields the same final text.
pub proof fn lemma_independent_rules_commute(
    rules: Seq<RuleModel>,
    i: int,
    command: Seq<char>,
    locale: Seq<char>,
    text: Seq<char>,
)
    requires
        0 <= i,
        i + 1 < rules.len(),
        independent(rules[i], rules[i + 1], command, locale),
    ensures
        apply_rules(swap_adjacent(rules, i), command, locale, text) == apply_rules(rules, command, locale, text),
    decreases rules.len(),
{
    let s = swap_adjacent(rules, i);
    if i + 2 == rules.len() {
        let base = rules.drop_last().drop_last();
        assert(s.drop_last().drop_last() =~= base);
        assert(s.drop_last().last() == rules[i + 1]);
        assert(s.last() == rules[i]);
        assert(rules.drop_last().last() == rules[i]);
        let t = apply_rules(base, command, locale, text);
        assert(apply_rule(rules[i + 1], command, locale, apply_rule(rules[i], command, locale, t))
            == apply_rule(rules[i], command, locale, apply_rule(rules[i + 1], command, locale, t)));
        assert(apply_rules(s.drop_last(), command, locale, text) == apply_rule(
            rules[i + 1],
            command,
            locale,
            t,
        ));
        assert(apply_rules(rules.drop_last(), command, locale, text) == apply_rule(
            rules[i],
            command,
            locale,
            t,
        ));
    } else {
        lemma_independent_rules_commute(rules.drop_last(), i, command, locale, text);
        assert(s.drop_last() =~= swap_adjacent(rules.drop_last(), i));
        assert(s.last() == rules.last());
    }
}

} // verus!
