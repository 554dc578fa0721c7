//! Substitution rules and the engine that applies them to a line of text.
use vstd::prelude::*;
use crate::pattern::{Pattern, replaced_all, compiles};
use crate::text::{lowercase, lower_of};

verus! {

/// A rule as written in a configuration: pattern source, replacement template,
/// locale tag and the command names it is limited to (empty: all commands).
pub struct ReplacementConfig {
    pub pattern: String,
    pub replacement: String,
    pub locale: String,
    pub commands: Vec<String>,
}

/// The locale tag of a rule that names none.
pub fn default_locale() -> (r: String)
    ensures
        r@ == "default"@,
{
    proof {
        reveal_strlit("default");
    }
    String::from_str("default")
}

/// A compiled substitution rule.
pub struct ReplacementRule {
    pub pattern: Pattern,
    pub replacement: String,
    pub locale: String,
    pub commands: Vec<String>,
}

/// The mathematical content of a rule.
pub struct RuleModel {
    pub pattern: Seq<char>,
    pub replacement: Seq<char>,
    pub locale: Seq<char>,
    pub commands: Seq<Seq<char>>,
}

/// The texts of a sequence of strings.
pub open spec fn string_views(v: Seq<String>) -> Seq<Seq<char>> {
    v.map_values(|s: String| s@)
}

impl ReplacementRule {
    /// The rule's pattern source, replacement, locale and command filters.
    pub open spec fn view(&self) -> RuleModel {
        RuleModel {
            pattern: self.pattern@,
            replacement: self.replacement@,
            locale: self.locale@,
            commands: string_views(self.commands@),
        }
    }
}

/// The models of a sequence of rules.
pub open spec fn rule_models(rules: Seq<ReplacementRule>) -> Seq<RuleModel> {
    rules.map_values(|r: ReplacementRule| r@)
}

/// Whether a rule takes part in a run for the (already lowercased) command name and
/// the selected locale.
pub open spec fn rule_applies(r: RuleModel, command: Seq<char>, locale: Seq<char>) -> bool {
    (r.commands.len() == 0 || r.commands.contains(command)) && r.locale == locale
}

/// One rule's effect on the text it is given.
pub open spec fn apply_rule(
    r: RuleModel,
    command: Seq<char>,
    locale: Seq<char>,
    text: Seq<char>,
) -> Seq<char> {
    if rule_applies(r, command, locale) {
        replaced_all(r.pattern, text, r.replacement)
    } else {
        text
    }
}

/// The rules applied in order, each to the output of the one before.
pub open spec fn apply_rules(
    rules: Seq<RuleModel>,
    command: Seq<char>,
    locale: Seq<char>,
    text: Seq<char>,
) -> Seq<char>
    decreases rules.len(),
{
    if rules.len() == 0 {
        text
    } else {
        apply_rule(rules.last(), command, locale, apply_rules(rules.drop_last(), command, locale, text))
    }
}

/// Whether `names` holds `name`.
pub(crate) fn contains_name(names: &Vec<String>, name: &String) -> (r: bool)
    ensures
        r == string_views(names@).contains(name@),
{
    let mut i: usize = 0;
    while i < names.len()
        invariant
            i <= names.len(),
            forall|j: int| 0 <= j < i ==> names@[j]@ != name@,
        decreases names.len() - i,
    {
        if names[i] == *name {
            assert(string_views(names@)[i as int] == name@);
            return true;
        }
        i = i + 1;
    }
    assert forall|j: int| 0 <= j < string_views(names@).len() implies string_views(names@)[j] != name@ by {
        assert(names@[j]@ != name@);
    }
    false
}

/// Applies every applicable rule in order to `text`, for a command name that is
/// already lowercase.
pub fn apply_replacements_lowered(
    text: &str,
    command_name: &str,
    rules: &[ReplacementRule],
    locale: &str,
) -> (r: String)
    ensures
        r@ == apply_rules(rule_models(rules@), command_name@, locale@, text@),
{
    let command = String::from_str(command_name);
    let selected = String::from_str(locale);
    let mut result = String::from_str(text);
    let mut i: usize = 0;
    while i < rules.len()
        invariant
            i <= rules.len(),
            command@ == command_name@,
            selected@ == locale@,
            result@ == apply_rules(rule_models(rules@.take(i as int)), command_name@, locale@, text@),
        decreases rules.len() - i,
    {
        let rule = &rules[i];
        let filtered = rule.commands.len() != 0 && !contains_name(&rule.commands, &command);
        if !filtered && rule.locale == selected {
            result = rule.pattern.replace_all(result.as_str(), rule.replacement.as_str());
        }
        proof {
            let prev = rule_models(rules@.take(i as int));
            let next = rule_models(rules@.take(i + 1));
            assert(next.drop_last() =~= prev);
            assert(next.last() == rules@[i as int]@);
        }
        i = i + 1;
    }
    assert(rules@.take(rules@.len() as int) =~= rules@);
    result
}

/// Applies every applicable rule in order to `text`; the command name is compared
/// in lowercase, the locale exactly.
pub fn apply_replacements(
    text: &str,
    command_name: &str,
    rules: &[ReplacementRule],
    locale: &str,
) -> (r: String)
    ensures
        r@ == apply_rules(rule_models(rules@), lower_of(command_name@), locale@, text@),
{
    let command = lowercase(command_name);
    apply_replacements_lowered(text, command.as_str(), rules, locale)
}

/// Why a configured rule could not be built.
pub enum RuleError {
    /// The pattern is not a valid regular expression; it holds the pattern.
    InvalidPattern(String),
}

/// The rule a configuration describes: its command filters lowercased.
pub open spec fn config_model(c: ReplacementConfig) -> RuleModel {
    RuleModel {
        pattern: c.pattern@,
        replacement: c.replacement@,
        locale: c.locale@,
        commands: string_views(c.commands@).map_values(|n: Seq<char>| lower_of(n)),
    }
}

/// The rules that a list of configurations yields, in order: those whose pattern
/// compiles.
pub open spec fn compiled_models(cfgs: Seq<ReplacementConfig>) -> Seq<RuleModel>
    decreases cfgs.len(),
{
    if cfgs.len() == 0 {
        Seq::empty()
    } else if compiles(cfgs.last().pattern@) {
        compiled_models(cfgs.drop_last()).push(config_model(cfgs.last()))
    } else {
        compiled_models(cfgs.drop_last())
    }
}

/// The patterns of the configurations that are skipped, in order.
pub open spec fn rejected_patterns(cfgs: Seq<ReplacementConfig>) -> Seq<Seq<char>>
    decreases cfgs.len(),
{
    if cfgs.len() == 0 {
        Seq::empty()
    } else if compiles(cfgs.last().pattern@) {
        rejected_patterns(cfgs.drop_last())
    } else {
        rejected_patterns(cfgs.drop_last()).push(cfgs.last().pattern@)
    }
}

impl ReplacementRule {
    /// Builds a rule from its configuration, lowercasing the command filters.
    pub fn from_config(config: &ReplacementConfig) -> (r: Result<ReplacementRule, RuleError>)
        ensures
            r is Ok <==> compiles(config.pattern@),
            r matches Ok(rule) ==> rule@ == config_model(*config),
            r matches Err(RuleError::InvalidPattern(p)) ==> p@ == config.pattern@,
    {
        match Pattern::new(config.pattern.as_str()) {
            Some(pattern) => {
                let mut commands: Vec<String> = Vec::new();
                let mut i: usize = 0;
                while i < config.commands.len()
                    invariant
                        i <= config.commands.len(),
                        commands@.len() == i,
                        forall|j: int| 0 <= j < i ==> commands@[j]@ == lower_of(config.commands@[j]@),
                    decreases config.commands.len() - i,
                {
                    commands.push(lowercase(config.commands[i].as_str()));
                    i = i + 1;
                }
                let rule = ReplacementRule {
                    pattern,
                    replacement: config.replacement.clone(),
                    locale: config.locale.clone(),
                    commands,
                };
                assert(string_views(rule.commands@) =~= string_views(config.commands@).map_values(
                    |n: Seq<char>| lower_of(n),
                ));
                Ok(rule)
            },
            None => Err(RuleError::InvalidPattern(config.pattern.clone())),
        }
    }
}

/// Builds the rules of a configuration in order. A rule whose pattern does not
/// compile is left out and its pattern is reported in the second list.
pub fn compile_rules(configs: &Vec<ReplacementConfig>) -> (r: (Vec<ReplacementRule>, Vec<String>))
    ensures
        rule_models(r.0@) == compiled_models(configs@),
        string_views(r.1@) == rejected_patterns(configs@),
{
    let mut rules: Vec<ReplacementRule> = Vec::new();
    let mut skipped: Vec<String> = Vec::new();
    let mut i: usize = 0;
    while i < configs.len()
        invariant
            i <= configs.len(),
            rule_models(rules@) == compiled_models(configs@.take(i as int)),
            string_views(skipped@) == rejected_patterns(configs@.take(i as int)),
        decreases configs.len() - i,
    {
        proof {
            assert(configs@.take(i + 1).drop_last() =~= configs@.take(i as int));
            assert(configs@.take(i + 1).last() == configs@[i as int]);
        }
        match ReplacementRule::from_config(&configs[i]) {
            Ok(rule) => {
                proof {
                    assert(rule_models(rules@.push(rule)) =~= rule_models(rules@).push(rule@));
                }
                rules.push(rule);
            },
            Err(RuleError::InvalidPattern(p)) => {
                proof {
                    assert(string_views(skipped@.push(p)) =~= string_views(skipped@).push(p@));
                }
                skipped.push(p);
            },
        }
        i = i + 1;
    }
    assert(configs@.take(configs@.len() as int) =~= configs@);
    (rules, skipped)
}

} // verus!
