//! The decisions of the process supervisor: how to spawn a command, what each
//! output line becomes, and which exit code is reported.
use vstd::prelude::*;
use crate::rules::{ReplacementRule, contains_name, apply_rules, apply_replacements, rule_models, string_views};
use crate::text::{command_name_of, command_name_spec, lower_of, lowercase};

verus! {

/// The program names (lowercase) that are run under a shell with stdin forwarded.
pub open spec fn interactive_names() -> Seq<Seq<char>> {
    seq!["python"@, "python3"@, "ipython"@, "bash"@, "sh"@, "cmd"@, "zsh"@]
}

/// The known interactive program names, in lowercase.
pub fn interactive_commands() -> (r: Vec<String>)
    ensures
        string_views(r@) == interactive_names(),
{
    proof {
        reveal_strlit("python");
        reveal_strlit("python3");
        reveal_strlit("ipython");
        reveal_strlit("bash");
        reveal_strlit("sh");
        reveal_strlit("cmd");
        reveal_strlit("zsh");
    }
    let r = vec![
        String::from_str("python"),
        String::from_str("python3"),
        String::from_str("ipython"),
        String::from_str("bash"),
        String::from_str("sh"),
        String::from_str("cmd"),
        String::from_str("zsh"),
    ];
    assert(string_views(r@) =~= interactive_names());
    r
}

/// Whether a command name denotes an interactive program, in any case.
pub open spec fn is_interactive_spec(command_name: Seq<char>) -> bool {
    interactive_names().contains(lower_of(command_name))
}

/// Classifies a command name (a basename) as interactive, ignoring case.
pub fn is_interactive(command_name: &str) -> (r: bool)
    ensures
        r == is_interactive_spec(command_name@),
{
    let names = interactive_commands();
    let lowered = lowercase(command_name);
    contains_name(&names, &lowered)
}

/// The words of a command line joined by single spaces, without quoting.
pub open spec fn join_words(words: Seq<Seq<char>>) -> Seq<char>
    decreases words.len(),
{
    if words.len() == 0 {
        Seq::empty()
    } else if words.len() == 1 {
        words[0]
    } else {
        join_words(words.drop_last()) + seq![' '] + words.last()
    }
}

/// Joins the words of a command line with single spaces.
pub fn join_command(words: &Vec<String>) -> (r: String)
    ensures
        r@ == join_words(string_views(words@)),
{
    let mut line = String::new();
    let mut i: usize = 0;
    while i < words.len()
        invariant
            i <= words.len(),
            line@ == join_words(string_views(words@.take(i as int))),
        decreases words.len() - i,
    {
        proof {
            assert(string_views(words@.take(i + 1)).drop_last() =~= string_views(words@.take(i as int)));
            assert(string_views(words@.take(i + 1)).last() == words@[i as int]@);
        }
        let ghost prev = line@;
        if i > 0 {
            line.append(" ");
        }
        line.append(words[i].as_str());
        proof {
            reveal_strlit(" ");
            assert(" "@ =~= seq![' ']);
            let ws = string_views(words@.take(i + 1));
            if i == 0 {
                assert(line@ =~= ws[0]);
            } else {
                assert(line@ =~= prev + seq![' '] + ws.last());
            }
        }
        i = i + 1;
    }
    assert(words@.take(words@.len() as int) =~= words@);
    line
}

/// How the child is started.
pub enum SpawnStrategy {
    /// The program is run with its own argument vector.
    Direct,
    /// `sh -c <script>` runs the whole command line.
    ShellWrapped { script: String },
}

/// What the supervisor decides before spawning.
pub struct SpawnPlan {
    /// The basename of the executable, used to filter rules.
    pub command_name: String,
    /// Whether local input is forwarded to the child.
    pub forward_stdin: bool,
    pub strategy: SpawnStrategy,
}

/// Why a command cannot be run.
pub enum ExecError {
    /// No command was given.
    EmptyCommand,
}

/// Decides how to run `command` (program and arguments): interactive programs are
/// run through a shell with the command line joined by spaces, and receive the
/// local input; the others are run directly.
pub fn plan_spawn(command: &Vec<String>) -> (r: Result<SpawnPlan, ExecError>)
    ensures
        r is Err <==> command@.len() == 0,
        r matches Ok(plan) ==> {
            let name = command_name_spec(command@[0]@);
            &&& plan.command_name@ == name
            &&& plan.forward_stdin == is_interactive_spec(name)
            &&& match plan.strategy {
                SpawnStrategy::Direct => !is_interactive_spec(name),
                SpawnStrategy::ShellWrapped { script } => is_interactive_spec(name)
                    && script@ == join_words(string_views(command@)),
            }
        },
{
    if command.len() == 0 {
        return Err(ExecError::EmptyCommand);
    }
    let command_name = command_name_of(command[0].as_str());
    let interactive = is_interactive(command_name.as_str());
    let strategy = if interactive {
        SpawnStrategy::ShellWrapped { script: join_command(command) }
    } else {
        SpawnStrategy::Direct
    };
    Ok(SpawnPlan { command_name, forward_stdin: interactive, strategy })
}

/// What one line read from the child becomes on the local sink: the transformed
/// text followed by a single newline.
pub fn render_line(
    line: &str,
    command_name: &str,
    rules: &[ReplacementRule],
    locale: &str,
) -> (r: String)
    ensures
        r@ == apply_rules(rule_models(rules@), lower_of(command_name@), locale@, line@) + seq!['\n'],
{
    proof {
        reveal_strlit("\n");
    }
    let out = apply_replacements(line, command_name, rules, locale);
    out.concat("\n")
}

/// The exit code reported for the child: its own code, or 1 where a signal ended it.
pub fn reported_exit_code(code: Option<i32>) -> (r: i32)
    ensures
        r == match code {
            Some(n) => n,
            None => 1,
        },
{
    match code {
        Some(n) => n,
        None => 1,
    }
}

/// Shells and interpreters are interactive in any case of their name, a plain
/// program such as `ls` is not; so only the former are shell-wrapped and given
/// the local input (see `plan_spawn`).
pub proof fn lemma_interactive_classification(name: Seq<char>)
    ensures
        lower_of(name) == "bash"@ || lower_of(name) == "python3"@ || lower_of(name) == "sh"@
            ==> is_interactive_spec(name),
        lower_of(name) == "ls"@ ==> !is_interactive_spec(name),
{
    reveal_strlit("python");
    reveal_strlit("python3");
    reveal_strlit("ipython");
    reveal_strlit("bash");
    reveal_strlit("sh");
    reveal_strlit("cmd");
    reveal_strlit("zsh");
    reveal_strlit("ls");
    let names = interactive_names();
    if lower_of(name) == "bash"@ {
        assert(names[3] == lower_of(name));
    }
    if lower_of(name) == "python3"@ {
        assert(names[1] == lower_of(name));
    }
    if lower_of(name) == "sh"@ {
        assert(names[4] == lower_of(name));
    }
    if lower_of(name) == "ls"@ {
        assert forall|j: int| 0 <= j < names.len() implies names[j] != lower_of(name) by {
            assert(names[j].len() != 2 || names[j][0] != 'l');
        }
    }
}

} // verus!
