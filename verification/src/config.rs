//! What the tool is configured to search, as the environment says it.

use crate::text::{chars, lowercase, replace, replaced, same, strip_prefix, text, to_lowercase};
use vstd::prelude::*;

verus! {

/// What a command searches.
#[derive(Debug, Clone, Copy, PartialEq, Eq)]
pub enum Kind {
    Issues,
    MergeRequests,
}

/// One search that the user can call by name.
#[derive(Debug, Clone, PartialEq, Eq)]
pub struct Command {
    pub kind: Kind,
    /// The name by which the command is called.
    pub name: String,
    /// The full path of the project that it searches.
    pub project: String,
}

/// The configuration: the access token and the commands.
#[derive(Debug, Clone, PartialEq, Eq)]
pub struct Config {
    pub token: Option<String>,
    pub commands: Vec<Command>,
}

/// A command, with its texts as sequences of characters.
pub struct CommandView {
    pub kind: Kind,
    pub name: Seq<char>,
    pub project: Seq<char>,
}

/// A configuration, with its texts as sequences of characters.
pub struct ConfigView {
    pub token: Option<Seq<char>>,
    pub commands: Seq<CommandView>,
}

impl View for Command {
    type V = CommandView;

    open spec fn view(&self) -> CommandView {
        CommandView { kind: self.kind, name: self.name@, project: self.project@ }
    }
}

impl View for Config {
    type V = ConfigView;

    open spec fn view(&self) -> ConfigView {
        ConfigView {
            token: match self.token {
                Some(t) => Some(t@),
                None => None,
            },
            commands: self.commands@.map_values(|c: Command| c@),
        }
    }
}

/// The variable that holds the access token.
pub open spec fn token_key() -> Seq<char> {
    "GITLAB_TOKEN"@
}

/// The prefix of the variables that define a search for issues.
pub open spec fn issues_prefix() -> Seq<char> {
    "GITLAB_ISSUES_"@
}

/// The prefix of the variables that define a search for merge requests.
pub open spec fn merge_requests_prefix() -> Seq<char> {
    "GITLAB_MERGE_REQUESTS_"@
}

/// The name of a command, from what follows the prefix in the name of its
/// variable: in lower case, with `-` for `_`.
pub open spec fn command_name(rest: Seq<char>) -> Seq<char> {
    replaced(lowercase(rest), '_', '-')
}

/// The configuration `config` after the variable `key` with the value
/// `value` was read. A variable with an empty value says nothing. A later
/// token replaces an earlier one; every other variable with one of the two
/// prefixes adds a command.
pub open spec fn with_var(config: ConfigView, key: Seq<char>, value: Seq<char>) -> ConfigView {
    if value.len() == 0 {
        config
    } else if key == token_key() {
        ConfigView { token: Some(value), commands: config.commands }
    } else if issues_prefix().is_prefix_of(key) {
        ConfigView {
            token: config.token,
            commands: config.commands.push(
                CommandView {
                    kind: Kind::Issues,
                    name: command_name(key.skip(issues_prefix().len() as int)),
                    project: value,
                },
            ),
        }
    } else if merge_requests_prefix().is_prefix_of(key) {
        ConfigView {
            token: config.token,
            commands: config.commands.push(
                CommandView {
                    kind: Kind::MergeRequests,
                    name: command_name(key.skip(merge_requests_prefix().len() as int)),
                    project: value,
                },
            ),
        }
    } else {
        config
    }
}

/// The configuration that the variables `vars` give, read in order.
pub open spec fn from_vars(vars: Seq<(Seq<char>, Seq<char>)>) -> ConfigView
    decreases vars.len(),
{
    if vars.len() == 0 {
        ConfigView { token: None, commands: seq![] }
    } else {
        with_var(from_vars(vars.drop_last()), vars.last().0, vars.last().1)
    }
}

/// The variables of `vars`, with their texts as sequences of characters.
pub open spec fn var_views(vars: Seq<(String, String)>) -> Seq<(Seq<char>, Seq<char>)> {
    vars.map_values(|v: (String, String)| (v.0@, v.1@))
}

impl Config {
    /// Reads the configuration from the variables of the environment, given
    /// as pairs of name and value in the order in which the environment
    /// lists them.
    pub fn load(vars: &Vec<(String, String)>) -> (config: Config)
        ensures
            config@ == from_vars(var_views(vars@)),
    {
        let token = chars("GITLAB_TOKEN");
        let issues = chars("GITLAB_ISSUES_");
        let merge_requests = chars("GITLAB_MERGE_REQUESTS_");
        let mut config = Config { token: None, commands: Vec::new() };
        let mut i: usize = 0;
        assert(config@.commands =~= Seq::<CommandView>::empty());
        while i < vars.len()
            invariant
                i <= vars.len(),
                token@ == token_key(),
                issues@ == issues_prefix(),
                merge_requests@ == merge_requests_prefix(),
                config@ == from_vars(var_views(vars@).take(i as int)),
            decreases vars.len() - i,
        {
            let ghost before = config@;
            let ghost read = var_views(vars@).take(i as int + 1);
            proof {
                assert(read.drop_last() =~= var_views(vars@).take(i as int));
            }
            let key = chars(vars[i].0.as_str());
            let value = vars[i].1.clone();
            if !value.as_str().is_empty() {
                if same(&key, &token) {
                    config.token = Some(value);
                } else if let Some(rest) = strip_prefix(&key, &issues) {
                    let name = command_name_of(&rest);
                    config.commands.push(Command { kind: Kind::Issues, name, project: value });
                    assert(config@.commands =~= before.commands.push(
                        CommandView { kind: Kind::Issues, name: name@, project: value@ },
                    ));
                } else if let Some(rest) = strip_prefix(&key, &merge_requests) {
                    let name = command_name_of(&rest);
                    config.commands.push(
                        Command { kind: Kind::MergeRequests, name, project: value },
                    );
                    assert(config@.commands =~= before.commands.push(
                        CommandView { kind: Kind::MergeRequests, name: name@, project: value@ },
                    ));
                }
            }
            i += 1;
        }
        assert(var_views(vars@).take(i as int) =~= var_views(vars@));
        config
    }
}

/// The name of the command from what follows the prefix in the name of its
/// variable.
fn command_name_of(rest: &Vec<char>) -> (name: String)
    ensures
        name@ == command_name(rest@),
{
    let lower = chars(to_lowercase(text(rest).as_str()).as_str());
    text(&replace(&lower, '_', '-'))
}

} // verus!
