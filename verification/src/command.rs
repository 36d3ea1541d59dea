//! What a command shows: itself in the list of commands, and the rows of what
//! it found.

use crate::config::{Command, Config, Kind};
use crate::items::{Issue, Item, ItemView, MergeRequest};
use crate::text::{
    before_last, chars, cut, keep_before_last, lowercase, same, split_once, starts_with,
    str_view, strip_first, text, to_lowercase, trim, trim_end_matches, trimmed, without_trailing,
};
use crate::time::Timestamp;
use vstd::prelude::*;
use vstd::string::StringExecFns;

verus! {

/// What a command found, to be turned into rows.
#[derive(Debug, Clone, PartialEq, Eq)]
pub enum Found {
    Issues(Vec<Issue>),
    MergeRequests(Vec<MergeRequest>),
}

/// What the tool does for one call.
#[derive(Debug, Clone, PartialEq, Eq)]
pub enum Plan {
    /// Show these rows: commands to choose from.
    List(Vec<Item>),
    /// Run the command at the index `command` of the configuration with the
    /// query `query`.
    Run { command: usize, query: String },
}

/// The views of the rows in `items`.
pub open spec fn item_views(items: Seq<Item>) -> Seq<ItemView> {
    items.map_values(|i: Item| i@)
}

/// The place of a pair of answers in the falling order of such pairs: the
/// pair of two yeses comes first, the pair of two noes last.
pub open spec fn rank(ours: (bool, bool)) -> int {
    if ours.0 && ours.1 {
        0
    } else if ours.0 {
        1
    } else if ours.1 {
        2
    } else {
        3
    }
}

/// The row that offers to create an issue in `project`.
pub open spec fn new_row(project: Seq<char>) -> ItemView {
    ItemView {
        title: "/new"@,
        subtitle: Some("Create a new issue in "@ + project),
        arg: Some("https://gitlab.com/"@ + project + "/issues/new"@),
        autocomplete: None,
    }
}

/// The group of `project`: its path without slashes at the end and without
/// its last part. A path of one part is its own group.
pub open spec fn group_of(project: Seq<char>) -> Seq<char> {
    before_last(without_trailing(project, '/'), '/')
}

/// The row that offers the issue boards of the group of `project`.
pub open spec fn boards_row(project: Seq<char>) -> ItemView {
    ItemView {
        title: "/boards"@,
        subtitle: Some("Open the issue boards for "@ + project),
        arg: Some("https://gitlab.com/groups/"@ + group_of(project) + "/-/boards"@),
        autocomplete: None,
    }
}

/// The row that offers the list of issues of `project`.
pub open spec fn list_row(project: Seq<char>) -> ItemView {
    ItemView {
        title: "/list"@,
        subtitle: Some("Open the issue list for "@ + project),
        arg: Some("https://gitlab.com/"@ + project + "/-/issues"@),
        autocomplete: None,
    }
}

/// The extra rows of a search for issues. A query that begins with a slash
/// offers each of `new`, `boards` and `list` that begins with what follows
/// the slash, in this order.
pub open spec fn extra_rows(project: Seq<char>, query: Seq<char>) -> Seq<ItemView> {
    if query.len() > 0 && query[0] == '/' {
        let asked = query.skip(1);
        (if asked.is_prefix_of("new"@) {
            seq![new_row(project)]
        } else {
            seq![]
        }) + (if asked.is_prefix_of("boards"@) {
            seq![boards_row(project)]
        } else {
            seq![]
        }) + (if asked.is_prefix_of("list"@) {
            seq![list_row(project)]
        } else {
            seq![]
        })
    } else {
        seq![]
    }
}

/// The rows of those of `issues` that match `query` and stand at the place
/// `place` of the order, in the order in which they were found.
pub open spec fn issue_rows_at(
    issues: Seq<Issue>,
    query: Seq<char>,
    now: Timestamp,
    user: Option<Seq<char>>,
    place: int,
) -> Seq<ItemView>
    decreases issues.len(),
{
    if issues.len() == 0 {
        seq![]
    } else {
        let before = issue_rows_at(issues.drop_last(), query, now, user, place);
        let issue = issues.last();
        if rank(issue.is_ours(user)) == place && issue.is_match(query) {
            before.push(issue.item(now))
        } else {
            before
        }
    }
}

/// The rows of the issues that match `query`: those assigned to `user` and
/// written by them first, then those assigned to them, then those written by
/// them, then the others; within each group in the order in which they were
/// found.
pub open spec fn issue_rows(
    issues: Seq<Issue>,
    query: Seq<char>,
    now: Timestamp,
    user: Option<Seq<char>>,
) -> Seq<ItemView> {
    issue_rows_at(issues, query, now, user, 0) + issue_rows_at(issues, query, now, user, 1)
        + issue_rows_at(issues, query, now, user, 2) + issue_rows_at(issues, query, now, user, 3)
}

/// The rows of those of `found` that match `query` and that `user` wrote
/// (`ours`) or did not write, in the order in which they were found.
pub open spec fn merge_request_rows_at(
    found: Seq<MergeRequest>,
    query: Seq<char>,
    now: Timestamp,
    user: Option<Seq<char>>,
    ours: bool,
) -> Seq<ItemView>
    decreases found.len(),
{
    if found.len() == 0 {
        seq![]
    } else {
        let before = merge_request_rows_at(found.drop_last(), query, now, user, ours);
        let request = found.last();
        if request.is_ours(user) == ours && request.is_match(query) {
            before.push(request.item(now))
        } else {
            before
        }
    }
}

/// The rows of the merge requests that match `query`: those that `user` wrote
/// first, then the others; within each group in the order in which they were
/// found.
pub open spec fn merge_request_rows(
    found: Seq<MergeRequest>,
    query: Seq<char>,
    now: Timestamp,
    user: Option<Seq<char>>,
) -> Seq<ItemView> {
    merge_request_rows_at(found, query, now, user, true) + merge_request_rows_at(
        found,
        query,
        now,
        user,
        false,
    )
}

/// Nothing of `found` that matches `query` was created after `now`.
pub open spec fn all_created_by(found: Found, query: Seq<char>, now: Timestamp) -> bool {
    match found {
        Found::Issues(issues) => forall|i: int|
            0 <= i < issues@.len() && (#[trigger] issues@[i]).is_match(query)
                ==> issues@[i].created_at.at() <= now.at(),
        Found::MergeRequests(requests) => forall|i: int|
            0 <= i < requests@.len() && (#[trigger] requests@[i]).is_match(query)
                ==> requests@[i].created_at.at() <= now.at(),
    }
}

/// The rows for what was found.
pub open spec fn rows(
    project: Seq<char>,
    query: Seq<char>,
    found: Found,
    now: Timestamp,
    user: Option<Seq<char>>,
) -> Seq<ItemView> {
    match found {
        Found::Issues(issues) => extra_rows(project, query) + issue_rows(issues@, query, now, user),
        Found::MergeRequests(requests) => merge_request_rows(requests@, query, now, user),
    }
}

/// The place of the first command of `commands` with the name `name`.
pub open spec fn first_named(commands: Seq<Command>, name: Seq<char>) -> Option<int>
    decreases commands.len(),
{
    if commands.len() == 0 {
        None
    } else {
        match first_named(commands.drop_last(), name) {
            Some(i) => Some(i),
            None => if commands.last().name@ == name {
                Some(commands.len() - 1)
            } else {
                None
            },
        }
    }
}

/// The rows of the commands of `commands` whose name begins with `start`.
pub open spec fn command_rows(commands: Seq<Command>, start: Seq<char>) -> Seq<ItemView>
    decreases commands.len(),
{
    if commands.len() == 0 {
        seq![]
    } else {
        let before = command_rows(commands.drop_last(), start);
        if start.is_prefix_of(commands.last().name@) {
            before.push(commands.last().row())
        } else {
            before
        }
    }
}

/// The argument of a call as the tool takes it: without white space at its
/// ends and in lower case.
pub open spec fn normal(arg: Seq<char>) -> Seq<char> {
    lowercase(trimmed(arg))
}

impl Command {
    /// The row that offers the command.
    pub open spec fn row(self) -> ItemView {
        ItemView {
            title: self.name@,
            subtitle: Some(
                match self.kind {
                    Kind::Issues => "Search issues in "@ + self.project@,
                    Kind::MergeRequests => "Search merge requests in "@ + self.project@,
                },
            ),
            arg: Some("https://gitlab.com/"@ + self.project@ + ";"@ + self.name@),
            autocomplete: Some(self.name@ + " "@),
        }
    }

    /// The row that offers the command in the list of commands.
    pub fn to_item(&self) -> (item: Item)
        ensures
            item@ == self.row(),
    {
        let subtitle = match self.kind {
            Kind::Issues => concat("Search issues in ", self.project.as_str()),
            Kind::MergeRequests => concat("Search merge requests in ", self.project.as_str()),
        };
        let mut arg = concat3("https://gitlab.com/", self.project.as_str(), ";");
        arg.append(self.name.as_str());
        Item {
            title: self.name.clone(),
            subtitle: Some(subtitle),
            arg: Some(arg),
            autocomplete: Some(concat(self.name.as_str(), " ")),
        }
    }

    /// The rows for what the command found with `query` at the time `now`,
    /// for the user `user`. The caller fetches what the kind of the command
    /// names; nothing of it that matches the query was created after `now`.
    pub fn exec(&self, query: &str, found: &Found, now: Timestamp, user: Option<&str>) -> (items:
        Vec<Item>)
        requires
            all_created_by(*found, query@, now),
        ensures
            item_views(items@) == rows(self.project@, query@, *found, now, str_view(user)),
    {
        match found {
            Found::Issues(issues) => {
                let mut items = extras(self.project.as_str(), query);
                push_issue_rows(&mut items, issues, query, now, user, 0);
                push_issue_rows(&mut items, issues, query, now, user, 1);
                push_issue_rows(&mut items, issues, query, now, user, 2);
                push_issue_rows(&mut items, issues, query, now, user, 3);
                items
            },
            Found::MergeRequests(requests) => {
                let mut items: Vec<Item> = Vec::new();
                push_merge_request_rows(&mut items, requests, query, now, user, true);
                push_merge_request_rows(&mut items, requests, query, now, user, false);
                items
            },
        }
    }
}

/// Appends the rows of the issues at the place `place` that match `query`.
fn push_issue_rows(
    items: &mut Vec<Item>,
    issues: &Vec<Issue>,
    query: &str,
    now: Timestamp,
    user: Option<&str>,
    place: u8,
)
    requires
        forall|i: int|
            0 <= i < issues@.len() && (#[trigger] issues@[i]).is_match(query@)
                ==> issues@[i].created_at.at() <= now.at(),
    ensures
        item_views(final(items)@) == item_views(old(items)@) + issue_rows_at(
            issues@,
            query@,
            now,
            str_view(user),
            place as int,
        ),
{
    let ghost start = item_views(items@);
    let mut i: usize = 0;
    while i < issues.len()
        invariant
            i <= issues.len(),
            forall|k: int|
                0 <= k < issues@.len() && (#[trigger] issues@[k]).is_match(query@)
                    ==> issues@[k].created_at.at() <= now.at(),
            item_views(items@) == start + issue_rows_at(
                issues@.take(i as int),
                query@,
                now,
                str_view(user),
                place as int,
            ),
        decreases issues.len() - i,
    {
        let issue = &issues[i];
        proof {
            let seen = issues@.take(i as int + 1);
            assert(seen.drop_last() =~= issues@.take(i as int));
        }
        let ours = issue.ours_first(user);
        let at: u8 = if ours.0 && ours.1 {
            0
        } else if ours.0 {
            1
        } else if ours.1 {
            2
        } else {
            3
        };
        if at == place && issue.matches(query) {
            let ghost before = item_views(items@);
            let item = issue.row(now);
            items.push(item);
            assert(item_views(items@) =~= before.push(item@));
        }
        i += 1;
    }
    assert(issues@.take(i as int) =~= issues@);
}

/// Appends the rows of the merge requests that match `query` and that `user`
/// wrote (`ours`) or did not write.
fn push_merge_request_rows(
    items: &mut Vec<Item>,
    found: &Vec<MergeRequest>,
    query: &str,
    now: Timestamp,
    user: Option<&str>,
    ours: bool,
)
    requires
        forall|i: int|
            0 <= i < found@.len() && (#[trigger] found@[i]).is_match(query@)
                ==> found@[i].created_at.at() <= now.at(),
    ensures
        item_views(final(items)@) == item_views(old(items)@) + merge_request_rows_at(
            found@,
            query@,
            now,
            str_view(user),
            ours,
        ),
{
    let ghost start = item_views(items@);
    let mut i: usize = 0;
    while i < found.len()
        invariant
            i <= found.len(),
            forall|k: int|
                0 <= k < found@.len() && (#[trigger] found@[k]).is_match(query@)
                    ==> found@[k].created_at.at() <= now.at(),
            item_views(items@) == start + merge_request_rows_at(
                found@.take(i as int),
                query@,
                now,
                str_view(user),
                ours,
            ),
        decreases found.len() - i,
    {
        let request = &found[i];
        proof {
            let seen = found@.take(i as int + 1);
            assert(seen.drop_last() =~= found@.take(i as int));
        }
        if request.ours_first(user) == ours && request.matches(query) {
            let ghost before = item_views(items@);
            let item = request.row(now);
            items.push(item);
            assert(item_views(items@) =~= before.push(item@));
        }
        i += 1;
    }
    assert(found@.take(i as int) =~= found@);
}

/// A row with a title, a line under it and what it hands on.
fn plain_item(title: &str, subtitle: String, arg: String) -> (item: Item)
    ensures
        item@ == (ItemView {
            title: title@,
            subtitle: Some(subtitle@),
            arg: Some(arg@),
            autocomplete: None,
        }),
{
    Item {
        title: String::from_str(title),
        subtitle: Some(subtitle),
        arg: Some(arg),
        autocomplete: None,
    }
}

/// `a` and `b`, one after the other.
fn concat(a: &str, b: &str) -> (s: String)
    ensures
        s@ == a@ + b@,
{
    let mut s = String::from_str(a);
    s.append(b);
    s
}

/// `a`, `b` and `c`, one after another.
fn concat3(a: &str, b: &str, c: &str) -> (s: String)
    ensures
        s@ == a@ + b@ + c@,
{
    let mut s = concat(a, b);
    s.append(c);
    s
}

/// The row that offers to create an issue in `project`.
pub fn new_item(project: &str) -> (item: Item)
    ensures
        item@ == new_row(project@),
{
    plain_item(
        "/new",
        concat("Create a new issue in ", project),
        concat3("https://gitlab.com/", project, "/issues/new"),
    )
}

/// The row that offers the issue boards of the group of `project`.
pub fn boards_item(project: &str) -> (item: Item)
    ensures
        item@ == boards_row(project@),
{
    let path = trim_end_matches(&chars(project), '/');
    let group = text(&keep_before_last(&path, '/'));
    plain_item(
        "/boards",
        concat("Open the issue boards for ", project),
        concat3("https://gitlab.com/groups/", group.as_str(), "/-/boards"),
    )
}

/// The row that offers the list of issues of `project`.
pub fn list_item(project: &str) -> (item: Item)
    ensures
        item@ == list_row(project@),
{
    plain_item(
        "/list",
        concat("Open the issue list for ", project),
        concat3("https://gitlab.com/", project, "/-/issues"),
    )
}

/// The extra rows that a search for issues in `project` offers for `query`.
pub fn extras(project: &str, query: &str) -> (items: Vec<Item>)
    ensures
        item_views(items@) == extra_rows(project@, query@),
{
    let mut items: Vec<Item> = Vec::new();
    match strip_first(&chars(query), '/') {
        Some(asked) => {
            if starts_with(&chars("new"), &asked) {
                items.push(new_item(project));
            }
            if starts_with(&chars("boards"), &asked) {
                items.push(boards_item(project));
            }
            if starts_with(&chars("list"), &asked) {
                items.push(list_item(project));
            }
        },
        None => {},
    }
    items
}

/// What the plan shows or runs for a command name and a query: the first
/// command of that name is run with the query; where there is none, the
/// commands whose name begins with the name are listed.
pub open spec fn dispatched(config: Config, name: Seq<char>, query: Seq<char>) -> (
    Option<Seq<ItemView>>,
    Option<(int, Seq<char>)>,
) {
    match first_named(config.commands@, name) {
        Some(i) => (None, Some((i, query))),
        None => (Some(command_rows(config.commands@, name)), None),
    }
}

/// What the plan shows or runs, with its texts as sequences of characters.
/// Without an argument every command is listed. With one, the argument is
/// taken without white space at its ends and in lower case; the text up to
/// its first white space names a command and the rest is the query.
pub open spec fn planned(config: Config, arg: Option<Seq<char>>) -> (Option<Seq<ItemView>>, Option<
    (int, Seq<char>),
>) {
    match arg {
        None => (Some(command_rows(config.commands@, seq![])), None),
        Some(arg) => dispatched(config, cut(normal(arg)).0, cut(normal(arg)).1),
    }
}

/// What `p` shows or runs, with its texts as sequences of characters.
pub open spec fn plan_view(p: Plan) -> (Option<Seq<ItemView>>, Option<(int, Seq<char>)>) {
    match p {
        Plan::List(items) => (Some(item_views(items@)), None),
        Plan::Run { command, query } => (None, Some((command as int, query@))),
    }
}

/// Decides what to do for the command name `name` and the query `query`: the
/// first command of that name is run; where there is none, the commands
/// whose name begins with `name` are listed.
pub fn dispatch(config: &Config, name: &Vec<char>, query: &Vec<char>) -> (p: Plan)
    ensures
        plan_view(p) == dispatched(*config, name@, query@),
        p matches Plan::Run { command, .. } ==> command < config.commands@.len(),
{
    match find_command(&config.commands, name) {
        Some(command) => Plan::Run { command, query: text(query) },
        None => Plan::List(list_commands(&config.commands, name)),
    }
}

/// Decides what a call with the argument `arg` does. Without an argument it
/// lists every command. With one, the text up to the first white space names
/// a command and the rest is the query: the first command of that name is
/// run; where there is none, the commands whose name begins with the text
/// are listed.
pub fn plan(config: &Config, arg: Option<&str>) -> (p: Plan)
    ensures
        plan_view(p) == planned(*config, str_view(arg)),
        p matches Plan::Run { command, .. } ==> command < config.commands@.len(),
{
    match arg {
        None => Plan::List(list_commands(&config.commands, &Vec::new())),
        Some(arg) => {
            let trimmed = text(&trim(&chars(arg)));
            let lower = chars(to_lowercase(trimmed.as_str()).as_str());
            let (name, query) = split_once(&lower);
            dispatch(config, &name, &query)
        },
    }
}

/// The place of the first command with the name `name`.
fn find_command(commands: &Vec<Command>, name: &Vec<char>) -> (found: Option<usize>)
    ensures
        match found {
            Some(i) => first_named(commands@, name@) == Some(i as int) && i < commands@.len(),
            None => first_named(commands@, name@) is None,
        },
{
    let mut i: usize = 0;
    while i < commands.len()
        invariant
            i <= commands.len(),
            first_named(commands@.take(i as int), name@) is None,
        decreases commands.len() - i,
    {
        proof {
            let seen = commands@.take(i as int + 1);
            assert(seen.drop_last() =~= commands@.take(i as int));
        }
        if same(&chars(commands[i].name.as_str()), name) {
            proof {
                lemma_first_named_stays(commands@, name@, i as int + 1);
            }
            return Some(i);
        }
        i += 1;
    }
    assert(commands@.take(i as int) =~= commands@);
    None
}

/// A command found among the first `n` is the first of that name among all.
proof fn lemma_first_named_stays(commands: Seq<Command>, name: Seq<char>, n: int)
    requires
        0 <= n <= commands.len(),
        first_named(commands.take(n), name) is Some,
    ensures
        first_named(commands, name) == first_named(commands.take(n), name),
    decreases commands.len() - n,
{
    if n < commands.len() {
        let more = commands.take(n + 1);
        assert(more.drop_last() =~= commands.take(n));
        lemma_first_named_stays(commands, name, n + 1);
    } else {
        assert(commands.take(n) =~= commands);
    }
}

/// The rows of the commands whose name begins with `start`.
fn list_commands(commands: &Vec<Command>, start: &Vec<char>) -> (items: Vec<Item>)
    ensures
        item_views(items@) == command_rows(commands@, start@),
{
    let mut items: Vec<Item> = Vec::new();
    let mut i: usize = 0;
    while i < commands.len()
        invariant
            i <= commands.len(),
            item_views(items@) == command_rows(commands@.take(i as int), start@),
        decreases commands.len() - i,
    {
        proof {
            let seen = commands@.take(i as int + 1);
            assert(seen.drop_last() =~= commands@.take(i as int));
        }
        if starts_with(&chars(commands[i].name.as_str()), start) {
            items.push(commands[i].to_item());
        }
        i += 1;
    }
    assert(commands@.take(i as int) =~= commands@);
    items
}

} // verus!
