//! The things that a search finds, how a query selects among them, and the
//! row that each of them becomes.

use crate::human::{ago, ago_text, owned};
use crate::text::{
    chars, contains, joined, lowercase, occurs_in, split_whitespace, str_view, strip_first,
    to_lowercase, views, words,
};
use crate::time::Timestamp;
use vstd::prelude::*;
use vstd::string::StringExecFns;

verus! {

/// A user of GitLab.
#[derive(Debug, Clone, PartialEq, Eq)]
pub struct User {
    pub name: String,
    pub username: String,
}

/// An open issue.
#[derive(Debug, Clone, PartialEq, Eq)]
pub struct Issue {
    pub title: String,
    pub author: User,
    pub assignees: Vec<User>,
    pub url: String,
    pub created_at: Timestamp,
    pub labels: Vec<String>,
}

/// An open merge request.
#[derive(Debug, Clone, PartialEq, Eq)]
pub struct MergeRequest {
    pub title: String,
    pub author: User,
    pub url: String,
    pub created_at: Timestamp,
    pub labels: Vec<String>,
}

/// An issue, with its texts as sequences of characters.
pub struct IssueView {
    pub title: Seq<char>,
    pub author: User,
    pub assignees: Seq<User>,
    pub url: Seq<char>,
    pub created_at: Timestamp,
    pub labels: Seq<Seq<char>>,
}

/// A merge request, with its texts as sequences of characters.
pub struct MergeRequestView {
    pub title: Seq<char>,
    pub author: User,
    pub url: Seq<char>,
    pub created_at: Timestamp,
    pub labels: Seq<Seq<char>>,
}

impl View for Issue {
    type V = IssueView;

    open spec fn view(&self) -> IssueView {
        IssueView {
            title: self.title@,
            author: self.author,
            assignees: self.assignees@,
            url: self.url@,
            created_at: self.created_at,
            labels: self.labels@.map_values(|l: String| l@),
        }
    }
}

impl View for MergeRequest {
    type V = MergeRequestView;

    open spec fn view(&self) -> MergeRequestView {
        MergeRequestView {
            title: self.title@,
            author: self.author,
            url: self.url@,
            created_at: self.created_at,
            labels: self.labels@.map_values(|l: String| l@),
        }
    }
}

/// One row of the result list.
#[derive(Debug, Clone, PartialEq, Eq)]
pub struct Item {
    pub title: String,
    pub subtitle: Option<String>,
    pub arg: Option<String>,
    pub autocomplete: Option<String>,
}

/// A row, with its texts as sequences of characters.
pub struct ItemView {
    pub title: Seq<char>,
    pub subtitle: Option<Seq<char>>,
    pub arg: Option<Seq<char>>,
    pub autocomplete: Option<Seq<char>>,
}

/// The text in an optional `String`.
pub open spec fn opt_view(s: Option<String>) -> Option<Seq<char>> {
    match s {
        Some(s) => Some(s@),
        None => None,
    }
}

impl View for Item {
    type V = ItemView;

    open spec fn view(&self) -> ItemView {
        ItemView {
            title: self.title@,
            subtitle: opt_view(self.subtitle),
            arg: opt_view(self.arg),
            autocomplete: opt_view(self.autocomplete),
        }
    }
}

/// Some label, in lower case, holds `query`.
pub open spec fn label_matches(labels: Seq<String>, query: Seq<char>) -> bool {
    exists|i: int| 0 <= i < labels.len() && occurs_in(query, lowercase(#[trigger] labels[i]@))
}

/// Some user of `users` matches `query`.
pub open spec fn any_matches(users: Seq<User>, query: Seq<char>) -> bool {
    exists|i: int| 0 <= i < users.len() && (#[trigger] users[i]).is_match(query)
}

/// The names of `users`, in order.
pub open spec fn names(users: Seq<User>) -> Seq<Seq<char>> {
    users.map_values(|u: User| u.name@)
}

/// What a row hands on when it is chosen: the address and the title, with a
/// semicolon between them.
pub open spec fn arg_of(url: Seq<char>, title: Seq<char>) -> Seq<char> {
    url + ";"@ + title
}

/// The whole seconds from `then` to `now`.
pub open spec fn age_secs(then: Timestamp, now: Timestamp) -> u64 {
    match now.elapsed_since(then) {
        Some(span) => span.secs(),
        None => 0,
    }
}

impl User {
    /// A user matches a text that stands in the name or in the username, both
    /// taken in lower case.
    pub open spec fn is_match(self, query: Seq<char>) -> bool {
        occurs_in(query, lowercase(self.name@)) || occurs_in(query, lowercase(self.username@))
    }

    /// Whether the user matches `query`.
    pub fn matches(&self, query: &str) -> (b: bool)
        ensures
            b == self.is_match(query@),
    {
        self.matches_chars(&chars(query))
    }

    /// Whether the user matches the characters `query`.
    pub fn matches_chars(&self, query: &Vec<char>) -> (b: bool)
        ensures
            b == self.is_match(query@),
    {
        lower_contains(&self.name, query) || lower_contains(&self.username, query)
    }
}

/// Whether `text`, in lower case, holds `query`.
pub fn lower_contains(text: &String, query: &Vec<char>) -> (b: bool)
    ensures
        b == occurs_in(query@, lowercase(text@)),
{
    let lower = to_lowercase(text.as_str());
    contains(&chars(lower.as_str()), query)
}

/// Whether some label, in lower case, holds `query`.
pub fn any_label_matches(labels: &Vec<String>, query: &Vec<char>) -> (b: bool)
    ensures
        b == label_matches(labels@, query@),
{
    let mut i: usize = 0;
    while i < labels.len()
        invariant
            i <= labels.len(),
            forall|j: int| 0 <= j < i ==> !occurs_in(query@, lowercase(#[trigger] labels@[j]@)),
        decreases labels.len() - i,
    {
        if lower_contains(&labels[i], query) {
            return true;
        }
        i += 1;
    }
    false
}

/// Whether some user of `users` matches `query`.
pub fn any_user_matches(users: &Vec<User>, query: &Vec<char>) -> (b: bool)
    ensures
        b == any_matches(users@, query@),
{
    let mut i: usize = 0;
    while i < users.len()
        invariant
            i <= users.len(),
            forall|j: int| 0 <= j < i ==> !(#[trigger] users@[j]).is_match(query@),
        decreases users.len() - i,
    {
        if users[i].matches_chars(query) {
            return true;
        }
        i += 1;
    }
    false
}

impl Issue {
    /// Whether the issue meets one word of a query. A word that begins with
    /// `~` asks for a label, one that begins with `@` for the author or an
    /// assignee, any other for the title.
    pub open spec fn meets(self, word: Seq<char>) -> bool {
        if word.len() > 0 && word[0] == '~' {
            label_matches(self.labels@, word.skip(1))
        } else if word.len() > 0 && word[0] == '@' {
            self.author.is_match(word.skip(1)) || any_matches(self.assignees@, word.skip(1))
        } else {
            occurs_in(word, lowercase(self.title@))
        }
    }

    /// An issue matches a query when it meets every word of it.
    pub open spec fn is_match(self, query: Seq<char>) -> bool {
        self.meets_all(words(query))
    }

    /// Whether the issue belongs to `user`: as an assignee, and as the author.
    /// With no user, neither.
    pub open spec fn is_ours(self, user: Option<Seq<char>>) -> (bool, bool) {
        match user {
            Some(u) => (any_matches(self.assignees@, u), self.author.is_match(u)),
            None => (false, false),
        }
    }

    /// The line under the title of the row: the age, and the assignees, or
    /// the author where nobody is assigned.
    pub open spec fn subtitle(self, now: Timestamp) -> Seq<char> {
        if self.assignees@.len() == 0 {
            ago(age_secs(self.created_at, now)) + ", authored by "@ + self.author.name@
        } else {
            ago(age_secs(self.created_at, now)) + ", assigned to "@ + joined(
                names(self.assignees@),
                ", "@,
            )
        }
    }

    /// The row of the issue at the time `now`.
    pub open spec fn item(self, now: Timestamp) -> ItemView {
        ItemView {
            title: self.title@,
            subtitle: Some(self.subtitle(now)),
            arg: Some(arg_of(self.url@, self.title@)),
            autocomplete: None,
        }
    }

    /// Whether the issue meets the word `word` of a query.
    pub fn meets_word(&self, word: &Vec<char>) -> (b: bool)
        ensures
            b == self.meets(word@),
    {
        match strip_first(word, '~') {
            Some(rest) => any_label_matches(&self.labels, &rest),
            None => match strip_first(word, '@') {
                Some(rest) => self.author.matches_chars(&rest) || any_user_matches(
                    &self.assignees,
                    &rest,
                ),
                None => lower_contains(&self.title, word),
            },
        }
    }

    /// The issue meets every word of `found`.
    pub open spec fn meets_all(self, found: Seq<Seq<char>>) -> bool {
        forall|i: int| 0 <= i < found.len() ==> self.meets(#[trigger] found[i])
    }

    /// Whether the issue meets every word of `found`.
    pub fn matches_words(&self, found: &Vec<Vec<char>>) -> (b: bool)
        ensures
            b == self.meets_all(views(found@)),
    {
        let mut i: usize = 0;
        while i < found.len()
            invariant
                i <= found.len(),
                forall|j: int| 0 <= j < i ==> self.meets(#[trigger] views(found@)[j]),
            decreases found.len() - i,
        {
            assert(views(found@)[i as int] == found@[i as int]@);
            if !self.meets_word(&found[i]) {
                return false;
            }
            i += 1;
        }
        true
    }

    /// Whether the issue matches `query`.
    pub fn matches(&self, query: &str) -> (b: bool)
        ensures
            b == self.is_match(query@),
    {
        self.matches_words(&split_whitespace(&chars(query)))
    }

    /// Whether the issue is assigned to `user`, and whether `user` wrote it.
    /// Issues are listed in the falling order of this pair.
    pub fn ours_first(&self, user: Option<&str>) -> (ours: (bool, bool))
        ensures
            ours == self.is_ours(str_view(user)),
    {
        match user {
            Some(u) => {
                let u = chars(u);
                (any_user_matches(&self.assignees, &u), self.author.matches_chars(&u))
            },
            None => (false, false),
        }
    }

    /// The row for the issue at the time `now`, which is not before the
    /// issue was created.
    pub fn into_item(self, now: Timestamp) -> (item: Item)
        requires
            self.created_at.at() <= now.at(),
        ensures
            item@ == self.item(now),
    {
        self.row(now)
    }

    /// The row for the issue at the time `now`, leaving the issue in place.
    pub fn row(&self, now: Timestamp) -> (item: Item)
        requires
            self.created_at.at() <= now.at(),
        ensures
            item@ == self.item(now),
    {
        let age = match now.since(&self.created_at) {
            Some(span) => span.whole_secs(),
            None => 0,
        };
        let mut subtitle = owned(ago_text(age));
        if self.assignees.len() == 0 {
            subtitle.append(", authored by ");
            subtitle.append(self.author.name.as_str());
        } else {
            subtitle.append(", assigned to ");
            subtitle.append(join_names(&self.assignees).as_str());
        }
        let arg = make_arg(&self.url, &self.title);
        Item {
            title: self.title.clone(),
            subtitle: Some(subtitle),
            arg: Some(arg),
            autocomplete: None,
        }
    }
}

impl MergeRequest {
    /// Whether the merge request meets one word of a query. A word that
    /// begins with `~` asks for a label, one that begins with `@` for the
    /// author, any other for the title.
    pub open spec fn meets(self, word: Seq<char>) -> bool {
        if word.len() > 0 && word[0] == '~' {
            label_matches(self.labels@, word.skip(1))
        } else if word.len() > 0 && word[0] == '@' {
            self.author.is_match(word.skip(1))
        } else {
            occurs_in(word, lowercase(self.title@))
        }
    }

    /// A merge request matches a query when it meets every word of it.
    pub open spec fn is_match(self, query: Seq<char>) -> bool {
        self.meets_all(words(query))
    }

    /// Whether `user` wrote the merge request. With no user, not.
    pub open spec fn is_ours(self, user: Option<Seq<char>>) -> bool {
        match user {
            Some(u) => self.author.is_match(u),
            None => false,
        }
    }

    /// The line under the title of the row: the age and the author.
    pub open spec fn subtitle(self, now: Timestamp) -> Seq<char> {
        ago(age_secs(self.created_at, now)) + " by "@ + self.author.name@
    }

    /// The row of the merge request at the time `now`.
    pub open spec fn item(self, now: Timestamp) -> ItemView {
        ItemView {
            title: self.title@,
            subtitle: Some(self.subtitle(now)),
            arg: Some(arg_of(self.url@, self.title@)),
            autocomplete: None,
        }
    }

    /// Whether the merge request meets the word `word` of a query.
    pub fn meets_word(&self, word: &Vec<char>) -> (b: bool)
        ensures
            b == self.meets(word@),
    {
        match strip_first(word, '~') {
            Some(rest) => any_label_matches(&self.labels, &rest),
            None => match strip_first(word, '@') {
                Some(rest) => self.author.matches_chars(&rest),
                None => lower_contains(&self.title, word),
            },
        }
    }

    /// The merge request meets every word of `found`.
    pub open spec fn meets_all(self, found: Seq<Seq<char>>) -> bool {
        forall|i: int| 0 <= i < found.len() ==> self.meets(#[trigger] found[i])
    }

    /// Whether the merge request meets every word of `found`.
    pub fn matches_words(&self, found: &Vec<Vec<char>>) -> (b: bool)
        ensures
            b == self.meets_all(views(found@)),
    {
        let mut i: usize = 0;
        while i < found.len()
            invariant
                i <= found.len(),
                forall|j: int| 0 <= j < i ==> self.meets(#[trigger] views(found@)[j]),
            decreases found.len() - i,
        {
            assert(views(found@)[i as int] == found@[i as int]@);
            if !self.meets_word(&found[i]) {
                return false;
            }
            i += 1;
        }
        true
    }

    /// Whether the merge request matches `query`.
    pub fn matches(&self, query: &str) -> (b: bool)
        ensures
            b == self.is_match(query@),
    {
        self.matches_words(&split_whitespace(&chars(query)))
    }

    /// Whether `user` wrote the merge request. Merge requests are listed with
    /// one's own first.
    pub fn ours_first(&self, user: Option<&str>) -> (ours: bool)
        ensures
            ours == self.is_ours(str_view(user)),
    {
        match user {
            Some(u) => self.author.matches_chars(&chars(u)),
            None => false,
        }
    }

    /// The row for the merge request at the time `now`, which is not before
    /// the merge request was created.
    pub fn into_item(self, now: Timestamp) -> (item: Item)
        requires
            self.created_at.at() <= now.at(),
        ensures
            item@ == self.item(now),
    {
        self.row(now)
    }

    /// The row for the merge request at the time `now`, leaving the merge
    /// request in place.
    pub fn row(&self, now: Timestamp) -> (item: Item)
        requires
            self.created_at.at() <= now.at(),
        ensures
            item@ == self.item(now),
    {
        let age = match now.since(&self.created_at) {
            Some(span) => span.whole_secs(),
            None => 0,
        };
        let mut subtitle = owned(ago_text(age));
        subtitle.append(" by ");
        subtitle.append(self.author.name.as_str());
        let arg = make_arg(&self.url, &self.title);
        Item {
            title: self.title.clone(),
            subtitle: Some(subtitle),
            arg: Some(arg),
            autocomplete: None,
        }
    }
}

/// The address and the title with a semicolon between them.
fn make_arg(url: &String, title: &String) -> (arg: String)
    ensures
        arg@ == arg_of(url@, title@),
{
    let mut arg = url.clone();
    arg.append(";");
    arg.append(title.as_str());
    arg
}

/// The names of `users`, with a comma and a blank between each two.
fn join_names(users: &Vec<User>) -> (text: String)
    ensures
        text@ == joined(names(users@), ", "@),
{
    let mut text = String::new();
    let mut i: usize = 0;
    while i < users.len()
        invariant
            i <= users.len(),
            text@ == joined(names(users@).take(i as int), ", "@),
        decreases users.len() - i,
    {
        let ghost before = names(users@).take(i as int);
        let ghost after = names(users@).take(i as int + 1);
        proof {
            assert(after.drop_last() =~= before);
        }
        if i > 0 {
            text.append(", ");
        }
        text.append(users[i].name.as_str());
        i += 1;
    }
    assert(names(users@).take(i as int) =~= names(users@));
    text
}

} // verus!
