//! The two queries that the tool sends, what identifies each of them, how
//! their pages are gathered, and how the nodes of the responses become issues
//! and merge requests.

use crate::fingerprint::Fingerprint;
use crate::items::{Issue, IssueView, MergeRequest, MergeRequestView, User};
use crate::json::{
    array_in, array_items, list_at, lookup_list, lookup_text, lookup_texts, text_at, text_views,
    texts_at, LookupError,
};
use crate::time::Timestamp;
use vstd::prelude::*;
use vstd::string::StringSliceAdditionalSpecFns;

verus! {

/// The SHA-1 digest of `data`: 20 bytes.
pub uninterp spec fn sha1(data: Seq<u8>) -> Seq<u8>;

/// `sha1::Sha1::digest` (the `Digest` trait of the `sha1` crate): the SHA-1
/// digest of the whole of `data`, as 20 bytes. The contract only gives the
/// digest its name; hashing `data` in one piece or in several gives the same
/// digest.
#[verifier::external_body]
fn sha1_digest(data: &[u8]) -> (out: [u8; 20])
    ensures
        out@ == sha1(data@),
{
    <sha1::Sha1 as sha1::Digest>::digest(data).into()
}

/// A paged GraphQL query for the items of one project.
#[derive(Debug, Clone, Copy, PartialEq, Eq)]
pub struct Query<'a> {
    /// The name of the command, which is also the cache key.
    pub name: &'a str,
    /// The full path of the project.
    pub project: &'a str,
    /// The text of the query.
    pub query: &'a str,
    /// Where a response holds the paging information.
    pub page_info_ptr: &'a str,
    /// Where a response holds the items.
    pub nodes_ptr: &'a str,
}

impl<'a> Query<'a> {
    /// The bytes that identify the query: its name, its project and its text,
    /// one after another.
    pub open spec fn identity(self) -> Seq<u8> {
        self.name.spec_bytes() + self.project.spec_bytes() + self.query.spec_bytes()
    }

    /// The fingerprint of the query: the SHA-1 digest of its name, project
    /// and text. It changes when any of them changes, and with nothing else.
    pub fn checksum(&self) -> (f: Fingerprint)
        ensures
            f@ == sha1(self.identity()),
    {
        let mut data: Vec<u8> = Vec::new();
        append_bytes(&mut data, self.name.as_bytes());
        append_bytes(&mut data, self.project.as_bytes());
        append_bytes(&mut data, self.query.as_bytes());
        Fingerprint::new(sha1_digest(data.as_slice()))
    }
}

/// Appends the bytes of `more` to `data`.
fn append_bytes(data: &mut Vec<u8>, more: &[u8])
    ensures
        final(data)@ == old(data)@ + more@,
{
    let mut i: usize = 0;
    while i < more.len()
        invariant
            i <= more@.len(),
            data@ == old(data)@ + more@.take(i as int),
        decreases more@.len() - i,
    {
        data.push(more[i]);
        i += 1;
    }
}

/// The query for the open issues of a project, one page at a time.
pub const ISSUES_QUERY: &'static str = r#"
query($project: ID!, $after: String) {
    project(fullPath: $project) {
        issues(state: opened, after: $after) {
            nodes {
                title
                author {
                    name
                    username
                }
                assignees {
                    nodes {
                        name
                        username
                    }
                }
                createdAt
                webUrl
                labels {
                    nodes {
                        title
                    }
                }
            }
            pageInfo {
                endCursor
                hasNextPage
            }
        }
    }
}
"#;

/// The query for the open merge requests of a project, one page at a time.
pub const MERGE_REQUESTS_QUERY: &'static str = r#"
query($project: ID!, $after: String) {
    project(fullPath: $project) {
        mergeRequests(state: opened, after: $after) {
            nodes {
                title
                author {
                    name
                    username
                }
                createdAt
                webUrl
                labels {
                    nodes {
                        title
                    }
                }
            }
            pageInfo {
                endCursor
                hasNextPage
            }
        }
    }
}
"#;

/// The query for the open issues of `project`, cached under `name`.
pub fn issues_query<'a>(name: &'a str, project: &'a str) -> (q: Query<'a>)
    ensures
        q.name == name,
        q.project == project,
        q.query == ISSUES_QUERY,
        q.page_info_ptr@ == "/data/project/issues/pageInfo"@,
        q.nodes_ptr@ == "/data/project/issues/nodes"@,
{
    Query {
        name,
        project,
        query: ISSUES_QUERY,
        page_info_ptr: "/data/project/issues/pageInfo",
        nodes_ptr: "/data/project/issues/nodes",
    }
}

/// The query for the open merge requests of `project`, cached under `name`.
pub fn merge_requests_query<'a>(name: &'a str, project: &'a str) -> (q: Query<'a>)
    ensures
        q.name == name,
        q.project == project,
        q.query == MERGE_REQUESTS_QUERY,
        q.page_info_ptr@ == "/data/project/mergeRequests/pageInfo"@,
        q.nodes_ptr@ == "/data/project/mergeRequests/nodes"@,
{
    Query {
        name,
        project,
        query: MERGE_REQUESTS_QUERY,
        page_info_ptr: "/data/project/mergeRequests/pageInfo",
        nodes_ptr: "/data/project/mergeRequests/nodes",
    }
}

/// What a response says about the pages that follow it.
#[derive(Debug, Clone, PartialEq, Eq)]
pub struct PageInfo {
    /// Where the next page begins.
    pub cursor: String,
    /// Whether there is a next page.
    pub has_next: bool,
}

/// What to do after a page has arrived.
#[derive(Debug, PartialEq)]
pub enum PageAction {
    /// Fetch the page that begins after the cursor `after`.
    Fetch { after: String },
    /// All pages are here: these are the responses, first page first.
    Finish(Vec<serde_json::Value>),
}

/// The pages of one query, gathered one response at a time. The first page
/// is fetched with no cursor.
#[derive(Debug, PartialEq)]
pub struct Pager {
    pub pages: Vec<serde_json::Value>,
}

impl Pager {
    /// A pager that has seen no page yet.
    pub fn new() -> (p: Pager)
        ensures
            p.pages@ == Seq::<serde_json::Value>::empty(),
    {
        Pager { pages: Vec::new() }
    }

    /// Takes the response `page` with its paging information. The response is
    /// kept behind those that came before. Where it says that a page follows,
    /// that page is asked for, after the cursor that the response gave;
    /// where not, all the responses are handed out.
    pub fn step(self, page: serde_json::Value, info: PageInfo) -> (r: (Pager, PageAction))
        ensures
            info.has_next ==> r.0.pages@ == self.pages@.push(page) && r.1 == (PageAction::Fetch {
                after: info.cursor,
            }),
            !info.has_next ==> r.0.pages@ == Seq::<serde_json::Value>::empty() && (r.1
                matches PageAction::Finish(all) && all@ == self.pages@.push(page)),
    {
        let mut pages = self.pages;
        pages.push(page);
        if info.has_next {
            (Pager { pages }, PageAction::Fetch { after: info.cursor })
        } else {
            (Pager { pages: Vec::new() }, PageAction::Finish(pages))
        }
    }
}

/// The instant that a text names, read as `chrono` reads a date and time with
/// an offset (a relaxed RFC 3339); `None` where the text is none.
pub uninterp spec fn parsed_time(text: Seq<char>) -> Option<Timestamp>;

/// `str::parse::<chrono::DateTime<chrono::Utc>>`, with the instant taken as
/// `DateTime::timestamp` and `DateTime::timestamp_subsec_nanos` give it:
/// whole seconds since the Unix epoch and the nanoseconds after them. The
/// contract only gives the result its name.
#[verifier::external_body]
fn parse_time(text: &str) -> (t: Option<Timestamp>)
    ensures
        t == parsed_time(text@),
{
    match text.parse::<chrono::DateTime<chrono::Utc>>() {
        Ok(t) => Some(Timestamp { secs: t.timestamp(), nanos: t.timestamp_subsec_nanos() }),
        Err(_) => None,
    }
}

/// Why a node of a response is no issue or merge request. The parts of a
/// node are looked at in the order of the variants, and the first that fails
/// is told.
#[derive(Debug, Clone, Copy, PartialEq, Eq)]
pub enum ParseError {
    /// The title is missing or no text.
    Title(LookupError),
    /// The author is no user.
    Author,
    /// The time of creation is missing or no text.
    CreatedAt(LookupError),
    /// The time of creation is no date and time.
    Time,
    /// The address is missing or no text.
    Url(LookupError),
    /// The labels are missing, no list, or one of them has no title.
    Labels(LookupError),
    /// The assignees are no list of users.
    Assignees,
}

/// Why a cached value holds no nodes.
#[derive(Debug, Clone, Copy, PartialEq, Eq)]
pub enum NodesError {
    /// The cached value is no array of responses.
    NotAnArray,
    /// A response holds no list where the nodes should be.
    Page(LookupError),
}

/// The text in the result of a lookup.
pub open spec fn text_result(r: Result<String, LookupError>) -> Result<Seq<char>, LookupError> {
    match r {
        Ok(text) => Ok(text@),
        Err(e) => Err(e),
    }
}

/// The texts in the result of a lookup.
pub open spec fn texts_result(r: Result<Vec<String>, LookupError>) -> Result<
    Seq<Seq<char>>,
    LookupError,
> {
    match r {
        Ok(texts) => Ok(text_views(texts@)),
        Err(e) => Err(e),
    }
}

/// The users in an optional list of users.
pub open spec fn users_view(users: Option<Vec<User>>) -> Option<Seq<User>> {
    match users {
        Some(u) => Some(u@),
        None => None,
    }
}

/// The issue in a result, with its texts as sequences of characters.
pub open spec fn issue_result(r: Result<Issue, ParseError>) -> Result<IssueView, ParseError> {
    match r {
        Ok(issue) => Ok(issue@),
        Err(e) => Err(e),
    }
}

/// The merge request in a result, with its texts as sequences of characters.
pub open spec fn merge_request_result(r: Result<MergeRequest, ParseError>) -> Result<
    MergeRequestView,
    ParseError,
> {
    match r {
        Ok(request) => Ok(request@),
        Err(e) => Err(e),
    }
}

/// The time of creation of a node: the text that stands at `/createdAt`, read
/// as a date and time (`None` where it is none).
pub open spec fn created_at(value: serde_json::Value) -> Result<Option<Timestamp>, LookupError> {
    match text_at(value, "/createdAt"@) {
        Ok(text) => Ok(parsed_time(text)),
        Err(e) => Err(e),
    }
}

/// The issue made of the parts of a node, each given as looking it up gave
/// it: the first part that failed decides the error.
pub open spec fn issue_from(
    title: Result<Seq<char>, LookupError>,
    author: Option<User>,
    created_at: Result<Option<Timestamp>, LookupError>,
    url: Result<Seq<char>, LookupError>,
    labels: Result<Seq<Seq<char>>, LookupError>,
    assignees: Option<Seq<User>>,
) -> Result<IssueView, ParseError> {
    if title is Err {
        Err(ParseError::Title(title->Err_0))
    } else if author is None {
        Err(ParseError::Author)
    } else if created_at is Err {
        Err(ParseError::CreatedAt(created_at->Err_0))
    } else if created_at->Ok_0 is None {
        Err(ParseError::Time)
    } else if url is Err {
        Err(ParseError::Url(url->Err_0))
    } else if labels is Err {
        Err(ParseError::Labels(labels->Err_0))
    } else if assignees is None {
        Err(ParseError::Assignees)
    } else {
        Ok(
            IssueView {
                title: title->Ok_0,
                author: author->0,
                assignees: assignees->0,
                url: url->Ok_0,
                created_at: created_at->Ok_0->0,
                labels: labels->Ok_0,
            },
        )
    }
}

/// The merge request made of the parts of a node, each given as looking it
/// up gave it: the first part that failed decides the error.
pub open spec fn merge_request_from(
    title: Result<Seq<char>, LookupError>,
    author: Option<User>,
    created_at: Result<Option<Timestamp>, LookupError>,
    url: Result<Seq<char>, LookupError>,
    labels: Result<Seq<Seq<char>>, LookupError>,
) -> Result<MergeRequestView, ParseError> {
    if title is Err {
        Err(ParseError::Title(title->Err_0))
    } else if author is None {
        Err(ParseError::Author)
    } else if created_at is Err {
        Err(ParseError::CreatedAt(created_at->Err_0))
    } else if created_at->Ok_0 is None {
        Err(ParseError::Time)
    } else if url is Err {
        Err(ParseError::Url(url->Err_0))
    } else if labels is Err {
        Err(ParseError::Labels(labels->Err_0))
    } else {
        Ok(
            MergeRequestView {
                title: title->Ok_0,
                author: author->0,
                url: url->Ok_0,
                created_at: created_at->Ok_0->0,
                labels: labels->Ok_0,
            },
        )
    }
}

/// The issue that the node `value` describes, with `author` and `assignees`
/// as decoding the node gave them. The title stands at `/title`, the time of
/// creation at `/createdAt`, the address at `/webUrl`, and the labels are the
/// titles of the list at `/labels/nodes`.
pub open spec fn issue_of(
    value: serde_json::Value,
    author: Option<User>,
    assignees: Option<Seq<User>>,
) -> Result<IssueView, ParseError> {
    issue_from(
        text_at(value, "/title"@),
        author,
        created_at(value),
        text_at(value, "/webUrl"@),
        texts_at(value, "/labels/nodes"@, "/title"@),
        assignees,
    )
}

/// The merge request that the node `value` describes, with `author` as
/// decoding the node gave it.
pub open spec fn merge_request_of(value: serde_json::Value, author: Option<User>) -> Result<
    MergeRequestView,
    ParseError,
> {
    merge_request_from(
        text_at(value, "/title"@),
        author,
        created_at(value),
        text_at(value, "/webUrl"@),
        texts_at(value, "/labels/nodes"@, "/title"@),
    )
}

/// Makes an issue of the parts of a node, each given as looking it up gave
/// it. The parts are taken in the order title, author, time of creation,
/// address, labels, assignees; the first that failed decides the error.
pub fn assemble_issue(
    title: Result<String, LookupError>,
    author: Option<User>,
    created_at: Result<Option<Timestamp>, LookupError>,
    url: Result<String, LookupError>,
    labels: Result<Vec<String>, LookupError>,
    assignees: Option<Vec<User>>,
) -> (r: Result<Issue, ParseError>)
    ensures
        issue_result(r) == issue_from(
            text_result(title),
            author,
            created_at,
            text_result(url),
            texts_result(labels),
            users_view(assignees),
        ),
{
    let title = match title {
        Ok(title) => title,
        Err(e) => return Err(ParseError::Title(e)),
    };
    let author = match author {
        Some(author) => author,
        None => return Err(ParseError::Author),
    };
    let created_at = match created_at {
        Ok(Some(created_at)) => created_at,
        Ok(None) => return Err(ParseError::Time),
        Err(e) => return Err(ParseError::CreatedAt(e)),
    };
    let url = match url {
        Ok(url) => url,
        Err(e) => return Err(ParseError::Url(e)),
    };
    let labels = match labels {
        Ok(labels) => labels,
        Err(e) => return Err(ParseError::Labels(e)),
    };
    let assignees = match assignees {
        Some(assignees) => assignees,
        None => return Err(ParseError::Assignees),
    };
    Ok(Issue { title, author, assignees, url, created_at, labels })
}

/// Makes a merge request of the parts of a node, each given as looking it up
/// gave it. The parts are taken in the order title, author, time of creation,
/// address, labels; the first that failed decides the error.
pub fn assemble_merge_request(
    title: Result<String, LookupError>,
    author: Option<User>,
    created_at: Result<Option<Timestamp>, LookupError>,
    url: Result<String, LookupError>,
    labels: Result<Vec<String>, LookupError>,
) -> (r: Result<MergeRequest, ParseError>)
    ensures
        merge_request_result(r) == merge_request_from(
            text_result(title),
            author,
            created_at,
            text_result(url),
            texts_result(labels),
        ),
{
    let title = match title {
        Ok(title) => title,
        Err(e) => return Err(ParseError::Title(e)),
    };
    let author = match author {
        Some(author) => author,
        None => return Err(ParseError::Author),
    };
    let created_at = match created_at {
        Ok(Some(created_at)) => created_at,
        Ok(None) => return Err(ParseError::Time),
        Err(e) => return Err(ParseError::CreatedAt(e)),
    };
    let url = match url {
        Ok(url) => url,
        Err(e) => return Err(ParseError::Url(e)),
    };
    let labels = match labels {
        Ok(labels) => labels,
        Err(e) => return Err(ParseError::Labels(e)),
    };
    Ok(MergeRequest { title, author, url, created_at, labels })
}

/// Reads the time of creation of the node `value`.
pub fn lookup_created_at(value: &serde_json::Value) -> (r: Result<Option<Timestamp>, LookupError>)
    ensures
        r == created_at(*value),
{
    match lookup_text(value, "/createdAt") {
        Ok(text) => Ok(parse_time(text.as_str())),
        Err(e) => Err(e),
    }
}

/// The issue that the node `value` describes, with `author` and `assignees`
/// as decoding what stands at [`AUTHOR_PTR`] and the list at
/// [`ASSIGNEES_PTR`] gave them (`None` where it gave none).
pub fn parse_issue(value: &serde_json::Value, author: Option<User>, assignees: Option<Vec<User>>)
    -> (r: Result<Issue, ParseError>)
    ensures
        issue_result(r) == issue_of(*value, author, users_view(assignees)),
{
    assemble_issue(
        lookup_text(value, "/title"),
        author,
        lookup_created_at(value),
        lookup_text(value, "/webUrl"),
        lookup_texts(value, "/labels/nodes", "/title"),
        assignees,
    )
}

/// The merge request that the node `value` describes, with `author` as
/// decoding what stands at [`AUTHOR_PTR`] gave it (`None` where it gave none).
pub fn parse_merge_request(value: &serde_json::Value, author: Option<User>) -> (r: Result<
    MergeRequest,
    ParseError,
>)
    ensures
        merge_request_result(r) == merge_request_of(*value, author),
{
    assemble_merge_request(
        lookup_text(value, "/title"),
        author,
        lookup_created_at(value),
        lookup_text(value, "/webUrl"),
        lookup_texts(value, "/labels/nodes", "/title"),
    )
}

/// Where a node holds its author.
pub const AUTHOR_PTR: &'static str = "/author";

/// Where a node holds the list of its assignees.
pub const ASSIGNEES_PTR: &'static str = "/assignees/nodes";

/// The lists that stand at `ptr` in each of `pages`, one after another; the
/// error of the first page that has none.
pub open spec fn gathered(pages: Seq<serde_json::Value>, ptr: Seq<char>) -> Result<
    Seq<serde_json::Value>,
    LookupError,
>
    decreases pages.len(),
{
    if pages.len() == 0 {
        Ok(seq![])
    } else {
        match gathered(pages.drop_last(), ptr) {
            Err(e) => Err(e),
            Ok(before) => match list_at(pages.last(), ptr) {
                Err(e) => Err(e),
                Ok(list) => Ok(before + list),
            },
        }
    }
}

/// The nodes in a cached value: it is an array of responses, each of which
/// holds a list of nodes at `ptr`; the nodes of all responses, in order.
pub open spec fn nodes_of(cached: serde_json::Value, ptr: Seq<char>) -> Result<
    Seq<serde_json::Value>,
    NodesError,
> {
    match array_in(cached) {
        None => Err(NodesError::NotAnArray),
        Some(pages) => match gathered(pages, ptr) {
            Err(e) => Err(NodesError::Page(e)),
            Ok(nodes) => Ok(nodes),
        },
    }
}

/// Gathers the nodes that stand at `ptr` in each of `pages`.
pub fn gather(pages: &Vec<serde_json::Value>, ptr: &str) -> (r: Result<
    Vec<serde_json::Value>,
    LookupError,
>)
    ensures
        match r {
            Ok(nodes) => gathered(pages@, ptr@) == Ok::<Seq<serde_json::Value>, LookupError>(
                nodes@,
            ),
            Err(e) => gathered(pages@, ptr@) == Err::<Seq<serde_json::Value>, LookupError>(e),
        },
{
    let mut nodes: Vec<serde_json::Value> = Vec::new();
    let mut i: usize = 0;
    while i < pages.len()
        invariant
            i <= pages.len(),
            gathered(pages@.take(i as int), ptr@) == Ok::<Seq<serde_json::Value>, LookupError>(
                nodes@,
            ),
        decreases pages.len() - i,
    {
        proof {
            let seen = pages@.take(i as int + 1);
            assert(seen.drop_last() =~= pages@.take(i as int));
        }
        match lookup_list(&pages[i], ptr) {
            Ok(list) => {
                let mut list = list;
                nodes.append(&mut list);
            },
            Err(e) => {
                proof {
                    lemma_first_failure_stays(pages@, ptr@, i as int + 1);
                }
                return Err(e);
            },
        }
        i += 1;
    }
    assert(pages@.take(i as int) =~= pages@);
    Ok(nodes)
}

/// A failure among the first `n` pages is the failure of all pages.
proof fn lemma_first_failure_stays(pages: Seq<serde_json::Value>, ptr: Seq<char>, n: int)
    requires
        0 <= n <= pages.len(),
        gathered(pages.take(n), ptr) is Err,
    ensures
        gathered(pages, ptr) == gathered(pages.take(n), ptr),
    decreases pages.len() - n,
{
    if n < pages.len() {
        let more = pages.take(n + 1);
        assert(more.drop_last() =~= pages.take(n));
        lemma_first_failure_stays(pages, ptr, n + 1);
    } else {
        assert(pages.take(n) =~= pages);
    }
}

/// The nodes in the cached value `cached`, which is an array of responses
/// with a list of nodes at `ptr` in each.
pub fn nodes(cached: serde_json::Value, ptr: &str) -> (r: Result<
    Vec<serde_json::Value>,
    NodesError,
>)
    ensures
        match r {
            Ok(nodes) => nodes_of(cached, ptr@) == Ok::<Seq<serde_json::Value>, NodesError>(
                nodes@,
            ),
            Err(e) => nodes_of(cached, ptr@) == Err::<Seq<serde_json::Value>, NodesError>(e),
        },
{
    match array_items(cached) {
        None => Err(NodesError::NotAnArray),
        Some(pages) => match gather(&pages, ptr) {
            Ok(nodes) => Ok(nodes),
            Err(e) => Err(NodesError::Page(e)),
        },
    }
}

} // verus!
