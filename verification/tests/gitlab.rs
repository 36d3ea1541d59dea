use alfred_gitlab::fingerprint::Fingerprint;
use alfred_gitlab::gitlab::{
    assemble_issue, assemble_merge_request, gather, issues_query, lookup_created_at,
    merge_requests_query, nodes, parse_issue, parse_merge_request, NodesError, PageAction,
    PageInfo, Pager, ParseError, Query, ASSIGNEES_PTR, AUTHOR_PTR, ISSUES_QUERY,
    MERGE_REQUESTS_QUERY,
};
use alfred_gitlab::json::LookupError;
use alfred_gitlab::items::User;
use alfred_gitlab::time::Timestamp;
use serde_json::Value;

fn hex(f: &Fingerprint) -> String {
    f.bytes.iter().map(|b| format!("{:02x}", b)).collect()
}

fn query<'a>(name: &'a str, project: &'a str, text: &'a str) -> Query<'a> {
    Query { name, project, query: text, page_info_ptr: "/p", nodes_ptr: "/n" }
}

fn user(name: &str, username: &str) -> User {
    User { name: name.to_string(), username: username.to_string() }
}

fn json(text: &str) -> Value {
    serde_json::from_str(text).unwrap()
}

fn issue_node() -> Value {
    json(
        r#"{
            "title": "Fix the build",
            "author": {"name": "Ada Lovelace", "username": "ada"},
            "assignees": {"nodes": [{"name": "Grace Hopper", "username": "grace"}]},
            "createdAt": "2012-12-12T12:12:12Z",
            "webUrl": "https://gitlab.com/g/p/-/issues/1",
            "labels": {"nodes": [{"title": "bug"}, {"title": "ci"}]}
        }"#,
    )
}

fn merge_request_node() -> Value {
    json(
        r#"{
            "title": "Add a cache",
            "author": {"name": "Ada Lovelace", "username": "ada"},
            "createdAt": "2021-03-04 05:06:07.089+02:00",
            "webUrl": "https://gitlab.com/g/p/-/merge_requests/2",
            "labels": {"nodes": []}
        }"#,
    )
}

/// The node `node` with `value` in place of what it holds under `key`, or
/// without `key` where `value` is `None`.
fn with(node: Value, key: &str, value: Option<Value>) -> Value {
    let mut node = node;
    let map = node.as_object_mut().unwrap();
    match value {
        Some(value) => map.insert(key.to_string(), value),
        None => map.remove(key),
    };
    node
}

fn ada() -> Option<User> {
    Some(user("Ada Lovelace", "ada"))
}

fn grace() -> Option<Vec<User>> {
    Some(vec![user("Grace Hopper", "grace")])
}

#[test]
fn checksum_is_the_sha1_of_name_project_and_query() {
    assert_eq!(hex(&query("a", "b", "c").checksum()), "a9993e364706816aba3e25717850c26c9cd0d89d");
    assert_eq!(hex(&query("abc", "", "").checksum()), "a9993e364706816aba3e25717850c26c9cd0d89d");
    assert_eq!(hex(&query("", "", "").checksum()), "da39a3ee5e6b4b0d3255bfef95601890afd80709");
    assert_eq!(
        query("a", "b", "c").checksum().bytes,
        [169, 153, 62, 54, 71, 6, 129, 106, 186, 62, 37, 113, 120, 80, 194, 108, 156, 208, 216, 157]
    );
}

#[test]
fn checksum_changes_with_each_part_and_ignores_the_pointers() {
    let base = query("issues", "group/project", "query { x }").checksum();
    assert!(!base.same(&query("issues2", "group/project", "query { x }").checksum()));
    assert!(!base.same(&query("issues", "group/other", "query { x }").checksum()));
    assert!(!base.same(&query("issues", "group/project", "query { y }").checksum()));
    let mut other = query("issues", "group/project", "query { x }");
    other.page_info_ptr = "/elsewhere";
    other.nodes_ptr = "/elsewhere";
    assert!(base.same(&other.checksum()));
}

#[test]
fn checksum_of_the_two_queries() {
    assert_eq!(
        hex(&issues_query("issues", "group/project").checksum()),
        "4474dacacc95f07bf671136b15df29364b4c26e1"
    );
    assert_eq!(
        hex(&merge_requests_query("mrs", "group/project").checksum()),
        "9f110a01eef42daab0849228bebe6031ea9fe76e"
    );
}

#[test]
fn queries_name_their_pointers() {
    let q = issues_query("n", "p");
    assert_eq!(q.name, "n");
    assert_eq!(q.project, "p");
    assert_eq!(q.query, ISSUES_QUERY);
    assert_eq!(q.page_info_ptr, "/data/project/issues/pageInfo");
    assert_eq!(q.nodes_ptr, "/data/project/issues/nodes");
    let q = merge_requests_query("n", "p");
    assert_eq!(q.query, MERGE_REQUESTS_QUERY);
    assert_eq!(q.page_info_ptr, "/data/project/mergeRequests/pageInfo");
    assert_eq!(q.nodes_ptr, "/data/project/mergeRequests/nodes");
    assert!(ISSUES_QUERY.contains("issues(state: opened, after: $after)"));
    assert!(ISSUES_QUERY.contains("assignees"));
    assert!(MERGE_REQUESTS_QUERY.contains("mergeRequests(state: opened, after: $after)"));
    assert!(!MERGE_REQUESTS_QUERY.contains("assignees"));
    assert_eq!(ISSUES_QUERY.len(), 713);
    assert_eq!(MERGE_REQUESTS_QUERY.len(), 562);
}

#[test]
fn parse_issue_reads_a_node() {
    let issue = parse_issue(&issue_node(), ada(), grace()).unwrap();
    assert_eq!(issue.title, "Fix the build");
    assert_eq!(issue.author, user("Ada Lovelace", "ada"));
    assert_eq!(issue.assignees, vec![user("Grace Hopper", "grace")]);
    assert_eq!(issue.url, "https://gitlab.com/g/p/-/issues/1");
    assert_eq!(issue.created_at, Timestamp::new(1_355_314_332, 0));
    assert_eq!(issue.labels, vec!["bug".to_string(), "ci".to_string()]);
}

#[test]
fn parse_issue_reads_the_time_of_creation() {
    let at = |text: &str| {
        let node = with(issue_node(), "createdAt", Some(Value::from(text)));
        parse_issue(&node, ada(), grace()).map(|issue| issue.created_at)
    };
    assert_eq!(at("2012-12-12T12:12:12Z"), Ok(Timestamp::new(1_355_314_332, 0)));
    assert_eq!(at("2012-12-12 12:12:12+00:00"), Ok(Timestamp::new(1_355_314_332, 0)));
    assert_eq!(
        at("2021-03-04 05:06:07.089+02:00"),
        Ok(Timestamp::new(1_614_827_167, 89_000_000))
    );
    assert_eq!(at("1969-12-31T23:59:59.5Z"), Ok(Timestamp::new(-1, 500_000_000)));
    assert_eq!(at("yesterday"), Err(ParseError::Time));
    assert_eq!(at(""), Err(ParseError::Time));
    assert_eq!(at("2012-12-12"), Err(ParseError::Time));
    assert_eq!(at("2012-13-12T12:12:12Z"), Err(ParseError::Time));
}

#[test]
fn parse_issue_tells_the_first_part_that_fails() {
    let missing = |key: &str| parse_issue(&with(issue_node(), key, None), ada(), grace());
    let wrong = |key: &str| {
        parse_issue(&with(issue_node(), key, Some(Value::from(7))), ada(), grace())
    };
    assert_eq!(missing("title"), Err(ParseError::Title(LookupError::Missing)));
    assert_eq!(wrong("title"), Err(ParseError::Title(LookupError::Mismatch)));
    assert_eq!(missing("createdAt"), Err(ParseError::CreatedAt(LookupError::Missing)));
    assert_eq!(wrong("createdAt"), Err(ParseError::CreatedAt(LookupError::Mismatch)));
    assert_eq!(missing("webUrl"), Err(ParseError::Url(LookupError::Missing)));
    assert_eq!(wrong("webUrl"), Err(ParseError::Url(LookupError::Mismatch)));
    assert_eq!(missing("labels"), Err(ParseError::Labels(LookupError::Missing)));
    assert_eq!(wrong("labels"), Err(ParseError::Labels(LookupError::Missing)));
    let labels = |text: &str| {
        parse_issue(&with(issue_node(), "labels", Some(json(text))), ada(), grace())
    };
    assert_eq!(labels(r#"{"nodes": 7}"#), Err(ParseError::Labels(LookupError::Mismatch)));
    assert_eq!(
        labels(r#"{"nodes": [{"title": "a"}, {}]}"#),
        Err(ParseError::Labels(LookupError::Missing))
    );
    assert_eq!(
        labels(r#"{"nodes": [{"title": 1}, {}]}"#),
        Err(ParseError::Labels(LookupError::Mismatch))
    );
    assert_eq!(parse_issue(&issue_node(), None, grace()), Err(ParseError::Author));
    assert_eq!(parse_issue(&issue_node(), ada(), None), Err(ParseError::Assignees));
    // The order: title, author, time of creation, address, labels, assignees.
    let empty = json("{}");
    assert_eq!(parse_issue(&empty, None, None), Err(ParseError::Title(LookupError::Missing)));
    let node = with(empty, "title", Some(Value::from("t")));
    assert_eq!(parse_issue(&node, None, None), Err(ParseError::Author));
    assert_eq!(
        parse_issue(&node, ada(), None),
        Err(ParseError::CreatedAt(LookupError::Missing))
    );
    let node = with(node, "createdAt", Some(Value::from("now")));
    assert_eq!(parse_issue(&node, ada(), None), Err(ParseError::Time));
    let node = with(node, "createdAt", Some(Value::from("2012-12-12T12:12:12Z")));
    assert_eq!(parse_issue(&node, ada(), None), Err(ParseError::Url(LookupError::Missing)));
    let node = with(node, "webUrl", Some(Value::from("u")));
    assert_eq!(
        parse_issue(&node, ada(), None),
        Err(ParseError::Labels(LookupError::Missing))
    );
    let node = with(node, "labels", Some(json(r#"{"nodes": []}"#)));
    assert_eq!(parse_issue(&node, ada(), None), Err(ParseError::Assignees));
    assert!(parse_issue(&node, ada(), Some(vec![])).is_ok());
}

#[test]
fn parse_merge_request_reads_a_node() {
    let request = parse_merge_request(&merge_request_node(), ada()).unwrap();
    assert_eq!(request.title, "Add a cache");
    assert_eq!(request.author, user("Ada Lovelace", "ada"));
    assert_eq!(request.url, "https://gitlab.com/g/p/-/merge_requests/2");
    assert_eq!(request.created_at, Timestamp::new(1_614_827_167, 89_000_000));
    assert_eq!(request.labels, Vec::<String>::new());
    assert_eq!(parse_merge_request(&merge_request_node(), None), Err(ParseError::Author));
    let node = with(merge_request_node(), "createdAt", Some(Value::from("soon")));
    assert_eq!(parse_merge_request(&node, ada()), Err(ParseError::Time));
    let node = with(merge_request_node(), "webUrl", None);
    assert_eq!(parse_merge_request(&node, ada()), Err(ParseError::Url(LookupError::Missing)));
    assert_eq!(
        parse_merge_request(&json("[]"), ada()),
        Err(ParseError::Title(LookupError::Missing))
    );
}

#[test]
fn assemble_takes_the_parts_as_they_are() {
    let ok = |text: &str| Ok(text.to_string());
    let issue = assemble_issue(
        ok("t"),
        ada(),
        Ok(Some(Timestamp::new(5, 6))),
        ok("u"),
        Ok(vec!["l".to_string()]),
        grace(),
    )
    .unwrap();
    assert_eq!(issue.title, "t");
    assert_eq!(issue.url, "u");
    assert_eq!(issue.created_at, Timestamp::new(5, 6));
    assert_eq!(issue.labels, vec!["l".to_string()]);
    assert_eq!(
        assemble_issue(
            Err(LookupError::Mismatch),
            None,
            Err(LookupError::Missing),
            Err(LookupError::Missing),
            Err(LookupError::Missing),
            None
        ),
        Err(ParseError::Title(LookupError::Mismatch))
    );
    assert_eq!(
        assemble_issue(ok("t"), ada(), Ok(None), Err(LookupError::Missing), Ok(vec![]), None),
        Err(ParseError::Time)
    );
    let then = Ok(Some(Timestamp::new(-5, 6)));
    let request = assemble_merge_request(ok("t"), ada(), then, ok("u"), Ok(vec![])).unwrap();
    assert_eq!(request.created_at, Timestamp::new(-5, 6));
    assert_eq!(
        assemble_merge_request(ok("t"), ada(), then, ok("u"), Err(LookupError::Mismatch)),
        Err(ParseError::Labels(LookupError::Mismatch))
    );
}

#[test]
fn lookup_created_at_reads_the_text_as_a_time() {
    assert_eq!(lookup_created_at(&issue_node()), Ok(Some(Timestamp::new(1_355_314_332, 0))));
    assert_eq!(lookup_created_at(&json(r#"{"createdAt": "x"}"#)), Ok(None));
    assert_eq!(lookup_created_at(&json(r#"{"createdAt": 1}"#)), Err(LookupError::Mismatch));
    assert_eq!(lookup_created_at(&json(r#"{}"#)), Err(LookupError::Missing));
}

#[test]
fn nodes_gathers_the_nodes_of_all_pages() {
    let cached = json(
        r#"[
            {"data": {"project": {"issues": {"nodes": [1, 2], "pageInfo": {}}}}},
            {"data": {"project": {"issues": {"nodes": []}}}},
            {"data": {"project": {"issues": {"nodes": [{"title": "x"}]}}}}
        ]"#,
    );
    assert_eq!(
        nodes(cached, "/data/project/issues/nodes"),
        Ok(vec![Value::from(1), Value::from(2), json(r#"{"title": "x"}"#)])
    );
    assert_eq!(nodes(json("[]"), "/data"), Ok(vec![]));
    assert_eq!(
        nodes(json(r#"[[1], [2, 3]]"#), ""),
        Ok(vec![Value::from(1), Value::from(2), Value::from(3)])
    );
}

#[test]
fn nodes_fails_on_what_is_no_array_of_pages() {
    assert_eq!(nodes(json("{}"), "/n"), Err(NodesError::NotAnArray));
    assert_eq!(nodes(json("null"), "/n"), Err(NodesError::NotAnArray));
    assert_eq!(
        nodes(json(r#"[{"n": [1]}, {"m": [2]}]"#), "/n"),
        Err(NodesError::Page(LookupError::Missing))
    );
    assert_eq!(
        nodes(json(r#"[{"n": [1]}, {"n": {"0": 2}}, {}]"#), "/n"),
        Err(NodesError::Page(LookupError::Mismatch))
    );
    assert_eq!(
        gather(&vec![json(r#"{"n": "x"}"#), json("{}")], "/n"),
        Err(LookupError::Mismatch)
    );
    assert_eq!(gather(&vec![], "/n"), Ok(vec![]));
}

#[test]
fn pointers_to_the_users_of_a_node() {
    assert_eq!(AUTHOR_PTR, "/author");
    assert_eq!(ASSIGNEES_PTR, "/assignees/nodes");
    assert!(issue_node().pointer(AUTHOR_PTR).is_some());
    assert!(issue_node().pointer(ASSIGNEES_PTR).is_some());
}

#[test]
fn pager_gathers_pages_until_the_last() {
    let page = |n: u64| Value::from(n);
    let info = |cursor: &str, has_next: bool| PageInfo { cursor: cursor.to_string(), has_next };
    let pager = Pager::new();
    assert_eq!(pager.pages, Vec::<Value>::new());
    let (pager, action) = pager.step(page(1), info("c1", true));
    assert_eq!(action, PageAction::Fetch { after: "c1".to_string() });
    assert_eq!(pager.pages, vec![page(1)]);
    let (pager, action) = pager.step(page(2), info("c2", true));
    assert_eq!(action, PageAction::Fetch { after: "c2".to_string() });
    let (pager, action) = pager.step(page(3), info("c3", false));
    assert_eq!(action, PageAction::Finish(vec![page(1), page(2), page(3)]));
    assert_eq!(pager.pages, Vec::<Value>::new());
}

#[test]
fn pager_with_a_single_page() {
    let (_, action) = Pager::new()
        .step(Value::Null, PageInfo { cursor: String::new(), has_next: false });
    assert_eq!(action, PageAction::Finish(vec![Value::Null]));
}

