use alfred_gitlab::command::{
    boards_item, dispatch, extras, list_item, new_item, plan, Found, Plan,
};
use alfred_gitlab::text::chars;
use alfred_gitlab::config::{Command, Config, Kind};
use alfred_gitlab::items::{Issue, Item, MergeRequest, User};
use alfred_gitlab::time::Timestamp;

fn user(name: &str) -> User {
    User { name: name.to_string(), username: name.to_lowercase() }
}

fn issue(title: &str, author: &str, assignees: &[&str]) -> Issue {
    Issue {
        title: title.to_string(),
        author: user(author),
        assignees: assignees.iter().map(|a| user(a)).collect(),
        url: format!("https://gitlab.com/g/p/-/issues/{}", title),
        created_at: Timestamp::new(1_000, 0),
        labels: vec!["bug".to_string()],
    }
}

fn merge_request(title: &str, author: &str) -> MergeRequest {
    MergeRequest {
        title: title.to_string(),
        author: user(author),
        url: format!("https://gitlab.com/g/p/-/merge_requests/{}", title),
        created_at: Timestamp::new(1_000, 0),
        labels: vec![],
    }
}

fn command(kind: Kind, name: &str, project: &str) -> Command {
    Command { kind, name: name.to_string(), project: project.to_string() }
}

fn config() -> Config {
    Config {
        token: Some("t".to_string()),
        commands: vec![
            command(Kind::Issues, "issues", "group/project"),
            command(Kind::MergeRequests, "reviews", "group/project"),
            command(Kind::Issues, "inbox", "me/inbox"),
            command(Kind::MergeRequests, "issues", "shadowed/by-the-first"),
        ],
    }
}

fn titles(items: &[Item]) -> Vec<&str> {
    items.iter().map(|i| i.title.as_str()).collect()
}

fn now() -> Timestamp {
    Timestamp::new(1_100, 0)
}

#[test]
fn command_to_item() {
    assert_eq!(
        command(Kind::Issues, "issues", "group/project").to_item(),
        Item {
            title: "issues".to_string(),
            subtitle: Some("Search issues in group/project".to_string()),
            arg: Some("https://gitlab.com/group/project;issues".to_string()),
            autocomplete: Some("issues ".to_string()),
        }
    );
    assert_eq!(
        command(Kind::MergeRequests, "reviews", "g/p").to_item(),
        Item {
            title: "reviews".to_string(),
            subtitle: Some("Search merge requests in g/p".to_string()),
            arg: Some("https://gitlab.com/g/p;reviews".to_string()),
            autocomplete: Some("reviews ".to_string()),
        }
    );
}

#[test]
fn extra_items() {
    assert_eq!(
        new_item("group/project"),
        Item {
            title: "/new".to_string(),
            subtitle: Some("Create a new issue in group/project".to_string()),
            arg: Some("https://gitlab.com/group/project/issues/new".to_string()),
            autocomplete: None,
        }
    );
    assert_eq!(
        list_item("group/project"),
        Item {
            title: "/list".to_string(),
            subtitle: Some("Open the issue list for group/project".to_string()),
            arg: Some("https://gitlab.com/group/project/-/issues".to_string()),
            autocomplete: None,
        }
    );
    assert_eq!(
        boards_item("group/sub/project"),
        Item {
            title: "/boards".to_string(),
            subtitle: Some("Open the issue boards for group/sub/project".to_string()),
            arg: Some("https://gitlab.com/groups/group/sub/-/boards".to_string()),
            autocomplete: None,
        }
    );
}

#[test]
fn boards_item_finds_the_group() {
    let arg = |project: &str| boards_item(project).arg.unwrap();
    assert_eq!(arg("group/project"), "https://gitlab.com/groups/group/-/boards");
    assert_eq!(arg("group/project//"), "https://gitlab.com/groups/group/-/boards");
    assert_eq!(arg("project"), "https://gitlab.com/groups/project/-/boards");
    assert_eq!(arg("project/"), "https://gitlab.com/groups/project/-/boards");
    assert_eq!(arg(""), "https://gitlab.com/groups//-/boards");
    assert_eq!(
        boards_item("project/").subtitle.unwrap(),
        "Open the issue boards for project/"
    );
}

#[test]
fn extras_offer_what_begins_with_the_query() {
    assert_eq!(titles(&extras("g/p", "/")), vec!["/new", "/boards", "/list"]);
    assert_eq!(titles(&extras("g/p", "/n")), vec!["/new"]);
    assert_eq!(titles(&extras("g/p", "/new")), vec!["/new"]);
    assert_eq!(titles(&extras("g/p", "/b")), vec!["/boards"]);
    assert_eq!(titles(&extras("g/p", "/li")), vec!["/list"]);
    assert_eq!(titles(&extras("g/p", "/news")), Vec::<&str>::new());
    assert_eq!(titles(&extras("g/p", "/new ")), Vec::<&str>::new());
    assert_eq!(titles(&extras("g/p", "new")), Vec::<&str>::new());
    assert_eq!(titles(&extras("g/p", "")), Vec::<&str>::new());
}

#[test]
fn exec_lists_own_issues_first_and_keeps_the_order_within() {
    let found = Found::Issues(vec![
        issue("one", "Bob", &[]),
        issue("two", "Eve", &["Bob"]),
        issue("three", "Eve", &[]),
        issue("four", "Eve", &["Eve"]),
        issue("five", "Eve", &["Ann", "Eve"]),
        issue("six", "Bob", &["Ann"]),
        issue("seven", "Ann", &["Eve"]),
    ]);
    let c = command(Kind::Issues, "issues", "g/p");
    let items = c.exec("", &found, now(), Some("eve"));
    assert_eq!(titles(&items), vec!["four", "five", "seven", "two", "three", "one", "six"]);
    let items = c.exec("", &found, now(), None);
    assert_eq!(titles(&items), vec!["one", "two", "three", "four", "five", "six", "seven"]);
    let items = c.exec("@bob", &found, now(), Some("eve"));
    assert_eq!(titles(&items), vec!["two", "one", "six"]);
    let items = c.exec("t", &found, now(), Some("ann"));
    assert_eq!(titles(&items), vec!["two", "three"]);
    assert_eq!(
        items[0].subtitle.as_deref(),
        Some("2 minutes ago, assigned to Bob")
    );
}

#[test]
fn exec_puts_extras_before_the_issues() {
    let found = Found::Issues(vec![issue("a/new thing", "Bob", &[]), issue("other", "Bob", &[])]);
    let c = command(Kind::Issues, "issues", "g/p");
    let items = c.exec("/new", &found, now(), None);
    assert_eq!(titles(&items), vec!["/new", "a/new thing"]);
    let items = c.exec("/", &found, now(), None);
    assert_eq!(titles(&items), vec!["/new", "/boards", "/list", "a/new thing"]);
    let items = c.exec("/x", &found, now(), None);
    assert_eq!(titles(&items), Vec::<&str>::new());
}

#[test]
fn exec_lists_own_merge_requests_first() {
    let found = Found::MergeRequests(vec![
        merge_request("one", "Bob"),
        merge_request("two", "Eve"),
        merge_request("three", "Ann"),
        merge_request("four", "Eve"),
    ]);
    let c = command(Kind::MergeRequests, "reviews", "g/p");
    let items = c.exec("", &found, now(), Some("eve"));
    assert_eq!(titles(&items), vec!["two", "four", "one", "three"]);
    let items = c.exec("o", &found, now(), Some("eve"));
    assert_eq!(titles(&items), vec!["two", "four", "one"]);
    let items = c.exec("/", &found, now(), Some("eve"));
    assert_eq!(titles(&items), Vec::<&str>::new());
    let items = c.exec("@ann", &found, now(), None);
    assert_eq!(titles(&items), vec!["three"]);
    assert_eq!(items[0].subtitle.as_deref(), Some("2 minutes ago by Ann"));
}

#[test]
fn exec_of_nothing_found() {
    let c = command(Kind::Issues, "issues", "g/p");
    assert_eq!(c.exec("x", &Found::Issues(vec![]), now(), None), vec![]);
    assert_eq!(c.exec("x", &Found::MergeRequests(vec![]), now(), Some("me")), vec![]);
}

#[test]
fn plan_without_argument_lists_every_command() {
    match plan(&config(), None) {
        Plan::List(items) => {
            assert_eq!(titles(&items), vec!["issues", "reviews", "inbox", "issues"]);
            assert_eq!(items[1], config().commands[1].to_item());
        }
        other => panic!("{:?}", other),
    }
}

#[test]
fn plan_runs_the_first_command_of_that_name() {
    assert_eq!(
        plan(&config(), Some("issues fix ~bug")),
        Plan::Run { command: 0, query: "fix ~bug".to_string() }
    );
    assert_eq!(plan(&config(), Some("reviews")), Plan::Run { command: 1, query: String::new() });
    assert_eq!(
        plan(&config(), Some("  Inbox\tUrgent  Thing \n")),
        Plan::Run { command: 2, query: "urgent  thing".to_string() }
    );
    assert_eq!(
        plan(&config(), Some("issues  x")),
        Plan::Run { command: 0, query: " x".to_string() }
    );
}

#[test]
fn plan_lists_the_commands_that_begin_with_the_text() {
    match plan(&config(), Some("i")) {
        Plan::List(items) => assert_eq!(titles(&items), vec!["issues", "inbox", "issues"]),
        other => panic!("{:?}", other),
    }
    match plan(&config(), Some("rev iew")) {
        Plan::List(items) => assert_eq!(titles(&items), vec!["reviews"]),
        other => panic!("{:?}", other),
    }
    match plan(&config(), Some("x")) {
        Plan::List(items) => assert_eq!(titles(&items), Vec::<&str>::new()),
        other => panic!("{:?}", other),
    }
    match plan(&config(), Some("   ")) {
        Plan::List(items) => {
            assert_eq!(titles(&items), vec!["issues", "reviews", "inbox", "issues"])
        }
        other => panic!("{:?}", other),
    }
}

#[test]
fn dispatch_takes_name_and_query_as_they_are() {
    assert_eq!(
        dispatch(&config(), &chars("inbox"), &chars("Some  Query ")),
        Plan::Run { command: 2, query: "Some  Query ".to_string() }
    );
    assert_eq!(
        dispatch(&config(), &chars("issues"), &chars("")),
        Plan::Run { command: 0, query: String::new() }
    );
    match dispatch(&config(), &chars("Inbox"), &chars("q")) {
        Plan::List(items) => assert_eq!(titles(&items), Vec::<&str>::new()),
        other => panic!("{:?}", other),
    }
    match dispatch(&config(), &chars("in"), &chars("q")) {
        Plan::List(items) => assert_eq!(titles(&items), vec!["inbox"]),
        other => panic!("{:?}", other),
    }
    match dispatch(&config(), &chars(""), &chars("")) {
        Plan::List(items) => {
            assert_eq!(titles(&items), vec!["issues", "reviews", "inbox", "issues"])
        }
        other => panic!("{:?}", other),
    }
    let none = alfred_gitlab::config::Config { token: None, commands: vec![] };
    assert_eq!(dispatch(&none, &chars("issues"), &chars("")), Plan::List(vec![]));
    assert_eq!(plan(&none, None), Plan::List(vec![]));
}
