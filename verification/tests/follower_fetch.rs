use follower_fetch::fetch::{token_from_env, FetchError};
use follower_fetch::follower::{followers_from_body, login_lines, Follower};
use follower_fetch::pagination::{parse_link, parse_page};

/// One full follower record as the service sends it, with every required
/// member present and well-typed.
fn record(login: &str, id: i64) -> String {
    format!(
        "{{\"login\":\"{login}\",\"id\":{id},\
         \"node_id\":\"MDQ6VXNlcjE=\",\
         \"avatar_url\":\"https://avatars.example/u/{id}\",\
         \"gravatar_id\":\"\",\
         \"url\":\"https://api.example/users/{login}\",\
         \"html_url\":\"https://example.com/{login}\",\
         \"followers_url\":\"https://api.example/users/{login}/followers\",\
         \"following_url\":\"https://api.example/users/{login}/following\",\
         \"gists_url\":\"https://api.example/users/{login}/gists\",\
         \"starred_url\":\"https://api.example/users/{login}/starred\",\
         \"subscriptions_url\":\"https://api.example/users/{login}/subscriptions\",\
         \"organizations_url\":\"https://api.example/users/{login}/orgs\",\
         \"repos_url\":\"https://api.example/users/{login}/repos\",\
         \"events_url\":\"https://api.example/users/{login}/events\",\
         \"received_events_url\":\"https://api.example/users/{login}/received_events\",\
         \"type\":\"User\",\
         \"site_admin\":false}}",
        login = login,
        id = id
    )
}

fn ok_followers(body: &str) -> Vec<Follower> {
    match followers_from_body(Some(body)) {
        Ok(fs) => fs,
        Err(_) => panic!("body was rejected: {}", body),
    }
}

fn parse_error_of(body: Option<&str>) -> FetchError {
    match followers_from_body(body) {
        Ok(_) => panic!("body was accepted"),
        Err(e) => e,
    }
}

#[test]
fn scenario_two_records() {
    let token = token_from_env(Some("abc123".to_string()));
    assert!(matches!(token, Ok(t) if t == "abc123"));

    let body = format!("[{},{}]", record("alice", 1), record("bob", 2));
    let followers = ok_followers(&body);
    assert_eq!(followers.len(), 2);
    assert_eq!(followers[0].login, "alice");
    assert_eq!(followers[0].id, 1);
    assert_eq!(followers[1].login, "bob");
    assert_eq!(followers[1].id, 2);

    let lines = login_lines(&followers);
    assert_eq!(lines, vec!["alice".to_string(), "bob".to_string()]);
}

#[test]
fn missing_token_names_variable() {
    let r = token_from_env(None);
    let e = match r {
        Ok(_) => panic!("missing credential was accepted"),
        Err(e) => e,
    };
    assert!(e.message().contains("GITHUB_TOKEN"));
    assert_eq!(e.exit_code(), 1);
}

#[test]
fn present_token_is_passed_through() {
    let r = token_from_env(Some("s3cret".to_string()));
    assert!(matches!(r, Ok(t) if t == "s3cret"));
}

#[test]
fn null_body_is_a_parse_error() {
    let e = parse_error_of(Some("null"));
    assert_eq!(e.message(), "Error while parsing JSON");
    assert_eq!(e.exit_code(), 1);
}

#[test]
fn absent_body_is_a_parse_error() {
    let e = parse_error_of(None);
    assert_eq!(e.message(), "Error while parsing JSON");
    assert_eq!(e.exit_code(), 1);
}

#[test]
fn empty_body_is_a_parse_error() {
    let e = parse_error_of(Some(""));
    assert_eq!(e.message(), "Error while parsing JSON");
}

#[test]
fn object_body_is_a_parse_error() {
    let e = parse_error_of(Some("{}"));
    assert_eq!(e.message(), "Error while parsing JSON");
}

#[test]
fn malformed_body_is_a_parse_error() {
    let e = parse_error_of(Some("[{\"login\":"));
    assert_eq!(e.message(), "Error while parsing JSON");
}

#[test]
fn zero_followers_is_success() {
    let followers = ok_followers("[]");
    assert_eq!(followers.len(), 0);
    let lines = login_lines(&followers);
    assert_eq!(lines.len(), 0);
}

#[test]
fn order_is_the_response_order() {
    let body = format!(
        "[{},{},{}]",
        record("carol", 30),
        record("alice", 10),
        record("bob", 20)
    );
    let lines = login_lines(&ok_followers(&body));
    assert_eq!(
        lines,
        vec!["carol".to_string(), "alice".to_string(), "bob".to_string()]
    );
}

#[test]
fn missing_member_is_a_parse_error() {
    let full = record("alice", 1);
    let without_login = full.replacen("\"login\":\"alice\",", "", 1);
    let body = format!("[{}]", without_login);
    let e = parse_error_of(Some(&body));
    assert_eq!(e.message(), "Error while parsing JSON");
}

#[test]
fn wrong_member_type_is_a_parse_error() {
    let full = record("alice", 1);
    let id_as_string = full.replacen("\"id\":1,", "\"id\":\"1\",", 1);
    let body = format!("[{}]", id_as_string);
    assert!(followers_from_body(Some(&body)).is_err());
}

#[test]
fn id_above_i32_is_a_parse_error() {
    let body = format!("[{}]", record("alice", 2147483648));
    assert!(followers_from_body(Some(&body)).is_err());
}

#[test]
fn id_at_i32_bound_is_accepted() {
    let body = format!("[{}]", record("alice", 2147483647));
    let followers = ok_followers(&body);
    assert_eq!(followers[0].id, 2147483647);
}

#[test]
fn extra_members_are_tolerated() {
    let full = record("alice", 1);
    let with_extra = full.replacen("\"login\"", "\"plan\":\"free\",\"login\"", 1);
    let body = format!("[{}]", with_extra);
    let followers = ok_followers(&body);
    assert_eq!(followers[0].login, "alice");
}

#[test]
fn non_object_element_is_a_parse_error() {
    let body = format!("[{},7]", record("alice", 1));
    assert!(followers_from_body(Some(&body)).is_err());
}

#[test]
fn all_members_are_carried_over() {
    let body = format!("[{}]", record("dana", 44));
    let f = &ok_followers(&body)[0];
    assert_eq!(f.node_id, "MDQ6VXNlcjE=");
    assert_eq!(f.avatar_url, "https://avatars.example/u/44");
    assert_eq!(f.gravatar_id, "");
    assert_eq!(f.url, "https://api.example/users/dana");
    assert_eq!(f.html_url, "https://example.com/dana");
    assert_eq!(f.followers_url, "https://api.example/users/dana/followers");
    assert_eq!(f.following_url, "https://api.example/users/dana/following");
    assert_eq!(f.gists_url, "https://api.example/users/dana/gists");
    assert_eq!(f.starred_url, "https://api.example/users/dana/starred");
    assert_eq!(
        f.subscriptions_url,
        "https://api.example/users/dana/subscriptions"
    );
    assert_eq!(f.organizations_url, "https://api.example/users/dana/orgs");
    assert_eq!(f.repos_url, "https://api.example/users/dana/repos");
    assert_eq!(f.events_url, "https://api.example/users/dana/events");
    assert_eq!(
        f.received_events_url,
        "https://api.example/users/dana/received_events"
    );
    assert_eq!(f.account_type, "User");
    assert!(!f.site_admin);
}

#[test]
fn transport_failure_reports_its_description() {
    let e = FetchError::Transport("connection refused".to_string());
    assert_eq!(e.message(), "connection refused");
    assert_eq!(e.exit_code(), 1);
}

#[test]
fn client_init_failure_reports_its_description() {
    let e = FetchError::ClientInit("bad credential".to_string());
    assert_eq!(e.message(), "bad credential");
    assert_eq!(e.exit_code(), 1);
}

#[test]
fn page_parameter_is_read() {
    assert_eq!(parse_page("https://api.example/user/followers?page=3"), 3);
    assert_eq!(parse_page("https://api.example/user/followers?per_page=50&page=42"), 42);
}

#[test]
fn no_page_parameter_means_first_page() {
    assert_eq!(parse_page("https://api.example/user/followers"), 1);
    assert_eq!(parse_page("https://api.example/xpage=9"), 1);
    assert_eq!(parse_page("https://api.example/?page="), 1);
    assert_eq!(parse_page("https://api.example/?page=next"), 1);
}

#[test]
fn first_page_parameter_wins() {
    assert_eq!(parse_page("https://e/?page=2&page=5"), 2);
}

#[test]
fn page_digits_are_read_whole() {
    assert_eq!(parse_page("https://e/?page=007"), 7);
    assert_eq!(parse_page("https://e/?page=120x"), 120);
}

#[test]
fn link_header_is_ignored() {
    parse_link("<https://api.example/user/followers?page=2>; rel=\"next\"");
}
