use pubky_core_client::error::PathError as Error;
use pubky_core_client::helpers::Path;
use pubky_core_client::http::{cookie_header, update_session};
use pubky_core_client::paykit::Paykit;

#[test]
fn test_path() {
    assert_eq!(Path::get_challenge_string(), "/mvp/challenge");
    assert_eq!(Path::get_session_string(None), "/mvp/session");
    assert_eq!(
        Path::get_session_string(Some("user_id")),
        "/mvp/session/user_id"
    );
    assert_eq!(
        Path::get_signup_string("user_id"),
        "/mvp/users/user_id/pkarr"
    );
    assert_eq!(
        Path::get_repo_string("user_id", "repo_name", None).unwrap(),
        "/mvp/users/user_id/repos/repo_name"
    );
    assert_eq!(
        Path::get_repo_string("user_id", "repo_name", Some("path")).unwrap(),
        "/mvp/users/user_id/repos/repo_name/path"
    );
    assert_eq!(
        Path::get_repo_string("user_id", "repo_name", Some("/path")).unwrap(),
        "/mvp/users/user_id/repos/repo_name/path"
    );

    assert_eq!(
        Path::get_repo_string("../user_id", "repo_name", Some("path")).unwrap_err(),
        Error::InvalidPath
    );

    assert_eq!(
        Path::get_repo_string("user_id", "../repo_name", Some("path")).unwrap_err(),
        Error::InvalidPath
    );

    assert_eq!(
        Path::get_repo_string("user_id", "repo_name", Some("../path")).unwrap_err(),
        Error::InvalidPath
    );

    assert_eq!(
        Path::get_repo_string("user_id/..", "repo_name", Some("../path")).unwrap_err(),
        Error::InvalidPath
    );
}

#[test]
fn single_dots_are_allowed() {
    assert_eq!(
        Path::get_repo_string("u.1", "r.2", Some("a/./b")).unwrap(),
        "/mvp/users/u.1/repos/r.2/a/./b"
    );
}

#[test]
fn get_url() {
    let _paykit = Paykit::new();
    let url = Some("slashpay.json");
    assert_eq!(Paykit::get_url(url), String::from("slashpay.json"));

    let url = None;
    assert_eq!(Paykit::get_url(url), String::from("slashpay.json"));

    assert_eq!(Paykit::get_url(Some("other.json")), "other.json");
}

#[test]
fn session_cookie_rules() {
    assert_eq!(cookie_header(&None), None);
    assert_eq!(
        cookie_header(&Some("abc".to_string())),
        Some("sessionId=abc".to_string())
    );
    let mut session = Some("old".to_string());
    update_session(&mut session, &None);
    assert_eq!(session, Some("old".to_string()));
    update_session(&mut session, &Some("new".to_string()));
    assert_eq!(session, Some("new".to_string()));
}
