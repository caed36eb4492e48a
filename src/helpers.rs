//! The homeserver's fixed request paths.
use vstd::prelude::*;

use crate::error::PathError;
use crate::text::{contains_dot_dot, has_dot_dot, has_prefix, starts_with};

verus! {

/// Builder of the homeserver's request paths.
pub struct Path {}

/// `/mvp/users/<user_id>/repos/<repo_name>`.
pub open spec fn repo_path(user_id: Seq<char>, repo_name: Seq<char>) -> Seq<char> {
    "/mvp/users/"@ + user_id + "/repos/"@ + repo_name
}

/// `path` without one leading `/`.
pub open spec fn relative(path: Seq<char>) -> Seq<char> {
    if has_prefix(path, "/"@) {
        path.subrange(1, path.len() as int)
    } else {
        path
    }
}

impl Path {
    /// `/mvp/challenge`.
    pub fn get_challenge_string() -> (r: String)
        ensures
            r@ == "/mvp/challenge"@,
    {
        String::from_str("/mvp/challenge")
    }

    /// `/mvp/session/<user_id>`, or `/mvp/session` without a user.
    pub fn get_session_string(user_id: Option<&str>) -> (r: String)
        ensures
            user_id matches Some(u) ==> r@ == "/mvp/session/"@ + u@,
            user_id is None ==> r@ == "/mvp/session"@,
    {
        match user_id {
            Some(u) => String::from_str("/mvp/session/").concat(u),
            None => String::from_str("/mvp/session"),
        }
    }

    /// `/mvp/users/<user_id>/pkarr`.
    pub fn get_signup_string(user_id: &str) -> (r: String)
        ensures
            r@ == "/mvp/users/"@ + user_id@ + "/pkarr"@,
    {
        String::from_str("/mvp/users/").concat(user_id).concat("/pkarr")
    }

    /// The path of a repository, or of `path` inside it (one leading `/` dropped); an
    /// error where any part holds `..`.
    pub fn get_repo_string(user_id: &str, repo_name: &str, path: Option<&str>) -> (r: Result<
        String,
        PathError,
    >)
        ensures
            (has_dot_dot(user_id@) || has_dot_dot(repo_name@) || (path matches Some(p)
                && has_dot_dot(p@))) ==> r == Err::<String, PathError>(PathError::InvalidPath),
            !(has_dot_dot(user_id@) || has_dot_dot(repo_name@) || (path matches Some(p)
                && has_dot_dot(p@))) ==> (r matches Ok(s) && s@ == match path {
                Some(p) => repo_path(user_id@, repo_name@) + "/"@ + relative(p@),
                None => repo_path(user_id@, repo_name@),
            }),
    {
        proof {
            reveal_strlit("/");
        }
        if contains_dot_dot(user_id) || contains_dot_dot(repo_name) {
            return Err(PathError::InvalidPath);
        }
        let base = String::from_str("/mvp/users/").concat(user_id).concat("/repos/").concat(
            repo_name,
        );
        match path {
            Some(p) => {
                if contains_dot_dot(p) {
                    return Err(PathError::InvalidPath);
                }
                let rest = if starts_with(p, "/") {
                    let n = p.unicode_len();
                    p.substring_char(1, n)
                } else {
                    p
                };
                Ok(base.concat("/").concat(rest))
            },
            None => Ok(base),
        }
    }
}

} // verus!
