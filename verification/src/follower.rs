//! The follower record shape, and the verified check of a response body
//! against it.
//!
//! A response body is acceptable exactly when it parses as a JSON array whose
//! every element is an object carrying all required members with the required
//! types; extra members are tolerated. The functions here pin down both
//! directions: which bodies are accepted, and that the records handed back
//! carry the members of the response, in response order.

use vstd::prelude::*;

use crate::fetch::FetchError;
use crate::json::{
    json_of, parse_json_text, rep, value_as_array, value_as_bool, value_as_i64, value_as_str,
    value_get_member, JsonRep,
};

verus! {

/// One account that follows the authenticated user, as the response carries
/// it. Every field is required in the response; the URL-like fields are
/// carried opaquely and never interpreted. The response member named `type`
/// lives here under the name `account_type`.
pub struct Follower {
    pub login: String,
    pub id: i32,
    pub node_id: String,
    pub avatar_url: String,
    pub gravatar_id: String,
    pub url: String,
    pub html_url: String,
    pub followers_url: String,
    pub following_url: String,
    pub gists_url: String,
    pub starred_url: String,
    pub subscriptions_url: String,
    pub organizations_url: String,
    pub repos_url: String,
    pub events_url: String,
    pub received_events_url: String,
    pub account_type: String,
    pub site_admin: bool,
}

/// The object members `m` carry a string under the name `k`.
pub open spec fn has_str(m: Map<Seq<char>, JsonRep>, k: Seq<char>) -> bool {
    m.dom().contains(k) && m[k] is Str
}

/// The string that the object members `m` carry under the name `k`.
pub open spec fn str_of(m: Map<Seq<char>, JsonRep>, k: Seq<char>) -> Seq<char> {
    m[k]->text
}

/// A JSON value is one well-formed follower record: an object with all the
/// required members, each of its required type, the account identifier a
/// 32-bit signed integer. Members beyond the required ones are tolerated.
pub open spec fn is_follower_rep(j: JsonRep) -> bool {
    &&& j is Obj
    &&& has_str(j->members, "login"@)
    &&& j->members.dom().contains("id"@)
    &&& j->members["id"@] is Int
    &&& i32::MIN as int <= j->members["id"@]->i as int <= i32::MAX as int
    &&& has_str(j->members, "node_id"@)
    &&& has_str(j->members, "avatar_url"@)
    &&& has_str(j->members, "gravatar_id"@)
    &&& has_str(j->members, "url"@)
    &&& has_str(j->members, "html_url"@)
    &&& has_str(j->members, "followers_url"@)
    &&& has_str(j->members, "following_url"@)
    &&& has_str(j->members, "gists_url"@)
    &&& has_str(j->members, "starred_url"@)
    &&& has_str(j->members, "subscriptions_url"@)
    &&& has_str(j->members, "organizations_url"@)
    &&& has_str(j->members, "repos_url"@)
    &&& has_str(j->members, "events_url"@)
    &&& has_str(j->members, "received_events_url"@)
    &&& has_str(j->members, "type"@)
    &&& j->members.dom().contains("site_admin"@)
    &&& j->members["site_admin"@] is Bool
}

/// The record `f` carries exactly the required members of the object `j`.
pub open spec fn follower_matches(f: Follower, j: JsonRep) -> bool {
    &&& f.login@ == str_of(j->members, "login"@)
    &&& f.id as int == j->members["id"@]->i as int
    &&& f.node_id@ == str_of(j->members, "node_id"@)
    &&& f.avatar_url@ == str_of(j->members, "avatar_url"@)
    &&& f.gravatar_id@ == str_of(j->members, "gravatar_id"@)
    &&& f.url@ == str_of(j->members, "url"@)
    &&& f.html_url@ == str_of(j->members, "html_url"@)
    &&& f.followers_url@ == str_of(j->members, "followers_url"@)
    &&& f.following_url@ == str_of(j->members, "following_url"@)
    &&& f.gists_url@ == str_of(j->members, "gists_url"@)
    &&& f.starred_url@ == str_of(j->members, "starred_url"@)
    &&& f.subscriptions_url@ == str_of(j->members, "subscriptions_url"@)
    &&& f.organizations_url@ == str_of(j->members, "organizations_url"@)
    &&& f.repos_url@ == str_of(j->members, "repos_url"@)
    &&& f.events_url@ == str_of(j->members, "events_url"@)
    &&& f.received_events_url@ == str_of(j->members, "received_events_url"@)
    &&& f.account_type@ == str_of(j->members, "type"@)
    &&& f.site_admin == j->members["site_admin"@]->b
}

/// A JSON value is a well-formed response body: an array whose every element
/// is a follower record. The empty array qualifies.
pub open spec fn is_follower_array_rep(j: JsonRep) -> bool {
    &&& j is Arr
    &&& forall|k: int| 0 <= k < j->items.len() ==> is_follower_rep(#[trigger] j->items[k])
}

/// The records `fs` are exactly the records of the array `j`, in its order.
pub open spec fn followers_match(fs: Seq<Follower>, j: JsonRep) -> bool {
    &&& fs.len() == j->items.len()
    &&& forall|k: int| 0 <= k < fs.len() ==> follower_matches(#[trigger] fs[k], j->items[k])
}

/// Fetch the string member of `v` named `key`, owned.
fn get_str_member(v: &serde_json::Value, key: &str) -> (r: Option<String>)
    ensures
        r is Some <==> (rep(*v) is Obj && has_str(rep(*v)->members, key@)),
        r matches Some(s) ==> s@ == str_of(rep(*v)->members, key@),
{
    match value_get_member(v, key) {
        Some(m) => match value_as_str(m) {
            Some(s) => Some(s.to_owned()),
            None => None,
        },
        None => None,
    }
}

/// Check one element of the response body against the follower record shape
/// and extract the record. `None` exactly on an element that is not a
/// well-formed follower record.
pub fn follower_from_value(v: &serde_json::Value) -> (r: Option<Follower>)
    ensures
        r is Some <==> is_follower_rep(rep(*v)),
        r matches Some(f) ==> follower_matches(f, rep(*v)),
{
    let login = match get_str_member(v, "login") {
        Some(s) => s,
        None => { return None; },
    };
    let id64 = match value_get_member(v, "id") {
        Some(m) => match value_as_i64(m) {
            Some(n) => n,
            None => { return None; },
        },
        None => { return None; },
    };
    if id64 < i32::MIN as i64 || id64 > i32::MAX as i64 {
        return None;
    }
    let node_id = match get_str_member(v, "node_id") {
        Some(s) => s,
        None => { return None; },
    };
    let avatar_url = match get_str_member(v, "avatar_url") {
        Some(s) => s,
        None => { return None; },
    };
    let gravatar_id = match get_str_member(v, "gravatar_id") {
        Some(s) => s,
        None => { return None; },
    };
    let url = match get_str_member(v, "url") {
        Some(s) => s,
        None => { return None; },
    };
    let html_url = match get_str_member(v, "html_url") {
        Some(s) => s,
        None => { return None; },
    };
    let followers_url = match get_str_member(v, "followers_url") {
        Some(s) => s,
        None => { return None; },
    };
    let following_url = match get_str_member(v, "following_url") {
        Some(s) => s,
        None => { return None; },
    };
    let gists_url = match get_str_member(v, "gists_url") {
        Some(s) => s,
        None => { return None; },
    };
    let starred_url = match get_str_member(v, "starred_url") {
        Some(s) => s,
        None => { return None; },
    };
    let subscriptions_url = match get_str_member(v, "subscriptions_url") {
        Some(s) => s,
        None => { return None; },
    };
    let organizations_url = match get_str_member(v, "organizations_url") {
        Some(s) => s,
        None => { return None; },
    };
    let repos_url = match get_str_member(v, "repos_url") {
        Some(s) => s,
        None => { return None; },
    };
    let events_url = match get_str_member(v, "events_url") {
        Some(s) => s,
        None => { return None; },
    };
    let received_events_url = match get_str_member(v, "received_events_url") {
        Some(s) => s,
        None => { return None; },
    };
    let account_type = match get_str_member(v, "type") {
        Some(s) => s,
        None => { return None; },
    };
    let site_admin = match value_get_member(v, "site_admin") {
        Some(m) => match value_as_bool(m) {
            Some(b) => b,
            None => { return None; },
        },
        None => { return None; },
    };
    Some(
        Follower {
            login,
            id: id64 as i32,
            node_id,
            avatar_url,
            gravatar_id,
            url,
            html_url,
            followers_url,
            following_url,
            gists_url,
            starred_url,
            subscriptions_url,
            organizations_url,
            repos_url,
            events_url,
            received_events_url,
            account_type,
            site_admin,
        },
    )
}

/// Check a parsed response body against the follower-array shape. `Ok`
/// exactly on an array of well-formed follower records, carrying the records
/// in response order; any other value is the parsing failure.
pub fn followers_from_value(v: &serde_json::Value) -> (r: Result<Vec<Follower>, FetchError>)
    ensures
        r is Ok <==> is_follower_array_rep(rep(*v)),
        r matches Ok(fs) ==> followers_match(fs@, rep(*v)),
        r matches Err(e) ==> e is Parse,
{
    let arr = match value_as_array(v) {
        Some(a) => a,
        None => { return Err(FetchError::Parse); },
    };
    let mut out: Vec<Follower> = Vec::new();
    let mut idx: usize = 0;
    while idx < arr.len()
        invariant
            rep(*v) is Arr,
            arr@.map_values(|x: serde_json::Value| rep(x)) == rep(*v)->items,
            idx <= arr@.len(),
            out@.len() == idx,
            forall|k: int| 0 <= k < idx ==> is_follower_rep(#[trigger] rep(*v)->items[k]),
            forall|k: int| 0 <= k < idx ==> follower_matches(
                #[trigger] out@[k],
                rep(*v)->items[k],
            ),
        decreases arr@.len() - idx,
    {
        proof {
            assert(rep(*v)->items[idx as int] == rep(arr@[idx as int]));
        }
        match follower_from_value(&arr[idx]) {
            Some(f) => { out.push(f); },
            None => { return Err(FetchError::Parse); },
        }
        idx += 1;
    }
    Ok(out)
}

/// Decide a fetched response body. An absent body, a body that is not
/// acceptable JSON, and a body whose value is not an array of well-formed
/// follower records are all the same parsing failure; any other body yields
/// the records in response order.
pub fn followers_from_body(body: Option<&str>) -> (r: Result<Vec<Follower>, FetchError>)
    ensures
        r is Ok <==> (body matches Some(s) && json_of(s@) matches Some(j)
            && is_follower_array_rep(j)),
        body matches Some(s) ==> json_of(s@) matches Some(j) ==> r matches Ok(fs)
            ==> followers_match(fs@, j),
        r matches Err(e) ==> e is Parse,
{
    match body {
        None => Err(FetchError::Parse),
        Some(s) => match parse_json_text(s) {
            None => Err(FetchError::Parse),
            Some(v) => followers_from_value(&v),
        },
    }
}

/// One output line per follower: the login, in record order.
pub fn login_lines(followers: &Vec<Follower>) -> (r: Vec<String>)
    ensures
        r@.len() == followers@.len(),
        forall|k: int| 0 <= k < followers@.len() ==> #[trigger] r@[k]@ == followers@[k].login@,
{
    let mut out: Vec<String> = Vec::new();
    let mut idx: usize = 0;
    while idx < followers.len()
        invariant
            idx <= followers@.len(),
            out@.len() == idx,
            forall|k: int| 0 <= k < idx ==> #[trigger] out@[k]@ == followers@[k].login@,
        decreases followers@.len() - idx,
    {
        out.push(followers[idx].login.clone());
        idx += 1;
    }
    out
}

/// Whatever records match a well-formed response body, and whatever lines
/// mirror those records, there is exactly one line per record of the body,
/// and the line for each record is that record's login member as the body
/// carries it, in response order.
pub proof fn lemma_lines_follow_response(fs: Seq<Follower>, j: JsonRep, lines: Seq<Seq<char>>)
    requires
        is_follower_array_rep(j),
        followers_match(fs, j),
        lines.len() == fs.len(),
        forall|k: int| 0 <= k < fs.len() ==> #[trigger] lines[k] == fs[k].login@,
    ensures
        lines.len() == j->items.len(),
        forall|k: int| 0 <= k < lines.len() ==> #[trigger] lines[k] == str_of(
            j->items[k]->members,
            "login"@,
        ),
{
    assert forall|k: int| 0 <= k < lines.len() implies #[trigger] lines[k] == str_of(
        j->items[k]->members,
        "login"@,
    ) by {
        assert(follower_matches(fs[k], j->items[k]));
    }
}

} // verus!
