use vstd::prelude::*;

use crate::envelope::GenericSduiResponse;
use crate::error::{SduiError, SduiResult};
use crate::json::{parsed_json, Json};
use crate::rate_limit::{rate_limit_of, RateLimit};

verus! {

/// Address of the login endpoint.
pub const LOGIN_URL: &'static str = "https://api.sdui.app/v1/auth/login";

/// Address of the school search endpoint, before the search term.
pub const SEARCH_URL_PREFIX: &'static str = "https://api.sdui.app/v1/leads?search=";

/// One school of a search result.
#[derive(Debug, PartialEq, Eq)]
pub struct School {
    pub id: u64,
    pub name: String,
}

/// What a login returns: an access token and how long it stays valid.
#[derive(Debug, Clone, Hash, PartialEq, Eq, PartialOrd, Ord)]
pub struct LoginResponse {
    access_token: String,
    expires_in: u64,
}

/// What a login sends: the user's credentials, the school's short link, and
/// whether the session persists and the server reports errors.
#[derive(Debug)]
pub struct LoginData {
    pub identifier: String,
    pub password: String,
    pub slink: String,
    pub stay_logged_in: bool,
    pub show_error: bool,
}

/// The school an item of a search result stands for: an object with an
/// unsigned integer `id` and a string `name`.
pub open spec fn school_of(item: Json) -> Option<School> {
    match (item.field("id"@), item.field("name"@)) {
        (Some(id), Some(name)) => match (id.u64_value(), name.str_value()) {
            (Some(n), Some(s)) => Some(School { id: n, name: s }),
            _ => None,
        },
        _ => None,
    }
}

/// The schools of a search result: those items that are schools, in order;
/// the others are left out.
pub open spec fn schools_of(items: Seq<Json>) -> Seq<School> {
    items.filter_map(|item: Json| school_of(item))
}

/// What a search yields for a parsed response document.
pub open spec fn search_outcome(doc: Json) -> Result<Seq<School>, SduiError> {
    match doc.field("data"@) {
        Some(Json::Array(items)) => Ok(schools_of(items@)),
        _ => Err(SduiError::JSONError),
    }
}

/// Token and expiry of a login result: an object with a string
/// `access_token` and an unsigned integer `expires_in`.
pub open spec fn login_of(data: Json) -> Option<(Seq<char>, u64)> {
    match (data.field("access_token"@), data.field("expires_in"@)) {
        (Some(t), Some(e)) => match (t.str_value(), e.u64_value()) {
            (Some(s), Some(n)) => Some((s@, n)),
            _ => None,
        },
        _ => None,
    }
}

/// What a login yields for a parsed response document.
pub open spec fn login_outcome(doc: Json) -> Result<(Seq<char>, u64), SduiError> {
    match doc.field("data"@) {
        Some(d) => match login_of(d) {
            Some(m) => Ok(m),
            None => Err(SduiError::LoginError),
        },
        None => Err(SduiError::JSONError),
    }
}

impl School {
    /// Reads one item of a search result; `None` unless it is an object with
    /// an unsigned integer `id` and a string `name`.
    pub fn from_value(item: &Json) -> (r: Option<School>)
        ensures
            r == school_of(*item),
    {
        let id = match item.get("id") {
            Some(j) => j,
            None => return None,
        };
        let name = match item.get("name") {
            Some(j) => j,
            None => return None,
        };
        let n = match id.as_u64() {
            Some(n) => n,
            None => return None,
        };
        match name {
            Json::Str(s) => Some(School { id: n, name: s.clone() }),
            _ => None,
        }
    }
}

/// The schools of a search result's `data`: the items that are schools, in
/// their order. Items of another shape are skipped; `data` that is not an
/// array is a `JSONError`.
pub fn schools_from_data(data: &Json) -> (r: Result<Vec<School>, SduiError>)
    ensures
        match data {
            Json::Array(items) => r matches Ok(v) && v@ == schools_of(items@),
            _ => r matches Err(SduiError::JSONError),
        },
{
    let items = match data {
        Json::Array(items) => items,
        _ => return Err(SduiError::JSONError),
    };
    let mut out: Vec<School> = Vec::new();
    let mut i: usize = 0;
    while i < items.len()
        invariant
            i <= items@.len(),
            out@ == schools_of(items@.subrange(0, i as int)),
        decreases items.len() - i,
    {
        let ghost next = items@.subrange(0, i + 1);
        assert(next.drop_last() =~= items@.subrange(0, i as int));
        assert(next.last() == items@[i as int]);
        match School::from_value(&items[i]) {
            Some(s) => {
                out.push(s);
            },
            None => {},
        }
        assert(out@ =~= schools_of(next));
        i = i + 1;
    }
    assert(items@.subrange(0, items@.len() as int) =~= items@);
    Ok(out)
}

impl LoginResponse {
    /// The access token this result carries.
    pub closed spec fn token(&self) -> Seq<char> {
        self.access_token@
    }

    /// Seconds until the token expires.
    pub closed spec fn expiry(&self) -> u64 {
        self.expires_in
    }

    /// Reads a login result's `data`; `None` unless it is an object with a
    /// string `access_token` and an unsigned integer `expires_in`.
    pub fn from_value(data: &Json) -> (r: Option<LoginResponse>)
        ensures
            r is Some <==> login_of(*data) is Some,
            r matches Some(l) ==> login_of(*data) == Some((l.token(), l.expiry())),
    {
        let token = match data.get("access_token") {
            Some(Json::Str(s)) => s,
            _ => return None,
        };
        let expires_in = match data.get("expires_in") {
            Some(e) => match e.as_u64() {
                Some(n) => n,
                None => return None,
            },
            None => return None,
        };
        Some(LoginResponse { access_token: token.clone(), expires_in })
    }

    /// The access token.
    pub fn get_token(&self) -> (r: String)
        ensures
            r@ == self.token(),
    {
        self.access_token.clone()
    }

    /// Seconds until the token expires.
    pub fn get_expires_in(&self) -> (r: u64)
        ensures
            r == self.expiry(),
    {
        self.expires_in
    }
}

/// The login result of a response's `data`; `LoginError` when it lacks a
/// required field or holds one of the wrong type.
pub fn login_from_data(data: &Json) -> (r: Result<LoginResponse, SduiError>)
    ensures
        r is Ok <==> login_of(*data) is Some,
        r matches Ok(l) ==> login_of(*data) == Some((l.token(), l.expiry())),
        r matches Err(e) ==> e is LoginError,
{
    match LoginResponse::from_value(data) {
        Some(l) => Ok(l),
        None => Err(SduiError::LoginError),
    }
}

/// The address that searches for schools matching `school`.
pub fn search_url(school: &str) -> (r: String)
    ensures
        r@ == SEARCH_URL_PREFIX@ + school@,
{
    String::from_str(SEARCH_URL_PREFIX).concat(school)
}

/// A search response, its body already parsed: the schools of its `data`
/// array beside the rate limit of `headers`.
pub fn search_from_json(headers: &Vec<(String, String)>, doc: Json) -> (r: SduiResult<Vec<School>>)
    ensures
        match search_outcome(doc) {
            Ok(s) => r matches Ok((v, rl)) && v@ == s && rl == rate_limit_of(headers@),
            Err(_) => r matches Err(SduiError::JSONError),
        },
{
    let rate_limit = RateLimit::from_headers(headers);
    let envelope = match GenericSduiResponse::from_json(doc) {
        Ok(e) => e,
        Err(e) => return Err(e),
    };
    match schools_from_data(&envelope.data) {
        Ok(schools) => Ok((schools, rate_limit)),
        Err(e) => Err(e),
    }
}

/// A search response: the schools of its body beside the rate limit of its
/// headers. A body that is not JSON is a `JSONError`, as is one without a
/// `data` array; no other error comes.
pub fn search_schools_response(headers: &Vec<(String, String)>, body: &str) -> (r: SduiResult<
    Vec<School>,
>)
    ensures
        match parsed_json(body@) {
            Some(doc) => match search_outcome(doc) {
                Ok(s) => r matches Ok((v, rl)) && v@ == s && rl == rate_limit_of(headers@),
                Err(_) => r matches Err(SduiError::JSONError),
            },
            None => r matches Err(SduiError::JSONError),
        },
        body@.len() == 0 ==> r matches Err(SduiError::JSONError),
{
    match Json::parse(body) {
        Some(doc) => search_from_json(headers, doc),
        None => Err(SduiError::JSONError),
    }
}

/// A login response, its body already parsed: the login result of its `data`
/// beside the rate limit of `headers`.
pub fn login_from_json(headers: &Vec<(String, String)>, doc: Json) -> (r: SduiResult<LoginResponse>)
    ensures
        match login_outcome(doc) {
            Ok(m) => r matches Ok((l, rl)) && (l.token(), l.expiry()) == m && rl == rate_limit_of(
                headers@,
            ),
            Err(e) => r matches Err(f) && f == e,
        },
{
    let rate_limit = RateLimit::from_headers(headers);
    let envelope = match GenericSduiResponse::from_json(doc) {
        Ok(e) => e,
        Err(e) => return Err(e),
    };
    match login_from_data(&envelope.data) {
        Ok(l) => Ok((l, rate_limit)),
        Err(e) => Err(e),
    }
}

/// A login response: the login result of its body beside the rate limit of
/// its headers. A body that is not JSON, or has no `data`, is a `JSONError`;
/// `data` without a usable token is a `LoginError`.
pub fn login_response(headers: &Vec<(String, String)>, body: &str) -> (r: SduiResult<
    LoginResponse,
>)
    ensures
        match parsed_json(body@) {
            Some(doc) => match login_outcome(doc) {
                Ok(m) => r matches Ok((l, rl)) && (l.token(), l.expiry()) == m && rl
                    == rate_limit_of(headers@),
                Err(e) => r matches Err(f) && f == e,
            },
            None => r matches Err(SduiError::JSONError),
        },
        body@.len() == 0 ==> r matches Err(SduiError::JSONError),
{
    match Json::parse(body) {
        Some(doc) => login_from_json(headers, doc),
        None => Err(SduiError::JSONError),
    }
}


proof fn lemma_filter_map_is_filter_then_map(items: Seq<Json>)
    ensures
        schools_of(items) == items.filter(|item: Json| school_of(item) is Some).map_values(
            |item: Json| school_of(item)->Some_0,
        ),
    decreases items.len(),
{
    reveal(Seq::filter);
    let p = |item: Json| school_of(item) is Some;
    let g = |item: Json| school_of(item)->Some_0;
    if items.len() > 0 {
        lemma_filter_map_is_filter_then_map(items.drop_last());
        let rest = items.drop_last().filter(p);
        if p(items.last()) {
            assert(items.filter(p) == rest.push(items.last()));
            assert(rest.push(items.last()).map_values(g) =~= rest.map_values(g).push(
                g(items.last()),
            ));
            assert(schools_of(items) =~= schools_of(items.drop_last()) + seq![g(items.last())]);
        } else {
            assert(items.filter(p) == rest);
        }
    } else {
        assert(items.filter(p) =~= Seq::<Json>::empty());
        assert(schools_of(items) =~= Seq::<School>::empty());
    }
}

/// A search keeps exactly the items of its `data` array that are schools, in
/// their relative order, and does not fail because of the other items.
pub proof fn lemma_search_keeps_valid_items_in_order(doc: Json, items: Vec<Json>)
    requires
        doc.field("data"@) == Some(Json::Array(items)),
    ensures
        search_outcome(doc) == Ok::<Seq<School>, SduiError>(
            items@.filter(|item: Json| school_of(item) is Some).map_values(
                |item: Json| school_of(item)->Some_0,
            ),
        ),
{
    lemma_filter_map_is_filter_then_map(items@);
}

/// A login whose `data` lacks `access_token` or `expires_in` fails with
/// `LoginError`: it never yields a partly filled result.
pub proof fn lemma_login_missing_field_fails(doc: Json, data: Json)
    requires
        doc.field("data"@) == Some(data),
        data.field("access_token"@) is None || data.field("expires_in"@) is None,
    ensures
        login_outcome(doc) == Err::<(Seq<char>, u64), SduiError>(SduiError::LoginError),
{
}

} // verus!
