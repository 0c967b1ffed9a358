//! Requests and responses as plain values. The library decides what is sent
//! and reads what came back; sending is left to the caller.

use crate::strings::str_eq;
use vstd::prelude::*;
use vstd::string::*;

verus! {

/// The verbs this library uses.
#[derive(Clone, Copy, Debug, PartialEq, Eq, Structural)]
pub enum Method {
    Get,
    Post,
    Patch,
}

/// A request to send: where, how, and with which of the headers this
/// library ever sets. The session cookie always travels in the `Cookie`
/// header, the anti-forgery token in `X-CSRF-TOKEN` once there is one.
#[derive(Clone, Debug, PartialEq, Eq)]
pub struct HttpRequest {
    pub method: Method,
    pub url: String,
    pub cookie: Option<String>,
    pub csrf_token: Option<String>,
    pub content_type: Option<String>,
    pub referer: Option<String>,
    pub user_agent: Option<String>,
    pub accept: Option<String>,
    pub body: Option<String>,
}

/// A request with its texts as sequences of characters.
pub struct RequestText {
    pub method: Method,
    pub url: Seq<char>,
    pub cookie: Option<Seq<char>>,
    pub csrf_token: Option<Seq<char>>,
    pub content_type: Option<Seq<char>>,
    pub referer: Option<Seq<char>>,
    pub user_agent: Option<Seq<char>>,
    pub accept: Option<Seq<char>>,
    pub body: Option<Seq<char>>,
}

/// An optional text as an optional sequence of characters.
pub open spec fn opt_text(text: Option<String>) -> Option<Seq<char>> {
    match text {
        Some(t) => Some(t@),
        None => None,
    }
}

impl View for HttpRequest {
    type V = RequestText;

    open spec fn view(&self) -> RequestText {
        RequestText {
            method: self.method,
            url: self.url@,
            cookie: opt_text(self.cookie),
            csrf_token: opt_text(self.csrf_token),
            content_type: opt_text(self.content_type),
            referer: opt_text(self.referer),
            user_agent: opt_text(self.user_agent),
            accept: opt_text(self.accept),
            body: opt_text(self.body),
        }
    }
}

/// A header or cookie of a response. A header whose value is not visible
/// ASCII text has no value.
#[derive(Clone, Debug, PartialEq, Eq)]
pub struct NamedValue {
    pub name: String,
    pub value: Option<String>,
}

/// A response as received: status code, headers with lower-case names in
/// the order they came, cookies set, and the body as text.
#[derive(Clone, Debug, PartialEq, Eq)]
pub struct HttpResponse {
    pub status: u16,
    pub headers: Vec<NamedValue>,
    pub cookies: Vec<NamedValue>,
    pub body: String,
}

/// A status code in the success class, 200 to 299.
pub open spec fn status_is_success(status: u16) -> bool {
    200 <= status < 300
}

/// The value of the first entry with a given name, if that entry has one.
pub open spec fn first_named(entries: Seq<NamedValue>, name: Seq<char>) -> Option<Seq<char>>
    decreases entries.len(),
{
    if entries.len() == 0 {
        None
    } else if entries[0].name@ == name {
        match entries[0].value {
            Some(value) => Some(value@),
            None => None,
        }
    } else {
        first_named(entries.drop_first(), name)
    }
}

/// Looks an entry up by name: the first one with that name decides.
pub fn find_named(entries: &Vec<NamedValue>, name: &str) -> (found: Option<String>)
    ensures
        match found {
            Some(value) => first_named(entries@, name@) == Some(value@),
            None => first_named(entries@, name@) is None,
        },
{
    let mut i: usize = 0;
    assert(entries@.subrange(0, entries@.len() as int) =~= entries@);
    while i < entries.len()
        invariant
            i <= entries.len(),
            first_named(entries@, name@) == first_named(
                entries@.subrange(i as int, entries@.len() as int),
                name@,
            ),
        decreases entries.len() - i,
    {
        let ghost rest = entries@.subrange(i as int, entries@.len() as int);
        assert(rest[0] == entries@[i as int]);
        assert(rest.drop_first() =~= entries@.subrange(i + 1, entries@.len() as int));
        if str_eq(entries[i].name.as_str(), name) {
            return match &entries[i].value {
                Some(value) => Some(value.clone()),
                None => None,
            };
        }
        i += 1;
    }
    assert(entries@.subrange(i as int, entries@.len() as int).len() == 0);
    None
}

impl HttpResponse {
    /// Whether the status is in the success class.
    pub fn is_success(&self) -> (ok: bool)
        ensures
            ok == status_is_success(self.status),
    {
        200 <= self.status && self.status < 300
    }

    /// The value of a header, looked up by its lower-case name.
    pub fn header(&self, name: &str) -> (found: Option<String>)
        ensures
            match found {
                Some(value) => first_named(self.headers@, name@) == Some(value@),
                None => first_named(self.headers@, name@) is None,
            },
    {
        find_named(&self.headers, name)
    }

    /// The value of a cookie that the response sets.
    pub fn cookie(&self, name: &str) -> (found: Option<String>)
        ensures
            match found {
                Some(value) => first_named(self.cookies@, name@) == Some(value@),
                None => first_named(self.cookies@, name@) is None,
            },
    {
        find_named(&self.cookies, name)
    }
}

} // verus!
