//! The requests that a scan sends: which collection, which page.

use vstd::prelude::*;
use vstd::string::*;

verus! {

/// A collection of the remote API that can be scanned.
#[derive(Clone, Copy, Debug, PartialEq, Eq)]
pub enum Selector {
    Contacts,
    Companies,
    Deals,
}

/// The only method that the engine uses.
#[derive(Clone, Copy, Debug, PartialEq, Eq)]
pub enum Method {
    Get,
}

/// A request for one page of a collection.
#[derive(Debug, PartialEq, Eq)]
pub struct Request {
    pub method: Method,
    pub url: String,
    pub headers: Vec<(String, String)>,
    pub body: String,
}

/// What a `Request` holds, with its texts as sequences of characters.
pub struct RequestView {
    pub method: Method,
    pub url: Seq<char>,
    pub headers: Seq<(Seq<char>, Seq<char>)>,
    pub body: Seq<char>,
}

impl View for Request {
    type V = RequestView;

    open spec fn view(&self) -> RequestView {
        RequestView {
            method: self.method,
            url: self.url@,
            headers: self.headers@.map_values(|header: (String, String)| (header.0@, header.1@)),
            body: self.body@,
        }
    }
}

/// The selector that `name` spells, if it spells one.
pub open spec fn selector_named(name: Seq<char>) -> Option<Selector> {
    if name == "contacts"@ {
        Some(Selector::Contacts)
    } else if name == "companies"@ {
        Some(Selector::Companies)
    } else if name == "deals"@ {
        Some(Selector::Deals)
    } else {
        None
    }
}

/// The query that follows the endpoint: the page size, then the cursor
/// where there is one.
pub open spec fn page_query(cursor: Option<Seq<char>>) -> Seq<char> {
    match cursor {
        Some(token) => "?limit=100"@ + "&after="@ + token,
        None => "?limit=100"@,
    }
}

/// The request for the page of `selector` that follows `cursor`.
pub open spec fn page_request(
    base_url: Seq<char>,
    api_key: Seq<char>,
    selector: Selector,
    cursor: Option<Seq<char>>,
) -> RequestView {
    RequestView {
        method: Method::Get,
        url: base_url + selector.endpoint() + page_query(cursor),
        headers: seq![
            ("authorization"@, "Bearer "@ + api_key),
            ("content-type"@, "application/json"@),
        ],
        body: Seq::empty(),
    }
}

impl Selector {
    /// The path of the collection below the API's base address.
    pub open spec fn endpoint(self) -> Seq<char> {
        match self {
            Selector::Contacts => "/crm/v3/objects/contacts"@,
            Selector::Companies => "/crm/v3/objects/companies"@,
            Selector::Deals => "/crm/v3/objects/deals"@,
        }
    }

    /// The path of the collection below the API's base address.
    pub fn path(self) -> (path: &'static str)
        ensures
            path@ == self.endpoint(),
    {
        match self {
            Selector::Contacts => "/crm/v3/objects/contacts",
            Selector::Companies => "/crm/v3/objects/companies",
            Selector::Deals => "/crm/v3/objects/deals",
        }
    }

    /// Reads a selector from its name.
    pub fn named(name: &str) -> (selector: Option<Selector>)
        ensures
            selector == selector_named(name@),
    {
        let name = name.to_owned();
        if name == String::from_str("contacts") {
            Some(Selector::Contacts)
        } else if name == String::from_str("companies") {
            Some(Selector::Companies)
        } else if name == String::from_str("deals") {
            Some(Selector::Deals)
        } else {
            None
        }
    }
}

/// Builds the request for the page of `selector` that follows `cursor`.
pub fn build_request(base_url: &str, api_key: &str, selector: Selector, cursor: &Option<String>) -> (request:
    Request)
    ensures
        request@ == page_request(
            base_url@,
            api_key@,
            selector,
            match cursor {
                Some(token) => Some(token@),
                None => None,
            },
        ),
{
    let mut url = String::from_str(base_url);
    url.append(selector.path());
    url.append("?limit=100");
    match cursor {
        Some(token) => {
            url.append("&after=");
            url.append(token.as_str());
        },
        None => {},
    }
    let mut bearer = String::from_str("Bearer ");
    bearer.append(api_key);
    let mut headers: Vec<(String, String)> = Vec::new();
    headers.push((String::from_str("authorization"), bearer));
    headers.push((String::from_str("content-type"), String::from_str("application/json")));
    let request = Request { method: Method::Get, url, headers, body: String::new() };
    proof {
        let wanted = page_request(
            base_url@,
            api_key@,
            selector,
            match cursor {
                Some(token) => Some(token@),
                None => None,
            },
        );
        assert(request@.headers == wanted.headers);
        assert(request@.url == wanted.url);
    }
    request
}

} // verus!
