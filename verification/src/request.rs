//! The one request that the backend sends: a POST of a GraphQL query to the
//! GitHub API, with the user's login as the query's variable.

use crate::json::{json_text, object_value, text_value, to_text, JsonModel};
use vstd::prelude::*;

verus! {

/// The method of the request.
pub const METHOD: &'static str = "POST";

/// Where the request goes.
pub const ENDPOINT: &'static str = "https://api.github.com/graphql";

/// The value of the `User-Agent` header.
pub const USER_AGENT: &'static str = "github-widget";

/// The GraphQL query that asks for the contribution calendar of `$login`.
pub const QUERY: &'static str = r#"
        query($login: String!) {
            user(login: $login) {
                contributionsCollection {
                    contributionCalendar {
                        weeks {
                            contributionDays {
                                date
                                contributionCount
                            }
                        }
                    }
                }
            }
        }
    "#;

/// A header line: its name and its value.
#[derive(Debug)]
pub struct Header {
    pub name: String,
    pub value: String,
}

/// A request: the method, the address, the header lines in the order in which
/// they are set, and the body.
#[derive(Debug)]
pub struct ApiRequest {
    pub method: String,
    pub url: String,
    pub headers: Vec<Header>,
    pub body: String,
}

/// What an [`ApiRequest`] stands for.
pub struct ApiRequestView {
    pub method: Seq<char>,
    pub url: Seq<char>,
    pub headers: Seq<(Seq<char>, Seq<char>)>,
    pub body: Seq<char>,
}

impl View for ApiRequest {
    type V = ApiRequestView;

    open spec fn view(&self) -> ApiRequestView {
        ApiRequestView {
            method: self.method@,
            url: self.url@,
            headers: Seq::new(
                self.headers.len() as nat,
                |i: int| (self.headers[i].name@, self.headers[i].value@),
            ),
            body: self.body@,
        }
    }
}

/// The document that the body holds: `{query, variables: {login}}`.
pub open spec fn request_document(username: Seq<char>) -> JsonModel {
    JsonModel::Object(
        Map::empty().insert("query"@, JsonModel::Text(QUERY@)).insert(
            "variables"@,
            JsonModel::Object(Map::empty().insert("login"@, JsonModel::Text(username))),
        ),
    )
}

/// The header lines of a request: the content type and the user agent, and
/// the bearer token after them when there is one.
pub open spec fn request_headers(token: Option<Seq<char>>) -> Seq<(Seq<char>, Seq<char>)> {
    let fixed = seq![("Content-Type"@, "application/json"@), ("User-Agent"@, USER_AGENT@)];
    match token {
        Some(secret) => fixed.push(("Authorization"@, "Bearer "@ + secret)),
        None => fixed,
    }
}

/// The request for the calendar of `username`.
pub open spec fn request_for(username: Seq<char>, token: Option<Seq<char>>) -> ApiRequestView {
    ApiRequestView {
        method: METHOD@,
        url: ENDPOINT@,
        headers: request_headers(token),
        body: json_text(request_document(username)),
    }
}

/// A token that may be absent, by its view.
pub open spec fn token_view(token: Option<&str>) -> Option<Seq<char>> {
    match token {
        Some(secret) => Some(secret@),
        None => None,
    }
}

fn header(name: &str, value: String) -> (h: Header)
    ensures
        h.name@ == name@,
        h.value@ == value@,
{
    Header { name: name.to_owned(), value }
}

/// Builds the document of the body.
fn build_document(username: &str) -> (doc: serde_json::Value)
    ensures
        crate::json::json_model(doc) == request_document(username@),
{
    let mut variables: Vec<(String, serde_json::Value)> = Vec::new();
    variables.push(("login".to_owned(), text_value(username.to_owned())));
    let ghost inner = variables@;
    assert(inner.drop_last() =~= Seq::empty());
    let variables_value = object_value(variables);
    let mut fields: Vec<(String, serde_json::Value)> = Vec::new();
    fields.push(("query".to_owned(), text_value(QUERY.to_owned())));
    fields.push(("variables".to_owned(), variables_value));
    proof {
        reveal_strlit("query");
        reveal_strlit("variables");
        assert("query"@.len() != "variables"@.len());
        let outer = fields@;
        assert(outer.drop_last().drop_last() =~= Seq::empty());
        assert(outer.drop_last().last() == outer[0]);
        reveal_with_fuel(crate::json::fields_model, 3);
    }
    object_value(fields)
}

/// Builds the request for the calendar of `username`, authorised by `token`
/// when one is given.
pub fn build_request(username: &str, token: Option<&str>) -> (request: ApiRequest)
    ensures
        request@ == request_for(username@, token_view(token)),
{
    let mut headers: Vec<Header> = Vec::new();
    headers.push(header("Content-Type", "application/json".to_owned()));
    headers.push(header("User-Agent", USER_AGENT.to_owned()));
    match token {
        Some(secret) => {
            headers.push(header("Authorization", String::from_str("Bearer ").concat(secret)));
        },
        None => {},
    }
    let doc = build_document(username);
    let request = ApiRequest {
        method: METHOD.to_owned(),
        url: ENDPOINT.to_owned(),
        headers,
        body: to_text(&doc),
    };
    assert(request@.headers =~= request_headers(token_view(token)));
    request
}

} // verus!
