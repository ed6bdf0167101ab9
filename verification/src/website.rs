//! The HTTP control surface: one request at a time is routed by its path,
//! its query string is decoded, and a reply or a follow-up action is
//! decided.
//!
//! The library decides everything about a request except the work that
//! touches the world: the binary accepts connections, hands the request
//! path to [`route_request`], carries out the action it returns (serve the
//! landing page, open, remove, list), and sends back the reply the library
//! builds.

use vstd::prelude::*;
use crate::text::{
    append_json_escaped, dec_of, json_escaped, push_char, starts_with_seq, str_eq,
    str_starts_with, to_decimal,
};

verus! {

/// The address the server listens on.
pub const SERVER_ADDR: &'static str = "0.0.0.0:8000";

/// One decoded `key=value` pair of a query string.
pub struct QueryParam {
    pub key: String,
    pub value: String,
}

/// The key/value pairs that decoding `url`'s query string yields, in order
/// of occurrence, or nothing when `url` does not parse as an absolute URL.
/// The pairs are a function of the URL text alone.
pub uninterp spec fn query_pairs_of(url: Seq<char>) -> Option<Seq<(Seq<char>, Seq<char>)>>;

/// The pairs a decoded parameter list stands for.
pub open spec fn pairs_view(pairs: Seq<QueryParam>) -> Seq<(Seq<char>, Seq<char>)> {
    pairs.map_values(|p: QueryParam| (p.key@, p.value@))
}

/// Relies on `url::Url::parse` and `url::Url::query_pairs`: parsing the
/// text as an absolute URL and decoding its query string into key/value
/// pairs in order of occurrence. Both are functions of the URL text alone;
/// what they yield is named `query_pairs_of`. Returns `None` when the text
/// does not parse as a URL.
#[verifier::external_body]
fn parse_query_pairs(full_url: &str) -> (r: Option<Vec<QueryParam>>)
    ensures
        match r {
            Some(pairs) => query_pairs_of(full_url@) matches Some(q) && pairs_view(pairs@)
                == q,
            None => query_pairs_of(full_url@) is None,
        },
{
    match url::Url::parse(full_url) {
        Ok(parsed) => Some(
            parsed
                .query_pairs()
                .map(|(k, v)| QueryParam { key: k.to_string(), value: v.to_string() })
                .collect(),
        ),
        Err(_) => None,
    }
}

/// The parameter mapping a list of query pairs denotes: every key maps to
/// its value, the last occurrence of a repeated key winning.
pub open spec fn params_of(pairs: Seq<(Seq<char>, Seq<char>)>) -> Map<Seq<char>, Seq<char>>
    decreases pairs.len(),
{
    if pairs.len() == 0 {
        Map::empty()
    } else {
        params_of(pairs.drop_last()).insert(pairs.last().0, pairs.last().1)
    }
}

/// Looks `key` up among the decoded pairs, the last occurrence winning, as
/// inserting the pairs into a mapping in order would have it.
pub fn get_param(pairs: &Vec<QueryParam>, key: &str) -> (r: Option<String>)
    ensures
        ({
            let m = params_of(pairs_view(pairs@));
            match r {
                Some(v) => m.contains_key(key@) && v@ == m[key@],
                None => !m.contains_key(key@),
            }
        }),
{
    let ghost pv = pairs_view(pairs@);
    let mut found: Option<String> = None;
    let mut i: usize = 0;
    while i < pairs.len()
        invariant
            i <= pairs@.len(),
            pv == pairs_view(pairs@),
            match found {
                Some(v) => params_of(pv.take(i as int)).contains_key(key@) && v@ == params_of(
                    pv.take(i as int),
                )[key@],
                None => !params_of(pv.take(i as int)).contains_key(key@),
            },
        decreases pairs@.len() - i,
    {
        proof {
            assert(pv.take(i + 1).drop_last() =~= pv.take(i as int));
            assert(pv.take(i + 1).last() == pv[i as int]);
        }
        if str_eq(pairs[i].key.as_str(), key) {
            found = Some(pairs[i].value.clone());
        }
        i += 1;
    }
    proof {
        assert(pv.take(pairs@.len() as int) =~= pv);
    }
    found
}

/// One HTTP reply: a status code, whether the body is JSON, and the body.
pub struct HttpReply {
    pub status: u16,
    pub content_type_json: bool,
    pub body: String,
}

/// The error payload: `{"error": "<message>"}`.
pub open spec fn error_body_of(message: Seq<char>) -> Seq<char> {
    "{\"error\": \""@ + message + "\"}"@
}

/// The success payload: `{"message": "<message>"}`.
pub open spec fn message_body_of(message: Seq<char>) -> Seq<char> {
    "{\"message\": \""@ + message + "\"}"@
}

/// A server-error reply carrying `{"error": "<message>"}`.
pub fn err_response(message: &str) -> (r: HttpReply)
    ensures
        r.status == 500,
        r.content_type_json,
        r.body@ == error_body_of(message@),
{
    let mut body = "{\"error\": \"".to_owned();
    body.append(message);
    body.append("\"}");
    HttpReply { status: 500, content_type_json: true, body }
}

/// A success reply carrying `{"message": "<message>"}`.
pub fn ok_response(message: &str) -> (r: HttpReply)
    ensures
        r.status == 200,
        r.content_type_json,
        r.body@ == message_body_of(message@),
{
    let mut body = "{\"message\": \"".to_owned();
    body.append(message);
    body.append("\"}");
    HttpReply { status: 200, content_type_json: true, body }
}

/// The reply to a lifecycle route that names no project: a client error,
/// sent before the registry is consulted or any process is spawned.
pub open spec fn is_missing_param_reply(r: HttpReply) -> bool {
    &&& r.status == 400
    &&& r.content_type_json
    &&& r.body@ == error_body_of("You should provide 'project' query param"@)
}

fn missing_param_response() -> (r: HttpReply)
    ensures
        is_missing_param_reply(r),
{
    let mut body = "{\"error\": \"".to_owned();
    body.append("You should provide 'project' query param");
    body.append("\"}");
    HttpReply { status: 400, content_type_json: true, body }
}

/// The reply to a path outside the route table.
pub open spec fn is_not_found_reply(r: HttpReply) -> bool {
    &&& r.status == 404
    &&& !r.content_type_json
    &&& r.body@ == "Not found"@
}

fn not_found_response() -> (r: HttpReply)
    ensures
        is_not_found_reply(r),
{
    HttpReply { status: 404, content_type_json: false, body: "Not found".to_owned() }
}

/// The reply once an open or remove operation has been attempted: the ok
/// payload on success, and a fixed error payload on failure — the wire
/// never carries the underlying cause, only that the operation failed.
pub fn operation_result_response(succeeded: bool) -> (r: HttpReply)
    ensures
        succeeded ==> r.status == 200 && r.content_type_json && r.body@ == message_body_of(
            "ok"@,
        ),
        !succeeded ==> r.status == 500 && r.content_type_json && r.body@ == error_body_of(
            "Project With given name does not exists"@,
        ),
{
    if succeeded {
        ok_response("ok")
    } else {
        err_response("Project With given name does not exists")
    }
}

/// A project name as a JSON string literal.
pub open spec fn quoted_name(name: Seq<char>) -> Seq<char> {
    seq!['"'] + json_escaped(name) + seq!['"']
}

/// The JSON array elements for a list of names, comma-separated.
pub open spec fn joined_quoted(names: Seq<Seq<char>>) -> Seq<char>
    decreases names.len(),
{
    if names.len() == 0 {
        Seq::empty()
    } else if names.len() == 1 {
        quoted_name(names[0])
    } else {
        joined_quoted(names.drop_last()) + seq![','] + quoted_name(names.last())
    }
}

/// The list payload: `{"projects":[...],"count":N}`.
pub open spec fn list_body_of(names: Seq<Seq<char>>) -> Seq<char> {
    "{\"projects\":["@ + joined_quoted(names) + "],\"count\":"@ + dec_of(names.len())
        + "}"@
}

/// The reply to the list route: the project names and their count as one
/// JSON payload.
pub fn list_response(projects: &Vec<String>) -> (r: HttpReply)
    ensures
        r.status == 200,
        r.content_type_json,
        r.body@ == list_body_of(projects.deep_view()),
{
    let ghost names = projects.deep_view();
    let mut body = "{\"projects\":[".to_owned();
    let mut i: usize = 0;
    while i < projects.len()
        invariant
            i <= projects@.len(),
            names == projects.deep_view(),
            body@ == "{\"projects\":["@ + joined_quoted(names.take(i as int)),
        decreases projects@.len() - i,
    {
        proof {
            assert(names.take(i + 1).drop_last() =~= names.take(i as int));
            assert(names.take(i + 1).last() == names[i as int]);
        }
        if i > 0 {
            push_char(&mut body, ',');
        }
        push_char(&mut body, '"');
        append_json_escaped(&mut body, projects[i].as_str());
        push_char(&mut body, '"');
        proof {
            assert(body@ =~= "{\"projects\":["@ + joined_quoted(names.take(i + 1)));
        }
        i += 1;
    }
    proof {
        assert(names.take(projects@.len() as int) =~= names);
    }
    body.append("],\"count\":");
    let count = to_decimal(projects.len());
    body.append(count.as_str());
    body.append("}");
    proof {
        assert(body@ =~= list_body_of(projects.deep_view()));
    }
    HttpReply { status: 200, content_type_json: true, body }
}

/// What the server must do with one request, beyond what is already decided
/// here: send a ready reply, serve the landing page, run a lifecycle
/// operation and report its outcome, list the projects, or stop because the
/// request path could not be parsed as a URL.
pub enum ServerAction {
    /// Serve the static landing resource.
    ServeIndex,
    /// Send this reply as it stands.
    Respond(HttpReply),
    /// Open the named project in the editor, then report the outcome.
    OpenProject { name: String },
    /// Remove the named project, then report the outcome.
    RemoveProject { name: String },
    /// List the projects as a JSON payload.
    ListProjects,
    /// The request path did not parse as a URL; the server gives up.
    Abort,
}

/// The URL under which a request path's query string is decoded: the
/// request path appended to a synthetic scheme-and-host prefix.
pub open spec fn full_url_of(endpoint: Seq<char>) -> Seq<char> {
    "https://"@ + SERVER_ADDR@ + endpoint
}

/// What routing a lifecycle request must decide: give up when the URL does
/// not parse; answer a client error, without any project named, when the
/// `project` parameter is missing; otherwise carry the named project into
/// the operation.
pub open spec fn param_route_spec(endpoint: Seq<char>, a: ServerAction, open_action: bool) -> bool {
    match query_pairs_of(full_url_of(endpoint)) {
        None => a is Abort,
        Some(pairs) => {
            let params = params_of(pairs);
            if !params.contains_key("project"@) {
                a matches ServerAction::Respond(r) && is_missing_param_reply(r)
            } else if open_action {
                a matches ServerAction::OpenProject { name } && name@ == params["project"@]
            } else {
                a matches ServerAction::RemoveProject { name } && name@ == params["project"@]
            }
        },
    }
}

/// The route table, matched in order: the landing page for `/`, the open
/// operation under `/open`, the project list for `/list`, the remove
/// operation under `/remove`, and a not-found reply for every other path.
pub open spec fn route_spec(endpoint: Seq<char>, a: ServerAction) -> bool {
    if endpoint == "/"@ {
        a is ServeIndex
    } else if starts_with_seq(endpoint, "/open"@) {
        param_route_spec(endpoint, a, true)
    } else if endpoint == "/list"@ {
        a is ListProjects
    } else if starts_with_seq(endpoint, "/remove"@) {
        param_route_spec(endpoint, a, false)
    } else {
        a matches ServerAction::Respond(r) && is_not_found_reply(r)
    }
}

fn handle_param_route(endpoint: &str, open_action: bool) -> (a: ServerAction)
    ensures
        param_route_spec(endpoint@, a, open_action),
{
    let mut full_url = "https://".to_owned();
    full_url.append(SERVER_ADDR);
    full_url.append(endpoint);
    match parse_query_pairs(full_url.as_str()) {
        None => ServerAction::Abort,
        Some(pairs) => match get_param(&pairs, "project") {
            None => ServerAction::Respond(missing_param_response()),
            Some(name) => {
                if open_action {
                    ServerAction::OpenProject { name }
                } else {
                    ServerAction::RemoveProject { name }
                }
            },
        },
    }
}

/// Routes one inbound request by its path and decides the next step, as
/// [`route_spec`] lays down.
pub fn route_request(endpoint: &str) -> (a: ServerAction)
    ensures
        route_spec(endpoint@, a),
{
    if str_eq(endpoint, "/") {
        ServerAction::ServeIndex
    } else if str_starts_with(endpoint, "/open") {
        handle_param_route(endpoint, true)
    } else if str_eq(endpoint, "/list") {
        ServerAction::ListProjects
    } else if str_starts_with(endpoint, "/remove") {
        handle_param_route(endpoint, false)
    } else {
        ServerAction::Respond(not_found_response())
    }
}

/// A request under `/open` whose query names no `project` is answered with
/// the client-error payload, and no open action — so no editor process —
/// can come of it.
pub proof fn lemma_missing_param_never_opens(endpoint: Seq<char>, a: ServerAction)
    requires
        starts_with_seq(endpoint, "/open"@),
        route_spec(endpoint, a),
        query_pairs_of(full_url_of(endpoint)) matches Some(pairs) && !params_of(
            pairs,
        ).contains_key("project"@),
    ensures
        a matches ServerAction::Respond(r) && is_missing_param_reply(r),
        !(a is OpenProject),
{
    reveal_strlit("/");
    reveal_strlit("/open");
    assert(endpoint != "/"@);
}

} // verus!
