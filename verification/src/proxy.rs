//! The proxy protocol handler: parse a JSON request, validate its `api`,
//! build the upstream URL, and compose the JSON reply around whatever the
//! upstream call produced.

use crate::json::{canon_json, json_quote, json_str_lit, parse_request, reencode_json,
    spec_parse_request};
use crate::text::{str_eq, trim_bounds, trim_of};
use vstd::prelude::*;

verus! {

/// One parsed proxy request: the lookup service to call, the address to ask
/// it about, and the client's optional correlation id.
pub struct ProxyRequest {
    pub api: String,
    pub ip: String,
    pub id: Option<String>,
}

impl View for ProxyRequest {
    type V = (Seq<char>, Seq<char>, Option<Seq<char>>);

    open spec fn view(&self) -> Self::V {
        (
            self.api@,
            self.ip@,
            match self.id {
                Some(s) => Some(s@),
                None => None,
            },
        )
    }
}

/// The view of an optional string.
pub open spec fn spec_opt_view(id: Option<String>) -> Option<Seq<char>> {
    match id {
        Some(s) => Some(s@),
        None => None,
    }
}

/// The six lookup services a request may name, in their declared order:
/// extremeip, ipinfo, ipregistry, ipstack, nange, nordvpn.
pub open spec fn spec_valid_api(a: Seq<char>) -> bool {
    a == "extremeip"@ || a == "ipinfo"@ || a == "ipregistry"@ || a == "ipstack"@ || a == "nange"@
        || a == "nordvpn"@
}

/// Runtime test for [`spec_valid_api`].
pub fn is_valid_api(api: &str) -> (r: bool)
    ensures
        r == spec_valid_api(api@),
{
    str_eq(api, "extremeip") || str_eq(api, "ipinfo") || str_eq(api, "ipregistry") || str_eq(
        api,
        "ipstack",
    ) || str_eq(api, "nange") || str_eq(api, "nordvpn")
}

/// The fixed reply to a text frame that is not JSON (or not the request
/// shape).
pub open spec fn spec_invalid_json_msg() -> Seq<char> {
    r#"{"error":"Invalid JSON. Expected: {\"api\":\"...\",\"ip\":\"...\",\"id\":\"...(optional)\"}"}"#@
}

/// Runtime value of [`spec_invalid_json_msg`].
pub fn invalid_json_msg() -> (r: String)
    ensures
        r@ == spec_invalid_json_msg(),
{
    String::from_str(
        r#"{"error":"Invalid JSON. Expected: {\"api\":\"...\",\"ip\":\"...\",\"id\":\"...(optional)\"}"}"#,
    )
}

/// The fixed reply to a request naming an unknown `api`, listing the six
/// valid values in their declared order.
pub open spec fn spec_invalid_api_msg() -> Seq<char> {
    r#"{"error":"Invalid API. Valid options: extremeip, ipinfo, ipregistry, ipstack, nange, nordvpn"}"#@
}

/// Runtime value of [`spec_invalid_api_msg`].
pub fn invalid_api_msg() -> (r: String)
    ensures
        r@ == spec_invalid_api_msg(),
{
    String::from_str(
        r#"{"error":"Invalid API. Valid options: extremeip, ipinfo, ipregistry, ipstack, nange, nordvpn"}"#,
    )
}

/// The base of every upstream lookup URL.
pub open spec fn spec_base_url() -> Seq<char> {
    "https://fur1.foxomy.com/rustapps/ipgeolocation"@
}

/// The upstream URL for one request: `<base>/<api>?ip=<ip>`, with the `ip`
/// value taken raw.
pub open spec fn spec_url_of(api: Seq<char>, ip: Seq<char>) -> Seq<char> {
    spec_base_url() + "/"@ + api + "?ip="@ + ip
}

/// Build the upstream URL for one request.
pub fn build_url(api: &str, ip: &str) -> (r: String)
    ensures
        r@ == spec_url_of(api@, ip@),
{
    let mut u = String::from_str("https://fur1.foxomy.com/rustapps/ipgeolocation");
    u.append("/");
    u.append(api);
    u.append("?ip=");
    u.append(ip);
    proof {
        assert(u@ =~= spec_url_of(api@, ip@));
    }
    u
}

/// The liveness probe: the text, trimmed, equals `ping` ignoring ASCII
/// case.
pub open spec fn spec_is_ping_probe(s: Seq<char>) -> bool {
    let t = trim_of(s);
    t.len() == 4 && (t[0] == 'p' || t[0] == 'P') && (t[1] == 'i' || t[1] == 'I') && (t[2] == 'n'
        || t[2] == 'N') && (t[3] == 'g' || t[3] == 'G')
}

/// Runtime test for [`spec_is_ping_probe`].
pub fn is_ping_probe(s: &str) -> (r: bool)
    ensures
        r == spec_is_ping_probe(s@),
{
    let (i, j) = trim_bounds(s);
    if j - i != 4 {
        return false;
    }
    let c0 = s.get_char(i);
    let c1 = s.get_char(i + 1);
    let c2 = s.get_char(i + 2);
    let c3 = s.get_char(i + 3);
    proof {
        assert(trim_of(s@)[0] == s@[i as int]);
        assert(trim_of(s@)[1] == s@[i + 1]);
        assert(trim_of(s@)[2] == s@[i + 2]);
        assert(trim_of(s@)[3] == s@[i + 3]);
    }
    (c0 == 'p' || c0 == 'P') && (c1 == 'i' || c1 == 'I') && (c2 == 'n' || c2 == 'N') && (c3 == 'g'
        || c3 == 'G')
}

/// The upstream call one valid request asks for, together with what the
/// reply must echo.
pub struct FetchJob {
    pub url: String,
    pub api: String,
    pub id: Option<String>,
}

/// What handling one proxy text frame asks of the session: answer at once,
/// or call upstream first.
pub enum ProxyStep {
    Reply(String),
    Fetch(FetchJob),
}

/// The whole answer-or-fetch decision for one proxy text frame.
pub open spec fn spec_proxy_step_ok(t: Seq<char>, r: ProxyStep) -> bool {
    if spec_is_ping_probe(t) {
        r matches ProxyStep::Reply(p) && p@ == "pong"@
    } else {
        match spec_parse_request(t) {
            None => r matches ProxyStep::Reply(p) && p@ == spec_invalid_json_msg(),
            Some(q) => if !spec_valid_api(q.0) {
                r matches ProxyStep::Reply(p) && p@ == spec_invalid_api_msg()
            } else {
                r matches ProxyStep::Fetch(j) && j.url@ == spec_url_of(q.0, q.1) && j.api@ == q.0
                    && spec_opt_view(j.id) == q.2
            },
        }
    }
}

/// Handle one inbound proxy text frame up to the upstream call: the liveness
/// probe and both validation failures are answered at once; a valid request
/// becomes a [`FetchJob`].
pub fn proxy_handle_text(text: &str) -> (r: ProxyStep)
    ensures
        spec_proxy_step_ok(text@, r),
{
    if is_ping_probe(text) {
        return ProxyStep::Reply(String::from_str("pong"));
    }
    match parse_request(text) {
        None => ProxyStep::Reply(invalid_json_msg()),
        Some(q) => {
            if !is_valid_api(q.api.as_str()) {
                ProxyStep::Reply(invalid_api_msg())
            } else {
                let url = build_url(q.api.as_str(), q.ip.as_str());
                ProxyStep::Fetch(FetchJob { url, api: q.api, id: q.id })
            }
        },
    }
}

/// An error object `{"error":<msg>}`, the shape every recoverable failure is
/// reported in.
pub open spec fn spec_error_data(msg: Seq<char>) -> Seq<char> {
    "{\"error\":"@ + json_str_lit(msg) + "}"@
}

/// Build an error object.
pub fn error_data(msg: &str) -> (r: String)
    ensures
        r@ == spec_error_data(msg@),
{
    let mut r = String::from_str("{\"error\":");
    let q = json_quote(msg);
    r.append(q.as_str());
    r.append("}");
    proof {
        assert(r@ =~= spec_error_data(msg@));
    }
    r
}

/// The reply to one valid request: `{"api":<api>,"data":<data>}`, with
/// `"id":<id>` appended exactly where the request carried an id.
pub open spec fn spec_compose(api: Seq<char>, data: Seq<char>, id: Option<Seq<char>>) -> Seq<
    char,
> {
    "{\"api\":"@ + json_str_lit(api) + ",\"data\":"@ + data + (match id {
        Some(i) => ",\"id\":"@ + json_str_lit(i),
        None => Seq::<char>::empty(),
    }) + "}"@
}

/// Compose the reply to one valid request from its `api`, the `data` JSON
/// text, and the optional `id`.
pub fn compose_response(api: &str, data: &str, id: &Option<String>) -> (r: String)
    ensures
        r@ == spec_compose(api@, data@, spec_opt_view(*id)),
{
    let mut r = String::from_str("{\"api\":");
    let qa = json_quote(api);
    r.append(qa.as_str());
    r.append(",\"data\":");
    r.append(data);
    match id {
        Some(i) => {
            r.append(",\"id\":");
            let qi = json_quote(i.as_str());
            r.append(qi.as_str());
        },
        None => {},
    }
    r.append("}");
    proof {
        assert(r@ =~= spec_compose(api@, data@, spec_opt_view(*id)));
    }
    r
}

/// What the upstream HTTP call came back with: a body to pass through, or
/// the transport failure's description.
pub enum FetchOutcome {
    Body(String),
    Failed(String),
}

/// The `data` member the reply carries for one fetch outcome: the compact
/// re-encoding of a JSON body, and an inline error object for a non-JSON
/// body or a failed call.
pub open spec fn spec_outcome_data(o: FetchOutcome) -> Seq<char> {
    match o {
        FetchOutcome::Body(b) => match canon_json(b@) {
            Ok(c) => c,
            Err(e) => spec_error_data("Failed to parse response: "@ + e),
        },
        FetchOutcome::Failed(c) => spec_error_data("Request failed: "@ + c@),
    }
}

/// Finish one proxied request once the upstream call has come back: every
/// outcome, success or failure, becomes a well-formed reply.
pub fn proxy_finish(api: &str, id: &Option<String>, outcome: FetchOutcome) -> (r: String)
    ensures
        r@ == spec_compose(api@, spec_outcome_data(outcome), spec_opt_view(*id)),
{
    let data: String = match outcome {
        FetchOutcome::Body(b) => match reencode_json(b.as_str()) {
            Ok(c) => c,
            Err(e) => {
                let mut m = String::from_str("Failed to parse response: ");
                m.append(e.as_str());
                error_data(m.as_str())
            },
        },
        FetchOutcome::Failed(c) => {
            let mut m = String::from_str("Request failed: ");
            m.append(c.as_str());
            error_data(m.as_str())
        },
    };
    compose_response(api, data.as_str(), id)
}

/// The reply echoes the request's id verbatim, and only where one was
/// given: with `id` omitted the reply holds exactly the `api` and `data`
/// members, and with `id` present it is that same reply with one `"id"`
/// member, carrying the request's own id, spliced in before the closing
/// brace.
pub proof fn lemma_id_round_trip(api: Seq<char>, data: Seq<char>, id: Seq<char>)
    ensures
        spec_compose(api, data, None) =~= "{\"api\":"@ + json_str_lit(api) + ",\"data\":"@ + data
            + "}"@,
        spec_compose(api, data, Some(id)) =~= spec_compose(api, data, None).drop_last() + ",\"id\":"@
            + json_str_lit(id) + "}"@,
{
    reveal_strlit("}");
    assert(("}"@).len() == 1);
    let head = "{\"api\":"@ + json_str_lit(api) + ",\"data\":"@ + data;
    assert(spec_compose(api, data, None) =~= head + "}"@);
    assert((head + "}"@).drop_last() =~= head);
}

} // verus!
