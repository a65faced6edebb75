//! The pure logic of the fixed introspection handlers: constant payloads
//! for health, root and help, the echo decision, the catch-all not-found
//! response, the per-endpoint configuration view, the reload trigger and
//! the metrics rendering. The transport (routing, extraction, sending) is
//! the surrounding process's business; these functions decide and build.

use vstd::prelude::*;
use vstd::string::StringExecFns;
use crate::config::ConfigSnapshot;
use crate::config::EndpointConfig;
use crate::config::ReloadSource;
use crate::config::spec_lookup;
use crate::config::spec_reload_error;
use crate::errors::RestError;
use crate::errors::RestErrorView;
use crate::json::json_error_detail;
use crate::json::json_ok;
use crate::json::parse_json;
use crate::metrics::render_metrics;
use crate::state::State;

verus! {

/// The constant health payload.
pub open spec fn spec_health_payload() -> Seq<char> {
    "{\"msg\":\"Healthy\"}"@
}

/// Always succeeds with the constant health payload; reads and writes no
/// state, so repeated calls return identical payloads.
pub fn health() -> (r: String)
    ensures
        r@ == spec_health_payload(),
{
    String::from_str("{\"msg\":\"Healthy\"}")
}

/// The root payload: the process's version, name and description.
pub open spec fn spec_root_payload(
    name: Seq<char>,
    version: Seq<char>,
    description: Seq<char>,
) -> Seq<char> {
    "{\"version\":\""@ + version + "\",\"name\":\""@ + name + "\",\"description\":\""@
        + description + "\"}"@
}

/// Always succeeds with the static metadata payload; for one set of
/// metadata, repeated calls return identical payloads.
pub fn root(name: &str, version: &str, description: &str) -> (r: String)
    ensures
        r@ == spec_root_payload(name@, version@, description@),
{
    String::from_str("{\"version\":\"").concat(version).concat("\",\"name\":\"").concat(
        name,
    ).concat("\",\"description\":\"").concat(description).concat("\"}")
}

/// The static directory of the paths this process serves.
pub open spec fn spec_help_payload() -> Seq<char> {
    "{\"paths\":{\"/health\":\"Get the health of the api\",\"/config\":\"Get config of api\",\"/reload\":\"Reload the api's config\",\"/echo\":\"Echo back json payload (debugging)\",\"/help\":\"Show this help message\",\"/:endpoint\":\"Show config for specific endpoint\",\"/:endpoint/*path\":\"Pass through any request to specified endpoint\"}}"@
}

/// Always succeeds with the constant help payload.
pub fn help() -> (r: String)
    ensures
        r@ == spec_help_payload(),
{
    String::from_str(
        "{\"paths\":{\"/health\":\"Get the health of the api\",\"/config\":\"Get config of api\",\"/reload\":\"Reload the api's config\",\"/echo\":\"Echo back json payload (debugging)\",\"/help\":\"Show this help message\",\"/:endpoint\":\"Show config for specific endpoint\",\"/:endpoint/*path\":\"Pass through any request to specified endpoint\"}}",
    )
}

/// The structured not-found body, carrying the stable application-level
/// error code distinct from the transport status.
pub open spec fn spec_not_found_body() -> Seq<char> {
    "{\"error_code\": 404, \"message\": \"HTTP 404 Not Found\"}"@
}

/// The catch-all for unmatched paths: status 404 with the structured
/// not-found body. The same answer for every unmatched path.
pub fn handler_404() -> (r: (u16, String))
    ensures
        r.0 == 404,
        r.1@ == spec_not_found_body(),
{
    (404, String::from_str("{\"error_code\": 404, \"message\": \"HTTP 404 Not Found\"}"))
}

/// Echo: a body that parses as JSON is handed back as the parsed document;
/// any other body is a structured client error carrying the parse
/// diagnostic, never a crash.
pub fn echo(body: &Vec<u8>) -> (r: Result<serde_json::Value, RestError>)
    ensures
        r is Ok <==> json_ok(body@),
        r matches Err(e) ==> e@ matches RestErrorView::ClientInput { .. },
{
    match parse_json(body) {
        Ok(v) => Ok(v),
        Err(e) => Err(RestError::ClientInput { detail: json_error_detail(&e) }),
    }
}

/// The per-endpoint configuration view: the endpoint's current
/// configuration from the snapshot, or the structured unknown-endpoint
/// error exactly when the name is absent.
pub fn endpoint_config<'a>(snapshot: &'a ConfigSnapshot, name: &String) -> (r: Result<
    &'a EndpointConfig,
    RestError,
>)
    ensures
        match spec_lookup(snapshot@.endpoints, name@) {
            Some(cfg) => r matches Ok(c) && c@ == cfg,
            None => r matches Err(e) && e@ == (RestErrorView::UnknownEndpoint { name: name@ }),
        },
{
    match snapshot.lookup(name) {
        Some(c) => Ok(c),
        None => Err(RestError::UnknownEndpoint { name: name.clone() }),
    }
}

/// The reload trigger: validates and publishes the new configuration
/// through the store, answering with the new version; a rejected source
/// leaves the old snapshot in place and answers with the store's error,
/// wrapped for the router.
pub fn reload(state: &mut State, source: ReloadSource, now: u64) -> (r: Result<u64, RestError>)
    requires
        old(state).store@.version < u64::MAX,
    ensures
        r is Ok <==> spec_reload_error(source@) is None,
        r matches Err(e) ==> {
            &&& e@ matches RestErrorView::Config { error } && Some(error) == spec_reload_error(source@)
            &&& final(state).store@ == old(state).store@
        },
        r matches Ok(v) ==> {
            &&& v == old(state).store@.version + 1
            &&& final(state).store@.version == v
            &&& final(state).store@.loaded_at == now
            &&& (source@ matches crate::config::ReloadSourceView::Parsed { endpoints } && final(state).store@.endpoints == endpoints)
        },
        final(state).registry == old(state).registry,
        final(state).handle is Some <==> old(state).handle is Some,
{
    match state.store.reload(source, now) {
        Ok(v) => Ok(v),
        Err(e) => Err(RestError::Config { error: e }),
    }
}

/// The metrics endpoint: renders the registry in the exporter's text
/// format; fails, as an internal error, exactly when the registry is
/// unavailable.
pub fn metrics(state: &State) -> (r: Result<String, RestError>)
    ensures
        r is Ok <==> state.handle is Some,
        r matches Err(e) ==> e@ == (RestErrorView::Internal { detail: "metrics registry unavailable"@ }),
{
    match state.get_metrics() {
        Ok(h) => Ok(render_metrics(h)),
        Err(e) => Err(e),
    }
}

} // verus!
