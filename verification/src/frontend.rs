//! The frontend: it gives each workflow request an id, registers it as
//! pending, starts the first service, and answers the request when the last
//! service hands the finished record back.

use vstd::prelude::*;
use crate::record::{ComputeDataRef, ContentType, Header, Hop, Reply, header_views};
use crate::registry::{PendingRequests, TableOp, after_op, after_ops, taken};
use crate::reply::reply;
use crate::routing::{
    docompute_url, docompute_url_view, force_local_name, header, json_u64_list, parse_jump_list,
    routing_header_views, routing_headers,
};
use crate::text::{decimal, decimal_text};

verus! {

/// The port on which the frontend listens.
pub const FRONTEND_PORT: u32 = 12340;

/// The number of the first compute service of a workflow.
pub const FIRST_SERVICE: u32 = 1;

/// The text of a freshly drawn request id: the draw in decimal.
pub fn request_id_from_draw(draw: u32) -> (id: String)
    ensures
        id@ == decimal(draw as nat),
{
    decimal_text(draw as u64)
}

/// The id under which a request is tracked: the one the caller supplied, or
/// the generated one where none was supplied.
pub open spec fn resolved_id(provided: Seq<char>, generated: Seq<char>) -> Seq<char> {
    if provided.len() > 0 { provided } else { generated }
}

/// Picks the id under which a request is tracked.
pub fn resolve_request_id(provided: &String, generated: String) -> (id: String)
    ensures
        id@ == resolved_id(provided@, generated@),
{
    if !provided.as_str().is_empty() {
        provided.clone()
    } else {
        generated
    }
}

/// `Request id {id}, already exists`
pub open spec fn duplicate_message(id: Seq<char>) -> Seq<char> {
    "Request id "@ + id + ", already exists"@
}

/// `No channel found for Request id {id}`
pub open spec fn unknown_message(id: Seq<char>) -> Seq<char> {
    "No channel found for Request id "@ + id
}

/// `Error on response channel for request {id}, Error: {detail}`
pub open spec fn channel_failure_message(id: Seq<char>, detail: Seq<char>) -> Seq<char> {
    "Error on response channel for request "@ + id + ", Error: "@ + detail
}

/// `hop` is the first hop of the request `id` whose record was `data`: it goes
/// to the first service through the local envoy and carries `data` stamped
/// with the id and with the frontend as its source.
pub open spec fn is_first_hop(
    hop: Hop,
    data: ComputeDataRef,
    id: Seq<char>,
    self_ip: Seq<char>,
    envoy_port: Seq<char>,
) -> bool {
    &&& hop.url@ == docompute_url_view(envoy_port, FIRST_SERVICE)
    &&& hop.body.request_id@ == id
    &&& hop.body.source_service_ip@ == self_ip
    &&& hop.body.source_service_number == 0
    &&& hop.body.source_service_port == FRONTEND_PORT
    &&& hop.body.frontend_ip@ == self_ip
    &&& hop.body.pass_data == data.pass_data
    &&& hop.body.data == data.data
    &&& hop.body.filename == data.filename
    &&& hop.body.size == data.size
    &&& hop.body.loops == data.loops
    &&& hop.body.terminal_service_number == data.terminal_service_number
    &&& hop.body.service_ips == data.service_ips
}

/// What the frontend does with a new workflow request.
pub enum StartDecision<T> {
    /// The id is already pending: answer with `reply`; `responder` was not kept.
    Refused { reply: Reply, responder: T },
    /// The request is pending: send this hop and wait for the answer.
    Forward(Hop),
    /// The request is pending but its `x-force-local` header is not a JSON
    /// list of unsigned integers, so no hop can be built.
    MalformedJumps,
}

/// The record stamped for its first hop.
fn stamp_first_hop(data: ComputeDataRef, id: String, self_ip: &String) -> (d: ComputeDataRef)
    ensures
        d.request_id == id,
        d.source_service_ip@ == self_ip@,
        d.source_service_number == 0,
        d.source_service_port == FRONTEND_PORT,
        d.frontend_ip@ == self_ip@,
        d.pass_data == data.pass_data,
        d.data == data.data,
        d.filename == data.filename,
        d.size == data.size,
        d.loops == data.loops,
        d.terminal_service_number == data.terminal_service_number,
        d.service_ips == data.service_ips,
{
    ComputeDataRef {
        request_id: id,
        source_service_ip: self_ip.clone(),
        source_service_number: 0,
        source_service_port: FRONTEND_PORT,
        frontend_ip: self_ip.clone(),
        ..data
    }
}

/// Takes a new workflow request: resolves its id, registers `responder` as
/// pending under it (a pending id is refused), and builds the hop to the
/// first service. Without an `x-force-local` header the hop carries the
/// empty jump list `[]`; with one, it is passed on and decides `x-stay-local`.
pub fn begin_request<T>(
    pending: &mut PendingRequests<T>,
    data: ComputeDataRef,
    generated_id: String,
    responder: T,
    self_ip: &String,
    envoy_port: &String,
    force_local: Option<String>,
) -> (d: StartDecision<T>)
    requires
        old(pending).wf(),
    ensures
        final(pending).wf(),
        final(pending)@ == after_op(old(pending)@, TableOp::Register(resolved_id(data.request_id@, generated_id@), responder)),
        ({
            let id = resolved_id(data.request_id@, generated_id@);
            &&& old(pending)@.contains_key(id) ==> {
                &&& final(pending)@ == old(pending)@
                &&& d matches StartDecision::Refused { reply, responder: r }
                &&& r == responder
                &&& reply.status == 400
                &&& reply.content_type == ContentType::Html
                &&& reply.body@ == duplicate_message(id)
            }
            &&& !old(pending)@.contains_key(id) ==> {
                &&& final(pending)@ == old(pending)@.insert(id, responder)
                &&& match force_local {
                    None => d matches StartDecision::Forward(hop)
                        && is_first_hop(hop, data, id, self_ip@, envoy_port@)
                        && header_views(hop.headers@) == seq![(force_local_name(), "[]"@)],
                    Some(text) => match json_u64_list(text@) {
                        None => d is MalformedJumps,
                        Some(jumps) => d matches StartDecision::Forward(hop)
                            && is_first_hop(hop, data, id, self_ip@, envoy_port@)
                            && header_views(hop.headers@) == routing_header_views(text@, jumps, FIRST_SERVICE),
                    },
                }
            }
        }),
{
    let id = resolve_request_id(&data.request_id, generated_id);
    match pending.register(id.clone(), responder) {
        Err(responder) => {
            let mut body = String::from_str("Request id ");
            body.append(id.as_str());
            body.append(", already exists");
            return StartDecision::Refused { reply: reply(400, ContentType::Html, body), responder };
        },
        Ok(()) => {},
    }
    let body = stamp_first_hop(data, id, self_ip);
    let url = docompute_url(envoy_port, FIRST_SERVICE);
    let headers: Vec<Header> = match force_local {
        None => {
            let mut h: Vec<Header> = Vec::new();
            h.push(header("x-force-local", String::from_str("[]")));
            assert(header_views(h@) =~= seq![(force_local_name(), "[]"@)]);
            h
        },
        Some(text) => match parse_jump_list(&text) {
            None => return StartDecision::MalformedJumps,
            Some(jumps) => routing_headers(&text, &jumps, FIRST_SERVICE),
        },
    };
    StartDecision::Forward(Hop { url, body, headers })
}

/// `Could not find a request id`: a finished record must name its request.
pub open spec fn missing_id_message() -> Seq<char> {
    "Could not find a request id"@
}

/// Checks that a finished record names its request; one without an id is
/// refused with 400 before the table of pending requests is consulted.
pub fn check_stop_record(data: &ComputeDataRef) -> (r: Result<(), Reply>)
    ensures
        r is Ok <==> data.request_id@.len() > 0,
        r matches Err(reply) ==> (reply.status == 400 && reply.content_type == ContentType::Unset
            && reply.body@ == missing_id_message()),
{
    if data.request_id.as_str().is_empty() {
        return Err(reply(400, ContentType::Unset, String::from_str("Could not find a request id")));
    }
    Ok(())
}

/// Takes back the finished record of a workflow: hands back what was
/// registered for its request id and forgets the id. A record without an id,
/// or whose id is not pending, is refused with 400.
pub fn finish_request<T>(pending: &mut PendingRequests<T>, data: &ComputeDataRef) -> (r: Result<T, Reply>)
    requires
        old(pending).wf(),
    ensures
        final(pending).wf(),
        data.request_id@.len() == 0 ==> final(pending)@ == old(pending)@,
        data.request_id@.len() > 0 ==> final(pending)@ == old(pending)@.remove(data.request_id@),
        data.request_id@.len() > 0 ==> final(pending)@ == after_op(old(pending)@, TableOp::Take(data.request_id@)),
        r is Ok <==> data.request_id@.len() > 0 && taken(old(pending)@, data.request_id@) is Some,
        r matches Ok(v) ==> taken(old(pending)@, data.request_id@) == Some(v),
        data.request_id@.len() == 0 ==> (r matches Err(reply) && reply.status == 400
            && reply.content_type == ContentType::Unset && reply.body@ == missing_id_message()),
        data.request_id@.len() > 0 && !old(pending)@.contains_key(data.request_id@) ==> (r matches Err(reply)
            && reply.status == 400 && reply.content_type == ContentType::Html
            && reply.body@ == unknown_message(data.request_id@)),
        data.request_id@.len() > 0 && old(pending)@.contains_key(data.request_id@) ==> (r matches Ok(v)
            && v == old(pending)@[data.request_id@]),
{
    if let Err(refusal) = check_stop_record(data) {
        return Err(refusal);
    }
    match pending.take(&data.request_id) {
        Some(v) => Ok(v),
        None => {
            let mut body = String::from_str("No channel found for Request id ");
            body.append(data.request_id.as_str());
            Err(reply(400, ContentType::Html, body))
        },
    }
}

/// The answer to a workflow request once its record came back (`Ok`, the
/// serialized record) or the wait for it failed (`Err`, what went wrong).
pub fn completion_reply(request_id: &String, outcome: Result<String, String>) -> (r: Reply)
    ensures
        outcome matches Ok(m) ==> (r.status == 200 && r.content_type == ContentType::Json && r.body == m),
        outcome matches Err(detail) ==> (r.status == 400 && r.content_type == ContentType::Html
            && r.body@ == channel_failure_message(request_id@, detail@)),
{
    match outcome {
        Ok(message) => reply(200, ContentType::Json, message),
        Err(detail) => {
            let mut body = String::from_str("Error on response channel for request ");
            body.append(request_id.as_str());
            body.append(", Error: ");
            body.append(detail.as_str());
            reply(400, ContentType::Html, body)
        },
    }
}

/// The answer to the last service once the finished record was handed on.
pub fn stop_accepted_reply() -> (r: Reply)
    ensures
        r.status == 200,
        r.content_type == ContentType::Unset,
        r.body@ == "ok"@,
{
    reply(200, ContentType::Unset, String::from_str("ok"))
}

/// A started request can be finished: the record of its first hop carries the
/// id under which the responder was registered, so taking that id (as
/// `finish_request` does with the record that comes back, whose id every hop
/// keeps) hands back that responder and leaves the table as before.
pub proof fn law_started_request_can_finish<T>(
    table: Map<Seq<char>, T>,
    data: ComputeDataRef,
    id: Seq<char>,
    responder: T,
    self_ip: Seq<char>,
    envoy_port: Seq<char>,
    hop: Hop,
)
    requires
        !table.contains_key(id),
        is_first_hop(hop, data, id, self_ip, envoy_port),
    ensures
        table.insert(id, responder).contains_key(hop.body.request_id@),
        table.insert(id, responder)[hop.body.request_id@] == responder,
        table.insert(id, responder).remove(hop.body.request_id@) == table,
{
    crate::registry::law_take_after_register(table, id, responder);
}

/// A request is answered once, with its own responder: after `begin_request`
/// registered `responder` under `id`, whatever other requests start or finish
/// (a new start under `id` itself is refused), the first `finish_request`
/// whose record names `id` hands back that responder, and no later finish
/// for `id` hands anything back unless `id` is started anew.
pub proof fn law_responder_answered_once<T>(
    table: Map<Seq<char>, T>,
    id: Seq<char>,
    responder: T,
    between: Seq<TableOp<T>>,
    later: Seq<TableOp<T>>,
)
    requires
        !table.contains_key(id),
        forall|i: int| 0 <= i < between.len() ==> between[i] != TableOp::<T>::Take(id),
        forall|i: int| 0 <= i < later.len() ==> !(#[trigger] later[i] matches TableOp::Register(k, _) && k == id),
    ensures
        taken(after_ops(after_op(table, TableOp::Register(id, responder)), between), id) == Some(responder),
        taken(after_ops(after_op(after_ops(after_op(table, TableOp::Register(id, responder)), between), TableOp::Take(id)), later), id) is None,
{
    let started = after_op(table, TableOp::Register(id, responder));
    assert(started == table.insert(id, responder));
    crate::registry::law_first_take_hands_back(started, id, responder, between, later);
}

/// A request is tracked under the id its caller supplied whenever that id is
/// not empty, whatever it looks like; the generated id is used only for a
/// request that supplied none.
pub proof fn law_supplied_id_is_kept(provided: Seq<char>, generated: Seq<char>)
    ensures
        provided.len() > 0 ==> resolved_id(provided, generated) == provided,
        provided.len() == 0 ==> resolved_id(provided, generated) == generated,
{
}

/// The first hop of a request goes to service 1 through the local envoy and
/// passes the caller's record on unchanged but for its stamp: the request id,
/// the frontend (number 0, port 12340, this host) as source and as the
/// address to come back to.
pub proof fn law_first_hop_stamp(
    hop: Hop,
    data: ComputeDataRef,
    id: Seq<char>,
    self_ip: Seq<char>,
    envoy_port: Seq<char>,
)
    requires
        is_first_hop(hop, data, id, self_ip, envoy_port),
    ensures
        hop.url@ == "http://127.0.0.1:"@ + envoy_port + "/service/"@ + decimal(1) + "/docompute"@,
        hop.body.request_id@ == id,
        hop.body.source_service_number == 0,
        hop.body.source_service_port == 12340,
        hop.body.source_service_ip@ == self_ip,
        hop.body.frontend_ip@ == self_ip,
        hop.body.pass_data == data.pass_data,
        hop.body.data == data.data,
        hop.body.filename == data.filename,
        hop.body.size == data.size,
        hop.body.loops == data.loops,
        hop.body.terminal_service_number == data.terminal_service_number,
        hop.body.service_ips == data.service_ips,
{
}

} // verus!
