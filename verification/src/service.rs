//! A compute service: which work it does, how it answers its HTTP entry
//! points, and where it sends the record once its work is done.

use vstd::prelude::*;
use crate::record::{Cli, ComputeDataRef, ContentType, Header, Hop, Reply, StringError, header_views};
use crate::reply::reply;
use crate::text::decimal;
use crate::routing::{
    docompute_url, docompute_url_view, json_u64_list, parse_jump_list, routing_header_views,
    routing_headers, stop_url, stop_url_view,
};

verus! {

/// The work a service does, chosen by its `servicetype`.
#[derive(Clone, Copy, Debug, PartialEq, Eq, Structural)]
pub enum ServiceKind {
    /// `produce`: build a payload.
    Produce,
    /// `process`: work over a payload.
    Process,
    /// Any other type: the work fails.
    Unknown,
}

/// The kind that a `servicetype` names.
pub open spec fn kind_of(servicetype: Seq<char>) -> ServiceKind {
    if servicetype == "produce"@ {
        ServiceKind::Produce
    } else if servicetype == "process"@ {
        ServiceKind::Process
    } else {
        ServiceKind::Unknown
    }
}

/// The kind of work that `servicetype` names.
pub fn service_kind(servicetype: &String) -> (k: ServiceKind)
    ensures
        k == kind_of(servicetype@),
{
    if *servicetype == String::from_str("produce") {
        ServiceKind::Produce
    } else if *servicetype == String::from_str("process") {
        ServiceKind::Process
    } else {
        ServiceKind::Unknown
    }
}

/// The failure of a service whose type is neither `produce` nor `process`.
pub fn unknown_service_error() -> (e: StringError)
    ensures
        e.err_msg@ == "unknown service type"@,
{
    StringError { err_msg: String::from_str("unknown service type") }
}

/// A compute request must name its local jumps in `x-force-local`; without
/// that header it is refused with 400.
pub fn accept_compute_request(force_local: Option<String>) -> (r: Result<String, Reply>)
    ensures
        force_local matches Some(t) ==> r == Ok::<String, Reply>(t),
        force_local is None ==> (r matches Err(reply) && reply.status == 400
            && reply.content_type == ContentType::Unset
            && reply.body@ == "could not file x-force-local header"@),
{
    match force_local {
        Some(t) => Ok(t),
        None => Err(reply(400, ContentType::Unset, String::from_str("could not file x-force-local header"))),
    }
}

/// A compute request is answered at once; the work goes on in the background.
pub fn compute_started_reply() -> (r: Reply)
    ensures
        r.status == 200,
        r.content_type == ContentType::Html,
        r.body@ == "ok"@,
{
    reply(200, ContentType::Html, String::from_str("ok"))
}

/// A file request whose body (the path) is not UTF-8 text is answered with
/// 200 and a note, not refused.
pub fn getdata_undecodable_reply() -> (r: Reply)
    ensures
        r.status == 200,
        r.content_type == ContentType::Unset,
        r.body@ == "body decode failure"@,
{
    reply(200, ContentType::Unset, String::from_str("body decode failure"))
}

/// `could not read file: {path}. Error: {why}`
pub open spec fn unreadable_message(path: Seq<char>, why: Seq<char>) -> Seq<char> {
    "could not read file: "@ + path + ". Error: "@ + why
}

/// The answer to a file request: the contents, or 400 with the reason.
pub fn getdata_reply(path: &String, read: Result<String, String>) -> (r: Reply)
    ensures
        read matches Ok(c) ==> (r.status == 200 && r.content_type == ContentType::Unset && r.body == c),
        read matches Err(why) ==> (r.status == 400 && r.content_type == ContentType::Unset
            && r.body@ == unreadable_message(path@, why@)),
{
    match read {
        Ok(contents) => reply(200, ContentType::Unset, contents),
        Err(why) => {
            let mut body = String::from_str("could not read file: ");
            body.append(path.as_str());
            body.append(". Error: ");
            body.append(why.as_str());
            reply(400, ContentType::Unset, body)
        },
    }
}

/// Whether this service is the last of the workflow.
pub open spec fn is_terminal(cli: Cli, data: ComputeDataRef) -> bool {
    cli.servicenumber == data.terminal_service_number
}

/// Whether the next hop carries the produced payload itself rather than
/// the name of the file that holds it.
pub open spec fn carries_payload(cli: Cli, data: ComputeDataRef) -> bool {
    !is_terminal(cli, data) && kind_of(cli.servicetype@) == ServiceKind::Produce && data.pass_data
}

/// The number of the service that comes after this one.
pub open spec fn next_service(cli: Cli) -> u32 {
    (cli.servicenumber + 1) as u32
}

/// `hop` is what this service sends once its work gave `result`, with the
/// jump list of the request read as `jumps`:
/// the record is stamped with this service as its source and with `host_ip`
/// appended (with a `;`) to the trail of service addresses; it carries the
/// result as its payload or as its file name; it goes to the frontend's stop
/// entry point if this service is the last, else to the next service with the
/// locality headers.
pub open spec fn is_next_hop(
    hop: Hop,
    cli: Cli,
    data: ComputeDataRef,
    result: Seq<char>,
    host_ip: Seq<char>,
    envoy_port: Seq<char>,
    local_jumps: Seq<char>,
    jumps: Seq<u64>,
) -> bool {
    &&& hop.body.request_id == data.request_id
    &&& hop.body.pass_data == data.pass_data
    &&& hop.body.size == data.size
    &&& hop.body.loops == data.loops
    &&& hop.body.terminal_service_number == data.terminal_service_number
    &&& hop.body.frontend_ip == data.frontend_ip
    &&& hop.body.source_service_ip@ == host_ip
    &&& hop.body.source_service_number == cli.servicenumber
    &&& hop.body.source_service_port == cli.port
    &&& hop.body.service_ips@ == data.service_ips@ + host_ip + ";"@
    &&& if carries_payload(cli, data) {
        &&& hop.body.data@ == result
        &&& hop.body.filename == data.filename
    } else {
        &&& hop.body.filename@ == result
        &&& hop.body.data@ == Seq::<char>::empty()
    }
    &&& if is_terminal(cli, data) {
        &&& hop.url@ == stop_url_view(data.frontend_ip@, envoy_port)
        &&& hop.headers@.len() == 0
    } else {
        &&& hop.url@ == docompute_url_view(envoy_port, next_service(cli))
        &&& header_views(hop.headers@) == routing_header_views(local_jumps, jumps, next_service(cli))
    }
}

/// Builds the hop that carries the work's `result` on, given the parsed jump list.
pub fn next_hop_with_jumps(
    cli: &Cli,
    data: ComputeDataRef,
    result: String,
    host_ip: &String,
    envoy_port: &String,
    local_jumps: &String,
    jumps: &Vec<u64>,
) -> (hop: Hop)
    requires
        is_terminal(*cli, data) || cli.servicenumber < u32::MAX,
    ensures
        is_next_hop(hop, *cli, data, result@, host_ip@, envoy_port@, local_jumps@, jumps@),
{
    let terminal = cli.servicenumber == data.terminal_service_number;
    let produce = service_kind(&cli.servicetype) == ServiceKind::Produce;
    let mut service_ips = data.service_ips;
    service_ips.append(host_ip.as_str());
    service_ips.append(";");
    let carries = !terminal && produce && data.pass_data;
    let (payload, filename) = if carries {
        (result, data.filename)
    } else {
        (String::new(), result)
    };
    let body = ComputeDataRef {
        request_id: data.request_id,
        pass_data: data.pass_data,
        data: payload,
        filename,
        size: data.size,
        loops: data.loops,
        terminal_service_number: data.terminal_service_number,
        source_service_number: cli.servicenumber,
        source_service_ip: host_ip.clone(),
        source_service_port: cli.port,
        frontend_ip: data.frontend_ip,
        service_ips,
    };
    if terminal {
        let url = stop_url(&body.frontend_ip, envoy_port);
        Hop { url, body, headers: Vec::new() }
    } else {
        let service_to_call: u32 = cli.servicenumber + 1;
        let url = docompute_url(envoy_port, service_to_call);
        let headers = routing_headers(local_jumps, jumps, service_to_call);
        Hop { url, body, headers }
    }
}

/// What a service does once its work is over.
pub enum ComputeStep {
    /// The work failed: stop with this error.
    Failed(StringError),
    /// Send this hop, then stop with `ok`.
    Forward(Hop),
    /// The jump list of the request is not a JSON list of unsigned integers,
    /// so the hop to the next service cannot be built.
    MalformedJumps,
}

/// The jump list that the hop is built with: none for the last service,
/// else the reading of the request's `x-force-local` list.
pub open spec fn hop_jumps(cli: Cli, data: ComputeDataRef, local_jumps: Seq<char>) -> Seq<u64> {
    if is_terminal(cli, data) { Seq::empty() } else { json_u64_list(local_jumps).unwrap() }
}

/// Decides what follows the work of a service: a failure stops the workflow;
/// a result is carried to the next hop, reading the jump list where the next
/// hop is another service.
pub fn after_compute(
    cli: &Cli,
    data: ComputeDataRef,
    outcome: Result<String, StringError>,
    host_ip: &String,
    envoy_port: &String,
    local_jumps: &String,
) -> (s: ComputeStep)
    requires
        outcome is Ok && !is_terminal(*cli, data) ==> cli.servicenumber < u32::MAX,
    ensures
        outcome matches Err(e) ==> s == ComputeStep::Failed(e),
        outcome matches Ok(result) ==> {
            if !is_terminal(*cli, data) && json_u64_list(local_jumps@) is None {
                s is MalformedJumps
            } else {
                s matches ComputeStep::Forward(hop) && is_next_hop(
                    hop, *cli, data, result@, host_ip@, envoy_port@, local_jumps@,
                    hop_jumps(*cli, data, local_jumps@),
                )
            }
        },
{
    let result = match outcome {
        Err(e) => return ComputeStep::Failed(e),
        Ok(result) => result,
    };
    if cli.servicenumber == data.terminal_service_number {
        let none: Vec<u64> = Vec::new();
        assert(none@ =~= Seq::<u64>::empty());
        ComputeStep::Forward(next_hop_with_jumps(cli, data, result, host_ip, envoy_port, local_jumps, &none))
    } else {
        match parse_jump_list(local_jumps) {
            None => ComputeStep::MalformedJumps,
            Some(jumps) => ComputeStep::Forward(
                next_hop_with_jumps(cli, data, result, host_ip, envoy_port, local_jumps, &jumps),
            ),
        }
    }
}

/// A hop keeps the identity of the request and only extends the trail of
/// service addresses: the request id, the data switch, size, loop count,
/// last service and frontend address are passed on unchanged, and the old
/// trail is a prefix of the new one, which is longer by this host and `;`.
pub proof fn law_hop_keeps_request(
    hop: Hop,
    cli: Cli,
    data: ComputeDataRef,
    result: Seq<char>,
    host_ip: Seq<char>,
    envoy_port: Seq<char>,
    local_jumps: Seq<char>,
    jumps: Seq<u64>,
)
    requires
        is_next_hop(hop, cli, data, result, host_ip, envoy_port, local_jumps, jumps),
    ensures
        hop.body.request_id == data.request_id,
        hop.body.frontend_ip == data.frontend_ip,
        hop.body.terminal_service_number == data.terminal_service_number,
        hop.body.loops == data.loops,
        hop.body.size == data.size,
        hop.body.pass_data == data.pass_data,
        hop.body.service_ips@.len() == data.service_ips@.len() + host_ip.len() + 1,
        hop.body.service_ips@.subrange(0, data.service_ips@.len() as int) == data.service_ips@,
{
    reveal_strlit(";");
    let t = data.service_ips@;
    assert(hop.body.service_ips@.subrange(0, t.len() as int) =~= t);
}

/// A hop is stamped with the service that sends it, carries the result in
/// the right place and goes to the right address: the source is this
/// service's number, port and host; a producing service that passes data on
/// to another service carries the result as the payload and keeps the file
/// name, every other hop carries the result as the file name and no payload;
/// the last service sends to the frontend's stop entry point with no headers,
/// any other to service `servicenumber + 1` through the local envoy.
pub proof fn law_hop_stamp_and_target(
    hop: Hop,
    cli: Cli,
    data: ComputeDataRef,
    result: Seq<char>,
    host_ip: Seq<char>,
    envoy_port: Seq<char>,
    local_jumps: Seq<char>,
    jumps: Seq<u64>,
)
    requires
        is_next_hop(hop, cli, data, result, host_ip, envoy_port, local_jumps, jumps),
        cli.servicenumber == data.terminal_service_number || cli.servicenumber < u32::MAX,
    ensures
        hop.body.source_service_number == cli.servicenumber,
        hop.body.source_service_port == cli.port,
        hop.body.source_service_ip@ == host_ip,
        (cli.servicenumber != data.terminal_service_number && cli.servicetype@ == "produce"@ && data.pass_data)
            ==> (hop.body.data@ == result && hop.body.filename == data.filename),
        !(cli.servicenumber != data.terminal_service_number && cli.servicetype@ == "produce"@ && data.pass_data)
            ==> (hop.body.filename@ == result && hop.body.data@.len() == 0),
        cli.servicenumber == data.terminal_service_number
            ==> (hop.url@ == "http://"@ + data.frontend_ip@ + ":"@ + envoy_port + "/service/0/stop"@
                && hop.headers@.len() == 0),
        cli.servicenumber != data.terminal_service_number
            ==> hop.url@ == "http://127.0.0.1:"@ + envoy_port + "/service/"@
                + decimal((cli.servicenumber + 1) as nat) + "/docompute"@,
{
}

/// The work of a service is chosen by its type word: exactly `produce`
/// produces, exactly `process` processes, and any other word is unknown.
pub proof fn law_kind_by_type_word(servicetype: Seq<char>)
    ensures
        servicetype == "produce"@ <==> kind_of(servicetype) == ServiceKind::Produce,
        servicetype == "process"@ <==> kind_of(servicetype) == ServiceKind::Process,
        servicetype != "produce"@ && servicetype != "process"@ <==> kind_of(servicetype) == ServiceKind::Unknown,
{
    reveal_strlit("produce");
    reveal_strlit("process");
    assert("produce"@[3] != "process"@[3]);
}

/// The locality of a hop to another service is decided by the whole jump
/// list that the request carried: the hop is built with exactly the list that
/// the `x-force-local` text reads as, and the last service uses none.
pub proof fn law_hop_uses_whole_jump_list(cli: Cli, data: ComputeDataRef, local_jumps: Seq<char>)
    ensures
        cli.servicenumber == data.terminal_service_number ==> hop_jumps(cli, data, local_jumps).len() == 0,
        cli.servicenumber != data.terminal_service_number && json_u64_list(local_jumps) is Some
            ==> Some(hop_jumps(cli, data, local_jumps)) == json_u64_list(local_jumps),
{
}

} // verus!
