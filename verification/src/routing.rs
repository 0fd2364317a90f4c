//! Where a hop goes and which locality headers it carries.
//!
//! The `x-force-local` header holds a JSON list of the service numbers that
//! must be served on the local host; it is passed on unchanged from hop to
//! hop. A hop to a service that is in that list also carries `x-stay-local`
//! with the number of that service.

use vstd::prelude::*;
use crate::record::{Header, header_views};
use crate::text::{decimal, append_decimal, digits_value};

verus! {

/// The list of numbers that `serde_json` reads from `text` as a `Vec<u64>`,
/// or `None` where it refuses the text.
pub uninterp spec fn json_u64_list(text: Seq<char>) -> Option<Seq<u64>>;

/// `serde_json::Error`, carried opaquely.
#[verifier::external_type_specification]
#[verifier::external_body]
pub struct ExJsonError(serde_json::Error);

/// Calls `serde_json::from_str::<Vec<u64>>`. Claimed: it succeeds exactly
/// where the named reading `json_u64_list` of the text is defined, and then
/// gives that list. What that reading is (the JSON grammar) is not stated.
#[verifier::external_body]
fn from_json_u64_list(text: &str) -> (r: Result<Vec<u64>, serde_json::Error>)
    ensures
        r is Ok <==> json_u64_list(text@) is Some,
        r matches Ok(v) ==> json_u64_list(text@) == Some(v@),
{
    serde_json::from_str::<Vec<u64>>(text)
}

/// Reads the `x-force-local` list: `None` where the text is not a JSON list
/// of unsigned integers.
pub fn parse_jump_list(text: &String) -> (r: Option<Vec<u64>>)
    ensures
        r is Some <==> json_u64_list(text@) is Some,
        r matches Some(v) ==> json_u64_list(text@) == Some(v@),
{
    match from_json_u64_list(text.as_str()) {
        Ok(v) => Some(v),
        Err(_) => None,
    }
}

/// The name of the header that asks the next service to be served locally.
pub open spec fn stay_local_name() -> Seq<char> {
    "x-stay-local"@
}

/// The name of the header that carries the list of local jumps.
pub open spec fn force_local_name() -> Seq<char> {
    "x-force-local"@
}

/// Whether the hop to `service` has to stay on the local host.
pub open spec fn stays_local(jumps: Seq<u64>, service: u32) -> bool {
    jumps.contains(service as u64)
}

/// The headers of a hop to `service`, given the raw and the parsed jump list.
pub open spec fn routing_header_views(
    local_jumps: Seq<char>,
    jumps: Seq<u64>,
    service: u32,
) -> Seq<(Seq<char>, Seq<char>)> {
    if stays_local(jumps, service) {
        seq![(stay_local_name(), decimal(service as nat)), (force_local_name(), local_jumps)]
    } else {
        seq![(force_local_name(), local_jumps)]
    }
}

/// A header with the given name and value.
pub fn header(name: &str, value: String) -> (h: Header)
    ensures
        h.name@ == name@,
        h.value@ == value@,
{
    Header { name: name.to_owned(), value }
}

/// Whether `service` occurs in `jumps`.
pub fn jump_list_contains(jumps: &Vec<u64>, service: u32) -> (r: bool)
    ensures
        r == stays_local(jumps@, service),
{
    let target: u64 = service as u64;
    let mut i: usize = 0;
    while i < jumps.len()
        invariant
            i <= jumps@.len(),
            target == service as u64,
            forall|j: int| 0 <= j < i ==> jumps@[j] != target,
        decreases jumps@.len() - i,
    {
        if jumps[i] == target {
            assert(jumps@[i as int] == target);
            return true;
        }
        i = i + 1;
    }
    false
}

/// The locality headers of a hop to `service`.
pub fn routing_headers(local_jumps: &String, jumps: &Vec<u64>, service: u32) -> (r: Vec<Header>)
    ensures
        header_views(r@) == routing_header_views(local_jumps@, jumps@, service),
{
    let mut headers: Vec<Header> = Vec::new();
    if jump_list_contains(jumps, service) {
        let mut number = String::new();
        append_decimal(&mut number, service as u64);
        headers.push(header("x-stay-local", number));
    }
    headers.push(header("x-force-local", local_jumps.clone()));
    assert(header_views(headers@) =~= routing_header_views(local_jumps@, jumps@, service));
    headers
}

/// `http://127.0.0.1:{envoy_port}/service/{service}/docompute`
pub open spec fn docompute_url_view(envoy_port: Seq<char>, service: u32) -> Seq<char> {
    "http://127.0.0.1:"@ + envoy_port + "/service/"@ + decimal(service as nat) + "/docompute"@
}

/// `http://{frontend_ip}:{envoy_port}/service/0/stop`
pub open spec fn stop_url_view(frontend_ip: Seq<char>, envoy_port: Seq<char>) -> Seq<char> {
    "http://"@ + frontend_ip + ":"@ + envoy_port + "/service/0/stop"@
}

/// `http://{source_ip}:{envoy_port}/service/{source}/getdata`
pub open spec fn getdata_url_view(source_ip: Seq<char>, envoy_port: Seq<char>, source: u32) -> Seq<char> {
    "http://"@ + source_ip + ":"@ + envoy_port + "/service/"@ + decimal(source as nat) + "/getdata"@
}

/// The URL through which the local envoy reaches the compute entry point of `service`.
pub fn docompute_url(envoy_port: &String, service: u32) -> (u: String)
    ensures
        u@ == docompute_url_view(envoy_port@, service),
{
    let mut u = String::from_str("http://127.0.0.1:");
    u.append(envoy_port.as_str());
    u.append("/service/");
    append_decimal(&mut u, service as u64);
    u.append("/docompute");
    u
}

/// The URL at which the frontend takes back the finished workflow.
pub fn stop_url(frontend_ip: &String, envoy_port: &String) -> (u: String)
    ensures
        u@ == stop_url_view(frontend_ip@, envoy_port@),
{
    let mut u = String::from_str("http://");
    u.append(frontend_ip.as_str());
    u.append(":");
    u.append(envoy_port.as_str());
    u.append("/service/0/stop");
    u
}

/// The URL from which a file is fetched from the service that wrote it.
pub fn getdata_url(source_ip: &String, envoy_port: &String, source: u32) -> (u: String)
    ensures
        u@ == getdata_url_view(source_ip@, envoy_port@, source),
{
    let mut u = String::from_str("http://");
    u.append(source_ip.as_str());
    u.append(":");
    u.append(envoy_port.as_str());
    u.append("/service/");
    append_decimal(&mut u, source as u64);
    u.append("/getdata");
    u
}

/// The jump list travels unchanged: every hop carries `x-force-local` with the
/// list exactly as it was received, as its last header; it carries
/// `x-stay-local` (first, with the number of the called service) exactly when
/// that service is in the list.
pub proof fn law_jump_list_forwarded(local_jumps: Seq<char>, jumps: Seq<u64>, service: u32)
    ensures
        routing_header_views(local_jumps, jumps, service).last() == (force_local_name(), local_jumps),
        routing_header_views(local_jumps, jumps, service).len() == if stays_local(jumps, service) { 2int } else { 1int },
        stays_local(jumps, service) ==> routing_header_views(local_jumps, jumps, service)[0]
            == (stay_local_name(), decimal(service as nat)),
{
}

/// A hop stays local exactly when the called service occurs somewhere in the
/// jump list, at any position; then its `x-stay-local` value is the decimal
/// text of that service's number, which reads back as the number.
pub proof fn law_stays_local_iff_listed(local_jumps: Seq<char>, jumps: Seq<u64>, service: u32)
    ensures
        stays_local(jumps, service) <==> exists|i: int| 0 <= i < jumps.len() && jumps[i] == service as u64,
        forall|i: int| 0 <= i < jumps.len() && jumps[i] == service as u64
            ==> #[trigger] routing_header_views(local_jumps, jumps, service).len() == 2,
        (forall|i: int| 0 <= i < jumps.len() ==> jumps[i] != service as u64)
            ==> routing_header_views(local_jumps, jumps, service) == seq![("x-force-local"@, local_jumps)],
        stays_local(jumps, service) ==> routing_header_views(local_jumps, jumps, service)[0].0 == "x-stay-local"@
            && digits_value(routing_header_views(local_jumps, jumps, service)[0].1) == service,
{
    crate::text::law_decimal_round_trip(service as nat);
    if forall|i: int| 0 <= i < jumps.len() ==> jumps[i] != service as u64 {
        assert(!jumps.contains(service as u64));
    }
    assert forall|i: int| 0 <= i < jumps.len() && jumps[i] == service as u64
        implies #[trigger] routing_header_views(local_jumps, jumps, service).len() == 2 by {
        assert(jumps.contains(service as u64));
    }
}

/// A fetch goes back to the service that wrote the file: its URL starts with
/// `http://` and that service's address, ends with `/getdata`, and the number
/// in it reads back as that service's number.
pub proof fn law_getdata_url_names_the_source(source_ip: Seq<char>, envoy_port: Seq<char>, source: u32)
    ensures
        ({
            let u = getdata_url_view(source_ip, envoy_port, source);
            let start: int = 7 + source_ip.len() as int + 1 + envoy_port.len() as int + 9;
            &&& u.subrange(0, 7) == "http://"@
            &&& u.subrange(7, 7 + source_ip.len() as int) == source_ip
            &&& u.subrange(8 + source_ip.len() as int, 8 + source_ip.len() + envoy_port.len() as int) == envoy_port
            &&& u.len() == start + decimal(source as nat).len() + 8
            &&& u.subrange(u.len() - 8, u.len() as int) == "/getdata"@
            &&& digits_value(u.subrange(start, u.len() - 8)) == source
        }),
{
    reveal_strlit("http://");
    reveal_strlit(":");
    reveal_strlit("/service/");
    reveal_strlit("/getdata");
    crate::text::law_decimal_round_trip(source as nat);
    let u = getdata_url_view(source_ip, envoy_port, source);
    let d = decimal(source as nat);
    let a: int = 7 + source_ip.len() as int;
    let b: int = a + 1 + envoy_port.len() as int;
    let start: int = b + 9;
    assert(u.subrange(0, 7) =~= "http://"@);
    assert(u.subrange(7, a) =~= source_ip);
    assert(u.subrange(a + 1, b) =~= envoy_port);
    assert(u.subrange(u.len() - 8, u.len() as int) =~= "/getdata"@);
    assert(u.subrange(start, u.len() - 8) =~= d);
}

} // verus!
