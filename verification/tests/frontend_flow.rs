use envoy_locality::frontend::{
    begin_request, check_stop_record, completion_reply, finish_request, request_id_from_draw, resolve_request_id,
    stop_accepted_reply, StartDecision, FRONTEND_PORT,
};
use envoy_locality::record::{ComputeDataRef, ContentType};
use envoy_locality::registry::PendingRequests;
use envoy_locality::reply::{malformed_record_reply, registry_unavailable_reply, undecodable_body_reply};

fn record(request_id: &str) -> ComputeDataRef {
    ComputeDataRef {
        request_id: request_id.to_string(),
        pass_data: true,
        data: "".to_string(),
        filename: "".to_string(),
        size: 100,
        loops: 2,
        terminal_service_number: 2,
        source_service_number: 7,
        source_service_ip: "".to_string(),
        source_service_port: 0,
        frontend_ip: "".to_string(),
        service_ips: "".to_string(),
    }
}

#[test]
fn ids_from_draws() {
    assert_eq!(request_id_from_draw(0), "0");
    assert_eq!(request_id_from_draw(99999999), "99999999");
}

#[test]
fn supplied_id_wins_over_generated() {
    assert_eq!(resolve_request_id(&"abc".to_string(), "17".to_string()), "abc");
    assert_eq!(resolve_request_id(&String::new(), "17".to_string()), "17");
}

#[test]
fn start_without_jump_header() {
    let mut p: PendingRequests<u8> = PendingRequests::new();
    let d = begin_request(&mut p, record(""), "55".to_string(), 1u8, &"10.1.1.1".to_string(), &"80".to_string(), None);
    match d {
        StartDecision::Forward(hop) => {
            assert_eq!(hop.url, "http://127.0.0.1:80/service/1/docompute");
            assert_eq!(hop.body.request_id, "55");
            assert_eq!(hop.body.source_service_ip, "10.1.1.1");
            assert_eq!(hop.body.frontend_ip, "10.1.1.1");
            assert_eq!(hop.body.source_service_number, 0);
            assert_eq!(hop.body.source_service_port, FRONTEND_PORT);
            assert_eq!(hop.body.size, 100);
            assert_eq!(hop.headers.len(), 1);
            assert_eq!(hop.headers[0].name, "x-force-local");
            assert_eq!(hop.headers[0].value, "[]");
        }
        _ => panic!("expected a hop"),
    }
    assert!(p.contains(&"55".to_string()));
}

#[test]
fn start_with_jump_header() {
    let mut p: PendingRequests<u8> = PendingRequests::new();
    let d = begin_request(&mut p, record("r1"), "55".to_string(), 1u8, &"ip".to_string(), &"80".to_string(), Some("[1,2]".to_string()));
    match d {
        StartDecision::Forward(hop) => {
            assert_eq!(hop.body.request_id, "r1");
            assert_eq!(hop.headers.len(), 2);
            assert_eq!((hop.headers[0].name.as_str(), hop.headers[0].value.as_str()), ("x-stay-local", "1"));
            assert_eq!((hop.headers[1].name.as_str(), hop.headers[1].value.as_str()), ("x-force-local", "[1,2]"));
        }
        _ => panic!("expected a hop"),
    }
}

#[test]
fn start_with_remote_first_hop() {
    let mut p: PendingRequests<u8> = PendingRequests::new();
    match begin_request(&mut p, record("r1"), "55".to_string(), 1u8, &"ip".to_string(), &"80".to_string(), Some("[2]".to_string())) {
        StartDecision::Forward(hop) => {
            assert_eq!(hop.headers.len(), 1);
            assert_eq!(hop.headers[0].value, "[2]");
        }
        _ => panic!("expected a hop"),
    }
}

#[test]
fn start_with_malformed_jump_header() {
    let mut p: PendingRequests<u8> = PendingRequests::new();
    let d = begin_request(&mut p, record("r1"), "55".to_string(), 1u8, &"ip".to_string(), &"80".to_string(), Some("oops".to_string()));
    assert!(matches!(d, StartDecision::MalformedJumps));
    assert!(p.contains(&"r1".to_string()));
}

#[test]
fn duplicate_start_is_refused() {
    let mut p: PendingRequests<u8> = PendingRequests::new();
    let _ = begin_request(&mut p, record("r1"), "1".to_string(), 1u8, &"ip".to_string(), &"80".to_string(), None);
    match begin_request(&mut p, record("r1"), "2".to_string(), 2u8, &"ip".to_string(), &"80".to_string(), None) {
        StartDecision::Refused { reply, responder } => {
            assert_eq!(responder, 2);
            assert_eq!(reply.status, 400);
            assert_eq!(reply.content_type, ContentType::Html);
            assert_eq!(reply.body, "Request id r1, already exists");
        }
        _ => panic!("expected a refusal"),
    }
    assert_eq!(p.take(&"r1".to_string()), Some(1));
}

#[test]
fn finish_hands_back_the_responder() {
    let mut p: PendingRequests<u8> = PendingRequests::new();
    let hop = match begin_request(&mut p, record(""), "77".to_string(), 9u8, &"ip".to_string(), &"80".to_string(), None) {
        StartDecision::Forward(hop) => hop,
        _ => panic!("expected a hop"),
    };
    assert_eq!(finish_request(&mut p, &hop.body).ok(), Some(9));
    let again = finish_request(&mut p, &hop.body).err().unwrap();
    assert_eq!(again.status, 400);
    assert_eq!(again.content_type, ContentType::Html);
    assert_eq!(again.body, "No channel found for Request id 77");
}

#[test]
fn finish_without_id_is_refused() {
    let mut p: PendingRequests<u8> = PendingRequests::new();
    let r = finish_request(&mut p, &record("")).err().unwrap();
    assert_eq!(r.status, 400);
    assert_eq!(r.content_type, ContentType::Unset);
    assert_eq!(r.body, "Could not find a request id");
}

#[test]
fn completion_answers() {
    let ok = completion_reply(&"5".to_string(), Ok("{}".to_string()));
    assert_eq!((ok.status, ok.content_type, ok.body.as_str()), (200, ContentType::Json, "{}"));
    let bad = completion_reply(&"5".to_string(), Err("RecvError".to_string()));
    assert_eq!(bad.status, 400);
    assert_eq!(bad.content_type, ContentType::Html);
    assert_eq!(bad.body, "Error on response channel for request 5, Error: RecvError");
    let stop = stop_accepted_reply();
    assert_eq!((stop.status, stop.body.as_str()), (200, "ok"));
}

#[test]
fn refusal_answers() {
    let r = undecodable_body_reply();
    assert_eq!((r.status, r.body.as_str()), (400, "body decode failure"));
    let r = malformed_record_reply("bad json".to_string());
    assert_eq!((r.status, r.body.as_str()), (400, "bad json"));
    let r = registry_unavailable_reply();
    assert_eq!((r.status, r.content_type, r.body.as_str()), (500, ContentType::Html, "could not lock request map"));
}

#[test]
fn stop_record_must_name_its_request() {
    assert!(check_stop_record(&record("r1")).is_ok());
    let r = check_stop_record(&record("")).err().unwrap();
    assert_eq!((r.status, r.content_type, r.body.as_str()), (400, ContentType::Unset, "Could not find a request id"));
}

#[test]
fn responder_answered_once_despite_other_requests() {
    let mut p: PendingRequests<u8> = PendingRequests::new();
    let first = match begin_request(&mut p, record("a"), "1".to_string(), 1u8, &"ip".to_string(), &"80".to_string(), None) {
        StartDecision::Forward(hop) => hop,
        _ => panic!("expected a hop"),
    };
    let other = match begin_request(&mut p, record("b"), "2".to_string(), 2u8, &"ip".to_string(), &"80".to_string(), None) {
        StartDecision::Forward(hop) => hop,
        _ => panic!("expected a hop"),
    };
    assert!(matches!(
        begin_request(&mut p, record("a"), "3".to_string(), 3u8, &"ip".to_string(), &"80".to_string(), None),
        StartDecision::Refused { .. }
    ));
    assert_eq!(finish_request(&mut p, &other.body).ok(), Some(2));
    assert_eq!(finish_request(&mut p, &first.body).ok(), Some(1));
    assert!(finish_request(&mut p, &first.body).is_err());
}
