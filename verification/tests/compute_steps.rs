use envoy_locality::compute::{
    process_after_fetch, process_after_read, process_after_reread, process_after_write,
    process_begin, process_pass, process_workload, produce_begin, produce_payload,
    produce_written, FileWrite, ProcessAction, ProduceAction,
};
use envoy_locality::record::ComputeDataRef;

fn record(pass_data: bool, data: &str, filename: &str) -> ComputeDataRef {
    ComputeDataRef {
        request_id: "42".to_string(),
        pass_data,
        data: data.to_string(),
        filename: filename.to_string(),
        size: 25,
        loops: 3,
        terminal_service_number: 2,
        source_service_number: 1,
        source_service_ip: "10.0.0.1".to_string(),
        source_service_port: 12341,
        frontend_ip: "10.0.0.9".to_string(),
        service_ips: "".to_string(),
    }
}

#[test]
fn pass_turns_a_into_b() {
    assert_eq!(process_pass(&"banana".to_string()), "bbnbnb");
    assert_eq!(process_pass(&"xyz".to_string()), "xyz");
    assert_eq!(process_pass(&"äa".to_string()), "äb");
    assert_eq!(process_pass(&String::new()), "");
}

#[test]
fn workload_gives_the_last_pass() {
    assert_eq!(process_workload(&"aaa".to_string(), 0), "");
    assert_eq!(process_workload(&"aaa".to_string(), 1), "bbb");
    assert_eq!(process_workload(&"cab".to_string(), 5), "cbb");
}

#[test]
fn payload_repeats_the_block() {
    assert_eq!(produce_payload(0), "");
    assert_eq!(produce_payload(9), "");
    assert_eq!(produce_payload(25), "abcdefghijabcdefghij");
    assert_eq!(produce_payload(1000).len(), 1000);
}

#[test]
fn produce_passes_data_directly() {
    match produce_begin(&record(true, "", "")) {
        ProduceAction::Done(Ok(s)) => assert_eq!(s, "abcdefghijabcdefghij"),
        _ => panic!("expected the payload"),
    }
}

#[test]
fn produce_writes_a_file_named_after_the_request() {
    match produce_begin(&record(false, "", "")) {
        ProduceAction::WriteFile { path, contents } => {
            assert_eq!(path, "/file_42.txt");
            assert_eq!(contents, "abcdefghijabcdefghij");
        }
        _ => panic!("expected a file write"),
    }
}

#[test]
fn produce_reports_the_written_file_or_the_failure() {
    assert_eq!(produce_written("/f.txt".to_string(), FileWrite::Written).ok(), Some("/f.txt".to_string()));
    let e = produce_written("/f.txt".to_string(), FileWrite::CreateFailed("denied".to_string())).err().unwrap();
    assert_eq!(e.message(), "couldn't create /f.txt: denied");
    let e = produce_written("/f.txt".to_string(), FileWrite::WriteFailed("disk full".to_string())).err().unwrap();
    assert_eq!(e.err_msg, "couldn't write to /f.txt: disk full");
}

#[test]
fn process_in_memory_finishes_with_the_file_name() {
    match process_begin(&record(true, "abc", "/file_7.txt")) {
        ProcessAction::Done(Ok(f)) => assert_eq!(f, "/file_7.txt"),
        _ => panic!("expected done"),
    }
}

#[test]
fn process_without_data_reads_the_file() {
    for r in [record(false, "abc", "/file_7.txt"), record(true, "", "/file_7.txt")] {
        match process_begin(&r) {
            ProcessAction::ReadFile(p) => assert_eq!(p, "/file_7.txt"),
            _ => panic!("expected a read"),
        }
    }
}

#[test]
fn process_read_then_fetch_path() {
    let r = record(false, "", "/file_7.txt");
    match process_after_read(&r, &"80".to_string(), Ok("aaaa".to_string())) {
        ProcessAction::Done(Ok(f)) => assert_eq!(f, "/file_7.txt"),
        _ => panic!("expected done"),
    }
    let url = match process_after_read(&r, &"80".to_string(), Err("missing".to_string())) {
        ProcessAction::Fetch { url, path } => {
            assert_eq!(path, "/file_7.txt");
            url
        }
        _ => panic!("expected a fetch"),
    };
    assert_eq!(url, "http://10.0.0.1:80/service/1/getdata");
    match process_after_fetch(&r, &url, Some("data".to_string())) {
        ProcessAction::WriteFile { path, contents } => {
            assert_eq!(path, "/file_7.txt");
            assert_eq!(contents, "data");
        }
        _ => panic!("expected a write"),
    }
    match process_after_fetch(&r, &url, None) {
        ProcessAction::Done(Err(e)) => assert_eq!(
            e.err_msg,
            "couldn't create fetch file /file_7.txt, from http://10.0.0.1:80/service/1/getdata"
        ),
        _ => panic!("expected a failure"),
    }
}

#[test]
fn process_write_then_reread() {
    let r = record(false, "", "/file_7.txt");
    match process_after_write(&r, FileWrite::Written) {
        ProcessAction::Reread(p) => assert_eq!(p, "/file_7.txt"),
        _ => panic!("expected a reread"),
    }
    match process_after_write(&r, FileWrite::CreateFailed("ro".to_string())) {
        ProcessAction::Done(Err(e)) => assert_eq!(e.err_msg, "couldn't create /file_7.txt: ro"),
        _ => panic!("expected a failure"),
    }
    match process_after_write(&r, FileWrite::WriteFailed("full".to_string())) {
        ProcessAction::Done(Err(e)) => assert_eq!(e.err_msg, "couldn't write to /file_7.txt: full"),
        _ => panic!("expected a failure"),
    }
    assert_eq!(process_after_reread(&r, Ok("a".to_string())).ok(), Some("/file_7.txt".to_string()));
    assert_eq!(process_after_reread(&r, Err("gone".to_string())).err().unwrap().err_msg, "gone");
}
