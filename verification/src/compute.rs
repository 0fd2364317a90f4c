//! The work of a compute service: producing a payload, and processing one
//! that is either carried in the record or kept in a file.

use vstd::prelude::*;
use crate::text::push_char;
use crate::record::{ComputeDataRef, StringError};
use crate::routing::{getdata_url, getdata_url_view};

verus! {

/// `c` with `'a'` turned into `'b'`.
pub open spec fn swap_a(c: char) -> char {
    if c == 'a' { 'b' } else { c }
}

/// `s` with every `'a'` turned into `'b'`.
pub open spec fn swap_all_a(s: Seq<char>) -> Seq<char> {
    s.map_values(|c: char| swap_a(c))
}

/// One processing pass over `contents`: every `'a'` becomes `'b'`.
pub fn process_pass(contents: &String) -> (r: String)
    ensures
        r@ == swap_all_a(contents@),
{
    let mut out = String::new();
    let ghost all = contents@;
    for c in it: contents.as_str().chars()
        invariant
            it.seq() == all,
            out@ == swap_all_a(all.take(it.index() as int)),
    {
        let d = if c == 'a' { 'b' } else { c };
        push_char(&mut out, d);
        assert(all.take(it.index() + 1) == all.take(it.index() as int).push(c));
    }
    assert(all.take(all.len() as int) == all);
    out
}

/// The result of running the processing pass `loops` times over `contents`:
/// the text of the last pass, or the empty text where no pass ran.
pub open spec fn workload_result(contents: Seq<char>, loops: u32) -> Seq<char> {
    if loops == 0 { Seq::empty() } else { swap_all_a(contents) }
}

/// Runs the processing pass `loops` times over `contents` (each pass starts
/// again from `contents`) and gives back the text of the last pass.
pub fn process_workload(contents: &String, loops: u32) -> (r: String)
    ensures
        r@ == workload_result(contents@, loops),
{
    let mut last = String::new();
    for _j in 0..loops
        invariant
            _j == 0 ==> last@ == Seq::<char>::empty(),
            _j > 0 ==> last@ == swap_all_a(contents@),
    {
        last = process_pass(contents);
    }
    last
}

/// The block that a producing service repeats.
pub open spec fn block() -> Seq<char> {
    "abcdefghij"@
}

/// `n` copies of the block, one after the other.
pub open spec fn repeated_block(n: nat) -> Seq<char>
    decreases n,
{
    if n == 0 { Seq::empty() } else { repeated_block((n - 1) as nat) + block() }
}

/// The payload of a producing service: the block repeated `size / 10` times.
pub fn produce_payload(size: u32) -> (s: String)
    ensures
        s@ == repeated_block((size / 10) as nat),
{
    let mut filedata = String::new();
    let num_iters: u32 = size / 10;
    for i in 0..num_iters
        invariant
            filedata@ == repeated_block(i as nat),
    {
        filedata.append("abcdefghij");
    }
    filedata
}

/// The outcome of creating a file and writing to it.
pub enum FileWrite {
    /// The file was created and fully written.
    Written,
    /// The file could not be created; the text says why.
    CreateFailed(String),
    /// The file was created but writing failed; the text says why.
    WriteFailed(String),
}

/// `couldn't create {path}: {why}`
pub open spec fn create_failed_view(path: Seq<char>, why: Seq<char>) -> Seq<char> {
    "couldn't create "@ + path + ": "@ + why
}

/// `couldn't write to {path}: {why}`
pub open spec fn write_failed_view(path: Seq<char>, why: Seq<char>) -> Seq<char> {
    "couldn't write to "@ + path + ": "@ + why
}

/// `couldn't create fetch file {path}, from {url}`
pub open spec fn fetch_failed_view(path: Seq<char>, url: Seq<char>) -> Seq<char> {
    "couldn't create fetch file "@ + path + ", from "@ + url
}

/// `/file_{request_id}.txt`
pub open spec fn produced_path_view(request_id: Seq<char>) -> Seq<char> {
    "/file_"@ + request_id + ".txt"@
}

/// The error for a failed write of `path`.
fn write_error(path: &String, outcome: FileWrite) -> (e: Option<StringError>)
    ensures
        match outcome {
            FileWrite::Written => e is None,
            FileWrite::CreateFailed(why) => e matches Some(e) && e.err_msg@ == create_failed_view(path@, why@),
            FileWrite::WriteFailed(why) => e matches Some(e) && e.err_msg@ == write_failed_view(path@, why@),
        },
{
    match outcome {
        FileWrite::Written => None,
        FileWrite::CreateFailed(why) => {
            let mut m = String::from_str("couldn't create ");
            m.append(path.as_str());
            m.append(": ");
            m.append(why.as_str());
            Some(StringError { err_msg: m })
        },
        FileWrite::WriteFailed(why) => {
            let mut m = String::from_str("couldn't write to ");
            m.append(path.as_str());
            m.append(": ");
            m.append(why.as_str());
            Some(StringError { err_msg: m })
        },
    }
}

/// What a producing service does next.
pub enum ProduceAction {
    /// The work is over with this result.
    Done(Result<String, StringError>),
    /// Write `contents` to a new file at `path`, then report with `produce_written`.
    WriteFile { path: String, contents: String },
}

/// The first step of a producing service: build the payload, then hand it
/// on directly where the record asks to pass data, else write it to a file
/// named after the request.
pub fn produce_begin(data: &ComputeDataRef) -> (a: ProduceAction)
    ensures
        data.pass_data ==> (a matches ProduceAction::Done(Ok(s)) && s@ == repeated_block((data.size / 10) as nat)),
        !data.pass_data ==> (a matches ProduceAction::WriteFile { path, contents } && path@ == produced_path_view(data.request_id@) && contents@ == repeated_block((data.size / 10) as nat)),
{
    let filedata = produce_payload(data.size);
    if data.pass_data {
        return ProduceAction::Done(Ok(filedata));
    }
    let mut path = String::from_str("/file_");
    path.append(data.request_id.as_str());
    path.append(".txt");
    ProduceAction::WriteFile { path, contents: filedata }
}

/// The result of a producing service once its file was written: the path of
/// the file, or the error that names the failed step.
pub fn produce_written(path: String, outcome: FileWrite) -> (r: Result<String, StringError>)
    ensures
        match outcome {
            FileWrite::Written => r matches Ok(p) && p@ == path@,
            FileWrite::CreateFailed(why) => r matches Err(e) && e.err_msg@ == create_failed_view(path@, why@),
            FileWrite::WriteFailed(why) => r matches Err(e) && e.err_msg@ == write_failed_view(path@, why@),
        },
{
    match write_error(&path, outcome) {
        None => Ok(path),
        Some(e) => Err(e),
    }
}

/// What a processing service does next.
pub enum ProcessAction {
    /// The work is over with this result.
    Done(Result<String, StringError>),
    /// Read the file at this path, then report with `process_after_read`.
    ReadFile(String),
    /// Ask `url` for the file at `path`, then report with `process_after_fetch`.
    Fetch { url: String, path: String },
    /// Write `contents` to a new file at `path`, then report with `process_after_write`.
    WriteFile { path: String, contents: String },
    /// Read the file at this path again, then report with `process_after_reread`.
    Reread(String),
}

/// The first step of a processing service: where the record carries data, run
/// the workload over it and finish with the file name; else read the file.
pub fn process_begin(data: &ComputeDataRef) -> (a: ProcessAction)
    ensures
        data.pass_data && data.data@.len() > 0 ==> (a matches ProcessAction::Done(Ok(f)) && f@ == data.filename@),
        !(data.pass_data && data.data@.len() > 0) ==> (a matches ProcessAction::ReadFile(p) && p@ == data.filename@),
{
    if data.pass_data && !data.data.as_str().is_empty() {
        let _last = process_workload(&data.data, data.loops);
        return ProcessAction::Done(Ok(data.filename.clone()));
    }
    ProcessAction::ReadFile(data.filename.clone())
}

/// After the first read: with the contents, run the workload and finish with
/// the file name; without, fetch the file from the service that wrote it.
pub fn process_after_read(data: &ComputeDataRef, envoy_port: &String, read: Result<String, String>) -> (a: ProcessAction)
    ensures
        read is Ok ==> (a matches ProcessAction::Done(Ok(f)) && f@ == data.filename@),
        read is Err ==> (a matches ProcessAction::Fetch { url, path } && path@ == data.filename@ && url@ == getdata_url_view(data.source_service_ip@, envoy_port@, data.source_service_number)),
{
    match read {
        Ok(contents) => {
            let _last = process_workload(&contents, data.loops);
            ProcessAction::Done(Ok(data.filename.clone()))
        },
        Err(_) => {
            let url = getdata_url(&data.source_service_ip, envoy_port, data.source_service_number);
            ProcessAction::Fetch { url, path: data.filename.clone() }
        },
    }
}

/// After the fetch from `url`: store what came back in the file, or fail.
pub fn process_after_fetch(data: &ComputeDataRef, url: &String, fetched: Option<String>) -> (a: ProcessAction)
    ensures
        fetched matches Some(c) ==> (a matches ProcessAction::WriteFile { path, contents } && path@ == data.filename@ && contents == c),
        fetched is None ==> (a matches ProcessAction::Done(Err(e)) && e.err_msg@ == fetch_failed_view(data.filename@, url@)),
{
    match fetched {
        Some(contents) => ProcessAction::WriteFile { path: data.filename.clone(), contents },
        None => {
            let mut m = String::from_str("couldn't create fetch file ");
            m.append(data.filename.as_str());
            m.append(", from ");
            m.append(url.as_str());
            ProcessAction::Done(Err(StringError { err_msg: m }))
        },
    }
}

/// After storing the fetched file: read it again, or fail naming the step.
pub fn process_after_write(data: &ComputeDataRef, outcome: FileWrite) -> (a: ProcessAction)
    ensures
        match outcome {
            FileWrite::Written => a matches ProcessAction::Reread(p) && p@ == data.filename@,
            FileWrite::CreateFailed(why) => a matches ProcessAction::Done(Err(e)) && e.err_msg@ == create_failed_view(data.filename@, why@),
            FileWrite::WriteFailed(why) => a matches ProcessAction::Done(Err(e)) && e.err_msg@ == write_failed_view(data.filename@, why@),
        },
{
    match write_error(&data.filename, outcome) {
        None => ProcessAction::Reread(data.filename.clone()),
        Some(e) => ProcessAction::Done(Err(e)),
    }
}

/// After reading the stored file again: run the workload and finish with the
/// file name, or fail with the reason the read gave.
pub fn process_after_reread(data: &ComputeDataRef, read: Result<String, String>) -> (r: Result<String, StringError>)
    ensures
        read is Ok ==> (r matches Ok(f) && f@ == data.filename@),
        read matches Err(why) ==> (r matches Err(e) && e.err_msg@ == why@),
{
    match read {
        Ok(contents) => {
            let _last = process_workload(&contents, data.loops);
            Ok(data.filename.clone())
        },
        Err(why) => Err(StringError { err_msg: why }),
    }
}

/// A processing pass keeps the length of the text, leaves no `'a'` in it,
/// keeps every other character, and a second pass changes nothing more.
pub proof fn law_pass_shape(s: Seq<char>)
    ensures
        swap_all_a(s).len() == s.len(),
        forall|i: int| 0 <= i < s.len() ==> swap_all_a(s)[i] != 'a',
        forall|i: int| 0 <= i < s.len() && s[i] != 'a' ==> swap_all_a(s)[i] == s[i],
        forall|i: int| 0 <= i < s.len() && s[i] == 'a' ==> swap_all_a(s)[i] == 'b',
        swap_all_a(swap_all_a(s)) == swap_all_a(s),
{
    assert(swap_all_a(swap_all_a(s)) =~= swap_all_a(s));
}

/// The produced payload is `10 * n` characters long and its character at
/// position `i` is the one at `i % 10` in `abcdefghij`.
pub proof fn law_payload_shape(n: nat)
    ensures
        repeated_block(n).len() == 10 * n,
        forall|i: int| 0 <= i < 10 * n ==> #[trigger] repeated_block(n)[i] == block()[i % 10],
    decreases n,
{
    reveal_strlit("abcdefghij");
    if n > 0 {
        law_payload_shape((n - 1) as nat);
        let prev = repeated_block((n - 1) as nat);
        assert forall|i: int| 0 <= i < 10 * n implies #[trigger] repeated_block(n)[i] == block()[i % 10] by {
            if i < 10 * (n - 1) {
                assert(repeated_block(n)[i] == prev[i]);
            } else {
                assert(repeated_block(n)[i] == block()[i - 10 * (n - 1)]);
                assert(i % 10 == i - 10 * (n - 1)) by (nonlinear_arith)
                    requires 10 * (n - 1) <= i < 10 * n, n > 0;
            }
        }
    }
}

/// A workload of at least one pass gives the contents with every `'a'` turned
/// into `'b'` and every other character kept, whatever the number of passes
/// (each pass starts again from the contents); no pass gives the empty text.
pub proof fn law_workload_result(contents: Seq<char>, loops: u32)
    ensures
        loops == 0 ==> workload_result(contents, loops).len() == 0,
        loops > 0 ==> workload_result(contents, loops).len() == contents.len(),
        loops > 0 ==> forall|i: int| 0 <= i < contents.len() && contents[i] == 'a'
            ==> #[trigger] workload_result(contents, loops)[i] == 'b',
        loops > 0 ==> forall|i: int| 0 <= i < contents.len() && contents[i] != 'a'
            ==> #[trigger] workload_result(contents, loops)[i] == contents[i],
{
}

/// The file a producing service writes is named after the whole request id:
/// the name is `/file_`, then the id, then `.txt`, so different requests
/// write different files.
pub proof fn law_produced_path(id: Seq<char>, other: Seq<char>)
    ensures
        produced_path_view(id).len() == id.len() + 10,
        produced_path_view(id).subrange(0, 6) == "/file_"@,
        produced_path_view(id).subrange(6, 6 + id.len() as int) == id,
        produced_path_view(id).subrange(6 + id.len() as int, 10 + id.len() as int) == ".txt"@,
        produced_path_view(id) == produced_path_view(other) ==> id == other,
{
    reveal_strlit("/file_");
    reveal_strlit(".txt");
    let p = produced_path_view(id);
    assert(p.subrange(0, 6) =~= "/file_"@);
    assert(p.subrange(6, 6 + id.len() as int) =~= id);
    assert(p.subrange(6 + id.len() as int, 10 + id.len() as int) =~= ".txt"@);
    let q = produced_path_view(other);
    if p == q {
        assert(q.subrange(6, 6 + other.len() as int) =~= other);
    }
}

} // verus!
