//! The values that travel between the frontend and the services, and the
//! plain descriptions of what the HTTP layer has to send or answer.

use vstd::prelude::*;

verus! {

/// The record that is handed from hop to hop along a workflow.
pub struct ComputeDataRef {
    pub request_id: String,
    pub pass_data: bool,
    pub data: String,
    pub filename: String,
    pub size: u32,
    pub loops: u32,
    pub terminal_service_number: u32,
    pub source_service_number: u32,
    pub source_service_ip: String,
    pub source_service_port: u32,
    pub frontend_ip: String,
    pub service_ips: String,
}

/// The command line of a compute service.
pub struct Cli {
    /// The name of the service, provided as a number.
    pub servicenumber: u32,
    /// The port on which the service should listen.
    pub port: u32,
    /// The type of service: produce data or process data.
    pub servicetype: String,
}

/// An error carrying a message.
pub struct StringError {
    pub err_msg: String,
}

impl StringError {
    /// The message that the error displays.
    pub fn message(&self) -> (m: String)
        ensures
            m@ == self.err_msg@,
    {
        self.err_msg.clone()
    }
}

/// One HTTP header to attach to an outgoing request.
pub struct Header {
    pub name: String,
    pub value: String,
}

/// The headers of an outgoing request as (name, value) pairs of texts.
pub open spec fn header_views(headers: Seq<Header>) -> Seq<(Seq<char>, Seq<char>)> {
    headers.map_values(|h: Header| (h.name@, h.value@))
}

/// An outgoing JSON POST: where it goes, the record it carries and its headers.
pub struct Hop {
    pub url: String,
    pub body: ComputeDataRef,
    pub headers: Vec<Header>,
}

/// The content type an HTTP answer declares.
#[derive(Clone, Copy, Debug, PartialEq, Eq, Structural)]
pub enum ContentType {
    /// None is set explicitly.
    Unset,
    /// `text/html; charset=utf-8`.
    Html,
    /// `application/json`.
    Json,
}

/// An HTTP answer: status code, declared content type and body text.
pub struct Reply {
    pub status: u16,
    pub content_type: ContentType,
    pub body: String,
}

} // verus!
