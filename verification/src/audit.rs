//! What is written down about a request that was refused.

use crate::path::clone_opt_text;
use crate::path::opt_text;
use vstd::prelude::*;

verus! {

/// The trace that a refused request leaves.
#[derive(Debug, PartialEq, Eq)]
pub struct AuditRecord {
    /// The request URL in full.
    pub request_url: String,
    /// The path of the request URL.
    pub request_url_parsed: String,
    /// The remote address that the request came from.
    pub req_address: String,
    /// The user agent, if the request named one.
    pub user_agent: Option<String>,
}

/// What an `AuditRecord` holds, as text.
pub struct AuditRecordView {
    pub request_url: Seq<char>,
    pub request_url_parsed: Seq<char>,
    pub req_address: Seq<char>,
    pub user_agent: Option<Seq<char>>,
}

impl View for AuditRecord {
    type V = AuditRecordView;

    open spec fn view(&self) -> AuditRecordView {
        AuditRecordView {
            request_url: self.request_url@,
            request_url_parsed: self.request_url_parsed@,
            req_address: self.req_address@,
            user_agent: opt_text(self.user_agent),
        }
    }
}

impl Clone for AuditRecord {
    fn clone(&self) -> (copy: AuditRecord)
        ensures
            copy@ == self@,
    {
        AuditRecord {
            request_url: self.request_url.clone(),
            request_url_parsed: self.request_url_parsed.clone(),
            req_address: self.req_address.clone(),
            user_agent: clone_opt_text(&self.user_agent),
        }
    }
}

impl AuditRecord {
    /// The record of a request for `request_url`, whose path is
    /// `request_url_parsed`, from `req_address`.
    pub fn new(
        request_url: String,
        request_url_parsed: String,
        req_address: String,
        user_agent: Option<String>,
    ) -> (record: AuditRecord)
        ensures
            record@.request_url == request_url@,
            record@.request_url_parsed == request_url_parsed@,
            record@.req_address == req_address@,
            record@.user_agent == opt_text(user_agent),
    {
        AuditRecord { request_url, request_url_parsed, req_address, user_agent }
    }
}

} // verus!
