//! What became of one upload.

use crate::text::{decimal, decimal_string};
use vstd::prelude::*;
use vstd::string::*;

verus! {

/// The terminal result of one upload task.
#[derive(Clone, Debug)]
pub enum UploadOutcome {
    /// The endpoint answered.
    Response { status: u16, url: String },
    /// No answer arrived: the connection failed or timed out.
    TransportError { message: String },
}

/// The diagnostic for a response whose status is no success.
pub open spec fn status_report(url: Seq<char>, status: u16, file: Seq<char>) -> Seq<char> {
    "POST "@ + url + " "@ + decimal(status as nat) + "\nIs collection correct?\nfailed to index file: "@
        + file
}

/// The diagnostic for a request that got no answer.
pub open spec fn transport_report(message: Seq<char>, file: Seq<char>) -> Seq<char> {
    message + "\nIs Solr server running and collection available?\nfailed to index file: "@ + file
}

/// The warning for a commit that was answered with a status that is no
/// success.
pub open spec fn commit_status_warning(status: u16) -> Seq<char> {
    "commit failed: "@ + decimal(status as nat)
}

/// The warning for a commit that got no answer.
pub open spec fn commit_transport_warning(message: Seq<char>) -> Seq<char> {
    message + "\nIs Solr server running and collection available?"@
}

impl UploadOutcome {
    /// The upload was accepted: a response with a status from 200 to 299.
    pub open spec fn succeeded(&self) -> bool {
        match self {
            UploadOutcome::Response { status, .. } => 200 <= *status <= 299,
            UploadOutcome::TransportError { .. } => false,
        }
    }

    /// The diagnostic owed for this outcome of uploading `file`: none for a
    /// success.
    pub open spec fn diagnostic(&self, file: Seq<char>) -> Option<Seq<char>> {
        match self {
            UploadOutcome::Response { status, url } => if 200 <= *status <= 299 {
                None
            } else {
                Some(status_report(url@, *status, file))
            },
            UploadOutcome::TransportError { message } => Some(transport_report(message@, file)),
        }
    }

    /// The warning owed when this is what became of the commit request:
    /// none for a success.
    pub open spec fn commit_diagnostic(&self) -> Option<Seq<char>> {
        match self {
            UploadOutcome::Response { status, .. } => if 200 <= *status <= 299 {
                None
            } else {
                Some(commit_status_warning(*status))
            },
            UploadOutcome::TransportError { message } => Some(commit_transport_warning(message@)),
        }
    }

    /// Whether the upload was accepted.
    pub fn is_success(&self) -> (b: bool)
        ensures
            b == self.succeeded(),
    {
        match self {
            UploadOutcome::Response { status, .. } => 200 <= *status && *status <= 299,
            UploadOutcome::TransportError { .. } => false,
        }
    }

    /// The text to report for this outcome of uploading `file`; `None`
    /// exactly for a success.
    pub fn report(&self, file: &str) -> (r: Option<String>)
        ensures
            r is Some <==> !self.succeeded(),
            match r {
                Some(text) => self.diagnostic(file@) == Some(text@),
                None => self.diagnostic(file@) is None,
            },
    {
        match self {
            UploadOutcome::Response { status, url } => {
                if 200 <= *status && *status <= 299 {
                    None
                } else {
                    let mut text = String::from_str("POST ");
                    text.append(url.as_str());
                    text.append(" ");
                    let code = decimal_string(*status as u64);
                    text.append(code.as_str());
                    text.append("\nIs collection correct?\nfailed to index file: ");
                    text.append(file);
                    Some(text)
                }
            },
            UploadOutcome::TransportError { message } => {
                let mut text = String::from_str(message.as_str());
                text.append("\nIs Solr server running and collection available?\nfailed to index file: ");
                text.append(file);
                Some(text)
            },
        }
    }

    /// The warning to give when this is what became of the commit request;
    /// `None` exactly for a success. A failed commit takes nothing back from
    /// what was uploaded.
    pub fn commit_warning(&self) -> (r: Option<String>)
        ensures
            r is Some <==> !self.succeeded(),
            match r {
                Some(text) => self.commit_diagnostic() == Some(text@),
                None => self.commit_diagnostic() is None,
            },
    {
        match self {
            UploadOutcome::Response { status, .. } => {
                if 200 <= *status && *status <= 299 {
                    None
                } else {
                    let code = decimal_string(*status as u64);
                    Some(String::from_str("commit failed: ").concat(code.as_str()))
                }
            },
            UploadOutcome::TransportError { message } => {
                let text = String::from_str(message.as_str());
                Some(text.concat("\nIs Solr server running and collection available?"))
            },
        }
    }
}

} // verus!
