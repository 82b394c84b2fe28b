//! The code search tool service: its requests, and the replies its tools give
//! for the outcome of each piece of work.

use vstd::prelude::*;

verus! {

/// A request to a tool of the service: the text to search for and the
/// repository it is about.
#[derive(Debug, Clone, PartialEq, Eq)]
pub struct SetCodeRequest {
    pub query: String,
    pub repository: String,
}

/// What the service tells about an ingest that failed: the repository and
/// the error.
#[derive(Debug, Clone, PartialEq, Eq)]
pub struct ErrorDetail {
    pub code: String,
    pub error: String,
}

/// The reply of a tool.
#[derive(Debug, Clone, PartialEq, Eq)]
pub enum ToolReply {
    /// The tool succeeded with this text.
    Success { text: String },
    /// The tool failed with an internal error: its message and, where there
    /// is one, what it is about.
    InternalError { message: String, detail: Option<ErrorDetail> },
}

/// What the service announces of itself.
#[derive(Debug, Clone, PartialEq, Eq)]
pub struct ServiceInfo {
    pub instructions: String,
    pub tools_enabled: bool,
}

/// The service that hands code search and ingestion to its clients as tools.
#[derive(Debug, Clone, PartialEq, Eq)]
pub struct CodeSearchService {}

impl CodeSearchService {
    /// A new service.
    pub fn new() -> (s: Self) {
        CodeSearchService {}
    }

    /// The reply to a search for related code, from the search's outcome:
    /// the code found, or an internal error with the search's message.
    pub fn get_code(&self, found: Result<String, String>) -> (reply: ToolReply)
        ensures
            found matches Ok(t) ==> (reply matches ToolReply::Success { text } && text@ == t@),
            found matches Err(e) ==> (reply matches ToolReply::InternalError { message, detail }
                && message@ == e@ && detail is None),
    {
        match found {
            Ok(text) => ToolReply::Success { text },
            Err(message) => ToolReply::InternalError { message, detail: None },
        }
    }

    /// The reply to a request to add `repository` to the index, from the
    /// ingest's outcome: its report, or an internal error that says
    /// `Failed to add code: ` and the error, with the repository and the
    /// error as detail.
    pub fn add_code(&self, repository: String, ingested: Result<String, String>) -> (reply: ToolReply)
        ensures
            ingested matches Ok(t) ==> (reply matches ToolReply::Success { text } && text@ == t@),
            ingested matches Err(e) ==> (reply matches ToolReply::InternalError { message, detail }
                && message@ == "Failed to add code: "@ + e@
                && (detail matches Some(d) && d.code@ == repository@ && d.error@ == e@)),
    {
        match ingested {
            Ok(text) => ToolReply::Success { text },
            Err(error) => {
                let message = String::from_str("Failed to add code: ").concat(error.as_str());
                ToolReply::InternalError {
                    message,
                    detail: Some(ErrorDetail { code: repository, error }),
                }
            },
        }
    }

    /// The reply to a request for the repositories available, from the
    /// listing's outcome: the listing, or an internal error with its message.
    pub fn get_available_repos(&self, listed: Result<String, String>) -> (reply: ToolReply)
        ensures
            listed matches Ok(t) ==> (reply matches ToolReply::Success { text } && text@ == t@),
            listed matches Err(e) ==> (reply matches ToolReply::InternalError { message, detail }
                && message@ == e@ && detail is None),
    {
        match listed {
            Ok(text) => ToolReply::Success { text },
            Err(message) => ToolReply::InternalError { message, detail: None },
        }
    }

    /// What the service announces: a generic data service that offers tools.
    pub fn get_info(&self) -> (info: ServiceInfo)
        ensures
            info.instructions@ == "generic data service"@,
            info.tools_enabled,
    {
        ServiceInfo { instructions: String::from_str("generic data service"), tools_enabled: true }
    }
}

} // verus!
