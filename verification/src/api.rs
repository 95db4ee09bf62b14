//! The description of the gateway's interface, which is served from a file.

use crate::responses::{ApiResponse, ApiResponseView};
use crate::text::{report_view, ReportView};
use vstd::prelude::*;
use vstd::string::*;

verus! {

/// File that holds the description of the interface.
pub const API_FILE: &'static str = "/static/api.yaml";

/// The message for a description that could not be read.
pub open spec fn read_failure_text(error: Seq<char>) -> Seq<char> {
    "Failed to read file: "@ + error
}

/// The answer for what reading the file gave: its text, or "not found" with
/// the reason.
pub open spec fn api_response(read: ReportView) -> ApiResponseView {
    match read {
        Ok(text) => ApiResponseView::OK(text),
        Err(error) => ApiResponseView::NotFound(read_failure_text(error)),
    }
}

/// Answers a question for the description of the interface from what
/// reading its file gave: the text, or the text of the fault.
pub fn api(read: Result<String, String>) -> (response: ApiResponse)
    ensures
        response@ == api_response(report_view(read)),
{
    match read {
        Ok(text) => ApiResponse::OK(text),
        Err(error) => {
            let mut message = "Failed to read file: ".to_owned();
            message.append(error.as_str());
            ApiResponse::NotFound(message)
        },
    }
}

} // verus!
