//! Pure parts of the shell-facing command surface.
//!
//! The desktop shell invokes commands; the decisions and data shaping
//! they perform live here, while the shell supplies inputs such as the
//! current time or the build's version text.

use vstd::prelude::*;
use vstd::string::*;

verus! {

/// A greeting request from the shell.
pub struct GreetingRequest {
    /// Whom to greet.
    pub name: String,
}

/// The greeting produced for the shell.
pub struct GreetingResponse {
    /// The greeting text.
    pub message: String,
    /// When the greeting was produced, in Unix seconds.
    pub timestamp: u64,
}

/// Build the greeting for a request at the given time.
pub fn greet(request: GreetingRequest, now_secs: u64) -> (r: GreetingResponse)
    ensures
        r.message@ == "こんにちは、"@ + request.name@ + "さん！"@,
        r.timestamp == now_secs,
{
    GreetingResponse {
        message: String::from_str("こんにちは、").concat(request.name.as_str()).concat("さん！"),
        timestamp: now_secs,
    }
}

/// Version data reported to the shell.
pub struct AppVersionResponse {
    /// The application's version text.
    pub version: String,
    /// The build identifier.
    pub build_id: String,
    /// When the data was produced (RFC 3339 text).
    pub build_date: String,
}

/// Assemble the version report from the build's facts.
pub fn get_app_version(version: String, build_id: String, build_date: String) -> (r:
    AppVersionResponse)
    ensures
        r.version@ == version@,
        r.build_id@ == build_id@,
        r.build_date@ == build_date@,
{
    AppVersionResponse { version, build_id, build_date }
}

/// Parameters of a history command from the shell.
pub struct GetMessageHistoryParams {
    /// At most this many messages.
    pub limit: Option<i64>,
    /// Skip this many messages.
    pub offset: Option<i64>,
    /// Only messages of this stream session.
    pub session_id: Option<String>,
    /// Sort oldest-first when true.
    pub sort_asc: Option<bool>,
}

/// Fill in the defaults of a history command: one hundred messages
/// from the start, oldest-first.
pub fn normalize_history_params(params: &GetMessageHistoryParams) -> (r: (i64, i64, bool))
    ensures
        r.0 == match params.limit {
            Some(v) => v as int,
            None => 100int,
        },
        r.1 == match params.offset {
            Some(v) => v as int,
            None => 0int,
        },
        r.2 == match params.sort_asc {
            Some(v) => v,
            None => true,
        },
{
    let limit = match params.limit {
        Some(v) => v,
        None => 100,
    };
    let offset = match params.offset {
        Some(v) => v,
        None => 0,
    };
    let sort_asc = match params.sort_asc {
        Some(v) => v,
        None => true,
    };
    (limit, offset, sort_asc)
}

} // verus!
