//! The errors the client reports, and how they are shown to the user.
use vstd::prelude::*;

use crate::json::{str_eq, Json};

verus! {

/// Everything that can go wrong in a command. Failures of the HTTP stack,
/// the file system, JSON or CSV handling and prompts keep the text their
/// source reported.
#[derive(Debug)]
pub enum CliError {
    Api {
        code: String,
        message: String,
        status: u16,
        request_id: Option<String>,
        meta: Option<Json>,
    },
    Config(String),
    Usage(String),
    Http(String),
    Io(String),
    Json(String),
    Csv(String),
    Dialoguer(String),
    Other(String),
}

/// The content of a [`CliError`].
pub enum ErrorV {
    Api {
        code: Seq<char>,
        message: Seq<char>,
        status: u16,
        request_id: Option<Seq<char>>,
        meta: Option<crate::json::JsonV>,
    },
    Config(Seq<char>),
    Usage(Seq<char>),
    Http(Seq<char>),
    Io(Seq<char>),
    Json(Seq<char>),
    Csv(Seq<char>),
    Dialoguer(Seq<char>),
    Other(Seq<char>),
}

/// The content of an optional string.
pub open spec fn opt_view(o: Option<String>) -> Option<Seq<char>> {
    match o {
        Some(s) => Some(s@),
        None => None,
    }
}

impl View for CliError {
    type V = ErrorV;

    open spec fn view(&self) -> ErrorV {
        match self {
            CliError::Api { code, message, status, request_id, meta } => ErrorV::Api {
                code: code@,
                message: message@,
                status: *status,
                request_id: opt_view(*request_id),
                meta: match meta {
                    Some(m) => Some(m@),
                    None => None,
                },
            },
            CliError::Config(m) => ErrorV::Config(m@),
            CliError::Usage(m) => ErrorV::Usage(m@),
            CliError::Http(m) => ErrorV::Http(m@),
            CliError::Io(m) => ErrorV::Io(m@),
            CliError::Json(m) => ErrorV::Json(m@),
            CliError::Csv(m) => ErrorV::Csv(m@),
            CliError::Dialoguer(m) => ErrorV::Dialoguer(m@),
            CliError::Other(m) => ErrorV::Other(m@),
        }
    }
}

/// The content of an outcome: the view of the value or of the error.
pub open spec fn res_view<T: View>(r: Result<T, CliError>) -> Result<T::V, ErrorV> {
    match r {
        Ok(v) => Ok(v@),
        Err(e) => Err(e@),
    }
}

/// Shorthand for the outcome of a command step.
pub type CliResult<T> = Result<T, CliError>;

impl CliError {
    /// The text the error displays: the API's message, or the held text.
    pub open spec fn text(&self) -> Seq<char> {
        match self {
            CliError::Api { message, .. } => message@,
            CliError::Config(m) => m@,
            CliError::Usage(m) => m@,
            CliError::Http(m) => m@,
            CliError::Io(m) => m@,
            CliError::Json(m) => m@,
            CliError::Csv(m) => m@,
            CliError::Dialoguer(m) => m@,
            CliError::Other(m) => m@,
        }
    }

    /// A usage error whose text is `text`.
    pub open spec fn is_usage(&self, text: Seq<char>) -> bool {
        self@ == ErrorV::Usage(text)
    }

    /// A configuration error whose text is `text`.
    pub open spec fn is_config(&self, text: Seq<char>) -> bool {
        self@ == ErrorV::Config(text)
    }

    /// The text the error displays.
    pub fn message(&self) -> (r: String)
        ensures
            r@ == self.text(),
    {
        match self {
            CliError::Api { message, .. } => message.clone(),
            CliError::Config(m) => m.clone(),
            CliError::Usage(m) => m.clone(),
            CliError::Http(m) => m.clone(),
            CliError::Io(m) => m.clone(),
            CliError::Json(m) => m.clone(),
            CliError::Csv(m) => m.clone(),
            CliError::Dialoguer(m) => m.clone(),
            CliError::Other(m) => m.clone(),
        }
    }
}

/// A usage error with the given text.
pub fn usage(text: &str) -> (e: CliError)
    ensures
        e.is_usage(text@),
{
    CliError::Usage(String::from_str(text))
}

/// A configuration error with the given text.
pub fn config_error(text: &str) -> (e: CliError)
    ensures
        e.is_config(text@),
{
    CliError::Config(String::from_str(text))
}

/// The advice shown for an API error code, if the code has one.
pub open spec fn hint_for(code: Seq<char>) -> Option<Seq<char>> {
    if code == "ERR_MISSING_AUTH"@ || code == "ERR_INVALID_API_KEY"@ {
        Some("Run: llmpulse config set api_key <your-api-key>"@)
    } else if code == "ERR_REVOKED_API_KEY"@ {
        Some("This API key has been revoked. Generate a new one in the LLM Pulse dashboard."@)
    } else if code == "ERR_PROJECT_NOT_FOUND"@ {
        Some("Run: llmpulse dimensions projects list"@)
    } else if code == "ERR_RATE_LIMITED"@ {
        Some("Wait a moment, then try the request again."@)
    } else {
        None
    }
}

/// The report printed for a failed command.
pub open spec fn format_error_spec(error: CliError) -> Seq<char> {
    match error {
        CliError::Api { code, message, request_id, .. } => {
            let first = "Error: "@ + message@ + " ["@ + code@ + "]"@;
            let with_id = match request_id {
                Some(id) => first + "\nRequest ID: "@ + id@,
                None => first,
            };
            match hint_for(code@) {
                Some(hint) => with_id + "\nHint: "@ + hint,
                None => with_id,
            }
        },
        _ => "Error: "@ + error.text(),
    }
}

/// The advice for an API error code.
fn hint(code: &str) -> (r: Option<&'static str>)
    ensures
        r is None <==> hint_for(code@) is None,
        r matches Some(h) ==> hint_for(code@) == Some(h@),
{
    if str_eq(code, "ERR_MISSING_AUTH") || str_eq(code, "ERR_INVALID_API_KEY") {
        Some("Run: llmpulse config set api_key <your-api-key>")
    } else if str_eq(code, "ERR_REVOKED_API_KEY") {
        Some("This API key has been revoked. Generate a new one in the LLM Pulse dashboard.")
    } else if str_eq(code, "ERR_PROJECT_NOT_FOUND") {
        Some("Run: llmpulse dimensions projects list")
    } else if str_eq(code, "ERR_RATE_LIMITED") {
        Some("Wait a moment, then try the request again.")
    } else {
        None
    }
}

/// Renders an error for the terminal: API errors show their code, request ID
/// and, for known codes, a hint on separate lines.
pub fn format_error(error: &CliError) -> (r: String)
    ensures
        r@ == format_error_spec(*error),
{
    match error {
        CliError::Api { code, message, request_id, .. } => {
            let mut out = String::from_str("Error: ");
            out.append(message.as_str());
            out.append(" [");
            out.append(code.as_str());
            out.append("]");
            match request_id {
                Some(id) => {
                    out.append("\nRequest ID: ");
                    out.append(id.as_str());
                },
                None => {},
            }
            match hint(code.as_str()) {
                Some(h) => {
                    out.append("\nHint: ");
                    out.append(h);
                },
                None => {},
            }
            out
        },
        _ => {
            let mut out = String::from_str("Error: ");
            let text = error.message();
            out.append(text.as_str());
            out
        },
    }
}

} // verus!
