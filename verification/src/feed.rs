//! Release-feed interpretation: turning the raw outcome of the feed request
//! into the latest published [`Version`] or a distinguishable error.
//!
//! The HTTP request itself is outside work; the application performs it and
//! hands the outcome over as a [`FeedResponse`]. Everything from there on —
//! status classification, JSON interpretation, tag extraction, version
//! parsing — is verified, with the JSON lookup itself delegated to
//! `serde_json` behind one trusted wrapper.

use vstd::prelude::*;
use vstd::string::StringExecFns;

use crate::version::render_u64;
use crate::version::spec_decimal;
use crate::version::spec_parse_version;
use crate::version::Version;

verus! {

/// The raw outcome of one GET against the release feed, as plain values.
#[derive(Debug, Clone)]
pub enum FeedResponse {
    /// The request produced no HTTP response at all (DNS, connection, ...).
    Failed { detail: String },
    /// An HTTP response, with its status code and its body text.
    Received { status: u16, body: String },
}

/// Why the latest version could not be obtained. The three kinds stay
/// distinguishable so a caller can tell a network problem from a bad feed.
#[derive(Debug, Clone)]
pub enum FetchError {
    /// The request never reached the feed.
    Transport { detail: String },
    /// The feed answered, but not with a usable JSON document: a non-success
    /// status, or a body that is not JSON.
    BadResponse { detail: String },
    /// The document parsed but holds no string `tag_name` field.
    MissingTag,
}

/// An HTTP status code that indicates success.
pub open spec fn spec_status_success(status: u16) -> bool {
    200 <= status < 300
}

/// Classify an HTTP status code.
pub fn status_is_success(status: u16) -> (r: bool)
    ensures
        r == spec_status_success(status),
{
    200 <= status && status < 300
}

/// The string field of a JSON document at a given key: `None` when the text
/// is not a JSON document, `Some(None)` when the document has no string
/// field under the key, `Some(Some(text))` otherwise. This is what
/// `serde_json` computes; it depends on the document and the key alone.
pub uninterp spec fn json_string_field(doc: Seq<char>, key: Seq<char>) -> Option<Option<Seq<char>>>;

/// Relies on serde_json: `from_str::<Value>` parses a JSON document from
/// text (erring on anything that is not JSON), `Value::get` looks a key up
/// in an object, and `Value::as_str` gives the field's text exactly when the
/// field is a JSON string. The outcome is a function of the text and the key
/// alone; none of the calls panics.
#[verifier::external_body]
fn lookup_string_field(body: &str, key: &str) -> (r: Option<Option<String>>)
    ensures
        match r {
            None => json_string_field(body@, key@) is None,
            Some(inner) => match inner {
                None => json_string_field(body@, key@) == Some(Option::<Seq<char>>::None),
                Some(t) => json_string_field(body@, key@) == Some(Some(t@)),
            },
        },
{
    match serde_json::from_str::<serde_json::Value>(body) {
        Err(_) => None,
        Ok(doc) => match doc.get(key) {
            None => Some(None),
            Some(field) => match field.as_str() {
                None => Some(None),
                Some(text) => Some(Some(text.to_string())),
            },
        },
    }
}

/// The key under which the feed publishes the release tag.
pub open spec fn spec_tag_key() -> Seq<char> {
    "tag_name"@
}

/// Detail text for a feed response with a non-success status.
pub open spec fn spec_bad_status_detail(status: u16) -> Seq<char> {
    "HTTP status "@ + spec_decimal(status as nat)
}

/// Detail text for a feed body that is not a JSON document.
pub open spec fn spec_malformed_feed_detail() -> Seq<char> {
    "release feed is not a JSON document"@
}

/// The latest version the feed announces, when the response is usable.
pub open spec fn spec_latest_of(response: FeedResponse) -> Option<Version> {
    match response {
        FeedResponse::Failed { .. } => None,
        FeedResponse::Received { status, body } => if !spec_status_success(status) {
            None
        } else {
            match json_string_field(body@, spec_tag_key()) {
                Some(inner) => match inner {
                    Some(tag) => Some(spec_parse_version(tag)),
                    None => None,
                },
                None => None,
            }
        },
    }
}

/// Exactly which result [`get_latest`] returns for a response.
pub open spec fn get_latest_spec(response: FeedResponse, r: Result<Version, FetchError>) -> bool {
    match response {
        FeedResponse::Failed { detail } => r matches Err(FetchError::Transport { detail: d })
            && d@ == detail@,
        FeedResponse::Received { status, body } => if !spec_status_success(status) {
            r matches Err(FetchError::BadResponse { detail }) && detail@ == spec_bad_status_detail(
                status,
            )
        } else {
            match json_string_field(body@, spec_tag_key()) {
                None => r matches Err(FetchError::BadResponse { detail }) && detail@
                    == spec_malformed_feed_detail(),
                Some(inner) => match inner {
                    None => r == Err::<Version, FetchError>(FetchError::MissingTag),
                    Some(tag) => r == Ok::<Version, FetchError>(spec_parse_version(tag)),
                },
            }
        },
    }
}

/// Interpret the outcome of the feed request: on a success status and a JSON
/// body with a string `tag_name` field, the version that tag encodes;
/// otherwise the matching [`FetchError`], one distinguishable kind per
/// failure mode.
pub fn get_latest(response: &FeedResponse) -> (r: Result<Version, FetchError>)
    ensures
        get_latest_spec(*response, r),
{
    match response {
        FeedResponse::Failed { detail } => Err(
            FetchError::Transport { detail: detail.clone() },
        ),
        FeedResponse::Received { status, body } => {
            if !status_is_success(*status) {
                let mut detail = "HTTP status ".to_owned();
                let digits = render_u64(*status as u64);
                detail.append(digits.as_str());
                Err(FetchError::BadResponse { detail })
            } else {
                match lookup_string_field(body.as_str(), "tag_name") {
                    None => Err(
                        FetchError::BadResponse {
                            detail: "release feed is not a JSON document".to_owned(),
                        },
                    ),
                    Some(inner) => match inner {
                        None => Err(FetchError::MissingTag),
                        Some(tag) => Ok(Version::from_string(tag.as_str())),
                    },
                }
            }
        },
    }
}

/// The human-readable message of a fetch error.
pub open spec fn spec_fetch_error_message(e: FetchError) -> Seq<char> {
    match e {
        FetchError::Transport { detail } => "Failed to fetch release data from GitHub API: "@
            + detail@,
        FetchError::BadResponse { detail } => "Invalid release data from GitHub API: "@ + detail@,
        FetchError::MissingTag => "Missing or invalid tag_name in GitHub response"@,
    }
}

/// The message the feed's error text derives from the raw response, for the
/// cases where [`spec_latest_of`] yields nothing.
pub open spec fn spec_feed_error_text(response: FeedResponse) -> Seq<char> {
    match response {
        FeedResponse::Failed { detail } => "Failed to fetch release data from GitHub API: "@
            + detail@,
        FeedResponse::Received { status, body } => if !spec_status_success(status) {
            "Invalid release data from GitHub API: "@ + spec_bad_status_detail(status)
        } else {
            match json_string_field(body@, spec_tag_key()) {
                None => "Invalid release data from GitHub API: "@ + spec_malformed_feed_detail(),
                Some(_) => "Missing or invalid tag_name in GitHub response"@,
            }
        },
    }
}

impl FetchError {
    /// Render this error for the user.
    pub fn message(&self) -> (r: String)
        ensures
            r@ == spec_fetch_error_message(*self),
    {
        match self {
            FetchError::Transport { detail } => {
                let mut s = "Failed to fetch release data from GitHub API: ".to_owned();
                s.append(detail.as_str());
                s
            },
            FetchError::BadResponse { detail } => {
                let mut s = "Invalid release data from GitHub API: ".to_owned();
                s.append(detail.as_str());
                s
            },
            FetchError::MissingTag => "Missing or invalid tag_name in GitHub response".to_owned(),
        }
    }
}

/// A feed document without a string `tag_name` field yields the missing-tag
/// error, which is distinguishable from a network failure: the caller can
/// tell a bad feed from an unreachable one.
pub proof fn lemma_missing_tag_is_a_feed_error(
    response: FeedResponse,
    r: Result<Version, FetchError>,
)
    requires
        response matches FeedResponse::Received { status, body } && spec_status_success(status)
            && json_string_field(body@, spec_tag_key()) == Some(Option::<Seq<char>>::None),
        get_latest_spec(response, r),
    ensures
        r == Err::<Version, FetchError>(FetchError::MissingTag),
        !(r matches Err(FetchError::Transport { .. })),
        spec_latest_of(response) is None,
{
}

/// A successful interpretation names exactly the version of
/// [`spec_latest_of`]; a failed one matches its error text.
pub proof fn lemma_get_latest_verdict(response: FeedResponse, r: Result<Version, FetchError>)
    requires
        get_latest_spec(response, r),
    ensures
        r matches Ok(v) ==> spec_latest_of(response) == Some(v),
        r is Err ==> spec_latest_of(response) is None,
        r matches Err(e) ==> spec_fetch_error_message(e) == spec_feed_error_text(response),
{
}

} // verus!
