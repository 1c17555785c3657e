//! What an index's answer to an upload means: newly uploaded, already there,
//! or failed, and with which message.

use crate::error::{PublishSendError, PublishSendErrorView};
use crate::text::{
    contains_text, from_utf8_lossy, opt_str_text, opt_text, str_contains, str_eq, utf8_lossy,
};
use vstd::prelude::*;

verus! {

/// The value of the member `name` of the JSON object that `document` is, where
/// `document` is one JSON object and that member is a string; `None` for every
/// other text.
pub uninterp spec fn json_string_member(document: Seq<char>, name: Seq<char>) -> Option<Seq<char>>;

/// Parses `document` with `serde_json::from_str` into a `serde_json::Value` and
/// looks `name` up with `Value::get` and `Value::as_str`. The three are functions
/// of the two texts alone; nothing is claimed of the result but its name.
#[verifier::external_body]
fn parse_string_member(document: &str, name: &str) -> (member: Option<String>)
    ensures
        match member {
            Some(text) => json_string_member(document@, name@) == Some(text@),
            None => json_string_member(document@, name@) is None,
        },
{
    let value: serde_json::Value = serde_json::from_str(document).ok()?;
    Some(value.get(name)?.as_str()?.to_string())
}

/// What is known of a response before its body is read.
#[derive(Clone, Debug)]
pub struct ResponseHead {
    /// The URL that answered, after any redirects.
    pub url: String,
    /// The status code.
    pub status: u16,
    /// The value of the `Content-Type` header, if there is a readable one.
    pub content_type: Option<String>,
}

/// A response head as plain values.
pub struct ResponseHeadView {
    pub url: Seq<char>,
    pub status: u16,
    pub content_type: Option<Seq<char>>,
}

impl View for ResponseHead {
    type V = ResponseHeadView;

    open spec fn view(&self) -> ResponseHeadView {
        ResponseHeadView {
            url: self.url@,
            status: self.status,
            content_type: opt_text(self.content_type),
        }
    }
}

/// A status of the 2xx class.
pub open spec fn is_success(status: u16) -> bool {
    200 <= status < 300
}

/// The message shown for a failed upload: the `code` member of a JSON body
/// served as `application/json`, the body itself in every other case.
pub open spec fn error_message(
    body: Seq<char>,
    content_type: Option<Seq<char>>,
    code: Option<Seq<char>>,
) -> Seq<char> {
    if content_type == Some("application/json"@) {
        match code {
            Some(code) => code,
            None => body,
        }
    } else {
        body
    }
}

/// The ways in which indexes say that the file is already there: Artifactory
/// with 403, pypiserver with 409, Nexus and GitLab with 400.
pub open spec fn already_exists(status: u16, body: Seq<char>) -> bool {
    ||| status == 403 && contains_text(body, "overwrite artifact"@)
    ||| status == 409
    ||| status == 400 && (contains_text(body, "updating asset"@) || contains_text(
        body,
        "already been taken"@,
    ))
}

/// The outcome of a response that is no success, from its status, its body as
/// text and its content type.
pub open spec fn failure_outcome(
    status: u16,
    body: Seq<char>,
    content_type: Option<Seq<char>>,
) -> Result<bool, PublishSendErrorView> {
    let message = error_message(body, content_type, json_string_member(body, "code"@));
    if already_exists(status, body) {
        Ok(false)
    } else if status == 403 {
        Err(PublishSendErrorView::PermissionDenied(status, message))
    } else {
        Err(PublishSendErrorView::Status(status, message))
    }
}

/// What the head of a response settles: a redirect is an error whatever the
/// status, a success needs no body, anything else is settled by the body.
pub open spec fn head_outcome(registry: Seq<char>, head: ResponseHeadView) -> Option<
    Result<bool, PublishSendErrorView>,
> {
    if head.url != registry {
        Some(Err(PublishSendErrorView::RedirectError(head.url)))
    } else if is_success(head.status) {
        Some(Ok(true))
    } else {
        None
    }
}

/// The outcome of an upload: `Ok(true)` for newly uploaded, `Ok(false)` for
/// already there.
pub open spec fn response_outcome(
    registry: Seq<char>,
    head: ResponseHeadView,
    body: Result<Seq<u8>, reqwest::Error>,
) -> Result<bool, PublishSendErrorView> {
    match head_outcome(registry, head) {
        Some(outcome) => outcome,
        None => match body {
            Ok(bytes) => failure_outcome(head.status, utf8_lossy(bytes), head.content_type),
            Err(cause) => Err(PublishSendErrorView::StatusNoBody(head.status, cause)),
        },
    }
}

/// An outcome with the texts of its error as sequences of characters.
pub open spec fn outcome_view(outcome: Result<bool, PublishSendError>) -> Result<
    bool,
    PublishSendErrorView,
> {
    match outcome {
        Ok(newly_uploaded) => Ok(newly_uploaded),
        Err(cause) => Err(cause@),
    }
}

/// A body that was read, as a sequence of bytes.
pub open spec fn body_view(body: Result<Vec<u8>, reqwest::Error>) -> Result<
    Seq<u8>,
    reqwest::Error,
> {
    match body {
        Ok(bytes) => Ok(bytes@),
        Err(cause) => Err(cause),
    }
}

/// Tells whether a content type is exactly `application/json`.
fn is_json(content_type: Option<&str>) -> (json: bool)
    ensures
        json == (opt_str_text(content_type) == Some("application/json"@)),
{
    match content_type {
        Some(content_type) => str_eq(content_type, "application/json"),
        None => false,
    }
}

impl PublishSendError {
    /// Picks the message for a failed upload once the body has been looked at
    /// as JSON: `code` is the string member `code` of the body, if it has one.
    pub fn select_error_message(
        body: String,
        content_type: Option<&str>,
        code: Option<String>,
    ) -> (message: String)
        ensures
            message@ == error_message(body@, opt_str_text(content_type), opt_text(code)),
    {
        if is_json(content_type) {
            match code {
                Some(code) => code,
                None => body,
            }
        } else {
            body
        }
    }

    /// Extracts the message of a failed upload from the response body. The
    /// index puts its most helpful account into the `code` member of a JSON
    /// body; a body that is no such JSON, or of another content type, is the
    /// message as it stands.
    pub fn extract_error_message(body: String, content_type: Option<&str>) -> (message: String)
        ensures
            message@ == error_message(
                body@,
                opt_str_text(content_type),
                json_string_member(body@, "code"@),
            ),
    {
        let code = if is_json(content_type) {
            parse_string_member(body.as_str(), "code")
        } else {
            None
        };
        PublishSendError::select_error_message(body, content_type, code)
    }
}

/// Settles what the head of a response can settle; `None` asks for the body.
pub fn check_response_head(registry: &str, head: &ResponseHead) -> (early: Option<
    Result<bool, PublishSendError>,
>)
    ensures
        match early {
            Some(outcome) => head_outcome(registry@, head@) == Some(outcome_view(outcome)),
            None => head_outcome(registry@, head@) is None,
        },
{
    if !str_eq(head.url.as_str(), registry) {
        Some(Err(PublishSendError::RedirectError(head.url.clone())))
    } else if 200 <= head.status && head.status < 300 {
        Some(Ok(true))
    } else {
        None
    }
}

/// Classifies a response that is no success by its status and its body text.
pub fn classify_failure(status: u16, body: String, content_type: Option<&str>) -> (outcome: Result<
    bool,
    PublishSendError,
>)
    ensures
        outcome_view(outcome) == failure_outcome(status, body@, opt_str_text(content_type)),
{
    if status == 403 {
        if str_contains(body.as_str(), "overwrite artifact") {
            Ok(false)
        } else {
            Err(
                PublishSendError::PermissionDenied(
                    status,
                    PublishSendError::extract_error_message(body, content_type),
                ),
            )
        }
    } else if status == 409 {
        Ok(false)
    } else if status == 400 && (str_contains(body.as_str(), "updating asset") || str_contains(
        body.as_str(),
        "already been taken",
    )) {
        Ok(false)
    } else {
        Err(
            PublishSendError::Status(
                status,
                PublishSendError::extract_error_message(body, content_type),
            ),
        )
    }
}

/// Turns a response into the outcome of the upload: `Ok(true)` if the file was
/// newly uploaded, `Ok(false)` if it was there already. The body is looked at
/// only where the head settles nothing.
pub fn handle_response(
    registry: &str,
    head: &ResponseHead,
    body: Result<Vec<u8>, reqwest::Error>,
) -> (outcome: Result<bool, PublishSendError>)
    ensures
        outcome_view(outcome) == response_outcome(registry@, head@, body_view(body)),
{
    match check_response_head(registry, head) {
        Some(outcome) => outcome,
        None => match body {
            Ok(bytes) => {
                let text = from_utf8_lossy(bytes.as_slice());
                let content_type = match &head.content_type {
                    Some(content_type) => Some(content_type.as_str()),
                    None => None,
                };
                classify_failure(head.status, text, content_type)
            },
            Err(cause) => Err(PublishSendError::StatusNoBody(head.status, cause)),
        },
    }
}

/// A response that comes from another URL than the one the upload went to is a
/// redirect error naming that URL, whatever its status and whatever its body.
pub proof fn lemma_redirect_is_error(
    registry: Seq<char>,
    head: ResponseHeadView,
    body: Result<Seq<u8>, reqwest::Error>,
)
    requires
        head.url != registry,
    ensures
        response_outcome(registry, head, body) == Err::<bool, PublishSendErrorView>(
            PublishSendErrorView::RedirectError(head.url),
        ),
{
}

/// A 2xx answer from the index's own URL means newly uploaded, whatever its body.
pub proof fn lemma_success_is_newly_uploaded(
    registry: Seq<char>,
    head: ResponseHeadView,
    body: Result<Seq<u8>, reqwest::Error>,
)
    requires
        head.url == registry,
        is_success(head.status),
    ensures
        response_outcome(registry, head, body) == Ok::<bool, PublishSendErrorView>(true),
{
}

/// 409 Conflict, from the index's own URL and with a body that could be read,
/// means that the file is already there.
pub proof fn lemma_conflict_is_already_exists(
    registry: Seq<char>,
    head: ResponseHeadView,
    bytes: Seq<u8>,
)
    requires
        head.url == registry,
        head.status == 409,
    ensures
        response_outcome(registry, head, Ok(bytes)) == Ok::<bool, PublishSendErrorView>(false),
{
}

/// 403 Forbidden, from the index's own URL and with a body that could be read,
/// means already there if the body speaks of overwriting an artifact, and
/// permission denied if it does not.
pub proof fn lemma_forbidden_outcome(registry: Seq<char>, head: ResponseHeadView, bytes: Seq<u8>)
    requires
        head.url == registry,
        head.status == 403,
    ensures
        contains_text(utf8_lossy(bytes), "overwrite artifact"@) ==> response_outcome(
            registry,
            head,
            Ok(bytes),
        ) == Ok::<bool, PublishSendErrorView>(false),
        !contains_text(utf8_lossy(bytes), "overwrite artifact"@) ==> response_outcome(
            registry,
            head,
            Ok(bytes),
        ) == Err::<bool, PublishSendErrorView>(
            PublishSendErrorView::PermissionDenied(
                403,
                error_message(
                    utf8_lossy(bytes),
                    head.content_type,
                    json_string_member(utf8_lossy(bytes), "code"@),
                ),
            ),
        ),
{
}

/// A status that is no success and whose body cannot be read fails with that
/// status and the cause, whichever status it is.
pub proof fn lemma_unreadable_body_fails(
    registry: Seq<char>,
    head: ResponseHeadView,
    cause: reqwest::Error,
)
    requires
        head.url == registry,
        !is_success(head.status),
    ensures
        response_outcome(registry, head, Err(cause)) == Err::<bool, PublishSendErrorView>(
            PublishSendErrorView::StatusNoBody(head.status, cause),
        ),
{
}

/// The message is the `code` member where the body is served as
/// `application/json` and has one, and the body itself in every other case.
pub proof fn lemma_message_prefers_code(
    body: Seq<char>,
    content_type: Option<Seq<char>>,
    code: Option<Seq<char>>,
)
    ensures
        content_type == Some("application/json"@) && code is Some ==> error_message(
            body,
            content_type,
            code,
        ) == code->0,
        content_type != Some("application/json"@) || code is None ==> error_message(
            body,
            content_type,
            code,
        ) == body,
{
}

} // verus!
