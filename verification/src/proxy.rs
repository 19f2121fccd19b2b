use vstd::prelude::*;
use vstd::string::*;
use crate::json::{json_of, parse_json};
use crate::model::{
    ProcessingHistoryEntry, Question, SystemDiagnostics, diagnostics_of_json, history_of_json,
    questions_of_json, spec_diagnostics, spec_history, spec_questions, spec_text_value,
    text_of_json,
};
use crate::text::{
    append_quoted, append_str, chars_to_string, decimal_string, spec_decimal, spec_quoted,
};

verus! {

/// The seven backend operations, one per HTTP endpoint of the local
/// backend service.
#[derive(Clone, Copy, PartialEq, Eq, Structural, Debug)]
pub enum Operation {
    GenerateQuestions,
    GenerateDetailedRequirements,
    EditRequirements,
    GetProcessingHistory,
    ClearProcessingHistory,
    GetSystemDiagnostics,
    ResetApplicationState,
}

/// The HTTP methods the proxy uses.
#[derive(Clone, Copy, PartialEq, Eq, Structural, Debug)]
pub enum HttpMethod {
    Get,
    Post,
    Delete,
}

pub open spec fn spec_url(op: Operation) -> Seq<char> {
    match op {
        Operation::GenerateQuestions => "http://localhost:8000/generate_questions"@,
        Operation::GenerateDetailedRequirements => "http://localhost:8000/generate_requirements"@,
        Operation::EditRequirements => "http://localhost:8000/edit_requirements"@,
        Operation::GetProcessingHistory => "http://localhost:8000/processing_history"@,
        Operation::ClearProcessingHistory => "http://localhost:8000/processing_history"@,
        Operation::GetSystemDiagnostics => "http://localhost:8000/system_diagnostics"@,
        Operation::ResetApplicationState => "http://localhost:8000/reset_state"@,
    }
}

pub open spec fn spec_method(op: Operation) -> HttpMethod {
    match op {
        Operation::GenerateQuestions => HttpMethod::Post,
        Operation::GenerateDetailedRequirements => HttpMethod::Post,
        Operation::EditRequirements => HttpMethod::Post,
        Operation::GetProcessingHistory => HttpMethod::Get,
        Operation::ClearProcessingHistory => HttpMethod::Delete,
        Operation::GetSystemDiagnostics => HttpMethod::Get,
        Operation::ResetApplicationState => HttpMethod::Post,
    }
}

impl Operation {
    /// Full address of the operation's endpoint on the well-known local
    /// base address.
    pub fn url(&self) -> (r: &'static str)
        ensures
            r@ == spec_url(*self),
    {
        match self {
            Operation::GenerateQuestions => "http://localhost:8000/generate_questions",
            Operation::GenerateDetailedRequirements => "http://localhost:8000/generate_requirements",
            Operation::EditRequirements => "http://localhost:8000/edit_requirements",
            Operation::GetProcessingHistory => "http://localhost:8000/processing_history",
            Operation::ClearProcessingHistory => "http://localhost:8000/processing_history",
            Operation::GetSystemDiagnostics => "http://localhost:8000/system_diagnostics",
            Operation::ResetApplicationState => "http://localhost:8000/reset_state",
        }
    }

    /// The HTTP method the operation is issued with.
    pub fn method(&self) -> (r: HttpMethod)
        ensures
            r == spec_method(*self),
    {
        match self {
            Operation::GenerateQuestions => HttpMethod::Post,
            Operation::GenerateDetailedRequirements => HttpMethod::Post,
            Operation::EditRequirements => HttpMethod::Post,
            Operation::GetProcessingHistory => HttpMethod::Get,
            Operation::ClearProcessingHistory => HttpMethod::Delete,
            Operation::GetSystemDiagnostics => HttpMethod::Get,
            Operation::ResetApplicationState => HttpMethod::Post,
        }
    }
}

// ----- request bodies -----

/// The JSON body sent to generate questions.
pub open spec fn spec_questions_body(initial_requirement: Seq<char>) -> Seq<char> {
    "{\"initial_requirement\":"@ + spec_quoted(initial_requirement) + "}"@
}

/// Builds the JSON body sent to generate questions.
pub fn questions_request_body(initial_requirement: &str) -> (r: String)
    ensures
        r@ == spec_questions_body(initial_requirement@),
{
    let mut out: Vec<char> = Vec::new();
    append_str(&mut out, "{\"initial_requirement\":");
    append_quoted(&mut out, initial_requirement);
    append_str(&mut out, "}");
    proof {
        assert(out@ =~= spec_questions_body(initial_requirement@));
    }
    chars_to_string(&out)
}

/// One member of the answers object: quoted question key, quoted answer.
pub open spec fn spec_answer_member(k: Seq<char>, v: Seq<char>) -> Seq<char> {
    spec_quoted(k) + ":"@ + spec_quoted(v)
}

/// The members of the answers object, in order, separated by commas.
pub open spec fn spec_answer_members(pairs: Seq<(Seq<char>, Seq<char>)>) -> Seq<char>
    decreases pairs.len(),
{
    if pairs.len() == 0 {
        Seq::empty()
    } else if pairs.len() == 1 {
        spec_answer_member(pairs[0].0, pairs[0].1)
    } else {
        spec_answer_members(pairs.drop_last()) + ","@ + spec_answer_member(
            pairs.last().0,
            pairs.last().1,
        )
    }
}

/// The JSON body sent to generate detailed requirements: the initial
/// requirement and the answers, keyed by question, in the given order.
pub open spec fn spec_requirements_body(
    initial_requirement: Seq<char>,
    answers: Seq<(Seq<char>, Seq<char>)>,
) -> Seq<char> {
    "{\"initial_requirement\":"@ + spec_quoted(initial_requirement) + ",\"answers\":{"@
        + spec_answer_members(answers) + "}}"@
}

/// Builds the JSON body sent to generate detailed requirements.
#[verifier::loop_isolation(false)]
pub fn requirements_request_body(initial_requirement: &str, answers: &Vec<(String, String)>) -> (r:
    String)
    ensures
        r@ == spec_requirements_body(initial_requirement@, answers.deep_view()),
{
    let ghost pairs = answers.deep_view();
    let mut out: Vec<char> = Vec::new();
    append_str(&mut out, "{\"initial_requirement\":");
    append_quoted(&mut out, initial_requirement);
    append_str(&mut out, ",\"answers\":{");
    let ghost prefix = out@;
    let mut i: usize = 0;
    while i < answers.len()
        invariant
            i <= answers@.len(),
            out@ == prefix + spec_answer_members(pairs.take(i as int)),
        decreases answers@.len() - i,
    {
        if i > 0 {
            append_str(&mut out, ",");
        }
        append_quoted(&mut out, answers[i].0.as_str());
        append_str(&mut out, ":");
        append_quoted(&mut out, answers[i].1.as_str());
        proof {
            assert(pairs[i as int] == answers@[i as int].deep_view());
            assert(pairs[i as int].0 == answers@[i as int].0@);
            assert(pairs[i as int].1 == answers@[i as int].1@);
            assert(pairs.take(i + 1).drop_last() =~= pairs.take(i as int));
            assert(pairs.take(i + 1).last() == pairs[i as int]);
            if i == 0 {
                assert(out@ =~= prefix + spec_answer_members(pairs.take(i + 1)));
            } else {
                assert(out@ =~= prefix + spec_answer_members(pairs.take(i + 1)));
            }
        }
        i += 1;
    }
    append_str(&mut out, "}}");
    proof {
        assert(pairs.take(answers@.len() as int) =~= pairs);
        assert(out@ =~= spec_requirements_body(initial_requirement@, pairs));
    }
    chars_to_string(&out)
}

/// The JSON body sent to edit requirements.
pub open spec fn spec_edit_body(current: Seq<char>, feedback: Seq<char>) -> Seq<char> {
    "{\"current_requirements\":"@ + spec_quoted(current) + ",\"feedback\":"@ + spec_quoted(
        feedback,
    ) + "}"@
}

/// Builds the JSON body sent to edit requirements.
pub fn edit_request_body(current_requirements: &str, feedback: &str) -> (r: String)
    ensures
        r@ == spec_edit_body(current_requirements@, feedback@),
{
    let mut out: Vec<char> = Vec::new();
    append_str(&mut out, "{\"current_requirements\":");
    append_quoted(&mut out, current_requirements);
    append_str(&mut out, ",\"feedback\":");
    append_quoted(&mut out, feedback);
    append_str(&mut out, "}");
    proof {
        assert(out@ =~= spec_edit_body(current_requirements@, feedback@));
    }
    chars_to_string(&out)
}

// ----- responses -----

/// What one HTTP round trip produced: a transport failure carrying the
/// transport's rendering of the cause, or a response with its status code
/// and its body text.
pub enum HttpOutcome {
    Failed(String),
    Responded(u16, String),
}

/// The three failure classes of a proxied call.
#[derive(Debug)]
pub enum ProxyError {
    /// The transport failed before any response arrived.
    RequestFailed(String),
    /// The backend answered with a non-success HTTP status.
    ApiError(u16),
    /// The response body was not the JSON shape the operation expects.
    ParseFailed(String),
}

pub open spec fn spec_error_message(e: ProxyError) -> Seq<char> {
    match e {
        ProxyError::RequestFailed(cause) => "Request failed: "@ + cause@,
        ProxyError::ApiError(status) => "API Error: "@ + spec_decimal(status as int),
        ProxyError::ParseFailed(detail) => "Failed to parse response: "@ + detail@,
    }
}

impl ProxyError {
    /// The error string surfaced to the UI layer.
    pub fn message(&self) -> (r: String)
        ensures
            r@ == spec_error_message(*self),
    {
        match self {
            ProxyError::RequestFailed(cause) => String::from_str("Request failed: ").concat(
                cause.as_str(),
            ),
            ProxyError::ApiError(status) => {
                let rendered = decimal_string(*status as u64);
                String::from_str("API Error: ").concat(rendered.as_str())
            },
            ProxyError::ParseFailed(detail) => String::from_str("Failed to parse response: ")
                .concat(detail.as_str()),
        }
    }
}

/// A status in the HTTP success range.
pub open spec fn spec_is_success(status: u16) -> bool {
    200 <= status < 300
}

/// Splits one HTTP round trip along the failure taxonomy every proxied
/// call shares: a transport failure or a non-success status becomes the
/// corresponding error, a successful response hands its body on.
pub fn body_if_success(outcome: HttpOutcome) -> (r: Result<String, ProxyError>)
    ensures
        match outcome {
            HttpOutcome::Failed(e) => r == Err::<String, ProxyError>(ProxyError::RequestFailed(e)),
            HttpOutcome::Responded(status, body) => if spec_is_success(status) {
                r == Ok::<String, ProxyError>(body)
            } else {
                r == Err::<String, ProxyError>(ProxyError::ApiError(status))
            },
        },
{
    match outcome {
        HttpOutcome::Failed(e) => Err(ProxyError::RequestFailed(e)),
        HttpOutcome::Responded(status, body) => {
            if 200 <= status && status < 300 {
                Ok(body)
            } else {
                Err(ProxyError::ApiError(status))
            }
        },
    }
}

/// Interprets the round trip of the generate-questions call: a successful
/// response must carry a JSON array of questions.
pub fn questions_from_outcome(outcome: HttpOutcome) -> (r: Result<Vec<Question>, ProxyError>)
    ensures
        match outcome {
            HttpOutcome::Failed(e) => r == Err::<Vec<Question>, ProxyError>(
                ProxyError::RequestFailed(e),
            ),
            HttpOutcome::Responded(status, body) => if !spec_is_success(status) {
                r == Err::<Vec<Question>, ProxyError>(ProxyError::ApiError(status))
            } else {
                match json_of(body@) {
                    None => r matches Err(ProxyError::ParseFailed(_)),
                    Some(doc) => match spec_questions(doc) {
                        Some(qs) => r matches Ok(out) && out.deep_view() == qs,
                        None => r matches Err(ProxyError::ParseFailed(_)),
                    },
                }
            },
        },
{
    let body = match body_if_success(outcome) {
        Ok(b) => b,
        Err(e) => {
            return Err(e);
        },
    };
    let doc = match parse_json(body.as_str()) {
        Ok(d) => d,
        Err(detail) => {
            return Err(ProxyError::ParseFailed(detail));
        },
    };
    match questions_of_json(&doc) {
        Some(qs) => Ok(qs),
        None => Err(ProxyError::ParseFailed(String::from_str("response shape mismatch"))),
    }
}

/// Interprets the round trip of the two requirement-text calls: a
/// successful response must carry one JSON string.
pub fn text_from_outcome(outcome: HttpOutcome) -> (r: Result<String, ProxyError>)
    ensures
        match outcome {
            HttpOutcome::Failed(e) => r == Err::<String, ProxyError>(ProxyError::RequestFailed(e)),
            HttpOutcome::Responded(status, body) => if !spec_is_success(status) {
                r == Err::<String, ProxyError>(ProxyError::ApiError(status))
            } else {
                match json_of(body@) {
                    None => r matches Err(ProxyError::ParseFailed(_)),
                    Some(doc) => match spec_text_value(doc) {
                        Some(t) => r matches Ok(out) && out@ == t,
                        None => r matches Err(ProxyError::ParseFailed(_)),
                    },
                }
            },
        },
{
    let body = match body_if_success(outcome) {
        Ok(b) => b,
        Err(e) => {
            return Err(e);
        },
    };
    let doc = match parse_json(body.as_str()) {
        Ok(d) => d,
        Err(detail) => {
            return Err(ProxyError::ParseFailed(detail));
        },
    };
    match text_of_json(&doc) {
        Some(t) => Ok(t),
        None => Err(ProxyError::ParseFailed(String::from_str("response shape mismatch"))),
    }
}

/// Interprets the round trip of the history call: a successful response
/// must carry a JSON array of history entries.
pub fn history_from_outcome(outcome: HttpOutcome) -> (r: Result<
    Vec<ProcessingHistoryEntry>,
    ProxyError,
>)
    ensures
        match outcome {
            HttpOutcome::Failed(e) => r == Err::<Vec<ProcessingHistoryEntry>, ProxyError>(
                ProxyError::RequestFailed(e),
            ),
            HttpOutcome::Responded(status, body) => if !spec_is_success(status) {
                r == Err::<Vec<ProcessingHistoryEntry>, ProxyError>(ProxyError::ApiError(status))
            } else {
                match json_of(body@) {
                    None => r matches Err(ProxyError::ParseFailed(_)),
                    Some(doc) => match spec_history(doc) {
                        Some(es) => r matches Ok(out) && out.deep_view() == es,
                        None => r matches Err(ProxyError::ParseFailed(_)),
                    },
                }
            },
        },
{
    let body = match body_if_success(outcome) {
        Ok(b) => b,
        Err(e) => {
            return Err(e);
        },
    };
    let doc = match parse_json(body.as_str()) {
        Ok(d) => d,
        Err(detail) => {
            return Err(ProxyError::ParseFailed(detail));
        },
    };
    match history_of_json(&doc) {
        Some(es) => Ok(es),
        None => Err(ProxyError::ParseFailed(String::from_str("response shape mismatch"))),
    }
}

/// Interprets the round trip of the diagnostics call: a successful
/// response must carry one JSON diagnostics object.
pub fn diagnostics_from_outcome(outcome: HttpOutcome) -> (r: Result<SystemDiagnostics, ProxyError>)
    ensures
        match outcome {
            HttpOutcome::Failed(e) => r == Err::<SystemDiagnostics, ProxyError>(
                ProxyError::RequestFailed(e),
            ),
            HttpOutcome::Responded(status, body) => if !spec_is_success(status) {
                r == Err::<SystemDiagnostics, ProxyError>(ProxyError::ApiError(status))
            } else {
                match json_of(body@) {
                    None => r matches Err(ProxyError::ParseFailed(_)),
                    Some(doc) => match spec_diagnostics(doc) {
                        Some(d) => r matches Ok(out) && out@ == d,
                        None => r matches Err(ProxyError::ParseFailed(_)),
                    },
                }
            },
        },
{
    let body = match body_if_success(outcome) {
        Ok(b) => b,
        Err(e) => {
            return Err(e);
        },
    };
    let doc = match parse_json(body.as_str()) {
        Ok(d) => d,
        Err(detail) => {
            return Err(ProxyError::ParseFailed(detail));
        },
    };
    match diagnostics_of_json(&doc) {
        Some(d) => Ok(d),
        None => Err(ProxyError::ParseFailed(String::from_str("response shape mismatch"))),
    }
}

/// Interprets the round trip of the two calls that return no payload
/// (clearing the history, resetting the backend state): any successful
/// status is complete success, and the body is ignored.
pub fn unit_from_outcome(outcome: HttpOutcome) -> (r: Result<(), ProxyError>)
    ensures
        match outcome {
            HttpOutcome::Failed(e) => r == Err::<(), ProxyError>(ProxyError::RequestFailed(e)),
            HttpOutcome::Responded(status, body) => if spec_is_success(status) {
                r is Ok
            } else {
                r == Err::<(), ProxyError>(ProxyError::ApiError(status))
            },
        },
{
    match body_if_success(outcome) {
        Ok(_) => Ok(()),
        Err(e) => Err(e),
    }
}

} // verus!
