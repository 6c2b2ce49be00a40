//! What the client makes of the server's answers.
use vstd::prelude::*;
use crate::errors::{ErrorMessage, shows_error};
use crate::portals::NetherPortal;
use crate::sessions::SessionInformation;
use crate::text::{concat2, concat3, int_to_decimal, u16_to_text, i32_to_text};

verus! {

/// An answer from the server: its status, the status line's reason text, and
/// its body as text (or the text of the error met while reading it).
#[derive(Debug, PartialEq)]
pub struct HttpReply {
    pub status: u16,
    pub status_text: String,
    pub body: Result<String, String>,
}

/// A request that got no answer: the kind of failure and its description.
#[derive(Debug, PartialEq)]
pub struct TransportError {
    pub kind: String,
    pub message: String,
}

/// What an answer was turned into.
pub enum ResponseResult {
    Text(String),
    SessionInformation(SessionInformation),
    NetherPortal(NetherPortal),
}

/// The prefix of the error when an accepted answer could not be turned into a result.
pub open spec fn failed_to_convert_prefix() -> Seq<char> {
    "Failed to convert response to a variant of type Enum ResponseResult...: error =="@
}

/// The prefix of the error when the server answered outside the 2xx range.
pub open spec fn bad_server_response_prefix() -> Seq<char> {
    "network was sent but denied by the server... Maybe wrong key was given? [retrieving nether portal keys]: error =="@
}

/// The error text for a request that got no answer: "kind: description".
pub open spec fn transport_failure_text(e: TransportError) -> Seq<char> {
    e.kind@ + ": "@ + e.message@
}

/// Whether a status is a success (2xx).
pub open spec fn is_success(status: u16) -> bool {
    200 <= status <= 299
}

/// What the client makes of the outcome of a request, `job` being what it
/// does with an accepted answer: a 2xx answer is handed to `job`, whose
/// result is the outcome (its error reported after a fixed prefix); any other
/// answer is reported with its status reason; a request without answer with
/// the failure's kind and description.
pub open spec fn request_outcome<F: FnOnce(HttpReply) -> Result<ResponseResult, String>>(
    did_request_go_through: Result<HttpReply, TransportError>,
    job: F,
    r: Result<ResponseResult, ErrorMessage>,
) -> bool {
    match did_request_go_through {
        Ok(reply) => if is_success(reply.status) {
            exists|out: Result<ResponseResult, String>|
                call_ensures(job, (reply,), out) && match out {
                    Ok(result) => r == Ok::<ResponseResult, ErrorMessage>(result),
                    Err(error) => r matches Err(m) && shows_error(
                        m,
                        failed_to_convert_prefix() + error@,
                    ),
                }
        } else {
            r matches Err(m) && shows_error(m, bad_server_response_prefix() + reply.status_text@)
        },
        Err(error) => r matches Err(m) && shows_error(m, transport_failure_text(error)),
    }
}

/// Turns the outcome of a request into a result: a 2xx answer is handed to
/// `job`, whose error is reported after a fixed prefix; any other answer is
/// reported with its status reason; a request without answer is reported with
/// the failure's kind and description. Errors come as error messages with an
/// open window.
pub fn ureq_did_request_go_through_f<F: FnOnce(HttpReply) -> Result<ResponseResult, String>>(
    did_request_go_through: Result<HttpReply, TransportError>,
    job: F,
) -> (r: Result<ResponseResult, ErrorMessage>)
    requires
        match did_request_go_through {
            Ok(reply) => is_success(reply.status) ==> call_requires(job, (reply,)),
            Err(_) => true,
        },
    ensures
        request_outcome(did_request_go_through, job, r),
{
    match did_request_go_through {
        Ok(response) => {
            if 200 <= response.status && response.status <= 299 {
                match job(response) {
                    Ok(result) => Ok(result),
                    Err(error) => Err(
                        ErrorMessage::pure_error_message(
                            Some(
                                concat2(
                                    "Failed to convert response to a variant of type Enum ResponseResult...: error ==",
                                    error.as_str(),
                                ),
                            ),
                        ),
                    ),
                }
            } else {
                let error_string = concat2(
                    "network was sent but denied by the server... Maybe wrong key was given? [retrieving nether portal keys]: error ==",
                    response.status_text.as_str(),
                );
                Err(ErrorMessage::pure_error_message(Some(error_string)))
            }
        },
        Err(error) => {
            let error_string = concat3(error.kind.as_str(), ": ", error.message.as_str());
            Err(ErrorMessage::pure_error_message(Some(error_string)))
        },
    }
}

/// The body of a 2xx answer as text. Any other answer, a failure to read the
/// body, or a request without answer gives the error message that
/// `ureq_did_request_go_through_f` gives for it.
pub fn match_out_nether_portal_keys_to_string2(
    did_request_go_through: Result<HttpReply, TransportError>,
) -> (r: Result<String, ErrorMessage>)
    ensures
        match did_request_go_through {
            Ok(reply) => if is_success(reply.status) {
                match reply.body {
                    Ok(text) => r == Ok::<String, ErrorMessage>(text),
                    Err(error) => r matches Err(m) && shows_error(
                        m,
                        failed_to_convert_prefix() + error@,
                    ),
                }
            } else {
                r matches Err(m) && shows_error(m, bad_server_response_prefix() + reply.status_text@)
            },
            Err(error) => r matches Err(m) && shows_error(m, transport_failure_text(error)),
        },
{
    let job = |response: HttpReply| -> (out: Result<ResponseResult, String>)
        ensures
            match response.body {
                Ok(text) => out matches Ok(ResponseResult::Text(t)) && t == text,
                Err(error) => out == Err::<ResponseResult, String>(error),
            },
        {
            match response.body {
                Ok(string) => Ok(ResponseResult::Text(string)),
                Err(error) => Err(error),
            }
        };
    let result = ureq_did_request_go_through_f(did_request_go_through, job);
    match result {
        Ok(response_result) => {
            match response_result {
                ResponseResult::Text(string) => Ok(string),
                ResponseResult::SessionInformation(_) => {
                    proof {
                        assert(false);
                    }
                    Err(ErrorMessage::default())
                },
                ResponseResult::NetherPortal(_) => {
                    proof {
                        assert(false);
                    }
                    Err(ErrorMessage::default())
                },
            }
        },
        Err(error) => Err(error),
    }
}

/// The error text for a refused request with status `status`.
pub open spec fn status_check_message(status: u16) -> Seq<char> {
    if status == 403 {
        "status_code: -> |"@ + int_to_decimal(status as int) + "|; "@
    } else {
        "The server has denied/disaproved our request...? status_code: -> |"@ + int_to_decimal(
            status as int,
        ) + "|"@
    }
}

/// Judges the status of an answer to a save or delete: only 202 means the
/// server did it; 403 and any other status give their own error text.
pub fn status_check(status: u16) -> (r: Result<(), String>)
    ensures
        status == 202 ==> r is Ok,
        status != 202 ==> (r matches Err(e) && e@ == status_check_message(status)),
{
    if status == 202 {
        Ok(())
    } else if status == 403 {
        Err(concat3("status_code: -> |", u16_to_text(status).as_str(), "|; "))
    } else {
        Err(
            concat3(
                "The server has denied/disaproved our request...? status_code: -> |",
                u16_to_text(status).as_str(),
                "|",
            ),
        )
    }
}

/// Judges the status of the answer to saving a nether portal: only 202 is a success.
pub fn netherportal_save_status(status: u16) -> (r: Result<(), String>)
    ensures
        status == 202 ==> r is Ok,
        status != 202 ==> (r matches Err(e) && e@ == "Status is NOT 202: status -> |"@
            + int_to_decimal(status as int) + "|"@),
{
    if status != 202 {
        return Err(concat3("Status is NOT 202: status -> |", u16_to_text(status).as_str(), "|"));
    }
    Ok(())
}

/// Adds context to an error: an error gets `string` appended, success stays success.
pub trait Otherwise {
    fn otherwise(&self, string: &str) -> Result<(), String>;
}

impl Otherwise for Result<(), String> {
    fn otherwise(&self, string: &str) -> (r: Result<(), String>)
        ensures
            match *self {
                Ok(()) => r is Ok,
                Err(err) => r matches Err(e) && e@ == err@ + string@,
            },
    {
        if let Err(err) = self {
            return Err(concat2(err.as_str(), string));
        }
        Ok(())
    }
}

/// The address of one page of nether portals: `url?offset=..&limit=..`.
pub fn keyset_pagination_url(url: &str, offset: i32, limit: i32) -> (r: String)
    ensures
        r@ == url@ + "?offset="@ + int_to_decimal(offset as int) + "&limit="@ + int_to_decimal(
            limit as int,
        ),
{
    let mut r = concat2(url, "?offset=");
    r.append(i32_to_text(offset).as_str());
    r.append("&limit=");
    r.append(i32_to_text(limit).as_str());
    r
}

} // verus!
