//! The login form, and what the client makes of the answers to logging in,
//! fetching access rights and logging out.
use vstd::prelude::*;
use crate::errors::{ErrorMessage, shows_error};
use crate::requests::{HttpReply, ResponseResult, TransportError};
use crate::sessions::{SessionInformation, SessionTime, is_empty_time};
use crate::text::{concat2, concat3, str_eq};
use crate::windows::WindowMessage;

verus! {

/// What the user types to log in, and the session key the server handed out.
#[derive(Debug, PartialEq)]
pub struct LoginForm {
    pub username: String,
    pub password: String,
    pub session_key: String,
}

/// The error text for a name that is not a member of the login form.
pub open spec fn no_such_member_message(index: Seq<char>) -> Seq<char> {
    "This struct member: |"@ + index + "| does not exist"@
}

impl LoginForm {
    /// An empty form.
    pub fn default() -> (r: Self)
        ensures
            r.username@ == Seq::<char>::empty(),
            r.password@ == Seq::<char>::empty(),
            r.session_key@ == Seq::<char>::empty(),
    {
        LoginForm { username: String::new(), password: String::new(), session_key: String::new() }
    }

    /// The entry that the form shows under `s`: "password" or "username".
    pub fn index(&self, s: &str) -> (r: &String)
        requires
            s@ == "password"@ || s@ == "username"@,
        ensures
            s@ == "password"@ ==> *r == self.password,
            s@ != "password"@ ==> *r == self.username,
    {
        if str_eq(s, "password") {
            &self.password
        } else {
            &self.username
        }
    }

    /// The entry that the form shows under `s`, borrowed for writing.
    pub fn index_mut(&mut self, s: &str) -> (r: &mut String)
        requires
            s@ == "password"@ || s@ == "username"@,
        ensures
            s@ == "password"@ ==> *r == old(self).password && final(self).password == *final(r)
                && final(self).username == old(self).username && final(self).session_key == old(
                self,
            ).session_key,
            s@ != "password"@ ==> *r == old(self).username && final(self).username == *final(r)
                && final(self).password == old(self).password && final(self).session_key == old(
                self,
            ).session_key,
    {
        if str_eq(s, "password") {
            &mut self.password
        } else {
            &mut self.username
        }
    }

    /// The member named `index`: "password", "username" or "session_key".
    pub fn get(&self, index: &str) -> (r: Result<&String, String>)
        ensures
            index@ == "password"@ ==> r == Ok::<&String, String>(&self.password),
            index@ != "password"@ && index@ == "username"@ ==> r == Ok::<&String, String>(
                &self.username,
            ),
            index@ != "password"@ && index@ != "username"@ && index@ == "session_key"@ ==> r
                == Ok::<&String, String>(&self.session_key),
            index@ != "password"@ && index@ != "username"@ && index@ != "session_key"@ ==> (
            r matches Err(e) && e@ == no_such_member_message(index@)),
    {
        if str_eq(index, "password") {
            Ok(&self.password)
        } else if str_eq(index, "username") {
            Ok(&self.username)
        } else if str_eq(index, "session_key") {
            Ok(&self.session_key)
        } else {
            Err(concat3("This struct member: |", index, "| does not exist"))
        }
    }

    /// A copy of the form.
    pub fn clone(&self) -> (r: LoginForm)
        ensures
            r == *self,
    {
        LoginForm {
            username: self.username.clone(),
            password: self.password.clone(),
            session_key: self.session_key.clone(),
        }
    }
}

/// The friendly error text for a failed request, given the failure's text.
pub open spec fn response_failure_text(status_code: Seq<char>) -> Seq<char> {
    if status_code == "403"@ {
        "Your request was deemed invalid: "@ + status_code
    } else {
        "Your network request did not go through: "@ + status_code
    }
}

/// A friendly error text for a failed request; there always is one.
pub fn handle_response_failure(status_code: &str) -> (r: Option<String>)
    ensures
        r matches Some(t) && t@ == response_failure_text(status_code@),
{
    if str_eq(status_code, "403") {
        Some(concat2("Your request was deemed invalid: ", status_code))
    } else {
        Some(concat2("Your network request did not go through: ", status_code))
    }
}

/// Whether the logout went through: a 202 answer means yes (`None`); a
/// request without answer gives the friendly error. The server answers a
/// logout with 202 only.
pub fn did_logout_succeed(did_request_go_through: Result<HttpReply, TransportError>) -> (r: Option<
    ErrorMessage,
>)
    requires
        did_request_go_through matches Ok(reply) ==> reply.status == 202,
    ensures
        match did_request_go_through {
            Ok(_) => r is None,
            Err(error) => r matches Some(m) && shows_error(m, response_failure_text(error.message@)),
        },
{
    match did_request_go_through {
        Ok(_) => None,
        Err(error) => {
            let error_string = handle_response_failure(error.message.as_str());
            Some(ErrorMessage::pure_error_message(error_string))
        },
    }
}

/// A logged-in session from the key and time the server sent.
pub fn login_response_to_session_information(session_time: SessionTime) -> (r:
    SessionInformation)
    ensures
        r.time == session_time.time,
        r.key == session_time.key,
        r.is_logged_in,
        r.access_rights@.len() == 0,
        r.window_message.message is None,
        !r.window_message.is_window_open,
        !r.window_message.try_to_open_window,
{
    SessionInformation {
        time: session_time.time,
        key: session_time.key,
        is_logged_in: true,
        access_rights: Vec::new(),
        window_message: WindowMessage::default(),
    }
}

/// Takes in the outcome of a login: a new session replaces the old one and its
/// key goes into the form; an error goes into the error window.
pub fn apply_login_result(
    login_form: &mut LoginForm,
    session_information: &mut SessionInformation,
    error_message: &mut ErrorMessage,
    result: Result<ResponseResult, ErrorMessage>,
)
    requires
        result matches Ok(v) ==> v is SessionInformation,
    ensures
        match result {
            Ok(ResponseResult::SessionInformation(s)) => {
                &&& *final(session_information) == s
                &&& final(login_form).session_key@ == s.key@
                &&& final(login_form).username == old(login_form).username
                &&& final(login_form).password == old(login_form).password
                &&& *final(error_message) == *old(error_message)
            },
            Err(e) => {
                &&& *final(error_message) == e
                &&& *final(session_information) == *old(session_information)
                &&& *final(login_form) == *old(login_form)
            },
            _ => false,
        },
{
    match result {
        Ok(response_result) => {
            if let ResponseResult::SessionInformation(session) = response_result {
                login_form.session_key = session.key.clone();
                *session_information = session;
            }
        },
        Err(error) => *error_message = error,
    }
}

/// Takes in the outcome of a logout: an error goes into the error window;
/// otherwise the session and the form are cleared.
pub fn finish_logout(
    login_form: &mut LoginForm,
    session_information: &mut SessionInformation,
    error_message: &mut ErrorMessage,
    result: Option<ErrorMessage>,
)
    ensures
        match result {
            Some(e) => *final(error_message) == e && *final(session_information) == *old(
                session_information,
            ) && *final(login_form) == *old(login_form),
            None => {
                &&& *final(error_message) == *old(error_message)
                &&& !final(session_information).is_logged_in
                &&& final(session_information).key@ == Seq::<char>::empty()
                &&& is_empty_time(final(session_information).time)
                &&& final(session_information).access_rights@.len() == 0
                &&& final(session_information).window_message.message is None
                &&& !final(session_information).window_message.is_window_open
                &&& !final(session_information).window_message.try_to_open_window
                &&& final(login_form).username@ == Seq::<char>::empty()
                &&& final(login_form).password@ == Seq::<char>::empty()
                &&& final(login_form).session_key@ == Seq::<char>::empty()
            },
        },
{
    if let Some(set_error_message) = result {
        *error_message = set_error_message;
    } else {
        *session_information = SessionInformation::default();
        *login_form = LoginForm::default();
    }
}

/// The JSON object `text` read as a map from names to lists of strings, when
/// `text` is such an object.
pub uninterp spec fn json_string_list_object(text: Seq<char>) -> Option<Map<Seq<char>, Seq<Seq<char>>>>;

/// The entries are those of the map, each key once.
pub open spec fn entries_represent(
    entries: Seq<(String, Vec<String>)>,
    m: Map<Seq<char>, Seq<Seq<char>>>,
) -> bool {
    &&& forall|i: int|
        0 <= i < entries.len() ==> m.contains_key((#[trigger] entries[i]).0@) && m[entries[i].0@]
            == entries[i].1@.map_values(|s: String| s@)
    &&& forall|k: Seq<char>|
        m.contains_key(k) ==> exists|i: int| 0 <= i < entries.len() && (#[trigger] entries[i]).0@ == k
}

/// `serde_json::from_str` into a map from names to lists of strings. The
/// map's entries come out in an order that the contract leaves open; what
/// they are is the named reading of `text`.
#[verifier::external_body]
fn parse_string_list_object(text: &str) -> (r: Option<Vec<(String, Vec<String>)>>)
    ensures
        match r {
            Some(entries) => json_string_list_object(text@) matches Some(m) && entries_represent(
                entries@,
                m,
            ),
            None => json_string_list_object(text@) is None,
        },
{
    serde_json::from_str::<std::collections::HashMap<String, Vec<String>>>(text).ok().map(
        |m| m.into_iter().collect(),
    )
}

/// The access rights in the server's answer, or `None` when the answer is not
/// a JSON object of string lists or has no "access_rights" entry.
pub fn try_access_rights_from_reply(text: &str) -> (r: Option<Vec<String>>)
    ensures
        match json_string_list_object(text@) {
            Some(m) => if m.contains_key("access_rights"@) {
                r matches Some(v) && v@.map_values(|s: String| s@) == m["access_rights"@]
            } else {
                r is None
            },
            None => r is None,
        },
{
    let mut entries = match parse_string_list_object(text) {
        Some(entries) => entries,
        None => return None,
    };
    let ghost m = json_string_list_object(text@)->Some_0;
    let ghost all = entries@;
    let mut i: usize = 0;
    while i < entries.len()
        invariant
            i <= entries@.len(),
            entries@ == all,
            json_string_list_object(text@) == Some(m),
            entries_represent(all, m),
            forall|j: int| 0 <= j < i ==> all[j].0@ != "access_rights"@,
        decreases entries@.len() - i,
    {
        if str_eq(entries[i].0.as_str(), "access_rights") {
            let ghost found = all[i as int];
            assert(m.contains_key(found.0@) && m[found.0@] == found.1@.map_values(|s: String| s@));
            let (_, rights) = entries.swap_remove(i);
            assert(rights == found.1);
            assert(rights@.map_values(|s: String| s@) =~= m["access_rights"@]);
            return Some(rights);
        }
        i = i + 1;
    }
    proof {
        if m.contains_key("access_rights"@) {
            let k = choose|k: int| 0 <= k < all.len() && (#[trigger] all[k]).0@ == "access_rights"@;
            assert(all[k].0@ == "access_rights"@);
        }
    }
    None
}

} // verus!
