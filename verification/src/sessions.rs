//! The login session: its key, the time the server says is left, the access
//! rights of the user, and the session window's message.
use vstd::prelude::*;
use crate::text::{concat2, debug_quoted, debug_text};
use crate::windows::WindowMessage;

verus! {

/// Hours, minutes and seconds, as the server writes them.
#[derive(Debug, PartialEq)]
pub struct TimeTime {
    pub hour: String,
    pub minute: String,
    pub second: String,
}

/// A session key and the time left on it, as the server sends them.
#[derive(Debug, PartialEq)]
pub struct SessionTime {
    pub key: String,
    pub time: TimeTime,
}

/// Everything the client knows about the user's session.
#[derive(Debug, PartialEq)]
pub struct SessionInformation {
    pub key: String,
    pub time: TimeTime,
    pub is_logged_in: bool,
    pub access_rights: Vec<String>,
    pub window_message: WindowMessage,
}

/// The time with every part empty.
pub open spec fn is_empty_time(t: TimeTime) -> bool {
    t.hour@ == Seq::<char>::empty() && t.minute@ == Seq::<char>::empty() && t.second@
        == Seq::<char>::empty()
}

/// The text `s` comes before "1" in the order of strings: it is empty or
/// starts with a character below '1'.
pub open spec fn before_one(s: Seq<char>) -> bool {
    s.len() == 0 || s[0] < '1'
}

/// Every part of the time left is below one: the session has expired.
pub open spec fn time_is_up(t: TimeTime) -> bool {
    before_one(t.hour@) && before_one(t.minute@) && before_one(t.second@)
}

/// How the session window shows a time: "session time remaining: \n"
/// followed by the time's `Debug` rendering.
pub open spec fn session_message_text(t: TimeTime) -> Seq<char> {
    "session time remaining: \n"@ + "TimeTime { hour: "@ + debug_quoted(t.hour@) + ", minute: "@
        + debug_quoted(t.minute@) + ", second: "@ + debug_quoted(t.second@) + " }"@
}

impl TimeTime {
    /// The time with every part empty.
    pub fn default() -> (r: Self)
        ensures
            is_empty_time(r),
    {
        TimeTime { hour: String::new(), minute: String::new(), second: String::new() }
    }
}

impl SessionTime {
    /// No key, no time.
    pub fn default() -> (r: Self)
        ensures
            r.key@ == Seq::<char>::empty(),
            is_empty_time(r.time),
    {
        SessionTime { key: String::new(), time: TimeTime::default() }
    }
}

impl SessionInformation {
    /// Logged out: no key, no time, no rights, no message.
    pub fn default() -> (r: Self)
        ensures
            r.key@ == Seq::<char>::empty(),
            is_empty_time(r.time),
            !r.is_logged_in,
            r.access_rights@.len() == 0,
            r.window_message.message is None,
            !r.window_message.is_window_open,
            !r.window_message.try_to_open_window,
    {
        SessionInformation {
            key: String::new(),
            time: TimeTime::default(),
            is_logged_in: false,
            access_rights: Vec::new(),
            window_message: WindowMessage::default(),
        }
    }
}

/// `s` comes before "1" in the order of strings.
fn is_before_one(s: &String) -> (r: bool)
    ensures
        r == before_one(s@),
{
    let text = s.as_str();
    text.unicode_len() == 0 || text.get_char(0) < '1'
}

/// Whether every part of the time left is below one.
pub fn session_expired(a_time: &TimeTime) -> (r: bool)
    ensures
        r == time_is_up(*a_time),
{
    is_before_one(&a_time.hour) && is_before_one(&a_time.minute) && is_before_one(&a_time.second)
}

/// The `Debug` rendering of a time, built from its parts.
fn time_debug_text(time: &TimeTime) -> (r: String)
    ensures
        r@ == "TimeTime { hour: "@ + debug_quoted(time.hour@) + ", minute: "@ + debug_quoted(
            time.minute@,
        ) + ", second: "@ + debug_quoted(time.second@) + " }"@,
{
    let mut r = String::from_str("TimeTime { hour: ");
    r.append(debug_text(time.hour.as_str()).as_str());
    r.append(", minute: ");
    r.append(debug_text(time.minute.as_str()).as_str());
    r.append(", second: ");
    r.append(debug_text(time.second.as_str()).as_str());
    r.append(" }");
    r
}

/// Records the time left on the session and puts it in the session window's
/// message; nothing else changes.
pub fn write_session(session_information: &mut SessionInformation, time: TimeTime)
    ensures
        final(session_information).time == time,
        final(session_information).window_message.message matches Some(m) && m@
            == session_message_text(time),
        final(session_information).window_message.is_window_open == old(
            session_information,
        ).window_message.is_window_open,
        final(session_information).window_message.try_to_open_window == old(
            session_information,
        ).window_message.try_to_open_window,
        final(session_information).key == old(session_information).key,
        final(session_information).is_logged_in == old(session_information).is_logged_in,
        final(session_information).access_rights == old(session_information).access_rights,
{
    let shown = time_debug_text(&time);
    let message = Some(concat2("session time remaining: \n", shown.as_str()));
    session_information.time = time;
    session_information.window_message.message = message;
}

/// Whether a reply to the session time request carries a time: only a 202
/// answer does.
pub fn session_reply_has_time(status: u16) -> (r: bool)
    ensures
        r == (status == 202),
{
    status == 202
}

/// One round of the session clock. `reply` is the time the server sent, when
/// it answered with one. An expired time logs the user out; a missing one is
/// recorded as the empty time. The session is never logged in here.
pub fn session_time_tick(session_information: &mut SessionInformation, reply: Option<TimeTime>)
    ensures
        final(session_information).is_logged_in == (old(session_information).is_logged_in && !(
        reply matches Some(t) && time_is_up(t))),
        match reply {
            Some(t) => final(session_information).time == t,
            None => is_empty_time(final(session_information).time),
        },
        final(session_information).window_message.message matches Some(m) && m@
            == session_message_text(final(session_information).time),
        final(session_information).window_message.is_window_open == old(
            session_information,
        ).window_message.is_window_open,
        final(session_information).window_message.try_to_open_window == old(
            session_information,
        ).window_message.try_to_open_window,
        final(session_information).key == old(session_information).key,
        final(session_information).access_rights == old(session_information).access_rights,
{
    let time = match reply {
        Some(a_time) => {
            if session_expired(&a_time) {
                session_information.is_logged_in = false;
            }
            a_time
        },
        None => TimeTime::default(),
    };
    write_session(session_information, time);
}

} // verus!
