//! Images attached to nether portals, and the state of each portal's image table.
use vstd::prelude::*;
use crate::keyed::{Keyed, keys_of, lookup, has_key};
use crate::text::{concat3, str_eq, string_views};
use crate::windows::{DeletionQueue, Victim};

verus! {

/// What the client knows of an image besides its pixels.
#[derive(Debug, PartialEq)]
pub struct ImageDetails {
    pub id: i32,
    pub name: String,
    pub true_name: String,
    pub username: String,
    /// The path of an image the user added in this run of the program, not yet
    /// saved to the server.
    pub local_image: Option<String>,
}

impl Clone for ImageDetails {
    fn clone(&self) -> (r: Self)
        ensures
            r == *self,
    {
        ImageDetails {
            id: self.id,
            name: self.name.clone(),
            true_name: self.true_name.clone(),
            username: self.username.clone(),
            local_image: match &self.local_image {
                Some(path) => Some(path.clone()),
                None => None,
            },
        }
    }
}

/// An image, held as whatever the user interface draws, with its details.
pub struct ImageAndDetails<I> {
    pub image: I,
    pub image_details: ImageDetails,
}

/// Where the image table of a portal stands.
pub enum StateOfImages<I> {
    HashMap(Keyed<ImageAndDetails<I>>),
    BeingBuilt,
    Nothing,
    BuildFailed,
}

impl<I> StateOfImages<I> {
    /// The loaded table, borrowed for writing.
    pub fn hashmap_mut(&mut self) -> (r: Option<&mut Keyed<ImageAndDetails<I>>>)
        ensures
            match *old(self) {
                StateOfImages::HashMap(h) => r matches Some(x) && *x == h
                    && *final(self) == StateOfImages::HashMap(*final(x)),
                _ => r is None && *final(self) == *old(self),
            },
    {
        if let StateOfImages::HashMap(hasher) = self {
            Some(hasher)
        } else {
            None
        }
    }

    /// The loaded table.
    pub fn hashmap_ref(&self) -> (r: Option<&Keyed<ImageAndDetails<I>>>)
        ensures
            match *self {
                StateOfImages::HashMap(h) => r matches Some(x) && *x == h,
                _ => r is None,
            },
    {
        if let StateOfImages::HashMap(hasher) = self {
            Some(hasher)
        } else {
            None
        }
    }
}

/// The choices for the image selector: the keys of the loaded table, in order.
pub fn make_partial_gear<I>(list: &Keyed<ImageAndDetails<I>>) -> (gear: Vec<String>)
    ensures
        gear@.map_values(|s: String| s@) == keys_of(list@),
{
    list.keys()
}


/// The image details of the staged victims, in queue order, that the loaded
/// table holds under their names.
pub open spec fn staged_details<I>(
    q: Seq<Victim>,
    h: Seq<(Seq<char>, ImageAndDetails<I>)>,
) -> Seq<ImageDetails>
    decreases q.len(),
{
    if q.len() == 0 {
        Seq::empty()
    } else {
        let v = q.last();
        let rest = staged_details(q.drop_last(), h);
        if v.staged && lookup(h, v.name@) is Some {
            rest.push(lookup(h, v.name@)->Some_0.image_details)
        } else {
            rest
        }
    }
}

/// The positions, in table order, of the images the user added and has not
/// saved to the server yet.
pub open spec fn unsaved_positions<I>(s: Seq<(Seq<char>, ImageAndDetails<I>)>) -> Seq<int>
    decreases s.len(),
{
    if s.len() == 0 {
        Seq::empty()
    } else if s.last().1.image_details.local_image is Some {
        unsaved_positions(s.drop_last()).push(s.len() - 1)
    } else {
        unsaved_positions(s.drop_last())
    }
}

/// The images to send to the server: the positions, in table order, of those
/// the user added and has not saved yet.
pub fn unsaved_images<I>(hasher: &Keyed<ImageAndDetails<I>>) -> (r: Vec<usize>)
    ensures
        r@.map_values(|p: usize| p as int) == unsaved_positions(hasher@),
{
    let ghost s = hasher@;
    let mut positions: Vec<usize> = Vec::new();
    let mut i: usize = 0;
    while i < hasher.len()
        invariant
            i <= s.len(),
            s == hasher@,
            positions@.map_values(|p: usize| p as int) =~= unsaved_positions(s.take(i as int)),
        decreases s.len() - i,
    {
        assert(s.take(i + 1).drop_last() =~= s.take(i as int));
        if hasher.value_at(i).image_details.local_image.is_some() {
            positions.push(i);
        }
        i = i + 1;
    }
    assert(s.take(i as int) =~= s);
    positions
}

/// The message that reports a saved image.
pub open spec fn image_saved_message(name: Seq<char>) -> Seq<char> {
    "The Image was successfully saved: image_name: -> |"@ + name + "|"@
}

/// Takes in the outcome of saving one image: a saved image is no longer
/// local, and the message to show names it; a failure leaves the image as it
/// was and its text is the error to show.
pub fn image_saved(image_details: &mut ImageDetails, outcome: Result<(), String>) -> (r: Result<
    String,
    String,
>)
    ensures
        match outcome {
            Ok(()) => {
                &&& *final(image_details) == (ImageDetails { local_image: None, ..*old(image_details) })
                &&& r matches Ok(m) && m@ == image_saved_message(old(image_details).name@)
            },
            Err(e) => *final(image_details) == *old(image_details) && r == Err::<String, String>(e),
        },
{
    match outcome {
        Ok(()) => {
            image_details.local_image = None;
            Ok(concat3(
                "The Image was successfully saved: image_name: -> |",
                image_details.name.as_str(),
                "|",
            ))
        },
        Err(error) => Err(error),
    }
}

/// The text of the member "name" of the JSON object `text`, when `text` is a
/// JSON object whose "name" is a string.
pub uninterp spec fn json_name_field(text: Seq<char>) -> Option<Seq<char>>;

/// `serde_json::from_str` into a `serde_json::Value`, then the string under
/// "name": `None` when the text is not JSON, or has no string under "name".
/// What that string is, is the named reading of `text`.
#[verifier::external_body]
fn parse_name_object(text: &str) -> (r: Option<String>)
    ensures
        match r {
            Some(n) => json_name_field(text@) == Some(n@),
            None => json_name_field(text@) is None,
        },
{
    match serde_json::from_str::<serde_json::Value>(text) {
        Ok(value) => match value.get("name") {
            Some(serde_json::Value::String(name)) => Some(name.clone()),
            _ => None,
        },
        Err(_) => None,
    }
}

/// The only element of the JSON array `text`, when `text` is an array holding
/// exactly one string.
pub uninterp spec fn json_single_string(text: Seq<char>) -> Option<Seq<char>>;

/// `serde_json::from_str` into a one-element tuple of `String`: the string,
/// or `None` when the text is not an array of exactly one string. What that
/// string is, is the named reading of `text`.
#[verifier::external_body]
fn parse_single_string(text: &str) -> (r: Option<String>)
    ensures
        match r {
            Some(n) => json_single_string(text@) == Some(n@),
            None => json_single_string(text@) is None,
        },
{
    match serde_json::from_str::<(String,)>(text) {
        Ok((name,)) => Some(name),
        Err(_) => None,
    }
}

/// The name the image server gave an upload: the member "name" of its JSON
/// object, or the one string of a JSON array, the two forms a record with a
/// single field "name" is read from.
pub open spec fn reply_name(text: Seq<char>) -> Option<Seq<char>> {
    match json_name_field(text) {
        Some(n) => Some(n),
        None => json_single_string(text),
    }
}

/// Takes in the image server's answer to an upload: the name it gave the
/// image replaces the image's name. Returns whether the answer held a name;
/// when it does not, nothing changes.
pub fn image_name_from_reply(text: &str, details: &mut ImageDetails) -> (ok: bool)
    ensures
        ok == (reply_name(text@) is Some),
        ok ==> *final(details) == (ImageDetails {
            name: final(details).name,
            ..*old(details)
        }) && final(details).name@ == reply_name(text@)->Some_0,
        !ok ==> *final(details) == *old(details),
{
    let name = match parse_name_object(text) {
        Some(name) => Some(name),
        None => parse_single_string(text),
    };
    match name {
        Some(name) => {
            details.name = name;
            true
        },
        None => false,
    }
}

/// The error text when the portal has no image table.
pub open spec fn no_image_table_message(modal: Seq<char>) -> Seq<char> {
    "failed to get value with key -> |"@ + modal + "|"@
}

/// The images to delete from the server for portal `modal`: the details of
/// every staged victim that the portal's loaded table holds. Fails, in this
/// order, when the portal has no table, when its table is not loaded, when
/// there is no deletion queue, and when the queue was never built.
pub fn images_to_delete<I>(
    some_deletion_queue: &Option<DeletionQueue>,
    nether_portal_images: &Keyed<StateOfImages<I>>,
    modal: &String,
) -> (r: Result<Vec<ImageDetails>, String>)
    ensures
        match lookup(nether_portal_images@, modal@) {
            None => r matches Err(e) && e@ == no_image_table_message(modal@),
            Some(StateOfImages::HashMap(h)) => match *some_deletion_queue {
                None => r matches Err(e) && e@ == "No deletion_queue in Option<DeletionQueue>"@,
                Some(dq) => match dq.queue {
                    None => r matches Err(e) && e@ == "no queue in deletion_queue"@,
                    Some(q) => r matches Ok(v) && v@ == staged_details(q@, h@),
                },
            },
            Some(_) => r matches Err(e) && e@ == "hashmap_mut failed"@,
        },
{
    let state_of_images = match nether_portal_images.get(modal.as_str()) {
        Some(state) => state,
        None => return Err(concat3("failed to get value with key -> |", modal.as_str(), "|")),
    };
    let hasher = match state_of_images.hashmap_ref() {
        Some(hasher) => hasher,
        None => return Err(String::from_str("hashmap_mut failed")),
    };
    let deletion_queue = match some_deletion_queue {
        Some(deletion_queue) => deletion_queue,
        None => return Err(String::from_str("No deletion_queue in Option<DeletionQueue>")),
    };
    let queue = match &deletion_queue.queue {
        Some(queue) => queue,
        None => return Err(String::from_str("no queue in deletion_queue")),
    };
    let ghost h = hasher@;
    let mut doomed: Vec<ImageDetails> = Vec::new();
    let mut i: usize = 0;
    while i < queue.len()
        invariant
            i <= queue@.len(),
            h == hasher@,
            doomed@ == staged_details(queue@.take(i as int), h),
        decreases queue@.len() - i,
    {
        let victim = &queue[i];
        assert(queue@.take(i + 1).drop_last() =~= queue@.take(i as int));
        if victim.staged {
            match hasher.get(victim.name.as_str()) {
                Some(image_and_details) => doomed.push(image_and_details.image_details.clone()),
                None => {},
            }
        }
        i = i + 1;
    }
    assert(queue@.take(i as int) =~= queue@);
    Ok(doomed)
}

/// The outcome of deleting images: success when no deletion failed,
/// otherwise every failure's text.
pub fn finish_deletion(errors: Vec<String>) -> (r: Result<(), Vec<String>>)
    ensures
        errors@.len() == 0 ==> r is Ok,
        errors@.len() > 0 ==> r == Err::<(), Vec<String>>(errors),
{
    if errors.len() > 0 {
        return Err(errors);
    }
    Ok(())
}

/// One line "error: -> |..|" per error, in order.
pub open spec fn error_lines(errors: Seq<Seq<char>>) -> Seq<char>
    decreases errors.len(),
{
    if errors.len() == 0 {
        Seq::empty()
    } else {
        error_lines(errors.drop_last()) + "error: -> |"@ + errors.last() + "|\n"@
    }
}

/// The message that reports failed deletions: one line per error.
pub fn deletion_error_message(errors: &Vec<String>) -> (r: String)
    ensures
        r@ == error_lines(string_views(errors@)),
{
    let ghost all = string_views(errors@);
    let mut message = String::new();
    let mut i: usize = 0;
    while i < errors.len()
        invariant
            i <= errors@.len(),
            all == string_views(errors@),
            message@ == error_lines(all.take(i as int)),
        decreases errors@.len() - i,
    {
        assert(all.take(i + 1).drop_last() =~= all.take(i as int));
        message.append("error: -> |");
        message.append(errors[i].as_str());
        message.append("|\n");
        i = i + 1;
    }
    assert(all.take(i as int) =~= all);
    message
}

/// What the image area of a portal does this frame.
#[derive(Debug, PartialEq)]
pub enum ImageTableStep {
    /// The table was never asked for: fetch it (or start an empty one when
    /// the image server is down).
    Fetch,
    /// The table is loaded: show it.
    Show,
    /// The table is being built, or failed: nothing to do.
    Wait,
    /// The portal has no table yet: register it as not asked for.
    Register,
    /// No portal is selected.
    Idle,
}

/// The step for the image area of portal `modal`.
pub fn image_table_step<I>(images: &Keyed<StateOfImages<I>>, modal: &String) -> (r: ImageTableStep)
    ensures
        match lookup(images@, modal@) {
            Some(StateOfImages::Nothing) => r == ImageTableStep::Fetch,
            Some(StateOfImages::HashMap(_)) => r == ImageTableStep::Show,
            Some(_) => r == ImageTableStep::Wait,
            None => r == if modal@ == Seq::<char>::empty() {
                ImageTableStep::Idle
            } else {
                ImageTableStep::Register
            },
        },
{
    match images.get(modal.as_str()) {
        Some(StateOfImages::Nothing) => ImageTableStep::Fetch,
        Some(StateOfImages::HashMap(_)) => ImageTableStep::Show,
        Some(_) => ImageTableStep::Wait,
        None => {
            proof {
                reveal_strlit("");
                assert(""@ =~= Seq::<char>::empty());
            }
            if str_eq(modal.as_str(), "") {
                ImageTableStep::Idle
            } else {
                ImageTableStep::Register
            }
        },
    }
}

/// Whether a file extension is one of the accepted image types.
pub fn is_acceptable_image_type(file_extension: &str) -> (r: bool)
    ensures
        r == (file_extension@ == "png"@ || file_extension@ == "jpeg"@ || file_extension@
            == "jpg"@),
{
    str_eq(file_extension, "png") || str_eq(file_extension, "jpeg") || str_eq(file_extension, "jpg")
}

/// The details of an image the user just added from a file: no id yet (-1),
/// named after the file, and marked as local by its path.
pub fn local_image_details(
    file_name: &str,
    true_name: &String,
    username: &String,
    path: &String,
) -> (r: ImageDetails)
    ensures
        r.id == -1,
        r.name@ == file_name@,
        r.true_name == *true_name,
        r.username == *username,
        r.local_image matches Some(p) && p == *path,
{
    ImageDetails {
        id: -1,
        name: String::from_str(file_name),
        true_name: true_name.clone(),
        username: username.clone(),
        local_image: Some(path.clone()),
    }
}

/// Adds an image the user picked under its path, unless an image is already
/// held under that path (file names must be unique). Returns whether it was added.
pub fn add_local_image<I>(
    hasher: &mut Keyed<ImageAndDetails<I>>,
    path: String,
    image_and_details: ImageAndDetails<I>,
) -> (added: bool)
    ensures
        old(hasher).wf() ==> final(hasher).wf(),
        added == !has_key(old(hasher)@, path@),
        added ==> final(hasher)@ == old(hasher)@.push((path@, image_and_details)),
        !added ==> final(hasher)@ == old(hasher)@,
{
    if hasher.contains_key(path.as_str()) {
        return false;
    }
    hasher.insert(path, image_and_details);
    true
}

} // verus!
