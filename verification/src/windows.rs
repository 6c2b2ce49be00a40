//! Windows of the client: a plain window, the message window, and the
//! deletion queue of images.
use vstd::prelude::*;
use crate::images::{ImageAndDetails, StateOfImages};
use crate::keyed::{Keyed, lookup};
use crate::text::str_eq;

verus! {

/// A window that can be toggled open and closed.
#[derive(Debug, PartialEq)]
pub struct GenericWindow {
    pub is_window_open: bool,
    pub try_to_open_window: bool,
}

impl GenericWindow {
    /// A closed window.
    pub fn default() -> (r: Self)
        ensures
            !r.is_window_open,
            !r.try_to_open_window,
    {
        GenericWindow { is_window_open: false, try_to_open_window: false }
    }

    /// An open window.
    pub fn generic_window() -> (r: GenericWindow)
        ensures
            r.is_window_open,
            !r.try_to_open_window,
    {
        GenericWindow { is_window_open: true, try_to_open_window: false }
    }

    /// One frame of the window's button, `clicked` telling whether it was
    /// pressed: a press toggles the window; a pending request closes it.
    pub fn open_window_on_click(&mut self, clicked: bool)
        ensures
            !final(self).try_to_open_window,
            final(self).is_window_open == if old(self).try_to_open_window {
                false
            } else {
                old(self).is_window_open != clicked
            },
    {
        if clicked {
            self.is_window_open = !self.is_window_open;
        }
        if self.try_to_open_window {
            self.is_window_open = false;
            self.try_to_open_window = false;
        }
    }
}

/// A message for the user, and whether its window is open.
#[derive(Debug, PartialEq)]
pub struct WindowMessage {
    pub message: Option<String>,
    pub is_window_open: bool,
    pub try_to_open_window: bool,
}

impl WindowMessage {
    /// No message, window closed.
    pub fn default() -> (r: Self)
        ensures
            r.message is None,
            !r.is_window_open,
            !r.try_to_open_window,
    {
        WindowMessage { message: None, is_window_open: false, try_to_open_window: false }
    }

    /// A message to show straight away: its window opens.
    pub fn window_message(message: Option<String>) -> (r: WindowMessage)
        ensures
            r.message == message,
            r.is_window_open,
            !r.try_to_open_window,
    {
        WindowMessage { message, is_window_open: true, try_to_open_window: false }
    }

    /// One frame of the message button, `clicked` telling whether it was
    /// pressed. A press asks for the window; the request is granted (the
    /// window opens) as soon as there is a message. Returns whether the
    /// "There are no messages...!" note shows.
    pub fn open_window_on_click(&mut self, clicked: bool) -> (no_messages: bool)
        ensures
            no_messages == ((clicked || old(self).try_to_open_window) && old(self).message is None),
            final(self).message == old(self).message,
            final(self).try_to_open_window == ((clicked || old(self).try_to_open_window)
                && old(self).message is None),
            final(self).is_window_open == (old(self).is_window_open || ((clicked
                || old(self).try_to_open_window) && old(self).message is Some)),
    {
        if clicked {
            self.try_to_open_window = true;
        }
        if self.try_to_open_window {
            if self.message.is_none() {
                return true;
            } else {
                self.is_window_open = true;
                self.try_to_open_window = false;
            }
        }
        false
    }
}

/// An image that may be deleted: its name, and whether the user staged it
/// for deletion.
#[derive(Debug, PartialEq)]
pub struct Victim {
    pub name: String,
    pub staged: bool,
}

/// The images of the current portal that the user may stage for deletion.
#[derive(Debug, PartialEq)]
pub struct DeletionQueue {
    pub queue: Option<Vec<Victim>>,
    pub is_window_open: bool,
    pub try_to_open_window: bool,
}

/// The image table of portal `modal`, when its images have been loaded.
pub open spec fn loaded_images<I>(
    images: Seq<(Seq<char>, StateOfImages<I>)>,
    modal: Seq<char>,
) -> Option<Keyed<ImageAndDetails<I>>> {
    match lookup(images, modal) {
        Some(StateOfImages::HashMap(hasher)) => Some(hasher),
        _ => None,
    }
}

/// The names of the images of a loaded table, in table order.
pub open spec fn image_names<I>(s: Seq<(Seq<char>, ImageAndDetails<I>)>) -> Seq<Seq<char>> {
    s.map_values(|e: (Seq<char>, ImageAndDetails<I>)| e.1.image_details.name@)
}

/// The victims' names, in queue order.
pub open spec fn victim_names(q: Seq<Victim>) -> Seq<Seq<char>> {
    q.map_values(|v: Victim| v.name@)
}

/// The names after adding, in order, every name of `names` not yet present.
pub open spec fn with_new_names(ns: Seq<Seq<char>>, names: Seq<Seq<char>>) -> Seq<Seq<char>>
    decreases names.len(),
{
    if names.len() == 0 {
        ns
    } else {
        let t = with_new_names(ns, names.drop_last());
        if t.contains(names.last()) {
            t
        } else {
            t.push(names.last())
        }
    }
}

/// Adding names that are all present already changes nothing.
pub proof fn lemma_with_known_names(ns: Seq<Seq<char>>, names: Seq<Seq<char>>)
    requires
        forall|k: int| 0 <= k < names.len() ==> ns.contains(#[trigger] names[k]),
    ensures
        with_new_names(ns, names) == ns,
    decreases names.len(),
{
    if names.len() > 0 {
        let init = names.drop_last();
        assert forall|k: int| 0 <= k < init.len() implies ns.contains(#[trigger] init[k]) by {
            assert(init[k] == names[k]);
        }
        lemma_with_known_names(ns, init);
        assert(ns.contains(names[names.len() - 1]));
    }
}

/// `b` extends `a`: `a`'s victims stay as they are and the ones after them are unstaged.
pub open spec fn extends_unstaged(a: Seq<Victim>, b: Seq<Victim>) -> bool {
    &&& a.len() <= b.len()
    &&& forall|i: int| 0 <= i < a.len() ==> #[trigger] b[i] == a[i]
    &&& forall|i: int| a.len() <= i < b.len() ==> !(#[trigger] b[i]).staged
}

/// `after` is the queue `before` brought up to date with the loaded images
/// of portal `modal`: a missing queue is built from them, unstaged; new
/// images are added, unstaged, after the queued ones, which keep their marks;
/// with no images loaded, the queue stays (or is built empty).
pub open spec fn refreshed_queue<I>(
    images: Seq<(Seq<char>, StateOfImages<I>)>,
    modal: Seq<char>,
    before: Option<Vec<Victim>>,
    after: Option<Vec<Victim>>,
) -> bool {
    &&& after is Some
    &&& match (loaded_images(images, modal), before) {
        (Some(hasher), Some(q)) => victim_names(after->Some_0@) == with_new_names(
            victim_names(q@),
            image_names(hasher@),
        ) && extends_unstaged(q@, after->Some_0@),
        (Some(hasher), None) => victim_names(after->Some_0@) == image_names(hasher@) && forall|
            i: int,
        | 0 <= i < after->Some_0@.len() ==> !(#[trigger] after->Some_0@[i]).staged,
        (None, Some(q)) => after->Some_0 == q,
        (None, None) => after->Some_0@.len() == 0,
    }
}

impl DeletionQueue {
    /// No queue yet, window closed.
    pub fn default() -> (r: Self)
        ensures
            r.queue is None,
            !r.is_window_open,
            !r.try_to_open_window,
    {
        DeletionQueue { queue: None, is_window_open: false, try_to_open_window: false }
    }

    /// A queue of every loaded image of portal `modal`, none staged; empty
    /// when the portal's images are not loaded.
    pub fn build_deletion_queue<I>(
        all_nether_portal_images: &Keyed<StateOfImages<I>>,
        modal: &String,
    ) -> (r: Vec<Victim>)
        ensures
            forall|i: int| 0 <= i < r@.len() ==> !(#[trigger] r@[i]).staged,
            victim_names(r@) == match loaded_images(all_nether_portal_images@, modal@) {
                Some(hasher) => image_names(hasher@),
                None => Seq::empty(),
            },
    {
        let mut queue: Vec<Victim> = Vec::new();
        let state_of_images = match all_nether_portal_images.get(modal.as_str()) {
            Some(state) => state,
            None => {
                assert(victim_names(queue@) =~= Seq::empty());
                return queue;
            },
        };
        let hasher = match state_of_images.hashmap_ref() {
            Some(hasher) => hasher,
            None => {
                assert(victim_names(queue@) =~= Seq::empty());
                return queue;
            },
        };
        let ghost names = image_names(hasher@);
        let mut i: usize = 0;
        while i < hasher.len()
            invariant
                i <= hasher@.len(),
                names == image_names(hasher@),
                forall|j: int| 0 <= j < queue@.len() ==> !(#[trigger] queue@[j]).staged,
                victim_names(queue@) =~= names.take(i as int),
            decreases hasher@.len() - i,
        {
            let image_and_details = hasher.value_at(i);
            queue.push(Victim { name: image_and_details.image_details.name.clone(), staged: false });
            assert(names.take(i + 1) =~= names.take(i as int).push(names[i as int]));
            i = i + 1;
        }
        assert(names.take(i as int) =~= names);
        queue
    }

    /// Adds to the queue, unstaged, every loaded image of portal `modal` that
    /// is not queued yet; victims already queued keep their marks. Gives
    /// `None`, changing nothing, when the portal's images are not loaded or
    /// there is no queue.
    pub fn update_deletion_queue<I>(
        &mut self,
        all_nether_portal_images: &Keyed<StateOfImages<I>>,
        modal: &String,
    ) -> (r: Option<()>)
        ensures
            final(self).is_window_open == old(self).is_window_open,
            final(self).try_to_open_window == old(self).try_to_open_window,
            match (loaded_images(all_nether_portal_images@, modal@), old(self).queue) {
                (Some(hasher), Some(q)) => r is Some && (final(self).queue matches Some(nq)
                    && victim_names(nq@) == with_new_names(victim_names(q@), image_names(hasher@))
                    && extends_unstaged(q@, nq@)),
                _ => r is None && final(self).queue == old(self).queue,
            },
    {
        let state_of_images = match all_nether_portal_images.get(modal.as_str()) {
            Some(state) => state,
            None => return None,
        };
        let hasher = match state_of_images.hashmap_ref() {
            Some(hasher) => hasher,
            None => return None,
        };
        let queue = match self.queue.as_mut() {
            Some(queue) => queue,
            None => return None,
        };
        let ghost names = image_names(hasher@);
        let ghost start = queue@;
        let mut i: usize = 0;
        while i < hasher.len()
            invariant
                i <= hasher@.len(),
                names == image_names(hasher@),
                victim_names(queue@) == with_new_names(victim_names(start), names.take(i as int)),
                extends_unstaged(start, queue@),
            decreases hasher@.len() - i,
        {
            let image_and_details = hasher.value_at(i);
            let name = &image_and_details.image_details.name;
            let ghost before = queue@;
            let ghost expected = with_new_names(victim_names(start), names.take(i as int));
            assert(names.take(i + 1).drop_last() =~= names.take(i as int));
            assert(names.take(i + 1).last() == name@);
            let mut should_push: bool = true;
            let mut j: usize = 0;
            while j < queue.len()
                invariant
                    j <= queue@.len(),
                    queue@ == before,
                    should_push == (forall|k: int| 0 <= k < j ==> queue@[k].name@ != name@),
                decreases queue@.len() - j,
            {
                if str_eq(queue[j].name.as_str(), name.as_str()) {
                    should_push = false;
                }
                j = j + 1;
            }
            proof {
                assert(victim_names(before) == expected);
                if !should_push {
                    let k = choose|k: int| 0 <= k < before.len() && before[k].name@ == name@;
                    assert(expected[k] == name@);
                } else {
                    assert forall|k: int| 0 <= k < expected.len() implies expected[k] != name@ by {
                        assert(before[k].name@ != name@);
                    }
                }
            }
            if should_push {
                queue.push(Victim { name: name.clone(), staged: false });
                assert(victim_names(queue@) =~= expected.push(name@));
            }
            i = i + 1;
        }
        assert(names.take(i as int) =~= names);
        Some(())
    }

    /// Makes sure the queue exists and holds every loaded image of portal
    /// `modal`: a missing queue is built first, then new images are added.
    pub fn update<I>(
        deletion_queue: &mut DeletionQueue,
        all_nether_portal_images: &Keyed<StateOfImages<I>>,
        modal: &String,
    )
        ensures
            final(deletion_queue).is_window_open == old(deletion_queue).is_window_open,
            final(deletion_queue).try_to_open_window == old(deletion_queue).try_to_open_window,
            refreshed_queue(
                all_nether_portal_images@,
                modal@,
                old(deletion_queue).queue,
                final(deletion_queue).queue,
            ),
    {
        if deletion_queue.queue.is_none() {
            let built = DeletionQueue::build_deletion_queue(all_nether_portal_images, modal);
            proof {
                let names = victim_names(built@);
                assert forall|k: int| 0 <= k < names.len() implies names.contains(
                    #[trigger] names[k],
                ) by {}
                lemma_with_known_names(names, names);
            }
            deletion_queue.queue = Some(built);
        }
        let _ = deletion_queue.update_deletion_queue(all_nether_portal_images, modal);
    }

    /// One frame of the "Deletion Queue" button, `clicked` telling whether it
    /// was pressed. A press brings the queue up to date and asks for the
    /// window, which opens once there is a queue. Returns whether the "There
    /// is no deletion queue?" note shows.
    pub fn open_window_on_click<I>(
        clicked: bool,
        deletion_queue: &mut DeletionQueue,
        all_nether_portal_images: &Keyed<StateOfImages<I>>,
        modal: &String,
    ) -> (no_queue: bool)
        ensures
            !clicked ==> final(deletion_queue).queue == old(deletion_queue).queue,
            clicked ==> refreshed_queue(
                all_nether_portal_images@,
                modal@,
                old(deletion_queue).queue,
                final(deletion_queue).queue,
            ),
            no_queue == ((clicked || old(deletion_queue).try_to_open_window)
                && final(deletion_queue).queue is None),
            final(deletion_queue).try_to_open_window == no_queue,
            final(deletion_queue).is_window_open == (old(deletion_queue).is_window_open || ((
            clicked || old(deletion_queue).try_to_open_window) && final(deletion_queue).queue is Some)),
    {
        if clicked {
            deletion_queue.try_to_open_window = true;
            DeletionQueue::update(deletion_queue, all_nether_portal_images, modal);
        }
        if deletion_queue.try_to_open_window {
            if deletion_queue.queue.is_none() {
                return true;
            } else {
                deletion_queue.is_window_open = true;
                deletion_queue.try_to_open_window = false;
            }
        }
        false
    }

    /// The stage button of victim `index` in the deletion window was pressed:
    /// that victim's mark flips; nothing else changes.
    pub fn toggle_staged(&mut self, index: usize)
        ensures
            final(self).is_window_open == old(self).is_window_open,
            final(self).try_to_open_window == old(self).try_to_open_window,
            match old(self).queue {
                Some(q) => (final(self).queue matches Some(nq) && if index < q@.len() {
                    nq@ == q@.update(
                        index as int,
                        Victim { name: q@[index as int].name, staged: !q@[index as int].staged },
                    )
                } else {
                    nq == q
                }),
                None => final(self).queue is None,
            },
    {
        if let Some(queue) = self.queue.as_mut() {
            if index < queue.len() {
                let victim = &mut queue[index];
                victim.staged = !victim.staged;
            }
        }
    }
}

} // verus!
