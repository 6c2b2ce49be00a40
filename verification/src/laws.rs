//! Properties of the library that relate its operations to one another.
use vstd::prelude::*;
use crate::keyed::{
    has_key, inserted, is_first_key, key_index, keys_unique, lemma_first_key_exists,
    lemma_key_index, lemma_unique_key_index, lookup, removed,
};
use crate::pages::{
    choice_outcome, has_true_name, is_first_match, nether_portal_matches, no_match, replaced_named,
    some_named, with_unmarked,
};
use crate::portals::{
    NetherPortal, NetherPortalView, PortalField, StringNetherPortal, PortalView, StringNetherPortalView,
    StringPortalView, field_slot, field_text, is_number_field,
    lemma_field_names, nether_portal_from_text, nether_portal_text_form,
    portal_text_form, string_at, with_number, with_string, with_text, number_at, text_at,
};
use crate::text::{int_to_decimal, lemma_parse_decimal_i32, parsed_i32};
use crate::windows::with_new_names;
use crate::startup::{StartOnce, start_step};
use crate::images::{ImageAndDetails, unsaved_positions};
use crate::errors::{ErrorMessage, shows_error};
use crate::requests::{
    HttpReply, ResponseResult, bad_server_response_prefix, failed_to_convert_prefix, request_outcome,
};

verus! {

/// Reading back the text form of a nether portal gives the same portal: the
/// edit form of a portal, saved without changes, is the portal itself.
pub proof fn law_text_form_round_trip(np: NetherPortalView)
    ensures
        nether_portal_from_text(nether_portal_text_form(np)) == Ok::<
            NetherPortalView,
            Seq<char>,
        >(np),
{
    lemma_parse_decimal_i32(np.id);
    lemma_parse_decimal_i32(np.nether.xcord);
    lemma_parse_decimal_i32(np.nether.ycord);
    lemma_parse_decimal_i32(np.nether.zcord);
    lemma_parse_decimal_i32(np.overworld.xcord);
    lemma_parse_decimal_i32(np.overworld.ycord);
    lemma_parse_decimal_i32(np.overworld.zcord);
    let back = nether_portal_from_text(nether_portal_text_form(np))->Ok_0;
    assert(back.nether =~= np.nether);
    assert(back.overworld =~= np.overworld);
}


/// Every number of a text-form portal is written the way the client writes
/// numbers (plain decimal, no sign but '-', no leading zeros).
pub open spec fn canonical_numbers(s: StringNetherPortalView) -> bool {
    &&& parsed_i32(s.id) matches Some(v) && s.id == int_to_decimal(v as int)
    &&& parsed_i32(s.nether.xcord) matches Some(v) && s.nether.xcord == int_to_decimal(v as int)
    &&& parsed_i32(s.nether.ycord) matches Some(v) && s.nether.ycord == int_to_decimal(v as int)
    &&& parsed_i32(s.nether.zcord) matches Some(v) && s.nether.zcord == int_to_decimal(v as int)
    &&& parsed_i32(s.overworld.xcord) matches Some(v) && s.overworld.xcord == int_to_decimal(
        v as int,
    )
    &&& parsed_i32(s.overworld.ycord) matches Some(v) && s.overworld.ycord == int_to_decimal(
        v as int,
    )
    &&& parsed_i32(s.overworld.zcord) matches Some(v) && s.overworld.zcord == int_to_decimal(
        v as int,
    )
}

/// A text form whose numbers are written canonically reads back as a portal
/// whose text form is that same text: edits in that shape survive saving and
/// showing again.
pub proof fn law_canonical_text_survives(s: StringNetherPortalView)
    requires
        canonical_numbers(s),
    ensures
        nether_portal_from_text(s) is Ok,
        nether_portal_text_form(nether_portal_from_text(s)->Ok_0) == s,
{
    let np = nether_portal_from_text(s)->Ok_0;
    assert(nether_portal_text_form(np).nether =~= s.nether);
    assert(nether_portal_text_form(np).overworld =~= s.overworld);
}

/// The edit form shows every field the way the portal reads it by name.
pub proof fn law_text_form_shows_fields(p: PortalView, f: PortalField)
    ensures
        string_at(portal_text_form(p), f) == field_text(p, f),
{
}

/// A text field written by name reads back what was written; every other
/// field keeps its text.
pub proof fn law_string_field_write_read(
    s: StringPortalView,
    f: PortalField,
    g: PortalField,
    t: Seq<char>,
)
    ensures
        string_at(with_string(s, f, t), g) == if f == g {
            t
        } else {
            string_at(s, g)
        },
{
}

/// A coordinate written by name reads back what was written; every other
/// field keeps its value.
pub proof fn law_number_field_write_read(p: PortalView, f: PortalField, g: PortalField, v: i32)
    requires
        is_number_field(f),
    ensures
        field_text(with_number(p, f, v), g) == if f == g {
            int_to_decimal(v as int)
        } else {
            field_text(p, g)
        },
{
}

/// A text field of a portal written by name reads back what was written;
/// every other field keeps its value.
pub proof fn law_text_field_write_read(p: PortalView, f: PortalField, g: PortalField, t: Seq<char>)
    requires
        !is_number_field(f),
    ensures
        field_text(with_text(p, f, t), g) == if f == g {
            t
        } else {
            field_text(p, g)
        },
{
}

/// The names "ycord" and "zcord" reach each other's coordinates; every name
/// reaches a different field.
pub proof fn law_field_names_distinct()
    ensures
        field_slot("ycord"@) == Some(PortalField::Zcord),
        field_slot("zcord"@) == Some(PortalField::Ycord),
        forall|a: Seq<char>, b: Seq<char>|
            field_slot(a) is Some && field_slot(a) == field_slot(b) ==> a == b,
{
    lemma_field_names();
}

/// A search by field finds at most one first match: the portal found for
/// reading and the one found for writing are the same.
pub proof fn law_first_match_unique(
    s: Seq<(Seq<char>, NetherPortal)>,
    i: int,
    j: int,
    name: Seq<char>,
    value: Seq<char>,
)
    requires
        is_first_match(s, i, name, value),
        is_first_match(s, j, name, value),
    ensures
        i == j,
{
    if i < j {
        assert(!nether_portal_matches(s[i].1@, name, value));
    } else if j < i {
        assert(!nether_portal_matches(s[j].1@, name, value));
    }
}

/// Showing a portal for editing and saving it back unchanged leaves every
/// portal as it was, when no other portal shares its true name.
pub proof fn law_unedited_save_keeps_portals(
    s: Seq<(Seq<char>, NetherPortal)>,
    t: Seq<(Seq<char>, NetherPortal)>,
    name: Seq<char>,
    i: int,
)
    requires
        is_first_match(s, i, "true_name"@, name),
        forall|j: int| 0 <= j < s.len() && has_true_name(#[trigger] s[j].1@, name) ==> j == i,
        replaced_named(s, t, name, nether_portal_from_text(nether_portal_text_form(s[i].1@))->Ok_0),
    ensures
        t.len() == s.len(),
        forall|j: int| 0 <= j < s.len() ==> (#[trigger] t[j]).0 == s[j].0 && t[j].1@ == s[j].1@,
{
    lemma_field_names();
    law_text_form_round_trip(s[i].1@);
    assert(has_true_name(s[i].1@, name));
    assert forall|j: int| 0 <= j < s.len() implies (#[trigger] t[j]).0 == s[j].0 && t[j].1@
        == s[j].1@ by {
        if has_true_name(s[j].1@, name) {
            assert(j == i);
        }
    }
}

/// After putting `v` under `k`, the table gives `v` for `k`.
pub proof fn law_insert_then_lookup<V>(s: Seq<(Seq<char>, V)>, k: Seq<char>, v: V)
    ensures
        lookup(inserted(s, k, v), k) == Some(v),
{
    let t = inserted(s, k, v);
    if has_key(s, k) {
        let w = choose|w: int| 0 <= w < s.len() && #[trigger] s[w].0 == k;
        lemma_first_key_exists(s, k, w);
        let idx = key_index(s, k);
        assert(is_first_key(t, k, idx));
        lemma_key_index(t, k, idx);
    } else {
        assert forall|j: int| 0 <= j < s.len() implies #[trigger] t[j].0 != k by {}
        assert(is_first_key(t, k, s.len() as int));
        lemma_key_index(t, k, s.len() as int);
    }
}

/// Putting a value under one key leaves what every other key gives.
pub proof fn law_insert_keeps_other_keys<V>(s: Seq<(Seq<char>, V)>, k: Seq<char>, v: V, k2: Seq<char>)
    requires
        k2 != k,
    ensures
        lookup(inserted(s, k, v), k2) == lookup(s, k2),
{
    let t = inserted(s, k, v);
    if has_key(s, k2) {
        let w = choose|w: int| 0 <= w < s.len() && #[trigger] s[w].0 == k2;
        lemma_first_key_exists(s, k2, w);
        let idx = key_index(s, k2);
        if has_key(s, k) {
            let w1 = choose|w: int| 0 <= w < s.len() && #[trigger] s[w].0 == k;
            lemma_first_key_exists(s, k, w1);
        }
        assert(is_first_key(t, k2, idx));
        lemma_key_index(t, k2, idx);
    } else {
        if has_key(s, k) {
            let w1 = choose|w: int| 0 <= w < s.len() && #[trigger] s[w].0 == k;
            lemma_first_key_exists(s, k, w1);
        }
        assert forall|j: int| 0 <= j < t.len() implies #[trigger] t[j].0 != k2 by {
            if j < s.len() && t[j] != s[j] {
                assert(t[j].0 == k);
            }
        }
    }
}

/// With keys distinct, a removed key is gone and stays gone.
pub proof fn law_remove_then_lookup<V>(s: Seq<(Seq<char>, V)>, k: Seq<char>)
    requires
        keys_unique(s),
    ensures
        lookup(removed(s, k), k) is None,
{
    let t = removed(s, k);
    if has_key(s, k) {
        let w = choose|w: int| 0 <= w < s.len() && #[trigger] s[w].0 == k;
        lemma_unique_key_index(s, w);
        assert forall|j: int| 0 <= j < t.len() implies #[trigger] t[j].0 != k by {
            let sj = if j < w { j } else { j + 1 };
            assert(t[j] == s[sj]);
        }
    }
}

/// Bringing the deletion queue up to date keeps the queued names, in place,
/// and then holds every image name.
pub proof fn law_queue_update_covers(ns: Seq<Seq<char>>, names: Seq<Seq<char>>)
    ensures
        ns.len() <= with_new_names(ns, names).len(),
        forall|i: int| 0 <= i < ns.len() ==> #[trigger] with_new_names(ns, names)[i] == ns[i],
        forall|k: int| 0 <= k < names.len() ==> with_new_names(ns, names).contains(#[trigger] names[k]),
    decreases names.len(),
{
    if names.len() > 0 {
        let init = names.drop_last();
        law_queue_update_covers(ns, init);
        let t = with_new_names(ns, init);
        assert forall|k: int| 0 <= k < names.len() implies with_new_names(ns, names).contains(
            #[trigger] names[k],
        ) by {
            if k < init.len() {
                assert(init[k] == names[k]);
                assert(t.contains(init[k]));
                if !t.contains(names.last()) {
                    let w = choose|w: int| 0 <= w < t.len() && t[w] == init[k];
                    assert(t.push(names.last())[w] == names[k]);
                }
            } else {
                if !t.contains(names.last()) {
                    assert(t.push(names.last())[t.len() as int] == names[k]);
                }
            }
        }
    }
}

/// Listing the portals for deletion keeps every listed name with its mark, in
/// place, and then lists every portal name.
pub proof fn law_deletion_list_covers(s: Seq<(Seq<char>, bool)>, names: Seq<Seq<char>>)
    ensures
        s.len() <= with_unmarked(s, names).len(),
        forall|i: int| 0 <= i < s.len() ==> #[trigger] with_unmarked(s, names)[i] == s[i],
        forall|k: int| 0 <= k < names.len() ==> has_key(with_unmarked(s, names), #[trigger] names[k]),
    decreases names.len(),
{
    if names.len() > 0 {
        let init = names.drop_last();
        law_deletion_list_covers(s, init);
        let t = with_unmarked(s, init);
        assert forall|k: int| 0 <= k < names.len() implies has_key(
            with_unmarked(s, names),
            #[trigger] names[k],
        ) by {
            if k < init.len() {
                assert(init[k] == names[k]);
                assert(has_key(t, init[k]));
                if !has_key(t, names.last()) {
                    let w = choose|w: int| 0 <= w < t.len() && t[w].0 == init[k];
                    assert(t.push((names.last(), false))[w].0 == names[k]);
                }
            } else {
                if !has_key(t, names.last()) {
                    assert(t.push((names.last(), false))[t.len() as int].0 == names[k]);
                }
            }
        }
    }
}

/// Over any run of requests to start, one after another, at most one is
/// granted: the session clock and the portal loader each start at most once.
pub proof fn law_start_at_most_once(states: Seq<StartOnce>, grants: Seq<bool>)
    requires
        states.len() == grants.len() + 1,
        forall|i: int| 0 <= i < grants.len() ==> start_step(states[i], #[trigger] grants[i], states[i + 1]),
    ensures
        forall|i: int, j: int| 0 <= i < j < grants.len() ==> !(#[trigger] grants[i] && #[trigger] grants[j]),
{
    assert forall|i: int, j: int| 0 <= i < j < grants.len() implies !(#[trigger] grants[i] && #[trigger] grants[j]) by {
        assert(start_step(states[j - 1], grants[j - 1], states[j]));
        assert(start_step(states[j], grants[j], states[j + 1]));
    }
}

/// The edit form shows each side of a nether portal field by field: every
/// field of the nether side's form shows the nether side's own value of that
/// same field (coordinates in decimal), and likewise for the overworld; the
/// id shows in decimal and the username as it is.
pub proof fn law_text_form_each_side(np: NetherPortalView, f: PortalField)
    ensures
        string_at(nether_portal_text_form(np).nether, f) == field_text(np.nether, f),
        string_at(nether_portal_text_form(np).overworld, f) == field_text(np.overworld, f),
        nether_portal_text_form(np).id == int_to_decimal(np.id as int),
        nether_portal_text_form(np).username == np.username,
{
}

/// Reading an edit form back succeeds exactly when its six coordinates and
/// its id parse as `i32`; then every coordinate of each side is the number
/// that the same field of that side's form parses to, every text field is the
/// text written in the same field of that side's form, the id is the parsed
/// id and the username is kept.
pub proof fn law_read_back_each_side(s: StringNetherPortalView, f: PortalField)
    ensures
        (nether_portal_from_text(s) is Ok) == (parsed_i32(s.nether.xcord) is Some && parsed_i32(
            s.nether.ycord,
        ) is Some && parsed_i32(s.nether.zcord) is Some && parsed_i32(s.overworld.xcord) is Some
            && parsed_i32(s.overworld.ycord) is Some && parsed_i32(s.overworld.zcord) is Some
            && parsed_i32(s.id) is Some),
        nether_portal_from_text(s) matches Ok(np) ==> {
            &&& is_number_field(f) ==> parsed_i32(string_at(s.nether, f)) == Some(
                number_at(np.nether, f),
            )
            &&& is_number_field(f) ==> parsed_i32(string_at(s.overworld, f)) == Some(
                number_at(np.overworld, f),
            )
            &&& !is_number_field(f) ==> text_at(np.nether, f) == string_at(s.nether, f)
            &&& !is_number_field(f) ==> text_at(np.overworld, f) == string_at(s.overworld, f)
            &&& parsed_i32(s.id) == Some(np.id)
            &&& np.username == s.username
        },
{
}

/// The edit form of portal `p` with field `f` of one side (the nether side
/// when `nether_side`, else the overworld) changed to the text `v`.
pub open spec fn edited_form(
    p: NetherPortalView,
    nether_side: bool,
    f: PortalField,
    v: Seq<char>,
) -> StringNetherPortalView {
    let form = nether_portal_text_form(p);
    if nether_side {
        StringNetherPortalView { nether: with_string(form.nether, f, v), ..form }
    } else {
        StringNetherPortalView { overworld: with_string(form.overworld, f, v), ..form }
    }
}

/// Saving an edit writes it into every portal that has the saved true name:
/// when the form shown for portal `p` had field `f` of one side changed to
/// the text `v`, and the edited form reads back as `np`, then every portal
/// with that true name afterwards reads `v` in field `f` of that side (as a
/// number for a coordinate), holds `p`'s value in every other field of that
/// side, holds `p`'s other side, id and username, and keeps its key; every
/// other portal is left as it was.
pub proof fn law_saved_edit_reads_back(
    s: Seq<(Seq<char>, NetherPortal)>,
    t: Seq<(Seq<char>, NetherPortal)>,
    name: Seq<char>,
    p: NetherPortalView,
    nether_side: bool,
    f: PortalField,
    v: Seq<char>,
    np: NetherPortalView,
)
    requires
        nether_portal_from_text(edited_form(p, nether_side, f, v)) == Ok::<
            NetherPortalView,
            Seq<char>,
        >(np),
        replaced_named(s, t, name, np),
    ensures
        t.len() == s.len(),
        forall|i: int| 0 <= i < s.len() && !has_true_name(s[i].1@, name) ==> #[trigger] t[i] == s[i],
        forall|i: int|
            0 <= i < s.len() && has_true_name(s[i].1@, name) ==> {
                let after = (#[trigger] t[i]).1@;
                let side = if nether_side { after.nether } else { after.overworld };
                let other = if nether_side { after.overworld } else { after.nether };
                let p_side = if nether_side { p.nether } else { p.overworld };
                let p_other = if nether_side { p.overworld } else { p.nether };
                &&& t[i].0 == s[i].0
                &&& is_number_field(f) ==> parsed_i32(v) == Some(number_at(side, f))
                &&& !is_number_field(f) ==> text_at(side, f) == v
                &&& forall|g: PortalField| g != f ==> #[trigger] field_text(side, g) == field_text(p_side, g)
                &&& other == p_other
                &&& after.id == p.id
                &&& after.username == p.username
            },
{
    lemma_parse_decimal_i32(p.id);
    lemma_parse_decimal_i32(p.nether.xcord);
    lemma_parse_decimal_i32(p.nether.ycord);
    lemma_parse_decimal_i32(p.nether.zcord);
    lemma_parse_decimal_i32(p.overworld.xcord);
    lemma_parse_decimal_i32(p.overworld.ycord);
    lemma_parse_decimal_i32(p.overworld.zcord);
    assert forall|i: int|
        0 <= i < s.len() && has_true_name(s[i].1@, name) implies {
            let after = (#[trigger] t[i]).1@;
            let side = if nether_side { after.nether } else { after.overworld };
            let other = if nether_side { after.overworld } else { after.nether };
            let p_side = if nether_side { p.nether } else { p.overworld };
            let p_other = if nether_side { p.overworld } else { p.nether };
            &&& t[i].0 == s[i].0
            &&& is_number_field(f) ==> parsed_i32(v) == Some(number_at(side, f))
            &&& !is_number_field(f) ==> text_at(side, f) == v
            &&& forall|g: PortalField| g != f ==> #[trigger] field_text(side, g) == field_text(p_side, g)
            &&& other == p_other
            &&& after.id == p.id
            &&& after.username == p.username
        } by {
        assert(t[i].1@ == np);
        if nether_side {
            assert(np.overworld =~= p.overworld);
        } else {
            assert(np.nether =~= p.nether);
        }
    }
}

/// Picking a portal in the selector shows the text form of the first portal
/// with that true name in the table as it stands after the edits of the
/// portal picked before were kept, under that portal's key.
pub proof fn law_pick_shows_from_kept_table(
    modify: bool,
    previous_modal: Seq<char>,
    all0: Seq<(Seq<char>, NetherPortal)>,
    all1: Seq<(Seq<char>, NetherPortal)>,
    shown0: Option<(String, StringNetherPortal)>,
    shown1: Option<(String, StringNetherPortal)>,
    choice: Seq<char>,
    r: Option<String>,
)
    requires
        choice_outcome(modify, previous_modal, all0, all1, shown0, shown1, choice, r),
        !no_match(all1, "true_name"@, choice),
    ensures
        exists|i: int|
            is_first_match(all1, i, "true_name"@, choice) && (shown1 matches Some((key, form))
                && key@ == all1[i].0 && form@ == nether_portal_text_form(all1[i].1@)),
{
}

/// Picking again, while editing, the portal being edited keeps the edit on
/// screen: the form shown afterwards is the text form of the edited form read
/// back, not of the portal before the edit, and no error is shown. (The edit
/// must keep the portal's true name, so that the pick finds it again.)
pub proof fn law_repick_keeps_edit(
    previous_modal: Seq<char>,
    all0: Seq<(Seq<char>, NetherPortal)>,
    all1: Seq<(Seq<char>, NetherPortal)>,
    key0: String,
    form0: StringNetherPortal,
    shown1: Option<(String, StringNetherPortal)>,
    r: Option<String>,
    np: NetherPortalView,
)
    requires
        choice_outcome(true, previous_modal, all0, all1, Some((key0, form0)), shown1, previous_modal, r),
        nether_portal_from_text(form0@) == Ok::<NetherPortalView, Seq<char>>(np),
        has_true_name(np, previous_modal),
        some_named(all0, previous_modal),
    ensures
        shown1 matches Some((_, form)) && form@ == nether_portal_text_form(np),
        r is None,
{
    lemma_field_names();
    assert(replaced_named(all0, all1, previous_modal, np));
    let k = choose|k: int| 0 <= k < all0.len() && has_true_name(#[trigger] all0[k].1@, previous_modal);
    assert(all1[k].1@ == np);
    assert(nether_portal_matches(all1[k].1@, "true_name"@, previous_modal));
    assert(!no_match(all1, "true_name"@, previous_modal));
    let j = choose|j: int|
        is_first_match(all1, j, "true_name"@, previous_modal) && (shown1 matches Some((key, form))
            && key@ == all1[j].0 && form@ == nether_portal_text_form(all1[j].1@));
    assert(has_true_name(all1[j].1@, previous_modal));
    if !has_true_name(all0[j].1@, previous_modal) {
        assert(all1[j] == all0[j]);
    }
    assert(all1[j].1@ == np);
}

/// The images sent to the image server are exactly those the user added and
/// has not saved: every position whose image has a local path is listed, no
/// other position is, and the positions come in table order.
pub proof fn law_unsaved_are_the_local_images<I>(s: Seq<(Seq<char>, ImageAndDetails<I>)>)
    ensures
        forall|i: int|
            0 <= i < s.len() ==> ((#[trigger] s[i]).1.image_details.local_image is Some
                <==> unsaved_positions(s).contains(i)),
        forall|k: int|
            0 <= k < unsaved_positions(s).len() ==> 0 <= #[trigger] unsaved_positions(s)[k] < s.len(),
        forall|a: int, b: int|
            0 <= a < b < unsaved_positions(s).len() ==> #[trigger] unsaved_positions(s)[a]
                < #[trigger] unsaved_positions(s)[b],
    decreases s.len(),
{
    if s.len() > 0 {
        let init = s.drop_last();
        law_unsaved_are_the_local_images(init);
        let u = unsaved_positions(init);
        let last = s.len() - 1;
        assert forall|i: int|
            0 <= i < s.len() implies ((#[trigger] s[i]).1.image_details.local_image is Some
                <==> unsaved_positions(s).contains(i)) by {
            if i < last {
                assert(init[i] == s[i]);
                if s.last().1.image_details.local_image is Some {
                    if u.contains(i) {
                        let w = choose|w: int| 0 <= w < u.len() && u[w] == i;
                        assert(u.push(last)[w] == i);
                    }
                    if u.push(last).contains(i) {
                        let w = choose|w: int| 0 <= w < u.push(last).len() && u.push(last)[w] == i;
                        if w < u.len() {
                            assert(u[w] == i);
                        }
                    }
                }
            } else {
                if s.last().1.image_details.local_image is Some {
                    assert(u.push(last)[u.len() as int] == last);
                } else {
                    if u.contains(last) {
                        let w = choose|w: int| 0 <= w < u.len() && u[w] == last;
                        assert(u[w] < init.len());
                    }
                }
            }
        }
    }
}

/// Every answer whose status lies from 200 to 299 is handed to the job, and
/// the outcome is the job's: its result when it succeeds, its error (after
/// the fixed prefix) when it fails. An answer with any other status never
/// reaches the job and is reported as refused, with its status reason.
pub proof fn law_success_goes_to_job<F: FnOnce(HttpReply) -> Result<ResponseResult, String>>(
    reply: HttpReply,
    job: F,
    r: Result<ResponseResult, ErrorMessage>,
)
    requires
        request_outcome(Ok::<HttpReply, crate::requests::TransportError>(reply), job, r),
    ensures
        200 <= reply.status <= 299 ==> exists|out: Result<ResponseResult, String>|
            #[trigger] call_ensures(job, (reply,), out) && match out {
                Ok(result) => r == Ok::<ResponseResult, ErrorMessage>(result),
                Err(error) => r matches Err(m) && shows_error(m, failed_to_convert_prefix() + error@),
            },
        !(200 <= reply.status <= 299) ==> (r matches Err(m) && shows_error(
            m,
            bad_server_response_prefix() + reply.status_text@,
        )),
{
}

} // verus!
