//! The nether portal page: finding portals by a field, the editable copy shown
//! to the user, saving edits back, resetting from the untouched copy, and the
//! checks on the server's answers.
use vstd::prelude::*;
use crate::keyed::{Keyed, has_key, lemma_unique_key_index, lookup};
use crate::portals::{
    NetherPortal, NetherPortalView, StringNetherPortal, StringNetherPortalView, field_slot,
    field_text, missing_member_message, nether_portal_from_text, nether_portal_text_form,
    lemma_field_names,
};
use crate::sessions::SessionInformation;
use crate::images::StateOfImages;
use crate::modal_machines::{ModalMachineGear, modal_machine};
use crate::windows::{DeletionQueue, GenericWindow};
use crate::text::{string_views, concat2, int_to_decimal, str_eq, i32_to_text};

verus! {

/// Field `name` of one side of a nether portal reads as `value`.
pub open spec fn side_matches(p: crate::portals::PortalView, name: Seq<char>, value: Seq<char>) -> bool {
    field_slot(name) matches Some(f) && field_text(p, f) == value
}

/// Field `name` of either side of the nether portal reads as `value`.
pub open spec fn nether_portal_matches(np: NetherPortalView, name: Seq<char>, value: Seq<char>) -> bool {
    side_matches(np.nether, name, value) || side_matches(np.overworld, name, value)
}

/// Entry `i` is the first, in table order, whose portal matches.
pub open spec fn is_first_match(
    s: Seq<(Seq<char>, NetherPortal)>,
    i: int,
    name: Seq<char>,
    value: Seq<char>,
) -> bool {
    &&& 0 <= i < s.len()
    &&& nether_portal_matches(s[i].1@, name, value)
    &&& forall|j: int| 0 <= j < i ==> !nether_portal_matches(#[trigger] s[j].1@, name, value)
}

/// No entry's portal matches.
pub open spec fn no_match(s: Seq<(Seq<char>, NetherPortal)>, name: Seq<char>, value: Seq<char>) -> bool {
    forall|j: int| 0 <= j < s.len() ==> !nether_portal_matches(#[trigger] s[j].1@, name, value)
}

/// The error of a search that finds nothing: an unknown field name is reported
/// by the first portal looked at; otherwise the field value was not found.
pub open spec fn search_error(s: Seq<(Seq<char>, NetherPortal)>, name: Seq<char>) -> Seq<char> {
    if s.len() > 0 && field_slot(name) is None {
        missing_member_message(name)
    } else {
        field_not_found_message()
    }
}

/// The error text when no portal has the sought field value.
pub open spec fn field_not_found_message() -> Seq<char> {
    "Field does not exist"@
}

/// One of the two true names of the portal is `name`.
pub open spec fn has_true_name(np: NetherPortalView, name: Seq<char>) -> bool {
    np.nether.true_name == name || np.overworld.true_name == name
}

/// Whether field `field_name` of the portal, on either side, reads as `field_value`.
fn portal_has_field(
    netherportal: &NetherPortal,
    field_name: &str,
    field_value: &str,
) -> (r: Result<bool, String>)
    ensures
        match field_slot(field_name@) {
            Some(f) => r == Ok::<bool, String>(
                nether_portal_matches(netherportal@, field_name@, field_value@),
            ),
            None => r matches Err(e) && e@ == missing_member_message(field_name@),
        },
{
    let nether_text = netherportal.nether.get(field_name)?.to_string();
    if str_eq(nether_text.as_str(), field_value) {
        return Ok(true);
    }
    let overworld_text = netherportal.overworld.get(field_name)?.to_string();
    Ok(str_eq(overworld_text.as_str(), field_value))
}

/// The position of the first portal whose field `field_name` reads as `field_value`.
fn position_by_field(
    hasher: &Keyed<NetherPortal>,
    field_name: &str,
    field_value: &str,
) -> (r: Result<usize, String>)
    ensures
        match r {
            Ok(i) => is_first_match(hasher@, i as int, field_name@, field_value@),
            Err(e) => no_match(hasher@, field_name@, field_value@) && e@ == search_error(
                hasher@,
                field_name@,
            ),
        },
{
    let mut i: usize = 0;
    while i < hasher.len()
        invariant
            i <= hasher@.len(),
            forall|j: int| 0 <= j < i ==> !nether_portal_matches(
                #[trigger] hasher@[j].1@,
                field_name@,
                field_value@,
            ),
            i > 0 ==> field_slot(field_name@) is Some,
        decreases hasher@.len() - i,
    {
        if portal_has_field(hasher.value_at(i), field_name, field_value)? {
            return Ok(i);
        }
        i = i + 1;
    }
    Err(String::from_str("Field does not exist"))
}

/// The key and the portal of the first entry whose field `field_name` (on
/// either side) reads as `field_value`.
pub fn get_ref_by_field<'a>(
    hasher: &'a Keyed<NetherPortal>,
    field_name: &str,
    field_value: &str,
) -> (r: Result<(String, &'a NetherPortal), String>)
    ensures
        match r {
            Ok((key, netherportal)) => (exists|i: int|
                is_first_match(hasher@, i, field_name@, field_value@) && hasher@[i].0 == key@
                    && hasher@[i].1 == *netherportal) && (hasher.wf() ==> lookup(hasher@, key@)
                == Some(*netherportal)),
            Err(e) => no_match(hasher@, field_name@, field_value@) && e@ == search_error(
                hasher@,
                field_name@,
            ),
        },
{
    let i = position_by_field(hasher, field_name, field_value)?;
    proof {
        if hasher.wf() {
            lemma_unique_key_index(hasher@, i as int);
        }
    }
    Ok((hasher.key_at(i).clone(), hasher.value_at(i)))
}

/// The key and the portal, borrowed for writing, of the first entry whose
/// field `field_name` (on either side) reads as `field_value`.
pub fn get_mut_ref_by_field<'a>(
    hasher: &'a mut Keyed<NetherPortal>,
    field_name: &str,
    field_value: &str,
) -> (r: Result<(String, &'a mut NetherPortal), String>)
    ensures
        match r {
            Ok((key, netherportal)) => exists|i: int|
                is_first_match(old(hasher)@, i, field_name@, field_value@) && old(hasher)@[i].0
                    == key@ && old(hasher)@[i].1 == *netherportal && final(hasher)@ == old(
                    hasher,
                )@.update(i, (old(hasher)@[i].0, *final(netherportal))),
            Err(e) => no_match(old(hasher)@, field_name@, field_value@) && e@ == search_error(
                old(hasher)@,
                field_name@,
            ) && final(hasher)@ == old(hasher)@,
        },
{
    let i = position_by_field(hasher, field_name, field_value)?;
    let key = hasher.key_at(i).clone();
    Ok((key, hasher.value_at_mut(i)))
}

/// The key and the text form of the first portal with true name `true_name`.
pub fn make_displayable_netherportal(
    all_nether_portals: &Keyed<NetherPortal>,
    true_name: &str,
) -> (r: Result<(String, StringNetherPortal), String>)
    ensures
        match r {
            Ok((key, shown)) => exists|i: int|
                is_first_match(all_nether_portals@, i, "true_name"@, true_name@)
                    && all_nether_portals@[i].0 == key@ && shown@ == nether_portal_text_form(
                    all_nether_portals@[i].1@,
                ),
            Err(e) => no_match(all_nether_portals@, "true_name"@, true_name@) && e@
                == field_not_found_message(),
        },
{
    proof {
        lemma_field_names();
    }
    let netherportal_tuple = get_ref_by_field(all_nether_portals, "true_name", true_name)?;
    let string_netherportal = StringNetherPortal::convert(netherportal_tuple.1.clone())?;
    Ok((netherportal_tuple.0, string_netherportal))
}

/// The key and the portal to send to the server: the first with true name `true_name`.
pub fn get_netherportal_to_save<'a>(
    all_nether_portal_information: &'a Keyed<NetherPortal>,
    true_name: &str,
) -> (r: Result<(String, &'a NetherPortal), String>)
    ensures
        match r {
            Ok((key, netherportal)) => exists|i: int|
                is_first_match(all_nether_portal_information@, i, "true_name"@, true_name@)
                    && all_nether_portal_information@[i].0 == key@
                    && all_nether_portal_information@[i].1 == *netherportal,
            Err(e) => no_match(all_nether_portal_information@, "true_name"@, true_name@) && e@
                == field_not_found_message(),
        },
{
    proof {
        lemma_field_names();
    }
    match get_ref_by_field(all_nether_portal_information, "true_name", true_name) {
        Ok(netherportal) => Ok(netherportal),
        Err(error) => Err(error),
    }
}

/// Replaces, in the untouched copy, the first portal sharing the updated
/// portal's nether true name with the updated portal.
pub fn reinitialize_copy_of_netherportal(
    updated_netherportal: NetherPortal,
    copy_of_netherportals: &mut Keyed<NetherPortal>,
) -> (r: Result<(), String>)
    ensures
        match r {
            Ok(()) => exists|i: int|
                is_first_match(
                    old(copy_of_netherportals)@,
                    i,
                    "true_name"@,
                    updated_netherportal.nether.true_name@,
                ) && final(copy_of_netherportals)@ == old(copy_of_netherportals)@.update(
                    i,
                    (old(copy_of_netherportals)@[i].0, updated_netherportal),
                ),
            Err(e) => no_match(
                old(copy_of_netherportals)@,
                "true_name"@,
                updated_netherportal.nether.true_name@,
            ) && e@ == field_not_found_message() && final(copy_of_netherportals)@ == old(
                copy_of_netherportals,
            )@,
        },
{
    proof {
        lemma_field_names();
    }
    let netherportal_copy = get_mut_ref_by_field(
        copy_of_netherportals,
        "true_name",
        updated_netherportal.nether.true_name.as_str(),
    )?;
    *netherportal_copy.1 = updated_netherportal;
    Ok(())
}


/// `t` is `s` with the portal of every entry that has true name `name`
/// replaced by one whose content is `np`; every other entry, and every key, is kept.
pub open spec fn replaced_named(
    s: Seq<(Seq<char>, NetherPortal)>,
    t: Seq<(Seq<char>, NetherPortal)>,
    name: Seq<char>,
    np: NetherPortalView,
) -> bool {
    &&& t.len() == s.len()
    &&& forall|i: int|
        0 <= i < s.len() ==> (#[trigger] t[i]).0 == s[i].0 && if has_true_name(s[i].1@, name) {
            t[i].1@ == np
        } else {
            t[i].1 == s[i].1
        }
}

/// Some entry's portal has true name `name`.
pub open spec fn some_named(s: Seq<(Seq<char>, NetherPortal)>, name: Seq<char>) -> bool {
    exists|i: int| 0 <= i < s.len() && has_true_name(#[trigger] s[i].1@, name)
}

/// Whether one of the portal's two true names is `name`.
fn is_named(netherportal: &NetherPortal, name: &String) -> (r: bool)
    ensures
        r == has_true_name(netherportal@, name@),
{
    str_eq(netherportal.nether.true_name.as_str(), name.as_str()) || str_eq(
        netherportal.overworld.true_name.as_str(),
        name.as_str(),
    )
}

/// Writes the edited portal shown to the user back over every portal that has
/// the current true name. When the edit does not read back as a portal
/// (a coordinate or the id is not a number), nothing is written and the
/// parse error is returned.
pub fn save_modified_data(
    all_nether_portals: &mut Keyed<NetherPortal>,
    displayable_nether_portal: &mut Option<(String, StringNetherPortal)>,
    current_netherportal_modal: &String,
) -> (r: Option<String>)
    ensures
        *final(displayable_nether_portal) == *old(displayable_nether_portal),
        match *old(displayable_nether_portal) {
            None => r is None && final(all_nether_portals)@ == old(all_nether_portals)@,
            Some((_, shown)) => match nether_portal_from_text(shown@) {
                Ok(np) => r is None && replaced_named(
                    old(all_nether_portals)@,
                    final(all_nether_portals)@,
                    current_netherportal_modal@,
                    np,
                ),
                Err(e) => final(all_nether_portals)@ == old(all_nether_portals)@ && if some_named(
                    old(all_nether_portals)@,
                    current_netherportal_modal@,
                ) {
                    r matches Some(m) && m@ == e
                } else {
                    r is None
                },
            },
        },
{
    let ghost start = all_nether_portals@;
    let shown: &Option<(String, StringNetherPortal)> = &*displayable_nether_portal;
    assert(*shown == *old(displayable_nether_portal));
    let mut i: usize = 0;
    while i < all_nether_portals.len()
        invariant
            i <= start.len(),
            start == old(all_nether_portals)@,
            *shown == *old(displayable_nether_portal),
            all_nether_portals@.len() == start.len(),
            forall|j: int| i <= j < start.len() ==> #[trigger] all_nether_portals@[j] == start[j],
            forall|j: int|
                0 <= j < i ==> (#[trigger] all_nether_portals@[j]).0 == start[j].0 && if has_true_name(
                    start[j].1@,
                    current_netherportal_modal@,
                ) && shown is Some {
                    nether_portal_from_text(shown->Some_0.1@) is Ok
                        && all_nether_portals@[j].1@ == nether_portal_from_text(
                        shown->Some_0.1@,
                    )->Ok_0
                } else {
                    all_nether_portals@[j].1 == start[j].1
                },
            forall|j: int|
                0 <= j < i ==> !(has_true_name(#[trigger] start[j].1@, current_netherportal_modal@)
                    && shown is Some && nether_portal_from_text(shown->Some_0.1@) is Err),
        decreases start.len() - i,
    {
        if is_named(all_nether_portals.value_at(i), current_netherportal_modal) {
            match shown {
                Some(some_tuple) => match NetherPortal::convert(&some_tuple.1) {
                    Ok(converted_netherportal) => {
                        *all_nether_portals.value_at_mut(i) = converted_netherportal;
                    },
                    Err(error_string) => {
                        proof {
                            assert(all_nether_portals@[i as int] == start[i as int]);
                            assert(has_true_name(start[i as int].1@, current_netherportal_modal@));
                            assert(some_named(start, current_netherportal_modal@));
                            assert(*some_tuple == shown->Some_0);
                            assert(nether_portal_from_text(some_tuple.1@) is Err);
                            assert forall|j: int| 0 <= j < i implies all_nether_portals@[j]
                                == start[j] by {
                                assert(!has_true_name(start[j].1@, current_netherportal_modal@));
                            }
                            assert(all_nether_portals@ =~= start);
                        }
                        return Some(error_string);
                    },
                },
                None => {},
            }
        }
        i = i + 1;
    }
    proof {
        if shown is None || nether_portal_from_text(shown->Some_0.1@) is Err {
            assert forall|j: int| 0 <= j < start.len() implies all_nether_portals@[j]
                == start[j] by {}
            assert(all_nether_portals@ =~= start);
            if shown is Some {
                assert(!some_named(start, current_netherportal_modal@));
            }
        }
    }
    None
}

/// When the user is editing (`modify`), keeps the edits of the portal that was
/// selected before (`previous_modal`) by writing them back, as
/// `save_modified_data` does; otherwise changes nothing.
fn keep_edits(
    modify: bool,
    previous_modal: &String,
    all_nether_portals: &mut Keyed<NetherPortal>,
    displayable_nether_portal: &mut Option<(String, StringNetherPortal)>,
) -> (r: Option<String>)
    ensures
        *final(displayable_nether_portal) == *old(displayable_nether_portal),
        !modify ==> r is None && final(all_nether_portals)@ == old(all_nether_portals)@,
        modify ==> match *old(displayable_nether_portal) {
            None => r is None && final(all_nether_portals)@ == old(all_nether_portals)@,
            Some((_, shown)) => match nether_portal_from_text(shown@) {
                Ok(np) => r is None && replaced_named(
                    old(all_nether_portals)@,
                    final(all_nether_portals)@,
                    previous_modal@,
                    np,
                ),
                Err(e) => final(all_nether_portals)@ == old(all_nether_portals)@ && if some_named(
                    old(all_nether_portals)@,
                    previous_modal@,
                ) {
                    r matches Some(m) && m@ == e
                } else {
                    r is None
                },
            },
        },
{
    if modify {
        return save_modified_data(all_nether_portals, displayable_nether_portal, previous_modal);
    }
    None
}

/// When the user is editing, keeps the edits of the portal selected before by
/// writing them back over every portal with that true name (as
/// `save_modified_data`); otherwise changes nothing. Only the portals change.
pub fn store_temporary_user_edits<I>(
    some_nether_portal_information: &mut NewNetherPortalInformation<I>,
) -> (r: Option<String>)
    ensures
        same_besides_portals(*final(some_nether_portal_information), *old(some_nether_portal_information)),
        final(some_nether_portal_information).displayable_nether_portal == old(
            some_nether_portal_information,
        ).displayable_nether_portal,
        match kept_edits(
            old(some_nether_portal_information).modify,
            old(some_nether_portal_information).displayable_nether_portal,
        ) {
            Some(Ok(np)) => r is None && replaced_named(
                old(some_nether_portal_information).all_nether_portals@,
                final(some_nether_portal_information).all_nether_portals@,
                old(some_nether_portal_information).modal_information.previous_modal@,
                np,
            ),
            Some(Err(e)) => final(some_nether_portal_information).all_nether_portals@ == old(
                some_nether_portal_information,
            ).all_nether_portals@ && if some_named(
                old(some_nether_portal_information).all_nether_portals@,
                old(some_nether_portal_information).modal_information.previous_modal@,
            ) {
                r matches Some(m) && m@ == e
            } else {
                r is None
            },
            None => r is None && final(some_nether_portal_information).all_nether_portals@ == old(
                some_nether_portal_information,
            ).all_nether_portals@,
        },
{
    keep_edits(
        some_nether_portal_information.modify,
        &some_nether_portal_information.modal_information.previous_modal,
        &mut some_nether_portal_information.all_nether_portals,
        &mut some_nether_portal_information.displayable_nether_portal,
    )
}

/// The key and a copy of the first portal that has true name `true_name`.
pub fn _get_related_nether_portal(
    all_nether_portals: &Keyed<NetherPortal>,
    true_name: &str,
) -> (r: Option<(String, NetherPortal)>)
    ensures
        match r {
            Some((key, netherportal)) => exists|i: int|
                0 <= i < all_nether_portals@.len() && has_true_name(
                    all_nether_portals@[i].1@,
                    true_name@,
                ) && (forall|j: int|
                    0 <= j < i ==> !has_true_name(
                        #[trigger] all_nether_portals@[j].1@,
                        true_name@,
                    )) && all_nether_portals@[i].0 == key@ && all_nether_portals@[i].1
                    == netherportal,
            None => !some_named(all_nether_portals@, true_name@),
        },
{
    let mut i: usize = 0;
    while i < all_nether_portals.len()
        invariant
            i <= all_nether_portals@.len(),
            forall|j: int|
                0 <= j < i ==> !has_true_name(#[trigger] all_nether_portals@[j].1@, true_name@),
        decreases all_nether_portals@.len() - i,
    {
        let netherportal = all_nether_portals.value_at(i);
        if str_eq(netherportal.nether.true_name.as_str(), true_name) || str_eq(
            netherportal.overworld.true_name.as_str(),
            true_name,
        ) {
            return Some((all_nether_portals.key_at(i).clone(), netherportal.clone()));
        }
        i = i + 1;
    }
    None
}

/// Resets the portal the user is looking at: the first portal matching the
/// field gets back the content of the first matching portal of the untouched
/// copy, and the displayed text form is rebuilt from it. When either search
/// finds nothing, nothing changes and that search's error is returned.
fn reset_from_copy(
    all_nether_portals: &mut Keyed<NetherPortal>,
    copy_of_nether_portals: &Keyed<NetherPortal>,
    displayable_nether_portal: &mut Option<(String, StringNetherPortal)>,
    field_name: &str,
    field_value: &str,
) -> (r: Result<(), String>)
    ensures
        match r {
            Ok(()) => exists|i: int, j: int|
                is_first_match(old(all_nether_portals)@, i, field_name@, field_value@)
                    && is_first_match(copy_of_nether_portals@, j, field_name@, field_value@)
                    && final(all_nether_portals)@ == old(all_nether_portals)@.update(
                    i,
                    (old(all_nether_portals)@[i].0, copy_of_nether_portals@[j].1),
                ) && (*final(displayable_nether_portal) matches Some((key, shown)) && key@ == old(
                    all_nether_portals,
                )@[i].0 && shown@ == nether_portal_text_form(copy_of_nether_portals@[j].1@)),
            Err(e) => final(all_nether_portals)@ == old(all_nether_portals)@
                && *final(displayable_nether_portal) == *old(displayable_nether_portal) && if no_match(
                old(all_nether_portals)@,
                field_name@,
                field_value@,
            ) {
                e@ == search_error(old(all_nether_portals)@, field_name@)
            } else {
                no_match(copy_of_nether_portals@, field_name@, field_value@) && e@ == search_error(
                    copy_of_nether_portals@,
                    field_name@,
                )
            },
        },
{
    let netherportal = get_mut_ref_by_field(all_nether_portals, field_name, field_value)?;
    let saved_netherportal = get_ref_by_field(copy_of_nether_portals, field_name, field_value)?;
    *netherportal.1 = saved_netherportal.1.clone();
    let shown = StringNetherPortal::convert(netherportal.1.clone())?;
    *displayable_nether_portal = Some((netherportal.0, shown));
    Ok(())
}

/// Resets the portal the user is looking at from the untouched copy: the
/// first portal whose field `field_name` reads as `field_value` gets back the
/// content of the first such portal of the copy, and the displayed text form
/// is rebuilt from it. When either search finds nothing, nothing changes and
/// that search's error is returned. Only the portals and the displayed form change.
pub fn reset_nether_portal<I>(
    nether_portal_information: &mut NewNetherPortalInformation<I>,
    field_name: &str,
    field_value: &str,
) -> (r: Result<(), String>)
    ensures
        same_besides_portals(*final(nether_portal_information), *old(nether_portal_information)),
        ({
            let before = *old(nether_portal_information);
            let after = *final(nether_portal_information);
            let all = before.all_nether_portals@;
            let copy = before.copy_of_nether_portals@;
            match r {
                Ok(()) => exists|i: int, j: int|
                    is_first_match(all, i, field_name@, field_value@) && is_first_match(
                        copy,
                        j,
                        field_name@,
                        field_value@,
                    ) && after.all_nether_portals@ == all.update(i, (all[i].0, copy[j].1)) && (
                    after.displayable_nether_portal matches Some((key, shown)) && key@ == all[i].0
                        && shown@ == nether_portal_text_form(copy[j].1@)),
                Err(e) => after.all_nether_portals@ == all && after.displayable_nether_portal
                    == before.displayable_nether_portal && if no_match(
                    all,
                    field_name@,
                    field_value@,
                ) {
                    e@ == search_error(all, field_name@)
                } else {
                    no_match(copy, field_name@, field_value@) && e@ == search_error(copy, field_name@)
                },
            }
        }),
{
    reset_from_copy(
        &mut nether_portal_information.all_nether_portals,
        &nether_portal_information.copy_of_nether_portals,
        &mut nether_portal_information.displayable_nether_portal,
        field_name,
        field_value,
    )
}

/// The true names of every portal, nether side first, in table order.
pub open spec fn true_names_of(s: Seq<(Seq<char>, NetherPortal)>) -> Seq<Seq<char>>
    decreases s.len(),
{
    if s.len() == 0 {
        Seq::empty()
    } else {
        true_names_of(s.drop_last()).push(s.last().1.nether.true_name@).push(
            s.last().1.overworld.true_name@,
        )
    }
}

/// What the nether portal selector offers and what the user picked in it.
#[derive(Debug)]
pub struct NewNetherPortalModal {
    pub modal: String,
    pub previous_modal: String,
    pub modal_list: Vec<String>,
    pub image_modal: String,
    pub deletion_modal: String,
}

impl Default for NewNetherPortalModal {
    fn default() -> (r: Self)
        ensures
            r.modal@ == Seq::<char>::empty(),
            r.previous_modal@ == Seq::<char>::empty(),
            r.modal_list@ == Seq::<String>::empty(),
            r.image_modal@ == Seq::<char>::empty(),
            r.deletion_modal@ == Seq::<char>::empty(),
    {
        NewNetherPortalModal {
            modal: String::new(),
            previous_modal: String::new(),
            modal_list: Vec::new(),
            image_modal: String::new(),
            deletion_modal: String::new(),
        }
    }
}

/// The selector for the portals: both true names of every portal, nothing picked.
pub fn build_nether_portals_modal(some_nether_portals: &Keyed<NetherPortal>) -> (r:
    NewNetherPortalModal)
    ensures
        r.modal_list@.map_values(|s: String| s@) == true_names_of(some_nether_portals@),
        r.modal@ == Seq::<char>::empty(),
        r.previous_modal@ == Seq::<char>::empty(),
        r.image_modal@ == Seq::<char>::empty(),
        r.deletion_modal@ == Seq::<char>::empty(),
{
    let mut some_modal = NewNetherPortalModal::default();
    let ghost s = some_nether_portals@;
    let mut i: usize = 0;
    while i < some_nether_portals.len()
        invariant
            i <= s.len(),
            s == some_nether_portals@,
            some_modal.modal@ == Seq::<char>::empty(),
            some_modal.previous_modal@ == Seq::<char>::empty(),
            some_modal.image_modal@ == Seq::<char>::empty(),
            some_modal.deletion_modal@ == Seq::<char>::empty(),
            some_modal.modal_list@.map_values(|x: String| x@) =~= true_names_of(s.take(i as int)),
        decreases s.len() - i,
    {
        let some_nether_portal = some_nether_portals.value_at(i);
        some_modal.modal_list.push(some_nether_portal.nether.true_name.clone());
        some_modal.modal_list.push(some_nether_portal.overworld.true_name.clone());
        assert(s.take(i + 1).drop_last() =~= s.take(i as int));
        i = i + 1;
    }
    assert(s.take(i as int) =~= s);
    some_modal
}

/// The table after giving every listed name not yet present the mark `false`.
pub open spec fn with_unmarked(s: Seq<(Seq<char>, bool)>, names: Seq<Seq<char>>) -> Seq<(Seq<char>, bool)>
    decreases names.len(),
{
    if names.len() == 0 {
        s
    } else {
        let t = with_unmarked(s, names.drop_last());
        if has_key(t, names.last()) {
            t
        } else {
            t.push((names.last(), false))
        }
    }
}

/// Lists every portal name for the deletion window: a name not yet listed is
/// added unmarked (`false`); names already listed keep their mark.
pub fn list_nether_portals_for_deletion(
    nether_portal_list: &Vec<String>,
    nether_portal_hashlist: &mut Keyed<bool>,
)
    ensures
        old(nether_portal_hashlist).wf() ==> final(nether_portal_hashlist).wf(),
        final(nether_portal_hashlist)@ == with_unmarked(
            old(nether_portal_hashlist)@,
            nether_portal_list@.map_values(|s: String| s@),
        ),
{
    let ghost names = nether_portal_list@.map_values(|s: String| s@);
    let ghost start = nether_portal_hashlist@;
    let mut i: usize = 0;
    while i < nether_portal_list.len()
        invariant
            i <= names.len(),
            names == nether_portal_list@.map_values(|s: String| s@),
            old(nether_portal_hashlist).wf() ==> nether_portal_hashlist.wf(),
            nether_portal_hashlist@ == with_unmarked(start, names.take(i as int)),
        decreases names.len() - i,
    {
        let element = &nether_portal_list[i];
        assert(names.take(i + 1).drop_last() =~= names.take(i as int));
        if !nether_portal_hashlist.contains_key(element.as_str()) {
            nether_portal_hashlist.insert(element.clone(), false);
        }
        i = i + 1;
    }
    assert(names.take(i as int) =~= names);
}


/// Whether `name` is among the user's access rights.
pub fn do_you_have_access_rights(
    session_information: &SessionInformation,
    current_netherportal: &String,
) -> (r: bool)
    ensures
        r == string_views(session_information.access_rights@).contains(
            current_netherportal@,
        ),
{
    let rights = &session_information.access_rights;
    let ghost names = string_views(rights@);
    let mut i: usize = 0;
    while i < rights.len()
        invariant
            i <= rights@.len(),
            names == string_views(rights@),
            rights@ == session_information.access_rights@,
            forall|j: int| 0 <= j < i ==> names[j] != current_netherportal@,
        decreases rights@.len() - i,
    {
        if str_eq(rights[i].as_str(), current_netherportal.as_str()) {
            assert(names[i as int] == current_netherportal@);
            return true;
        }
        i = i + 1;
    }
    false
}

/// Whether the "Modify" button shows: a portal is selected and the user has
/// the right to change it.
pub fn modify_button_shown(
    session_information: &SessionInformation,
    current_netherportal_modal: &String,
) -> (r: bool)
    ensures
        r == (current_netherportal_modal@ != Seq::<char>::empty()
            && string_views(session_information.access_rights@).contains(
            current_netherportal_modal@,
        )),
{
    proof {
        reveal_strlit("");
        assert(""@ =~= Seq::<char>::empty());
    }
    !str_eq(current_netherportal_modal.as_str(), "") && do_you_have_access_rights(
        session_information,
        current_netherportal_modal,
    )
}

/// The "Modify" button was pressed: starting an edit shows the selected
/// portal's text form; ending it writes the edit back (as
/// `save_modified_data`). The editing flag flips either way. Returns the error
/// to show, if any.
pub fn modify_button_pressed(
    modify: &mut bool,
    all_nether_portals: &mut Keyed<NetherPortal>,
    displayable_nether_portal: &mut Option<(String, StringNetherPortal)>,
    current_netherportal_modal: &String,
) -> (r: Option<String>)
    ensures
        *final(modify) == !*old(modify),
        !*old(modify) ==> final(all_nether_portals)@ == old(all_nether_portals)@ && match r {
            None => exists|i: int|
                is_first_match(old(all_nether_portals)@, i, "true_name"@, current_netherportal_modal@)
                    && (*final(displayable_nether_portal) matches Some((key, shown)) && key@ == old(
                    all_nether_portals,
                )@[i].0 && shown@ == nether_portal_text_form(old(all_nether_portals)@[i].1@)),
            Some(e) => no_match(old(all_nether_portals)@, "true_name"@, current_netherportal_modal@)
                && e@ == field_not_found_message() && *final(displayable_nether_portal) == *old(
                displayable_nether_portal,
            ),
        },
        *old(modify) ==> *final(displayable_nether_portal) == *old(displayable_nether_portal)
            && match *old(displayable_nether_portal) {
            None => r is None && final(all_nether_portals)@ == old(all_nether_portals)@,
            Some((_, shown)) => match nether_portal_from_text(shown@) {
                Ok(np) => r is None && replaced_named(
                    old(all_nether_portals)@,
                    final(all_nether_portals)@,
                    current_netherportal_modal@,
                    np,
                ),
                Err(e) => final(all_nether_portals)@ == old(all_nether_portals)@ && if some_named(
                    old(all_nether_portals)@,
                    current_netherportal_modal@,
                ) {
                    r matches Some(m) && m@ == e
                } else {
                    r is None
                },
            },
        },
{
    let mut error = None;
    if !*modify {
        match make_displayable_netherportal(all_nether_portals, current_netherportal_modal.as_str()) {
            Ok(netherportal_tuple) => *displayable_nether_portal = Some(netherportal_tuple),
            Err(error_string) => error = Some(error_string),
        }
    } else {
        error = save_modified_data(
            all_nether_portals,
            displayable_nether_portal,
            current_netherportal_modal,
        );
    }
    *modify = !*modify;
    error
}

/// The text form of the first portal matching `name` on field "true_name"
/// is what `shown` holds, under that portal's key.
pub open spec fn shows_first_named(
    s: Seq<(Seq<char>, NetherPortal)>,
    shown: Option<(String, StringNetherPortal)>,
    name: Seq<char>,
) -> bool {
    exists|i: int|
        is_first_match(s, i, "true_name"@, name) && (shown matches Some((key, form)) && key@
            == s[i].0 && form@ == nether_portal_text_form(s[i].1@))
}

/// What keeping the edits of the previously selected portal reads back as:
/// `Some` when edits were kept (`modify`) and an edited form is shown.
pub open spec fn kept_edits(
    modify: bool,
    shown: Option<(String, StringNetherPortal)>,
) -> Option<Result<NetherPortalView, Seq<char>>> {
    if modify && shown is Some {
        Some(nether_portal_from_text(shown->Some_0.1@))
    } else {
        None
    }
}

/// What picking portal `choice` does, given whether the user was editing,
/// the portal selected before, and the portals and displayed form before
/// (`all0`, `shown0`) and after (`all1`, `shown1`); `r` is the error shown.
pub open spec fn choice_outcome(
    modify: bool,
    previous_modal: Seq<char>,
    all0: Seq<(Seq<char>, NetherPortal)>,
    all1: Seq<(Seq<char>, NetherPortal)>,
    shown0: Option<(String, StringNetherPortal)>,
    shown1: Option<(String, StringNetherPortal)>,
    choice: Seq<char>,
    r: Option<String>,
) -> bool {
    &&& match kept_edits(modify, shown0) {
        Some(Ok(np)) => replaced_named(all0, all1, previous_modal, np),
        _ => all1 == all0,
    }
    &&& if no_match(all1, "true_name"@, choice) {
        r matches Some(e) && e@ == field_not_found_message() && shown1 == shown0
    } else {
        &&& shows_first_named(all1, shown1, choice)
        &&& match kept_edits(modify, shown0) {
            Some(Err(e)) => if some_named(all0, previous_modal) {
                r matches Some(m) && m@ == e
            } else {
                r is None
            },
            _ => r is None,
        }
    }
}

/// The user picked portal `choice` in the selector. Edits of the portal
/// selected before are kept first (as `store_temporary_user_edits`), then the
/// picked portal's text form is shown. Returns the last error met, if any.
fn nether_portal_chosen(
    modify: bool,
    previous_modal: &String,
    all_nether_portals: &mut Keyed<NetherPortal>,
    displayable_nether_portal: &mut Option<(String, StringNetherPortal)>,
    choice: &str,
) -> (r: Option<String>)
    ensures
        choice_outcome(
            modify,
            previous_modal@,
            old(all_nether_portals)@,
            final(all_nether_portals)@,
            *old(displayable_nether_portal),
            *final(displayable_nether_portal),
            choice@,
            r,
        ),
{
    proof {
        lemma_field_names();
    }
    let mut error = keep_edits(
        modify,
        previous_modal,
        all_nether_portals,
        displayable_nether_portal,
    );
    match make_displayable_netherportal(all_nether_portals, choice) {
        Ok(string_netherportal_tuple) => {
            *displayable_nether_portal = Some(string_netherportal_tuple);
        },
        Err(error_string) => error = Some(error_string),
    }
    error
}

/// Readies the portal the user built for sending: it gets the user's name
/// and the id "0", and is read back from its text form. A text that does not
/// read back gives its parse error followed by " special".
pub fn nether_portal_to_add(
    building_a_nether_portal: &mut StringNetherPortal,
    username: &String,
) -> (r: Result<NetherPortal, String>)
    ensures
        final(building_a_nether_portal)@ == (StringNetherPortalView {
            username: username@,
            id: int_to_decimal(0),
            ..old(building_a_nether_portal)@
        }),
        match nether_portal_from_text(final(building_a_nether_portal)@) {
            Ok(np) => r matches Ok(p) && p@ == np,
            Err(e) => r matches Err(m) && m@ == e + " special"@,
        },
{
    building_a_nether_portal.username = username.clone();
    building_a_nether_portal.id = i32_to_text(0);
    match NetherPortal::convert(building_a_nether_portal) {
        Ok(np) => Ok(np),
        Err(err) => Err(concat2(err.as_str(), " special")),
    }
}


/// `std::sync::Mutex`, carried through unread: the library never looks inside.
#[verifier::external_type_specification]
#[verifier::external_body]
#[verifier::reject_recursive_types(T)]
pub struct ExMutex<T: ?Sized>(std::sync::Mutex<T>);


/// One frame of the nether portal selector, `clicked` telling which portal
/// name (by position in the list) the user clicked, if any. The current
/// selection is first remembered as the previous one; a click then selects
/// that name and acts as `choice_outcome` says. Returns the error to show.
pub fn modal_machine_for_nether_portals<I>(
    some_nether_portal_information: &mut NewNetherPortalInformation<I>,
    clicked: Option<usize>,
) -> (r: Option<String>)
    ensures
        ({
            let before = *old(some_nether_portal_information);
            let after = *final(some_nether_portal_information);
            let list = before.modal_information.modal_list@;
            &&& same_besides_selection(after, before)
            &&& after.modal_information.previous_modal == before.modal_information.modal
            &&& after.modal_information.modal_list == before.modal_information.modal_list
            &&& after.modal_information.image_modal == before.modal_information.image_modal
            &&& after.modal_information.deletion_modal == before.modal_information.deletion_modal
            &&& match clicked {
                Some(i) if i < list.len() => after.modal_information.modal@ == list[i as int]@
                    && choice_outcome(
                    before.modify,
                    before.modal_information.modal@,
                    before.all_nether_portals@,
                    after.all_nether_portals@,
                    before.displayable_nether_portal,
                    after.displayable_nether_portal,
                    list[i as int]@,
                    r,
                ),
                _ => {
                    &&& after.modal_information.modal@ == before.modal_information.modal@
                    &&& after.all_nether_portals@ == before.all_nether_portals@
                    &&& after.displayable_nether_portal == before.displayable_nether_portal
                    &&& r is None
                },
            }
        }),
{
    let info = some_nether_portal_information;
    info.modal_information.previous_modal = info.modal_information.modal.clone();
    let tooth = modal_machine(
        &mut info.modal_information.modal,
        &ModalMachineGear::Immutable(&info.modal_information.modal_list),
        clicked,
    );
    match tooth {
        Some(some_option) => nether_portal_chosen(
            info.modify,
            &info.modal_information.previous_modal,
            &mut info.all_nether_portals,
            &mut info.displayable_nether_portal,
            some_option.as_str(),
        ),
        None => None,
    }
}

/// `Mutex::new`: a lock around `value`. The library never reads what a lock holds.
#[verifier::external_body]
fn new_mutex<T>(value: T) -> std::sync::Mutex<T> {
    std::sync::Mutex::new(value)
}

/// Everything the nether portal page holds: the selector, the portals (as
/// edited and as last saved), the image tables shared with the loading
/// threads, the form shown to the user, and the page's windows.
#[verifier::reject_recursive_types(I)]
pub struct NewNetherPortalInformation<I> {
    pub modal_information: NewNetherPortalModal,
    pub all_nether_portals: Keyed<NetherPortal>,
    pub all_nether_portal_images: std::sync::Arc<std::sync::Mutex<Keyed<StateOfImages<I>>>>,
    pub displayable_nether_portal: Option<(String, StringNetherPortal)>,
    pub copy_of_nether_portals: Keyed<NetherPortal>,
    pub nether_portal_deletion_wheel: Option<DeletionQueue>,
    pub image_deletion_window: GenericWindow,
    pub building_a_nether_portal: std::sync::Arc<std::sync::Mutex<(StringNetherPortal, bool)>>,
    pub actual_nether_portal_deletion: Keyed<bool>,
    pub actual_nether_portal_generic_window: GenericWindow,
    pub modify: bool,
}

/// The two states agree on everything but the portals, the displayed form
/// and the selector.
pub open spec fn same_besides_selection<I>(
    a: NewNetherPortalInformation<I>,
    b: NewNetherPortalInformation<I>,
) -> bool {
    &&& a.all_nether_portal_images == b.all_nether_portal_images
    &&& a.copy_of_nether_portals == b.copy_of_nether_portals
    &&& a.nether_portal_deletion_wheel == b.nether_portal_deletion_wheel
    &&& a.image_deletion_window == b.image_deletion_window
    &&& a.building_a_nether_portal == b.building_a_nether_portal
    &&& a.actual_nether_portal_deletion == b.actual_nether_portal_deletion
    &&& a.actual_nether_portal_generic_window == b.actual_nether_portal_generic_window
    &&& a.modify == b.modify
}

/// The two states agree on everything but the portals and the displayed form.
pub open spec fn same_besides_portals<I>(
    a: NewNetherPortalInformation<I>,
    b: NewNetherPortalInformation<I>,
) -> bool {
    &&& same_besides_selection(a, b)
    &&& a.modal_information == b.modal_information
}

impl<I> NewNetherPortalInformation<I> {
    /// An empty page: no portals, no images, nothing selected, not editing.
    pub fn default() -> (r: Self)
        ensures
            r.all_nether_portals@.len() == 0,
            r.copy_of_nether_portals@.len() == 0,
            r.actual_nether_portal_deletion@.len() == 0,
            r.displayable_nether_portal is None,
            r.nether_portal_deletion_wheel is None,
            !r.modify,
            r.modal_information.modal@ == Seq::<char>::empty(),
            r.modal_information.previous_modal@ == Seq::<char>::empty(),
            r.modal_information.image_modal@ == Seq::<char>::empty(),
            r.modal_information.deletion_modal@ == Seq::<char>::empty(),
            r.modal_information.modal_list@.len() == 0,
            r.all_nether_portals.wf(),
            r.copy_of_nether_portals.wf(),
            r.actual_nether_portal_deletion.wf(),
            !r.image_deletion_window.is_window_open,
            !r.image_deletion_window.try_to_open_window,
            !r.actual_nether_portal_generic_window.is_window_open,
            !r.actual_nether_portal_generic_window.try_to_open_window,
    {
        NewNetherPortalInformation {
            modal_information: NewNetherPortalModal::default(),
            all_nether_portals: Keyed::new(),
            all_nether_portal_images: std::sync::Arc::new(new_mutex(Keyed::new())),
            displayable_nether_portal: None,
            copy_of_nether_portals: Keyed::new(),
            nether_portal_deletion_wheel: None,
            image_deletion_window: GenericWindow::default(),
            building_a_nether_portal: std::sync::Arc::new(
                new_mutex((StringNetherPortal::default(), false)),
            ),
            actual_nether_portal_deletion: Keyed::new(),
            actual_nether_portal_generic_window: GenericWindow::default(),
            modify: false,
        }
    }
}

impl<I> NewNetherPortalInformation<I> {
    /// The page as it starts once the portals have arrived: the portals and an
    /// untouched copy of them, a selector offering both true names of every
    /// portal, no images, nothing shown or picked, every window closed, not
    /// editing.
    pub fn from_portals(nether_portals: Keyed<NetherPortal>) -> (r: Self)
        ensures
            r.all_nether_portals@ == nether_portals@,
            r.copy_of_nether_portals@ == nether_portals@,
            r.modal_information.modal_list@.map_values(|s: String| s@) == true_names_of(
                nether_portals@,
            ),
            r.modal_information.modal@ == Seq::<char>::empty(),
            r.modal_information.previous_modal@ == Seq::<char>::empty(),
            r.modal_information.image_modal@ == Seq::<char>::empty(),
            r.modal_information.deletion_modal@ == Seq::<char>::empty(),
            r.displayable_nether_portal is None,
            r.nether_portal_deletion_wheel is None,
            r.actual_nether_portal_deletion@.len() == 0,
            r.actual_nether_portal_deletion.wf(),
            !r.image_deletion_window.is_window_open,
            !r.image_deletion_window.try_to_open_window,
            !r.actual_nether_portal_generic_window.is_window_open,
            !r.actual_nether_portal_generic_window.try_to_open_window,
            !r.modify,
    {
        let modal_information = build_nether_portals_modal(&nether_portals);
        let copy = nether_portals.copy();
        NewNetherPortalInformation {
            modal_information,
            all_nether_portals: nether_portals,
            all_nether_portal_images: std::sync::Arc::new(new_mutex(Keyed::new())),
            displayable_nether_portal: None,
            copy_of_nether_portals: copy,
            nether_portal_deletion_wheel: None,
            image_deletion_window: GenericWindow::default(),
            building_a_nether_portal: std::sync::Arc::new(
                new_mutex((StringNetherPortal::default(), false)),
            ),
            actual_nether_portal_deletion: Keyed::new(),
            actual_nether_portal_generic_window: GenericWindow::default(),
            modify: false,
        }
    }
}

/// The page selector's choice, and the list of portal names shared with the
/// thread that fetches them.
pub struct NetherPortalModal {
    pub modal: String,
    pub modal_list: std::sync::Arc<std::sync::Mutex<Option<Vec<String>>>>,
}

} // verus!
