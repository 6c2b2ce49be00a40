use borkcraftclient::keyed::Keyed;
use borkcraftclient::pages::{
    NewNetherPortalInformation, _get_related_nether_portal, build_nether_portals_modal,
    do_you_have_access_rights, get_mut_ref_by_field, get_netherportal_to_save, get_ref_by_field,
    list_nether_portals_for_deletion, make_displayable_netherportal, modal_machine_for_nether_portals,
    modify_button_pressed, modify_button_shown, nether_portal_to_add,
    reinitialize_copy_of_netherportal, reset_nether_portal, save_modified_data,
    store_temporary_user_edits,
};
use borkcraftclient::portals::{NetherPortal, Portal, StringNetherPortal};
use borkcraftclient::sessions::SessionInformation;

fn portal(x: i32, name: &str) -> Portal {
    Portal {
        xcord: x,
        ycord: 64,
        zcord: -x,
        locale: "Plains".to_string(),
        owner: "Alex".to_string(),
        notes: String::new(),
        true_name: name.to_string(),
    }
}

fn nether_portal(id: i32, name: &str) -> NetherPortal {
    NetherPortal {
        id,
        overworld: portal(id * 8, name),
        nether: portal(id, &format!("{} N", name)),
        username: "Alex".to_string(),
    }
}

fn table() -> Keyed<NetherPortal> {
    let mut t = Keyed::new();
    t.insert("1".to_string(), nether_portal(1, "Spawn"));
    t.insert("2".to_string(), nether_portal(2, "Village"));
    t.insert("3".to_string(), nether_portal(3, "Fortress"));
    t
}

#[test]
fn find_by_true_name_on_either_side() {
    let t = table();
    let (key, np) = get_ref_by_field(&t, "true_name", "Village").unwrap();
    assert_eq!(key, "2");
    assert_eq!(np.id, 2);
    let (key, _) = get_ref_by_field(&t, "true_name", "Fortress N").unwrap();
    assert_eq!(key, "3");
}

#[test]
fn find_by_coordinate_text() {
    let t = table();
    // "zcord" reaches the ycord field (64 everywhere): the first portal matches.
    let (key, _) = get_ref_by_field(&t, "zcord", "64").unwrap();
    assert_eq!(key, "1");
    // "ycord" reaches the zcord field, which is -x.
    let (key, _) = get_ref_by_field(&t, "ycord", "-16").unwrap();
    assert_eq!(key, "2");
}

#[test]
fn search_errors() {
    let t = table();
    assert_eq!(get_ref_by_field(&t, "true_name", "Nowhere").unwrap_err(), "Field does not exist");
    assert_eq!(
        get_ref_by_field(&t, "colour", "red").unwrap_err(),
        "This struct member: |colour| does not exist"
    );
    let empty: Keyed<NetherPortal> = Keyed::new();
    assert_eq!(get_ref_by_field(&empty, "colour", "red").unwrap_err(), "Field does not exist");
}

#[test]
fn write_through_search() {
    let mut t = table();
    {
        let (key, np) = get_mut_ref_by_field(&mut t, "true_name", "Spawn N").unwrap();
        assert_eq!(key, "1");
        np.username = "Steve".to_string();
    }
    assert_eq!(t.get("1").unwrap().username, "Steve");
    assert_eq!(t.get("2").unwrap().username, "Alex");
}

#[test]
fn displayable_form_and_save_target() {
    let t = table();
    let (key, shown) = make_displayable_netherportal(&t, "Spawn").unwrap();
    assert_eq!(key, "1");
    assert_eq!(shown, StringNetherPortal::convert(nether_portal(1, "Spawn")).unwrap());
    assert_eq!(make_displayable_netherportal(&t, "None").unwrap_err(), "Field does not exist");
    let (key, np) = get_netherportal_to_save(&t, "Village N").unwrap();
    assert_eq!((key.as_str(), np.id), ("2", 2));
}

#[test]
fn reinitialize_copy() {
    let mut copy = table();
    let mut updated = nether_portal(2, "Village");
    updated.overworld.notes = "rebuilt".to_string();
    reinitialize_copy_of_netherportal(updated.clone(), &mut copy).unwrap();
    assert_eq!(copy.get("2").unwrap(), &updated);
    let stranger = nether_portal(9, "Elsewhere");
    assert_eq!(
        reinitialize_copy_of_netherportal(stranger, &mut copy).unwrap_err(),
        "Field does not exist"
    );
}

#[test]
fn save_modified_data_writes_edits_back() {
    let mut t = table();
    let (key, mut shown) = make_displayable_netherportal(&t, "Village").unwrap();
    shown.overworld.xcord = "1000".to_string();
    let mut displayable = Some((key, shown));
    assert_eq!(save_modified_data(&mut t, &mut displayable, &"Village".to_string()), None);
    assert_eq!(t.get("2").unwrap().overworld.xcord, 1000);
    assert_eq!(t.get("1").unwrap(), &nether_portal(1, "Spawn"));
}

#[test]
fn save_modified_data_reports_bad_edits() {
    let mut t = table();
    let (key, mut shown) = make_displayable_netherportal(&t, "Village").unwrap();
    shown.nether.xcord = "ten".to_string();
    let mut displayable = Some((key, shown));
    let err = save_modified_data(&mut t, &mut displayable, &"Village N".to_string());
    assert_eq!(err, Some("ten".parse::<i32>().unwrap_err().to_string()));
    assert_eq!(t.get("2").unwrap(), &nether_portal(2, "Village"));
    // No portal with that name: nothing is written and nothing is reported.
    assert_eq!(save_modified_data(&mut t, &mut displayable, &"Lost".to_string()), None);
    let mut nothing = None;
    assert_eq!(save_modified_data(&mut t, &mut nothing, &"Village".to_string()), None);
}

#[test]
fn unedited_save_keeps_portals() {
    let mut t = table();
    let before = table();
    let shown = make_displayable_netherportal(&t, "Fortress").unwrap();
    let mut displayable = Some(shown);
    assert_eq!(save_modified_data(&mut t, &mut displayable, &"Fortress".to_string()), None);
    for i in 0..t.len() {
        assert_eq!(t.value_at(i), before.value_at(i));
    }
}

fn page() -> NewNetherPortalInformation<()> {
    let mut info: NewNetherPortalInformation<()> = NewNetherPortalInformation::default();
    info.all_nether_portals = table();
    info.copy_of_nether_portals = table();
    info.modal_information = build_nether_portals_modal(&info.all_nether_portals);
    info
}

#[test]
fn selector_lists_both_true_names() {
    let info = page();
    assert_eq!(
        info.modal_information.modal_list,
        vec!["Spawn N", "Spawn", "Village N", "Village", "Fortress N", "Fortress"]
    );
    assert_eq!(info.modal_information.modal, "");
}

#[test]
fn choosing_a_portal_shows_it() {
    let mut info = page();
    assert_eq!(modal_machine_for_nether_portals(&mut info, Some(3)), None);
    assert_eq!(info.modal_information.modal, "Village");
    assert_eq!(info.modal_information.previous_modal, "");
    let (key, shown) = info.displayable_nether_portal.clone().unwrap();
    assert_eq!(key, "2");
    assert_eq!(shown.overworld.true_name, "Village");
    assert_eq!(modal_machine_for_nether_portals(&mut info, None), None);
    assert_eq!(info.modal_information.previous_modal, "Village");
    assert_eq!(modal_machine_for_nether_portals(&mut info, Some(99)), None);
    assert_eq!(info.modal_information.modal, "Village");
}

#[test]
fn choosing_another_portal_keeps_edits() {
    let mut info = page();
    modal_machine_for_nether_portals(&mut info, Some(1));
    info.modify = true;
    info.displayable_nether_portal.as_mut().unwrap().1.overworld.notes = "edited".to_string();
    assert_eq!(modal_machine_for_nether_portals(&mut info, Some(5)), None);
    assert_eq!(info.all_nether_portals.get("1").unwrap().overworld.notes, "edited");
    assert_eq!(info.displayable_nether_portal.as_ref().unwrap().0, "3");
}

#[test]
fn store_edits_only_while_modifying() {
    let mut info = page();
    modal_machine_for_nether_portals(&mut info, Some(1));
    info.modal_information.previous_modal = "Spawn".to_string();
    info.displayable_nether_portal.as_mut().unwrap().1.nether.locale = "Basalt".to_string();
    assert_eq!(store_temporary_user_edits(&mut info), None);
    assert_eq!(info.all_nether_portals.get("1").unwrap().nether.locale, "Plains");
    info.modify = true;
    assert_eq!(store_temporary_user_edits(&mut info), None);
    assert_eq!(info.all_nether_portals.get("1").unwrap().nether.locale, "Basalt");
}

#[test]
fn reset_restores_from_copy() {
    let mut info = page();
    info.all_nether_portals.value_at_mut(1).overworld.owner = "Herobrine".to_string();
    assert_eq!(reset_nether_portal(&mut info, "true_name", "Village"), Ok(()));
    assert_eq!(info.all_nether_portals.get("2").unwrap(), &nether_portal(2, "Village"));
    let (key, shown) = info.displayable_nether_portal.clone().unwrap();
    assert_eq!(key, "2");
    assert_eq!(shown.overworld.owner, "Alex");
    assert_eq!(reset_nether_portal(&mut info, "true_name", "Gone"), Err("Field does not exist".to_string()));
}

#[test]
fn related_portal() {
    let t = table();
    let (key, np) = _get_related_nether_portal(&t, "Fortress N").unwrap();
    assert_eq!(key, "3");
    assert_eq!(np, nether_portal(3, "Fortress"));
    assert!(_get_related_nether_portal(&t, "fortress").is_none());
}

#[test]
fn access_rights_and_modify_button() {
    let mut session = SessionInformation::default();
    session.access_rights = vec!["Spawn".to_string(), "Village".to_string()];
    assert!(do_you_have_access_rights(&session, &"Village".to_string()));
    assert!(!do_you_have_access_rights(&session, &"Fortress".to_string()));
    assert!(modify_button_shown(&session, &"Spawn".to_string()));
    assert!(!modify_button_shown(&session, &"".to_string()));
}

#[test]
fn modify_button_shows_then_saves() {
    let mut t = table();
    let mut modify = false;
    let mut displayable = None;
    assert_eq!(modify_button_pressed(&mut modify, &mut t, &mut displayable, &"Spawn".to_string()), None);
    assert!(modify);
    displayable.as_mut().unwrap().1.overworld.owner = "Steve".to_string();
    assert_eq!(modify_button_pressed(&mut modify, &mut t, &mut displayable, &"Spawn".to_string()), None);
    assert!(!modify);
    assert_eq!(t.get("1").unwrap().overworld.owner, "Steve");
    assert_eq!(
        modify_button_pressed(&mut modify, &mut t, &mut displayable, &"Nope".to_string()),
        Some("Field does not exist".to_string())
    );
    assert!(modify);
}

#[test]
fn new_portal_for_the_server() {
    let mut building = StringNetherPortal::convert(nether_portal(5, "Base")).unwrap();
    building.id = "junk".to_string();
    let np = nether_portal_to_add(&mut building, &"Steve".to_string()).unwrap();
    assert_eq!(np.id, 0);
    assert_eq!(np.username, "Steve");
    assert_eq!(building.id, "0");
    let mut empty = StringNetherPortal::default();
    let err = nether_portal_to_add(&mut empty, &"Steve".to_string()).unwrap_err();
    assert_eq!(err, format!("{} special", "".parse::<i32>().unwrap_err()));
}

#[test]
fn deletion_list_adds_unmarked_names() {
    let mut marks: Keyed<bool> = Keyed::new();
    marks.insert("Spawn".to_string(), true);
    let names = vec!["Spawn".to_string(), "Village".to_string(), "Village".to_string()];
    list_nether_portals_for_deletion(&names, &mut marks);
    assert_eq!(marks.len(), 2);
    assert_eq!(marks.get("Spawn"), Some(&true));
    assert_eq!(marks.get("Village"), Some(&false));
}

#[test]
fn page_from_portals() {
    let info: NewNetherPortalInformation<()> = NewNetherPortalInformation::from_portals(table());
    assert_eq!(info.all_nether_portals.keys(), table().keys());
    assert_eq!(info.copy_of_nether_portals.keys(), table().keys());
    assert_eq!(info.copy_of_nether_portals.value_at(1), table().value_at(1));
    assert_eq!(
        info.modal_information.modal_list,
        vec!["Spawn N", "Spawn", "Village N", "Village", "Fortress N", "Fortress"]
    );
    assert!(info.displayable_nether_portal.is_none());
    assert!(!info.modify);
    assert_eq!(info.actual_nether_portal_deletion.len(), 0);
    let copy = table().copy();
    assert_eq!(copy.value_at(2), table().value_at(2));
}

#[test]
fn empty_page() {
    let info: NewNetherPortalInformation<()> = NewNetherPortalInformation::default();
    assert_eq!(info.modal_information.previous_modal, "");
    assert_eq!(info.modal_information.image_modal, "");
    assert_eq!(info.modal_information.deletion_modal, "");
    assert!(!info.image_deletion_window.is_window_open);
    assert!(!info.actual_nether_portal_generic_window.try_to_open_window);
    assert_eq!(info.all_nether_portals.len(), 0);
}
