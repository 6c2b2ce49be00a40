use borkcraftclient::portals::{NetherPortal, Portal, PortalValue, StringNetherPortal, StringPortal};

fn sample_portal(x: i32, y: i32, z: i32, name: &str) -> Portal {
    Portal {
        xcord: x,
        ycord: y,
        zcord: z,
        locale: "Forest".to_string(),
        owner: "Steve".to_string(),
        notes: "by the lake".to_string(),
        true_name: name.to_string(),
    }
}

fn sample_nether_portal() -> NetherPortal {
    NetherPortal {
        id: 42,
        overworld: sample_portal(800, 64, -1200, "Lake Gate"),
        nether: sample_portal(100, 32, -150, "Lake Gate Nether"),
        username: "Steve".to_string(),
    }
}

#[test]
fn string_portal_default_is_empty() {
    let sp = StringPortal::default();
    assert_eq!(sp.xcord, "");
    assert_eq!(sp.true_name, "");
}

#[test]
fn string_portal_get_ref_reaches_swapped_coordinates() {
    let mut sp = StringPortal::default();
    sp.xcord = "1".to_string();
    sp.ycord = "2".to_string();
    sp.zcord = "3".to_string();
    assert_eq!(sp.get_ref("xcord").unwrap(), "1");
    assert_eq!(sp.get_ref("ycord").unwrap(), "3");
    assert_eq!(sp.get_ref("zcord").unwrap(), "2");
    assert_eq!(sp.get_clone("ycord").unwrap(), "3");
}

#[test]
fn string_portal_unknown_member() {
    let sp = StringPortal::default();
    assert_eq!(sp.get_ref("height"), Err("This struct member: |height| does not exist".to_string()));
    assert_eq!(sp.get_clone("").unwrap_err(), "This struct member: || does not exist");
}

#[test]
fn string_portal_write_then_read() {
    let mut sp = StringPortal::default();
    *sp.get_mut("notes").unwrap() = "cold".to_string();
    *sp.get_mut("ycord").unwrap() = "70".to_string();
    assert_eq!(sp.get_clone("notes").unwrap(), "cold");
    assert_eq!(sp.get_clone("ycord").unwrap(), "70");
    assert_eq!(sp.zcord, "70");
    assert_eq!(sp.ycord, "");
    let mut copy = sp.clone();
    assert!(copy.get_mut("depth").is_err());
    assert_eq!(copy, sp);
}

#[test]
fn portal_get_reads_numbers_and_text() {
    let p = sample_portal(1, 2, 3, "Gate");
    assert_eq!(p.get("xcord").unwrap().to_string(), "1");
    assert_eq!(p.get("ycord").unwrap().to_string(), "3");
    assert_eq!(p.get("zcord").unwrap().to_string(), "2");
    assert_eq!(p.get("true_name").unwrap().to_string(), "Gate");
    assert!(matches!(p.get("locale"), Ok(PortalValue::Text(_))));
    assert_eq!(p.get("name").unwrap_err(), "This struct member: |name| does not exist");
}

#[test]
fn portal_value_to_string_negative_number() {
    let n = -1200;
    assert_eq!(PortalValue::Number(&n).to_string(), "-1200");
    let t = "x y".to_string();
    assert_eq!(PortalValue::Text(&t).to_string(), "x y");
}

#[test]
fn portal_save_parses_numbers() {
    let mut p = Portal::default();
    assert_eq!(Portal::save(p.get_mut("xcord").unwrap(), "-17".to_string()), Ok(()));
    assert_eq!(Portal::save(p.get_mut("ycord").unwrap(), "+5".to_string()), Ok(()));
    assert_eq!(Portal::save(p.get_mut("owner").unwrap(), "Alex".to_string()), Ok(()));
    assert_eq!(p.xcord, -17);
    assert_eq!(p.zcord, 5);
    assert_eq!(p.ycord, 0);
    assert_eq!(p.owner, "Alex");
}

#[test]
fn portal_save_rejects_bad_numbers() {
    let mut p = Portal::default();
    p.xcord = 9;
    let err = Portal::save(p.get_mut("xcord").unwrap(), "nine".to_string()).unwrap_err();
    assert_eq!(err, "nine".parse::<i32>().unwrap_err().to_string());
    assert_eq!(p.xcord, 9);
    let err = Portal::save(p.get_mut("xcord").unwrap(), "".to_string()).unwrap_err();
    assert_eq!(err, "".parse::<i32>().unwrap_err().to_string());
    let err = Portal::save(p.get_mut("xcord").unwrap(), "2147483648".to_string()).unwrap_err();
    assert_eq!(err, "2147483648".parse::<i32>().unwrap_err().to_string());
    assert_eq!(p.xcord, 9);
}

#[test]
fn portal_save_refuses_read_only_values() {
    let p = sample_portal(5, 6, 7, "Gate \"One\"");
    let pv = p.get("xcord").unwrap();
    let expected = format!("Cannot mutate: |{:?}| type PortalValue", pv);
    assert_eq!(Portal::save(pv, "1".to_string()).unwrap_err(), expected);
    assert_eq!(expected, "Cannot mutate: |Number(5)| type PortalValue");
    let pv = p.get("true_name").unwrap();
    let expected = format!("Cannot mutate: |{:?}| type PortalValue", pv);
    assert_eq!(Portal::save(pv, "1".to_string()).unwrap_err(), expected);
}

#[test]
fn sides_by_name() {
    let mut np = sample_nether_portal();
    assert_eq!(np.im_lazy_cloned("Nether").unwrap(), np.nether);
    assert_eq!(np.im_lazy_cloned("OverWorld").unwrap(), np.overworld);
    let err = np.im_lazy_cloned("End").unwrap_err();
    assert_eq!(
        err,
        "You have personally summoned `Special Magus Faries` for violating the contract of our forefathers...!"
    );
    np.get_mut_ref("Nether").unwrap().xcord = 3;
    assert_eq!(np.nether.xcord, 3);
    assert!(np.get_mut_ref("nether").is_err());

    let mut snp = StringNetherPortal::default();
    snp.get_mut_ref("OverWorld").unwrap().owner = "Alex".to_string();
    assert_eq!(snp.get("OverWorld").unwrap().owner, "Alex");
    assert_eq!(snp.get("Nether").unwrap().owner, "");
    assert!(snp.get("Overworld").is_err());
}

#[test]
fn text_form_of_a_portal() {
    let snp = StringNetherPortal::convert(sample_nether_portal()).unwrap();
    assert_eq!(snp.id, "42");
    assert_eq!(snp.overworld.xcord, "800");
    assert_eq!(snp.overworld.ycord, "64");
    assert_eq!(snp.overworld.zcord, "-1200");
    assert_eq!(snp.nether.true_name, "Lake Gate Nether");
    assert_eq!(snp.username, "Steve");
}

#[test]
fn text_form_round_trip() {
    let np = sample_nether_portal();
    let snp = StringNetherPortal::convert(np.clone()).unwrap();
    assert_eq!(NetherPortal::convert(&snp).unwrap(), np);
    let extreme = NetherPortal {
        id: i32::MIN,
        overworld: sample_portal(i32::MAX, 0, -1, ""),
        nether: sample_portal(i32::MIN, 10, 100, "n"),
        username: String::new(),
    };
    let snp = StringNetherPortal::convert(extreme.clone()).unwrap();
    assert_eq!(NetherPortal::convert(&snp).unwrap(), extreme);
}

#[test]
fn reading_back_reports_the_first_bad_field() {
    let mut snp = StringNetherPortal::convert(sample_nether_portal()).unwrap();
    snp.id = "x".to_string();
    snp.overworld.ycord = "high".to_string();
    snp.nether.ycord = "".to_string();
    // "zcord" reaches the ycord texts; the nether one is read first.
    assert_eq!(NetherPortal::convert(&snp).unwrap_err(), "".parse::<i32>().unwrap_err().to_string());
    snp.nether.ycord = "1".to_string();
    assert_eq!(NetherPortal::convert(&snp).unwrap_err(), "high".parse::<i32>().unwrap_err().to_string());
    snp.overworld.ycord = "2".to_string();
    assert_eq!(NetherPortal::convert(&snp).unwrap_err(), "x".parse::<i32>().unwrap_err().to_string());
    snp.id = "007".to_string();
    let np = NetherPortal::convert(&snp).unwrap();
    assert_eq!(np.id, 7);
    assert_eq!(np.nether.ycord, 1);
    assert_eq!(np.overworld.ycord, 2);
}
