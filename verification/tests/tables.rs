use borkcraftclient::images::{
    ImageAndDetails, ImageDetails, ImageTableStep, StateOfImages, add_local_image,
    deletion_error_message, finish_deletion, image_table_step, images_to_delete,
    image_name_from_reply, image_saved, is_acceptable_image_type, local_image_details, make_partial_gear, unsaved_images,
};
use borkcraftclient::keyed::Keyed;
use borkcraftclient::windows::{DeletionQueue, GenericWindow, Victim, WindowMessage};

#[test]
fn keyed_insert_get_remove() {
    let mut t: Keyed<i32> = Keyed::new();
    assert_eq!(t.insert("a".to_string(), 1), None);
    assert_eq!(t.insert("b".to_string(), 2), None);
    assert_eq!(t.insert("a".to_string(), 3), Some(1));
    assert_eq!(t.len(), 2);
    assert_eq!(t.get("a"), Some(&3));
    assert_eq!(t.get("b"), Some(&2));
    assert_eq!(t.key_at(0), "a");
    assert_eq!(t.keys(), vec!["a".to_string(), "b".to_string()]);
    assert!(t.contains_key("b"));
    assert_eq!(t.remove("a"), Some(3));
    assert_eq!(t.get("a"), None);
    assert_eq!(t.remove("a"), None);
    *t.get_mut("b").unwrap() = 20;
    assert_eq!(t.value_at(0), &20);
    assert_eq!(t.find("zzz"), None);
}

#[test]
fn keyed_extend_overwrites_in_place() {
    let mut t: Keyed<i32> = Keyed::new();
    t.insert("a".to_string(), 1);
    t.insert("b".to_string(), 2);
    let mut u: Keyed<i32> = Keyed::new();
    u.insert("b".to_string(), 20);
    u.insert("c".to_string(), 30);
    t.extend(u);
    assert_eq!(t.keys(), vec!["a", "b", "c"]);
    assert_eq!(t.get("b"), Some(&20));
    assert_eq!(t.get("c"), Some(&30));
}

fn details(name: &str) -> ImageDetails {
    ImageDetails {
        id: 1,
        name: name.to_string(),
        true_name: "Spawn".to_string(),
        username: "Alex".to_string(),
        local_image: None,
    }
}

fn images(names: &[&str]) -> Keyed<ImageAndDetails<u8>> {
    let mut t = Keyed::new();
    for (i, n) in names.iter().enumerate() {
        t.insert(n.to_string(), ImageAndDetails { image: i as u8, image_details: details(n) });
    }
    t
}

fn portal_images(names: &[&str]) -> Keyed<StateOfImages<u8>> {
    let mut all = Keyed::new();
    all.insert("Spawn".to_string(), StateOfImages::HashMap(images(names)));
    all.insert("Village".to_string(), StateOfImages::BeingBuilt);
    all
}

#[test]
fn gear_is_the_keys() {
    assert_eq!(make_partial_gear(&images(&["x.png", "y.png"])), vec!["x.png", "y.png"]);
}

#[test]
fn deletion_queue_build_and_update() {
    let all = portal_images(&["a.png", "b.png"]);
    let q = DeletionQueue::build_deletion_queue(&all, &"Spawn".to_string());
    assert_eq!(q.iter().map(|v| v.name.as_str()).collect::<Vec<_>>(), vec!["a.png", "b.png"]);
    assert!(q.iter().all(|v| !v.staged));
    assert!(DeletionQueue::build_deletion_queue(&all, &"Village".to_string()).is_empty());
    assert!(DeletionQueue::build_deletion_queue(&all, &"Nowhere".to_string()).is_empty());

    let mut dq = DeletionQueue::default();
    assert_eq!(dq.update_deletion_queue(&all, &"Spawn".to_string()), None);
    dq.queue = Some(vec![Victim { name: "b.png".to_string(), staged: true }]);
    assert_eq!(dq.update_deletion_queue(&all, &"Spawn".to_string()), Some(()));
    let queue = dq.queue.clone_names();
    assert_eq!(queue, vec![("b.png".to_string(), true), ("a.png".to_string(), false)]);
}

trait Names {
    fn clone_names(&self) -> Vec<(String, bool)>;
}

impl Names for Option<Vec<Victim>> {
    fn clone_names(&self) -> Vec<(String, bool)> {
        self.as_ref().unwrap().iter().map(|v| (v.name.clone(), v.staged)).collect()
    }
}

#[test]
fn deletion_window_button() {
    let all = portal_images(&["a.png"]);
    let mut dq = DeletionQueue::default();
    assert!(!DeletionQueue::open_window_on_click(false, &mut dq, &all, &"Spawn".to_string()));
    assert!(!dq.is_window_open);
    assert!(!DeletionQueue::open_window_on_click(true, &mut dq, &all, &"Spawn".to_string()));
    assert!(dq.is_window_open);
    assert!(!dq.try_to_open_window);
    dq.toggle_staged(0);
    assert_eq!(dq.queue.clone_names(), vec![("a.png".to_string(), true)]);
    dq.toggle_staged(7);
    assert_eq!(dq.queue.clone_names(), vec![("a.png".to_string(), true)]);
}

#[test]
fn images_staged_for_deletion() {
    let all = portal_images(&["a.png", "b.png", "c.png"]);
    let mut dq = DeletionQueue::default();
    dq.queue = Some(vec![
        Victim { name: "c.png".to_string(), staged: true },
        Victim { name: "a.png".to_string(), staged: false },
        Victim { name: "gone.png".to_string(), staged: true },
        Victim { name: "b.png".to_string(), staged: true },
    ]);
    let doomed = images_to_delete(&Some(dq), &all, &"Spawn".to_string()).unwrap();
    assert_eq!(doomed, vec![details("c.png"), details("b.png")]);
}

#[test]
fn images_to_delete_errors_in_order() {
    let all = portal_images(&["a.png"]);
    assert_eq!(
        images_to_delete(&None, &all, &"Nowhere".to_string()).unwrap_err(),
        "failed to get value with key -> |Nowhere|"
    );
    assert_eq!(images_to_delete(&None, &all, &"Village".to_string()).unwrap_err(), "hashmap_mut failed");
    assert_eq!(
        images_to_delete(&None, &all, &"Spawn".to_string()).unwrap_err(),
        "No deletion_queue in Option<DeletionQueue>"
    );
    assert_eq!(
        images_to_delete(&Some(DeletionQueue::default()), &all, &"Spawn".to_string()).unwrap_err(),
        "no queue in deletion_queue"
    );
}

#[test]
fn deletion_reports() {
    assert_eq!(finish_deletion(vec![]), Ok(()));
    assert_eq!(finish_deletion(vec!["x".to_string()]), Err(vec!["x".to_string()]));
    let message = deletion_error_message(&vec!["one".to_string(), "two".to_string()]);
    assert_eq!(message, "error: -> |one|\nerror: -> |two|\n");
    assert_eq!(deletion_error_message(&vec![]), "");
}

#[test]
fn image_area_steps() {
    let mut all = portal_images(&["a.png"]);
    all.insert("Fortress".to_string(), StateOfImages::Nothing);
    assert_eq!(image_table_step(&all, &"Spawn".to_string()), ImageTableStep::Show);
    assert_eq!(image_table_step(&all, &"Village".to_string()), ImageTableStep::Wait);
    assert_eq!(image_table_step(&all, &"Fortress".to_string()), ImageTableStep::Fetch);
    assert_eq!(image_table_step(&all, &"Castle".to_string()), ImageTableStep::Register);
    assert_eq!(image_table_step(&all, &"".to_string()), ImageTableStep::Idle);
}

#[test]
fn adding_local_images() {
    assert!(is_acceptable_image_type("png"));
    assert!(is_acceptable_image_type("jpg"));
    assert!(!is_acceptable_image_type("gif"));
    assert!(!is_acceptable_image_type("PNG"));
    let d = local_image_details("cat.png", &"Spawn".to_string(), &"Alex".to_string(), &"/tmp/cat.png".to_string());
    assert_eq!(d.id, -1);
    assert_eq!(d.name, "cat.png");
    assert_eq!(d.local_image, Some("/tmp/cat.png".to_string()));
    let mut t = images(&[]);
    assert!(add_local_image(&mut t, "/tmp/cat.png".to_string(), ImageAndDetails { image: 1, image_details: d.clone() }));
    assert!(!add_local_image(&mut t, "/tmp/cat.png".to_string(), ImageAndDetails { image: 2, image_details: d }));
    assert_eq!(t.len(), 1);
    assert_eq!(t.get("/tmp/cat.png").unwrap().image, 1);
}

#[test]
fn generic_window_toggles() {
    let mut w = GenericWindow::default();
    w.open_window_on_click(true);
    assert!(w.is_window_open);
    w.open_window_on_click(true);
    assert!(!w.is_window_open);
    let mut w = GenericWindow::generic_window();
    w.try_to_open_window = true;
    w.open_window_on_click(false);
    assert!(!w.is_window_open);
    assert!(!w.try_to_open_window);
}

#[test]
fn message_window_button() {
    let mut m = WindowMessage::default();
    assert!(m.open_window_on_click(true));
    assert!(m.try_to_open_window);
    assert!(!m.is_window_open);
    m.message = Some("hello".to_string());
    assert!(!m.open_window_on_click(false));
    assert!(m.is_window_open);
    assert!(!m.try_to_open_window);
    let w = WindowMessage::window_message(Some("hi".to_string()));
    assert!(w.is_window_open && !w.try_to_open_window);
    assert_eq!(w.message, Some("hi".to_string()));
}

#[test]
fn unsaved_images_are_the_local_ones() {
    let mut t = images(&["a.png", "b.png", "c.png"]);
    assert_eq!(unsaved_images(&t), Vec::<usize>::new());
    t.get_mut("b.png").unwrap().image_details.local_image = Some("/tmp/b.png".to_string());
    t.get_mut("c.png").unwrap().image_details.local_image = Some("/tmp/c.png".to_string());
    assert_eq!(unsaved_images(&t), vec![1, 2]);
}

#[test]
fn saving_an_image_clears_its_path() {
    let mut d = details("b.png");
    d.local_image = Some("/tmp/b.png".to_string());
    let r = image_saved(&mut d, Ok(()));
    assert_eq!(r, Ok("The Image was successfully saved: image_name: -> |b.png|".to_string()));
    assert_eq!(d.local_image, None);
    assert_eq!(d.name, "b.png");

    let mut e = details("c.png");
    e.local_image = Some("/tmp/c.png".to_string());
    let r = image_saved(&mut e, Err("refused".to_string()));
    assert_eq!(r, Err("refused".to_string()));
    assert_eq!(e.local_image, Some("/tmp/c.png".to_string()));
}

#[test]
fn image_name_from_the_server_answer() {
    let mut d = details("cat.png");
    d.local_image = Some("/tmp/cat.png".to_string());
    assert!(image_name_from_reply("{\"name\": \"img_0042.png\", \"size\": 3}", &mut d));
    assert_eq!(d.name, "img_0042.png");
    assert_eq!(d.local_image, Some("/tmp/cat.png".to_string()));
    assert_eq!(d.true_name, "Spawn");
    assert!(!image_name_from_reply("{\"id\": 3}", &mut d));
    assert!(!image_name_from_reply("not json", &mut d));
    assert!(!image_name_from_reply("{\"name\": 7}", &mut d));
    assert_eq!(d.name, "img_0042.png");
    assert!(image_name_from_reply("[\"img_0043.png\"]", &mut d));
    assert_eq!(d.name, "img_0043.png");
    assert!(!image_name_from_reply("[\"a.png\", \"b.png\"]", &mut d));
    assert!(!image_name_from_reply("[]", &mut d));
    assert_eq!(d.name, "img_0043.png");
}

#[test]
fn deletion_window_button_refreshes_the_queue() {
    let all = portal_images(&["a.png", "b.png"]);
    let mut dq = DeletionQueue::default();
    dq.queue = Some(vec![Victim { name: "b.png".to_string(), staged: true }]);
    assert!(!DeletionQueue::open_window_on_click(true, &mut dq, &all, &"Spawn".to_string()));
    assert_eq!(dq.queue.clone_names(), vec![("b.png".to_string(), true), ("a.png".to_string(), false)]);
    let mut fresh = DeletionQueue::default();
    DeletionQueue::open_window_on_click(true, &mut fresh, &all, &"Spawn".to_string());
    assert_eq!(fresh.queue.clone_names(), vec![("a.png".to_string(), false), ("b.png".to_string(), false)]);
}
