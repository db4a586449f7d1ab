use egui_wgpu::record::WindowSettings;
use egui_wgpu::storage::FileStorage;

#[test]
fn fresh_store_is_empty_and_clean() {
    let mut s = FileStorage::from_path(String::from("state.json"));
    assert_eq!(s.get_string("egui"), None);
    assert_eq!(s.save(), None);
}

#[test]
fn set_then_get_returns_the_value() {
    let mut s = FileStorage::from_path(String::from("state.json"));
    s.set_string("egui", String::from("memory-blob"));
    s.set_string("window", String::from("geometry"));
    assert_eq!(s.get_string("egui"), Some("memory-blob"));
    assert_eq!(s.get_string("window"), Some("geometry"));
    assert_eq!(s.get_string("other"), None);
}

#[test]
fn overwriting_replaces_the_value() {
    let mut s = FileStorage::from_path(String::from("state.json"));
    s.set_string("k", String::from("v1"));
    s.set_string("k", String::from("v2"));
    assert_eq!(s.get_string("k"), Some("v2"));
}

#[test]
fn save_only_when_dirty() {
    let mut s = FileStorage::from_path(String::from("state.json"));
    s.set_string("k", String::from("v"));
    assert!(s.save().is_some());
    // Clean after a save: nothing to write.
    assert_eq!(s.save(), None);
    // Storing the same value again does not dirty the store.
    s.set_string("k", String::from("v"));
    assert_eq!(s.save(), None);
    // A different value does.
    s.set_string("k", String::from("w"));
    assert!(s.save().is_some());
}

#[test]
fn saved_text_loads_back_to_the_same_entries() {
    let mut s = FileStorage::from_path(String::from("state.json"));
    s.set_string("egui", String::from("{\"areas\":[]}"));
    s.set_string("window", String::from("pos=none;size=none"));
    let text = s.save().expect("dirty store must yield text");
    let mut reloaded = FileStorage::from_path(String::from("state.json"));
    assert!(reloaded.load_json_text(&text));
    assert_eq!(reloaded.get_string("egui"), Some("{\"areas\":[]}"));
    assert_eq!(reloaded.get_string("window"), Some("pos=none;size=none"));
}

#[test]
fn load_parses_external_json_objects() {
    let mut s = FileStorage::from_path(String::from("state.json"));
    assert!(s.load_json_text("{\"a\":\"b\",\"c\":\"d\"}"));
    assert_eq!(s.get_string("a"), Some("b"));
    assert_eq!(s.get_string("c"), Some("d"));
}

#[test]
fn load_rejects_damaged_text_and_keeps_defaults() {
    let mut s = FileStorage::from_path(String::from("state.json"));
    assert!(!s.load_json_text("not json at all"));
    assert!(!s.load_json_text("{\"a\": 3}"));
    assert_eq!(s.get_string("a"), None);
}

#[test]
fn window_settings_round_trip() {
    // Captured from a window at outer position (100, 200) with inner size
    // (800, 600); serialized and reloaded, it reproduces both.
    let ws = WindowSettings::from_display(Some((100, 200)), (800, 600));
    let record = ws.to_record();
    let reloaded = WindowSettings::from_record(&record).expect("own record must parse");
    assert_eq!(reloaded, ws);
    assert_eq!(reloaded.initialize_size(), Some((800, 600)));
    assert_eq!(reloaded.restore_positions(), Some((100, 200)));
}

#[test]
fn window_settings_round_trip_without_position() {
    let ws = WindowSettings { pos: None, size: Some((1024, 768)) };
    let reloaded = WindowSettings::from_record(&ws.to_record()).unwrap();
    assert_eq!(reloaded, ws);
}

#[test]
fn window_settings_round_trip_negative_position() {
    let ws = WindowSettings::from_display(Some((-5, -7)), (640, 480));
    let reloaded = WindowSettings::from_record(&ws.to_record()).unwrap();
    assert_eq!(reloaded, ws);
}

#[test]
fn window_settings_record_is_stable() {
    let ws = WindowSettings::from_display(Some((100, 200)), (800, 600));
    assert_eq!(ws.to_record(), "pos=00000064000000c8;size=0000032000000258");
    let none = WindowSettings { pos: None, size: None };
    assert_eq!(none.to_record(), "pos=none;size=none");
}

#[test]
fn window_settings_rejects_damaged_records() {
    assert_eq!(WindowSettings::from_record(""), None);
    assert_eq!(WindowSettings::from_record("pos=none;size="), None);
    assert_eq!(WindowSettings::from_record("pos=00000064;size=none"), None);
    assert_eq!(WindowSettings::from_record("pos=none;size=none "), None);
    assert_eq!(WindowSettings::from_record("pos=nonsense;size=none"), None);
    assert_eq!(
        WindowSettings::from_record("pos=00000064000000c8;size=00000320000002xx"),
        None
    );
}

#[test]
fn stored_window_record_survives_the_store() {
    // The two layers together: the geometry record stored under its key,
    // the store serialized and reloaded, the record decoded again.
    let ws = WindowSettings::from_display(Some((100, 200)), (800, 600));
    let mut s = FileStorage::from_path(String::from("state.json"));
    s.set_string("window", ws.to_record());
    let text = s.save().unwrap();
    let mut reloaded = FileStorage::from_path(String::from("state.json"));
    assert!(reloaded.load_json_text(&text));
    let record = reloaded.get_string("window").expect("record must survive");
    assert_eq!(WindowSettings::from_record(record), Some(ws));
}
