use save_store::error::IoFault;
use save_store::listing::list_saves;
use save_store::record::{DirEntry, SaveRecord, SaveSlotInfo, SlotFile};

fn json(text: &str) -> serde_json::Value {
    serde_json::from_str::<serde_json::Value>(text).unwrap()
}

fn record(slot_name: &str, timestamp: u64) -> SaveRecord {
    SaveRecord {
        slot_name: slot_name.to_string(),
        timestamp,
        turn_count: 1,
        location: "Somewhere".to_string(),
        data: json("{\"n\":1}"),
    }
}

fn saved(file_name: &str, slot_name: &str, timestamp: u64) -> DirEntry {
    DirEntry { file_name: file_name.to_string(), file: SlotFile::Record(record(slot_name, timestamp)) }
}

fn timestamps(slots: &[SaveSlotInfo]) -> Vec<u64> {
    slots.iter().map(|slot| slot.timestamp).collect()
}

fn names(slots: &[SaveSlotInfo]) -> Vec<String> {
    slots.iter().map(|slot| slot.name.clone()).collect()
}

#[test]
fn listing_is_most_recent_first() {
    let entries = vec![
        saved("a.json", "a", 100),
        saved("b.json", "b", 300),
        saved("c.json", "c", 200),
    ];
    let slots = list_saves("story", entries);
    assert_eq!(timestamps(&slots), vec![300, 200, 100]);
    assert_eq!(names(&slots), vec!["b", "c", "a"]);
}

#[test]
fn listing_of_nothing_is_empty() {
    assert_eq!(list_saves("story", Vec::new()), Vec::new());
}

#[test]
fn listing_projects_the_record() {
    let entries = vec![DirEntry {
        file_name: "before-grue.json".to_string(),
        file: SlotFile::Record(SaveRecord {
            slot_name: "before-grue".to_string(),
            timestamp: 1000,
            turn_count: 5,
            location: "Cellar".to_string(),
            data: json("{\"room\":\"cellar\"}"),
        }),
    }];
    assert_eq!(
        list_saves("zork1", entries),
        vec![SaveSlotInfo {
            name: "before-grue".to_string(),
            timestamp: 1000,
            turn_count: 5,
            location: "Cellar".to_string(),
            story_id: "zork1".to_string(),
        }]
    );
}

#[test]
fn listing_passes_over_a_corrupt_file() {
    let entries = vec![
        DirEntry {
            file_name: "broken.json".to_string(),
            file: SlotFile::Malformed("expected value at line 1 column 1".to_string()),
        },
        saved("good.json", "good", 7),
    ];
    let slots = list_saves("story", entries);
    assert_eq!(names(&slots), vec!["good"]);
}

#[test]
fn listing_passes_over_an_unreadable_file() {
    let entries = vec![
        saved("good.json", "good", 7),
        DirEntry {
            file_name: "locked.json".to_string(),
            file: SlotFile::Unreadable(IoFault {
                not_found: false,
                detail: "Permission denied (os error 13)".to_string(),
            }),
        },
    ];
    let slots = list_saves("story", entries);
    assert_eq!(names(&slots), vec!["good"]);
}

#[test]
fn listing_leaves_out_the_autosave() {
    let entries = vec![
        saved("__autosave__.json", "looks-like-a-slot", 900),
        saved("real.json", "real", 5),
    ];
    let slots = list_saves("story", entries);
    assert_eq!(names(&slots), vec!["real"]);
}

#[test]
fn listing_leaves_out_files_that_are_not_json() {
    let entries = vec![
        saved("notes.txt", "notes", 3),
        saved(".json", "hidden", 4),
        saved("real.json", "real", 5),
        saved("backup.json.bak", "backup", 6),
    ];
    let slots = list_saves("story", entries);
    assert_eq!(names(&slots), vec!["real"]);
}

#[test]
fn listing_keeps_slots_of_one_time_in_directory_order() {
    let entries = vec![
        saved("a.json", "a", 5),
        saved("b.json", "b", 9),
        saved("c.json", "c", 5),
        saved("d.json", "d", 9),
        saved("e.json", "e", 5),
    ];
    let slots = list_saves("story", entries);
    assert_eq!(names(&slots), vec!["b", "d", "a", "c", "e"]);
}

#[test]
fn listing_goes_by_the_record_not_the_file_name() {
    let entries = vec![saved("a_b.json", "a/b", 1)];
    let slots = list_saves("story", entries);
    assert_eq!(names(&slots), vec!["a/b"]);
}

#[test]
fn listing_orders_the_extremes() {
    let entries = vec![
        saved("zero.json", "zero", 0),
        saved("max.json", "max", u64::MAX),
        saved("mid.json", "mid", 1 << 40),
    ];
    let slots = list_saves("story", entries);
    assert_eq!(timestamps(&slots), vec![u64::MAX, 1 << 40, 0]);
}

#[test]
fn listing_names_the_story_on_every_slot() {
    let entries = vec![saved("a.json", "a", 1), saved("b.json", "b", 2)];
    let slots = list_saves("zork1", entries);
    assert!(slots.iter().all(|slot| slot.story_id == "zork1"));
    assert_eq!(slots.len(), 2);
}
