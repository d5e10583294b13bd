use save_store::error::{ErrorKind, IoFault, SaveError};
use save_store::listing::list_saves;
use save_store::names::{autosave_file_name, slot_file_name};
use save_store::record::{DirEntry, SaveRecord, SaveSlotInfo, SlotFile};
use save_store::store::{
    auto_save, auto_save_outcome, bundle_extension, bundle_filter_name, delete_save,
    encoded_autosave, load_auto_save, open_bundle, parsed_autosave, read_bundle_path,
    restore_game, save_game, save_game_outcome, BundlePick, SlotWrite, TextWrite, WriteFault,
};

fn json(text: &str) -> serde_json::Value {
    serde_json::from_str::<serde_json::Value>(text).unwrap()
}

fn missing() -> IoFault {
    IoFault { not_found: true, detail: "No such file or directory (os error 2)".to_string() }
}

fn denied() -> IoFault {
    IoFault { not_found: false, detail: "Permission denied (os error 13)".to_string() }
}

fn error(kind: ErrorKind, message: &str) -> SaveError {
    SaveError { kind, message: message.to_string() }
}

#[test]
fn save_game_names_the_file_and_wraps_the_state() {
    let write = save_game(
        "before-grue".to_string(),
        json("{\"room\":\"cellar\"}"),
        1000,
        5,
        "Cellar".to_string(),
    );
    assert_eq!(
        write,
        SlotWrite {
            file_name: "before-grue.json".to_string(),
            record: SaveRecord {
                slot_name: "before-grue".to_string(),
                timestamp: 1000,
                turn_count: 5,
                location: "Cellar".to_string(),
                data: json("{\"room\":\"cellar\"}"),
            },
        }
    );
}

#[test]
fn save_game_keeps_the_slot_name_and_sanitizes_the_file_name() {
    let write = save_game("a/b:c".to_string(), json("null"), 0, 0, String::new());
    assert_eq!(write.file_name, "a_b_c.json");
    assert_eq!(write.record.slot_name, "a/b:c");
}

#[test]
fn save_game_outcome_reports_each_failure() {
    assert_eq!(save_game_outcome(Ok(())), Ok(()));
    assert_eq!(
        save_game_outcome(Err(WriteFault::Io(denied()))),
        Err(error(ErrorKind::IoFailure, "Failed to write save: Permission denied (os error 13)"))
    );
    assert_eq!(
        save_game_outcome(Err(WriteFault::Io(missing()))),
        Err(error(
            ErrorKind::IoFailure,
            "Failed to write save: No such file or directory (os error 2)"
        ))
    );
    assert_eq!(
        save_game_outcome(Err(WriteFault::Encode("key must be a string".to_string()))),
        Err(error(ErrorKind::EncodeFailure, "Failed to serialize: key must be a string"))
    );
}

#[test]
fn restore_after_save_returns_the_state() {
    let data = json("{\"room\":\"cellar\",\"lamp\":[1,2,3],\"score\":-4}");
    let write = save_game("slot".to_string(), data.clone(), 12, 3, "Cellar".to_string());
    assert_eq!(write.file_name, slot_file_name("slot"));
    assert_eq!(restore_game(SlotFile::Record(write.record)), Ok(data));
}

#[test]
fn restore_of_a_missing_slot_is_not_found() {
    assert_eq!(
        restore_game(SlotFile::Unreadable(missing())),
        Err(error(
            ErrorKind::NotFound,
            "Failed to read save: No such file or directory (os error 2)"
        ))
    );
}

#[test]
fn restore_of_an_unreadable_slot_is_an_io_failure() {
    assert_eq!(
        restore_game(SlotFile::Unreadable(denied())),
        Err(error(ErrorKind::IoFailure, "Failed to read save: Permission denied (os error 13)"))
    );
}

#[test]
fn restore_of_a_corrupt_slot_is_a_parse_failure() {
    assert_eq!(
        restore_game(SlotFile::Malformed("missing field `data` at line 1 column 2".to_string())),
        Err(error(
            ErrorKind::ParseFailure,
            "Failed to parse save: missing field `data` at line 1 column 2"
        ))
    );
}

#[test]
fn delete_reports_what_removing_gave() {
    assert_eq!(delete_save(Ok(())), Ok(()));
    assert_eq!(
        delete_save(Err(missing())),
        Err(error(
            ErrorKind::NotFound,
            "Failed to delete save: No such file or directory (os error 2)"
        ))
    );
    assert_eq!(
        delete_save(Err(denied())),
        Err(error(ErrorKind::IoFailure, "Failed to delete save: Permission denied (os error 13)"))
    );
}

#[test]
fn auto_save_writes_compact_json_without_a_record() {
    let write = auto_save(&json("{ \"room\" : \"cellar\" }"));
    assert_eq!(
        write,
        Ok(TextWrite {
            file_name: "__autosave__.json".to_string(),
            contents: "{\"room\":\"cellar\"}".to_string(),
        })
    );
}

#[test]
fn auto_save_writes_any_value() {
    assert_eq!(auto_save(&json("null")).unwrap().contents, "null");
    assert_eq!(auto_save(&json("[1, 2, {\"a\": true}]")).unwrap().contents, "[1,2,{\"a\":true}]");
    assert_eq!(auto_save(&json("\"text\"")).unwrap().contents, "\"text\"");
    assert_eq!(auto_save(&json("3")).unwrap().file_name, autosave_file_name());
}

#[test]
fn encoded_autosave_goes_by_what_encoding_gave() {
    assert_eq!(
        encoded_autosave(Ok("{}".to_string())),
        Ok(TextWrite { file_name: "__autosave__.json".to_string(), contents: "{}".to_string() })
    );
    assert_eq!(
        encoded_autosave(Err("key must be a string".to_string())),
        Err(error(ErrorKind::EncodeFailure, "Failed to serialize: key must be a string"))
    );
}

#[test]
fn auto_save_outcome_reports_a_failed_write() {
    assert_eq!(auto_save_outcome(Ok(())), Ok(()));
    assert_eq!(
        auto_save_outcome(Err(denied())),
        Err(error(
            ErrorKind::IoFailure,
            "Failed to write autosave: Permission denied (os error 13)"
        ))
    );
}

#[test]
fn load_auto_save_without_a_file_is_absent() {
    assert_eq!(load_auto_save(None), Ok(None));
}

#[test]
fn load_auto_save_parses_the_file() {
    assert_eq!(
        load_auto_save(Some(Ok("{\"room\":\"cellar\"}".to_string()))),
        Ok(Some(json("{\"room\":\"cellar\"}")))
    );
    assert_eq!(load_auto_save(Some(Ok("null".to_string()))), Ok(Some(serde_json::Value::Null)));
}

#[test]
fn load_auto_save_after_auto_save_returns_the_state() {
    let data = json("{\"room\":\"cellar\",\"inventory\":[\"lamp\",\"sword\"],\"turns\":17}");
    let write = auto_save(&data).unwrap();
    assert_eq!(load_auto_save(Some(Ok(write.contents))), Ok(Some(data)));
}

#[test]
fn load_auto_save_of_a_corrupt_file_is_a_parse_failure() {
    let text = "{\"room\":";
    let cause = serde_json::from_str::<serde_json::Value>(text).unwrap_err();
    assert_eq!(
        load_auto_save(Some(Ok(text.to_string()))),
        Err(error(ErrorKind::ParseFailure, &format!("Failed to parse autosave: {}", cause)))
    );
    assert_eq!(
        load_auto_save(Some(Ok(text.to_string()))),
        Err(error(
            ErrorKind::ParseFailure,
            "Failed to parse autosave: EOF while parsing a value at line 1 column 8"
        ))
    );
}

#[test]
fn load_auto_save_of_an_empty_file_is_a_parse_failure() {
    let result = load_auto_save(Some(Ok(String::new())));
    assert_eq!(
        result,
        Err(error(
            ErrorKind::ParseFailure,
            "Failed to parse autosave: EOF while parsing a value at line 1 column 0"
        ))
    );
}

#[test]
fn load_auto_save_of_an_unreadable_file_fails() {
    assert_eq!(
        load_auto_save(Some(Err(denied()))),
        Err(error(
            ErrorKind::IoFailure,
            "Failed to read autosave: Permission denied (os error 13)"
        ))
    );
    assert_eq!(
        load_auto_save(Some(Err(missing()))),
        Err(error(
            ErrorKind::NotFound,
            "Failed to read autosave: No such file or directory (os error 2)"
        ))
    );
}

#[test]
fn parsed_autosave_goes_by_what_parsing_gave() {
    assert_eq!(parsed_autosave(Ok(json("[1]"))), Ok(Some(json("[1]"))));
    assert_eq!(
        parsed_autosave(Err("expected value at line 1 column 1".to_string())),
        Err(error(
            ErrorKind::ParseFailure,
            "Failed to parse autosave: expected value at line 1 column 1"
        ))
    );
}

#[test]
fn open_bundle_reports_each_outcome() {
    assert_eq!(
        open_bundle(BundlePick::Cancelled),
        Err(error(ErrorKind::DialogCancelled, "No file selected"))
    );
    assert_eq!(
        open_bundle(BundlePick::InvalidPath),
        Err(error(ErrorKind::IoFailure, "Invalid file path"))
    );
    assert_eq!(
        open_bundle(BundlePick::Unreadable(denied())),
        Err(error(ErrorKind::IoFailure, "Failed to read file: Permission denied (os error 13)"))
    );
    assert_eq!(
        open_bundle(BundlePick::Loaded {
            bytes: vec![1, 2, 3],
            path: "/stories/zork1.sharpee".to_string(),
        }),
        Ok((vec![1, 2, 3], "/stories/zork1.sharpee".to_string()))
    );
}

#[test]
fn read_bundle_path_reports_each_outcome() {
    assert_eq!(read_bundle_path(Ok(vec![9, 8])), Ok(vec![9, 8]));
    assert_eq!(read_bundle_path(Ok(Vec::new())), Ok(Vec::new()));
    assert_eq!(
        read_bundle_path(Err(missing())),
        Err(error(
            ErrorKind::NotFound,
            "Failed to read file: No such file or directory (os error 2)"
        ))
    );
    assert_eq!(
        read_bundle_path(Err(denied())),
        Err(error(ErrorKind::IoFailure, "Failed to read file: Permission denied (os error 13)"))
    );
}

#[test]
fn the_file_picker_keeps_to_sharpee_bundles() {
    assert_eq!(bundle_filter_name(), "Sharpee Story");
    assert_eq!(bundle_extension(), "sharpee");
}

#[test]
fn error_constructors_build_the_message() {
    assert_eq!(
        SaveError::new(ErrorKind::IoFailure, "Failed to read save: ", "boom"),
        error(ErrorKind::IoFailure, "Failed to read save: boom")
    );
    assert_eq!(
        SaveError::with_message(ErrorKind::DialogCancelled, "No file selected"),
        error(ErrorKind::DialogCancelled, "No file selected")
    );
    assert_eq!(SaveError::from_fault("x: ", &missing()).kind, ErrorKind::NotFound);
    assert_eq!(SaveError::from_fault("x: ", &denied()).kind, ErrorKind::IoFailure);
}

#[test]
fn save_list_restore_delete_scenario() {
    let mut directory: Vec<(String, SaveRecord)> = Vec::new();
    let entries = |directory: &Vec<(String, SaveRecord)>| -> Vec<DirEntry> {
        directory
            .iter()
            .map(|(file_name, record)| DirEntry {
                file_name: file_name.clone(),
                file: SlotFile::Record(SaveRecord {
                    slot_name: record.slot_name.clone(),
                    timestamp: record.timestamp,
                    turn_count: record.turn_count,
                    location: record.location.clone(),
                    data: record.data.clone(),
                }),
            })
            .collect()
    };

    let write = save_game(
        "before-grue".to_string(),
        json("{\"room\":\"cellar\"}"),
        1000,
        5,
        "Cellar".to_string(),
    );
    directory.retain(|(file_name, _)| *file_name != write.file_name);
    directory.push((write.file_name, write.record));
    assert_eq!(save_game_outcome(Ok(())), Ok(()));

    assert_eq!(
        list_saves("zork1", entries(&directory)),
        vec![SaveSlotInfo {
            name: "before-grue".to_string(),
            timestamp: 1000,
            turn_count: 5,
            location: "Cellar".to_string(),
            story_id: "zork1".to_string(),
        }]
    );

    let wanted = slot_file_name("before-grue");
    let found = entries(&directory).into_iter().find(|entry| entry.file_name == wanted);
    let file = match found {
        Some(entry) => entry.file,
        None => SlotFile::Unreadable(missing()),
    };
    assert_eq!(restore_game(file), Ok(json("{\"room\":\"cellar\"}")));

    let before: usize = directory.len();
    directory.retain(|(file_name, _)| *file_name != wanted);
    let removed = if directory.len() < before { Ok(()) } else { Err(missing()) };
    assert_eq!(delete_save(removed), Ok(()));
    assert_eq!(list_saves("zork1", entries(&directory)), Vec::new());

    assert_eq!(
        restore_game(SlotFile::Unreadable(missing())).map_err(|error| error.kind),
        Err(ErrorKind::NotFound)
    );
    assert_eq!(delete_save(Err(missing())).map_err(|error| error.kind), Err(ErrorKind::NotFound));
}
