//! The operations of the save store. Reading and writing files is the
//! host's part; each operation here says what is to be written, or what the
//! caller is told once the host has read, written or removed a file.

use vstd::prelude::*;
use crate::error::{error_with, fault_error, ErrorKind, IoFault, SaveError, SaveErrorView};
use crate::json::{encode_json, error_text, json_compact, json_error_text, json_parse, parse_json};
use crate::names::{autosave_file_name, autosave_name, slot_file, slot_file_name};
use crate::record::{SaveRecord, SaveRecordView, SlotFile};

verus! {

/// A save record to be written to the file `file_name` of the story's save
/// directory, in place of what that file held.
#[derive(Debug, PartialEq)]
pub struct SlotWrite {
    pub file_name: String,
    pub record: SaveRecord,
}

/// A text to be written to the file `file_name` of the story's save
/// directory, in place of what that file held.
#[derive(Clone, Debug, PartialEq, Eq)]
pub struct TextWrite {
    pub file_name: String,
    pub contents: String,
}

/// A [`TextWrite`] with its texts as sequences of characters.
pub struct TextWriteView {
    pub file_name: Seq<char>,
    pub contents: Seq<char>,
}

impl View for TextWrite {
    type V = TextWriteView;

    open spec fn view(&self) -> TextWriteView {
        TextWriteView { file_name: self.file_name@, contents: self.contents@ }
    }
}

/// How writing a save record failed.
#[derive(Clone, Debug, PartialEq, Eq)]
pub enum WriteFault {
    /// The record could not be put into text; the text says why.
    Encode(String),
    /// The file could not be written.
    Io(IoFault),
}

/// What the file picker came back with, and what became of reading the file.
#[derive(Clone, Debug, PartialEq, Eq)]
pub enum BundlePick {
    /// The user closed the dialog without choosing.
    Cancelled,
    /// What the user chose is not a file of the file system.
    InvalidPath,
    /// The chosen file could not be read.
    Unreadable(IoFault),
    /// The chosen file, read.
    Loaded { bytes: Vec<u8>, path: String },
}

/// A result with its error as a view.
pub open spec fn result_view<T>(result: Result<T, SaveError>) -> Result<T, SaveErrorView> {
    match result {
        Ok(value) => Ok(value),
        Err(error) => Err(error@),
    }
}

/// The record that saving a game writes.
pub open spec fn saved_record(
    slot_name: Seq<char>,
    data: serde_json::Value,
    timestamp: u64,
    turn_count: u32,
    location: Seq<char>,
) -> SaveRecordView {
    SaveRecordView { slot_name, timestamp, turn_count, location, data }
}

/// What saving a game reports, once the host has tried to write the record.
pub open spec fn save_outcome(outcome: Result<(), WriteFault>) -> Result<(), SaveErrorView> {
    match outcome {
        Ok(()) => Ok(()),
        Err(WriteFault::Encode(detail)) => Err(
            error_with(ErrorKind::EncodeFailure, "Failed to serialize: "@, detail@),
        ),
        Err(WriteFault::Io(fault)) => Err(
            error_with(ErrorKind::IoFailure, "Failed to write save: "@, fault.detail@),
        ),
    }
}

/// What restoring a game gives, from what the host found in the slot's file.
pub open spec fn restored(file: SlotFile) -> Result<serde_json::Value, SaveErrorView> {
    match file {
        SlotFile::Unreadable(fault) => Err(fault_error("Failed to read save: "@, fault)),
        SlotFile::Malformed(detail) => Err(
            error_with(ErrorKind::ParseFailure, "Failed to parse save: "@, detail@),
        ),
        SlotFile::Record(record) => Ok(record.data),
    }
}

/// What deleting a save reports, once the host has tried to remove the file.
pub open spec fn delete_outcome(outcome: Result<(), IoFault>) -> Result<(), SaveErrorView> {
    match outcome {
        Ok(()) => Ok(()),
        Err(fault) => Err(fault_error("Failed to delete save: "@, fault)),
    }
}

/// What an autosave reports, once the host has tried to write the file.
pub open spec fn autosave_outcome(outcome: Result<(), IoFault>) -> Result<(), SaveErrorView> {
    match outcome {
        Ok(()) => Ok(()),
        Err(fault) => Err(
            error_with(ErrorKind::IoFailure, "Failed to write autosave: "@, fault.detail@),
        ),
    }
}

/// What an autosave writes, from what putting the game state into text gave:
/// the text, or the reason why there is none.
pub open spec fn autosave_write(encoded: Result<Seq<char>, Seq<char>>) -> Result<
    TextWriteView,
    SaveErrorView,
> {
    match encoded {
        Ok(contents) => Ok(TextWriteView { file_name: autosave_name(), contents }),
        Err(detail) => Err(error_with(ErrorKind::EncodeFailure, "Failed to serialize: "@, detail)),
    }
}

/// What an autosave writes for the game state `data`.
pub open spec fn autosave_of(data: serde_json::Value) -> Result<TextWriteView, SaveErrorView> {
    autosave_write(
        match json_compact(data) {
            Ok(contents) => Ok(contents),
            Err(error) => Err(json_error_text(error)),
        },
    )
}

/// The autosaved game state, from what reading the autosave file as JSON
/// gave: the state, or the reason why there is none.
pub open spec fn autosave_parsed(parsed: Result<serde_json::Value, Seq<char>>) -> Result<
    Option<serde_json::Value>,
    SaveErrorView,
> {
    match parsed {
        Ok(data) => Ok(Some(data)),
        Err(detail) => Err(
            error_with(ErrorKind::ParseFailure, "Failed to parse autosave: "@, detail),
        ),
    }
}

/// What loading the autosave gives, from what the host found: no file
/// (`None`), a file that it could not read, or the file's text.
pub open spec fn autosave_loaded(read: Option<Result<String, IoFault>>) -> Result<
    Option<serde_json::Value>,
    SaveErrorView,
> {
    match read {
        None => Ok(None),
        Some(Err(fault)) => Err(fault_error("Failed to read autosave: "@, fault)),
        Some(Ok(text)) => autosave_parsed(
            match json_parse(text@) {
                Ok(data) => Ok(data),
                Err(error) => Err(json_error_text(error)),
            },
        ),
    }
}

/// What opening a bundle gives, from what the file picker came back with.
pub open spec fn bundle_opened(pick: BundlePick) -> Result<(Seq<u8>, Seq<char>), SaveErrorView> {
    match pick {
        BundlePick::Cancelled => Err(
            SaveErrorView { kind: ErrorKind::DialogCancelled, message: "No file selected"@ },
        ),
        BundlePick::InvalidPath => Err(
            SaveErrorView { kind: ErrorKind::IoFailure, message: "Invalid file path"@ },
        ),
        BundlePick::Unreadable(fault) => Err(fault_error("Failed to read file: "@, fault)),
        BundlePick::Loaded { bytes, path } => Ok((bytes@, path@)),
    }
}

/// What reading a bundle at a known path gives, from what reading it gave.
pub open spec fn bundle_read(read: Result<Vec<u8>, IoFault>) -> Result<Seq<u8>, SaveErrorView> {
    match read {
        Ok(bytes) => Ok(bytes@),
        Err(fault) => Err(fault_error("Failed to read file: "@, fault)),
    }
}

/// Restoring a slot from the record that saving it wrote gives back the
/// saved game state, and that record was written to the file that holds the slot.
pub proof fn lemma_restore_gives_saved_state(
    write: SlotWrite,
    slot_name: Seq<char>,
    data: serde_json::Value,
    timestamp: u64,
    turn_count: u32,
    location: Seq<char>,
)
    requires
        write.file_name@ == slot_file(slot_name),
        write.record@ == saved_record(slot_name, data, timestamp, turn_count, location),
    ensures
        restored(SlotFile::Record(write.record)) == Ok::<serde_json::Value, SaveErrorView>(data),
{
}

/// A slot whose file is missing is reported as not found, by restoring it
/// and by deleting it.
pub proof fn lemma_missing_slot_is_not_found(fault: IoFault)
    requires
        fault.not_found,
    ensures
        restored(SlotFile::Unreadable(fault)) matches Err(error) && error.kind
            == ErrorKind::NotFound,
        delete_outcome(Err(fault)) matches Err(error) && error.kind == ErrorKind::NotFound,
{
}

/// Where no autosave file exists, loading the autosave gives no state, and
/// no error.
pub proof fn lemma_no_autosave_is_no_error()
    ensures
        autosave_loaded(None) == Ok::<Option<serde_json::Value>, SaveErrorView>(None),
{
}

/// The game state saved under a slot name, ready to be written: the record
/// and the name of the file that holds the slot.
pub fn save_game(
    slot_name: String,
    data: serde_json::Value,
    timestamp: u64,
    turn_count: u32,
    location: String,
) -> (write: SlotWrite)
    ensures
        write.file_name@ == slot_file(slot_name@),
        write.record@ == saved_record(slot_name@, data, timestamp, turn_count, location@),
{
    let file_name = slot_file_name(slot_name.as_str());
    SlotWrite { file_name, record: SaveRecord { slot_name, timestamp, turn_count, location, data } }
}

/// What saving a game reports, once the host has tried to write the record:
/// success, or the failure with its cause.
pub fn save_game_outcome(outcome: Result<(), WriteFault>) -> (result: Result<(), SaveError>)
    ensures
        result_view(result) == save_outcome(outcome),
{
    match outcome {
        Ok(()) => Ok(()),
        Err(WriteFault::Encode(detail)) => Err(
            SaveError::new(ErrorKind::EncodeFailure, "Failed to serialize: ", detail.as_str()),
        ),
        Err(WriteFault::Io(fault)) => Err(
            SaveError::new(ErrorKind::IoFailure, "Failed to write save: ", fault.detail.as_str()),
        ),
    }
}

/// The game state of a slot, from what the host found in the slot's file.
/// Fails where the file could not be read, as not found where it is
/// missing, and where it does not hold a save record.
pub fn restore_game(file: SlotFile) -> (result: Result<serde_json::Value, SaveError>)
    ensures
        result_view(result) == restored(file),
{
    match file {
        SlotFile::Unreadable(fault) => Err(SaveError::from_fault("Failed to read save: ", &fault)),
        SlotFile::Malformed(detail) => Err(
            SaveError::new(ErrorKind::ParseFailure, "Failed to parse save: ", detail.as_str()),
        ),
        SlotFile::Record(record) => Ok(record.data),
    }
}

/// What deleting a save reports, once the host has tried to remove the
/// slot's file: success, or the failure, as not found where the file was missing.
pub fn delete_save(outcome: Result<(), IoFault>) -> (result: Result<(), SaveError>)
    ensures
        result_view(result) == delete_outcome(outcome),
{
    match outcome {
        Ok(()) => Ok(()),
        Err(fault) => Err(SaveError::from_fault("Failed to delete save: ", &fault)),
    }
}

/// What an autosave writes, from what putting the game state into compact
/// JSON gave: that text, for the autosave file, or an encode failure.
pub fn encoded_autosave(encoded: Result<String, String>) -> (result: Result<TextWrite, SaveError>)
    ensures
        match result {
            Ok(write) => autosave_write(
                match encoded {
                    Ok(text) => Ok(text@),
                    Err(detail) => Err(detail@),
                },
            ) == Ok::<TextWriteView, SaveErrorView>(write@),
            Err(error) => autosave_write(
                match encoded {
                    Ok(text) => Ok(text@),
                    Err(detail) => Err(detail@),
                },
            ) == Err::<TextWriteView, SaveErrorView>(error@),
        },
{
    match encoded {
        Ok(contents) => Ok(TextWrite { file_name: autosave_file_name(), contents }),
        Err(detail) => Err(
            SaveError::new(ErrorKind::EncodeFailure, "Failed to serialize: ", detail.as_str()),
        ),
    }
}

/// The autosave of the game state `data`, ready to be written: the state as
/// compact JSON, with no record around it, for the autosave file.
pub fn auto_save(data: &serde_json::Value) -> (result: Result<TextWrite, SaveError>)
    ensures
        match result {
            Ok(write) => autosave_of(*data) == Ok::<TextWriteView, SaveErrorView>(write@),
            Err(error) => autosave_of(*data) == Err::<TextWriteView, SaveErrorView>(error@),
        },
{
    let encoded = match encode_json(data) {
        Ok(text) => Ok(text),
        Err(error) => Err(error_text(&error)),
    };
    encoded_autosave(encoded)
}

/// What an autosave reports, once the host has tried to write the file:
/// success, or the failure with its cause.
pub fn auto_save_outcome(outcome: Result<(), IoFault>) -> (result: Result<(), SaveError>)
    ensures
        result_view(result) == autosave_outcome(outcome),
{
    match outcome {
        Ok(()) => Ok(()),
        Err(fault) => Err(
            SaveError::new(
                ErrorKind::IoFailure,
                "Failed to write autosave: ",
                fault.detail.as_str(),
            ),
        ),
    }
}

/// The autosaved game state, from what reading the autosave file as JSON
/// gave: the state, or a parse failure.
pub fn parsed_autosave(parsed: Result<serde_json::Value, String>) -> (result: Result<
    Option<serde_json::Value>,
    SaveError,
>)
    ensures
        result_view(result) == autosave_parsed(
            match parsed {
                Ok(data) => Ok(data),
                Err(detail) => Err(detail@),
            },
        ),
{
    match parsed {
        Ok(data) => Ok(Some(data)),
        Err(detail) => Err(
            SaveError::new(ErrorKind::ParseFailure, "Failed to parse autosave: ", detail.as_str()),
        ),
    }
}

/// The autosaved game state, from what the host found. Where there is no
/// autosave file (`None`) there is no state, and that is no error. Fails
/// where the file could not be read or does not hold JSON.
pub fn load_auto_save(read: Option<Result<String, IoFault>>) -> (result: Result<
    Option<serde_json::Value>,
    SaveError,
>)
    ensures
        result_view(result) == autosave_loaded(read),
{
    match read {
        None => Ok(None),
        Some(Err(fault)) => Err(SaveError::from_fault("Failed to read autosave: ", &fault)),
        Some(Ok(text)) => {
            let parsed = match parse_json(text.as_str()) {
                Ok(data) => Ok(data),
                Err(error) => Err(error_text(&error)),
            };
            parsed_autosave(parsed)
        },
    }
}

/// The name under which the file picker offers story bundles.
pub fn bundle_filter_name() -> (out: &'static str)
    ensures
        out@ == "Sharpee Story"@,
{
    "Sharpee Story"
}

/// The extension of a story bundle, to which the file picker keeps.
pub fn bundle_extension() -> (out: &'static str)
    ensures
        out@ == "sharpee"@,
{
    "sharpee"
}

/// The bytes and the path of the bundle that the user picked. Fails where
/// the user picked none, or where the file could not be read.
pub fn open_bundle(pick: BundlePick) -> (result: Result<(Vec<u8>, String), SaveError>)
    ensures
        match result {
            Ok((bytes, path)) => bundle_opened(pick) == Ok::<
                (Seq<u8>, Seq<char>),
                SaveErrorView,
            >((bytes@, path@)),
            Err(error) => bundle_opened(pick) == Err::<(Seq<u8>, Seq<char>), SaveErrorView>(
                error@,
            ),
        },
{
    match pick {
        BundlePick::Cancelled => Err(
            SaveError::with_message(ErrorKind::DialogCancelled, "No file selected"),
        ),
        BundlePick::InvalidPath => Err(
            SaveError::with_message(ErrorKind::IoFailure, "Invalid file path"),
        ),
        BundlePick::Unreadable(fault) => Err(
            SaveError::from_fault("Failed to read file: ", &fault),
        ),
        BundlePick::Loaded { bytes, path } => Ok((bytes, path)),
    }
}

/// The bytes of a bundle at a known path, from what reading it gave. Fails
/// where the file could not be read, as not found where it is missing.
pub fn read_bundle_path(read: Result<Vec<u8>, IoFault>) -> (result: Result<Vec<u8>, SaveError>)
    ensures
        match result {
            Ok(bytes) => bundle_read(read) == Ok::<Seq<u8>, SaveErrorView>(bytes@),
            Err(error) => bundle_read(read) == Err::<Seq<u8>, SaveErrorView>(error@),
        },
{
    match read {
        Ok(bytes) => Ok(bytes),
        Err(fault) => Err(SaveError::from_fault("Failed to read file: ", &fault)),
    }
}

} // verus!
