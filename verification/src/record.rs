//! The records of the save store: what a save file holds, what a listing
//! shows of it, and what the host found when it read one.

use vstd::prelude::*;
use crate::error::IoFault;

verus! {

/// What a save file holds: the game state and the metadata stored around it.
#[derive(Debug, PartialEq)]
pub struct SaveRecord {
    pub slot_name: String,
    pub timestamp: u64,
    pub turn_count: u32,
    pub location: String,
    pub data: serde_json::Value,
}

/// A [`SaveRecord`] with its texts as sequences of characters.
pub struct SaveRecordView {
    pub slot_name: Seq<char>,
    pub timestamp: u64,
    pub turn_count: u32,
    pub location: Seq<char>,
    pub data: serde_json::Value,
}

impl View for SaveRecord {
    type V = SaveRecordView;

    open spec fn view(&self) -> SaveRecordView {
        SaveRecordView {
            slot_name: self.slot_name@,
            timestamp: self.timestamp,
            turn_count: self.turn_count,
            location: self.location@,
            data: self.data,
        }
    }
}

/// What a listing shows of a save slot: its metadata, without the game state.
#[derive(Clone, Debug, PartialEq, Eq)]
pub struct SaveSlotInfo {
    pub name: String,
    pub timestamp: u64,
    pub turn_count: u32,
    pub location: String,
    pub story_id: String,
}

/// A [`SaveSlotInfo`] with its texts as sequences of characters.
pub struct SaveSlotView {
    pub name: Seq<char>,
    pub timestamp: u64,
    pub turn_count: u32,
    pub location: Seq<char>,
    pub story_id: Seq<char>,
}

impl View for SaveSlotInfo {
    type V = SaveSlotView;

    open spec fn view(&self) -> SaveSlotView {
        SaveSlotView {
            name: self.name@,
            timestamp: self.timestamp,
            turn_count: self.turn_count,
            location: self.location@,
            story_id: self.story_id@,
        }
    }
}

/// What the host found when it read a save file and parsed it.
#[derive(Debug, PartialEq)]
pub enum SlotFile {
    /// The file could not be read.
    Unreadable(IoFault),
    /// The file was read and does not hold a save record; the text says why.
    Malformed(String),
    /// The file holds this record.
    Record(SaveRecord),
}

/// One file of a story's save directory.
#[derive(Debug, PartialEq)]
pub struct DirEntry {
    pub file_name: String,
    pub file: SlotFile,
}

/// What a listing of the story `story_id` shows of a record.
pub open spec fn slot_info(story_id: Seq<char>, record: SaveRecordView) -> SaveSlotView {
    SaveSlotView {
        name: record.slot_name,
        timestamp: record.timestamp,
        turn_count: record.turn_count,
        location: record.location,
        story_id,
    }
}

impl SaveSlotInfo {
    /// What a listing of the story `story_id` shows of `record`.
    pub fn of_record(story_id: &str, record: SaveRecord) -> (out: SaveSlotInfo)
        ensures
            out@ == slot_info(story_id@, record@),
    {
        SaveSlotInfo {
            name: record.slot_name,
            timestamp: record.timestamp,
            turn_count: record.turn_count,
            location: record.location,
            story_id: story_id.to_owned(),
        }
    }
}

} // verus!
