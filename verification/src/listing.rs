//! Listing a story's save slots, most recent first.

use vstd::prelude::*;
use crate::names::{is_slot_file, is_slot_file_name};
use crate::record::{slot_info, DirEntry, SaveSlotInfo, SaveSlotView, SlotFile};

verus! {

/// The views of a list of slots.
pub open spec fn slot_views(slots: Seq<SaveSlotInfo>) -> Seq<SaveSlotView> {
    slots.map_values(|slot: SaveSlotInfo| slot@)
}

/// Whether a directory entry shows up in a listing: it is named like a save
/// file and holds a record.
pub open spec fn is_listed(entry: DirEntry) -> bool {
    is_slot_file(entry.file_name@) && entry.file is Record
}

/// The slots that a listing of the story `story_id` shows, in the order of
/// the directory's entries.
pub open spec fn found_slots(story_id: Seq<char>, entries: Seq<DirEntry>) -> Seq<SaveSlotView>
    decreases entries.len(),
{
    if entries.len() == 0 {
        Seq::empty()
    } else {
        let rest = found_slots(story_id, entries.drop_first());
        if is_listed(entries[0]) {
            seq![slot_info(story_id, entries[0].file->Record_0@)] + rest
        } else {
            rest
        }
    }
}

/// The test for a slot saved at the time `timestamp`.
pub open spec fn saved_at(timestamp: u64) -> spec_fn(SaveSlotView) -> bool {
    |slot: SaveSlotView| slot.timestamp == timestamp
}

/// No slot comes before one that was saved later.
pub open spec fn is_newest_first(slots: Seq<SaveSlotView>) -> bool {
    forall|i: int, j: int|
        0 <= i <= j < slots.len() ==> (#[trigger] slots[i]).timestamp >= (
        #[trigger] slots[j]).timestamp
}

/// Two lists hold the same slots, and those saved at one time in the same order.
pub open spec fn same_slots(a: Seq<SaveSlotView>, b: Seq<SaveSlotView>) -> bool {
    forall|t: u64| #[trigger] a.filter(saved_at(t)) == b.filter(saved_at(t))
}

/// `listing` is the list `found` put most recent first, slots saved at one
/// time keeping the order that they were found in.
pub open spec fn is_listing_of(listing: Seq<SaveSlotView>, found: Seq<SaveSlotView>) -> bool {
    is_newest_first(listing) && same_slots(listing, found)
}

proof fn lemma_filter_none(slots: Seq<SaveSlotView>, pred: spec_fn(SaveSlotView) -> bool)
    requires
        forall|i: int| 0 <= i < slots.len() ==> !pred(#[trigger] slots[i]),
    ensures
        slots.filter(pred) == Seq::<SaveSlotView>::empty(),
    decreases slots.len(),
{
    reveal(Seq::filter);
    if slots.len() > 0 {
        lemma_filter_none(slots.drop_last(), pred);
    }
}

proof fn lemma_filter_one(slot: SaveSlotView, pred: spec_fn(SaveSlotView) -> bool)
    ensures
        seq![slot].filter(pred) == if pred(slot) {
            seq![slot]
        } else {
            Seq::empty()
        },
{
    reveal_with_fuel(Seq::filter, 2);
    assert(seq![slot].drop_last() =~= Seq::<SaveSlotView>::empty());
    assert(seq![slot].filter(pred) =~= if pred(slot) {
        seq![slot]
    } else {
        Seq::empty()
    });
}

proof fn lemma_filter_first(slots: Seq<SaveSlotView>, pred: spec_fn(SaveSlotView) -> bool)
    requires
        slots.len() > 0,
    ensures
        slots.filter(pred) == if pred(slots[0]) {
            seq![slots[0]] + slots.drop_first().filter(pred)
        } else {
            slots.drop_first().filter(pred)
        },
{
    assert(slots =~= seq![slots[0]] + slots.drop_first());
    Seq::filter_distributes_over_add(seq![slots[0]], slots.drop_first(), pred);
    lemma_filter_one(slots[0], pred);
    assert(Seq::<SaveSlotView>::empty() + slots.drop_first().filter(pred)
        =~= slots.drop_first().filter(pred));
}

/// A listing whose slots saved at `t` are some has a slot saved at `t`, and
/// its first slot was saved no earlier.
proof fn lemma_first_is_newest(listing: Seq<SaveSlotView>, t: u64)
    requires
        is_newest_first(listing),
        listing.filter(saved_at(t)).len() > 0,
    ensures
        listing.len() > 0,
        listing[0].timestamp >= t,
{
    if forall|i: int| 0 <= i < listing.len() ==> !saved_at(t)(#[trigger] listing[i]) {
        lemma_filter_none(listing, saved_at(t));
    } else {
        let i = choose|i: int| 0 <= i < listing.len() && saved_at(t)(#[trigger] listing[i]);
        assert(listing[0].timestamp >= listing[i].timestamp);
    }
}

/// Two listings of the same slots are the same: what [`is_listing_of`] asks
/// of a listing leaves no choice.
pub proof fn lemma_listing_is_unique(
    a: Seq<SaveSlotView>,
    b: Seq<SaveSlotView>,
    found: Seq<SaveSlotView>,
)
    requires
        is_listing_of(a, found),
        is_listing_of(b, found),
    ensures
        a == b,
{
    assert forall|t: u64| #[trigger] a.filter(saved_at(t)) == b.filter(saved_at(t)) by {
        assert(a.filter(saved_at(t)) == found.filter(saved_at(t)));
        assert(b.filter(saved_at(t)) == found.filter(saved_at(t)));
    }
    lemma_same_listings(a, b);
}

proof fn lemma_same_listings(a: Seq<SaveSlotView>, b: Seq<SaveSlotView>)
    requires
        is_newest_first(a),
        is_newest_first(b),
        same_slots(a, b),
    ensures
        a == b,
    decreases a.len(),
{
    if a.len() == 0 {
        if b.len() > 0 {
            let u = b[0].timestamp;
            lemma_filter_first(b, saved_at(u));
            assert(a.filter(saved_at(u)) == b.filter(saved_at(u)));
            lemma_filter_none(a, saved_at(u));
            assert(false);
        }
        assert(a =~= b);
    } else {
        let t = a[0].timestamp;
        lemma_filter_first(a, saved_at(t));
        assert(a.filter(saved_at(t)) == b.filter(saved_at(t)));
        lemma_first_is_newest(b, t);
        let u = b[0].timestamp;
        lemma_filter_first(b, saved_at(u));
        assert(a.filter(saved_at(u)) == b.filter(saved_at(u)));
        lemma_first_is_newest(a, u);
        assert(t == u);
        assert(a.filter(saved_at(t))[0] == a[0]);
        assert(b.filter(saved_at(t))[0] == b[0]);
        let a1 = a.drop_first();
        let b1 = b.drop_first();
        assert(is_newest_first(a1)) by {
            assert forall|i: int, j: int| 0 <= i <= j < a1.len() implies (#[trigger] a1[i]).timestamp
                >= (#[trigger] a1[j]).timestamp by {
                assert(a1[i] == a[i + 1] && a1[j] == a[j + 1]);
            }
        }
        assert(is_newest_first(b1)) by {
            assert forall|i: int, j: int| 0 <= i <= j < b1.len() implies (#[trigger] b1[i]).timestamp
                >= (#[trigger] b1[j]).timestamp by {
                assert(b1[i] == b[i + 1] && b1[j] == b[j + 1]);
            }
        }
        assert forall|s: u64| #[trigger] a1.filter(saved_at(s)) == b1.filter(saved_at(s)) by {
            lemma_filter_first(a, saved_at(s));
            lemma_filter_first(b, saved_at(s));
            assert(a.filter(saved_at(s)) == b.filter(saved_at(s)));
            if s == t {
                assert(a1.filter(saved_at(s)) =~= a.filter(saved_at(s)).drop_first());
                assert(b1.filter(saved_at(s)) =~= b.filter(saved_at(s)).drop_first());
            }
        }
        lemma_same_listings(a1, b1);
        assert(a =~= seq![a[0]] + a1);
        assert(b =~= seq![b[0]] + b1);
    }
}

/// Putting a slot in front of the first one that is not newer keeps a
/// listing newest first, and holds what the list with the slot at its head holds.
proof fn lemma_insert_keeps_listing(listing: Seq<SaveSlotView>, at: int, slot: SaveSlotView)
    requires
        is_newest_first(listing),
        0 <= at <= listing.len(),
        forall|i: int| 0 <= i < at ==> (#[trigger] listing[i]).timestamp > slot.timestamp,
        at < listing.len() ==> listing[at].timestamp <= slot.timestamp,
    ensures
        is_newest_first(listing.insert(at, slot)),
        same_slots(listing.insert(at, slot), seq![slot] + listing),
{
    let head = listing.subrange(0, at);
    let tail = listing.subrange(at, listing.len() as int);
    let out = listing.insert(at, slot);
    assert(out =~= head + seq![slot] + tail);
    assert(listing =~= head + tail);
    assert forall|i: int, j: int| 0 <= i <= j < out.len() implies (#[trigger] out[i]).timestamp
        >= (#[trigger] out[j]).timestamp by {
        if i < at {
            assert(out[i] == listing[i]);
        } else if i > at {
            assert(out[i] == listing[i - 1]);
        }
        if j < at {
            assert(out[j] == listing[j]);
        } else if j > at {
            assert(out[j] == listing[j - 1]);
            assert(listing[at].timestamp >= listing[j - 1].timestamp);
        }
    }
    assert forall|t: u64| #[trigger]
        out.filter(saved_at(t)) == (seq![slot] + listing).filter(saved_at(t)) by {
        let pred = saved_at(t);
        Seq::filter_distributes_over_add(head, seq![slot], pred);
        Seq::filter_distributes_over_add(head + seq![slot], tail, pred);
        Seq::filter_distributes_over_add(head, tail, pred);
        Seq::filter_distributes_over_add(seq![slot], listing, pred);
        lemma_filter_one(slot, pred);
        if t == slot.timestamp {
            lemma_filter_none(head, pred);
        }
        assert(out.filter(pred) =~= (seq![slot] + listing).filter(pred));
    }
}

/// How many slots at the head of a listing were saved later than `slot`.
pub open spec fn newer_count(listing: Seq<SaveSlotView>, slot: SaveSlotView) -> int
    decreases listing.len(),
{
    if listing.len() == 0 || listing[0].timestamp <= slot.timestamp {
        0
    } else {
        1 + newer_count(listing.drop_first(), slot)
    }
}

/// The slots `found` put most recent first, slots saved at one time keeping
/// the order that they were found in.
pub open spec fn newest_first(found: Seq<SaveSlotView>) -> Seq<SaveSlotView>
    decreases found.len(),
{
    if found.len() == 0 {
        Seq::empty()
    } else {
        let rest = newest_first(found.drop_first());
        rest.insert(newer_count(rest, found[0]), found[0])
    }
}

proof fn lemma_newer_count(listing: Seq<SaveSlotView>, slot: SaveSlotView)
    ensures
        0 <= newer_count(listing, slot) <= listing.len(),
        forall|i: int|
            0 <= i < newer_count(listing, slot) ==> (#[trigger] listing[i]).timestamp
                > slot.timestamp,
        newer_count(listing, slot) < listing.len() ==> listing[newer_count(
            listing,
            slot,
        )].timestamp <= slot.timestamp,
    decreases listing.len(),
{
    if listing.len() == 0 || listing[0].timestamp <= slot.timestamp {
    } else {
        let rest = listing.drop_first();
        lemma_newer_count(rest, slot);
        assert forall|i: int| 0 <= i < newer_count(listing, slot) implies (
        #[trigger] listing[i]).timestamp > slot.timestamp by {
            if i > 0 {
                assert(listing[i] == rest[i - 1]);
            }
        }
        if newer_count(listing, slot) < listing.len() {
            assert(listing[newer_count(listing, slot)] == rest[newer_count(rest, slot)]);
        }
    }
}

/// [`newest_first`] gives a listing of the slots that it is given, and holds
/// each of them as often as they were found.
pub proof fn lemma_newest_first_is_listing(found: Seq<SaveSlotView>)
    ensures
        is_listing_of(newest_first(found), found),
        newest_first(found).to_multiset() == found.to_multiset(),
        newest_first(found).len() == found.len(),
    decreases found.len(),
{
    broadcast use vstd::seq_lib::group_to_multiset_ensures;

    if found.len() == 0 {
        assert(found =~= Seq::<SaveSlotView>::empty());
    } else {
        let slot = found[0];
        let tail = found.drop_first();
        let rest = newest_first(tail);
        let at = newer_count(rest, slot);
        lemma_newest_first_is_listing(tail);
        lemma_newer_count(rest, slot);
        lemma_insert_keeps_listing(rest, at, slot);
        assert(found =~= seq![slot] + tail);
        assert forall|t: u64| #[trigger]
            newest_first(found).filter(saved_at(t)) == found.filter(saved_at(t)) by {
            Seq::filter_distributes_over_add(seq![slot], rest, saved_at(t));
            Seq::filter_distributes_over_add(seq![slot], tail, saved_at(t));
            assert(rest.filter(saved_at(t)) == tail.filter(saved_at(t)));
        }
        vstd::seq_lib::to_multiset_insert(rest, at, slot);
        assert(found =~= tail.insert(0, slot));
        vstd::seq_lib::to_multiset_insert(tail, 0, slot);
    }
}

/// A list is a listing of the slots `found` exactly when it is
/// [`newest_first`] of them: it then holds each slot as often as it was found.
pub proof fn lemma_listing_is_newest_first(listing: Seq<SaveSlotView>, found: Seq<SaveSlotView>)
    ensures
        is_listing_of(listing, found) <==> listing == newest_first(found),
        is_listing_of(listing, found) ==> listing.len() == found.len() && listing.to_multiset()
            == found.to_multiset(),
{
    lemma_newest_first_is_listing(found);
    if is_listing_of(listing, found) {
        lemma_listing_is_unique(listing, newest_first(found), found);
    }
}

/// Puts `slot` into a listing that is newest first, before the slots saved
/// at the same time as it and after those saved later.
fn insert_newest_first(slots: &mut Vec<SaveSlotInfo>, slot: SaveSlotInfo)
    requires
        is_newest_first(slot_views(old(slots)@)),
    ensures
        is_listing_of(slot_views(final(slots)@), seq![slot@] + slot_views(old(slots)@)),
{
    let ghost listing = slot_views(slots@);
    let mut at: usize = 0;
    while at < slots.len() && slots[at].timestamp > slot.timestamp
        invariant
            at <= slots.len(),
            slots@ == old(slots)@,
            forall|i: int| 0 <= i < at ==> (#[trigger] listing[i]).timestamp > slot.timestamp,
            listing == slot_views(slots@),
        decreases slots.len() - at,
    {
        at += 1;
    }
    proof {
        lemma_insert_keeps_listing(listing, at as int, slot@);
        assert(slot_views(slots@.insert(at as int, slot)) =~= listing.insert(at as int, slot@));
    }
    slots.insert(at, slot);
}

/// Lists the save slots of the story `story_id`, given the files of its save
/// directory: one slot for each entry that is named like a save file and
/// holds a record, most recent first. Other entries are passed over.
pub fn list_saves(story_id: &str, entries: Vec<DirEntry>) -> (slots: Vec<SaveSlotInfo>)
    ensures
        is_listing_of(slot_views(slots@), found_slots(story_id@, entries@)),
        slot_views(slots@) == newest_first(found_slots(story_id@, entries@)),
        slots@.len() == found_slots(story_id@, entries@).len(),
{
    let ghost all = entries@;
    let mut entries = entries;
    let mut slots: Vec<SaveSlotInfo> = Vec::new();
    proof {
        assert(all.skip(all.len() as int) =~= Seq::<DirEntry>::empty());
        assert(slot_views(slots@) =~= Seq::<SaveSlotView>::empty());
    }
    while entries.len() > 0
        invariant
            entries@ == all.take(entries@.len() as int),
            entries@.len() <= all.len(),
            is_listing_of(
                slot_views(slots@),
                found_slots(story_id@, all.skip(entries@.len() as int)),
            ),
        decreases entries.len(),
    {
        let ghost k = entries@.len() as int;
        let ghost found = found_slots(story_id@, all.skip(k));
        let ghost before = slot_views(slots@);
        let entry = entries.pop().unwrap();
        proof {
            assert(entry == all[k - 1]);
            assert(all.skip(k - 1).drop_first() =~= all.skip(k));
            assert(all.skip(k - 1)[0] == entry);
            assert(entries@ =~= all.take(k - 1));
        }
        if is_slot_file_name(entry.file_name.as_str()) {
            match entry.file {
                SlotFile::Record(record) => {
                    let slot = SaveSlotInfo::of_record(story_id, record);
                    insert_newest_first(&mut slots, slot);
                    proof {
                        let after = slot_views(slots@);
                        assert forall|t: u64| #[trigger]
                            after.filter(saved_at(t)) == (seq![slot@] + found).filter(
                                saved_at(t),
                            ) by {
                            Seq::filter_distributes_over_add(seq![slot@], before, saved_at(t));
                            Seq::filter_distributes_over_add(seq![slot@], found, saved_at(t));
                            assert(before.filter(saved_at(t)) == found.filter(saved_at(t)));
                        }
                    }
                },
                _ => {},
            }
        }
    }
    proof {
        assert(all.skip(0) =~= all);
        lemma_listing_is_newest_first(slot_views(slots@), found_slots(story_id@, all));
    }
    slots
}

} // verus!
