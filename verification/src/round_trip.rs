//! From the trash and back.
//!
//! What is asked of the file system when an item goes to the trash, what
//! the scan reads from the record that was written, and what is asked when
//! the item is restored, fit together: the item is moved back from where it
//! was moved to, to the place it was taken from.

use crate::actions::{FsAction, FsAnswer, Step};
use crate::record::{lemma_record_round_trip, record_text};
use crate::restoring::{
    is_next_restore_step, is_trash_info_path, reading_of, stored_item_of, InfoFile,
    RecordReadingView, RestoreState, TrashEntry, TrashEntryView,
};
use crate::text::is_single_line;
use crate::trashing::{is_next_trashing_step, TrashingState};
use vstd::prelude::*;

verus! {

/// The last steps of trashing an item whose canonical path is `original`,
/// at the time `date`: the record that is written says `original` and
/// `date`, the item is then moved from the source to the place chosen for
/// it, and a move that succeeds ends the operation well.
pub proof fn lemma_trashing_writes_then_moves(
    source_path: Seq<char>,
    root: Seq<char>,
    dest_path: String,
    info_file: String,
    original: String,
    date: String,
    written: Step<TrashingState, ()>,
    moved: Step<TrashingState, ()>,
    finished: Step<TrashingState, ()>,
)
    requires
        is_next_trashing_step(
            source_path,
            root,
            TrashingState::Dating { dest_path, info_file, original },
            FsAnswer::Time(date),
            written,
        ),
        written is Ask ==> is_next_trashing_step(
            source_path,
            root,
            written->state,
            FsAnswer::Done(Ok(())),
            moved,
        ),
        moved is Ask ==> is_next_trashing_step(
            source_path,
            root,
            moved->state,
            FsAnswer::Done(Ok(())),
            finished,
        ),
    ensures
        written matches Step::Ask { action: FsAction::WriteFile { path, content }, .. } && path@
            == info_file@ && content@ == record_text(original@, date@),
        moved matches Step::Ask { action: FsAction::Rename { from, to }, .. } && from@
            == source_path && to@ == dest_path@,
        finished matches Step::Finish(Ok(_)),
{
}

/// The scan reads from the record of a trashed item what was written into
/// it: where the file that holds the record for `original` and `date` has
/// the extension of a record and its item beside it, the entry found gives
/// `original` as the place to return to and `date` as the time of deletion.
pub proof fn lemma_scan_reads_what_trashing_wrote(file: InfoFile, original: Seq<char>, date: Seq<char>)
    requires
        is_single_line(date),
        file.content@ == record_text(original, date),
        file.item_exists,
        is_trash_info_path(file.info_path@),
    ensures
        reading_of(file) == RecordReadingView::Entry(
            TrashEntryView {
                trashed_path: stored_item_of(file.trash_dir@, file.info_path@),
                info_path: file.info_path@,
                original_path: original,
                deletion_date: date,
            },
        ),
{
    lemma_record_round_trip(original, date);
}

/// Restoring the entry of an item that lies in the trash, to a place that
/// is free, asks for the item to be moved from the trash to its original
/// place, then for its record to be removed, and ends with the original
/// place, whatever comes of removing the record.
pub proof fn lemma_restore_moves_back(
    entry: TrashEntry,
    cleanup: FsAnswer,
    moving: Step<RestoreState, String>,
    cleaning: Step<RestoreState, String>,
    finished: Step<RestoreState, String>,
)
    requires
        cleanup is Done,
        is_next_restore_step(entry, RestoreState::CheckingTrashed, FsAnswer::Flag(true), moving),
        is_next_restore_step(entry, RestoreState::Moving, FsAnswer::Done(Ok(())), cleaning),
        is_next_restore_step(entry, RestoreState::Cleaning, cleanup, finished),
    ensures
        moving matches Step::Ask { action: FsAction::Rename { from, to }, .. } && from@
            == entry.trashed_path@ && to@ == entry.original_path@,
        cleaning matches Step::Ask { action: FsAction::RemoveFile { path }, .. } && path@
            == entry.info_path@,
        finished matches Step::Finish(Ok(place)) && place@ == entry.original_path@,
{
}

} // verus!
