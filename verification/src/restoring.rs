//! Finding what lies in the trash and telling how its return went.

use crate::constants::{
    TRASH_FILES_DIR_NAME, TRASH_INFO_DATE_KEY, TRASH_INFO_EXTENSION, TRASH_INFO_PATH_KEY,
    TRASH_INFO_SUFFIX,
};
use crate::actions::{AnswerKind, FsAction, FsAnswer, Step};
use crate::error::{error_text, AppError};
use crate::paths::{
    extension, file_name, join, parent, path_extension, path_file_name, path_join, path_parent,
};
use crate::record::{find_field, parse_trash_info};
use crate::text::{
    chars_of, concat2, extend_str, has_suffix, slice_chars, str_eq, string_of, texts,
};
use crate::url_escape::{decoded_path, trash_spec_url_decode};
use vstd::prelude::*;
use vstd::string::StringExecFns;

verus! {

/// One item in the trash: where it lies, where its record lies, where it
/// came from and when it was deleted.
#[derive(Debug, Clone)]
pub struct TrashEntry {
    /// The item, in the `files` directory of a trash.
    pub trashed_path: String,
    /// The item's record, in the `info` directory of that trash.
    pub info_path: String,
    /// The place the item was taken from.
    pub original_path: String,
    /// The time of deletion, as the record gives it.
    pub deletion_date: String,
}

/// What a `TrashEntry` holds.
pub struct TrashEntryView {
    pub trashed_path: Seq<char>,
    pub info_path: Seq<char>,
    pub original_path: Seq<char>,
    pub deletion_date: Seq<char>,
}

impl View for TrashEntry {
    type V = TrashEntryView;

    open spec fn view(&self) -> TrashEntryView {
        TrashEntryView {
            trashed_path: self.trashed_path@,
            info_path: self.info_path@,
            original_path: self.original_path@,
            deletion_date: self.deletion_date@,
        }
    }
}

/// What the entries of a sequence hold.
pub open spec fn entry_views(entries: Seq<TrashEntry>) -> Seq<TrashEntryView> {
    entries.map_values(|e: TrashEntry| e@)
}

impl TrashEntry {
    /// The line that shows this entry where one is to be chosen: the time of
    /// deletion, the original place, and the place in the trash.
    pub fn text(&self) -> (r: String)
        ensures
            r@ == self.deletion_date@ + "  "@ + self.original_path@ + " <= "@
                + self.trashed_path@,
    {
        let mut out: Vec<char> = Vec::new();
        extend_str(&mut out, self.deletion_date.as_str());
        extend_str(&mut out, "  ");
        extend_str(&mut out, self.original_path.as_str());
        extend_str(&mut out, " <= ");
        extend_str(&mut out, self.trashed_path.as_str());
        string_of(&out)
    }
}

/// A file found in the `info` directory of a trash, with what it holds and
/// what the file system says of the item that it would describe.
#[derive(Debug)]
pub struct InfoFile {
    /// The root of the trash.
    pub trash_dir: String,
    /// The file.
    pub info_path: String,
    /// The text of the file.
    pub content: String,
    /// Whether something lies in `files` under the name of this file without
    /// the record suffix: at the path that `stored_item_path` gives.
    pub item_exists: bool,
}

/// What comes of reading one file of an `info` directory.
#[derive(Debug)]
pub enum RecordReading {
    /// The file is a record, and this is the item it describes.
    Entry(TrashEntry),
    /// The file is a record of an item that is not there.
    MissingItem,
    /// The file is a record whose path does not stand for UTF-8.
    Undecodable,
    /// The file is a record that lacks the path or the time of deletion.
    Incomplete,
    /// The file is no record: it lacks the record extension.
    NotARecord,
}

/// What a `RecordReading` holds.
pub enum RecordReadingView {
    Entry(TrashEntryView),
    MissingItem,
    Undecodable,
    Incomplete,
    NotARecord,
}

impl View for RecordReading {
    type V = RecordReadingView;

    open spec fn view(&self) -> RecordReadingView {
        match self {
            RecordReading::Entry(e) => RecordReadingView::Entry(e@),
            RecordReading::MissingItem => RecordReadingView::MissingItem,
            RecordReading::Undecodable => RecordReadingView::Undecodable,
            RecordReading::Incomplete => RecordReadingView::Incomplete,
            RecordReading::NotARecord => RecordReadingView::NotARecord,
        }
    }
}

/// Whether the path has the extension of a record.
pub open spec fn is_trash_info_path(info_path: Seq<char>) -> bool {
    path_extension(info_path) == Some(TRASH_INFO_EXTENSION@)
}

/// The name under which the item of a record file called `info_name` is
/// stored: the name without the record suffix.
pub open spec fn stored_name(info_name: Seq<char>) -> Seq<char> {
    if TRASH_INFO_SUFFIX@.is_suffix_of(info_name) {
        info_name.take(info_name.len() - TRASH_INFO_SUFFIX@.len())
    } else {
        info_name
    }
}

/// The place of the item that the record file at `info_path` in the trash
/// at `trash_dir` describes: in `files`, under the record's name without its
/// suffix.
pub open spec fn stored_item_of(trash_dir: Seq<char>, info_path: Seq<char>) -> Seq<char> {
    path_join(
        path_join(trash_dir, TRASH_FILES_DIR_NAME@),
        stored_name(path_file_name(info_path)->0),
    )
}

/// What reading `file` gives.
///
/// A file with the record extension that gives both a path and a time of
/// deletion, whose path stands for UTF-8, and whose item lies in `files`
/// beside it, describes that item. A record without its item describes
/// nothing.
pub open spec fn reading_of(file: InfoFile) -> RecordReadingView {
    let path = find_field(file.content@, TRASH_INFO_PATH_KEY@);
    let date = find_field(file.content@, TRASH_INFO_DATE_KEY@);
    if !is_trash_info_path(file.info_path@) {
        RecordReadingView::NotARecord
    } else if path is None || date is None {
        RecordReadingView::Incomplete
    } else if decoded_path(path->0) is None {
        RecordReadingView::Undecodable
    } else if !file.item_exists {
        RecordReadingView::MissingItem
    } else {
        RecordReadingView::Entry(
            TrashEntryView {
                trashed_path: stored_item_of(file.trash_dir@, file.info_path@),
                info_path: file.info_path@,
                original_path: decoded_path(path->0)->0,
                deletion_date: date->0,
            },
        )
    }
}

/// The entries that reading `files` gives, in the order of the files.
pub open spec fn entries_of(files: Seq<InfoFile>) -> Seq<TrashEntryView>
    decreases files.len(),
{
    if files.len() == 0 {
        seq![]
    } else {
        let before = entries_of(files.drop_last());
        match reading_of(files.last()) {
            RecordReadingView::Entry(e) => before.push(e),
            _ => before,
        }
    }
}

/// The records among `files` whose path does not stand for UTF-8, in the
/// order of the files.
pub open spec fn undecodable_of(files: Seq<InfoFile>) -> Seq<Seq<char>>
    decreases files.len(),
{
    if files.len() == 0 {
        seq![]
    } else {
        let before = undecodable_of(files.drop_last());
        match reading_of(files.last()) {
            RecordReadingView::Undecodable => before.push(files.last().info_path@),
            _ => before,
        }
    }
}

/// The records among `files` that lack the path or the time of deletion, in
/// the order of the files.
pub open spec fn incomplete_of(files: Seq<InfoFile>) -> Seq<Seq<char>>
    decreases files.len(),
{
    if files.len() == 0 {
        seq![]
    } else {
        let before = incomplete_of(files.drop_last());
        match reading_of(files.last()) {
            RecordReadingView::Incomplete => before.push(files.last().info_path@),
            _ => before,
        }
    }
}

/// The records among `files` whose item is not there, in the order of the
/// files.
pub open spec fn missing_item_of(files: Seq<InfoFile>) -> Seq<Seq<char>>
    decreases files.len(),
{
    if files.len() == 0 {
        seq![]
    } else {
        let before = missing_item_of(files.drop_last());
        match reading_of(files.last()) {
            RecordReadingView::MissingItem => before.push(files.last().info_path@),
            _ => before,
        }
    }
}

/// Reading works file by file: the entries of two runs of files, one after
/// the other, are the entries of the first followed by those of the second.
pub proof fn lemma_entries_of_concat(a: Seq<InfoFile>, b: Seq<InfoFile>)
    ensures
        entries_of(a + b) == entries_of(a) + entries_of(b),
    decreases b.len(),
{
    if b.len() == 0 {
        assert(a + b == a);
    } else {
        assert((a + b).drop_last() == a + b.drop_last());
        assert((a + b).last() == b.last());
        lemma_entries_of_concat(a, b.drop_last());
    }
}

/// Every entry that a scan finds comes from one of the files: a record
/// whose item lies beside it, and the entry names that record.
pub proof fn lemma_entry_has_item_and_record(files: Seq<InfoFile>, k: int)
    requires
        0 <= k < entries_of(files).len(),
    ensures
        exists|i: int|
            0 <= i < files.len() && (#[trigger] files[i]).item_exists && is_trash_info_path(
                files[i].info_path@,
            ) && reading_of(files[i]) == RecordReadingView::Entry(entries_of(files)[k])
                && entries_of(files)[k].info_path == files[i].info_path@,
    decreases files.len(),
{
    let before = entries_of(files.drop_last());
    let last = files.len() - 1;
    if k < before.len() {
        lemma_entry_has_item_and_record(files.drop_last(), k);
        let i = choose|i: int|
            0 <= i < files.drop_last().len() && (#[trigger] files.drop_last()[i]).item_exists
                && is_trash_info_path(files.drop_last()[i].info_path@) && reading_of(
                files.drop_last()[i],
            ) == RecordReadingView::Entry(entries_of(files.drop_last())[k]) && entries_of(
                files.drop_last(),
            )[k].info_path == files.drop_last()[i].info_path@;
        assert(files[i] == files.drop_last()[i]);
        assert(entries_of(files)[k] == before[k]);
    } else {
        assert(reading_of(files[last]) is Entry);
        assert(files[last].item_exists);
    }
}

/// A file that describes no item does not stand in the way of the files
/// around it: the entries found are those of the files before it followed by
/// those of the files after it.
pub proof fn lemma_no_entry_is_left_out(
    before: Seq<InfoFile>,
    file: InfoFile,
    after: Seq<InfoFile>,
)
    requires
        !(reading_of(file) is Entry),
    ensures
        entries_of(before + seq![file] + after) == entries_of(before) + entries_of(after),
{
    let one = seq![file];
    assert(one.drop_last() == Seq::<InfoFile>::empty());
    assert(entries_of(one.drop_last()) == Seq::<TrashEntryView>::empty());
    assert(entries_of(one) == Seq::<TrashEntryView>::empty());
    lemma_entries_of_concat(before, one);
    lemma_entries_of_concat(before + one, after);
}

/// A record without a `Path=` line describes no item, and does not stand in
/// the way of the records around it: the entries found are those of the
/// files before it followed by those of the files after it.
pub proof fn lemma_record_without_path_is_left_out(
    before: Seq<InfoFile>,
    file: InfoFile,
    after: Seq<InfoFile>,
)
    requires
        find_field(file.content@, TRASH_INFO_PATH_KEY@) is None,
    ensures
        !(reading_of(file) is Entry),
        entries_of(before + seq![file] + after) == entries_of(before) + entries_of(after),
{
    lemma_no_entry_is_left_out(before, file, after);
}

/// A record whose item is not there describes no item, however complete it
/// is: an entry appears only where the item and its record lie side by
/// side.
pub proof fn lemma_record_without_item_is_left_out(
    before: Seq<InfoFile>,
    file: InfoFile,
    after: Seq<InfoFile>,
)
    requires
        !file.item_exists,
    ensures
        !(reading_of(file) is Entry),
        entries_of(before + seq![file] + after) == entries_of(before) + entries_of(after),
{
    lemma_no_entry_is_left_out(before, file, after);
}

/// Whether the file at `info_path` is to be read as a record: whether it has
/// the record extension. Such a path has a last component, the record's
/// name.
pub fn is_trash_info_file(info_path: &str) -> (r: bool)
    ensures
        r == is_trash_info_path(info_path@),
        r ==> path_file_name(info_path@) is Some,
{
    match extension(info_path) {
        Some(ext) => str_eq(ext.as_str(), TRASH_INFO_EXTENSION),
        None => false,
    }
}

/// The name without the record suffix.
pub fn strip_info_suffix(info_name: &str) -> (r: String)
    ensures
        r@ == stored_name(info_name@),
{
    let name = chars_of(info_name);
    let suffix = chars_of(TRASH_INFO_SUFFIX);
    if has_suffix(&name, &suffix) {
        let base = slice_chars(&name, 0, name.len() - suffix.len());
        string_of(&base)
    } else {
        string_of(&name)
    }
}

/// The place of the item that the record file at `info_path` in the trash
/// at `trash_dir` describes, where `info_path` is the path of a record.
pub fn stored_item_path(trash_dir: &str, info_path: &str) -> (r: Option<String>)
    ensures
        r is Some == is_trash_info_path(info_path@),
        r matches Some(p) ==> p@ == stored_item_of(trash_dir@, info_path@),
{
    if !is_trash_info_file(info_path) {
        return None;
    }
    match file_name(info_path) {
        Some(info_name) => {
            let base = strip_info_suffix(info_name.as_str());
            let files_dir = join(trash_dir, TRASH_FILES_DIR_NAME);
            Some(join(files_dir.as_str(), base.as_str()))
        },
        None => None,
    }
}

/// Reads one file of an `info` directory.
pub fn read_info_file(file: &InfoFile) -> (r: RecordReading)
    ensures
        r@ == reading_of(*file),
{
    let trashed_path = match stored_item_path(file.trash_dir.as_str(), file.info_path.as_str()) {
        Some(p) => p,
        None => {
            return RecordReading::NotARecord;
        },
    };
    let fields = parse_trash_info(file.content.as_str());
    match (fields.path, fields.deletion_date) {
        (Some(escaped), Some(deletion_date)) => {
            match trash_spec_url_decode(escaped.as_str()) {
                Ok(original_path) => {
                    if !file.item_exists {
                        return RecordReading::MissingItem;
                    }
                    RecordReading::Entry(
                        TrashEntry {
                            trashed_path,
                            info_path: file.info_path.clone(),
                            original_path,
                            deletion_date,
                        },
                    )
                },
                Err(_) => RecordReading::Undecodable,
            }
        },
        _ => RecordReading::Incomplete,
    }
}

/// What a scan of the trash found.
#[derive(Debug)]
pub struct ScanOutcome {
    /// The items that can be restored.
    pub entries: Vec<TrashEntry>,
    /// The records that were passed over because they lack the path or the
    /// time of deletion.
    pub incomplete: Vec<String>,
    /// The records that were passed over because their path does not stand
    /// for UTF-8.
    pub undecodable: Vec<String>,
    /// The records that were passed over because their item is not there.
    pub missing_item: Vec<String>,
}

/// Finds the items that can be restored among the files of the `info`
/// directories.
///
/// An entry is found for each record that is complete, can be decoded, and
/// has its item beside it in `files`. Any other file yields no entry and
/// does not end the scan; the records among them are told by kind.
pub fn find_trash_entries_in_dirs(files: &Vec<InfoFile>) -> (r: ScanOutcome)
    ensures
        entry_views(r.entries@) == entries_of(files@),
        texts(r.incomplete@) == incomplete_of(files@),
        texts(r.undecodable@) == undecodable_of(files@),
        texts(r.missing_item@) == missing_item_of(files@),
{
    let mut entries: Vec<TrashEntry> = Vec::new();
    let mut incomplete: Vec<String> = Vec::new();
    let mut undecodable: Vec<String> = Vec::new();
    let mut missing_item: Vec<String> = Vec::new();
    let mut i: usize = 0;
    assert(files@.take(0) == Seq::<InfoFile>::empty());
    assert(entry_views(entries@) == Seq::<TrashEntryView>::empty());
    assert(texts(incomplete@) == Seq::<Seq<char>>::empty());
    while i < files.len()
        invariant
            i <= files.len(),
            entry_views(entries@) == entries_of(files@.take(i as int)),
            texts(incomplete@) == incomplete_of(files@.take(i as int)),
            texts(undecodable@) == undecodable_of(files@.take(i as int)),
            texts(missing_item@) == missing_item_of(files@.take(i as int)),
        decreases files.len() - i,
    {
        let ghost next = files@.take(i + 1);
        assert(next.drop_last() == files@.take(i as int));
        assert(next.last() == files@[i as int]);
        let ghost entries_before = entries@;
        let ghost incomplete_before = incomplete@;
        let ghost undecodable_before = undecodable@;
        let ghost missing_before = missing_item@;
        match read_info_file(&files[i]) {
            RecordReading::Entry(entry) => {
                entries.push(entry);
                assert(entry_views(entries@) == entry_views(entries_before).push(entry@));
            },
            RecordReading::Incomplete => {
                let path = files[i].info_path.clone();
                incomplete.push(path);
                assert(texts(incomplete@) == texts(incomplete_before).push(path@));
            },
            RecordReading::Undecodable => {
                let path = files[i].info_path.clone();
                undecodable.push(path);
                assert(texts(undecodable@) == texts(undecodable_before).push(path@));
            },
            RecordReading::MissingItem => {
                let path = files[i].info_path.clone();
                missing_item.push(path);
                assert(texts(missing_item@) == texts(missing_before).push(path@));
            },
            RecordReading::NotARecord => {},
        }
        i += 1;
    }
    assert(files@.take(files.len() as int) == files@);
    ScanOutcome { entries, incomplete, undecodable, missing_item }
}

/// Where the return of an item stands: which answer is awaited.
#[derive(Debug)]
pub enum RestoreState {
    /// Whether something stands at the original place.
    CheckingOriginal,
    /// That the directories above the original place were made.
    MakingParent { parent: String },
    /// Whether the item lies in the trash.
    CheckingTrashed,
    /// That the item was moved back.
    Moving,
    /// That the record was removed.
    Cleaning,
}

impl RestoreState {
    /// The kind of answer that is awaited in this state.
    pub open spec fn expects(&self) -> AnswerKind {
        match self {
            RestoreState::CheckingOriginal => AnswerKind::Flag,
            RestoreState::MakingParent { .. } => AnswerKind::Done,
            RestoreState::CheckingTrashed => AnswerKind::Flag,
            RestoreState::Moving => AnswerKind::Done,
            RestoreState::Cleaning => AnswerKind::Done,
        }
    }

    /// The kind of answer that is awaited in this state.
    pub fn answer_kind(&self) -> (r: AnswerKind)
        ensures
            r == self.expects(),
    {
        match self {
            RestoreState::CheckingOriginal => AnswerKind::Flag,
            RestoreState::MakingParent { .. } => AnswerKind::Done,
            RestoreState::CheckingTrashed => AnswerKind::Flag,
            RestoreState::Moving => AnswerKind::Done,
            RestoreState::Cleaning => AnswerKind::Done,
        }
    }
}

/// Whether `step` asks if the item of `entry` lies in the trash.
pub open spec fn asks_for_trashed(entry: TrashEntry, step: Step<RestoreState, String>) -> bool {
    step matches Step::Ask { state: RestoreState::CheckingTrashed, action: FsAction::Exists { path } }
        && path@ == entry.trashed_path@
}

/// Whether `step` is the first step of the return of `entry`: it asks if
/// something stands at the original place.
pub open spec fn is_first_restore_step(entry: TrashEntry, step: Step<RestoreState, String>) -> bool {
    step matches Step::Ask { state: RestoreState::CheckingOriginal, action: FsAction::Exists { path } }
        && path@ == entry.original_path@
}

/// Whether `step` is what follows in the return of `entry` when `answer`
/// comes in `state`.
///
/// An occupied original place ends the return with a collision. Else the
/// directories above the original place are made, where it has any; a
/// failure there ends the return. Then the item must lie in the trash, or
/// the return ends. Then the item is moved back; a failure ends the return.
/// Last the record is removed, and the return has succeeded whatever comes
/// of that.
pub open spec fn is_next_restore_step(
    entry: TrashEntry,
    state: RestoreState,
    answer: FsAnswer,
    step: Step<RestoreState, String>,
) -> bool {
    match (state, answer) {
        (RestoreState::CheckingOriginal, FsAnswer::Flag(occupied)) => if occupied {
            step matches Step::Finish(Err(AppError::RestoreCollision { path })) && path@
                == entry.original_path@
        } else {
            match path_parent(entry.original_path@) {
                Some(dir) => step matches Step::Ask {
                    state: RestoreState::MakingParent { parent },
                    action: FsAction::CreateDirAll { path },
                } && parent@ == dir && path@ == dir,
                None => asks_for_trashed(entry, step),
            }
        },
        (RestoreState::MakingParent { parent }, FsAnswer::Done(done)) => match done {
            Ok(_) => asks_for_trashed(entry, step),
            Err(failure) => step matches Step::Finish(Err(AppError::Io { path, source })) && path@
                == parent@ && source == failure,
        },
        (RestoreState::CheckingTrashed, FsAnswer::Flag(present)) => if present {
            step matches Step::Ask {
                state: RestoreState::Moving,
                action: FsAction::Rename { from, to },
            } && from@ == entry.trashed_path@ && to@ == entry.original_path@
        } else {
            step matches Step::Finish(Err(AppError::TrashedItemNotFound { path })) && path@
                == entry.trashed_path@
        },
        (RestoreState::Moving, FsAnswer::Done(done)) => match done {
            Ok(_) => step matches Step::Ask {
                state: RestoreState::Cleaning,
                action: FsAction::RemoveFile { path },
            } && path@ == entry.info_path@,
            Err(failure) => step matches Step::Finish(Err(AppError::Io { path, source })) && path@
                == entry.trashed_path@ && source == failure,
        },
        (RestoreState::Cleaning, FsAnswer::Done(_)) => step matches Step::Finish(Ok(path)) && path@
            == entry.original_path@,
        _ => true,
    }
}

/// Whether `step`, where it asks for an action, awaits the kind of answer
/// that the action calls for.
pub open spec fn restore_step_is_sound(step: Step<RestoreState, String>) -> bool {
    step matches Step::Ask { state, action } ==> state.expects() == action.expects()
}

/// The first step of the return of `entry`.
pub fn begin_restore(entry: &TrashEntry) -> (r: Step<RestoreState, String>)
    ensures
        is_first_restore_step(*entry, r),
        restore_step_is_sound(r),
{
    Step::Ask {
        state: RestoreState::CheckingOriginal,
        action: FsAction::Exists { path: entry.original_path.clone() },
    }
}

/// The step that asks if the item of `entry` lies in the trash.
fn ask_for_trashed(entry: &TrashEntry) -> (r: Step<RestoreState, String>)
    ensures
        asks_for_trashed(*entry, r),
        restore_step_is_sound(r),
{
    Step::Ask {
        state: RestoreState::CheckingTrashed,
        action: FsAction::Exists { path: entry.trashed_path.clone() },
    }
}

/// The next step of the return of `entry`, given the `answer` to what was
/// asked last.
pub fn restore_item(entry: &TrashEntry, state: RestoreState, answer: FsAnswer) -> (r: Step<
    RestoreState,
    String,
>)
    requires
        answer.kind() == state.expects(),
    ensures
        is_next_restore_step(*entry, state, answer, r),
        restore_step_is_sound(r),
{
    match (state, answer) {
        (RestoreState::CheckingOriginal, FsAnswer::Flag(occupied)) => {
            if occupied {
                return Step::Finish(
                    Err(AppError::RestoreCollision { path: entry.original_path.clone() }),
                );
            }
            match parent(entry.original_path.as_str()) {
                Some(dir) => Step::Ask {
                    state: RestoreState::MakingParent { parent: dir.clone() },
                    action: FsAction::CreateDirAll { path: dir },
                },
                None => ask_for_trashed(entry),
            }
        },
        (RestoreState::MakingParent { parent }, FsAnswer::Done(done)) => match done {
            Ok(_) => ask_for_trashed(entry),
            Err(failure) => Step::Finish(Err(AppError::Io { path: parent, source: failure })),
        },
        (RestoreState::CheckingTrashed, FsAnswer::Flag(present)) => {
            if present {
                Step::Ask {
                    state: RestoreState::Moving,
                    action: FsAction::Rename {
                        from: entry.trashed_path.clone(),
                        to: entry.original_path.clone(),
                    },
                }
            } else {
                Step::Finish(
                    Err(AppError::TrashedItemNotFound { path: entry.trashed_path.clone() }),
                )
            }
        },
        (RestoreState::Moving, FsAnswer::Done(done)) => match done {
            Ok(_) => Step::Ask {
                state: RestoreState::Cleaning,
                action: FsAction::RemoveFile { path: entry.info_path.clone() },
            },
            Err(failure) => Step::Finish(
                Err(AppError::Io { path: entry.trashed_path.clone(), source: failure }),
            ),
        },
        (RestoreState::Cleaning, FsAnswer::Done(_)) => Step::Finish(
            Ok(entry.original_path.clone()),
        ),
        _ => vstd::pervasive::unreached(),
    }
}

/// Where something stands at the original place, the return ends with the
/// collision error, and nothing was asked before that changes the file
/// system: the item in the trash and what stands at the original place are
/// as they were.
pub proof fn lemma_occupied_place_is_refused(
    entry: TrashEntry,
    first: Step<RestoreState, String>,
    second: Step<RestoreState, String>,
)
    requires
        is_first_restore_step(entry, first),
        is_next_restore_step(entry, first->state, FsAnswer::Flag(true), second),
    ensures
        !first->action.is_change(),
        second matches Step::Finish(Err(AppError::RestoreCollision { path })) && path@
            == entry.original_path@,
{
}

/// How the return of one item went.
#[derive(Debug)]
pub struct RestoreOutcome {
    /// The place the item was to return to.
    pub original_path: String,
    /// The place the item returned to, or why it did not.
    pub result: Result<String, AppError>,
}

/// The line that tells how the return of one item went.
pub open spec fn report_line(outcome: RestoreOutcome) -> Seq<char> {
    match outcome.result {
        Ok(path) => "Restored: "@ + path@,
        Err(e) => "Failed to restore '"@ + outcome.original_path@ + "': "@ + error_text(e),
    }
}

/// The lines that tell how the returns went, in order.
pub open spec fn report_lines(outcomes: Seq<RestoreOutcome>) -> Seq<Seq<char>> {
    outcomes.map_values(|o: RestoreOutcome| report_line(o))
}

/// Whether one of the returns failed.
pub open spec fn any_failed(outcomes: Seq<RestoreOutcome>) -> bool {
    exists|i: int| 0 <= i < outcomes.len() && (#[trigger] outcomes[i]).result is Err
}

/// What is to be told of a round of returns.
#[derive(Debug)]
pub struct RestoreReport {
    /// One line for each item, in order.
    pub messages: Vec<String>,
    /// Whether one of the returns failed.
    pub had_errors: bool,
}

/// Tells how a round of returns went.
pub fn restore_report(outcomes: &Vec<RestoreOutcome>) -> (r: RestoreReport)
    ensures
        texts(r.messages@) == report_lines(outcomes@),
        r.had_errors == any_failed(outcomes@),
{
    let mut messages: Vec<String> = Vec::new();
    let mut had_errors = false;
    let mut i: usize = 0;
    while i < outcomes.len()
        invariant
            i <= outcomes.len(),
            texts(messages@) == report_lines(outcomes@.take(i as int)),
            had_errors == any_failed(outcomes@.take(i as int)),
        decreases outcomes.len() - i,
    {
        let ghost before = messages@;
        let ghost done = outcomes@.take(i as int);
        let ghost next = outcomes@.take(i + 1);
        let line = match &outcomes[i].result {
            Ok(path) => concat2("Restored: ", path.as_str()),
            Err(e) => {
                let mut out: Vec<char> = Vec::new();
                extend_str(&mut out, "Failed to restore '");
                extend_str(&mut out, outcomes[i].original_path.as_str());
                extend_str(&mut out, "': ");
                let told = e.message();
                extend_str(&mut out, told.as_str());
                string_of(&out)
            },
        };
        proof {
            assert(next == done.push(outcomes@[i as int]));
            assert(report_lines(next) == report_lines(done).push(report_line(outcomes@[i as int])));
            if any_failed(done) {
                let k = choose|k: int| 0 <= k < done.len() && (#[trigger] done[k]).result is Err;
                assert(next[k].result is Err);
            }
            if outcomes@[i as int].result is Err {
                assert(next[i as int].result is Err);
            }
            if any_failed(next) {
                let k = choose|k: int| 0 <= k < next.len() && (#[trigger] next[k]).result is Err;
                if k < i {
                    assert(done[k].result is Err);
                }
            }
        }
        if outcomes[i].result.is_err() {
            had_errors = true;
        }
        messages.push(line);
        assert(texts(messages@) == texts(before).push(line@));
        i += 1;
    }
    assert(outcomes@.take(outcomes.len() as int) == outcomes@);
    RestoreReport { messages, had_errors }
}

/// The key bindings with which an item is chosen, in front of those that
/// the user has set, so that the user's own come later and win.
pub fn with_default_binds(binds: Vec<String>) -> (r: Vec<String>)
    ensures
        texts(r@) == seq!["Enter:accept"@, "Esc:abort"@, "ctrl-c:abort"@] + texts(binds@),
{
    let mut out: Vec<String> = Vec::new();
    out.push(String::from_str("Enter:accept"));
    out.push(String::from_str("Esc:abort"));
    out.push(String::from_str("ctrl-c:abort"));
    let ghost head = out@;
    let mut rest = binds;
    out.append(&mut rest);
    assert(texts(out@) == texts(head) + texts(binds@));
    assert(texts(head) == seq!["Enter:accept"@, "Esc:abort"@, "ctrl-c:abort"@]);
    out
}

} // verus!
