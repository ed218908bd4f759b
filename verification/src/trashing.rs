//! How an item is named and recorded when it goes to the trash.

use crate::actions::{AnswerKind, FsAction, FsAnswer, Step};
use crate::constants::{TRASH_INFO_DATE_FORMAT, TRASH_INFO_SUFFIX};
use crate::error::{AppError, IoErrorKind, IoFailure};
use crate::locations::TargetTrash;
use crate::record::{build_trash_info_content, record_text};
use crate::paths::{file_name, join, path_file_name, path_join, path_starts_with, starts_with};
use crate::text::{
    chars_eq, chars_of, concat2, concat3, decimal, decimal_chars, extend_chars, find_char,
    first_index_of, lemma_decimal_injective, lemma_first_index_of, slice_chars, string_of, texts,
};
use vstd::prelude::*;
use vstd::string::StringExecFns;
use vstd::set_lib::{lemma_int_range, lemma_len_subset, lemma_map_size, set_int_range};

verus! {

/// The first counter that is tried when a name is taken. The name itself
/// stands for the first item, so the second gets two.
pub const COLLISION_COUNTER_START: u32 = 2;

/// The name that is tried for the counter `n`: the counter goes in front of
/// the first dot of the name, with a dot of its own before it, and at the end
/// of a name that has no dot or starts with its first dot.
pub open spec fn candidate_name(name: Seq<char>, n: nat) -> Seq<char> {
    let dot = first_index_of(name, '.');
    if 0 < dot < name.len() {
        name.take(dot) + seq!['.'] + decimal(n) + name.skip(dot)
    } else {
        name + seq!['.'] + decimal(n)
    }
}

/// Whether `n` is the first counter, from two on, whose name is not taken.
pub open spec fn is_first_free_counter(name: Seq<char>, taken: Seq<Seq<char>>, n: nat) -> bool {
    &&& n >= 2
    &&& !taken.contains(candidate_name(name, n))
    &&& forall|m: nat| 2 <= m < n ==> taken.contains(#[trigger] candidate_name(name, m))
}

/// The first counter, from two on, whose name is not taken.
pub open spec fn first_free_counter(name: Seq<char>, taken: Seq<Seq<char>>) -> nat {
    choose|n: nat| is_first_free_counter(name, taken, n)
}

/// The name under which an item called `name` goes into a directory that
/// holds the names `taken`: its own where that is free, else the first free
/// one among those with a counter.
pub open spec fn available_name_of(name: Seq<char>, taken: Seq<Seq<char>>) -> Seq<char> {
    if !taken.contains(name) {
        name
    } else {
        candidate_name(name, first_free_counter(name, taken))
    }
}

/// Names with different counters differ.
pub proof fn lemma_candidate_injective(name: Seq<char>, a: nat, b: nat)
    requires
        candidate_name(name, a) == candidate_name(name, b),
    ensures
        a == b,
{
    lemma_first_index_of(name, '.');
    let dot = first_index_of(name, '.');
    let ca = candidate_name(name, a);
    let cb = candidate_name(name, b);
    let start = if 0 < dot < name.len() {
        dot + 1
    } else {
        name.len() as int + 1
    };
    assert(ca.len() == cb.len());
    assert(decimal(a).len() == decimal(b).len());
    assert(ca.subrange(start, start + decimal(a).len()) == decimal(a));
    assert(cb.subrange(start, start + decimal(b).len()) == decimal(b));
    lemma_decimal_injective(a, b);
}

/// Where every counter from two up to, not including, `bound` has its name
/// taken, at least that many names are taken.
pub proof fn lemma_taken_counters_bounded(name: Seq<char>, taken: Seq<Seq<char>>, bound: nat)
    requires
        forall|m: nat| 2 <= m < bound ==> taken.contains(#[trigger] candidate_name(name, m)),
    ensures
        bound <= taken.len() + 2,
{
    if bound > 2 {
        let counters = set_int_range(2, bound as int);
        let f = |m: int| candidate_name(name, m as nat);
        let names = counters.map(f);
        lemma_int_range(2, bound as int);
        assert(vstd::relations::injective_on(f, counters)) by {
            assert forall|x: int, y: int|
                counters.contains(x) && counters.contains(y) && #[trigger] f(x) == #[trigger] f(
                    y,
                ) implies x == y by {
                lemma_candidate_injective(name, x as nat, y as nat);
            }
        }
        lemma_map_size(counters, names, f);
        assert(names.subset_of(taken.to_set())) by {
            assert forall|s: Seq<char>| names.contains(s) implies taken.to_set().contains(s) by {
                let m = choose|m: int| counters.contains(m) && f(m) == s;
                assert(taken.contains(candidate_name(name, m as nat)));
            }
        }
        vstd::seq_lib::seq_to_set_is_finite(taken);
        lemma_len_subset(names, taken.to_set());
        taken.lemma_cardinality_of_set();
    }
}

/// Some counter is the first free one, whatever names are taken.
pub proof fn lemma_first_free_counter_exists(name: Seq<char>, taken: Seq<Seq<char>>, from: nat)
    requires
        from >= 2,
        forall|m: nat| 2 <= m < from ==> taken.contains(#[trigger] candidate_name(name, m)),
    ensures
        is_first_free_counter(name, taken, first_free_counter(name, taken)),
    decreases taken.len() + 2 - from,
{
    lemma_taken_counters_bounded(name, taken, from);
    if !taken.contains(candidate_name(name, from)) {
        assert(is_first_free_counter(name, taken, from));
    } else {
        lemma_taken_counters_bounded(name, taken, from + 1);
        lemma_first_free_counter_exists(name, taken, from + 1);
    }
}

/// No two counters are both the first free one.
pub proof fn lemma_first_free_counter_unique(
    name: Seq<char>,
    taken: Seq<Seq<char>>,
    a: nat,
    b: nat,
)
    requires
        is_first_free_counter(name, taken, a),
        is_first_free_counter(name, taken, b),
    ensures
        a == b,
{
    if a < b {
        assert(taken.contains(candidate_name(name, a)));
    } else if b < a {
        assert(taken.contains(candidate_name(name, b)));
    }
}

/// A name that is not taken is kept as it is.
pub proof fn lemma_free_name_is_kept(name: Seq<char>, taken: Seq<Seq<char>>)
    requires
        !taken.contains(name),
    ensures
        available_name_of(name, taken) == name,
{
}

/// A name that is taken, with no counter taken yet, gets the counter two.
pub proof fn lemma_first_collision_uses_two(name: Seq<char>, taken: Seq<Seq<char>>)
    requires
        taken.contains(name),
        !taken.contains(candidate_name(name, 2)),
    ensures
        available_name_of(name, taken) == candidate_name(name, 2),
{
    assert(is_first_free_counter(name, taken, 2));
    lemma_first_free_counter_unique(name, taken, 2, first_free_counter(name, taken));
}

/// The name under which an item goes into the trash is free, and is the
/// item's own name or one with a counter of two or more: never the counter
/// one.
pub proof fn lemma_available_name(name: Seq<char>, taken: Seq<Seq<char>>)
    ensures
        !taken.contains(available_name_of(name, taken)),
        available_name_of(name, taken) != candidate_name(name, 1),
        taken.contains(name) ==> first_free_counter(name, taken) >= 2,
{
    lemma_first_index_of(name, '.');
    if taken.contains(name) {
        lemma_first_free_counter_exists(name, taken, 2);
        let n = first_free_counter(name, taken);
        if candidate_name(name, n) == candidate_name(name, 1) {
            lemma_candidate_injective(name, n, 1);
        }
    } else {
        assert(candidate_name(name, 1).len() > name.len());
    }
}

/// Whether `name` is among `existing`.
pub fn contains_name(existing: &Vec<String>, name: &Vec<char>) -> (r: bool)
    ensures
        r == texts(existing@).contains(name@),
{
    let mut i: usize = 0;
    while i < existing.len()
        invariant
            i <= existing.len(),
            forall|j: int| 0 <= j < i ==> texts(existing@)[j] != name@,
        decreases existing.len() - i,
    {
        let here = chars_of(existing[i].as_str());
        assert(texts(existing@)[i as int] == existing@[i as int]@);
        if chars_eq(&here, name) {
            return true;
        }
        i += 1;
    }
    false
}

/// The name that is tried for the counter `n`.
pub fn candidate(name: &Vec<char>, n: u128) -> (r: Vec<char>)
    ensures
        r@ == candidate_name(name@, n as nat),
{
    let dot = find_char(name, '.');
    let digits = decimal_chars(n);
    if 0 < dot && dot < name.len() {
        let mut out = slice_chars(name, 0, dot);
        out.push('.');
        extend_chars(&mut out, &digits);
        let tail = slice_chars(name, dot, name.len());
        extend_chars(&mut out, &tail);
        out
    } else {
        let mut out = slice_chars(name, 0, name.len());
        assert(out@ == name@);
        out.push('.');
        extend_chars(&mut out, &digits);
        out
    }
}

/// The name under which an item called `file_name` goes into a directory
/// that holds `existing`.
pub fn available_name(file_name: &str, existing: &Vec<String>) -> (r: String)
    ensures
        r@ == available_name_of(file_name@, texts(existing@)),
{
    let name = chars_of(file_name);
    let ghost taken = texts(existing@);
    if !contains_name(existing, &name) {
        return string_of(&name);
    }
    let mut counter: u128 = 2;
    loop
        invariant
            taken == texts(existing@),
            name@ == file_name@,
            taken.contains(name@),
            2 <= counter <= existing.len() + 2,
            forall|m: nat| 2 <= m < counter ==> taken.contains(#[trigger] candidate_name(name@, m)),
        decreases existing.len() + 2 - counter,
    {
        let tried = candidate(&name, counter);
        if !contains_name(existing, &tried) {
            proof {
                assert(is_first_free_counter(name@, taken, counter as nat));
                lemma_first_free_counter_unique(
                    name@,
                    taken,
                    counter as nat,
                    first_free_counter(name@, taken),
                );
            }
            return string_of(&tried);
        }
        proof {
            lemma_taken_counters_bounded(name@, taken, (counter + 1) as nat);
        }
        counter += 1;
    }
}

/// Whether `source_path` lies in the trash directory `trash_path`: at its
/// root, or anywhere below it.
pub fn is_already_in_any_trash_location(source_path: &str, trash_path: &str) -> (r: bool)
    ensures
        r == path_starts_with(source_path@, trash_path@),
{
    starts_with(source_path, trash_path)
}

/// The place in the directory `trash_files_path` for the item at
/// `source_path`, given the names `existing` that the directory holds.
///
/// A source without a last component is refused.
pub fn find_available_dest_path(
    source_path: &str,
    trash_files_path: &str,
    existing: &Vec<String>,
) -> (r: Result<String, AppError>)
    ensures
        path_file_name(source_path@) is None ==> (r matches Err(AppError::Message(m)) && m@
            == "Source path '"@ + source_path@ + "' has no filename"@),
        path_file_name(source_path@) matches Some(name) ==> (r matches Ok(p) && p@ == path_join(
            trash_files_path@,
            available_name_of(name, texts(existing@)),
        )),
{
    match file_name(source_path) {
        Some(name) => {
            let chosen = available_name(name.as_str(), existing);
            Ok(join(trash_files_path, chosen.as_str()))
        },
        None => Err(AppError::Message(concat3("Source path '", source_path, "' has no filename"))),
    }
}

/// The record file for the item that lies at `dest_path` in the trash: in
/// `trash_info_path`, under the item's name with the record suffix.
pub fn determine_info_file_path(dest_path: &str, trash_info_path: &str) -> (r: String)
    requires
        path_file_name(dest_path@) is Some,
    ensures
        r@ == path_join(trash_info_path@, path_file_name(dest_path@)->0 + TRASH_INFO_SUFFIX@),
{
    match file_name(dest_path) {
        Some(name) => {
            let info_name = concat2(name.as_str(), TRASH_INFO_SUFFIX);
            join(trash_info_path, info_name.as_str())
        },
        None => String::new(),
    }
}

/// The record file for the item that lies at `dest_path` in the trash, where
/// `dest_path` has a last component.
pub fn try_determine_info_file_path(dest_path: &str, trash_info_path: &str) -> (r: Option<String>)
    ensures
        r is Some == path_file_name(dest_path@) is Some,
        r matches Some(p) ==> p@ == path_join(
            trash_info_path@,
            path_file_name(dest_path@)->0 + TRASH_INFO_SUFFIX@,
        ),
{
    match file_name(dest_path) {
        Some(_) => Some(determine_info_file_path(dest_path, trash_info_path)),
        None => None,
    }
}

/// The names, with `, ` between them.
pub open spec fn comma_list(names: Seq<Seq<char>>) -> Seq<char>
    decreases names.len(),
{
    if names.len() == 0 {
        seq![]
    } else if names.len() == 1 {
        names[0]
    } else {
        comma_list(names.drop_last()) + ", "@ + names.last()
    }
}

/// The line that tells which items went to the trash.
pub fn trashed_line(names: &Vec<String>) -> (r: String)
    ensures
        r@ == "Trashed: "@ + comma_list(texts(names@)),
{
    let ghost all = texts(names@);
    let mut list: Vec<char> = Vec::new();
    let mut i: usize = 0;
    assert(all.take(0) == Seq::<Seq<char>>::empty());
    while i < names.len()
        invariant
            i <= names.len(),
            all == texts(names@),
            list@ == comma_list(all.take(i as int)),
        decreases names.len() - i,
    {
        let ghost next = all.take(i + 1);
        assert(next.drop_last() == all.take(i as int));
        assert(next.last() == names@[i as int]@);
        if i > 0 {
            crate::text::extend_str(&mut list, ", ");
        } else {
            assert(next[0] == names@[i as int]@);
            assert(list@ + names@[i as int]@ == names@[i as int]@);
        }
        crate::text::extend_str(&mut list, names[i].as_str());
        i += 1;
    }
    assert(all.take(names.len() as int) == all);
    let listed = string_of(&list);
    concat2("Trashed: ", listed.as_str())
}

/// Where the trashing of an item stands: which answer is awaited.
#[derive(Debug)]
pub enum TrashingState {
    /// Whether the source exists.
    CheckingSource,
    /// The names that the `files` directory holds.
    ListingFiles,
    /// The canonical form of the source; the item will go to `dest_path`,
    /// its record to `info_file`.
    Resolving { dest_path: String, info_file: String },
    /// The time; the source is `original`, in canonical form.
    Dating { dest_path: String, info_file: String, original: String },
    /// That the record was written.
    WritingInfo { dest_path: String, info_file: String },
    /// That the item was moved.
    Moving { info_file: String },
    /// That the record was removed, after the move failed with `failure`.
    CleaningUp { failure: IoFailure },
}

impl TrashingState {
    /// The kind of answer that is awaited in this state.
    pub open spec fn expects(&self) -> AnswerKind {
        match self {
            TrashingState::CheckingSource => AnswerKind::Flag,
            TrashingState::ListingFiles => AnswerKind::Names,
            TrashingState::Resolving { .. } => AnswerKind::Text,
            TrashingState::Dating { .. } => AnswerKind::Time,
            TrashingState::WritingInfo { .. } => AnswerKind::Done,
            TrashingState::Moving { .. } => AnswerKind::Done,
            TrashingState::CleaningUp { .. } => AnswerKind::Done,
        }
    }

    /// The kind of answer that is awaited in this state.
    pub fn answer_kind(&self) -> (r: AnswerKind)
        ensures
            r == self.expects(),
    {
        match self {
            TrashingState::CheckingSource => AnswerKind::Flag,
            TrashingState::ListingFiles => AnswerKind::Names,
            TrashingState::Resolving { .. } => AnswerKind::Text,
            TrashingState::Dating { .. } => AnswerKind::Time,
            TrashingState::WritingInfo { .. } => AnswerKind::Done,
            TrashingState::Moving { .. } => AnswerKind::Done,
            TrashingState::CleaningUp { .. } => AnswerKind::Done,
        }
    }
}

/// The `files` directory of the trash at `root`.
pub open spec fn files_dir_of(root: Seq<char>) -> Seq<char> {
    path_join(root, crate::constants::TRASH_FILES_DIR_NAME@)
}

/// The `info` directory of the trash at `root`.
pub open spec fn info_dir_of(root: Seq<char>) -> Seq<char> {
    path_join(root, crate::constants::TRASH_INFO_DIR_NAME@)
}

/// Whether `step` is the first step of trashing `source_path`: it asks if
/// the source exists.
pub open spec fn is_first_trashing_step(source_path: Seq<char>, step: Step<TrashingState, ()>) -> bool {
    step matches Step::Ask { state: TrashingState::CheckingSource, action: FsAction::Exists { path } }
        && path@ == source_path
}

/// Whether `step` is what follows in the trashing of `source_path` into the
/// trash at `root` when `answer` comes in `state`.
///
/// A source that does not exist, or lies in the trash already, ends the
/// operation. Else the item gets the first free name in `files`, and its
/// record the same name with the record suffix in `info`. A source whose
/// canonical form cannot be had, or a record that cannot be written, ends
/// the operation with the failure on that path. The record is written
/// before the item is moved. Where the move fails, the record is
/// removed again, and the operation ends with the failure of the move: as a
/// move across file systems where it was one, else as a failure on the
/// source.
pub open spec fn is_next_trashing_step(
    source_path: Seq<char>,
    root: Seq<char>,
    state: TrashingState,
    answer: FsAnswer,
    step: Step<TrashingState, ()>,
) -> bool {
    match (state, answer) {
        (TrashingState::CheckingSource, FsAnswer::Flag(present)) => if !present {
            step matches Step::Finish(Err(AppError::Io { path, source })) && path@ == source_path
                && source.kind == IoErrorKind::NotFound && source.message@
                == "source file not found"@
        } else if path_starts_with(source_path, root) {
            step matches Step::Finish(Err(AppError::AlreadyInTrash { path })) && path@
                == source_path
        } else {
            step matches Step::Ask {
                state: TrashingState::ListingFiles,
                action: FsAction::ListNames { dir },
            } && dir@ == files_dir_of(root)
        },
        (TrashingState::ListingFiles, FsAnswer::Names(names)) => match path_file_name(
            source_path,
        ) {
            None => step matches Step::Finish(Err(AppError::Message(m))) && m@ == "Source path '"@
                + source_path + "' has no filename"@,
            Some(name) => {
                let chosen = available_name_of(name, texts(names@));
                step matches Step::Ask {
                    state: TrashingState::Resolving { dest_path, info_file },
                    action: FsAction::Canonicalize { path },
                } && dest_path@ == path_join(files_dir_of(root), chosen) && info_file@
                    == path_join(info_dir_of(root), chosen + TRASH_INFO_SUFFIX@) && path@
                    == source_path
            },
        },
        (TrashingState::Resolving { dest_path, info_file }, FsAnswer::Text(text)) => match text {
            Err(failure) => step matches Step::Finish(Err(AppError::Io { path, source })) && path@
                == source_path && source == failure,
            Ok(canonical) => step matches Step::Ask {
                state: TrashingState::Dating { dest_path: d, info_file: i, original },
                action: FsAction::LocalTime { format },
            } && d@ == dest_path@ && i@ == info_file@ && original@ == canonical@ && format@
                == TRASH_INFO_DATE_FORMAT@,
        },
        (TrashingState::Dating { dest_path, info_file, original }, FsAnswer::Time(date)) => {
            step matches Step::Ask {
                state: TrashingState::WritingInfo { dest_path: d, info_file: i },
                action: FsAction::WriteFile { path, content },
            } && d@ == dest_path@ && i@ == info_file@ && path@ == info_file@ && content@
                == record_text(original@, date@)
        },
        (TrashingState::WritingInfo { dest_path, info_file }, FsAnswer::Done(done)) => match done {
            Err(failure) => step matches Step::Finish(Err(AppError::Io { path, source })) && path@
                == info_file@ && source == failure,
            Ok(_) => step matches Step::Ask {
                state: TrashingState::Moving { info_file: i },
                action: FsAction::Rename { from, to },
            } && i@ == info_file@ && from@ == source_path && to@ == dest_path@,
        },
        (TrashingState::Moving { info_file }, FsAnswer::Done(done)) => match done {
            Ok(_) => step matches Step::Finish(Ok(_)),
            Err(failure) => step matches Step::Ask {
                state: TrashingState::CleaningUp { failure: kept },
                action: FsAction::RemoveFile { path },
            } && kept == failure && path@ == info_file@,
        },
        (TrashingState::CleaningUp { failure }, FsAnswer::Done(_)) => if failure.kind
            == IoErrorKind::CrossesDevices {
            step matches Step::Finish(Err(AppError::CrossDeviceMove { path })) && path@
                == source_path
        } else {
            step matches Step::Finish(Err(AppError::Io { path, source })) && path@ == source_path
                && source == failure
        },
        _ => true,
    }
}

/// Whether `step`, where it asks for an action, awaits the kind of answer
/// that the action calls for.
pub open spec fn trashing_step_is_sound(step: Step<TrashingState, ()>) -> bool {
    step matches Step::Ask { state, action } ==> state.expects() == action.expects()
}

/// The first step of trashing the item at `source_path`.
pub fn begin_trashing(source_path: &str) -> (r: Step<TrashingState, ()>)
    ensures
        is_first_trashing_step(source_path@, r),
        trashing_step_is_sound(r),
{
    Step::Ask {
        state: TrashingState::CheckingSource,
        action: FsAction::Exists { path: String::from_str(source_path) },
    }
}

/// The next step of trashing the item at `source_path` into `target_trash`,
/// given the `answer` to what was asked last.
pub fn trash_item(
    source_path: &str,
    target_trash: &TargetTrash,
    state: TrashingState,
    answer: FsAnswer,
) -> (r: Step<TrashingState, ()>)
    requires
        answer.kind() == state.expects(),
    ensures
        is_next_trashing_step(source_path@, target_trash@.root_path, state, answer, r),
        trashing_step_is_sound(r),
{
    match (state, answer) {
        (TrashingState::CheckingSource, FsAnswer::Flag(present)) => {
            if !present {
                return Step::Finish(
                    Err(
                        AppError::Io {
                            path: String::from_str(source_path),
                            source: IoFailure {
                                kind: IoErrorKind::NotFound,
                                message: String::from_str("source file not found"),
                            },
                        },
                    ),
                );
            }
            if is_already_in_any_trash_location(source_path, target_trash.root_path()) {
                return Step::Finish(
                    Err(AppError::AlreadyInTrash { path: String::from_str(source_path) }),
                );
            }
            Step::Ask {
                state: TrashingState::ListingFiles,
                action: FsAction::ListNames { dir: target_trash.files_path() },
            }
        },
        (TrashingState::ListingFiles, FsAnswer::Names(names)) => {
            match file_name(source_path) {
                None => Step::Finish(
                    Err(
                        AppError::Message(
                            concat3("Source path '", source_path, "' has no filename"),
                        ),
                    ),
                ),
                Some(name) => {
                    let chosen = available_name(name.as_str(), &names);
                    let files_dir = target_trash.files_path();
                    let info_dir = target_trash.info_path();
                    let info_name = concat2(chosen.as_str(), TRASH_INFO_SUFFIX);
                    Step::Ask {
                        state: TrashingState::Resolving {
                            dest_path: join(files_dir.as_str(), chosen.as_str()),
                            info_file: join(info_dir.as_str(), info_name.as_str()),
                        },
                        action: FsAction::Canonicalize { path: String::from_str(source_path) },
                    }
                },
            }
        },
        (TrashingState::Resolving { dest_path, info_file }, FsAnswer::Text(text)) => match text {
            Err(failure) => Step::Finish(
                Err(AppError::Io { path: String::from_str(source_path), source: failure }),
            ),
            Ok(canonical) => Step::Ask {
                state: TrashingState::Dating { dest_path, info_file, original: canonical },
                action: FsAction::LocalTime { format: String::from_str(TRASH_INFO_DATE_FORMAT) },
            },
        },
        (TrashingState::Dating { dest_path, info_file, original }, FsAnswer::Time(date)) => {
            let content = build_trash_info_content(original.as_str(), date.as_str());
            Step::Ask {
                state: TrashingState::WritingInfo { dest_path, info_file: info_file.clone() },
                action: FsAction::WriteFile { path: info_file, content },
            }
        },
        (TrashingState::WritingInfo { dest_path, info_file }, FsAnswer::Done(done)) => match done {
            Err(failure) => Step::Finish(Err(AppError::Io { path: info_file, source: failure })),
            Ok(_) => Step::Ask {
                state: TrashingState::Moving { info_file },
                action: FsAction::Rename { from: String::from_str(source_path), to: dest_path },
            },
        },
        (TrashingState::Moving { info_file }, FsAnswer::Done(done)) => match done {
            Ok(_) => Step::Finish(Ok(())),
            Err(failure) => Step::Ask {
                state: TrashingState::CleaningUp { failure },
                action: FsAction::RemoveFile { path: info_file },
            },
        },
        (TrashingState::CleaningUp { failure }, FsAnswer::Done(_)) => {
            if failure.kind == IoErrorKind::CrossesDevices {
                Step::Finish(
                    Err(AppError::CrossDeviceMove { path: String::from_str(source_path) }),
                )
            } else {
                Step::Finish(
                    Err(AppError::Io { path: String::from_str(source_path), source: failure }),
                )
            }
        },
        _ => vstd::pervasive::unreached(),
    }
}

/// The record comes before the move, and a failed move takes the record
/// away again: the item is only asked to be moved in answer to the record
/// having been written, to the place that was chosen with the record's; and
/// the answer to a failed move is to remove that same record.
pub proof fn lemma_record_before_move(
    source_path: Seq<char>,
    root: Seq<char>,
    state: TrashingState,
    answer: FsAnswer,
    step: Step<TrashingState, ()>,
)
    requires
        answer.kind() == state.expects(),
        is_next_trashing_step(source_path, root, state, answer, step),
    ensures
        step matches Step::Ask { action: FsAction::Rename { from, to }, .. } ==> (state is WritingInfo
            && answer.is_success() && from@ == source_path && to@
            == state->WritingInfo_dest_path@),
        (state is Moving && answer.is_failure()) ==> (step matches Step::Ask {
            action: FsAction::RemoveFile { path },
            ..
        } && path@ == state->Moving_info_file@),
        step matches Step::Finish(Ok(_)) ==> (state is Moving && answer.is_success()),
{
}

} // verus!
