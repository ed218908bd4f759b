//! Emptying the trash.
//!
//! A trash directory is emptied by removing its `files` and `info`
//! directories with all they hold and creating them anew, since everything
//! else counts on the two being there. Before that the user is asked, unless
//! told otherwise; an empty reply means yes.

use crate::actions::{AnswerKind, FsAction, FsAnswer, Step};
use crate::constants::{TRASH_FILES_DIR_NAME, TRASH_INFO_DIR_NAME};
use crate::error::{AppError, IoFailure};
use crate::paths::{join, path_join};
use crate::text::{
    chars_of, decimal, decimal_chars, extend_chars, extend_str, first_index_of, lowercase_of,
    lemma_first_index_of_unique, slice_chars, str_eq, string_of, to_lowercase, trim, trimmed,
};
use vstd::prelude::*;

verus! {

/// How the trash is to be emptied.
#[derive(Debug, Clone, Copy, PartialEq, Eq, Structural)]
pub struct EmptyTrashOptions {
    /// Every trash directory, not only the home trash.
    pub all_trash: bool,
    /// Do not ask first.
    pub no_confirm: bool,
    /// Show what the trash holds first.
    pub display: bool,
    /// Show it in the long form.
    pub long_format: bool,
}

/// What is to be done with one trash directory.
#[derive(Debug, Clone, Copy, PartialEq, Eq, Structural)]
pub struct EmptyPlan {
    /// The directory is empty already: it is only reported.
    pub already_empty: bool,
    /// What the directory holds is shown first.
    pub list_contents: bool,
    /// The user is asked first.
    pub ask_first: bool,
}

/// The number of items in a trash directory, and whether it is empty: it is
/// where neither `files` nor `info` holds anything.
pub fn get_trash_status(files_count: usize, info_count: usize) -> (r: (usize, bool))
    ensures
        r.0 == files_count,
        r.1 == (files_count == 0 && info_count == 0),
{
    (files_count, files_count == 0 && info_count == 0)
}

/// What is to be done with a trash directory that is empty or not, under the
/// options `opts`.
pub fn plan_emptying(is_empty: bool, opts: &EmptyTrashOptions) -> (r: EmptyPlan)
    ensures
        r.already_empty == is_empty,
        r.list_contents == (!is_empty && (opts.display || opts.long_format)),
        r.ask_first == (!is_empty && !opts.no_confirm),
{
    EmptyPlan {
        already_empty: is_empty,
        list_contents: !is_empty && (opts.display || opts.long_format),
        ask_first: !is_empty && !opts.no_confirm,
    }
}

/// The line that reports a trash directory with its number of items.
pub open spec fn status_line_of(item_count: nat, path: Seq<char>) -> Seq<char> {
    seq!['('] + decimal(item_count) + "): "@ + path
}

/// The line that reports a trash directory with its number of items.
pub fn status_line(item_count: usize, path: &str) -> (r: String)
    ensures
        r@ == status_line_of(item_count as nat, path@),
{
    let mut out: Vec<char> = Vec::new();
    out.push('(');
    let digits = decimal_chars(item_count as u128);
    extend_chars(&mut out, &digits);
    extend_str(&mut out, "): ");
    extend_str(&mut out, path);
    string_of(&out)
}

/// The question whether a trash directory is to be emptied.
pub fn confirmation_prompt(item_count: usize, path: &str) -> (r: String)
    ensures
        r@ == status_line_of(item_count as nat, path@) + " - to empty? [Y/n]: "@,
{
    let head = status_line(item_count, path);
    crate::text::concat2(head.as_str(), " - to empty? [Y/n]: ")
}

/// The line that tells that a trash directory was emptied.
pub fn emptied_line(path: &str) -> (r: String)
    ensures
        r@ == "Emptied trash at: "@ + path@,
{
    crate::text::concat2("Emptied trash at: ", path)
}

/// What a reply means, once white space around it is gone and it is in lower
/// case: yes for nothing, `y` and `yes`; no for `n` and `no`; nothing for
/// anything else.
pub open spec fn reply_meaning(normalized: Seq<char>) -> Option<bool> {
    if normalized.len() == 0 || normalized == "y"@ || normalized == "yes"@ {
        Some(true)
    } else if normalized == "n"@ || normalized == "no"@ {
        Some(false)
    } else {
        None
    }
}

/// What the reply `input` means.
pub open spec fn meaning_of(input: Seq<char>) -> Option<bool> {
    reply_meaning(lowercase_of(trimmed(input)))
}

/// What a reply means that is trimmed and in lower case already.
pub fn interpret_reply(normalized: &str) -> (r: Option<bool>)
    ensures
        r == reply_meaning(normalized@),
{
    let text = chars_of(normalized);
    if text.len() == 0 || str_eq(normalized, "y") || str_eq(normalized, "yes") {
        Some(true)
    } else if str_eq(normalized, "n") || str_eq(normalized, "no") {
        Some(false)
    } else {
        None
    }
}

/// What the reply `input` means: yes, no, or that the question is to be put
/// again. A reply that holds nothing, or nothing but white space, means yes.
pub fn parse_reply(input: &str) -> (r: Option<bool>)
    ensures
        r == meaning_of(input@),
        trimmed(input@).len() == 0 ==> r == Some(true),
        input@.len() == 0 ==> r == Some(true),
{
    let text = chars_of(input);
    let cut = trim(&text);
    proof {
        if input@.len() == 0 {
            crate::text::lemma_trimmed_empty(input@);
        }
    }
    let cut_text = string_of(&cut);
    let lower = to_lowercase(cut_text.as_str());
    interpret_reply(lower.as_str())
}

/// Length of what one reading takes from `input`: a line with its line feed,
/// or all that is left.
pub open spec fn reading_len(input: Seq<char>) -> int {
    let end = first_index_of(input, '\n');
    if 0 <= end < input.len() {
        end + 1
    } else {
        input.len() as int
    }
}

/// Number of times the question is put when the replies are read from
/// `input`, line by line: once, and once more after each reply that means
/// nothing.
pub open spec fn questions_asked(input: Seq<char>) -> nat
    decreases input.len(),
{
    let taken = reading_len(input);
    if meaning_of(input.take(taken)) is Some || taken <= 0 {
        1
    } else {
        1 + questions_asked(input.skip(taken))
    }
}

/// The answer that comes of the replies in `input`, read line by line: what
/// the first reply with a meaning means. Where the input ends before such a
/// reply, the next reading finds nothing, and nothing means yes.
pub open spec fn answer_given(input: Seq<char>) -> bool
    decreases input.len(),
{
    let taken = reading_len(input);
    match meaning_of(input.take(taken)) {
        Some(answer) => answer,
        None => if taken <= 0 {
            true
        } else {
            answer_given(input.skip(taken))
        },
    }
}

/// `message`, `n` times over.
pub open spec fn repeated(message: Seq<char>, n: nat) -> Seq<char>
    decreases n,
{
    if n == 0 {
        seq![]
    } else {
        repeated(message, (n - 1) as nat) + message
    }
}

/// What came of asking: the answer, and all that was written while asking.
#[derive(Debug)]
pub struct Confirmation {
    pub answer: bool,
    pub output: String,
}

/// Asks `message` of a user whose replies are the lines of `input`.
///
/// The question is written, and a line is read; this is done again as long
/// as the reply means nothing.
pub fn confirm_input(message: &str, input: &str) -> (r: Confirmation)
    ensures
        r.answer == answer_given(input@),
        r.output@ == repeated(message@, questions_asked(input@)),
{
    let text = chars_of(input);
    let mut output: Vec<char> = Vec::new();
    let mut pos: usize = 0;
    let ghost mut asked: nat = 0;
    assert(text@.skip(0) == text@);
    loop
        invariant
            pos <= text.len(),
            text@ == input@,
            output@ == repeated(message@, asked),
            answer_given(input@) == answer_given(text@.skip(pos as int)),
            questions_asked(input@) == asked + questions_asked(text@.skip(pos as int)),
        decreases text.len() - pos,
    {
        let ghost rest = text@.skip(pos as int);
        extend_str(&mut output, message);
        proof {
            asked = asked + 1;
        }
        let mut end: usize = pos;
        while end < text.len() && text[end] != '\n'
            invariant
                pos <= end <= text.len(),
                forall|j: int| pos <= j < end ==> text@[j] != '\n',
            decreases text.len() - end,
        {
            end += 1;
        }
        proof {
            assert forall|j: int| 0 <= j < end - pos implies rest[j] != '\n' by {
                assert(rest[j] == text@[pos + j]);
            }
            if end < text.len() {
                assert(rest[end - pos] == text@[end as int]);
            }
            lemma_first_index_of_unique(rest, '\n', end - pos);
        }
        let stop: usize = if end < text.len() {
            end + 1
        } else {
            end
        };
        let line = slice_chars(&text, pos, stop);
        assert(line@ == rest.take(reading_len(rest)));
        let line_text = string_of(&line);
        match parse_reply(line_text.as_str()) {
            Some(answer) => {
                return Confirmation { answer, output: string_of(&output) };
            },
            None => {
                assert(stop > pos) by {
                    if stop == pos {
                        assert(line@.len() == 0);
                    }
                }
                assert(text@.skip(stop as int) == rest.skip(reading_len(rest)));
                pos = stop;
            },
        }
    }
}

/// The two directories of a trash.
#[derive(Debug, Clone, Copy, PartialEq, Eq, Structural)]
pub enum TrashPart {
    Files,
    Info,
}

/// Where the emptying of a trash directory stands: which answer is awaited.
#[derive(Debug, Clone, Copy, PartialEq, Eq, Structural)]
pub enum EmptyingState {
    /// Whether the part is a directory.
    Checking(TrashPart),
    /// That the part was removed with all it held.
    Removing(TrashPart),
    /// That the part was created anew.
    Creating(TrashPart),
}

impl EmptyingState {
    /// The kind of answer that is awaited in this state.
    pub open spec fn expects(&self) -> AnswerKind {
        match self {
            EmptyingState::Checking(_) => AnswerKind::Flag,
            _ => AnswerKind::Done,
        }
    }

    /// The kind of answer that is awaited in this state.
    pub fn answer_kind(&self) -> (r: AnswerKind)
        ensures
            r == self.expects(),
    {
        match self {
            EmptyingState::Checking(_) => AnswerKind::Flag,
            _ => AnswerKind::Done,
        }
    }
}

/// The directory of the trash at `root` that `part` names.
pub open spec fn part_dir(root: Seq<char>, part: TrashPart) -> Seq<char> {
    match part {
        TrashPart::Files => path_join(root, TRASH_FILES_DIR_NAME@),
        TrashPart::Info => path_join(root, TRASH_INFO_DIR_NAME@),
    }
}

/// Whether `step` asks if `part` of the trash at `root` is a directory.
pub open spec fn asks_whether_dir(
    root: Seq<char>,
    part: TrashPart,
    step: Step<EmptyingState, ()>,
) -> bool {
    step matches Step::Ask { state, action: FsAction::IsDir { path } } && state
        == EmptyingState::Checking(part) && path@ == part_dir(root, part)
}

/// Whether `step` asks for `part` of the trash at `root` to be created.
pub open spec fn asks_to_recreate(
    root: Seq<char>,
    part: TrashPart,
    step: Step<EmptyingState, ()>,
) -> bool {
    step matches Step::Ask { state, action: FsAction::CreateDirAll { path } } && state
        == EmptyingState::Creating(part) && path@ == part_dir(root, part)
}

/// Whether `step` ends the emptying with `failure` on `part` of the trash at
/// `root`.
pub open spec fn emptying_fails_on(
    root: Seq<char>,
    part: TrashPart,
    failure: IoFailure,
    step: Step<EmptyingState, ()>,
) -> bool {
    step matches Step::Finish(Err(AppError::Io { path, source })) && path@ == part_dir(root, part)
        && source == failure
}

/// Whether `step` is what follows in the emptying of the trash at `root`
/// when `answer` comes in `state`.
///
/// `files` comes first, then `info`. A part that is a directory is removed
/// with all it holds; then the part is created anew. A failure ends the
/// emptying and names the part.
pub open spec fn is_next_emptying_step(
    root: Seq<char>,
    state: EmptyingState,
    answer: FsAnswer,
    step: Step<EmptyingState, ()>,
) -> bool {
    match (state, answer) {
        (EmptyingState::Checking(part), FsAnswer::Flag(is_dir)) => if is_dir {
            step matches Step::Ask { state: next, action: FsAction::RemoveDirAll { path } } && next
                == EmptyingState::Removing(part) && path@ == part_dir(root, part)
        } else {
            asks_to_recreate(root, part, step)
        },
        (EmptyingState::Removing(part), FsAnswer::Done(done)) => match done {
            Ok(_) => asks_to_recreate(root, part, step),
            Err(failure) => emptying_fails_on(root, part, failure, step),
        },
        (EmptyingState::Creating(part), FsAnswer::Done(done)) => match done {
            Ok(_) => match part {
                TrashPart::Files => asks_whether_dir(root, TrashPart::Info, step),
                TrashPart::Info => step matches Step::Finish(Ok(_)),
            },
            Err(failure) => emptying_fails_on(root, part, failure, step),
        },
        _ => true,
    }
}

/// Whether `step`, where it asks for an action, awaits the kind of answer
/// that the action calls for.
pub open spec fn emptying_step_is_sound(step: Step<EmptyingState, ()>) -> bool {
    step matches Step::Ask { state, action } ==> state.expects() == action.expects()
}

/// The directory of the trash at `trash_root` that `part` names.
pub fn part_path(trash_root: &str, part: TrashPart) -> (r: String)
    ensures
        r@ == part_dir(trash_root@, part),
{
    match part {
        TrashPart::Files => join(trash_root, TRASH_FILES_DIR_NAME),
        TrashPart::Info => join(trash_root, TRASH_INFO_DIR_NAME),
    }
}

/// The first step of emptying the trash at `trash_root`: it asks if `files`
/// is a directory.
pub fn begin_emptying(trash_root: &str) -> (r: Step<EmptyingState, ()>)
    ensures
        asks_whether_dir(trash_root@, TrashPart::Files, r),
        emptying_step_is_sound(r),
{
    Step::Ask {
        state: EmptyingState::Checking(TrashPart::Files),
        action: FsAction::IsDir { path: part_path(trash_root, TrashPart::Files) },
    }
}

/// The next step of emptying the trash at `trash_root`, given the `answer`
/// to what was asked last.
pub fn empty_single_trash_dir(trash_root: &str, state: EmptyingState, answer: FsAnswer) -> (r: Step<
    EmptyingState,
    (),
>)
    requires
        answer.kind() == state.expects(),
    ensures
        is_next_emptying_step(trash_root@, state, answer, r),
        emptying_step_is_sound(r),
{
    match (state, answer) {
        (EmptyingState::Checking(part), FsAnswer::Flag(is_dir)) => {
            if is_dir {
                Step::Ask {
                    state: EmptyingState::Removing(part),
                    action: FsAction::RemoveDirAll { path: part_path(trash_root, part) },
                }
            } else {
                Step::Ask {
                    state: EmptyingState::Creating(part),
                    action: FsAction::CreateDirAll { path: part_path(trash_root, part) },
                }
            }
        },
        (EmptyingState::Removing(part), FsAnswer::Done(done)) => match done {
            Ok(_) => Step::Ask {
                state: EmptyingState::Creating(part),
                action: FsAction::CreateDirAll { path: part_path(trash_root, part) },
            },
            Err(failure) => Step::Finish(
                Err(AppError::Io { path: part_path(trash_root, part), source: failure }),
            ),
        },
        (EmptyingState::Creating(part), FsAnswer::Done(done)) => match done {
            Ok(_) => match part {
                TrashPart::Files => Step::Ask {
                    state: EmptyingState::Checking(TrashPart::Info),
                    action: FsAction::IsDir { path: part_path(trash_root, TrashPart::Info) },
                },
                TrashPart::Info => Step::Finish(Ok(())),
            },
            Err(failure) => Step::Finish(
                Err(AppError::Io { path: part_path(trash_root, part), source: failure }),
            ),
        },
        _ => vstd::pervasive::unreached(),
    }
}

/// Emptying a trash whose parts can be removed and created ends well, and
/// has asked for each part to be created after anything it held was asked to
/// be removed: both parts are there afterwards, and empty. This holds
/// whether the parts were there before or not, so also for a second
/// emptying right after the first.
pub proof fn lemma_emptying_recreates_both_parts(
    root: Seq<char>,
    part: TrashPart,
    was_dir: bool,
    after_check: Step<EmptyingState, ()>,
    after_remove: Step<EmptyingState, ()>,
    after_create: Step<EmptyingState, ()>,
)
    requires
        is_next_emptying_step(
            root,
            EmptyingState::Checking(part),
            FsAnswer::Flag(was_dir),
            after_check,
        ),
        is_next_emptying_step(
            root,
            EmptyingState::Removing(part),
            FsAnswer::Done(Ok(())),
            after_remove,
        ),
        is_next_emptying_step(
            root,
            EmptyingState::Creating(part),
            FsAnswer::Done(Ok(())),
            after_create,
        ),
    ensures
        was_dir ==> (after_check matches Step::Ask { action: FsAction::RemoveDirAll { path }, .. }
            && path@ == part_dir(root, part)),
        !was_dir ==> asks_to_recreate(root, part, after_check),
        asks_to_recreate(root, part, after_remove),
        part == TrashPart::Files ==> asks_whether_dir(root, TrashPart::Info, after_create),
        part == TrashPart::Info ==> after_create matches Step::Finish(Ok(_)),
{
}

} // verus!
