//! Where the trash is.
//!
//! A path is served by the home trash when it lies on the same mounted file
//! system as the home trash, and otherwise by a trash directory at the root
//! of its own file system: the user's part of a shared `.Trash` that an
//! administrator has prepared, or else a private `.Trash-<uid>`.

use crate::actions::{AnswerKind, FsAction, FsAnswer, Step};
use crate::constants::{TRASH_FILES_DIR_NAME, TRASH_INFO_DIR_NAME};
use crate::error::{AppError, IoErrorKind};
use crate::paths::{join, path_equal, path_join, path_starts_with, same_path, starts_with};
use crate::text::{
    byte_length, chars_of, concat2, concat3, decimal, decimal_string, leading_space, leading_word, skip_run,
    slice_chars, string_of, texts,
};
use vstd::prelude::*;
use vstd::string::StringExecFns;
use vstd::utf8::encode_utf8;

verus! {

/// The kinds of trash directory.
#[derive(Debug, Clone, Copy, PartialEq, Eq, Structural)]
pub enum TrashType {
    /// The trash in the user's data directory.
    Home,
    /// A `.Trash` at the root of a file system, shared by its users.
    TopdirShared,
    /// One user's directory inside a shared `.Trash`.
    TopdirSharedUser,
    /// One user's `.Trash-<uid>` at the root of a file system.
    TopdirPrivate,
}

/// One trash directory: its root and its kind.
#[derive(Debug)]
pub struct TargetTrash {
    root_path: String,
    trash_type: TrashType,
}

/// What a `TargetTrash` holds.
pub struct TargetTrashView {
    pub root_path: Seq<char>,
    pub trash_type: TrashType,
}

impl View for TargetTrash {
    type V = TargetTrashView;

    closed spec fn view(&self) -> TargetTrashView {
        TargetTrashView { root_path: self.root_path@, trash_type: self.trash_type }
    }
}

impl TargetTrash {
    /// The trash directory of the given kind at `root_path`.
    pub fn new(root_path: String, trash_type: TrashType) -> (r: Self)
        ensures
            r@ == (TargetTrashView { root_path: root_path@, trash_type }),
    {
        Self { root_path, trash_type }
    }

    /// The root of the trash directory.
    pub fn root_path(&self) -> (r: &str)
        ensures
            r@ == self@.root_path,
    {
        self.root_path.as_str()
    }

    /// The kind of the trash directory.
    pub fn trash_type(&self) -> (r: TrashType)
        ensures
            r == self@.trash_type,
    {
        self.trash_type
    }

    /// The directory that holds the trashed items.
    pub fn files_path(&self) -> (r: String)
        ensures
            r@ == path_join(self@.root_path, TRASH_FILES_DIR_NAME@),
    {
        join(self.root_path.as_str(), TRASH_FILES_DIR_NAME)
    }

    /// The directory that holds the records.
    pub fn info_path(&self) -> (r: String)
        ensures
            r@ == path_join(self@.root_path, TRASH_INFO_DIR_NAME@),
    {
        join(self.root_path.as_str(), TRASH_INFO_DIR_NAME)
    }
}

/// The permission bits that the root of a trash of kind `t` is given.
pub open spec fn primary_mode(t: TrashType) -> u32 {
    match t {
        TrashType::Home => 0o700,
        TrashType::TopdirShared => 0o1777,
        TrashType::TopdirSharedUser => 0o700,
        TrashType::TopdirPrivate => 0o700,
    }
}

/// The permission bits that the root of a trash of kind `t` is given where
/// the first choice is not permitted, for the kinds that have a second
/// choice.
pub open spec fn fallback_mode(t: TrashType) -> Option<u32> {
    match t {
        TrashType::Home => None,
        TrashType::TopdirShared => None,
        TrashType::TopdirSharedUser => Some(0o1777u32),
        TrashType::TopdirPrivate => Some(0o1777u32),
    }
}

/// The permission bits for the root of a trash: the first choice, and the
/// second where there is one.
#[derive(Debug, Clone, Copy, PartialEq, Eq, Structural)]
pub struct RootModes {
    pub primary: u32,
    pub fallback: Option<u32>,
}

/// Where the making of a trash directory stands: which answer is awaited.
#[derive(Debug, Clone, Copy, PartialEq, Eq, Structural)]
pub enum EnsureState {
    /// Whether the root exists.
    CheckingRoot,
    /// That the root was created.
    CreatingRoot,
    /// That the root was given its permission bits.
    SettingMode,
    /// That the root was given the second choice of permission bits.
    SettingFallbackMode,
    /// Whether `files` exists.
    CheckingFiles,
    /// That `files` was created.
    CreatingFiles,
    /// Whether `info` exists.
    CheckingInfo,
    /// That `info` was created.
    CreatingInfo,
}

impl EnsureState {
    /// The kind of answer that is awaited in this state.
    pub open spec fn expects(&self) -> AnswerKind {
        match self {
            EnsureState::CheckingRoot => AnswerKind::Flag,
            EnsureState::CheckingFiles => AnswerKind::Flag,
            EnsureState::CheckingInfo => AnswerKind::Flag,
            _ => AnswerKind::Done,
        }
    }

    /// The kind of answer that is awaited in this state.
    pub fn answer_kind(&self) -> (r: AnswerKind)
        ensures
            r == self.expects(),
    {
        match self {
            EnsureState::CheckingRoot => AnswerKind::Flag,
            EnsureState::CheckingFiles => AnswerKind::Flag,
            EnsureState::CheckingInfo => AnswerKind::Flag,
            _ => AnswerKind::Done,
        }
    }
}

/// Whether `step` asks for the root at `root` to be given the bits `mode`,
/// and awaits the answer in `next`.
pub open spec fn asks_for_mode(
    root: Seq<char>,
    mode: u32,
    next: EnsureState,
    step: Step<EnsureState, ()>,
) -> bool {
    step matches Step::Ask { state, action: FsAction::SetMode { path, mode: m } } && state == next
        && path@ == root && m == mode
}

/// Whether `step` asks if something exists at `place`, and awaits the answer
/// in `next`.
pub open spec fn asks_whether_exists(
    place: Seq<char>,
    next: EnsureState,
    step: Step<EnsureState, ()>,
) -> bool {
    step matches Step::Ask { state, action: FsAction::Exists { path } } && state == next && path@
        == place
}

/// Whether `step` asks for the directory `place` to be created, its parent
/// being there, and awaits the answer in `next`.
pub open spec fn asks_to_create(
    place: Seq<char>,
    next: EnsureState,
    step: Step<EnsureState, ()>,
) -> bool {
    step matches Step::Ask { state, action: FsAction::CreateDir { path } } && state == next
        && path@ == place
}

/// Whether `step` ends the operation with `failure` on `place`.
pub open spec fn fails_on(
    place: Seq<char>,
    failure: crate::error::IoFailure,
    step: Step<EnsureState, ()>,
) -> bool {
    step matches Step::Finish(Err(AppError::Io { path, source })) && path@ == place && source
        == failure
}

/// Whether `step` is what follows in the making of the trash directory
/// `trash` when `answer` comes in `state`.
///
/// A root that is missing is created with the directories above it; that
/// this was not permitted is passed over, any other failure ends the
/// operation. The root is then given its permission bits. Where that is not
/// permitted and the kind of trash has a second choice of bits, those are
/// tried; any other failure ends the operation. Then `files` and `info` are
/// created where they are missing, and a failure there ends the operation.
/// Every failure names the path on which it occurred.
pub open spec fn is_next_ensure_step(
    trash: TargetTrashView,
    state: EnsureState,
    answer: FsAnswer,
    step: Step<EnsureState, ()>,
) -> bool {
    let root = trash.root_path;
    let files = path_join(root, TRASH_FILES_DIR_NAME@);
    let info = path_join(root, TRASH_INFO_DIR_NAME@);
    let primary = primary_mode(trash.trash_type);
    let fallback = fallback_mode(trash.trash_type);
    match (state, answer) {
        (EnsureState::CheckingRoot, FsAnswer::Flag(present)) => if present {
            asks_for_mode(root, primary, EnsureState::SettingMode, step)
        } else {
            step matches Step::Ask {
                state: EnsureState::CreatingRoot,
                action: FsAction::CreateDirAll { path },
            } && path@ == root
        },
        (EnsureState::CreatingRoot, FsAnswer::Done(done)) => match done {
            Ok(_) => asks_for_mode(root, primary, EnsureState::SettingMode, step),
            Err(failure) => if failure.kind == IoErrorKind::PermissionDenied {
                asks_for_mode(root, primary, EnsureState::SettingMode, step)
            } else {
                fails_on(root, failure, step)
            },
        },
        (EnsureState::SettingMode, FsAnswer::Done(done)) => match done {
            Ok(_) => asks_whether_exists(files, EnsureState::CheckingFiles, step),
            Err(failure) => if failure.kind == IoErrorKind::PermissionDenied && fallback is Some {
                asks_for_mode(root, fallback->0, EnsureState::SettingFallbackMode, step)
            } else {
                fails_on(root, failure, step)
            },
        },
        (EnsureState::SettingFallbackMode, FsAnswer::Done(done)) => match done {
            Ok(_) => asks_whether_exists(files, EnsureState::CheckingFiles, step),
            Err(failure) => fails_on(root, failure, step),
        },
        (EnsureState::CheckingFiles, FsAnswer::Flag(present)) => if present {
            asks_whether_exists(info, EnsureState::CheckingInfo, step)
        } else {
            asks_to_create(files, EnsureState::CreatingFiles, step)
        },
        (EnsureState::CreatingFiles, FsAnswer::Done(done)) => match done {
            Ok(_) => asks_whether_exists(info, EnsureState::CheckingInfo, step),
            Err(failure) => fails_on(files, failure, step),
        },
        (EnsureState::CheckingInfo, FsAnswer::Flag(present)) => if present {
            step matches Step::Finish(Ok(_))
        } else {
            asks_to_create(info, EnsureState::CreatingInfo, step)
        },
        (EnsureState::CreatingInfo, FsAnswer::Done(done)) => match done {
            Ok(_) => step matches Step::Finish(Ok(_)),
            Err(failure) => fails_on(info, failure, step),
        },
        _ => true,
    }
}

/// Whether `step`, where it asks for an action, awaits the kind of answer
/// that the action calls for.
pub open spec fn ensure_step_is_sound(step: Step<EnsureState, ()>) -> bool {
    step matches Step::Ask { state, action } ==> state.expects() == action.expects()
}

impl TargetTrash {
    /// The permission bits for the root of this trash.
    pub fn root_modes(&self) -> (r: RootModes)
        ensures
            r.primary == primary_mode(self@.trash_type),
            r.fallback == fallback_mode(self@.trash_type),
    {
        match self.trash_type {
            TrashType::Home => RootModes { primary: 0o700, fallback: None },
            TrashType::TopdirShared => RootModes { primary: 0o1777, fallback: None },
            TrashType::TopdirSharedUser => RootModes { primary: 0o700, fallback: Some(0o1777) },
            TrashType::TopdirPrivate => RootModes { primary: 0o700, fallback: Some(0o1777) },
        }
    }

    /// The step that asks for the root to be given the bits `mode`.
    fn ask_for_mode(&self, mode: u32, next: EnsureState) -> (r: Step<EnsureState, ()>)
        requires
            next.expects() == AnswerKind::Done,
        ensures
            asks_for_mode(self@.root_path, mode, next, r),
            ensure_step_is_sound(r),
    {
        Step::Ask { state: next, action: FsAction::SetMode { path: self.root_path.clone(), mode } }
    }

    /// The step that asks if `place` exists.
    fn ask_whether_exists(place: String, next: EnsureState) -> (r: Step<EnsureState, ()>)
        requires
            next.expects() == AnswerKind::Flag,
        ensures
            asks_whether_exists(place@, next, r),
            ensure_step_is_sound(r),
    {
        Step::Ask { state: next, action: FsAction::Exists { path: place } }
    }

    /// The first step of making this trash directory: it asks if the root
    /// exists.
    pub fn begin_ensure_structure(&self) -> (r: Step<EnsureState, ()>)
        ensures
            asks_whether_exists(self@.root_path, EnsureState::CheckingRoot, r),
            ensure_step_is_sound(r),
    {
        Self::ask_whether_exists(self.root_path.clone(), EnsureState::CheckingRoot)
    }

    /// The next step of making this trash directory, given the `answer` to
    /// what was asked last.
    pub fn ensure_structure_exists(&self, state: EnsureState, answer: FsAnswer) -> (r: Step<
        EnsureState,
        (),
    >)
        requires
            answer.kind() == state.expects(),
        ensures
            is_next_ensure_step(self@, state, answer, r),
            ensure_step_is_sound(r),
    {
        let modes = self.root_modes();
        match (state, answer) {
            (EnsureState::CheckingRoot, FsAnswer::Flag(present)) => {
                if present {
                    self.ask_for_mode(modes.primary, EnsureState::SettingMode)
                } else {
                    Step::Ask {
                        state: EnsureState::CreatingRoot,
                        action: FsAction::CreateDirAll { path: self.root_path.clone() },
                    }
                }
            },
            (EnsureState::CreatingRoot, FsAnswer::Done(done)) => match done {
                Ok(_) => self.ask_for_mode(modes.primary, EnsureState::SettingMode),
                Err(failure) => {
                    if failure.kind == IoErrorKind::PermissionDenied {
                        self.ask_for_mode(modes.primary, EnsureState::SettingMode)
                    } else {
                        Step::Finish(
                            Err(AppError::Io { path: self.root_path.clone(), source: failure }),
                        )
                    }
                },
            },
            (EnsureState::SettingMode, FsAnswer::Done(done)) => match done {
                Ok(_) => Self::ask_whether_exists(self.files_path(), EnsureState::CheckingFiles),
                Err(failure) => {
                    match modes.fallback {
                        Some(second) => {
                            if failure.kind == IoErrorKind::PermissionDenied {
                                return self.ask_for_mode(second, EnsureState::SettingFallbackMode);
                            }
                        },
                        None => {},
                    }
                    Step::Finish(
                        Err(AppError::Io { path: self.root_path.clone(), source: failure }),
                    )
                },
            },
            (EnsureState::SettingFallbackMode, FsAnswer::Done(done)) => match done {
                Ok(_) => Self::ask_whether_exists(self.files_path(), EnsureState::CheckingFiles),
                Err(failure) => Step::Finish(
                    Err(AppError::Io { path: self.root_path.clone(), source: failure }),
                ),
            },
            (EnsureState::CheckingFiles, FsAnswer::Flag(present)) => {
                if present {
                    Self::ask_whether_exists(self.info_path(), EnsureState::CheckingInfo)
                } else {
                    Step::Ask {
                        state: EnsureState::CreatingFiles,
                        action: FsAction::CreateDir { path: self.files_path() },
                    }
                }
            },
            (EnsureState::CreatingFiles, FsAnswer::Done(done)) => match done {
                Ok(_) => Self::ask_whether_exists(self.info_path(), EnsureState::CheckingInfo),
                Err(failure) => Step::Finish(
                    Err(AppError::Io { path: self.files_path(), source: failure }),
                ),
            },
            (EnsureState::CheckingInfo, FsAnswer::Flag(present)) => {
                if present {
                    Step::Finish(Ok(()))
                } else {
                    Step::Ask {
                        state: EnsureState::CreatingInfo,
                        action: FsAction::CreateDir { path: self.info_path() },
                    }
                }
            },
            (EnsureState::CreatingInfo, FsAnswer::Done(done)) => match done {
                Ok(_) => Step::Finish(Ok(())),
                Err(failure) => Step::Finish(
                    Err(AppError::Io { path: self.info_path(), source: failure }),
                ),
            },
            _ => vstd::pervasive::unreached(),
        }
    }
}

/// Making a trash directory that is there already creates nothing: where
/// the root, `files` and `info` exist, the steps only look, set the
/// permission bits of the root, and end well.
pub proof fn lemma_ensure_creates_nothing_when_all_is_there(
    trash: TargetTrashView,
    after_root: Step<EnsureState, ()>,
    after_mode: Step<EnsureState, ()>,
    after_files: Step<EnsureState, ()>,
    after_info: Step<EnsureState, ()>,
)
    requires
        is_next_ensure_step(trash, EnsureState::CheckingRoot, FsAnswer::Flag(true), after_root),
        is_next_ensure_step(trash, EnsureState::SettingMode, FsAnswer::Done(Ok(())), after_mode),
        is_next_ensure_step(trash, EnsureState::CheckingFiles, FsAnswer::Flag(true), after_files),
        is_next_ensure_step(trash, EnsureState::CheckingInfo, FsAnswer::Flag(true), after_info),
    ensures
        asks_for_mode(
            trash.root_path,
            primary_mode(trash.trash_type),
            EnsureState::SettingMode,
            after_root,
        ),
        after_mode matches Step::Ask { state: EnsureState::CheckingFiles, action }
            && !action.is_change(),
        after_files matches Step::Ask { state: EnsureState::CheckingInfo, action }
            && !action.is_change(),
        after_info matches Step::Finish(Ok(_)),
{
}

/// What the file system says of one path.
#[derive(Debug, Clone, Copy, PartialEq, Eq, Structural)]
pub struct DirFacts {
    /// The path itself is a symbolic link.
    pub is_symlink: bool,
    /// The path is a directory.
    pub is_dir: bool,
    /// The permission bits of the path.
    pub mode: u32,
}

/// Whether the permission bits hold the sticky bit.
pub open spec fn has_sticky_bit(mode: u32) -> bool {
    mode & 0o1000 != 0
}

/// Whether a `.Trash` of which `facts` are known may be used: it exists, is
/// a directory and no symbolic link, and carries the sticky bit.
pub open spec fn is_valid_shared_trash(facts: Option<DirFacts>) -> bool {
    facts matches Some(f) && !f.is_symlink && f.is_dir && has_sticky_bit(f.mode)
}

/// Number of bytes of the text in UTF-8.
pub open spec fn byte_len(s: Seq<char>) -> nat {
    encode_utf8(s).len()
}

/// Among the first `n` mount points, the one that holds `path`: the longest
/// of those that `path` starts with, and the last of the longest.
pub open spec fn mount_point_among(path: Seq<char>, mounts: Seq<Seq<char>>, n: int) -> Option<int>
    decreases n,
{
    if n <= 0 {
        None
    } else {
        let before = mount_point_among(path, mounts, n - 1);
        if path_starts_with(path, mounts[n - 1]) && (before is None || byte_len(
            mounts[before->0],
        ) <= byte_len(mounts[n - 1])) {
            Some(n - 1)
        } else {
            before
        }
    }
}

/// The mount point that holds `path`, by its position in `mounts`.
pub open spec fn mount_point_of(path: Seq<char>, mounts: Seq<Seq<char>>) -> Option<int> {
    mount_point_among(path, mounts, mounts.len() as int)
}

/// The mount point of a path is the longest mount point that the path starts
/// with, and the last of them where several are as long; there is none
/// exactly where the path starts with no mount point.
pub proof fn lemma_mount_point_is_longest_match(path: Seq<char>, mounts: Seq<Seq<char>>, n: int)
    requires
        0 <= n <= mounts.len(),
    ensures
        mount_point_among(path, mounts, n) matches Some(i) ==> 0 <= i < n && path_starts_with(
            path,
            mounts[i],
        ),
        forall|j: int|
            0 <= j < n && path_starts_with(path, #[trigger] mounts[j]) ==> (mount_point_among(
                path,
                mounts,
                n,
            ) matches Some(i) && byte_len(mounts[j]) <= byte_len(mounts[i]) && (byte_len(
                mounts[j],
            ) == byte_len(mounts[i]) ==> j <= i)),
    decreases n,
{
    if n > 0 {
        lemma_mount_point_is_longest_match(path, mounts, n - 1);
    }
}

/// The root of the user's directory in the shared trash of `topdir`.
pub open spec fn shared_user_root(topdir: Seq<char>, uid: u32) -> Seq<char> {
    path_join(path_join(topdir, ".Trash"@), decimal(uid as nat))
}

/// The root of the user's private trash at `topdir`.
pub open spec fn private_root(topdir: Seq<char>, uid: u32) -> Seq<char> {
    path_join(topdir, ".Trash-"@ + decimal(uid as nat))
}

/// What has to be known of the surroundings to choose a trash directory.
#[derive(Debug)]
pub struct ResolverFacts {
    /// The home trash, where the user has a data directory.
    pub home_trash_path: Option<String>,
    /// Whether the home trash is a symbolic link.
    pub home_trash_is_symlink: bool,
    /// The user's numeric id.
    pub uid: u32,
    /// What is known of `.Trash` at the root of the file system that holds
    /// the path; nothing where it cannot be examined.
    pub shared_trash: Option<DirFacts>,
}

/// The position in `mounts` of the mount point that holds `path`.
pub fn find_mount_point(path: &str, mounts: &Vec<String>) -> (r: Option<usize>)
    ensures
        r is Some == mount_point_of(path@, texts(mounts@)) is Some,
        r matches Some(i) ==> mount_point_of(path@, texts(mounts@)) == Some(i as int) && i
            < mounts.len(),
{
    let mut best: Option<usize> = None;
    let mut best_len: usize = 0;
    let mut i: usize = 0;
    while i < mounts.len()
        invariant
            i <= mounts.len(),
            best is Some == mount_point_among(path@, texts(mounts@), i as int) is Some,
            best matches Some(b) ==> b < i && mount_point_among(path@, texts(mounts@), i as int)
                == Some(b as int) && best_len == byte_len(mounts@[b as int]@),
        decreases mounts.len() - i,
    {
        let mount = mounts[i].as_str();
        assert(texts(mounts@)[i as int] == mounts@[i as int]@);
        proof {
            if let Some(b) = best {
                assert(texts(mounts@)[b as int] == mounts@[b as int]@);
            }
        }
        let mount_len = byte_length(mount);
        if starts_with(path, mount) && (best.is_none() || best_len <= mount_len) {
            best = Some(i);
            best_len = mount_len;
        }
        i += 1;
    }
    best
}

/// Whether the permission bits hold the sticky bit.
pub fn mode_has_sticky_bit(mode: u32) -> (r: bool)
    ensures
        r == has_sticky_bit(mode),
{
    mode & 0o1000 != 0
}

/// Whether a `.Trash` of which `facts` are known may be used.
pub fn shared_trash_is_valid(facts: &Option<DirFacts>) -> (r: bool)
    ensures
        r == is_valid_shared_trash(*facts),
{
    match facts {
        Some(f) => !f.is_symlink && f.is_dir && mode_has_sticky_bit(f.mode),
        None => false,
    }
}

/// Whether the home trash serves a path whose mount point stands at
/// `file_mount`, given that the home trash's own stands at `home_mount`.
pub open spec fn same_mount(
    mounts: Seq<Seq<char>>,
    file_mount: Option<int>,
    home_mount: Option<int>,
) -> bool {
    file_mount is Some && home_mount is Some && path_equal(
        mounts[file_mount->0],
        mounts[home_mount->0],
    )
}

/// The `.Trash` whose state decides between the shared and the private trash
/// for `absolute_path`: the one at the root of its file system.
pub fn shared_trash_probe_path(absolute_path: &str, mounts: &Vec<String>) -> (r: Option<String>)
    ensures
        r is Some == mount_point_of(absolute_path@, texts(mounts@)) is Some,
        r matches Some(p) ==> p@ == path_join(
            texts(mounts@)[mount_point_of(absolute_path@, texts(mounts@))->0],
            ".Trash"@,
        ),
{
    match find_mount_point(absolute_path, mounts) {
        Some(i) => {
            assert(texts(mounts@)[i as int] == mounts@[i as int]@);
            Some(join(mounts[i].as_str(), ".Trash"))
        },
        None => None,
    }
}

/// The trash directory for the item at `absolute_path`.
///
/// `path_to_trash` is the path as the user gave it, `absolute_path` its
/// canonical form, `mounts` the mounted file systems.
///
/// Without a home trash there is no answer. A path on the file system of the
/// home trash gets the home trash, unless that is a symbolic link, which is
/// refused. A path on another file system gets the user's directory in that
/// file system's shared `.Trash` where that is valid, and the user's private
/// `.Trash-<uid>` there where it is not. A path under no mount point gets no
/// answer.
pub fn get_target_trash(
    path_to_trash: &str,
    absolute_path: &str,
    mounts: &Vec<String>,
    facts: &ResolverFacts,
) -> (r: Result<TargetTrash, AppError>)
    ensures
        facts.home_trash_path is None ==> (r matches Err(AppError::Message(m)) && m@
            == "Home trash not found"@),
        facts.home_trash_path matches Some(home) ==> {
            let all = texts(mounts@);
            let file_mount = mount_point_of(absolute_path@, all);
            let home_mount = mount_point_of(home@, all);
            if same_mount(all, file_mount, home_mount) {
                if facts.home_trash_is_symlink {
                    r matches Err(AppError::SymbolicLink { path }) && path@ == home@
                } else {
                    r matches Ok(t) && t@ == (TargetTrashView {
                        root_path: home@,
                        trash_type: TrashType::Home,
                    })
                }
            } else if file_mount is Some {
                if is_valid_shared_trash(facts.shared_trash) {
                    r matches Ok(t) && t@ == (TargetTrashView {
                        root_path: shared_user_root(all[file_mount->0], facts.uid),
                        trash_type: TrashType::TopdirSharedUser,
                    })
                } else {
                    r matches Ok(t) && t@ == (TargetTrashView {
                        root_path: private_root(all[file_mount->0], facts.uid),
                        trash_type: TrashType::TopdirPrivate,
                    })
                }
            } else {
                r matches Err(AppError::Message(m)) && m@ == "Could not determine filesystem for '"@
                    + path_to_trash@ + "'"@
            }
        },
{
    let home = match &facts.home_trash_path {
        Some(h) => h,
        None => {
            return Err(AppError::Message(String::from_str("Home trash not found")));
        },
    };
    let file_mount = find_mount_point(absolute_path, mounts);
    let home_mount = find_mount_point(home.as_str(), mounts);
    let same = match (file_mount, home_mount) {
        (Some(i), Some(j)) => {
            assert(texts(mounts@)[i as int] == mounts@[i as int]@);
            assert(texts(mounts@)[j as int] == mounts@[j as int]@);
            same_path(mounts[i].as_str(), mounts[j].as_str())
        },
        _ => false,
    };
    if same {
        if facts.home_trash_is_symlink {
            return Err(AppError::SymbolicLink { path: home.clone() });
        }
        return Ok(TargetTrash::new(home.clone(), TrashType::Home));
    }
    match file_mount {
        Some(i) => {
            assert(texts(mounts@)[i as int] == mounts@[i as int]@);
            let topdir = mounts[i].as_str();
            let uid_text = decimal_string(facts.uid as u128);
            if shared_trash_is_valid(&facts.shared_trash) {
                let shared_base = join(topdir, ".Trash");
                Ok(
                    TargetTrash::new(
                        join(shared_base.as_str(), uid_text.as_str()),
                        TrashType::TopdirSharedUser,
                    ),
                )
            } else {
                let name = concat2(".Trash-", uid_text.as_str());
                Ok(TargetTrash::new(join(topdir, name.as_str()), TrashType::TopdirPrivate))
            }
        },
        None => Err(
            AppError::Message(concat3("Could not determine filesystem for '", path_to_trash, "'")),
        ),
    }
}

/// The home trash in the data directory `data_dir`, if there is one.
pub fn get_local_trash_path_from(data_dir: Option<String>) -> (r: Option<String>)
    ensures
        r is Some == data_dir is Some,
        r matches Some(p) ==> p@ == path_join(data_dir->0@, "Trash"@),
{
    match data_dir {
        Some(dir) => Some(join(dir.as_str(), "Trash")),
        None => None,
    }
}

/// The second of the words of `line` that white space separates, if it has
/// two.
pub open spec fn second_word(line: Seq<char>) -> Option<Seq<char>> {
    let a = line.skip(leading_space(line));
    let b = a.skip(leading_word(a));
    let c = b.skip(leading_space(b));
    if leading_word(c) > 0 {
        Some(c.take(leading_word(c)))
    } else {
        None
    }
}

/// The mount point that a line of the table of mounted file systems names:
/// its second word.
pub fn mount_point_of_line(line: &str) -> (r: Option<String>)
    ensures
        r is Some == second_word(line@) is Some,
        r matches Some(m) ==> m@ == second_word(line@)->0,
{
    let s = chars_of(line);
    let p1 = skip_run(&s, 0, true);
    let p2 = skip_run(&s, p1, false);
    let p3 = skip_run(&s, p2, true);
    let p4 = skip_run(&s, p3, false);
    proof {
        assert(s@.skip(0) == s@);
        let a = s@.skip(p1 as int);
        assert(a.skip(p2 - p1) == s@.skip(p2 as int));
        let b = s@.skip(p2 as int);
        assert(b.skip(p3 - p2) == s@.skip(p3 as int));
        let c = s@.skip(p3 as int);
        assert(c.take(p4 - p3) == s@.subrange(p3 as int, p4 as int));
    }
    if p4 > p3 {
        let word = slice_chars(&s, p3, p4);
        Some(string_of(&word))
    } else {
        None
    }
}

/// The mount points that the lines of the table of mounted file systems
/// name, in order; a line without a second word names none.
pub open spec fn mount_points_of(lines: Seq<Seq<char>>) -> Seq<Seq<char>>
    decreases lines.len(),
{
    if lines.len() == 0 {
        seq![]
    } else {
        let before = mount_points_of(lines.drop_last());
        match second_word(lines.last()) {
            Some(m) => before.push(m),
            None => before,
        }
    }
}

/// The mount points that the lines of the table of mounted file systems
/// name, in order.
pub fn mount_points(lines: &Vec<String>) -> (r: Vec<String>)
    ensures
        texts(r@) == mount_points_of(texts(lines@)),
{
    let mut out: Vec<String> = Vec::new();
    let mut i: usize = 0;
    assert(texts(out@) == Seq::<Seq<char>>::empty());
    assert(texts(lines@).take(0) == Seq::<Seq<char>>::empty());
    while i < lines.len()
        invariant
            i <= lines.len(),
            texts(out@) == mount_points_of(texts(lines@).take(i as int)),
        decreases lines.len() - i,
    {
        let ghost done = texts(lines@).take(i as int);
        let ghost next = texts(lines@).take(i + 1);
        assert(next.drop_last() == done);
        assert(next.last() == lines@[i as int]@);
        let ghost before = out@;
        match mount_point_of_line(lines[i].as_str()) {
            Some(m) => {
                out.push(m);
                assert(texts(out@) == texts(before).push(m@));
            },
            None => {},
        }
        i += 1;
    }
    assert(texts(lines@).take(lines.len() as int) == texts(lines@));
    out
}

/// What the file system says of the trash directories that a mount point may
/// hold.
#[derive(Debug, Clone, Copy, PartialEq, Eq, Structural)]
pub struct MountTrashFacts {
    /// What is known of `.Trash` at the mount point, links followed; nothing
    /// where it cannot be examined.
    pub shared_base: Option<DirFacts>,
    /// Whether the user's directory in that `.Trash` is a directory.
    pub shared_user_is_dir: bool,
    /// Whether the user's `.Trash-<uid>` at the mount point is a directory.
    pub private_is_dir: bool,
}

/// Whether the shared trash of a mount point holds a directory for the user:
/// `.Trash` is a directory with the sticky bit, and the user's directory in
/// it exists.
pub open spec fn has_shared_user_trash(facts: MountTrashFacts) -> bool {
    facts.shared_base matches Some(f) && f.is_dir && has_sticky_bit(f.mode)
        && facts.shared_user_is_dir
}

/// The user's trash directory at `mount_point`, if one exists: the user's
/// directory in the shared trash, or else the user's private trash.
pub fn trash_dir_on_mount(mount_point: &str, uid: u32, facts: &MountTrashFacts) -> (r: Option<
    String,
>)
    ensures
        has_shared_user_trash(*facts) ==> (r matches Some(p) && p@ == shared_user_root(
            mount_point@,
            uid,
        )),
        !has_shared_user_trash(*facts) && facts.private_is_dir ==> (r matches Some(p) && p@
            == private_root(mount_point@, uid)),
        !has_shared_user_trash(*facts) && !facts.private_is_dir ==> r is None,
{
    let uid_text = decimal_string(uid as u128);
    let shared = match facts.shared_base {
        Some(f) => f.is_dir && mode_has_sticky_bit(f.mode) && facts.shared_user_is_dir,
        None => false,
    };
    if shared {
        let shared_base = join(mount_point, ".Trash");
        Some(join(shared_base.as_str(), uid_text.as_str()))
    } else if facts.private_is_dir {
        let name = concat2(".Trash-", uid_text.as_str());
        Some(join(mount_point, name.as_str()))
    } else {
        None
    }
}

/// Every trash directory that exists: the home trash first, where it is a
/// directory, then those found at the mount points.
pub fn find_all_trash_dirs(
    local_trash: Option<String>,
    local_trash_is_dir: bool,
    on_mounts: Vec<String>,
) -> (r: Vec<String>)
    ensures
        local_trash is Some && local_trash_is_dir ==> texts(r@) == seq![local_trash->0@] + texts(
            on_mounts@,
        ),
        !(local_trash is Some && local_trash_is_dir) ==> texts(r@) == texts(on_mounts@),
{
    let mut out: Vec<String> = Vec::new();
    match local_trash {
        Some(home) => {
            if local_trash_is_dir {
                out.push(home);
            }
        },
        None => {},
    }
    let ghost head = out@;
    let mut rest = on_mounts;
    out.append(&mut rest);
    assert(texts(out@) == texts(head) + texts(on_mounts@));
    assert(texts(Seq::<String>::empty()) == Seq::<Seq<char>>::empty());
    out
}

} // verus!
