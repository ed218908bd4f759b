use std::collections::BTreeMap;

use trash_tool::actions::{FsAction, FsAnswer, Step};
use trash_tool::emptying::{begin_emptying, empty_single_trash_dir, EmptyingState, TrashPart};
use trash_tool::error::{AppError, IoErrorKind, IoFailure};
use trash_tool::locations::{TargetTrash, TrashType};
use trash_tool::restoring::{
    begin_restore, find_trash_entries_in_dirs, restore_item, InfoFile, TrashEntry,
};
use trash_tool::trashing::{begin_trashing, trash_item, TrashingState};

/// What lies at a path of the file system that the tests keep in memory.
#[derive(Debug, Clone, PartialEq)]
enum Node {
    Dir(u32),
    File(String),
}

/// A file system in memory: absolute paths without `.`, `..` or doubled
/// slashes, a set of directories in which nothing may be changed, and a set
/// of paths that lie on another device.
struct World {
    nodes: BTreeMap<String, Node>,
    read_only: Vec<String>,
}

fn parent_of(path: &str) -> String {
    match path.rfind('/') {
        Some(0) | None => "/".to_string(),
        Some(at) => path[..at].to_string(),
    }
}

fn name_of(path: &str) -> String {
    match path.rfind('/') {
        Some(at) => path[at + 1..].to_string(),
        None => path.to_string(),
    }
}

fn fail(kind: IoErrorKind, message: &str) -> IoFailure {
    IoFailure { kind, message: message.to_string() }
}

impl World {
    fn new() -> World {
        let mut nodes = BTreeMap::new();
        nodes.insert("/".to_string(), Node::Dir(0o755));
        World { nodes, read_only: Vec::new() }
    }

    fn has(&self, path: &str) -> bool {
        self.nodes.contains_key(path)
    }

    fn is_dir(&self, path: &str) -> bool {
        matches!(self.nodes.get(path), Some(Node::Dir(_)))
    }

    fn mode(&self, path: &str) -> u32 {
        match self.nodes.get(path) {
            Some(Node::Dir(mode)) => *mode,
            other => panic!("no directory at {}: {:?}", path, other),
        }
    }

    fn content(&self, path: &str) -> String {
        match self.nodes.get(path) {
            Some(Node::File(content)) => content.clone(),
            other => panic!("no file at {}: {:?}", path, other),
        }
    }

    fn names(&self, dir: &str) -> Vec<String> {
        self.nodes
            .keys()
            .filter(|p| p.as_str() != "/" && parent_of(p) == dir)
            .map(|p| name_of(p))
            .collect()
    }

    fn may_change(&self, dir: &str) -> Result<(), IoFailure> {
        if !self.is_dir(dir) {
            return Err(fail(IoErrorKind::NotFound, "no such directory"));
        }
        if self.read_only.iter().any(|d| d == dir) {
            return Err(fail(IoErrorKind::PermissionDenied, "permission denied"));
        }
        Ok(())
    }

    fn mkdir_all(&mut self, path: &str) -> Result<(), IoFailure> {
        if self.is_dir(path) {
            return Ok(());
        }
        if self.has(path) {
            return Err(fail(IoErrorKind::Other, "file exists"));
        }
        let parent = parent_of(path);
        self.mkdir_all(&parent)?;
        self.may_change(&parent)?;
        self.nodes.insert(path.to_string(), Node::Dir(0o755));
        Ok(())
    }

    fn mkdir(&mut self, path: &str) -> Result<(), IoFailure> {
        if self.has(path) {
            return Err(fail(IoErrorKind::Other, "file exists"));
        }
        self.may_change(&parent_of(path))?;
        self.nodes.insert(path.to_string(), Node::Dir(0o755));
        Ok(())
    }

    fn write(&mut self, path: &str, content: &str) -> Result<(), IoFailure> {
        self.may_change(&parent_of(path))?;
        if self.is_dir(path) {
            return Err(fail(IoErrorKind::Other, "is a directory"));
        }
        self.nodes.insert(path.to_string(), Node::File(content.to_string()));
        Ok(())
    }

    fn remove_file(&mut self, path: &str) -> Result<(), IoFailure> {
        if !self.has(path) {
            return Err(fail(IoErrorKind::NotFound, "no such file"));
        }
        self.may_change(&parent_of(path))?;
        self.nodes.remove(path);
        Ok(())
    }

    fn remove_all(&mut self, path: &str) -> Result<(), IoFailure> {
        if !self.is_dir(path) {
            return Err(fail(IoErrorKind::NotFound, "no such directory"));
        }
        self.may_change(&parent_of(path))?;
        let below = format!("{}/", path);
        self.nodes.retain(|p, _| p != path && !p.starts_with(&below));
        Ok(())
    }

    fn rename(&mut self, from: &str, to: &str) -> Result<(), IoFailure> {
        if !self.has(from) {
            return Err(fail(IoErrorKind::NotFound, "no such file"));
        }
        self.may_change(&parent_of(from))?;
        self.may_change(&parent_of(to))?;
        let below = format!("{}/", from);
        let moved: Vec<(String, Node)> = self
            .nodes
            .iter()
            .filter(|(p, _)| p.as_str() == from || p.starts_with(&below))
            .map(|(p, n)| (p.clone(), n.clone()))
            .collect();
        for (p, n) in moved {
            self.nodes.remove(&p);
            self.nodes.insert(format!("{}{}", to, &p[from.len()..]), n);
        }
        Ok(())
    }

    fn set_mode(&mut self, path: &str, mode: u32) -> Result<(), IoFailure> {
        match self.nodes.get_mut(path) {
            Some(Node::Dir(m)) => {
                *m = mode;
                Ok(())
            }
            Some(Node::File(_)) => Ok(()),
            None => Err(fail(IoErrorKind::NotFound, "no such file")),
        }
    }

    fn perform(&mut self, action: &FsAction) -> FsAnswer {
        match action {
            FsAction::Exists { path } => FsAnswer::Flag(self.has(path)),
            FsAction::IsDir { path } => FsAnswer::Flag(self.is_dir(path)),
            FsAction::ListNames { dir } => FsAnswer::Names(self.names(dir)),
            FsAction::Canonicalize { path } => FsAnswer::Text(if self.has(path) {
                Ok(path.clone())
            } else {
                Err(fail(IoErrorKind::NotFound, "no such file"))
            }),
            FsAction::LocalTime { format } => {
                assert_eq!(format, "%Y-%m-%dT%H:%M:%S");
                FsAnswer::Time("2024-01-01T12:30:00".to_string())
            }
            FsAction::WriteFile { path, content } => FsAnswer::Done(self.write(path, content)),
            FsAction::Rename { from, to } => FsAnswer::Done(self.rename(from, to)),
            FsAction::RemoveFile { path } => FsAnswer::Done(self.remove_file(path)),
            FsAction::CreateDir { path } => FsAnswer::Done(self.mkdir(path)),
            FsAction::CreateDirAll { path } => FsAnswer::Done(self.mkdir_all(path)),
            FsAction::SetMode { path, mode } => FsAnswer::Done(self.set_mode(path, *mode)),
            FsAction::RemoveDirAll { path } => FsAnswer::Done(self.remove_all(path)),
        }
    }
}

fn ensure(world: &mut World, trash: &TargetTrash) -> Result<(), AppError> {
    let mut step = trash.begin_ensure_structure();
    loop {
        match step {
            Step::Ask { state, action } => {
                let answer = world.perform(&action);
                assert_eq!(state.answer_kind(), answer.kind_of());
                step = trash.ensure_structure_exists(state, answer);
            }
            Step::Finish(result) => return result,
        }
    }
}

fn trash(world: &mut World, source: &str, target: &TargetTrash) -> Result<(), AppError> {
    let mut step = begin_trashing(source);
    loop {
        match step {
            Step::Ask { state, action } => {
                let answer = world.perform(&action);
                assert_eq!(state.answer_kind(), answer.kind_of());
                step = trash_item(source, target, state, answer);
            }
            Step::Finish(result) => return result,
        }
    }
}

fn restore(world: &mut World, entry: &TrashEntry) -> Result<String, AppError> {
    let mut step = begin_restore(entry);
    loop {
        match step {
            Step::Ask { state, action } => {
                let answer = world.perform(&action);
                assert_eq!(state.answer_kind(), answer.kind_of());
                step = restore_item(entry, state, answer);
            }
            Step::Finish(result) => return result,
        }
    }
}

fn empty(world: &mut World, root: &str) -> Result<(), AppError> {
    let mut step = begin_emptying(root);
    loop {
        match step {
            Step::Ask { state, action } => {
                let answer = world.perform(&action);
                assert_eq!(state.answer_kind(), answer.kind_of());
                step = empty_single_trash_dir(root, state, answer);
            }
            Step::Finish(result) => return result,
        }
    }
}

#[test]
fn test_ensure_structure_exists() {
    let mut world = World::new();
    world.mkdir_all("/root").unwrap();
    let trash_path = "/root/TestTrash";

    let home_trash = TargetTrash::new(trash_path.to_string(), TrashType::Home);
    ensure(&mut world, &home_trash).unwrap();
    assert!(world.has(trash_path));
    assert!(world.has("/root/TestTrash/files"));
    assert!(world.has("/root/TestTrash/info"));
    assert_eq!(world.mode(trash_path) & 0o777, 0o700);

    ensure(&mut world, &home_trash).unwrap();
    assert!(world.has(trash_path));

    world.remove_all(trash_path).unwrap();

    let private_trash = TargetTrash::new(trash_path.to_string(), TrashType::TopdirPrivate);
    ensure(&mut world, &private_trash).unwrap();
    assert!(world.has(trash_path));
    assert!(world.has("/root/TestTrash/files"));
    assert!(world.has("/root/TestTrash/info"));
    assert_eq!(world.mode(trash_path) & 0o777, 0o700);

    world.remove_all(trash_path).unwrap();

    world.mkdir("/root/SharedParent").unwrap();
    let shared_user_path = "/root/SharedParent/1000";
    let shared_user_trash =
        TargetTrash::new(shared_user_path.to_string(), TrashType::TopdirSharedUser);
    ensure(&mut world, &shared_user_trash).unwrap();
    assert!(world.has(shared_user_path));
    assert!(world.has("/root/SharedParent/1000/files"));
    assert!(world.has("/root/SharedParent/1000/info"));
    assert_eq!(world.mode(shared_user_path) & 0o777, 0o700);
}

#[test]
fn ensure_structure_gives_a_shared_trash_the_sticky_bit() {
    let mut world = World::new();
    let shared = TargetTrash::new("/mnt/.Trash".to_string(), TrashType::TopdirShared);
    ensure(&mut world, &shared).unwrap();
    assert_eq!(world.mode("/mnt/.Trash"), 0o1777);
}

#[test]
fn ensure_structure_falls_back_when_the_mode_is_denied() {
    let trash = TargetTrash::new("/mnt/.Trash-1".to_string(), TrashType::TopdirPrivate);
    let denied = || FsAnswer::Done(Err(fail(IoErrorKind::PermissionDenied, "denied")));
    let step = trash.ensure_structure_exists(
        trash_tool::locations::EnsureState::SettingMode,
        denied(),
    );
    let state = match step {
        Step::Ask { state, action: FsAction::SetMode { path, mode } } => {
            assert_eq!((path.as_str(), mode), ("/mnt/.Trash-1", 0o1777));
            state
        }
        other => panic!("unexpected: {:?}", other),
    };
    match trash.ensure_structure_exists(state, denied()) {
        Step::Finish(Err(AppError::Io { path, source })) => {
            assert_eq!(path, "/mnt/.Trash-1");
            assert_eq!(source.kind, IoErrorKind::PermissionDenied);
        }
        other => panic!("unexpected: {:?}", other),
    }
    let home = TargetTrash::new("/h/Trash".to_string(), TrashType::Home);
    match home.ensure_structure_exists(trash_tool::locations::EnsureState::SettingMode, denied()) {
        Step::Finish(Err(AppError::Io { path, .. })) => assert_eq!(path, "/h/Trash"),
        other => panic!("unexpected: {:?}", other),
    }
}

#[test]
fn ensure_structure_names_the_directory_that_could_not_be_made() {
    let mut world = World::new();
    world.mkdir_all("/h/Trash").unwrap();
    world.read_only.push("/h/Trash".to_string());
    let home = TargetTrash::new("/h/Trash".to_string(), TrashType::Home);
    match ensure(&mut world, &home) {
        Err(AppError::Io { path, source }) => {
            assert_eq!(path, "/h/Trash/files");
            assert_eq!(source.kind, IoErrorKind::PermissionDenied);
        }
        other => panic!("unexpected: {:?}", other),
    }
}

#[test]
fn test_create_trash_info_file() {
    let mut world = World::new();
    world.mkdir_all("/src").unwrap();
    world.write("/src/original_file.txt", "").unwrap();
    let target_trash = TargetTrash::new("/trash".to_string(), TrashType::Home);
    ensure(&mut world, &target_trash).unwrap();
    trash(&mut world, "/src/original_file.txt", &target_trash).unwrap();

    let info_content = world.content("/trash/info/original_file.txt.trashinfo");
    assert!(info_content.starts_with("[Trash Info]\n"));
    assert!(info_content.contains("Path=/src/original_file.txt"));
    assert!(info_content.contains("DeletionDate="));
}

#[test]
fn test_trash_item_success() {
    let mut world = World::new();
    world.mkdir_all("/src").unwrap();
    world.write("/src/file_to_trash.txt", "").unwrap();

    let target_trash = TargetTrash::new("/trash".to_string(), TrashType::Home);
    ensure(&mut world, &target_trash).unwrap();
    trash(&mut world, "/src/file_to_trash.txt", &target_trash).unwrap();

    assert!(!world.has("/src/file_to_trash.txt"), "Source file should be moved, not copied.");
    assert!(world.has("/trash/files/file_to_trash.txt"), "File should exist in trash/files.");
    assert!(
        world.has("/trash/info/file_to_trash.txt.trashinfo"),
        ".trashinfo file should be created."
    );
    let info_content = world.content("/trash/info/file_to_trash.txt.trashinfo");
    assert!(info_content.contains(&format!("Path={}", "/src/file_to_trash.txt")));
    assert_eq!(
        info_content,
        "[Trash Info]\nPath=/src/file_to_trash.txt\nDeletionDate=2024-01-01T12:30:00\n"
    );
}

#[test]
fn test_trash_item_cleans_up_info_file_on_rename_failure() {
    let mut world = World::new();
    world.mkdir_all("/src").unwrap();
    world.write("/src/file.txt", "").unwrap();
    let target_trash = TargetTrash::new("/trash".to_string(), TrashType::Home);
    ensure(&mut world, &target_trash).unwrap();
    world.read_only.push("/trash/files".to_string());

    let result = trash(&mut world, "/src/file.txt", &target_trash);
    match result {
        Err(AppError::Io { path, source }) => {
            assert_eq!(path, "/src/file.txt");
            assert_eq!(source.kind, IoErrorKind::PermissionDenied);
        }
        other => panic!("Expected trash_item to fail: {:?}", other),
    }
    assert!(
        world.has("/src/file.txt"),
        "Source file should still exist after a failed move."
    );
    assert!(
        !world.has("/trash/info/file.txt.trashinfo"),
        "The .trashinfo file should be cleaned up after a rename failure."
    );
}

#[test]
fn test_trash_item_fails_if_already_in_trash() {
    let mut world = World::new();
    world.mkdir_all("/trash/files").unwrap();
    world.write("/trash/files/already_trashed.txt", "").unwrap();

    let target_trash = TargetTrash::new("/trash".to_string(), TrashType::Home);
    let result = trash(&mut world, "/trash/files/already_trashed.txt", &target_trash);
    match result {
        Err(AppError::AlreadyInTrash { path }) => {
            assert_eq!(path, "/trash/files/already_trashed.txt")
        }
        other => panic!("unexpected: {:?}", other),
    }
    assert!(world.has("/trash/files/already_trashed.txt"));
}

#[test]
fn trashing_the_trash_itself_is_refused() {
    let mut world = World::new();
    world.mkdir_all("/trash/files").unwrap();
    let target_trash = TargetTrash::new("/trash".to_string(), TrashType::Home);
    assert!(matches!(
        trash(&mut world, "/trash", &target_trash),
        Err(AppError::AlreadyInTrash { .. })
    ));
}

#[test]
fn trashing_a_missing_source_fails() {
    let mut world = World::new();
    let target_trash = TargetTrash::new("/trash".to_string(), TrashType::Home);
    match trash(&mut world, "/nonexistent/source/file", &target_trash) {
        Err(AppError::Io { path, source }) => {
            assert_eq!(path, "/nonexistent/source/file");
            assert_eq!(source.kind, IoErrorKind::NotFound);
            assert_eq!(source.message, "source file not found");
        }
        other => panic!("unexpected: {:?}", other),
    }
}

#[test]
fn trashing_twice_counts_from_two() {
    let mut world = World::new();
    world.mkdir_all("/src").unwrap();
    let target_trash = TargetTrash::new("/trash".to_string(), TrashType::Home);
    ensure(&mut world, &target_trash).unwrap();
    for _ in 0..3 {
        world.write("/src/a.tar.gz", "x").unwrap();
        trash(&mut world, "/src/a.tar.gz", &target_trash).unwrap();
    }
    for name in ["a.tar.gz", "a.2.tar.gz", "a.3.tar.gz"] {
        assert!(world.has(&format!("/trash/files/{}", name)));
        assert!(world.has(&format!("/trash/info/{}.trashinfo", name)));
    }
    assert_eq!(world.names("/trash/files").len(), 3);
}

#[test]
fn a_move_across_devices_is_told_as_such() {
    let target = TargetTrash::new("/t".to_string(), TrashType::Home);
    let step = trash_item(
        "/src/file.txt",
        &target,
        TrashingState::Moving { info_file: "/t/info/file.txt.trashinfo".to_string() },
        FsAnswer::Done(Err(fail(IoErrorKind::CrossesDevices, "x"))),
    );
    let state = match step {
        Step::Ask { state, action: FsAction::RemoveFile { path } } => {
            assert_eq!(path, "/t/info/file.txt.trashinfo");
            state
        }
        other => panic!("unexpected: {:?}", other),
    };
    let step = trash_item(
        "/src/file.txt",
        &target,
        state,
        FsAnswer::Done(Err(fail(IoErrorKind::NotFound, "gone"))),
    );
    match step {
        Step::Finish(Err(AppError::CrossDeviceMove { path })) => assert_eq!(path, "/src/file.txt"),
        other => panic!("unexpected: {:?}", other),
    }
}

#[test]
fn test_restore_item_success() {
    let mut world = World::new();
    world.mkdir_all("/trash/files").unwrap();
    world.mkdir_all("/trash/info").unwrap();
    world.mkdir_all("/orig").unwrap();
    world.write("/trash/files/test.txt", "").unwrap();
    world.write("/trash/info/test.txt.trashinfo", "").unwrap();

    let entry = TrashEntry {
        trashed_path: "/trash/files/test.txt".to_string(),
        info_path: "/trash/info/test.txt.trashinfo".to_string(),
        original_path: "/orig/documents/test.txt".to_string(),
        deletion_date: String::new(),
    };
    let restored_path = restore(&mut world, &entry).unwrap();
    assert_eq!(restored_path, "/orig/documents/test.txt");
    assert!(world.has("/orig/documents/test.txt"));
    assert!(world.is_dir("/orig/documents"));
    assert!(!world.has(&entry.trashed_path));
    assert!(!world.has(&entry.info_path));
}

#[test]
fn test_restore_item_fails_if_destination_exists() {
    let mut world = World::new();
    world.mkdir_all("/trash/files").unwrap();
    world.mkdir_all("/orig").unwrap();
    world.write("/trash/files/test.txt", "trashed").unwrap();
    world.write("/orig/test.txt", "occupant").unwrap();

    let entry = TrashEntry {
        trashed_path: "/trash/files/test.txt".to_string(),
        info_path: "/trash/info/test.txt.trashinfo".to_string(),
        original_path: "/orig/test.txt".to_string(),
        deletion_date: String::new(),
    };
    let result = restore(&mut world, &entry);
    assert!(result.is_err());
    match result {
        Err(AppError::RestoreCollision { path }) => assert_eq!(path, "/orig/test.txt"),
        other => panic!("Expected RestoreCollision error: {:?}", other),
    }
    assert!(world.has(&entry.original_path));
    assert!(world.has(&entry.trashed_path));
    assert_eq!(world.content("/orig/test.txt"), "occupant");
    assert_eq!(world.content("/trash/files/test.txt"), "trashed");
}

#[test]
fn test_restore_item_fails_if_trashed_file_is_missing() {
    let mut world = World::new();
    world.mkdir_all("/trash/info").unwrap();
    world.mkdir_all("/orig").unwrap();
    world.write("/trash/info/missing_file.txt.trashinfo", "").unwrap();
    let entry = TrashEntry {
        trashed_path: "/trash/files/missing_file.txt".to_string(),
        info_path: "/trash/info/missing_file.txt.trashinfo".to_string(),
        original_path: "/orig/missing_file.txt".to_string(),
        deletion_date: String::new(),
    };
    let result = restore(&mut world, &entry);
    assert!(result.is_err(), "Expected an error because the source file in trash is missing");
    match result {
        Err(AppError::TrashedItemNotFound { path }) => assert_eq!(path, entry.trashed_path),
        other => panic!("unexpected: {:?}", other),
    }
}

#[test]
fn test_restore_item_succeeds_even_if_info_cleanup_fails() {
    let mut world = World::new();
    world.mkdir_all("/trash/files").unwrap();
    world.mkdir_all("/trash/info").unwrap();
    world.mkdir_all("/orig").unwrap();
    world.write("/trash/files/test.txt", "").unwrap();
    world.write("/trash/info/test.txt.trashinfo", "").unwrap();
    world.read_only.push("/trash/info".to_string());

    let entry = TrashEntry {
        trashed_path: "/trash/files/test.txt".to_string(),
        info_path: "/trash/info/test.txt.trashinfo".to_string(),
        original_path: "/orig/test.txt".to_string(),
        deletion_date: String::new(),
    };
    let result = restore(&mut world, &entry);
    assert!(result.is_ok(), "Restore should succeed even if info file cleanup fails");
    assert!(world.has(&entry.original_path));
    assert!(!world.has("/trash/files/test.txt"));
    assert!(world.has("/trash/info/test.txt.trashinfo"));
}

#[test]
fn restore_names_the_parent_that_could_not_be_made() {
    let mut world = World::new();
    world.mkdir_all("/trash/files").unwrap();
    world.mkdir_all("/orig").unwrap();
    world.write("/trash/files/test.txt", "").unwrap();
    world.read_only.push("/orig".to_string());
    let entry = TrashEntry {
        trashed_path: "/trash/files/test.txt".to_string(),
        info_path: "/trash/info/test.txt.trashinfo".to_string(),
        original_path: "/orig/deep/test.txt".to_string(),
        deletion_date: String::new(),
    };
    match restore(&mut world, &entry) {
        Err(AppError::Io { path, source }) => {
            assert_eq!(path, "/orig/deep");
            assert_eq!(source.kind, IoErrorKind::PermissionDenied);
        }
        other => panic!("unexpected: {:?}", other),
    }
    assert!(world.has("/trash/files/test.txt"));
}

#[test]
fn trash_then_restore_gives_the_file_back() {
    let mut world = World::new();
    world.mkdir_all("/home/u").unwrap();
    let source = "/home/u/テスト ファイル.txt";
    world.write(source, "the very same bytes").unwrap();

    let target_trash = TargetTrash::new("/home/u/Trash".to_string(), TrashType::Home);
    ensure(&mut world, &target_trash).unwrap();
    trash(&mut world, source, &target_trash).unwrap();
    assert!(!world.has(source));

    let info_path = "/home/u/Trash/info/テスト ファイル.txt.trashinfo";
    let item_path = trash_tool::restoring::stored_item_path("/home/u/Trash", info_path).unwrap();
    let files = vec![InfoFile {
        trash_dir: "/home/u/Trash".to_string(),
        info_path: info_path.to_string(),
        content: world.content(info_path),
        item_exists: world.has(&item_path),
    }];
    let mut found = find_trash_entries_in_dirs(&files).entries;
    assert_eq!(found.len(), 1);
    let entry = found.pop().unwrap();
    assert_eq!(entry.original_path, source);
    assert_eq!(entry.trashed_path, "/home/u/Trash/files/テスト ファイル.txt");
    assert_eq!(entry.deletion_date, "2024-01-01T12:30:00");

    assert_eq!(restore(&mut world, &entry).unwrap(), source);
    assert_eq!(world.content(source), "the very same bytes");
    assert!(world.names("/home/u/Trash/files").is_empty());
    assert!(world.names("/home/u/Trash/info").is_empty());
}

#[test]
fn test_empty_single_trash_dir() {
    let mut world = World::new();
    world.mkdir_all("/trash/files/sub").unwrap();
    world.mkdir_all("/trash/info").unwrap();
    world.write("/trash/files/some_file.txt", "").unwrap();
    world.write("/trash/files/sub/inner", "").unwrap();
    world.write("/trash/info/some_file.txt.trashinfo", "").unwrap();

    empty(&mut world, "/trash").unwrap();
    assert!(world.is_dir("/trash/files"), "'files' directory should be recreated.");
    assert!(world.is_dir("/trash/info"), "'info' directory should be recreated.");
    assert_eq!(world.names("/trash/files").len(), 0, "'files' directory should be empty.");
    assert_eq!(world.names("/trash/info").len(), 0, "'info' directory should be empty.");

    empty(&mut world, "/trash").unwrap();
    assert!(world.is_dir("/trash/files") && world.is_dir("/trash/info"));
    assert_eq!(world.names("/trash/files").len(), 0);
    assert_eq!(world.names("/trash/info").len(), 0);
}

#[test]
fn emptying_makes_the_parts_that_are_missing() {
    let mut world = World::new();
    world.mkdir_all("/trash").unwrap();
    empty(&mut world, "/trash").unwrap();
    assert!(world.is_dir("/trash/files") && world.is_dir("/trash/info"));
}

#[test]
fn test_empty_single_trash_dir_permission_error() {
    let mut world = World::new();
    world.mkdir_all("/trash/files").unwrap();
    world.write("/trash/files/some_file.txt", "").unwrap();
    world.read_only.push("/trash".to_string());

    let result = empty(&mut world, "/trash");
    assert!(result.is_err(), "Expected an error due to permission issues");
    match result {
        Err(AppError::Io { path, .. }) => assert_eq!(path, "/trash/files"),
        other => panic!("Expected AppError::Io: {:?}", other),
    }
}

#[test]
fn emptying_names_the_part_that_failed() {
    let step = empty_single_trash_dir(
        "/t",
        EmptyingState::Creating(TrashPart::Info),
        FsAnswer::Done(Err(fail(IoErrorKind::PermissionDenied, "no"))),
    );
    match step {
        Step::Finish(Err(AppError::Io { path, source })) => {
            assert_eq!(path, "/t/info");
            assert_eq!(source.kind, IoErrorKind::PermissionDenied);
        }
        other => panic!("unexpected: {:?}", other),
    }
}

#[test]
fn a_source_that_cannot_be_resolved_ends_the_trashing() {
    let target = TargetTrash::new("/t".to_string(), TrashType::Home);
    let step = trash_item(
        "/src/file.txt",
        &target,
        TrashingState::Resolving {
            dest_path: "/t/files/file.txt".to_string(),
            info_file: "/t/info/file.txt.trashinfo".to_string(),
        },
        FsAnswer::Text(Err(fail(IoErrorKind::PermissionDenied, "denied"))),
    );
    match step {
        Step::Finish(Err(AppError::Io { path, source })) => {
            assert_eq!(path, "/src/file.txt");
            assert_eq!(source.kind, IoErrorKind::PermissionDenied);
            assert_eq!(source.message, "denied");
        }
        other => panic!("unexpected: {:?}", other),
    }
}

#[test]
fn a_record_that_cannot_be_written_ends_the_trashing_before_the_move() {
    let mut world = World::new();
    world.mkdir_all("/src").unwrap();
    world.write("/src/file.txt", "kept").unwrap();
    let target_trash = TargetTrash::new("/trash".to_string(), TrashType::Home);
    ensure(&mut world, &target_trash).unwrap();
    world.read_only.push("/trash/info".to_string());
    match trash(&mut world, "/src/file.txt", &target_trash) {
        Err(AppError::Io { path, source }) => {
            assert_eq!(path, "/trash/info/file.txt.trashinfo");
            assert_eq!(source.kind, IoErrorKind::PermissionDenied);
        }
        other => panic!("unexpected: {:?}", other),
    }
    assert_eq!(world.content("/src/file.txt"), "kept");
    assert!(world.names("/trash/files").is_empty());
}

#[test]
fn a_record_whose_item_was_taken_away_is_not_offered() {
    let mut world = World::new();
    world.mkdir_all("/home/u").unwrap();
    world.write("/home/u/x", "bytes").unwrap();
    let target_trash = TargetTrash::new("/home/u/Trash".to_string(), TrashType::Home);
    ensure(&mut world, &target_trash).unwrap();
    trash(&mut world, "/home/u/x", &target_trash).unwrap();
    world.remove_file("/home/u/Trash/files/x").unwrap();

    let info_path = "/home/u/Trash/info/x.trashinfo";
    let item_path = trash_tool::restoring::stored_item_path("/home/u/Trash", info_path).unwrap();
    assert_eq!(item_path, "/home/u/Trash/files/x");
    let files = vec![InfoFile {
        trash_dir: "/home/u/Trash".to_string(),
        info_path: info_path.to_string(),
        content: world.content(info_path),
        item_exists: world.has(&item_path),
    }];
    let outcome = find_trash_entries_in_dirs(&files);
    assert!(outcome.entries.is_empty());
    assert_eq!(outcome.missing_item, vec![info_path.to_string()]);
}
