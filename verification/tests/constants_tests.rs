use trash_tool::cli::TRASH_TOOL_OPTIONS;
use trash_tool::constants::{
    TRASH_FILES_DIR_NAME, TRASH_INFO_DATE_FORMAT, TRASH_INFO_DATE_KEY, TRASH_INFO_DIR_NAME,
    TRASH_INFO_EXTENSION, TRASH_INFO_HEADER, TRASH_INFO_PATH_KEY, TRASH_INFO_SUFFIX,
};
use trash_tool::trashing::COLLISION_COUNTER_START;

#[test]
fn test_cli_constants() {
    assert_eq!(TRASH_TOOL_OPTIONS, "TRASH_TOOL_OPTIONS");
}

#[test]
fn test_constants_adhere_to_spec() {
    assert_eq!(TRASH_INFO_HEADER, "[Trash Info]");
    assert_eq!(TRASH_INFO_PATH_KEY, "Path");
    assert_eq!(TRASH_INFO_DATE_KEY, "DeletionDate");
    assert_eq!(TRASH_INFO_EXTENSION, "trashinfo");
    assert_eq!(TRASH_INFO_SUFFIX, ".trashinfo");
    assert_eq!(TRASH_INFO_DATE_FORMAT, "%Y-%m-%dT%H:%M:%S");
    assert_eq!(TRASH_FILES_DIR_NAME, "files");
    assert_eq!(TRASH_INFO_DIR_NAME, "info");
}

#[test]
fn test_trash_info_constants_adhere_to_spec() {
    assert_eq!(COLLISION_COUNTER_START, 2);
}
