//! The fixed words of the trash layout and of the record format.

use vstd::prelude::*;

verus! {

/// First line of every record.
pub const TRASH_INFO_HEADER: &'static str = "[Trash Info]";

/// Key of the line that holds the original path.
pub const TRASH_INFO_PATH_KEY: &'static str = "Path";

/// Key of the line that holds the time of deletion.
pub const TRASH_INFO_DATE_KEY: &'static str = "DeletionDate";

/// Extension of a record file.
pub const TRASH_INFO_EXTENSION: &'static str = "trashinfo";

/// What a record file's name adds to the name of the item it describes.
pub const TRASH_INFO_SUFFIX: &'static str = ".trashinfo";

/// Pattern by which the time of deletion is written.
pub const TRASH_INFO_DATE_FORMAT: &'static str = "%Y-%m-%dT%H:%M:%S";

/// Name of the directory that holds the trashed items.
pub const TRASH_FILES_DIR_NAME: &'static str = "files";

/// Name of the directory that holds the records.
pub const TRASH_INFO_DIR_NAME: &'static str = "info";

} // verus!
