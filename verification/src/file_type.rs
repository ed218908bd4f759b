//! What kind of file a name stands for.
//!
//! A directory and an executable file are known by what the file system
//! says of them. Every other file is known by its name in lower case: by its
//! extension, by the whole name, or by how the name starts or ends.

use crate::paths::{extension, file_name, path_extension, path_file_name};
use crate::text::{chars_of, has_prefix, has_suffix, lowercase_of, str_eq, to_lowercase};
use vstd::prelude::*;

verus! {

/// The kinds of file that are told apart when names are shown.
#[derive(Debug, Clone, Copy, PartialEq, Eq, Structural)]
pub enum FileType {
    Directory,
    Executable,
    Archive,
    Config,
    Document,
    Image,
    Video,
    Music,
    Other,
}

/// The texts of a list of words.
pub open spec fn words(list: Seq<&'static str>) -> Seq<Seq<char>> {
    list.map_values(|w: &'static str| w@)
}

/// Whether `s` is one of the words of `list`.
pub fn is_among(s: &str, list: &[&'static str]) -> (r: bool)
    ensures
        r == words(list@).contains(s@),
{
    let mut i: usize = 0;
    while i < list.len()
        invariant
            i <= list.len(),
            forall|j: int| 0 <= j < i ==> words(list@)[j] != s@,
        decreases list.len() - i,
    {
        assert(words(list@)[i as int] == list@[i as int]@);
        if str_eq(s, list[i]) {
            return true;
        }
        i += 1;
    }
    false
}

/// The extensions of configuration files.
pub open spec fn config_extensions() -> Seq<&'static str> {
    seq![
        "toml", "yaml", "yml", "json", "conf", "ini", "env", "gradle", "xml", "cfg",
    ]
}

/// Whether `s` is among them.
fn in_config_extensions(s: &str) -> (r: bool)
    ensures
        r == words(config_extensions()).contains(s@),
{
    let list = [
        "toml", "yaml", "yml", "json", "conf", "ini", "env", "gradle", "xml", "cfg",
    ];
    assert(list@ == config_extensions());
    is_among(s, &list)
}

/// The names of configuration files, in lower case.
pub open spec fn config_filenames() -> Seq<&'static str> {
    seq![
        "makefile", "cargo.toml", "package.json", "package-lock.json", "yarn.lock",
        "pnpm-lock.yaml", "composer.json", "pom.xml", "build.gradle", "gemfile", "pipfile",
        "pipfile.lock", "requirements.txt", "pyproject.toml", "setup.py", "setup.cfg",
        "dockerfile", "docker-compose.yml", "license", "license.txt", ".editorconfig",
        ".gitignore", ".gitattributes", ".gitmodules", ".prettierrc", "tsconfig.json",
        "jsconfig.json", "webpack.config.js", "vite.config.js", "rollup.config.js",
        "vagrantfile",
    ]
}

/// Whether `s` is among them.
fn in_config_filenames(s: &str) -> (r: bool)
    ensures
        r == words(config_filenames()).contains(s@),
{
    let list = [
        "makefile", "cargo.toml", "package.json", "package-lock.json", "yarn.lock",
        "pnpm-lock.yaml", "composer.json", "pom.xml", "build.gradle", "gemfile", "pipfile",
        "pipfile.lock", "requirements.txt", "pyproject.toml", "setup.py", "setup.cfg",
        "dockerfile", "docker-compose.yml", "license", "license.txt", ".editorconfig",
        ".gitignore", ".gitattributes", ".gitmodules", ".prettierrc", "tsconfig.json",
        "jsconfig.json", "webpack.config.js", "vite.config.js", "rollup.config.js",
        "vagrantfile",
    ];
    assert(list@ == config_filenames());
    is_among(s, &list)
}

/// The extensions of archives.
pub open spec fn archive_extensions() -> Seq<&'static str> {
    seq![
        "zip", "tar", "gz", "bz2", "xz", "tgz", "tbz2", "7z", "rar", "deb", "iso", "zst",
    ]
}

/// Whether `s` is among them.
fn in_archive_extensions(s: &str) -> (r: bool)
    ensures
        r == words(archive_extensions()).contains(s@),
{
    let list = [
        "zip", "tar", "gz", "bz2", "xz", "tgz", "tbz2", "7z", "rar", "deb", "iso", "zst",
    ];
    assert(list@ == archive_extensions());
    is_among(s, &list)
}

/// The extensions of documents.
pub open spec fn document_extensions() -> Seq<&'static str> {
    seq![
        "md", "txt", "doc", "docx", "pdf", "xls", "xlsx", "ppt", "pptx", "odt", "ods", "odp",
        "rtf", "epub", "csv",
    ]
}

/// Whether `s` is among them.
fn in_document_extensions(s: &str) -> (r: bool)
    ensures
        r == words(document_extensions()).contains(s@),
{
    let list = [
        "md", "txt", "doc", "docx", "pdf", "xls", "xlsx", "ppt", "pptx", "odt", "ods", "odp",
        "rtf", "epub", "csv",
    ];
    assert(list@ == document_extensions());
    is_among(s, &list)
}

/// The extensions of images.
pub open spec fn image_extensions() -> Seq<&'static str> {
    seq![
        "jpg", "jpeg", "png", "gif", "bmp", "svg", "webp", "heic", "heif", "tiff", "tif",
        "ico", "avif",
    ]
}

/// Whether `s` is among them.
fn in_image_extensions(s: &str) -> (r: bool)
    ensures
        r == words(image_extensions()).contains(s@),
{
    let list = [
        "jpg", "jpeg", "png", "gif", "bmp", "svg", "webp", "heic", "heif", "tiff", "tif",
        "ico", "avif",
    ];
    assert(list@ == image_extensions());
    is_among(s, &list)
}

/// The extensions of videos.
pub open spec fn video_extensions() -> Seq<&'static str> {
    seq![
        "mp4", "mkv", "mov", "avi", "webm", "mpeg", "mpg", "flv", "wmv", "3gp",
    ]
}

/// Whether `s` is among them.
fn in_video_extensions(s: &str) -> (r: bool)
    ensures
        r == words(video_extensions()).contains(s@),
{
    let list = [
        "mp4", "mkv", "mov", "avi", "webm", "mpeg", "mpg", "flv", "wmv", "3gp",
    ];
    assert(list@ == video_extensions());
    is_among(s, &list)
}

/// The extensions of music.
pub open spec fn music_extensions() -> Seq<&'static str> {
    seq![
        "mp3", "flac", "m4a", "wav", "ogg", "aac", "alac", "aiff", "opus",
    ]
}

/// Whether `s` is among them.
fn in_music_extensions(s: &str) -> (r: bool)
    ensures
        r == words(music_extensions()).contains(s@),
{
    let list = [
        "mp3", "flac", "m4a", "wav", "ogg", "aac", "alac", "aiff", "opus",
    ];
    assert(list@ == music_extensions());
    is_among(s, &list)
}

/// Whether a file with the lower-case name `name` and the lower-case
/// extension `ext` is a configuration file: by its extension, by its name,
/// because its name starts with `.env`, or because it ends with `rc` or with
/// `.config.` and `js`, `mjs` or `ts`.
pub open spec fn is_config(name: Seq<char>, ext: Seq<char>) -> bool {
    ||| words(config_extensions()).contains(ext)
    ||| words(config_filenames()).contains(name)
    ||| ".env"@.is_prefix_of(name)
    ||| ".config.js"@.is_suffix_of(name)
    ||| ".config.mjs"@.is_suffix_of(name)
    ||| ".config.ts"@.is_suffix_of(name)
    ||| "rc"@.is_suffix_of(name)
}

/// The kind of a file that is neither a directory nor executable, by its
/// lower-case name and extension. Configuration comes first, then the
/// extension decides.
pub open spec fn kind_by_name(name: Seq<char>, ext: Seq<char>) -> FileType {
    if is_config(name, ext) {
        FileType::Config
    } else if words(archive_extensions()).contains(ext) {
        FileType::Archive
    } else if words(document_extensions()).contains(ext) {
        FileType::Document
    } else if words(image_extensions()).contains(ext) {
        FileType::Image
    } else if words(video_extensions()).contains(ext) {
        FileType::Video
    } else if words(music_extensions()).contains(ext) {
        FileType::Music
    } else {
        FileType::Other
    }
}

/// The text, or nothing where there is none.
pub open spec fn or_empty(text: Option<Seq<char>>) -> Seq<char> {
    match text {
        Some(t) => t,
        None => Seq::empty(),
    }
}

/// The kind of the file at `path`, of which the file system says whether it
/// is a directory and whether it may be executed.
pub open spec fn file_type_of(path: Seq<char>, is_dir: bool, is_executable: bool) -> FileType {
    if is_dir {
        FileType::Directory
    } else if is_executable {
        FileType::Executable
    } else {
        kind_by_name(
            lowercase_of(or_empty(path_file_name(path))),
            lowercase_of(or_empty(path_extension(path))),
        )
    }
}

/// Whether `name` starts with `start`.
fn name_starts_with(name: &str, start: &str) -> (r: bool)
    ensures
        r == start@.is_prefix_of(name@),
{
    let n = chars_of(name);
    let s = chars_of(start);
    has_prefix(&n, &s)
}

/// Whether `name` ends with `end`.
fn name_ends_with(name: &str, end: &str) -> (r: bool)
    ensures
        r == end@.is_suffix_of(name@),
{
    let n = chars_of(name);
    let e = chars_of(end);
    has_suffix(&n, &e)
}

/// The kind of a file that is neither a directory nor executable, by its
/// name and its extension, both in lower case.
pub fn classify_file_name(filename_lower: &str, extension_lower: &str) -> (r: FileType)
    ensures
        r == kind_by_name(filename_lower@, extension_lower@),
{
    if in_config_extensions(extension_lower) || in_config_filenames(filename_lower)
        || name_starts_with(filename_lower, ".env") || name_ends_with(
        filename_lower,
        ".config.js",
    ) || name_ends_with(filename_lower, ".config.mjs") || name_ends_with(
        filename_lower,
        ".config.ts",
    ) || name_ends_with(filename_lower, "rc") {
        return FileType::Config;
    }
    if in_archive_extensions(extension_lower) {
        FileType::Archive
    } else if in_document_extensions(extension_lower) {
        FileType::Document
    } else if in_image_extensions(extension_lower) {
        FileType::Image
    } else if in_video_extensions(extension_lower) {
        FileType::Video
    } else if in_music_extensions(extension_lower) {
        FileType::Music
    } else {
        FileType::Other
    }
}

/// The kind of the file at `path`, of which the file system says whether it
/// is a directory and whether it may be executed.
pub fn get_file_type(path: &str, is_dir: bool, is_executable: bool) -> (r: FileType)
    ensures
        r == file_type_of(path@, is_dir, is_executable),
{
    if is_dir {
        return FileType::Directory;
    }
    if is_executable {
        return FileType::Executable;
    }
    let name = match file_name(path) {
        Some(n) => n,
        None => String::new(),
    };
    let ext = match extension(path) {
        Some(e) => e,
        None => String::new(),
    };
    let filename_lower = to_lowercase(name.as_str());
    let extension_lower = to_lowercase(ext.as_str());
    classify_file_name(filename_lower.as_str(), extension_lower.as_str())
}

/// Whether a file may be executed, by its permission bits: one of the three
/// execute bits is set. A file of which no bits are known may not.
pub fn is_executable(mode: Option<u32>) -> (r: bool)
    ensures
        r == (mode matches Some(m) && m & 0o111 != 0),
{
    match mode {
        Some(m) => m & 0o111 != 0,
        None => false,
    }
}

} // verus!
