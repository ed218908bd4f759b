//! How things are shown: which colour a name gets, and how permission bits
//! are written.
//!
//! Nothing here paints. A style says how a text is to be painted, and the
//! caller paints it.

use crate::file_type::FileType;
use crate::text::{str_eq, string_of};
use vstd::prelude::*;

verus! {

/// The colours.
#[derive(Debug, Clone, Copy, PartialEq, Eq, Structural)]
pub enum Tint {
    Plain,
    Blue,
    Green,
    Red,
    Yellow,
    Magenta,
    Purple,
    Cyan,
    White,
}

/// How a text is painted.
#[derive(Debug, Clone, Copy, PartialEq, Eq, Structural)]
pub struct TextStyle {
    pub tint: Tint,
    pub bold: bool,
    pub dimmed: bool,
}

/// What the user's choice of `always`, `never` or `auto` means for colours:
/// on, off, or left to the terminal. Any other word is taken as `auto`.
pub fn color_override(color_choice: &str) -> (r: Option<bool>)
    ensures
        color_choice@ == "always"@ ==> r == Some(true),
        color_choice@ != "always"@ && color_choice@ == "never"@ ==> r == Some(false),
        color_choice@ != "always"@ && color_choice@ != "never"@ ==> r is None,
{
    if str_eq(color_choice, "always") {
        Some(true)
    } else if str_eq(color_choice, "never") {
        Some(false)
    } else {
        None
    }
}

/// The style of a name, by the kind of file it stands for.
pub open spec fn style_of(file_type: FileType) -> TextStyle {
    match file_type {
        FileType::Directory => TextStyle { tint: Tint::Blue, bold: true, dimmed: false },
        FileType::Executable => TextStyle { tint: Tint::Green, bold: true, dimmed: false },
        FileType::Archive => TextStyle { tint: Tint::Red, bold: true, dimmed: false },
        FileType::Config => TextStyle { tint: Tint::Yellow, bold: true, dimmed: false },
        FileType::Document => TextStyle { tint: Tint::Plain, bold: false, dimmed: false },
        FileType::Image => TextStyle { tint: Tint::Magenta, bold: true, dimmed: false },
        FileType::Video => TextStyle { tint: Tint::Purple, bold: true, dimmed: false },
        FileType::Music => TextStyle { tint: Tint::Cyan, bold: true, dimmed: false },
        FileType::Other => TextStyle { tint: Tint::Plain, bold: false, dimmed: false },
    }
}

/// The style of a name, by the kind of file it stands for.
pub fn path_style(file_type: FileType) -> (r: TextStyle)
    ensures
        r == style_of(file_type),
{
    match file_type {
        FileType::Directory => TextStyle { tint: Tint::Blue, bold: true, dimmed: false },
        FileType::Executable => TextStyle { tint: Tint::Green, bold: true, dimmed: false },
        FileType::Archive => TextStyle { tint: Tint::Red, bold: true, dimmed: false },
        FileType::Config => TextStyle { tint: Tint::Yellow, bold: true, dimmed: false },
        FileType::Document => TextStyle { tint: Tint::Plain, bold: false, dimmed: false },
        FileType::Image => TextStyle { tint: Tint::Magenta, bold: true, dimmed: false },
        FileType::Video => TextStyle { tint: Tint::Purple, bold: true, dimmed: false },
        FileType::Music => TextStyle { tint: Tint::Cyan, bold: true, dimmed: false },
        FileType::Other => TextStyle { tint: Tint::Plain, bold: false, dimmed: false },
    }
}

/// The sign for one permission: `sign` where `bit` is set in `mode`, a dash
/// where it is not.
pub open spec fn permission_sign(mode: u32, bit: u32, sign: char) -> char {
    if mode & bit != 0 {
        sign
    } else {
        '-'
    }
}

/// The ten signs that write the kind and the permission bits of a file: `d`
/// or a dash, then read, write and execute for the owner, the group and the
/// others.
pub open spec fn mode_text(mode: u32, is_dir: bool) -> Seq<char> {
    seq![
        if is_dir {
            'd'
        } else {
            '-'
        },
        permission_sign(mode, 0o400, 'r'),
        permission_sign(mode, 0o200, 'w'),
        permission_sign(mode, 0o100, 'x'),
        permission_sign(mode, 0o040, 'r'),
        permission_sign(mode, 0o020, 'w'),
        permission_sign(mode, 0o010, 'x'),
        permission_sign(mode, 0o004, 'r'),
        permission_sign(mode, 0o002, 'w'),
        permission_sign(mode, 0o001, 'x'),
    ]
}

/// The sign for one permission.
fn sign_for(mode: u32, bit: u32, sign: char) -> (r: char)
    ensures
        r == permission_sign(mode, bit, sign),
{
    if mode & bit != 0 {
        sign
    } else {
        '-'
    }
}

/// The ten signs that write the kind and the permission bits of a file.
pub fn format_mode(mode: u32, is_dir: bool) -> (r: String)
    ensures
        r@ == mode_text(mode, is_dir),
{
    let mut out: Vec<char> = Vec::new();
    out.push(if is_dir {
        'd'
    } else {
        '-'
    });
    out.push(sign_for(mode, 0o400, 'r'));
    out.push(sign_for(mode, 0o200, 'w'));
    out.push(sign_for(mode, 0o100, 'x'));
    out.push(sign_for(mode, 0o040, 'r'));
    out.push(sign_for(mode, 0o020, 'w'));
    out.push(sign_for(mode, 0o010, 'x'));
    out.push(sign_for(mode, 0o004, 'r'));
    out.push(sign_for(mode, 0o002, 'w'));
    out.push(sign_for(mode, 0o001, 'x'));
    assert(out@ == mode_text(mode, is_dir));
    string_of(&out)
}

/// The style of one sign of a written mode: `d` blue, `r` yellow, `w` red,
/// `x` green, and anything else dimmed.
pub fn mode_sign_style(sign: char) -> (r: TextStyle)
    ensures
        r.bold == false,
        r.dimmed == (sign != 'd' && sign != 'r' && sign != 'w' && sign != 'x'),
        r.tint == if sign == 'd' {
            Tint::Blue
        } else if sign == 'r' {
            Tint::Yellow
        } else if sign == 'w' {
            Tint::Red
        } else if sign == 'x' {
            Tint::Green
        } else {
            Tint::Plain
        },
{
    if sign == 'd' {
        TextStyle { tint: Tint::Blue, bold: false, dimmed: false }
    } else if sign == 'r' {
        TextStyle { tint: Tint::Yellow, bold: false, dimmed: false }
    } else if sign == 'w' {
        TextStyle { tint: Tint::Red, bold: false, dimmed: false }
    } else if sign == 'x' {
        TextStyle { tint: Tint::Green, bold: false, dimmed: false }
    } else {
        TextStyle { tint: Tint::Plain, bold: false, dimmed: true }
    }
}

} // verus!
