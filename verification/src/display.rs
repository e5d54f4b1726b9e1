//! What is shown for a reported path: its text and the style that tells
//! what kind of file it is. Painting and printing are left to the caller.

use vstd::prelude::*;
use crate::fileinfo::{executable, symbolic_link, unrestricted, FileInfo};
use crate::text::{strip_dot_slash, without_dot_slash};
use crate::Options;

verus! {

/// How a path is painted.
#[derive(Debug, Clone, Copy)]
pub enum Style {
    /// No color.
    Plain,
    /// A directory.
    Directory,
    /// A symbolic link.
    SymbolicLink,
    /// A file with which everyone can do everything.
    Unrestricted,
    /// A file that someone may execute.
    Executable,
}

/// One line of output.
pub struct Line {
    pub text: String,
    pub style: Style,
}

/// The style of a path. Without colors, and for a file whose facts could
/// not be read, it is plain. Otherwise the first of these decides:
/// directory, symbolic link, unrestricted, executable.
pub open spec fn style_of(info: Option<FileInfo>, no_colors: bool) -> Style {
    match info {
        Some(info) if !no_colors => {
            if info.spec_is_dir() {
                Style::Directory
            } else if symbolic_link(info.spec_l_mode()) {
                Style::SymbolicLink
            } else if unrestricted(info.spec_mode()) {
                Style::Unrestricted
            } else if executable(info.spec_mode()) {
                Style::Executable
            } else {
                Style::Plain
            }
        },
        _ => Style::Plain,
    }
}

/// The facts behind an optional reference.
pub open spec fn facts(info: Option<&FileInfo>) -> Option<FileInfo> {
    match info {
        Some(info) => Some(*info),
        None => None,
    }
}

/// The line for a path shown in full: the path without a leading `./`.
pub fn print_as_path(path: &str, info: Option<&FileInfo>, options: &Options) -> (line: Line)
    ensures
        line.text@ == strip_dot_slash(path@),
        line.style == style_of(facts(info), options.no_colors),
{
    let s = without_dot_slash(path);
    print_path(info, s.as_str(), options)
}

/// The line for a path shown by its file name; a path without one gives an
/// empty line.
pub fn print_as_filename(file_name: Option<&str>, info: Option<&FileInfo>, options: &Options) -> (line:
    Line)
    ensures
        line.text@ == (match file_name {
            Some(name) => name@,
            None => Seq::<char>::empty(),
        }),
        line.style == style_of(facts(info), options.no_colors),
{
    proof {
        reveal_strlit("");
    }
    match file_name {
        Some(name) => print_path(info, name, options),
        None => print_path(info, "", options),
    }
}

/// The line that shows `s` for the file with the facts `info`.
pub fn print_path(info: Option<&FileInfo>, s: &str, options: &Options) -> (line: Line)
    ensures
        line.text@ == s@,
        line.style == style_of(facts(info), options.no_colors),
{
    let text = s.to_owned();
    if options.no_colors {
        return Line { text, style: Style::Plain };
    }
    let info = match info {
        Some(info) => info,
        None => {
            return Line { text, style: Style::Plain };
        },
    };
    let style = if info.is_dir() {
        Style::Directory
    } else if info.is_symbolic_link() {
        Style::SymbolicLink
    } else if info.everyone_can_do_everything() {
        Style::Unrestricted
    } else if info.is_executable() {
        Style::Executable
    } else {
        Style::Plain
    };
    Line { text, style }
}

} // verus!
