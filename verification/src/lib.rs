//! A file finder: walks a directory tree, leaves out what ignore files
//! exclude, and reports the paths that match a search term fuzzily, exactly
//! or by regular expression.
//!
//! The library decides; it reads no file and prints nothing. Its caller
//! lists directories and reads ignore files, and hands over what it found.

use vstd::prelude::*;

pub mod display;
pub mod fileinfo;
pub mod find;
pub mod fuzzy;
pub mod ignore;
pub mod log;
pub mod text;

verus! {

/// How the search term is compared with a candidate.
#[derive(Debug, Clone, Copy)]
pub enum SearchType {
    Fuzzy,
    Regex,
    Exact,
}

/// The settings of one run.
#[derive(Debug)]
pub struct Options {
    /// Report what is being done.
    pub verbose: bool,
    /// Report every comparison too.
    pub very_verbose: bool,
    /// Fold candidates and term to lowercase before comparing.
    pub insensitive: bool,
    /// Compare the term with file names, not with whole paths.
    pub search_names_only: bool,
    /// Print matches without colors.
    pub no_colors: bool,
    pub search_type: SearchType,
    pub search_dir: String,
}

/// What a run does.
pub enum Command {
    /// Show the entries of a directory, or the one file named.
    List(String),
    /// Search below the current directory for a term.
    Find(String),
}

/// Reads the argument of a run. Without one, the current directory is
/// listed. An argument that ends with `/` names a directory to list; any
/// other is a term to search for.
pub fn command(pattern: Option<&str>) -> (c: Command)
    ensures
        match pattern {
            None => c matches Command::List(path) && path@ == "."@,
            Some(text) => if text@.len() > 0 && text@.last() == '/' {
                c matches Command::List(path) && path@ == text@
            } else {
                c matches Command::Find(term) && term@ == text@
            },
        },
{
    let pattern = match pattern {
        Some(pattern) => pattern,
        None => {
            return Command::List(".".to_owned());
        },
    };
    let chars = text::to_chars(pattern);
    let n = chars.len();
    if n > 0 && chars[n - 1] == '/' {
        Command::List(pattern.to_owned())
    } else {
        Command::Find(pattern.to_owned())
    }
}

} // verus!
