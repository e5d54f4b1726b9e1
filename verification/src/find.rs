//! The search: how a term is compared with a candidate, and the walk that
//! decides which entries are reported and which directories are entered.
//!
//! The walk keeps a stack of pending directories and an append-only registry
//! of rule sets. Each pending directory carries the index of the rule set in
//! effect for it, so that siblings share one set and a directory's own
//! ignore file binds only what lies below it.

use vstd::prelude::*;
use vstd::string::StringExecFns;
use crate::fuzzy::{classify, fuzzy_match, fuzzy_matches};
use crate::ignore::{default_rules, excluded, extended, IgnoreError, Rule, RuleSet};
use crate::text::{lowercase, strip_dot_slash, to_chars, to_lowercase, without_dot_slash};
use crate::{Options, SearchType};

verus! {

/// `regex::Regex`, a compiled regular expression. Opaque here: it is made
/// and asked for verdicts only through the functions below.
#[verifier::external_type_specification]
#[verifier::external_body]
pub struct ExRegex(regex::Regex);

/// `regex::Error`, what `Regex::new` gives for a pattern that does not
/// compile. Carried, never looked into.
#[verifier::external_type_specification]
#[verifier::external_body]
pub struct ExRegexError(regex::Error);

/// The text that a compiled regular expression was made from
/// (`Regex::as_str`).
pub uninterp spec fn regex_text(re: regex::Regex) -> Seq<char>;

/// Whether `Regex::new` accepts `pattern`.
pub uninterp spec fn regex_compiles(pattern: Seq<char>) -> bool;

/// Whether the regular expression compiled from `pattern` matches somewhere
/// in `haystack` (`Regex::is_match`).
pub uninterp spec fn regex_matches(pattern: Seq<char>, haystack: Seq<char>) -> bool;

/// `regex::Regex::new`. Trusted: whether a pattern compiles depends on the
/// pattern alone, and the compiled expression keeps the text it was made
/// from.
#[verifier::external_body]
fn compile_regex(pattern: &str) -> (r: Result<regex::Regex, regex::Error>)
    ensures
        r is Ok <==> regex_compiles(pattern@),
        r matches Ok(re) ==> regex_text(re) == pattern@,
{
    regex::Regex::new(pattern)
}

/// `regex::Regex::is_match`. Trusted: the verdict depends only on the text
/// the expression was compiled from and on the haystack.
#[verifier::external_body]
fn regex_is_match(re: &regex::Regex, haystack: &str) -> (b: bool)
    ensures
        b == regex_matches(regex_text(*re), haystack@),
{
    re.is_match(haystack)
}

/// Equality of string slices compares their characters.
pub assume_specification[ <str as PartialEq>::eq ](a: &str, b: &str) -> (r: bool)
    ensures
        r == (a@ == b@),
;

/// A text as it is compared: folded to lowercase when case is to be
/// ignored, unchanged otherwise.
pub open spec fn normalize(s: Seq<char>, insensitive: bool) -> Seq<char> {
    if insensitive {
        lowercase(s)
    } else {
        s
    }
}

/// Whether `candidate` matches the search term `pattern`. Candidate and
/// term are normalized first; a regular expression is compiled from the
/// term as it was written.
pub open spec fn term_matches(
    search_type: SearchType,
    insensitive: bool,
    candidate: Seq<char>,
    pattern: Seq<char>,
) -> bool {
    match search_type {
        SearchType::Exact => normalize(candidate, insensitive) == normalize(pattern, insensitive),
        SearchType::Fuzzy => fuzzy_matches(
            normalize(candidate, insensitive),
            normalize(pattern, insensitive),
        ),
        SearchType::Regex => regex_matches(pattern, normalize(candidate, insensitive)),
    }
}

/// The term is empty, as written or once normalized: there is nothing to
/// search for.
pub open spec fn no_input(pattern: Seq<char>, options: Options) -> bool {
    pattern.len() == 0 || normalize(pattern, options.insensitive).len() == 0
}

/// A search for `pattern` can begin: the term is not empty and, where it is
/// a regular expression, it compiles.
pub open spec fn term_valid(pattern: Seq<char>, options: Options) -> bool {
    &&& !no_input(pattern, options)
    &&& options.search_type is Regex ==> regex_compiles(pattern)
}

/// In exact mode a candidate matches when it equals the term, both
/// normalized.
pub proof fn exact_match_compares_normalized(
    insensitive: bool,
    candidate: Seq<char>,
    pattern: Seq<char>,
)
    ensures
        term_matches(SearchType::Exact, insensitive, candidate, pattern) == (normalize(
            candidate,
            insensitive,
        ) == normalize(pattern, insensitive)),
{
}

/// Ignoring case is comparing the lowercase forms with case respected. For
/// a regular expression this holds when the term is its own lowercase form,
/// since the expression is compiled from the term as written.
pub proof fn insensitive_match_compares_lowercase(
    search_type: SearchType,
    candidate: Seq<char>,
    pattern: Seq<char>,
)
    requires
        search_type is Regex ==> lowercase(pattern) == pattern,
    ensures
        term_matches(search_type, true, candidate, pattern) == term_matches(
            search_type,
            false,
            lowercase(candidate),
            lowercase(pattern),
        ),
{
}

/// `input` as it is compared under `options`.
pub fn make_case_insensitive(input: &str, options: &Options) -> (r: String)
    ensures
        r@ == normalize(input@, options.insensitive),
{
    if !options.insensitive {
        return input.to_owned();
    }
    to_lowercase(input)
}

/// Why a search did not begin.
pub enum SearchError {
    /// The search term is empty.
    NoInput,
    /// The search term is not a regular expression.
    Regex(regex::Error),
}

/// What every comparison of one search needs: the normalized term, the
/// compiled expression in regex mode, and the options.
pub struct SearchContext<'a> {
    search: String,
    term: Vec<char>,
    regex: Option<regex::Regex>,
    options: &'a Options,
    pattern: Ghost<Seq<char>>,
}

impl<'a> SearchContext<'a> {
    #[verifier::type_invariant]
    spec fn valid(&self) -> bool {
        &&& self.search@ == normalize(self.pattern@, self.options.insensitive)
        &&& self.term@ == self.search@
        &&& self.search@.len() > 0
        &&& self.options.search_type is Regex ==> self.regex is Some && regex_text(
            self.regex->Some_0,
        ) == self.pattern@
    }

    /// The search term as it was written.
    pub closed spec fn pattern(&self) -> Seq<char> {
        self.pattern@
    }

    /// The options of the search.
    pub closed spec fn options(&self) -> Options {
        *self.options
    }

    /// The search term as it is compared.
    pub open spec fn term(&self) -> Seq<char> {
        normalize(self.pattern(), self.options().insensitive)
    }

    /// Prepares a search for `pattern`. An empty term is refused, and so
    /// is, in regex mode, a term that does not compile.
    pub fn new(pattern: &str, options: &'a Options) -> (r: Result<SearchContext<'a>, SearchError>)
        ensures
            r is Ok <==> term_valid(pattern@, *options),
            r matches Ok(search) ==> search.pattern() == pattern@ && search.options() == *options,
            r matches Err(e) ==> (e is NoInput <==> no_input(pattern@, *options)),
    {
        if pattern.is_empty() {
            return Err(SearchError::NoInput);
        }
        let search = make_case_insensitive(pattern, options);
        if search.as_str().is_empty() {
            return Err(SearchError::NoInput);
        }
        let regex = match options.search_type {
            SearchType::Regex => match compile_regex(pattern) {
                Ok(re) => Some(re),
                Err(e) => {
                    return Err(SearchError::Regex(e));
                },
            },
            _ => None,
        };
        let term = to_chars(search.as_str());
        Ok(SearchContext { search, term, regex, options, pattern: Ghost(pattern@) })
    }

    /// Whether `candidate` matches the search term, in the mode and with
    /// the normalization that the options ask for.
    pub fn matches(&self, candidate: &str) -> (found: bool)
        ensures
            found == term_matches(
                self.options().search_type,
                self.options().insensitive,
                candidate@,
                self.pattern(),
            ),
    {
        proof {
            use_type_invariant(self);
        }
        let s = make_case_insensitive(candidate, self.options);
        match self.options.search_type {
            SearchType::Regex => regex_path_match_search(s.as_str(), self),
            SearchType::Exact => exact_path_match_search(s.as_str(), self),
            SearchType::Fuzzy => fuzzy_path_match_search(s.as_str(), self),
        }
    }
}

/// Whether the regular expression of the search matches somewhere in
/// `path_str`.
pub fn regex_path_match_search(path_str: &str, search: &SearchContext) -> (found: bool)
    requires
        search.options().search_type is Regex,
    ensures
        found == regex_matches(search.pattern(), path_str@),
{
    proof {
        use_type_invariant(search);
    }
    match &search.regex {
        Some(re) => regex_is_match(re, path_str),
        None => false,
    }
}

/// Whether `path_str` is the search term, character for character.
pub fn exact_path_match_search(path_str: &str, search: &SearchContext) -> (found: bool)
    ensures
        found == (path_str@ == search.term()),
{
    proof {
        use_type_invariant(search);
    }
    *path_str == *search.search.as_str()
}

/// Whether the search term fuzzily matches `path_str`. The empty path
/// matches nothing.
pub fn fuzzy_path_match_search(path_str: &str, search: &SearchContext) -> (found: bool)
    ensures
        found == fuzzy_matches(path_str@, search.term()),
        path_str@.len() == 0 ==> !found,
{
    proof {
        use_type_invariant(search);
    }
    if path_str.is_empty() {
        return false;
    }
    let path = to_chars(path_str);
    let word = classify(&path);
    fuzzy_match(&path, &word, &search.term)
}

/// A directory that waits to be searched, as the contracts see it.
pub struct PendingDir {
    pub path: Seq<char>,
    pub rule_index: nat,
}

/// A directory that waits to be searched, with the index of the rule set
/// in effect for it.
pub struct Dir {
    pub path: String,
    pub rule_index: usize,
}

impl View for Dir {
    type V = PendingDir;

    open spec fn view(&self) -> PendingDir {
        PendingDir { path: self.path@, rule_index: self.rule_index as nat }
    }
}

/// An entry of a directory, as the contracts see it.
pub struct EntryView {
    pub path: Seq<char>,
    pub file_name: Option<Seq<char>>,
    pub is_dir: bool,
    pub is_symlink: bool,
}

/// An entry of a directory, as its listing gave it.
pub struct Entry {
    /// The path of the entry, the directory's path included.
    pub path: String,
    /// The last component of the path, if it has one.
    pub file_name: Option<String>,
    /// The path leads to a directory, directly or through a link.
    pub is_dir: bool,
    /// The entry itself is a symbolic link.
    pub is_symlink: bool,
}

impl View for Entry {
    type V = EntryView;

    open spec fn view(&self) -> EntryView {
        EntryView {
            path: self.path@,
            file_name: match self.file_name {
                Some(name) => Some(name@),
                None => None,
            },
            is_dir: self.is_dir,
            is_symlink: self.is_symlink,
        }
    }
}

/// The rules exclude the entry: it has a file name, and some rule excludes
/// that name.
pub open spec fn entry_excluded(rules: Seq<Rule>, entry: EntryView) -> bool {
    entry.file_name matches Some(name) && excluded(rules, name, entry.is_dir)
}

/// The text of the entry that the term is compared with: its file name
/// when only names are searched, else its path without a leading `./`.
pub open spec fn entry_candidate(entry: EntryView, names_only: bool) -> Option<Seq<char>> {
    if names_only {
        entry.file_name
    } else {
        Some(strip_dot_slash(entry.path))
    }
}

/// The entry is reported: it is not excluded, it has a text to compare,
/// and that text matches the term.
pub open spec fn entry_found(rules: Seq<Rule>, search: SearchContext, entry: EntryView) -> bool {
    &&& !entry_excluded(rules, entry)
    &&& entry_candidate(entry, search.options().search_names_only) matches Some(candidate)
    &&& term_matches(
        search.options().search_type,
        search.options().insensitive,
        candidate,
        search.pattern(),
    )
}

/// The entry is entered later: it is a directory and no symbolic link, it
/// is not excluded, and it has a text to compare.
pub open spec fn entry_descends(rules: Seq<Rule>, search: SearchContext, entry: EntryView) -> bool {
    &&& !entry_excluded(rules, entry)
    &&& entry_candidate(entry, search.options().search_names_only) is Some
    &&& entry.is_dir
    &&& !entry.is_symlink
}

/// The path of the ignore file of the directory `dir`.
pub fn ignore_path(dir: &str) -> (path: String)
    ensures
        path@ == dir@ + "/.gitignore"@,
{
    dir.to_owned().concat("/.gitignore")
}

/// The state of a walk: the search, the registry of rule sets, the stack of
/// pending directories, and the index of the rule set in effect for the
/// directory being searched.
pub struct Walker<'a> {
    search: SearchContext<'a>,
    rule_sets: Vec<RuleSet>,
    dirs: Vec<Dir>,
    rule_index: usize,
}

impl<'a> Walker<'a> {
    /// The search that the walk serves.
    pub closed spec fn search(&self) -> SearchContext<'a> {
        self.search
    }

    /// The rule sets made so far, in the order in which they were made.
    pub closed spec fn registry(&self) -> Seq<Seq<Rule>> {
        self.rule_sets@.map_values(|set: RuleSet| set@)
    }

    /// The directories that wait to be searched; the last is next.
    pub closed spec fn pending(&self) -> Seq<PendingDir> {
        self.dirs@.map_values(|dir: Dir| dir@)
    }

    /// The index of the rule set in effect for the directory being
    /// searched.
    pub closed spec fn current(&self) -> nat {
        self.rule_index as nat
    }

    /// The rules in effect for the directory being searched.
    pub open spec fn rules(&self) -> Seq<Rule> {
        self.registry()[self.current() as int]
    }

    /// Every index that the walk holds points into the registry.
    pub open spec fn wf(&self) -> bool {
        &&& self.current() < self.registry().len()
        &&& forall|i: int|
            0 <= i < self.pending().len() ==> (#[trigger] self.pending()[i]).rule_index
                < self.registry().len()
    }

    /// The walk has ended: no directory waits.
    pub fn is_done(&self) -> (done: bool)
        ensures
            done == (self.pending().len() == 0),
    {
        self.dirs.len() == 0
    }

    /// The number of rule sets made so far.
    pub fn rule_sets_len(&self) -> (n: usize)
        ensures
            n == self.registry().len(),
    {
        self.rule_sets.len()
    }

    /// The index of the rule set in effect for the directory being
    /// searched.
    pub fn rule_index(&self) -> (index: usize)
        ensures
            index == self.current(),
    {
        self.rule_index
    }

    /// Takes the directory pushed last off the stack and makes its rule set
    /// the one in effect. Gives the path of that directory, or `None` when
    /// the walk has ended.
    pub fn next_dir(&mut self) -> (next: Option<String>)
        requires
            old(self).wf(),
        ensures
            final(self).wf(),
            final(self).search() == old(self).search(),
            final(self).registry() == old(self).registry(),
            match next {
                Some(path) => {
                    &&& old(self).pending().len() > 0
                    &&& path@ == old(self).pending().last().path
                    &&& final(self).current() == old(self).pending().last().rule_index
                    &&& final(self).pending() == old(self).pending().drop_last()
                },
                None => {
                    &&& old(self).pending().len() == 0
                    &&& final(self).pending() == old(self).pending()
                    &&& final(self).current() == old(self).current()
                },
            },
    {
        let ghost before = self.pending();
        match self.dirs.pop() {
            Some(dir) => {
                assert(dir@ == before.last());
                assert(self.pending() == before.drop_last());
                self.rule_index = dir.rule_index;
                Some(dir.path)
            },
            None => None,
        }
    }

    /// Takes in what reading the ignore file of the directory being
    /// searched gave. A file that was read adds a rule set to the registry,
    /// the file's own rules before the inherited ones, and that set is in
    /// effect from now on. A file that could not be read changes nothing.
    pub fn merge_ignore_file(&mut self, ignore_file: Result<&str, IgnoreError>)
        requires
            old(self).wf(),
        ensures
            final(self).wf(),
            final(self).search() == old(self).search(),
            final(self).pending() == old(self).pending(),
            match ignore_file {
                Ok(contents) => {
                    &&& final(self).registry() == old(self).registry().push(
                        extended(old(self).rules(), contents@),
                    )
                    &&& final(self).current() == old(self).registry().len()
                },
                Err(_) => {
                    &&& final(self).registry() == old(self).registry()
                    &&& final(self).current() == old(self).current()
                },
            },
    {
        let ghost before = self.registry();
        match RuleSet::extend(&self.rule_sets[self.rule_index], ignore_file) {
            Ok(rule_set) => {
                self.rule_sets.push(rule_set);
                assert(self.registry() == before.push(rule_set@));
                assert(self.pending() == old(self).pending());
                self.rule_index = self.rule_sets.len() - 1;
            },
            Err(_) => {},
        }
    }

    /// Decides on one entry of the directory being searched: whether it is
    /// reported, and whether it is entered later. An excluded entry is
    /// neither, and nothing is compared for it. A directory that is entered
    /// later carries the rule set now in effect.
    pub fn search_dir_entry(&mut self, entry: &Entry) -> (found: bool)
        requires
            old(self).wf(),
        ensures
            final(self).wf(),
            final(self).search() == old(self).search(),
            final(self).registry() == old(self).registry(),
            final(self).current() == old(self).current(),
            found == entry_found(old(self).rules(), old(self).search(), entry@),
            final(self).pending() == if entry_descends(
                old(self).rules(),
                old(self).search(),
                entry@,
            ) {
                old(self).pending().push(
                    PendingDir { path: entry@.path, rule_index: old(self).current() },
                )
            } else {
                old(self).pending()
            },
    {
        proof {
            use_type_invariant(&self.search);
        }
        if let Some(filename) = &entry.file_name {
            assert(self.rule_sets[self.rule_index as int]@ == self.rules());
            if self.rule_sets[self.rule_index].is_excluded(filename.as_str(), entry.is_dir) {
                return false;
            }
        }
        let found = if self.search.options.search_names_only {
            match &entry.file_name {
                Some(name) => self.search.matches(name.as_str()),
                None => {
                    return false;
                },
            }
        } else {
            let s = without_dot_slash(entry.path.as_str());
            self.search.matches(s.as_str())
        };
        // A directory that was not excluded is searched later.
        if entry.is_dir && !entry.is_symlink {
            let ghost before = self.pending();
            let dir = Dir { path: entry.path.clone(), rule_index: self.rule_index };
            self.dirs.push(dir);
            assert(self.pending() == before.push(dir@));
        }
        found
    }
}

/// Begins a search for `pattern` below the current directory. An empty
/// term and, in regex mode, a term that does not compile end the run here,
/// before anything is read. Otherwise the walk starts with the default
/// rules and with `./` as its one pending directory.
pub fn find<'a>(pattern: &str, options: &'a Options) -> (r: Result<Walker<'a>, SearchError>)
    ensures
        r is Ok <==> term_valid(pattern@, *options),
        r matches Err(e) ==> (e is NoInput <==> no_input(pattern@, *options)),
        r matches Ok(walker) ==> {
            &&& walker.wf()
            &&& walker.search().pattern() == pattern@
            &&& walker.search().options() == *options
            &&& walker.registry() == seq![default_rules()]
            &&& walker.pending() == seq![PendingDir { path: "./"@, rule_index: 0 }]
            &&& walker.current() == 0
        },
{
    let search = match SearchContext::new(pattern, options) {
        Ok(search) => search,
        Err(e) => {
            return Err(e);
        },
    };
    let mut rule_sets: Vec<RuleSet> = Vec::new();
    rule_sets.push(RuleSet::new_default());
    let mut dirs: Vec<Dir> = Vec::new();
    let dir = Dir { path: "./".to_owned(), rule_index: 0 };
    dirs.push(dir);
    let walker = Walker { search, rule_sets, dirs, rule_index: 0 };
    assert(walker.registry() == seq![default_rules()]);
    assert(walker.pending() == seq![PendingDir { path: "./"@, rule_index: 0 }]);
    Ok(walker)
}

} // verus!
