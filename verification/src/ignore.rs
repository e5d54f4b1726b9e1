//! Exclusion rules read from ignore files.
//!
//! A rule is a glob pattern with a flag that restricts it to directories. A
//! rule set is an ordered list of rules; a path is excluded when any rule of
//! the set matches it, so the order never changes a verdict. Compiling and
//! matching patterns is the work of the `glob` crate.

use vstd::prelude::*;
use crate::text::{to_chars, to_string, trim, trim_bounds};

verus! {

/// `glob::Pattern`, a compiled pattern. Opaque here: it is made, copied and
/// asked for verdicts only through the functions below.
#[verifier::external_type_specification]
#[verifier::external_body]
pub struct ExPattern(glob::Pattern);

/// `glob::PatternError`, what `Pattern::new` gives for a text that does not
/// compile. Carried, never looked into.
#[verifier::external_type_specification]
#[verifier::external_body]
pub struct ExPatternError(glob::PatternError);

/// `std::io::Error`, what reading an ignore file may give. Carried, never
/// looked into.
#[verifier::external_type_specification]
#[verifier::external_body]
pub struct ExIoError(std::io::Error);

/// The text that a compiled pattern was made from (`Pattern::as_str`).
pub uninterp spec fn glob_text(pattern: glob::Pattern) -> Seq<char>;

/// Whether `Pattern::new` accepts `text`.
pub uninterp spec fn glob_compiles(text: Seq<char>) -> bool;

/// Whether the pattern compiled from `text` matches `path` under
/// `Pattern::matches_with` with the three options given, on the platform
/// the library is built for (`\` separates path components on Windows
/// only).
pub uninterp spec fn glob_matches(
    text: Seq<char>,
    path: Seq<char>,
    case_sensitive: bool,
    literal_separator: bool,
    literal_leading_dot: bool,
) -> bool;

/// `glob::Pattern::new`. Trusted: whether a text compiles depends on the
/// text alone; the compiled pattern keeps the text it was made from; and a
/// text without `*` and `[` always compiles, because the parser reports
/// errors only while reading a run of `*` or a bracket expression.
#[verifier::external_body]
fn compile_glob(text: &str) -> (r: Result<glob::Pattern, glob::PatternError>)
    ensures
        r is Ok <==> glob_compiles(text@),
        r matches Ok(p) ==> glob_text(p) == text@,
        (forall|i: int| 0 <= i < text@.len() ==> text@[i] != '*' && text@[i] != '[') ==> r is Ok,
{
    glob::Pattern::new(text)
}

/// `glob::Pattern::matches_with`. Trusted: the verdict depends only on the
/// text the pattern was compiled from, the path and the options. The three
/// flags become the fields of the `MatchOptions` that the call takes.
#[verifier::external_body]
fn glob_matches_with(
    pattern: &glob::Pattern,
    path: &str,
    case_sensitive: bool,
    literal_separator: bool,
    literal_leading_dot: bool,
) -> (b: bool)
    ensures
        b == glob_matches(
            glob_text(*pattern),
            path@,
            case_sensitive,
            literal_separator,
            literal_leading_dot,
        ),
{
    pattern.matches_with(
        path,
        glob::MatchOptions {
            case_sensitive: case_sensitive,
            require_literal_separator: literal_separator,
            require_literal_leading_dot: literal_leading_dot,
        },
    )
}

/// `Clone` for `glob::Pattern`. Trusted: the copy was compiled from the same
/// text.
#[verifier::external_body]
fn clone_glob(pattern: &glob::Pattern) -> (copy: glob::Pattern)
    ensures
        glob_text(copy) == glob_text(*pattern),
{
    pattern.clone()
}

/// What a rule says: the text of its glob pattern, and whether it applies to
/// directories only.
pub struct Rule {
    pub glob: Seq<char>,
    pub is_dir: bool,
}

/// `rule` excludes the entry named `path`. A directory-only rule never
/// applies to an entry that is not a directory. Matching is case-sensitive;
/// `*` may cross path separators and may match a leading dot.
pub open spec fn rule_excludes(rule: Rule, path: Seq<char>, is_dir: bool) -> bool {
    (!rule.is_dir || is_dir) && glob_matches(rule.glob, path, true, false, false)
}

/// Some rule of `rules` excludes the entry named `path`.
pub open spec fn excluded(rules: Seq<Rule>, path: Seq<char>, is_dir: bool) -> bool {
    exists|i: int| 0 <= i < rules.len() && rule_excludes(#[trigger] rules[i], path, is_dir)
}

/// The line, once trimmed, begins with `#` (a comment) or with `!` (a
/// negation, which is not supported): it holds no rule.
pub open spec fn is_comment(line: Seq<char>) -> bool {
    let t = trim(line);
    t.len() > 0 && (t[0] == '#' || t[0] == '!')
}

/// The line, once trimmed, ends with `/`: its rule is for directories only.
pub open spec fn pattern_is_dir(line: Seq<char>) -> bool {
    let t = trim(line);
    t.len() > 0 && t.last() == '/'
}

/// The glob text of a line: the trimmed line without the one trailing `/`
/// that marks a directory rule.
pub open spec fn pattern_text(line: Seq<char>) -> Seq<char> {
    let t = trim(line);
    if pattern_is_dir(line) {
        t.drop_last()
    } else {
        t
    }
}

/// The rule that a pattern line stands for, if its glob text is not empty
/// and compiles.
pub open spec fn line_rule(line: Seq<char>) -> Option<Rule> {
    if pattern_text(line).len() > 0 && glob_compiles(pattern_text(line)) {
        Some(Rule { glob: pattern_text(line), is_dir: pattern_is_dir(line) })
    } else {
        None
    }
}

/// The rule that one line of an ignore file contributes, if any.
pub open spec fn rule_of_line(line: Seq<char>) -> Option<Rule> {
    if is_comment(line) {
        None
    } else {
        line_rule(line)
    }
}

/// The number of characters before the first line feed of `s`, or the
/// length of `s` if it has none.
pub open spec fn first_newline(s: Seq<char>) -> int
    decreases s.len(),
{
    if s.len() == 0 || s[0] == '\n' {
        0
    } else {
        1 + first_newline(s.drop_first())
    }
}

/// The rules of an ignore file, line by line in the order of the file.
pub open spec fn parse(contents: Seq<char>) -> Seq<Rule>
    decreases contents.len(),
{
    if contents.len() == 0 {
        Seq::empty()
    } else {
        let k = first_newline(contents);
        if 0 <= k < contents.len() {
            rules_of(rule_of_line(contents.subrange(0, k))) + parse(
                contents.subrange(k + 1, contents.len() as int),
            )
        } else {
            rules_of(rule_of_line(contents))
        }
    }
}

/// The empty list or the list of one rule.
pub open spec fn rules_of(rule: Option<Rule>) -> Seq<Rule> {
    match rule {
        Some(r) => seq![r],
        None => Seq::empty(),
    }
}

/// The rules in effect at the root of a search: `.git`, as a directory.
pub open spec fn default_rules() -> Seq<Rule> {
    seq![Rule { glob: ".git"@, is_dir: true }]
}

/// The rules in effect below a directory whose ignore file holds
/// `contents`: the directory's own rules, then those it inherits.
pub open spec fn extended(parent: Seq<Rule>, contents: Seq<char>) -> Seq<Rule> {
    parse(contents) + parent
}

/// Why an ignore file gave no rule set.
pub enum IgnoreError {
    Io(std::io::Error),
}

/// Why a line gave no rule.
pub enum RuleSetError {
    /// The glob text does not compile.
    Pattern(glob::PatternError),
    /// Nothing is left of the line once it is trimmed and stripped.
    NoLength,
}

/// One compiled exclusion rule.
pub struct RuleSetPattern {
    pattern: glob::Pattern,
    is_dir: bool,
}

impl View for RuleSetPattern {
    type V = Rule;

    closed spec fn view(&self) -> Rule {
        Rule { glob: glob_text(self.pattern), is_dir: self.is_dir }
    }
}

impl RuleSetPattern {
    /// Reads one pattern line: trims it, takes a trailing `/` as the mark of
    /// a directory rule, and compiles what is left.
    pub fn new(new_path: &str) -> (r: Result<RuleSetPattern, RuleSetError>)
        ensures
            match r {
                Ok(rule) => line_rule(new_path@) == Some(rule@),
                Err(RuleSetError::NoLength) => pattern_text(new_path@).len() == 0,
                Err(RuleSetError::Pattern(_)) => pattern_text(new_path@).len() > 0
                    && !glob_compiles(pattern_text(new_path@)),
            },
    {
        let chars = to_chars(new_path);
        let n = chars.len();
        assert(chars@.subrange(0, n as int) == new_path@);
        RuleSetPattern::from_chars(&chars, 0, n)
    }

    /// `new` on the line `chars[lo..hi]`.
    fn from_chars(chars: &Vec<char>, lo: usize, hi: usize) -> (r: Result<
        RuleSetPattern,
        RuleSetError,
    >)
        requires
            lo <= hi <= chars@.len(),
        ensures
            match r {
                Ok(rule) => line_rule(chars@.subrange(lo as int, hi as int)) == Some(rule@),
                Err(RuleSetError::NoLength) => pattern_text(
                    chars@.subrange(lo as int, hi as int),
                ).len() == 0,
                Err(RuleSetError::Pattern(_)) => pattern_text(
                    chars@.subrange(lo as int, hi as int),
                ).len() > 0 && !glob_compiles(pattern_text(chars@.subrange(lo as int, hi as int))),
            },
    {
        let (a, end) = trim_bounds(chars, lo, hi);
        let ghost t = chars@.subrange(a as int, end as int);
        let is_dir = a < end && chars[end - 1] == '/';
        let b = if is_dir {
            end - 1
        } else {
            end
        };
        proof {
            if a < end {
                assert(t.last() == chars@[end - 1]);
            }
            if is_dir {
                assert(t.drop_last() == chars@.subrange(a as int, b as int));
            }
        }
        if a == b {
            return Err(RuleSetError::NoLength);
        }
        let text = to_string(chars, a, b);
        match compile_glob(text.as_str()) {
            Ok(pattern) => Ok(RuleSetPattern { pattern, is_dir }),
            Err(e) => Err(RuleSetError::Pattern(e)),
        }
    }

    /// A copy of this rule.
    fn copy(&self) -> (r: RuleSetPattern)
        ensures
            r@ == self@,
    {
        RuleSetPattern { pattern: clone_glob(&self.pattern), is_dir: self.is_dir }
    }
}

/// An ordered list of exclusion rules.
pub struct RuleSet {
    rules: Vec<RuleSetPattern>,
}

impl View for RuleSet {
    type V = Seq<Rule>;

    closed spec fn view(&self) -> Seq<Rule> {
        self.rules@.map_values(|r: RuleSetPattern| r@)
    }
}

impl RuleSet {
    /// The rule set in effect at the root of a search: the one directory
    /// rule `.git`.
    pub fn new_default() -> (r: RuleSet)
        ensures
            r@ == default_rules(),
    {
        let mut rules: Vec<RuleSetPattern> = Vec::new();
        proof {
            reveal_strlit(".git");
        }
        match compile_glob(".git") {
            Ok(pattern) => rules.push(RuleSetPattern { pattern, is_dir: true }),
            Err(_) => {},
        }
        let r = RuleSet { rules };
        assert(r@ == default_rules());
        r
    }

    /// Parses the contents of an ignore file. Empty lines, comments,
    /// negations and lines whose pattern does not compile give no rule; no
    /// line makes the whole file fail.
    pub fn new(contents: &str) -> (r: RuleSet)
        ensures
            r@ == parse(contents@),
    {
        let chars = to_chars(contents);
        let n = chars.len();
        let mut rules: Vec<RuleSetPattern> = Vec::new();
        let mut pos: usize = 0;
        assert(chars@.subrange(0, n as int) == contents@);
        while pos < n
            invariant
                n == chars@.len(),
                pos <= n,
                chars@ == contents@,
                parse(contents@) == rules@.map_values(|r: RuleSetPattern| r@) + parse(
                    chars@.subrange(pos as int, n as int),
                ),
            decreases n - pos,
        {
            let ghost rest = chars@.subrange(pos as int, n as int);
            let mut end: usize = pos;
            while end < n && chars[end] != '\n'
                invariant
                    n == chars@.len(),
                    pos <= end <= n,
                    first_newline(chars@.subrange(pos as int, n as int)) == (end - pos)
                        + first_newline(chars@.subrange(end as int, n as int)),
                decreases n - end,
            {
                assert(chars@.subrange(end as int, n as int).drop_first() == chars@.subrange(
                    end as int + 1,
                    n as int,
                ));
                end = end + 1;
            }
            assert(first_newline(rest) == end - pos);
            assert(rest.subrange(0, end - pos) == chars@.subrange(pos as int, end as int));
            let ghost before = rules@.map_values(|r: RuleSetPattern| r@);
            let ghost line = chars@.subrange(pos as int, end as int);
            let (a, b) = trim_bounds(&chars, pos, end);
            let comment = a < b && (chars[a] == '#' || chars[a] == '!');
            proof {
                if a < b {
                    assert(chars@.subrange(a as int, b as int)[0] == chars@[a as int]);
                }
                assert(comment == is_comment(line));
            }
            if !comment {
                match RuleSetPattern::from_chars(&chars, pos, end) {
                    Ok(rule) => rules.push(rule),
                    Err(_) => {},
                }
            }
            assert(rules@.map_values(|r: RuleSetPattern| r@) == before + rules_of(
                rule_of_line(line),
            ));
            if end < n {
                assert(rest.subrange(end - pos + 1, rest.len() as int) == chars@.subrange(
                    end as int + 1,
                    n as int,
                ));
                pos = end + 1;
            } else {
                assert(rest.subrange(0, end - pos) == rest);
                pos = end;
            }
        }
        RuleSet { rules }
    }

    /// The number of rules in the set.
    pub fn len(&self) -> (n: usize)
        ensures
            n == self@.len(),
    {
        self.rules.len()
    }

    /// Derives the rule set for a directory from the one it inherits and
    /// from what reading its ignore file gave. A file that was read yields a
    /// new set: the file's own rules, then the inherited ones. A file that
    /// could not be read yields no new set, and the error is handed back.
    pub fn extend(rule_set: &RuleSet, ignore_file: Result<&str, IgnoreError>) -> (r: Result<
        RuleSet,
        IgnoreError,
    >)
        ensures
            match ignore_file {
                Ok(contents) => r is Ok && r->Ok_0@ == extended(rule_set@, contents@),
                Err(e) => r == Err::<RuleSet, IgnoreError>(e),
            },
    {
        let contents = match ignore_file {
            Ok(contents) => contents,
            Err(e) => {
                return Err(e);
            },
        };
        let mut new_set = RuleSet::new(contents);
        let ghost own = new_set@;
        let mut i: usize = 0;
        while i < rule_set.rules.len()
            invariant
                i <= rule_set.rules@.len(),
                new_set@ == own + rule_set@.subrange(0, i as int),
            decreases rule_set.rules@.len() - i,
        {
            let rule = rule_set.rules[i].copy();
            let ghost before = new_set@;
            new_set.rules.push(rule);
            proof {
                assert(new_set@ == before.push(rule@));
                assert(rule_set@[i as int] == rule@);
                assert(rule_set@.subrange(0, i as int + 1) == rule_set@.subrange(0, i as int).push(
                    rule_set@[i as int],
                ));
            }
            i = i + 1;
        }
        assert(rule_set@.subrange(0, i as int) == rule_set@);
        Ok(new_set)
    }

    /// Whether some rule of the set excludes the entry named `path`.
    pub fn is_excluded(&self, path: &str, is_dir: bool) -> (b: bool)
        ensures
            b == excluded(self@, path@, is_dir),
    {
        let mut i: usize = 0;
        while i < self.rules.len()
            invariant
                i <= self.rules@.len(),
                forall|k: int| 0 <= k < i ==> !rule_excludes(#[trigger] self@[k], path@, is_dir),
            decreases self.rules@.len() - i,
        {
            let rule = &self.rules[i];
            if !(rule.is_dir && !is_dir) {
                // Case is respected; `*` may cross separators and match a
                // leading dot.
                if glob_matches_with(&rule.pattern, path, true, false, false) {
                    assert(rule_excludes(self@[i as int], path@, is_dir));
                    return true;
                }
            }
            i = i + 1;
        }
        false
    }
}

/// Inherited rules are never weakened: an entry that the parent's rules
/// exclude stays excluded below any directory, whatever its ignore file
/// holds.
pub proof fn extend_keeps_exclusions(
    parent: Seq<Rule>,
    contents: Seq<char>,
    path: Seq<char>,
    is_dir: bool,
)
    requires
        excluded(parent, path, is_dir),
    ensures
        excluded(extended(parent, contents), path, is_dir),
{
    let i = choose|i: int| 0 <= i < parent.len() && rule_excludes(#[trigger] parent[i], path, is_dir);
    let all = extended(parent, contents);
    assert(all[parse(contents).len() + i] == parent[i]);
}

/// A set excludes exactly what its two halves exclude.
pub proof fn excluded_by_either(a: Seq<Rule>, b: Seq<Rule>, path: Seq<char>, is_dir: bool)
    ensures
        excluded(a + b, path, is_dir) == (excluded(a, path, is_dir) || excluded(b, path, is_dir)),
{
    if excluded(a + b, path, is_dir) {
        let i = choose|i: int|
            0 <= i < (a + b).len() && rule_excludes(#[trigger] (a + b)[i], path, is_dir);
        if i < a.len() {
            assert((a + b)[i] == a[i]);
        } else {
            assert((a + b)[i] == b[i - a.len()]);
        }
    }
    if excluded(a, path, is_dir) {
        let i = choose|i: int| 0 <= i < a.len() && rule_excludes(#[trigger] a[i], path, is_dir);
        assert((a + b)[i] == a[i]);
    }
    if excluded(b, path, is_dir) {
        let i = choose|i: int| 0 <= i < b.len() && rule_excludes(#[trigger] b[i], path, is_dir);
        assert((a + b)[a.len() + i] == b[i]);
    }
}

/// Extending with the same ignore file a second time changes the list of
/// rules but no verdict.
pub proof fn extend_twice_excludes_the_same(
    parent: Seq<Rule>,
    contents: Seq<char>,
    path: Seq<char>,
    is_dir: bool,
)
    ensures
        excluded(extended(extended(parent, contents), contents), path, is_dir) == excluded(
            extended(parent, contents),
            path,
            is_dir,
        ),
{
    let own = parse(contents);
    excluded_by_either(own, parent, path, is_dir);
    excluded_by_either(own, own + parent, path, is_dir);
}

/// Two rule sets derived from the same parent and the same ignore file
/// give the same verdicts.
pub proof fn extend_is_repeatable(
    first: RuleSet,
    second: RuleSet,
    parent: Seq<Rule>,
    contents: Seq<char>,
    path: Seq<char>,
    is_dir: bool,
)
    requires
        first@ == extended(parent, contents),
        second@ == extended(parent, contents),
    ensures
        excluded(first@, path, is_dir) == excluded(second@, path, is_dir),
{
}

/// A rule written with a trailing `/` never excludes an entry that is not a
/// directory.
pub proof fn directory_rule_spares_files(line: Seq<char>, path: Seq<char>)
    requires
        pattern_is_dir(line),
        rule_of_line(line) is Some,
    ensures
        !rule_excludes(rule_of_line(line)->Some_0, path, false),
{
}

} // verus!
