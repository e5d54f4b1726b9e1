use fe::find::{
    exact_path_match_search, find, ignore_path, make_case_insensitive, regex_path_match_search,
    Entry, SearchContext, SearchError,
};
use fe::ignore::IgnoreError;
use fe::{Options, SearchType};

fn options(search_type: SearchType) -> Options {
    Options {
        verbose: false,
        very_verbose: false,
        insensitive: false,
        search_names_only: false,
        no_colors: true,
        search_type,
        search_dir: String::from("./"),
    }
}

fn file(path: &str, name: &str) -> Entry {
    Entry {
        path: String::from(path),
        file_name: Some(String::from(name)),
        is_dir: false,
        is_symlink: false,
    }
}

fn dir(path: &str, name: &str) -> Entry {
    Entry {
        path: String::from(path),
        file_name: Some(String::from(name)),
        is_dir: true,
        is_symlink: false,
    }
}

fn missing() -> Result<&'static str, IgnoreError> {
    Err(IgnoreError::Io(std::io::Error::new(std::io::ErrorKind::NotFound, "no ignore file")))
}

#[test]
fn empty_term_is_no_input() {
    for search_type in [SearchType::Fuzzy, SearchType::Exact, SearchType::Regex] {
        let options = options(search_type);
        assert!(matches!(find("", &options), Err(SearchError::NoInput)));
        assert!(matches!(SearchContext::new("", &options), Err(SearchError::NoInput)));
    }
}

#[test]
fn invalid_regex_ends_the_run() {
    let options = options(SearchType::Regex);
    assert!(matches!(find("foo(bar", &options), Err(SearchError::Regex(_))));
    assert!(matches!(find("[", &options), Err(SearchError::Regex(_))));
    match SearchContext::new("a{2,1}", &options) {
        Err(SearchError::Regex(e)) => assert!(matches!(e, regex::Error::Syntax(_))),
        _ => panic!("the term was accepted"),
    }
}

#[test]
fn invalid_regex_is_a_fine_term_in_other_modes() {
    let fuzzy = options(SearchType::Fuzzy);
    assert!(find("foo(bar", &fuzzy).is_ok());
    let exact = options(SearchType::Exact);
    assert!(find("[", &exact).is_ok());
}

#[test]
fn regex_matches_anywhere_in_the_candidate() {
    let options = options(SearchType::Regex);
    let search = match SearchContext::new(r"fo+\.js$", &options) {
        Ok(search) => search,
        Err(_) => panic!("the term was refused"),
    };
    assert!(regex_path_match_search("src/foo.js", &search));
    assert!(regex_path_match_search("fo.js", &search));
    assert!(!regex_path_match_search("src/foo.json", &search));
    assert!(!regex_path_match_search("", &search));
    assert!(search.matches("./src/fooo.js"));
    assert!(!search.matches("r\"fo+\\.js$\""));
}

#[test]
fn regex_is_compiled_from_the_term_as_written() {
    let mut options = options(SearchType::Regex);
    options.insensitive = true;
    let search = match SearchContext::new("README", &options) {
        Ok(search) => search,
        Err(_) => panic!("the term was refused"),
    };
    // Candidates are folded to lowercase, the expression is not.
    assert!(!search.matches("README"));
    assert!(!search.matches("readme"));
    let search = match SearchContext::new("readme", &options) {
        Ok(search) => search,
        Err(_) => panic!("the term was refused"),
    };
    assert!(search.matches("README.md"));
    assert!(search.matches("readme"));
}

#[test]
fn exact_compares_whole_candidate() {
    let options = options(SearchType::Exact);
    let search = match SearchContext::new("src/main.rs", &options) {
        Ok(search) => search,
        Err(_) => panic!("the term was refused"),
    };
    assert!(exact_path_match_search("src/main.rs", &search));
    assert!(!exact_path_match_search("src/main.r", &search));
    assert!(!exact_path_match_search("src/main.rss", &search));
    assert!(!exact_path_match_search("Src/main.rs", &search));
    assert!(!exact_path_match_search("", &search));
    assert!(search.matches("src/main.rs"));
    assert!(!search.matches("SRC/MAIN.RS"));
}

#[test]
fn exact_folds_case_when_asked() {
    let mut options = options(SearchType::Exact);
    options.insensitive = true;
    let search = match SearchContext::new("Src/Main.RS", &options) {
        Ok(search) => search,
        Err(_) => panic!("the term was refused"),
    };
    assert!(search.matches("src/main.rs"));
    assert!(search.matches("SRC/MAIN.RS"));
    assert!(!search.matches("src/main.rs "));
    // The same verdicts as comparing the lowercase forms with case
    // respected.
    options.insensitive = false;
    let lower = match SearchContext::new("src/main.rs", &options) {
        Ok(search) => search,
        Err(_) => panic!("the term was refused"),
    };
    assert!(lower.matches("src/main.rs"));
    assert!(!lower.matches("src/main.rs "));
}

#[test]
fn make_case_insensitive_folds_only_when_asked() {
    let mut options = options(SearchType::Fuzzy);
    assert_eq!(make_case_insensitive("Src/ÉTÉ.rs", &options), "Src/ÉTÉ.rs");
    options.insensitive = true;
    assert_eq!(make_case_insensitive("Src/ÉTÉ.rs", &options), "src/été.rs");
    assert_eq!(make_case_insensitive("", &options), "");
}

#[test]
fn ignore_path_is_below_the_directory() {
    assert_eq!(ignore_path("./"), ".//.gitignore");
    assert_eq!(ignore_path("./src"), "./src/.gitignore");
}

#[test]
fn walk_starts_at_the_current_directory_with_default_rules() {
    let options = options(SearchType::Fuzzy);
    let mut walker = match find("main", &options) {
        Ok(walker) => walker,
        Err(_) => panic!("the term was refused"),
    };
    assert!(!walker.is_done());
    assert_eq!(walker.rule_sets_len(), 1);
    assert_eq!(walker.rule_index(), 0);
    assert_eq!(walker.next_dir(), Some(String::from("./")));
    assert!(walker.is_done());
    assert_eq!(walker.next_dir(), None);
    assert_eq!(walker.rule_index(), 0);
}

#[test]
fn walk_skips_excluded_entries_without_comparing() {
    let options = options(SearchType::Fuzzy);
    let mut walker = match find("git", &options) {
        Ok(walker) => walker,
        Err(_) => panic!("the term was refused"),
    };
    assert_eq!(walker.next_dir(), Some(String::from("./")));
    walker.merge_ignore_file(missing());
    assert_eq!(walker.rule_sets_len(), 1);
    // `.git` matches the term but is excluded as a directory.
    assert!(!walker.search_dir_entry(&dir("./.git", ".git")));
    assert!(walker.is_done());
    // A file of that name is not excluded.
    assert!(walker.search_dir_entry(&file("./.git", ".git")));
    assert!(walker.is_done());
}

#[test]
fn walk_reports_matches_and_queues_directories() {
    let options = options(SearchType::Fuzzy);
    let mut walker = match find("main", &options) {
        Ok(walker) => walker,
        Err(_) => panic!("the term was refused"),
    };
    assert_eq!(walker.next_dir(), Some(String::from("./")));
    walker.merge_ignore_file(Ok("target/\n"));
    assert_eq!(walker.rule_sets_len(), 2);
    assert_eq!(walker.rule_index(), 1);
    assert!(!walker.search_dir_entry(&dir("./src", "src")));
    assert!(!walker.search_dir_entry(&dir("./target", "target")));
    assert!(walker.search_dir_entry(&file("./main.rs", "main.rs")));
    assert!(!walker.search_dir_entry(&file("./Cargo.toml", "Cargo.toml")));
    assert!(walker.search_dir_entry(&dir("./main", "main")));
    // Last in, first out; excluded directories were not queued.
    assert_eq!(walker.next_dir(), Some(String::from("./main")));
    assert_eq!(walker.rule_index(), 1);
    assert_eq!(walker.next_dir(), Some(String::from("./src")));
    assert_eq!(walker.rule_index(), 1);
    assert!(walker.search_dir_entry(&file("./src/main.rs", "main.rs")));
    assert!(walker.is_done());
}

#[test]
fn walk_rules_bind_below_their_directory_only() {
    let options = options(SearchType::Fuzzy);
    let mut walker = match find("log", &options) {
        Ok(walker) => walker,
        Err(_) => panic!("the term was refused"),
    };
    assert_eq!(walker.next_dir(), Some(String::from("./")));
    walker.merge_ignore_file(missing());
    assert!(!walker.search_dir_entry(&dir("./a", "a")));
    assert!(!walker.search_dir_entry(&dir("./b", "b")));
    // `b` has an ignore file of its own.
    assert_eq!(walker.next_dir(), Some(String::from("./b")));
    assert_eq!(walker.rule_index(), 0);
    walker.merge_ignore_file(Ok("*.log\n"));
    assert_eq!(walker.rule_index(), 1);
    assert!(!walker.search_dir_entry(&file("./b/build.log", "build.log")));
    assert!(!walker.search_dir_entry(&dir("./b/c", "c")));
    // `c` inherits the rules of `b`.
    assert_eq!(walker.next_dir(), Some(String::from("./b/c")));
    assert_eq!(walker.rule_index(), 1);
    walker.merge_ignore_file(missing());
    assert_eq!(walker.rule_index(), 1);
    assert_eq!(walker.rule_sets_len(), 2);
    assert!(!walker.search_dir_entry(&file("./b/c/deep.log", "deep.log")));
    assert!(!walker.search_dir_entry(&dir("./b/c/.git", ".git")));
    // `a` does not.
    assert_eq!(walker.next_dir(), Some(String::from("./a")));
    assert_eq!(walker.rule_index(), 0);
    assert!(walker.search_dir_entry(&file("./a/build.log", "build.log")));
    assert_eq!(walker.next_dir(), None);
}

#[test]
fn walk_does_not_enter_symbolic_links() {
    let options = options(SearchType::Fuzzy);
    let mut walker = match find("loop", &options) {
        Ok(walker) => walker,
        Err(_) => panic!("the term was refused"),
    };
    assert_eq!(walker.next_dir(), Some(String::from("./")));
    let link = Entry {
        path: String::from("./loop"),
        file_name: Some(String::from("loop")),
        is_dir: true,
        is_symlink: true,
    };
    // Reported like any other entry, but not queued.
    assert!(walker.search_dir_entry(&link));
    assert!(walker.is_done());
}

#[test]
fn walk_compares_paths_without_leading_dot_slash() {
    let options = options(SearchType::Exact);
    let mut walker = match find("src/main.rs", &options) {
        Ok(walker) => walker,
        Err(_) => panic!("the term was refused"),
    };
    assert_eq!(walker.next_dir(), Some(String::from("./")));
    assert!(walker.search_dir_entry(&file("./src/main.rs", "main.rs")));
    assert!(walker.search_dir_entry(&file("src/main.rs", "main.rs")));
    assert!(!walker.search_dir_entry(&file("././src/main.rs", "main.rs")));
    assert!(!walker.search_dir_entry(&file("./src/main.rs.bak", "main.rs.bak")));
}

#[test]
fn walk_compares_file_names_when_asked() {
    let mut options = options(SearchType::Exact);
    options.search_names_only = true;
    let mut walker = match find("main.rs", &options) {
        Ok(walker) => walker,
        Err(_) => panic!("the term was refused"),
    };
    assert_eq!(walker.next_dir(), Some(String::from("./")));
    assert!(walker.search_dir_entry(&file("./src/main.rs", "main.rs")));
    assert!(!walker.search_dir_entry(&file("./main.rs/other", "other")));
    // An entry without a file name is neither reported nor entered.
    let nameless = Entry {
        path: String::from("./.."),
        file_name: None,
        is_dir: true,
        is_symlink: false,
    };
    assert!(!walker.search_dir_entry(&nameless));
    assert!(walker.is_done());
}

#[test]
fn walk_enters_nameless_directory_when_paths_are_compared() {
    let options = options(SearchType::Fuzzy);
    let mut walker = match find("x", &options) {
        Ok(walker) => walker,
        Err(_) => panic!("the term was refused"),
    };
    assert_eq!(walker.next_dir(), Some(String::from("./")));
    let nameless = Entry {
        path: String::from("./.."),
        file_name: None,
        is_dir: true,
        is_symlink: false,
    };
    assert!(!walker.search_dir_entry(&nameless));
    assert_eq!(walker.next_dir(), Some(String::from("./..")));
}
