use fe::display::{print_as_filename, print_as_path, print_path, Style};
use fe::fileinfo::FileInfo;
use fe::log::{v, vv};
use fe::{Options, SearchType};

fn options(no_colors: bool) -> Options {
    Options {
        verbose: false,
        very_verbose: false,
        insensitive: false,
        search_names_only: false,
        no_colors,
        search_type: SearchType::Fuzzy,
        search_dir: String::from("./"),
    }
}

#[test]
fn file_info_reads_mode_bits() {
    let plain = FileInfo::new(false, 0o100644, 0o100644);
    assert!(!plain.is_dir());
    assert!(!plain.is_symbolic_link());
    assert!(!plain.everyone_can_do_everything());
    assert!(!plain.is_executable());
    assert_eq!(plain.mode(), 0o100644);

    let script = FileInfo::new(false, 0o100755, 0o100755);
    assert!(script.is_executable());
    assert!(!script.everyone_can_do_everything());

    let group_only = FileInfo::new(false, 0o100010, 0o100010);
    assert!(group_only.is_executable());

    let open = FileInfo::new(false, 0o100777, 0o100777);
    assert!(open.everyone_can_do_everything());
    assert!(open.is_executable());

    let link = FileInfo::new(false, 0o100644, 0o120777);
    assert!(link.is_symbolic_link());
    assert!(!link.everyone_can_do_everything());

    let directory = FileInfo::new(true, 0o040755, 0o040755);
    assert!(directory.is_dir());
    assert!(!directory.is_symbolic_link());

    let socket = FileInfo::new(false, 0o140755, 0o140755);
    assert!(!socket.is_symbolic_link());
}

#[test]
fn style_follows_the_kind_of_file() {
    let options = options(false);
    let directory = FileInfo::new(true, 0o040777, 0o120777);
    assert!(matches!(print_path(Some(&directory), "d", &options).style, Style::Directory));
    let link = FileInfo::new(false, 0o100777, 0o120777);
    assert!(matches!(print_path(Some(&link), "l", &options).style, Style::SymbolicLink));
    let open = FileInfo::new(false, 0o100777, 0o100777);
    assert!(matches!(print_path(Some(&open), "o", &options).style, Style::Unrestricted));
    let script = FileInfo::new(false, 0o100755, 0o100755);
    assert!(matches!(print_path(Some(&script), "s", &options).style, Style::Executable));
    let plain = FileInfo::new(false, 0o100644, 0o100644);
    assert!(matches!(print_path(Some(&plain), "p", &options).style, Style::Plain));
}

#[test]
fn style_is_plain_without_colors_or_facts() {
    let directory = FileInfo::new(true, 0o040755, 0o040755);
    let line = print_path(Some(&directory), "src", &options(true));
    assert!(matches!(line.style, Style::Plain));
    assert_eq!(line.text, "src");
    let line = print_path(None, "gone", &options(false));
    assert!(matches!(line.style, Style::Plain));
    assert_eq!(line.text, "gone");
}

#[test]
fn path_is_shown_without_leading_dot_slash() {
    let options = options(true);
    assert_eq!(print_as_path("./src/main.rs", None, &options).text, "src/main.rs");
    assert_eq!(print_as_path("src/main.rs", None, &options).text, "src/main.rs");
    assert_eq!(print_as_path("././x", None, &options).text, "./x");
    assert_eq!(print_as_path("./", None, &options).text, "");
    assert_eq!(print_as_path(".", None, &options).text, ".");
    assert_eq!(print_as_path("", None, &options).text, "");
    assert_eq!(print_as_path("./été", None, &options).text, "été");
}

#[test]
fn file_name_is_shown_or_nothing() {
    let options = options(false);
    let directory = FileInfo::new(true, 0o040755, 0o040755);
    let line = print_as_filename(Some("src"), Some(&directory), &options);
    assert_eq!(line.text, "src");
    assert!(matches!(line.style, Style::Directory));
    let line = print_as_filename(None, None, &options);
    assert_eq!(line.text, "");
    assert!(matches!(line.style, Style::Plain));
}

#[test]
fn messages_are_shown_at_their_level() {
    let mut options = options(true);
    assert_eq!(v(String::from("a"), &options), None);
    assert_eq!(vv(String::from("b"), &options), None);
    options.verbose = true;
    assert_eq!(v(String::from("a"), &options), Some(String::from("a")));
    assert_eq!(vv(String::from("b"), &options), None);
    options.very_verbose = true;
    assert_eq!(v(String::from("a"), &options), Some(String::from("a")));
    assert_eq!(vv(String::from("b"), &options), Some(String::from("b")));
    options.verbose = false;
    assert_eq!(v(String::from("a"), &options), None);
    assert_eq!(vv(String::from("b"), &options), Some(String::from("b")));
}

#[test]
fn run_without_argument_lists_the_current_directory() {
    match fe::command(None) {
        fe::Command::List(path) => assert_eq!(path, "."),
        fe::Command::Find(_) => panic!("a search was begun"),
    }
}

#[test]
fn argument_with_trailing_slash_is_listed() {
    match fe::command(Some("src/")) {
        fe::Command::List(path) => assert_eq!(path, "src/"),
        fe::Command::Find(_) => panic!("a search was begun"),
    }
    match fe::command(Some("/")) {
        fe::Command::List(path) => assert_eq!(path, "/"),
        fe::Command::Find(_) => panic!("a search was begun"),
    }
}

#[test]
fn any_other_argument_is_searched_for() {
    match fe::command(Some("src")) {
        fe::Command::Find(term) => assert_eq!(term, "src"),
        fe::Command::List(_) => panic!("a directory was listed"),
    }
    match fe::command(Some("")) {
        fe::Command::Find(term) => assert_eq!(term, ""),
        fe::Command::List(_) => panic!("a directory was listed"),
    }
    match fe::command(Some("a/b")) {
        fe::Command::Find(term) => assert_eq!(term, "a/b"),
        fe::Command::List(_) => panic!("a directory was listed"),
    }
}
