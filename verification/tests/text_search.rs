use worker_pool::grep::Config;
use worker_pool::grep::contains_str;
use worker_pool::grep::search;
use worker_pool::text::better_first_word;
use worker_pool::text::first_space_index;
use worker_pool::text::first_word;
use worker_pool::text::last_char_of_first_line;
use worker_pool::text::longest;

#[test]
fn search_finds_every_matching_line() {
    let contents = "one duct\ntwo\nthree ducts\n";
    assert_eq!(search("duct", contents), vec!["one duct", "three ducts"]);
}

#[test]
fn search_is_case_sensitive() {
    let contents = "Duct tape\nabduction";
    assert_eq!(search("duct", contents), vec!["abduction"]);
}

#[test]
fn search_of_empty_contents_finds_nothing() {
    let empty: Vec<&str> = Vec::new();
    assert_eq!(search("duct", ""), empty);
}

#[test]
fn search_strips_carriage_returns() {
    assert_eq!(search("prod", "reuse\r\nproduce\r\n"), vec!["produce"]);
}

#[test]
fn contains_str_finds_substrings() {
    assert!(contains_str("hello world", "lo wo"));
    assert!(contains_str("hello", ""));
    assert!(!contains_str("hello", "world"));
    assert!(!contains_str("", "a"));
}

#[test]
fn config_build_needs_three_arguments() {
    let args = vec![String::from("prog"), String::from("query")];
    assert_eq!(Config::build(&args).err(), Some("Not enough arguments"));
}

#[test]
fn config_build_takes_query_and_path() {
    let args = vec![
        String::from("prog"),
        String::from("needle"),
        String::from("haystack.txt"),
    ];
    let config = Config::build(&args).unwrap();
    assert_eq!(config.query, "needle");
    assert_eq!(config.file_path, "haystack.txt");
}

#[test]
fn first_word_stops_at_the_first_space() {
    let s = String::from("hello world");
    assert_eq!(first_word(&s), "hello");
    assert_eq!(better_first_word("one two three"), "one");
    assert_eq!(better_first_word("plain"), "plain");
    assert_eq!(first_space_index(&s), 5);
    assert_eq!(first_space_index(&String::from("plain")), 5);
}

#[test]
fn longest_prefers_the_longer_string() {
    assert_eq!(longest("abcd", "xyz"), "abcd");
    assert_eq!(longest("ab", "xyz"), "xyz");
    assert_eq!(longest("abc", "xyz"), "xyz");
}

#[test]
fn last_char_of_first_line_cases() {
    assert_eq!(last_char_of_first_line("hello\nworld"), Some('o'));
    assert_eq!(last_char_of_first_line("hello"), Some('o'));
    assert_eq!(last_char_of_first_line(""), None);
    assert_eq!(last_char_of_first_line("\nabc"), None);
    assert_eq!(last_char_of_first_line("ab\r\ncd"), Some('b'));
}
