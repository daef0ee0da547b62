use altf4_watch::fingerprint::{extract_fingerprint, PollError};
use altf4_watch::poller::{announcement_message, notice_for, Notice, Poll, Poller};
use altf4_watch::topic::{announcement_field, join_fields, rewrite_topic, topic_fields, trim};

const PAGE: &str = "<html><body><h1>Blog</h1>\
<a href=\"/ALTF4-4/\"><h2>Alt-F4 #4 - Rethinking the Turret</h2></a>\
<a href=\"/ALTF4-3/\"><h2>Alt-F4 #3 - Trains</h2></a></body></html>";

fn page_with(heading: &str) -> String {
    format!("<html><h2>{}</h2></html>", heading)
}

#[test]
fn extract_takes_version_of_first_heading() {
    assert_eq!(extract_fingerprint(PAGE), Ok(String::from("4")));
}

#[test]
fn extract_takes_dotted_version() {
    assert_eq!(
        extract_fingerprint("news: Alt-F4 #12.5 final words"),
        Ok(String::from("12.5"))
    );
}

#[test]
fn extract_leaves_one_character_to_title() {
    // The run of digits is followed by the end of the text: its last digit
    // is the title.
    assert_eq!(extract_fingerprint("Alt-F4 #123"), Ok(String::from("12")));
    assert_eq!(extract_fingerprint("Alt-F4 #4.5<b>"), Ok(String::from("4.")));
}

#[test]
fn extract_skips_heading_cut_by_tag() {
    // A single version character directly followed by `<` leaves no title.
    assert_eq!(
        extract_fingerprint("Alt-F4 #5<b>Alt-F4 #67<i>"),
        Ok(String::from("6"))
    );
}

#[test]
fn extract_title_may_start_with_newline() {
    assert_eq!(
        extract_fingerprint("Alt-F4 #3.1\nsecond<br>"),
        Ok(String::from("3.1"))
    );
}

#[test]
fn extract_ignores_later_headings() {
    assert_eq!(
        extract_fingerprint("Alt-F4 #9 a<p>Alt-F4 #10 b</p>"),
        Ok(String::from("9"))
    );
}

#[test]
fn extract_reports_missing_heading() {
    assert_eq!(extract_fingerprint("<html>nothing here</html>"), Err(PollError::NoPost));
    assert_eq!(extract_fingerprint(""), Err(PollError::NoPost));
    assert_eq!(extract_fingerprint("Alt-F4 #x title"), Err(PollError::NoPost));
    assert_eq!(extract_fingerprint("Alt-F4 #5<"), Err(PollError::NoPost));
}

#[test]
fn fingerprint_is_digits_and_dots() {
    let facts = extract_fingerprint(PAGE).expect("Could not load version");
    assert!(
        !facts.is_empty() && facts.chars().all(|c| c == '.' || c.is_numeric()),
        "Facts version is invalid, got: {:?}",
        facts
    );
}

#[test]
fn extract_is_a_function_of_the_page() {
    assert_eq!(extract_fingerprint(PAGE), extract_fingerprint(PAGE));
}

#[test]
fn trim_removes_unicode_white_space() {
    assert_eq!(trim("  a b \t\n"), "a b");
    assert_eq!(trim("\u{3000}x\u{a0}"), "x");
    assert_eq!(trim("   "), "");
    assert_eq!(trim("plain"), "plain");
}

#[test]
fn fields_are_split_and_trimmed() {
    assert_eq!(topic_fields("a | b|c "), vec!["a", "b", "c"]);
    assert_eq!(topic_fields(""), vec![""]);
    assert_eq!(topic_fields("a|"), vec!["a", ""]);
    assert_eq!(topic_fields("||"), vec!["", "", ""]);
}

#[test]
fn join_puts_separator_between() {
    let fs = vec![String::from("a"), String::from("b"), String::from("c")];
    assert_eq!(join_fields(&fs, " | "), "a | b | c");
    assert_eq!(join_fields(&Vec::new(), " | "), "");
    assert_eq!(join_fields(&vec![String::from("x")], " | "), "x");
}

#[test]
fn announcement_field_names_url() {
    assert_eq!(
        announcement_field("2"),
        "https://alt-f4.blog/ALTF4-4/: 2"
    );
}

#[test]
fn rewrite_replaces_fourth_field() {
    assert_eq!(
        rewrite_topic("Welcome |rules| logs |  old  | more", "2"),
        Some(String::from(
            "Welcome | rules | logs | https://alt-f4.blog/ALTF4-4/: 2 | more"
        ))
    );
    assert_eq!(
        rewrite_topic("a|b|c|d", "F"),
        Some(String::from("a | b | c | https://alt-f4.blog/ALTF4-4/: F"))
    );
}

#[test]
fn rewrite_refuses_short_topic() {
    assert_eq!(rewrite_topic("a | b | c", "F"), None);
    assert_eq!(rewrite_topic("", "F"), None);
}

#[test]
fn message_names_fingerprint_and_url() {
    let m = announcement_message("7.1");
    assert_eq!(m, "New Alt-F4 facts: 7.1 https://alt-f4.blog/ALTF4-4/");
    assert!(m.contains("7.1"));
    assert!(m.contains("https://alt-f4.blog/ALTF4-4/"));
}

#[test]
fn first_fetch_is_baseline() {
    let mut p = Poller::new();
    assert_eq!(p.on_fetch(Ok(page_with("Alt-F4 #1 first"))), Poll::Baseline);
    assert_eq!(p.last, Some(String::from("1")));
}

#[test]
fn equal_fingerprints_are_quiet() {
    let mut p = Poller::new();
    p.on_fetch(Ok(page_with("Alt-F4 #1 first")));
    assert_eq!(p.on_fetch(Ok(page_with("Alt-F4 #1 first"))), Poll::Unchanged);
    assert_eq!(p.on_fetch(Ok(page_with("Alt-F4 #1 first"))), Poll::Unchanged);
}

#[test]
fn new_fingerprint_is_announced_once() {
    let mut p = Poller::new();
    p.on_fetch(Ok(page_with("Alt-F4 #1 first")));
    assert_eq!(
        p.on_fetch(Ok(page_with("Alt-F4 #2 second"))),
        Poll::Changed(String::from("2"))
    );
    assert_eq!(p.on_fetch(Ok(page_with("Alt-F4 #2 second"))), Poll::Unchanged);
}

#[test]
fn failed_fetch_keeps_state() {
    let mut p = Poller::new();
    p.on_fetch(Ok(page_with("Alt-F4 #1 first")));
    assert_eq!(
        p.on_fetch(Err(String::from("timed out"))),
        Poll::Failed(PollError::Fetch(String::from("timed out")))
    );
    assert_eq!(p.on_fetch(Ok(String::from("<p>maintenance</p>"))), Poll::Failed(PollError::NoPost));
    assert_eq!(p.last, Some(String::from("1")));
    assert_eq!(p.on_fetch(Ok(page_with("Alt-F4 #1 first"))), Poll::Unchanged);
}

#[test]
fn failed_first_fetch_leaves_no_baseline() {
    let mut p = Poller::new();
    assert_eq!(p.on_fetch(Ok(String::new())), Poll::Failed(PollError::NoPost));
    assert_eq!(p.last, None);
    assert_eq!(p.on_fetch(Ok(page_with("Alt-F4 #1 first"))), Poll::Baseline);
}

#[test]
fn observe_compares_with_last() {
    let mut p = Poller::new();
    assert_eq!(p.observe(String::from("a")), Poll::Baseline);
    assert_eq!(p.observe(String::from("a")), Poll::Unchanged);
    assert_eq!(p.observe(String::from("b")), Poll::Changed(String::from("b")));
    assert_eq!(p.observe(String::from("a")), Poll::Changed(String::from("a")));
}

#[test]
fn missing_channel_sends_nothing() {
    assert_eq!(notice_for("2", None), Notice::ChannelMissing);
}

#[test]
fn short_topic_is_reported_unchanged() {
    assert_eq!(
        notice_for("2", Some(String::from("a | b | c"))),
        Notice::MalformedTopic(String::from("a | b | c"))
    );
}

#[test]
fn change_rewrites_topic_and_sends_message() {
    assert_eq!(
        notice_for("2", Some(String::from("a|b|c|d|e"))),
        Notice::Announce {
            topic: String::from("a | b | c | https://alt-f4.blog/ALTF4-4/: 2 | e"),
            message: String::from("New Alt-F4 facts: 2 https://alt-f4.blog/ALTF4-4/"),
        }
    );
}

#[test]
fn retitled_post_is_unchanged() {
    let mut p = Poller::new();
    p.on_fetch(Ok(page_with("Alt-F4 #1 first")));
    assert_eq!(p.on_fetch(Ok(page_with("Alt-F4 #1 first, edited"))), Poll::Unchanged);
}
