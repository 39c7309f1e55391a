use cantide::failure::{have_a_cow, stock_phrase, Failure};
use cantide::quote::{format_quote, format_with};
use cantide::retrieve::{Attempt, Next, Retrieval};
use cantide::router::{dispatch, render, Outcome, Progress, Request};
use cantide::session::{Cantide, ChatEvent, Numeric, Reaction};

const UNKNOWN: [&str; 5] = ["Huh?", "Don't remember that one.", "What's that?", "Hmm...", "Beats me."];
const NOTHING: [&str; 3] = ["I got nothin'.", "Drawing a blank.", "Nothing comes to mind."];

fn request(line: &str) -> Request {
    match dispatch(line) {
        Outcome::Fetch(r) => r,
        Outcome::Silent => panic!("{:?} was ignored", line),
        Outcome::Failed(e) => panic!("{:?} failed with {:?}", line, e),
    }
}

fn found(s: &str) -> Attempt {
    Attempt::Found(s.to_string())
}

fn done(p: Progress) -> Result<String, Failure> {
    match p {
        Progress::Done(r) => r,
        Progress::Again => panic!("request still running"),
    }
}

#[test]
fn plain_lines_are_ignored() {
    for line in ["", "   ", "hello there", "rq", " rq !rq", "?!rq", "\t"] {
        assert!(matches!(dispatch(line), Outcome::Silent), "{:?}", line);
    }
}

#[test]
fn surrounding_whitespace_is_trimmed() {
    let r = request("  \t!rq   bob  \n");
    assert_eq!(r.speaker(), Some("bob".to_string()));
}

#[test]
fn single_quote_has_no_filter_by_default() {
    let r = request("!rq");
    assert_eq!(r.speaker(), None);
}

#[test]
fn only_the_second_word_filters() {
    let r = request("!!rq  alice  carol");
    assert_eq!(r.speaker(), Some("alice".to_string()));
}

#[test]
fn command_names_are_case_sensitive() {
    assert!(matches!(dispatch("!RQ"), Outcome::Failed(Failure::UnrecognizedCommand)));
    assert!(matches!(dispatch("!rqx"), Outcome::Failed(Failure::UnrecognizedCommand)));
}

#[test]
fn unknown_command_gets_stock_phrase() {
    match dispatch("!unknown") {
        Outcome::Failed(e) => {
            assert_eq!(e, Failure::UnrecognizedCommand);
            let s = render(Err(e));
            assert!(!s.is_empty());
            assert!(UNKNOWN.contains(&s.as_str()), "{:?}", s);
        }
        _ => panic!("!unknown was not refused"),
    }
}

#[test]
fn one_said_quote() {
    let mut r = request("!rq");
    let reply = done(r.feed(found("<bob> hello"))).unwrap();
    assert_eq!(reply, "\u{25C7} hello");
    assert_eq!(render(Ok(reply.clone())), reply);
}

#[test]
fn empty_store_gets_apology() {
    let mut r = request("!rq");
    assert!(matches!(r.feed(Attempt::Empty), Progress::Again));
    assert!(matches!(r.feed(Attempt::Empty), Progress::Again));
    let e = done(r.feed(Attempt::Empty)).unwrap_err();
    assert_eq!(e, Failure::NoResult);
    let s = render(Err(e));
    assert!(!s.is_empty());
    assert!(NOTHING.contains(&s.as_str()), "{:?}", s);
}

#[test]
fn three_quotes_are_joined_by_spaces() {
    let mut r = request("!!rq");
    assert!(matches!(r.feed_with(found("<a> one two"), true), Progress::Again));
    assert!(matches!(r.feed_with(found("* bob waves hi"), true), Progress::Again));
    let reply = done(r.feed_with(found("plain"), false)).unwrap();
    assert_eq!(reply, "\u{25C7} one two \u{1F483} waves hi plain");
}

#[test]
fn three_quotes_have_three_segments() {
    let mut r = request("!!rq");
    assert!(matches!(r.feed(found("<a> x")), Progress::Again));
    assert!(matches!(r.feed(found("y")), Progress::Again));
    let reply = done(r.feed(found("<c> z"))).unwrap();
    let parts: Vec<&str> = reply.split(' ').collect();
    assert_eq!(parts.len(), 5);
    assert_eq!(reply, "\u{25C7} x y \u{25C7} z");
}

#[test]
fn empty_answers_between_quotes_are_retried() {
    let mut r = request("!!rq");
    assert!(matches!(r.feed(Attempt::Empty), Progress::Again));
    assert!(matches!(r.feed(found("a")), Progress::Again));
    assert!(matches!(r.feed(Attempt::Empty), Progress::Again));
    assert!(matches!(r.feed(Attempt::Empty), Progress::Again));
    assert!(matches!(r.feed(found("b")), Progress::Again));
    assert_eq!(done(r.feed(found("c"))).unwrap(), "a b c");
}

#[test]
fn failure_in_three_quotes_drops_partial_reply() {
    let mut r = request("!!rq");
    assert!(matches!(r.feed(found("a")), Progress::Again));
    assert_eq!(done(r.feed(Attempt::Fault)).unwrap_err(), Failure::StoreUnavailable);
}

#[test]
fn unmatched_filter_fails_after_three_attempts() {
    let mut r = request("!rq nobody");
    assert_eq!(r.speaker(), Some("nobody".to_string()));
    assert!(matches!(r.feed(Attempt::Empty), Progress::Again));
    assert!(matches!(r.feed(Attempt::Empty), Progress::Again));
    assert_eq!(done(r.feed(Attempt::Empty)).unwrap_err(), Failure::NoResult);
}

#[test]
fn retrieval_counts_attempts() {
    let mut r = Retrieval::new();
    assert_eq!(r.attempts_made(), 0);
    assert!(matches!(r.observe(Attempt::Empty), Next::Retry));
    assert_eq!(r.attempts_made(), 1);
    assert!(matches!(r.observe(Attempt::Empty), Next::Retry));
    assert_eq!(r.attempts_made(), 2);
    assert!(matches!(r.observe(Attempt::Empty), Next::Failed(Failure::NoResult)));
    assert_eq!(r.attempts_made(), 3);
}

#[test]
fn retrieval_fault_short_circuits() {
    let mut r = Retrieval::new();
    assert!(matches!(r.observe(Attempt::Fault), Next::Failed(Failure::StoreUnavailable)));
    assert_eq!(r.attempts_made(), 1);
}

#[test]
fn retrieval_returns_found_text() {
    let mut r = Retrieval::new();
    assert!(matches!(r.observe(Attempt::Empty), Next::Retry));
    match r.observe(found("<x> y")) {
        Next::Got(q) => assert_eq!(q, "<x> y"),
        _ => panic!("quote lost"),
    }
}

#[test]
fn said_quote_loses_marker() {
    for coin in [true, false] {
        let s = format_with("<bob> hello <world>", coin);
        assert_eq!(s, "\u{25C7} hello <world>");
        assert!(!s.contains("<bob>"));
    }
}

#[test]
fn said_quote_with_empty_rest() {
    assert_eq!(format_with("<bob> ", true), "\u{25C7} ");
}

#[test]
fn said_quote_without_room_is_unchanged() {
    assert_eq!(format_with("<bob>", true), "<bob>");
}

#[test]
fn action_quote_has_two_forms() {
    assert_eq!(format_with("* bob dances wildly", true), "\u{1F483} dances wildly");
    assert_eq!(format_with("* bob dances wildly", false), "\u{1F57A} dances wildly");
    let mut seen_one = false;
    let mut seen_other = false;
    for _ in 0..400 {
        let s = format_quote("* bob dances wildly");
        if s == "\u{1F483} dances wildly" {
            seen_one = true;
        } else if s == "\u{1F57A} dances wildly" {
            seen_other = true;
        } else {
            panic!("unexpected form {:?}", s);
        }
    }
    assert!(seen_one && seen_other);
}

#[test]
fn action_quote_without_second_space_is_unchanged() {
    assert_eq!(format_with("* bob", true), "* bob");
}

#[test]
fn other_quotes_are_unchanged() {
    assert_eq!(format_with("just words", true), "just words");
    assert_eq!(format_with("", false), "");
    assert_eq!(format_with("*bob waves", false), "*bob waves");
}

#[test]
fn stock_phrases_count_round() {
    assert_eq!(stock_phrase(Failure::UnrecognizedCommand, 0), "Huh?");
    assert_eq!(stock_phrase(Failure::UnrecognizedCommand, 9), "Beats me.");
    assert_eq!(stock_phrase(Failure::NoResult, 3), "I got nothin'.");
    assert_eq!(stock_phrase(Failure::StoreUnavailable, 7), "I'm having brain problems.");
}

#[test]
fn random_phrases_come_from_the_list() {
    for _ in 0..50 {
        let s = have_a_cow(Failure::UnrecognizedCommand);
        assert!(UNKNOWN.contains(&s.as_str()));
    }
}

fn session() -> Cantide {
    Cantide::new("#room".to_string(), "cantide".to_string())
}

#[test]
fn join_elsewhere_changes_nothing() {
    let mut c = session();
    let r = c.handle(ChatEvent::Joined { room: "#other".to_string() });
    assert!(matches!(r, Reaction::Diagnose));
    assert_eq!(c.nick(), "cantide");
    assert_eq!(c.channel(), "#room");
}

#[test]
fn join_here_is_announced() {
    let mut c = session();
    assert!(matches!(c.handle(ChatEvent::Joined { room: "#room".to_string() }), Reaction::Announce));
    assert!(matches!(c.handle(ChatEvent::Parted { room: "#room".to_string() }), Reaction::Announce));
    assert!(matches!(c.handle(ChatEvent::Quit), Reaction::Announce));
    assert_eq!(c.nick(), "cantide");
}

#[test]
fn nick_change_is_kept() {
    let mut c = session();
    assert!(matches!(c.handle(ChatEvent::NickChanged { nick: "canti".to_string() }), Reaction::Renamed));
    assert_eq!(c.nick(), "canti");
}

#[test]
fn welcome_names_the_bot() {
    let mut c = session();
    let e = ChatEvent::ProtocolNotice { code: Numeric::Welcome, args: vec!["canti".to_string()] };
    assert!(matches!(c.handle(e), Reaction::Renamed));
    assert_eq!(c.nick(), "canti");
    let e = ChatEvent::ProtocolNotice {
        code: Numeric::Welcome,
        args: vec!["a".to_string(), "b".to_string()],
    };
    assert!(matches!(c.handle(e), Reaction::Ignore));
    assert_eq!(c.nick(), "canti");
}

#[test]
fn bootstrap_and_pings_are_ignored() {
    let mut c = session();
    let e = ChatEvent::ProtocolNotice { code: Numeric::Bootstrap, args: vec![] };
    assert!(matches!(c.handle(e), Reaction::Ignore));
    assert!(matches!(c.handle(ChatEvent::KeepAlive), Reaction::Ignore));
    let e = ChatEvent::ProtocolNotice { code: Numeric::Other, args: vec![] };
    assert!(matches!(c.handle(e), Reaction::Diagnose));
    assert!(matches!(c.handle(ChatEvent::Other), Reaction::Diagnose));
}

#[test]
fn room_lines_are_routed() {
    let mut c = session();
    let e = ChatEvent::ChatMessage {
        target: "#room".to_string(),
        speaker: Some("bob".to_string()),
        text: "!rq".to_string(),
    };
    match c.handle(e) {
        Reaction::Respond(t) => assert_eq!(t, "!rq"),
        _ => panic!("line not routed"),
    }
    let e = ChatEvent::ChatMessage {
        target: "cantide".to_string(),
        speaker: Some("bob".to_string()),
        text: "!rq".to_string(),
    };
    assert!(matches!(c.handle(e), Reaction::Diagnose));
    let e = ChatEvent::ChatMessage { target: "#room".to_string(), speaker: None, text: "!rq".to_string() };
    assert!(matches!(c.handle(e), Reaction::Malformed));
}
