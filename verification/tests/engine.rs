use chat_application::chat_engine::ChatEngine;
use chat_application::message_log::MessageLog;
use chat_application::models::ChatEvent;
use chat_application::models::Message;
use chat_application::router::event_uses_log;
use chat_application::router::render_message;
use chat_application::router::render_messages;
use chat_application::router::route_event;
use chat_application::router::EventOutcome;

fn message(sender_id: u64, sender_name: &str, content: &str, timestamp: u64) -> Message {
    Message::with_timestamp(sender_id, sender_name.to_string(), content.to_string(), timestamp)
}

fn shown(lines: &[&str]) -> EventOutcome {
    EventOutcome { lines: lines.iter().map(|line| line.to_string()).collect(), exit: false }
}

fn greetings() -> MessageLog {
    let mut log = MessageLog::new();
    log.append(message(1, "Ann", "Hi", 10));
    log.append(message(2, "Bob", "Hello there", 11));
    log.append(message(1, "Ann", "Bye", 12));
    log
}

#[test]
fn a_message_is_shown_with_time_name_and_content() {
    assert_eq!(render_message(&message(1, "Ann", "Hi", 10)), "[10] Ann: Hi");
    assert_eq!(
        render_message(&message(5, "Yumi", "Let's talk: now", 1700000000)),
        "[1700000000] Yumi: Let's talk: now"
    );
    assert_eq!(render_message(&message(0, "", "", 0)), "[0] : ");
    assert_eq!(
        render_message(&message(9, "Zoë", "✓", u64::MAX)),
        "[18446744073709551615] Zoë: ✓"
    );
}

#[test]
fn messages_are_shown_one_line_each_after_what_is_there() {
    let mut lines = vec!["heading".to_string()];
    render_messages(&mut lines, &greetings().all());
    assert_eq!(lines, vec!["heading", "[10] Ann: Hi", "[11] Bob: Hello there", "[12] Ann: Bye"]);
    render_messages(&mut lines, &Vec::new());
    assert_eq!(lines.len(), 4);
}

#[test]
fn a_new_message_is_shown_and_appended() {
    let mut log = greetings();
    let outcome = route_event(&mut log, ChatEvent::NewMessage(message(3, "Cy", "Hey", 13)));
    assert_eq!(outcome, shown(&["[13] Cy: Hey"]));
    assert_eq!(log.len(), 4);
    assert_eq!(log.all()[3], message(3, "Cy", "Hey", 13));
    assert_eq!(log.all()[..3], greetings().all()[..]);
}

#[test]
fn a_search_by_user_shows_a_heading_and_the_matches() {
    let mut log = greetings();
    assert_eq!(
        route_event(&mut log, ChatEvent::SearchByUser(1)),
        shown(&["Messages from user 1:", "[10] Ann: Hi", "[12] Ann: Bye"])
    );
    assert_eq!(
        route_event(&mut log, ChatEvent::SearchByUser(2)),
        shown(&["Messages from user 2:", "[11] Bob: Hello there"])
    );
    assert_eq!(log.all(), greetings().all());
}

#[test]
fn a_search_by_unknown_user_shows_the_heading_only() {
    let mut log = greetings();
    assert_eq!(route_event(&mut log, ChatEvent::SearchByUser(77)), shown(&["Messages from user 77:"]));
    let mut empty = MessageLog::new();
    assert_eq!(route_event(&mut empty, ChatEvent::SearchByUser(1)), shown(&["Messages from user 1:"]));
}

#[test]
fn a_search_by_keyword_shows_a_heading_and_the_matches() {
    let mut log = greetings();
    assert_eq!(
        route_event(&mut log, ChatEvent::SearchByKeyword("hell".to_string())),
        shown(&["Messages containing 'hell':", "[11] Bob: Hello there"])
    );
    assert_eq!(
        route_event(&mut log, ChatEvent::SearchByKeyword("H".to_string())),
        shown(&["Messages containing 'H':", "[10] Ann: Hi", "[11] Bob: Hello there"])
    );
    assert_eq!(
        route_event(&mut log, ChatEvent::SearchByKeyword("nothing".to_string())),
        shown(&["Messages containing 'nothing':"])
    );
    assert_eq!(
        route_event(&mut log, ChatEvent::SearchByKeyword(String::new())),
        shown(&["Messages containing '':", "[10] Ann: Hi", "[11] Bob: Hello there", "[12] Ann: Bye"])
    );
    assert_eq!(log.all(), greetings().all());
}

#[test]
fn other_events_show_a_notice_and_leave_the_log() {
    let mut log = greetings();
    assert_eq!(route_event(&mut log, ChatEvent::SwitchUser(4)), shown(&["Switching to user 4..."]));
    assert_eq!(
        route_event(&mut log, ChatEvent::AddUser("Miku".to_string())),
        shown(&["Adding user Miku..."])
    );
    assert_eq!(route_event(&mut log, ChatEvent::ListUsers), shown(&["Listing users..."]));
    assert_eq!(log.all(), greetings().all());
}

#[test]
fn exit_ends_the_loop_and_leaves_the_log() {
    let mut log = greetings();
    let outcome = route_event(&mut log, ChatEvent::Exit);
    assert!(outcome.exit);
    assert_eq!(outcome.lines, vec!["Exiting chat 👋"]);
    assert_eq!(log.all(), greetings().all());
}

#[test]
fn only_messages_and_searches_use_the_log() {
    assert!(event_uses_log(&ChatEvent::NewMessage(message(1, "a", "b", 1))));
    assert!(event_uses_log(&ChatEvent::SearchByUser(1)));
    assert!(event_uses_log(&ChatEvent::SearchByKeyword("k".to_string())));
    assert!(!event_uses_log(&ChatEvent::SwitchUser(1)));
    assert!(!event_uses_log(&ChatEvent::AddUser("n".to_string())));
    assert!(!event_uses_log(&ChatEvent::ListUsers));
    assert!(!event_uses_log(&ChatEvent::Exit));
}

#[test]
fn the_engine_routes_events_to_its_log() {
    let engine = ChatEngine::new();
    assert_eq!(
        engine.process_event(ChatEvent::NewMessage(message(1, "Ann", "Hi", 10))),
        Ok(shown(&["[10] Ann: Hi"]))
    );
    assert_eq!(
        engine.process_event(ChatEvent::NewMessage(message(2, "Bob", "Hello there", 11))),
        Ok(shown(&["[11] Bob: Hello there"]))
    );
    assert_eq!(
        engine.process_event(ChatEvent::NewMessage(message(1, "Ann", "Bye", 12))),
        Ok(shown(&["[12] Ann: Bye"]))
    );
    assert_eq!(
        engine.process_event(ChatEvent::SearchByUser(1)),
        Ok(shown(&["Messages from user 1:", "[10] Ann: Hi", "[12] Ann: Bye"]))
    );
    assert_eq!(
        engine.process_event(ChatEvent::SearchByKeyword("HELL".to_string())),
        Ok(shown(&["Messages containing 'HELL':", "[11] Bob: Hello there"]))
    );
    assert_eq!(engine.get_messages().all().unwrap(), greetings().all());
}

#[test]
fn the_engine_and_its_handles_share_one_log() {
    let engine = ChatEngine::new();
    let producer = engine.get_messages();
    producer.append(message(4, "Chisato", "Just catching up", 20)).unwrap();
    assert_eq!(
        engine.process_event(ChatEvent::SearchByUser(4)),
        Ok(shown(&["Messages from user 4:", "[20] Chisato: Just catching up"]))
    );
    engine.process_event(ChatEvent::NewMessage(message(1, "Ann", "Hi", 21))).unwrap();
    assert_eq!(producer.all().unwrap().len(), 2);
    assert_eq!(engine.get_messages().all(), producer.all());
}

#[test]
fn the_engine_ends_the_loop_on_exit_only() {
    let engine = ChatEngine::new();
    let outcome = engine.process_event(ChatEvent::Exit).unwrap();
    assert!(outcome.exit);
    assert_eq!(outcome.lines, vec!["Exiting chat 👋"]);
    assert!(!engine.process_event(ChatEvent::ListUsers).unwrap().exit);
    assert!(!engine.process_event(ChatEvent::SwitchUser(1)).unwrap().exit);
    assert!(!engine.process_event(ChatEvent::AddUser("x".to_string())).unwrap().exit);
    assert!(!engine.process_event(ChatEvent::SearchByUser(1)).unwrap().exit);
    assert!(engine.get_messages().all().unwrap().is_empty());
}

#[test]
fn two_engines_have_two_logs() {
    let first = ChatEngine::new();
    let second = ChatEngine::new();
    first.process_event(ChatEvent::NewMessage(message(1, "Ann", "Hi", 1))).unwrap();
    assert!(second.get_messages().all().unwrap().is_empty());
}
