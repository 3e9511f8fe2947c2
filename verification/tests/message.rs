use twitch_client::message::Message;
use twitch_client::transport::{find_tag, Outbound, RawCommand, RawMessage, Tag};

fn tag(key: &str, value: Option<&str>) -> Tag {
    Tag { key: key.to_string(), value: value.map(|v| v.to_string()) }
}

fn privmsg(channel: &str, text: &str) -> RawCommand {
    RawCommand::Privmsg { channel: channel.to_string(), text: text.to_string() }
}

fn event(tags: Option<Vec<Tag>>, source: Option<&str>, command: RawCommand) -> RawMessage {
    RawMessage { tags, source_nickname: source.map(|s| s.to_string()), command }
}

fn sample() -> Message {
    Message::new(
        "42".to_string(),
        "#x".to_string(),
        "ada".to_string(),
        "hello world".to_string(),
    )
}

#[test]
fn new_keeps_its_fields() {
    let m = sample();
    assert_eq!(m.message_id, "42");
    assert_eq!(m.channel, "#x");
    assert_eq!(m.username, "ada");
    assert_eq!(m.text, "hello world");
}

#[test]
fn clone_keeps_every_field() {
    let m = sample();
    let c = m.clone();
    assert_eq!(c.message_id, m.message_id);
    assert_eq!(c.channel, m.channel);
    assert_eq!(c.username, m.username);
    assert_eq!(c.text, m.text);
}

#[test]
fn from_raw_builds_a_message() {
    let raw = event(
        Some(vec![tag("color", Some("#fff")), tag("id", Some("42")), tag("mod", None)]),
        Some("ada"),
        privmsg("#x", "hello world"),
    );
    let m = Message::from_raw(&raw).expect("a message");
    assert_eq!(m.message_id, "42");
    assert_eq!(m.channel, "#x");
    assert_eq!(m.username, "ada");
    assert_eq!(m.text, "hello world");
}

#[test]
fn from_raw_keeps_the_text_as_it_came() {
    let raw = event(Some(vec![tag("id", Some("7"))]), Some("ada"), privmsg("#x", "  !test   a  "));
    let m = Message::from_raw(&raw).expect("a message");
    assert_eq!(m.text, "  !test   a  ");
}

#[test]
fn from_raw_without_id_tag_is_nothing() {
    let raw = event(Some(vec![tag("color", Some("#fff"))]), Some("ada"), privmsg("#x", "hi"));
    assert!(Message::from_raw(&raw).is_none());
}

#[test]
fn from_raw_with_empty_tag_list_is_nothing() {
    let raw = event(Some(vec![]), Some("ada"), privmsg("#x", "hi"));
    assert!(Message::from_raw(&raw).is_none());
}

#[test]
fn from_raw_without_tags_is_nothing() {
    let raw = event(None, Some("ada"), privmsg("#x", "hi"));
    assert!(Message::from_raw(&raw).is_none());
}

#[test]
fn from_raw_without_source_is_nothing() {
    let raw = event(Some(vec![tag("id", Some("42"))]), None, privmsg("#x", "hi"));
    assert!(Message::from_raw(&raw).is_none());
}

#[test]
fn from_raw_of_other_event_is_nothing() {
    let raw = event(Some(vec![tag("id", Some("42"))]), Some("ada"), RawCommand::Other);
    assert!(Message::from_raw(&raw).is_none());
}

#[test]
fn from_raw_with_id_tag_without_value_is_nothing() {
    let raw = event(Some(vec![tag("id", None)]), Some("ada"), privmsg("#x", "hi"));
    assert!(Message::from_raw(&raw).is_none());
}

#[test]
fn from_raw_with_empty_id_is_nothing() {
    let raw = event(Some(vec![tag("id", Some(""))]), Some("ada"), privmsg("#x", "hi"));
    assert!(Message::from_raw(&raw).is_none());
}

#[test]
fn from_raw_takes_the_first_id_tag() {
    let raw = event(
        Some(vec![tag("id", Some("first")), tag("id", Some("second"))]),
        Some("ada"),
        privmsg("#x", "hi"),
    );
    assert_eq!(Message::from_raw(&raw).expect("a message").message_id, "first");
    let raw = event(
        Some(vec![tag("id", None), tag("id", Some("second"))]),
        Some("ada"),
        privmsg("#x", "hi"),
    );
    assert!(Message::from_raw(&raw).is_none());
}

#[test]
fn from_raw_matches_the_id_key_exactly() {
    let raw = event(
        Some(vec![tag("ID", Some("a")), tag("id2", Some("b")), tag("i", Some("c"))]),
        Some("ada"),
        privmsg("#x", "hi"),
    );
    assert!(Message::from_raw(&raw).is_none());
}

#[test]
fn find_tag_gives_the_first_with_the_key() {
    let tags = vec![tag("a", Some("1")), tag("b", Some("2")), tag("a", Some("3"))];
    assert_eq!(find_tag(&tags, "a").expect("found").value.as_deref(), Some("1"));
    assert_eq!(find_tag(&tags, "b").expect("found").value.as_deref(), Some("2"));
    assert!(find_tag(&tags, "c").is_none());
    assert!(find_tag(&Vec::new(), "a").is_none());
}

#[test]
fn reply_goes_to_the_channel_and_names_the_message() {
    let out = sample().reply("ok".to_string());
    assert_eq!(out.channel, "#x");
    assert_eq!(out.reply_to.as_deref(), Some("42"));
    assert_eq!(out.text, "ok");
}

#[test]
fn display_form_is_channel_sender_text() {
    assert_eq!(sample().to_string(), "[#x] ada: hello world");
}

#[test]
fn debug_form_starts_with_the_identifier() {
    assert_eq!(sample().debug_string(), "42 #x | ada: hello world");
}

#[test]
fn outbound_message_answers_nothing() {
    let out = Outbound::message("#x".to_string(), "hi".to_string());
    assert_eq!(out.channel, "#x");
    assert_eq!(out.text, "hi");
    assert!(out.reply_to.is_none());
}

#[test]
fn outbound_reply_names_what_it_answers() {
    let out = Outbound::reply("#x".to_string(), "42".to_string(), "hi".to_string());
    assert_eq!(out.channel, "#x");
    assert_eq!(out.text, "hi");
    assert_eq!(out.reply_to.as_deref(), Some("42"));
}

#[test]
fn outcome_of_delivered_message_is_ok() {
    assert!(Outbound::message("#x".to_string(), "hi".to_string()).outcome(true).is_ok());
}

#[test]
fn outcome_of_undelivered_message_holds_it() {
    match Outbound::message("#x".to_string(), "hi".to_string()).outcome(false) {
        Err(failure) => {
            assert_eq!(failure.message.channel, "#x");
            assert_eq!(failure.message.text, "hi");
            assert!(failure.message.reply_to.is_none());
        },
        Ok(()) => panic!("a failed send is no success"),
    }
}
