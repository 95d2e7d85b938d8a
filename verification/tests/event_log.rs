use url_shortener::{Event, EventLog, ShortLink, Slug, Url};

fn created(slug_text: &str) -> Event {
    Event::LinkCreated(ShortLink {
        slug: Slug(slug_text.to_string()),
        url: Url("https://example.com".to_string()),
    })
}

fn redirected(slug_text: &str) -> Event {
    Event::LinkRedirected(Slug(slug_text.to_string()))
}

#[test]
fn new_log_is_empty() {
    let log = EventLog::new();
    assert_eq!(log.len(), 0);
    assert!(log.read_all().is_empty());
}

#[test]
fn append_returns_consecutive_sequence_numbers() {
    let mut log = EventLog::new();
    assert_eq!(log.append(created("a")), 0);
    assert_eq!(log.append(redirected("a")), 1);
    assert_eq!(log.append(redirected("a")), 2);
    assert_eq!(log.len(), 3);
}

#[test]
fn read_all_keeps_the_order_of_appending_and_can_be_repeated() {
    let mut log = EventLog::new();
    log.append(created("a"));
    log.append(redirected("a"));
    log.append(created("b"));
    let expected = vec![created("a"), redirected("a"), created("b")];
    assert_eq!(log.read_all(), &expected);
    assert_eq!(log.read_all(), &expected);
    log.append(redirected("b"));
    assert_eq!(log.read_all()[..3], expected[..]);
    assert_eq!(log.read_all()[3], redirected("b"));
}

#[test]
fn sequence_number_is_the_place_in_the_log() {
    let mut log = EventLog::new();
    let first: usize = log.append(created("a"));
    let second: usize = log.append(redirected("a"));
    assert_eq!(log.read_all()[first], created("a"));
    assert_eq!(log.read_all()[second], redirected("a"));
}
