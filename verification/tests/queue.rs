use ntfy_send::queue::{Message, MessageQueue, Stored, QUEUE_DIR, QUEUE_FILE};

fn note(topic: &str, text: &str) -> Message {
    Message {
        server: "https://n.example".to_string(),
        topic: topic.to_string(),
        message: text.to_string(),
        username: None,
        password: None,
    }
}

#[test]
fn queue_file_location_is_fixed() {
    assert_eq!(QUEUE_DIR, "/var/lib/ntfy-send");
    assert_eq!(QUEUE_FILE, "unsent-messages-queue.json");
}

#[test]
fn load_without_a_file_is_empty() {
    let queue = MessageQueue::load(Stored::Missing);
    assert!(queue.save().is_empty());
}

#[test]
fn load_of_a_malformed_file_is_empty() {
    let queue = MessageQueue::load(Stored::Malformed);
    assert!(queue.save().is_empty());
}

#[test]
fn load_keeps_the_stored_messages_in_order() {
    let stored = vec![note("a", "1"), note("b", "2"), note("c", "3")];
    let queue = MessageQueue::load(Stored::Messages(stored));
    assert_eq!(queue.save(), &vec![note("a", "1"), note("b", "2"), note("c", "3")]);
}

#[test]
fn load_of_an_empty_list_is_empty() {
    let queue = MessageQueue::load(Stored::Messages(Vec::new()));
    assert!(queue.save().is_empty());
}

#[test]
fn save_right_after_load_hands_out_what_was_stored() {
    let with_credentials = Message {
        server: "https://n.example".to_string(),
        topic: "t".to_string(),
        message: "hi".to_string(),
        username: Some("u".to_string()),
        password: Some("p".to_string()),
    };
    let queue = MessageQueue::load(Stored::Messages(vec![note("a", "1"), with_credentials]));
    let saved = queue.save();
    assert_eq!(saved.len(), 2);
    assert_eq!(saved[0], note("a", "1"));
    assert_eq!(saved[1].username.as_deref(), Some("u"));
    assert_eq!(saved[1].password.as_deref(), Some("p"));
    let again = MessageQueue::load(Stored::Messages(vec![note("a", "1")]));
    assert_eq!(again.save(), &vec![note("a", "1")]);
}

#[test]
fn add_puts_the_message_last() {
    let mut queue = MessageQueue::load(Stored::Messages(vec![note("a", "1")]));
    queue.add(note("b", "2"));
    assert_eq!(queue.save(), &vec![note("a", "1"), note("b", "2")]);
}

#[test]
fn add_does_not_change_the_message() {
    let mut queue = MessageQueue::load(Stored::Missing);
    queue.add(Message {
        server: "http://10.0.0.1:8080".to_string(),
        topic: "alerts".to_string(),
        message: "disk \"full\"\n".to_string(),
        username: Some("ops".to_string()),
        password: None,
    });
    let saved = queue.save();
    assert_eq!(saved.len(), 1);
    assert_eq!(saved[0].server, "http://10.0.0.1:8080");
    assert_eq!(saved[0].topic, "alerts");
    assert_eq!(saved[0].message, "disk \"full\"\n");
    assert_eq!(saved[0].username, Some("ops".to_string()));
    assert_eq!(saved[0].password, None);
}

#[test]
fn add_keeps_duplicates() {
    let mut queue = MessageQueue::load(Stored::Missing);
    queue.add(note("a", "1"));
    queue.add(note("a", "1"));
    assert_eq!(queue.save(), &vec![note("a", "1"), note("a", "1")]);
}

#[test]
fn take_all_hands_out_the_added_messages_in_order() {
    let mut queue = MessageQueue::load(Stored::Missing);
    let mut expected = Vec::new();
    for i in 0..25 {
        queue.add(note("t", &format!("message {}", i)));
        expected.push(note("t", &format!("message {}", i)));
    }
    let taken = queue.take_all();
    assert_eq!(taken, expected);
    assert!(queue.save().is_empty());
}

#[test]
fn load_after_take_all_is_empty() {
    let mut queue = MessageQueue::load(Stored::Messages(vec![note("a", "1"), note("b", "2")]));
    let taken = queue.take_all();
    assert_eq!(taken.len(), 2);
    let left: Vec<Message> = Vec::new();
    assert_eq!(queue.save(), &left);
    let reloaded = MessageQueue::load(Stored::Messages(left));
    assert!(reloaded.save().is_empty());
}

#[test]
fn take_all_of_an_empty_queue_is_empty() {
    let mut queue = MessageQueue::load(Stored::Malformed);
    assert!(queue.take_all().is_empty());
    assert!(queue.save().is_empty());
}

#[test]
fn take_all_twice_gives_nothing_the_second_time() {
    let mut queue = MessageQueue::load(Stored::Messages(vec![note("a", "1")]));
    assert_eq!(queue.take_all(), vec![note("a", "1")]);
    assert!(queue.take_all().is_empty());
}

#[test]
fn add_after_take_all_starts_anew() {
    let mut queue = MessageQueue::load(Stored::Messages(vec![note("a", "1")]));
    queue.take_all();
    queue.add(note("b", "2"));
    assert_eq!(queue.save(), &vec![note("b", "2")]);
}
