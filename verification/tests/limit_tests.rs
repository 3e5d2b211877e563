use primer::limit::{quota_message, LimitChecker, Messenger};
use std::cell::RefCell;

struct MockMessenger {
    sent_messages: RefCell<Vec<String>>,
}

impl MockMessenger {
    fn new(sent_messages: Vec<String>) -> MockMessenger {
        let _ = sent_messages;
        MockMessenger {
            sent_messages: RefCell::new(vec![]),
        }
    }
}

impl Messenger for MockMessenger {
    fn send(&self, message: &str) {
        println!("Hello, {}", message);
        self.sent_messages.borrow_mut().push(String::from(message));
    }
}

#[test]
fn it_sends_an_over_75_percentage_warning_message() {
    let mock_messenger = MockMessenger::new(vec![]);
    let mut limit_tracker = LimitChecker::new(&mock_messenger, 100);
    limit_tracker.set_value(80);
    assert_eq!(mock_messenger.sent_messages.borrow().len(), 1);
}

#[test]
fn it_warns_at_exactly_three_quarters() {
    let mock_messenger = MockMessenger::new(vec![]);
    let mut limit_tracker = LimitChecker::new(&mock_messenger, 100);
    limit_tracker.set_value(75);
    assert_eq!(
        mock_messenger.sent_messages.borrow().as_slice(),
        &["Warning: You've used up over 75% of your quota!".to_string()]
    );
}

#[test]
fn it_sends_an_urgent_warning_over_90_percent() {
    let mock_messenger = MockMessenger::new(vec![]);
    let mut limit_tracker = LimitChecker::new(&mock_messenger, 100);
    limit_tracker.set_value(95);
    assert_eq!(
        mock_messenger.sent_messages.borrow().as_slice(),
        &["Urgent warning: You've used up over 90% of your quota!".to_string()]
    );
}

#[test]
fn it_reports_going_over_the_quota() {
    let mock_messenger = MockMessenger::new(vec![]);
    let mut limit_tracker = LimitChecker::new(&mock_messenger, 100);
    limit_tracker.set_value(101);
    assert_eq!(
        mock_messenger.sent_messages.borrow().as_slice(),
        &["Error: You are over your quota!".to_string()]
    );
}

#[test]
fn it_stays_quiet_well_under_the_quota() {
    let mock_messenger = MockMessenger::new(vec![]);
    let mut limit_tracker = LimitChecker::new(&mock_messenger, 100);
    limit_tracker.set_value(50);
    assert_eq!(mock_messenger.sent_messages.borrow().len(), 0);
}

#[test]
fn quota_messages_by_level() {
    assert_eq!(quota_message(100, 100), Some("Error: You are over your quota!"));
    assert_eq!(
        quota_message(90, 100),
        Some("Urgent warning: You've used up over 90% of your quota!")
    );
    assert_eq!(
        quota_message(80, 100),
        Some("Warning: You've used up over 75% of your quota!")
    );
    assert_eq!(quota_message(74, 100), None);
}
