use std::cell::RefCell;

use ohos_ime::{
    Dispatcher, DispatcherError, DuplicateHandle, EnterKeyType, Ime, KeyboardStatus, TextConfig,
    TextConfigBuilder, TextDelivery, TextInputType,
};

struct RecordingIme {
    id: u32,
    inserted: RefCell<Vec<String>>,
    deleted_forward: RefCell<Vec<usize>>,
    deleted_backward: RefCell<Vec<usize>>,
    enter_keys: RefCell<Vec<EnterKeyType>>,
    statuses: RefCell<Vec<KeyboardStatus>>,
    config: TextConfig,
}

impl RecordingIme {
    fn new(id: u32) -> Self {
        RecordingIme {
            id,
            inserted: RefCell::new(Vec::new()),
            deleted_forward: RefCell::new(Vec::new()),
            deleted_backward: RefCell::new(Vec::new()),
            enter_keys: RefCell::new(Vec::new()),
            statuses: RefCell::new(Vec::new()),
            config: TextConfigBuilder::new().input_type(TextInputType::Multiline).build(),
        }
    }
}

impl Ime for RecordingIme {
    fn insert_text(&self, text: String) {
        self.inserted.borrow_mut().push(text);
    }

    fn delete_forward(&self, len: usize) {
        self.deleted_forward.borrow_mut().push(len);
    }

    fn delete_backward(&self, len: usize) {
        self.deleted_backward.borrow_mut().push(len);
    }

    fn get_text_config(&self) -> &TextConfig {
        &self.config
    }

    fn send_enter_key(&self, enter_key: EnterKeyType) {
        self.enter_keys.borrow_mut().push(enter_key);
    }

    fn keyboard_status_changed(&self, status: KeyboardStatus) {
        self.statuses.borrow_mut().push(status);
    }
}

fn utf16_of(text: &str) -> Vec<u16> {
    let mut units: Vec<u16> = Vec::new();
    for u in text.encode_utf16() {
        units.push(u);
    }
    units
}

#[test]
fn register_then_insert_text_reaches_exactly_that_ime_once() {
    let mut d: Dispatcher<RecordingIme> = Dispatcher::new();
    assert!(d.register(10, RecordingIme::new(1)).is_ok());
    assert!(d.register(20, RecordingIme::new(2)).is_ok());

    let units = utf16_of("h\u{e9}llo");
    let outcome = d.insert_text(10, &units);
    match outcome {
        TextDelivery::Delivered(text) => assert_eq!(text, "h\u{e9}llo"),
        other => panic!("unexpected outcome: {:?}", other),
    }

    let first = d.unregister(10).unwrap_or_else(|_| panic!("entry missing"));
    assert_eq!(first.id, 1);
    assert_eq!(*first.inserted.borrow(), vec![String::from("h\u{e9}llo")]);

    let second = d.unregister(20).unwrap_or_else(|_| panic!("entry missing"));
    assert_eq!(second.id, 2);
    assert!(second.inserted.borrow().is_empty());
}

#[test]
fn insert_text_with_surrogate_pair_decodes_it() {
    let mut d: Dispatcher<RecordingIme> = Dispatcher::new();
    assert!(d.register(1, RecordingIme::new(1)).is_ok());
    let units: Vec<u16> = vec![0xD83C, 0xDF89];
    match d.insert_text(1, &units) {
        TextDelivery::Delivered(text) => assert_eq!(text, "\u{1F389}"),
        other => panic!("unexpected outcome: {:?}", other),
    }
}

#[test]
fn insert_text_with_empty_buffer_delivers_empty_text() {
    let mut d: Dispatcher<RecordingIme> = Dispatcher::new();
    assert!(d.register(1, RecordingIme::new(1)).is_ok());
    let units: Vec<u16> = Vec::new();
    match d.insert_text(1, &units) {
        TextDelivery::Delivered(text) => assert_eq!(text, ""),
        other => panic!("unexpected outcome: {:?}", other),
    }
}

#[test]
fn insert_text_with_lone_low_surrogate_is_dropped() {
    let mut d: Dispatcher<RecordingIme> = Dispatcher::new();
    assert!(d.register(1, RecordingIme::new(1)).is_ok());
    let units: Vec<u16> = vec![0xDC00];
    assert_eq!(d.insert_text(1, &units), TextDelivery::MalformedText);
    let ime = d.unregister(1).unwrap_or_else(|_| panic!("entry missing"));
    assert!(ime.inserted.borrow().is_empty());
}

#[test]
fn insert_text_with_truncated_pair_is_dropped() {
    let mut d: Dispatcher<RecordingIme> = Dispatcher::new();
    assert!(d.register(1, RecordingIme::new(1)).is_ok());
    let units: Vec<u16> = vec![0x0068, 0xD800];
    assert_eq!(d.insert_text(1, &units), TextDelivery::MalformedText);
    let ime = d.unregister(1).unwrap_or_else(|_| panic!("entry missing"));
    assert!(ime.inserted.borrow().is_empty());
}

#[test]
fn dispatch_on_unknown_handle_is_a_reported_no_op() {
    let mut d: Dispatcher<RecordingIme> = Dispatcher::new();
    assert!(d.register(1, RecordingIme::new(1)).is_ok());
    let result = d.dispatch(99, |ime: &RecordingIme| {
        ime.insert_text(String::from("never"));
    });
    assert_eq!(result, Err(DispatcherError::NotRegistered));
    let ime = d.unregister(1).unwrap_or_else(|_| panic!("entry missing"));
    assert!(ime.inserted.borrow().is_empty());
}

#[test]
fn insert_text_on_unknown_handle_reports_not_registered() {
    let d: Dispatcher<RecordingIme> = Dispatcher::new();
    let units = utf16_of("abc");
    assert_eq!(d.insert_text(5, &units), TextDelivery::NotRegistered);
}

#[test]
fn unregister_returns_the_registered_instance_then_fails() {
    let mut d: Dispatcher<RecordingIme> = Dispatcher::new();
    assert!(d.register(7, RecordingIme::new(77)).is_ok());
    let ime = d.unregister(7).unwrap_or_else(|_| panic!("entry missing"));
    assert_eq!(ime.id, 77);
    match d.unregister(7) {
        Ok(_) => panic!("second unregistration produced an entry"),
        Err(e) => assert_eq!(e, DispatcherError::NotRegistered),
    }
}

#[test]
fn unregister_on_fresh_registry_reports_uninitialized() {
    let mut d: Dispatcher<RecordingIme> = Dispatcher::new();
    match d.unregister(3) {
        Ok(_) => panic!("fresh registry produced an entry"),
        Err(e) => assert_eq!(e, DispatcherError::Uninitialized),
    }
}

#[test]
fn duplicate_registration_is_refused_and_hands_the_instance_back() {
    let mut d: Dispatcher<RecordingIme> = Dispatcher::new();
    assert!(d.register(4, RecordingIme::new(1)).is_ok());
    match d.register(4, RecordingIme::new(2)) {
        Ok(()) => panic!("duplicate registration accepted"),
        Err(DuplicateHandle(rejected)) => assert_eq!(rejected.id, 2),
    }
    let kept = d.unregister(4).unwrap_or_else(|_| panic!("entry missing"));
    assert_eq!(kept.id, 1);
}

#[test]
fn delete_forward_clamps_negative_lengths_to_zero() {
    let mut d: Dispatcher<RecordingIme> = Dispatcher::new();
    assert!(d.register(1, RecordingIme::new(1)).is_ok());
    assert_eq!(d.delete_forward(1, -5), Ok(0));
    assert_eq!(d.delete_forward(1, 7), Ok(7));
    let ime = d.unregister(1).unwrap_or_else(|_| panic!("entry missing"));
    assert_eq!(*ime.deleted_forward.borrow(), vec![0usize, 7usize]);
}

#[test]
fn delete_backward_clamps_negative_lengths_to_zero() {
    let mut d: Dispatcher<RecordingIme> = Dispatcher::new();
    assert!(d.register(1, RecordingIme::new(1)).is_ok());
    assert_eq!(d.delete_backward(1, -1), Ok(0));
    assert_eq!(d.delete_backward(1, 3), Ok(3));
    let ime = d.unregister(1).unwrap_or_else(|_| panic!("entry missing"));
    assert_eq!(*ime.deleted_backward.borrow(), vec![0usize, 3usize]);
}

#[test]
fn delete_on_unknown_handle_reports_not_registered() {
    let d: Dispatcher<RecordingIme> = Dispatcher::new();
    assert_eq!(d.delete_forward(1, 5), Err(DispatcherError::NotRegistered));
    assert_eq!(d.delete_backward(1, 5), Err(DispatcherError::NotRegistered));
}

#[test]
fn send_enter_key_reaches_the_implementation() {
    let mut d: Dispatcher<RecordingIme> = Dispatcher::new();
    assert!(d.register(1, RecordingIme::new(1)).is_ok());
    assert!(d.send_enter_key(1, EnterKeyType::Go).is_ok());
    let ime = d.unregister(1).unwrap_or_else(|_| panic!("entry missing"));
    assert_eq!(*ime.enter_keys.borrow(), vec![EnterKeyType::Go]);
}

#[test]
fn send_keyboard_status_reaches_the_implementation() {
    let mut d: Dispatcher<RecordingIme> = Dispatcher::new();
    assert!(d.register(1, RecordingIme::new(1)).is_ok());
    assert!(d.send_keyboard_status(1, KeyboardStatus::Show).is_ok());
    assert!(d.send_keyboard_status(1, KeyboardStatus::Hide).is_ok());
    let ime = d.unregister(1).unwrap_or_else(|_| panic!("entry missing"));
    assert_eq!(*ime.statuses.borrow(), vec![KeyboardStatus::Show, KeyboardStatus::Hide]);
}

#[test]
fn get_text_config_returns_the_implementations_config() {
    let mut d: Dispatcher<RecordingIme> = Dispatcher::new();
    assert!(d.register(1, RecordingIme::new(1)).is_ok());
    let config = d.get_text_config(1).unwrap_or_else(|_| panic!("entry missing"));
    assert_eq!(config.input_type, TextInputType::Multiline);
    match d.get_text_config(2) {
        Ok(_) => panic!("unknown handle produced a config"),
        Err(e) => assert_eq!(e, DispatcherError::NotRegistered),
    }
}

#[test]
fn dispatch_targets_the_right_handle_among_several() {
    let mut d: Dispatcher<RecordingIme> = Dispatcher::new();
    assert!(d.register(1, RecordingIme::new(1)).is_ok());
    assert!(d.register(2, RecordingIme::new(2)).is_ok());
    let seen = RefCell::new(Vec::new());
    let result = d.dispatch(2, |ime: &RecordingIme| {
        seen.borrow_mut().push(ime.id);
    });
    assert!(result.is_ok());
    assert_eq!(*seen.borrow(), vec![2u32]);
}
