use gesture_config::{Action, ConfigAction, ConfigKey, SharedDevice};
use std::cell::Cell;
use std::rc::Rc;
use uinput::event::keyboard::Key;

#[derive(Debug)]
struct Keyboard {
    serial: u32,
}

fn counting_factory(opened: &Rc<Cell<u32>>) -> impl FnOnce() -> Rc<Keyboard> {
    let opened = Rc::clone(opened);
    move || {
        opened.set(opened.get() + 1);
        Rc::new(Keyboard { serial: 7 })
    }
}

#[test]
fn execute_command_keeps_path_and_args() {
    let opened = Rc::new(Cell::new(0));
    let mut device = SharedDevice::new(counting_factory(&opened));
    let declared = ConfigAction::ExecuteCommand {
        path: "/bin/echo".to_string(),
        args: vec!["hi".to_string()],
    };
    match declared.make(&mut device) {
        Action::ExecuteCommand { path, args } => {
            assert_eq!(path, "/bin/echo");
            assert_eq!(args, vec!["hi".to_string()]);
        }
        other => panic!("not a command action: {:?}", other),
    }
    assert_eq!(opened.get(), 0);
    assert!(!device.is_open());
}

#[test]
fn execute_command_keeps_the_order_of_its_args() {
    let opened = Rc::new(Cell::new(0));
    let mut device = SharedDevice::new(counting_factory(&opened));
    let declared = ConfigAction::ExecuteCommand {
        path: "notify-send".to_string(),
        args: vec!["-t".to_string(), "100".to_string(), "".to_string(), "-t".to_string()],
    };
    match declared.make(&mut device) {
        Action::ExecuteCommand { path, args } => {
            assert_eq!(path, "notify-send");
            assert_eq!(args, vec!["-t", "100", "", "-t"]);
        }
        other => panic!("not a command action: {:?}", other),
    }
}

#[test]
fn inline_script_keeps_its_code() {
    let opened = Rc::new(Cell::new(0));
    let mut device = SharedDevice::new(counting_factory(&opened));
    let declared = ConfigAction::InlineScript { code: "print(\"x\")\n".to_string() };
    match declared.make(&mut device) {
        Action::InlineScript { command } => assert_eq!(command, "print(\"x\")\n"),
        other => panic!("not a script action: {:?}", other),
    }
    assert_eq!(opened.get(), 0);
    assert!(!device.is_open());
}

#[test]
fn keyboard_input_keeps_modifiers_and_sequence_in_order() {
    let opened = Rc::new(Cell::new(0));
    let mut device = SharedDevice::new(counting_factory(&opened));
    let declared = ConfigAction::KeyboardInput {
        modifiers: vec![ConfigKey(Key::LeftControl), ConfigKey(Key::LeftShift)],
        sequence: vec![ConfigKey(Key::B), ConfigKey(Key::A), ConfigKey(Key::B)],
    };
    match declared.make(&mut device) {
        Action::KeyboardInput { device, modifiers, sequence } => {
            assert_eq!(modifiers, vec![Key::LeftControl, Key::LeftShift]);
            assert_eq!(sequence, vec![Key::B, Key::A, Key::B]);
            assert_eq!(device.serial, 7);
        }
        other => panic!("not a keyboard action: {:?}", other),
    }
    assert_eq!(opened.get(), 1);
    assert!(device.is_open());
}

#[test]
fn keyboard_input_with_no_keys_is_accepted() {
    let opened = Rc::new(Cell::new(0));
    let mut device = SharedDevice::new(counting_factory(&opened));
    let declared = ConfigAction::KeyboardInput { modifiers: Vec::new(), sequence: Vec::new() };
    match declared.make(&mut device) {
        Action::KeyboardInput { modifiers, sequence, .. } => {
            assert!(modifiers.is_empty());
            assert!(sequence.is_empty());
        }
        other => panic!("not a keyboard action: {:?}", other),
    }
    assert_eq!(opened.get(), 1);
}

#[test]
fn only_keyboard_input_needs_the_device() {
    let keyboard = ConfigAction::KeyboardInput { modifiers: Vec::new(), sequence: Vec::new() };
    let command = ConfigAction::ExecuteCommand { path: "true".to_string(), args: Vec::new() };
    let script = ConfigAction::InlineScript { code: String::new() };
    assert!(keyboard.needs_device());
    assert!(!command.needs_device());
    assert!(!script.needs_device());
}

#[test]
fn two_keyboard_actions_hold_the_identical_device() {
    let opened = Rc::new(Cell::new(0));
    let mut device = SharedDevice::new(counting_factory(&opened));
    let first = ConfigAction::KeyboardInput {
        modifiers: Vec::new(),
        sequence: vec![ConfigKey(Key::A)],
    }
    .make(&mut device);
    let second = ConfigAction::KeyboardInput {
        modifiers: Vec::new(),
        sequence: vec![ConfigKey(Key::B)],
    }
    .make(&mut device);
    match (first, second) {
        (
            Action::KeyboardInput { device: one, .. },
            Action::KeyboardInput { device: other, .. },
        ) => assert!(Rc::ptr_eq(&one, &other)),
        _ => panic!("not two keyboard actions"),
    }
    assert_eq!(opened.get(), 1);
}

#[test]
fn shared_device_opens_on_first_get_only() {
    let opened = Rc::new(Cell::new(0));
    let mut device = SharedDevice::new(counting_factory(&opened));
    assert!(!device.is_open());
    assert_eq!(opened.get(), 0);
    let first = device.get();
    assert!(device.is_open());
    assert_eq!(opened.get(), 1);
    let second = device.get();
    assert_eq!(opened.get(), 1);
    assert!(Rc::ptr_eq(&first, &second));
}

#[test]
fn shared_device_hands_out_a_new_handle_each_time() {
    let opened = Rc::new(Cell::new(0));
    let mut device = SharedDevice::new(counting_factory(&opened));
    let first = device.get();
    assert_eq!(Rc::strong_count(&first), 2);
    let second = device.get();
    assert_eq!(Rc::strong_count(&first), 3);
    drop(second);
    assert_eq!(Rc::strong_count(&first), 2);
    drop(device);
    assert_eq!(Rc::strong_count(&first), 1);
}
