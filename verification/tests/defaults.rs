use gesture_config::threshold::{DEFAULT_PINCH_BITS, DEFAULT_ROTATION_BITS};
use gesture_config::{
    default_distance, default_pinch, default_rotation, default_triggers, Config, ConfigAction,
    ConfigTrigger, Field, Magnitude, RawConfig, Thresholds,
};

#[derive(Debug, PartialEq)]
enum Gesture {
    Swipe,
    Pinch,
}

fn nothing_given() -> RawConfig<Gesture> {
    RawConfig {
        swipe_distance: None,
        shear_distance: None,
        pinch_distance: None,
        rotation_distance: None,
        global_triggers: None,
        x11_triggers: None,
        wayland_triggers: None,
    }
}

fn script(gesture: Gesture, code: &str) -> ConfigTrigger<Gesture> {
    ConfigTrigger { trigger: gesture, action: ConfigAction::InlineScript { code: code.to_string() } }
}

#[test]
fn default_distance_is_one_hundred() {
    assert_eq!(default_distance(), 100);
}

#[test]
fn default_pinch_is_one_point_four() {
    assert_eq!(default_pinch().bits, DEFAULT_PINCH_BITS);
    assert_eq!(f64::from_bits(default_pinch().bits), 1.4);
    assert_eq!(default_pinch().bits, 1.4f64.to_bits());
}

#[test]
fn default_rotation_is_sixty() {
    assert_eq!(default_rotation().bits, DEFAULT_ROTATION_BITS);
    assert_eq!(f64::from_bits(default_rotation().bits), 60.0);
    assert_eq!(default_rotation().bits, 60.0f64.to_bits());
}

#[test]
fn default_triggers_are_empty() {
    let list: Vec<ConfigTrigger<Gesture>> = default_triggers();
    assert!(list.is_empty());
}

#[test]
fn document_without_optional_fields_gets_every_default() {
    let (config, defaulted) = nothing_given().resolve();
    let thresholds = config.thresholds();
    assert_eq!(thresholds.swipe_distance, 100);
    assert_eq!(thresholds.shear_distance, 100);
    assert_eq!(f64::from_bits(thresholds.pinch_distance.bits), 1.4);
    assert_eq!(f64::from_bits(thresholds.rotation_distance.bits), 60.0);
    assert!(config.global_triggers().is_empty());
    assert!(config.x11_triggers().is_empty());
    assert!(config.wayland_triggers().is_empty());
    assert_eq!(
        defaulted,
        vec![
            Field::SwipeDistance,
            Field::ShearDistance,
            Field::PinchDistance,
            Field::RotationDistance,
            Field::GlobalTriggers,
            Field::X11Triggers,
            Field::WaylandTriggers,
        ]
    );
}

#[test]
fn document_without_optional_fields_equals_the_default_document() {
    let (config, _) = nothing_given().resolve();
    let expected: Config<Gesture> = Config::new(
        Thresholds {
            swipe_distance: 100,
            shear_distance: 100,
            pinch_distance: Magnitude { bits: 1.4f64.to_bits() },
            rotation_distance: Magnitude { bits: 60.0f64.to_bits() },
        },
        Vec::new(),
        Vec::new(),
        Vec::new(),
    );
    assert_eq!(config, expected);
}

#[test]
fn given_fields_are_kept_and_not_reported() {
    let raw = RawConfig {
        swipe_distance: Some(250),
        shear_distance: None,
        pinch_distance: Some(Magnitude { bits: 2.5f64.to_bits() }),
        rotation_distance: None,
        global_triggers: Some(vec![script(Gesture::Swipe, "a")]),
        x11_triggers: None,
        wayland_triggers: Some(vec![script(Gesture::Pinch, "b"), script(Gesture::Swipe, "c")]),
    };
    let (config, defaulted) = raw.resolve();
    let thresholds = config.thresholds();
    assert_eq!(thresholds.swipe_distance, 250);
    assert_eq!(thresholds.shear_distance, 100);
    assert_eq!(f64::from_bits(thresholds.pinch_distance.bits), 2.5);
    assert_eq!(f64::from_bits(thresholds.rotation_distance.bits), 60.0);
    assert_eq!(config.global_triggers(), &vec![script(Gesture::Swipe, "a")]);
    assert!(config.x11_triggers().is_empty());
    assert_eq!(
        config.wayland_triggers(),
        &vec![script(Gesture::Pinch, "b"), script(Gesture::Swipe, "c")]
    );
    assert_eq!(defaulted, vec![Field::ShearDistance, Field::RotationDistance, Field::X11Triggers]);
}

#[test]
fn fully_given_document_reports_no_default() {
    let raw: RawConfig<Gesture> = RawConfig {
        swipe_distance: Some(1),
        shear_distance: Some(2),
        pinch_distance: Some(Magnitude { bits: 3.0f64.to_bits() }),
        rotation_distance: Some(Magnitude { bits: 4.0f64.to_bits() }),
        global_triggers: Some(Vec::new()),
        x11_triggers: Some(Vec::new()),
        wayland_triggers: Some(Vec::new()),
    };
    let (config, defaulted) = raw.resolve();
    assert!(defaulted.is_empty());
    assert_eq!(
        config.thresholds(),
        Thresholds {
            swipe_distance: 1,
            shear_distance: 2,
            pinch_distance: Magnitude { bits: 3.0f64.to_bits() },
            rotation_distance: Magnitude { bits: 4.0f64.to_bits() },
        }
    );
}

#[test]
fn thresholds_are_not_validated() {
    let raw: RawConfig<Gesture> = RawConfig {
        swipe_distance: Some(0),
        shear_distance: Some(u32::MAX),
        pinch_distance: Some(Magnitude { bits: (-1.0f64).to_bits() }),
        rotation_distance: Some(Magnitude { bits: 0.0f64.to_bits() }),
        global_triggers: None,
        x11_triggers: None,
        wayland_triggers: None,
    };
    let (config, _) = raw.resolve();
    let thresholds = config.thresholds();
    assert_eq!(thresholds.swipe_distance, 0);
    assert_eq!(thresholds.shear_distance, u32::MAX);
    assert_eq!(f64::from_bits(thresholds.pinch_distance.bits), -1.0);
    assert_eq!(f64::from_bits(thresholds.rotation_distance.bits), 0.0);
}

#[test]
fn an_empty_list_that_is_given_is_not_a_default() {
    let mut raw = nothing_given();
    raw.x11_triggers = Some(Vec::new());
    let (config, defaulted) = raw.resolve();
    assert!(config.x11_triggers().is_empty());
    assert!(!defaulted.contains(&Field::X11Triggers));
    assert_eq!(defaulted.len(), 6);
}
