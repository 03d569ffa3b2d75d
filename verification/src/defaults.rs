//! Defaults for the fields that a document may leave out.

use crate::config::{default_triggers, entries_of, Config, ConfigTrigger, Document, Entry};
use crate::threshold::{
    default_distance, default_pinch, default_rotation, Magnitude, Thresholds,
    DEFAULT_PINCH_BITS, DEFAULT_ROTATION_BITS,
};
use vstd::prelude::*;

verus! {

/// A field of the document that may be left out.
#[derive(Clone, Copy, Debug, PartialEq, Eq, Structural)]
pub enum Field {
    SwipeDistance,
    ShearDistance,
    PinchDistance,
    RotationDistance,
    GlobalTriggers,
    X11Triggers,
    WaylandTriggers,
}

/// A document as written: each field either given or left out.
#[derive(Debug, PartialEq)]
pub struct RawConfig<T> {
    pub swipe_distance: Option<u32>,
    pub shear_distance: Option<u32>,
    pub pinch_distance: Option<Magnitude>,
    pub rotation_distance: Option<Magnitude>,
    pub global_triggers: Option<Vec<ConfigTrigger<T>>>,
    pub x11_triggers: Option<Vec<ConfigTrigger<T>>>,
    pub wayland_triggers: Option<Vec<ConfigTrigger<T>>>,
}

/// A document as written, as a mathematical value.
pub struct Draft<T> {
    pub swipe_distance: Option<u32>,
    pub shear_distance: Option<u32>,
    pub pinch_distance: Option<Magnitude>,
    pub rotation_distance: Option<Magnitude>,
    pub global_triggers: Option<Seq<Entry<T>>>,
    pub x11_triggers: Option<Seq<Entry<T>>>,
    pub wayland_triggers: Option<Seq<Entry<T>>>,
}

/// The entries of a trigger list that may have been left out.
pub open spec fn entries_of_optional<T>(list: Option<Vec<ConfigTrigger<T>>>) -> Option<
    Seq<Entry<T>>,
> {
    match list {
        Some(list) => Some(entries_of(list@)),
        None => None,
    }
}

impl<T> View for RawConfig<T> {
    type V = Draft<T>;

    open spec fn view(&self) -> Draft<T> {
        Draft {
            swipe_distance: self.swipe_distance,
            shear_distance: self.shear_distance,
            pinch_distance: self.pinch_distance,
            rotation_distance: self.rotation_distance,
            global_triggers: entries_of_optional(self.global_triggers),
            x11_triggers: entries_of_optional(self.x11_triggers),
            wayland_triggers: entries_of_optional(self.wayland_triggers),
        }
    }
}

/// `field` alone if it was left out, nothing if it was given.
pub open spec fn if_absent(absent: bool, field: Field) -> Seq<Field> {
    if absent {
        seq![field]
    } else {
        Seq::empty()
    }
}

/// The given list, or the empty one.
pub open spec fn list_or_empty<T>(list: Option<Seq<Entry<T>>>) -> Seq<Entry<T>> {
    match list {
        Some(list) => list,
        None => Seq::empty(),
    }
}

impl<T> Draft<T> {
    /// The document that the draft stands for: each field as given, or its
    /// default where it was left out.
    pub open spec fn resolve(self) -> Document<T> {
        Document {
            thresholds: Thresholds {
                swipe_distance: match self.swipe_distance {
                    Some(distance) => distance,
                    None => 100,
                },
                shear_distance: match self.shear_distance {
                    Some(distance) => distance,
                    None => 100,
                },
                pinch_distance: match self.pinch_distance {
                    Some(scale) => scale,
                    None => Magnitude { bits: DEFAULT_PINCH_BITS },
                },
                rotation_distance: match self.rotation_distance {
                    Some(angle) => angle,
                    None => Magnitude { bits: DEFAULT_ROTATION_BITS },
                },
            },
            global_triggers: list_or_empty(self.global_triggers),
            x11_triggers: list_or_empty(self.x11_triggers),
            wayland_triggers: list_or_empty(self.wayland_triggers),
        }
    }

    /// The fields that were left out, in the order in which the document
    /// declares them.
    pub open spec fn defaulted(self) -> Seq<Field> {
        if_absent(self.swipe_distance is None, Field::SwipeDistance) + if_absent(
            self.shear_distance is None,
            Field::ShearDistance,
        ) + if_absent(self.pinch_distance is None, Field::PinchDistance) + if_absent(
            self.rotation_distance is None,
            Field::RotationDistance,
        ) + if_absent(self.global_triggers is None, Field::GlobalTriggers) + if_absent(
            self.x11_triggers is None,
            Field::X11Triggers,
        ) + if_absent(self.wayland_triggers is None, Field::WaylandTriggers)
    }
}

/// Notes `field` in `defaulted` if `absent` says that it was left out.
fn note_if_absent(defaulted: &mut Vec<Field>, absent: bool, field: Field)
    ensures
        final(defaulted)@ == old(defaulted)@ + if_absent(absent, field),
{
    if absent {
        defaulted.push(field);
    }
}

impl<T> RawConfig<T> {
    /// Fills in the default of every field that was left out.
    ///
    /// Returns the finished document and the fields that took their default,
    /// so that the caller can report them. A field that was given is kept as
    /// it is, whatever its value.
    pub fn resolve(self) -> (resolved: (Config<T>, Vec<Field>))
        ensures
            resolved.0@ == self@.resolve(),
            resolved.1@ == self@.defaulted(),
    {
        let mut defaulted: Vec<Field> = Vec::new();
        note_if_absent(&mut defaulted, self.swipe_distance.is_none(), Field::SwipeDistance);
        note_if_absent(&mut defaulted, self.shear_distance.is_none(), Field::ShearDistance);
        note_if_absent(&mut defaulted, self.pinch_distance.is_none(), Field::PinchDistance);
        note_if_absent(&mut defaulted, self.rotation_distance.is_none(), Field::RotationDistance);
        note_if_absent(&mut defaulted, self.global_triggers.is_none(), Field::GlobalTriggers);
        note_if_absent(&mut defaulted, self.x11_triggers.is_none(), Field::X11Triggers);
        note_if_absent(&mut defaulted, self.wayland_triggers.is_none(), Field::WaylandTriggers);
        let thresholds = Thresholds {
            swipe_distance: match self.swipe_distance {
                Some(distance) => distance,
                None => default_distance(),
            },
            shear_distance: match self.shear_distance {
                Some(distance) => distance,
                None => default_distance(),
            },
            pinch_distance: match self.pinch_distance {
                Some(scale) => scale,
                None => default_pinch(),
            },
            rotation_distance: match self.rotation_distance {
                Some(angle) => angle,
                None => default_rotation(),
            },
        };
        let global_triggers = match self.global_triggers {
            Some(list) => list,
            None => default_triggers(),
        };
        let x11_triggers = match self.x11_triggers {
            Some(list) => list,
            None => default_triggers(),
        };
        let wayland_triggers = match self.wayland_triggers {
            Some(list) => list,
            None => default_triggers(),
        };
        let config = Config::new(thresholds, global_triggers, x11_triggers, wayland_triggers);
        proof {
            assert(entries_of(Seq::<ConfigTrigger<T>>::empty()) == Seq::<Entry<T>>::empty());
            assert(config@.global_triggers == self@.resolve().global_triggers);
            assert(config@.x11_triggers == self@.resolve().x11_triggers);
            assert(config@.wayland_triggers == self@.resolve().wayland_triggers);
        }
        (config, defaulted)
    }
}

} // verus!
