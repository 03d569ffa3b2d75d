//! The configuration document and its realization.

use crate::action::{Action, ConfigAction, Effect};
use crate::device::SharedDevice;
use crate::threshold::{Magnitude, Thresholds};
use std::rc::Rc;
use vstd::prelude::*;

verus! {

/// One entry of a trigger list: a gesture and the action that it starts.
///
/// The library does not look inside the trigger `T`: it hands it, with the
/// document's thresholds, to whoever builds recognizers.
#[derive(Debug, PartialEq)]
pub struct ConfigTrigger<T> {
    pub trigger: T,
    pub action: ConfigAction,
}

/// An entry as a mathematical value: its trigger and what its action does.
pub struct Entry<T> {
    pub trigger: T,
    pub action: Effect,
}

impl<T> View for ConfigTrigger<T> {
    type V = Entry<T>;

    open spec fn view(&self) -> Entry<T> {
        Entry { trigger: self.trigger, action: self.action@ }
    }
}

/// The entries of a trigger list, in order.
pub open spec fn entries_of<T>(list: Seq<ConfigTrigger<T>>) -> Seq<Entry<T>> {
    list.map_values(|entry: ConfigTrigger<T>| entry@)
}

/// Whether any of `entries` declares a keyboard action.
pub open spec fn uses_keyboard<T>(entries: Seq<Entry<T>>) -> bool {
    exists|i: int| 0 <= i < entries.len() && (#[trigger] entries[i]).action is KeyboardInput
}

/// Whether every keyboard action among `actions` types on `handle`.
pub open spec fn all_type_on<D>(actions: Seq<Action<D>>, handle: Rc<D>) -> bool {
    forall|i: int|
        0 <= i < actions.len() && (#[trigger] actions[i]).device() is Some ==> actions[i].device()
            == Some(handle)
}

/// Whether `make_trigger` may be called on the trigger of each of `entries`
/// with `thresholds`.
pub open spec fn accepts<T, R, FT: Fn(T, Thresholds) -> R>(
    entries: Seq<Entry<T>>,
    thresholds: Thresholds,
    make_trigger: FT,
) -> bool {
    forall|i: int|
        0 <= i < entries.len() ==> make_trigger.requires(
            ((#[trigger] entries[i]).trigger, thresholds),
        )
}

/// Whether `triggers` and `actions` realize `entries` pair by pair: the
/// trigger at each index is one that `make_trigger` gives for that entry's
/// trigger and `thresholds`, and the action at that index does what the
/// entry's action declares.
pub open spec fn realizes<T, R, D, FT: Fn(T, Thresholds) -> R>(
    entries: Seq<Entry<T>>,
    thresholds: Thresholds,
    make_trigger: FT,
    triggers: Seq<R>,
    actions: Seq<Action<D>>,
) -> bool {
    &&& triggers.len() == entries.len()
    &&& actions.len() == entries.len()
    &&& forall|i: int|
        0 <= i < entries.len() ==> make_trigger.ensures(
            (entries[i].trigger, thresholds),
            #[trigger] triggers[i],
        )
    &&& forall|i: int|
        0 <= i < entries.len() ==> (#[trigger] actions[i]).effect() == entries[i].action
}

/// A list uses the keyboard once one more entry is added exactly if it did
/// before or the new entry declares a keyboard action.
pub proof fn lemma_uses_keyboard_push<T>(entries: Seq<Entry<T>>, last: Entry<T>)
    ensures
        uses_keyboard(entries.push(last)) == (uses_keyboard(entries)
            || last.action is KeyboardInput),
{
    let longer = entries.push(last);
    if uses_keyboard(entries) {
        let i = choose|i: int| 0 <= i < entries.len() && (#[trigger] entries[i]).action is KeyboardInput;
        assert(longer[i] == entries[i]);
    }
    if last.action is KeyboardInput {
        assert(longer[entries.len() as int] == last);
    }
    if uses_keyboard(longer) {
        let i = choose|i: int| 0 <= i < longer.len() && (#[trigger] longer[i]).action is KeyboardInput;
        if i < entries.len() {
            assert(entries[i] == longer[i]);
        }
    }
}

/// A document as a mathematical value.
pub struct Document<T> {
    pub thresholds: Thresholds,
    pub global_triggers: Seq<Entry<T>>,
    pub x11_triggers: Seq<Entry<T>>,
    pub wayland_triggers: Seq<Entry<T>>,
}

impl<T> Document<T> {
    /// The entries in force on one platform: the global list, then that
    /// platform's own list. The other platform's list takes no part.
    pub open spec fn selected(self, is_wayland: bool) -> Seq<Entry<T>> {
        self.global_triggers + if is_wayland {
            self.wayland_triggers
        } else {
            self.x11_triggers
        }
    }
}

/// The configuration document.
#[derive(Debug, PartialEq)]
pub struct Config<T> {
    /// Distance for fingers to travel to trigger.
    swipe_distance: u32,
    /// Distance for fingers to travel to trigger.
    shear_distance: u32,
    /// Scale to achieve to trigger.
    pinch_distance: Magnitude,
    /// Spin to achieve to trigger.
    rotation_distance: Magnitude,
    /// Triggers executed with any display manager and any window.
    global_triggers: Vec<ConfigTrigger<T>>,
    /// Triggers executed in x11 on any window.
    x11_triggers: Vec<ConfigTrigger<T>>,
    /// Triggers executed in wayland on any window.
    wayland_triggers: Vec<ConfigTrigger<T>>,
}

impl<T> View for Config<T> {
    type V = Document<T>;

    closed spec fn view(&self) -> Document<T> {
        Document {
            thresholds: Thresholds {
                swipe_distance: self.swipe_distance,
                shear_distance: self.shear_distance,
                pinch_distance: self.pinch_distance,
                rotation_distance: self.rotation_distance,
            },
            global_triggers: entries_of(self.global_triggers@),
            x11_triggers: entries_of(self.x11_triggers@),
            wayland_triggers: entries_of(self.wayland_triggers@),
        }
    }
}

/// The list that stands in for an absent trigger list: an empty one.
pub fn default_triggers<T>() -> (list: Vec<ConfigTrigger<T>>)
    ensures
        list@ == Seq::<ConfigTrigger<T>>::empty(),
{
    Vec::new()
}

impl<T> Config<T> {
    /// A document with the given thresholds and trigger lists.
    pub fn new(
        thresholds: Thresholds,
        global_triggers: Vec<ConfigTrigger<T>>,
        x11_triggers: Vec<ConfigTrigger<T>>,
        wayland_triggers: Vec<ConfigTrigger<T>>,
    ) -> (config: Self)
        ensures
            config@ == (Document {
                thresholds,
                global_triggers: entries_of(global_triggers@),
                x11_triggers: entries_of(x11_triggers@),
                wayland_triggers: entries_of(wayland_triggers@),
            }),
    {
        Config {
            swipe_distance: thresholds.swipe_distance,
            shear_distance: thresholds.shear_distance,
            pinch_distance: thresholds.pinch_distance,
            rotation_distance: thresholds.rotation_distance,
            global_triggers,
            x11_triggers,
            wayland_triggers,
        }
    }

    /// The thresholds that every trigger of the document shares.
    pub fn thresholds(&self) -> (thresholds: Thresholds)
        ensures
            thresholds == self@.thresholds,
    {
        Thresholds {
            swipe_distance: self.swipe_distance,
            shear_distance: self.shear_distance,
            pinch_distance: self.pinch_distance,
            rotation_distance: self.rotation_distance,
        }
    }

    /// The entries in force on every platform.
    pub fn global_triggers(&self) -> (list: &Vec<ConfigTrigger<T>>)
        ensures
            entries_of(list@) == self@.global_triggers,
    {
        &self.global_triggers
    }

    /// The entries in force on x11 only.
    pub fn x11_triggers(&self) -> (list: &Vec<ConfigTrigger<T>>)
        ensures
            entries_of(list@) == self@.x11_triggers,
    {
        &self.x11_triggers
    }

    /// The entries in force on wayland only.
    pub fn wayland_triggers(&self) -> (list: &Vec<ConfigTrigger<T>>)
        ensures
            entries_of(list@) == self@.wayland_triggers,
    {
        &self.wayland_triggers
    }

    /// Realizes the entries in force on one platform, in order, taking the
    /// keyboard device from `input_device`.
    ///
    /// Each entry gives one trigger and one action at the same index. Every
    /// trigger is built from the entry's trigger and the document's own
    /// thresholds. If an entry declares a keyboard action, `input_device` is
    /// open afterwards, having been opened at most once, and every keyboard
    /// action types on that one device; if none does, `input_device` is
    /// untouched.
    pub fn make_triggers<R, D, FT, FD>(
        self,
        is_wayland: bool,
        make_trigger: FT,
        input_device: &mut SharedDevice<D, FD>,
    ) -> (realized: (Vec<R>, Vec<Action<D>>)) where
        FT: Fn(T, Thresholds) -> R,
        FD: FnOnce() -> Rc<D>,

        requires
            old(input_device).wf(),
            accepts(self@.selected(is_wayland), self@.thresholds, make_trigger),
        ensures
            final(input_device).wf(),
            realizes(
                self@.selected(is_wayland),
                self@.thresholds,
                make_trigger,
                realized.0@,
                realized.1@,
            ),
            if uses_keyboard(self@.selected(is_wayland)) {
                final(input_device).opened() matches Some(handle) && all_type_on(
                    realized.1@,
                    handle,
                ) && old(input_device).after_get(*final(input_device), handle)
            } else {
                *final(input_device) == *old(input_device)
            },
    {
        let thresholds = self.thresholds();
        let mut selected = self.global_triggers;
        let mut platform = if is_wayland {
            self.wayland_triggers
        } else {
            self.x11_triggers
        };
        selected.append(&mut platform);
        let ghost entries = entries_of(selected@);
        assert(entries == self@.selected(is_wayland));
        assert(thresholds == self@.thresholds);
        assert(entries.take(0) == Seq::<Entry<T>>::empty());
        let mut triggers: Vec<R> = Vec::new();
        let mut actions: Vec<Action<D>> = Vec::new();
        for entry in it: selected
            invariant
                input_device.wf(),
                entries == entries_of(it.seq()),
                accepts(entries, thresholds, make_trigger),
                realizes(
                    entries.take(it.index() as int),
                    thresholds,
                    make_trigger,
                    triggers@,
                    actions@,
                ),
                if uses_keyboard(entries.take(it.index() as int)) {
                    input_device.opened() matches Some(handle) && all_type_on(actions@, handle)
                        && old(input_device).after_get(*input_device, handle)
                } else {
                    *input_device == *old(input_device)
                },
        {
            let ghost done = it.index() as int;
            let ConfigTrigger { trigger, action } = entry;
            let action = action.make(input_device);
            let trigger = make_trigger(trigger, thresholds);
            triggers.push(trigger);
            actions.push(action);
            proof {
                assert(entries.take(done + 1) == entries.take(done).push(entries[done]));
                lemma_uses_keyboard_push(entries.take(done), entries[done]);
            }
        }
        assert(entries.take(entries.len() as int) == entries);
        (triggers, actions)
    }
}

} // verus!
