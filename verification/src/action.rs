//! Actions: what the document declares, and what the dispatcher runs.

use crate::device::SharedDevice;
use crate::key::{spec_unwrap_keys, unwrap_keys, ConfigKey};
use std::rc::Rc;
use uinput::event::keyboard::Key;
use vstd::prelude::*;

verus! {

/// What an action does, apart from the device it may do it on.
pub enum Effect {
    /// Hold `modifiers`, then press the keys of `sequence` in order.
    KeyboardInput { modifiers: Seq<Key>, sequence: Seq<Key> },
    /// Run the program at `path` with `args`.
    ExecuteCommand { path: Seq<char>, args: Seq<Seq<char>> },
    /// Run `code` as a script.
    InlineScript { code: Seq<char> },
}

/// An action as the document declares it.
#[derive(Debug, PartialEq)]
pub enum ConfigAction {
    KeyboardInput { modifiers: Vec<ConfigKey>, sequence: Vec<ConfigKey> },
    ExecuteCommand { path: String, args: Vec<String> },
    InlineScript { code: String },
}

/// An action that the dispatcher can run. A keyboard action holds a handle to
/// the device that it types on; the other two hold no device.
#[derive(Debug)]
pub enum Action<D> {
    KeyboardInput { device: Rc<D>, modifiers: Vec<Key>, sequence: Vec<Key> },
    ExecuteCommand { path: String, args: Vec<String> },
    InlineScript { command: String },
}

impl View for ConfigAction {
    type V = Effect;

    open spec fn view(&self) -> Effect {
        match *self {
            ConfigAction::KeyboardInput { modifiers, sequence } => Effect::KeyboardInput {
                modifiers: spec_unwrap_keys(modifiers@),
                sequence: spec_unwrap_keys(sequence@),
            },
            ConfigAction::ExecuteCommand { path, args } => Effect::ExecuteCommand {
                path: path@,
                args: args.deep_view(),
            },
            ConfigAction::InlineScript { code } => Effect::InlineScript { code: code@ },
        }
    }
}

impl<D> Action<D> {
    /// What the action does.
    pub open spec fn effect(&self) -> Effect {
        match *self {
            Action::KeyboardInput { device, modifiers, sequence } => Effect::KeyboardInput {
                modifiers: modifiers@,
                sequence: sequence@,
            },
            Action::ExecuteCommand { path, args } => Effect::ExecuteCommand {
                path: path@,
                args: args.deep_view(),
            },
            Action::InlineScript { command } => Effect::InlineScript { code: command@ },
        }
    }

    /// The device that the action types on, if it is a keyboard action.
    pub open spec fn device(&self) -> Option<Rc<D>> {
        match *self {
            Action::KeyboardInput { device, modifiers, sequence } => Some(device),
            _ => None,
        }
    }
}

impl ConfigAction {
    /// Whether realizing the action takes a handle to the device.
    pub fn needs_device(&self) -> (needed: bool)
        ensures
            needed == (self@ is KeyboardInput),
    {
        match self {
            ConfigAction::KeyboardInput { .. } => true,
            _ => false,
        }
    }

    /// Realizes the action.
    ///
    /// The realized action does what the declared one says, field for field.
    /// A keyboard action takes a handle from `input_device`, which opens the
    /// device if this is the first to ask; a command or a script leaves
    /// `input_device` as it was.
    pub fn make<D, F: FnOnce() -> Rc<D>>(self, input_device: &mut SharedDevice<D, F>) -> (action:
        Action<D>)
        requires
            old(input_device).wf(),
        ensures
            final(input_device).wf(),
            action.effect() == self@,
            match action.device() {
                Some(handle) => self@ is KeyboardInput && old(input_device).after_get(
                    *final(input_device),
                    handle,
                ),
                None => !(self@ is KeyboardInput) && *final(input_device) == *old(input_device),
            },
    {
        match self {
            ConfigAction::KeyboardInput { modifiers, sequence } => Action::KeyboardInput {
                device: input_device.get(),
                modifiers: unwrap_keys(&modifiers),
                sequence: unwrap_keys(&sequence),
            },
            ConfigAction::ExecuteCommand { path, args } => Action::ExecuteCommand { path, args },
            ConfigAction::InlineScript { code } => Action::InlineScript { command: code },
        }
    }
}

} // verus!
