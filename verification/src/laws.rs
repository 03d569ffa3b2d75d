//! Laws that follow from the contracts of the library, stated over its
//! mathematical values.

use crate::action::Action;
use crate::config::{all_type_on, realizes, uses_keyboard, Document, Entry};
use crate::defaults::{if_absent, Draft, Field};
use crate::device::SharedDevice;
use crate::threshold::{spec_default_thresholds, Thresholds};
use std::rc::Rc;
use vstd::prelude::*;

verus! {

/// A document that leaves out every optional field resolves to the
/// defaults: both distances one hundred, the default pinch scale and
/// rotation angle, and three empty trigger lists; and all seven fields are
/// reported as defaulted, in the order of their declaration.
pub proof fn lemma_empty_draft_resolves_to_defaults<T>(draft: Draft<T>)
    requires
        draft.swipe_distance is None,
        draft.shear_distance is None,
        draft.pinch_distance is None,
        draft.rotation_distance is None,
        draft.global_triggers is None,
        draft.x11_triggers is None,
        draft.wayland_triggers is None,
    ensures
        draft.resolve() == (Document::<T> {
            thresholds: spec_default_thresholds(),
            global_triggers: Seq::empty(),
            x11_triggers: Seq::empty(),
            wayland_triggers: Seq::empty(),
        }),
        draft.defaulted() == seq![
            Field::SwipeDistance,
            Field::ShearDistance,
            Field::PinchDistance,
            Field::RotationDistance,
            Field::GlobalTriggers,
            Field::X11Triggers,
            Field::WaylandTriggers,
        ],
{
}

/// A value occurs in a concatenation exactly if it occurs in one of the two
/// parts.
proof fn lemma_concat_contains<A>(left: Seq<A>, right: Seq<A>, value: A)
    ensures
        (left + right).contains(value) <==> left.contains(value) || right.contains(value),
{
    let both = left + right;
    if left.contains(value) {
        let i = choose|i: int| 0 <= i < left.len() && left[i] == value;
        assert(both[i] == value);
    }
    if right.contains(value) {
        let j = choose|j: int| 0 <= j < right.len() && right[j] == value;
        assert(both[left.len() + j] == value);
    }
    if both.contains(value) {
        let k = choose|k: int| 0 <= k < both.len() && both[k] == value;
        if k < left.len() {
            assert(left[k] == value);
        } else {
            assert(right[k - left.len()] == value);
        }
    }
}

/// A field is reported as defaulted exactly if the document leaves it out.
pub proof fn lemma_defaulted_are_the_absent<T>(draft: Draft<T>, field: Field)
    ensures
        draft.defaulted().contains(field) <==> match field {
            Field::SwipeDistance => draft.swipe_distance is None,
            Field::ShearDistance => draft.shear_distance is None,
            Field::PinchDistance => draft.pinch_distance is None,
            Field::RotationDistance => draft.rotation_distance is None,
            Field::GlobalTriggers => draft.global_triggers is None,
            Field::X11Triggers => draft.x11_triggers is None,
            Field::WaylandTriggers => draft.wayland_triggers is None,
        },
{
    let swipe = if_absent(draft.swipe_distance is None, Field::SwipeDistance);
    let shear = if_absent(draft.shear_distance is None, Field::ShearDistance);
    let pinch = if_absent(draft.pinch_distance is None, Field::PinchDistance);
    let rotation = if_absent(draft.rotation_distance is None, Field::RotationDistance);
    let global = if_absent(draft.global_triggers is None, Field::GlobalTriggers);
    let x11 = if_absent(draft.x11_triggers is None, Field::X11Triggers);
    let wayland = if_absent(draft.wayland_triggers is None, Field::WaylandTriggers);
    lemma_if_absent_contains(draft.swipe_distance is None, Field::SwipeDistance, field);
    lemma_if_absent_contains(draft.shear_distance is None, Field::ShearDistance, field);
    lemma_if_absent_contains(draft.pinch_distance is None, Field::PinchDistance, field);
    lemma_if_absent_contains(draft.rotation_distance is None, Field::RotationDistance, field);
    lemma_if_absent_contains(draft.global_triggers is None, Field::GlobalTriggers, field);
    lemma_if_absent_contains(draft.x11_triggers is None, Field::X11Triggers, field);
    lemma_if_absent_contains(draft.wayland_triggers is None, Field::WaylandTriggers, field);
    lemma_concat_contains(swipe, shear, field);
    lemma_concat_contains(swipe + shear, pinch, field);
    lemma_concat_contains(swipe + shear + pinch, rotation, field);
    lemma_concat_contains(swipe + shear + pinch + rotation, global, field);
    lemma_concat_contains(swipe + shear + pinch + rotation + global, x11, field);
    lemma_concat_contains(swipe + shear + pinch + rotation + global + x11, wayland, field);
}

/// The one-or-none list of a field holds that field if it is absent, and
/// nothing else.
proof fn lemma_if_absent_contains(absent: bool, field: Field, value: Field)
    ensures
        if_absent(absent, field).contains(value) <==> absent && value == field,
{
    if absent {
        assert(if_absent(absent, field)[0] == field);
    }
}

/// A field that the document gives is kept as given.
pub proof fn lemma_given_fields_are_kept<T>(draft: Draft<T>)
    ensures
        draft.swipe_distance matches Some(distance) ==> draft.resolve().thresholds.swipe_distance
            == distance,
        draft.shear_distance matches Some(distance) ==> draft.resolve().thresholds.shear_distance
            == distance,
        draft.pinch_distance matches Some(scale) ==> draft.resolve().thresholds.pinch_distance
            == scale,
        draft.rotation_distance matches Some(angle) ==> draft.resolve().thresholds.rotation_distance
            == angle,
        draft.global_triggers matches Some(list) ==> draft.resolve().global_triggers == list,
        draft.x11_triggers matches Some(list) ==> draft.resolve().x11_triggers == list,
        draft.wayland_triggers matches Some(list) ==> draft.resolve().wayland_triggers == list,
{
}

/// On wayland the entries in force are the global list followed by the
/// wayland list; elsewhere, the global list followed by the x11 list. Their
/// number is the sum of the two lengths, and each entry keeps its place
/// within its list.
pub proof fn lemma_selected_is_concatenation<T>(document: Document<T>, is_wayland: bool)
    ensures
        ({
            let platform = if is_wayland {
                document.wayland_triggers
            } else {
                document.x11_triggers
            };
            let selected = document.selected(is_wayland);
            &&& selected.len() == document.global_triggers.len() + platform.len()
            &&& forall|i: int|
                0 <= i < document.global_triggers.len() ==> #[trigger] selected[i]
                    == document.global_triggers[i]
            &&& forall|j: int|
                0 <= j < platform.len() ==> #[trigger] selected[document.global_triggers.len() + j]
                    == platform[j]
        }),
{
}

/// The list of the other platform never contributes: two documents that
/// agree on the global list and on the list of the platform in use have the
/// same entries in force, whatever their lists for the other platform hold.
pub proof fn lemma_unselected_list_is_ignored<T>(
    first: Document<T>,
    second: Document<T>,
    is_wayland: bool,
)
    requires
        first.global_triggers == second.global_triggers,
        is_wayland ==> first.wayland_triggers == second.wayland_triggers,
        !is_wayland ==> first.x11_triggers == second.x11_triggers,
    ensures
        first.selected(is_wayland) == second.selected(is_wayland),
{
}

/// A realization of a document on one platform has as many triggers as
/// actions, one pair for each global entry and then one for each entry of
/// that platform: pair `i` realizes entry `i` of the concatenation, with the
/// document's own thresholds.
pub proof fn lemma_realization_is_index_aligned<T, R, D, FT: Fn(T, Thresholds) -> R>(
    document: Document<T>,
    is_wayland: bool,
    make_trigger: FT,
    triggers: Seq<R>,
    actions: Seq<Action<D>>,
)
    requires
        realizes(
            document.selected(is_wayland),
            document.thresholds,
            make_trigger,
            triggers,
            actions,
        ),
    ensures
        ({
            let platform = if is_wayland {
                document.wayland_triggers
            } else {
                document.x11_triggers
            };
            let global = document.global_triggers;
            &&& triggers.len() == actions.len()
            &&& triggers.len() == global.len() + platform.len()
            &&& forall|i: int|
                0 <= i < global.len() ==> make_trigger.ensures(
                    (global[i].trigger, document.thresholds),
                    #[trigger] triggers[i],
                )
            &&& forall|i: int|
                0 <= i < global.len() ==> (#[trigger] actions[i]).effect() == global[i].action
            &&& forall|j: int|
                0 <= j < platform.len() ==> make_trigger.ensures(
                    (platform[j].trigger, document.thresholds),
                    #[trigger] triggers[global.len() + j],
                )
            &&& forall|j: int|
                0 <= j < platform.len() ==> (#[trigger] actions[global.len() + j]).effect()
                    == platform[j].action
        }),
{
    let selected = document.selected(is_wayland);
    let global = document.global_triggers;
    let platform = if is_wayland {
        document.wayland_triggers
    } else {
        document.x11_triggers
    };
    assert forall|j: int| 0 <= j < platform.len() implies make_trigger.ensures(
        (platform[j].trigger, document.thresholds),
        #[trigger] triggers[global.len() + j],
    ) by {
        assert(selected[global.len() + j] == platform[j]);
    }
    assert forall|j: int| 0 <= j < platform.len() implies (#[trigger] actions[global.len()
        + j]).effect() == platform[j].action by {
        assert(selected[global.len() + j] == platform[j]);
    }
}

/// An action holds a device exactly if it is a keyboard action, so the
/// actions that realize entries hold a device at the indices of the
/// keyboard entries and nowhere else.
pub proof fn lemma_device_held_by_keyboard_actions_only<T, R, D, FT: Fn(T, Thresholds) -> R>(
    entries: Seq<Entry<T>>,
    thresholds: Thresholds,
    make_trigger: FT,
    triggers: Seq<R>,
    actions: Seq<Action<D>>,
)
    requires
        realizes(entries, thresholds, make_trigger, triggers, actions),
    ensures
        forall|i: int|
            0 <= i < entries.len() ==> ((#[trigger] actions[i]).device() is Some
                <==> entries[i].action is KeyboardInput),
        !uses_keyboard(entries) ==> forall|i: int|
            0 <= i < actions.len() ==> (#[trigger] actions[i]).device() is None,
{
    assert forall|i: int| 0 <= i < entries.len() implies ((#[trigger] actions[i]).device() is Some
        <==> entries[i].action is KeyboardInput) by {
        assert(actions[i].effect() == entries[i].action);
    }
}

/// Any two keyboard actions of one realization type on the identical
/// device.
pub proof fn lemma_keyboard_actions_share_one_device<D>(
    actions: Seq<Action<D>>,
    handle: Rc<D>,
    i: int,
    j: int,
)
    requires
        all_type_on(actions, handle),
        0 <= i < actions.len(),
        0 <= j < actions.len(),
        actions[i].device() is Some,
        actions[j].device() is Some,
    ensures
        actions[i].device() == actions[j].device(),
        actions[i].device() == Some(handle),
{
}

/// The device is opened at most once: a handle taken from a device that is
/// already open is the handle that it holds, and taking it changes nothing.
pub proof fn lemma_device_opens_once<D, F: FnOnce() -> Rc<D>>(
    before: SharedDevice<D, F>,
    between: SharedDevice<D, F>,
    after: SharedDevice<D, F>,
    first: Rc<D>,
    second: Rc<D>,
)
    requires
        before.after_get(between, first),
        between.after_get(after, second),
    ensures
        second == first,
        after == between,
        before.after_get(after, second),
{
}

} // verus!
