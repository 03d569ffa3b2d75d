//! Keys as the configuration names them.

use uinput::event::keyboard::Key;
use vstd::prelude::*;

verus! {

/// `uinput::event::keyboard::Key`, the key of a virtual keyboard, declared
/// without its variants. The library never looks inside one: it carries keys
/// from the document to the action that presses them.
#[verifier::external_type_specification]
#[verifier::external_body]
pub struct ExKey(Key);

/// One key of a keyboard action, as written in the document.
#[derive(Clone, Copy, Debug, PartialEq, Eq)]
pub struct ConfigKey(pub Key);

/// The keys of `keys`, in order, without their document wrapper.
pub open spec fn spec_unwrap_keys(keys: Seq<ConfigKey>) -> Seq<Key> {
    keys.map_values(|k: ConfigKey| k.0)
}

/// Copies the keys out of their document wrappers, keeping their order.
pub fn unwrap_keys(keys: &Vec<ConfigKey>) -> (out: Vec<Key>)
    ensures
        out@ == spec_unwrap_keys(keys@),
{
    let mut out: Vec<Key> = Vec::new();
    let mut i: usize = 0;
    while i < keys.len()
        invariant
            i <= keys.len(),
            out@ == spec_unwrap_keys(keys@.take(i as int)),
        decreases keys.len() - i,
    {
        out.push(keys[i].0);
        proof {
            assert(keys@.take(i + 1) == keys@.take(i as int).push(keys@[i as int]));
        }
        i += 1;
    }
    proof {
        assert(keys@.take(keys.len() as int) == keys@);
    }
    out
}

} // verus!
