//! How the focus moves.
//!
//! A record form moves its focus up and down over its fields, a union form
//! left and right over its variants. Neither wraps around: at either end the
//! key is left unused.

use vstd::prelude::*;
use crate::key::Key;

verus! {

/// Where the focus of a record with `count` fields goes from `selected` on
/// `key`: down by one unless it is on the last field, up by one unless it is
/// on the first. `None` means that the key moves nothing.
pub open spec fn record_step(selected: usize, count: usize, key: Key) -> Option<usize> {
    match key {
        Key::Down => if selected + 1 < count {
            Some((selected + 1) as usize)
        } else {
            None
        },
        Key::Up => if selected > 0 {
            Some((selected - 1) as usize)
        } else {
            None
        },
        _ => None,
    }
}

/// Where the selection of a union with `count` variants goes from `selected`
/// on `key`: right by one unless it is on the last variant, left by one unless
/// it is on the first. `None` means that the key moves nothing.
pub open spec fn variant_step(selected: usize, count: usize, key: Key) -> Option<usize> {
    match key {
        Key::Left => if selected > 0 {
            Some((selected - 1) as usize)
        } else {
            None
        },
        Key::Right => if selected + 1 < count {
            Some((selected + 1) as usize)
        } else {
            None
        },
        _ => None,
    }
}

/// The focus of a record after a key that its focused field left unused.
pub open spec fn record_moved(selected: usize, count: usize, key: Key) -> usize {
    match record_step(selected, count, key) {
        Some(next) => next,
        None => selected,
    }
}

/// The selection of a union after a key that its selected variant left
/// unused.
pub open spec fn variant_moved(selected: usize, count: usize, key: Key) -> usize {
    match variant_step(selected, count, key) {
        Some(next) => next,
        None => selected,
    }
}

/// The focus of a record after a run of keys, none of which a field used.
pub open spec fn record_run(selected: usize, count: usize, keys: Seq<Key>) -> usize
    decreases keys.len(),
{
    if keys.len() == 0 {
        selected
    } else {
        record_moved(record_run(selected, count, keys.drop_last()), count, keys.last())
    }
}

/// The selection of a union after a run of keys, none of which a variant
/// used.
pub open spec fn variant_run(selected: usize, count: usize, keys: Seq<Key>) -> usize
    decreases keys.len(),
{
    if keys.len() == 0 {
        selected
    } else {
        variant_moved(variant_run(selected, count, keys.drop_last()), count, keys.last())
    }
}

/// Settles a key in a record form, once the focused field has seen it.
/// A key the field used is handled and moves nothing. Any other key moves
/// the focus where `record_step` says, and is handled exactly if it moved.
pub fn settle_record(selected: &mut usize, count: usize, child_handled: bool, key: Key) -> (handled:
    bool)
    ensures
        child_handled ==> handled && *final(selected) == *old(selected),
        !child_handled ==> *final(selected) == record_moved(*old(selected), count, key) && handled
            == record_step(*old(selected), count, key) is Some,
{
    if child_handled {
        return true;
    }
    match key {
        Key::Down => {
            if count > 0 && *selected < count - 1 {
                *selected = *selected + 1;
                true
            } else {
                false
            }
        },
        Key::Up => {
            if *selected > 0 {
                *selected = *selected - 1;
                true
            } else {
                false
            }
        },
        _ => false,
    }
}

/// Settles a key in a union form, once the selected variant has seen it.
/// A key the variant used is handled and moves nothing. Any other key moves
/// the selection where `variant_step` says, and is handled exactly if it
/// moved.
pub fn settle_variant(selected: &mut usize, count: usize, child_handled: bool, key: Key) -> (handled:
    bool)
    ensures
        child_handled ==> handled && *final(selected) == *old(selected),
        !child_handled ==> *final(selected) == variant_moved(*old(selected), count, key) && handled
            == variant_step(*old(selected), count, key) is Some,
{
    if child_handled {
        return true;
    }
    match key {
        Key::Left => {
            if *selected > 0 {
                *selected = *selected - 1;
                true
            } else {
                false
            }
        },
        Key::Right => {
            if count > 0 && *selected < count - 1 {
                *selected = *selected + 1;
                true
            } else {
                false
            }
        },
        _ => false,
    }
}

/// A step of a record's focus stays on a field, and never stays in place.
pub proof fn lemma_record_step_in_bounds(selected: usize, count: usize, key: Key)
    requires
        selected < count,
    ensures
        record_moved(selected, count, key) < count,
        record_step(selected, count, key) matches Some(next) ==> next < count && next != selected,
{
}

/// A step of a union's selection stays on a variant, and never stays in
/// place.
pub proof fn lemma_variant_step_in_bounds(selected: usize, count: usize, key: Key)
    requires
        selected < count,
    ensures
        variant_moved(selected, count, key) < count,
        variant_step(selected, count, key) matches Some(next) ==> next < count && next != selected,
{
}

/// Up on the first field and Down on the last move nothing.
pub proof fn lemma_record_ends_hold(count: usize)
    requires
        count > 0,
    ensures
        record_step(0, count, Key::Up) is None,
        record_step((count - 1) as usize, count, Key::Down) is None,
{
}

/// Left on the first variant and Right on the last move nothing.
pub proof fn lemma_variant_ends_hold(count: usize)
    requires
        count > 0,
    ensures
        variant_step(0, count, Key::Left) is None,
        variant_step((count - 1) as usize, count, Key::Right) is None,
{
}

/// After any run of keys the focus of a record is on one of its fields.
pub proof fn lemma_record_run_in_bounds(selected: usize, count: usize, keys: Seq<Key>)
    requires
        selected < count,
    ensures
        record_run(selected, count, keys) < count,
    decreases keys.len(),
{
    if keys.len() > 0 {
        lemma_record_run_in_bounds(selected, count, keys.drop_last());
        lemma_record_step_in_bounds(
            record_run(selected, count, keys.drop_last()),
            count,
            keys.last(),
        );
    }
}

/// After any run of keys the selection of a union is on one of its variants.
pub proof fn lemma_variant_run_in_bounds(selected: usize, count: usize, keys: Seq<Key>)
    requires
        selected < count,
    ensures
        variant_run(selected, count, keys) < count,
    decreases keys.len(),
{
    if keys.len() > 0 {
        lemma_variant_run_in_bounds(selected, count, keys.drop_last());
        lemma_variant_step_in_bounds(
            variant_run(selected, count, keys.drop_last()),
            count,
            keys.last(),
        );
    }
}

} // verus!
