//! The cached list of a channel's pinned messages, kept up to date as messages
//! are pinned and unpinned (each pin known here by its message's identifier).
use vstd::prelude::*;
use crate::ids::{lemma_others_contains, others, others_than};

verus! {

/// The cached pins after a message is pinned: appended to the cached list, or
/// the only entry when nothing was cached.
pub open spec fn pins_after_add_spec(cached: Option<Seq<u128>>, message_id: u128) -> Seq<u128> {
    match cached {
        Some(pins) => pins.push(message_id),
        None => seq![message_id],
    }
}

/// The cached pins after a message is pinned.
pub fn pins_after_add(cached: Option<Vec<u128>>, message_id: u128) -> (v: Vec<u128>)
    ensures
        v@ == pins_after_add_spec(
            match cached {
                Some(p) => Some(p@),
                None => None::<Seq<u128>>,
            },
            message_id,
        ),
{
    match cached {
        Some(mut pins) => {
            pins.push(message_id);
            pins
        },
        None => {
            let mut v: Vec<u128> = Vec::new();
            v.push(message_id);
            v
        },
    }
}

/// The cached pins after a message is unpinned: every entry of that message
/// dropped, the others kept in order. Nothing is cached when nothing was.
pub fn pins_after_remove(cached: Option<Vec<u128>>, message_id: u128) -> (r: Option<Vec<u128>>)
    ensures
        match cached {
            Some(p) => r matches Some(v) && v@ == others(p@, message_id),
            None => r is None,
        },
{
    match cached {
        Some(pins) => Some(others_than(&pins, message_id)),
        None => None,
    }
}

/// After a message is unpinned, the cached pins hold no entry of it, and every
/// other pin is still there.
pub proof fn law_unpinned_message_is_gone(pins: Seq<u128>, message_id: u128, other: u128)
    requires
        other != message_id,
    ensures
        !others(pins, message_id).contains(message_id),
        pins.contains(other) ==> others(pins, message_id).contains(other),
{
    lemma_others_contains(pins, message_id, message_id);
    lemma_others_contains(pins, message_id, other);
}

/// Pinning a message and then unpinning it leaves the cache as unpinning alone does.
pub proof fn law_pin_then_unpin(pins: Seq<u128>, message_id: u128)
    ensures
        others(pins_after_add_spec(Some(pins), message_id), message_id) == others(pins, message_id),
{
    reveal(Seq::filter);
    assert(pins.push(message_id).drop_last() == pins);
}

} // verus!
