//! Dropping a dragged component or material onto the hub or shaft card.

use vstd::prelude::*;
use crate::component::Component;
use crate::library::Library;

verus! {

/// A component being dragged, by its index in the library.
#[derive(Clone, Copy, Debug)]
pub struct ComponentDrag(pub usize);

/// A material being dragged, by its index in the library.
#[derive(Clone, Copy, Debug)]
pub struct MaterialDrag(pub usize);

/// Whether a card shows the hub or the shaft.
#[derive(Clone, Copy, Debug, PartialEq, Eq, Structural)]
pub enum CardType {
    Hub,
    Shaft,
}

/// The hub and shaft indices after component `payload` is dropped on
/// `card`: it becomes that card's component, unless it is already the other
/// one.
pub open spec fn dropped_ids(hub_id: usize, shaft_id: usize, card: CardType, payload: usize) -> (usize, usize) {
    match card {
        CardType::Hub => (if payload != shaft_id { payload } else { hub_id }, shaft_id),
        CardType::Shaft => (hub_id, if payload != hub_id { payload } else { shaft_id }),
    }
}

/// A component dropped on a card becomes that card's hub or shaft, unless it
/// is already the other one.
pub fn drop_component<F, P>(lib: &mut Library<F, P>, card: CardType, payload: ComponentDrag)
    ensures
        final(lib).components == old(lib).components,
        final(lib).materials == old(lib).materials,
        (final(lib).hub_id, final(lib).shaft_id) == dropped_ids(
            old(lib).hub_id,
            old(lib).shaft_id,
            card,
            payload.0,
        ),
{
    match card {
        CardType::Hub => {
            if payload.0 != lib.shaft_id {
                lib.hub_id = payload.0;
            }
        },
        CardType::Shaft => {
            if payload.0 != lib.hub_id {
                lib.shaft_id = payload.0;
            }
        },
    }
}

/// A material dropped on a card becomes the material of that card's
/// component, where the component exists.
pub fn drop_material<F, P>(lib: &mut Library<F, P>, card: CardType, payload: MaterialDrag)
    ensures
        final(lib).hub_id == old(lib).hub_id,
        final(lib).shaft_id == old(lib).shaft_id,
        final(lib).materials == old(lib).materials,
        ({
            let id = match card {
                CardType::Hub => old(lib).hub_id,
                CardType::Shaft => old(lib).shaft_id,
            };
            if id < old(lib).components.len() {
                final(lib).components@ == old(lib).components@.update(
                    id as int,
                    Component { material_id: payload.0, ..old(lib).components@[id as int] },
                )
            } else {
                final(lib).components@ == old(lib).components@
            }
        }),
{
    let id = match card {
        CardType::Hub => lib.hub_id,
        CardType::Shaft => lib.shaft_id,
    };
    if id < lib.components.len() {
        lib.components[id].material_id = payload.0;
    }
}

/// Dropping components never makes the hub and the shaft the same
/// component when they were different.
pub proof fn lemma_drop_keeps_hub_and_shaft_apart(hub_id: usize, shaft_id: usize, card: CardType, payload: usize)
    requires
        hub_id != shaft_id,
    ensures
        dropped_ids(hub_id, shaft_id, card, payload).0 != dropped_ids(hub_id, shaft_id, card, payload).1,
{
}

} // verus!
