//! Deleting a component or a material from the library.

use vstd::prelude::*;
use crate::component::Component;
use crate::library::{name_at, material_name_at, Library};

verus! {

/// What a delete confirmation is about.
#[derive(Clone, Copy, Debug, PartialEq, Eq, Structural)]
pub enum DeleteTarget {
    Component,
    Material,
}

/// An index into a list after the element at `removed` has left it: indices
/// at or past `removed` move down by one, except that 0 stays 0.
pub open spec fn shifted(id: int, removed: int) -> int {
    if id >= removed && id > 0 {
        id - 1
    } else {
        id
    }
}

/// A component whose material index is moved as `shifted` says.
pub open spec fn with_material_shifted<F>(c: Component<F>, removed: int) -> Component<F> {
    Component { material_id: shifted(c.material_id as int, removed) as usize, ..c }
}

impl DeleteTarget {
    /// The key under which the index awaiting confirmation is kept.
    pub fn pending_key(&self) -> (r: &'static str)
        ensures
            r@ == match self {
                DeleteTarget::Component => "pending_delete_component"@,
                DeleteTarget::Material => "pending_delete_material"@,
            },
    {
        match self {
            DeleteTarget::Component => "pending_delete_component",
            DeleteTarget::Material => "pending_delete_material",
        }
    }

    /// The key of the confirmation dialog.
    pub fn modal_key(&self) -> (r: &'static str)
        ensures
            r@ == match self {
                DeleteTarget::Component => "delete_component_confirm"@,
                DeleteTarget::Material => "delete_material_confirm"@,
            },
    {
        match self {
            DeleteTarget::Component => "delete_component_confirm",
            DeleteTarget::Material => "delete_material_confirm",
        }
    }

    /// The name of the item at `idx`, or the empty text when there is none.
    pub fn get_name<F, P>(&self, lib: &Library<F, P>, idx: usize) -> (r: String)
        ensures
            r@ == match self {
                DeleteTarget::Component => match name_at(lib.components@, idx as int) {
                    Some(n) => n,
                    None => Seq::empty(),
                },
                DeleteTarget::Material => match material_name_at(lib.materials@, idx as int) {
                    Some(n) => n,
                    None => Seq::empty(),
                },
            },
    {
        match self {
            DeleteTarget::Component => {
                if idx < lib.components.len() {
                    lib.components[idx].name.clone()
                } else {
                    String::new()
                }
            },
            DeleteTarget::Material => {
                if idx < lib.materials.len() {
                    lib.materials[idx].name.clone()
                } else {
                    String::new()
                }
            },
        }
    }

    /// Removes the item at `idx` and moves the indices that pointed past it.
    pub fn perform_delete<F, P>(&self, lib: &mut Library<F, P>, idx: usize)
        requires
            match self {
                DeleteTarget::Component => idx < old(lib).components.len(),
                DeleteTarget::Material => idx < old(lib).materials.len(),
            },
        ensures
            match self {
                DeleteTarget::Component => {
                    &&& final(lib).components@ == old(lib).components@.remove(idx as int)
                    &&& final(lib).hub_id == shifted(old(lib).hub_id as int, idx as int)
                    &&& final(lib).shaft_id == shifted(old(lib).shaft_id as int, idx as int)
                    &&& final(lib).materials@ == old(lib).materials@
                },
                DeleteTarget::Material => {
                    &&& final(lib).materials@ == old(lib).materials@.remove(idx as int)
                    &&& final(lib).components@.len() == old(lib).components@.len()
                    &&& forall|i: int|
                        0 <= i < old(lib).components@.len() ==> #[trigger] final(lib).components@[i]
                            == with_material_shifted(old(lib).components@[i], idx as int)
                    &&& final(lib).hub_id == old(lib).hub_id
                    &&& final(lib).shaft_id == old(lib).shaft_id
                },
            },
    {
        match self {
            DeleteTarget::Component => {
                lib.components.remove(idx);
                if lib.hub_id >= idx && lib.hub_id > 0 {
                    lib.hub_id -= 1;
                }
                if lib.shaft_id >= idx && lib.shaft_id > 0 {
                    lib.shaft_id -= 1;
                }
            },
            DeleteTarget::Material => {
                lib.materials.remove(idx);
                let n = lib.components.len();
                let mut i: usize = 0;
                while i < n
                    invariant
                        n == old(lib).components@.len(),
                        lib.components@.len() == n,
                        lib.materials@ == old(lib).materials@.remove(idx as int),
                        lib.hub_id == old(lib).hub_id,
                        lib.shaft_id == old(lib).shaft_id,
                        i <= n,
                        forall|j: int| 0 <= j < i ==> #[trigger] lib.components@[j]
                            == with_material_shifted(old(lib).components@[j], idx as int),
                        forall|j: int| i <= j < n ==> #[trigger] lib.components@[j] == old(lib).components@[j],
                    decreases n - i,
                {
                    let id = lib.components[i].material_id;
                    if id >= idx && id > 0 {
                        lib.components[i].material_id = id - 1;
                    }
                    i += 1;
                }
            },
        }
    }
}

/// Deleting an item other than the one an index selects leaves that index
/// selecting the same item.
pub proof fn lemma_delete_keeps_selection<T>(items: Seq<T>, id: int, removed: int)
    requires
        0 <= removed < items.len(),
        0 <= id < items.len(),
        id != removed,
    ensures
        0 <= shifted(id, removed) < items.len() - 1,
        items.remove(removed)[shifted(id, removed)] == items[id],
{
}

/// An index that was in range stays in range after a deletion, as long as
/// an item is left.
pub proof fn lemma_delete_keeps_index_valid(len: int, id: int, removed: int)
    requires
        0 <= removed < len,
        0 <= id < len,
        len >= 2,
    ensures
        0 <= shifted(id, removed) < len - 1,
{
}

/// What a warning dialog decides in one frame: `Some(false)` when it is
/// cancelled (the Cancel button or Escape), otherwise `Some(true)` when it is
/// confirmed (the confirm button or Enter), and `None` while it stays open.
/// Cancelling wins over confirming.
pub fn warning_decision(confirm_clicked: bool, enter_pressed: bool, cancel_clicked: bool, esc_pressed: bool) -> (r: Option<bool>)
    ensures
        r == if cancel_clicked || esc_pressed {
            Some(false)
        } else if confirm_clicked || enter_pressed {
            Some(true)
        } else {
            None::<bool>
        },
{
    let mut result = None;
    if confirm_clicked || enter_pressed {
        result = Some(true);
    }
    if cancel_clicked || esc_pressed {
        result = Some(false);
    }
    result
}

} // verus!
