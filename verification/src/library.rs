//! The library of components and materials, and which components form the
//! hub and the shaft of the fit.

use vstd::prelude::*;
use crate::component::Component;
use crate::material::Material;

verus! {

/// Components and materials, with the indices of the hub and the shaft.
pub struct Library<F, P> {
    pub hub_id: usize,
    pub shaft_id: usize,
    pub components: Vec<Component<F>>,
    pub materials: Vec<Material<P>>,
}

/// The element at `i`, or nothing when `i` is out of range.
pub open spec fn at<T>(s: Seq<T>, i: int) -> Option<T> {
    if 0 <= i < s.len() {
        Some(s[i])
    } else {
        None
    }
}

/// The value an optional reference points to.
pub open spec fn deref_opt<T>(r: Option<&T>) -> Option<T> {
    match r {
        Some(x) => Some(*x),
        None => None,
    }
}

/// The name of the element at `i`, where there is one.
pub open spec fn name_at<F>(s: Seq<Component<F>>, i: int) -> Option<Seq<char>> {
    if 0 <= i < s.len() {
        Some(s[i].name@)
    } else {
        None
    }
}

/// The name of the material at `i`, where there is one.
pub open spec fn material_name_at<P>(s: Seq<Material<P>>, i: int) -> Option<Seq<char>> {
    if 0 <= i < s.len() {
        Some(s[i].name@)
    } else {
        None
    }
}

/// The text an optional string slice holds.
pub open spec fn text_of(r: Option<&str>) -> Option<Seq<char>> {
    match r {
        Some(s) => Some(s@),
        None => None,
    }
}

impl<F, P> Library<F, P> {
    /// A library of a hub, a shaft and a list of materials; the hub comes
    /// first and the shaft second.
    pub fn with_items(hub: Component<F>, shaft: Component<F>, materials: Vec<Material<P>>) -> (r: Self)
        ensures
            r.hub_id == 0,
            r.shaft_id == 1,
            r.components@ == seq![hub, shaft],
            r.materials@ == materials@,
    {
        let mut components = Vec::new();
        components.push(hub);
        components.push(shaft);
        Self { hub_id: 0, shaft_id: 1, components, materials }
    }

    pub fn get_hub(&self) -> (r: Option<&Component<F>>)
        ensures
            deref_opt(r) == at(self.components@, self.hub_id as int),
    {
        if self.hub_id < self.components.len() {
            Some(&self.components[self.hub_id])
        } else {
            None
        }
    }

    pub fn get_shaft(&self) -> (r: Option<&Component<F>>)
        ensures
            deref_opt(r) == at(self.components@, self.shaft_id as int),
    {
        if self.shaft_id < self.components.len() {
            Some(&self.components[self.shaft_id])
        } else {
            None
        }
    }

    pub fn get_hub_mut(&mut self) -> (r: Option<&mut Component<F>>)
        ensures
            final(self).hub_id == old(self).hub_id,
            final(self).shaft_id == old(self).shaft_id,
            final(self).materials == old(self).materials,
            match r {
                Some(c) => {
                    &&& old(self).hub_id < old(self).components.len()
                    &&& *c == old(self).components@[old(self).hub_id as int]
                    &&& final(self).components@ == old(self).components@.update(
                        old(self).hub_id as int,
                        *final(c),
                    )
                },
                None => {
                    &&& old(self).hub_id >= old(self).components.len()
                    &&& final(self).components@ == old(self).components@
                },
            },
    {
        if self.hub_id < self.components.len() {
            Some(&mut self.components[self.hub_id])
        } else {
            None
        }
    }

    pub fn get_shaft_mut(&mut self) -> (r: Option<&mut Component<F>>)
        ensures
            final(self).hub_id == old(self).hub_id,
            final(self).shaft_id == old(self).shaft_id,
            final(self).materials == old(self).materials,
            match r {
                Some(c) => {
                    &&& old(self).shaft_id < old(self).components.len()
                    &&& *c == old(self).components@[old(self).shaft_id as int]
                    &&& final(self).components@ == old(self).components@.update(
                        old(self).shaft_id as int,
                        *final(c),
                    )
                },
                None => {
                    &&& old(self).shaft_id >= old(self).components.len()
                    &&& final(self).components@ == old(self).components@
                },
            },
    {
        if self.shaft_id < self.components.len() {
            Some(&mut self.components[self.shaft_id])
        } else {
            None
        }
    }

    pub fn get_hub_name_mut(&mut self) -> (r: Option<&mut String>)
        ensures
            final(self).hub_id == old(self).hub_id,
            final(self).shaft_id == old(self).shaft_id,
            final(self).materials == old(self).materials,
            match r {
                Some(n) => {
                    &&& old(self).hub_id < old(self).components.len()
                    &&& *n == old(self).components@[old(self).hub_id as int].name
                    &&& final(self).components@ == old(self).components@.update(
                        old(self).hub_id as int,
                        Component { name: *final(n), ..old(self).components@[old(self).hub_id as int] },
                    )
                },
                None => {
                    &&& old(self).hub_id >= old(self).components.len()
                    &&& final(self).components@ == old(self).components@
                },
            },
    {
        if self.hub_id < self.components.len() {
            Some(&mut self.components[self.hub_id].name)
        } else {
            None
        }
    }

    pub fn get_shaft_name_mut(&mut self) -> (r: Option<&mut String>)
        ensures
            final(self).hub_id == old(self).hub_id,
            final(self).shaft_id == old(self).shaft_id,
            final(self).materials == old(self).materials,
            match r {
                Some(n) => {
                    &&& old(self).shaft_id < old(self).components.len()
                    &&& *n == old(self).components@[old(self).shaft_id as int].name
                    &&& final(self).components@ == old(self).components@.update(
                        old(self).shaft_id as int,
                        Component { name: *final(n), ..old(self).components@[old(self).shaft_id as int] },
                    )
                },
                None => {
                    &&& old(self).shaft_id >= old(self).components.len()
                    &&& final(self).components@ == old(self).components@
                },
            },
    {
        if self.shaft_id < self.components.len() {
            Some(&mut self.components[self.shaft_id].name)
        } else {
            None
        }
    }

    pub fn get_material_mut(&mut self, id: usize) -> (r: Option<&mut Material<P>>)
        ensures
            final(self).hub_id == old(self).hub_id,
            final(self).shaft_id == old(self).shaft_id,
            final(self).components == old(self).components,
            match r {
                Some(m) => {
                    &&& id < old(self).materials.len()
                    &&& *m == old(self).materials@[id as int]
                    &&& final(self).materials@ == old(self).materials@.update(id as int, *final(m))
                },
                None => {
                    &&& id >= old(self).materials.len()
                    &&& final(self).materials@ == old(self).materials@
                },
            },
    {
        if id < self.materials.len() {
            Some(&mut self.materials[id])
        } else {
            None
        }
    }

    pub fn get_hub_name(&self) -> (r: Option<&str>)
        ensures
            text_of(r) == name_at(self.components@, self.hub_id as int),
    {
        match self.get_hub() {
            Some(hub) => Some(hub.name.as_str()),
            None => None,
        }
    }

    pub fn get_shaft_name(&self) -> (r: Option<&str>)
        ensures
            text_of(r) == name_at(self.components@, self.shaft_id as int),
    {
        match self.get_shaft() {
            Some(shaft) => Some(shaft.name.as_str()),
            None => None,
        }
    }

    pub fn get_material(&self, id: usize) -> (r: Option<&Material<P>>)
        ensures
            deref_opt(r) == at(self.materials@, id as int),
    {
        if id < self.materials.len() {
            Some(&self.materials[id])
        } else {
            None
        }
    }

    pub fn get_hub_material_name(&self) -> (r: Option<&str>)
        ensures
            text_of(r) == match at(self.components@, self.hub_id as int) {
                Some(hub) => material_name_at(self.materials@, hub.material_id as int),
                None => None,
            },
    {
        match self.get_hub() {
            Some(hub) => match self.get_material(hub.material_id) {
                Some(mat) => Some(mat.name.as_str()),
                None => None,
            },
            None => None,
        }
    }

    pub fn get_shaft_material_name(&self) -> (r: Option<&str>)
        ensures
            text_of(r) == match at(self.components@, self.shaft_id as int) {
                Some(shaft) => material_name_at(self.materials@, shaft.material_id as int),
                None => None,
            },
    {
        match self.get_shaft() {
            Some(shaft) => match self.get_material(shaft.material_id) {
                Some(mat) => Some(mat.name.as_str()),
                None => None,
            },
            None => None,
        }
    }
}

} // verus!
