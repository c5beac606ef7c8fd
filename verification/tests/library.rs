use fit_studio::cards::{drop_component, drop_material, CardType, ComponentDrag, MaterialDrag};
use fit_studio::component::{Component, Focus};
use fit_studio::library::Library;
use fit_studio::material::Material;
use fit_studio::modal::{warning_decision, DeleteTarget};

fn component(name: &str, material_id: usize) -> Component<u32> {
    Component {
        name: name.to_string(),
        inner_diameter: 5,
        outer_diameter: 15,
        material_id,
        focus: Focus::Inner,
    }
}

fn material(name: &str) -> Material<u32> {
    Material { name: name.to_string(), properties: 0 }
}

fn library() -> Library<u32, u32> {
    let mut lib = Library::with_items(
        component("Hub", 1),
        component("Shaft", 0),
        vec![material("Steel"), material("Bronze"), material("Titanium")],
    );
    lib.components.push(component("Sleeve", 2));
    lib
}

#[test]
fn getters_follow_the_selection() {
    let lib = library();
    assert_eq!(lib.get_hub_name(), Some("Hub"));
    assert_eq!(lib.get_shaft_name(), Some("Shaft"));
    assert_eq!(lib.get_hub_material_name(), Some("Bronze"));
    assert_eq!(lib.get_shaft_material_name(), Some("Steel"));
    assert!(lib.get_material(3).is_none());
    let mut lib = lib;
    lib.hub_id = 7;
    assert!(lib.get_hub().is_none());
    assert_eq!(lib.get_hub_name(), None);
    assert_eq!(lib.get_hub_material_name(), None);
}

#[test]
fn mutable_getters_edit_in_place() {
    let mut lib = library();
    if let Some(name) = lib.get_shaft_name_mut() {
        name.push_str(" A");
    }
    if let Some(hub) = lib.get_hub_mut() {
        hub.material_id = 2;
    }
    if let Some(m) = lib.get_material_mut(0) {
        m.properties = 9;
    }
    assert_eq!(lib.get_shaft_name(), Some("Shaft A"));
    assert_eq!(lib.get_hub_material_name(), Some("Titanium"));
    assert_eq!(lib.materials[0].properties, 9);
}

#[test]
fn deleting_a_component_keeps_the_selection() {
    let mut lib = library();
    lib.hub_id = 2;
    lib.shaft_id = 1;
    DeleteTarget::Component.perform_delete(&mut lib, 0);
    assert_eq!(lib.components.len(), 2);
    assert_eq!(lib.get_hub_name(), Some("Sleeve"));
    assert_eq!(lib.get_shaft_name(), Some("Shaft"));
}

#[test]
fn deleting_the_hub_selects_the_one_before() {
    let mut lib = library();
    DeleteTarget::Component.perform_delete(&mut lib, 0);
    assert_eq!(lib.hub_id, 0);
    assert_eq!(lib.shaft_id, 0);
    let mut lib = library();
    lib.hub_id = 2;
    DeleteTarget::Component.perform_delete(&mut lib, 2);
    assert_eq!(lib.hub_id, 1);
}

#[test]
fn deleting_a_material_keeps_the_other_assignments() {
    let mut lib = library();
    DeleteTarget::Material.perform_delete(&mut lib, 1);
    assert_eq!(lib.materials.len(), 2);
    assert_eq!(lib.components[0].material_id, 0);
    assert_eq!(lib.components[1].material_id, 0);
    assert_eq!(lib.components[2].material_id, 1);
    assert_eq!(lib.get_shaft_material_name(), Some("Steel"));
    assert_eq!(lib.materials[lib.components[2].material_id].name, "Titanium");
}

#[test]
fn delete_names_and_keys() {
    let lib = library();
    assert_eq!(DeleteTarget::Component.get_name(&lib, 2), "Sleeve");
    assert_eq!(DeleteTarget::Material.get_name(&lib, 1), "Bronze");
    assert_eq!(DeleteTarget::Material.get_name(&lib, 5), "");
    assert_eq!(DeleteTarget::Component.pending_key(), "pending_delete_component");
    assert_eq!(DeleteTarget::Material.modal_key(), "delete_material_confirm");
}

#[test]
fn dropping_a_component_never_makes_hub_and_shaft_the_same() {
    let mut lib = library();
    drop_component(&mut lib, CardType::Hub, ComponentDrag(1));
    assert_eq!((lib.hub_id, lib.shaft_id), (0, 1));
    drop_component(&mut lib, CardType::Hub, ComponentDrag(2));
    assert_eq!((lib.hub_id, lib.shaft_id), (2, 1));
    drop_component(&mut lib, CardType::Shaft, ComponentDrag(2));
    assert_eq!((lib.hub_id, lib.shaft_id), (2, 1));
    drop_component(&mut lib, CardType::Shaft, ComponentDrag(0));
    assert_eq!((lib.hub_id, lib.shaft_id), (2, 0));
}

#[test]
fn dropping_a_material_assigns_it() {
    let mut lib = library();
    drop_material(&mut lib, CardType::Shaft, MaterialDrag(2));
    assert_eq!(lib.get_shaft_material_name(), Some("Titanium"));
    assert_eq!(lib.get_hub_material_name(), Some("Bronze"));
    lib.hub_id = 9;
    drop_material(&mut lib, CardType::Hub, MaterialDrag(0));
    assert_eq!(lib.components[0].material_id, 1);
}

#[test]
fn cancelling_wins_over_confirming() {
    assert_eq!(warning_decision(false, false, false, false), None);
    assert_eq!(warning_decision(true, false, false, false), Some(true));
    assert_eq!(warning_decision(false, true, false, false), Some(true));
    assert_eq!(warning_decision(false, false, true, false), Some(false));
    assert_eq!(warning_decision(false, false, false, true), Some(false));
    assert_eq!(warning_decision(true, true, false, true), Some(false));
}
