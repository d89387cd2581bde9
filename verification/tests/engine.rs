use tengine::draw::{
    plan_model, DrawCall, MeshDraw, CAMERA_BIND_GROUP, MATERIAL_BIND_GROUP, TRANSFORM_BIND_GROUP,
    VERTEX_BUFFER_SLOT,
};
use tengine::ecs::Tecs;
use tengine::singleton::Instance;
use tengine::surface::{plan_surface, preferred_format_index, select_surface_format};
use tengine::{init, run};
use wgpu::{CompositeAlphaMode, PresentMode, TextureFormat};

#[test]
fn slot_starts_empty() {
    let slot: Instance<u32> = Instance::new();
    assert!(!slot.is_initialized());
}

#[test]
fn get_returns_what_was_set() {
    let mut slot: Instance<u32> = Instance::new();
    slot.set_instance(7);
    assert!(slot.is_initialized());
    assert_eq!(*slot.get_instance(), 7);
}

#[test]
fn last_set_wins() {
    let mut slot: Instance<String> = Instance::new();
    slot.set_instance("first".to_string());
    slot.set_instance("second".to_string());
    assert_eq!(slot.get_instance().as_str(), "second");
}

#[test]
fn change_through_get_instance_stays() {
    let mut slot: Instance<u32> = Instance::new();
    slot.set_instance(1);
    *slot.get_instance() += 41;
    assert_eq!(*slot.get_instance(), 42);
}

#[test]
fn tecs_init_installs_empty_world() {
    let mut slot: Instance<Tecs> = Instance::new();
    assert!(!slot.is_initialized());
    Tecs::init(&mut slot);
    assert!(slot.is_initialized());
    assert_eq!(slot.get_instance().get_world().entities().len(), 0);
}

struct Score(#[allow(dead_code)] u32);

impl bevy_ecs::system::Resource for Score {}

#[test]
fn tecs_init_replaces_earlier_world_and_its_resources() {
    let mut slot: Instance<Tecs> = Instance::new();
    Tecs::init(&mut slot);
    slot.get_instance().get_mut_world().insert_resource(Score(3));
    slot.get_instance().get_mut_world().spawn_empty();
    assert_eq!(slot.get_instance().get_world().storages().resources.len(), 1);
    Tecs::init(&mut slot);
    let world = slot.get_instance().get_world();
    assert_eq!(world.entities().len(), 0);
    assert_eq!(world.storages().resources.len(), 0);
    assert_eq!(world.storages().non_send_resources.len(), 0);
    assert!(!world.contains_resource::<Score>());
}

#[test]
fn tecs_init_replaces_earlier_world() {
    let mut slot: Instance<Tecs> = Instance::new();
    Tecs::init(&mut slot);
    slot.get_instance().get_mut_world().spawn_empty();
    assert_eq!(slot.get_instance().get_world().entities().len(), 1);
    Tecs::init(&mut slot);
    assert_eq!(slot.get_instance().get_world().entities().len(), 0);
}

#[test]
fn changes_through_get_mut_world_are_seen_by_get_world() {
    let mut slot: Instance<Tecs> = Instance::new();
    Tecs::init(&mut slot);
    let tecs = slot.get_instance();
    let e = tecs.get_mut_world().spawn_empty().id();
    assert!(tecs.get_world().entities().contains(e));
    assert_eq!(tecs.get_world().entities().len(), 1);
}

#[test]
fn register_and_run_leave_the_world_alone() {
    let mut slot: Instance<Tecs> = Instance::new();
    Tecs::init(&mut slot);
    Tecs::resister_entity();
    Tecs::run();
    assert_eq!(slot.get_instance().get_world().entities().len(), 0);
}

#[test]
fn engine_init_starts_the_ecs() {
    let mut slot: Instance<Tecs> = Instance::new();
    init("demo", 800, 600, &mut slot);
    assert!(slot.is_initialized());
    assert_eq!(slot.get_instance().get_world().entities().len(), 0);
    run();
    assert!(slot.is_initialized());
}

#[test]
fn preferred_index_first_srgb() {
    assert_eq!(preferred_format_index(&vec![false, true, true]), 1);
    assert_eq!(preferred_format_index(&vec![true, false]), 0);
    assert_eq!(preferred_format_index(&vec![false, false, false, true]), 3);
}

#[test]
fn preferred_index_falls_back_to_first() {
    assert_eq!(preferred_format_index(&vec![false]), 0);
    assert_eq!(preferred_format_index(&vec![false, false, false]), 0);
}

#[test]
fn select_prefers_srgb() {
    let formats = vec![
        TextureFormat::Bgra8Unorm,
        TextureFormat::Rgba8Unorm,
        TextureFormat::Rgba8UnormSrgb,
        TextureFormat::Bgra8UnormSrgb,
    ];
    assert_eq!(select_surface_format(&formats), TextureFormat::Rgba8UnormSrgb);
}

#[test]
fn select_without_srgb_takes_first() {
    let formats = vec![TextureFormat::Rgba16Float, TextureFormat::Bgra8Unorm];
    assert_eq!(select_surface_format(&formats), TextureFormat::Rgba16Float);
}

#[test]
fn select_single_srgb() {
    let formats = vec![TextureFormat::Bgra8UnormSrgb];
    assert_eq!(select_surface_format(&formats), TextureFormat::Bgra8UnormSrgb);
}

#[test]
fn plan_surface_takes_first_modes_and_size() {
    let formats = vec![TextureFormat::Bgra8Unorm, TextureFormat::Bgra8UnormSrgb];
    let present = vec![PresentMode::Mailbox, PresentMode::Fifo];
    let alpha = vec![CompositeAlphaMode::PreMultiplied, CompositeAlphaMode::Opaque];
    let plan = plan_surface(&formats, &present, &alpha, 1280, 720);
    assert_eq!(plan.format, TextureFormat::Bgra8UnormSrgb);
    assert_eq!(plan.present_mode, PresentMode::Mailbox);
    assert_eq!(plan.alpha_mode, CompositeAlphaMode::PreMultiplied);
    assert_eq!(plan.width, 1280);
    assert_eq!(plan.height, 720);
}

#[test]
fn plan_model_one_draw_per_mesh_in_order() {
    let meshes = vec![
        MeshDraw { material_index: 1, num_elements: 36 },
        MeshDraw { material_index: 0, num_elements: 6 },
        MeshDraw { material_index: 1, num_elements: 3 },
    ];
    let draws = plan_model(&meshes, 2);
    assert_eq!(
        draws,
        vec![
            DrawCall { mesh: 0, material: 1, index_count: 36 },
            DrawCall { mesh: 1, material: 0, index_count: 6 },
            DrawCall { mesh: 2, material: 1, index_count: 3 },
        ]
    );
}

#[test]
fn plan_model_without_meshes_draws_nothing() {
    let draws = plan_model(&vec![], 0);
    assert!(draws.is_empty());
}

#[test]
fn plan_model_stops_at_first_mesh_without_material() {
    let meshes = vec![
        MeshDraw { material_index: 0, num_elements: 12 },
        MeshDraw { material_index: 1, num_elements: 9 },
        MeshDraw { material_index: 5, num_elements: 6 },
        MeshDraw { material_index: 0, num_elements: 3 },
    ];
    let draws = plan_model(&meshes, 2);
    assert_eq!(
        draws,
        vec![
            DrawCall { mesh: 0, material: 0, index_count: 12 },
            DrawCall { mesh: 1, material: 1, index_count: 9 },
        ]
    );
}

#[test]
fn plan_model_without_materials_draws_nothing() {
    let meshes = vec![MeshDraw { material_index: 0, num_elements: 3 }];
    assert!(plan_model(&meshes, 0).is_empty());
}

#[test]
fn bind_group_slots() {
    assert_eq!(MATERIAL_BIND_GROUP, 0);
    assert_eq!(TRANSFORM_BIND_GROUP, 1);
    assert_eq!(CAMERA_BIND_GROUP, 2);
    assert_eq!(VERTEX_BUFFER_SLOT, 0);
}
