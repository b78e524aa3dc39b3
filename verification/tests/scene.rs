use prepass_demo::assets::Handle;
use prepass_demo::material::AlphaMode;
use prepass_demo::material::Color;
use prepass_demo::world::Mesh;
use prepass_demo::world::World;

fn fresh_world() -> World {
    let mut w = World::new();
    w.register_extended_material_plugin();
    w.setup();
    w.setup_ui();
    w
}

#[test]
fn setup_spawns_expected_scene() {
    let w = fresh_world();

    assert_eq!(w.entities.len(), 4);
    let cameras = w.entities.iter().filter(|e| e.camera).count();
    let lights = w.entities.iter().filter(|e| e.directional_light).count();
    let disks = w.entities.iter().filter(|e| e.mesh.is_some()).count();
    assert_eq!(cameras, 1);
    assert_eq!(lights, 1);
    assert_eq!(disks, 2);

    assert_eq!(w.ui_texts.len(), 1);
    assert_eq!(
        w.ui_texts[0].content,
        "Press space to remove / insert DepthPrepass to camera."
    );
    assert_eq!(w.ui_texts[0].font_size, 72);
    assert_eq!(w.ui_texts[0].color, Color { r: 255, g: 255, b: 255, a: 255 });
}

#[test]
fn setup_creates_each_asset_once() {
    let w = fresh_world();

    assert_eq!(w.meshes.len(), 2);
    assert_eq!(*w.meshes.get(Handle { index: 0 }), Mesh { radius_centis: 300 });
    assert_eq!(*w.meshes.get(Handle { index: 1 }), Mesh { radius_centis: 100 });

    assert_eq!(w.standard_materials.len(), 1);
    let bg = w.standard_materials.get(Handle { index: 0 });
    assert_eq!(bg.base_color, Color { r: 0, g: 0, b: 255, a: 255 });
    assert_eq!(bg.alpha_mode, AlphaMode::Opaque);

    assert_eq!(w.extended_materials.len(), 1);
    let fg = w.extended_materials.get(Handle { index: 0 });
    assert_eq!(fg.base.base_color, Color { r: 255, g: 0, b: 0, a: 255 });
    assert_eq!(fg.base.alpha_mode, AlphaMode::Mask(50));
    assert_eq!(fg.forward_shader, "shaders/extended_material.wgsl");
    assert_eq!(fg.prepass_shader, "shaders/extended_material.wgsl");
}

#[test]
fn setup_places_entities_as_expected() {
    let w = fresh_world();

    let background = &w.entities[0];
    assert_eq!(
        (background.transform.pos.x, background.transform.pos.y, background.transform.pos.z),
        (0, 0, -100)
    );
    assert_eq!(background.standard_material, Some(Handle { index: 0 }));
    assert_eq!(background.extended_material, None);

    let foreground = &w.entities[1];
    assert_eq!(
        (foreground.transform.pos.x, foreground.transform.pos.y, foreground.transform.pos.z),
        (0, 0, 0)
    );
    assert_eq!(foreground.extended_material, Some(Handle { index: 0 }));
    assert_eq!(foreground.standard_material, None);

    let light = &w.entities[2];
    assert!(light.directional_light);
    assert!(light.rotate);
    assert_eq!((light.transform.pos.x, light.transform.pos.y, light.transform.pos.z), (100, 100, 100));
    assert!(light.transform.aim.is_some());

    let camera = &w.entities[3];
    assert!(camera.camera);
    assert_eq!((camera.transform.pos.x, camera.transform.pos.y, camera.transform.pos.z), (-200, 250, 500));
    assert!(camera.transform.aim.is_some());
}

#[test]
fn camera_initially_has_prepass() {
    let w = fresh_world();
    assert!(w.camera_has_prepass());
    assert!(w.entities[3].depth_prepass);
}

#[test]
fn one_press_removes_prepass() {
    let mut w = fresh_world();
    w.toggle_depth_prepass(true);
    assert!(!w.camera_has_prepass());
}

#[test]
fn two_presses_restore_prepass() {
    let mut w = fresh_world();
    w.toggle_depth_prepass(true);
    w.toggle_depth_prepass(true);
    assert!(w.camera_has_prepass());
}

#[test]
fn press_parity_over_many_frames() {
    let mut w = fresh_world();
    for n in 1u32..=9 {
        w.toggle_depth_prepass(true);
        assert_eq!(w.camera_has_prepass(), n % 2 == 0);
    }
}

#[test]
fn frame_without_edge_changes_nothing() {
    let mut w = fresh_world();
    let before = w.entities.clone();
    w.toggle_depth_prepass(false);
    assert_eq!(w.entities, before);
    assert!(w.camera_has_prepass());
}

#[test]
fn toggle_touches_only_the_marker() {
    let mut w = fresh_world();
    let before = w.entities.clone();
    w.toggle_depth_prepass(true);
    assert_eq!(w.entities.len(), before.len());
    for (old, new) in before.iter().zip(w.entities.iter()) {
        assert_eq!(new.transform, old.transform);
        assert_eq!(new.mesh, old.mesh);
        assert_eq!(new.standard_material, old.standard_material);
        assert_eq!(new.extended_material, old.extended_material);
        assert_eq!(new.directional_light, old.directional_light);
        assert_eq!(new.camera, old.camera);
        assert_eq!(new.rotate, old.rotate);
        assert_eq!(new.depth_prepass, !old.depth_prepass);
    }
}

#[test]
fn rotator_advances_light_by_elapsed_time() {
    let mut w = fresh_world();
    // Four frames of a quarter second each: one radian in total.
    for _ in 0..4 {
        w.rotate_things(250_000);
    }
    let light = &w.entities[2];
    assert_eq!(light.transform.spin_urad, 1_000_000);
    assert_eq!((light.transform.pos.x, light.transform.pos.y, light.transform.pos.z), (100, 100, 100));
}

#[test]
fn rotator_leaves_untagged_entities_alone() {
    let mut w = fresh_world();
    let camera_before = w.entities[3];
    let background_before = w.entities[0];
    w.rotate_things(16_667);
    assert_eq!(w.entities[3], camera_before);
    assert_eq!(w.entities[0], background_before);
}

#[test]
fn update_runs_rotator_and_toggle() {
    let mut w = fresh_world();
    w.update(16_667, true);
    assert!(!w.camera_has_prepass());
    assert_eq!(w.entities[2].transform.spin_urad, 16_667);
    w.update(16_667, false);
    assert!(!w.camera_has_prepass());
    assert_eq!(w.entities[2].transform.spin_urad, 33_334);
}

#[test]
fn plugin_registration_is_recorded() {
    let mut w = World::new();
    assert!(!w.extended_material_plugin);
    w.register_extended_material_plugin();
    assert!(w.extended_material_plugin);
}

#[test]
fn extended_material_needs_its_plugin_to_draw() {
    // Without the plugin the foreground disk is not drawable while the
    // background still is; registering the plugin makes both drawable.
    let mut w = World::new();
    w.setup();
    assert!(w.is_drawable(&w.entities[0]));
    assert!(!w.is_drawable(&w.entities[1]));
    w.register_extended_material_plugin();
    assert!(w.is_drawable(&w.entities[0]));
    assert!(w.is_drawable(&w.entities[1]));
}

#[test]
fn dangling_handle_is_not_drawable() {
    let w = fresh_world();
    let mut stray = w.entities[1];
    stray.extended_material = Some(Handle { index: 7 });
    assert!(!w.is_drawable(&stray));
}

#[test]
fn empty_world_has_no_prepass_camera() {
    let w = World::new();
    assert!(!w.camera_has_prepass());
}
