use prepass_demo::assets::Assets;
use prepass_demo::material::AlphaMode;
use prepass_demo::material::Color;
use prepass_demo::material::ExtendedMaterial;
use prepass_demo::material::MyExtension;
use prepass_demo::material::StandardMaterial;
use prepass_demo::transform::Transform;
use prepass_demo::transform::Vec3;

#[test]
fn both_shader_hooks_resolve_to_the_same_asset() {
    assert_eq!(MyExtension::fragment_shader(), "shaders/extended_material.wgsl");
    assert_eq!(
        MyExtension::deferred_fragment_shader(),
        "shaders/extended_material.wgsl"
    );
    assert_eq!(
        MyExtension::fragment_shader(),
        MyExtension::deferred_fragment_shader()
    );
}

#[test]
fn extension_adds_no_bindings() {
    assert_eq!(MyExtension::binding_count(), 0);
}

#[test]
fn composing_resolves_both_slots() {
    let base = StandardMaterial::with_alpha(Color::red(), AlphaMode::Mask(50));
    let m = ExtendedMaterial::new(base, MyExtension {});
    assert_eq!(m.base, base);
    assert_eq!(m.forward_shader, "shaders/extended_material.wgsl");
    assert_eq!(m.prepass_shader, "shaders/extended_material.wgsl");
}

#[test]
fn repointing_forward_slot_leaves_prepass_slot() {
    let base = StandardMaterial::with_alpha(Color::red(), AlphaMode::Mask(50));
    let mut m = ExtendedMaterial::new(base, MyExtension {});
    m.set_forward_shader(String::from("shaders/other.wgsl"));
    assert_eq!(m.forward_shader, "shaders/other.wgsl");
    assert_eq!(m.prepass_shader, "shaders/extended_material.wgsl");
}

#[test]
fn repointing_prepass_slot_leaves_forward_slot() {
    let base = StandardMaterial::opaque(Color::blue());
    let mut m = ExtendedMaterial::new(base, MyExtension {});
    m.set_prepass_shader(String::from("shaders/other.wgsl"));
    assert_eq!(m.prepass_shader, "shaders/other.wgsl");
    assert_eq!(m.forward_shader, "shaders/extended_material.wgsl");
}

#[test]
fn alpha_mask_discards_below_threshold_only() {
    let masked = StandardMaterial::with_alpha(Color::red(), AlphaMode::Mask(50));
    assert!(masked.discards_fragment(0));
    assert!(masked.discards_fragment(49));
    assert!(!masked.discards_fragment(50));
    assert!(!masked.discards_fragment(100));
}

#[test]
fn opaque_and_blend_never_discard() {
    let opaque = StandardMaterial::opaque(Color::blue());
    assert!(!opaque.discards_fragment(0));
    assert!(!opaque.discards_fragment(100));
    let blended = StandardMaterial::with_alpha(Color::white(), AlphaMode::Blend);
    assert!(!blended.discards_fragment(0));
}

#[test]
fn named_colors_have_expected_channels() {
    assert_eq!(Color::blue(), Color { r: 0, g: 0, b: 255, a: 255 });
    assert_eq!(Color::red(), Color { r: 255, g: 0, b: 0, a: 255 });
    assert_eq!(Color::white(), Color { r: 255, g: 255, b: 255, a: 255 });
}

#[test]
fn asset_store_hands_out_sequential_handles() {
    let mut store: Assets<u32> = Assets::new();
    let a = store.add(10);
    let b = store.add(20);
    assert_eq!(a.index, 0);
    assert_eq!(b.index, 1);
    assert_eq!(*store.get(a), 10);
    assert_eq!(*store.get(b), 20);
    assert_eq!(store.len(), 2);
}

#[test]
fn transform_rotation_accumulates_and_keeps_position() {
    let t = Transform::at(Vec3 { x: 100, y: 100, z: 100 }).looking_at(Vec3 { x: 0, y: 0, z: 0 });
    let t1 = t.rotated_y(250_000);
    let t2 = t1.rotated_y(250_000);
    assert_eq!(t2.spin_urad, 500_000);
    assert_eq!(t2.pos, t.pos);
    assert_eq!(t2.aim, t.aim);
}
