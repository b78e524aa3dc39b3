//! The demo's world: asset stores, scene entities, and the three pieces of
//! per-frame logic — one-shot scene setup, the rotator, and the depth
//! pre-pass toggle.
//!
//! An entity is a flat record of optional components and tag markers, the way
//! a data-oriented engine composes them. The engine loop around the library
//! reads input and draws; it hands each frame's elapsed time and the space
//! key's rising edge to [`World::update`] and renders what the world says.

use vstd::prelude::*;

use crate::assets::Assets;
use crate::assets::Handle;
use crate::material::AlphaMode;
use crate::material::Color;
use crate::material::ExtendedMaterial;
use crate::material::MyExtension;
use crate::material::StandardMaterial;
use crate::material::blue_color;
use crate::material::demo_shader_path;
use crate::material::red_color;
use crate::material::white_color;
use crate::transform::Transform;
use crate::transform::Vec3;
use crate::transform::spec_rotated_y;

verus! {

/// A disk mesh of the given radius, in hundredths of a unit.
#[derive(Clone, Copy, PartialEq, Eq, Debug)]
pub struct Mesh {
    pub radius_centis: u32,
}

/// A screen-space text label.
#[derive(Clone, PartialEq, Eq, Debug)]
pub struct TextLabel {
    pub content: String,
    pub font_size: u32,
    pub color: Color,
}

/// One scene entity: a transform, optional handles into the asset stores,
/// and the demo's markers. `rotate` opts the entity into the rotator;
/// `depth_prepass` is the marker the space key toggles.
#[derive(Clone, Copy, PartialEq, Eq, Debug)]
pub struct Entity {
    pub transform: Transform,
    pub mesh: Option<Handle>,
    pub standard_material: Option<Handle>,
    pub extended_material: Option<Handle>,
    pub directional_light: bool,
    pub camera: bool,
    pub rotate: bool,
    pub depth_prepass: bool,
}

/// The world the demo populates and steps: three asset stores, the scene
/// entities, the UI labels, and whether the extended material's plugin has
/// been registered with the renderer.
pub struct World {
    pub meshes: Assets<Mesh>,
    pub standard_materials: Assets<StandardMaterial>,
    pub extended_materials: Assets<ExtendedMaterial>,
    pub entities: Vec<Entity>,
    pub ui_texts: Vec<TextLabel>,
    pub extended_material_plugin: bool,
}

/// The background disk: radius three units.
pub open spec fn background_mesh() -> Mesh {
    Mesh { radius_centis: 300 }
}

/// The foreground disk: radius one unit.
pub open spec fn foreground_mesh() -> Mesh {
    Mesh { radius_centis: 100 }
}

/// The background's material: plain opaque blue.
pub open spec fn background_material() -> StandardMaterial {
    StandardMaterial { base_color: blue_color(), alpha_mode: AlphaMode::Opaque }
}

/// The base layer of the extended material: red, alpha-masked at one half.
pub open spec fn foreground_base_material() -> StandardMaterial {
    StandardMaterial { base_color: red_color(), alpha_mode: AlphaMode::Mask(50) }
}

/// What setup stores as the foreground's extended material: the red masked
/// base, with both shader slots resolved to the demo's shader asset.
pub open spec fn is_demo_extended_material(m: ExtendedMaterial) -> bool {
    &&& m.base == foreground_base_material()
    &&& m.forward_shader@ == demo_shader_path()
    &&& m.prepass_shader@ == demo_shader_path()
}

/// The large blue disk behind the origin.
pub open spec fn background_entity() -> Entity {
    Entity {
        transform: Transform { pos: Vec3 { x: 0, y: 0, z: -100i32 }, aim: None, spin_urad: 0 },
        mesh: Some(Handle { index: 0 }),
        standard_material: Some(Handle { index: 0 }),
        extended_material: None,
        directional_light: false,
        camera: false,
        rotate: false,
        depth_prepass: false,
    }
}

/// The small red alpha-masked disk at the origin.
pub open spec fn foreground_entity() -> Entity {
    Entity {
        transform: Transform { pos: Vec3 { x: 0, y: 0, z: 0 }, aim: None, spin_urad: 0 },
        mesh: Some(Handle { index: 1 }),
        standard_material: None,
        extended_material: Some(Handle { index: 0 }),
        directional_light: false,
        camera: false,
        rotate: false,
        depth_prepass: false,
    }
}

/// The rotating directional light, aimed at the origin.
pub open spec fn light_entity() -> Entity {
    Entity {
        transform: Transform {
            pos: Vec3 { x: 100, y: 100, z: 100 },
            aim: Some(Vec3 { x: 0, y: 0, z: 0 }),
            spin_urad: 0,
        },
        mesh: None,
        standard_material: None,
        extended_material: None,
        directional_light: true,
        camera: false,
        rotate: true,
        depth_prepass: false,
    }
}

/// The camera, aimed at the origin, carrying the pre-pass marker from the
/// start.
pub open spec fn camera_entity() -> Entity {
    Entity {
        transform: Transform {
            pos: Vec3 { x: -200i32, y: 250, z: 500 },
            aim: Some(Vec3 { x: 0, y: 0, z: 0 }),
            spin_urad: 0,
        },
        mesh: None,
        standard_material: None,
        extended_material: None,
        directional_light: false,
        camera: true,
        rotate: false,
        depth_prepass: true,
    }
}

/// The four scene entities setup spawns, in spawn order.
pub open spec fn demo_entities() -> Seq<Entity> {
    seq![background_entity(), foreground_entity(), light_entity(), camera_entity()]
}

/// The prompt shown by the UI label.
pub open spec fn prompt_text() -> Seq<char> {
    "Press space to remove / insert DepthPrepass to camera."@
}

/// What one rising edge of the space key does to one entity: flip the
/// pre-pass marker and touch nothing else. Without an edge the entity is
/// left alone.
pub open spec fn flip_entity(e: Entity, pressed: bool) -> Entity {
    if pressed {
        Entity { depth_prepass: !e.depth_prepass, ..e }
    } else {
        e
    }
}

/// What one frame of the rotator does to one entity: an entity tagged
/// `rotate` spins on by the elapsed time, any other is left alone.
pub open spec fn rotated_entity(e: Entity, dt_micros: u64) -> Entity {
    if e.rotate {
        Entity { transform: spec_rotated_y(e.transform, dt_micros), ..e }
    } else {
        e
    }
}

/// An entity on which the pre-pass runs: a camera carrying the marker.
pub open spec fn prepass_camera(e: Entity) -> bool {
    e.camera && e.depth_prepass
}

/// Whether the depth pre-pass is enabled: some camera carries the marker.
pub open spec fn prepass_active(s: Seq<Entity>) -> bool {
    exists|i: int| 0 <= i < s.len() && prepass_camera(s[i])
}

/// The entity after `n` space-key rising edges.
pub open spec fn flip_n(e: Entity, n: nat) -> Entity
    decreases n,
{
    if n == 0 {
        e
    } else {
        flip_entity(flip_n(e, (n - 1) as nat), true)
    }
}

impl World {
    /// An empty world: no assets, no entities, no labels, plugin not yet
    /// registered.
    pub fn new() -> (w: World)
        ensures
            w.meshes.items@.len() == 0,
            w.standard_materials.items@.len() == 0,
            w.extended_materials.items@.len() == 0,
            w.entities@.len() == 0,
            w.ui_texts@.len() == 0,
            !w.extended_material_plugin,
    {
        World {
            meshes: Assets::new(),
            standard_materials: Assets::new(),
            extended_materials: Assets::new(),
            entities: Vec::new(),
            ui_texts: Vec::new(),
            extended_material_plugin: false,
        }
    }

    /// Registers the extended material's plugin with the renderer. Entities
    /// referencing an extended material are drawable only once this has run.
    pub fn register_extended_material_plugin(&mut self)
        ensures
            final(self).extended_material_plugin,
            final(self).meshes == old(self).meshes,
            final(self).standard_materials == old(self).standard_materials,
            final(self).extended_materials == old(self).extended_materials,
            final(self).entities == old(self).entities,
            final(self).ui_texts == old(self).ui_texts,
    {
        self.extended_material_plugin = true;
    }

    /// Every asset handle the entity carries points at a stored asset.
    pub open spec fn handles_valid(&self, e: Entity) -> bool {
        &&& (e.mesh matches Some(h) ==> self.meshes.holds(h))
        &&& (e.standard_material matches Some(h) ==> self.standard_materials.holds(h))
        &&& (e.extended_material matches Some(h) ==> self.extended_materials.holds(h))
    }

    /// An entity is drawable when every material it references is resolvable:
    /// its handles must point at stored assets, and an extended material is
    /// only drawn once its plugin is registered.
    pub open spec fn drawable(&self, e: Entity) -> bool {
        &&& self.handles_valid(e)
        &&& (e.extended_material is Some ==> self.extended_material_plugin)
    }

    /// Decides whether the renderer draws `e`, by [`World::drawable`]: every
    /// handle must resolve, and an extended material needs its plugin.
    pub fn is_drawable(&self, e: &Entity) -> (r: bool)
        ensures
            r == self.drawable(*e),
    {
        let mesh_ok = match e.mesh {
            Some(h) => h.index < self.meshes.len(),
            None => true,
        };
        let standard_ok = match e.standard_material {
            Some(h) => h.index < self.standard_materials.len(),
            None => true,
        };
        let extended_ok = match e.extended_material {
            Some(h) => h.index < self.extended_materials.len() && self.extended_material_plugin,
            None => true,
        };
        mesh_ok && standard_ok && extended_ok
    }

    /// One-shot scene population. Starting from an empty scene it creates
    /// each asset exactly once and spawns, in order: the background disk, the
    /// foreground disk with the extended material, the rotating directional
    /// light, and the camera already carrying the pre-pass marker.
    pub fn setup(&mut self)
        requires
            old(self).meshes.items@.len() == 0,
            old(self).standard_materials.items@.len() == 0,
            old(self).extended_materials.items@.len() == 0,
            old(self).entities@.len() == 0,
        ensures
            final(self).meshes.items@ =~= seq![background_mesh(), foreground_mesh()],
            final(self).standard_materials.items@ =~= seq![background_material()],
            final(self).extended_materials.items@.len() == 1,
            is_demo_extended_material(final(self).extended_materials.items@[0]),
            final(self).entities@ =~= demo_entities(),
            final(self).ui_texts == old(self).ui_texts,
            final(self).extended_material_plugin == old(self).extended_material_plugin,
            forall|i: int| 0 <= i < final(self).entities@.len() ==> final(self).handles_valid(
                #[trigger] final(self).entities@[i],
            ),
    {
        // Background: a large blue opaque disk one unit behind the origin.
        let bg_mesh = self.meshes.add(Mesh { radius_centis: 300 });
        let bg_material = self.standard_materials.add(StandardMaterial::opaque(Color::blue()));
        self.entities.push(
            Entity {
                transform: Transform::at(Vec3 { x: 0, y: 0, z: -100 }),
                mesh: Some(bg_mesh),
                standard_material: Some(bg_material),
                extended_material: None,
                directional_light: false,
                camera: false,
                rotate: false,
                depth_prepass: false,
            },
        );

        // Foreground: a small disk with the red alpha-masked extended
        // material.
        let fg_mesh = self.meshes.add(Mesh { radius_centis: 100 });
        let fg_material = self.extended_materials.add(
            ExtendedMaterial::new(
                StandardMaterial::with_alpha(Color::red(), AlphaMode::Mask(50)),
                MyExtension {},
            ),
        );
        self.entities.push(
            Entity {
                transform: Transform::at(Vec3 { x: 0, y: 0, z: 0 }),
                mesh: Some(fg_mesh),
                standard_material: None,
                extended_material: Some(fg_material),
                directional_light: false,
                camera: false,
                rotate: false,
                depth_prepass: false,
            },
        );

        // The rotating directional light.
        self.entities.push(
            Entity {
                transform: Transform::at(Vec3 { x: 100, y: 100, z: 100 }).looking_at(
                    Vec3::origin(),
                ),
                mesh: None,
                standard_material: None,
                extended_material: None,
                directional_light: true,
                camera: false,
                rotate: true,
                depth_prepass: false,
            },
        );

        // The camera, with the pre-pass marker from the start.
        self.entities.push(
            Entity {
                transform: Transform::at(Vec3 { x: -200, y: 250, z: 500 }).looking_at(
                    Vec3::origin(),
                ),
                mesh: None,
                standard_material: None,
                extended_material: None,
                directional_light: false,
                camera: true,
                rotate: false,
                depth_prepass: true,
            },
        );
    }

    /// Spawns the single screen-space prompt label: white, font size 72.
    pub fn setup_ui(&mut self)
        ensures
            final(self).ui_texts@.len() == old(self).ui_texts@.len() + 1,
            forall|i: int| 0 <= i < old(self).ui_texts@.len() ==> final(self).ui_texts@[i] == old(
                self,
            ).ui_texts@[i],
            final(self).ui_texts@.last().content@ == prompt_text(),
            final(self).ui_texts@.last().font_size == 72,
            final(self).ui_texts@.last().color == white_color(),
            final(self).meshes == old(self).meshes,
            final(self).standard_materials == old(self).standard_materials,
            final(self).extended_materials == old(self).extended_materials,
            final(self).entities == old(self).entities,
            final(self).extended_material_plugin == old(self).extended_material_plugin,
    {
        let label = TextLabel {
            content: String::from_str("Press space to remove / insert DepthPrepass to camera."),
            font_size: 72,
            color: Color::white(),
        };
        self.ui_texts.push(label);
    }

    /// The pre-pass toggle. On a rising edge of the space key every entity
    /// the system observes has its pre-pass marker flipped — present becomes
    /// absent and absent present — and nothing else about it changes; all
    /// flips land together. Without an edge the world is left untouched.
    pub fn toggle_depth_prepass(&mut self, space_just_pressed: bool)
        ensures
            final(self).entities@.len() == old(self).entities@.len(),
            forall|i: int| 0 <= i < old(self).entities@.len() ==> final(self).entities@[i]
                == flip_entity(old(self).entities@[i], space_just_pressed),
            !space_just_pressed ==> final(self).entities@ == old(self).entities@,
            final(self).meshes == old(self).meshes,
            final(self).standard_materials == old(self).standard_materials,
            final(self).extended_materials == old(self).extended_materials,
            final(self).ui_texts == old(self).ui_texts,
            final(self).extended_material_plugin == old(self).extended_material_plugin,
    {
        if !space_just_pressed {
            return ;
        }
        let n = self.entities.len();
        let mut i: usize = 0;
        while i < n
            invariant
                i <= n,
                n == self.entities@.len(),
                self.entities@.len() == old(self).entities@.len(),
                forall|j: int| 0 <= j < i ==> self.entities@[j] == flip_entity(
                    old(self).entities@[j],
                    true,
                ),
                forall|j: int| i <= j < n ==> self.entities@[j] == old(self).entities@[j],
                self.meshes == old(self).meshes,
                self.standard_materials == old(self).standard_materials,
                self.extended_materials == old(self).extended_materials,
                self.ui_texts == old(self).ui_texts,
                self.extended_material_plugin == old(self).extended_material_plugin,
            decreases n - i,
        {
            let e = self.entities[i];
            self.entities[i] = Entity { depth_prepass: !e.depth_prepass, ..e };
            i = i + 1;
        }
    }

    /// The rotator. Every entity tagged `rotate` spins on about the vertical
    /// axis by the elapsed time — one radian per second, position and aim
    /// untouched — and every other entity is left alone.
    pub fn rotate_things(&mut self, dt_micros: u64)
        requires
            forall|i: int| 0 <= i < old(self).entities@.len() && old(self).entities@[i].rotate
                ==> old(self).entities@[i].transform.spin_urad + dt_micros <= u64::MAX,
        ensures
            final(self).entities@.len() == old(self).entities@.len(),
            forall|i: int| 0 <= i < old(self).entities@.len() ==> final(self).entities@[i]
                == rotated_entity(old(self).entities@[i], dt_micros),
            final(self).meshes == old(self).meshes,
            final(self).standard_materials == old(self).standard_materials,
            final(self).extended_materials == old(self).extended_materials,
            final(self).ui_texts == old(self).ui_texts,
            final(self).extended_material_plugin == old(self).extended_material_plugin,
    {
        let n = self.entities.len();
        let mut i: usize = 0;
        while i < n
            invariant
                i <= n,
                n == self.entities@.len(),
                self.entities@.len() == old(self).entities@.len(),
                forall|j: int| 0 <= j < i ==> self.entities@[j] == rotated_entity(
                    old(self).entities@[j],
                    dt_micros,
                ),
                forall|j: int| i <= j < n ==> self.entities@[j] == old(self).entities@[j],
                forall|j: int| 0 <= j < old(self).entities@.len() && old(self).entities@[j].rotate
                    ==> old(self).entities@[j].transform.spin_urad + dt_micros <= u64::MAX,
                self.meshes == old(self).meshes,
                self.standard_materials == old(self).standard_materials,
                self.extended_materials == old(self).extended_materials,
                self.ui_texts == old(self).ui_texts,
                self.extended_material_plugin == old(self).extended_material_plugin,
            decreases n - i,
        {
            let e = self.entities[i];
            if e.rotate {
                self.entities[i] = Entity { transform: e.transform.rotated_y(dt_micros), ..e };
            }
            i = i + 1;
        }
    }

    /// One frame of the demo's logic: the rotator and the toggle, whose
    /// observed accesses do not alias, applied to the world. The engine loop
    /// calls this once per frame with the elapsed time and whether the space
    /// key saw a rising edge.
    pub fn update(&mut self, dt_micros: u64, space_just_pressed: bool)
        requires
            forall|i: int| 0 <= i < old(self).entities@.len() && old(self).entities@[i].rotate
                ==> old(self).entities@[i].transform.spin_urad + dt_micros <= u64::MAX,
        ensures
            final(self).entities@.len() == old(self).entities@.len(),
            forall|i: int| 0 <= i < old(self).entities@.len() ==> final(self).entities@[i]
                == flip_entity(
                rotated_entity(old(self).entities@[i], dt_micros),
                space_just_pressed,
            ),
            final(self).meshes == old(self).meshes,
            final(self).standard_materials == old(self).standard_materials,
            final(self).extended_materials == old(self).extended_materials,
            final(self).ui_texts == old(self).ui_texts,
            final(self).extended_material_plugin == old(self).extended_material_plugin,
    {
        self.rotate_things(dt_micros);
        self.toggle_depth_prepass(space_just_pressed);
    }

    /// Whether some camera currently carries the pre-pass marker — what the
    /// renderer consults to decide if the depth pre-pass runs.
    pub fn camera_has_prepass(&self) -> (r: bool)
        ensures
            r == prepass_active(self.entities@),
    {
        let n = self.entities.len();
        let mut i: usize = 0;
        while i < n
            invariant
                i <= n,
                n == self.entities@.len(),
                forall|j: int| 0 <= j < i ==> !prepass_camera(#[trigger] self.entities@[j]),
            decreases n - i,
        {
            let e = &self.entities[i];
            if e.camera && e.depth_prepass {
                assert(prepass_camera(self.entities@[i as int]));
                return true;
            }
            i = i + 1;
        }
        false
    }
}

/// After `n` space-key rising edges an entity carries the pre-pass marker
/// iff it started with it and `n` is even, or started without it and `n` is
/// odd; nothing else about it ever changes.
pub proof fn lemma_prepass_parity(e: Entity, n: nat)
    ensures
        flip_n(e, n).depth_prepass == (if n % 2 == 0 {
            e.depth_prepass
        } else {
            !e.depth_prepass
        }),
        flip_n(e, n) == (Entity { depth_prepass: flip_n(e, n).depth_prepass, ..e }),
    decreases n,
{
    if n > 0 {
        lemma_prepass_parity(e, (n - 1) as nat);
    }
}

/// The demo's camera starts with the marker, so after `n` edges it carries
/// the marker iff `n` is even.
pub proof fn lemma_camera_parity(n: nat)
    ensures
        flip_n(camera_entity(), n).depth_prepass <==> n % 2 == 0,
{
    lemma_prepass_parity(camera_entity(), n);
}

/// The toggle changes nothing but the marker: the transform, the mesh, both
/// material references and the other tags of every entity — the camera and
/// every non-camera entity alike — stay exactly as they were.
pub proof fn lemma_toggle_only_marker(e: Entity, pressed: bool)
    ensures
        flip_entity(e, pressed).transform == e.transform,
        flip_entity(e, pressed).mesh == e.mesh,
        flip_entity(e, pressed).standard_material == e.standard_material,
        flip_entity(e, pressed).extended_material == e.extended_material,
        flip_entity(e, pressed).directional_light == e.directional_light,
        flip_entity(e, pressed).camera == e.camera,
        flip_entity(e, pressed).rotate == e.rotate,
{
}

/// The rotator and the toggle touch disjoint parts of an entity — the spin
/// and the marker — so the two systems commute and the scheduler may run
/// them in either order, or in parallel.
pub proof fn lemma_systems_commute(e: Entity, dt_micros: u64, pressed: bool)
    ensures
        flip_entity(rotated_entity(e, dt_micros), pressed) == rotated_entity(
            flip_entity(e, pressed),
            dt_micros,
        ),
{
}

/// The freshly set-up scene holds exactly four entities: the camera is the
/// last and the only one, the directional light the only light, the two
/// disks the only mesh-bearing entities — and the camera already carries the
/// pre-pass marker.
pub proof fn lemma_setup_scene(s: Seq<Entity>)
    requires
        s =~= demo_entities(),
    ensures
        s.len() == 4,
        s[3].camera,
        forall|i: int| 0 <= i < s.len() && (#[trigger] s[i]).camera ==> i == 3,
        s[2].directional_light,
        forall|i: int| 0 <= i < s.len() && (#[trigger] s[i]).directional_light ==> i == 2,
        s[0].mesh is Some,
        s[1].mesh is Some,
        forall|i: int| 0 <= i < s.len() && (#[trigger] s[i]).mesh is Some ==> i == 0 || i == 1,
        s[3].depth_prepass,
        prepass_active(s),
{
    assert(prepass_camera(s[3]));
}

} // verus!
