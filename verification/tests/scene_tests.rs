use assimp_scene::entity::{Animation, Camera, EntityInternal, Light, Material, Mesh, Node, Texture};
use assimp_scene::flags::{
    flag_set, AI_SCENE_FLAGS_INCOMPLETE, AI_SCENE_FLAGS_NON_VERBOSE_FORMAT,
    AI_SCENE_FLAGS_TERRAIN, AI_SCENE_FLAGS_VALIDATED, AI_SCENE_FLAGS_VALIDATION_WARNING,
};
use assimp_scene::scene::{
    ReleaseRoutine, Scene, SceneData, SceneInternal, SceneMut, SceneMutInternal,
};

fn empty_data(flags: u32) -> SceneData {
    SceneData {
        flags,
        root_node: 1,
        num_meshes: 0,
        meshes: Vec::new(),
        num_materials: 0,
        materials: Vec::new(),
        num_animations: 0,
        animations: Vec::new(),
        num_textures: 0,
        textures: Vec::new(),
        num_lights: 0,
        lights: Vec::new(),
        num_cameras: 0,
        cameras: Vec::new(),
    }
}

fn sample_data() -> SceneData {
    SceneData {
        flags: AI_SCENE_FLAGS_VALIDATED,
        root_node: 99,
        num_meshes: 3,
        meshes: vec![10, 20, 30],
        num_materials: 1,
        materials: vec![7],
        num_animations: 0,
        animations: Vec::new(),
        num_textures: 0,
        textures: Vec::new(),
        num_lights: 0,
        lights: Vec::new(),
        num_cameras: 0,
        cameras: Vec::new(),
    }
}

#[test]
fn flag_constants_hold_the_foreign_abi_values() {
    assert_eq!(AI_SCENE_FLAGS_INCOMPLETE, 0x1);
    assert_eq!(AI_SCENE_FLAGS_VALIDATED, 0x2);
    assert_eq!(AI_SCENE_FLAGS_VALIDATION_WARNING, 0x4);
    assert_eq!(AI_SCENE_FLAGS_NON_VERBOSE_FORMAT, 0x8);
    assert_eq!(AI_SCENE_FLAGS_TERRAIN, 0x10);
}

#[test]
fn flag_set_tests_single_bits() {
    assert!(flag_set(0x5, AI_SCENE_FLAGS_INCOMPLETE));
    assert!(flag_set(0x5, AI_SCENE_FLAGS_VALIDATION_WARNING));
    assert!(!flag_set(0x5, AI_SCENE_FLAGS_VALIDATED));
    assert!(!flag_set(0, AI_SCENE_FLAGS_TERRAIN));
}

#[test]
fn only_validation_warning_bit_set() {
    let s = <Scene as SceneInternal>::new(empty_data(AI_SCENE_FLAGS_VALIDATION_WARNING));
    assert!(s.has_validation_warning());
    assert!(!s.is_incomplete());
    assert!(!s.is_validated());
    assert!(!s.is_non_verbose_format());
    assert!(!s.is_terrain());
}

#[test]
fn only_incomplete_bit_set() {
    let s = <Scene as SceneInternal>::new(empty_data(AI_SCENE_FLAGS_INCOMPLETE));
    assert!(s.is_incomplete());
    assert!(!s.is_validated());
    assert!(!s.has_validation_warning());
    assert!(!s.is_non_verbose_format());
    assert!(!s.is_terrain());
}

#[test]
fn multiple_bits_set_exactly_those_predicates() {
    let s = <Scene as SceneInternal>::new(empty_data(
        AI_SCENE_FLAGS_INCOMPLETE | AI_SCENE_FLAGS_TERRAIN,
    ));
    assert!(s.is_incomplete());
    assert!(s.is_terrain());
    assert!(!s.is_validated());
    assert!(!s.has_validation_warning());
    assert!(!s.is_non_verbose_format());
}

#[test]
fn scenario_three_meshes_one_material() {
    let s = <Scene as SceneInternal>::new(sample_data());
    let meshes = s.meshes();
    assert_eq!(meshes.len(), 3);
    assert_eq!(meshes[0].raw(), 10);
    assert_eq!(meshes[1].raw(), 20);
    assert_eq!(meshes[2].raw(), 30);
    let materials = s.materials();
    assert_eq!(materials.len(), 1);
    assert_eq!(materials[0].raw(), 7);
    assert!(s.animations().is_empty());
    assert!(s.textures().is_empty());
    assert!(s.lights().is_empty());
    assert!(s.cameras().is_empty());
    assert_eq!(s.num_animations(), 0);
}

#[test]
fn snapshot_length_matches_count() {
    let s = <Scene as SceneInternal>::new(sample_data());
    assert_eq!(s.meshes().len(), s.num_meshes() as usize);
    assert_eq!(s.materials().len(), s.num_materials() as usize);
    assert_eq!(s.animations().len(), s.num_animations() as usize);
    assert_eq!(s.textures().len(), s.num_textures() as usize);
    assert_eq!(s.lights().len(), s.num_lights() as usize);
    assert_eq!(s.cameras().len(), s.num_cameras() as usize);
}

#[test]
fn snapshot_agrees_with_positional_accessor() {
    let s = <Scene as SceneInternal>::new(sample_data());
    let all = s.meshes();
    for i in 0..s.num_meshes() as usize {
        assert_eq!(all[i].raw(), s.mesh(i).raw());
        // Repeated reads of one position are observably equal wrappers.
        assert_eq!(s.mesh(i), s.mesh(i));
    }
    let again = s.meshes();
    assert_eq!(all, again);
}

#[test]
fn root_node_wraps_the_stored_identity() {
    let s = <Scene as SceneInternal>::new(sample_data());
    assert_eq!(s.root_node().raw(), 99);
    assert_eq!(s.root_node(), s.root_node());
}

#[test]
fn copy_is_deep_equal_and_independent_of_the_source() {
    let s = <Scene as SceneInternal>::new(sample_data());
    let m = s.copy_scene();
    {
        let v = m.as_scene();
        assert_eq!(v.num_meshes(), s.num_meshes());
        assert_eq!(v.num_materials(), s.num_materials());
        assert_eq!(v.num_animations(), s.num_animations());
        assert_eq!(v.num_textures(), s.num_textures());
        assert_eq!(v.num_lights(), s.num_lights());
        assert_eq!(v.num_cameras(), s.num_cameras());
        assert_eq!(v.meshes(), s.meshes());
        assert_eq!(v.materials(), s.materials());
        assert_eq!(v.root_node(), s.root_node());
        assert_eq!(v.is_validated(), s.is_validated());
    }
    // Destroying the source must not affect the mutable handle.
    assert_eq!(s.release(), ReleaseRoutine::ReleaseImport);
    let v = m.as_scene();
    assert_eq!(v.num_meshes(), 3);
    assert_eq!(v.meshes()[2].raw(), 30);
    assert_eq!(m.release(), ReleaseRoutine::FreeScene);
}

#[test]
fn conversion_preserves_every_read() {
    let s = <Scene as SceneInternal>::new(sample_data());
    let flags_before = s.is_validated();
    let meshes_before = s.meshes();
    let m = SceneMut::from(s);
    let v = m.as_scene();
    assert_eq!(v.is_validated(), flags_before);
    assert_eq!(v.meshes(), meshes_before);
    assert_eq!(v.num_materials(), 1);
}

#[test]
fn empty_scene_constructs_and_releases_once() {
    let s = <Scene as SceneInternal>::new(empty_data(0));
    assert_eq!(s.num_meshes(), 0);
    assert!(s.meshes().is_empty());
    assert_eq!(s.release(), ReleaseRoutine::ReleaseImport);
}

#[test]
fn release_routine_follows_provenance() {
    let s = <Scene as SceneInternal>::new(empty_data(0));
    let m = s.copy_scene();
    assert_eq!(s.release(), ReleaseRoutine::ReleaseImport);
    assert_eq!(m.release(), ReleaseRoutine::FreeScene);
}

#[test]
fn mutable_handle_constructs_directly_and_hands_its_record_back() {
    let m = <SceneMut as SceneInternal>::new(sample_data());
    assert_eq!(m.as_scene().num_meshes(), 3);
    let d = m.into_raw();
    assert_eq!(d.num_meshes, 3);
    assert_eq!(d.meshes, vec![10, 20, 30]);
    assert_eq!(d.root_node, 99);
}

#[test]
fn get_raw_exposes_the_wrapped_record() {
    let s = <Scene as SceneInternal>::new(sample_data());
    let d = <Scene as SceneInternal>::get_raw(&s);
    assert_eq!(d.flags, AI_SCENE_FLAGS_VALIDATED);
    assert_eq!(d.num_materials, 1);
    assert_eq!(d.materials, vec![7]);
    let m = s.copy_scene();
    let dm = <SceneMut as SceneInternal>::get_raw(&m);
    assert_eq!(dm.num_materials, 1);
    assert_eq!(dm.materials, vec![7]);
}

#[test]
fn entity_wrappers_carry_their_identity() {
    assert_eq!(Node::new(5).raw(), 5);
    assert_eq!(Mesh::new(6).raw(), 6);
    assert_eq!(Material::new(7).raw(), 7);
    assert_eq!(Animation::new(8).raw(), 8);
    assert_eq!(Texture::new(9).raw(), 9);
    assert_eq!(Light::new(10).raw(), 10);
    assert_eq!(Camera::new(11).raw(), 11);
    assert_eq!(Mesh::new(6), Mesh::new(6));
    assert_ne!(Mesh::new(6), Mesh::new(7));
}
