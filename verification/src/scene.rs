//! Scene handles: an immutable, importer-owned scene and a mutable,
//! copy-owned scene.
//!
//! The foreign scene-import library hands out a pointer-based scene graph
//! that it owns. A safe handle cannot carry those raw pointers; it carries
//! instead the plain values that the read API is allowed to see: the flag
//! bitset, the identity of the root node, and, for each entity kind, the
//! authoritative element count together with the stored array of per-entity
//! identities. The glue that actually talks to the foreign library reads
//! those values out of the foreign object and hands them to [`SceneInternal::new`];
//! everything from there on is verified.
//!
//! Ownership: an immutable [`Scene`] stands for an importer-owned foreign
//! object and owes the library's release-import routine exactly once; a
//! [`SceneMut`] stands for an independently owned deep copy and owes the
//! free-scene routine exactly once. Both debts are discharged through
//! [`Scene::release`] and [`SceneMut::release`], which consume the handle,
//! so a second release of the same handle cannot be written.

use vstd::prelude::*;

use crate::entity::{Animation, Camera, EntityInternal, Light, Material, Mesh, Node, Texture};
use crate::entity::wrap_all;
use crate::flags::{
    flag_set, has_flag, AI_SCENE_FLAGS_INCOMPLETE, AI_SCENE_FLAGS_NON_VERBOSE_FORMAT,
    AI_SCENE_FLAGS_TERRAIN, AI_SCENE_FLAGS_VALIDATED, AI_SCENE_FLAGS_VALIDATION_WARNING,
};

verus! {

/// The readable content of a foreign scene object, as plain values: the flag
/// bitset, the root node identity, and, per entity kind, the authoritative
/// count field next to the stored array of entity identities.
pub struct SceneData {
    /// Completeness/validation/format flag bitset.
    pub flags: u32,
    /// Identity of the root node of the hierarchy.
    pub root_node: u64,
    /// Authoritative number of meshes.
    pub num_meshes: u32,
    /// Identities of the meshes, in array order.
    pub meshes: Vec<u64>,
    /// Authoritative number of materials.
    pub num_materials: u32,
    /// Identities of the materials, in array order.
    pub materials: Vec<u64>,
    /// Authoritative number of animations.
    pub num_animations: u32,
    /// Identities of the animations, in array order.
    pub animations: Vec<u64>,
    /// Authoritative number of embedded textures.
    pub num_textures: u32,
    /// Identities of the textures, in array order.
    pub textures: Vec<u64>,
    /// Authoritative number of lights.
    pub num_lights: u32,
    /// Identities of the lights, in array order.
    pub lights: Vec<u64>,
    /// Authoritative number of cameras.
    pub num_cameras: u32,
    /// Identities of the cameras, in array order.
    pub cameras: Vec<u64>,
}

impl SceneData {
    /// Well-formed foreign data: each count field is the exact length of its
    /// array, and the root node is present (a null root is a defect of the
    /// foreign data, not a state this layer models).
    pub open spec fn wf(&self) -> bool {
        &&& self.num_meshes as nat == self.meshes@.len()
        &&& self.num_materials as nat == self.materials@.len()
        &&& self.num_animations as nat == self.animations@.len()
        &&& self.num_textures as nat == self.textures@.len()
        &&& self.num_lights as nat == self.lights@.len()
        &&& self.num_cameras as nat == self.cameras@.len()
        &&& self.root_node != 0
    }
}

/// Two scene records hold the same readable content: same flags, same root,
/// same counts, and the same entity identities in the same order.
pub open spec fn same_scene_data(a: SceneData, b: SceneData) -> bool {
    &&& a.flags == b.flags
    &&& a.root_node == b.root_node
    &&& a.num_meshes == b.num_meshes
    &&& a.meshes@ == b.meshes@
    &&& a.num_materials == b.num_materials
    &&& a.materials@ == b.materials@
    &&& a.num_animations == b.num_animations
    &&& a.animations@ == b.animations@
    &&& a.num_textures == b.num_textures
    &&& a.textures@ == b.textures@
    &&& a.num_lights == b.num_lights
    &&& a.lights@ == b.lights@
    &&& a.num_cameras == b.num_cameras
    &&& a.cameras@ == b.cameras@
}

/// The release routine a handle owes to the foreign library, determined by
/// the handle's provenance: a scene that came from the importer must go back
/// through the release-import routine, a scene that came from the copy
/// routine through the free-scene routine.
#[derive(Clone, Copy, Debug, PartialEq, Eq, Structural)]
pub enum ReleaseRoutine {
    /// The foreign library's "release import" entry point.
    ReleaseImport,
    /// The foreign library's "free scene" entry point.
    FreeScene,
}

/// An immutable scene handle: stands for exactly one importer-owned foreign
/// scene object and owes the release-import routine exactly once.
pub struct Scene {
    data: SceneData,
}

/// A mutable scene handle: stands for an independently owned deep copy of
/// some source scene and owes the free-scene routine exactly once. It owns
/// an immutable handle and exposes every read operation through it, never
/// granting destructive capability through that exposure.
pub struct SceneMut {
    scene: Scene,
}

/// Internal construction interface of scene handles: build a handle around
/// well-formed foreign data, and read the raw record back.
pub trait SceneInternal: Sized {
    /// The scene record the handle wraps.
    spec fn raw(&self) -> SceneData;

    /// Wraps well-formed foreign scene data in a handle.
    fn new(data: SceneData) -> (s: Self)
        requires
            data.wf(),
        ensures
            s.raw() == data,
    ;

    /// Returns the wrapped raw scene record.
    fn get_raw(&self) -> (d: &SceneData)
        ensures
            *d == self.raw(),
    ;
}

/// Internal interface of mutable scene handles.
pub trait SceneMutInternal: SceneInternal {
    /// Consumes the handle and hands its raw scene record back, without
    /// discharging any release obligation; the caller takes the record over.
    fn into_raw(self) -> (d: SceneData)
        ensures
            d == self.raw(),
    ;
}

impl Scene {
    #[verifier::type_invariant]
    spec fn inv(self) -> bool {
        self.data.wf()
    }

    /// Returns true if the imported scene is not complete.
    pub fn is_incomplete(&self) -> (r: bool)
        ensures
            r == has_flag(self.raw().flags, AI_SCENE_FLAGS_INCOMPLETE),
    {
        flag_set(self.data.flags, AI_SCENE_FLAGS_INCOMPLETE)
    }

    /// Returns true if the imported scene was successfully validated by the
    /// validation post-process step.
    pub fn is_validated(&self) -> (r: bool)
        ensures
            r == has_flag(self.raw().flags, AI_SCENE_FLAGS_VALIDATED),
    {
        flag_set(self.data.flags, AI_SCENE_FLAGS_VALIDATED)
    }

    /// Returns true if any warnings were generated by the validation
    /// post-process step.
    pub fn has_validation_warning(&self) -> (r: bool)
        ensures
            r == has_flag(self.raw().flags, AI_SCENE_FLAGS_VALIDATION_WARNING),
    {
        flag_set(self.data.flags, AI_SCENE_FLAGS_VALIDATION_WARNING)
    }

    /// Returns true if the scene is in a non-verbose format (the
    /// join-identical-vertices post-process step was run).
    pub fn is_non_verbose_format(&self) -> (r: bool)
        ensures
            r == has_flag(self.raw().flags, AI_SCENE_FLAGS_NON_VERBOSE_FORMAT),
    {
        flag_set(self.data.flags, AI_SCENE_FLAGS_NON_VERBOSE_FORMAT)
    }

    /// Returns true if the imported scene contained height-map terrain data.
    pub fn is_terrain(&self) -> (r: bool)
        ensures
            r == has_flag(self.raw().flags, AI_SCENE_FLAGS_TERRAIN),
    {
        flag_set(self.data.flags, AI_SCENE_FLAGS_TERRAIN)
    }

    /// Returns the root node of the scene hierarchy.
    pub fn root_node(&self) -> (n: Node)
        ensures
            n.raw_id() == self.raw().root_node,
            n.raw_id() != 0,
    {
        proof {
            use_type_invariant(&*self);
        }
        Node::new(self.data.root_node)
    }

    /// Returns the number of meshes in the scene.
    pub fn num_meshes(&self) -> (r: u32)
        ensures
            r == self.raw().num_meshes,
            r as nat == self.raw().meshes@.len(),
    {
        proof {
            use_type_invariant(&*self);
        }
        self.data.num_meshes
    }

    /// Returns a fresh ordered snapshot of all meshes in the scene: one
    /// wrapper per stored identity, in array order.
    pub fn meshes(&self) -> (v: Vec<Mesh>)
        ensures
            v@.len() == self.raw().meshes@.len(),
            v@.len() == self.raw().num_meshes as nat,
            forall|i: int|
                0 <= i < v@.len() ==> #[trigger] v@[i].raw_id() == self.raw().meshes@[i],
    {
        proof {
            use_type_invariant(&*self);
        }
        wrap_all(&self.data.meshes)
    }

    /// Returns the mesh at a given position of the mesh array.
    ///
    /// An index at or beyond the mesh count is a contract violation of the
    /// caller, not a recoverable condition, so it is ruled out here.
    pub fn mesh(&self, id: usize) -> (m: Mesh)
        requires
            id < self.raw().meshes@.len(),
        ensures
            m.raw_id() == self.raw().meshes@[id as int],
    {
        proof {
            use_type_invariant(&*self);
        }
        Mesh::new(self.data.meshes[id])
    }

    /// Returns the number of materials in the scene.
    pub fn num_materials(&self) -> (r: u32)
        ensures
            r == self.raw().num_materials,
            r as nat == self.raw().materials@.len(),
    {
        proof {
            use_type_invariant(&*self);
        }
        self.data.num_materials
    }

    /// Returns a fresh ordered snapshot of all materials in the scene.
    pub fn materials(&self) -> (v: Vec<Material>)
        ensures
            v@.len() == self.raw().materials@.len(),
            v@.len() == self.raw().num_materials as nat,
            forall|i: int|
                0 <= i < v@.len() ==> #[trigger] v@[i].raw_id() == self.raw().materials@[i],
    {
        proof {
            use_type_invariant(&*self);
        }
        wrap_all(&self.data.materials)
    }

    /// Returns the number of animations in the scene.
    pub fn num_animations(&self) -> (r: u32)
        ensures
            r == self.raw().num_animations,
            r as nat == self.raw().animations@.len(),
    {
        proof {
            use_type_invariant(&*self);
        }
        self.data.num_animations
    }

    /// Returns a fresh ordered snapshot of all animations in the scene.
    pub fn animations(&self) -> (v: Vec<Animation>)
        ensures
            v@.len() == self.raw().animations@.len(),
            v@.len() == self.raw().num_animations as nat,
            forall|i: int|
                0 <= i < v@.len() ==> #[trigger] v@[i].raw_id() == self.raw().animations@[i],
    {
        proof {
            use_type_invariant(&*self);
        }
        wrap_all(&self.data.animations)
    }

    /// Returns the number of embedded textures in the scene.
    pub fn num_textures(&self) -> (r: u32)
        ensures
            r == self.raw().num_textures,
            r as nat == self.raw().textures@.len(),
    {
        proof {
            use_type_invariant(&*self);
        }
        self.data.num_textures
    }

    /// Returns a fresh ordered snapshot of all embedded textures in the scene.
    pub fn textures(&self) -> (v: Vec<Texture>)
        ensures
            v@.len() == self.raw().textures@.len(),
            v@.len() == self.raw().num_textures as nat,
            forall|i: int|
                0 <= i < v@.len() ==> #[trigger] v@[i].raw_id() == self.raw().textures@[i],
    {
        proof {
            use_type_invariant(&*self);
        }
        wrap_all(&self.data.textures)
    }

    /// Returns the number of lights in the scene.
    pub fn num_lights(&self) -> (r: u32)
        ensures
            r == self.raw().num_lights,
            r as nat == self.raw().lights@.len(),
    {
        proof {
            use_type_invariant(&*self);
        }
        self.data.num_lights
    }

    /// Returns a fresh ordered snapshot of all lights in the scene.
    pub fn lights(&self) -> (v: Vec<Light>)
        ensures
            v@.len() == self.raw().lights@.len(),
            v@.len() == self.raw().num_lights as nat,
            forall|i: int|
                0 <= i < v@.len() ==> #[trigger] v@[i].raw_id() == self.raw().lights@[i],
    {
        proof {
            use_type_invariant(&*self);
        }
        wrap_all(&self.data.lights)
    }

    /// Returns the number of cameras in the scene.
    pub fn num_cameras(&self) -> (r: u32)
        ensures
            r == self.raw().num_cameras,
            r as nat == self.raw().cameras@.len(),
    {
        proof {
            use_type_invariant(&*self);
        }
        self.data.num_cameras
    }

    /// Returns a fresh ordered snapshot of all cameras in the scene.
    pub fn cameras(&self) -> (v: Vec<Camera>)
        ensures
            v@.len() == self.raw().cameras@.len(),
            v@.len() == self.raw().num_cameras as nat,
            forall|i: int|
                0 <= i < v@.len() ==> #[trigger] v@[i].raw_id() == self.raw().cameras@[i],
    {
        proof {
            use_type_invariant(&*self);
        }
        wrap_all(&self.data.cameras)
    }

    /// Produces a mutable handle over an independent deep copy of this
    /// scene's content, leaving this handle and its release obligation
    /// untouched; the copy answers every read exactly as the source does at
    /// the moment of the copy.
    pub fn copy_scene(&self) -> (m: SceneMut)
        ensures
            same_scene_data(self.raw(), m.raw()),
    {
        proof {
            use_type_invariant(&*self);
        }
        let data = SceneData {
            flags: self.data.flags,
            root_node: self.data.root_node,
            num_meshes: self.data.num_meshes,
            meshes: clone_ids(&self.data.meshes),
            num_materials: self.data.num_materials,
            materials: clone_ids(&self.data.materials),
            num_animations: self.data.num_animations,
            animations: clone_ids(&self.data.animations),
            num_textures: self.data.num_textures,
            textures: clone_ids(&self.data.textures),
            num_lights: self.data.num_lights,
            lights: clone_ids(&self.data.lights),
            num_cameras: self.data.num_cameras,
            cameras: clone_ids(&self.data.cameras),
        };
        SceneMut { scene: Scene { data } }
    }

    /// Ends this handle's life and names the one release routine its owner
    /// owes the foreign library: the release-import routine, because an
    /// immutable scene is importer-owned. Consuming the handle makes a
    /// second release of it impossible to write.
    pub fn release(self) -> (r: ReleaseRoutine)
        ensures
            r == ReleaseRoutine::ReleaseImport,
    {
        ReleaseRoutine::ReleaseImport
    }
}

impl SceneMut {
    /// Borrows the read-only view of this handle. The view lives only as
    /// long as the borrow of this handle and carries no release obligation,
    /// so no destructive capability passes through it.
    pub fn as_scene(&self) -> (s: &Scene)
        ensures
            s.raw() == self.raw(),
    {
        &self.scene
    }

    /// Ends this handle's life and names the one release routine its owner
    /// owes the foreign library: the free-scene routine, because a mutable
    /// scene owns a copy made by the library's copy routine.
    pub fn release(self) -> (r: ReleaseRoutine)
        ensures
            r == ReleaseRoutine::FreeScene,
    {
        ReleaseRoutine::FreeScene
    }
}

impl SceneInternal for Scene {
    closed spec fn raw(&self) -> SceneData {
        self.data
    }

    fn new(data: SceneData) -> (s: Scene) {
        Scene { data }
    }

    fn get_raw(&self) -> (d: &SceneData) {
        &self.data
    }
}

impl SceneInternal for SceneMut {
    closed spec fn raw(&self) -> SceneData {
        self.scene.data
    }

    fn new(data: SceneData) -> (s: SceneMut) {
        SceneMut { scene: Scene { data } }
    }

    fn get_raw(&self) -> (d: &SceneData) {
        &self.scene.data
    }
}

impl SceneMutInternal for SceneMut {

    fn into_raw(self) -> (d: SceneData) {
        let SceneMut { scene: Scene { data } } = self;
        data
    }
}

impl From<Scene> for SceneMut {
    /// Converts an immutable handle into a mutable one, consuming the
    /// source; the new handle reads exactly as the source did.
    fn from(scene: Scene) -> (m: SceneMut) {
        SceneMut { scene }
    }
}

impl vstd::std_specs::convert::FromSpecImpl<Scene> for SceneMut {
    open spec fn obeys_from_spec() -> bool {
        true
    }

    closed spec fn from_spec(v: Scene) -> SceneMut {
        SceneMut { scene: v }
    }
}

/// Law: converting an immutable handle into a mutable one preserves every
/// read — the handle the conversion yields wraps exactly the record the
/// source wrapped.
pub proof fn lemma_from_preserves_reads(s: Scene)
    ensures
        (<SceneMut as vstd::std_specs::convert::FromSpec<Scene>>::from_spec(s)).raw() == s.raw(),
{
}

/// Copies a stored array of entity identities.
fn clone_ids(v: &Vec<u64>) -> (r: Vec<u64>)
    ensures
        r@ == v@,
{
    let mut r: Vec<u64> = Vec::new();
    let mut idx: usize = 0;
    while idx < v.len()
        invariant
            idx <= v@.len(),
            r@.len() == idx,
            forall|i: int| 0 <= i < idx ==> r@[i] == v@[i],
        decreases v@.len() - idx,
    {
        r.push(v[idx]);
        idx = idx + 1;
    }
    proof {
        assert(r@ =~= v@);
    }
    r
}

/// Law: a snapshot accessor hands back exactly one wrapper per stored
/// identity — a snapshot meeting the accessor's contract has exactly the
/// length that the count accessor returns. The parameters are the stored
/// identities of one entity kind, the identities of the wrappers of a
/// snapshot of that kind, and the value of the count field.
pub proof fn lemma_snapshot_length_matches_count(ids: Seq<u64>, wrapped: Seq<u64>, count: u32)
    requires
        wrapped.len() == ids.len(),
        count as nat == ids.len(),
    ensures
        wrapped.len() == count as nat,
{
}

/// Law: a snapshot and the positional accessor agree — at every valid index,
/// the wrapper of a snapshot meeting the accessor's contract carries the
/// same foreign identity as the wrapper the positional accessor returns for
/// that index, so repeated reads of one position are observably equal.
pub proof fn lemma_snapshot_agrees_with_get(ids: Seq<u64>, wrapped: Seq<u64>, i: int, got: u64)
    requires
        wrapped.len() == ids.len(),
        forall|j: int| 0 <= j < ids.len() ==> #[trigger] wrapped[j] == ids[j],
        0 <= i < ids.len(),
        got == ids[i],
    ensures
        wrapped[i] == got,
{
}

/// Law: two handles over the same readable content answer every read
/// identically — every flag query, every count, the root identity, and
/// every entity identity sequence agree. In particular a mutable handle
/// made by conversion reads exactly as its source.
pub proof fn lemma_same_data_same_reads(a: SceneData, b: SceneData)
    requires
        same_scene_data(a, b),
    ensures
        forall|bit: u32| #[trigger] has_flag(a.flags, bit) == has_flag(b.flags, bit),
        a.root_node == b.root_node,
        a.num_meshes == b.num_meshes && a.meshes@ == b.meshes@,
        a.num_materials == b.num_materials && a.materials@ == b.materials@,
        a.num_animations == b.num_animations && a.animations@ == b.animations@,
        a.num_textures == b.num_textures && a.textures@ == b.textures@,
        a.num_lights == b.num_lights && a.lights@ == b.lights@,
        a.num_cameras == b.num_cameras && a.cameras@ == b.cameras@,
{
}

} // verus!
