//! Per-entity wrapper types.
//!
//! Each kind of scene entity (node, mesh, material, animation, texture,
//! light, camera) is an opaque foreign object; the scene stores one machine
//! word of identity per entity (the address of the foreign object, carried
//! here as a plain integer). A wrapper is a safe, non-owning handle around
//! that identity: it is constructed once per array element (or once for the
//! root node) and never releases anything. Its validity is bounded by the
//! lifetime of the parent scene handle that produced it.

use vstd::prelude::*;

verus! {

/// The uniform construction contract of every entity wrapper: one internal
/// constructor taking the foreign identity, and an observer returning it.
pub trait EntityInternal: Sized {
    /// The identity of the wrapped foreign object.
    spec fn raw_id(&self) -> u64;

    /// Wraps one foreign identity.
    fn new(raw: u64) -> (e: Self)
        ensures
            e.raw_id() == raw,
    ;

    /// Returns the identity of the wrapped foreign object.
    fn raw(&self) -> (r: u64)
        ensures
            r == self.raw_id(),
    ;

    /// Law: a wrapper is nothing but its identity — two wrappers of one kind
    /// around the same foreign object are equal values.
    proof fn lemma_identity_determines_wrapper(a: Self, b: Self)
        requires
            a.raw_id() == b.raw_id(),
        ensures
            a == b,
    ;
}

/// A node of the scene hierarchy.
#[derive(Clone, Copy, Debug, PartialEq, Eq, Structural)]
pub struct Node(u64);

/// A mesh of the scene.
#[derive(Clone, Copy, Debug, PartialEq, Eq, Structural)]
pub struct Mesh(u64);

/// A material of the scene.
#[derive(Clone, Copy, Debug, PartialEq, Eq, Structural)]
pub struct Material(u64);

/// An animation of the scene.
#[derive(Clone, Copy, Debug, PartialEq, Eq, Structural)]
pub struct Animation(u64);

/// An embedded texture of the scene.
#[derive(Clone, Copy, Debug, PartialEq, Eq, Structural)]
pub struct Texture(u64);

/// A light source of the scene.
#[derive(Clone, Copy, Debug, PartialEq, Eq, Structural)]
pub struct Light(u64);

/// A camera of the scene.
#[derive(Clone, Copy, Debug, PartialEq, Eq, Structural)]
pub struct Camera(u64);

impl EntityInternal for Node {
    closed spec fn raw_id(&self) -> u64 {
        self.0
    }

    fn new(raw: u64) -> (e: Self) {
        Node(raw)
    }

    fn raw(&self) -> (r: u64) {
        self.0
    }

    proof fn lemma_identity_determines_wrapper(a: Self, b: Self) {
    }
}

impl EntityInternal for Mesh {
    closed spec fn raw_id(&self) -> u64 {
        self.0
    }

    fn new(raw: u64) -> (e: Self) {
        Mesh(raw)
    }

    fn raw(&self) -> (r: u64) {
        self.0
    }

    proof fn lemma_identity_determines_wrapper(a: Self, b: Self) {
    }
}

impl EntityInternal for Material {
    closed spec fn raw_id(&self) -> u64 {
        self.0
    }

    fn new(raw: u64) -> (e: Self) {
        Material(raw)
    }

    fn raw(&self) -> (r: u64) {
        self.0
    }

    proof fn lemma_identity_determines_wrapper(a: Self, b: Self) {
    }
}

impl EntityInternal for Animation {
    closed spec fn raw_id(&self) -> u64 {
        self.0
    }

    fn new(raw: u64) -> (e: Self) {
        Animation(raw)
    }

    fn raw(&self) -> (r: u64) {
        self.0
    }

    proof fn lemma_identity_determines_wrapper(a: Self, b: Self) {
    }
}

impl EntityInternal for Texture {
    closed spec fn raw_id(&self) -> u64 {
        self.0
    }

    fn new(raw: u64) -> (e: Self) {
        Texture(raw)
    }

    fn raw(&self) -> (r: u64) {
        self.0
    }

    proof fn lemma_identity_determines_wrapper(a: Self, b: Self) {
    }
}

impl EntityInternal for Light {
    closed spec fn raw_id(&self) -> u64 {
        self.0
    }

    fn new(raw: u64) -> (e: Self) {
        Light(raw)
    }

    fn raw(&self) -> (r: u64) {
        self.0
    }

    proof fn lemma_identity_determines_wrapper(a: Self, b: Self) {
    }
}

impl EntityInternal for Camera {
    closed spec fn raw_id(&self) -> u64 {
        self.0
    }

    fn new(raw: u64) -> (e: Self) {
        Camera(raw)
    }

    fn raw(&self) -> (r: u64) {
        self.0
    }

    proof fn lemma_identity_determines_wrapper(a: Self, b: Self) {
    }
}

/// Wraps a stored array of foreign identities into an ordered snapshot of
/// entity wrappers, one per element, preserving array order. This is the one
/// shared array-to-sequence conversion that every per-kind accessor uses.
pub fn wrap_all<T: EntityInternal>(ids: &Vec<u64>) -> (v: Vec<T>)
    ensures
        v@.len() == ids@.len(),
        forall|i: int| 0 <= i < ids@.len() ==> #[trigger] v@[i].raw_id() == ids@[i],
{
    let mut v: Vec<T> = Vec::new();
    let mut idx: usize = 0;
    while idx < ids.len()
        invariant
            idx <= ids@.len(),
            v@.len() == idx,
            forall|i: int| 0 <= i < idx ==> #[trigger] v@[i].raw_id() == ids@[i],
        decreases ids@.len() - idx,
    {
        let e = T::new(ids[idx]);
        v.push(e);
        idx = idx + 1;
    }
    v
}

} // verus!
