//! The owning handles, one type for each kind of native object, and the pending form of a
//! handle whose identifier has not come back yet.
//!
//! A handle holds one identifier and nothing else. It cannot be copied or cloned: whoever
//! holds the handle holds the object. Descriptors borrow handles and read their
//! identifiers; they never take them over.

use vstd::prelude::*;
use core::marker::PhantomData;
use crate::id::Id;
use crate::native::NativeCall;

verus! {

/// What every handle offers: the identifier it owns.
pub trait Handle: Sized {
    /// The identifier that this handle owns.
    spec fn ident(&self) -> Id;

    /// Adopts an identifier that the native layer returned from a creation call.
    fn from_id(id: Id) -> (h: Self)
        ensures
            h.ident() == id,
    ;

    /// Reads the identifier, leaving ownership with the handle.
    fn id(&self) -> (id: Id)
        ensures
            id == self.ident(),
    ;
}

/// A creation call that has been described and not yet answered.
///
/// It holds the one native call to perform. `finish` consumes it and wraps the identifier
/// that the call returned, so that each creation yields one handle.
pub struct Pending<H: Handle> {
    call: NativeCall,
    kind: PhantomData<H>,
}

impl<H: Handle> Pending<H> {
    /// The native call that creates the object.
    pub closed spec fn call_spec(&self) -> NativeCall {
        self.call
    }

    pub(crate) fn new(call: NativeCall) -> (p: Self)
        ensures
            p.call_spec() == call,
    {
        Pending { call, kind: PhantomData }
    }

    /// The native call to perform.
    pub fn call(&self) -> (call: &NativeCall)
        ensures
            *call == self.call_spec(),
    {
        &self.call
    }

    /// Wraps the identifier that the native call returned.
    pub fn finish(self, id: Id) -> (h: H)
        ensures
            h.ident() == id,
    {
        H::from_id(id)
    }
}

/// Owns the entry point of the native layer.
#[derive(Debug, PartialEq, Eq)]
pub struct Instance {
    id: Id,
}

impl Handle for Instance {
    closed spec fn ident(&self) -> Id {
        self.id
    }

    fn from_id(id: Id) -> (h: Self) {
        Instance { id }
    }

    fn id(&self) -> (id: Id) {
        self.id
    }
}

/// Owns a physical device that an instance found.
#[derive(Debug, PartialEq, Eq)]
pub struct Adapter {
    id: Id,
}

impl Handle for Adapter {
    closed spec fn ident(&self) -> Id {
        self.id
    }

    fn from_id(id: Id) -> (h: Self) {
        Adapter { id }
    }

    fn id(&self) -> (id: Id) {
        self.id
    }
}

/// Owns an opened adapter, from which most other objects are made.
#[derive(Debug, PartialEq, Eq)]
pub struct Device {
    id: Id,
}

impl Handle for Device {
    closed spec fn ident(&self) -> Id {
        self.id
    }

    fn from_id(id: Id) -> (h: Self) {
        Device { id }
    }

    fn id(&self) -> (id: Id) {
        self.id
    }
}

/// Owns an image in device memory.
#[derive(Debug, PartialEq, Eq)]
pub struct Texture {
    id: Id,
}

impl Handle for Texture {
    closed spec fn ident(&self) -> Id {
        self.id
    }

    fn from_id(id: Id) -> (h: Self) {
        Texture { id }
    }

    fn id(&self) -> (id: Id) {
        self.id
    }
}

/// Owns a view of a texture.
#[derive(Debug, PartialEq, Eq)]
pub struct TextureView {
    id: Id,
}

impl Handle for TextureView {
    closed spec fn ident(&self) -> Id {
        self.id
    }

    fn from_id(id: Id) -> (h: Self) {
        TextureView { id }
    }

    fn id(&self) -> (id: Id) {
        self.id
    }
}

/// Owns the layout of one group of bindings.
#[derive(Debug, PartialEq, Eq)]
pub struct BindGroupLayout {
    id: Id,
}

impl Handle for BindGroupLayout {
    closed spec fn ident(&self) -> Id {
        self.id
    }

    fn from_id(id: Id) -> (h: Self) {
        BindGroupLayout { id }
    }

    fn id(&self) -> (id: Id) {
        self.id
    }
}

/// Owns one group of bound resources.
#[derive(Debug, PartialEq, Eq)]
pub struct BindGroup {
    id: Id,
}

impl Handle for BindGroup {
    closed spec fn ident(&self) -> Id {
        self.id
    }

    fn from_id(id: Id) -> (h: Self) {
        BindGroup { id }
    }

    fn id(&self) -> (id: Id) {
        self.id
    }
}

/// Owns a compiled shader binary.
#[derive(Debug, PartialEq, Eq)]
pub struct ShaderModule {
    id: Id,
}

impl Handle for ShaderModule {
    closed spec fn ident(&self) -> Id {
        self.id
    }

    fn from_id(id: Id) -> (h: Self) {
        ShaderModule { id }
    }

    fn id(&self) -> (id: Id) {
        self.id
    }
}

/// Owns the bind group layouts of a pipeline.
#[derive(Debug, PartialEq, Eq)]
pub struct PipelineLayout {
    id: Id,
}

impl Handle for PipelineLayout {
    closed spec fn ident(&self) -> Id {
        self.id
    }

    fn from_id(id: Id) -> (h: Self) {
        PipelineLayout { id }
    }

    fn id(&self) -> (id: Id) {
        self.id
    }
}

/// Owns the blending of one colour attachment.
#[derive(Debug, PartialEq, Eq)]
pub struct BlendState {
    id: Id,
}

impl Handle for BlendState {
    closed spec fn ident(&self) -> Id {
        self.id
    }

    fn from_id(id: Id) -> (h: Self) {
        BlendState { id }
    }

    fn id(&self) -> (id: Id) {
        self.id
    }
}

/// Owns the depth and stencil tests of a pipeline.
#[derive(Debug, PartialEq, Eq)]
pub struct DepthStencilState {
    id: Id,
}

impl Handle for DepthStencilState {
    closed spec fn ident(&self) -> Id {
        self.id
    }

    fn from_id(id: Id) -> (h: Self) {
        DepthStencilState { id }
    }

    fn id(&self) -> (id: Id) {
        self.id
    }
}

/// Owns a render pipeline.
#[derive(Debug, PartialEq, Eq)]
pub struct RenderPipeline {
    id: Id,
}

impl Handle for RenderPipeline {
    closed spec fn ident(&self) -> Id {
        self.id
    }

    fn from_id(id: Id) -> (h: Self) {
        RenderPipeline { id }
    }

    fn id(&self) -> (id: Id) {
        self.id
    }
}

/// Owns a compute pipeline.
#[derive(Debug, PartialEq, Eq)]
pub struct ComputePipeline {
    id: Id,
}

impl Handle for ComputePipeline {
    closed spec fn ident(&self) -> Id {
        self.id
    }

    fn from_id(id: Id) -> (h: Self) {
        ComputePipeline { id }
    }

    fn id(&self) -> (id: Id) {
        self.id
    }
}

/// Owns a command buffer with no pass open.
#[derive(Debug, PartialEq, Eq)]
pub struct CommandBuffer {
    id: Id,
}

impl Handle for CommandBuffer {
    closed spec fn ident(&self) -> Id {
        self.id
    }

    fn from_id(id: Id) -> (h: Self) {
        CommandBuffer { id }
    }

    fn id(&self) -> (id: Id) {
        self.id
    }
}

/// Owns the queue of a device.
#[derive(Debug, PartialEq, Eq)]
pub struct Queue {
    id: Id,
}

impl Handle for Queue {
    closed spec fn ident(&self) -> Id {
        self.id
    }

    fn from_id(id: Id) -> (h: Self) {
        Queue { id }
    }

    fn id(&self) -> (id: Id) {
        self.id
    }
}

} // verus!
