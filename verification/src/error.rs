//! Error taxonomy for registry, scene and frame operations.

use vstd::prelude::*;

verus! {

/// The kinds of named resources a registry owns.
#[derive(Clone, Copy, Debug, PartialEq, Eq, Structural)]
pub enum ResourceKind {
    Model,
    Texture,
    RenderMaterial,
    ComputeMaterial,
    Sampler,
    BindGroupLayout,
}

/// Errors surfaced by registry construction, scene mutation and frame
/// composition. Construction-time errors never leave a registry or scene
/// partially mutated.
#[derive(Debug)]
pub enum RenderError {
    /// A named resource is absent from the registry.
    NotFound { kind: ResourceKind, name: String },
    /// A model was built from an empty mesh list.
    EmptyModel,
    /// A model mixed indexed and unindexed meshes.
    MixedMeshIndexing,
    /// A material was built without a shader.
    MissingShader,
    /// A compute object without an output texture was asked to resize it.
    NoOutputTexture,
    /// A shader path carried an extension the loader does not dispatch on.
    UnsupportedShaderExtension { extension: String },
    /// A shader path carried no extension at all.
    MissingShaderExtension,
    /// The surface was lost and reconfiguration did not recover it.
    SurfaceLost,
    /// The device reported out-of-memory; fatal for the frame loop.
    OutOfMemory,
}

impl RenderError {
    /// Whether this error is a missing-resource report of the given kind.
    pub open spec fn is_not_found(self, kind: ResourceKind) -> bool {
        match self {
            RenderError::NotFound { kind: k, name: _ } => k == kind,
            _ => false,
        }
    }

    /// The name a missing-resource report carries.
    pub open spec fn missing_name(self) -> Seq<char> {
        match self {
            RenderError::NotFound { kind: _, name } => name@,
            _ => Seq::empty(),
        }
    }
}

} // verus!
