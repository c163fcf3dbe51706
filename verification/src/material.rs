//! Materials: a GPU pipeline together with the pipeline layout it was
//! built against. Immutable after construction.
//!
//! The compiled pipeline object lives with the embedding; the registry
//! records what the pipeline was built from — its shader and the
//! bind-group layouts, by name — which is what reference validation and
//! frame composition read.

use vstd::prelude::*;
use crate::error::RenderError;
use crate::shader::Shader;

verus! {

/// Which triangle faces a render pipeline culls.
#[derive(Clone, Copy, Debug, PartialEq, Eq, Structural)]
pub enum CullFace {
    Front,
    Back,
}

/// A render pipeline: its shader, the bind-group layouts (by registry
/// name, in slot order) of its pipeline layout, and its cull mode.
#[derive(Debug)]
pub struct RenderMaterial {
    pub shader: Shader,
    pub bind_group_layouts: Vec<String>,
    pub cull_mode: Option<CullFace>,
}

impl RenderMaterial {
    pub fn builder() -> (b: RenderMaterialBuilder)
        ensures
            b.shader is None,
            b.bind_group_layouts@.len() == 0,
            b.cull_mode is None,
    {
        RenderMaterialBuilder { shader: None, bind_group_layouts: Vec::new(), cull_mode: None }
    }
}

/// Accumulates what a render pipeline is built from; building without a
/// shader is rejected.
#[derive(Debug)]
pub struct RenderMaterialBuilder {
    pub shader: Option<Shader>,
    pub bind_group_layouts: Vec<String>,
    pub cull_mode: Option<CullFace>,
}

impl RenderMaterialBuilder {
    pub fn with_shader(self, shader: Shader) -> (b: Self)
        ensures
            b.shader matches Some(s) && s == shader,
            b.bind_group_layouts == self.bind_group_layouts,
            b.cull_mode == self.cull_mode,
    {
        RenderMaterialBuilder { shader: Some(shader), ..self }
    }

    pub fn with_bind_group_layouts(self, bind_group_layouts: Vec<String>) -> (b: Self)
        ensures
            b.shader == self.shader,
            b.bind_group_layouts == bind_group_layouts,
            b.cull_mode == self.cull_mode,
    {
        RenderMaterialBuilder { bind_group_layouts, ..self }
    }

    pub fn with_cull_mode(self, cull_mode: Option<CullFace>) -> (b: Self)
        ensures
            b.shader == self.shader,
            b.bind_group_layouts == self.bind_group_layouts,
            b.cull_mode == cull_mode,
    {
        RenderMaterialBuilder { cull_mode, ..self }
    }

    /// Build the material; fails exactly when no shader was provided.
    pub fn build(self) -> (r: Result<RenderMaterial, RenderError>)
        ensures
            self.shader matches Some(s) ==> (r matches Ok(m) && m.shader == s
                && m.bind_group_layouts == self.bind_group_layouts
                && m.cull_mode == self.cull_mode),
            self.shader is None ==> (r matches Err(e) && e matches RenderError::MissingShader),
    {
        match self.shader {
            Some(shader) => Ok(RenderMaterial {
                shader,
                bind_group_layouts: self.bind_group_layouts,
                cull_mode: self.cull_mode,
            }),
            None => Err(RenderError::MissingShader),
        }
    }
}

/// A compute pipeline: its shader and the bind-group layouts of its
/// pipeline layout, by registry name, in slot order.
#[derive(Debug)]
pub struct ComputeMaterial {
    pub shader: Shader,
    pub bind_group_layouts: Vec<String>,
}

impl ComputeMaterial {
    pub fn builder() -> (b: ComputeMaterialBuilder)
        ensures
            b.shader is None,
            b.bind_group_layouts@.len() == 0,
    {
        ComputeMaterialBuilder { shader: None, bind_group_layouts: Vec::new() }
    }
}

/// Accumulates what a compute pipeline is built from; building without a
/// shader is rejected.
#[derive(Debug)]
pub struct ComputeMaterialBuilder {
    pub shader: Option<Shader>,
    pub bind_group_layouts: Vec<String>,
}

impl ComputeMaterialBuilder {
    pub fn with_shader(self, shader: Shader) -> (b: Self)
        ensures
            b.shader matches Some(s) && s == shader,
            b.bind_group_layouts == self.bind_group_layouts,
    {
        ComputeMaterialBuilder { shader: Some(shader), ..self }
    }

    pub fn with_bind_group_layouts(self, bind_group_layouts: Vec<String>) -> (b: Self)
        ensures
            b.shader == self.shader,
            b.bind_group_layouts == bind_group_layouts,
    {
        ComputeMaterialBuilder { bind_group_layouts, ..self }
    }

    /// Build the material; fails exactly when no shader was provided.
    pub fn build(self) -> (r: Result<ComputeMaterial, RenderError>)
        ensures
            self.shader matches Some(s) ==> (r matches Ok(m) && m.shader == s
                && m.bind_group_layouts == self.bind_group_layouts),
            self.shader is None ==> (r matches Err(e) && e matches RenderError::MissingShader),
    {
        match self.shader {
            Some(shader) => Ok(ComputeMaterial { shader, bind_group_layouts: self.bind_group_layouts }),
            None => Err(RenderError::MissingShader),
        }
    }
}

} // verus!
