//! Models: mesh lists with their GPU-side vertex and index buffers.
//!
//! A model concatenates its meshes' vertices into one vertex buffer in mesh
//! order and, when the meshes are indexed, their index lists into one index
//! buffer, values unchanged. Mixing indexed and unindexed meshes is rejected
//! at construction.

use vstd::prelude::*;
use crate::commands::GpuCommand;
use crate::error::RenderError;
use crate::mesh::{mesh_indexed, Mesh};
use crate::vertex::{vertex_shader_data, ShaderVertex, Vertex};

verus! {

/// Either every mesh carries indices or none does.
pub open spec fn uniform_indexing(meshes: Seq<Mesh>) -> bool {
    ||| forall|i: int| 0 <= i < meshes.len() ==> mesh_indexed(#[trigger] meshes[i])
    ||| forall|i: int| 0 <= i < meshes.len() ==> !mesh_indexed(#[trigger] meshes[i])
}

/// All vertices of all meshes, in mesh order, in buffer form.
pub open spec fn merged_shader_data(meshes: Seq<Mesh>) -> Seq<ShaderVertex>
    decreases meshes.len(),
{
    if meshes.len() == 0 {
        Seq::empty()
    } else {
        merged_shader_data(meshes.drop_last())
            + meshes.last().vertices@.map_values(|v: Vertex| vertex_shader_data(v))
    }
}

/// All vertices of all meshes, in mesh order, as the meshes store them.
pub open spec fn merged_vertices(meshes: Seq<Mesh>) -> Seq<Vertex>
    decreases meshes.len(),
{
    if meshes.len() == 0 {
        Seq::empty()
    } else {
        merged_vertices(meshes.drop_last()) + meshes.last().vertices@
    }
}

/// All index values of all meshes, in mesh order, not offset per mesh.
pub open spec fn merged_indices(meshes: Seq<Mesh>) -> Seq<u32>
    decreases meshes.len(),
{
    if meshes.len() == 0 {
        Seq::empty()
    } else {
        merged_indices(meshes.drop_last())
            + match meshes.last().indices {
                Some(ix) => ix@,
                None => Seq::empty(),
            }
    }
}

/// An immutable list of meshes plus the buffers built from them.
#[derive(Debug)]
pub struct Model {
    pub meshes: Vec<Mesh>,
    /// Contents of the GPU vertex buffer: the meshes' vertices concatenated.
    pub vertex_buffer: Vec<ShaderVertex>,
    /// Contents of the GPU index buffer, present exactly when the meshes
    /// are indexed: the meshes' index lists concatenated, values unchanged.
    pub index_buffer: Option<Vec<u32>>,
}

impl Model {
    /// Construction establishes this; a model is immutable afterwards
    /// (the fullscreen quad variant rewrites a copy, never the source).
    pub open spec fn wf(self) -> bool {
        &&& self.meshes@.len() > 0
        &&& uniform_indexing(self.meshes@)
        &&& self.vertex_buffer@ == merged_shader_data(self.meshes@)
        &&& self.indexed() <==> mesh_indexed(self.meshes@[0])
        &&& match self.index_buffer {
            Some(ib) => ib@ == merged_indices(self.meshes@),
            None => true,
        }
    }

    /// Whether draws go through an index buffer.
    pub open spec fn indexed(self) -> bool {
        self.index_buffer is Some
    }

    /// Build a model. Fails on an empty mesh list, and on meshes where some
    /// carry indices and others do not; succeeds on every uniformly indexed
    /// or uniformly unindexed non-empty list.
    pub fn new(meshes: Vec<Mesh>) -> (r: Result<Model, RenderError>)
        ensures
            meshes@.len() == 0 ==> (r matches Err(e) && e matches RenderError::EmptyModel),
            meshes@.len() > 0 && !uniform_indexing(meshes@) ==> (r matches Err(e)
                && e matches RenderError::MixedMeshIndexing),
            meshes@.len() > 0 && uniform_indexing(meshes@) ==> (r matches Ok(m)
                && m.meshes == meshes && m.wf()),
    {
        if meshes.len() == 0 {
            return Err(RenderError::EmptyModel);
        }

        let has_indices = meshes[0].indices.is_some();
        let mut i: usize = 0;
        while i < meshes.len()
            invariant
                i <= meshes@.len(),
                meshes@.len() > 0,
                has_indices == mesh_indexed(meshes@[0]),
                forall|j: int| 0 <= j < i ==> mesh_indexed(#[trigger] meshes@[j]) == has_indices,
            decreases meshes@.len() - i,
        {
            if meshes[i].indices.is_some() != has_indices {
                assert(!uniform_indexing(meshes@)) by {
                    assert(mesh_indexed(meshes@[0]) == has_indices);
                    assert(mesh_indexed(meshes@[i as int]) != has_indices);
                }
                return Err(RenderError::MixedMeshIndexing);
            }
            i = i + 1;
        }
        assert(uniform_indexing(meshes@));

        let mut vertex_buffer: Vec<ShaderVertex> = Vec::new();
        let mut mi: usize = 0;
        while mi < meshes.len()
            invariant
                mi <= meshes@.len(),
                vertex_buffer@ == merged_shader_data(meshes@.take(mi as int)),
            decreases meshes@.len() - mi,
        {
            let mesh = &meshes[mi];
            let mut vi: usize = 0;
            while vi < mesh.vertices.len()
                invariant
                    vi <= mesh.vertices@.len(),
                    mesh == &meshes@[mi as int],
                    mi < meshes@.len(),
                    vertex_buffer@ == merged_shader_data(meshes@.take(mi as int))
                        + mesh.vertices@.take(vi as int).map_values(
                            |v: Vertex| vertex_shader_data(v),
                        ),
                decreases mesh.vertices@.len() - vi,
            {
                vertex_buffer.push(mesh.vertices[vi].as_shader_data());
                proof {
                    assert(mesh.vertices@.take(vi + 1int).map_values(
                        |v: Vertex| vertex_shader_data(v),
                    ) =~= mesh.vertices@.take(vi as int).map_values(
                        |v: Vertex| vertex_shader_data(v),
                    ) + seq![vertex_shader_data(mesh.vertices@[vi as int])]);
                }
                vi = vi + 1;
            }
            proof {
                let taken = meshes@.take(mi + 1int);
                assert(taken.drop_last() =~= meshes@.take(mi as int));
                assert(taken.last() == meshes@[mi as int]);
                assert(mesh.vertices@.take(vi as int) =~= mesh.vertices@);
            }
            mi = mi + 1;
        }
        proof {
            assert(meshes@.take(meshes@.len() as int) =~= meshes@);
        }

        let index_buffer: Option<Vec<u32>> = if has_indices {
            let mut ib: Vec<u32> = Vec::new();
            let mut mi: usize = 0;
            while mi < meshes.len()
                invariant
                    mi <= meshes@.len(),
                    ib@ == merged_indices(meshes@.take(mi as int)),
                decreases meshes@.len() - mi,
            {
                let mesh = &meshes[mi];
                if let Some(ix) = &mesh.indices {
                    let mut ii: usize = 0;
                    while ii < ix.len()
                        invariant
                            ii <= ix@.len(),
                            mi < meshes@.len(),
                            mesh == &meshes@[mi as int],
                            mesh.indices matches Some(mix) && mix@ == ix@,
                            ib@ == merged_indices(meshes@.take(mi as int))
                                + ix@.take(ii as int),
                        decreases ix@.len() - ii,
                    {
                        ib.push(ix[ii]);
                        proof {
                            assert(ix@.take(ii + 1int) =~= ix@.take(ii as int)
                                + seq![ix@[ii as int]]);
                        }
                        ii = ii + 1;
                    }
                    proof {
                        assert(ix@.take(ix@.len() as int) =~= ix@);
                    }
                }
                proof {
                    let taken = meshes@.take(mi + 1int);
                    assert(taken.drop_last() =~= meshes@.take(mi as int));
                    assert(taken.last() == meshes@[mi as int]);
                }
                mi = mi + 1;
            }
            proof {
                assert(meshes@.take(meshes@.len() as int) =~= meshes@);
            }
            Some(ib)
        } else {
            None
        };

        Ok(Model { meshes, vertex_buffer, index_buffer })
    }

    /// Record this model's draw: buffers are assumed bound; an indexed model
    /// draws its whole index buffer, an unindexed one its whole vertex
    /// buffer.
    pub fn draw(&self, commands: &mut Vec<GpuCommand>)
        ensures
            final(commands)@ == old(commands)@ + seq![
                if self.indexed() {
                    GpuCommand::DrawIndexed { index_count: self.index_buffer->Some_0@.len() as usize }
                } else {
                    GpuCommand::Draw { vertex_count: self.vertex_buffer@.len() as usize }
                },
            ],
    {
        match &self.index_buffer {
            Some(ib) => {
                commands.push(GpuCommand::DrawIndexed { index_count: ib.len() });
            },
            None => {
                commands.push(GpuCommand::Draw { vertex_count: self.vertex_buffer.len() });
            },
        }
    }

    /// All meshes' vertices, in mesh order.
    pub fn get_vertices_merged(&self) -> (r: Vec<Vertex>)
        ensures
            r@ == merged_vertices(self.meshes@),
    {
        let mut out: Vec<Vertex> = Vec::new();
        let mut mi: usize = 0;
        while mi < self.meshes.len()
            invariant
                mi <= self.meshes@.len(),
                out@ == merged_vertices(self.meshes@.take(mi as int)),
            decreases self.meshes@.len() - mi,
        {
            let mesh = &self.meshes[mi];
            let mut vi: usize = 0;
            while vi < mesh.vertices.len()
                invariant
                    vi <= mesh.vertices@.len(),
                    mi < self.meshes@.len(),
                    mesh == &self.meshes@[mi as int],
                    out@ == merged_vertices(self.meshes@.take(mi as int))
                        + mesh.vertices@.take(vi as int),
                decreases mesh.vertices@.len() - vi,
            {
                out.push(mesh.vertices[vi]);
                proof {
                    assert(mesh.vertices@.take(vi + 1int) =~= mesh.vertices@.take(vi as int)
                        + seq![mesh.vertices@[vi as int]]);
                }
                vi = vi + 1;
            }
            proof {
                let taken = self.meshes@.take(mi + 1int);
                assert(taken.drop_last() =~= self.meshes@.take(mi as int));
                assert(taken.last() == self.meshes@[mi as int]);
                assert(mesh.vertices@.take(vi as int) =~= mesh.vertices@);
            }
            mi = mi + 1;
        }
        proof {
            assert(self.meshes@.take(self.meshes@.len() as int) =~= self.meshes@);
        }
        out
    }

    /// All meshes' index values, in mesh order, when the model is indexed.
    pub fn get_indices_merged(&self) -> (r: Option<Vec<u32>>)
        requires
            self.wf(),
        ensures
            r is Some <==> self.indexed(),
            r matches Some(ix) ==> ix@ == merged_indices(self.meshes@),
    {
        match &self.index_buffer {
            Some(ib) => {
                let mut out: Vec<u32> = Vec::new();
                let mut i: usize = 0;
                while i < ib.len()
                    invariant
                        i <= ib@.len(),
                        out@ == ib@.take(i as int),
                    decreases ib@.len() - i,
                {
                    out.push(ib[i]);
                    proof {
                        assert(ib@.take(i + 1int) =~= ib@.take(i as int) + seq![ib@[i as int]]);
                    }
                    i = i + 1;
                }
                proof {
                    assert(ib@.take(ib@.len() as int) =~= ib@);
                }
                Some(out)
            },
            None => None,
        }
    }

    pub fn get_meshes(&self) -> (r: &Vec<Mesh>)
        ensures
            r == &self.meshes,
    {
        &self.meshes
    }
}

} // verus!
