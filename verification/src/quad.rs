//! The fullscreen quad: aspect-corrected geometry, rewritten in place.
//!
//! The canonical unit quad is kept unmodified as the source of truth. Every
//! resize recomputes a scaled copy of its vertices from that source — never
//! from the previous buffer — and overwrites the GPU vertex buffer, leaving
//! the index buffer alone. The scale is an exact pair of fractions, so a
//! repeated resize at the same sizes reproduces the buffer bit for bit.

use vstd::prelude::*;
use crate::commands::GpuCommand;
use crate::error::RenderError;
use crate::mesh::{quad_vertices, Mesh};
use crate::model::{merged_vertices, Model};
use crate::vertex::{Frac, FracVec3, ShaderVertex, Vertex};
use crate::viewport::Viewport;

verus! {

/// Per-axis scale as exact fractions: the X axis is scaled by
/// `x_num / x_den`, the Y axis by `y_num / y_den`.
#[derive(Clone, Copy, Debug, PartialEq, Eq, Structural)]
pub struct Scale {
    pub x_num: u64,
    pub x_den: u64,
    pub y_num: u64,
    pub y_den: u64,
}

impl Scale {
    pub open spec fn wf(self) -> bool {
        self.x_den > 0 && self.y_den > 0
    }
}

/// The aspect-correcting scale. First fit the content: the short content
/// axis is scaled by the content aspect ratio, the long one stays at one.
/// Then correct for the viewport: the axis along the long viewport side is
/// stretched by the viewport aspect ratio.
pub open spec fn scale_spec(
    content_w: u32,
    content_h: u32,
    viewport_w: u32,
    viewport_h: u32,
) -> Scale {
    let xn: u64 = if content_w >= content_h { 1u64 } else { content_w as u64 };
    let xd: u64 = if content_w >= content_h { 1u64 } else { content_h as u64 };
    let yn: u64 = if content_w < content_h { 1u64 } else { content_h as u64 };
    let yd: u64 = if content_w < content_h { 1u64 } else { content_w as u64 };
    if viewport_w >= viewport_h {
        Scale {
            x_num: xn,
            x_den: xd,
            y_num: (yn * viewport_w) as u64,
            y_den: (yd * viewport_h) as u64,
        }
    } else {
        Scale {
            x_num: (xn * viewport_h) as u64,
            x_den: (xd * viewport_w) as u64,
            y_num: yn,
            y_den: yd,
        }
    }
}

/// Compute the aspect-correcting scale for the given content and viewport
/// pixel sizes.
pub fn compute_scale(
    content_w: u32,
    content_h: u32,
    viewport_w: u32,
    viewport_h: u32,
) -> (s: Scale)
    requires
        content_w > 0,
        content_h > 0,
        viewport_w > 0,
        viewport_h > 0,
    ensures
        s == scale_spec(content_w, content_h, viewport_w, viewport_h),
        s.wf(),
{
    let (mut xn, mut xd): (u64, u64) = if content_w >= content_h {
        (1, 1)
    } else {
        (content_w as u64, content_h as u64)
    };
    let (mut yn, mut yd): (u64, u64) = if content_w < content_h {
        (1, 1)
    } else {
        (content_h as u64, content_w as u64)
    };
    if viewport_w >= viewport_h {
        proof {
            assert(yn * viewport_w < 0x1_0000_0000_0000_0000) by (nonlinear_arith)
                requires
                    0 <= yn <= 0xffff_ffffu64,
                    viewport_w <= 0xffff_ffffu32,
            ;
            assert(0 < yd * viewport_h < 0x1_0000_0000_0000_0000) by (nonlinear_arith)
                requires
                    0 < yd <= 0xffff_ffffu64,
                    0 < viewport_h <= 0xffff_ffffu32,
            ;
        }
        yn = yn * viewport_w as u64;
        yd = yd * viewport_h as u64;
    } else {
        proof {
            assert(xn * viewport_h < 0x1_0000_0000_0000_0000) by (nonlinear_arith)
                requires
                    0 <= xn <= 0xffff_ffffu64,
                    viewport_h <= 0xffff_ffffu32,
            ;
            assert(0 < xd * viewport_w < 0x1_0000_0000_0000_0000) by (nonlinear_arith)
                requires
                    0 < xd <= 0xffff_ffffu64,
                    0 < viewport_w <= 0xffff_ffffu32,
            ;
        }
        xn = xn * viewport_h as u64;
        xd = xd * viewport_w as u64;
    }
    Scale { x_num: xn, x_den: xd, y_num: yn, y_den: yd }
}

/// Aspect correction correctness: for content aspect `c = content_w /
/// content_h` and viewport aspect `v = viewport_w / viewport_h`, the
/// computed scale always satisfies `scale.x / scale.y == c / v` — stated
/// cross-multiplied, since all quantities are exact fractions.
pub proof fn lemma_aspect_correction(
    content_w: u32,
    content_h: u32,
    viewport_w: u32,
    viewport_h: u32,
)
    requires
        content_w > 0,
        content_h > 0,
        viewport_w > 0,
        viewport_h > 0,
    ensures
        ({
            let s = scale_spec(content_w, content_h, viewport_w, viewport_h);
            s.x_num * s.y_den * (content_h * viewport_w)
                == s.y_num * s.x_den * (content_w * viewport_h)
        }),
{
    let s = scale_spec(content_w, content_h, viewport_w, viewport_h);
    let cw = content_w as int;
    let ch = content_h as int;
    let vw = viewport_w as int;
    let vh = viewport_h as int;
    assert(cw * vh < 0x1_0000_0000_0000_0000 && ch * vw < 0x1_0000_0000_0000_0000
        && cw * vw < 0x1_0000_0000_0000_0000 && ch * vh < 0x1_0000_0000_0000_0000)
        by (nonlinear_arith)
        requires
            0 <= cw <= 0xffff_ffff,
            0 <= ch <= 0xffff_ffff,
            0 <= vw <= 0xffff_ffff,
            0 <= vh <= 0xffff_ffff,
    ;
    if content_w >= content_h {
        if viewport_w >= viewport_h {
            assert(s.x_num == 1 && s.x_den == 1 && s.y_num == ch * vw && s.y_den == cw * vh);
            assert(1 * (cw * vh) * (ch * vw) == (ch * vw) * 1 * (cw * vh)) by (nonlinear_arith);
        } else {
            assert(s.x_num == vh && s.x_den == vw && s.y_num == ch && s.y_den == cw);
            assert(vh * cw * (ch * vw) == ch * vw * (cw * vh)) by (nonlinear_arith);
        }
    } else {
        if viewport_w >= viewport_h {
            assert(s.x_num == cw && s.x_den == ch && s.y_num == 1 * vw && s.y_den == 1 * vh);
            assert(cw * vh * (ch * vw) == vw * ch * (cw * vh)) by (nonlinear_arith);
        } else {
            assert(s.x_num == cw * vh && s.x_den == ch * vw && s.y_num == 1 && s.y_den == 1);
            assert((cw * vh) * 1 * (ch * vw) == 1 * (ch * vw) * (cw * vh)) by (nonlinear_arith);
        }
    }
}

/// The scale never exceeds the unit range on the dominant viewport axis:
/// along the long side of the viewport, the quad stays within the unit quad.
pub proof fn lemma_dominant_axis_bounded(
    content_w: u32,
    content_h: u32,
    viewport_w: u32,
    viewport_h: u32,
)
    requires
        content_w > 0,
        content_h > 0,
        viewport_w > 0,
        viewport_h > 0,
    ensures
        ({
            let s = scale_spec(content_w, content_h, viewport_w, viewport_h);
            if viewport_w >= viewport_h {
                s.x_num <= s.x_den
            } else {
                s.y_num <= s.y_den
            }
        }),
{
}

/// One source vertex scaled for the buffer: X and Y of the position pick up
/// the exact per-axis factor (over the half-unit denominator), Z and every
/// other attribute pass through unchanged.
pub open spec fn scale_vertex(v: Vertex, s: Scale) -> ShaderVertex {
    ShaderVertex {
        position: FracVec3 {
            x: Frac {
                num: (v.position.x * s.x_num) as i128,
                den: (2 * s.x_den) as u128,
            },
            y: Frac {
                num: (v.position.y * s.y_num) as i128,
                den: (2 * s.y_den) as u128,
            },
            z: Frac { num: v.position.z as i128, den: 2 },
        },
        normal: v.normal,
        color: v.color,
        texcoord: v.texcoord,
    }
}

/// A whole buffer scaled from source vertices.
pub open spec fn scaled_buffer(source: Seq<Vertex>, s: Scale) -> Seq<ShaderVertex> {
    source.map_values(|v: Vertex| scale_vertex(v, s))
}

/// The ghost state of a fullscreen quad: the immutable source vertices, the
/// content size, and the current GPU vertex buffer contents.
pub struct QuadView {
    pub source: Seq<Vertex>,
    pub image_width: u32,
    pub image_height: u32,
    pub buffer: Seq<ShaderVertex>,
}

/// A quad after one resize at the given viewport: the buffer is recomputed
/// from the immutable source, everything else stays.
pub open spec fn quad_after_resize(q: QuadView, vp: Viewport) -> QuadView {
    QuadView {
        buffer: scaled_buffer(
            q.source,
            scale_spec(q.image_width, q.image_height, vp.width, vp.height),
        ),
        ..q
    }
}

/// Resize stability: a second resize at the same viewport reproduces the
/// buffer exactly, because each resize recomputes from the unchanged source.
pub proof fn lemma_resize_stability(q: QuadView, vp: Viewport)
    ensures
        quad_after_resize(quad_after_resize(q, vp), vp) == quad_after_resize(q, vp),
{
}

/// A model whose GPU vertex buffer is rewritten — not reallocated — whenever
/// the viewport or the content aspect changes.
#[derive(Debug)]
pub struct FullscreenQuad {
    /// The source geometry; its own buffers are never rewritten.
    pub quad_model: Model,
    /// Content pixel width: the aspect ratio of what the quad displays.
    pub image_width: u32,
    /// Content pixel height.
    pub image_height: u32,
    /// Contents of the GPU vertex buffer the quad renders from.
    pub buffer: Vec<ShaderVertex>,
}

impl View for FullscreenQuad {
    type V = QuadView;

    open spec fn view(&self) -> QuadView {
        QuadView {
            source: merged_vertices(self.quad_model.meshes@),
            image_width: self.image_width,
            image_height: self.image_height,
            buffer: self.buffer@,
        }
    }
}

impl FullscreenQuad {
    pub open spec fn wf(self) -> bool {
        &&& self.quad_model.wf()
        &&& self.image_width > 0
        &&& self.image_height > 0
    }

    /// Build the quad from the canonical unit-quad mesh, assume square
    /// content, and fit it to the given viewport.
    pub fn new(viewport: &Viewport) -> (r: Result<FullscreenQuad, RenderError>)
        requires
            viewport.width > 0,
            viewport.height > 0,
        ensures
            r matches Ok(q) && q.wf() && q@.source == quad_vertices()
                && q.image_width == 1 && q.image_height == 1
                && q@ == quad_after_resize(
                    QuadView {
                        source: quad_vertices(),
                        image_width: 1u32,
                        image_height: 1u32,
                        buffer: Seq::empty(),
                    },
                    *viewport,
                ),
    {
        let quad_mesh = Mesh::new_quad();
        let mut meshes: Vec<Mesh> = Vec::new();
        meshes.push(quad_mesh);
        let quad_model = match Model::new(meshes) {
            Ok(m) => m,
            Err(e) => {
                proof {
                    assert(false);
                }
                return Err(e);
            },
        };
        proof {
            assert(quad_model.meshes@.len() == 1);
            assert(quad_model.meshes@.last().vertices@ == quad_vertices());
            assert(quad_model.meshes@.drop_last() =~= Seq::<Mesh>::empty());
            assert(merged_vertices(Seq::<Mesh>::empty()) =~= Seq::<Vertex>::empty());
            assert(merged_vertices(quad_model.meshes@) =~= quad_vertices());
        }
        let mut quad = FullscreenQuad {
            quad_model,
            image_width: 1,
            image_height: 1,
            buffer: Vec::new(),
        };
        quad.resize_to_viewport(viewport);
        Ok(quad)
    }

    /// Rewrite the vertex buffer to fit the viewport: recompute the
    /// aspect-correcting scale and apply it to the unmodified source
    /// vertices. Idempotent: the buffer depends only on the source and the
    /// current sizes, never on the previous buffer.
    pub fn resize_to_viewport(&mut self, viewport: &Viewport)
        requires
            old(self).wf(),
            viewport.width > 0,
            viewport.height > 0,
        ensures
            final(self)@ == quad_after_resize(old(self)@, *viewport),
            final(self).quad_model == old(self).quad_model,
            final(self).image_width == old(self).image_width,
            final(self).image_height == old(self).image_height,
            final(self).wf(),
    {
        let scale = compute_scale(
            self.image_width,
            self.image_height,
            viewport.width,
            viewport.height,
        );
        let source = self.quad_model.get_vertices_merged();
        let mut buffer: Vec<ShaderVertex> = Vec::new();
        let mut i: usize = 0;
        while i < source.len()
            invariant
                i <= source@.len(),
                scale.wf(),
                buffer@ == scaled_buffer(source@.take(i as int), scale),
            decreases source@.len() - i,
        {
            let v = source[i];
            proof {
                assert(v.position.x * scale.x_num <= 0x8000_0000i128 * 0x1_0000_0000_0000_0000i128)
                    by (nonlinear_arith)
                    requires
                        v.position.x <= 0x8000_0000i128,
                        scale.x_num <= 0x1_0000_0000_0000_0000i128,
                        scale.x_num >= 0,
                ;
                assert(v.position.x * scale.x_num >= -0x8000_0000i128
                    * 0x1_0000_0000_0000_0000i128)
                    by (nonlinear_arith)
                    requires
                        v.position.x >= -0x8000_0000i128,
                        scale.x_num <= 0x1_0000_0000_0000_0000i128,
                        scale.x_num >= 0,
                ;
                assert(v.position.y * scale.y_num <= 0x8000_0000i128 * 0x1_0000_0000_0000_0000i128)
                    by (nonlinear_arith)
                    requires
                        v.position.y <= 0x8000_0000i128,
                        scale.y_num <= 0x1_0000_0000_0000_0000i128,
                        scale.y_num >= 0,
                ;
                assert(v.position.y * scale.y_num >= -0x8000_0000i128
                    * 0x1_0000_0000_0000_0000i128)
                    by (nonlinear_arith)
                    requires
                        v.position.y >= -0x8000_0000i128,
                        scale.y_num <= 0x1_0000_0000_0000_0000i128,
                        scale.y_num >= 0,
                ;
            }
            let scaled = ShaderVertex {
                position: FracVec3 {
                    x: Frac {
                        num: (v.position.x as i128) * (scale.x_num as i128),
                        den: 2 * (scale.x_den as u128),
                    },
                    y: Frac {
                        num: (v.position.y as i128) * (scale.y_num as i128),
                        den: 2 * (scale.y_den as u128),
                    },
                    z: Frac { num: v.position.z as i128, den: 2 },
                },
                normal: v.normal,
                color: v.color,
                texcoord: v.texcoord,
            };
            buffer.push(scaled);
            proof {
                assert(scaled == scale_vertex(v, scale));
                assert(scaled_buffer(source@.take(i + 1int), scale) =~= scaled_buffer(
                    source@.take(i as int),
                    scale,
                ) + seq![scale_vertex(source@[i as int], scale)]);
            }
            i = i + 1;
        }
        proof {
            assert(source@.take(source@.len() as int) =~= source@);
        }
        self.buffer = buffer;
    }

    /// Change the content the quad displays — its aspect ratio is what the
    /// scale corrects for — and rewrite the buffer for it at once.
    pub fn set_content_size(&mut self, width: u32, height: u32, viewport: &Viewport)
        requires
            old(self).wf(),
            width > 0,
            height > 0,
            viewport.width > 0,
            viewport.height > 0,
        ensures
            final(self).quad_model == old(self).quad_model,
            final(self).image_width == width,
            final(self).image_height == height,
            final(self)@ == quad_after_resize(
                QuadView { image_width: width, image_height: height, ..old(self)@ },
                *viewport,
            ),
            final(self).wf(),
    {
        self.image_width = width;
        self.image_height = height;
        self.resize_to_viewport(viewport);
    }

    /// Record the quad's draw; the scaled vertex buffer is what the
    /// embedding binds for it.
    pub fn draw(&self, commands: &mut Vec<GpuCommand>)
        ensures
            final(commands)@ == old(commands)@ + seq![
                if self.quad_model.indexed() {
                    GpuCommand::DrawIndexed {
                        index_count: self.quad_model.index_buffer->Some_0@.len() as usize,
                    }
                } else {
                    GpuCommand::Draw {
                        vertex_count: self.quad_model.vertex_buffer@.len() as usize,
                    }
                },
            ],
    {
        self.quad_model.draw(commands);
    }
}

} // verus!
