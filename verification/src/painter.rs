//! Frame painter: scissor clamping, the texture-atlas cache, and the per-frame
//! draw plan.
//!
//! The painter owns no GPU objects itself; it models them as numbered binding
//! handles and produces a [`FramePlan`] — texture upload, uniform block and
//! ordered draw calls — that the platform layer replays against the device.
//! Draw order preserves job order (painter's algorithm), and a draw is issued
//! exactly for every job whose clip rectangle survives clamping to the
//! physical viewport.

use crate::geometry::{
    clip_rect_wf, paint_job_wf, spec_indices_bytes, spec_vertices_bytes, encode_indices,
    encode_vertices, ClipRect, PaintJob, PaintJobView, CLIP_BOUND_FIXED,
};
use crate::units::{
    logical_fixed, spec_logical_fixed, FIXED_ONE_SQUARED, MAX_SCALE_FIXED,
};
use vstd::arithmetic::div_mod::{lemma_div_by_multiple, lemma_div_is_ordered};
use vstd::prelude::*;

verus! {

/// The GUI library's font/glyph atlas: a single-channel image plus the
/// version identifier that decides residency.
pub struct TextureAtlas {
    /// Version identifier: a new value always triggers a re-upload.
    pub id: u64,
    pub width: u32,
    pub height: u32,
    /// One byte per pixel, row-major, densely packed.
    pub pixels: Vec<u8>,
}

/// An atlas is well-formed when it is densely packed: one byte per pixel.
pub open spec fn atlas_wf(a: TextureAtlas) -> bool {
    &&& 1 <= a.height
    &&& a.pixels@.len() == a.width * a.height
}

/// A texture upload the platform layer must perform before drawing.
pub struct TextureUpload {
    /// Fresh binding handle for the new GPU texture.
    pub binding: u64,
    /// Binding handle of the displaced texture, to release first (no leak).
    pub released: Option<u64>,
    pub width: u32,
    pub height: u32,
    /// Row pitch of `pixels`: the total length divided by the height, which
    /// equals the width for a densely packed atlas.
    pub bytes_per_row: usize,
    pub pixels: Vec<u8>,
}

/// Scissor rectangle in physical pixels, clamped to the viewport.
#[derive(Clone, Copy, Debug, PartialEq, Eq, Structural)]
pub struct ScissorRect {
    pub x: u32,
    pub y: u32,
    pub width: u32,
    pub height: u32,
}

/// Per-frame uniform block: screen size in fixed-point logical points and
/// atlas size in texels.
#[derive(Clone, Copy, Debug, PartialEq, Eq, Structural)]
pub struct Uniform {
    pub screen_width_fixed: u64,
    pub screen_height_fixed: u64,
    pub tex_width: u32,
    pub tex_height: u32,
}

/// One indexed draw: scissor, packed buffers, and the index range.
pub struct DrawCall {
    pub scissor: ScissorRect,
    pub vertex_data: Vec<u8>,
    pub index_data: Vec<u8>,
    pub index_count: u32,
}

/// Mathematical view of a [`DrawCall`].
pub ghost struct DrawCallView {
    pub scissor: ScissorRect,
    pub vertex_data: Seq<u8>,
    pub index_data: Seq<u8>,
    pub index_count: u32,
}

impl View for DrawCall {
    type V = DrawCallView;

    open spec fn view(&self) -> DrawCallView {
        DrawCallView {
            scissor: self.scissor,
            vertex_data: self.vertex_data@,
            index_data: self.index_data@,
            index_count: self.index_count,
        }
    }
}

/// Everything the platform layer must do to render one frame, in order:
/// release-and-upload the atlas if requested, write the uniform block once,
/// then replay the draws in sequence.
pub struct FramePlan {
    pub upload: Option<TextureUpload>,
    /// Binding handle of the atlas texture to bind for every draw.
    pub texture_binding: u64,
    pub uniform: Uniform,
    pub draws: Vec<DrawCall>,
}

/// Clamp to zero from below.
pub open spec fn clamp0(x: i64) -> int {
    if x < 0 {
        0
    } else {
        x as int
    }
}

/// Division rounding up (for non-negative numerators).
pub open spec fn spec_ceil_div(a: int, b: int) -> int {
    (a + b - 1) / b
}

/// Lower scissor edge: the clip edge clamped to zero, scaled to physical
/// pixels, rounded down.
pub open spec fn spec_scissor_lo(v: i64, scale: u32) -> int {
    clamp0(v) * scale / (FIXED_ONE_SQUARED as int)
}

/// Upper scissor edge: the clip edge clamped to zero, scaled to physical
/// pixels, rounded up, then clamped to the viewport.
pub open spec fn spec_scissor_hi(v: i64, scale: u32, phys: u32) -> int {
    let up = spec_ceil_div(clamp0(v) * scale, FIXED_ONE_SQUARED as int);
    if up > phys {
        phys as int
    } else {
        up
    }
}

/// The scissor rectangle of a clip rectangle: its scaled form intersected
/// with `[0, phys_w] x [0, phys_h]`; `None` when the intersection is empty
/// (the draw is skipped, never issued with a degenerate scissor).
pub open spec fn spec_scissor(c: ClipRect, scale: u32, phys_w: u32, phys_h: u32)
    -> Option<ScissorRect> {
    let x0 = spec_scissor_lo(c.min_x, scale);
    let y0 = spec_scissor_lo(c.min_y, scale);
    let x1 = spec_scissor_hi(c.max_x, scale, phys_w);
    let y1 = spec_scissor_hi(c.max_y, scale, phys_h);
    if x0 < x1 && y0 < y1 {
        Some(
            (ScissorRect {
                x: x0 as u32,
                y: y0 as u32,
                width: (x1 - x0) as u32,
                height: (y1 - y0) as u32,
            }),
        )
    } else {
        None
    }
}

/// One scissor edge, rounded down: exec form of [`spec_scissor_lo`].
fn scissor_lo(v: i64, scale: u32) -> (r: u64)
    requires
        v <= CLIP_BOUND_FIXED,
        scale <= MAX_SCALE_FIXED,
    ensures
        r == spec_scissor_lo(v, scale),
{
    let c: u64 = if v < 0 {
        0
    } else {
        v as u64
    };
    proof {
        assert(c * scale <= 0x100_0000_0000u64 * 0x10_0000u64) by (nonlinear_arith)
            requires
                c <= 0x100_0000_0000u64,
                scale <= 0x10_0000u32,
        {
        }
        assert(FIXED_ONE_SQUARED == 16777216);
    }
    c * (scale as u64) / 16777216u64
}

/// One scissor edge, rounded up and clamped: exec form of [`spec_scissor_hi`].
fn scissor_hi(v: i64, scale: u32, phys: u32) -> (r: u64)
    requires
        v <= CLIP_BOUND_FIXED,
        scale <= MAX_SCALE_FIXED,
    ensures
        r == spec_scissor_hi(v, scale, phys),
{
    let c: u64 = if v < 0 {
        0
    } else {
        v as u64
    };
    proof {
        assert(c * scale <= 0x100_0000_0000u64 * 0x10_0000u64) by (nonlinear_arith)
            requires
                c <= 0x100_0000_0000u64,
                scale <= 0x10_0000u32,
        {
        }
        assert(FIXED_ONE_SQUARED == 16777216);
    }
    let up = (c * (scale as u64) + 16777215u64) / 16777216u64;
    if up > phys as u64 {
        phys as u64
    } else {
        up
    }
}

/// Computes the scissor rectangle for one clip rectangle.
pub fn compute_scissor(c: &ClipRect, scale: u32, phys_w: u32, phys_h: u32)
    -> (r: Option<ScissorRect>)
    requires
        clip_rect_wf(*c),
        1 <= scale <= MAX_SCALE_FIXED,
    ensures
        r == spec_scissor(*c, scale, phys_w, phys_h),
{
    let x0 = scissor_lo(c.min_x, scale);
    let y0 = scissor_lo(c.min_y, scale);
    let x1 = scissor_hi(c.max_x, scale, phys_w);
    let y1 = scissor_hi(c.max_y, scale, phys_h);
    if x0 < x1 && y0 < y1 {
        Some(ScissorRect { x: x0 as u32, y: y0 as u32, width: (x1 - x0) as u32, height: (y1
            - y0) as u32 })
    } else {
        None
    }
}

/// A clip rectangle entirely outside the viewport — past its left or top
/// edge, or starting at or beyond its right or bottom edge — yields no
/// scissor: the draw is skipped.
pub proof fn lemma_scissor_fully_outside(c: ClipRect, scale: u32, phys_w: u32, phys_h: u32)
    requires
        clip_rect_wf(c),
        1 <= scale <= MAX_SCALE_FIXED,
        c.max_x <= 0 || c.max_y <= 0 || c.min_x * scale >= phys_w * (FIXED_ONE_SQUARED as int)
            || c.min_y * scale >= phys_h * (FIXED_ONE_SQUARED as int),
    ensures
        spec_scissor(c, scale, phys_w, phys_h) is None,
{
    let f2 = FIXED_ONE_SQUARED as int;
    if c.max_x <= 0 {
        assert(spec_scissor_hi(c.max_x, scale, phys_w) <= 0);
    } else if c.max_y <= 0 {
        assert(spec_scissor_hi(c.max_y, scale, phys_h) <= 0);
    } else if c.min_x * scale >= phys_w * f2 {
        assert(c.min_x >= 0) by (nonlinear_arith)
            requires
                c.min_x * scale >= phys_w * f2,
                scale >= 1,
                phys_w >= 0,
                f2 > 0,
        {
        }
        lemma_div_is_ordered(phys_w * f2, c.min_x * scale, f2);
        lemma_div_by_multiple(phys_w as int, f2);
        assert(spec_scissor_lo(c.min_x, scale) >= phys_w);
    } else {
        assert(c.min_y >= 0) by (nonlinear_arith)
            requires
                c.min_y * scale >= phys_h * f2,
                scale >= 1,
                phys_h >= 0,
                f2 > 0,
        {
        }
        lemma_div_is_ordered(phys_h * f2, c.min_y * scale, f2);
        lemma_div_by_multiple(phys_h as int, f2);
        assert(spec_scissor_lo(c.min_y, scale) >= phys_h);
    }
}

/// A surviving scissor rectangle is clamped to the intersection with the
/// viewport: positive width and height, and contained in
/// `[0, phys_w] x [0, phys_h]` — never a negative or out-of-range extent.
pub proof fn lemma_scissor_clamped(c: ClipRect, scale: u32, phys_w: u32, phys_h: u32)
    requires
        clip_rect_wf(c),
        1 <= scale <= MAX_SCALE_FIXED,
        spec_scissor(c, scale, phys_w, phys_h) is Some,
    ensures
        spec_scissor(c, scale, phys_w, phys_h)->Some_0.width >= 1,
        spec_scissor(c, scale, phys_w, phys_h)->Some_0.height >= 1,
        spec_scissor(c, scale, phys_w, phys_h)->Some_0.x + spec_scissor(c, scale, phys_w,
            phys_h)->Some_0.width <= phys_w,
        spec_scissor(c, scale, phys_w, phys_h)->Some_0.y + spec_scissor(c, scale, phys_w,
            phys_h)->Some_0.height <= phys_h,
{
}

/// The views of a job list.
pub open spec fn spec_job_views(s: Seq<PaintJob>) -> Seq<PaintJobView> {
    s.map_values(|j: PaintJob| j@)
}

/// The views of a draw list.
pub open spec fn spec_draw_views(s: Seq<DrawCall>) -> Seq<DrawCallView> {
    s.map_values(|d: DrawCall| d@)
}

/// The draw emitted for one visible job.
pub open spec fn spec_draw_of_job(j: PaintJobView, s: ScissorRect) -> DrawCallView {
    DrawCallView {
        scissor: s,
        vertex_data: spec_vertices_bytes(j.mesh.vertices),
        index_data: spec_indices_bytes(j.mesh.indices),
        index_count: j.mesh.indices.len() as u32,
    }
}

/// The ordered draw list of a frame: one draw per job whose clip rectangle
/// survives clamping, in job order.
pub open spec fn spec_frame_draws(jobs: Seq<PaintJobView>, scale: u32, phys_w: u32, phys_h: u32)
    -> Seq<DrawCallView>
    decreases jobs.len(),
{
    if jobs.len() == 0 {
        Seq::<DrawCallView>::empty()
    } else {
        let rest = spec_frame_draws(jobs.drop_last(), scale, phys_w, phys_h);
        match spec_scissor(jobs.last().clip, scale, phys_w, phys_h) {
            Some(s) => rest + seq![spec_draw_of_job(jobs.last(), s)],
            None => rest,
        }
    }
}

/// Number of jobs whose clip rectangle survives clamping.
pub open spec fn spec_visible_count(jobs: Seq<PaintJobView>, scale: u32, phys_w: u32, phys_h: u32)
    -> int
    decreases jobs.len(),
{
    if jobs.len() == 0 {
        0
    } else {
        spec_visible_count(jobs.drop_last(), scale, phys_w, phys_h) + (
        if spec_scissor(jobs.last().clip, scale, phys_w, phys_h) is Some {
            1int
        } else {
            0int
        })
    }
}

/// The number of draw calls issued for a frame equals the number of jobs
/// with a non-degenerate (after-clamp) clip rectangle.
pub proof fn lemma_draw_count(jobs: Seq<PaintJobView>, scale: u32, phys_w: u32, phys_h: u32)
    ensures
        spec_frame_draws(jobs, scale, phys_w, phys_h).len() == spec_visible_count(
            jobs,
            scale,
            phys_w,
            phys_h,
        ),
    decreases jobs.len(),
{
    if jobs.len() > 0 {
        lemma_draw_count(jobs.drop_last(), scale, phys_w, phys_h);
    }
}

/// What a call to [`Painter::upload_texture`] guarantees: the cache ends
/// keyed by `atlas.id`; an upload is produced exactly when the version
/// changed, carries a fresh binding and the full pixel contents, and names
/// the one displaced binding to release.
pub open spec fn spec_upload_result(
    pre: Painter,
    post: Painter,
    atlas: TextureAtlas,
    r: Option<TextureUpload>,
) -> bool {
    &&& (r is Some <==> !(pre.spec_cached() is Some && pre.spec_cached()->Some_0.0 == atlas.id))
    &&& post.spec_cached() is Some
    &&& post.spec_cached()->Some_0.0 == atlas.id
    &&& (r is None ==> post == pre)
    &&& (r is Some ==> {
        let up = r->Some_0;
        &&& up.binding == pre.spec_next_binding()
        &&& post.spec_cached()->Some_0.1 == up.binding
        &&& post.spec_next_binding() == pre.spec_next_binding() + 1
        &&& up.released == (match pre.spec_cached() {
            Some(c) => Some(c.1),
            None => None::<u64>,
        })
        &&& up.width == atlas.width
        &&& up.height == atlas.height
        &&& up.pixels@ == atlas.pixels@
        &&& up.bytes_per_row == atlas.pixels@.len() as int / atlas.height as int
        &&& up.bytes_per_row == atlas.width
    })
}

/// GPU-side state of the paint pipeline, modeled as binding handles: at most
/// one atlas texture is resident at a time.
pub struct Painter {
    /// The resident atlas: its version id and its binding handle.
    cached: Option<(u64, u64)>,
    /// Next unused binding handle.
    next_binding: u64,
}

/// Copies a byte buffer.
fn copy_bytes(src: &Vec<u8>) -> (out: Vec<u8>)
    ensures
        out@ == src@,
{
    let mut out: Vec<u8> = Vec::new();
    let mut i: usize = 0;
    while i < src.len()
        invariant
            i <= src@.len(),
            out@ == src@.take(i as int),
        decreases src@.len() - i,
    {
        out.push(src[i]);
        proof {
            assert(src@.take(i + 1) =~= src@.take(i as int).push(src@[i as int]));
        }
        i = i + 1;
    }
    proof {
        assert(src@.take(src@.len() as int) =~= src@);
    }
    out
}

impl Painter {
    /// The resident atlas version and binding, if any.
    pub closed spec fn spec_cached(self) -> Option<(u64, u64)> {
        self.cached
    }

    /// The next unused binding handle.
    pub closed spec fn spec_next_binding(self) -> u64 {
        self.next_binding
    }

    /// A painter with no resident texture.
    pub fn new() -> (r: Painter)
        ensures
            r.spec_cached() is None,
            r.spec_next_binding() == 0,
    {
        Painter { cached: None, next_binding: 0 }
    }

    /// Ensures the atlas is resident: if the cached version equals
    /// `atlas.id`, no upload is produced (zero GPU traffic); otherwise the
    /// displaced binding is released and a fresh texture is uploaded in one
    /// transfer, with row pitch `pixels.len() / height`.
    pub fn upload_texture(&mut self, atlas: &TextureAtlas) -> (r: Option<TextureUpload>)
        requires
            atlas_wf(*atlas),
            old(self).spec_next_binding() < u64::MAX,
        ensures
            spec_upload_result(*old(self), *final(self), *atlas, r),
            final(self).spec_next_binding() >= old(self).spec_next_binding(),
    {
        if let Some(cached) = &self.cached {
            if cached.0 == atlas.id {
                return None;
            }
        }
        let released = match &self.cached {
            Some(c) => Some(c.1),
            None => None,
        };
        let binding = self.next_binding;
        self.next_binding = self.next_binding + 1;
        self.cached = Some((atlas.id, binding));
        let pixels = copy_bytes(&atlas.pixels);
        let bytes_per_row = pixels.len() / (atlas.height as usize);
        proof {
            assert(atlas.pixels@.len() as int / atlas.height as int == atlas.width)
                by (nonlinear_arith)
                requires
                    atlas.pixels@.len() == atlas.width * atlas.height,
                    atlas.height >= 1,
            {
            }
        }
        Some(
            TextureUpload {
                binding,
                released,
                width: atlas.width,
                height: atlas.height,
                bytes_per_row,
                pixels,
            },
        )
    }

    /// Plans one frame: ensures the atlas is resident, writes the uniform
    /// block once, and emits one draw — scissor, packed vertex and index
    /// buffers, full index range — for every job whose clip rectangle
    /// survives clamping, preserving job order.
    pub fn paint_jobs(
        &mut self,
        jobs: &Vec<PaintJob>,
        phys_w: u32,
        phys_h: u32,
        scale: u32,
        atlas: &TextureAtlas,
    ) -> (plan: FramePlan)
        requires
            forall|k: int| 0 <= k < jobs@.len() ==> paint_job_wf((#[trigger] jobs@[k])@),
            1 <= scale <= MAX_SCALE_FIXED,
            atlas_wf(*atlas),
            old(self).spec_next_binding() < u64::MAX,
        ensures
            spec_upload_result(*old(self), *final(self), *atlas, plan.upload),
            plan.texture_binding == final(self).spec_cached()->Some_0.1,
            plan.uniform.screen_width_fixed == spec_logical_fixed(phys_w, scale),
            plan.uniform.screen_height_fixed == spec_logical_fixed(phys_h, scale),
            plan.uniform.tex_width == atlas.width,
            plan.uniform.tex_height == atlas.height,
            spec_draw_views(plan.draws@) == spec_frame_draws(
                spec_job_views(jobs@),
                scale,
                phys_w,
                phys_h,
            ),
            plan.draws@.len() == spec_visible_count(spec_job_views(jobs@), scale, phys_w, phys_h),
    {
        let upload = self.upload_texture(atlas);
        let texture_binding = if let Some(c) = &self.cached {
            c.1
        } else {
            proof {
                assert(false);
            }
            0
        };
        let uniform = Uniform {
            screen_width_fixed: logical_fixed(phys_w, scale),
            screen_height_fixed: logical_fixed(phys_h, scale),
            tex_width: atlas.width,
            tex_height: atlas.height,
        };
        let ghost views = spec_job_views(jobs@);
        let mut draws: Vec<DrawCall> = Vec::new();
        let mut i: usize = 0;
        while i < jobs.len()
            invariant
                i <= jobs@.len(),
                views == spec_job_views(jobs@),
                forall|k: int| 0 <= k < jobs@.len() ==> paint_job_wf((#[trigger] jobs@[k])@),
                1 <= scale <= MAX_SCALE_FIXED,
                spec_draw_views(draws@) == spec_frame_draws(
                    views.take(i as int),
                    scale,
                    phys_w,
                    phys_h,
                ),
            decreases jobs@.len() - i,
        {
            let job = &jobs[i];
            let ghost prev = draws@;
            match compute_scissor(&job.clip, scale, phys_w, phys_h) {
                Some(scissor) => {
                    let vertex_data = encode_vertices(&job.mesh.vertices);
                    let index_data = encode_indices(&job.mesh.indices);
                    let index_count = job.mesh.indices.len() as u32;
                    draws.push(
                        DrawCall { scissor, vertex_data, index_data, index_count },
                    );
                    proof {
                        assert(spec_draw_views(draws@) =~= spec_draw_views(prev).push(
                            spec_draw_of_job(views[i as int], scissor),
                        ));
                    }
                },
                None => {
                },
            }
            proof {
                assert(views.take(i + 1).drop_last() =~= views.take(i as int));
                assert(views.take(i + 1).last() == views[i as int]);
                assert(spec_draw_views(draws@) =~= spec_frame_draws(
                    views.take(i + 1),
                    scale,
                    phys_w,
                    phys_h,
                ));
            }
            i = i + 1;
        }
        proof {
            assert(views.take(views.len() as int) =~= views);
            lemma_draw_count(views, scale, phys_w, phys_h);
            assert(spec_draw_views(draws@).len() == draws@.len());
        }
        FramePlan { upload, texture_binding, uniform, draws }
    }
}

} // verus!
