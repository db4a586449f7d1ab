use egui_wgpu::geometry::{encode_indices, encode_vertices, ClipRect, Mesh, PaintJob, Vertex};
use egui_wgpu::painter::{compute_scissor, Painter, ScissorRect, TextureAtlas};

const ONE: i64 = 4096; // one logical point in fixed-point units
const SCALE_2X: u32 = 8192; // DPI scale 2.0

fn points(p: i64) -> i64 {
    p * ONE
}

fn atlas(id: u64, width: u32, height: u32) -> TextureAtlas {
    TextureAtlas { id, width, height, pixels: vec![0u8; (width * height) as usize] }
}

fn square_mesh() -> Mesh {
    let v = Vertex {
        pos_x_bits: 0,
        pos_y_bits: 0,
        uv_u: 0,
        uv_v: 0,
        r: 255,
        g: 255,
        b: 255,
        a: 255,
    };
    Mesh { vertices: vec![v, v, v, v], indices: vec![0, 1, 2, 0, 2, 3] }
}

fn job(min_x: i64, min_y: i64, max_x: i64, max_y: i64) -> PaintJob {
    PaintJob {
        clip: ClipRect { min_x, min_y, max_x, max_y },
        mesh: square_mesh(),
    }
}

#[test]
fn scissor_inside_viewport_is_scaled() {
    let c = ClipRect { min_x: 0, min_y: 0, max_x: points(100), max_y: points(50) };
    let s = compute_scissor(&c, SCALE_2X, 1600, 1200).unwrap();
    assert_eq!(s, ScissorRect { x: 0, y: 0, width: 200, height: 100 });
}

#[test]
fn scissor_fractional_edges_round_outward() {
    // [0.25, 1.25] points at scale 2 is [0.5, 2.5] pixels: floor 0, ceil 3.
    let c = ClipRect { min_x: ONE / 4, min_y: ONE / 4, max_x: ONE + ONE / 4, max_y: ONE + ONE / 4 };
    let s = compute_scissor(&c, SCALE_2X, 1600, 1200).unwrap();
    assert_eq!(s, ScissorRect { x: 0, y: 0, width: 3, height: 3 });
}

#[test]
fn scissor_entirely_outside_is_skipped() {
    let left = ClipRect { min_x: points(-50), min_y: 0, max_x: points(-10), max_y: points(10) };
    assert!(compute_scissor(&left, SCALE_2X, 1600, 1200).is_none());
    let below = ClipRect {
        min_x: 0,
        min_y: points(700),
        max_x: points(10),
        max_y: points(800),
    };
    // 700 points at scale 2 is 1400 pixels, beyond a 1200-pixel viewport.
    assert!(compute_scissor(&below, SCALE_2X, 1600, 1200).is_none());
}

#[test]
fn scissor_partially_outside_is_clamped() {
    let c = ClipRect { min_x: points(-10), min_y: points(-10), max_x: points(10), max_y: points(10) };
    let s = compute_scissor(&c, SCALE_2X, 1600, 1200).unwrap();
    assert_eq!(s, ScissorRect { x: 0, y: 0, width: 20, height: 20 });
    let c2 = ClipRect { min_x: points(790), min_y: 0, max_x: points(900), max_y: points(10) };
    let s2 = compute_scissor(&c2, SCALE_2X, 1600, 1200).unwrap();
    // Clamped to the right edge of the 1600-pixel viewport.
    assert_eq!(s2, ScissorRect { x: 1580, y: 0, width: 20, height: 20 });
}

#[test]
fn draw_calls_match_visible_jobs() {
    let mut p = Painter::new();
    let a = atlas(1, 8, 8);
    let jobs = vec![
        job(0, 0, points(100), points(100)),
        job(points(-50), 0, points(-10), points(10)), // entirely outside
        job(points(10), points(10), points(20), points(20)),
    ];
    let plan = p.paint_jobs(&jobs, 1600, 1200, SCALE_2X, &a);
    assert_eq!(plan.draws.len(), 2);
    // Job order is preserved: the first draw is the first visible job.
    assert_eq!(plan.draws[0].scissor, ScissorRect { x: 0, y: 0, width: 200, height: 200 });
    assert_eq!(plan.draws[1].scissor, ScissorRect { x: 20, y: 20, width: 20, height: 20 });
    assert_eq!(plan.draws[0].index_count, 6);
    assert_eq!(plan.draws[0].index_data.len(), 24);
    assert_eq!(plan.draws[0].vertex_data.len(), 64);
}

#[test]
fn texture_upload_only_on_version_change() {
    let mut p = Painter::new();
    let a1 = atlas(7, 4, 4);
    let first = p.upload_texture(&a1).expect("first use must upload");
    assert_eq!(first.released, None);
    // Same version again: zero GPU traffic.
    assert!(p.upload_texture(&a1).is_none());
    // A new version uploads once and releases exactly the prior binding.
    let a2 = atlas(8, 4, 4);
    let second = p.upload_texture(&a2).expect("new version must upload");
    assert_eq!(second.released, Some(first.binding));
    assert_ne!(second.binding, first.binding);
    assert!(p.upload_texture(&a2).is_none());
}

#[test]
fn texture_upload_carries_the_full_image() {
    let mut p = Painter::new();
    let mut a = atlas(1, 4, 3);
    a.pixels = (0u8..12).collect();
    let up = p.upload_texture(&a).unwrap();
    assert_eq!(up.width, 4);
    assert_eq!(up.height, 3);
    // Row pitch: pixel count divided by height.
    assert_eq!(up.bytes_per_row, 4);
    assert_eq!(up.pixels, (0u8..12).collect::<Vec<u8>>());
}

#[test]
fn paint_jobs_uniform_holds_logical_size_and_atlas_size() {
    let mut p = Painter::new();
    let a = atlas(3, 16, 8);
    let plan = p.paint_jobs(&vec![], 1600, 1200, SCALE_2X, &a);
    // 1600 x 1200 pixels at scale 2.0 is 800 x 600 points.
    assert_eq!(plan.uniform.screen_width_fixed, 800 * ONE as u64);
    assert_eq!(plan.uniform.screen_height_fixed, 600 * ONE as u64);
    assert_eq!(plan.uniform.tex_width, 16);
    assert_eq!(plan.uniform.tex_height, 8);
    assert!(plan.upload.is_some());
    assert_eq!(plan.texture_binding, plan.upload.unwrap().binding);
}

#[test]
fn vertex_wire_format_is_exact() {
    let v = Vertex {
        pos_x_bits: 1.5f32.to_bits(),
        pos_y_bits: (-2.0f32).to_bits(),
        uv_u: 0x1234,
        uv_v: 0xabcd,
        r: 1,
        g: 2,
        b: 3,
        a: 4,
    };
    let bytes = encode_vertices(&vec![v]);
    let mut expected = Vec::new();
    expected.extend_from_slice(&1.5f32.to_bits().to_le_bytes());
    expected.extend_from_slice(&(-2.0f32).to_bits().to_le_bytes());
    expected.extend_from_slice(&0x1234u16.to_le_bytes());
    expected.extend_from_slice(&0xabcdu16.to_le_bytes());
    expected.extend_from_slice(&[1, 2, 3, 4]);
    assert_eq!(bytes, expected);
    assert_eq!(bytes.len(), 16);
}

#[test]
fn index_wire_format_is_little_endian_u32() {
    let bytes = encode_indices(&vec![1, 2, 0x01020304]);
    assert_eq!(bytes, vec![1, 0, 0, 0, 2, 0, 0, 0, 4, 3, 2, 1]);
}

#[test]
fn empty_job_list_issues_no_draws() {
    let mut p = Painter::new();
    let a = atlas(1, 8, 8);
    let plan = p.paint_jobs(&vec![], 1600, 1200, SCALE_2X, &a);
    assert_eq!(plan.draws.len(), 0);
}
