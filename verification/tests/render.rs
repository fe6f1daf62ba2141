use bevy_egui::render::{
    clip_visible, egui_texture_id, grown_capacity, pack_paint_jobs, plan_render_pass, scissor_rect,
    texture_handles, ClippedPrimitive, DrawCommand, DrawPrimitive, EguiTextureId, PixelRect,
    Primitive, RenderOp,
};
use bevy_egui::textures::{EguiUserTextures, TextureId};

fn rect(min_x: u32, min_y: u32, max_x: u32, max_y: u32) -> PixelRect {
    PixelRect { min_x, min_y, max_x, max_y }
}

#[test]
fn rectangles_follow_the_engine() {
    assert_eq!(scissor_rect(rect(5, 5, 20, 20), 10, 10), rect(5, 5, 10, 10));
    // A clip rectangle off the target collapses to an empty one at the target's corner.
    let d = scissor_rect(rect(15, 15, 20, 20), 10, 10);
    assert_eq!(d, rect(10, 10, 10, 10));
    assert!(!clip_visible(rect(15, 15, 20, 20), 10, 10));
    assert_eq!(scissor_rect(rect(90, 40, 200, 60), 100, 50), rect(90, 40, 100, 50));
    assert!(clip_visible(rect(90, 40, 200, 60), 100, 50));
    assert!(!clip_visible(rect(100, 0, 200, 60), 100, 50));
}

#[test]
fn buffer_capacity_grows_to_powers_of_two() {
    assert_eq!(grown_capacity(5, 0), 8);
    assert_eq!(grown_capacity(8, 4), 8);
    assert_eq!(grown_capacity(9, 8), 16);
    assert_eq!(grown_capacity(3, 10), 10);
    assert_eq!(grown_capacity(0, 0), 0);
    assert_eq!(grown_capacity(1, 0), 1);
}

#[test]
fn index_bytes_are_four_per_index() {
    let jobs = vec![mesh(rect(0, 0, 10, 10), 3, vec![1, 2, 0x0102_0304], TextureId::User(0))];
    let packed = pack_paint_jobs(1, &jobs, 10, 10);
    let b = packed.index_buffer_bytes();
    assert_eq!(b.len(), 12);
    let le: Vec<u8> = [1u32, 2, 0x0102_0304].iter().flat_map(|v| v.to_le_bytes()).collect();
    let be: Vec<u8> = [1u32, 2, 0x0102_0304].iter().flat_map(|v| v.to_be_bytes()).collect();
    assert!(b == le || b == be);
    assert_eq!(b, bytemuck::cast_slice::<u32, u8>(&[1u32, 2, 0x0102_0304]).to_vec());
}

#[test]
fn texture_ids_of_meshes() {
    assert_eq!(egui_texture_id(4, TextureId::Managed(2)), EguiTextureId::Managed(4, 2));
    assert_eq!(egui_texture_id(4, TextureId::User(2)), EguiTextureId::User(2));
}

fn mesh(clip: PixelRect, vertex_count: usize, indices: Vec<u32>, texture: TextureId) -> ClippedPrimitive {
    ClippedPrimitive {
        clip,
        primitive: Primitive::Mesh { vertex_bytes: vec![vertex_count as u8; vertex_count], vertex_count, indices, texture },
    }
}

#[test]
fn paint_jobs_pack_visible_meshes() {
    let jobs = vec![
        mesh(rect(0, 0, 10, 10), 3, vec![0, 1, 2], TextureId::Managed(0)),
        mesh(rect(200, 200, 300, 300), 2, vec![0, 1], TextureId::User(1)),
        ClippedPrimitive { clip: rect(0, 0, 5, 5), primitive: Primitive::Callback },
        mesh(rect(0, 0, 10, 10), 4, vec![0, 3, 2, 1], TextureId::User(5)),
    ];
    let packed = pack_paint_jobs(9, &jobs, 100, 100);
    assert_eq!(packed.vertex_data, vec![3, 3, 3, 4, 4, 4, 4]);
    assert_eq!(packed.index_data, vec![0, 1, 2, 3, 6, 5, 4]);
    assert_eq!(packed.postponed_callbacks, vec![2]);
    assert_eq!(
        packed.draw_commands,
        vec![
            DrawCommand { job: 0, clip: rect(0, 0, 10, 10), primitive: DrawPrimitive::Egui { vertices_count: 3, egui_texture: EguiTextureId::Managed(9, 0) } },
            DrawCommand { job: 2, clip: rect(0, 0, 5, 5), primitive: DrawPrimitive::PaintCallback },
            DrawCommand { job: 3, clip: rect(0, 0, 10, 10), primitive: DrawPrimitive::Egui { vertices_count: 4, egui_texture: EguiTextureId::User(5) } },
        ]
    );
}

#[test]
fn render_pass_plan() {
    let egui = |n: usize| DrawPrimitive::Egui { vertices_count: n, egui_texture: EguiTextureId::User(0) };
    let commands = vec![
        DrawCommand { job: 0, clip: rect(0, 0, 10, 10), primitive: egui(3) },
        DrawCommand { job: 1, clip: rect(0, 0, 10, 10), primitive: egui(6) },
        DrawCommand { job: 2, clip: rect(1, 1, 4, 4), primitive: DrawPrimitive::PaintCallback },
        DrawCommand { job: 3, clip: rect(0, 0, 200, 10), primitive: egui(3) },
        DrawCommand { job: 4, clip: rect(500, 500, 600, 600), primitive: egui(3) },
    ];
    let ops = plan_render_pass(&commands, 100, 100, &vec![true, false, true, true, true], &vec![false, false, true, false, false]);
    assert_eq!(
        ops,
        vec![
            RenderOp::ResetState,
            RenderOp::SetScissor { x: 0, y: 0, width: 10, height: 10 },
            RenderOp::DrawIndexed { command: 0, start: 0, end: 3 },
            RenderOp::SetScissor { x: 0, y: 0, width: 10, height: 10 },
            RenderOp::SetScissor { x: 1, y: 1, width: 3, height: 3 },
            RenderOp::PaintCallback { command: 2 },
            RenderOp::ResetState,
            RenderOp::SetScissor { x: 0, y: 0, width: 100, height: 10 },
            RenderOp::DrawIndexed { command: 3, start: 9, end: 12 },
        ]
    );
}

#[test]
fn all_textures_are_listed_for_binding() {
    let mut user = EguiUserTextures::new();
    user.add_image((0, 7));
    let managed = vec![((3, 1), (1, 99))];
    let handles = texture_handles(&managed, &user);
    assert_eq!(handles, vec![(EguiTextureId::Managed(3, 1), (1, 99)), (EguiTextureId::User(0), (0, 7))]);
}
