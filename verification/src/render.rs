//! The planning side of the egui render nodes: which paint jobs are visible, how meshes
//! are packed into one vertex buffer and one index buffer, how the buffers grow, and which
//! draw calls a frame makes. The caller performs the GPU work that the plan describes.
use vstd::prelude::*;
use crate::textures::{EguiUserTextures, ImageKey, TextureId};
use vstd::arithmetic::power2::pow2;

verus! {

/// A rectangle of pixels: its smaller corner and its larger corner.
#[derive(Clone, Copy, Debug, PartialEq, Eq, Hash)]
pub struct PixelRect {
    /// The left edge.
    pub min_x: u32,
    /// The top edge.
    pub min_y: u32,
    /// The right edge.
    pub max_x: u32,
    /// The bottom edge.
    pub max_y: u32,
}

/// The smaller of two numbers.
pub open spec fn min_u32(a: u32, b: u32) -> u32 {
    if a <= b { a } else { b }
}

/// The larger of two numbers.
pub open spec fn max_u32(a: u32, b: u32) -> u32 {
    if a >= b { a } else { b }
}

/// The rectangle between two corners, given in any order.
pub open spec fn rect_from_corners(x0: u32, y0: u32, x1: u32, y1: u32) -> PixelRect {
    PixelRect { min_x: min_u32(x0, x1), min_y: min_u32(y0, y1), max_x: max_u32(x0, x1), max_y: max_u32(y0, y1) }
}

/// The intersection of two rectangles, as the engine's math library computes it: the
/// larger of the smaller corners and the smaller of the larger ones, with the smaller
/// corner then brought down to the larger where it passed it.
pub open spec fn rect_intersection(a: PixelRect, b: PixelRect) -> PixelRect {
    let min_x = max_u32(a.min_x, b.min_x);
    let min_y = max_u32(a.min_y, b.min_y);
    let max_x = min_u32(a.max_x, b.max_x);
    let max_y = min_u32(a.max_y, b.max_y);
    PixelRect { min_x: min_u32(min_x, max_x), min_y: min_u32(min_y, max_y), max_x, max_y }
}

/// A rectangle is empty when it has no width or no height.
pub open spec fn rect_is_empty(r: PixelRect) -> bool {
    r.min_x >= r.max_x || r.min_y >= r.max_y
}

/// Calls the engine's `URect::new`, which orders the two corners it is given.
#[verifier::external_body]
fn urect_new(x0: u32, y0: u32, x1: u32, y1: u32) -> (r: PixelRect)
    ensures
        r == rect_from_corners(x0, y0, x1, y1),
{
    let u = bevy_math::URect::new(x0, y0, x1, y1);
    PixelRect { min_x: u.min.x, min_y: u.min.y, max_x: u.max.x, max_y: u.max.y }
}

/// Calls the engine's `URect::intersect` (see `rect_intersection`).
#[verifier::external_body]
fn urect_intersect(a: PixelRect, b: PixelRect) -> (r: PixelRect)
    ensures
        r == rect_intersection(a, b),
{
    let ua = bevy_math::URect { min: bevy_math::UVec2::new(a.min_x, a.min_y), max: bevy_math::UVec2::new(a.max_x, a.max_y) };
    let ub = bevy_math::URect { min: bevy_math::UVec2::new(b.min_x, b.min_y), max: bevy_math::UVec2::new(b.max_x, b.max_y) };
    let u = ua.intersect(ub);
    PixelRect { min_x: u.min.x, min_y: u.min.y, max_x: u.max.x, max_y: u.max.y }
}

/// Calls the engine's `URect::is_empty`, true when a corner's coordinate is not below the
/// other's.
#[verifier::external_body]
fn urect_is_empty(a: PixelRect) -> (r: bool)
    ensures
        r == rect_is_empty(a),
{
    bevy_math::URect { min: bevy_math::UVec2::new(a.min_x, a.min_y), max: bevy_math::UVec2::new(a.max_x, a.max_y) }.is_empty()
}

/// Calls the engine's `URect::width`, the difference of the horizontal edges.
#[verifier::external_body]
fn urect_width(a: PixelRect) -> (r: u32)
    requires
        a.min_x <= a.max_x,
    ensures
        r == a.max_x - a.min_x,
{
    bevy_math::URect { min: bevy_math::UVec2::new(a.min_x, a.min_y), max: bevy_math::UVec2::new(a.max_x, a.max_y) }.width()
}

/// Calls the engine's `URect::height`, the difference of the vertical edges.
#[verifier::external_body]
fn urect_height(a: PixelRect) -> (r: u32)
    requires
        a.min_y <= a.max_y,
    ensures
        r == a.max_y - a.min_y,
{
    bevy_math::URect { min: bevy_math::UVec2::new(a.min_x, a.min_y), max: bevy_math::UVec2::new(a.max_x, a.max_y) }.height()
}

/// The part of a clip rectangle that lies on a render target of the given size.
pub open spec fn scissor_of(clip: PixelRect, width: u32, height: u32) -> PixelRect {
    rect_intersection(clip, rect_from_corners(0, 0, width, height))
}

/// The part of a clip rectangle (in physical pixels) that lies on a render target of the
/// given size.
pub fn scissor_rect(clip: PixelRect, width: u32, height: u32) -> (r: PixelRect)
    ensures
        r == scissor_of(clip, width, height),
        r.min_x <= r.max_x && r.min_y <= r.max_y,
        r.max_x <= width && r.max_y <= height,
{
    urect_intersect(clip, urect_new(0, 0, width, height))
}

/// Whether anything of a clip rectangle lies on a render target of the given size.
pub fn clip_visible(clip: PixelRect, width: u32, height: u32) -> (r: bool)
    ensures
        r == !rect_is_empty(scissor_of(clip, width, height)),
{
    !urect_is_empty(scissor_rect(clip, width, height))
}

/// A texture as the render world knows it.
#[derive(Clone, Copy, Debug, PartialEq, Eq, Hash)]
pub enum EguiTextureId {
    /// A texture that egui paints, of the window (by its entity bits) whose context made it.
    Managed(u64, u64),
    /// A texture of the user.
    User(u64),
}

/// The render world's texture for a mesh's texture in a window's paint jobs.
pub open spec fn texture_of_mesh(window: u64, texture: TextureId) -> EguiTextureId {
    match texture {
        TextureId::Managed(id) => EguiTextureId::Managed(window, id),
        TextureId::User(id) => EguiTextureId::User(id),
    }
}

/// Maps a mesh's texture to the render world's texture: a managed texture belongs to the
/// window whose context painted it.
pub fn egui_texture_id(window: u64, texture: TextureId) -> (r: EguiTextureId)
    ensures
        r == texture_of_mesh(window, texture),
{
    match texture {
        TextureId::Managed(id) => EguiTextureId::Managed(window, id),
        TextureId::User(id) => EguiTextureId::User(id),
    }
}

/// What egui paints in one paint job.
#[derive(Clone, Debug, PartialEq, Eq)]
pub enum Primitive {
    /// A triangle mesh.
    Mesh {
        /// The vertices, as the bytes that the vertex buffer takes.
        vertex_bytes: Vec<u8>,
        /// The number of vertices.
        vertex_count: usize,
        /// The indices of the triangles' corners into the vertices.
        indices: Vec<u32>,
        /// The texture that the mesh samples.
        texture: TextureId,
    },
    /// A paint callback of the user.
    Callback,
}

/// A paint job: a primitive and the rectangle it is clipped to, in physical pixels.
#[derive(Clone, Debug, PartialEq, Eq)]
pub struct ClippedPrimitive {
    /// The clip rectangle, in physical pixels.
    pub clip: PixelRect,
    /// What to paint.
    pub primitive: Primitive,
}

/// What a draw command draws.
#[derive(Clone, Copy, Debug, PartialEq, Eq)]
pub enum DrawPrimitive {
    /// A run of indices from the index buffer, with a texture.
    Egui { vertices_count: usize, egui_texture: EguiTextureId },
    /// A paint callback of the user.
    PaintCallback,
}

/// A draw command of a frame.
#[derive(Clone, Copy, Debug, PartialEq, Eq)]
pub struct DrawCommand {
    /// The paint job that the command comes from, by its position in the frame's jobs.
    pub job: usize,
    /// The job's clip rectangle, in physical pixels.
    pub clip: PixelRect,
    /// What to draw.
    pub primitive: DrawPrimitive,
}

/// A frame's visible paint jobs, packed for the GPU.
#[derive(Clone, Debug, PartialEq, Eq)]
pub struct PackedFrame {
    /// The vertices of all visible meshes, one mesh after the other.
    pub vertex_data: Vec<u8>,
    /// The indices of all visible meshes, each moved past the vertices of the meshes
    /// before it.
    pub index_data: Vec<u32>,
    /// One draw command per visible job, in order.
    pub draw_commands: Vec<DrawCommand>,
    /// The visible paint callbacks, by job, to update before rendering.
    pub postponed_callbacks: Vec<usize>,
}

impl PackedFrame {
    /// The indices as the bytes that the index buffer takes: four per index, one index
    /// after the other, in the machine's byte order (see `u32s_as_bytes`).
    pub fn index_buffer_bytes(&self) -> (r: Vec<u8>)
        requires
            4 * self.index_data@.len() <= usize::MAX,
        ensures
            r@.len() == 4 * self.index_data@.len(),
            u32s_as_bytes(self.index_data@, r@, true) || u32s_as_bytes(self.index_data@, r@, false),
    {
        index_bytes(self.index_data.as_slice())
    }
}

/// What a packed frame holds, with the number of vertices packed so far.
pub struct PackView {
    /// The vertex bytes.
    pub vertex_data: Seq<u8>,
    /// The indices.
    pub index_data: Seq<u32>,
    /// The draw commands.
    pub draw_commands: Seq<DrawCommand>,
    /// The postponed paint callbacks.
    pub postponed_callbacks: Seq<usize>,
    /// The number of vertices packed (each mesh counted as a 32-bit number).
    pub next_offset: int,
}

/// Whether a paint job shows on a render target of the given size.
pub open spec fn job_visible(p: ClippedPrimitive, width: u32, height: u32) -> bool {
    !rect_is_empty(scissor_of(p.clip, width, height))
}

/// The packing of a frame's paint jobs, job by job: an invisible job is skipped; a
/// visible paint callback gets a draw command and is postponed; a visible mesh appends its
/// vertex bytes, appends its indices moved by the number of vertices before it, and gets a
/// draw command for its indices and texture.
pub open spec fn pack_spec(window: u64, jobs: Seq<ClippedPrimitive>, width: u32, height: u32) -> PackView
    decreases jobs.len(),
{
    if jobs.len() == 0 {
        PackView { vertex_data: seq![], index_data: seq![], draw_commands: seq![], postponed_callbacks: seq![], next_offset: 0 }
    } else {
        let prev = pack_spec(window, jobs.drop_last(), width, height);
        let p = jobs.last();
        let job = (jobs.len() - 1) as usize;
        if !job_visible(p, width, height) {
            prev
        } else {
            match p.primitive {
                Primitive::Callback => PackView {
                    draw_commands: prev.draw_commands.push(DrawCommand { job, clip: p.clip, primitive: DrawPrimitive::PaintCallback }),
                    postponed_callbacks: prev.postponed_callbacks.push(job),
                    ..prev
                },
                Primitive::Mesh { vertex_bytes, vertex_count, indices, texture } => PackView {
                    vertex_data: prev.vertex_data + vertex_bytes@,
                    index_data: prev.index_data + indices@.map_values(|i: u32| (i + prev.next_offset) as u32),
                    draw_commands: prev.draw_commands.push(DrawCommand {
                        job,
                        clip: p.clip,
                        primitive: DrawPrimitive::Egui { vertices_count: indices@.len() as usize, egui_texture: texture_of_mesh(window, texture) },
                    }),
                    postponed_callbacks: prev.postponed_callbacks,
                    next_offset: prev.next_offset + (vertex_count as u32),
                },
            }
        }
    }
}

/// No 32-bit index or vertex count overflows while the frame is packed: each visible
/// mesh's indices, moved past the vertices before it, and the running vertex count stay
/// within 32 bits.
pub open spec fn pack_fits(window: u64, jobs: Seq<ClippedPrimitive>, width: u32, height: u32) -> bool
    decreases jobs.len(),
{
    if jobs.len() == 0 {
        true
    } else {
        let prev = pack_spec(window, jobs.drop_last(), width, height);
        let p = jobs.last();
        &&& pack_fits(window, jobs.drop_last(), width, height)
        &&& job_visible(p, width, height) ==> match p.primitive {
            Primitive::Mesh { vertex_count, indices, .. } => {
                &&& prev.next_offset + (vertex_count as u32) <= u32::MAX
                &&& forall|i: int| 0 <= i < indices@.len() ==> indices@[i] + prev.next_offset <= u32::MAX
            },
            Primitive::Callback => true,
        }
    }
}

/// The view of a packed frame with its vertex count.
pub open spec fn packed_view(p: PackedFrame, next_offset: int) -> PackView {
    PackView {
        vertex_data: p.vertex_data@,
        index_data: p.index_data@,
        draw_commands: p.draw_commands@,
        postponed_callbacks: p.postponed_callbacks@,
        next_offset,
    }
}

/// Packs a window's paint jobs for a render target of the given size (see `pack_spec`).
pub fn pack_paint_jobs(window: u64, jobs: &Vec<ClippedPrimitive>, width: u32, height: u32) -> (r: PackedFrame)
    requires
        pack_fits(window, jobs@, width, height),
    ensures
        packed_view(r, pack_spec(window, jobs@, width, height).next_offset) == pack_spec(window, jobs@, width, height),
{
    let mut packed = PackedFrame {
        vertex_data: Vec::new(),
        index_data: Vec::new(),
        draw_commands: Vec::new(),
        postponed_callbacks: Vec::new(),
    };
    let mut index_offset: u32 = 0;
    let mut k: usize = 0;
    while k < jobs.len()
        invariant
            k <= jobs@.len(),
            pack_fits(window, jobs@, width, height),
            index_offset == pack_spec(window, jobs@.take(k as int), width, height).next_offset,
            packed_view(packed, index_offset as int) == pack_spec(window, jobs@.take(k as int), width, height),
        decreases jobs@.len() - k,
    {
        let ghost prefix = jobs@.take(k as int);
        let ghost next = jobs@.take(k + 1);
        proof {
            assert(next.drop_last() =~= prefix);
            assert(next.last() == jobs@[k as int]);
            lemma_pack_fits_prefix(window, jobs@, width, height, k + 1);
        }
        let job = &jobs[k];
        if clip_visible(job.clip, width, height) {
            match &job.primitive {
                Primitive::Callback => {
                    packed.draw_commands.push(DrawCommand { job: k, clip: job.clip, primitive: DrawPrimitive::PaintCallback });
                    packed.postponed_callbacks.push(k);
                },
                Primitive::Mesh { vertex_bytes, vertex_count, indices, texture } => {
                    let ghost before = packed.index_data@;
                    let ghost vbefore = packed.vertex_data@;
                    let ghost cbefore = packed.draw_commands@;
                    let ghost pbefore = packed.postponed_callbacks@;
                    let mut b: usize = 0;
                    while b < vertex_bytes.len()
                        invariant
                            b <= vertex_bytes@.len(),
                            packed.index_data@ == before,
                            packed.draw_commands@ == cbefore,
                            packed.postponed_callbacks@ == pbefore,
                            packed.vertex_data@ == vbefore + vertex_bytes@.take(b as int),
                        decreases vertex_bytes@.len() - b,
                    {
                        packed.vertex_data.push(vertex_bytes[b]);
                        assert(vertex_bytes@.take(b + 1) =~= vertex_bytes@.take(b as int).push(vertex_bytes@[b as int]));
                        b += 1;
                    }
                    assert(vertex_bytes@.take(vertex_bytes@.len() as int) =~= vertex_bytes@);
                    let ghost vafter = packed.vertex_data@;
                    let mut i: usize = 0;
                    assert(indices@.take(0).map_values(|v: u32| (v + index_offset) as u32) =~= Seq::<u32>::empty());
                    assert(before + Seq::<u32>::empty() =~= before);
                    while i < indices.len()
                        invariant
                            i <= indices@.len(),
                            packed.vertex_data@ == vafter,
                            packed.draw_commands@ == cbefore,
                            packed.postponed_callbacks@ == pbefore,
                            packed.index_data@ == before + indices@.take(i as int).map_values(|v: u32| (v + index_offset) as u32),
                            forall|j: int| 0 <= j < indices@.len() ==> indices@[j] + index_offset <= u32::MAX,
                        decreases indices@.len() - i,
                    {
                        packed.index_data.push(indices[i] + index_offset);
                        assert(indices@.take(i + 1).map_values(|v: u32| (v + index_offset) as u32)
                            =~= indices@.take(i as int).map_values(|v: u32| (v + index_offset) as u32).push((indices@[i as int] + index_offset) as u32));
                        i += 1;
                    }
                    assert(indices@.take(indices@.len() as int) =~= indices@);
                    packed.draw_commands.push(DrawCommand {
                        job: k,
                        clip: job.clip,
                        primitive: DrawPrimitive::Egui { vertices_count: indices.len(), egui_texture: egui_texture_id(window, *texture) },
                    });
                    index_offset = index_offset + (*vertex_count as u32);
                },
            }
        }
        proof {
            assert(packed_view(packed, index_offset as int) =~= pack_spec(window, next, width, height));
        }
        k += 1;
    }
    proof {
        assert(jobs@.take(jobs@.len() as int) =~= jobs@);
    }
    packed
}

/// The packing of a prefix of the jobs fits where the packing of all of them does.
proof fn lemma_pack_fits_prefix(window: u64, jobs: Seq<ClippedPrimitive>, width: u32, height: u32, n: int)
    requires
        pack_fits(window, jobs, width, height),
        0 <= n <= jobs.len(),
    ensures
        pack_fits(window, jobs.take(n), width, height),
    decreases jobs.len() - n,
{
    if n < jobs.len() {
        lemma_pack_fits_prefix(window, jobs, width, height, n + 1);
        assert(jobs.take(n + 1).drop_last() =~= jobs.take(n));
    } else {
        assert(jobs.take(n) =~= jobs);
    }
}

/// Whether a number is a power of two.
pub open spec fn is_power_of_two(n: int) -> bool {
    exists|e: nat| pow2(e) == n
}

/// Calls std's `usize::is_power_of_two`, documented as true exactly when the number is
/// two to some power.
#[verifier::external_body]
fn usize_is_power_of_two(n: usize) -> (r: bool)
    ensures
        r == is_power_of_two(n as int),
{
    n.is_power_of_two()
}

/// Calls std's `usize::next_power_of_two`, documented as the smallest power of two that is
/// not below the number; the call is made only where that power fits in a `usize`.
#[verifier::external_body]
fn usize_next_power_of_two(n: usize) -> (r: usize)
    requires
        n <= usize::MAX / 2 + 1,
    ensures
        is_power_of_two(r as int),
        r >= n,
        r == 1 || r / 2 < n,
{
    n.next_power_of_two()
}

/// The capacity of a GPU buffer that must hold `len` bytes and holds `capacity` now: it
/// stays if the data fits, and otherwise grows to the smallest power of two that holds the
/// data.
pub fn grown_capacity(len: usize, capacity: usize) -> (r: usize)
    requires
        len <= usize::MAX / 2 + 1,
    ensures
        len <= capacity ==> r == capacity,
        len > capacity ==> is_power_of_two(r as int) && r >= len && (r == 1 || r / 2 < len),
{
    if len > capacity {
        if usize_is_power_of_two(len) {
            proof {
                let e = choose|e: nat| pow2(e) == len;
                if len > 1 {
                    vstd::arithmetic::power2::lemma_pow2_pos(e);
                    if e == 0 {
                        vstd::arithmetic::power2::lemma2_to64();
                    } else {
                        vstd::arithmetic::power2::lemma_pow2_unfold(e);
                    }
                }
            }
            len
        } else {
            usize_next_power_of_two(len)
        }
    } else {
        capacity
    }
}

/// Byte `k` (0 to 3) of a 32-bit value, the least significant first.
pub open spec fn u32_byte(v: u32, k: int) -> u8 {
    (if k == 0 {
        v % 256
    } else if k == 1 {
        (v / 256) % 256
    } else if k == 2 {
        (v / 65536) % 256
    } else {
        v / 16777216
    }) as u8
}

/// Bytes `4 * i` up to `4 * i + 4` hold `v`, least significant byte first when
/// `little_endian`, most significant first otherwise.
pub open spec fn u32_at(bytes: Seq<u8>, i: int, v: u32, little_endian: bool) -> bool {
    forall|k: int| 0 <= k < 4 ==> #[trigger] bytes[4 * i + k] == u32_byte(v, if little_endian { k } else { 3 - k })
}

/// `bytes` holds the values one after the other, four bytes each, in the given byte order.
pub open spec fn u32s_as_bytes(values: Seq<u32>, bytes: Seq<u8>, little_endian: bool) -> bool {
    &&& bytes.len() == 4 * values.len()
    &&& forall|i: int| 0 <= i < values.len() ==> #[trigger] u32_at(bytes, i, values[i], little_endian)
}

/// Calls bytemuck's `cast_slice`, which views 32-bit indices as their bytes in the
/// machine's byte order, and copies them. Which of the two byte orders that is depends on
/// the machine; the contract states that it is one of them, for every index alike.
#[verifier::external_body]
fn index_bytes(indices: &[u32]) -> (r: Vec<u8>)
    requires
        4 * indices@.len() <= usize::MAX,
    ensures
        u32s_as_bytes(indices@, r@, true) || u32s_as_bytes(indices@, r@, false),
{
    bytemuck::cast_slice::<u32, u8>(indices).to_vec()
}

/// A step of the render pass that draws a frame's commands.
#[derive(Clone, Copy, Debug, PartialEq, Eq)]
pub enum RenderOp {
    /// Set the viewport to the whole target, set the egui pipeline and bind the transform.
    ResetState,
    /// Clip to the rectangle of the target with its top left corner at `(x, y)`.
    SetScissor { x: u32, y: u32, width: u32, height: u32 },
    /// Bind the texture of the command and draw the indices from `start` up to `end`.
    DrawIndexed { command: usize, start: u32, end: u32 },
    /// Set the viewport to the callback's and let the command's paint callback render.
    PaintCallback { command: usize },
}

/// The render pass so far: the steps taken, whether the pass state must be set again
/// before the next command, and how many indices have been passed.
pub struct PlanView {
    /// The steps taken.
    pub ops: Seq<RenderOp>,
    /// The pipeline and viewport must be set again before the next draw.
    pub requires_reset: bool,
    /// The number of indices passed.
    pub vertex_offset: int,
}

/// The render pass over a frame's draw commands, command by command: the pass state is set
/// before the first command and again after each paint callback that rendered; a command
/// whose clip rectangle is off the target draws nothing; otherwise the scissor is set to
/// the visible part; a mesh whose texture has no bind group passes its indices without
/// drawing; a mesh with one draws its run of indices; a paint callback renders if its
/// viewport covers any pixel.
pub open spec fn plan_spec(commands: Seq<DrawCommand>, width: u32, height: u32, has_bind_group: Seq<bool>, callback_visible: Seq<bool>) -> PlanView
    decreases commands.len(),
{
    if commands.len() == 0 {
        PlanView { ops: seq![], requires_reset: true, vertex_offset: 0 }
    } else {
        let n = commands.len() - 1;
        let prev = plan_spec(commands.drop_last(), width, height, has_bind_group, callback_visible);
        let c = commands.last();
        let ops0 = if prev.requires_reset { prev.ops.push(RenderOp::ResetState) } else { prev.ops };
        let scissor = scissor_of(c.clip, width, height);
        if rect_is_empty(scissor) {
            PlanView { ops: ops0, requires_reset: false, vertex_offset: prev.vertex_offset }
        } else {
            let ops1 = ops0.push(RenderOp::SetScissor {
                x: scissor.min_x,
                y: scissor.min_y,
                width: (scissor.max_x - scissor.min_x) as u32,
                height: (scissor.max_y - scissor.min_y) as u32,
            });
            match c.primitive {
                DrawPrimitive::Egui { vertices_count, .. } => {
                    let end = prev.vertex_offset + (vertices_count as u32);
                    if has_bind_group[n] {
                        PlanView {
                            ops: ops1.push(RenderOp::DrawIndexed { command: n as usize, start: prev.vertex_offset as u32, end: end as u32 }),
                            requires_reset: false,
                            vertex_offset: end,
                        }
                    } else {
                        PlanView { ops: ops1, requires_reset: false, vertex_offset: end }
                    }
                },
                DrawPrimitive::PaintCallback => {
                    if callback_visible[n] {
                        PlanView { ops: ops1.push(RenderOp::PaintCallback { command: n as usize }), requires_reset: true, vertex_offset: prev.vertex_offset }
                    } else {
                        PlanView { ops: ops1, requires_reset: false, vertex_offset: prev.vertex_offset }
                    }
                },
            }
        }
    }
}

/// The number of indices that the meshes among the draw commands take.
pub open spec fn index_count(commands: Seq<DrawCommand>) -> int
    decreases commands.len(),
{
    if commands.len() == 0 {
        0
    } else {
        index_count(commands.drop_last()) + match commands.last().primitive {
            DrawPrimitive::Egui { vertices_count, .. } => vertices_count as int,
            DrawPrimitive::PaintCallback => 0,
        }
    }
}

/// The index count of a prefix is at most that of the whole.
proof fn lemma_index_count_prefix(commands: Seq<DrawCommand>, n: int)
    requires
        0 <= n <= commands.len(),
    ensures
        0 <= index_count(commands.take(n)) <= index_count(commands),
    decreases commands.len() - n,
{
    if n < commands.len() {
        lemma_index_count_prefix(commands, n + 1);
        assert(commands.take(n + 1).drop_last() =~= commands.take(n));
    } else {
        assert(commands.take(n) =~= commands);
    }
    lemma_index_count_nonneg(commands.take(n));
}

/// Index counts are not negative.
proof fn lemma_index_count_nonneg(commands: Seq<DrawCommand>)
    ensures
        index_count(commands) >= 0,
    decreases commands.len(),
{
    if commands.len() > 0 {
        lemma_index_count_nonneg(commands.drop_last());
    }
}

/// Each mesh's count of indices fits in 32 bits, so that the count passes unchanged into
/// the 32-bit offset.
pub open spec fn counts_fit(commands: Seq<DrawCommand>) -> bool {
    forall|i: int| 0 <= i < commands.len() ==> match #[trigger] commands[i].primitive {
        DrawPrimitive::Egui { vertices_count, .. } => vertices_count <= u32::MAX,
        DrawPrimitive::PaintCallback => true,
    }
}

/// The plan passes no more indices than the meshes of the commands planned so far hold.
proof fn lemma_plan_offset(commands: Seq<DrawCommand>, width: u32, height: u32, has_bind_group: Seq<bool>, callback_visible: Seq<bool>)
    requires
        counts_fit(commands),
    ensures
        0 <= plan_spec(commands, width, height, has_bind_group, callback_visible).vertex_offset <= index_count(commands),
    decreases commands.len(),
{
    if commands.len() > 0 {
        let pre = commands.drop_last();
        assert(counts_fit(pre)) by {
            assert forall|i: int| 0 <= i < pre.len() implies match #[trigger] pre[i].primitive {
                DrawPrimitive::Egui { vertices_count, .. } => vertices_count <= u32::MAX,
                DrawPrimitive::PaintCallback => true,
            } by {
                assert(pre[i] == commands[i]);
            }
        }
        lemma_plan_offset(pre, width, height, has_bind_group, callback_visible);
        assert(commands.last() == commands[commands.len() - 1]);
    }
}

/// Plans the render pass over a frame's draw commands (see `plan_spec`). The caller says
/// for each command whether its texture has a bind group and whether its paint callback's
/// viewport covers any pixel.
pub fn plan_render_pass(commands: &Vec<DrawCommand>, width: u32, height: u32, has_bind_group: &Vec<bool>, callback_visible: &Vec<bool>) -> (r: Vec<RenderOp>)
    requires
        has_bind_group@.len() == commands@.len(),
        callback_visible@.len() == commands@.len(),
        counts_fit(commands@),
        index_count(commands@) <= u32::MAX,
    ensures
        r@ == plan_spec(commands@, width, height, has_bind_group@, callback_visible@).ops,
{
    let mut ops: Vec<RenderOp> = Vec::new();
    let mut requires_reset = true;
    let mut vertex_offset: u32 = 0;
    let mut n: usize = 0;
    while n < commands.len()
        invariant
            n <= commands@.len(),
            has_bind_group@.len() == commands@.len(),
            callback_visible@.len() == commands@.len(),
            counts_fit(commands@),
            index_count(commands@) <= u32::MAX,
            ({
                let v = plan_spec(commands@.take(n as int), width, height, has_bind_group@, callback_visible@);
                &&& ops@ == v.ops
                &&& requires_reset == v.requires_reset
                &&& vertex_offset == v.vertex_offset
            }),
        decreases commands@.len() - n,
    {
        let ghost prefix = commands@.take(n as int);
        let ghost next = commands@.take(n + 1);
        proof {
            assert(next.drop_last() =~= prefix);
            assert(next.last() == commands@[n as int]);
            assert(counts_fit(next)) by {
                assert forall|i: int| 0 <= i < next.len() implies match #[trigger] next[i].primitive {
                    DrawPrimitive::Egui { vertices_count, .. } => vertices_count <= u32::MAX,
                    DrawPrimitive::PaintCallback => true,
                } by {
                    assert(next[i] == commands@[i]);
                }
            }
            lemma_plan_offset(next, width, height, has_bind_group@, callback_visible@);
            lemma_index_count_prefix(commands@, n + 1);
        }
        let command = &commands[n];
        if requires_reset {
            ops.push(RenderOp::ResetState);
            requires_reset = false;
        }
        let scissor = scissor_rect(command.clip, width, height);
        if !urect_is_empty(scissor) {
            let scissor_width = urect_width(scissor);
            let scissor_height = urect_height(scissor);
            ops.push(RenderOp::SetScissor { x: scissor.min_x, y: scissor.min_y, width: scissor_width, height: scissor_height });
            match command.primitive {
                DrawPrimitive::Egui { vertices_count, .. } => {
                    let end = vertex_offset + (vertices_count as u32);
                    if has_bind_group[n] {
                        ops.push(RenderOp::DrawIndexed { command: n, start: vertex_offset, end });
                    }
                    vertex_offset = end;
                },
                DrawPrimitive::PaintCallback => {
                    if callback_visible[n] {
                        requires_reset = true;
                        ops.push(RenderOp::PaintCallback { command: n });
                    }
                },
            }
        }
        n += 1;
    }
    proof {
        assert(commands@.take(commands@.len() as int) =~= commands@);
    }
    ops
}

/// A packed frame holds exactly the indices that its draw commands count.
proof fn lemma_pack_index_count(window: u64, jobs: Seq<ClippedPrimitive>, width: u32, height: u32)
    requires
        pack_spec(window, jobs, width, height).index_data.len() <= u32::MAX,
    ensures
        pack_spec(window, jobs, width, height).index_data.len() == index_count(pack_spec(window, jobs, width, height).draw_commands),
    decreases jobs.len(),
{
    if jobs.len() > 0 {
        let prev = pack_spec(window, jobs.drop_last(), width, height);
        let cur = pack_spec(window, jobs, width, height);
        if job_visible(jobs.last(), width, height) {
            assert(cur.draw_commands.drop_last() =~= prev.draw_commands);
            match jobs.last().primitive {
                Primitive::Mesh { vertex_bytes, vertex_count, indices, texture } => {
                    assert(cur.index_data.len() == prev.index_data.len() + indices@.len());
                },
                Primitive::Callback => {},
            }
        }
        lemma_pack_index_count(window, jobs.drop_last(), width, height);
    }
}

/// Every run of indices that the plan draws lies within the indices passed so far.
proof fn lemma_plan_draws_bounded(commands: Seq<DrawCommand>, width: u32, height: u32, has_bind_group: Seq<bool>, callback_visible: Seq<bool>)
    requires
        counts_fit(commands),
        index_count(commands) <= u32::MAX,
    ensures
        ({
            let p = plan_spec(commands, width, height, has_bind_group, callback_visible);
            forall|i: int| 0 <= i < p.ops.len() ==> (#[trigger] p.ops[i] matches RenderOp::DrawIndexed { start, end, .. }
                ==> start <= end <= p.vertex_offset)
        }),
        0 <= plan_spec(commands, width, height, has_bind_group, callback_visible).vertex_offset <= index_count(commands),
    decreases commands.len(),
{
    lemma_plan_offset(commands, width, height, has_bind_group, callback_visible);
    if commands.len() > 0 {
        let pre = commands.drop_last();
        assert(counts_fit(pre)) by {
            assert forall|i: int| 0 <= i < pre.len() implies match #[trigger] pre[i].primitive {
                DrawPrimitive::Egui { vertices_count, .. } => vertices_count <= u32::MAX,
                DrawPrimitive::PaintCallback => true,
            } by {
                assert(pre[i] == commands[i]);
            }
        }
        lemma_index_count_nonneg(pre);
        assert(commands.last() == commands[commands.len() - 1]);
        lemma_plan_offset(pre, width, height, has_bind_group, callback_visible);
        lemma_plan_draws_bounded(pre, width, height, has_bind_group, callback_visible);
    }
}

/// Law: every run of indices that the render pass draws for a window's frame lies within
/// the index data that packing the frame's paint jobs produced, so no draw call reads past
/// the index buffer.
pub proof fn law_draws_within_index_buffer(window: u64, jobs: Seq<ClippedPrimitive>, width: u32, height: u32, has_bind_group: Seq<bool>, callback_visible: Seq<bool>)
    requires
        pack_fits(window, jobs, width, height),
        pack_spec(window, jobs, width, height).index_data.len() <= u32::MAX,
        counts_fit(pack_spec(window, jobs, width, height).draw_commands),
    ensures
        ({
            let packed = pack_spec(window, jobs, width, height);
            let ops = plan_spec(packed.draw_commands, width, height, has_bind_group, callback_visible).ops;
            forall|i: int| 0 <= i < ops.len() ==> (#[trigger] ops[i] matches RenderOp::DrawIndexed { start, end, .. }
                ==> start <= end <= packed.index_data.len())
        }),
{
    let packed = pack_spec(window, jobs, width, height);
    lemma_pack_index_count(window, jobs, width, height);
    lemma_plan_draws_bounded(packed.draw_commands, width, height, has_bind_group, callback_visible);
}

/// Every texture that the render world binds: first the textures that egui paints, each
/// with its window, id and image; then each of the user's images once, with its id, in no
/// particular order.
pub fn texture_handles(managed: &Vec<((u64, u64), ImageKey)>, user: &EguiUserTextures) -> (r: Vec<(EguiTextureId, ImageKey)>)
    ensures
        r@.len() == managed@.len() + user@.ids.len(),
        r@.subrange(managed@.len() as int, r@.len() as int).no_duplicates(),
        managed@.no_duplicates() ==> r@.no_duplicates(),
        forall|i: int| 0 <= i < managed@.len() ==> #[trigger] r@[i] == (EguiTextureId::Managed(managed@[i].0.0, managed@[i].0.1), managed@[i].1),
        forall|i: int| managed@.len() <= i < r@.len() ==> (#[trigger] r@[i]).0 is User
            && user@.ids.contains_key(r@[i].1) && r@[i].0 == EguiTextureId::User(user@.ids[r@[i].1]),
        forall|k: ImageKey| #[trigger] user@.ids.contains_key(k) ==> r@.contains((EguiTextureId::User(user@.ids[k]), k)),
{
    let mut r: Vec<(EguiTextureId, ImageKey)> = Vec::new();
    let mut i: usize = 0;
    while i < managed.len()
        invariant
            i <= managed@.len(),
            r@.len() == i,
            forall|j: int| 0 <= j < i ==> #[trigger] r@[j] == (EguiTextureId::Managed(managed@[j].0.0, managed@[j].0.1), managed@[j].1),
        decreases managed@.len() - i,
    {
        let ((window, id), image) = managed[i];
        r.push((EguiTextureId::Managed(window, id), image));
        i += 1;
    }
    let entries = user.entries();
    let mut j: usize = 0;
    while j < entries.len()
        invariant
            j <= entries@.len(),
            r@.len() == managed@.len() + j,
            forall|k: int| 0 <= k < managed@.len() ==> #[trigger] r@[k] == (EguiTextureId::Managed(managed@[k].0.0, managed@[k].0.1), managed@[k].1),
            forall|k: int| 0 <= k < j ==> #[trigger] r@[managed@.len() + k] == (EguiTextureId::User(entries@[k].1), entries@[k].0),
            forall|k: int| 0 <= k < entries@.len() ==> #[trigger] user@.ids.contains_key(entries@[k].0)
                && user@.ids[entries@[k].0] == entries@[k].1,
        decreases entries@.len() - j,
    {
        let (image, id) = entries[j];
        r.push((EguiTextureId::User(id), image));
        j += 1;
    }
    proof {
        assert forall|i: int| managed@.len() <= i < r@.len() implies (#[trigger] r@[i]).0 is User
            && user@.ids.contains_key(r@[i].1) && r@[i].0 == EguiTextureId::User(user@.ids[r@[i].1]) by {
            let k = i - managed@.len();
            assert(r@[managed@.len() + k] == (EguiTextureId::User(entries@[k].1), entries@[k].0));
            assert(user@.ids.contains_key(entries@[k].0));
        }
        assert forall|key: ImageKey| #[trigger] user@.ids.contains_key(key) implies r@.contains((EguiTextureId::User(user@.ids[key]), key)) by {
            assert(entries@.contains((key, user@.ids[key])));
            let k = choose|k: int| 0 <= k < entries@.len() && entries@[k] == (key, user@.ids[key]);
            assert(r@[managed@.len() + k] == (EguiTextureId::User(entries@[k].1), entries@[k].0));
        }
        let m = managed@.len() as int;
        let tail = r@.subrange(m, r@.len() as int);
        assert forall|a: int, b: int| 0 <= a < tail.len() && 0 <= b < tail.len() && a != b implies tail[a] != tail[b] by {
            assert(tail[a] == r@[m + a]);
            assert(tail[b] == r@[m + b]);
            assert(r@[m + a] == (EguiTextureId::User(entries@[a].1), entries@[a].0));
            assert(r@[m + b] == (EguiTextureId::User(entries@[b].1), entries@[b].0));
            assert(entries@[a] != entries@[b]);
        }
        if managed@.no_duplicates() {
            assert forall|a: int, b: int| 0 <= a < r@.len() && 0 <= b < r@.len() && a != b implies r@[a] != r@[b] by {
                if a < m && b < m {
                    assert(managed@[a] != managed@[b]);
                } else if a >= m && b >= m {
                    assert(tail[a - m] != tail[b - m]);
                } else if a < m {
                    assert(r@[b].0 is User);
                } else {
                    assert(r@[a].0 is User);
                }
            }
        }
    }
    r
}

/// The number of vertices of the visible meshes among the jobs, each mesh's count taken in
/// 32 bits as the index buffer counts vertices.
pub open spec fn visible_vertex_count(jobs: Seq<ClippedPrimitive>, width: u32, height: u32) -> int
    decreases jobs.len(),
{
    if jobs.len() == 0 {
        0
    } else {
        visible_vertex_count(jobs.drop_last(), width, height) + match jobs.last().primitive {
            Primitive::Mesh { vertex_count, .. } => if job_visible(jobs.last(), width, height) {
                (vertex_count as u32) as int
            } else {
                0
            },
            Primitive::Callback => 0,
        }
    }
}

/// Packing counts the vertices of the visible meshes.
proof fn lemma_pack_offset_counts_vertices(window: u64, jobs: Seq<ClippedPrimitive>, width: u32, height: u32)
    requires
        pack_fits(window, jobs, width, height),
    ensures
        pack_spec(window, jobs, width, height).next_offset == visible_vertex_count(jobs, width, height),
        0 <= visible_vertex_count(jobs, width, height) <= u32::MAX,
    decreases jobs.len(),
{
    if jobs.len() > 0 {
        lemma_pack_offset_counts_vertices(window, jobs.drop_last(), width, height);
    }
}

/// The index data of the first `n` jobs is the start of the index data of all of them.
proof fn lemma_pack_index_prefix(window: u64, jobs: Seq<ClippedPrimitive>, width: u32, height: u32, n: int)
    requires
        0 <= n <= jobs.len(),
    ensures
        pack_spec(window, jobs.take(n), width, height).index_data.len() <= pack_spec(window, jobs, width, height).index_data.len(),
        pack_spec(window, jobs, width, height).index_data.take(pack_spec(window, jobs.take(n), width, height).index_data.len() as int)
            == pack_spec(window, jobs.take(n), width, height).index_data,
    decreases jobs.len() - n,
{
    if n < jobs.len() {
        lemma_pack_index_prefix(window, jobs, width, height, n + 1);
        let small = pack_spec(window, jobs.take(n), width, height).index_data;
        let mid = pack_spec(window, jobs.take(n + 1), width, height).index_data;
        let all = pack_spec(window, jobs, width, height).index_data;
        assert(jobs.take(n + 1).drop_last() =~= jobs.take(n));
        assert(mid.take(small.len() as int) =~= small);
        assert(all.take(small.len() as int) =~= mid.take(small.len() as int));
    } else {
        assert(jobs.take(n) =~= jobs);
        assert(pack_spec(window, jobs, width, height).index_data.take(pack_spec(window, jobs, width, height).index_data.len() as int)
            =~= pack_spec(window, jobs, width, height).index_data);
    }
}

/// Law: in the packed index data, a visible mesh's indices come right after those of the
/// jobs before it, each moved by the number of vertices of the visible meshes before it,
/// so that an index below the mesh's vertex count addresses one of that mesh's own
/// vertices in the packed vertex data.
pub proof fn law_mesh_indices_follow_earlier_vertices(window: u64, jobs: Seq<ClippedPrimitive>, width: u32, height: u32, j: int)
    requires
        pack_fits(window, jobs, width, height),
        0 <= j < jobs.len(),
        job_visible(jobs[j], width, height),
    ensures
        match jobs[j].primitive {
            Primitive::Mesh { vertex_count, indices, .. } => {
                let offset = visible_vertex_count(jobs.take(j), width, height);
                let start = pack_spec(window, jobs.take(j), width, height).index_data.len();
                let all = pack_spec(window, jobs, width, height).index_data;
                &&& start + indices@.len() <= all.len()
                &&& forall|k: int| 0 <= k < indices@.len() ==> #[trigger] all[start + k] == indices@[k] + offset
                &&& forall|k: int| 0 <= k < indices@.len() && indices@[k] < vertex_count ==>
                    offset <= #[trigger] all[start + k] < offset + vertex_count
            },
            Primitive::Callback => true,
        },
{
    let pre = jobs.take(j);
    let upto = jobs.take(j + 1);
    assert(upto.drop_last() =~= pre);
    assert(upto.last() == jobs[j]);
    lemma_pack_fits_prefix(window, jobs, width, height, j + 1);
    lemma_pack_fits_prefix(window, jobs, width, height, j);
    lemma_pack_offset_counts_vertices(window, pre, width, height);
    lemma_pack_index_prefix(window, jobs, width, height, j + 1);
    match jobs[j].primitive {
        Primitive::Mesh { vertex_count, indices, .. } => {
            let offset = visible_vertex_count(pre, width, height);
            let before = pack_spec(window, pre, width, height).index_data;
            let mid = pack_spec(window, upto, width, height).index_data;
            let all = pack_spec(window, jobs, width, height).index_data;
            assert(mid == before + indices@.map_values(|i: u32| (i + offset) as u32));
            assert forall|k: int| 0 <= k < indices@.len() implies #[trigger] all[before.len() + k] == indices@[k] + offset by {
                assert(all[before.len() + k] == all.take(mid.len() as int)[before.len() + k]);
                assert(mid[before.len() + k] == (indices@[k] + offset) as u32);
                assert(indices@[k] + offset <= u32::MAX);
            }
        },
        Primitive::Callback => {},
    }
}

} // verus!
