//! Texture bookkeeping: the ids that egui gives to images of the engine, and the pixel
//! updates of the textures that egui paints itself.
use vstd::prelude::*;

verus! {

/// An image asset of the engine, by its asset id: `(0, generation << 32 | index)` for an
/// asset that the engine indexed, `(1, uuid)` for one that is named by a UUID.
pub type ImageKey = (u8, u128);

/// An egui texture id.
#[derive(Clone, Copy, Debug, PartialEq, Eq, Hash)]
pub enum TextureId {
    /// A texture that egui allocated and paints itself.
    Managed(u64),
    /// A texture of the user, registered with `EguiUserTextures::add_image`.
    User(u64),
}

/// The map from images to the ids of their egui textures, held in the engine's hash map.
#[verifier::external_body]
pub struct TextureIdMap {
    map: bevy_utils::HashMap<ImageKey, u64>,
}

/// The entries of a `TextureIdMap`.
pub uninterp spec fn texture_id_entries(m: TextureIdMap) -> Map<ImageKey, u64>;

impl TextureIdMap {
    /// The entries, as a map.
    pub open spec fn entries(self) -> Map<ImageKey, u64> {
        texture_id_entries(self)
    }

    /// Calls the hash map's `default`, which makes a map without entries.
    #[verifier::external_body]
    fn new() -> (map: TextureIdMap)
        ensures
            texture_id_entries(map).dom().is_empty(),
    {
        TextureIdMap { map: bevy_utils::HashMap::default() }
    }

    /// Calls the hash map's `get`, which finds the value stored under a key.
    #[verifier::external_body]
    fn get(&self, key: &ImageKey) -> (r: Option<u64>)
        ensures
            r == (if texture_id_entries(*self).contains_key(*key) { Some(texture_id_entries(*self)[*key]) } else { None }),
    {
        self.map.get(key).copied()
    }

    /// Calls the hash map's `insert`, which stores a value under a key, in place of any
    /// value stored there before.
    #[verifier::external_body]
    fn insert(&mut self, key: ImageKey, value: u64)
        ensures
            texture_id_entries(*final(self)) == texture_id_entries(*old(self)).insert(key, value),
    {
        self.map.insert(key, value);
    }

    /// Calls the hash map's `remove`, which takes the entry of a key out and hands back its
    /// value, if there was one.
    #[verifier::external_body]
    fn remove(&mut self, key: &ImageKey) -> (r: Option<u64>)
        ensures
            r == (if texture_id_entries(*old(self)).contains_key(*key) { Some(texture_id_entries(*old(self))[*key]) } else { None }),
            texture_id_entries(*final(self)) == texture_id_entries(*old(self)).remove(*key),
    {
        self.map.remove(key)
    }

    /// Walks the hash map with `iter` and hands out each entry once; the order is the map's
    /// own.
    #[verifier::external_body]
    fn to_vec(&self) -> (r: Vec<(ImageKey, u64)>)
        ensures
            r@.len() == texture_id_entries(*self).len(),
            r@.no_duplicates(),
            forall|i: int| 0 <= i < r@.len() ==> #[trigger] texture_id_entries(*self).contains_key(r@[i].0)
                && texture_id_entries(*self)[r@[i].0] == r@[i].1,
            forall|k: ImageKey| #[trigger] texture_id_entries(*self).contains_key(k) ==> r@.contains((k, texture_id_entries(*self)[k])),
    {
        self.map.iter().map(|(k, v)| (*k, *v)).collect()
    }
}

/// What the user textures hold: the ids of the registered images, and the id that the next
/// new image gets.
pub struct UserTexturesView {
    /// The id of each registered image.
    pub ids: Map<ImageKey, u64>,
    /// The id that the next newly registered image gets.
    pub last_texture_id: u64,
}

/// The images of the engine that egui shows, each with the id of its egui texture. Ids are
/// handed out in increasing order, and never twice.
pub struct EguiUserTextures {
    textures: TextureIdMap,
    last_texture_id: u64,
}

impl View for EguiUserTextures {
    type V = UserTexturesView;

    closed spec fn view(&self) -> UserTexturesView {
        UserTexturesView { ids: self.textures.entries(), last_texture_id: self.last_texture_id }
    }
}

/// Every id handed out lies below the next id, and no two images share one.
pub open spec fn user_textures_wf(v: UserTexturesView) -> bool {
    &&& v.ids.dom().finite()
    &&& forall|k: ImageKey| #[trigger] v.ids.contains_key(k) ==> v.ids[k] < v.last_texture_id
    &&& forall|a: ImageKey, b: ImageKey|
        #[trigger] v.ids.contains_key(a) && #[trigger] v.ids.contains_key(b) && a != b ==> v.ids[a] != v.ids[b]
}

impl EguiUserTextures {
    /// The ids stay consistent: see `user_textures_wf`.
    #[verifier::type_invariant]
    spec fn inv(self) -> bool {
        user_textures_wf(self@)
    }
}

/// The view after removing an image: it has no id any more, and the next id stays.
pub open spec fn after_remove_image(v: UserTexturesView, image: ImageKey) -> UserTexturesView {
    UserTexturesView { ids: v.ids.remove(image), last_texture_id: v.last_texture_id }
}

/// The view after registering an image: an image already registered keeps its id and
/// nothing changes; a new image gets the next id, and the next id moves on by one.
pub open spec fn after_add_image(v: UserTexturesView, image: ImageKey) -> UserTexturesView {
    if v.ids.contains_key(image) {
        v
    } else {
        UserTexturesView { ids: v.ids.insert(image, v.last_texture_id), last_texture_id: (v.last_texture_id + 1) as u64 }
    }
}

impl EguiUserTextures {
    /// No image is registered, and the first id is 0.
    pub fn new() -> (r: EguiUserTextures)
        ensures
            r@.ids == Map::<ImageKey, u64>::empty(),
            r@.last_texture_id == 0,
            user_textures_wf(r@),
    {
        EguiUserTextures { textures: TextureIdMap::new(), last_texture_id: 0 }
    }

    /// Registers an image, which can be strong or weak, and hands back the id of its egui
    /// texture: the id it already has, or, for a new image, the next id.
    pub fn add_image(&mut self, image: ImageKey) -> (r: TextureId)
        requires
            old(self)@.ids.contains_key(image) || old(self)@.last_texture_id < u64::MAX,
        ensures
            final(self)@ == after_add_image(old(self)@, image),
            r == TextureId::User(final(self)@.ids[image]),
            user_textures_wf(final(self)@),
    {
        proof {
            use_type_invariant(&*self);
        }
        let id = match self.textures.get(&image) {
            Some(id) => id,
            None => {
                let id = self.last_texture_id;
                self.last_texture_id = self.last_texture_id + 1;
                let mut textures = TextureIdMap::new();
                std::mem::swap(&mut textures, &mut self.textures);
                textures.insert(image, id);
                proof {
                    assert(textures.entries().dom() =~= old(self)@.ids.dom().insert(image));
                }
                self.textures = textures;
                id
            },
        };
        proof {
            assert(self@.ids.dom() =~= old(self)@.ids.dom().insert(image));
            use_type_invariant(&*self);
        }
        TextureId::User(id)
    }

    /// Removes an image and hands back the id that it had, if it was registered.
    pub fn remove_image(&mut self, image: &ImageKey) -> (r: Option<TextureId>)
        ensures
            r == (if old(self)@.ids.contains_key(*image) { Some(TextureId::User(old(self)@.ids[*image])) } else { None }),
            final(self)@ == after_remove_image(old(self)@, *image),
            user_textures_wf(final(self)@),
    {
        proof {
            use_type_invariant(&*self);
        }
        let mut textures = TextureIdMap::new();
        std::mem::swap(&mut textures, &mut self.textures);
        let id = textures.remove(image);
        self.textures = textures;
        match id {
            Some(id) => Some(TextureId::User(id)),
            None => None,
        }
    }

    /// The id of an image's egui texture, if the image is registered.
    pub fn image_id(&self, image: &ImageKey) -> (r: Option<TextureId>)
        ensures
            r == (if self@.ids.contains_key(*image) { Some(TextureId::User(self@.ids[*image])) } else { None }),
    {
        match self.textures.get(image) {
            Some(id) => Some(TextureId::User(id)),
            None => None,
        }
    }

    /// The id that the next new image gets.
    pub fn last_texture_id(&self) -> (r: u64)
        ensures
            r == self@.last_texture_id,
    {
        self.last_texture_id
    }

    /// Every registered image with the id of its texture, each once, in no particular order.
    pub fn entries(&self) -> (r: Vec<(ImageKey, u64)>)
        ensures
            r@.len() == self@.ids.len(),
            r@.no_duplicates(),
            forall|i: int| 0 <= i < r@.len() ==> #[trigger] self@.ids.contains_key(r@[i].0)
                && self@.ids[r@[i].0] == r@[i].1,
            forall|k: ImageKey| #[trigger] self@.ids.contains_key(k) ==> r@.contains((k, self@.ids[k])),
    {
        self.textures.to_vec()
    }
}

/// An sRGBA color with premultiplied alpha, as egui stores its pixels.
#[derive(Clone, Copy, Debug, PartialEq, Eq, Hash)]
pub struct Color32 {
    /// Red.
    pub r: u8,
    /// Green.
    pub g: u8,
    /// Blue.
    pub b: u8,
    /// Alpha.
    pub a: u8,
}

/// An image of colored pixels, stored row by row from the top.
#[derive(Clone, Debug, PartialEq, Eq)]
pub struct ColorImage {
    /// The width in pixels.
    pub width: usize,
    /// The height in pixels.
    pub height: usize,
    /// The pixels, row by row, from top to bottom.
    pub pixels: Vec<Color32>,
}

impl ColorImage {
    /// The image holds exactly one pixel per position.
    pub open spec fn wf(&self) -> bool {
        self.pixels@.len() == self.width * self.height
    }

    /// Whether a position lies inside the image.
    pub open spec fn contains(&self, px: int, py: int) -> bool {
        0 <= px < self.width && 0 <= py < self.height
    }

    /// The pixel at a position.
    pub open spec fn at(&self, px: int, py: int) -> Color32 {
        self.pixels@[py * self.width + px]
    }
}

/// `dest` is `old` with `src` copied in, its top left corner at `(x, y)`: the pixels
/// that `src` covers come from `src`, every other pixel stays.
pub open spec fn rect_copied(old: ColorImage, dest: ColorImage, x: int, y: int, src: ColorImage) -> bool {
    &&& dest.width == old.width
    &&& dest.height == old.height
    &&& dest.wf()
    &&& forall|px: int, py: int| #[trigger] dest.contains(px, py) ==>
        dest.at(px, py) == (if x <= px < x + src.width && y <= py < y + src.height {
            src.at(px - x, py - y)
        } else {
            old.at(px, py)
        })
}

/// The slot of a position in the pixel rows of an image of the given width.
proof fn lemma_pixel_slot(w: int, h: int, px: int, py: int)
    requires
        0 <= px < w,
        0 <= py < h,
    ensures
        0 <= py * w + px < w * h,
{
    assert(0 <= py * w + px < w * h) by (nonlinear_arith)
        requires
            0 <= px < w,
            0 <= py < h,
    ;
}

/// Different positions of an image hold different slots of its pixel rows.
proof fn lemma_pixel_slots_differ(w: int, px: int, py: int, qx: int, qy: int)
    requires
        0 <= px < w,
        0 <= qx < w,
        0 <= py,
        0 <= qy,
        px != qx || py != qy,
    ensures
        py * w + px != qy * w + qx,
{
    if py == qy {
    } else if py < qy {
        assert(py * w + px < qy * w + qx) by (nonlinear_arith)
            requires
                0 <= px < w,
                0 <= qx,
                py < qy,
        ;
    } else {
        assert(qy * w + qx < py * w + px) by (nonlinear_arith)
            requires
                0 <= qx < w,
                0 <= px,
                qy < py,
        ;
    }
}

/// Copies `src` into `dest` with its top left corner at `(x, y)`, as a partial texture
/// update of egui does.
pub fn update_image_rect(dest: &mut ColorImage, x: usize, y: usize, src: &ColorImage)
    requires
        old(dest).wf(),
        src.wf(),
        src.width == 0 || src.height == 0 || (x + src.width <= old(dest).width && y + src.height <= old(dest).height),
    ensures
        rect_copied(*old(dest), *final(dest), x as int, y as int, *src),
{
    let ghost old_dest = *dest;
    if src.width == 0 || src.height == 0 {
        proof {
            assert forall|px: int, py: int| #[trigger] dest.contains(px, py) implies
                dest.at(px, py) == old_dest.at(px, py) by {}
        }
        return;
    }
    let src_len = src.pixels.len();
    let dest_len = dest.pixels.len();
    let mut sy: usize = 0;
    let mut src_row: usize = 0;
    proof {
        assert(y * dest.width <= dest.height * dest.width) by (nonlinear_arith)
            requires
                y + src.height <= dest.height,
        ;
        assert(dest.height * dest.width == dest.width * dest.height) by (nonlinear_arith);
    }
    let mut dest_row: usize = y * dest.width;
    while sy < src.height
        invariant
            src_row == sy * src.width,
            dest_row == (y + sy) * dest.width,
            src_len == src.pixels@.len(),
            dest_len == dest.width * dest.height,
            src.wf(),
            0 < src.width,
            x + src.width <= dest.width,
            y + src.height <= dest.height,
            sy <= src.height,
            dest.width == old_dest.width,
            dest.height == old_dest.height,
            dest.wf(),
            forall|px: int, py: int| #[trigger] dest.contains(px, py) ==>
                dest.at(px, py) == (if x <= px < x + src.width && y <= py < y + sy {
                    src.at(px - x, py - y)
                } else {
                    old_dest.at(px, py)
                }),
        decreases src.height - sy,
    {
        let mut sx: usize = 0;
        while sx < src.width
            invariant
                src_row == sy * src.width,
                dest_row == (y + sy) * dest.width,
                src_len == src.pixels@.len(),
                dest_len == dest.width * dest.height,
                src.wf(),
                0 < src.width,
                x + src.width <= dest.width,
                y + src.height <= dest.height,
                sy < src.height,
                sx <= src.width,
                dest.width == old_dest.width,
                dest.height == old_dest.height,
                dest.wf(),
                forall|px: int, py: int| #[trigger] dest.contains(px, py) ==>
                    dest.at(px, py) == (if (x <= px < x + src.width && y <= py < y + sy)
                        || (x <= px < x + sx && py == y + sy) {
                        src.at(px - x, py - y)
                    } else {
                        old_dest.at(px, py)
                    }),
            decreases src.width - sx,
        {
            proof {
                lemma_pixel_slot(src.width as int, src.height as int, sx as int, sy as int);
                lemma_pixel_slot(dest.width as int, dest.height as int, (x + sx) as int, (y + sy) as int);
            }
            let color = src.pixels[src_row + sx];
            let slot = dest_row + (x + sx);
            let ghost before = *dest;
            dest.pixels.set(slot, color);
            proof {
                assert forall|px: int, py: int| #[trigger] dest.contains(px, py) implies
                    dest.at(px, py) == (if (x <= px < x + src.width && y <= py < y + sy)
                        || (x <= px < x + sx + 1 && py == y + sy) {
                        src.at(px - x, py - y)
                    } else {
                        old_dest.at(px, py)
                    }) by {
                    assert(before.contains(px, py));
                    lemma_pixel_slot(dest.width as int, dest.height as int, px, py);
                    if px != x + sx || py != y + sy {
                        lemma_pixel_slots_differ(dest.width as int, px, py, (x + sx) as int, (y + sy) as int);
                    }
                }
            }
            sx += 1;
        }
        proof {
            lemma_pixel_slot(src.width as int, src.height as int, 0, sy as int);
            lemma_pixel_slot(dest.width as int, dest.height as int, 0, (y + sy) as int);
            assert((sy + 1) * src.width == sy * src.width + src.width) by (nonlinear_arith);
            assert((y + sy + 1) * dest.width == (y + sy) * dest.width + dest.width) by (nonlinear_arith);
            assert((sy + 1) * src.width <= src.width * src.height) by (nonlinear_arith)
                requires
                    sy < src.height,
            ;
            assert((y + sy + 1) * dest.width <= dest.width * dest.height) by (nonlinear_arith)
                requires
                    y + sy < dest.height,
            ;
        }
        src_row = src_row + src.width;
        dest_row = dest_row + dest.width;
        sy += 1;
    }
}

/// The unmultiplied sRGBA bytes that egui's `Color32::to_srgba_unmultiplied` makes of a
/// premultiplied color.
pub uninterp spec fn srgba_unmultiplied(c: Color32) -> (u8, u8, u8, u8);

/// Calls egui's `Color32::to_srgba_unmultiplied` on the color with the given premultiplied
/// components. The contract claims only that the result is a function of the color.
#[verifier::external_body]
fn to_srgba_unmultiplied(c: Color32) -> (r: (u8, u8, u8, u8))
    ensures
        r == srgba_unmultiplied(c),
{
    let [r, g, b, a] = egui::Color32::from_rgba_premultiplied(c.r, c.g, c.b, c.a).to_srgba_unmultiplied();
    (r, g, b, a)
}

/// The bytes of an image for the engine: four unmultiplied sRGBA bytes per pixel, in the
/// order of the pixels. Egui's textures are unmultiplied here to be premultiplied again in
/// the fragment shader, as the engine's own textures are not premultiplied.
pub open spec fn image_bytes_match(pixels: Seq<Color32>, bytes: Seq<u8>) -> bool {
    &&& bytes.len() == 4 * pixels.len()
    &&& forall|i: int| 0 <= i < pixels.len() ==> {
        let c = #[trigger] srgba_unmultiplied(pixels[i]);
        &&& bytes[4 * i] == c.0
        &&& bytes[4 * i + 1] == c.1
        &&& bytes[4 * i + 2] == c.2
        &&& bytes[4 * i + 3] == c.3
    }
}

/// The pixel bytes of an egui image as the engine's image takes them (see
/// `image_bytes_match`).
pub fn color_image_bytes(image: &ColorImage) -> (r: Vec<u8>)
    requires
        4 * image.pixels@.len() <= usize::MAX,
    ensures
        image_bytes_match(image.pixels@, r@),
{
    let mut bytes: Vec<u8> = Vec::new();
    let mut i: usize = 0;
    while i < image.pixels.len()
        invariant
            i <= image.pixels@.len(),
            4 * image.pixels@.len() <= usize::MAX,
            image_bytes_match(image.pixels@.take(i as int), bytes@),
        decreases image.pixels@.len() - i,
    {
        let (r, g, b, a) = to_srgba_unmultiplied(image.pixels[i]);
        let ghost before = bytes@;
        bytes.push(r);
        bytes.push(g);
        bytes.push(b);
        bytes.push(a);
        proof {
            assert(bytes@ =~= before + seq![r, g, b, a]);
            let p = image.pixels@.take(i + 1);
            assert forall|j: int| 0 <= j < p.len() implies {
                let c = #[trigger] srgba_unmultiplied(p[j]);
                &&& bytes@[4 * j] == c.0
                &&& bytes@[4 * j + 1] == c.1
                &&& bytes@[4 * j + 2] == c.2
                &&& bytes@[4 * j + 3] == c.3
            } by {
                if j < i {
                    assert(p[j] == image.pixels@.take(i as int)[j]);
                    let c = srgba_unmultiplied(image.pixels@.take(i as int)[j]);
                    assert(before[4 * j] == c.0);
                }
            }
        }
        i += 1;
    }
    assert(image.pixels@.take(image.pixels@.len() as int) =~= image.pixels@);
    bytes
}

/// What a texture update of egui does to the textures that egui paints.
#[derive(Clone, Copy, Debug, PartialEq, Eq)]
pub enum ManagedTextureUpdate {
    /// A user texture: egui does not paint it, so nothing happens.
    Ignore,
    /// The managed texture with this id is replaced by the delta's image.
    Replace(u64),
    /// The delta's image is copied into the managed texture with this id, its top left
    /// corner at the given position; nothing happens if there is no such texture.
    UpdateRect { id: u64, x: usize, y: usize },
}

/// What a texture delta of egui does: user textures are left alone; a delta without a
/// position replaces the whole texture; one with a position updates part of it.
pub fn managed_texture_update(texture_id: TextureId, pos: Option<(usize, usize)>) -> (r: ManagedTextureUpdate)
    ensures
        r == (match texture_id {
            TextureId::User(_) => ManagedTextureUpdate::Ignore,
            TextureId::Managed(id) => match pos {
                Some((x, y)) => ManagedTextureUpdate::UpdateRect { id, x, y },
                None => ManagedTextureUpdate::Replace(id),
            },
        }),
{
    match texture_id {
        TextureId::User(_) => ManagedTextureUpdate::Ignore,
        TextureId::Managed(id) => match pos {
            Some((x, y)) => ManagedTextureUpdate::UpdateRect { id, x, y },
            None => ManagedTextureUpdate::Replace(id),
        },
    }
}

/// The managed texture that egui frees with a texture id: only managed textures are freed.
pub fn freed_managed_texture(texture_id: TextureId) -> (r: Option<u64>)
    ensures
        r == (match texture_id {
            TextureId::Managed(id) => Some(id),
            TextureId::User(_) => None,
        }),
{
    match texture_id {
        TextureId::Managed(id) => Some(id),
        TextureId::User(_) => None,
    }
}

/// How egui filters a texture when it is magnified or minified.
#[derive(Clone, Copy, Debug, PartialEq, Eq, Hash)]
pub enum TextureFilter {
    /// The nearest texel.
    Nearest,
    /// Linear interpolation between texels.
    Linear,
}

/// How egui samples a texture outside its edges.
#[derive(Clone, Copy, Debug, PartialEq, Eq, Hash)]
pub enum TextureWrapMode {
    /// The edge texel is repeated.
    ClampToEdge,
    /// The texture repeats.
    Repeat,
    /// The texture repeats, mirrored.
    MirroredRepeat,
}

/// The sampling options of an egui texture.
#[derive(Clone, Copy, Debug, PartialEq, Eq, Hash)]
pub struct TextureOptions {
    /// The filter when the texture is magnified.
    pub magnification: TextureFilter,
    /// The filter when the texture is minified.
    pub minification: TextureFilter,
    /// The sampling outside the edges.
    pub wrap_mode: TextureWrapMode,
}

/// A filter mode of the engine's image sampler.
#[derive(Clone, Copy, Debug, PartialEq, Eq, Hash)]
pub enum ImageFilterMode {
    /// The nearest texel.
    Nearest,
    /// Linear interpolation.
    Linear,
}

/// An address mode of the engine's image sampler.
#[derive(Clone, Copy, Debug, PartialEq, Eq, Hash)]
pub enum ImageAddressMode {
    /// Clamp to the edge.
    ClampToEdge,
    /// Repeat.
    Repeat,
    /// Repeat, mirrored.
    MirrorRepeat,
}

/// The part of the engine's sampler descriptor that egui's options decide; every other
/// setting keeps the engine's default.
#[derive(Clone, Copy, Debug, PartialEq, Eq, Hash)]
pub struct SamplerOptions {
    /// The magnification filter.
    pub mag_filter: ImageFilterMode,
    /// The minification filter.
    pub min_filter: ImageFilterMode,
    /// The address mode along the horizontal axis.
    pub address_mode_u: ImageAddressMode,
    /// The address mode along the vertical axis.
    pub address_mode_v: ImageAddressMode,
}

/// The engine's filter for egui's.
pub open spec fn filter_of(f: TextureFilter) -> ImageFilterMode {
    match f {
        TextureFilter::Nearest => ImageFilterMode::Nearest,
        TextureFilter::Linear => ImageFilterMode::Linear,
    }
}

/// The engine's address mode for egui's wrap mode.
pub open spec fn address_mode_of(w: TextureWrapMode) -> ImageAddressMode {
    match w {
        TextureWrapMode::ClampToEdge => ImageAddressMode::ClampToEdge,
        TextureWrapMode::Repeat => ImageAddressMode::Repeat,
        TextureWrapMode::MirroredRepeat => ImageAddressMode::MirrorRepeat,
    }
}

fn convert_filter(f: TextureFilter) -> (r: ImageFilterMode)
    ensures
        r == filter_of(f),
{
    match f {
        TextureFilter::Nearest => ImageFilterMode::Nearest,
        TextureFilter::Linear => ImageFilterMode::Linear,
    }
}

/// The engine's sampler settings for egui's texture options: the filters map one to one,
/// and the wrap mode applies to both axes.
pub fn texture_options_as_sampler_descriptor(options: &TextureOptions) -> (r: SamplerOptions)
    ensures
        r.mag_filter == filter_of(options.magnification),
        r.min_filter == filter_of(options.minification),
        r.address_mode_u == address_mode_of(options.wrap_mode),
        r.address_mode_v == address_mode_of(options.wrap_mode),
{
    let address_mode = match options.wrap_mode {
        TextureWrapMode::ClampToEdge => ImageAddressMode::ClampToEdge,
        TextureWrapMode::Repeat => ImageAddressMode::Repeat,
        TextureWrapMode::MirroredRepeat => ImageAddressMode::MirrorRepeat,
    };
    SamplerOptions {
        mag_filter: convert_filter(options.magnification),
        min_filter: convert_filter(options.minification),
        address_mode_u: address_mode,
        address_mode_v: address_mode,
    }
}

/// Law: registering an image twice gives the same id the second time and changes nothing
/// more.
pub proof fn law_add_image_idempotent(v: UserTexturesView, image: ImageKey)
    ensures
        after_add_image(after_add_image(v, image), image) == after_add_image(v, image),
        after_add_image(v, image).ids[image] == after_add_image(after_add_image(v, image), image).ids[image],
{
}

/// Law: once an image is registered, looking it up gives the id that registering it
/// handed back, and registering other images later does not change that id.
pub proof fn law_image_id_after_add(v: UserTexturesView, image: ImageKey, other: ImageKey)
    requires
        user_textures_wf(v),
    ensures
        after_add_image(v, image).ids.contains_key(image),
        after_add_image(after_add_image(v, image), other).ids[image] == after_add_image(v, image).ids[image],
{
}

/// A change to the user textures: registering an image, or removing one.
pub enum UserTextureOp {
    /// `EguiUserTextures::add_image` of the image.
    Add(ImageKey),
    /// `EguiUserTextures::remove_image` of the image.
    Remove(ImageKey),
}

/// The view after a sequence of changes, applied in order.
pub open spec fn after_ops(v: UserTexturesView, ops: Seq<UserTextureOp>) -> UserTexturesView
    decreases ops.len(),
{
    if ops.len() == 0 {
        v
    } else {
        let w = after_ops(v, ops.drop_last());
        match ops.last() {
            UserTextureOp::Add(k) => after_add_image(w, k),
            UserTextureOp::Remove(k) => after_remove_image(w, k),
        }
    }
}

/// Law: once an image is registered, `image_id` gives the id that registering it handed
/// back, through any later registrations and removals, until the image itself is removed.
pub proof fn law_image_id_until_removed(v: UserTexturesView, image: ImageKey, ops: Seq<UserTextureOp>)
    requires
        forall|i: int| 0 <= i < ops.len() ==> !(#[trigger] ops[i] matches UserTextureOp::Remove(k) && k == image),
    ensures
        after_ops(after_add_image(v, image), ops).ids.contains_key(image),
        after_ops(after_add_image(v, image), ops).ids[image] == after_add_image(v, image).ids[image],
    decreases ops.len(),
{
    if ops.len() > 0 {
        let pre = ops.drop_last();
        assert forall|i: int| 0 <= i < pre.len() implies !(#[trigger] pre[i] matches UserTextureOp::Remove(k) && k == image) by {
            assert(pre[i] == ops[i]);
        }
        law_image_id_until_removed(v, image, pre);
        assert(ops.last() == ops[ops.len() - 1]);
    }
}

/// Law: a fresh image never gets an id that another registered image holds, so ids stay
/// unique however images are added and removed.
pub proof fn law_fresh_ids_unique(v: UserTexturesView, image: ImageKey, removed: ImageKey)
    requires
        user_textures_wf(v),
        v.ids.contains_key(image) || v.last_texture_id < u64::MAX,
    ensures
        user_textures_wf(after_add_image(v, image)),
        user_textures_wf(UserTexturesView { ids: v.ids.remove(removed), last_texture_id: v.last_texture_id }),
        !v.ids.contains_key(image) ==> forall|k: ImageKey| #[trigger] v.ids.contains_key(k) ==> v.ids[k] != after_add_image(v, image).ids[image],
{
    if !v.ids.contains_key(image) {
        let w = after_add_image(v, image);
        assert(w.ids.dom() =~= v.ids.dom().insert(image));
    }
}

/// Law: after an image is removed, it has no id any more and the next fresh id is what it
/// was; registering it again gives it a new id, never the one it had.
pub proof fn law_remove_forgets(v: UserTexturesView, image: ImageKey)
    requires
        user_textures_wf(v),
    ensures
        !after_remove_image(v, image).ids.contains_key(image),
        after_remove_image(v, image).last_texture_id == v.last_texture_id,
        v.ids.contains_key(image) && v.last_texture_id < u64::MAX ==>
            after_add_image(after_remove_image(v, image), image).ids[image] != v.ids[image],
{
}

/// The full images of the textures that egui paints, by window (entity bits) and texture
/// id, held in the engine's hash map; egui updates them in part, which the engine's images
/// cannot do.
#[verifier::external_body]
pub struct ManagedTextures {
    map: bevy_utils::HashMap<(u64, u64), ColorImage>,
}

/// The images of a `ManagedTextures`.
pub uninterp spec fn managed_images(m: ManagedTextures) -> Map<(u64, u64), ColorImage>;

impl ManagedTextures {
    /// The images, by window and texture id.
    pub open spec fn images(self) -> Map<(u64, u64), ColorImage> {
        managed_images(self)
    }

    /// Every image holds one pixel per position.
    pub open spec fn wf(self) -> bool {
        forall|k: (u64, u64)| #[trigger] self.images().contains_key(k) ==> self.images()[k].wf()
    }

    /// Calls the hash map's `default`, which makes a map without entries.
    #[verifier::external_body]
    fn map_default() -> (r: ManagedTextures)
        ensures
            managed_images(r).dom().is_empty(),
    {
        ManagedTextures { map: bevy_utils::HashMap::default() }
    }

    /// Calls the hash map's `get`, which finds the image stored under a key.
    #[verifier::external_body]
    fn map_get(&self, key: &(u64, u64)) -> (r: Option<&ColorImage>)
        ensures
            r == (if managed_images(*self).contains_key(*key) { Some(&managed_images(*self)[*key]) } else { None }),
    {
        self.map.get(key)
    }

    /// No texture is stored.
    pub fn new() -> (r: ManagedTextures)
        ensures
            r.images().dom().is_empty(),
            r.wf(),
    {
        ManagedTextures::map_default()
    }

    /// The image of a window's texture, if it is stored.
    pub fn get(&self, key: &(u64, u64)) -> (r: Option<&ColorImage>)
        ensures
            r == (if self.images().contains_key(*key) { Some(&self.images()[*key]) } else { None }),
    {
        self.map_get(key)
    }

    /// Calls the hash map's `insert`, which stores an image under a key, in place of any
    /// image stored there before.
    #[verifier::external_body]
    fn insert(&mut self, key: (u64, u64), image: ColorImage)
        ensures
            managed_images(*final(self)) == managed_images(*old(self)).insert(key, image),
    {
        self.map.insert(key, image);
    }

    /// Calls the hash map's `remove`, which takes the entry of a key out and hands back its
    /// image, if there was one.
    #[verifier::external_body]
    fn remove(&mut self, key: &(u64, u64)) -> (r: Option<ColorImage>)
        ensures
            r == (if managed_images(*old(self)).contains_key(*key) { Some(managed_images(*old(self))[*key]) } else { None }),
            managed_images(*final(self)) == managed_images(*old(self)).remove(*key),
    {
        self.map.remove(key)
    }
}

/// What a texture delta did to the managed textures.
#[derive(Clone, Copy, Debug, PartialEq, Eq)]
pub enum TextureDeltaOutcome {
    /// A user texture: nothing happened.
    Ignored,
    /// The texture's image was replaced (or created) whole.
    Replaced,
    /// Part of the texture's image was updated.
    Updated,
    /// A partial update of a texture that does not exist: nothing happened.
    Missing,
}

/// A partial update fits its texture: the delta's image lies inside the stored one (or is
/// empty).
pub open spec fn delta_fits(images: Map<(u64, u64), ColorImage>, window: u64, texture_id: TextureId, pos: Option<(usize, usize)>, image: ColorImage) -> bool {
    match (texture_id, pos) {
        (TextureId::Managed(id), Some((x, y))) => images.contains_key((window, id)) ==> {
            let dest = images[(window, id)];
            image.width == 0 || image.height == 0 || (x + image.width <= dest.width && y + image.height <= dest.height)
        },
        _ => true,
    }
}

/// Applies a texture delta of a window's context to the managed textures (see
/// `managed_texture_update`): a whole image replaces the texture's; a partial one is
/// copied into the stored image, if there is one; user textures are left alone.
pub fn apply_texture_delta(textures: &mut ManagedTextures, window: u64, texture_id: TextureId, pos: Option<(usize, usize)>, image: ColorImage) -> (r: TextureDeltaOutcome)
    requires
        old(textures).wf(),
        image.wf(),
        delta_fits(old(textures).images(), window, texture_id, pos, image),
    ensures
        final(textures).wf(),
        match texture_id {
            TextureId::User(_) => r == TextureDeltaOutcome::Ignored && final(textures).images() == old(textures).images(),
            TextureId::Managed(id) => match pos {
                None => r == TextureDeltaOutcome::Replaced && final(textures).images() == old(textures).images().insert((window, id), image),
                Some((x, y)) => if old(textures).images().contains_key((window, id)) {
                    &&& r == TextureDeltaOutcome::Updated
                    &&& final(textures).images().dom() == old(textures).images().dom()
                    &&& forall|k: (u64, u64)| k != (window, id) && #[trigger] old(textures).images().contains_key(k)
                        ==> final(textures).images()[k] == old(textures).images()[k]
                    &&& rect_copied(old(textures).images()[(window, id)], final(textures).images()[(window, id)], x as int, y as int, image)
                } else {
                    r == TextureDeltaOutcome::Missing && final(textures).images() == old(textures).images()
                },
            },
        },
{
    match managed_texture_update(texture_id, pos) {
        ManagedTextureUpdate::Ignore => TextureDeltaOutcome::Ignored,
        ManagedTextureUpdate::Replace(id) => {
            textures.insert((window, id), image);
            TextureDeltaOutcome::Replaced
        },
        ManagedTextureUpdate::UpdateRect { id, x, y } => {
            match textures.remove(&(window, id)) {
                Some(mut dest) => {
                    let ghost old_images = managed_images(*old(textures));
                    update_image_rect(&mut dest, x, y, &image);
                    textures.insert((window, id), dest);
                    proof {
                        assert(managed_images(*textures).dom() =~= old_images.dom());
                    }
                    TextureDeltaOutcome::Updated
                },
                None => {
                    proof {
                        assert(managed_images(*textures) =~= managed_images(*old(textures)));
                    }
                    TextureDeltaOutcome::Missing
                },
            }
        },
    }
}

/// Frees a texture that egui no longer uses: a managed texture of the window is removed
/// and its image handed back; user textures are not egui's to free.
pub fn free_texture(textures: &mut ManagedTextures, window: u64, texture_id: TextureId) -> (r: Option<ColorImage>)
    requires
        old(textures).wf(),
    ensures
        final(textures).wf(),
        match texture_id {
            TextureId::User(_) => r is None && final(textures).images() == old(textures).images(),
            TextureId::Managed(id) => {
                &&& final(textures).images() == old(textures).images().remove((window, id))
                &&& r == (if old(textures).images().contains_key((window, id)) { Some(old(textures).images()[(window, id)]) } else { None })
            },
        },
{
    match freed_managed_texture(texture_id) {
        Some(id) => {
            let r = textures.remove(&(window, id));
            proof {
                assert forall|k: (u64, u64)| #[trigger] textures.images().contains_key(k) implies textures.images()[k].wf() by {
                    assert(old(textures).images().contains_key(k));
                }
            }
            r
        },
        None => None,
    }
}

} // verus!
