use bevy_egui::textures::{
    apply_texture_delta, color_image_bytes, free_texture, freed_managed_texture,
    managed_texture_update, texture_options_as_sampler_descriptor, update_image_rect, Color32,
    ColorImage, EguiUserTextures, ImageAddressMode, ImageFilterMode, ManagedTextureUpdate,
    ManagedTextures, TextureDeltaOutcome, TextureFilter, TextureId, TextureOptions,
    TextureWrapMode,
};

fn gray(v: u8) -> Color32 {
    Color32 { r: v, g: v, b: v, a: 255 }
}

fn image(width: usize, height: usize, v: u8) -> ColorImage {
    ColorImage { width, height, pixels: vec![gray(v); width * height] }
}

#[test]
fn user_textures_hand_out_fresh_ids() {
    let mut t = EguiUserTextures::new();
    let a = (0u8, 1u128);
    let b = (1u8, 0xdead_beefu128);
    assert_eq!(t.add_image(a), TextureId::User(0));
    assert_eq!(t.add_image(b), TextureId::User(1));
    assert_eq!(t.add_image(a), TextureId::User(0));
    assert_eq!(t.image_id(&a), Some(TextureId::User(0)));
    assert_eq!(t.image_id(&b), Some(TextureId::User(1)));
    assert_eq!(t.remove_image(&a), Some(TextureId::User(0)));
    assert_eq!(t.image_id(&a), None);
    assert_eq!(t.remove_image(&a), None);
    assert_eq!(t.last_texture_id(), 2);
    // A removed image comes back with a new id; ids are never reused.
    assert_eq!(t.add_image(a), TextureId::User(2));
    assert_eq!(t.last_texture_id(), 3);
    let mut entries = t.entries();
    entries.sort();
    assert_eq!(entries, vec![((0, 1), 2), ((1, 0xdead_beef), 1)]);
}

#[test]
fn image_id_stays_until_the_image_is_removed() {
    let mut t = EguiUserTextures::new();
    let a = (0u8, 5u128);
    let b = (0u8, 6u128);
    let id = t.add_image(a);
    t.add_image(b);
    t.remove_image(&b);
    t.add_image((1, 9));
    assert_eq!(t.image_id(&a), Some(id));
    t.remove_image(&a);
    assert_eq!(t.image_id(&a), None);
}

#[test]
fn image_rect_update_copies_only_the_rect() {
    let mut dest = image(4, 3, 0);
    let src = ColorImage { width: 2, height: 2, pixels: vec![gray(1), gray(2), gray(3), gray(4)] };
    update_image_rect(&mut dest, 1, 1, &src);
    let v: Vec<u8> = dest.pixels.iter().map(|c| c.r).collect();
    assert_eq!(v, vec![0, 0, 0, 0, 0, 1, 2, 0, 0, 3, 4, 0]);
    let empty = ColorImage { width: 0, height: 5, pixels: vec![] };
    let before = dest.clone();
    update_image_rect(&mut dest, 100, 100, &empty);
    assert_eq!(dest, before);
}

#[test]
fn image_bytes_are_unmultiplied_srgba() {
    let pixels = vec![
        Color32 { r: 10, g: 20, b: 30, a: 255 },
        Color32 { r: 64, g: 0, b: 0, a: 128 },
    ];
    let img = ColorImage { width: 2, height: 1, pixels: pixels.clone() };
    let bytes = color_image_bytes(&img);
    let mut expected = Vec::new();
    for c in &pixels {
        expected.extend_from_slice(&egui::Color32::from_rgba_premultiplied(c.r, c.g, c.b, c.a).to_srgba_unmultiplied());
    }
    assert_eq!(bytes, expected);
    assert_eq!(&bytes[0..4], &[10, 20, 30, 255]);
    // A half transparent pixel is unmultiplied, so it does not come back as it went in.
    assert_ne!(&bytes[4..8], &[64, 0, 0, 128]);
}

#[test]
fn texture_deltas_decide_updates() {
    assert_eq!(managed_texture_update(TextureId::User(3), None), ManagedTextureUpdate::Ignore);
    assert_eq!(managed_texture_update(TextureId::Managed(3), None), ManagedTextureUpdate::Replace(3));
    assert_eq!(managed_texture_update(TextureId::Managed(3), Some((4, 5))), ManagedTextureUpdate::UpdateRect { id: 3, x: 4, y: 5 });
    assert_eq!(freed_managed_texture(TextureId::Managed(9)), Some(9));
    assert_eq!(freed_managed_texture(TextureId::User(9)), None);
}

#[test]
fn managed_textures_follow_deltas() {
    let mut t = ManagedTextures::new();
    assert_eq!(apply_texture_delta(&mut t, 1, TextureId::Managed(0), Some((0, 0)), image(1, 1, 9)), TextureDeltaOutcome::Missing);
    assert!(t.get(&(1, 0)).is_none());
    assert_eq!(apply_texture_delta(&mut t, 1, TextureId::Managed(0), None, image(3, 2, 5)), TextureDeltaOutcome::Replaced);
    assert_eq!(apply_texture_delta(&mut t, 1, TextureId::Managed(0), Some((2, 1)), image(1, 1, 7)), TextureDeltaOutcome::Updated);
    let stored = t.get(&(1, 0)).unwrap();
    let v: Vec<u8> = stored.pixels.iter().map(|c| c.r).collect();
    assert_eq!(v, vec![5, 5, 5, 5, 5, 7]);
    assert_eq!(apply_texture_delta(&mut t, 1, TextureId::User(0), None, image(1, 1, 1)), TextureDeltaOutcome::Ignored);
    assert!(t.get(&(2, 0)).is_none());
    assert!(free_texture(&mut t, 1, TextureId::User(0)).is_none());
    assert!(t.get(&(1, 0)).is_some());
    assert_eq!(free_texture(&mut t, 1, TextureId::Managed(0)).map(|i| i.width), Some(3));
    assert!(t.get(&(1, 0)).is_none());
}

#[test]
fn sampler_follows_texture_options() {
    let options = TextureOptions {
        magnification: TextureFilter::Nearest,
        minification: TextureFilter::Linear,
        wrap_mode: TextureWrapMode::MirroredRepeat,
    };
    let s = texture_options_as_sampler_descriptor(&options);
    assert_eq!(s.mag_filter, ImageFilterMode::Nearest);
    assert_eq!(s.min_filter, ImageFilterMode::Linear);
    assert_eq!(s.address_mode_u, ImageAddressMode::MirrorRepeat);
    assert_eq!(s.address_mode_v, ImageAddressMode::MirrorRepeat);
}
