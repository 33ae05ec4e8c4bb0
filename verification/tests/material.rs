use nightmare_engine::material::{
    AddressMode, FilterMode, TextureDimension, TextureFormat, TextureUpload, TextureUsages,
};

const RGBA_2X1: [u8; 72] = [
    137, 80, 78, 71, 13, 10, 26, 10, 0, 0, 0, 13, 73, 72, 68, 82, 0, 0, 0, 2, 0, 0, 0, 1, 8, 6,
    0, 0, 0, 244, 34, 127, 138, 0, 0, 0, 15, 73, 68, 65, 84, 120, 156, 99, 248, 207, 192, 240, 31,
    8, 27, 0, 16, 121, 3, 126, 125, 99, 206, 215, 0, 0, 0, 0, 73, 69, 78, 68, 174, 66, 96, 130,
];

const RGB_1X2: [u8; 73] = [
    137, 80, 78, 71, 13, 10, 26, 10, 0, 0, 0, 13, 73, 72, 68, 82, 0, 0, 0, 1, 0, 0, 0, 2, 8, 2,
    0, 0, 0, 22, 227, 33, 112, 0, 0, 0, 16, 73, 68, 65, 84, 120, 156, 99, 224, 18, 145, 99, 208,
    48, 178, 1, 0, 2, 116, 0, 211, 126, 76, 99, 26, 0, 0, 0, 0, 73, 69, 78, 68, 174, 66, 96, 130,
];

fn assert_material_settings(t: &TextureUpload) {
    assert_eq!(t.depth_or_array_layers, 1);
    assert_eq!(t.mip_level_count, 1);
    assert_eq!(t.sample_count, 1);
    assert_eq!(t.dimension, TextureDimension::D2);
    assert_eq!(t.format, TextureFormat::Rgba8UnormSrgb);
    assert_eq!(
        t.usage,
        TextureUsages {
            copy_src: false,
            copy_dst: true,
            texture_binding: true,
            storage_binding: false,
            render_attachment: false,
        }
    );
    assert_eq!(t.offset, 0);
    assert_eq!(t.sampler.address_mode_u, AddressMode::Repeat);
    assert_eq!(t.sampler.address_mode_v, AddressMode::Repeat);
    assert_eq!(t.sampler.address_mode_w, AddressMode::Repeat);
    assert_eq!(t.sampler.mag_filter, FilterMode::Linear);
    assert_eq!(t.sampler.min_filter, FilterMode::Nearest);
    assert_eq!(t.sampler.mipmap_filter, FilterMode::Nearest);
}

#[test]
fn rgba_png_is_prepared_for_upload() {
    let t = TextureUpload::from_bytes(&RGBA_2X1, Some("grid.png")).expect("decodes");
    assert_eq!(t.label, Some("grid.png".to_string()));
    assert_eq!((t.width, t.height), (2, 1));
    assert_eq!(t.bytes_per_row, Some(8));
    assert_eq!(t.rows_per_image, Some(1));
    assert_eq!(t.rgba, vec![255, 0, 0, 255, 0, 255, 0, 128]);
    assert_material_settings(&t);
}

#[test]
fn rgb_png_gains_an_opaque_alpha_channel() {
    let t = TextureUpload::from_bytes(&RGB_1X2, None).expect("decodes");
    assert_eq!(t.label, None);
    assert_eq!((t.width, t.height), (1, 2));
    assert_eq!(t.bytes_per_row, Some(4));
    assert_eq!(t.rows_per_image, Some(2));
    assert_eq!(t.rgba, vec![10, 20, 30, 255, 40, 50, 60, 255]);
    assert_eq!(t.rgba.len(), 4 * 1 * 2);
    assert_material_settings(&t);
}

#[test]
fn undecodable_bytes_give_no_texture() {
    assert!(TextureUpload::from_bytes(&[], Some("x")).is_none());
    assert!(TextureUpload::from_bytes(&[1, 2, 3, 4, 5], None).is_none());
    assert!(TextureUpload::from_bytes(&RGBA_2X1[..40], None).is_none());
}

#[test]
fn layout_of_decoded_pixels() {
    let t = TextureUpload::from_decoded(0, 0, vec![], None).unwrap();
    assert_eq!(t.bytes_per_row, None);
    assert_eq!(t.rows_per_image, None);
    assert_material_settings(&t);
    let t = TextureUpload::from_decoded(3, 0, vec![], Some("")).unwrap();
    assert_eq!(t.bytes_per_row, Some(12));
    assert_eq!(t.rows_per_image, None);
    assert_eq!(t.label, Some(String::new()));
    let t = TextureUpload::from_decoded(u32::MAX / 4, 7, vec![1], None).unwrap();
    assert_eq!(t.bytes_per_row, Some(u32::MAX / 4 * 4));
    assert_eq!(t.rgba, vec![1]);
}

#[test]
fn too_wide_rows_give_no_texture() {
    assert!(TextureUpload::from_decoded(u32::MAX / 4 + 1, 1, vec![], None).is_none());
    assert!(TextureUpload::from_decoded(u32::MAX, 1, vec![], None).is_none());
}
