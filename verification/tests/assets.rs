use tubereng::asset::AssetLoader;
use tubereng::assets::{AssetHandle, Assets};
use tubereng::picture::{Image, ImageFormat, ImageLoader};

const TWO_PIXELS_PNG: [u8; 72] = [
    137, 80, 78, 71, 13, 10, 26, 10, 0, 0, 0, 13, 73, 72, 68, 82, 0, 0, 0, 2, 0, 0, 0, 1, 8, 2, 0,
    0, 0, 123, 64, 232, 221, 0, 0, 0, 15, 73, 68, 65, 84, 120, 156, 99, 248, 207, 192, 192, 240,
    159, 1, 0, 7, 255, 1, 255, 1, 127, 137, 167, 0, 0, 0, 0, 73, 69, 78, 68, 174, 66, 96, 130,
];

#[test]
fn assets_give_back_what_was_stored() {
    let mut assets = Assets::new();
    let first = assets.store(String::from("cheh"));
    let second = assets.store(String::from("other"));
    assert_eq!((first, second), (0, 1));
    assert_eq!(*assets.get(first), "cheh");
    assert_eq!(*assets.get(second), "other");
}

#[test]
fn asset_handles_compare_by_id() {
    let a = AssetHandle::<String>::new(3);
    let b = AssetHandle::<String>::new(3);
    let c = AssetHandle::<String>::new(4);
    assert!(a == b);
    assert!(a != c);
    assert_eq!(a.clone().id(), 3);
    let new_handle = tubereng::asset::AssetHandle::<u8>::new(9);
    assert_eq!(new_handle.id(), 9);
}

#[test]
fn image_loader_decodes_rgba8() {
    let image: Image = ImageLoader::load(&TWO_PIXELS_PNG).unwrap();
    assert_eq!(image.width(), 2);
    assert_eq!(image.height(), 1);
    assert_eq!(image.format(), ImageFormat::RGBA8);
    assert_eq!(image.data(), &[255, 0, 0, 255, 0, 255, 0, 255]);
}

#[test]
fn image_loader_refuses_other_bytes() {
    let result: Result<Image, _> = ImageLoader::load(b"not an image");
    assert!(matches!(result, Err(tubereng::asset::AssetError::ImageDecodingFailed)));
}
