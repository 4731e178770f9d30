use stracciatella_toolset::error::ErrorKind;
use stracciatella_toolset::images::{
    png_uri_from_bytes, Base64Image, ReadImageMetadata, RenderImageFile, RgbaImage, Stci, StciSubImage,
    SubImageMetadata,
};
use stracciatella_toolset::json::{FileAction, Filename, OpenJsonWithSchema, PersistJson, Persisted};
use stracciatella_toolset::sounds::{sound_kind_of, sound_kind_of_lowercase, Base64Sound, Read, SoundKind};

fn palette() -> Vec<(u8, u8, u8)> {
    let mut p = vec![(0u8, 0u8, 0u8); 256];
    p[1] = (10, 20, 30);
    p[2] = (200, 100, 50);
    p
}

fn indexed() -> Stci {
    Stci::Indexed {
        sub_images: vec![
            StciSubImage { width: 2, height: 1, offset_x: -3, offset_y: 4, data: vec![0, 1] },
            StciSubImage { width: 1, height: 2, offset_x: 0, offset_y: 0, data: vec![2, 2] },
        ],
        palette: palette(),
    }
}

#[test]
fn render_indexed_first_subimage_by_default() {
    let img = RenderImageFile { file: "interface/x.sti".to_string(), subimage: None }.render(&indexed()).unwrap();
    assert_eq!((img.width, img.height), (2, 1));
    assert_eq!(img.pixels, vec![0, 0, 0, 0, 10, 20, 30, 255]);
}

#[test]
fn render_indexed_named_subimage() {
    let img = RenderImageFile { file: "x.sti".to_string(), subimage: Some(1) }.render(&indexed()).unwrap();
    assert_eq!((img.width, img.height), (1, 2));
    assert_eq!(img.pixels, vec![200, 100, 50, 255, 200, 100, 50, 255]);
}

#[test]
fn render_missing_subimage_is_parameter_error() {
    let e = RenderImageFile { file: "x.sti".to_string(), subimage: Some(2) }.render(&indexed()).unwrap_err();
    assert_eq!(e.kind, ErrorKind::Parameter);
    let rgb = Stci::Rgb { width: 1, height: 1, data: vec![(1, 2, 3)] };
    let e = RenderImageFile { file: "x.sti".to_string(), subimage: Some(1) }.render(&rgb).unwrap_err();
    assert_eq!(e.kind, ErrorKind::Parameter);
}

#[test]
fn render_rgb_is_opaque() {
    let rgb = Stci::Rgb { width: 2, height: 1, data: vec![(1, 2, 3), (4, 5, 6)] };
    let img = RenderImageFile { file: "x.sti".to_string(), subimage: Some(0) }.render(&rgb).unwrap();
    assert_eq!(img.pixels, vec![1, 2, 3, 255, 4, 5, 6, 255]);
}

#[test]
fn stci_well_formedness() {
    assert!(indexed().is_well_formed());
    let short = Stci::Rgb { width: 2, height: 2, data: vec![(0, 0, 0)] };
    assert!(!short.is_well_formed());
    let small_palette = Stci::Indexed { sub_images: vec![], palette: vec![(0, 0, 0); 3] };
    assert!(!small_palette.is_well_formed());
    let bad_sub = Stci::Indexed {
        sub_images: vec![StciSubImage { width: 3, height: 3, offset_x: 0, offset_y: 0, data: vec![0; 8] }],
        palette: palette(),
    };
    assert!(!bad_sub.is_well_formed());
}

#[test]
fn image_metadata_lists_subimages() {
    let meta = ReadImageMetadata::metadata(&indexed());
    assert_eq!(
        meta.images,
        vec![
            SubImageMetadata { width: 2, height: 1, offset_x: -3, offset_y: 4 },
            SubImageMetadata { width: 1, height: 2, offset_x: 0, offset_y: 0 },
        ]
    );
    let rgb = Stci::Rgb { width: 640, height: 480, data: vec![] };
    let meta = ReadImageMetadata::metadata(&rgb);
    assert_eq!(meta.images, vec![SubImageMetadata { width: 640, height: 480, offset_x: 0, offset_y: 0 }]);
}

#[test]
fn png_data_uri_holds_png_signature() {
    let image = RgbaImage { width: 1, height: 1, pixels: vec![255, 0, 0, 255] };
    let b = Base64Image::new(image);
    let png = b.to_png_data().unwrap();
    assert_eq!(&png[..8], &[0x89, b'P', b'N', b'G', 0x0d, 0x0a, 0x1a, 0x0a]);
    let uri = b.to_data_uri().unwrap();
    assert!(uri.starts_with("data:image/png;base64,iVBORw0KGgo"));
    assert_eq!(uri, png_uri_from_bytes(&png));
}

#[test]
fn png_uri_from_known_bytes() {
    assert_eq!(png_uri_from_bytes(&vec![1, 2, 3]), "data:image/png;base64,AQID");
    assert_eq!(png_uri_from_bytes(&vec![]), "data:image/png;base64,");
}

#[test]
fn sound_kind_ignores_case() {
    assert_eq!(sound_kind_of("Music/Intro.WAV"), Some(SoundKind::Wav));
    assert_eq!(sound_kind_of("speech/a.Ogg"), Some(SoundKind::Ogg));
    assert_eq!(sound_kind_of("sounds/a.mp3"), None);
    assert_eq!(sound_kind_of_lowercase("a.WAV"), None);
    assert_eq!(sound_kind_of_lowercase("a.wav"), Some(SoundKind::Wav));
}

#[test]
fn sound_data_uri_is_exact() {
    assert_eq!(Base64Sound::new(SoundKind::Wav, vec![1, 2, 3]).to_data_uri(), "data:audio/wav;base64,AQID");
    assert_eq!(Base64Sound::new(SoundKind::Ogg, b"hello".to_vec()).to_data_uri(), "data:audio/ogg;base64,aGVsbG8=");
    assert_eq!(Base64Sound::new(SoundKind::Ogg, vec![]).to_data_uri(), "data:audio/ogg;base64,");
}

#[test]
fn read_sound_validation() {
    assert_eq!(Read { file: "a/B.WAV".to_string() }.validate().unwrap(), SoundKind::Wav);
    let e = Read { file: "../b.wav".to_string() }.validate().unwrap_err();
    assert_eq!(e.kind, ErrorKind::Parameter);
    assert_eq!(e.message, "file path cannot contain `..`");
    let e = Read { file: "b.txt".to_string() }.validate().unwrap_err();
    assert_eq!(e.kind, ErrorKind::Parameter);
    assert_eq!(e.message, "file does not seem to be a sound file");
}

#[test]
fn filename_validation() {
    assert!(Filename("binarydata/items.json".to_string()).validate().is_ok());
    let e = Filename("../items.json".to_string()).validate().unwrap_err();
    assert_eq!(e.kind, ErrorKind::Parameter);
    assert_eq!(e.message, "must not contain `..`");
    let e = Filename("items.txt".to_string()).validate().unwrap_err();
    assert_eq!(e.message, "must end with `.json`");
    let e = OpenJsonWithSchema { filename: Filename("x.JSON".to_string()) }.validate().unwrap_err();
    assert_eq!(e.message, "failed to validate filename: must end with `.json`");
}

#[test]
fn patch_filename_replaces_suffix() {
    let f = Filename("binarydata/items.json".to_string());
    assert_eq!(f.patch_filename().as_str(), "binarydata/items.patch.json");
    assert_eq!(Filename(".json".to_string()).patch_filename().as_str(), ".patch.json");
    assert_eq!(f.as_str(), "binarydata/items.json");
}

#[test]
fn persist_plan_writes_or_deletes() {
    let f = || Filename("a.json".to_string());
    let p = PersistJson { filename: f(), values: Persisted { value: Some(serde_json::Value::Null), patch: Some(vec![serde_json::Value::Bool(true)]) } };
    assert_eq!(p.plan(), (FileAction::Write, FileAction::Write));
    let p = PersistJson { filename: f(), values: Persisted { value: None, patch: Some(vec![]) } };
    assert_eq!(p.plan(), (FileAction::Delete, FileAction::Delete));
    let p = PersistJson { filename: f(), values: Persisted { value: Some(serde_json::Value::Null), patch: None } };
    assert_eq!(p.plan(), (FileAction::Write, FileAction::Delete));
    assert!(p.validate().is_ok());
}

#[test]
fn png_needs_a_column() {
    let b = Base64Image::new(RgbaImage { width: 0, height: 3, pixels: vec![] });
    assert_eq!(b.to_png_data().unwrap_err().kind, ErrorKind::Io);
    assert!(b.to_data_uri().is_err());
    let flat = Base64Image::new(RgbaImage { width: 2, height: 0, pixels: vec![] });
    assert_eq!(flat.to_data_uri().unwrap_err().kind, ErrorKind::Io);
}
