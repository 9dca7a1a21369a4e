use vaexcore_studio::compositor::{
    build_compositor_graph, group_depth, group_parent_map, validate_compositor_graph, CompositorGeometryChecks,
    CompositorNodeRole, CompositorNodeStatus, ParentLink,
};
use vaexcore_studio::compositor::CompositorRenderTargetKind;
use vaexcore_studio::image_cache::{ImageAssetCache, IMAGE_ASSET_CACHE_LIMIT};
use vaexcore_studio::raster::{
    alpha_bounds, asset_metadata, asset_uri_path, background_frame, blend_channel, blend_pixel, checksum_pixels,
    fill_background, finish_software_frame, node_accent_color, node_base_color, normalized_hex_color,
    parse_background_color, parse_text_color, decode_image_asset, image_asset_from_probe, CachedDecodedImage,
    ImageAssetFile, ImageAssetProbe,
    stable_source_tint, supported_image_extension, PixelBounds, SoftwareCompositorAssetStatus,
};
use vaexcore_studio::scene::{
    ConfigEntry, ConfigScalar, ConfigValue, Scene, SceneCanvas, SceneSource, SceneSourceBoundsMode, SceneSourceKind,
};

fn geometry_ok() -> CompositorGeometryChecks {
    CompositorGeometryChecks {
        position_x_finite: true,
        position_y_finite: true,
        width_positive: true,
        height_positive: true,
        crop_top_non_negative: true,
        crop_right_non_negative: true,
        crop_bottom_non_negative: true,
        crop_left_non_negative: true,
        rotation_finite: true,
        opacity_in_range: true,
    }
}

fn group(id: &str, children: &[&str], z_index: i32) -> SceneSource {
    SceneSource {
        id: id.to_string(),
        name: id.to_string(),
        kind: SceneSourceKind::Group,
        visible: true,
        locked: false,
        z_index,
        bounds_mode: SceneSourceBoundsMode::Stretch,
        rounded_width: 100,
        rounded_height: 100,
        capture_source_id: None,
        geometry: geometry_ok(),
        audio_gain_in_range: true,
        audio_sync_offset_ms: 0,
        config: vec![ConfigEntry {
            key: "child_source_ids".to_string(),
            value: ConfigValue::Array(children.iter().map(|c| ConfigScalar::Str(c.to_string())).collect()),
        }],
    }
}

fn text_source(id: &str, z_index: i32) -> SceneSource {
    let mut s = group(id, &[], z_index);
    s.kind = SceneSourceKind::Text;
    s.config = vec![ConfigEntry {
        key: "text".to_string(),
        value: ConfigValue::Scalar(ConfigScalar::Str("Hello".to_string())),
    }];
    s
}

fn grouped_scene() -> Scene {
    Scene {
        id: "scene-groups".to_string(),
        name: "Groups".to_string(),
        canvas: SceneCanvas { width: 1280, height: 720, background_color: "#000000".to_string() },
        sources: vec![
            group("group-a", &["group-b", " text-c ", ""], 1),
            group("group-b", &["group-a", "text-c"], 2),
            text_source("text-c", 0),
        ],
    }
}

#[test]
fn group_parents_follow_first_claim_and_depth_stops_at_cycles() {
    let scene = grouped_scene();
    let links = group_parent_map(&scene.sources);
    let pairs: Vec<(&str, &str)> = links.iter().map(|l| (l.child.as_str(), l.parent.as_str())).collect();
    assert_eq!(pairs, vec![("group-b", "group-a"), ("text-c", "group-a"), ("group-a", "group-b")]);
    assert_eq!(group_depth(&"text-c".to_string(), &links), 2);
    assert_eq!(group_depth(&"group-a".to_string(), &links), 2);
    assert_eq!(group_depth(&"unknown".to_string(), &links), 0);

    let graph = build_compositor_graph(&scene);
    let ids: Vec<&str> = graph.nodes.iter().map(|n| n.source_id.as_str()).collect();
    assert_eq!(ids, vec!["text-c", "group-a", "group-b"]);
    assert_eq!(graph.nodes[0].parent_source_id.as_deref(), Some("group-a"));
    assert_eq!(graph.nodes[0].group_depth, 2);
    assert_eq!(graph.nodes[1].role, CompositorNodeRole::Group);
    assert_eq!(graph.nodes[1].status, CompositorNodeStatus::Ready);
    assert_eq!(graph.nodes[1].status_detail, "3 child source(s) grouped.");
    assert!(validate_compositor_graph(&graph).ready);
}

#[test]
fn group_depth_counts_a_simple_chain() {
    let links = vec![
        ParentLink { child: "leaf".to_string(), parent: "inner".to_string() },
        ParentLink { child: "inner".to_string(), parent: "outer".to_string() },
    ];
    assert_eq!(group_depth(&"leaf".to_string(), &links), 2);
    assert_eq!(group_depth(&"inner".to_string(), &links), 1);
    assert_eq!(group_depth(&"outer".to_string(), &links), 0);
}

#[test]
fn graph_validation_reports_missing_parent_and_duplicates() {
    let scene = grouped_scene();
    let mut graph = build_compositor_graph(&scene);
    graph.nodes[0].parent_source_id = Some("missing".to_string());
    graph.nodes[2].id = graph.nodes[1].id.clone();
    let validation = validate_compositor_graph(&graph);
    assert!(!validation.ready);
    assert!(validation
        .errors
        .contains(&"compositor node \"node-text-c\" references missing parent source \"missing\"".to_string()));
    assert!(validation.errors.contains(&"duplicate compositor node id \"node-group-a\"".to_string()));
}

#[test]
fn blending_rounds_to_the_nearest_value() {
    assert_eq!(blend_channel(255, 0, 128, 127), 128);
    assert_eq!(blend_channel(10, 200, 255, 0), 10);
    assert_eq!(blend_channel(10, 200, 0, 255), 200);
    let mut pixels = vec![0u8, 0, 0, 0, 9, 9, 9, 9];
    blend_pixel(&mut pixels, 4, [255, 0, 0, 255]);
    assert_eq!(pixels, vec![0, 0, 0, 0, 255, 0, 0, 255]);
    let mut half = vec![0u8, 0, 0, 255];
    blend_pixel(&mut half, 0, [255, 255, 255, 128]);
    assert_eq!(half, vec![128, 128, 128, 255]);
}

#[test]
fn background_fills_whole_pixels() {
    let mut pixels = vec![1u8; 10];
    fill_background(&mut pixels, [5, 7, 17, 255]);
    assert_eq!(pixels, vec![5, 7, 17, 255, 5, 7, 17, 255, 1, 1]);
}

#[test]
fn checksum_is_fnv1a() {
    assert_eq!(checksum_pixels(&[]), 0xcbf2_9ce4_8422_2325);
    assert_eq!(checksum_pixels(b"a"), 0xaf63_dc4c_8601_ec8c);
    assert_ne!(checksum_pixels(&[1, 2]), checksum_pixels(&[2, 1]));
}

#[test]
fn tints_and_colors() {
    let tint = stable_source_tint(b"source-main-display");
    assert!(tint < 48);
    let expected = b"source-main-display".iter().fold(0u8, |h, b| h.wrapping_mul(31).wrapping_add(*b)) % 48;
    assert_eq!(tint, expected);
    assert_eq!(normalized_hex_color([255, 0, 16, 255]), "#ff0010");

    let scene = grouped_scene();
    let graph = build_compositor_graph(&scene);
    assert_eq!(node_base_color(&graph.nodes[1]), [123, 139, 163, 255]);
    assert_eq!(node_accent_color(&graph.nodes[0]), [196, 114, 230, 255]);
}

#[test]
fn alpha_bounds_cover_visible_pixels() {
    let width = 4u32;
    let height = 3u32;
    let mut pixels = vec![0u8; (width * height * 4) as usize];
    assert_eq!(alpha_bounds(&pixels, width, height), None);
    pixels[(1 * 4 + 1) * 4 + 3] = 255;
    pixels[(2 * 4 + 3) * 4 + 3] = 10;
    assert_eq!(alpha_bounds(&pixels, width, height), Some(PixelBounds { x: 1, y: 1, width: 3, height: 2 }));
}

#[test]
fn asset_paths_and_extensions() {
    assert_eq!(asset_uri_path("  file:///tmp/a.png "), Some("/tmp/a.png".to_string()));
    assert_eq!(asset_uri_path("/tmp/b.jpg"), Some("/tmp/b.jpg".to_string()));
    assert_eq!(asset_uri_path("   "), None);
    assert_eq!(supported_image_extension("PNG"), Some("png".to_string()));
    assert_eq!(supported_image_extension("jpeg"), Some("jpeg".to_string()));
    assert_eq!(supported_image_extension("bmp"), None);
}

#[test]
fn software_frames_carry_their_checksum() {
    let pixels = background_frame(0, 2, [5, 7, 17, 255]);
    assert_eq!(pixels, vec![5, 7, 17, 255, 5, 7, 17, 255]);
    let frame = finish_software_frame("target-program".to_string(), CompositorRenderTargetKind::Program, 0, 2,
        pixels.clone());
    assert_eq!(frame.width, 1);
    assert_eq!(frame.height, 2);
    assert_eq!(frame.bytes_per_row, 4);
    assert_eq!(frame.checksum, checksum_pixels(&pixels));
    let meta = asset_metadata("file:///a.png".to_string(), SoftwareCompositorAssetStatus::MissingFile,
        "missing".to_string(), Some("png".to_string()));
    assert!(!meta.cache_hit);
    assert_eq!(meta.width, None);
}

#[test]
fn hex_colors_parse_or_fall_back() {
    assert_eq!(parse_background_color("#FFaa00"), [255, 170, 0, 255]);
    assert_eq!(parse_background_color("  #0a0B0c \n"), [10, 11, 12, 255]);
    assert_eq!(parse_background_color("#+f+f+f"), [15, 15, 15, 255]);
    assert_eq!(parse_background_color("#12345"), [5, 7, 17, 255]);
    assert_eq!(parse_background_color("red"), [5, 7, 17, 255]);
    assert_eq!(parse_background_color("#gg0000"), [5, 7, 17, 255]);
    assert_eq!(parse_background_color("#\u{e9}\u{e9}\u{e9}"), [5, 7, 17, 255]);
    assert_eq!(parse_text_color("#102030"), Some([16, 32, 48, 255]));
    assert_eq!(parse_text_color("#-10203"), None);
    assert_eq!(parse_text_color(""), None);
    assert_eq!(normalized_hex_color(parse_background_color("#ABCDEF")), "#abcdef");
    assert_eq!(parse_text_color(&normalized_hex_color([1, 171, 255, 9])), Some([1, 171, 255, 255]));
}

fn png_bytes(width: u32, height: u32, pixels: Vec<u8>) -> Vec<u8> {
    let image = image::RgbaImage::from_raw(width, height, pixels).unwrap();
    let mut out = std::io::Cursor::new(Vec::new());
    image.write_to(&mut out, image::ImageFormat::Png).unwrap();
    out.into_inner()
}

#[test]
fn image_asset_decisions_follow_each_probe() {
    let none = image_asset_from_probe("  ", Some("png".to_string()), "", ImageAssetProbe::Missing).unwrap_err();
    assert_eq!(none.status, SoftwareCompositorAssetStatus::NoAsset);
    assert_eq!(none.status_detail, "No local image asset has been selected.");
    assert_eq!(none.uri, "  ");
    let bmp = image_asset_from_probe("/a.bmp", Some("bmp".to_string()), "/a.bmp", ImageAssetProbe::Missing).unwrap_err();
    assert_eq!(bmp.status, SoftwareCompositorAssetStatus::UnsupportedExtension);
    assert_eq!(bmp.format, None);
    let no_ext = image_asset_from_probe("/a", None, "/a", ImageAssetProbe::NotAFile).unwrap_err();
    assert_eq!(no_ext.status, SoftwareCompositorAssetStatus::UnsupportedExtension);
    let missing = image_asset_from_probe("file:///a.PNG", Some("PNG".to_string()), "/a.PNG", ImageAssetProbe::Missing)
        .unwrap_err();
    assert_eq!(missing.status, SoftwareCompositorAssetStatus::MissingFile);
    assert_eq!(missing.status_detail, "Image asset file does not exist: /a.PNG");
    assert_eq!(missing.format, Some("png".to_string()));
    let dir = image_asset_from_probe("/d.gif", Some("gif".to_string()), "/d.gif", ImageAssetProbe::NotAFile).unwrap_err();
    assert_eq!(dir.status_detail, "Image asset path is not a file: /d.gif");
    let failed = image_asset_from_probe("/b.jpg", Some("jpg".to_string()), "/b.jpg",
        ImageAssetProbe::DecodeFailed("bad".to_string())).unwrap_err();
    assert_eq!(failed.status, SoftwareCompositorAssetStatus::DecodeFailed);
    assert_eq!(failed.status_detail, "Image asset could not be decoded: bad");
    let cached = CachedDecodedImage { width: 1, height: 1, format: "png".to_string(), checksum: 7, pixels: vec![1, 2, 3, 4] };
    let hit = image_asset_from_probe("/c.png", Some("png".to_string()), "/c.png",
        ImageAssetProbe::Cached { modified_unix_ms: 9, image: cached }).unwrap();
    assert!(hit.cache_hit);
    assert_eq!(hit.modified_unix_ms, 9);
    assert_eq!(hit.image.checksum, 7);
    let fresh = image_asset_from_probe("/c.webp", Some("webp".to_string()), "/c.webp",
        ImageAssetProbe::Decoded { modified_unix_ms: 3, width: 1, height: 1, pixels: vec![1, 2, 3, 4] }).unwrap();
    assert!(!fresh.cache_hit);
    assert_eq!(fresh.image.format, "webp");
    assert_eq!(fresh.image.checksum, checksum_pixels(&[1, 2, 3, 4]));
}

#[test]
fn image_asset_bytes_are_decoded_to_rgba() {
    let pixels = vec![255, 0, 0, 255, 0, 255, 0, 128];
    let bytes = png_bytes(2, 1, pixels.clone());
    let decoded = decode_image_asset("file:///tmp/logo.png", Some("png".to_string()), "/tmp/logo.png",
        ImageAssetFile::Read { modified_unix_ms: 42, bytes }).unwrap();
    assert_eq!(decoded.image.width, 2);
    assert_eq!(decoded.image.height, 1);
    assert_eq!(decoded.image.pixels, pixels);
    assert_eq!(decoded.image.checksum, checksum_pixels(&pixels));
    assert_eq!(decoded.image.format, "png");
    assert_eq!(decoded.modified_unix_ms, 42);
    assert!(!decoded.cache_hit);

    let garbage = decode_image_asset("/tmp/logo.png", Some("png".to_string()), "/tmp/logo.png",
        ImageAssetFile::Read { modified_unix_ms: 1, bytes: b"not an image".to_vec() }).unwrap_err();
    assert_eq!(garbage.status, SoftwareCompositorAssetStatus::DecodeFailed);
    assert!(garbage.status_detail.starts_with("Image asset could not be decoded: "));
    assert_eq!(garbage.format, Some("png".to_string()));

    let unreadable = decode_image_asset("/tmp/x.gif", Some("gif".to_string()), "/tmp/x.gif",
        ImageAssetFile::ReadFailed("denied".to_string())).unwrap_err();
    assert_eq!(unreadable.status_detail, "Image asset could not be decoded: denied");
}

fn tiny_image(tag: u8) -> CachedDecodedImage {
    CachedDecodedImage { width: 1, height: 1, format: "png".to_string(), checksum: tag as u64, pixels: vec![tag, tag, tag, 255] }
}

#[test]
fn image_cache_keeps_one_version_per_path_and_a_bounded_count() {
    let mut cache = ImageAssetCache::new();
    assert!(cache.get("/a.png", 1).is_none());
    cache.store("/a.png".to_string(), 1, tiny_image(1));
    assert_eq!(cache.get("/a.png", 1).unwrap().checksum, 1);
    cache.store("/a.png".to_string(), 2, tiny_image(2));
    assert!(cache.get("/a.png", 1).is_none());
    assert_eq!(cache.get("/a.png", 2).unwrap().pixels, vec![2, 2, 2, 255]);

    for k in 0..IMAGE_ASSET_CACHE_LIMIT {
        cache.store(format!("/img{k}.png"), 5, tiny_image(k as u8));
    }
    assert!(cache.get("/a.png", 2).is_none());
    assert_eq!(cache.get("/img0.png", 5).unwrap().checksum, 0);
    cache.store("/last.png".to_string(), 9, tiny_image(200));
    assert!(cache.get("/img0.png", 5).is_none());
    assert_eq!(cache.get("/img1.png", 5).unwrap().checksum, 1);
    assert_eq!(cache.get("/last.png", 9).unwrap().checksum, 200);
}

#[test]
fn image_assets_of_each_supported_format_decode() {
    for (extension, format) in [
        ("png", image::ImageFormat::Png),
        ("jpg", image::ImageFormat::Jpeg),
        ("webp", image::ImageFormat::WebP),
        ("gif", image::ImageFormat::Gif),
    ] {
        let picture = image::DynamicImage::ImageRgb8(image::RgbImage::from_pixel(4, 4, image::Rgb([220, 20, 40])));
        let mut out = std::io::Cursor::new(Vec::new());
        picture.write_to(&mut out, format).unwrap();
        let uri = format!("/tmp/asset.{extension}");
        let decoded = decode_image_asset(&uri, Some(extension.to_string()), &uri,
            ImageAssetFile::Read { modified_unix_ms: 1, bytes: out.into_inner() }).unwrap();
        assert_eq!(decoded.image.width, 4);
        assert_eq!(decoded.image.height, 4);
        assert_eq!(decoded.image.format, extension);
        assert_eq!(decoded.image.pixels.len(), 4 * 4 * 4);
        assert!(decoded.image.checksum > 0);
        assert_eq!(decoded.image.checksum, checksum_pixels(&decoded.image.pixels));
    }
}
