use escrow::asset::{assets_named, item_dir, Asset, AssetKind};
use escrow::item::ItemId;

#[test]
fn file_names_follow_the_naming_rule() {
    let cases = [
        (AssetKind::Video, 1, "mp4", "video.1.mp4"),
        (AssetKind::Video, 3, "mp4", "video.3.mp4"),
        (AssetKind::Audio, 1, "m4a", "audio.1.m4a"),
        (AssetKind::Image, 4, "jpg", "image.4.jpg"),
        (AssetKind::Transcript, 1, "vtt", "transcript.1.vtt"),
    ];

    for (kind, n, ext, expected) in cases {
        let asset = Asset::new(kind, n, ext.to_owned());
        assert_eq!(asset.file_name(), expected);
        assert_eq!(Asset::parse_file_name(expected).as_ref(), Some(&asset));
    }
}

#[test]
fn extension_comes_from_the_file_not_the_kind() {
    let webm = Asset::parse_file_name("video.1.webm").unwrap();
    assert_eq!(webm.kind(), AssetKind::Video);
    assert_eq!(webm.extension(), "webm");
}

#[test]
fn ignores_names_that_do_not_follow_the_rule() {
    for name in [
        "",
        "video",
        "video.1",
        "video.1.",
        "video.0.mp4",
        "video.01.mp4",
        "video.-1.mp4",
        "movie.1.mp4",
        "video.1.mp4.part",
        "transcript.1.ja.vtt",
        ".hidden",
    ] {
        assert!(Asset::parse_file_name(name).is_none(), "must be refused: {name:?}");
    }
}

#[test]
fn kinds_can_be_guessed_from_an_extension() {
    for (ext, expected) in [
        ("mp4", AssetKind::Video),
        ("WEBM", AssetKind::Video),
        ("m4a", AssetKind::Audio),
        ("jpg", AssetKind::Image),
        ("vtt", AssetKind::Transcript),
    ] {
        assert_eq!(AssetKind::of_extension(ext), Some(expected), "{ext}");
    }

    assert_eq!(AssetKind::of_extension("part"), None);
    assert_eq!(AssetKind::of_extension(""), None);
}

#[test]
fn paths_are_derived_from_the_item_id() {
    let media_dir = "/Users/t/Movies/escrow";
    let asset = Asset::new(AssetKind::Video, 1, "mp4".to_owned());

    assert_eq!(item_dir(media_dir, ItemId::new(42)), "/Users/t/Movies/escrow/42");
    assert_eq!(
        asset.path(media_dir, ItemId::new(42)),
        "/Users/t/Movies/escrow/42/video.1.mp4"
    );
}

#[test]
fn a_directory_listing_is_read_in_kind_then_ordinal_order() {
    let names: Vec<String> = [
        "transcript.2.vtt",
        "video.2.mp4",
        "transcript.1.vtt",
        "video.1.mp4",
        "download.log",
        "video.3.mp4.part",
    ]
    .iter()
    .map(|s| s.to_string())
    .collect();

    let found: Vec<String> = assets_named(&names).iter().map(Asset::file_name).collect();
    assert_eq!(
        found,
        ["video.1.mp4", "video.2.mp4", "transcript.1.vtt", "transcript.2.vtt"]
    );
}

#[test]
fn an_empty_directory_holds_no_assets() {
    assert!(assets_named(&Vec::new()).is_empty());
}

#[test]
fn a_file_name_reads_back_as_its_asset() {
    let asset = Asset::new(AssetKind::Image, 12, "jpeg".to_owned());
    assert_eq!(asset.file_name(), "image.12.jpeg");
    assert_eq!(Asset::parse_file_name(&asset.file_name()), Some(asset));
}

#[test]
fn a_name_that_reads_is_the_name_it_reads_as() {
    for name in ["video.1.mp4", "audio.12.m4a", "image.4.JPG", "transcript.1.vtt"] {
        let asset = Asset::parse_file_name(name).unwrap();
        assert_eq!(asset.file_name(), name);
    }
    for name in ["video.01.mp4", "Video.1.mp4", "video.+1.mp4", "video. 1.mp4"] {
        assert!(Asset::parse_file_name(name).is_none(), "{name}");
    }
}
