use escrow::content::{Content, ContentShape, ContentType, MediaType};

const TABLE: [(ContentType, &str, Option<MediaType>); 6] = [
    (ContentType::YoutubeShorts, "youtube_shorts", Some(MediaType::YoutubeShorts)),
    (ContentType::YoutubeVideo, "youtube_video", Some(MediaType::YoutubeVideo)),
    (ContentType::YoutubeLive, "youtube_live", Some(MediaType::YoutubeLive)),
    (ContentType::XPost, "x_post", None),
    (ContentType::XSpace, "x_space", Some(MediaType::XSpace)),
    (ContentType::XBroadcast, "x_broadcast", Some(MediaType::XBroadcast)),
];

const SHAPES: [(ContentType, &str, ContentShape); 6] = [
    (ContentType::YoutubeShorts, "youtube_shorts", ContentShape::Media),
    (ContentType::YoutubeVideo, "youtube_video", ContentShape::Media),
    (ContentType::YoutubeLive, "youtube_live", ContentShape::Media),
    (ContentType::XPost, "x_post", ContentShape::Post),
    (ContentType::XSpace, "x_space", ContentShape::Media),
    (ContentType::XBroadcast, "x_broadcast", ContentShape::Media),
];

#[test]
fn matches_the_type_table() {
    assert_eq!(TABLE.len(), ContentType::every().len(), "every type is listed");

    for (content_type, value, media_type) in TABLE {
        assert_eq!(content_type.as_str(), value);
        assert_eq!(content_type.media_type(), media_type);
        assert_eq!(value.parse::<ContentType>().unwrap(), content_type);
    }
}

#[test]
fn content_matches_the_type_table() {
    assert_eq!(SHAPES.len(), ContentType::every().len(), "every type is listed");

    for (content_type, value, shape) in SHAPES {
        assert_eq!(content_type.as_str(), value);
        assert_eq!(content_type.shape(), shape);
        assert_eq!(value.parse::<ContentType>().unwrap(), content_type);
    }
}

#[test]
fn rejects_values_it_does_not_know() {
    assert!("youtube_livestream".parse::<ContentType>().is_err());
    assert!("".parse::<ContentType>().is_err());
}

#[test]
fn content_rejects_values_it_does_not_know() {
    assert!(ContentType::parse("youtube_livestream").is_err());
    assert!(ContentType::parse("").is_err());
}

#[test]
fn content_carries_its_own_type() {
    for (content_type, _, media_type) in TABLE {
        let content = match media_type {
            Some(media_type) => Content::Media { media_type, title: "○○の雑談配信".to_owned() },
            None => Content::Post {
                body: "明日の配信は21時から。".to_owned(),
                in_reply_to: None,
                quoted: None,
            },
        };
        assert_eq!(content.content_type(), content_type);
    }
}

#[test]
fn headline_comes_from_whichever_field_the_shape_has() {
    let media =
        Content::Media { media_type: MediaType::YoutubeLive, title: "○○の雑談配信".to_owned() };
    let post = Content::Post {
        body: "明日の配信は21時から。".to_owned(),
        in_reply_to: None,
        quoted: None,
    };

    assert_eq!(media.headline(), "○○の雑談配信");
    assert_eq!(post.headline(), "明日の配信は21時から。");
}

#[test]
fn shape_must_agree_with_the_discriminator() {
    let media =
        Content::Media { media_type: MediaType::YoutubeLive, title: "○○の雑談配信".to_owned() };
    let post = Content::Post {
        body: "明日の配信は21時から。".to_owned(),
        in_reply_to: None,
        quoted: None,
    };

    assert!(media.matches(ContentType::YoutubeLive));
    assert!(!media.matches(ContentType::XPost));
    assert!(post.matches(ContentType::XPost));
    assert!(!post.matches(ContentType::XSpace));
}

#[test]
fn a_media_type_and_its_platform_come_from_the_value() {
    assert_eq!(MediaType::XSpace.content_type(), ContentType::XSpace);
    assert_eq!(ContentType::XBroadcast.platform(), escrow::content::Platform::X);
    assert_eq!(ContentType::YoutubeShorts.platform(), escrow::content::Platform::Youtube);
}
