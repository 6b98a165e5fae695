use open_donate::media::{
    avatar_upload_name, default_fallback_media, get_default_medias, leaderboard_rank,
    media_option_label, presigned_url_expiry_secs, public_object_url, quoted_message,
    s3_endpoint_or_default, s3_endpoint_up,
};

#[test]
fn built_in_media() {
    assert_eq!(
        get_default_medias(),
        vec!["/default_donate.mp3".to_string(), "/audio/funny_1.mp3".to_string(), "/audio/cheer_1.mp3".to_string()]
    );
    assert_eq!(default_fallback_media(), "/default_donate.mp3");
}

#[test]
fn endpoint_probe() {
    assert!(s3_endpoint_up(Some(200)));
    assert!(s3_endpoint_up(Some(204)));
    assert!(s3_endpoint_up(Some(403)));
    assert!(s3_endpoint_up(Some(400)));
    assert!(!s3_endpoint_up(Some(500)));
    assert!(!s3_endpoint_up(Some(301)));
    assert!(!s3_endpoint_up(None));
    assert_eq!(s3_endpoint_or_default(None), "https://s3.unghotui.vn");
    assert_eq!(s3_endpoint_or_default(Some("http://minio:9000".to_string())), "http://minio:9000");
    assert_eq!(presigned_url_expiry_secs(), 900);
}

#[test]
fn object_urls_and_labels() {
    assert_eq!(public_object_url("http://minio:9000", "glint", "a.mp3"), "http://minio:9000/glint/a.mp3");
    assert_eq!(media_option_label("a.mp3", 2048), "a.mp3 (2048 bytes)");
    assert_eq!(media_option_label("b", -3), "b (-3 bytes)");
    assert_eq!(avatar_upload_name(123456), "avatar_123456.jpg");
    assert_eq!(avatar_upload_name(0), "avatar_0.jpg");
}

#[test]
fn history_text() {
    assert_eq!(quoted_message(&Some("gg".to_string())), "\"gg\"");
    assert_eq!(quoted_message(&None), "");
    assert_eq!(leaderboard_rank(0), "1");
    assert_eq!(leaderboard_rank(49), "50");
}
