use rustle::json::{decode_listing, decode_subscriptions};
use rustle::post::{display_image_url, starts_with_http, unescape_amp, unescape_amp_str, Image, ImageSource, Post, Preview};
use rustle::settings::{settings_from_fields, settings_from_stored, Settings};
use rustle::api::FetchError;

#[test]
fn decode_listing_reads_posts_and_cursor() {
    let body = "{\"data\": {\"children\": [\
        {\"data\": {\"title\": \"First\", \"author\": \"alice\", \"subreddit\": \"rust\",\
          \"score\": 42, \"url\": \"https://example.com/1\",\
          \"thumbnail\": \"https://example.com/t1.jpg\"}},\
        {\"data\": {\"title\": \"Second\", \"author\": \"bob\", \"subreddit\": \"rust\",\
          \"score\": -3, \"url\": \"https://example.com/2\",\
          \"thumbnail\": \"self\",\
          \"preview\": {\"images\": [{\
              \"source\": {\"url\": \"https://img/full\", \"height\": 1080},\
              \"resolutions\": [\
                  {\"url\": \"https://img/a\", \"height\": 60},\
                  {\"url\": \"https://img/b\", \"height\": 108},\
                  {\"url\": \"https://img/c\", \"height\": 216}]}]}}}],\
        \"after\": \"t3_next\"}}";
    let (posts, after) = decode_listing(body).unwrap();
    assert_eq!(after.as_deref(), Some("t3_next"));
    assert_eq!(posts.len(), 2);
    assert_eq!(posts[0].title, "First");
    assert_eq!(posts[0].author, "alice");
    assert_eq!(posts[0].score, 42);
    assert!(posts[0].preview.is_none());
    assert_eq!(posts[1].score, -3);
    let preview = posts[1].preview.as_ref().unwrap();
    assert_eq!(preview.images.len(), 1);
    assert_eq!(preview.images[0].source.height, 1080);
    assert_eq!(preview.images[0].resolutions.len(), 3);
    assert_eq!(preview.images[0].resolutions[1].url, "https://img/b");
}

#[test]
fn decode_listing_treats_null_after_as_absent() {
    let body = "{\"data\": {\"children\": [], \"after\": null}}";
    let (posts, after) = decode_listing(body).unwrap();
    assert!(posts.is_empty());
    assert!(after.is_none());

    let body = "{\"data\": {\"children\": []}}";
    let (_, after) = decode_listing(body).unwrap();
    assert!(after.is_none());
}

#[test]
fn decode_listing_treats_null_preview_as_absent() {
    let body = "{\"data\": {\"children\": [\
        {\"data\": {\"title\": \"x\", \"author\": \"a\", \"subreddit\": \"s\",\
          \"score\": 1, \"url\": \"u\", \"thumbnail\": \"t\",\
          \"preview\": null}}], \"after\": null}}";
    let (posts, _) = decode_listing(body).unwrap();
    assert!(posts[0].preview.is_none());
}

#[test]
fn decode_listing_rejects_malformed_bodies() {
    assert!(matches!(decode_listing("not json"), Err(FetchError::Decode)));
    assert!(matches!(decode_listing("{}"), Err(FetchError::Decode)));
    assert!(matches!(
        decode_listing("{\"data\": {\"children\": 7}}"),
        Err(FetchError::Decode)
    ));
    // A missing required field is a malformed record.
    let body = "{\"data\": {\"children\": [\
        {\"data\": {\"author\": \"alice\", \"subreddit\": \"rust\", \"score\": 1,\
          \"url\": \"u\", \"thumbnail\": \"t\"}}], \"after\": null}}";
    assert!(matches!(decode_listing(body), Err(FetchError::Decode)));
    // A score outside the post's integer range is a malformed record.
    let body = "{\"data\": {\"children\": [\
        {\"data\": {\"title\": \"x\", \"author\": \"alice\", \"subreddit\": \"rust\",\
          \"score\": 3000000000, \"url\": \"u\", \"thumbnail\": \"t\"}}], \"after\": null}}";
    assert!(matches!(decode_listing(body), Err(FetchError::Decode)));
    // A fractional score is a malformed record.
    let body = "{\"data\": {\"children\": [\
        {\"data\": {\"title\": \"x\", \"author\": \"alice\", \"subreddit\": \"rust\",\
          \"score\": 1.5, \"url\": \"u\", \"thumbnail\": \"t\"}}], \"after\": null}}";
    assert!(matches!(decode_listing(body), Err(FetchError::Decode)));
}

#[test]
fn decode_subscriptions_reads_names_in_order() {
    let body = "{\"data\": {\"children\": [\
        {\"data\": {\"display_name\": \"aww\"}},\
        {\"data\": {\"display_name\": \"pics\"}}]}}";
    assert_eq!(decode_subscriptions(body).unwrap(), vec!["aww", "pics"]);
    assert!(matches!(decode_subscriptions("[]"), Err(FetchError::Decode)));
}

fn post_with_preview(resolution_heights: &[u32]) -> Post {
    Post {
        title: "t".to_string(),
        author: "a".to_string(),
        subreddit: "s".to_string(),
        score: 0,
        url: "https://example.com".to_string(),
        thumbnail: "https://example.com/thumb.jpg".to_string(),
        preview: Some(Preview {
            images: vec![Image {
                source: ImageSource { url: "source-url".to_string(), height: 1080 },
                resolutions: resolution_heights
                    .iter()
                    .map(|h| ImageSource { url: format!("res-{}", h), height: *h })
                    .collect(),
            }],
        }),
    }
}

#[test]
fn display_image_url_picks_the_nearest_rendition() {
    // Distances from 100: 50, 10, 20 -- the 90-pixel rendition wins.
    let p = post_with_preview(&[50, 90, 120]);
    assert_eq!(display_image_url(&p, 100), "res-90");
    // On a tie the first rendition wins, as the renderer always did.
    let p = post_with_preview(&[90, 110]);
    assert_eq!(display_image_url(&p, 100), "res-90");
}

#[test]
fn display_image_url_falls_back() {
    // No renditions: the full-size source.
    let p = post_with_preview(&[]);
    assert_eq!(display_image_url(&p, 100), "source-url");
    // No preview at all: the thumbnail.
    let p = Post { preview: None, ..post_with_preview(&[50]) };
    assert_eq!(display_image_url(&p, 100), "https://example.com/thumb.jpg");
}

#[test]
fn http_scheme_detection() {
    assert!(starts_with_http("https://example.com"));
    assert!(starts_with_http("http://example.com"));
    assert!(!starts_with_http("self"));
    assert!(!starts_with_http(""));
}

#[test]
fn unescaping_replaces_each_entity_once() {
    assert_eq!(unescape_amp_str("a&amp;b").as_deref(), Some("a&b"));
    assert_eq!(unescape_amp_str("x?a=1&amp;b=2&amp;c=3").as_deref(), Some("x?a=1&b=2&c=3"));
    // Leftmost-first, no rescan of what a replacement produced.
    assert_eq!(unescape_amp_str("a&amp;amp;b").as_deref(), Some("a&amp;b"));
    assert_eq!(unescape_amp_str("").as_deref(), Some(""));
    assert_eq!(unescape_amp_str("&amp").as_deref(), Some("&amp"));
    let bytes = unescape_amp(&b"p&amp;q".to_vec());
    assert_eq!(bytes, b"p&q".to_vec());
}

#[test]
fn settings_default_when_store_is_empty_or_corrupt() {
    let s = settings_from_stored("");
    assert!(s.client_id.is_empty() && s.client_secret.is_empty());
    assert!(s.username.is_empty() && s.password.is_empty());
    assert!(s.dark_mode);

    let s = settings_from_stored("corrupt {{{");
    assert!(s.dark_mode && s.client_id.is_empty());

    // A record missing a field is treated as unreadable.
    let s = settings_from_stored("{\"client_id\": \"id\"}");
    assert!(s.dark_mode && s.client_id.is_empty());
}

#[test]
fn settings_roundtrip_from_stored_record() {
    let blob = "{\"client_id\": \"id\", \"client_secret\": \"sec\",\
        \"username\": \"alice\", \"password\": \"pw\", \"dark_mode\": false}";
    let s = settings_from_stored(blob);
    assert_eq!(s.client_id, "id");
    assert_eq!(s.client_secret, "sec");
    assert_eq!(s.username, "alice");
    assert_eq!(s.password, "pw");
    assert!(!s.dark_mode);
    assert!(s.has_credentials());
}

#[test]
fn settings_credentials_need_all_four_fields() {
    let full = settings_from_fields(
        Some("id".to_string()),
        Some("sec".to_string()),
        Some("alice".to_string()),
        Some("pw".to_string()),
        Some(true),
    );
    assert!(full.has_credentials());

    let missing = Settings { password: String::new(), ..full.clone() };
    assert!(!missing.has_credentials());

    let defaulted = settings_from_fields(None, None, None, None, None);
    assert!(!defaulted.has_credentials());
    assert!(defaulted.dark_mode);
}
