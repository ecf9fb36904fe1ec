use recorder::errors::RecorderError;
use recorder::platforms::youtube::page::{page_documents, parse_page, player_answer_hls, player_request};
#[test]
fn extracts_page_metadata_and_hls_manifest() {
    let html = r#"
        <script>var ytInitialPlayerResponse = {
          "videoDetails": {
            "videoId": "video123456",
            "title": "Live title",
            "author": "Creator",
            "channelId": "UCcreator",
            "isLive": true,
            "thumbnail": {"thumbnails": [{"url": "https://img.test/cover.jpg"}]}
          },
          "streamingData": {"hlsManifestUrl": "https://video.test/live.m3u8"}
        };</script>
    "#;
    let page = parse_page(html, "https://www.youtube.com/watch?v=video123456").unwrap();
    assert!(page.is_live);
    assert_eq!(page.video_id, "video123456");
    assert_eq!(
        page.hls_url.as_deref(),
        Some("https://video.test/live.m3u8")
    );
    assert_eq!(page.channel_id, "UCcreator");
}

#[test]
fn parses_only_live_video_owned_by_the_selected_channel() {
    let html = r#"
        <script>var ytInitialData = {
          "metadata": {"channelMetadataRenderer": {"externalId": "UCcreator", "title": "Creator"}},
          "contents": {"twoColumnBrowseResultsRenderer": {"tabs": [
            {"tabRenderer": {"selected": false, "content": {"richGridRenderer": {"contents": []}}}},
            {"tabRenderer": {"selected": true, "content": {"richGridRenderer": {"contents": [
              {"richItemRenderer": {"content": {"videoRenderer": {
                "videoId": "video123456",
                "title": {"simpleText": "Live title"},
                "shortBylineText": {"runs": [{"text": "Creator", "navigationEndpoint": {"browseEndpoint": {"browseId": "UCcreator"}}}]},

                "badges": [{"metadataBadgeRenderer": {"label": {"simpleText": "LIVE NOW"}}}],
                "thumbnail": {"thumbnails": [{"url": "https://img.test/cover.jpg"}]}
              }}}}
            ]}}}}
          ]}}
        };</script>
    "#;
    let page = parse_page(html, "https://www.youtube.com/@creator/live").unwrap();
    assert!(page.is_live);
    assert_eq!(page.video_id, "video123456");
    assert_eq!(page.channel_id, "UCcreator");
    assert_eq!(page.hls_url, None);
}

#[test]
fn ignores_live_recommendations_from_other_channels() {
    let html = r#"
        <script>var ytInitialData = {
          "metadata": {"channelMetadataRenderer": {"externalId": "UCcreator", "title": "Creator"}},
          "contents": {"twoColumnBrowseResultsRenderer": {"tabs": [
            {"tabRenderer": {"selected": true, "content": {"richGridRenderer": {"contents": [
              {"richItemRenderer": {"content": {"videoRenderer": {
                "videoId": "otherLive12",
                "title": {"simpleText": "Someone else's live"},
                "ownerText": {"runs": [{"text": "Other", "navigationEndpoint": {"browseEndpoint": {"browseId": "UCother"}}}]},
                "badges": [{"metadataBadgeRenderer": {"label": {"simpleText": "LIVE NOW"}}}]
              }}}}
            ]}}}}
          ]}},
          "recommendations": {
            "videoRenderer": {
              "videoId": "recLive1234",
              "title": {"simpleText": "Recommended live"},
              "badges": [{"metadataBadgeRenderer": {"label": {"simpleText": "LIVE NOW"}}}]
            },
            "lockupViewModel": {
              "contentId": "lockLive1234",
              "contentImage": {"thumbnailViewModel": {"overlays": [{
                "thumbnailBottomOverlayViewModel": {"badges": [{"thumbnailBadgeViewModel": {"text": "LIVE"}}]}
              }]}}
            }
          }
        };</script>
    "#;
    let page = parse_page(html, "https://www.youtube.com/@creator/live").unwrap();
    assert!(!page.is_live);
    assert!(page.video_id.is_empty());
    assert_eq!(page.channel_id, "UCcreator");
}

#[test]
fn a_page_without_data_is_an_error() {
    assert!(matches!(
        parse_page("<html></html>", "https://www.youtube.com/@creator/live"),
        Err(RecorderError::ApiError { .. })
    ));
}

#[test]
fn the_video_id_may_come_from_the_url() {
    let html = r#"ytInitialPlayerResponse = {"playabilityStatus": {"status": "OK"}};"#;
    let page = parse_page(html, "https://www.youtube.com/watch?v=abcdefghijk&t=1").unwrap();
    assert_eq!(page.video_id, "abcdefghijk");
    assert_eq!(page.title, "YouTube live");
    assert!(!page.is_live);
}

#[test]
fn page_documents_skip_texts_that_are_not_json() {
    let html = r#"<script>ytcfg.set({"INNERTUBE_API_KEY": "KEY1"}); ytcfg.set({broken}); ytcfg.set({"B": 2});</script>"#;
    let docs = page_documents(html, "ytcfg.set");
    assert_eq!(docs.len(), 2);
    let (url, _) = player_request(html, "abcdefghijk").unwrap();
    assert_eq!(url, "https://www.youtube.com/youtubei/v1/player?key=KEY1");
    match player_request("<html></html>", "abcdefghijk") {
        Err(RecorderError::ApiError { error }) => assert_eq!(error, "YouTube Innertube configuration was not found"),
        _ => panic!("expected no configuration"),
    }
}

#[test]
fn player_answers_give_their_hls_manifest() {
    assert_eq!(
        player_answer_hls(r#"{"streamingData": {"hlsManifestUrl": "https://m.test/x.m3u8"}}"#).unwrap().as_deref(),
        Some("https://m.test/x.m3u8")
    );
    assert_eq!(player_answer_hls("{}").unwrap(), None);
    match player_answer_hls("not json") {
        Err(RecorderError::ApiError { error }) => assert_eq!(error, "Invalid YouTube player response"),
        _ => panic!("expected an invalid answer"),
    }
}
