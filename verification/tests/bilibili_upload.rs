use recorder::errors::RecorderError;
use recorder::platforms::bilibili::upload::{
    after_chunk_attempt, chunk_url, end_upload_url, preupload_url, read_step, total_chunks,
    upload_parts_body, video_meta_url, ChunkAttempt, ReadStep,
};

const ENDPOINT: &str = "//upos-sz-upcdnbda2.bilivideo.com";
const UPOS: &str = "upos://ugcfx2lf/n240101abc.mp4";

#[test]
fn upload_urls_name_the_target_and_the_part() {
    assert_eq!(
        preupload_url("a.mp4"),
        "https://member.bilibili.com/preupload?name=a.mp4&r=upos&profile=ugcfx/bup"
    );
    assert_eq!(
        video_meta_url(ENDPOINT, UPOS, 100, 10, 7),
        "https://upos-sz-upcdnbda2.bilivideo.com/ugcfx2lf/n240101abc.mp4?uploads=&output=json&profile=ugcfx/bup&filesize=100&partsize=10&biz_id=7"
    );
    assert_eq!(
        chunk_url(ENDPOINT, UPOS, "UP1", 2, 5, 3, 10, 43),
        "https://upos-sz-upcdnbda2.bilivideo.com/ugcfx2lf/n240101abc.mp4?partNumber=3&uploadId=UP1&chunk=2&chunks=5&size=3&start=20&end=23&total=43"
    );
    assert_eq!(
        end_upload_url(ENDPOINT, UPOS, "UP1", 7),
        "https://upos-sz-upcdnbda2.bilivideo.com/ugcfx2lf/n240101abc.mp4?output=json&name=upos://ugcfx2lf/n240101abc.mp4&profile=ugcfx/bup&uploadId=UP1&biz_id=7"
    );
}

#[test]
fn completion_body_lists_every_part() {
    assert_eq!(upload_parts_body(0), r#"{"parts":[]}"#);
    assert_eq!(
        upload_parts_body(2),
        r#"{"parts":[{"eTag":"etag","partNumber":1},{"eTag":"etag","partNumber":2}]}"#
    );
    // The same text as the JSON library writes for the part list.
    let parts: Vec<serde_json::Value> = (1..=3u64)
        .map(|i| {
            let mut m = serde_json::Map::new();
            m.insert("partNumber".to_string(), serde_json::Value::from(i));
            m.insert("eTag".to_string(), serde_json::Value::from("etag"));
            serde_json::Value::Object(m)
        })
        .collect();
    let mut body = serde_json::Map::new();
    body.insert("parts".to_string(), serde_json::Value::Array(parts));
    assert_eq!(upload_parts_body(3), serde_json::Value::Object(body).to_string());
}

#[test]
fn files_are_cut_in_rounded_up_chunks() {
    assert_eq!(total_chunks(0, 10), 0);
    assert_eq!(total_chunks(10, 10), 1);
    assert_eq!(total_chunks(11, 10), 2);
    assert_eq!(total_chunks(u64::MAX, 1), u64::MAX);
    assert_eq!(total_chunks(u64::MAX, 2), 1u64 << 63);
}

#[test]
fn reads_fill_a_chunk_before_it_is_sent() {
    assert_eq!(read_step(4, 4, 10), ReadStep::ReadMore);
    assert_eq!(read_step(6, 10, 10), ReadStep::Upload);
    assert_eq!(read_step(0, 4, 10), ReadStep::Upload);
    assert_eq!(read_step(0, 0, 10), ReadStep::Finished);
}

#[test]
fn failed_chunks_back_off_then_give_up() {
    assert!(matches!(after_chunk_attempt(4, 0, true), ChunkAttempt::Uploaded));
    assert!(matches!(after_chunk_attempt(4, 0, false), ChunkAttempt::RetryAfter(2)));
    assert!(matches!(after_chunk_attempt(4, 1, false), ChunkAttempt::RetryAfter(4)));
    match after_chunk_attempt(4, 2, false) {
        ChunkAttempt::GiveUp(RecorderError::UploadError { err }) => {
            assert_eq!(err, "Failed to upload chunk 4 after 3 retries")
        }
        _ => panic!("expected to give up"),
    }
}
