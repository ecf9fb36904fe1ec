use recorder::json::Json;
use recorder::platforms::douyin::stream_info::{
    collect_available_streams, collect_available_streams_from_value, rank, AvailableStream, Data, DouyinStream, Main, Origin,
};
use recorder::platforms::douyin::{get_best_stream_url, stream_choice};

fn obj(members: Vec<(&str, Json)>) -> Json {
    Json::Object(members.into_iter().map(|(k, v)| (k.to_string(), v)).collect())
}

fn s(v: &str) -> Json {
    Json::Str(v.to_string())
}

fn stream_data() -> Json {
    obj(vec![
        ("common", obj(vec![("session_id", s("abc"))])),
        (
            "data",
            obj(vec![
                (
                    "hd",
                    obj(vec![(
                        "main",
                        obj(vec![("flv", s("http://cdn/hd.flv")), ("hls", s("http://cdn/hd.m3u8"))]),
                    )]),
                ),
                (
                    "origin",
                    obj(vec![
                        (
                            "backup",
                            obj(vec![("flv", s("")), ("hls", s("http://cdn/origin-backup.m3u8"))]),
                        ),
                        (
                            "main",
                            obj(vec![
                                ("flv", s("http://cdn/origin.flv")),
                                ("hls", s("http://cdn/origin.m3u8")),
                            ]),
                        ),
                    ]),
                ),
            ]),
        ),
    ])
}

#[test]
fn available_streams_are_listed_by_quality_line_and_format() {
    let streams = collect_available_streams_from_value(&stream_data());
    let labels: Vec<String> = streams.iter().map(AvailableStream::label).collect();
    assert_eq!(
        labels,
        vec![
            "origin/main hls",
            "origin/main flv",
            "origin/backup hls",
            "hd/main hls",
            "hd/main flv",
        ]
    );
    assert_eq!(streams[0].url, "http://cdn/origin.m3u8");
}

#[test]
fn a_document_without_data_is_read_as_the_qualities() {
    let value = obj(vec![(
        "origin",
        obj(vec![(
            "main",
            obj(vec![("flv", s("http://cdn/origin.flv")), ("hls", s("http://cdn/origin.m3u8"))]),
        )]),
    )]);
    let streams = collect_available_streams_from_value(&value);
    assert_eq!(streams.len(), 2);
    assert_eq!(streams[0].label(), "origin/main hls");
}

#[test]
fn a_document_that_is_no_object_has_no_streams() {
    assert!(collect_available_streams_from_value(&Json::Null).is_empty());
    assert!(collect_available_streams_from_value(&s("not-json")).is_empty());
}

#[test]
fn unknown_qualities_come_after_known_ones_in_name_order() {
    let value = obj(vec![
        ("zz", obj(vec![("main", obj(vec![("hls", s("z"))]))])),
        ("aa", obj(vec![("main", obj(vec![("hls", s("a"))]))])),
        ("ao", obj(vec![("main", obj(vec![("hls", s("o"))]))])),
    ]);
    let urls: Vec<String> = collect_available_streams_from_value(&value)
        .into_iter()
        .map(|x| x.url)
        .collect();
    assert_eq!(urls, vec!["o", "a", "z"]);
}

#[test]
fn rank_is_the_position_or_the_length() {
    assert_eq!(rank(&["hls", "flv"], "flv"), 1);
    assert_eq!(rank(&["hls", "flv"], "rtmp"), 2);
}

#[test]
fn the_pull_url_is_listed_and_the_selection_labelled() {
    let listed = collect_available_streams_from_value(&stream_data());
    let (all, label) = stream_choice(listed, "http://cdn/pull.m3u8", "http://cdn/hd.flv");
    assert_eq!(all.len(), 6);
    assert_eq!(all[5].label(), "hls_pull_url/default hls");
    assert_eq!(label, "hd/main flv");

    let listed = collect_available_streams_from_value(&stream_data());
    let (all, label) = stream_choice(listed, "http://cdn/origin.m3u8", "http://elsewhere");
    assert_eq!(all.len(), 5);
    assert_eq!(label, "origin/main hls");
}

#[test]
fn best_stream_url_is_the_origin_hls_url() {
    let mut stream = DouyinStream {
        data: Data {
            origin: Origin {
                main: Main {
                    flv: "http://cdn/o.flv".to_string(),
                    hls: "http://cdn/o.m3u8".to_string(),
                },
            },
        },
    };
    assert_eq!(get_best_stream_url(&stream).as_deref(), Some("http://cdn/o.m3u8"));
    stream.data.origin.main.hls.clear();
    assert_eq!(get_best_stream_url(&stream), None);
}

#[test]
fn collect_available_streams_lists_hls_and_flv_by_quality() {
    let stream_data = r#"{
        "common": {"session_id": "abc"},
        "data": {
            "hd": {
                "main": {
                    "flv": "http://cdn/hd.flv",
                    "hls": "http://cdn/hd.m3u8"
                }
            },
            "origin": {
                "main": {
                    "flv": "http://cdn/origin.flv",
                    "hls": "http://cdn/origin.m3u8"
                },
                "backup": {
                    "hls": "http://cdn/origin-backup.m3u8",
                    "flv": ""
                }
            }
        }
    }"#;

    let streams = collect_available_streams(stream_data);
    let labels: Vec<_> = streams.iter().map(AvailableStream::label).collect();
    assert_eq!(
        labels,
        vec![
            "origin/main hls",
            "origin/main flv",
            "origin/backup hls",
            "hd/main hls",
            "hd/main flv",
        ]
    );
    assert_eq!(streams[0].url, "http://cdn/origin.m3u8");
}

#[test]
fn collect_available_streams_accepts_inner_data_object() {
    let stream_data = r#"{
        "origin": {
            "main": { "hls": "http://cdn/origin.m3u8", "flv": "http://cdn/origin.flv" }
        }
    }"#;

    let streams = collect_available_streams(stream_data);
    assert_eq!(streams.len(), 2);
    assert_eq!(streams[0].label(), "origin/main hls");
}

#[test]
fn collect_available_streams_returns_empty_for_invalid_json() {
    assert!(collect_available_streams("not-json").is_empty());
}
