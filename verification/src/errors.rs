//! Errors reported by the recorder's parsers and stream builders.
use vstd::prelude::*;

use crate::json::Json;
use crate::platforms::bilibili::api::BiliStream;
use crate::platforms::douyin::stream_info::DouyinStream;

verus! {

/// A platform stream that an error refers to.
#[derive(Debug, Clone)]
pub enum Stream {
    BiliBili(BiliStream),
    Douyin(DouyinStream),
}

/// The recorder's error conditions that carry plain values: an answer that
/// was not understood carries its JSON document, a refused request its
/// HTTP status code. Conditions that wrap an I/O, HTTP or JSON error of
/// another crate are reported by the application layer around this library.
#[derive(Debug)]
pub enum RecorderError {
    IndexNotFound { url: String },
    ArchiveInUse { live_id: String },
    EmptyCache,
    M3u8ParseFailed { content: String },
    NoStreamAvailable,
    FreezedStream { stream: Stream },
    StreamExpired { expire: i64 },
    NoRoomInfo,
    InvalidStream { stream: Stream },
    SlowStream { stream: Stream },
    EmptyHeader,
    InvalidTimestamp,
    SubtitleNotFound { live_id: String },
    SubtitleGenerationFailed { error: String },
    ResolutionChanged { err: String },
    FfmpegError(String),
    FormatNotFound { format: String },
    CodecNotFound { codecs: String },
    InvalidCookies,
    ApiError { error: String },
    InvalidValue,
    InvalidResponse,
    InvalidResponseJson { resp: Json },
    InvalidResponseStatus { status: u16 },
    UploadCancelled,
    UploadError { err: String },
    SecurityControlError,
    JsRuntimeError(String),
    UpdateTimeout,
    UnsupportedStream,
    EmptyRecord,
    NotLive,
}

} // verus!
