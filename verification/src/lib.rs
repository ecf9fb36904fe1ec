use vstd::prelude::*;

pub mod account;
pub mod danmu;
pub mod downloader;
pub mod errors;
pub mod events;
pub mod json;
pub mod media;
pub mod outside;
pub mod platforms;
pub mod sorting;
pub mod text;

use crate::platforms::PlatformType;
use crate::text::{append_str, chars_of, push_signed_decimal, signed_decimal, string_of};
use vstd::string::StringExecFns;

verus! {

/// A live room as the recorder shows it.
#[derive(Debug, Clone, Default)]
pub struct RoomInfo {
    pub platform: String,
    pub room_id: String,
    pub room_title: String,
    pub room_cover: String,
    /// Whether the room is live.
    pub status: bool,
}

/// The streamer of a room.
#[derive(Debug, Clone, Default)]
pub struct UserInfo {
    pub user_id: String,
    pub user_name: String,
    pub user_avatar: String,
}

/// Where a recording's files live, below the configured cache directory.
#[derive(Debug, Clone)]
pub struct CachePath {
    pub cache_path: String,
    pub platform: PlatformType,
    pub room_id: i64,
    pub live_id: String,
    pub file_name: Option<String>,
}

/// `"{platform}/{room_id}/{live_id}"`, then `"/{file_name}"` when there is one.
pub open spec fn cache_relative_path(
    platform: PlatformType,
    room_id: i64,
    live_id: Seq<char>,
    file_name: Option<Seq<char>>,
) -> Seq<char> {
    let dir = platform.name() + seq!['/'] + signed_decimal(room_id as int) + seq!['/'] + live_id;
    match file_name {
        Some(f) => dir + seq!['/'] + f,
        None => dir,
    }
}

/// `PathBuf::join` of a relative path: a `/` goes between the two unless the
/// base is empty or already ends with one.
pub open spec fn path_join(base: Seq<char>, rel: Seq<char>) -> Seq<char> {
    if base.len() == 0 {
        rel
    } else if base.last() == '/' {
        base + rel
    } else {
        base + seq!['/'] + rel
    }
}

impl CachePath {
    pub fn new(cache_path: String, platform: PlatformType, room_id: i64, live_id: &str) -> (r: Self)
        ensures
            r.cache_path == cache_path,
            r.platform == platform,
            r.room_id == room_id,
            r.live_id@ == live_id@,
            r.file_name is None,
    {
        Self {
            cache_path,
            platform,
            room_id,
            live_id: String::from_str(live_id),
            file_name: None,
        }
    }

    /// This path with a file name: `file_name` made safe for a file system
    /// (see `sanitize_file_name`): its unsafe characters removed, a name of
    /// dots only emptied, and a name that is then portable kept as it is.
    pub fn with_filename(&self, file_name: &str) -> (r: Self)
        ensures
            r.cache_path@ == self.cache_path@,
            r.platform == self.platform,
            r.room_id == self.room_id,
            r.live_id@ == self.live_id@,
            r.file_name matches Some(f) && f@.is_prefix_of(crate::outside::file_name_core(file_name@))
                && (crate::outside::portable_file_name(crate::outside::file_name_core(file_name@)) ==> f@
                == crate::outside::file_name_core(file_name@)) && (forall|i: int|
                0 <= i < f@.len() ==> !crate::outside::file_name_unsafe(#[trigger] f@[i]))
                && vstd::utf8::encode_utf8(f@).len() <= 255,
    {
        Self {
            cache_path: self.cache_path.clone(),
            platform: self.platform,
            room_id: self.room_id,
            live_id: self.live_id.clone(),
            file_name: Some(crate::outside::sanitize_file_name(file_name)),
        }
    }

    /// The path relative to the cache directory (see `cache_relative_path`).
    pub fn relative_path(&self) -> (r: String)
        ensures
            r@ == cache_relative_path(
                self.platform,
                self.room_id,
                self.live_id@,
                crate::outside::opt_view(self.file_name),
            ),
    {
        let mut v = chars_of(self.platform.as_str());
        v.push('/');
        push_signed_decimal(&mut v, self.room_id);
        v.push('/');
        append_str(&mut v, self.live_id.as_str());
        match &self.file_name {
            Some(f) => {
                v.push('/');
                append_str(&mut v, f.as_str());
            },
            None => {},
        }
        string_of(&v)
    }

    /// The full path: the cache directory joined with the relative path.
    pub fn full_path(&self) -> (r: String)
        ensures
            r@ == path_join(
                self.cache_path@,
                cache_relative_path(
                    self.platform,
                    self.room_id,
                    self.live_id@,
                    crate::outside::opt_view(self.file_name),
                ),
            ),
    {
        let rel = self.relative_path();
        let base = chars_of(self.cache_path.as_str());
        let mut v = chars_of(self.cache_path.as_str());
        if base.len() > 0 && base[base.len() - 1] != '/' {
            v.push('/');
        }
        append_str(&mut v, rel.as_str());
        string_of(&v)
    }
}


/// A recording file's relative path is the recording directory's joined
/// with the file name (as `PathBuf::join` does), for a live id that is not
/// empty and does not end with `/`; with `CachePath::with_filename`, the
/// file name is the sanitized one.
pub proof fn file_path_joins_the_directory(
    platform: PlatformType,
    room_id: i64,
    live_id: Seq<char>,
    file_name: Seq<char>,
)
    requires
        live_id.len() > 0,
        live_id.last() != '/',
    ensures
        cache_relative_path(platform, room_id, live_id, Some(file_name)) == path_join(
            cache_relative_path(platform, room_id, live_id, None),
            file_name,
        ),
{
    let dir = cache_relative_path(platform, room_id, live_id, None);
    assert(dir.last() == live_id.last());
}

} // verus!
