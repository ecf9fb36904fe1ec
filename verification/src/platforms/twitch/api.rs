//! Twitch channel normalization and the values its API reports.
use vstd::prelude::*;

use crate::errors::RecorderError;
use crate::json::{str_member, Json};
use crate::outside::{json_parsed, parse_json, url_with_pairs, url_with_query, join_url, joined_url, opt_view, parse_playlist_shape, parse_url, parsed_url, ParsedUrl, UrlParts, playlist_shape, random_u32_in, shape_view, variant_view};
use crate::media::hls::{before_either, before_either_exec};
use crate::media::stream_info::or_empty;
use crate::text::{ascii_lower, find, trim_end, trim_start};
use vstd::string::StringExecFns;
use crate::text::{join_exec, join_with,
    append_str, ascii_alnum, chars_of, contains, contains_str, eq_str, is_ascii_alnum, lower,
    nonempty_items, nonempty_strings, slice_chars, starts_with, starts_with_str, string_of,
    to_lower, trim, trim_exec, trim_start_char, trim_start_char_exec, trim_start_str,
    trim_start_str_exec, trim_str, vecs_view,
};

verus! {

#[derive(Clone, Debug, PartialEq, Eq)]
pub struct RoomInfo {
    pub live: bool,
    pub live_id: Option<String>,
    pub title: String,
    pub cover: String,
    pub user_id: String,
    pub user_name: String,
    pub user_avatar: String,
}

#[derive(Clone, Debug, PartialEq, Eq)]
pub struct StreamInfo {
    pub hls_url: String,
    pub expires: i64,
}

/// A Twitch login: 1 to 25 ASCII letters, digits or underscores.
pub open spec fn valid_login(login: Seq<char>) -> bool {
    0 < login.len() <= 25 && forall|i: int|
        0 <= i < login.len() ==> is_ascii_alnum(#[trigger] login[i]) || login[i] == '_'
}

pub fn is_valid_login(login: &[char]) -> (r: bool)
    ensures
        r == valid_login(login@),
{
    if login.len() == 0 || login.len() > 25 {
        return false;
    }
    let mut i: usize = 0;
    while i < login.len()
        invariant
            i <= login.len(),
            forall|j: int| 0 <= j < i ==> is_ascii_alnum(#[trigger] login@[j]) || login@[j] == '_',
        decreases login.len() - i,
    {
        if !(ascii_alnum(login[i]) || login[i] == '_') {
            return false;
        }
        i += 1;
    }
    true
}

/// The channel named by the path segments of a Twitch URL: the first
/// non-empty segment (without leading `@`), optionally followed by `live`
/// and nothing else.
pub open spec fn channel_from_segments(segs: Seq<Seq<char>>) -> Option<Seq<char>> {
    let channel = trim_start_char(if segs.len() > 0 { segs[0] } else { Seq::empty() }, '@');
    let valid_path = segs.len() <= 1 || (segs[1] == "live"@ && segs.len() == 2);
    if valid_login(channel) && valid_path {
        Some(channel)
    } else {
        None
    }
}

/// Whether the input is written as a Twitch URL.
pub open spec fn looks_like_url(input: Seq<char>) -> bool {
    contains(input, "://"@) || starts_with(input, "www.twitch.tv/"@) || starts_with(
        input,
        "m.twitch.tv/"@,
    ) || starts_with(input, "twitch.tv/"@)
}

/// The login a channel URL, `@handle` or login name refers to, lower case;
/// `None` when it names no valid Twitch channel.
pub open spec fn canonical_channel(raw: Seq<char>) -> Option<Seq<char>> {
    let input = trim(raw);
    if input.len() == 0 {
        None
    } else {
        match channel_candidate(input) {
            None => None,
            Some(c) => {
                let c2 = lower(trim(trim_start_char(c, '@')));
                if valid_login(c2) {
                    Some(c2)
                } else {
                    None
                }
            },
        }
    }
}

/// The channel text that a trimmed, non-empty input names before it is
/// cleaned: the first path segment of a Twitch URL, or the input up to a
/// `?` or `#`.
pub open spec fn channel_candidate(input: Seq<char>) -> Option<Seq<char>> {
    if looks_like_url(input) {
        let url = if contains(input, "://"@) {
            input
        } else {
            "https://"@ + input
        };
        match parsed_url(url) {
            Err(_) => None,
            Ok(u) => channel_of_url(u),
        }
    } else {
        Some(before_either(input, '?', '#'))
    }
}

/// The channel a parsed URL names: on `twitch.tv` or `m.twitch.tv` (with or
/// without `www.`), what its path segments name.
pub open spec fn channel_of_url(u: UrlParts) -> Option<Seq<char>> {
    let host = trim_start_str(or_empty(u.host), "www."@);
    if !(host == "twitch.tv"@ || host == "m.twitch.tv"@) {
        None
    } else {
        match u.path_segments {
            None => None,
            Some(segs) => channel_from_segments(nonempty_items(segs)),
        }
    }
}

fn invalid_channel(input: &[char]) -> (r: RecorderError)
    ensures
        r matches RecorderError::ApiError { error } && error@ == "Invalid Twitch channel: "@ + input@,
{
    let mut msg = chars_of("Invalid Twitch channel: ");
    crate::text::append_chars(&mut msg, input);
    RecorderError::ApiError { error: string_of(&msg) }
}

/// The channel a parsed URL names (see `channel_of_url`).
pub fn channel_of_parsed_url(parsed: &ParsedUrl) -> (r: Option<String>)
    ensures
        opt_view(r) == channel_of_url(parsed@),
{
    let ghost pv = parsed@;
    let host_chars = match &parsed.host {
        Some(h) => chars_of(h.as_str()),
        None => Vec::new(),
    };
    proof {
        if parsed.host is None {
            assert(host_chars@ =~= or_empty(pv.host));
        }
    }
    let host = trim_start_str_exec(&host_chars, "www.");
    if !(eq_str(&host, "twitch.tv") || eq_str(&host, "m.twitch.tv")) {
        return None;
    }
    let segs = match &parsed.path_segments {
        Some(s) => nonempty_strings(s),
        None => return None,
    };
    let ghost sv = vecs_view(segs@);
    let first: Vec<char> = if segs.len() > 0 {
        assert(sv[0] == segs@[0]@);
        slice_chars(&segs[0], 0, segs[0].len())
    } else {
        Vec::new()
    };
    proof {
        if segs.len() > 0 {
            assert(segs@[0]@.subrange(0, segs@[0]@.len() as int) =~= segs@[0]@);
        } else {
            assert(first@ =~= Seq::<char>::empty());
        }
    }
    let channel = trim_start_char_exec(&first, '@');
    let valid_path = segs.len() <= 1 || (eq_str(&segs[1], "live") && segs.len() == 2);
    proof {
        if segs.len() > 1 {
            assert(sv[1] == segs@[1]@);
        }
    }
    if !is_valid_login(&channel) || !valid_path {
        return None;
    }
    Some(string_of(&channel))
}

/// Converts a Twitch channel URL, `@handle` or login name into the
/// canonical login used by both the web API and IRC.
pub fn normalize_channel(input: &str) -> (r: Result<String, RecorderError>)
    ensures
        match canonical_channel(input@) {
            Some(c) => r matches Ok(s) && s@ == c,
            None => r matches Err(RecorderError::ApiError { error }) && error@
                == "Invalid Twitch channel: "@ + trim(input@),
        },
{
    let input = trim_str(input);
    if input.len() == 0 {
        return Err(invalid_channel(&input));
    }
    let channel: Vec<char> = if contains_str(&input, "://") || starts_with_str(
        &input,
        "www.twitch.tv/",
    ) || starts_with_str(&input, "m.twitch.tv/") || starts_with_str(&input, "twitch.tv/") {
        let url = if contains_str(&input, "://") {
            string_of(&input)
        } else {
            let mut u = chars_of("https://");
            crate::text::append_chars(&mut u, &input);
            string_of(&u)
        };
        let parsed = match parse_url(url.as_str()) {
            Ok(p) => p,
            Err(_) => return Err(invalid_channel(&input)),
        };
        match channel_of_parsed_url(&parsed) {
            Some(c) => chars_of(c.as_str()),
            None => return Err(invalid_channel(&input)),
        }
    } else {
        before_either_exec(&input, '?', '#')
    };
    let c = trim_start_char_exec(&channel, '@');
    let c = trim_exec(&c);
    let c = to_lower(&c);
    if !is_valid_login(&c) {
        return Err(invalid_channel(&input));
    }
    Ok(string_of(&c))
}


// ---------------------------------------------------------------------------
// GraphQL answers
// ---------------------------------------------------------------------------

/// A string member that is not empty.
pub open spec fn nonempty_str(v: Option<Json>) -> Option<Seq<char>> {
    match v {
        Some(x) => match x.str_value() {
            Some(s) => if s.len() > 0 {
                Some(s)
            } else {
                None
            },
            None => None,
        },
        None => None,
    }
}

fn nonempty_str_exec(v: Option<&Json>) -> (r: Option<String>)
    ensures
        opt_view(r) == nonempty_str(
            match v {
                Some(x) => Some(*x),
                None => None,
            },
        ),
{
    match v {
        Some(x) => match x.as_str() {
            Some(s) => if chars_of(s.as_str()).len() > 0 {
                Some(s.clone())
            } else {
                None
            },
            None => None,
        },
        None => None,
    }
}

/// Whether the result is an API error with this message.
pub open spec fn api_error_is<T>(r: Result<T, RecorderError>, message: Seq<char>) -> bool {
    r matches Err(RecorderError::ApiError { error }) && error@ == message
}

/// The room that the room query answered for `channel`: the answer's
/// `user` must be an object with a non-empty `id`; its name is its
/// non-empty `displayName`, else its `login`; its avatar its non-empty
/// `profileImageURL`, else empty. A non-null `stream` makes the room live,
/// with that stream's non-empty `id`, its title (else the user's name) and
/// its preview (else the avatar); otherwise the room is titled by the
/// user's name and shows the avatar.
pub fn room_info_from_data(channel: &str, data: &Json) -> (r: Result<RoomInfo, RecorderError>)
    ensures
        !(data.lookup("user"@) matches Some(Json::Object(_))) ==> api_error_is(
            r,
            "Twitch channel not found: "@ + channel@,
        ),
        (data.lookup("user"@) matches Some(Json::Object(_))) ==> ({
            let user = data.lookup("user"@)->0;
            let id = nonempty_str(user.lookup("id"@));
            let name = match nonempty_str(user.lookup("displayName"@)) {
                Some(n) => Some(n),
                None => match user.lookup("login"@) {
                    Some(l) => l.str_value(),
                    None => None,
                },
            };
            let avatar = or_empty(nonempty_str(user.lookup("profileImageURL"@)));
            let stream = match user.lookup("stream"@) {
                Some(Json::Null) => None,
                s => s,
            };
            if id is None {
                api_error_is(r, "Twitch response is missing user id"@)
            } else if name is None {
                api_error_is(r, "Twitch response is missing display name"@)
            } else {
                match stream {
                    Some(st) => if nonempty_str(st.lookup("id"@)) is None {
                        api_error_is(r, "Twitch response is missing stream id"@)
                    } else {
                        r matches Ok(info) && info.live && opt_view(info.live_id) == nonempty_str(st.lookup("id"@))
                            && info.title@ == (match nonempty_str(st.lookup("title"@)) {
                            Some(t) => t,
                            None => name->0,
                        }) && info.cover@ == (match nonempty_str(st.lookup("previewImageURL"@)) {
                            Some(c) => c,
                            None => avatar,
                        }) && info.user_id@ == id->0 && info.user_name@ == name->0 && info.user_avatar@
                            == avatar
                    },
                    None => r matches Ok(info) && !info.live && info.live_id is None && info.title@ == name->0
                        && info.cover@ == avatar && info.user_id@ == id->0 && info.user_name@ == name->0
                        && info.user_avatar@ == avatar,
                }
            }
        }),
{
    let user = match data.get("user") {
        Some(u) => match u {
            Json::Object(_) => u,
            _ => {
                return Err(RecorderError::ApiError { error: prefixed("Twitch channel not found: ", channel) });
            },
        },
        None => {
            return Err(RecorderError::ApiError { error: prefixed("Twitch channel not found: ", channel) });
        },
    };
    let user_id = match nonempty_str_exec(user.get("id")) {
        Some(id) => id,
        None => {
            return Err(RecorderError::ApiError { error: String::from_str("Twitch response is missing user id") });
        },
    };
    let user_name = match nonempty_str_exec(user.get("displayName")) {
        Some(n) => n,
        None => match user.get("login") {
            Some(l) => match l.as_str() {
                Some(s) => s.clone(),
                None => {
                    return Err(
                        RecorderError::ApiError { error: String::from_str("Twitch response is missing display name") },
                    );
                },
            },
            None => {
                return Err(
                    RecorderError::ApiError { error: String::from_str("Twitch response is missing display name") },
                );
            },
        },
    };
    let user_avatar = match nonempty_str_exec(user.get("profileImageURL")) {
        Some(a) => a,
        None => String::new(),
    };
    let stream = match user.get("stream") {
        Some(Json::Null) => None,
        s => s,
    };
    match stream {
        Some(st) => {
            let live_id = match nonempty_str_exec(st.get("id")) {
                Some(id) => id,
                None => {
                    return Err(
                        RecorderError::ApiError { error: String::from_str("Twitch response is missing stream id") },
                    );
                },
            };
            let title = match nonempty_str_exec(st.get("title")) {
                Some(t) => t,
                None => user_name.clone(),
            };
            let cover = match nonempty_str_exec(st.get("previewImageURL")) {
                Some(c) => c,
                None => user_avatar.clone(),
            };
            Ok(RoomInfo { live: true, live_id: Some(live_id), title, cover, user_id, user_name, user_avatar })
        },
        None => Ok(
            RoomInfo {
                live: false,
                live_id: None,
                title: user_name.clone(),
                cover: user_avatar.clone(),
                user_id,
                user_name,
                user_avatar,
            },
        ),
    }
}

fn prefixed(prefix: &str, text: &str) -> (r: String)
    ensures
        r@ == prefix@ + text@,
{
    let mut v = chars_of(prefix);
    append_str(&mut v, text);
    string_of(&v)
}

/// The playback token of a token query's answer: the value and signature
/// strings of its `streamPlaybackAccessToken` object. Without that object
/// no stream is available; without either string the answer is invalid.
pub fn playback_token(data: &Json) -> (r: Result<(String, String), RecorderError>)
    ensures
        !(data.lookup("streamPlaybackAccessToken"@) matches Some(Json::Object(_))) ==> r matches Err(
            RecorderError::NoStreamAvailable,
        ),
        (data.lookup("streamPlaybackAccessToken"@) matches Some(Json::Object(_))) ==> ({
            let t = data.lookup("streamPlaybackAccessToken"@)->0;
            match (str_member(t, "value"@), str_member(t, "signature"@)) {
                (Some(v), Some(s)) => r matches Ok(p) && p.0@ == v && p.1@ == s,
                _ => r matches Err(RecorderError::InvalidResponse),
            }
        }),
{
    let token = match data.get("streamPlaybackAccessToken") {
        Some(t) => match t {
            Json::Object(_) => t,
            _ => {
                return Err(RecorderError::NoStreamAvailable);
            },
        },
        None => {
            return Err(RecorderError::NoStreamAvailable);
        },
    };
    let value = match token.get_str("value") {
        Some(v) => v,
        None => {
            return Err(RecorderError::InvalidResponse);
        },
    };
    let signature = match token.get_str("signature") {
        Some(s) => s,
        None => {
            return Err(RecorderError::InvalidResponse);
        },
    };
    Ok((value, signature))
}

/// The placeholder document for a token value that is not JSON:
/// `{"streamPlaybackAccessToken": "<invalid>"}`.
pub open spec fn invalid_token_document(j: Json) -> bool {
    j matches Json::Object(m) && m@.len() == 1 && m@[0].0@ == "streamPlaybackAccessToken"@ && (m@[0].1 matches Json::Str(
        s,
    ) && s@ == "<invalid>"@)
}

/// When a playback token expires: the `expires` integer of the token's
/// JSON value (0 when it has none). A token value that is not JSON
/// (`token` is `None`) is refused with a placeholder document.
pub fn token_expiry(token: Option<&Json>) -> (r: Result<i64, RecorderError>)
    ensures
        token is None ==> (r matches Err(RecorderError::InvalidResponseJson { resp }) && invalid_token_document(resp)),
        token matches Some(t) ==> r matches Ok(e) && e == (match crate::json::i64_member(*t, "expires"@) {
            Some(x) => x,
            None => 0,
        }),
{
    match token {
        None => {
            let mut members: Vec<(String, Json)> = Vec::new();
            members.push((String::from_str("streamPlaybackAccessToken"), Json::Str(String::from_str("<invalid>"))));
            Err(RecorderError::InvalidResponseJson { resp: Json::Object(members) })
        },
        Some(t) => Ok(
            match t.get_i64("expires") {
                Some(x) => x,
                None => 0,
            },
        ),
    }
}

/// The GraphQL query for a channel's user and live stream.
pub const ROOM_QUERY: &'static str = "query TwitchRoom($login: String!) {\n  user(login: $login) {\n    id\n    login\n    displayName\n    profileImageURL(width: 300)\n    stream {\n      id\n      title\n      previewImageURL(width: 640, height: 360)\n    }\n  }\n}";

/// The GraphQL query for a live stream's playback access token.
pub const PLAYBACK_TOKEN_QUERY: &'static str = "query PlaybackAccessToken_Template($login: String!, $isLive: Boolean!, $vodID: ID!, $isVod: Boolean!, $playerType: String!) {\n  streamPlaybackAccessToken(channelName: $login, params: {platform: \"web\", playerBackend: \"mediaplayer\", playerType: $playerType}) @include(if: $isLive) {\n    value\n    signature\n  }\n  videoPlaybackAccessToken(id: $vodID, params: {platform: \"web\", playerBackend: \"mediaplayer\", playerType: $playerType}) @include(if: $isVod) {\n    value\n    signature\n  }\n}";

/// Twitch's web player client id.
pub const TWITCH_CLIENT_ID: &'static str = "kimne78kx3ncx6brgo4mv6wki5h1ko";

/// The usher playlist address of a channel, before its query.
pub open spec fn usher_base(channel: Seq<char>) -> Seq<char> {
    "https://usher.ttvnw.net/api/channel/hls/"@ + channel + ".m3u8"@
}

/// The query pairs of a channel's master playlist: the client id, the
/// token and its signature, source and audio-only renditions allowed, the
/// media player backend, the site player and the random `p`.
pub open spec fn usher_pairs(token: Seq<char>, sig: Seq<char>, p: u32) -> Seq<(Seq<char>, Seq<char>)> {
    seq![
        ("client_id"@, TWITCH_CLIENT_ID@),
        ("token"@, token),
        ("sig"@, sig),
        ("allow_source"@, "true"@),
        ("allow_audio_only"@, "true"@),
        ("player_backend"@, "mediaplayer"@),
        ("player_type"@, "site"@),
        ("p"@, crate::text::decimal(p as nat)),
    ]
}

/// The master playlist address of a channel's live stream: the usher
/// address of the channel with the query pairs (see `usher_pairs`) for a
/// random `p` below one million appended; an invalid response when the
/// address does not parse.
pub fn usher_url(channel: &str, token: &str, sig: &str) -> (r: Result<String, RecorderError>)
    ensures
        exists|p: u32|
            p < 1_000_000 && match #[trigger] url_with_query(usher_base(channel@), usher_pairs(token@, sig@, p)) {
                Some(u) => r matches Ok(s) && s@ == u,
                None => r matches Err(RecorderError::InvalidResponse),
            },
{
    let p = random_u32_in(0, 1_000_000);
    let mut digits: Vec<char> = Vec::new();
    crate::text::push_decimal(&mut digits, p as u64);
    let mut base = chars_of("https://usher.ttvnw.net/api/channel/hls/");
    append_str(&mut base, channel);
    append_str(&mut base, ".m3u8");
    let pairs: Vec<(String, String)> = vec![
        ("client_id".to_string(), TWITCH_CLIENT_ID.to_string()),
        ("token".to_string(), token.to_string()),
        ("sig".to_string(), sig.to_string()),
        ("allow_source".to_string(), "true".to_string()),
        ("allow_audio_only".to_string(), "true".to_string()),
        ("player_backend".to_string(), "mediaplayer".to_string()),
        ("player_type".to_string(), "site".to_string()),
        ("p".to_string(), string_of(&digits)),
    ];
    assert(crate::outside::pairs_view(pairs@) =~= usher_pairs(token@, sig@, p));
    let b = string_of(&base);
    assert(b@ =~= usher_base(channel@));
    let r = match url_with_pairs(b.as_str(), &pairs) {
        Some(u) => Ok(u),
        None => Err(RecorderError::InvalidResponse),
    };
    assert(match url_with_query(usher_base(channel@), usher_pairs(token@, sig@, p)) {
        Some(u) => r matches Ok(s) && s@ == u,
        None => r matches Err(RecorderError::InvalidResponse),
    });
    r
}

/// The index `Iterator::max_by_key` picks: the last of the greatest
/// bandwidths.
pub open spec fn is_last_greatest(bws: Seq<u64>, i: int) -> bool {
    &&& 0 <= i < bws.len()
    &&& forall|j: int| 0 <= j < bws.len() ==> #[trigger] bws[j] <= bws[i]
    &&& forall|j: int| i < j < bws.len() ==> #[trigger] bws[j] < bws[i]
}

/// The bandwidths of a master playlist's variants.
pub open spec fn bandwidths(vs: Seq<(String, u64)>) -> Seq<u64> {
    vs.map_values(|v: (String, u64)| v.1)
}

/// The media playlist a master playlist leads to: the variant of greatest
/// bandwidth (the last such), its URI resolved against the master URL. A
/// master without variants is refused; a URL that does not resolve is an
/// invalid response.
pub fn best_variant_url(master_url: &str, variants: &Vec<(String, u64)>) -> (r: Result<String, RecorderError>)
    ensures
        variants@.len() == 0 ==> (r matches Err(RecorderError::M3u8ParseFailed { content }) && content@
            == "Twitch HLS master playlist has no variants"@),
        variants@.len() > 0 ==> exists|i: int|
            #[trigger] is_last_greatest(bandwidths(variants@), i) && match joined_url(
                master_url@,
                variants@[i].0@,
            ) {
                Some(u) => r matches Ok(s) && s@ == u,
                None => r matches Err(RecorderError::InvalidResponse),
            },
{
    let ghost bws = bandwidths(variants@);
    if variants.len() == 0 {
        return Err(
            RecorderError::M3u8ParseFailed { content: String::from_str("Twitch HLS master playlist has no variants") },
        );
    }
    let mut best: usize = 0;
    let mut i: usize = 1;
    while i < variants.len()
        invariant
            1 <= i <= variants.len(),
            best < i,
            bws == bandwidths(variants@),
            forall|j: int| 0 <= j < i ==> #[trigger] bws[j] <= bws[best as int],
            forall|j: int| best < j < i ==> #[trigger] bws[j] < bws[best as int],
        decreases variants.len() - i,
    {
        if variants[i].1 >= variants[best].1 {
            best = i;
        }
        i += 1;
    }
    assert(is_last_greatest(bws, best as int));
    match join_url(master_url, variants[best].0.as_str()) {
        Some(u) => Ok(u),
        None => Err(RecorderError::InvalidResponse),
    }
}


/// The bandwidths of a parsed master playlist's variants.
pub open spec fn shape_bandwidths(vs: Seq<(Seq<char>, u64, Option<u64>, bool)>) -> Seq<u64> {
    vs.map_values(|v: (Seq<char>, u64, Option<u64>, bool)| v.1)
}

/// The media playlist that a fetched Twitch playlist (`bytes`, fetched from
/// `master_url`) leads to: an unparsable playlist is refused; a media
/// playlist is the master URL itself; for a master playlist, the variant of
/// greatest bandwidth (the last such), resolved against the master URL.
pub fn media_playlist_url(master_url: &str, bytes: &[u8]) -> (r: Result<String, RecorderError>)
    ensures
        playlist_shape(bytes@) is None ==> (r matches Err(RecorderError::M3u8ParseFailed { content })
            && content@ == "Twitch returned an invalid HLS playlist"@),
        playlist_shape(bytes@) matches Some((false, _, _, _)) ==> (r matches Ok(s) && s@ == master_url@),
        playlist_shape(bytes@) matches Some((true, vs, _, _)) ==> {
            &&& vs.len() == 0 ==> (r matches Err(RecorderError::M3u8ParseFailed { content }) && content@
                == "Twitch HLS master playlist has no variants"@)
            &&& vs.len() > 0 ==> exists|i: int|
                #[trigger] is_last_greatest(shape_bandwidths(vs), i) && match joined_url(master_url@, vs[i].0) {
                    Some(u) => r matches Ok(s) && s@ == u,
                    None => r matches Err(RecorderError::InvalidResponse),
                }
        },
{
    let shape = match parse_playlist_shape(bytes) {
        Some(s) => s,
        None => {
            return Err(
                RecorderError::M3u8ParseFailed {
                    content: String::from_str("Twitch returned an invalid HLS playlist"),
                },
            );
        },
    };
    if !shape.master {
        return Ok(master_url.to_string());
    }
    let ghost vs = (shape_view(Some(shape))->0).1;
    let mut pairs: Vec<(String, u64)> = Vec::new();
    let mut i: usize = 0;
    while i < shape.variants.len()
        invariant
            i <= shape.variants.len(),
            vs == shape.variants@.map_values(|v: crate::media::hls::MediaVariant| variant_view(v)),
            pairs@.len() == i,
            forall|j: int| 0 <= j < i ==> (#[trigger] pairs@[j]).0@ == vs[j].0 && pairs@[j].1 == vs[j].1,
        decreases shape.variants.len() - i,
    {
        pairs.push((shape.variants[i].uri.clone(), shape.variants[i].bandwidth));
        i += 1;
    }
    proof {
        assert(bandwidths(pairs@) =~= shape_bandwidths(vs));
    }
    best_variant_url(master_url, &pairs)
}

/// Why a GraphQL answer gives no data.
#[derive(Debug)]
pub enum GraphqlFailure {
    /// The answer lists errors; these are their messages joined by `; `.
    Messages(String),
    /// The answer lists errors, none of which has a message.
    Unexplained,
    /// The answer has no `data`; this is the answer.
    MissingData(Json),
}

/// The answer a GraphQL reply holds: the first of a batch (null for an
/// empty batch), or the reply itself.
pub open spec fn graphql_body(reply: Json) -> Json {
    match reply {
        Json::Array(items) => if items@.len() > 0 {
            items@[0]
        } else {
            Json::Null
        },
        b => b,
    }
}

/// The string messages of a list of GraphQL errors, in order.
pub open spec fn error_messages(errors: Seq<Json>) -> Seq<Seq<char>>
    decreases errors.len(),
{
    if errors.len() == 0 {
        Seq::empty()
    } else {
        let pre = error_messages(errors.drop_last());
        match str_member(errors.last(), "message"@) {
            Some(m) => pre.push(m),
            None => pre,
        }
    }
}

fn take_member(members: Vec<(String, Json)>, key: &str) -> (r: Result<Json, Vec<(String, Json)>>)
    ensures
        match crate::json::member(members@, key@) {
            Some(v) => r matches Ok(x) && x == v,
            None => r matches Err(rest) && rest == members,
        },
{
    let ghost es = members@;
    let ghost orig = members;
    let mut entries = members;
    let mut i: usize = 0;
    assert(es.skip(0) =~= es);
    while i < entries.len()
        invariant
            i <= entries.len(),
            entries@ == es,
            es == members@,
            orig == members,
            entries == orig,
            crate::json::member(es, key@) == crate::json::member(es.skip(i as int), key@),
        decreases entries.len() - i,
    {
        assert(es.skip(i as int)[0] == es[i as int]);
        assert(es.skip(i as int).drop_first() =~= es.skip(i + 1));
        if eq_str(&chars_of(entries[i].0.as_str()), key) {
            assert(es[i as int].0@ == key@);
            assert(crate::json::member(es.skip(i as int), key@) == Some(es[i as int].1));
            let e = entries.remove(i);
            assert(e == es[i as int]);
            let v = e.1;
            assert(crate::json::member(es, key@) == Some(v));
            return Ok(v);
        }
        i += 1;
    }
    assert(es.skip(i as int) =~= Seq::<(String, Json)>::empty());
    Err(entries)
}

/// The data of a GraphQL reply (see `graphql_body`): an answer that lists
/// errors (as an array) fails with their messages, or unexplained when none
/// has one; an answer without `data` fails with itself.
pub fn graphql_data(reply: Json) -> (r: Result<Json, GraphqlFailure>)
    ensures
        ({
            let b = graphql_body(reply);
            match b.lookup("errors"@) {
                Some(Json::Array(es)) => {
                    let msg = join_with(error_messages(es@), "; "@);
                    if msg.len() > 0 {
                        r matches Err(GraphqlFailure::Messages(m)) && m@ == msg
                    } else {
                        r matches Err(GraphqlFailure::Unexplained)
                    }
                },
                _ => match b.lookup("data"@) {
                    Some(d) => r matches Ok(x) && x == d,
                    None => r matches Err(GraphqlFailure::MissingData(x)) && x == b,
                },
            }
        }),
{
    let body = match reply {
        Json::Array(items) => {
            let mut items = items;
            if items.len() > 0 {
                items.remove(0)
            } else {
                Json::Null
            }
        },
        b => b,
    };
    let ghost b = body;
    match body.get("errors") {
        Some(Json::Array(es)) => {
            let mut messages: Vec<Vec<char>> = Vec::new();
            let mut i: usize = 0;
            while i < es.len()
                invariant
                    i <= es.len(),
                    vecs_view(messages@) == error_messages(es@.take(i as int)),
                decreases es.len() - i,
            {
                assert(es@.take(i + 1).drop_last() =~= es@.take(i as int));
                assert(es@.take(i + 1).last() == es@[i as int]);
                if let Some(m) = es[i].get_str("message") {
                    let ghost before = vecs_view(messages@);
                    messages.push(chars_of(m.as_str()));
                    assert(vecs_view(messages@) =~= before.push(m@));
                }
                i += 1;
            }
            assert(es@.take(es.len() as int) =~= es@);
            let msg = join_exec(&messages, "; ");
            if msg.len() > 0 {
                return Err(GraphqlFailure::Messages(string_of(&msg)));
            }
            return Err(GraphqlFailure::Unexplained);
        },
        _ => {},
    }
    match body {
        Json::Object(entries) => match take_member(entries, "data") {
            Ok(d) => Ok(d),
            Err(rest) => {
                assert(Json::Object(rest) == b);
                Err(GraphqlFailure::MissingData(Json::Object(rest)))
            },
        },
        other => Err(GraphqlFailure::MissingData(other)),
    }
}


/// A channel login as `normalize_channel` gives it: a valid login with no
/// upper-case letter.
pub open spec fn lower_login(c: Seq<char>) -> bool {
    valid_login(c) && forall|i: int| 0 <= i < c.len() ==> !('A' <= #[trigger] c[i] && c[i] <= 'Z')
}

proof fn lower_has_no_upper(y: Seq<char>)
    ensures
        forall|i: int| 0 <= i < lower(y).len() ==> !('A' <= #[trigger] lower(y)[i] && lower(y)[i] <= 'Z'),
{
    assert forall|i: int| 0 <= i < lower(y).len() implies !('A' <= #[trigger] lower(y)[i] && lower(y)[i] <= 'Z') by {
        let x = y[i];
        assert(lower(y)[i] == ascii_lower(x));
        if 'A' <= x && x <= 'Z' {
            let v = (x as u32) + 32;
            assert(97 <= v <= 122);
            assert(('a' as u32) == 97 && ('z' as u32) == 122);
            assert((v as char) as u32 == v);
        }
    }
}

proof fn before_either_keeps(s: Seq<char>, a: char, b: char)
    requires
        forall|i: int| 0 <= i < s.len() ==> #[trigger] s[i] != a && s[i] != b,
    ensures
        before_either(s, a, b) == s,
    decreases s.len(),
{
    if s.len() > 0 {
        before_either_keeps(s.drop_first(), a, b);
        assert(seq![s[0]] + s.drop_first() =~= s);
    }
}

proof fn login_trims_to_itself(c: Seq<char>)
    requires
        valid_login(c),
    ensures
        trim(c) == c,
        trim_start_char(c, '@') == c,
{
    assert(is_ascii_alnum(c[0]) || c[0] == '_');
    assert(is_ascii_alnum(c.last()) || c.last() == '_');
    assert(trim_start(c) == c);
    assert(trim_end(c) == c);
}

proof fn login_is_no_url(c: Seq<char>)
    requires
        valid_login(c),
    ensures
        !looks_like_url(c),
{
    reveal_strlit("://");
    reveal_strlit("www.twitch.tv/");
    reveal_strlit("m.twitch.tv/");
    reveal_strlit("twitch.tv/");
    crate::text::lemma_find_from(c, "://"@, 0);
    if contains(c, "://"@) {
        let k = find(c, "://"@)->0;
        assert(c.subrange(k, k + 3)[0] == ':');
        assert(c[k] == ':');
        assert(is_ascii_alnum(c[k]) || c[k] == '_');
    }
    if starts_with(c, "www.twitch.tv/"@) {
        assert(c.subrange(0, 14)[3] == '.');
        assert(is_ascii_alnum(c[3]) || c[3] == '_');
    }
    if starts_with(c, "m.twitch.tv/"@) {
        assert(c.subrange(0, 12)[1] == '.');
        assert(is_ascii_alnum(c[1]) || c[1] == '_');
    }
    if starts_with(c, "twitch.tv/"@) {
        assert(c.subrange(0, 10)[6] == '.');
        assert(is_ascii_alnum(c[6]) || c[6] == '_');
    }
}

/// A channel that `normalize_channel` accepts is 1 to 25 ASCII letters,
/// digits or underscores, none upper case, and normalizing it again gives
/// it back.
pub proof fn normalized_channel_is_canonical(raw: Seq<char>)
    requires
        canonical_channel(raw) is Some,
    ensures
        lower_login(canonical_channel(raw)->0),
        canonical_channel(canonical_channel(raw)->0) == canonical_channel(raw),
{
    let c = canonical_channel(raw)->0;
    assert(valid_login(c));
    let ch = channel_candidate(trim(raw))->0;
    lower_has_no_upper(trim(trim_start_char(ch, '@')));
    login_trims_to_itself(c);
    login_is_no_url(c);
    assert forall|i: int| 0 <= i < c.len() implies #[trigger] c[i] != '?' && c[i] != '#' by {
        assert(is_ascii_alnum(c[i]) || c[i] == '_');
    }
    before_either_keeps(c, '?', '#');
    assert(lower(c) =~= c);
}


/// The expiry a parsed playback token states, 0 when it states none.
pub open spec fn token_expires(token: Json) -> i64 {
    match crate::json::i64_member(token, "expires"@) {
        Some(x) => x,
        None => 0,
    }
}

/// The master playlist address for a token reply's data, with the token's
/// expiry; `channel` is a normalized login. The token value is parsed as
/// JSON for its expiry, then the usher URL is built (see `usher_url`).
pub fn master_playlist(channel: &str, data: &Json) -> (r: Result<(String, i64), RecorderError>)
    ensures
        !(data.lookup("streamPlaybackAccessToken"@) matches Some(Json::Object(_))) ==> r matches Err(
            RecorderError::NoStreamAvailable,
        ),
        (data.lookup("streamPlaybackAccessToken"@) matches Some(Json::Object(_))) ==> ({
            let t = data.lookup("streamPlaybackAccessToken"@)->0;
            match (str_member(t, "value"@), str_member(t, "signature"@)) {
                (Some(v), Some(sg)) => match json_parsed(v) {
                    Err(_) => r matches Err(RecorderError::InvalidResponseJson { resp }) && invalid_token_document(resp),
                    Ok(token) => exists|p: u32|
                        p < 1_000_000 && match #[trigger] url_with_query(usher_base(channel@), usher_pairs(v, sg, p)) {
                            Some(u) => r matches Ok((s, e)) && s@ == u && e == token_expires(token),
                            None => r matches Err(RecorderError::InvalidResponse),
                        },
                },
                _ => r matches Err(RecorderError::InvalidResponse),
            }
        }),
{
    let (value, signature) = playback_token(data)?;
    let expires = match json_parsed_token(value.as_str()) {
        Some(token) => token_expiry(Some(&token))?,
        None => token_expiry(None)?,
    };
    let url = usher_url(channel, value.as_str(), signature.as_str())?;
    Ok((url, expires))
}

fn json_parsed_token(value: &str) -> (r: Option<Json>)
    ensures
        match json_parsed(value@) {
            Ok(t) => r == Some(t),
            Err(_) => r is None,
        },
{
    match parse_json(value) {
        Ok(t) => Some(t),
        Err(_) => None,
    }
}

} // verus!
