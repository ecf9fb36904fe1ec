//! Douyu request signing and the decisions around its API calls.
use vstd::prelude::*;

use crate::account::Account;
use crate::errors::RecorderError;
use crate::outside::{
    capture, form_decoded, form_pairs, md5_hex, md5_hex_digest, parse_url, parsed_url,
    regex_capture, system_unix_seconds, ParsedUrl, UrlParts,
};
use crate::platforms::douyu::response::{DouyuEncryptionData, MAX_ENCRYPTION_ITERATIONS};
use crate::text::{
    after_last_char, after_last_char_exec, append_chars, append_str, before_char,
    before_char_exec, chars_of, decimal, ends_with, ends_with_str, eq_str, find_char,
    find_char_exec, parse_u64, parse_u64_exec, push_decimal, push_signed_decimal, signed_decimal,
    slice_chars, string_of, trim, trim_end_char, trim_end_char_exec, trim_exec, trim_str,
};
use crate::media::hls::{before_either, before_either_exec};

verus! {

pub const ROOM_API_BASE: &'static str = "https://open.douyucdn.cn/api/RoomApi/room";

pub const ENCRYPTION_API: &'static str = "https://www.douyu.com/wgapi/livenc/liveweb/websec/getEncryption";

pub const PLAY_API_BASE: &'static str = "https://www.douyu.com/lapi/live/getH5PlayV1";

pub const DOUYU_REFERER: &'static str = "https://www.douyu.com/";

pub const DEFAULT_DID: &'static str = "10000000000000000000000000001501";

pub const DEFAULT_CDN: &'static str = "";

pub const DEFAULT_RATE: u64 = 0;

pub const DEFAULT_USER_AGENT: &'static str = "Mozilla/5.0 (Windows NT 10.0; Win64; x64; rv:154.0) Gecko/20100101 Firefox/154.0";

/// Lifetime given to a key whose own expiry is missing or too close.
pub const KEY_FALLBACK_TTL_SECS: u64 = 86400;

/// A key cached for this recorder.
#[derive(Debug, Clone)]
pub struct CachedEncryptionKey {
    pub data: DouyuEncryptionData,
    pub expire_at: u64,
    pub user_agent: String,
}

/// The expiry a cached key gets at time `now`: the key's own expiry when it
/// lies more than five seconds ahead, else one day from now.
pub open spec fn key_expiry(key_expire_at: u64, now: u64) -> u64 {
    if key_expire_at > now + 5 {
        key_expire_at
    } else if now + KEY_FALLBACK_TTL_SECS > u64::MAX {
        u64::MAX
    } else {
        (now + KEY_FALLBACK_TTL_SECS) as u64
    }
}

impl CachedEncryptionKey {
    /// Caches `data` at time `now`.
    pub fn new_at(data: DouyuEncryptionData, user_agent: String, now: u64) -> (r: Self)
        ensures
            r.data == data,
            r.user_agent == user_agent,
            r.expire_at == key_expiry(data.expire_at, now),
    {
        let expire_at = if data.expire_at > now && data.expire_at - now > 5 {
            data.expire_at
        } else {
            now.saturating_add(KEY_FALLBACK_TTL_SECS)
        };
        Self { data, expire_at, user_agent }
    }

    /// Caches `data` at the current time.
    pub fn new(data: DouyuEncryptionData, user_agent: String) -> (r: Self)
        ensures
            r.data == data,
            r.user_agent == user_agent,
            r.expire_at >= data.expire_at || r.expire_at >= KEY_FALLBACK_TTL_SECS,
    {
        Self::new_at(data, user_agent, unix_timestamp())
    }

    /// Whether the key is still usable at time `now`: it must outlive `now`
    /// by more than five seconds.
    pub fn is_valid_at(&self, now: u64) -> (r: bool)
        ensures
            r == (if now + 5 > u64::MAX {
                u64::MAX
            } else {
                (now + 5) as u64
            } < self.expire_at),
    {
        now.saturating_add(5) < self.expire_at
    }

    /// Whether the key is still usable now.
    pub fn is_valid(&self) -> (r: bool)
        ensures
            self.expire_at <= 5 ==> !r,
    {
        self.is_valid_at(unix_timestamp())
    }
}

/// The HTTP identity of Douyu API requests and of the FLV pull: the browser
/// user agent, the Douyu referer, and the account's cookies when it has any.
pub fn pull_http_identity(account: &Account, _room_id: u64) -> (r: (String, Vec<(String, String)>))
    ensures
        r.0@ == DEFAULT_USER_AGENT@,
        r.1@.len() == (if trim(account.cookies@).len() > 0 {
            2int
        } else {
            1int
        }),
        r.1@[0].0@ == "Referer"@ && r.1@[0].1@ == DOUYU_REFERER@,
        trim(account.cookies@).len() > 0 ==> r.1@[1].0@ == "Cookie"@ && r.1@[1].1@
            == account.cookies@,
{
    let mut headers: Vec<(String, String)> = Vec::new();
    headers.push((String::from_str("Referer"), String::from_str(DOUYU_REFERER)));
    let c = trim_str(account.cookies.as_str());
    if c.len() > 0 {
        headers.push((String::from_str("Cookie"), account.cookies.clone()));
    }
    (String::from_str(DEFAULT_USER_AGENT), headers)
}

/// A Douyu room id must be a (trimmed) unsigned number.
pub fn parse_numeric_room_id(room_id: &str) -> (r: Result<u64, RecorderError>)
    ensures
        match parse_u64(trim(room_id@)) {
            Some(n) => r == Ok::<u64, RecorderError>(n),
            None => r matches Err(RecorderError::ApiError { error }) && error@
                == "Douyu room id must be numeric: "@ + room_id@,
        },
{
    let t = trim_str(room_id);
    match parse_u64_exec(&t) {
        Some(n) => Ok(n),
        None => {
            let mut msg = chars_of("Douyu room id must be numeric: ");
            append_str(&mut msg, room_id);
            Err(RecorderError::ApiError { error: string_of(&msg) })
        },
    }
}

/// The pattern that finds the numeric room id embedded in a mobile room page.
pub open spec fn real_room_id_pattern() -> Seq<char> {
    "roomInfo(?:&quot;|\")\\s*:\\s*\\{\\s*(?:&quot;|\")?rid(?:&quot;|\")?\\s*:\\s*(\\d+)"@
}

/// The numeric room id that a mobile room page embeds in `roomInfo`.
pub fn extract_real_room_id(body: &str) -> (r: Option<u64>)
    ensures
        r == (match regex_capture(real_room_id_pattern(), body@, 1) {
            Some(c) => parse_u64(c),
            None => None,
        }),
{
    match capture(
        "roomInfo(?:&quot;|\")\\s*:\\s*\\{\\s*(?:&quot;|\")?rid(?:&quot;|\")?\\s*:\\s*(\\d+)",
        body,
        1,
    ) {
        Some(c) => {
            let v = chars_of(c.as_str());
            parse_u64_exec(&v)
        },
        None => None,
    }
}

/// The value of the first `rid` pair whose value is a number.
pub open spec fn first_numeric_rid(pairs: Seq<(Seq<char>, Seq<char>)>) -> Option<u64>
    decreases pairs.len(),
{
    if pairs.len() == 0 {
        None
    } else if pairs[0].0 == "rid"@ && parse_u64(pairs[0].1) is Some {
        parse_u64(pairs[0].1)
    } else {
        first_numeric_rid(pairs.drop_first())
    }
}

/// The query of a room URL: the text after its first `?` and before the next
/// `#`, if it has a `?`.
pub open spec fn url_query(room_id: Seq<char>) -> Option<Seq<char>> {
    match find_char(room_id, '?') {
        Some(k) => Some(before_char(room_id.subrange(k + 1, room_id.len() as int), '#')),
        None => None,
    }
}

/// The numeric `rid` query parameter of a room URL (Douyu topic pages name
/// their room that way).
pub fn numeric_rid_query(room_id: &str) -> (r: Option<u64>)
    ensures
        r == (match url_query(room_id@) {
            Some(q) => first_numeric_rid(form_decoded(q)),
            None => None,
        }),
{
    let v = chars_of(room_id);
    let k = match find_char_exec(&v, '?') {
        Some(k) => k,
        None => return None,
    };
    let rest = slice_chars(&v, k + 1, v.len());
    let q = string_of(&before_char_exec(&rest, '#'));
    let pairs = form_pairs(q.as_str());
    let ghost pv = pairs@.map_values(|p: (String, String)| (p.0@, p.1@));
    let mut i: usize = 0;
    assert(pv.subrange(0, pv.len() as int) =~= pv);
    assert(url_query(room_id@) == Some(q@));
    while i < pairs.len()
        invariant
            i <= pairs.len(),
            pv == pairs@.map_values(|p: (String, String)| (p.0@, p.1@)),
            pv == form_decoded(q@),
            url_query(room_id@) == Some(q@),
            first_numeric_rid(pv) == first_numeric_rid(pv.subrange(i as int, pv.len() as int)),
        decreases pairs.len() - i,
    {
        let ghost rest_pairs = pv.subrange(i as int, pv.len() as int);
        assert(rest_pairs[0] == (pairs@[i as int].0@, pairs@[i as int].1@));
        let key = chars_of(pairs[i].0.as_str());
        if eq_str(&key, "rid") {
            let val = chars_of(pairs[i].1.as_str());
            let n = parse_u64_exec(&val);
            if n.is_some() {
                return n;
            }
        }
        assert(rest_pairs.drop_first() =~= pv.subrange(i + 1, pv.len() as int));
        i += 1;
    }
    assert(pv.subrange(i as int, pv.len() as int) =~= Seq::<(Seq<char>, Seq<char>)>::empty());
    None
}

/// The room a user-supplied Douyu id names: a number, or a vanity path that
/// the mobile room page resolves.
#[derive(Debug, Clone)]
pub enum RoomTarget {
    Numeric(u64),
    Path(String),
}

/// The last path component of a room URL or path: the trimmed text before
/// any query or fragment, without trailing slashes, after its last `/`.
pub open spec fn room_path(room_id: Seq<char>) -> Seq<char> {
    after_last_char(trim_end_char(before_either(trim(room_id), '?', '#'), '/'), '/')
}

/// How a room id resolves before any request: its `rid` query, the id
/// itself when numeric, or the number or vanity name that ends its path.
pub open spec fn room_target_of(room_id: Seq<char>) -> Option<Result<u64, Seq<char>>> {
    let rid = match url_query(room_id) {
        Some(q) => first_numeric_rid(form_decoded(q)),
        None => None,
    };
    if rid is Some {
        Some(Ok(rid->0))
    } else if parse_u64(trim(room_id)) is Some {
        Some(Ok(parse_u64(trim(room_id))->0))
    } else if room_path(room_id).len() == 0 {
        None
    } else if parse_u64(room_path(room_id)) is Some {
        Some(Ok(parse_u64(room_path(room_id))->0))
    } else {
        Some(Err(room_path(room_id)))
    }
}

/// Failures of a Douyu API call that carry plain values.
#[derive(Debug, Clone)]
pub enum DouyuApiError {
    Offline { detail: String },
    Authentication { detail: String },
    Api { endpoint: String, code: i32, message: String },
    InvalidResponse { endpoint: String, detail: String },
}

/// Resolves a room id as far as it can be without a request.
pub fn room_target(room_id: &str) -> (r: Result<RoomTarget, DouyuApiError>)
    ensures
        match room_target_of(room_id@) {
            None => r matches Err(DouyuApiError::InvalidResponse { endpoint, detail }) && endpoint@
                == "roomResolve"@ && detail@ == "room id/path is empty"@,
            Some(Ok(n)) => r matches Ok(RoomTarget::Numeric(m)) && m == n,
            Some(Err(p)) => r matches Ok(RoomTarget::Path(q)) && q@ == p,
        },
{
    if let Some(n) = numeric_rid_query(room_id) {
        return Ok(RoomTarget::Numeric(n));
    }
    let t = trim_str(room_id);
    if let Some(n) = parse_u64_exec(&t) {
        return Ok(RoomTarget::Numeric(n));
    }
    let p = before_either_exec(&t, '?', '#');
    let p = trim_end_char_exec(&p, '/');
    let path = after_last_char_exec(&p, '/');
    if path.len() == 0 {
        return Err(
            DouyuApiError::InvalidResponse {
                endpoint: String::from_str("roomResolve"),
                detail: String::from_str("room id/path is empty"),
            },
        );
    }
    if let Some(n) = parse_u64_exec(&path) {
        return Ok(RoomTarget::Numeric(n));
    }
    Ok(RoomTarget::Path(string_of(&path)))
}

/// The secret after `n` rounds of `md5(secret + key)` starting from `rand`.
pub open spec fn hashed_secret(rand: Seq<char>, key: Seq<char>, n: nat) -> Seq<char>
    decreases n,
{
    if n == 0 {
        rand
    } else {
        md5_hex_digest(hashed_secret(rand, key, (n - 1) as nat) + key)
    }
}

/// Douyu's H5 request signature: `rand_str + key` is hashed `enc_time`
/// times (at most 16), then `md5(secret + key + salt)` where the salt is
/// empty for special keys and `room_id` followed by `timestamp` otherwise.
pub open spec fn signature(data: DouyuEncryptionData, room_id: u64, timestamp: u64) -> Seq<char> {
    let rounds = if data.enc_time < MAX_ENCRYPTION_ITERATIONS {
        data.enc_time
    } else {
        MAX_ENCRYPTION_ITERATIONS
    };
    let secret = hashed_secret(data.rand_str@, data.key@, rounds as nat);
    let salt = if data.is_special {
        Seq::empty()
    } else {
        decimal(room_id as nat) + decimal(timestamp as nat)
    };
    md5_hex_digest(secret + data.key@ + salt)
}

pub fn md5_signature(data: &DouyuEncryptionData, room_id: u64, timestamp: u64) -> (r: String)
    ensures
        r@ == signature(*data, room_id, timestamp),
{
    let rounds = if data.enc_time < MAX_ENCRYPTION_ITERATIONS {
        data.enc_time
    } else {
        MAX_ENCRYPTION_ITERATIONS
    };
    let mut secret = data.rand_str.clone();
    let mut i: u32 = 0;
    while i < rounds
        invariant
            i <= rounds,
            secret@ == hashed_secret(data.rand_str@, data.key@, i as nat),
        decreases rounds - i,
    {
        let mut input = chars_of(secret.as_str());
        append_str(&mut input, data.key.as_str());
        secret = md5_hex(string_of(&input).as_str());
        i += 1;
    }
    let mut input = chars_of(secret.as_str());
    append_str(&mut input, data.key.as_str());
    if !data.is_special {
        push_decimal(&mut input, room_id);
        push_decimal(&mut input, timestamp);
    }
    proof {
        if data.is_special {
            assert(input@ =~= secret@ + data.key@ + Seq::<char>::empty());
        } else {
            assert(input@ =~= secret@ + data.key@ + (decimal(room_id as nat) + decimal(
                timestamp as nat,
            )));
        }
    }
    md5_hex(string_of(&input).as_str())
}

pub open spec fn pairs_view(v: Seq<(String, String)>) -> Seq<(Seq<char>, Seq<char>)> {
    v.map_values(|p: (String, String)| (p.0@, p.1@))
}

/// The form fields of a `getH5PlayV1/{rid}` request.
pub open spec fn play_form(
    data: DouyuEncryptionData,
    room_id: u64,
    timestamp: u64,
    cdn: Seq<char>,
    rate: u64,
) -> Seq<(Seq<char>, Seq<char>)> {
    seq![
        ("enc_data"@, data.enc_data@),
        ("tt"@, decimal(timestamp as nat)),
        ("did"@, DEFAULT_DID@),
        ("auth"@, signature(data, room_id, timestamp)),
        ("cdn"@, cdn),
        ("rate"@, decimal(rate as nat)),
        ("hevc"@, "0"@),
        ("fa"@, "0"@),
        ("ive"@, "0"@),
    ]
}

fn decimal_string(n: u64) -> (r: String)
    ensures
        r@ == decimal(n as nat),
{
    let mut v: Vec<char> = Vec::new();
    push_decimal(&mut v, n);
    assert(v@ =~= decimal(n as nat));
    string_of(&v)
}

pub fn build_play_form(
    data: &DouyuEncryptionData,
    room_id: u64,
    timestamp: u64,
    cdn: &str,
    rate: u64,
) -> (r: Vec<(String, String)>)
    ensures
        pairs_view(r@) == play_form(*data, room_id, timestamp, cdn@, rate),
{
    let mut r: Vec<(String, String)> = Vec::new();
    r.push((String::from_str("enc_data"), data.enc_data.clone()));
    r.push((String::from_str("tt"), decimal_string(timestamp)));
    r.push((String::from_str("did"), String::from_str(DEFAULT_DID)));
    r.push((String::from_str("auth"), md5_signature(data, room_id, timestamp)));
    r.push((String::from_str("cdn"), String::from_str(cdn)));
    r.push((String::from_str("rate"), decimal_string(rate)));
    r.push((String::from_str("hevc"), String::from_str("0")));
    r.push((String::from_str("fa"), String::from_str("0")));
    r.push((String::from_str("ive"), String::from_str("0")));
    assert(pairs_view(r@) =~= play_form(*data, room_id, timestamp, cdn@, rate));
    r
}

/// Whether `url` is an HTTP(S) URL whose path ends in `.flv`.
pub open spec fn is_flv_url(url: Seq<char>) -> bool {
    match parsed_url(url) {
        Ok(u) => flv_parts(u),
        Err(_) => false,
    }
}

/// Whether a parsed URL is HTTP(S) with a path that ends in `.flv`.
pub open spec fn flv_parts(u: UrlParts) -> bool {
    (u.scheme == "http"@ || u.scheme == "https"@) && ends_with(u.path, ".flv"@)
}

/// Whether a parsed URL is an FLV URL (see `flv_parts`).
pub fn is_flv_parsed_url(p: &ParsedUrl) -> (r: bool)
    ensures
        r == flv_parts(p@),
{
    let scheme = chars_of(p.scheme.as_str());
    let path = chars_of(p.path.as_str());
    (eq_str(&scheme, "http") || eq_str(&scheme, "https")) && ends_with_str(&path, ".flv")
}

/// The FLV URL of a play candidate, if it is one.
pub fn valid_flv_url(url: &Option<String>) -> (r: Option<String>)
    ensures
        match url {
            Some(u) => if is_flv_url(u@) {
                r matches Some(v) && v@ == u@
            } else {
                r is None
            },
            None => r is None,
        },
{
    let u = match url {
        Some(u) => u,
        None => return None,
    };
    match parse_url(u.as_str()) {
        Ok(p) => {
            if is_flv_parsed_url(&p) {
                Some(u.clone())
            } else {
                None
            }
        },
        Err(_) => None,
    }
}

/// The error for an API response that reported `code`: offline, an
/// authentication failure, or a plain API error.
pub fn classify_api_response(endpoint: &str, code: i32, message: &str) -> (r: DouyuApiError)
    ensures
        ({
            let detail = endpoint@ + " error "@ + signed_decimal(code as int) + ": "@ + message@;
            if crate::platforms::douyu::response::offline_error(code, message@) {
                r matches DouyuApiError::Offline { detail: d } && d@ == detail
            } else if crate::platforms::douyu::response::contains_any(
                crate::text::lower(message@),
                crate::platforms::douyu::response::auth_needles(),
            ) {
                r matches DouyuApiError::Authentication { detail: d } && d@ == detail
            } else {
                r matches DouyuApiError::Api { endpoint: e, code: c, message: m } && e@ == endpoint@
                    && c == code && m@ == message@
            }
        }),
{
    let mut detail = chars_of(endpoint);
    append_str(&mut detail, " error ");
    push_signed_decimal(&mut detail, code as i64);
    append_str(&mut detail, ": ");
    append_str(&mut detail, message);
    if crate::platforms::douyu::response::is_offline_error(code, message) {
        return DouyuApiError::Offline { detail: string_of(&detail) };
    }
    if crate::platforms::douyu::response::is_auth_failure_text(message) {
        return DouyuApiError::Authentication { detail: string_of(&detail) };
    }
    DouyuApiError::Api {
        endpoint: String::from_str(endpoint),
        code,
        message: String::from_str(message),
    }
}

impl DouyuApiError {
    /// The recorder error that reports this failure.
    pub fn into_recorder_error(self) -> (r: RecorderError)
        ensures
            match self {
                DouyuApiError::Offline { .. } => r == RecorderError::NotLive,
                DouyuApiError::Authentication { detail } => r matches RecorderError::ApiError {
                    error,
                } && error@ == "Douyu authentication failed: "@ + detail@,
                DouyuApiError::Api { endpoint, code, message } => r matches RecorderError::ApiError {
                    error,
                } && error@ == "Douyu "@ + endpoint@ + " error "@ + signed_decimal(code as int)
                    + ": "@ + message@,
                DouyuApiError::InvalidResponse { endpoint, detail } => r matches RecorderError::ApiError {
                    error,
                } && error@ == "Douyu "@ + endpoint@ + " invalid response: "@ + detail@,
            },
    {
        match self {
            DouyuApiError::Offline { .. } => RecorderError::NotLive,
            DouyuApiError::Authentication { detail } => {
                let mut e = chars_of("Douyu authentication failed: ");
                append_str(&mut e, detail.as_str());
                RecorderError::ApiError { error: string_of(&e) }
            },
            DouyuApiError::Api { endpoint, code, message } => {
                let mut e = chars_of("Douyu ");
                append_str(&mut e, endpoint.as_str());
                append_str(&mut e, " error ");
                push_signed_decimal(&mut e, code as i64);
                append_str(&mut e, ": ");
                append_str(&mut e, message.as_str());
                RecorderError::ApiError { error: string_of(&e) }
            },
            DouyuApiError::InvalidResponse { endpoint, detail } => {
                let mut e = chars_of("Douyu ");
                append_str(&mut e, endpoint.as_str());
                append_str(&mut e, " invalid response: ");
                append_str(&mut e, detail.as_str());
                RecorderError::ApiError { error: string_of(&e) }
            },
        }
    }
}

/// The current Unix time in seconds.
pub fn unix_timestamp() -> u64 {
    system_unix_seconds()
}


/// Each hashing round of the signature's secret feeds the previous round's
/// digest: after no round the secret is `rand` itself, and the secret after
/// `n + 1` rounds is the MD5 hex digest of the secret after `n` rounds
/// followed by `key` (so two rounds give `md5(md5(rand + key) + key)`).
pub proof fn secret_rounds_chain(rand: Seq<char>, key: Seq<char>, n: nat)
    ensures
        hashed_secret(rand, key, 0) == rand,
        hashed_secret(rand, key, n + 1) == md5_hex_digest(hashed_secret(rand, key, n) + key),
        hashed_secret(rand, key, 2) == md5_hex_digest(md5_hex_digest(rand + key) + key),
{
    assert(hashed_secret(rand, key, 1) == md5_hex_digest(hashed_secret(rand, key, 0) + key));
}

/// The salt of a signature: empty for a special key, else the room id
/// followed by the timestamp.
pub open spec fn signature_salt(data: DouyuEncryptionData, room_id: u64, timestamp: u64) -> Seq<char> {
    if data.is_special {
        Seq::empty()
    } else {
        decimal(room_id as nat) + decimal(timestamp as nat)
    }
}

/// The signature hashes the chained secret once more with the key and the
/// salt: with `enc_time` 0 it is `md5(rand + key + salt)`, with 1
/// `md5(md5(rand + key) + key + salt)`, with 2
/// `md5(md5(md5(rand + key) + key) + key + salt)`; and more than 16 rounds
/// are never run (any `enc_time` from 16 up signs as 16 does).
pub proof fn signature_chains_the_rounds(data: DouyuEncryptionData, room_id: u64, timestamp: u64)
    ensures
        ({
            let rand = data.rand_str@;
            let key = data.key@;
            let salt = signature_salt(data, room_id, timestamp);
            &&& data.enc_time == 0 ==> signature(data, room_id, timestamp) == md5_hex_digest(rand + key + salt)
            &&& data.enc_time == 1 ==> signature(data, room_id, timestamp) == md5_hex_digest(
                md5_hex_digest(rand + key) + key + salt,
            )
            &&& data.enc_time == 2 ==> signature(data, room_id, timestamp) == md5_hex_digest(
                md5_hex_digest(md5_hex_digest(rand + key) + key) + key + salt,
            )
            &&& data.enc_time >= 16 ==> signature(data, room_id, timestamp) == signature(
                DouyuEncryptionData { enc_time: 16, ..data },
                room_id,
                timestamp,
            )
        }),
{
    secret_rounds_chain(data.rand_str@, data.key@, 1);
    assert(hashed_secret(data.rand_str@, data.key@, 1) == md5_hex_digest(data.rand_str@ + data.key@));
}

} // verus!
