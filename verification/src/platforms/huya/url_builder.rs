//! Huya CDN anticode generation.
//!
//! Huya stream URLs carry a signed query whose `wsSecret` is an MD5 computed
//! from the `fm` template shipped inside the anticode itself:
//!
//! `wsSecret = md5("{fm_salt}_{u}_{stream_name}_{md5("{seqid}|{ctype}|{t}")}_{wsTime}")`
use vstd::prelude::*;

use crate::outside::{
    base64_decode, base64_decoded, form_decoded, form_pairs, md5_hex, md5_hex_digest, opt_view,
    percent_decode, percent_decoded, random_u32_in, system_unix_millis, utf8_error_text,
    utf8_string,
};
use crate::text::{append_chars, append_str, before_char, before_char_exec, chars_of, decimal, push_decimal, string_of};
use vstd::string::StringExecFns;
use vstd::utf8::{decode_utf8, valid_utf8};

verus! {

/// Lower bound of the anonymous viewer identities used by the web player.
const UID_LOW: u32 = 12340000;

/// Upper bound (exclusive) of the anonymous viewer identities.
const UID_HIGH: u32 = 12349999;

/// Builds signed anticode queries.
pub struct UrlBuilder;

/// The value of the last pair named `key`: the one a map collected from the
/// pairs keeps.
pub open spec fn last_value(pairs: Seq<(Seq<char>, Seq<char>)>, key: Seq<char>) -> Option<Seq<char>>
    decreases pairs.len(),
{
    if pairs.len() == 0 {
        None
    } else if pairs.last().0 == key {
        Some(pairs.last().1)
    } else {
        last_value(pairs.drop_last(), key)
    }
}

/// `uid.rotate_left(8)` on 32 bits.
pub open spec fn rotated_uid(uid: u32) -> nat {
    ((uid as nat % 0x100_0000) * 256 + uid as nat / 0x100_0000) as nat
}

/// The signed query, from its computed parts.
pub open spec fn anticode_query(
    ws_secret: Seq<char>,
    ws_time: Seq<char>,
    ctype: Seq<char>,
    fs: Seq<char>,
    seq_id: nat,
    u: nat,
    now_ms: nat,
) -> Seq<char> {
    "wsSecret="@ + ws_secret + "&wsTime="@ + ws_time + "&ctype="@ + ctype + "&fs="@ + fs
        + "&seqid="@ + decimal(seq_id) + "&u="@ + decimal(u) + "&sdk_sid="@ + decimal(now_ms)
        + "&ratio=0&t=100&ver=1&sv=2401090219&codec=264"@
}

/// The salt-independent hash: `md5("{seqid}|{ctype}|100")`.
pub open spec fn seq_hash(seq_id: nat, ctype: Seq<char>) -> Seq<char> {
    md5_hex_digest(decimal(seq_id) + "|"@ + ctype + "|100"@)
}

/// The secret: `md5("{salt}_{u}_{stream_name}_{hash}_{wsTime}")`.
pub open spec fn ws_secret(
    salt: Seq<char>,
    u: nat,
    stream_name: Seq<char>,
    hash: Seq<char>,
    ws_time: Seq<char>,
) -> Seq<char> {
    md5_hex_digest(salt + "_"@ + decimal(u) + "_"@ + stream_name + "_"@ + hash + "_"@ + ws_time)
}

/// The signed query for `anti_code` and `stream_name` at `now_ms` for viewer
/// `uid`, or the error text: `fm` and `wsTime` must be present (the last
/// pair of each name counts), `ctype` defaults to `huya_live` and `fs` to
/// `bgct`, and `fm` must percent-decode, then base64-decode, to UTF-8 text,
/// whose part before the first `_` is the salt.
pub open spec fn signed_anticode(
    anti_code: Seq<char>,
    stream_name: Seq<char>,
    now_ms: u64,
    uid: u32,
) -> Result<Seq<char>, Seq<char>> {
    let pairs = form_decoded(anti_code);
    match last_value(pairs, "fm"@) {
        None => Err("anticode is missing `fm`"@),
        Some(fm) => match last_value(pairs, "wsTime"@) {
            None => Err("anticode is missing `wsTime`"@),
            Some(ws_time) => {
                let ctype = match last_value(pairs, "ctype"@) {
                    Some(c) => c,
                    None => "huya_live"@,
                };
                let fs = match last_value(pairs, "fs"@) {
                    Some(f) => f,
                    None => "bgct"@,
                };
                match percent_decoded(fm) {
                    Err(e) => Err("invalid `fm` encoding: "@ + e),
                    Ok(text) => match base64_decoded(text) {
                        Err(e) => Err("invalid `fm` base64: "@ + e),
                        Ok(bytes) => if !valid_utf8(bytes) {
                            Err("invalid `fm` utf8: "@ + utf8_error_text(bytes))
                        } else {
                            let salt = before_char(decode_utf8(bytes), '_');
                            let u = rotated_uid(uid);
                            let seq_id = uid + now_ms;
                            let hash = seq_hash(seq_id as nat, ctype);
                            Ok(
                                anticode_query(
                                    ws_secret(salt, u, stream_name, hash, ws_time),
                                    ws_time,
                                    ctype,
                                    fs,
                                    seq_id as nat,
                                    u,
                                    now_ms as nat,
                                ),
                            )
                        },
                    },
                }
            },
        },
    }
}

/// The value of the last pair of `pairs` named `key`.
fn last_pair_value(pairs: &Vec<(String, String)>, key: &str) -> (r: Option<String>)
    ensures
        opt_view(r) == last_value(pairs@.map_values(|p: (String, String)| (p.0@, p.1@)), key@),
{
    let ghost views = pairs@.map_values(|p: (String, String)| (p.0@, p.1@));
    let k = String::from_str(key);
    let mut i: usize = pairs.len();
    assert(views.take(i as int) =~= views);
    while i > 0
        invariant
            i <= pairs.len(),
            k@ == key@,
            views == pairs@.map_values(|p: (String, String)| (p.0@, p.1@)),
            last_value(views, key@) == last_value(views.take(i as int), key@),
        decreases i,
    {
        let ghost prefix = views.take(i as int);
        assert(prefix.drop_last() =~= views.take(i - 1));
        assert(prefix.last() == views[i - 1]);
        if pairs[i - 1].0 == k {
            return Some(pairs[i - 1].1.clone());
        }
        i -= 1;
    }
    assert(views.take(0) =~= Seq::<(Seq<char>, Seq<char>)>::empty());
    None
}

/// A string made of `prefix` followed by `detail`.
fn prefixed(prefix: &str, detail: &String) -> (r: String)
    ensures
        r@ == prefix@ + detail@,
{
    let mut r = String::from_str(prefix);
    r.append(detail.as_str());
    r
}

impl UrlBuilder {
    /// Recomputes the signed anticode query for `stream_name` at the current
    /// time, for a random anonymous viewer (see `build_anticode_with`).
    pub fn build_anticode(anti_code: &str, stream_name: &str) -> (r: Result<String, String>)
        ensures
            r matches Err(e) ==> exists|now_ms: u64, uid: u32|
                signed_anticode(anti_code@, stream_name@, now_ms, uid) == Err::<Seq<char>, Seq<char>>(e@),
            r matches Ok(q) ==> exists|now_ms: u64, uid: u32|
                signed_anticode(anti_code@, stream_name@, now_ms, uid) == Ok::<Seq<char>, Seq<char>>(q@),
    {
        let mut now_ms = system_unix_millis();
        let uid = random_u32_in(UID_LOW, UID_HIGH);
        if now_ms > u64::MAX - UID_HIGH as u64 {
            now_ms = u64::MAX - UID_HIGH as u64;
        }
        Self::build_anticode_with(anti_code, stream_name, now_ms, uid)
    }

    /// The signed anticode query for `anti_code` and `stream_name` at
    /// `now_ms` (milliseconds since the epoch) for viewer `uid`; the error
    /// text when the signature inputs are missing or `fm` does not decode.
    pub fn build_anticode_with(
        anti_code: &str,
        stream_name: &str,
        now_ms: u64,
        uid: u32,
    ) -> (r: Result<String, String>)
        requires
            now_ms + uid <= u64::MAX,
        ensures
            match r {
                Ok(q) => signed_anticode(anti_code@, stream_name@, now_ms, uid) == Ok::<
                    Seq<char>,
                    Seq<char>,
                >(q@),
                Err(e) => signed_anticode(anti_code@, stream_name@, now_ms, uid) == Err::<
                    Seq<char>,
                    Seq<char>,
                >(e@),
            },
    {
        let pairs = form_pairs(anti_code);
        let fm = match last_pair_value(&pairs, "fm") {
            Some(v) => v,
            None => {
                return Err(String::from_str("anticode is missing `fm`"));
            },
        };
        let ws_time = match last_pair_value(&pairs, "wsTime") {
            Some(v) => v,
            None => {
                return Err(String::from_str("anticode is missing `wsTime`"));
            },
        };
        let ctype = match last_pair_value(&pairs, "ctype") {
            Some(v) => v,
            None => String::from_str("huya_live"),
        };
        let fs = match last_pair_value(&pairs, "fs") {
            Some(v) => v,
            None => String::from_str("bgct"),
        };
        let text = match percent_decode(fm.as_str()) {
            Ok(t) => t,
            Err(e) => {
                return Err(prefixed("invalid `fm` encoding: ", &e));
            },
        };
        let bytes = match base64_decode(text.as_str()) {
            Ok(b) => b,
            Err(e) => {
                return Err(prefixed("invalid `fm` base64: ", &e));
            },
        };
        let decoded = match utf8_string(bytes) {
            Ok(s) => s,
            Err(e) => {
                return Err(prefixed("invalid `fm` utf8: ", &e));
            },
        };
        let salt = before_char_exec(&chars_of(decoded.as_str()), '_');
        let converted_uid: u64 = (uid % 0x100_0000) as u64 * 256 + (uid / 0x100_0000) as u64;
        let seq_id: u64 = uid as u64 + now_ms;

        let mut hash_input: Vec<char> = Vec::new();
        push_decimal(&mut hash_input, seq_id);
        append_str(&mut hash_input, "|");
        append_str(&mut hash_input, ctype.as_str());
        append_str(&mut hash_input, "|100");
        let hash = md5_hex(string_of(&hash_input).as_str());

        let mut secret_input: Vec<char> = Vec::new();
        append_chars(&mut secret_input, &salt);
        append_str(&mut secret_input, "_");
        push_decimal(&mut secret_input, converted_uid);
        append_str(&mut secret_input, "_");
        append_str(&mut secret_input, stream_name);
        append_str(&mut secret_input, "_");
        append_str(&mut secret_input, hash.as_str());
        append_str(&mut secret_input, "_");
        append_str(&mut secret_input, ws_time.as_str());
        let secret = md5_hex(string_of(&secret_input).as_str());

        let mut out: Vec<char> = Vec::new();
        append_str(&mut out, "wsSecret=");
        append_str(&mut out, secret.as_str());
        append_str(&mut out, "&wsTime=");
        append_str(&mut out, ws_time.as_str());
        append_str(&mut out, "&ctype=");
        append_str(&mut out, ctype.as_str());
        append_str(&mut out, "&fs=");
        append_str(&mut out, fs.as_str());
        append_str(&mut out, "&seqid=");
        push_decimal(&mut out, seq_id);
        append_str(&mut out, "&u=");
        push_decimal(&mut out, converted_uid);
        append_str(&mut out, "&sdk_sid=");
        push_decimal(&mut out, now_ms);
        append_str(&mut out, "&ratio=0&t=100&ver=1&sv=2401090219&codec=264");
        proof {
            assert(converted_uid == rotated_uid(uid));
            assert(hash_input@ == decimal(seq_id as nat) + "|"@ + ctype@ + "|100"@);
            assert(secret_input@ == salt@ + "_"@ + decimal(converted_uid as nat) + "_"@
                + stream_name@ + "_"@ + hash@ + "_"@ + ws_time@);
        }
        Ok(string_of(&out))
    }
}


/// A query whose `fs` field, between `&fs=` and `&seqid=`, is `fs`.
pub open spec fn field_split(head: Seq<char>, fs: Seq<char>, tail: Seq<char>) -> Seq<char> {
    head + "&fs="@ + fs + "&seqid="@ + tail
}

/// The `fs` an anticode asks for: the value of its last `fs` pair, `bgct`
/// when it has none.
pub open spec fn anticode_fs(anti_code: Seq<char>) -> Seq<char> {
    match last_value(form_decoded(anti_code), "fs"@) {
        Some(f) => f,
        None => "bgct"@,
    }
}

/// The signed query carries the anticode's `fs`: when the anticode has an
/// `fs` pair, the query's `fs` field (between `&fs=` and `&seqid=`) is the
/// value of the last such pair; only without one is it `bgct`.
pub proof fn signed_query_keeps_the_anticode_fs(anti_code: Seq<char>, stream_name: Seq<char>, now_ms: u64, uid: u32)
    requires
        signed_anticode(anti_code, stream_name, now_ms, uid) is Ok,
    ensures
        signed_anticode(anti_code, stream_name, now_ms, uid) matches Ok(q) ==> exists|head: Seq<char>, tail: Seq<char>|
            #[trigger] field_split(head, anticode_fs(anti_code), tail) == q,
{
    let pairs = form_decoded(anti_code);
    let q = signed_anticode(anti_code, stream_name, now_ms, uid)->Ok_0;
    let fm = last_value(pairs, "fm"@)->0;
    let ws_time = last_value(pairs, "wsTime"@)->0;
    let ctype = match last_value(pairs, "ctype"@) {
        Some(c) => c,
        None => "huya_live"@,
    };
    let fs = match last_value(pairs, "fs"@) {
        Some(f) => f,
        None => "bgct"@,
    };
    let text = percent_decoded(fm)->Ok_0;
    let bytes = base64_decoded(text)->Ok_0;
    let salt = before_char(decode_utf8(bytes), '_');
    let u = rotated_uid(uid);
    let seq_id = uid + now_ms;
    let hash = seq_hash(seq_id as nat, ctype);
    let head = "wsSecret="@ + ws_secret(salt, u, stream_name, hash, ws_time) + "&wsTime="@ + ws_time + "&ctype="@
        + ctype;
    let tail = decimal(seq_id as nat) + "&u="@ + decimal(u) + "&sdk_sid="@ + decimal(now_ms as nat)
        + "&ratio=0&t=100&ver=1&sv=2401090219&codec=264"@;
    assert(fs == anticode_fs(anti_code));
    assert(q =~= field_split(head, anticode_fs(anti_code), tail));
}

} // verus!
