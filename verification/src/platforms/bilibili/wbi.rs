//! Bilibili: WBI request signing.
use vstd::prelude::*;

use crate::json::{at, Json};
use crate::outside::{capture, md5_hex, md5_hex_digest, pct_encode, regex_capture, uri_encoded, utf8_string};
use crate::platforms::douyin::stream_info::{chars_less, chars_lt};
use crate::sorting::{insert_by, lemma_insert_by_at, sort_by};
use crate::text::{append_str, chars_of, decimal, join_exec, join_with, push_decimal, string_of, vecs_view};
use vstd::string::StringExecFns;
use vstd::utf8::{decode_utf8, encode_utf8, valid_utf8};

verus! {

/// The order in which the mixin key picks bytes of the two image keys.
pub open spec fn mixin_table() -> Seq<int> {
    seq![
        46, 47, 18, 2, 53, 8, 23, 32, 15, 50, 10, 31, 58, 3, 45, 35, 27, 43, 5, 49, 33, 9, 42, 19, 29,
        28, 14, 39, 12, 38, 41, 13, 37, 48, 7, 16, 24, 55, 40, 61, 26, 17, 0, 1, 60, 51, 30, 4, 22, 25,
        54, 21, 56, 59, 6, 63, 57, 62, 11, 36, 20, 34, 44, 52,
    ]
}

/// The bytes of `raw` at the first `n` positions of the table, skipping
/// positions past its end.
pub open spec fn mixed_bytes(raw: Seq<u8>, n: int) -> Seq<u8>
    decreases n,
{
    if n <= 0 {
        Seq::empty()
    } else {
        let pre = mixed_bytes(raw, n - 1);
        let p = mixin_table()[n - 1];
        if p < raw.len() {
            pre.push(raw[p])
        } else {
            pre
        }
    }
}

/// The first 32 mixed bytes of the UTF-8 bytes of the two keys, joined.
pub open spec fn mixin_key_bytes(img: Seq<char>, sub: Seq<char>) -> Seq<u8> {
    mixed_bytes(encode_utf8(img + sub), 64).take(32)
}

/// Whether two keys give a mixin key: at least 32 mixed bytes, whose first
/// 32 are UTF-8.
pub open spec fn mixin_usable(img: Seq<char>, sub: Seq<char>) -> bool {
    mixed_bytes(encode_utf8(img + sub), 64).len() >= 32 && valid_utf8(mixin_key_bytes(img, sub))
}

/// The mixin key of two image keys (see `mixin_key_bytes`).
pub fn mixin_key(img: &str, sub: &str) -> (r: String)
    requires
        mixin_usable(img@, sub@),
    ensures
        r@ == decode_utf8(mixin_key_bytes(img@, sub@)),
{
    let mut raw = String::from_str(img);
    raw.append(sub);
    let bytes = raw.as_str().as_bytes();
    let ghost rb = encode_utf8(img@ + sub@);
    assert(bytes@ == rb);
    let table: Vec<usize> = vec![
        46, 47, 18, 2, 53, 8, 23, 32, 15, 50, 10, 31, 58, 3, 45, 35, 27, 43, 5, 49, 33, 9, 42, 19, 29,
        28, 14, 39, 12, 38, 41, 13, 37, 48, 7, 16, 24, 55, 40, 61, 26, 17, 0, 1, 60, 51, 30, 4, 22, 25,
        54, 21, 56, 59, 6, 63, 57, 62, 11, 36, 20, 34, 44, 52,
    ];
    assert(forall|i: int| 0 <= i < 64 ==> table@[i] as int == #[trigger] mixin_table()[i]);
    let mut mixed: Vec<u8> = Vec::new();
    let mut i: usize = 0;
    while i < table.len()
        invariant
            i <= table.len(),
            table.len() == 64,
            bytes@ == rb,
            forall|k: int| 0 <= k < 64 ==> table@[k] as int == #[trigger] mixin_table()[k],
            mixed@ == mixed_bytes(rb, i as int),
        decreases table.len() - i,
    {
        assert(table@[i as int] as int == mixin_table()[i as int]);
        if table[i] < bytes.len() {
            mixed.push(bytes[table[i]]);
        }
        i += 1;
    }
    let mut key: Vec<u8> = Vec::new();
    let mut j: usize = 0;
    while j < 32
        invariant
            j <= 32,
            mixed@ == mixed_bytes(rb, 64),
            mixed@.len() >= 32,
            key@ == mixed@.take(j as int),
        decreases 32 - j,
    {
        key.push(mixed[j]);
        assert(key@ =~= mixed@.take(j + 1));
        j += 1;
    }
    match utf8_string(key) {
        Ok(s) => s,
        Err(_) => {
            assert(false);
            String::new()
        },
    }
}

/// The pattern of an image key in the URL of a WBI image.
pub const WBI_KEY_PATTERN: &'static str = "wbi/(.*).png";

/// The mixin key that a navigation answer's WBI images give: the keys of
/// `data.wbi_img.img_url` and `data.wbi_img.sub_url`. Where either URL or
/// key is missing, or the keys give no mixin key (see `mixin_usable`),
/// signing cannot proceed and there is none.
pub open spec fn nav_mixin_key(nav: Json) -> Option<Seq<char>> {
    let wbi = at(nav.lookup("data"@), "wbi_img"@);
    match (at(wbi, "img_url"@), at(wbi, "sub_url"@)) {
        (Some(i), Some(s)) => match (i.str_value(), s.str_value()) {
            (Some(iu), Some(su)) => match (regex_capture(WBI_KEY_PATTERN@, iu, 1), regex_capture(WBI_KEY_PATTERN@, su, 1)) {
                (Some(ik), Some(sk)) => if mixin_usable(ik, sk) {
                    Some(decode_utf8(mixin_key_bytes(ik, sk)))
                } else {
                    None
                },
                _ => None,
            },
            _ => None,
        },
        _ => None,
    }
}

pub fn wbi_mixin_key(nav: &Json) -> (r: Option<String>)
    ensures
        crate::outside::opt_view(r) == nav_mixin_key(*nav),
{
    let wbi = crate::json::get_at(nav.get("data"), "wbi_img");
    let img_url = match crate::json::get_at(wbi, "img_url") {
        Some(v) => match v.as_str() {
            Some(t) => t,
            None => {
                return None;
            },
        },
        None => {
            return None;
        },
    };
    let sub_url = match crate::json::get_at(wbi, "sub_url") {
        Some(v) => match v.as_str() {
            Some(t) => t,
            None => {
                return None;
            },
        },
        None => {
            return None;
        },
    };
    let img = match capture(WBI_KEY_PATTERN, img_url.as_str(), 1) {
        Some(k) => k,
        None => {
            return None;
        },
    };
    let sub = match capture(WBI_KEY_PATTERN, sub_url.as_str(), 1) {
        Some(k) => k,
        None => {
            return None;
        },
    };
    if !mixin_usable_exec(img.as_str(), sub.as_str()) {
        return None;
    }
    Some(mixin_key(img.as_str(), sub.as_str()))
}

fn mixin_usable_exec(img: &str, sub: &str) -> (b: bool)
    ensures
        b == mixin_usable(img@, sub@),
{
    let mut raw = String::from_str(img);
    raw.append(sub);
    let bytes = raw.as_str().as_bytes();
    let ghost rb = encode_utf8(img@ + sub@);
    let table: Vec<usize> = vec![
        46, 47, 18, 2, 53, 8, 23, 32, 15, 50, 10, 31, 58, 3, 45, 35, 27, 43, 5, 49, 33, 9, 42, 19, 29,
        28, 14, 39, 12, 38, 41, 13, 37, 48, 7, 16, 24, 55, 40, 61, 26, 17, 0, 1, 60, 51, 30, 4, 22, 25,
        54, 21, 56, 59, 6, 63, 57, 62, 11, 36, 20, 34, 44, 52,
    ];
    assert(forall|i: int| 0 <= i < 64 ==> table@[i] as int == #[trigger] mixin_table()[i]);
    let mut mixed: Vec<u8> = Vec::new();
    let mut i: usize = 0;
    while i < table.len()
        invariant
            i <= table.len(),
            table.len() == 64,
            bytes@ == rb,
            forall|k: int| 0 <= k < 64 ==> table@[k] as int == #[trigger] mixin_table()[k],
            mixed@ == mixed_bytes(rb, i as int),
        decreases table.len() - i,
    {
        assert(table@[i as int] as int == mixin_table()[i as int]);
        if table[i] < bytes.len() {
            mixed.push(bytes[table[i]]);
        }
        i += 1;
    }
    if mixed.len() < 32 {
        return false;
    }
    let mut key: Vec<u8> = Vec::new();
    let mut j: usize = 0;
    while j < 32
        invariant
            j <= 32,
            mixed@.len() >= 32,
            key@ == mixed@.take(j as int),
        decreases 32 - j,
    {
        key.push(mixed[j]);
        assert(key@ =~= mixed@.take(j + 1));
        j += 1;
    }
    utf8_string(key).is_ok()
}

// ---------------------------------------------------------------------------
// Signing a query
// ---------------------------------------------------------------------------

/// Whether no two parameters share a name.
pub open spec fn names_distinct(ps: Seq<(Seq<char>, Seq<char>)>) -> bool {
    forall|i: int, j: int| 0 <= i < j < ps.len() ==> (#[trigger] ps[i]).0 != (#[trigger] ps[j]).0
}

pub open spec fn params_view(ps: Seq<(String, String)>) -> Seq<(Seq<char>, Seq<char>)> {
    ps.map_values(|p: (String, String)| (p.0@, p.1@))
}

/// The parameters with `name` set to `value`: in place when a parameter has
/// that name, else added at the end.
pub open spec fn with_param(ps: Seq<(Seq<char>, Seq<char>)>, name: Seq<char>, value: Seq<char>) -> Seq<
    (Seq<char>, Seq<char>),
> {
    if exists|i: int| 0 <= i < ps.len() && (#[trigger] ps[i]).0 == name {
        let i = choose|i: int| 0 <= i < ps.len() && (#[trigger] ps[i]).0 == name;
        ps.update(i, (name, value))
    } else {
        ps.push((name, value))
    }
}

/// Parameters ordered by name.
pub open spec fn by_name() -> spec_fn((Seq<char>, Seq<char>), (Seq<char>, Seq<char>)) -> bool {
    |a: (Seq<char>, Seq<char>), b: (Seq<char>, Seq<char>)| chars_lt(a.0, b.0)
}

/// A value without the characters `!`, `'`, `(`, `)` and `*`.
pub open spec fn without_marks(v: Seq<char>) -> Seq<char>
    decreases v.len(),
{
    if v.len() == 0 {
        v
    } else {
        let pre = without_marks(v.drop_last());
        let c = v.last();
        if c == '!' || c == '\'' || c == '(' || c == ')' || c == '*' {
            pre
        } else {
            pre.push(c)
        }
    }
}

/// One `name=value` pair of a signed query.
pub open spec fn query_pair(p: (Seq<char>, Seq<char>)) -> Seq<char> {
    p.0 + seq!['='] + uri_encoded(without_marks(p.1))
}

/// The query the parameters sign to, with `wts` set to the time: the pairs
/// ordered by name and joined by `&`, then `&w_rid=` and the MD5 digest of
/// that query followed by the mixin key.
pub open spec fn signed_query(ps: Seq<(Seq<char>, Seq<char>)>, mixin: Seq<char>, wts: u64) -> Seq<char> {
    let sorted = sort_by(with_param(ps, "wts"@, decimal(wts as nat)), by_name());
    let q = join_with(sorted.map_values(|p: (Seq<char>, Seq<char>)| query_pair(p)), "&"@);
    q + "&w_rid="@ + md5_hex_digest(q + mixin)
}

fn without_marks_exec(v: &str) -> (r: Vec<char>)
    ensures
        r@ == without_marks(v@),
{
    let cs = chars_of(v);
    let mut r: Vec<char> = Vec::new();
    let mut i: usize = 0;
    while i < cs.len()
        invariant
            i <= cs.len(),
            cs@ == v@,
            r@ == without_marks(v@.take(i as int)),
        decreases cs.len() - i,
    {
        assert(v@.take(i + 1).drop_last() =~= v@.take(i as int));
        let c = cs[i];
        if !(c == '!' || c == '\'' || c == '(' || c == ')' || c == '*') {
            r.push(c);
        }
        i += 1;
    }
    assert(v@.take(cs.len() as int) =~= v@);
    r
}

fn insert_param(out: &mut Vec<(String, String)>, x: (String, String))
    ensures
        params_view(final(out)@) == insert_by(params_view(old(out)@), (x.0@, x.1@), by_name()),
{
    let ghost sv = params_view(out@);
    let xk = chars_of(x.0.as_str());
    let mut j: usize = out.len();
    while j > 0 && chars_less(&xk, &chars_of(out[j - 1].0.as_str()))
        invariant
            j <= out.len(),
            out@ == old(out)@,
            sv == params_view(out@),
            xk@ == x.0@,
            forall|k: int| j <= k < out.len() ==> (by_name())((x.0@, x.1@), #[trigger] sv[k]),
        decreases j,
    {
        assert(sv[j - 1] == (out@[j - 1].0@, out@[j - 1].1@));
        j -= 1;
    }
    proof {
        if j > 0 {
            assert(sv[j - 1] == (out@[j - 1].0@, out@[j - 1].1@));
        }
        lemma_insert_by_at(sv, (x.0@, x.1@), by_name(), j as int);
    }
    let ghost xv = (x.0@, x.1@);
    out.insert(j, x);
    assert(params_view(out@) =~= sv.insert(j as int, xv));
}

/// The signed query of a request's parameters (see `signed_query`); the
/// parameters must have distinct names, as the members of a JSON object do.
pub fn wbi_signed_query(params: &Vec<(String, String)>, mixin: &str, wts: u64) -> (r: String)
    requires
        names_distinct(params_view(params@)),
    ensures
        r@ == signed_query(params_view(params@), mixin@, wts),
{
    let ghost pv = params_view(params@);
    let mut wts_text: Vec<char> = Vec::new();
    push_decimal(&mut wts_text, wts);
    assert(wts_text@ =~= decimal(wts as nat));
    // the parameters with `wts` set
    let mut all: Vec<(String, String)> = Vec::new();
    let mut found = false;
    let mut i: usize = 0;
    while i < params.len()
        invariant
            i <= params.len(),
            pv == params_view(params@),
            names_distinct(pv),
            wts_text@ == decimal(wts as nat),
            all@.len() == i,
            found <==> exists|k: int| 0 <= k < i && (#[trigger] pv[k]).0 == "wts"@,
            forall|k: int| 0 <= k < i ==> (#[trigger] params_view(all@)[k]) == (if pv[k].0 == "wts"@ {
                ("wts"@, decimal(wts as nat))
            } else {
                pv[k]
            }),
        decreases params.len() - i,
    {
        assert(pv[i as int] == (params@[i as int].0@, params@[i as int].1@));
        let is_wts = crate::text::eq_str(&chars_of(params[i].0.as_str()), "wts");
        let ghost before = params_view(all@);
        if is_wts {
            all.push((String::from_str("wts"), string_of(&wts_text)));
            found = true;
        } else {
            all.push((params[i].0.clone(), params[i].1.clone()));
        }
        assert(params_view(all@) =~= before.push(params_view(all@)[i as int]));
        i += 1;
    }
    let ghost with = with_param(pv, "wts"@, decimal(wts as nat));
    if !found {
        let ghost before = params_view(all@);
        assert(before =~= pv);
        all.push((String::from_str("wts"), string_of(&wts_text)));
        assert(!exists|k: int| 0 <= k < pv.len() && (#[trigger] pv[k]).0 == "wts"@);
        assert(params_view(all@) =~= before.push(("wts"@, decimal(wts as nat))));
        assert(params_view(all@) =~= with);
    } else {
        proof {
            let k = choose|k: int| 0 <= k < pv.len() && (#[trigger] pv[k]).0 == "wts"@;
            assert forall|m: int| 0 <= m < pv.len() && m != k implies (#[trigger] pv[m]).0 != "wts"@ by {
                if m < k {
                    assert(pv[m].0 != pv[k].0);
                } else {
                    assert(pv[k].0 != pv[m].0);
                }
            }
            assert(params_view(all@) =~= with);
        }
    }
    // ordered by name
    let mut sorted: Vec<(String, String)> = Vec::new();
    let mut n: usize = 0;
    assert(params_view(sorted@) =~= sort_by(with.take(0), by_name()));
    while n < all.len()
        invariant
            n <= all.len(),
            with == params_view(all@),
            params_view(sorted@) == sort_by(with.take(n as int), by_name()),
        decreases all.len() - n,
    {
        assert(with.take(n + 1).drop_last() =~= with.take(n as int));
        assert(with.take(n + 1).last() == (all@[n as int].0@, all@[n as int].1@));
        insert_param(&mut sorted, (all[n].0.clone(), all[n].1.clone()));
        n += 1;
    }
    assert(with.take(all.len() as int) =~= with);
    let ghost sv = params_view(sorted@);
    // the pairs
    let mut pairs: Vec<Vec<char>> = Vec::new();
    let mut p: usize = 0;
    while p < sorted.len()
        invariant
            p <= sorted.len(),
            sv == params_view(sorted@),
            vecs_view(pairs@) == sv.take(p as int).map_values(|q: (Seq<char>, Seq<char>)| query_pair(q)),
        decreases sorted.len() - p,
    {
        let mut pair = chars_of(sorted[p].0.as_str());
        pair.push('=');
        let value = pct_encode(string_of(&without_marks_exec(sorted[p].1.as_str())).as_str());
        append_str(&mut pair, value.as_str());
        assert(sv[p as int] == (sorted@[p as int].0@, sorted@[p as int].1@));
        assert(pair@ =~= query_pair(sv[p as int]));
        let ghost before = vecs_view(pairs@);
        pairs.push(pair);
        assert(vecs_view(pairs@) =~= before.push(query_pair(sv[p as int])));
        assert(sv.take(p + 1).map_values(|q: (Seq<char>, Seq<char>)| query_pair(q)) =~= sv.take(p as int).map_values(
            |q: (Seq<char>, Seq<char>)| query_pair(q),
        ).push(query_pair(sv[p as int])));
        p += 1;
    }
    assert(sv.take(sorted.len() as int) =~= sv);
    let q = join_exec(&pairs, "&");
    let mut signed_input = q.clone();
    append_str(&mut signed_input, mixin);
    let rid = md5_hex(string_of(&signed_input).as_str());
    let mut out = q;
    append_str(&mut out, "&w_rid=");
    append_str(&mut out, rid.as_str());
    string_of(&out)
}


/// Signs request parameters now: with the mixin key of the navigation
/// answer and the current Unix time (seconds) as `wts`; nothing where the
/// answer gives no mixin key.
pub fn get_sign(nav: &Json, parameters: &Vec<(String, String)>) -> (r: Option<String>)
    requires
        names_distinct(params_view(parameters@)),
    ensures
        r is Some <==> nav_mixin_key(*nav) is Some,
        r matches Some(q) ==> exists|wts: u64|
            q@ == signed_query(params_view(parameters@), nav_mixin_key(*nav)->0, wts),
{
    let mixin = match wbi_mixin_key(nav) {
        Some(m) => m,
        None => {
            return None;
        },
    };
    let wts = crate::outside::system_unix_seconds();
    let q = wbi_signed_query(parameters, mixin.as_str(), wts);
    assert(q@ == signed_query(params_view(parameters@), nav_mixin_key(*nav)->0, wts));
    Some(q)
}

/// The parameters of the space API's user query.
pub open spec fn user_info_parameters_of(user_id: Seq<char>) -> Seq<(Seq<char>, Seq<char>)> {
    seq![
        ("mid"@, user_id),
        ("platform"@, "web"@),
        ("web_location"@, "1550101"@),
        ("token"@, Seq::empty()),
        ("w_webid"@, Seq::empty()),
    ]
}

pub fn user_info_parameters(user_id: &str) -> (r: Vec<(String, String)>)
    ensures
        params_view(r@) == user_info_parameters_of(user_id@),
        names_distinct(params_view(r@)),
{
    let r = vec![
        (String::from_str("mid"), String::from_str(user_id)),
        (String::from_str("platform"), String::from_str("web")),
        (String::from_str("web_location"), String::from_str("1550101")),
        (String::from_str("token"), String::new()),
        (String::from_str("w_webid"), String::new()),
    ];
    assert(params_view(r@) =~= user_info_parameters_of(user_id@));
    proof {
        reveal_strlit("mid");
        reveal_strlit("platform");
        reveal_strlit("web_location");
        reveal_strlit("token");
        reveal_strlit("w_webid");
        let v = params_view(r@);
        assert forall|i: int, j: int| 0 <= i < j < v.len() implies (#[trigger] v[i]).0 != (#[trigger] v[j]).0 by {
            assert(v[i].0.len() != v[j].0.len() || v[i].0[0] != v[j].0[0]);
        }
    }
    r
}

/// The space API address for a signed user query.
pub fn user_info_url(signed: &str) -> (r: String)
    ensures
        r@ == "https://api.bilibili.com/x/space/wbi/acc/info?"@ + signed@,
{
    let mut v = chars_of("https://api.bilibili.com/x/space/wbi/acc/info?");
    append_str(&mut v, signed);
    string_of(&v)
}

} // verus!
