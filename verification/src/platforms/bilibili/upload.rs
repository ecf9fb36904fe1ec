//! Bilibili video upload: the URLs of the upload steps, how a file is cut in
//! chunks, and when a chunk is retried.
use vstd::prelude::*;

use crate::errors::RecorderError;
use crate::text::{append_chars, append_str, chars_of, decimal, push_decimal, replace, replace_exec, string_of};
use vstd::arithmetic::power2::{lemma2_to64, pow2};

verus! {

/// The path part of an upload target: its `upos:/` markers removed.
pub open spec fn upos_path(upos_uri: Seq<char>) -> Seq<char> {
    replace(upos_uri, "upos:/"@, Seq::empty())
}

fn upos_path_exec(upos_uri: &str) -> (r: Vec<char>)
    ensures
        r@ == upos_path(upos_uri@),
{
    let u = chars_of(upos_uri);
    let from = chars_of("upos:/");
    let to: Vec<char> = Vec::new();
    proof {
        reveal_strlit("upos:/");
        assert(to@ =~= Seq::<char>::empty());
    }
    replace_exec(&u, &from, &to)
}

/// The URL that asks for an upload target for a file name.
pub open spec fn preupload_url_of(file_name: Seq<char>) -> Seq<char> {
    "https://member.bilibili.com/preupload?name="@ + file_name + "&r=upos&profile=ugcfx/bup"@
}

pub fn preupload_url(file_name: &str) -> (r: String)
    ensures
        r@ == preupload_url_of(file_name@),
{
    let mut u = chars_of("https://member.bilibili.com/preupload?name=");
    append_str(&mut u, file_name);
    append_str(&mut u, "&r=upos&profile=ugcfx/bup");
    string_of(&u)
}

/// The URL that announces a file of `file_size` bytes, sent in parts of
/// `chunk_size` bytes, to the upload target.
pub open spec fn video_meta_url_of(
    endpoint: Seq<char>,
    upos_uri: Seq<char>,
    file_size: u64,
    chunk_size: u64,
    biz_id: u64,
) -> Seq<char> {
    "https:"@ + endpoint + upos_path(upos_uri) + "?uploads=&output=json&profile=ugcfx/bup&filesize="@
        + decimal(file_size as nat) + "&partsize="@ + decimal(chunk_size as nat) + "&biz_id="@
        + decimal(biz_id as nat)
}

pub fn video_meta_url(endpoint: &str, upos_uri: &str, file_size: u64, chunk_size: u64, biz_id: u64) -> (r:
    String)
    ensures
        r@ == video_meta_url_of(endpoint@, upos_uri@, file_size, chunk_size, biz_id),
{
    let mut u = chars_of("https:");
    append_str(&mut u, endpoint);
    let p = upos_path_exec(upos_uri);
    append_chars(&mut u, &p);
    append_str(&mut u, "?uploads=&output=json&profile=ugcfx/bup&filesize=");
    push_decimal(&mut u, file_size);
    append_str(&mut u, "&partsize=");
    push_decimal(&mut u, chunk_size);
    append_str(&mut u, "&biz_id=");
    push_decimal(&mut u, biz_id);
    string_of(&u)
}

/// The URL that one chunk (number `chunk`, from 0, of `size` bytes) is put
/// to: it names the part (from 1), the byte range it covers and the totals.
pub open spec fn chunk_url_of(
    endpoint: Seq<char>,
    upos_uri: Seq<char>,
    upload_id: Seq<char>,
    chunk: u64,
    chunks: u64,
    size: u64,
    chunk_size: u64,
    file_size: u64,
) -> Seq<char> {
    "https:"@ + endpoint + upos_path(upos_uri) + "?partNumber="@ + decimal((chunk + 1) as nat)
        + "&uploadId="@ + upload_id + "&chunk="@ + decimal(chunk as nat) + "&chunks="@ + decimal(
        chunks as nat,
    ) + "&size="@ + decimal(size as nat) + "&start="@ + decimal((chunk * chunk_size) as nat)
        + "&end="@ + decimal((chunk * chunk_size + size) as nat) + "&total="@ + decimal(file_size as nat)
}

pub fn chunk_url(
    endpoint: &str,
    upos_uri: &str,
    upload_id: &str,
    chunk: u64,
    chunks: u64,
    size: u64,
    chunk_size: u64,
    file_size: u64,
) -> (r: String)
    requires
        chunk < u64::MAX,
        chunk * chunk_size + size <= u64::MAX,
    ensures
        r@ == chunk_url_of(endpoint@, upos_uri@, upload_id@, chunk, chunks, size, chunk_size, file_size),
{
    let start: u64 = chunk * chunk_size;
    let mut u = chars_of("https:");
    append_str(&mut u, endpoint);
    let p = upos_path_exec(upos_uri);
    append_chars(&mut u, &p);
    append_str(&mut u, "?partNumber=");
    push_decimal(&mut u, chunk + 1);
    append_str(&mut u, "&uploadId=");
    append_str(&mut u, upload_id);
    append_str(&mut u, "&chunk=");
    push_decimal(&mut u, chunk);
    append_str(&mut u, "&chunks=");
    push_decimal(&mut u, chunks);
    append_str(&mut u, "&size=");
    push_decimal(&mut u, size);
    append_str(&mut u, "&start=");
    push_decimal(&mut u, start);
    append_str(&mut u, "&end=");
    push_decimal(&mut u, start + size);
    append_str(&mut u, "&total=");
    push_decimal(&mut u, file_size);
    string_of(&u)
}

/// The URL that completes an upload.
pub open spec fn end_upload_url_of(endpoint: Seq<char>, upos_uri: Seq<char>, upload_id: Seq<char>, biz_id: u64) -> Seq<
    char,
> {
    "https:"@ + endpoint + upos_path(upos_uri) + "?output=json&name="@ + upos_uri
        + "&profile=ugcfx/bup&uploadId="@ + upload_id + "&biz_id="@ + decimal(biz_id as nat)
}

pub fn end_upload_url(endpoint: &str, upos_uri: &str, upload_id: &str, biz_id: u64) -> (r: String)
    ensures
        r@ == end_upload_url_of(endpoint@, upos_uri@, upload_id@, biz_id),
{
    let mut u = chars_of("https:");
    append_str(&mut u, endpoint);
    let p = upos_path_exec(upos_uri);
    append_chars(&mut u, &p);
    append_str(&mut u, "?output=json&name=");
    append_str(&mut u, upos_uri);
    append_str(&mut u, "&profile=ugcfx/bup&uploadId=");
    append_str(&mut u, upload_id);
    append_str(&mut u, "&biz_id=");
    push_decimal(&mut u, biz_id);
    string_of(&u)
}

/// The text of one part of the completion body.
pub open spec fn part_text(number: nat) -> Seq<char> {
    "{\"eTag\":\"etag\",\"partNumber\":"@ + decimal(number) + "}"@
}

/// The parts 1 to `n`, separated by commas.
pub open spec fn parts_text(n: nat) -> Seq<char>
    decreases n,
{
    if n == 0 {
        Seq::empty()
    } else if n == 1 {
        part_text(1)
    } else {
        parts_text((n - 1) as nat) + ","@ + part_text(n)
    }
}

/// The JSON body that completes an upload of `chunks` parts: parts 1 to
/// `chunks`, each with the fixed tag `etag`, as the JSON library writes
/// `{"parts": [{"partNumber": i, "eTag": "etag"}, ..]}` (members sorted).
pub open spec fn upload_parts_body_of(chunks: nat) -> Seq<char> {
    "{\"parts\":["@ + parts_text(chunks) + "]}"@
}

pub fn upload_parts_body(chunks: u64) -> (r: String)
    ensures
        r@ == upload_parts_body_of(chunks as nat),
{
    let mut u = chars_of("{\"parts\":[");
    let ghost head = u@;
    let mut i: u64 = 0;
    while i < chunks
        invariant
            i <= chunks,
            u@ == head + parts_text(i as nat),
        decreases chunks - i,
    {
        if i > 0 {
            append_str(&mut u, ",");
        }
        append_str(&mut u, "{\"eTag\":\"etag\",\"partNumber\":");
        push_decimal(&mut u, i + 1);
        append_str(&mut u, "}");
        proof {
            assert(u@ =~= head + parts_text((i + 1) as nat));
        }
        i = i + 1;
    }
    append_str(&mut u, "]}");
    string_of(&u)
}


/// The number of chunks a file of `file_size` bytes is uploaded in: its size
/// divided by the chunk size, rounded up.
pub open spec fn chunk_count(file_size: nat, chunk_size: nat) -> nat
    recommends
        chunk_size > 0,
{
    if file_size % chunk_size == 0 {
        file_size / chunk_size
    } else {
        file_size / chunk_size + 1
    }
}

pub fn total_chunks(file_size: u64, chunk_size: u64) -> (r: u64)
    requires
        chunk_size > 0,
    ensures
        r == chunk_count(file_size as nat, chunk_size as nat),
        r * chunk_size >= file_size,
        r == 0 || (r - 1) * chunk_size < file_size,
{
    let q = file_size / chunk_size;
    let r = if file_size % chunk_size == 0 {
        q
    } else {
        proof {
            assert(chunk_size > 1) by (nonlinear_arith)
                requires
                    file_size % chunk_size != 0,
                    chunk_size > 0,
            ;
            assert(q < u64::MAX) by (nonlinear_arith)
                requires
                    chunk_size > 1,
                    q == file_size / chunk_size,
                    file_size <= u64::MAX,
            ;
        }
        q + 1
    };
    proof {
        assert(file_size == q * chunk_size + file_size % chunk_size) by (nonlinear_arith)
            requires
                chunk_size > 0,
                q == file_size / chunk_size,
        ;
        assert(r * chunk_size >= file_size) by (nonlinear_arith)
            requires
                file_size == q * chunk_size + file_size % chunk_size,
                file_size % chunk_size < chunk_size,
                r == q || (r == q + 1),
                r == q ==> file_size % chunk_size == 0,
        ;
        assert(r == 0 || (r - 1) * chunk_size < file_size) by (nonlinear_arith)
            requires
                file_size == q * chunk_size + file_size % chunk_size,
                r == q ==> file_size % chunk_size == 0,
                r == q + 1 ==> file_size % chunk_size > 0,
                r == q || (r == q + 1),
                chunk_size > 0,
        ;
    }
    r
}

/// What follows a read into the chunk buffer.
#[derive(Debug, PartialEq, Eq, Structural)]
pub enum ReadStep {
    /// The chunk is not full and the file goes on: read again.
    ReadMore,
    /// Nothing is left to send: the upload is done.
    Finished,
    /// Send the buffered chunk.
    Upload,
}

/// The step after a read of `size` bytes that brought the buffer to
/// `buffered` bytes of a `chunk_size` chunk.
pub fn read_step(size: u64, buffered: u64, chunk_size: u64) -> (r: ReadStep)
    ensures
        r == (if size > 0 && buffered < chunk_size {
            ReadStep::ReadMore
        } else if size == 0 && buffered == 0 {
            ReadStep::Finished
        } else {
            ReadStep::Upload
        }),
{
    if size > 0 && buffered < chunk_size {
        ReadStep::ReadMore
    } else if size == 0 && buffered == 0 {
        ReadStep::Finished
    } else {
        ReadStep::Upload
    }
}

/// How many times a chunk is tried.
pub const MAX_CHUNK_ATTEMPTS: u32 = 3;

/// What follows one attempt to put a chunk.
pub enum ChunkAttempt {
    /// The chunk is stored: go on with the next one.
    Uploaded,
    /// It failed: wait this many seconds, then try again.
    RetryAfter(u64),
    /// It failed for the last time: the upload fails.
    GiveUp(RecorderError),
}

/// The step after an attempt to put chunk `chunk` (from 0) that followed
/// `failures` failed ones: after the k-th failure the upload waits 2^k
/// seconds and tries again, until `MAX_CHUNK_ATTEMPTS` attempts failed.
pub fn after_chunk_attempt(chunk: u64, failures: u32, success: bool) -> (r: ChunkAttempt)
    requires
        failures < MAX_CHUNK_ATTEMPTS,
    ensures
        success ==> r matches ChunkAttempt::Uploaded,
        !success && failures + 1 < MAX_CHUNK_ATTEMPTS ==> (r matches ChunkAttempt::RetryAfter(secs) && secs
            == pow2((failures + 1) as nat)),
        !success && failures + 1 >= MAX_CHUNK_ATTEMPTS ==> (r matches ChunkAttempt::GiveUp(
            RecorderError::UploadError { err },
        ) && err@ == "Failed to upload chunk "@ + decimal(chunk as nat) + " after 3 retries"@),
{
    if success {
        return ChunkAttempt::Uploaded;
    }
    let k = failures + 1;
    if k < MAX_CHUNK_ATTEMPTS {
        proof {
            lemma2_to64();
        }
        let secs: u64 = if k == 1 {
            2
        } else {
            4
        };
        ChunkAttempt::RetryAfter(secs)
    } else {
        let mut m = chars_of("Failed to upload chunk ");
        push_decimal(&mut m, chunk);
        append_str(&mut m, " after 3 retries");
        ChunkAttempt::GiveUp(RecorderError::UploadError { err: string_of(&m) })
    }
}

} // verus!
