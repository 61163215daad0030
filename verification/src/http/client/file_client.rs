use vstd::prelude::*;
use crate::dto::response::FileMetadata;
use crate::error::HiveDropError;
use crate::text::{
    chars_of, decimal, first_pos, parse_u64, parse_u64_spec, push_str, slice_chars, split_on,
    starts_with, starts_with_chars, string_from_chars, trim_chars, trim_quotes_chars, trim_quotes_spec,
    trim_spec, u64_to_decimal,
};

verus! {

/// The file name in the first piece of a `Content-Disposition` value (split at
/// `;`) that starts with `filename=` once trimmed: the rest of it without
/// surrounding double quotes.
pub open spec fn first_filename(parts: Seq<Seq<char>>) -> Option<Seq<char>>
    decreases parts.len(),
{
    if parts.len() == 0 {
        None
    } else {
        let t = trim_spec(parts[0]);
        if starts_with(t, "filename="@) {
            Some(trim_quotes_spec(t.skip("filename="@.len() as int)))
        } else {
            first_filename(parts.drop_first())
        }
    }
}

/// The file name that a `Content-Disposition` value names, if any.
pub open spec fn disposition_filename_spec(v: Seq<char>) -> Option<Seq<char>> {
    first_filename(split_on(v, ';'))
}

/// The file name that a `Content-Disposition` value such as
/// `attachment; filename="example.txt"` names, if any.
pub fn disposition_filename(v: &str) -> (r: Option<String>)
    ensures
        r matches Some(s) ==> disposition_filename_spec(v@) == Some(s@),
        r is None ==> disposition_filename_spec(v@) is None,
{
    let c = chars_of(v);
    let key = chars_of("filename=");
    let mut pos: usize = 0;
    assert(c@.skip(0) == c@);
    loop
        invariant
            c@ == v@,
            key@ == "filename="@,
            pos <= c@.len(),
            disposition_filename_spec(v@) == first_filename(split_on(c@.skip(pos as int), ';')),
        decreases c@.len() - pos,
    {
        let ghost rest = c@.skip(pos as int);
        let mut end: usize = pos;
        while end < c.len() && c[end] != ';'
            invariant
                pos <= end <= c@.len(),
                rest == c@.skip(pos as int),
                forall|k: int| 0 <= k < end - pos ==> #[trigger] rest[k] != ';',
            decreases c@.len() - end,
        {
            end = end + 1;
        }
        proof {
            crate::text::lemma_first_pos(rest, ';', end - pos);
        }
        let part = slice_chars(&c, pos, end);
        assert(part@ == rest.take(end - pos));
        let ghost parts = split_on(rest, ';');
        assert(parts[0] == part@);
        let t = trim_chars(&part);
        if starts_with_chars(&t, &key) {
            let tail = slice_chars(&t, key.len(), t.len());
            assert(tail@ == t@.skip("filename="@.len() as int));
            let q = trim_quotes_chars(&tail);
            return Some(string_from_chars(q.as_slice()));
        }
        if end == c.len() {
            assert(parts.len() == 1);
            assert(parts.drop_first().len() == 0);
            assert(first_filename(parts.drop_first()) is None);
            return None;
        }
        assert(rest.skip(end - pos + 1) == c@.skip(end + 1));
        assert(parts.drop_first() == split_on(c@.skip(end + 1), ';'));
        pos = end + 1;
    }
}

/// The metadata that the headers of a file's `HEAD` reply give: the size from
/// `Content-Length` (which must be present and a number), the type from
/// `Content-Type` (`application/octet-stream` when absent), and the name from
/// `Content-Disposition` (which must name one).
pub open spec fn metadata_from_headers_spec(
    content_length: Option<Seq<char>>,
    content_type: Option<Seq<char>>,
    content_disposition: Option<Seq<char>>,
) -> Option<(u64, Seq<char>, Seq<char>)> {
    let size = match content_length { Some(s) => parse_u64_spec(s), None => None };
    let name = match content_disposition { Some(d) => disposition_filename_spec(d), None => None };
    if size is Some && name is Some {
        Some((size->0, match content_type { Some(t) => t, None => "application/octet-stream"@ }, name->0))
    } else {
        None
    }
}

/// The metadata of a file from the headers of its `HEAD` reply, each given as its
/// text when present. A missing or malformed `Content-Length` and a
/// `Content-Disposition` that names no file are network errors, checked in that
/// order.
pub fn metadata_from_headers(
    content_length: Option<String>,
    content_type: Option<String>,
    content_disposition: Option<String>,
) -> (r: Result<FileMetadata, HiveDropError>)
    ensures
        ({
            let size = match content_length { Some(s) => parse_u64_spec(s@), None => None };
            let name = match content_disposition { Some(d) => disposition_filename_spec(d@), None => None };
            &&& size is None ==> (r matches Err(e) && e matches HiveDropError::NetworkError(m) && m@ == "缺少Content-Length头"@)
            &&& size is Some && name is None ==> (r matches Err(e) && e matches HiveDropError::NetworkError(m)
                && m@ == "无法从Content-Disposition头中提取文件名"@)
        }),
        r matches Ok(md) ==> metadata_from_headers_spec(
            crate::dto::request::opt_view(content_length),
            crate::dto::request::opt_view(content_type),
            crate::dto::request::opt_view(content_disposition),
        ) == Some((md.content_length, md.content_type@, md.filename@)),
        r is Err ==> metadata_from_headers_spec(
            crate::dto::request::opt_view(content_length),
            crate::dto::request::opt_view(content_type),
            crate::dto::request::opt_view(content_disposition),
        ) is None,
{
    let size = match &content_length {
        Some(s) => parse_u64(s.as_str()),
        None => None,
    };
    let size = match size {
        Some(n) => n,
        None => {
            return Err(HiveDropError::NetworkError("缺少Content-Length头".to_owned()));
        },
    };
    let content_type = match content_type {
        Some(t) => t,
        None => "application/octet-stream".to_owned(),
    };
    let name = match &content_disposition {
        Some(d) => disposition_filename(d.as_str()),
        None => None,
    };
    match name {
        Some(filename) => Ok(FileMetadata { content_length: size, content_type, filename }),
        None => Err(HiveDropError::NetworkError("无法从Content-Disposition头中提取文件名".to_owned())),
    }
}

/// The value of a `Range` header asking for bytes `start..=end`: `bytes={start}-{end}`.
pub fn range_header(start: u64, end: u64) -> (r: String)
    ensures
        r@ == "bytes="@ + decimal(start as nat) + "-"@ + decimal(end as nat),
{
    let mut h = String::new();
    push_str(&mut h, "bytes=");
    let s = u64_to_decimal(start);
    push_str(&mut h, s.as_str());
    push_str(&mut h, "-");
    let e = u64_to_decimal(end);
    push_str(&mut h, e.as_str());
    h
}

/// Checks a downloaded chunk against the `Content-Length` of its reply: when the
/// header gives a number that differs from the chunk's length, the chunk is
/// refused with a network error.
pub fn check_chunk_length(content_length: Option<String>, body: Vec<u8>) -> (r: Result<Vec<u8>, HiveDropError>)
    ensures
        ({
            let expected = match content_length { Some(s) => parse_u64_spec(s@), None => None };
            if expected is Some && expected->0 != body@.len() {
                r matches Err(e) && e matches HiveDropError::NetworkError(m)
                    && m@ == "数据长度不匹配: 期望 "@ + decimal(expected->0 as nat) + " 字节，实际接收 "@
                        + decimal(body@.len()) + " 字节"@
            } else {
                r == Ok::<Vec<u8>, HiveDropError>(body)
            }
        }),
{
    let expected = match &content_length {
        Some(s) => parse_u64(s.as_str()),
        None => None,
    };
    match expected {
        Some(n) => {
            if n != body.len() as u64 {
                let mut m = String::new();
                push_str(&mut m, "数据长度不匹配: 期望 ");
                let a = u64_to_decimal(n);
                push_str(&mut m, a.as_str());
                push_str(&mut m, " 字节，实际接收 ");
                let b = u64_to_decimal(body.len() as u64);
                push_str(&mut m, b.as_str());
                push_str(&mut m, " 字节");
                return Err(HiveDropError::NetworkError(m));
            }
            Ok(body)
        },
        None => Ok(body),
    }
}

} // verus!
