//! Requests as bytes.
//!
//! A request is written as the code of its method, the code of its version,
//! its URI, the number of its header values, each header value with its name
//! in front, and its body. Every number is a `u64` in little-endian order,
//! and the URI, each name, each value and the body are blocks: their length
//! as such a number, then their bytes.

use crate::headers::{
    empty_headers, header_list, header_names, header_values, insert_header, inserted, HeaderView,
    Headers,
};
use crate::http::{Method, Request, RequestMetadata, RequestView, Version};
use vstd::bytes::{spec_u64_from_le_bytes, spec_u64_to_le_bytes, u64_from_le_bytes, u64_to_le_bytes};
use vstd::prelude::*;
use vstd::slice::{slice_subrange, slice_to_vec};
use vstd::utf8::{decode_utf8, encode_utf8, valid_utf8};

verus! {

/// The code of a method on the wire.
pub open spec fn method_code(method: Method) -> u8 {
    match method {
        Method::Connect => 0,
        Method::Delete => 1,
        Method::Get => 2,
        Method::Head => 3,
        Method::Options => 4,
        Method::Patch => 5,
        Method::Post => 6,
        Method::Put => 7,
        Method::Trace => 8,
    }
}

/// The method a code stands for, if it stands for one.
pub open spec fn method_of(code: u8) -> Option<Method> {
    if code == 0 {
        Some(Method::Connect)
    } else if code == 1 {
        Some(Method::Delete)
    } else if code == 2 {
        Some(Method::Get)
    } else if code == 3 {
        Some(Method::Head)
    } else if code == 4 {
        Some(Method::Options)
    } else if code == 5 {
        Some(Method::Patch)
    } else if code == 6 {
        Some(Method::Post)
    } else if code == 7 {
        Some(Method::Put)
    } else if code == 8 {
        Some(Method::Trace)
    } else {
        None
    }
}

/// The code of a version on the wire; HTTP/0.9 has none.
pub open spec fn version_code(version: Version) -> Option<u8> {
    match version {
        Version::Http09 => None,
        Version::Http10 => Some(1),
        Version::Http11 => Some(2),
        Version::Http2 => Some(3),
        Version::Http3 => Some(4),
    }
}

/// The version a code stands for, if it stands for one.
pub open spec fn version_of(code: u8) -> Option<Version> {
    if code == 1 {
        Some(Version::Http10)
    } else if code == 2 {
        Some(Version::Http11)
    } else if code == 3 {
        Some(Version::Http2)
    } else if code == 4 {
        Some(Version::Http3)
    } else {
        None
    }
}

/// The code of `method`. Every method has one.
pub fn encode_method(method: Method) -> (code: Option<u8>)
    ensures
        code == Some(method_code(method)),
{
    match method {
        Method::Connect => Some(0),
        Method::Delete => Some(1),
        Method::Get => Some(2),
        Method::Head => Some(3),
        Method::Options => Some(4),
        Method::Patch => Some(5),
        Method::Post => Some(6),
        Method::Put => Some(7),
        Method::Trace => Some(8),
    }
}

/// The method that `input` stands for; none for a code above 8.
pub fn decode_method(input: u8) -> (method: Option<Method>)
    ensures
        method == method_of(input),
{
    match input {
        0 => Some(Method::Connect),
        1 => Some(Method::Delete),
        2 => Some(Method::Get),
        3 => Some(Method::Head),
        4 => Some(Method::Options),
        5 => Some(Method::Patch),
        6 => Some(Method::Post),
        7 => Some(Method::Put),
        8 => Some(Method::Trace),
        _ => None,
    }
}

/// The code of `version`; none for HTTP/0.9.
pub fn encode_version(version: Version) -> (code: Option<u8>)
    ensures
        code == version_code(version),
{
    match version {
        Version::Http10 => Some(1),
        Version::Http11 => Some(2),
        Version::Http2 => Some(3),
        Version::Http3 => Some(4),
        Version::Http09 => None,
    }
}

/// The version that `input` stands for; none for a code outside 1 to 4.
pub fn decode_version(input: u8) -> (version: Option<Version>)
    ensures
        version == version_of(input),
{
    match input {
        1 => Some(Version::Http10),
        2 => Some(Version::Http11),
        3 => Some(Version::Http2),
        4 => Some(Version::Http3),
        _ => None,
    }
}

/// Decoding undoes encoding: a method's code stands for that method, and a
/// code that stands for a method is that method's code.
pub proof fn lemma_method_codes_round_trip(method: Method, code: u8)
    ensures
        method_of(method_code(method)) == Some(method),
        method_of(code) is Some <==> code <= 8,
        method_of(code) matches Some(decoded) ==> method_code(decoded) == code,
{
}

/// Decoding undoes encoding: the code of a version that has one stands for
/// that version, and a code that stands for a version is that version's code.
pub proof fn lemma_version_codes_round_trip(version: Version, code: u8)
    ensures
        version_code(version) matches Some(encoded) ==> version_of(encoded) == Some(version),
        version_code(version) is None <==> version == Version::Http09,
        version_of(code) is Some <==> 1 <= code <= 4,
        version_of(code) matches Some(decoded) ==> version_code(decoded) == Some(code),
{
}

/// Why a request could not be written or read.
#[derive(Clone, Copy, Debug, PartialEq, Eq, Structural)]
pub enum EncodingError {
    /// The request's version has no code.
    UnsupportedVersion,
    /// The bytes end before the request does.
    Truncated,
    /// The first byte is the code of no method.
    UnknownMethod,
    /// The second byte is the code of no version.
    UnknownVersion,
    /// The URI or a header name is not UTF-8.
    InvalidText,
}

/// One header value with its name.
pub type HeaderRow = (Seq<char>, Seq<u8>);

/// A block: the length of the content, then the content.
pub open spec fn block(content: Seq<u8>) -> Seq<u8> {
    spec_u64_to_le_bytes(content.len() as u64) + content
}

/// The rows as bytes: for each row in turn, the name as a block and the value
/// as a block.
pub open spec fn rows_encoding(rows: Seq<HeaderRow>) -> Seq<u8>
    decreases rows.len(),
{
    if rows.len() == 0 {
        Seq::empty()
    } else {
        block(encode_utf8(rows[0].0)) + block(rows[0].1) + rows_encoding(rows.drop_first())
    }
}

/// The request as bytes, with its header values in the order of `rows`.
pub open spec fn request_encoding(request: RequestView, rows: Seq<HeaderRow>) -> Seq<u8>
    recommends
        version_code(request.version) is Some,
{
    seq![method_code(request.method), version_code(request.version).unwrap()] + block(
        encode_utf8(request.uri),
    ) + spec_u64_to_le_bytes(rows.len() as u64) + rows_encoding(rows) + block(request.body)
}

/// The values of one name as rows, in the order of the name's list.
pub open spec fn rows_under(headers: HeaderView, name: Seq<char>) -> Seq<HeaderRow> {
    headers[name].map_values(|value: Seq<u8>| (name, value))
}

/// The values of the given names as rows: name after name, and under each
/// name value after value.
pub open spec fn rows_of(headers: HeaderView, names: Seq<Seq<char>>) -> Seq<HeaderRow>
    decreases names.len(),
{
    if names.len() == 0 {
        Seq::empty()
    } else {
        rows_of(headers, names.drop_last()) + rows_under(headers, names.last())
    }
}

/// Whether `rows` list the headers: every name of the map is taken once, in
/// some order, and gives a row for each of its values, in their order.
pub open spec fn is_listing(headers: HeaderView, rows: Seq<HeaderRow>) -> bool {
    exists|names: Seq<Seq<char>>|
        names.no_duplicates() && names.to_set() == headers.dom() && rows == #[trigger] rows_of(
            headers,
            names,
        )
}

/// The number that stands at `at`, if eight bytes stand there.
pub open spec fn read_u64(bytes: Seq<u8>, at: int) -> Option<u64> {
    if 0 <= at && at + 8 <= bytes.len() {
        Some(spec_u64_from_le_bytes(bytes.subrange(at, at + 8)))
    } else {
        None
    }
}

/// The block that starts at `at`, if a whole block stands there: its content
/// and the position behind it.
pub open spec fn read_block(bytes: Seq<u8>, at: int) -> Option<(Seq<u8>, int)> {
    match read_u64(bytes, at) {
        Some(length) => if at + 8 + length <= bytes.len() {
            Some((bytes.subrange(at + 8, at + 8 + length), at + 8 + length))
        } else {
            None
        },
        None => None,
    }
}

/// The headers made of `count` rows that start at `at`, added to `headers`
/// in the order in which they stand, and the position behind the last row.
pub open spec fn read_rows(bytes: Seq<u8>, at: int, count: nat, headers: HeaderView) -> Result<
    (HeaderView, int),
    EncodingError,
>
    decreases count,
{
    if count == 0 {
        Ok((headers, at))
    } else {
        match read_block(bytes, at) {
            None => Err(EncodingError::Truncated),
            Some((name, after_name)) => if !valid_utf8(name) {
                Err(EncodingError::InvalidText)
            } else {
                match read_block(bytes, after_name) {
                    None => Err(EncodingError::Truncated),
                    Some((value, after_value)) => read_rows(
                        bytes,
                        after_value,
                        (count - 1) as nat,
                        inserted(headers, decode_utf8(name), value),
                    ),
                }
            },
        }
    }
}

/// The request that the bytes hold, or the first thing that is wrong with
/// them. Bytes that follow the body are not looked at.
pub open spec fn request_decoding(bytes: Seq<u8>) -> Result<RequestView, EncodingError> {
    if bytes.len() < 1 {
        Err(EncodingError::Truncated)
    } else if method_of(bytes[0]) is None {
        Err(EncodingError::UnknownMethod)
    } else if bytes.len() < 2 {
        Err(EncodingError::Truncated)
    } else if version_of(bytes[1]) is None {
        Err(EncodingError::UnknownVersion)
    } else {
        match read_block(bytes, 2) {
            None => Err(EncodingError::Truncated),
            Some((uri, after_uri)) => if !valid_utf8(uri) {
                Err(EncodingError::InvalidText)
            } else {
                match read_u64(bytes, after_uri) {
                    None => Err(EncodingError::Truncated),
                    Some(count) => match read_rows(
                        bytes,
                        after_uri + 8,
                        count as nat,
                        Map::empty(),
                    ) {
                        Err(error) => Err(error),
                        Ok((headers, after_headers)) => match read_block(bytes, after_headers) {
                            None => Err(EncodingError::Truncated),
                            Some((body, _)) => Ok(
                                RequestView {
                                    method: method_of(bytes[0]).unwrap(),
                                    uri: decode_utf8(uri),
                                    version: version_of(bytes[1]).unwrap(),
                                    headers,
                                    body,
                                },
                            ),
                        },
                    },
                }
            },
        }
    }
}

/// The mathematical value of what reading a request gave.
pub open spec fn decoded_view(result: Result<Request, EncodingError>) -> Result<
    RequestView,
    EncodingError,
> {
    match result {
        Ok(request) => Ok(request@),
        Err(error) => Err(error),
    }
}

/// The mathematical value of a list of rows.
pub open spec fn rows_view(rows: Seq<(String, Vec<u8>)>) -> Seq<HeaderRow> {
    rows.map_values(|row: (String, Vec<u8>)| (row.0@, row.1@))
}

/// Wraps `String::from_utf8`, which checks that the bytes are UTF-8 and
/// makes them a string without changing them. Trusted: there is a string
/// exactly for bytes that are UTF-8, and its encoding is those bytes.
#[verifier::external_body]
fn text_of(bytes: Vec<u8>) -> (text: Option<String>)
    ensures
        text is Some <==> valid_utf8(bytes@),
        text matches Some(made) ==> encode_utf8(made@) == bytes@,
{
    String::from_utf8(bytes).ok()
}

/// Appends a number.
fn push_u64(out: &mut Vec<u8>, number: u64)
    ensures
        final(out)@ == old(out)@ + spec_u64_to_le_bytes(number),
{
    let mut bytes = u64_to_le_bytes(number);
    out.append(&mut bytes);
}

/// Appends a block.
fn push_block(out: &mut Vec<u8>, content: &[u8])
    ensures
        final(out)@ == old(out)@ + block(content@),
{
    push_u64(out, content.len() as u64);
    out.extend_from_slice(content);
}

/// The header values as rows, each with its name.
fn list_rows(headers: &Headers) -> (rows: Vec<(String, Vec<u8>)>)
    ensures
        is_listing(header_values(*headers), rows_view(rows@)),
{
    let names = header_names(headers);
    let ghost contents = header_values(*headers);
    let ghost all = names.deep_view();
    let mut rows: Vec<(String, Vec<u8>)> = Vec::new();
    let mut taken: usize = 0;
    while taken < names.len()
        invariant
            taken <= names.len(),
            contents == header_values(*headers),
            all == names.deep_view(),
            all.to_set() == contents.dom(),
            rows_view(rows@) == rows_of(contents, all.take(taken as int)),
        decreases names.len() - taken,
    {
        let name = &names[taken];
        let ghost before = rows_view(rows@);
        match header_list(headers, name.as_str()) {
            Some(list) => {
                let mut copied: usize = 0;
                while copied < list.len()
                    invariant
                        copied <= list.len(),
                        list.deep_view() == contents[name@],
                        rows_view(rows@) == before + list.deep_view().take(copied as int).map_values(
                            |value: Seq<u8>| (name@, value),
                        ),
                    decreases list.len() - copied,
                {
                    let ghost so_far = rows@;
                    let row = (name.clone(), list[copied].clone());
                    assert(row.1@ == list.deep_view()[copied as int]);
                    rows.push(row);
                    assert(rows_view(rows@) =~= rows_view(so_far).push((row.0@, row.1@)));
                    copied += 1;
                }
            },
            None => {},
        }
        assert(all.take(taken + 1).drop_last() =~= all.take(taken as int));
        taken += 1;
    }
    assert(all.take(taken as int) =~= all);
    rows
}

/// Writes a request as bytes. The header values are written in the order in
/// which the header map hands them out. A request in HTTP/0.9 cannot be
/// written.
pub fn serialize_request(request: Request) -> (result: Result<Vec<u8>, EncodingError>)
    ensures
        version_code(request@.version) is None ==> result is Err && result->Err_0
            == EncodingError::UnsupportedVersion,
        version_code(request@.version) is Some ==> result is Ok && exists|rows: Seq<HeaderRow>|
            is_listing(request@.headers, rows) && result->Ok_0@ == #[trigger] request_encoding(
                request@,
                rows,
            ),
{
    let version = match encode_version(request.metadata.version) {
        Some(code) => code,
        None => {
            return Err(EncodingError::UnsupportedVersion);
        },
    };
    let method = match encode_method(request.metadata.method) {
        Some(code) => code,
        None => {
            return Err(EncodingError::UnsupportedVersion);
        },
    };
    let mut out: Vec<u8> = Vec::new();
    out.push(method);
    out.push(version);
    push_block(&mut out, request.metadata.uri.as_str().as_bytes());
    let rows = list_rows(&request.metadata.headers);
    push_u64(&mut out, rows.len() as u64);
    let ghost head = out@;
    let mut written: usize = 0;
    while written < rows.len()
        invariant
            written <= rows.len(),
            out@ == head + rows_encoding(rows_view(rows@).take(written as int)),
        decreases rows.len() - written,
    {
        let ghost so_far = rows_view(rows@).take(written as int);
        let row = &rows[written];
        push_block(&mut out, row.0.as_str().as_bytes());
        push_block(&mut out, row.1.as_slice());
        proof {
            let next = rows_view(rows@)[written as int];
            assert(rows_view(rows@).take(written + 1) =~= so_far.push(next));
            lemma_rows_encoding_push(so_far, next);
        }
        written += 1;
    }
    assert(rows_view(rows@).take(written as int) =~= rows_view(rows@));
    push_block(&mut out, request.body.as_slice());
    assert(out@ =~= request_encoding(request@, rows_view(rows@)));
    Ok(out)
}

/// The number that stands at `at`.
fn take_u64(data: &[u8], at: usize) -> (number: Option<u64>)
    ensures
        number == read_u64(data@, at as int),
{
    if at > data.len() || data.len() - at < 8 {
        None
    } else {
        Some(u64_from_le_bytes(slice_subrange(data, at, at + 8)))
    }
}

/// The block that starts at `at`: its content and the position behind it.
fn take_block(data: &[u8], at: usize) -> (taken: Option<(Vec<u8>, usize)>)
    ensures
        taken is Some <==> read_block(data@, at as int) is Some,
        taken matches Some((content, next)) ==> read_block(data@, at as int) == Some(
            (content@, next as int),
        ),
{
    match take_u64(data, at) {
        Some(length) => {
            assert(data@.len() == data.len());
            let start = at + 8;
            if length > (data.len() - start) as u64 {
                None
            } else {
                let end = start + length as usize;
                Some((slice_to_vec(slice_subrange(data, start, end)), end))
            }
        },
        None => None,
    }
}

/// Reads a request from bytes. Bytes that follow the body are not looked at.
#[verifier::loop_isolation(false)]
pub fn deserialize_request(data: &[u8]) -> (result: Result<Request, EncodingError>)
    ensures
        decoded_view(result) == request_decoding(data@),
{
    if data.len() < 1 {
        return Err(EncodingError::Truncated);
    }
    let method = match decode_method(data[0]) {
        Some(method) => method,
        None => {
            return Err(EncodingError::UnknownMethod);
        },
    };
    if data.len() < 2 {
        return Err(EncodingError::Truncated);
    }
    let version = match decode_version(data[1]) {
        Some(version) => version,
        None => {
            return Err(EncodingError::UnknownVersion);
        },
    };
    let (uri_bytes, after_uri) = match take_block(data, 2) {
        Some(taken) => taken,
        None => {
            return Err(EncodingError::Truncated);
        },
    };
    let uri = match text_of(uri_bytes) {
        Some(text) => text,
        None => {
            return Err(EncodingError::InvalidText);
        },
    };
    proof {
        vstd::utf8::encode_utf8_decode_utf8(uri@);
    }
    let count = match take_u64(data, after_uri) {
        Some(count) => count,
        None => {
            return Err(EncodingError::Truncated);
        },
    };
    let mut headers = empty_headers();
    let mut at = after_uri + 8;
    let mut remaining = count;
    let ghost whole = read_rows(data@, at as int, count as nat, Map::empty());
    while remaining > 0
        invariant
            at <= data.len(),
            read_rows(data@, at as int, remaining as nat, header_values(headers)) == whole,
        decreases remaining,
    {
        let (name_bytes, after_name) = match take_block(data, at) {
            Some(taken) => taken,
            None => {
                return Err(EncodingError::Truncated);
            },
        };
        let name = match text_of(name_bytes) {
            Some(text) => text,
            None => {
                return Err(EncodingError::InvalidText);
            },
        };
        proof {
            vstd::utf8::encode_utf8_decode_utf8(name@);
        }
        let (value, after_value) = match take_block(data, after_name) {
            Some(taken) => taken,
            None => {
                return Err(EncodingError::Truncated);
            },
        };
        insert_header(&mut headers, name, value);
        at = after_value;
        remaining -= 1;
    }
    let (body, _) = match take_block(data, at) {
        Some(taken) => taken,
        None => {
            return Err(EncodingError::Truncated);
        },
    };
    Ok(Request { metadata: RequestMetadata { method, uri, version, headers }, body })
}

/// The encoding of rows with one more row is the encoding of the rows with
/// the name and the value of that row behind it.
pub proof fn lemma_rows_encoding_push(rows: Seq<HeaderRow>, row: HeaderRow)
    ensures
        rows_encoding(rows.push(row)) == rows_encoding(rows) + block(encode_utf8(row.0)) + block(
            row.1,
        ),
    decreases rows.len(),
{
    let longer = rows.push(row);
    if rows.len() == 0 {
        assert(rows_encoding(longer) == block(encode_utf8(row.0)) + block(row.1) + rows_encoding(
            longer.drop_first(),
        ));
    } else {
        assert(longer.drop_first() =~= rows.drop_first().push(row));
        lemma_rows_encoding_push(rows.drop_first(), row);
    }
}

/// The headers after each of the rows was added in turn.
pub open spec fn inserted_all(headers: HeaderView, rows: Seq<HeaderRow>) -> HeaderView
    decreases rows.len(),
{
    if rows.len() == 0 {
        headers
    } else {
        inserted_all(inserted(headers, rows[0].0, rows[0].1), rows.drop_first())
    }
}

/// Whether the request can be written with its header values as `rows`: its
/// version has a code, and every length there is to write fits the eight
/// bytes of a number.
pub open spec fn is_writable(request: RequestView, rows: Seq<HeaderRow>) -> bool {
    &&& version_code(request.version) is Some
    &&& encode_utf8(request.uri).len() <= u64::MAX
    &&& rows.len() <= u64::MAX
    &&& forall|i: int|
        0 <= i < rows.len() ==> encode_utf8((#[trigger] rows[i]).0).len() <= u64::MAX
            && rows[i].1.len() <= u64::MAX
    &&& request.body.len() <= u64::MAX
}

/// A number is read back from where it was written.
proof fn lemma_read_u64(front: Seq<u8>, number: u64, back: Seq<u8>)
    ensures
        spec_u64_to_le_bytes(number).len() == 8,
        read_u64(front + spec_u64_to_le_bytes(number) + back, front.len() as int) == Some(number),
{
    vstd::bytes::lemma_auto_spec_u64_to_from_le_bytes();
    let bytes = front + spec_u64_to_le_bytes(number) + back;
    assert(bytes.subrange(front.len() as int, front.len() as int + 8) =~= spec_u64_to_le_bytes(
        number,
    ));
}

/// A block is read back from where it was written.
proof fn lemma_read_block(front: Seq<u8>, content: Seq<u8>, back: Seq<u8>)
    requires
        content.len() <= u64::MAX,
    ensures
        block(content).len() == 8 + content.len(),
        read_block(front + block(content) + back, front.len() as int) == Some(
            (content, (front.len() + 8 + content.len()) as int),
        ),
{
    let length = content.len() as u64;
    let bytes = front + block(content) + back;
    lemma_read_u64(front, length, content + back);
    assert(bytes =~= front + spec_u64_to_le_bytes(length) + (content + back));
}

/// Rows are read back from where they were written, and what is read is
/// added to the headers row by row.
proof fn lemma_read_rows(front: Seq<u8>, rows: Seq<HeaderRow>, back: Seq<u8>, headers: HeaderView)
    requires
        forall|i: int|
            0 <= i < rows.len() ==> encode_utf8((#[trigger] rows[i]).0).len() <= u64::MAX
                && rows[i].1.len() <= u64::MAX,
    ensures
        read_rows(
            front + rows_encoding(rows) + back,
            front.len() as int,
            rows.len(),
            headers,
        ) == Ok::<(HeaderView, int), EncodingError>(
            (inserted_all(headers, rows), (front.len() + rows_encoding(rows).len()) as int),
        ),
    decreases rows.len(),
{
    let bytes = front + rows_encoding(rows) + back;
    if rows.len() > 0 {
        let name = encode_utf8(rows[0].0);
        let value = rows[0].1;
        let rest = rows.drop_first();
        let behind = rows_encoding(rest);
        lemma_read_block(front, name, block(value) + behind + back);
        assert(bytes =~= front + block(name) + (block(value) + behind + back));
        lemma_read_block(front + block(name), value, behind + back);
        assert(bytes =~= (front + block(name)) + block(value) + (behind + back));
        vstd::utf8::encode_utf8_valid_utf8(rows[0].0);
        vstd::utf8::encode_utf8_decode_utf8(rows[0].0);
        assert forall|i: int| 0 <= i < rest.len() implies encode_utf8((#[trigger] rest[i]).0).len()
            <= u64::MAX && rest[i].1.len() <= u64::MAX by {
            assert(rest[i] == rows[i + 1]);
        }
        let further = inserted(headers, rows[0].0, value);
        lemma_read_rows(front + block(name) + block(value), rest, back, further);
        assert(bytes =~= (front + block(name) + block(value)) + behind + back);
    }
}

/// Adding the rows of two lists one after the other adds the rows of the
/// lists joined.
proof fn lemma_inserted_all_joined(headers: HeaderView, first: Seq<HeaderRow>, second: Seq<HeaderRow>)
    ensures
        inserted_all(headers, first + second) == inserted_all(inserted_all(headers, first), second),
    decreases first.len(),
{
    if first.len() > 0 {
        assert((first + second).drop_first() =~= first.drop_first() + second);
        lemma_inserted_all_joined(
            inserted(headers, first[0].0, first[0].1),
            first.drop_first(),
            second,
        );
    }
}

/// Adding values under a name that is present puts them behind the values
/// the name has.
proof fn lemma_inserted_all_under_present(headers: HeaderView, name: Seq<char>, values: Seq<Seq<u8>>)
    requires
        headers.contains_key(name),
    ensures
        inserted_all(headers, values.map_values(|value: Seq<u8>| (name, value))) == headers.insert(
            name,
            headers[name] + values,
        ),
    decreases values.len(),
{
    let rows = values.map_values(|value: Seq<u8>| (name, value));
    if values.len() > 0 {
        let further = inserted(headers, name, values[0]);
        assert(rows.drop_first() =~= values.drop_first().map_values(
            |value: Seq<u8>| (name, value),
        ));
        lemma_inserted_all_under_present(further, name, values.drop_first());
        assert(further[name] + values.drop_first() =~= headers[name] + values);
    }
}

/// Adding the values of a name that is absent, of which there is at least
/// one, gives the name that list of values.
proof fn lemma_inserted_all_under_absent(headers: HeaderView, name: Seq<char>, values: Seq<Seq<u8>>)
    requires
        !headers.contains_key(name),
        values.len() > 0,
    ensures
        inserted_all(headers, values.map_values(|value: Seq<u8>| (name, value))) == headers.insert(
            name,
            values,
        ),
{
    let rows = values.map_values(|value: Seq<u8>| (name, value));
    let further = inserted(headers, name, values[0]);
    assert(rows.drop_first() =~= values.drop_first().map_values(|value: Seq<u8>| (name, value)));
    lemma_inserted_all_under_present(further, name, values.drop_first());
    assert(further[name] + values.drop_first() =~= values);
}

/// Adding the rows of some names of a header map to no headers gives the
/// part of the map that those names have.
proof fn lemma_rows_rebuild(headers: HeaderView, names: Seq<Seq<char>>)
    requires
        names.no_duplicates(),
        forall|i: int| 0 <= i < names.len() ==> headers.contains_key(#[trigger] names[i]),
        forall|name: Seq<char>| #[trigger] headers.contains_key(name) ==> headers[name].len() > 0,
    ensures
        inserted_all(Map::empty(), rows_of(headers, names)) == headers.restrict(names.to_set()),
    decreases names.len(),
{
    if names.len() > 0 {
        let before = names.drop_last();
        let name = names.last();
        lemma_rows_rebuild(headers, before);
        let part = headers.restrict(before.to_set());
        lemma_inserted_all_joined(Map::empty(), rows_of(headers, before), rows_under(headers, name));
        assert(!part.contains_key(name)) by {
            if before.to_set().contains(name) {
                let at = choose|at: int| 0 <= at < before.len() && before[at] == name;
                assert(names[at] == names[names.len() - 1]);
            }
        }
        lemma_inserted_all_under_absent(part, name, headers[name]);
        assert(part.insert(name, headers[name]) =~= headers.restrict(names.to_set())) by {
            assert forall|other: Seq<char>| names.to_set().contains(other) <==> (before.to_set().contains(
                other,
            ) || other == name) by {
                if names.to_set().contains(other) {
                    let at = choose|at: int| 0 <= at < names.len() && names[at] == other;
                    if at < names.len() - 1 {
                        assert(before[at] == other);
                    }
                }
                if before.to_set().contains(other) {
                    let at = choose|at: int| 0 <= at < before.len() && before[at] == other;
                    assert(names[at] == other);
                }
                if other == name {
                    assert(names[names.len() - 1] == other);
                }
            }
        }
    }
}

/// Reading rows that list a header map in which every name has a value
/// gives that header map back.
pub proof fn lemma_listing_rebuilds(headers: HeaderView, rows: Seq<HeaderRow>)
    requires
        is_listing(headers, rows),
        forall|name: Seq<char>| #[trigger] headers.contains_key(name) ==> headers[name].len() > 0,
    ensures
        inserted_all(Map::empty(), rows) == headers,
{
    let names = choose|names: Seq<Seq<char>>|
        names.no_duplicates() && names.to_set() == headers.dom() && rows == #[trigger] rows_of(
            headers,
            names,
        );
    assert forall|i: int| 0 <= i < names.len() implies headers.contains_key(
        #[trigger] names[i],
    ) by {
        assert(names.to_set().contains(names[i]));
    }
    lemma_rows_rebuild(headers, names);
}

/// Reading undoes writing.
///
/// Take a request that can be written, in whose header map every name has a
/// value, and the bytes it is written as, with its header values in any
/// order that lists the map. Reading those bytes gives the request back,
/// whatever follows them.
pub proof fn lemma_decoding_undoes_encoding(
    request: RequestView,
    rows: Seq<HeaderRow>,
    rest: Seq<u8>,
)
    requires
        is_writable(request, rows),
        is_listing(request.headers, rows),
        forall|name: Seq<char>| #[trigger]
            request.headers.contains_key(name) ==> request.headers[name].len() > 0,
    ensures
        request_decoding(request_encoding(request, rows) + rest) == Ok::<
            RequestView,
            EncodingError,
        >(request),
{
    let codes = seq![method_code(request.method), version_code(request.version).unwrap()];
    let uri = encode_utf8(request.uri);
    let count = spec_u64_to_le_bytes(rows.len() as u64);
    let listed = rows_encoding(rows);
    let body = block(request.body);
    let bytes = request_encoding(request, rows) + rest;
    lemma_method_codes_round_trip(request.method, 0);
    lemma_version_codes_round_trip(request.version, 0);

    lemma_read_block(codes, uri, count + listed + body + rest);
    assert(bytes =~= codes + block(uri) + (count + listed + body + rest));
    vstd::utf8::encode_utf8_valid_utf8(request.uri);
    vstd::utf8::encode_utf8_decode_utf8(request.uri);

    lemma_read_u64(codes + block(uri), rows.len() as u64, listed + body + rest);
    assert(bytes =~= (codes + block(uri)) + count + (listed + body + rest));

    lemma_read_rows(codes + block(uri) + count, rows, body + rest, Map::empty());
    assert(bytes =~= (codes + block(uri) + count) + listed + (body + rest));
    lemma_listing_rebuilds(request.headers, rows);

    lemma_read_block(codes + block(uri) + count + listed, request.body, rest);
    assert(bytes =~= (codes + block(uri) + count + listed) + block(request.body) + rest);
}

} // verus!
