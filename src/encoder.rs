//! Framing of serialized JSON values into one byte stream: values are written
//! one after another with a delimiter between each two, none before the first.

use bytes::{BufMut, Bytes, BytesMut};
use vstd::prelude::*;

verus! {

#[verifier::external_type_specification]
#[verifier::external_body]
pub struct ExBytes(Bytes);

#[verifier::external_type_specification]
#[verifier::external_body]
pub struct ExBytesMut(BytesMut);

#[verifier::external_type_specification]
#[verifier::external_body]
pub struct ExJsonError(serde_json::Error);

#[verifier::external_type_specification]
#[verifier::external_body]
pub struct ExIoError(std::io::Error);

/// The bytes that a `Bytes` holds.
pub uninterp spec fn bytes_view(b: Bytes) -> Seq<u8>;

/// The bytes that a `BytesMut` holds.
pub uninterp spec fn bytes_mut_view(b: BytesMut) -> Seq<u8>;

/// Relies on `Bytes::copy_from_slice`: a buffer holding a copy of `data`.
#[verifier::external_body]
fn bytes_from_slice(data: &[u8]) -> (r: Bytes)
    ensures
        bytes_view(r) == data@,
{
    Bytes::copy_from_slice(data)
}

/// Relies on `Deref for Bytes`: the held bytes as a slice.
#[verifier::external_body]
fn bytes_as_slice(b: &Bytes) -> (r: &[u8])
    ensures
        r@ == bytes_view(*b),
{
    &b[..]
}

/// Relies on `BytesMut::reserve`: room for `additional` more bytes, contents
/// unchanged. It panics where the new capacity overflows, which `requires`
/// leaves out.
#[verifier::external_body]
fn reserve(buf: &mut BytesMut, additional: usize)
    requires
        bytes_mut_view(*old(buf)).len() + additional <= isize::MAX,
    ensures
        bytes_mut_view(*final(buf)) == bytes_mut_view(*old(buf)),
{
    buf.reserve(additional)
}

/// Relies on `BufMut::put_slice` of `BytesMut`: appends `src` to the contents.
#[verifier::external_body]
fn put_slice(buf: &mut BytesMut, src: &[u8])
    requires
        bytes_mut_view(*old(buf)).len() + src@.len() <= isize::MAX,
    ensures
        bytes_mut_view(*final(buf)) == bytes_mut_view(*old(buf)) + src@,
{
    buf.put_slice(src)
}

/// Writes serialized JSON values one after another, with a delimiter between
/// each two.
pub struct JsonLineEncoder {
    delimeter: Bytes,
    first: bool,
}

impl JsonLineEncoder {
    /// The delimiter written between two values.
    pub closed spec fn delimiter(&self) -> Seq<u8> {
        bytes_view(self.delimeter)
    }

    /// Whether no value has been written yet.
    pub closed spec fn is_first(&self) -> bool {
        self.first
    }

    /// What encoding `json` appends: the value, preceded by the delimiter
    /// unless it is the first.
    pub open spec fn framed(&self, json: Seq<u8>) -> Seq<u8> {
        if self.is_first() {
            json
        } else {
            self.delimiter() + json
        }
    }

    /// An encoder that separates values by `delimeter`.
    pub fn new(delimeter: &[u8]) -> (r: Self)
        ensures
            r.delimiter() == delimeter@,
            r.is_first(),
    {
        Self { delimeter: bytes_from_slice(delimeter), first: true }
    }

    /// Appends the serialized value `json` to `buf`, after the delimiter
    /// unless it is the first value.
    pub fn encode(&mut self, json: &[u8], buf: &mut BytesMut)
        requires
            bytes_mut_view(*old(buf)).len() + json@.len() + old(self).delimiter().len() <= isize::MAX,
        ensures
            bytes_mut_view(*final(buf)) == bytes_mut_view(*old(buf)) + old(self).framed(json@),
            final(self).delimiter() == old(self).delimiter(),
            !final(self).is_first(),
    {
        let delimeter = bytes_as_slice(&self.delimeter);
        reserve(buf, json.len() + delimeter.len());
        if self.first {
            self.first = false;
        } else {
            put_slice(buf, delimeter);
        }
        put_slice(buf, json);
        assert(bytes_mut_view(*buf) =~= bytes_mut_view(*old(buf)) + old(self).framed(json@));
    }
}

impl Default for JsonLineEncoder {
    /// An encoder that separates values by a newline.
    fn default() -> (r: Self)
        ensures
            r.delimiter() == seq![10u8],
            r.is_first(),
    {
        let newline: [u8; 1] = [10u8];
        let r = Self::new(&newline);
        assert(newline@ =~= seq![10u8]);
        r
    }
}

/// Why encoding a value failed.
#[derive(Debug)]
pub enum JsonLineEncoderError {
    Json(serde_json::Error),
    Io(std::io::Error),
}

impl From<std::io::Error> for JsonLineEncoderError {
    fn from(err: std::io::Error) -> (r: JsonLineEncoderError) {
        JsonLineEncoderError::Io(err)
    }
}

impl vstd::std_specs::convert::FromSpecImpl<std::io::Error> for JsonLineEncoderError {
    open spec fn obeys_from_spec() -> bool {
        true
    }

    open spec fn from_spec(v: std::io::Error) -> JsonLineEncoderError {
        JsonLineEncoderError::Io(v)
    }
}

impl From<serde_json::Error> for JsonLineEncoderError {
    fn from(err: serde_json::Error) -> (r: JsonLineEncoderError) {
        JsonLineEncoderError::Json(err)
    }
}

impl vstd::std_specs::convert::FromSpecImpl<serde_json::Error> for JsonLineEncoderError {
    open spec fn obeys_from_spec() -> bool {
        true
    }

    open spec fn from_spec(v: serde_json::Error) -> JsonLineEncoderError {
        JsonLineEncoderError::Json(v)
    }
}

} // verus!
