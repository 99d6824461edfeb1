//! Replies of the HTTP endpoints served through the tunnel.

use vstd::prelude::*;

use rand::RngCore;

verus! {

#[verifier::external_type_specification]
#[verifier::external_body]
pub struct ExBytes(bytes::Bytes);

/// The bytes that a shared buffer holds.
pub uninterp spec fn bytes_content(b: bytes::Bytes) -> Seq<u8>;

/// Relies on `bytes::Bytes::len`: the number of bytes held.
pub assume_specification[ bytes::Bytes::len ](b: &bytes::Bytes) -> (r: usize)
    ensures
        r == bytes_content(*b).len(),
;

/// Relies on `Deref for bytes::Bytes`: the slice of the bytes held.
pub assume_specification[ <bytes::Bytes as core::ops::Deref>::deref ](b: &bytes::Bytes) -> (r: &[u8])
    ensures
        r@ == bytes_content(*b),
;

/// Relies on `bytes::Bytes::slice`: a view of the first `n` bytes, which
/// panics past the end.
#[verifier::external_body]
fn bytes_prefix(b: &bytes::Bytes, n: usize) -> (r: bytes::Bytes)
    requires
        n <= bytes_content(*b).len(),
    ensures
        bytes_content(r) == bytes_content(*b).subrange(0, n as int),
{
    b.slice(..n)
}

/// Relies on `From<Vec<u8>> for bytes::Bytes`: takes over the vector's bytes.
#[verifier::external_body]
pub(crate) fn bytes_from_vec(v: Vec<u8>) -> (r: bytes::Bytes)
    ensures
        bytes_content(r) == v@,
{
    bytes::Bytes::from(v)
}

/// Relies on `rand::rng()` and `RngCore::fill_bytes`: overwrites each byte
/// with a random one and keeps the length.
#[verifier::external_body]
fn fill_random(buf: &mut Vec<u8>)
    ensures
        final(buf)@.len() == old(buf)@.len(),
{
    rand::rng().fill_bytes(buf.as_mut_slice())
}

/// A shared buffer of `len` random bytes, made once and served read-only.
pub fn random_payload(len: usize) -> (r: bytes::Bytes)
    ensures
        bytes_content(r).len() == len,
{
    let mut data: Vec<u8> = Vec::new();
    let mut i: usize = 0;
    while i < len
        invariant
            i <= len,
            data@.len() == i,
        decreases len - i,
    {
        data.push(0);
        i = i + 1;
    }
    fill_random(&mut data);
    bytes_from_vec(data)
}

/// A reply status without a body.
#[derive(Clone, Copy, Debug, PartialEq, Eq, Structural)]
pub enum Status {
    NoContent,
    BadRequest,
}

/// The reply to `GET /get/{file_size}`.
#[derive(Debug)]
pub enum GetReply {
    /// More bytes were asked for than the payload holds.
    BadRequest,
    /// The first `file_size` bytes of the payload.
    Body(bytes::Bytes),
}

/// Serves the first `file_size` bytes of `data`, or refuses when `data` is
/// shorter than that.
pub fn get_handler(file_size: usize, data: &bytes::Bytes) -> (r: GetReply)
    ensures
        file_size > bytes_content(*data).len() <==> r is BadRequest,
        file_size <= bytes_content(*data).len() ==> (r matches GetReply::Body(b)
            && bytes_content(b) == bytes_content(*data).subrange(0, file_size as int)),
{
    if file_size > data.len() {
        GetReply::BadRequest
    } else {
        GetReply::Body(bytes_prefix(data, file_size))
    }
}

/// Accepts a posted body exactly when its length is the announced one.
pub fn post_handler(file_size: usize, body: &bytes::Bytes) -> (r: Status)
    ensures
        r == (if file_size == bytes_content(*body).len() {
            Status::NoContent
        } else {
            Status::BadRequest
        }),
{
    if file_size == body.len() {
        Status::NoContent
    } else {
        Status::BadRequest
    }
}

/// What a WebSocket echo does with the outcome of one receive: a frame is
/// sent back unchanged, while a receive error or the end of the stream stops
/// the exchange.
pub fn ws_echo_step<M, E>(received: Option<Result<M, E>>) -> (r: Option<M>)
    ensures
        r == (match received {
            Some(Ok(m)) => Some(m),
            _ => None,
        }),
{
    match received {
        Some(Ok(m)) => Some(m),
        _ => None,
    }
}

} // verus!
