//! Settings and decisions of the benchmark client.

use vstd::prelude::*;

use crate::routes::{bytes_content, bytes_from_vec, random_payload};

verus! {

/// The endpoint a benchmark run exercises.
#[derive(Clone, Copy, Debug, PartialEq, Eq, Structural)]
pub enum Endpoint {
    Get,
    Post,
    Websocket,
}

impl Endpoint {
    /// The endpoint's name as it appears in reports.
    pub fn label(&self) -> (r: &'static str)
        ensures
            r@ == (match self {
                Endpoint::Get => "GET"@,
                Endpoint::Post => "POST"@,
                Endpoint::Websocket => "WebSocket"@,
            }),
    {
        match self {
            Endpoint::Get => "GET",
            Endpoint::Post => "POST",
            Endpoint::Websocket => "WebSocket",
        }
    }

    /// Whether requests to this endpoint carry a payload.
    pub fn sends_payload(&self) -> (r: bool)
        ensures
            r == !(*self is Get),
    {
        match self {
            Endpoint::Get => false,
            Endpoint::Post | Endpoint::Websocket => true,
        }
    }
}

/// What a benchmark run does.
#[derive(Clone, Debug)]
pub struct EntrypointConfig {
    pub base_url: String,
    pub endpoint: Endpoint,
    pub size: usize,
    pub concurrency: usize,
}

/// The benchmark client's command-line settings.
#[derive(Clone, Debug)]
pub struct Config {
    pub base_url: String,
    pub endpoint: Endpoint,
    pub size: usize,
    pub concurrency: usize,
}

/// Default payload size, in bytes.
pub const DEFAULT_SIZE: usize = 10_000_000;

/// Default number of concurrent requests.
pub const DEFAULT_CONCURRENCY: usize = 1;

impl Config {
    /// Settings for `base_url` with every other setting at its default.
    pub fn new(base_url: String) -> (r: Self)
        ensures
            r.base_url == base_url,
            r.endpoint == Endpoint::Get,
            r.size == DEFAULT_SIZE,
            r.concurrency == DEFAULT_CONCURRENCY,
    {
        Config { base_url, endpoint: Endpoint::Get, size: DEFAULT_SIZE, concurrency: DEFAULT_CONCURRENCY }
    }

    /// The run these settings describe.
    pub fn into_entrypoint(self) -> (r: EntrypointConfig)
        ensures
            r.base_url == self.base_url,
            r.endpoint == self.endpoint,
            r.size == self.size,
            r.concurrency == self.concurrency,
    {
        EntrypointConfig {
            base_url: self.base_url,
            endpoint: self.endpoint,
            size: self.size,
            concurrency: self.concurrency,
        }
    }
}

/// The payload every request of a run shares: empty for `Get`, `size`
/// random bytes otherwise.
pub fn initial_data(endpoint: Endpoint, size: usize) -> (r: bytes::Bytes)
    ensures
        bytes_content(r).len() == (if endpoint is Get { 0 } else { size }),
{
    if endpoint.sends_payload() {
        random_payload(size)
    } else {
        bytes_from_vec(Vec::new())
    }
}

/// Whether a frame read back on the WebSocket ends one exchange: it is a
/// binary frame holding exactly the bytes that were sent.
pub fn echo_received(is_binary: bool, received: &bytes::Bytes, sent: &bytes::Bytes) -> (r: bool)
    ensures
        r == (is_binary && bytes_content(*received) == bytes_content(*sent)),
{
    if !is_binary {
        return false;
    }
    let got: &[u8] = received;
    let want: &[u8] = sent;
    if got.len() != want.len() {
        return false;
    }
    let mut i: usize = 0;
    while i < got.len()
        invariant
            got@ == bytes_content(*received),
            want@ == bytes_content(*sent),
            got@.len() == want@.len(),
            i <= got@.len(),
            got@.subrange(0, i as int) == want@.subrange(0, i as int),
        decreases got@.len() - i,
    {
        if got[i] != want[i] {
            assert(got@[i as int] != want@[i as int]);
            return false;
        }
        assert(got@.subrange(0, i + 1) == got@.subrange(0, i as int).push(got@[i as int]));
        assert(want@.subrange(0, i + 1) == want@.subrange(0, i as int).push(want@[i as int]));
        i = i + 1;
    }
    assert(got@ == got@.subrange(0, got@.len() as int));
    assert(want@ == want@.subrange(0, want@.len() as int));
    true
}

} // verus!
