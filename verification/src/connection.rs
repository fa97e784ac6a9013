//! Gateway WebSocket connection logic: the gateway URL, the connection states
//! and the reassembly of zlib-compressed gateway messages. The socket itself
//! is driven by the caller.
use vstd::prelude::*;
use std::io::Read;
use crate::error::{io_error_text, Error};
use crate::text::{contains_char, ends_with_char, has_char, owned};

verus! {

/// Largest number of compressed bytes kept while waiting for the end of a message.
pub const MAX_ZLIB_BUFFER_SIZE: usize = 10485760;

/// The query that selects API version 10, JSON encoding and zlib stream compression.
pub open spec fn gateway_query() -> Seq<char> {
    "v=10&encoding=json&compress=zlib-stream"@
}

/// The URL to open for the gateway at `url`: the query is appended with `&` when
/// the URL already has one, with `?` after a trailing slash, and with `/?` otherwise.
pub open spec fn gateway_url_text(url: Seq<char>) -> Seq<char> {
    if has_char(url, '?') {
        url + "&"@ + gateway_query()
    } else if url.len() > 0 && url.last() == '/' {
        url + "?"@ + gateway_query()
    } else {
        url + "/?"@ + gateway_query()
    }
}

/// Build the gateway URL with the query parameters that Discord expects.
pub fn gateway_url(url: &str) -> (r: String)
    ensures
        r@ == gateway_url_text(url@),
{
    let mut s = owned(url);
    if contains_char(url, '?') {
        s.append("&");
    } else if ends_with_char(url, '/') {
        s.append("?");
    } else {
        s.append("/?");
    }
    s.append("v=10&encoding=json&compress=zlib-stream");
    s
}

/// Gateway connection state.
#[derive(Clone, Copy, Debug, PartialEq, Eq, Structural)]
pub enum ConnectionState {
    /// Not connected.
    Disconnected,
    /// Connecting to the gateway.
    Connecting,
    /// Connected and ready.
    Connected,
    /// Resuming a previous session.
    Resuming,
    /// Connection is closing.
    Closing,
}

/// What zlib decompression of `bytes` to UTF-8 text gives: the text, or nothing
/// when the bytes are not a complete zlib stream of UTF-8 text.
pub uninterp spec fn zlib_text(bytes: Seq<u8>) -> Option<Seq<char>>;

/// `flate2::read::ZlibDecoder::new` over `bytes`, read to the end with
/// `Read::read_to_string`. The result depends on the bytes alone and is named
/// `zlib_text`; the I/O error of a failure is handed back as it is.
#[verifier::external_body]
fn inflate_to_string(bytes: &[u8]) -> (r: Result<String, std::io::Error>)
    ensures
        match r {
            Ok(s) => zlib_text(bytes@) == Some(s@),
            Err(_) => zlib_text(bytes@) is None,
        },
{
    let mut decoder = flate2::read::ZlibDecoder::new(bytes);
    let mut text = String::new();
    decoder.read_to_string(&mut text).map(|_| text)
}

/// Whether `m` is the message of a failed decompression: it starts with
/// `Decompression failed: `, followed by the decoder's error text.
pub open spec fn is_decompression_error(m: Seq<char>) -> bool {
    "Decompression failed: "@.is_prefix_of(m)
}

/// Whether `data` ends with the zlib sync-flush marker `00 00 FF FF` that ends
/// each gateway message.
pub open spec fn ends_with_flush(data: Seq<u8>) -> bool {
    data.len() >= 4 && data[data.len() - 4] == 0x00 && data[data.len() - 3] == 0x00
        && data[data.len() - 2] == 0xff && data[data.len() - 1] == 0xff
}

/// The outcome of a binary frame for the bytes kept: a frame that would make the
/// buffer exceed the limit empties it; a frame that ends a message empties it
/// after decompression; any other frame is appended.
pub open spec fn buffer_after(buffer: Seq<u8>, data: Seq<u8>) -> Seq<u8> {
    if buffer.len() + data.len() > MAX_ZLIB_BUFFER_SIZE {
        Seq::empty()
    } else if ends_with_flush(data) {
        Seq::empty()
    } else {
        buffer + data
    }
}

/// Accumulates zlib-compressed binary gateway frames until a whole message has
/// arrived.
#[derive(Debug)]
pub struct ZlibBuffer {
    buffer: Vec<u8>,
}

impl View for ZlibBuffer {
    type V = Seq<u8>;

    closed spec fn view(&self) -> Seq<u8> {
        self.buffer@
    }
}

impl ZlibBuffer {
    /// An empty buffer.
    pub fn new() -> (r: Self)
        ensures
            r@ == Seq::<u8>::empty(),
    {
        ZlibBuffer { buffer: Vec::new() }
    }

    /// Drop every buffered byte.
    pub fn clear(&mut self)
        ensures
            final(self)@ == Seq::<u8>::empty(),
    {
        self.buffer.clear();
    }

    /// Take in a binary frame. A frame that would push the buffer over
    /// `MAX_ZLIB_BUFFER_SIZE` is an error; a frame that ends with the flush marker
    /// completes a message, whose decompressed text is returned (or the
    /// decompression error); any other frame is kept for later (`Ok(None)`).
    pub fn push_binary(&mut self, data: &[u8]) -> (r: Result<Option<String>, Error>)
        ensures
            final(self)@ == buffer_after(old(self)@, data@),
            old(self)@.len() + data@.len() > MAX_ZLIB_BUFFER_SIZE ==> (r matches Err(
                Error::WebSocket(m),
            ) && m@ == "Zlib buffer exceeded maximum size of 10485760 bytes"@),
            old(self)@.len() + data@.len() <= MAX_ZLIB_BUFFER_SIZE ==> {
                if ends_with_flush(data@) {
                    match zlib_text(old(self)@ + data@) {
                        Some(t) => r matches Ok(Some(s)) && s@ == t,
                        None => r matches Err(Error::WebSocket(m)) && is_decompression_error(m@),
                    }
                } else {
                    r matches Ok(None)
                }
            },
    {
        if self.buffer.len() > MAX_ZLIB_BUFFER_SIZE || data.len() > MAX_ZLIB_BUFFER_SIZE
            - self.buffer.len() {
            self.buffer.clear();
            return Err(Error::websocket("Zlib buffer exceeded maximum size of 10485760 bytes"));
        }
        let n = data.len();
        let mut i: usize = 0;
        let ghost start = self.buffer@;
        while i < n
            invariant
                n == data@.len(),
                i <= n,
                self.buffer@ == start + data@.subrange(0, i as int),
            decreases n - i,
        {
            self.buffer.push(data[i]);
            assert(start + data@.subrange(0, i + 1) =~= start + data@.subrange(0, i as int).push(
                data@[i as int],
            ));
            i = i + 1;
        }
        assert(data@.subrange(0, n as int) =~= data@);
        if n >= 4 && data[n - 4] == 0x00 && data[n - 3] == 0x00 && data[n - 2] == 0xff && data[n
            - 1] == 0xff {
            let result = inflate_to_string(self.buffer.as_slice());
            self.buffer.clear();
            match result {
                Ok(text) => Ok(Some(text)),
                Err(e) => {
                    let prefix = "Decompression failed: ";
                    let mut msg = String::from_str(prefix);
                    let detail = io_error_text(&e);
                    msg.append(detail.as_str());
                    proof {
                        assert((prefix@ + detail@).subrange(0, prefix@.len() as int) =~= prefix@);
                    }
                    Err(Error::WebSocket(msg))
                },
            }
        } else {
            Ok(None)
        }
    }
}

/// A WebSocket message as the gateway connection receives it.
#[derive(Debug)]
pub enum WsFrame {
    /// A text message.
    Text(String),
    /// A binary message: a piece of the zlib stream.
    Binary(Vec<u8>),
    /// A ping, with its payload.
    Ping(Vec<u8>),
    /// A pong.
    Pong,
    /// The peer closed the connection.
    Close,
    /// A raw frame.
    Frame,
}

/// What the connection does with a received message.
#[derive(Debug)]
pub enum FrameStep {
    /// Parse this JSON text as a gateway payload.
    Payload(String),
    /// Answer with a pong that carries these bytes.
    Pong(Vec<u8>),
    /// The gateway closed the connection; it is now disconnected.
    Closed,
    /// Nothing to do.
    Nothing,
}

impl ZlibBuffer {
    /// Handle a received WebSocket message: text is a payload to parse;
    /// binary goes through the zlib buffer (`push_binary`) and yields the
    /// text of a completed message; a ping is answered with a pong carrying
    /// its bytes; a close disconnects; anything else is ignored.
    pub fn handle_message(&mut self, frame: WsFrame) -> (r: Result<FrameStep, Error>)
        ensures
            match frame {
                WsFrame::Binary(data) => {
                    &&& final(self)@ == buffer_after(old(self)@, data@)
                    &&& old(self)@.len() + data@.len() > MAX_ZLIB_BUFFER_SIZE ==> (r matches Err(
                        Error::WebSocket(m),
                    ) && m@ == "Zlib buffer exceeded maximum size of 10485760 bytes"@)
                    &&& old(self)@.len() + data@.len() <= MAX_ZLIB_BUFFER_SIZE ==> {
                        if ends_with_flush(data@) {
                            match zlib_text(old(self)@ + data@) {
                                Some(t) => r matches Ok(FrameStep::Payload(s)) && s@ == t,
                                None => r matches Err(Error::WebSocket(m)) && is_decompression_error(m@),
                            }
                        } else {
                            r matches Ok(FrameStep::Nothing)
                        }
                    }
                },
                WsFrame::Text(t) => {
                    &&& final(self)@ == old(self)@
                    &&& r matches Ok(FrameStep::Payload(s)) && s == t
                },
                WsFrame::Ping(d) => {
                    &&& final(self)@ == old(self)@
                    &&& r matches Ok(FrameStep::Pong(p)) && p@ == d@
                },
                WsFrame::Close => {
                    &&& final(self)@ == old(self)@
                    &&& r matches Ok(FrameStep::Closed)
                },
                _ => {
                    &&& final(self)@ == old(self)@
                    &&& r matches Ok(FrameStep::Nothing)
                },
            },
    {
        match frame {
            WsFrame::Text(text) => Ok(FrameStep::Payload(text)),
            WsFrame::Binary(data) => match self.push_binary(data.as_slice()) {
                Ok(Some(text)) => Ok(FrameStep::Payload(text)),
                Ok(None) => Ok(FrameStep::Nothing),
                Err(e) => Err(e),
            },
            WsFrame::Ping(data) => Ok(FrameStep::Pong(data)),
            WsFrame::Pong => Ok(FrameStep::Nothing),
            WsFrame::Close => Ok(FrameStep::Closed),
            WsFrame::Frame => Ok(FrameStep::Nothing),
        }
    }
}

} // verus!
