//! WebSocket proxying: the upstream URL and handshake, and the translation
//! of frames between the client and the upstream connection.
//!
//! The connections themselves are driven by the caller, which hands every
//! frame to the functions here and carries out the action they return.

use vstd::prelude::*;

use crate::ext::utf8_string;
use crate::proxy::{filter_headers, pairs_view, passed_headers, Header, HeaderPair, HeaderPolicy};
use crate::text::{
    opt_text,
    before_char, before_first, chars_of, copy_range, find, find_from, push_all, push_str, starts_with,
    starts_with_str, strip_trailing, strip_trailing_chars, to_string,
};

verus! {

// ---------------------------------------------------------------------------
// Upstream URL and handshake
// ---------------------------------------------------------------------------

/// The upstream WebSocket URL: `https://` becomes `wss://`, `http://`
/// becomes `ws://`, a base without scheme gets `ws://`; then the path, and
/// `?` with the query when it is not empty.
pub open spec fn websocket_url_text(upstream: Seq<char>, path: Seq<char>, query: Seq<char>) -> Seq<char> {
    let base = strip_trailing(upstream, '/');
    let url = if starts_with(base, "https://"@) {
        "wss://"@ + base.subrange(8, base.len() as int) + path
    } else if starts_with(base, "http://"@) {
        "ws://"@ + base.subrange(7, base.len() as int) + path
    } else {
        "ws://"@ + base + path
    };
    if query.len() == 0 {
        url
    } else {
        url + seq!['?'] + query
    }
}

/// Build the upstream WebSocket URL for a route's upstream.
pub fn websocket_upstream_url(upstream_url: &str, path: &str, query: &str) -> (r: String)
    ensures
        r@ == websocket_url_text(upstream_url@, path@, query@),
{
    let u = chars_of(upstream_url);
    let base = strip_trailing_chars(&u, '/');
    let n = base.len();
    let mut v: Vec<char>;
    if starts_with_str(&base, "https://") {
        proof {
            reveal_strlit("https://");
        }
        v = chars_of("wss://");
        let rest = copy_range(&base, 8, n);
        push_all(&mut v, &rest);
    } else if starts_with_str(&base, "http://") {
        proof {
            reveal_strlit("http://");
        }
        v = chars_of("ws://");
        let rest = copy_range(&base, 7, n);
        push_all(&mut v, &rest);
    } else {
        v = chars_of("ws://");
        push_all(&mut v, &base);
    }
    push_str(&mut v, path);
    let q = chars_of(query);
    if q.len() > 0 {
        let ghost before = v@;
        v.push('?');
        push_all(&mut v, &q);
        assert(v@ =~= before + seq!['?'] + q@);
    }
    to_string(&v)
}

/// The upstream WebSocket URL is the same prefix for every path and query
/// (it depends on the upstream alone), followed by the path, then `?` and
/// the query whenever the query is not empty, whatever the upstream's
/// scheme.
pub proof fn websocket_url_appends_path_and_query(upstream: Seq<char>, path: Seq<char>, query: Seq<char>)
    ensures
        query.len() > 0 ==> websocket_url_text(upstream, path, query) == websocket_url_text(
            upstream,
            Seq::empty(),
            Seq::empty(),
        ) + path + seq!['?'] + query,
        query.len() == 0 ==> websocket_url_text(upstream, path, query) == websocket_url_text(
            upstream,
            Seq::empty(),
            Seq::empty(),
        ) + path,
{
    let base = strip_trailing(upstream, '/');
    assert(base.subrange(8, base.len() as int) + path =~= base.subrange(8, base.len() as int) + Seq::<char>::empty()
        + path);
    assert(base.subrange(7, base.len() as int) + path =~= base.subrange(7, base.len() as int) + Seq::<char>::empty()
        + path);
    assert(base + path =~= base + Seq::<char>::empty() + path);
    assert("wss://"@ + base.subrange(8, base.len() as int) + path =~= ("wss://"@ + base.subrange(8, base.len() as int)
        + Seq::<char>::empty()) + path);
    assert("ws://"@ + base.subrange(7, base.len() as int) + path =~= ("ws://"@ + base.subrange(7, base.len() as int)
        + Seq::<char>::empty()) + path);
    assert("ws://"@ + base + path =~= ("ws://"@ + base + Seq::<char>::empty()) + path);
}

/// An upstream given as `https://` is reached over `wss://`, one given as
/// `http://` over `ws://`, with the rest of the upstream kept.
pub proof fn websocket_url_scheme(upstream: Seq<char>)
    ensures
        starts_with(strip_trailing(upstream, '/'), "https://"@) ==> websocket_url_text(
            upstream,
            Seq::empty(),
            Seq::empty(),
        ) == "wss://"@ + strip_trailing(upstream, '/').subrange(8, strip_trailing(upstream, '/').len() as int),
        !starts_with(strip_trailing(upstream, '/'), "https://"@) && starts_with(strip_trailing(upstream, '/'), "http://"@)
            ==> websocket_url_text(upstream, Seq::empty(), Seq::empty()) == "ws://"@ + strip_trailing(
            upstream,
            '/',
        ).subrange(7, strip_trailing(upstream, '/').len() as int),
{
    let base = strip_trailing(upstream, '/');
    assert("wss://"@ + base.subrange(8, base.len() as int) + Seq::<char>::empty() =~= "wss://"@ + base.subrange(
        8,
        base.len() as int,
    ));
    assert("ws://"@ + base.subrange(7, base.len() as int) + Seq::<char>::empty() =~= "ws://"@ + base.subrange(
        7,
        base.len() as int,
    ));
}

/// The `Host` of the handshake: the text between the first and the second
/// `://` of the URL, up to its first `/`; empty when the URL has no `://`.
pub open spec fn handshake_host_text(url: Seq<char>) -> Seq<char> {
    match find_from(url, "://"@, 0) {
        Some(i) => {
            let rest = url.subrange(i + "://"@.len(), url.len() as int);
            let segment = match find_from(rest, "://"@, 0) {
                Some(j) => rest.subrange(0, j),
                None => rest,
            };
            before_char(segment, '/')
        },
        None => Seq::empty(),
    }
}

/// The `Host` header of the upstream handshake.
pub fn handshake_host(url: &str) -> (r: String)
    ensures
        r@ == handshake_host_text(url@),
{
    let u = chars_of(url);
    let sep = chars_of("://");
    let n = u.len();
    let sl = sep.len();
    match find(&u, &sep) {
        Some(i) => {
            let rest = copy_range(&u, i + sl, n);
            let rl = rest.len();
            let segment = match find(&rest, &sep) {
                Some(j) => copy_range(&rest, 0, j),
                None => {
                    assert(rest@.subrange(0, rl as int) =~= rest@);
                    copy_range(&rest, 0, rl)
                },
            };
            let h = before_first(&segment, '/');
            to_string(&h)
        },
        None => {
            let e: Vec<char> = Vec::new();
            to_string(&e)
        },
    }
}

/// The client's headers sent on with the upstream handshake: all with a text
/// value, except those the handshake sets itself and client-supplied
/// forwarding headers, so a client cannot spoof its identity upstream.
pub fn handshake_headers(headers: &[Header]) -> (r: Vec<HeaderPair>)
    ensures
        pairs_view(r@) == passed_headers(headers@, HeaderPolicy::WebSocket),
{
    filter_headers(headers, HeaderPolicy::WebSocket)
}

/// The `Set-Cookie` headers of the upstream's handshake answer, every one of
/// them in order, to be added to the client's upgrade response.
pub fn upgrade_set_cookies(headers: &[Header]) -> (r: Vec<HeaderPair>)
    ensures
        pairs_view(r@) == passed_headers(headers@, HeaderPolicy::SetCookie),
{
    filter_headers(headers, HeaderPolicy::SetCookie)
}

// ---------------------------------------------------------------------------
// Frames
// ---------------------------------------------------------------------------

/// A close frame's reason on the client side.
pub struct CloseReason {
    pub code: u16,
    pub description: Option<String>,
}

/// A close frame's reason on the upstream side.
pub struct CloseFrame {
    pub code: u16,
    pub reason: String,
}

/// `frame` is the upstream close frame for the client close reason
/// `reason`: same code, the description or an empty reason.
pub open spec fn close_frame_for(reason: Option<CloseReason>, frame: Option<CloseFrame>) -> bool {
    match reason {
        None => frame is None,
        Some(c) => frame matches Some(f) && f.code == c.code && f.reason@ == match c.description {
            Some(d) => d@,
            None => Seq::<char>::empty(),
        },
    }
}

/// `reason` is the client close reason for the upstream close frame
/// `frame`: same code, the reason as description unless it is empty.
pub open spec fn close_reason_for(frame: Option<CloseFrame>, reason: Option<CloseReason>) -> bool {
    match frame {
        None => reason is None,
        Some(f) => reason matches Some(c) && c.code == f.code && (if f.reason@.len() == 0 {
            c.description is None
        } else {
            c.description matches Some(d) && d@ == f.reason@
        }),
    }
}

/// The upstream close frame for a client close reason.
pub fn upstream_close_frame(reason: Option<CloseReason>) -> (r: Option<CloseFrame>)
    ensures
        close_frame_for(reason, r),
{
    match reason {
        None => None,
        Some(c) => {
            let reason = match c.description {
                Some(d) => d,
                None => String::new(),
            };
            Some(CloseFrame { code: c.code, reason })
        },
    }
}

/// The client close reason for an upstream close frame.
pub fn client_close_reason(frame: Option<CloseFrame>) -> (r: Option<CloseReason>)
    ensures
        close_reason_for(frame, r),
{
    match frame {
        None => None,
        Some(f) => {
            let description = if f.reason.as_str().is_empty() {
                None
            } else {
                Some(f.reason)
            };
            Some(CloseReason { code: f.code, description })
        },
    }
}

/// A close passed from the client to the upstream and back keeps its code,
/// and its description unless that description is empty.
pub proof fn close_survives_round_trip(
    reason: Option<CloseReason>,
    frame: Option<CloseFrame>,
    back: Option<CloseReason>,
)
    requires
        close_frame_for(reason, frame),
        close_reason_for(frame, back),
    ensures
        reason is None <==> back is None,
        reason matches Some(c) ==> (back matches Some(b) && b.code == c.code && (opt_text(c.description)
            != Some(Seq::<char>::empty()) ==> opt_text(b.description) == opt_text(c.description))),
{
    if let Some(c) = reason {
        let f = frame->Some_0;
        let b = back->Some_0;
        assert(b.code == c.code);
        match c.description {
            Some(d) => {
                assert(f.reason@ == d@);
                if d@.len() > 0 {
                    assert(opt_text(b.description) == Some(d@));
                } else {
                    assert(d@ =~= Seq::<char>::empty());
                }
            },
            None => {
                assert(f.reason@.len() == 0);
                assert(b.description is None);
            },
        }
    }
}

/// A frame received from the client.
pub enum ClientFrame {
    Text(String),
    Binary(Vec<u8>),
    Ping(Vec<u8>),
    Pong(Vec<u8>),
    Close(Option<CloseReason>),
    /// First fragment of a fragmented text message.
    FirstText(Vec<u8>),
    /// First fragment of a fragmented binary message.
    FirstBinary(Vec<u8>),
    /// A middle fragment.
    Continue(Vec<u8>),
    /// The final fragment.
    Last(Vec<u8>),
    Nop,
}

/// A frame to send to the upstream.
pub enum UpstreamSend {
    Text(String),
    Binary(Vec<u8>),
    Ping(Vec<u8>),
    Pong(Vec<u8>),
    Close(Option<CloseFrame>),
}

/// What to do with a client frame: send `send` upstream (if any); after a
/// close, stop; otherwise stop only if the send fails.
pub struct ClientAction {
    pub send: Option<UpstreamSend>,
    pub close: bool,
}

/// The concatenation of message fragments.
pub open spec fn joined(fs: Seq<Seq<u8>>) -> Seq<u8>
    decreases fs.len(),
{
    if fs.len() == 0 {
        Seq::empty()
    } else {
        joined(fs.drop_last()) + fs.last()
    }
}

/// The fragments of a client message being assembled, and whether the
/// message is text.
pub struct FrameAssembler {
    pub fragments: Vec<Vec<u8>>,
    pub is_text: bool,
}

/// The frame sent upstream for a reassembled message: text when the message
/// began as text and is valid UTF-8, binary otherwise.
pub open spec fn assembled_send_ok(send: UpstreamSend, is_text: bool, bytes: Seq<u8>) -> bool {
    if is_text && vstd::utf8::valid_utf8(bytes) {
        send matches UpstreamSend::Text(t) && t@ == vstd::utf8::decode_utf8(bytes)
    } else {
        send matches UpstreamSend::Binary(b) && b@ == bytes
    }
}

impl FrameAssembler {
    /// No message in progress.
    pub fn new() -> (r: Self)
        ensures
            r.fragments@.len() == 0,
            !r.is_text,
    {
        FrameAssembler { fragments: Vec::new(), is_text: false }
    }

    fn join(&self) -> (r: Vec<u8>)
        ensures
            r@ == joined(self.fragments.deep_view()),
    {
        let mut out: Vec<u8> = Vec::new();
        let mut i: usize = 0;
        while i < self.fragments.len()
            invariant
                i <= self.fragments@.len(),
                out@ == joined(self.fragments.deep_view().take(i as int)),
            decreases self.fragments.len() - i,
        {
            let f = &self.fragments[i];
            let mut k: usize = 0;
            let ghost start = out@;
            while k < f.len()
                invariant
                    k <= f@.len(),
                    out@ == start + f@.subrange(0, k as int),
                decreases f.len() - k,
            {
                out.push(f[k]);
                k += 1;
                assert(out@ =~= start + f@.subrange(0, k as int));
            }
            assert(f@.subrange(0, f@.len() as int) =~= f@);
            assert(self.fragments.deep_view().take(i + 1).drop_last() =~= self.fragments.deep_view().take(
                i as int,
            ));
            i += 1;
        }
        assert(self.fragments.deep_view().take(self.fragments@.len() as int) =~= self.fragments.deep_view());
        out
    }

    /// Handles a frame from the client. Whole messages and control frames
    /// are sent on unchanged; fragments are collected and the message they
    /// form is sent when the last one arrives; a close is sent on and ends
    /// the session.
    pub fn on_client_frame(&mut self, frame: ClientFrame) -> (r: ClientAction)
        ensures
            match frame {
                ClientFrame::Text(t) => (r.send matches Some(UpstreamSend::Text(x)) && x@ == t@),
                ClientFrame::Binary(b) => (r.send matches Some(UpstreamSend::Binary(x)) && x@ == b@),
                ClientFrame::Ping(b) => (r.send matches Some(UpstreamSend::Ping(x)) && x@ == b@),
                ClientFrame::Pong(b) => (r.send matches Some(UpstreamSend::Pong(x)) && x@ == b@),
                ClientFrame::Close(c) => (r.send matches Some(UpstreamSend::Close(f)) && close_frame_for(c, f)),
                ClientFrame::Last(d) => r.send is Some && assembled_send_ok(
                    r.send->Some_0,
                    old(self).is_text,
                    joined(old(self).fragments.deep_view().push(d@)),
                ),
                _ => r.send is None,
            },
            r.close == (frame is Close),
            match frame {
                ClientFrame::FirstText(d) => final(self).fragments.deep_view() == seq![d@] && final(self).is_text,
                ClientFrame::FirstBinary(d) => final(self).fragments.deep_view() == seq![d@] && !final(self).is_text,
                ClientFrame::Continue(d) => final(self).fragments.deep_view() == old(self).fragments.deep_view().push(d@)
                    && final(self).is_text == old(self).is_text,
                ClientFrame::Last(_) => final(self).fragments@.len() == 0 && final(self).is_text == old(self).is_text,
                _ => final(self).fragments.deep_view() == old(self).fragments.deep_view() && final(self).is_text
                    == old(self).is_text,
            },
    {
        match frame {
            ClientFrame::Text(t) => ClientAction { send: Some(UpstreamSend::Text(t)), close: false },
            ClientFrame::Binary(b) => ClientAction { send: Some(UpstreamSend::Binary(b)), close: false },
            ClientFrame::Ping(b) => ClientAction { send: Some(UpstreamSend::Ping(b)), close: false },
            ClientFrame::Pong(b) => ClientAction { send: Some(UpstreamSend::Pong(b)), close: false },
            ClientFrame::Close(reason) => ClientAction {
                send: Some(UpstreamSend::Close(upstream_close_frame(reason))),
                close: true,
            },
            ClientFrame::FirstText(d) => {
                let ghost dv = d@;
                assert(d.deep_view() =~= dv);
                self.fragments = Vec::new();
                self.fragments.push(d);
                self.is_text = true;
                assert(self.fragments.deep_view() =~= seq![dv]);
                ClientAction { send: None, close: false }
            },
            ClientFrame::FirstBinary(d) => {
                let ghost dv = d@;
                assert(d.deep_view() =~= dv);
                self.fragments = Vec::new();
                self.fragments.push(d);
                self.is_text = false;
                assert(self.fragments.deep_view() =~= seq![dv]);
                ClientAction { send: None, close: false }
            },
            ClientFrame::Continue(d) => {
                let ghost before = self.fragments.deep_view();
                let ghost dv = d@;
                assert(d.deep_view() =~= dv);
                self.fragments.push(d);
                assert(self.fragments.deep_view() =~= before.push(dv));
                ClientAction { send: None, close: false }
            },
            ClientFrame::Last(d) => {
                let ghost before = self.fragments.deep_view();
                let ghost dv = d@;
                assert(d.deep_view() =~= dv);
                self.fragments.push(d);
                assert(self.fragments.deep_view() =~= before.push(dv));
                let complete = self.join();
                let copy = copy_bytes(&complete);
                let send = if self.is_text {
                    match utf8_string(complete) {
                        Some(text) => UpstreamSend::Text(text),
                        None => UpstreamSend::Binary(copy),
                    }
                } else {
                    UpstreamSend::Binary(copy)
                };
                self.fragments = Vec::new();
                ClientAction { send: Some(send), close: false }
            },
            ClientFrame::Nop => ClientAction { send: None, close: false },
        }
    }
}

fn copy_bytes(v: &Vec<u8>) -> (r: Vec<u8>)
    ensures
        r@ == v@,
{
    let mut r: Vec<u8> = Vec::new();
    let mut i: usize = 0;
    while i < v.len()
        invariant
            i <= v@.len(),
            r@ == v@.subrange(0, i as int),
        decreases v.len() - i,
    {
        r.push(v[i]);
        i += 1;
        assert(r@ =~= v@.subrange(0, i as int));
    }
    assert(v@.subrange(0, v@.len() as int) =~= v@);
    r
}

/// A frame received from the upstream.
pub enum UpstreamFrame {
    Text(String),
    Binary(Vec<u8>),
    Ping(Vec<u8>),
    Pong(Vec<u8>),
    Close(Option<CloseFrame>),
    /// A raw frame, not expected in normal operation.
    Frame,
}

/// A frame to send to the client.
pub enum ClientSend {
    Text(String),
    Binary(Vec<u8>),
    Ping(Vec<u8>),
    Pong(Vec<u8>),
}

/// What to do with an upstream frame.
pub enum UpstreamAction {
    /// Send to the client; stop if that fails.
    Forward(ClientSend),
    /// Close the client session with this reason and stop.
    Close(Option<CloseReason>),
    /// Nothing to send; go on.
    Ignore,
}

/// Handles a frame from the upstream: data and control frames go to the
/// client unchanged, a close closes the client session with the same code,
/// raw frames are ignored.
pub fn on_upstream_frame(frame: UpstreamFrame) -> (r: UpstreamAction)
    ensures
        match frame {
            UpstreamFrame::Text(t) => (r matches UpstreamAction::Forward(ClientSend::Text(x)) && x@ == t@),
            UpstreamFrame::Binary(b) => (r matches UpstreamAction::Forward(ClientSend::Binary(x)) && x@ == b@),
            UpstreamFrame::Ping(b) => (r matches UpstreamAction::Forward(ClientSend::Ping(x)) && x@ == b@),
            UpstreamFrame::Pong(b) => (r matches UpstreamAction::Forward(ClientSend::Pong(x)) && x@ == b@),
            UpstreamFrame::Close(f) => (r matches UpstreamAction::Close(c) && close_reason_for(f, c)),
            UpstreamFrame::Frame => r is Ignore,
        },
{
    match frame {
        UpstreamFrame::Text(t) => UpstreamAction::Forward(ClientSend::Text(t)),
        UpstreamFrame::Binary(b) => UpstreamAction::Forward(ClientSend::Binary(b)),
        UpstreamFrame::Ping(b) => UpstreamAction::Forward(ClientSend::Ping(b)),
        UpstreamFrame::Pong(b) => UpstreamAction::Forward(ClientSend::Pong(b)),
        UpstreamFrame::Close(f) => UpstreamAction::Close(client_close_reason(f)),
        UpstreamFrame::Frame => UpstreamAction::Ignore,
    }
}

} // verus!
