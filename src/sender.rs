//! The transport-independent half of each sender: what bytes a send or a
//! flush hands to the transport, and where to.
//!
//! A sender here owns no socket. Each operation returns the bytes that the
//! caller must hand to its connection: one packet for a datagram sender,
//! the bytes that leave the output buffer for a stream sender.
use vstd::prelude::*;
use vstd::string::StrSliceExecFns;
use vstd::slice::slice_to_vec;
use vstd::utf8::encode_utf8;
use crate::format::{opt_chars, rfc3164_text, rfc5424_text, SDElement, SyslogContext};
use crate::severity::Severity;
use crate::timestamp::Timestamp;

verus! {

/// The well-known port of syslog over UDP.
pub const SYSLOG_PORT: u16 = 514;

/// The well-known port of syslog over TLS.
pub const SYSLOG_TLS_PORT: u16 = 6514;

/// The capacity of a stream sender's output buffer.
pub const DEFAULT_BUFFER_CAPACITY: usize = 8192;

/// The bytes of a rendered message.
fn utf8_bytes(s: &str) -> (r: Vec<u8>)
    ensures
        r@ == encode_utf8(s@),
{
    s.as_bytes_vec()
}

/// An output buffer in front of a byte stream.
///
/// Written data is kept back until the buffer would overflow, or until a
/// flush; data at least as large as the buffer goes straight through. Bytes
/// leave in the order in which they were written.
#[derive(Debug)]
pub struct StreamBuffer {
    pending: Vec<u8>,
    capacity: usize,
}

impl StreamBuffer {
    /// The bytes written and not yet handed on.
    pub closed spec fn pending(&self) -> Seq<u8> {
        self.pending@
    }

    /// How many bytes the buffer holds at most.
    pub closed spec fn capacity(&self) -> nat {
        self.capacity as nat
    }

    pub closed spec fn wf(&self) -> bool {
        &&& 0 < self.capacity
        &&& self.pending@.len() <= self.capacity
    }

    /// An empty buffer of the given capacity.
    pub fn new(capacity: usize) -> (r: StreamBuffer)
        requires
            capacity > 0,
        ensures
            r.wf(),
            r.pending() == Seq::<u8>::empty(),
            r.capacity() == capacity,
    {
        StreamBuffer { pending: Vec::new(), capacity }
    }

    /// Writes `data`, and returns the bytes that must go to the stream now:
    /// those bytes followed by what stays in the buffer are what was pending
    /// followed by `data`. Data that fits is kept back; otherwise the pending
    /// bytes go first, and data as large as the buffer goes with them.
    pub fn write(&mut self, data: &[u8]) -> (out: Vec<u8>)
        requires
            old(self).wf(),
        ensures
            final(self).wf(),
            final(self).capacity() == old(self).capacity(),
            out@ + final(self).pending() == old(self).pending() + data@,
            data@.len() < old(self).capacity() && old(self).pending().len() + data@.len()
                <= old(self).capacity() ==> {
                &&& out@ == Seq::<u8>::empty()
                &&& final(self).pending() == old(self).pending() + data@
            },
            data@.len() < old(self).capacity() && old(self).pending().len() + data@.len()
                > old(self).capacity() ==> {
                &&& out@ == old(self).pending()
                &&& final(self).pending() == data@
            },
            data@.len() >= old(self).capacity() ==> {
                &&& out@ == old(self).pending() + data@
                &&& final(self).pending() == Seq::<u8>::empty()
            },
    {
        let spare = self.capacity - self.pending.len();
        let mut out: Vec<u8> = Vec::new();
        if data.len() > spare {
            std::mem::swap(&mut out, &mut self.pending);
        }
        if data.len() < self.capacity {
            self.pending.extend_from_slice(data);
        } else {
            out.extend_from_slice(data);
        }
        assert(out@ + self.pending@ =~= old(self).pending() + data@);
        out
    }

    /// Empties the buffer, and returns everything that was pending.
    pub fn flush(&mut self) -> (out: Vec<u8>)
        requires
            old(self).wf(),
        ensures
            final(self).wf(),
            final(self).capacity() == old(self).capacity(),
            out@ == old(self).pending(),
            final(self).pending() == Seq::<u8>::empty(),
    {
        let mut out: Vec<u8> = Vec::new();
        std::mem::swap(&mut out, &mut self.pending);
        out
    }
}

/// An IPv4 endpoint: the address as a 32-bit number, and a port.
#[derive(Debug, Clone, Copy, PartialEq, Eq, Structural)]
pub struct Endpoint {
    pub address: u32,
    pub port: u16,
}

/// The all-ones (limited broadcast) address, 255.255.255.255, on the given port.
pub open spec fn broadcast_endpoint(port: u16) -> Endpoint {
    Endpoint { address: 0xffff_ffff, port }
}

/// One packet and where it goes.
#[derive(Debug)]
pub struct Datagram {
    pub payload: Vec<u8>,
    pub destination: Endpoint,
}

/// The bytes of a legacy-format message.
pub open spec fn rfc3164_bytes(
    ctx: SyslogContext,
    severity: Severity,
    message: Seq<char>,
    t: Timestamp,
) -> Seq<u8> {
    encode_utf8(rfc3164_text(ctx, severity, Some(message), t))
}

/// The bytes of a modern-format message.
pub open spec fn rfc5424_bytes(
    ctx: SyslogContext,
    severity: Severity,
    msgid: Option<Seq<char>>,
    elements: Seq<SDElement>,
    message: Seq<char>,
    t: Timestamp,
) -> Seq<u8> {
    encode_utf8(rfc5424_text(ctx, severity, msgid, elements, Some(message), t))
}

/// A sender over a datagram transport: each send is one packet to the
/// connected peer, and a flush sends nothing.
#[derive(Debug)]
pub struct DatagramSender {
    pub context: SyslogContext,
}

/// The sender of a UDP socket connected to its peer.
pub type UdpSender = DatagramSender;

/// The sender of a local datagram socket.
pub type UnixDatagramSender = DatagramSender;

impl DatagramSender {
    /// A datagram sender that renders with the given context.
    pub fn new(context: SyslogContext) -> (r: DatagramSender)
        ensures
            r.context == context,
    {
        DatagramSender { context }
    }

    /// Replaces the context that messages are rendered with.
    pub fn set_context(&mut self, context: SyslogContext)
        ensures
            final(self).context == context,
    {
        self.context = context;
    }

    /// The packet of a legacy-format message.
    pub fn send_rfc3164(&self, severity: Severity, message: &str, timestamp: &Timestamp) -> (r: Vec<
        u8,
    >)
        ensures
            r@ == rfc3164_bytes(self.context, severity, message@, *timestamp),
    {
        let text = self.context.format_rfc3164(severity, Some(message), timestamp);
        utf8_bytes(text.as_str())
    }

    /// The packet of a modern-format message.
    pub fn send_rfc5424(
        &self,
        severity: Severity,
        msgid: Option<&str>,
        elements: Vec<SDElement>,
        message: &str,
        timestamp: &Timestamp,
    ) -> (r: Vec<u8>)
        ensures
            r@ == rfc5424_bytes(
                self.context,
                severity,
                opt_chars(msgid),
                elements@,
                message@,
                *timestamp,
            ),
    {
        let text = self.context.format_rfc5424(severity, msgid, elements, Some(message), timestamp);
        utf8_bytes(text.as_str())
    }

    /// The packet of a message formatted by the caller: the bytes as given.
    pub fn send_formatted(&self, formatted: &[u8]) -> (r: Vec<u8>)
        ensures
            r@ == formatted@,
    {
        slice_to_vec(formatted)
    }

    /// Nothing to flush: every send was already a whole packet.
    pub fn flush(&self) -> (r: Vec<u8>)
        ensures
            r@ == Seq::<u8>::empty(),
    {
        Vec::new()
    }
}

/// A sender that broadcasts each message as one UDP packet to the all-ones
/// address on a fixed port.
#[derive(Debug)]
pub struct BroadcastSender {
    pub port: u16,
    pub context: SyslogContext,
}

impl BroadcastSender {
    /// A broadcast sender for the given port.
    pub fn new(port: u16, context: SyslogContext) -> (r: BroadcastSender)
        ensures
            r.port == port,
            r.context == context,
    {
        BroadcastSender { port, context }
    }

    /// A broadcast sender for the well-known syslog port.
    pub fn well_known(context: SyslogContext) -> (r: BroadcastSender)
        ensures
            r.port == SYSLOG_PORT,
            r.context == context,
    {
        BroadcastSender::new(SYSLOG_PORT, context)
    }

    /// Replaces the context that messages are rendered with.
    pub fn set_context(&mut self, context: SyslogContext)
        ensures
            final(self).context == context,
            final(self).port == old(self).port,
    {
        self.context = context;
    }

    /// Where every packet of this sender goes.
    pub fn remote(&self) -> (r: Endpoint)
        ensures
            r == broadcast_endpoint(self.port),
    {
        Endpoint { address: 0xffff_ffff, port: self.port }
    }

    /// The packet of a legacy-format message.
    pub fn send_rfc3164(&self, severity: Severity, message: &str, timestamp: &Timestamp) -> (r:
        Datagram)
        ensures
            r.payload@ == rfc3164_bytes(self.context, severity, message@, *timestamp),
            r.destination == broadcast_endpoint(self.port),
    {
        let text = self.context.format_rfc3164(severity, Some(message), timestamp);
        Datagram { payload: utf8_bytes(text.as_str()), destination: self.remote() }
    }

    /// The packet of a modern-format message.
    pub fn send_rfc5424(
        &self,
        severity: Severity,
        msgid: Option<&str>,
        elements: Vec<SDElement>,
        message: &str,
        timestamp: &Timestamp,
    ) -> (r: Datagram)
        ensures
            r.payload@ == rfc5424_bytes(
                self.context,
                severity,
                opt_chars(msgid),
                elements@,
                message@,
                *timestamp,
            ),
            r.destination == broadcast_endpoint(self.port),
    {
        let text = self.context.format_rfc5424(severity, msgid, elements, Some(message), timestamp);
        Datagram { payload: utf8_bytes(text.as_str()), destination: self.remote() }
    }

    /// The packet of a message formatted by the caller: the bytes as given.
    pub fn send_formatted(&self, formatted: &[u8]) -> (r: Datagram)
        ensures
            r.payload@ == formatted@,
            r.destination == broadcast_endpoint(self.port),
    {
        Datagram { payload: slice_to_vec(formatted), destination: self.remote() }
    }

    /// Nothing to flush: every send was already a whole packet.
    pub fn flush(&self) -> (r: Vec<u8>)
        ensures
            r@ == Seq::<u8>::empty(),
    {
        Vec::new()
    }
}

/// A sender over a byte stream: each message is followed by a postfix so
/// that the peer can tell records apart, and goes through an output buffer
/// that only a flush is sure to empty.
#[derive(Debug)]
pub struct StreamSender {
    pub context: SyslogContext,
    pub postfix: String,
    pub buffer: StreamBuffer,
}

/// The sender of a TCP connection.
pub type TcpSender = StreamSender;

/// The sender of a local stream socket.
pub type UnixStreamSender = StreamSender;

impl StreamSender {
    pub open spec fn wf(&self) -> bool {
        self.buffer.wf()
    }

    /// What a write of `data` does to this sender: it keeps its context,
    /// postfix and buffer capacity, and the bytes `out` handed to the stream
    /// followed by the bytes then pending are those pending before followed
    /// by `data`.
    pub open spec fn writes(self, next: StreamSender, data: Seq<u8>, out: Seq<u8>) -> bool {
        &&& next.wf()
        &&& next.context == self.context
        &&& next.postfix == self.postfix
        &&& next.buffer.capacity() == self.buffer.capacity()
        &&& out + next.buffer.pending() == self.buffer.pending() + data
    }

    /// Writes compose: two writes in a row hand on, in all, the bytes that
    /// were pending followed by both data, in order, less what is pending after.
    pub proof fn lemma_writes_compose(
        self,
        mid: StreamSender,
        next: StreamSender,
        d1: Seq<u8>,
        o1: Seq<u8>,
        d2: Seq<u8>,
        o2: Seq<u8>,
    )
        requires
            self.writes(mid, d1, o1),
            mid.writes(next, d2, o2),
        ensures
            self.writes(next, d1 + d2, o1 + o2),
    {
        assert(o1 + o2 + next.buffer.pending() =~= o1 + (o2 + next.buffer.pending()));
        assert(self.buffer.pending() + (d1 + d2) =~= self.buffer.pending() + d1 + d2);
        assert(o1 + mid.buffer.pending() + d2 =~= o1 + (mid.buffer.pending() + d2));
    }

    /// A flush leaves nothing behind: after writes and then a flush, every
    /// byte that was pending and every byte written has been handed to the
    /// stream, in the order written.
    pub proof fn lemma_flush_hands_on_everything(
        self,
        mid: StreamSender,
        next: StreamSender,
        data: Seq<u8>,
        o1: Seq<u8>,
        o2: Seq<u8>,
    )
        requires
            self.writes(mid, data, o1),
            mid.writes(next, Seq::<u8>::empty(), o2),
            o2 == mid.buffer.pending(),
            next.buffer.pending() == Seq::<u8>::empty(),
        ensures
            o1 + o2 == self.buffer.pending() + data,
    {
        assert(o1 + o2 =~= o1 + mid.buffer.pending());
    }

    /// A stream sender with the postfix CRLF and an empty buffer of the default capacity.
    pub fn new(context: SyslogContext) -> (r: StreamSender)
        ensures
            r.wf(),
            r.context == context,
            r.postfix@ == seq!['\r', '\n'],
            r.buffer.pending() == Seq::<u8>::empty(),
            r.buffer.capacity() == DEFAULT_BUFFER_CAPACITY,
    {
        let mut postfix = String::new();
        crate::text::push_char(&mut postfix, '\r');
        crate::text::push_char(&mut postfix, '\n');
        assert(postfix@ =~= seq!['\r', '\n']);
        StreamSender { context, postfix, buffer: StreamBuffer::new(DEFAULT_BUFFER_CAPACITY) }
    }

    /// Replaces the text written after every message.
    pub fn set_postfix(&mut self, postfix: String)
        ensures
            final(self).postfix == postfix,
            final(self).context == old(self).context,
            final(self).buffer == old(self).buffer,
    {
        self.postfix = postfix;
    }

    /// Replaces the context that messages are rendered with.
    pub fn set_context(&mut self, context: SyslogContext)
        ensures
            final(self).context == context,
            final(self).postfix == old(self).postfix,
            final(self).buffer == old(self).buffer,
    {
        self.context = context;
    }

    fn write_framed(&mut self, mut bytes: Vec<u8>) -> (out: Vec<u8>)
        requires
            old(self).wf(),
        ensures
            old(self).writes(*final(self), bytes@ + encode_utf8(old(self).postfix@), out@),
    {
        let mut post = utf8_bytes(self.postfix.as_str());
        bytes.append(&mut post);
        self.buffer.write(bytes.as_slice())
    }

    /// Writes a legacy-format message and the postfix, and returns the bytes
    /// that must go to the stream now.
    pub fn send_rfc3164(&mut self, severity: Severity, message: &str, timestamp: &Timestamp) -> (out:
        Vec<u8>)
        requires
            old(self).wf(),
        ensures
            old(self).writes(
                *final(self),
                rfc3164_bytes(old(self).context, severity, message@, *timestamp) + encode_utf8(
                    old(self).postfix@,
                ),
                out@,
            ),
    {
        let text = self.context.format_rfc3164(severity, Some(message), timestamp);
        self.write_framed(utf8_bytes(text.as_str()))
    }

    /// Writes a modern-format message and the postfix, and returns the bytes
    /// that must go to the stream now.
    pub fn send_rfc5424(
        &mut self,
        severity: Severity,
        msgid: Option<&str>,
        elements: Vec<SDElement>,
        message: &str,
        timestamp: &Timestamp,
    ) -> (out: Vec<u8>)
        requires
            old(self).wf(),
        ensures
            old(self).writes(
                *final(self),
                rfc5424_bytes(
                    old(self).context,
                    severity,
                    opt_chars(msgid),
                    elements@,
                    message@,
                    *timestamp,
                ) + encode_utf8(old(self).postfix@),
                out@,
            ),
    {
        let text = self.context.format_rfc5424(severity, msgid, elements, Some(message), timestamp);
        self.write_framed(utf8_bytes(text.as_str()))
    }

    /// Writes a message formatted by the caller, as given, and the postfix,
    /// and returns the bytes that must go to the stream now.
    pub fn send_formatted(&mut self, formatted: &[u8]) -> (out: Vec<u8>)
        requires
            old(self).wf(),
        ensures
            old(self).writes(*final(self), formatted@ + encode_utf8(old(self).postfix@), out@),
    {
        self.write_framed(slice_to_vec(formatted))
    }

    /// Empties the buffer: returns every byte written and not yet handed
    /// to the stream, which must be written and flushed.
    pub fn flush(&mut self) -> (out: Vec<u8>)
        requires
            old(self).wf(),
        ensures
            old(self).writes(*final(self), Seq::<u8>::empty(), out@),
            out@ == old(self).buffer.pending(),
            final(self).buffer.pending() == Seq::<u8>::empty(),
    {
        let out = self.buffer.flush();
        assert(out@ + self.buffer.pending() =~= old(self).buffer.pending() + Seq::<u8>::empty());
        out
    }
}

} // verus!
