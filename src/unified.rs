//! One sender type over every transport, dispatching each operation to the
//! sender of the active transport.
use vstd::prelude::*;
use vstd::utf8::encode_utf8;
use crate::format::{opt_chars, SDElement, SyslogContext};
use crate::sender::{rfc3164_bytes, rfc5424_bytes, DatagramSender, StreamSender};
use crate::severity::Severity;
use crate::timestamp::Timestamp;
use crate::tls::RustlsSender;

verus! {

/// Static dispatch over the different sender types.
#[derive(Debug)]
pub enum SyslogSender {
    Tcp(StreamSender),
    Udp(DatagramSender),
    RustlsSender(RustlsSender),
    UnixDatagram(DatagramSender),
    UnixStream(StreamSender),
}

impl SyslogSender {
    /// The stream sender of a stream transport; none for a datagram transport.
    pub open spec fn stream_part(self) -> Option<StreamSender> {
        match self {
            SyslogSender::Tcp(s) => Some(s),
            SyslogSender::RustlsSender(r) => Some(r.stream),
            SyslogSender::UnixStream(s) => Some(s),
            SyslogSender::Udp(_) => None,
            SyslogSender::UnixDatagram(_) => None,
        }
    }

    /// The same transport with its stream sender replaced.
    pub open spec fn with_stream(self, s: StreamSender) -> SyslogSender {
        match self {
            SyslogSender::Tcp(_) => SyslogSender::Tcp(s),
            SyslogSender::RustlsSender(r) => SyslogSender::RustlsSender(
                RustlsSender { server_name: r.server_name, stream: s },
            ),
            SyslogSender::UnixStream(_) => SyslogSender::UnixStream(s),
            SyslogSender::Udp(_) => self,
            SyslogSender::UnixDatagram(_) => self,
        }
    }

    /// The context messages are rendered with.
    pub open spec fn context(self) -> SyslogContext {
        match self {
            SyslogSender::Tcp(s) => s.context,
            SyslogSender::RustlsSender(r) => r.stream.context,
            SyslogSender::UnixStream(s) => s.context,
            SyslogSender::Udp(d) => d.context,
            SyslogSender::UnixDatagram(d) => d.context,
        }
    }

    pub open spec fn wf(self) -> bool {
        match self.stream_part() {
            Some(s) => s.wf(),
            None => true,
        }
    }

    /// What handing `data` to this sender does. A stream transport writes
    /// it followed by its postfix through its buffer, and `out` is what
    /// leaves the buffer; a datagram transport keeps no state, and `out` is
    /// the one packet, `data` itself.
    pub open spec fn delivers(self, next: SyslogSender, data: Seq<u8>, out: Seq<u8>) -> bool {
        match self.stream_part() {
            Some(s) => {
                &&& next.stream_part() is Some
                &&& next == self.with_stream(next.stream_part()->Some_0)
                &&& s.writes(next.stream_part()->Some_0, data + encode_utf8(s.postfix@), out)
            },
            None => next == self && out == data,
        }
    }

    /// Sends a legacy-format message; returns the bytes for the transport.
    pub fn send_rfc3164(&mut self, severity: Severity, message: &str, timestamp: &Timestamp) -> (out:
        Vec<u8>)
        requires
            old(self).wf(),
        ensures
            old(self).delivers(
                *final(self),
                rfc3164_bytes(old(self).context(), severity, message@, *timestamp),
                out@,
            ),
    {
        match self {
            SyslogSender::Tcp(sender) => sender.send_rfc3164(severity, message, timestamp),
            SyslogSender::Udp(sender) => sender.send_rfc3164(severity, message, timestamp),
            SyslogSender::RustlsSender(sender) => sender.send_rfc3164(severity, message, timestamp),
            SyslogSender::UnixDatagram(sender) => sender.send_rfc3164(severity, message, timestamp),
            SyslogSender::UnixStream(sender) => sender.send_rfc3164(severity, message, timestamp),
        }
    }

    /// Sends a modern-format message; returns the bytes for the transport.
    pub fn send_rfc5424(
        &mut self,
        severity: Severity,
        msgid: Option<&str>,
        elements: Vec<SDElement>,
        message: &str,
        timestamp: &Timestamp,
    ) -> (out: Vec<u8>)
        requires
            old(self).wf(),
        ensures
            old(self).delivers(
                *final(self),
                rfc5424_bytes(
                    old(self).context(),
                    severity,
                    opt_chars(msgid),
                    elements@,
                    message@,
                    *timestamp,
                ),
                out@,
            ),
    {
        match self {
            SyslogSender::Tcp(sender) => sender.send_rfc5424(
                severity,
                msgid,
                elements,
                message,
                timestamp,
            ),
            SyslogSender::Udp(sender) => sender.send_rfc5424(
                severity,
                msgid,
                elements,
                message,
                timestamp,
            ),
            SyslogSender::RustlsSender(sender) => sender.send_rfc5424(
                severity,
                msgid,
                elements,
                message,
                timestamp,
            ),
            SyslogSender::UnixDatagram(sender) => sender.send_rfc5424(
                severity,
                msgid,
                elements,
                message,
                timestamp,
            ),
            SyslogSender::UnixStream(sender) => sender.send_rfc5424(
                severity,
                msgid,
                elements,
                message,
                timestamp,
            ),
        }
    }

    /// Sends a message formatted by the caller; returns the bytes for the transport.
    pub fn send_formatted(&mut self, formatted: &[u8]) -> (out: Vec<u8>)
        requires
            old(self).wf(),
        ensures
            old(self).delivers(*final(self), formatted@, out@),
    {
        match self {
            SyslogSender::Tcp(sender) => sender.send_formatted(formatted),
            SyslogSender::Udp(sender) => sender.send_formatted(formatted),
            SyslogSender::RustlsSender(sender) => sender.send_formatted(formatted),
            SyslogSender::UnixDatagram(sender) => sender.send_formatted(formatted),
            SyslogSender::UnixStream(sender) => sender.send_formatted(formatted),
        }
    }

    /// Flushes: a stream transport returns every byte still buffered, which
    /// must be written and the stream flushed; a datagram transport returns
    /// nothing and changes nothing.
    pub fn flush(&mut self) -> (out: Vec<u8>)
        requires
            old(self).wf(),
        ensures
            final(self).wf(),
            match old(self).stream_part() {
                Some(s) => {
                    &&& final(self).stream_part() is Some
                    &&& *final(self) == old(self).with_stream(final(self).stream_part()->Some_0)
                    &&& s.writes(final(self).stream_part()->Some_0, Seq::<u8>::empty(), out@)
                    &&& out@ == s.buffer.pending()
                    &&& final(self).stream_part()->Some_0.buffer.pending() == Seq::<u8>::empty()
                },
                None => *final(self) == *old(self) && out@ == Seq::<u8>::empty(),
            },
    {
        match self {
            SyslogSender::Tcp(sender) => sender.flush(),
            SyslogSender::Udp(sender) => sender.flush(),
            SyslogSender::RustlsSender(sender) => sender.flush(),
            SyslogSender::UnixDatagram(sender) => sender.flush(),
            SyslogSender::UnixStream(sender) => sender.flush(),
        }
    }
}

} // verus!
