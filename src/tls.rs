//! The TLS stream sender: a stream sender bound to the name of the server
//! that the TLS session authenticates.
use vstd::prelude::*;
use rustls_pki_types::{InvalidDnsNameError, ServerName};
use crate::format::{opt_chars, SDElement, SyslogContext};
use crate::sender::{rfc3164_bytes, rfc5424_bytes, StreamSender, SYSLOG_TLS_PORT};
use crate::severity::Severity;
use crate::text::{decimal, push_decimal};
use crate::timestamp::Timestamp;
use vstd::string::StringExecFns;
use vstd::utf8::encode_utf8;

verus! {

#[verifier::external_type_specification]
#[verifier::external_body]
pub struct ExServerName<'a>(ServerName<'a>);

#[verifier::external_type_specification]
#[verifier::external_body]
pub struct ExInvalidDnsNameError(InvalidDnsNameError);

/// Whether a text is a DNS name or an IP address that can identify a TLS server.
pub uninterp spec fn is_server_name(domain: Seq<char>) -> bool;

/// Relies on `ServerName::try_from(String)` of rustls-pki-types: the text is
/// accepted as a DNS name or else as an IP address, or refused; the outcome
/// depends on the text alone.
#[verifier::external_body]
fn parse_server_name(domain: String) -> (r: Result<ServerName<'static>, InvalidDnsNameError>)
    ensures
        r is Ok <==> is_server_name(domain@),
{
    ServerName::try_from(domain)
}

/// Why a TLS sender could not be set up.
#[derive(Debug, Clone, Copy, PartialEq, Eq, Structural)]
pub enum TlsSetupError {
    /// The domain is neither a DNS name nor an IP address.
    InvalidServerName,
}

/// A stream sender whose stream is a TLS session with the named server.
#[derive(Debug)]
pub struct RustlsSender {
    pub server_name: ServerName<'static>,
    pub stream: StreamSender,
}

/// `host:6514`, the address of the well-known syslog-over-TLS port of a host.
pub open spec fn well_known_tls_address(domain: Seq<char>) -> Seq<char> {
    domain + seq![':'] + decimal(SYSLOG_TLS_PORT as nat)
}

/// The address of the well-known syslog-over-TLS port (6514) of a host.
pub fn rustls_well_known_address(domain: &str) -> (r: String)
    ensures
        r@ == well_known_tls_address(domain@),
{
    let mut out = String::from_str(domain);
    crate::text::push_char(&mut out, ':');
    push_decimal(&mut out, SYSLOG_TLS_PORT as u32);
    assert(out@ =~= well_known_tls_address(domain@));
    out
}

impl RustlsSender {
    /// A TLS sender for the server named `domain`, with a fresh stream
    /// sender; refused when the domain cannot name a TLS server.
    pub fn new(domain: String, context: SyslogContext) -> (r: Result<RustlsSender, TlsSetupError>)
        ensures
            r is Ok <==> is_server_name(domain@),
            r is Err ==> r->Err_0 == TlsSetupError::InvalidServerName,
            r matches Ok(s) ==> {
                &&& s.stream.wf()
                &&& s.stream.context == context
                &&& s.stream.postfix@ == seq!['\r', '\n']
                &&& s.stream.buffer.pending() == Seq::<u8>::empty()
            },
    {
        match parse_server_name(domain) {
            Ok(server_name) => Ok(RustlsSender { server_name, stream: StreamSender::new(context) }),
            Err(_) => Err(TlsSetupError::InvalidServerName),
        }
    }

    /// The server that the TLS session must authenticate.
    pub fn server_name(&self) -> (r: &ServerName<'static>)
        ensures
            r == self.server_name,
    {
        &self.server_name
    }

    /// Replaces the text written after every message.
    pub fn set_postfix(&mut self, postfix: String)
        ensures
            final(self).stream.postfix == postfix,
            final(self).stream.context == old(self).stream.context,
            final(self).stream.buffer == old(self).stream.buffer,
            final(self).server_name == old(self).server_name,
    {
        self.stream.set_postfix(postfix);
    }

    /// Replaces the context that messages are rendered with.
    pub fn set_context(&mut self, context: SyslogContext)
        ensures
            final(self).stream.context == context,
            final(self).stream.postfix == old(self).stream.postfix,
            final(self).stream.buffer == old(self).stream.buffer,
            final(self).server_name == old(self).server_name,
    {
        self.stream.set_context(context);
    }

    /// Writes a legacy-format message and the postfix, and returns the bytes
    /// that must go to the session now.
    pub fn send_rfc3164(&mut self, severity: Severity, message: &str, timestamp: &Timestamp) -> (out:
        Vec<u8>)
        requires
            old(self).stream.wf(),
        ensures
            final(self).server_name == old(self).server_name,
            old(self).stream.writes(
                final(self).stream,
                rfc3164_bytes(old(self).stream.context, severity, message@, *timestamp)
                    + encode_utf8(old(self).stream.postfix@),
                out@,
            ),
    {
        self.stream.send_rfc3164(severity, message, timestamp)
    }

    /// Writes a modern-format message and the postfix, and returns the bytes
    /// that must go to the session now.
    pub fn send_rfc5424(
        &mut self,
        severity: Severity,
        msgid: Option<&str>,
        elements: Vec<SDElement>,
        message: &str,
        timestamp: &Timestamp,
    ) -> (out: Vec<u8>)
        requires
            old(self).stream.wf(),
        ensures
            final(self).server_name == old(self).server_name,
            old(self).stream.writes(
                final(self).stream,
                rfc5424_bytes(
                    old(self).stream.context,
                    severity,
                    opt_chars(msgid),
                    elements@,
                    message@,
                    *timestamp,
                ) + encode_utf8(old(self).stream.postfix@),
                out@,
            ),
    {
        self.stream.send_rfc5424(severity, msgid, elements, message, timestamp)
    }

    /// Writes a message formatted by the caller, as given, and the postfix,
    /// and returns the bytes that must go to the session now.
    pub fn send_formatted(&mut self, formatted: &[u8]) -> (out: Vec<u8>)
        requires
            old(self).stream.wf(),
        ensures
            final(self).server_name == old(self).server_name,
            old(self).stream.writes(
                final(self).stream,
                formatted@ + encode_utf8(old(self).stream.postfix@),
                out@,
            ),
    {
        self.stream.send_formatted(formatted)
    }

    /// Empties the buffer: returns every byte written and not yet handed
    /// to the session, which must be written and flushed.
    pub fn flush(&mut self) -> (out: Vec<u8>)
        requires
            old(self).stream.wf(),
        ensures
            final(self).server_name == old(self).server_name,
            old(self).stream.writes(final(self).stream, Seq::<u8>::empty(), out@),
            out@ == old(self).stream.buffer.pending(),
            final(self).stream.buffer.pending() == Seq::<u8>::empty(),
    {
        self.stream.flush()
    }
}

} // verus!
