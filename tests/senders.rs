use fasyslog::{
    rustls_well_known_address, BroadcastSender, DatagramSender, Endpoint, Facility, RustlsSender, Severity,
    StreamBuffer, StreamSender, SyslogContext, SyslogSender, Timestamp, TlsSetupError, SYSLOG_PORT,
};

fn instant() -> Timestamp {
    Timestamp::new(2024, 3, 5, 7, 8, 9, 42, 0).unwrap()
}

fn identity() -> SyslogContext {
    let mut ctx = SyslogContext::new(Facility::USER);
    ctx.hostname = Some("host".to_string());
    ctx.appname = Some("app".to_string());
    ctx
}

#[test]
fn buffer_keeps_small_writes_until_flush() {
    let mut buffer = StreamBuffer::new(8);
    assert!(buffer.write(b"abc").is_empty());
    assert!(buffer.write(b"de").is_empty());
    assert_eq!(buffer.flush(), b"abcde".to_vec());
    assert!(buffer.flush().is_empty());
}

#[test]
fn buffer_hands_on_pending_bytes_before_overflow() {
    let mut buffer = StreamBuffer::new(4);
    assert!(buffer.write(b"abc").is_empty());
    assert_eq!(buffer.write(b"de"), b"abc".to_vec());
    assert_eq!(buffer.flush(), b"de".to_vec());
}

#[test]
fn buffer_passes_large_writes_straight_through() {
    let mut buffer = StreamBuffer::new(4);
    assert!(buffer.write(b"a").is_empty());
    assert_eq!(buffer.write(b"bcdefg"), b"abcdefg".to_vec());
    assert!(buffer.flush().is_empty());
}

#[test]
fn stream_sender_appends_crlf_and_flush_drains() {
    let mut sender = StreamSender::new(identity());
    assert!(sender.send_formatted(b"one").is_empty());
    assert!(sender.send_rfc3164(Severity::NOTICE, "hello", &instant()).is_empty());
    let out = sender.flush();
    assert_eq!(out, b"one\r\n<13>Mar  5 07:08:09 host app: hello\r\n".to_vec());
    assert!(sender.flush().is_empty());
}

#[test]
fn stream_sender_custom_postfix() {
    let mut sender = StreamSender::new(SyslogContext::new(Facility::USER));
    sender.set_postfix("\n".to_string());
    sender.send_rfc5424(Severity::NOTICE, None, Vec::new(), "ping", &instant());
    assert_eq!(sender.flush(), b"<13>1 2024-03-05T07:08:09.000042+00:00 - - - - - ping\n".to_vec());
}

#[test]
fn datagram_sender_one_packet_per_send_and_empty_flush() {
    let sender = DatagramSender::new(identity());
    assert_eq!(sender.send_formatted(b"raw"), b"raw".to_vec());
    assert_eq!(sender.send_rfc3164(Severity::NOTICE, "h\u{e9}", &instant()), "<13>Mar  5 07:08:09 host app: h\u{e9}".as_bytes().to_vec());
    assert!(sender.flush().is_empty());
}

#[test]
fn broadcast_goes_to_all_ones_every_time() {
    let sender = BroadcastSender::new(1514, identity());
    let expected = Endpoint { address: 0xffff_ffff, port: 1514 };
    for _ in 0..3 {
        let d = sender.send_formatted(b"x");
        assert_eq!(d.destination, expected);
        assert_eq!(d.payload, b"x".to_vec());
        let d = sender.send_rfc3164(Severity::ALERT, "m", &instant());
        assert_eq!(d.destination, expected);
    }
    assert!(sender.flush().is_empty());
    assert_eq!(BroadcastSender::well_known(identity()).remote(), Endpoint { address: 0xffff_ffff, port: SYSLOG_PORT });
}

#[test]
fn tls_sender_checks_the_server_name() {
    assert!(RustlsSender::new("logs.example.com".to_string(), identity()).is_ok());
    assert!(RustlsSender::new("192.0.2.1".to_string(), identity()).is_ok());
    assert!(matches!(
        RustlsSender::new("not a host name!".to_string(), identity()),
        Err(TlsSetupError::InvalidServerName)
    ));
    assert!(RustlsSender::new(String::new(), identity()).is_err());
}

#[test]
fn tls_well_known_address() {
    assert_eq!(rustls_well_known_address("logs.example.com"), "logs.example.com:6514");
}

#[test]
fn tls_sender_frames_like_a_stream() {
    let mut sender = RustlsSender::new("example.com".to_string(), identity()).unwrap();
    sender.send_formatted(b"abc");
    assert_eq!(sender.flush(), b"abc\r\n".to_vec());
}

#[test]
fn unified_sender_dispatches() {
    let mut udp = SyslogSender::Udp(DatagramSender::new(identity()));
    assert_eq!(udp.send_formatted(b"p"), b"p".to_vec());
    assert!(udp.flush().is_empty());

    let mut tcp = SyslogSender::Tcp(StreamSender::new(identity()));
    assert!(tcp.send_formatted(b"p").is_empty());
    assert!(tcp.send_rfc3164(Severity::NOTICE, "hello", &instant()).is_empty());
    assert_eq!(tcp.flush(), b"p\r\n<13>Mar  5 07:08:09 host app: hello\r\n".to_vec());

    let mut unix = SyslogSender::UnixDatagram(DatagramSender::new(SyslogContext::new(Facility::USER)));
    let packet = unix.send_rfc5424(Severity::NOTICE, None, Vec::new(), "ping", &instant());
    assert_eq!(packet, b"<13>1 2024-03-05T07:08:09.000042+00:00 - - - - - ping".to_vec());
}
