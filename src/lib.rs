//! Build syslog messages in the legacy (BSD) and modern (structured) wire
//! formats, and frame them for datagram and stream transports.
pub mod format;
pub mod sender;
pub mod severity;
pub mod text;
pub mod timestamp;
pub mod tls;
pub mod unified;

pub use format::{escape_param_value, SDElement, SDParam, SyslogContext};
pub use sender::{
    BroadcastSender, Datagram, DatagramSender, Endpoint, StreamBuffer, StreamSender, TcpSender,
    UdpSender, UnixDatagramSender, UnixStreamSender, DEFAULT_BUFFER_CAPACITY, SYSLOG_PORT,
    SYSLOG_TLS_PORT,
};
pub use severity::{priority, Facility, Severity};
pub use timestamp::Timestamp;
pub use tls::{rustls_well_known_address, RustlsSender, TlsSetupError};
pub use unified::SyslogSender;
