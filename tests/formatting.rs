use fasyslog::{escape_param_value, priority, Facility, SDElement, SDParam, Severity, SyslogContext, Timestamp};

fn instant() -> Timestamp {
    Timestamp::new(2024, 3, 5, 7, 8, 9, 42, -90).unwrap()
}

fn later() -> Timestamp {
    Timestamp::new(2025, 12, 31, 23, 59, 60, 999_999, 330).unwrap()
}

fn identity(hostname: &str, appname: &str) -> SyslogContext {
    let mut ctx = SyslogContext::new(Facility::USER);
    ctx.hostname = Some(hostname.to_string());
    ctx.appname = Some(appname.to_string());
    ctx
}

#[test]
fn priority_combines_facility_and_severity() {
    assert_eq!(priority(Facility::USER, Severity::NOTICE), 13);
    assert_eq!(priority(Facility::KERN, Severity::EMERGENCY), 0);
    assert_eq!(priority(Facility::LOCAL7, Severity::DEBUG), 191);
    assert_eq!(priority(Facility::MAIL, Severity::ERROR), 19);
}

#[test]
fn priority_in_range_for_every_pair() {
    let facilities = [
        Facility::KERN, Facility::USER, Facility::MAIL, Facility::DAEMON, Facility::AUTH,
        Facility::SYSLOG, Facility::LPR, Facility::NEWS, Facility::UUCP, Facility::CRON,
        Facility::AUTHPRIV, Facility::FTP, Facility::NTP, Facility::AUDIT, Facility::ALERT,
        Facility::CLOCK, Facility::LOCAL0, Facility::LOCAL1, Facility::LOCAL2, Facility::LOCAL3,
        Facility::LOCAL4, Facility::LOCAL5, Facility::LOCAL6, Facility::LOCAL7,
    ];
    let severities = [
        Severity::EMERGENCY, Severity::ALERT, Severity::CRITICAL, Severity::ERROR,
        Severity::WARNING, Severity::NOTICE, Severity::INFORMATIONAL, Severity::DEBUG,
    ];
    for (f, facility) in facilities.iter().enumerate() {
        for (s, severity) in severities.iter().enumerate() {
            let p = priority(*facility, *severity);
            assert_eq!(p as usize, f * 8 + s);
            assert!(p <= 191);
        }
    }
}

#[test]
fn timestamp_rejects_out_of_range_fields() {
    assert!(Timestamp::new(2024, 13, 1, 0, 0, 0, 0, 0).is_none());
    assert!(Timestamp::new(2024, 1, 0, 0, 0, 0, 0, 0).is_none());
    assert!(Timestamp::new(2024, 1, 1, 24, 0, 0, 0, 0).is_none());
    assert!(Timestamp::new(2024, 1, 1, 0, 0, 0, 1_000_000, 0).is_none());
    assert!(Timestamp::new(2024, 1, 1, 0, 0, 0, 0, 1440).is_none());
    assert!(Timestamp::new(10000, 1, 1, 0, 0, 0, 0, 0).is_none());
}

#[test]
fn legacy_scenario_user_notice() {
    let ctx = identity("host", "app");
    let text = ctx.format_rfc3164(Severity::NOTICE, Some("hello"), &instant());
    assert!(text.starts_with("<13>"));
    assert!(text.ends_with("host app: hello"));
    assert_eq!(text, "<13>Mar  5 07:08:09 host app: hello");
}

#[test]
fn legacy_two_digit_day_and_process_id() {
    let mut ctx = identity("box", "daemon");
    ctx.procid = Some("4242".to_string());
    ctx.facility = Facility::DAEMON;
    let text = ctx.format_rfc3164(Severity::ERROR, Some("disk full"), &later());
    assert_eq!(text, "<27>Dec 31 23:59:60 box daemon[4242]: disk full");
}

#[test]
fn legacy_without_message_ends_after_tag() {
    let ctx = identity("host", "app");
    let text = ctx.format_rfc3164(Severity::INFORMATIONAL, None, &instant());
    assert_eq!(text, "<14>Mar  5 07:08:09 host app");
}

#[test]
fn legacy_absent_identity_is_nil() {
    let ctx = SyslogContext::new(Facility::KERN);
    let text = ctx.format_rfc3164(Severity::EMERGENCY, Some("x"), &instant());
    assert_eq!(text, "<0>Mar  5 07:08:09 - -: x");
}

#[test]
fn modern_scenario_all_fields_absent() {
    let ctx = SyslogContext::new(Facility::USER);
    let text = ctx.format_rfc5424(Severity::NOTICE, None, Vec::new(), Some("ping"), &instant());
    assert!(text.starts_with("<13>1 "));
    assert!(text.ends_with("- - - - ping"));
    assert_eq!(text, "<13>1 2024-03-05T07:08:09.000042-01:30 - - - - - ping");
}

#[test]
fn modern_with_every_field() {
    let mut ctx = identity("mymachine.example.com", "su");
    ctx.procid = Some("77".to_string());
    ctx.facility = Facility::AUTH;
    let elements = vec![SDElement {
        id: "exampleSDID@32473".to_string(),
        params: vec![
            SDParam { name: "iut".to_string(), value: "3".to_string() },
            SDParam { name: "eventSource".to_string(), value: "Application".to_string() },
        ],
    }];
    let text = ctx.format_rfc5424(Severity::CRITICAL, Some("ID47"), elements, Some("'su root' failed"), &later());
    assert_eq!(
        text,
        "<34>1 2025-12-31T23:59:60.999999+05:30 mymachine.example.com su 77 ID47 [exampleSDID@32473 iut=\"3\" eventSource=\"Application\"] 'su root' failed"
    );
}

#[test]
fn modern_without_message_ends_after_structured_data() {
    let ctx = SyslogContext::new(Facility::USER);
    let text = ctx.format_rfc5424(Severity::DEBUG, Some("M1"), Vec::new(), None, &instant());
    assert_eq!(text, "<15>1 2024-03-05T07:08:09.000042-01:30 - - - M1 -");
}

#[test]
fn structured_data_scenario_escaped_quote() {
    let ctx = SyslogContext::new(Facility::USER);
    let elements = vec![SDElement {
        id: "ex".to_string(),
        params: vec![SDParam { name: "param".to_string(), value: "a\"b".to_string() }],
    }];
    let text = ctx.format_rfc5424(Severity::NOTICE, None, elements, Some("m"), &instant());
    assert!(text.contains("[ex param=\"a\\\"b\"]"));
    assert!(text.ends_with(" - - - - [ex param=\"a\\\"b\"] m"));
}

#[test]
fn elements_are_concatenated_without_separator() {
    let ctx = SyslogContext::new(Facility::USER);
    let elements = vec![
        SDElement { id: "a".to_string(), params: Vec::new() },
        SDElement { id: "b".to_string(), params: vec![SDParam { name: "k".to_string(), value: "v".to_string() }] },
    ];
    let text = ctx.format_rfc5424(Severity::NOTICE, None, elements, None, &instant());
    assert!(text.ends_with(" - - - - [a][b k=\"v\"]"));
}

#[test]
fn escaping_marks_each_reserved_character_once() {
    assert_eq!(escape_param_value("a\"b"), "a\\\"b");
    assert_eq!(escape_param_value("x\\y]z"), "x\\\\y\\]z");
    assert_eq!(escape_param_value("plain text [ok]"), "plain text [ok\\]");
    assert_eq!(escape_param_value(""), "");
    assert_eq!(escape_param_value("\u{e9}t\u{e9}"), "\u{e9}t\u{e9}");
}

#[test]
fn rendering_is_deterministic() {
    let ctx = identity("h", "a");
    let a = ctx.format_rfc5424(Severity::WARNING, Some("id"), Vec::new(), Some("same"), &instant());
    let b = ctx.format_rfc5424(Severity::WARNING, Some("id"), Vec::new(), Some("same"), &instant());
    assert_eq!(a, b);
    let c = ctx.format_rfc3164(Severity::WARNING, Some("same"), &instant());
    let d = ctx.format_rfc3164(Severity::WARNING, Some("same"), &instant());
    assert_eq!(c, d);
}

#[test]
fn only_the_timestamp_varies_between_instants() {
    let ctx = identity("h", "a");
    let a = ctx.format_rfc3164(Severity::WARNING, Some("msg"), &instant());
    let b = ctx.format_rfc3164(Severity::WARNING, Some("msg"), &later());
    assert_eq!(a.len(), b.len());
    assert_eq!(a[..4], b[..4]);
    assert_eq!(a[4 + 15..], b[4 + 15..]);
    assert_ne!(a[4..4 + 15], b[4..4 + 15]);
    let c = ctx.format_rfc5424(Severity::WARNING, None, Vec::new(), Some("msg"), &instant());
    let d = ctx.format_rfc5424(Severity::WARNING, None, Vec::new(), Some("msg"), &later());
    assert_eq!(c.len(), d.len());
    assert_eq!(c[..6], d[..6]);
    assert_eq!(c[6 + 32..], d[6 + 32..]);
}
