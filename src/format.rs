//! The message formatting engine: the legacy (RFC 3164) and the modern
//! (RFC 5424) wire formats.
use vstd::prelude::*;
use vstd::string::StringExecFns;
use crate::severity::{priority, priority_of, Facility, Severity};
use crate::text::{decimal, push_char, push_decimal};
use crate::timestamp::{lemma_timestamp_widths, legacy_text, push_legacy_timestamp, push_rfc3339_timestamp, rfc3339_text, Timestamp};

verus! {

/// One parameter of a structured-data element.
#[derive(Debug, Clone)]
pub struct SDParam {
    pub name: String,
    pub value: String,
}

/// A named group of parameters attached to a modern-format message.
#[derive(Debug, Clone)]
pub struct SDElement {
    pub id: String,
    pub params: Vec<SDParam>,
}

/// The identity a message is rendered with.
#[derive(Debug, Clone)]
pub struct SyslogContext {
    pub facility: Facility,
    pub hostname: Option<String>,
    pub appname: Option<String>,
    pub procid: Option<String>,
}

/// The characters of an optional string slice.
pub open spec fn opt_chars(o: Option<&str>) -> Option<Seq<char>> {
    match o {
        Some(s) => Some(s@),
        None => None,
    }
}

/// A field's text, or the nil value `-` when it is absent.
pub open spec fn nil_or(o: Option<Seq<char>>) -> Seq<char> {
    match o {
        Some(s) => s,
        None => seq!['-'],
    }
}

/// The characters of an optional owned string.
pub open spec fn opt_string(o: Option<String>) -> Option<Seq<char>> {
    match o {
        Some(s) => Some(s@),
        None => None,
    }
}

/// Whether a character must be preceded by a backslash inside a parameter value.
pub open spec fn needs_escape(c: char) -> bool {
    c == '\\' || c == '"' || c == ']'
}

/// One character of a parameter value as it appears on the wire.
pub open spec fn escape_char(c: char) -> Seq<char> {
    if needs_escape(c) {
        seq!['\\', c]
    } else {
        seq![c]
    }
}

/// A parameter value with each backslash, double quote and right bracket
/// preceded by a backslash.
pub open spec fn escape(s: Seq<char>) -> Seq<char>
    decreases s.len(),
{
    if s.len() == 0 {
        Seq::empty()
    } else {
        escape(s.drop_last()) + escape_char(s.last())
    }
}

/// ` name="value"`, the value escaped.
pub open spec fn param_text(p: SDParam) -> Seq<char> {
    seq![' '] + p.name@ + seq!['=', '"'] + escape(p.value@) + seq!['"']
}

/// The parameters of an element, one after the other.
pub open spec fn params_text(ps: Seq<SDParam>) -> Seq<char>
    decreases ps.len(),
{
    if ps.len() == 0 {
        Seq::empty()
    } else {
        params_text(ps.drop_last()) + param_text(ps.last())
    }
}

/// `[id name="value" ...]`.
pub open spec fn element_text(e: SDElement) -> Seq<char> {
    seq!['['] + e.id@ + params_text(e.params@) + seq![']']
}

/// The elements, with no separator between them.
pub open spec fn elements_text(es: Seq<SDElement>) -> Seq<char>
    decreases es.len(),
{
    if es.len() == 0 {
        Seq::empty()
    } else {
        elements_text(es.drop_last()) + element_text(es.last())
    }
}

/// The structured-data field: the elements, or `-` when there are none.
pub open spec fn structured_data_text(es: Seq<SDElement>) -> Seq<char> {
    if es.len() == 0 {
        seq!['-']
    } else {
        elements_text(es)
    }
}

/// `<PRI>`.
pub open spec fn pri_text(f: Facility, s: Severity) -> Seq<char> {
    seq!['<'] + decimal(priority_of(f, s)) + seq!['>']
}

/// The tag of the legacy format: the application name (or `-`), followed
/// by the process id in brackets when there is one.
pub open spec fn tag_text(ctx: SyslogContext) -> Seq<char> {
    nil_or(opt_string(ctx.appname)) + match ctx.procid {
        Some(p) => seq!['['] + p@ + seq![']'],
        None => Seq::empty(),
    }
}

/// The legacy text after its timestamp: ` HOSTNAME TAG: MESSAGE`.
pub open spec fn rfc3164_after_timestamp(ctx: SyslogContext, message: Option<Seq<char>>) -> Seq<
    char,
> {
    seq![' '] + nil_or(opt_string(ctx.hostname)) + seq![' '] + tag_text(ctx) + match message {
        Some(m) => seq![':', ' '] + m,
        None => Seq::empty(),
    }
}

/// The modern text after its timestamp: ` HOSTNAME APP-NAME PROCID MSGID STRUCTURED-DATA MESSAGE`.
pub open spec fn rfc5424_after_timestamp(
    ctx: SyslogContext,
    msgid: Option<Seq<char>>,
    elements: Seq<SDElement>,
    message: Option<Seq<char>>,
) -> Seq<char> {
    seq![' '] + nil_or(opt_string(ctx.hostname)) + seq![' '] + nil_or(opt_string(ctx.appname))
        + seq![' '] + nil_or(opt_string(ctx.procid)) + seq![' '] + nil_or(msgid) + seq![' ']
        + structured_data_text(elements) + match message {
        Some(m) => seq![' '] + m,
        None => Seq::empty(),
    }
}

/// `<PRI>Mmm dd hh:mm:ss HOSTNAME TAG: MESSAGE`; without a message the
/// header ends after the tag.
pub open spec fn rfc3164_text(
    ctx: SyslogContext,
    severity: Severity,
    message: Option<Seq<char>>,
    t: Timestamp,
) -> Seq<char> {
    pri_text(ctx.facility, severity) + legacy_text(t) + rfc3164_after_timestamp(ctx, message)
}

/// `<PRI>1 TIMESTAMP HOSTNAME APP-NAME PROCID MSGID STRUCTURED-DATA MESSAGE`;
/// without a message the text ends after the structured data.
pub open spec fn rfc5424_text(
    ctx: SyslogContext,
    severity: Severity,
    msgid: Option<Seq<char>>,
    elements: Seq<SDElement>,
    message: Option<Seq<char>>,
    t: Timestamp,
) -> Seq<char> {
    pri_text(ctx.facility, severity) + seq!['1', ' '] + rfc3339_text(t) + rfc5424_after_timestamp(
        ctx,
        msgid,
        elements,
        message,
    )
}

proof fn lemma_splice_agrees(p: Seq<char>, a: Seq<char>, b: Seq<char>, rest: Seq<char>)
    requires
        a.len() == b.len(),
    ensures
        (p + a + rest).len() == (p + b + rest).len(),
        forall|i: int|
            0 <= i < (p + a + rest).len() && !(p.len() <= i < p.len() + a.len()) ==> #[trigger] (p + a
                + rest)[i] == (p + b + rest)[i],
{
}

/// Rendering depends on nothing but its inputs, and the instant shows only
/// in the timestamp field: the legacy text is the priority, the timestamp
/// and a tail that does not depend on the instant, and the timestamp has a
/// fixed width, so texts rendered at two instants have the same length and
/// agree outside that field.
pub proof fn lemma_rfc3164_only_timestamp_varies(
    ctx: SyslogContext,
    severity: Severity,
    message: Option<Seq<char>>,
    t1: Timestamp,
    t2: Timestamp,
)
    ensures
        rfc3164_text(ctx, severity, message, t1) == pri_text(ctx.facility, severity) + legacy_text(
            t1,
        ) + rfc3164_after_timestamp(ctx, message),
        rfc3164_text(ctx, severity, message, t1).len() == rfc3164_text(
            ctx,
            severity,
            message,
            t2,
        ).len(),
        forall|i: int|
            0 <= i < rfc3164_text(ctx, severity, message, t1).len() && !(pri_text(
                ctx.facility,
                severity,
            ).len() <= i < pri_text(ctx.facility, severity).len() + 15) ==> #[trigger] rfc3164_text(
                ctx,
                severity,
                message,
                t1,
            )[i] == rfc3164_text(ctx, severity, message, t2)[i],
{
    lemma_timestamp_widths(t1);
    lemma_timestamp_widths(t2);
    lemma_splice_agrees(
        pri_text(ctx.facility, severity),
        legacy_text(t1),
        legacy_text(t2),
        rfc3164_after_timestamp(ctx, message),
    );
}

/// The same for the modern format, whose timestamp is 32 characters wide
/// and follows the priority and the version `1 `.
pub proof fn lemma_rfc5424_only_timestamp_varies(
    ctx: SyslogContext,
    severity: Severity,
    msgid: Option<Seq<char>>,
    elements: Seq<SDElement>,
    message: Option<Seq<char>>,
    t1: Timestamp,
    t2: Timestamp,
)
    ensures
        rfc5424_text(ctx, severity, msgid, elements, message, t1) == pri_text(ctx.facility, severity)
            + seq!['1', ' '] + rfc3339_text(t1) + rfc5424_after_timestamp(
            ctx,
            msgid,
            elements,
            message,
        ),
        rfc5424_text(ctx, severity, msgid, elements, message, t1).len() == rfc5424_text(
            ctx,
            severity,
            msgid,
            elements,
            message,
            t2,
        ).len(),
        forall|i: int|
            0 <= i < rfc5424_text(ctx, severity, msgid, elements, message, t1).len() && !(pri_text(
                ctx.facility,
                severity,
            ).len() + 2 <= i < pri_text(ctx.facility, severity).len() + 34) ==> #[trigger] rfc5424_text(
                ctx,
                severity,
                msgid,
                elements,
                message,
                t1,
            )[i] == rfc5424_text(ctx, severity, msgid, elements, message, t2)[i],
{
    lemma_timestamp_widths(t1);
    lemma_timestamp_widths(t2);
    lemma_splice_agrees(
        pri_text(ctx.facility, severity) + seq!['1', ' '],
        rfc3339_text(t1),
        rfc3339_text(t2),
        rfc5424_after_timestamp(ctx, msgid, elements, message),
    );
}

/// With no hostname, application name, process id, message id or
/// structured data, each of those five fields is the nil value `-`.
pub proof fn lemma_rfc5424_absent_fields_are_nil(
    ctx: SyslogContext,
    severity: Severity,
    message: Option<Seq<char>>,
    t: Timestamp,
)
    requires
        ctx.hostname is None,
        ctx.appname is None,
        ctx.procid is None,
    ensures
        rfc5424_text(ctx, severity, None, Seq::empty(), message, t) == pri_text(ctx.facility, severity)
            + seq!['1', ' '] + rfc3339_text(t) + seq![' ', '-', ' ', '-', ' ', '-', ' ', '-', ' ', '-']
            + match message {
            Some(m) => seq![' '] + m,
            None => Seq::empty(),
        },
{
    assert(rfc5424_text(ctx, severity, None, Seq::empty(), message, t) =~= pri_text(
        ctx.facility,
        severity,
    ) + seq!['1', ' '] + rfc3339_text(t) + seq![' ', '-', ' ', '-', ' ', '-', ' ', '-', ' ', '-']
        + match message {
        Some(m) => seq![' '] + m,
        None => Seq::empty(),
    });
}

/// Reads escaped text back: a backslash followed by `\`, `"` or `]` stands
/// for that character, and every other character for itself.
pub open spec fn unescape(s: Seq<char>) -> Seq<char>
    decreases s.len(),
{
    if s.len() == 0 {
        Seq::empty()
    } else if s.len() >= 2 && needs_escape(s.last()) && s[s.len() - 2] == '\\' {
        unescape(s.subrange(0, s.len() - 2)) + seq![s.last()]
    } else {
        unescape(s.drop_last()) + seq![s.last()]
    }
}

/// Escaping loses nothing: reading the escaped value back gives the value,
/// so every `\`, `"` and `]` was preceded by exactly one added backslash and
/// no other character was altered.
pub proof fn lemma_unescape_escape(s: Seq<char>)
    ensures
        unescape(escape(s)) == s,
    decreases s.len(),
{
    if s.len() > 0 {
        let e = escape(s);
        let prev = escape(s.drop_last());
        lemma_unescape_escape(s.drop_last());
        if needs_escape(s.last()) {
            assert(e =~= prev + seq!['\\', s.last()]);
            assert(e.subrange(0, e.len() - 2) =~= prev);
        } else {
            assert(e =~= prev.push(s.last()));
            assert(e.drop_last() =~= prev);
        }
        assert(s =~= s.drop_last() + seq![s.last()]);
    }
}

fn push_str(out: &mut String, s: &str)
    ensures
        final(out)@ == old(out)@ + s@,
{
    out.append(s);
}

fn push_nil_or(out: &mut String, field: Option<&str>)
    ensures
        final(out)@ == old(out)@ + nil_or(opt_chars(field)),
{
    match field {
        Some(s) => push_str(out, s),
        None => push_char(out, '-'),
    }
}

fn as_opt_str(o: &Option<String>) -> (r: Option<&str>)
    ensures
        opt_chars(r) == opt_string(*o),
{
    match o {
        Some(s) => Some(s.as_str()),
        None => None,
    }
}

/// Appends a parameter value with `\`, `"` and `]` escaped.
pub fn push_escaped(out: &mut String, value: &str)
    ensures
        final(out)@ == old(out)@ + escape(value@),
{
    let ghost start = out@;
    for c in it: value.chars()
        invariant
            it.seq() == value@,
            out@ == start + escape(value@.take(it.index() as int)),
    {
        if c == '\\' || c == '"' || c == ']' {
            push_char(out, '\\');
        }
        push_char(out, c);
        proof {
            assert(value@.take(it.index() + 1).drop_last() =~= value@.take(it.index() as int));
            assert(out@ =~= start + escape(value@.take(it.index() + 1)));
        }
    }
    assert(value@.take(value@.len() as int) =~= value@);
}

/// Escapes a parameter value: each backslash, double quote and right bracket
/// gets a backslash in front of it, and nothing else changes.
pub fn escape_param_value(value: &str) -> (r: String)
    ensures
        r@ == escape(value@),
{
    let mut out = String::new();
    push_escaped(&mut out, value);
    assert(out@ =~= escape(value@));
    out
}

fn push_element(out: &mut String, e: &SDElement)
    ensures
        final(out)@ == old(out)@ + element_text(*e),
{
    let ghost start = out@;
    push_char(out, '[');
    push_str(out, e.id.as_str());
    let mut i: usize = 0;
    while i < e.params.len()
        invariant
            i <= e.params@.len(),
            out@ == start + seq!['['] + e.id@ + params_text(e.params@.take(i as int)),
        decreases e.params@.len() - i,
    {
        let p = &e.params[i];
        push_char(out, ' ');
        push_str(out, p.name.as_str());
        push_char(out, '=');
        push_char(out, '"');
        push_escaped(out, p.value.as_str());
        push_char(out, '"');
        proof {
            assert(e.params@.take(i + 1).drop_last() =~= e.params@.take(i as int));
            assert(out@ =~= start + seq!['['] + e.id@ + params_text(e.params@.take(i + 1)));
        }
        i = i + 1;
    }
    assert(e.params@.take(i as int) =~= e.params@);
    push_char(out, ']');
    assert(out@ =~= start + element_text(*e));
}

fn push_structured_data(out: &mut String, elements: &Vec<SDElement>)
    ensures
        final(out)@ == old(out)@ + structured_data_text(elements@),
{
    if elements.len() == 0 {
        push_char(out, '-');
        return;
    }
    let ghost start = out@;
    let mut i: usize = 0;
    while i < elements.len()
        invariant
            i <= elements@.len(),
            out@ == start + elements_text(elements@.take(i as int)),
        decreases elements@.len() - i,
    {
        push_element(out, &elements[i]);
        proof {
            assert(elements@.take(i + 1).drop_last() =~= elements@.take(i as int));
            assert(out@ =~= start + elements_text(elements@.take(i + 1)));
        }
        i = i + 1;
    }
    assert(elements@.take(i as int) =~= elements@);
}

fn push_pri(out: &mut String, facility: Facility, severity: Severity)
    ensures
        final(out)@ == old(out)@ + pri_text(facility, severity),
{
    push_char(out, '<');
    push_decimal(out, priority(facility, severity) as u32);
    push_char(out, '>');
    assert(out@ =~= old(out)@ + pri_text(facility, severity));
}

impl SyslogContext {
    /// A context with the given facility and no hostname, application name or process id.
    pub fn new(facility: Facility) -> (r: SyslogContext)
        ensures
            r.facility == facility,
            r.hostname is None,
            r.appname is None,
            r.procid is None,
    {
        SyslogContext { facility, hostname: None, appname: None, procid: None }
    }

    /// Renders a message in the legacy format at the given time.
    pub fn format_rfc3164(
        &self,
        severity: Severity,
        message: Option<&str>,
        timestamp: &Timestamp,
    ) -> (r: String)
        ensures
            r@ == rfc3164_text(*self, severity, opt_chars(message), *timestamp),
    {
        let mut out = String::new();
        push_pri(&mut out, self.facility, severity);
        push_legacy_timestamp(&mut out, timestamp);
        push_char(&mut out, ' ');
        push_nil_or(&mut out, as_opt_str(&self.hostname));
        push_char(&mut out, ' ');
        push_nil_or(&mut out, as_opt_str(&self.appname));
        match &self.procid {
            Some(p) => {
                push_char(&mut out, '[');
                push_str(&mut out, p.as_str());
                push_char(&mut out, ']');
            },
            None => {},
        }
        match message {
            Some(m) => {
                push_char(&mut out, ':');
                push_char(&mut out, ' ');
                push_str(&mut out, m);
            },
            None => {},
        }
        assert(out@ =~= rfc3164_text(*self, severity, opt_chars(message), *timestamp));
        out
    }

    fn push_rfc5424_tail(
        &self,
        out: &mut String,
        msgid: Option<&str>,
        elements: &Vec<SDElement>,
        message: Option<&str>,
    )
        ensures
            final(out)@ == old(out)@ + rfc5424_after_timestamp(
                *self,
                opt_chars(msgid),
                elements@,
                opt_chars(message),
            ),
    {
        push_char(out, ' ');
        push_nil_or(out, as_opt_str(&self.hostname));
        push_char(out, ' ');
        push_nil_or(out, as_opt_str(&self.appname));
        push_char(out, ' ');
        push_nil_or(out, as_opt_str(&self.procid));
        push_char(out, ' ');
        push_nil_or(out, msgid);
        push_char(out, ' ');
        push_structured_data(out, elements);
        match message {
            Some(m) => {
                push_char(out, ' ');
                push_str(out, m);
            },
            None => {},
        }
        assert(out@ =~= old(out)@ + rfc5424_after_timestamp(
            *self,
            opt_chars(msgid),
            elements@,
            opt_chars(message),
        ));
    }

    /// Renders a message in the modern format at the given time.
    pub fn format_rfc5424(
        &self,
        severity: Severity,
        msgid: Option<&str>,
        elements: Vec<SDElement>,
        message: Option<&str>,
        timestamp: &Timestamp,
    ) -> (r: String)
        ensures
            r@ == rfc5424_text(
                *self,
                severity,
                opt_chars(msgid),
                elements@,
                opt_chars(message),
                *timestamp,
            ),
    {
        let mut out = String::new();
        push_pri(&mut out, self.facility, severity);
        push_char(&mut out, '1');
        push_char(&mut out, ' ');
        push_rfc3339_timestamp(&mut out, timestamp);
        self.push_rfc5424_tail(&mut out, msgid, &elements, message);
        assert(out@ =~= rfc5424_text(
            *self,
            severity,
            opt_chars(msgid),
            elements@,
            opt_chars(message),
            *timestamp,
        ));
        out
    }
}

} // verus!
