//! The syslog priority model: severities, facilities and the priority value
//! that combines them.
use vstd::prelude::*;

verus! {

/// How urgent a message is, from the most severe (0) to the least (7).
#[allow(non_camel_case_types)]
#[derive(Debug, Clone, Copy, PartialEq, Eq, Structural)]
pub enum Severity {
    EMERGENCY,
    ALERT,
    CRITICAL,
    ERROR,
    WARNING,
    NOTICE,
    INFORMATIONAL,
    DEBUG,
}

/// Where a message comes from: the kernel, a user process, the mail system, and so on.
#[allow(non_camel_case_types)]
#[derive(Debug, Clone, Copy, PartialEq, Eq, Structural)]
pub enum Facility {
    KERN,
    USER,
    MAIL,
    DAEMON,
    AUTH,
    SYSLOG,
    LPR,
    NEWS,
    UUCP,
    CRON,
    AUTHPRIV,
    FTP,
    NTP,
    AUDIT,
    ALERT,
    CLOCK,
    LOCAL0,
    LOCAL1,
    LOCAL2,
    LOCAL3,
    LOCAL4,
    LOCAL5,
    LOCAL6,
    LOCAL7,
}

/// The numeric code of a severity.
pub open spec fn severity_code(s: Severity) -> nat {
    match s {
        Severity::EMERGENCY => 0,
        Severity::ALERT => 1,
        Severity::CRITICAL => 2,
        Severity::ERROR => 3,
        Severity::WARNING => 4,
        Severity::NOTICE => 5,
        Severity::INFORMATIONAL => 6,
        Severity::DEBUG => 7,
    }
}

/// The numeric code of a facility.
pub open spec fn facility_code(f: Facility) -> nat {
    match f {
        Facility::KERN => 0,
        Facility::USER => 1,
        Facility::MAIL => 2,
        Facility::DAEMON => 3,
        Facility::AUTH => 4,
        Facility::SYSLOG => 5,
        Facility::LPR => 6,
        Facility::NEWS => 7,
        Facility::UUCP => 8,
        Facility::CRON => 9,
        Facility::AUTHPRIV => 10,
        Facility::FTP => 11,
        Facility::NTP => 12,
        Facility::AUDIT => 13,
        Facility::ALERT => 14,
        Facility::CLOCK => 15,
        Facility::LOCAL0 => 16,
        Facility::LOCAL1 => 17,
        Facility::LOCAL2 => 18,
        Facility::LOCAL3 => 19,
        Facility::LOCAL4 => 20,
        Facility::LOCAL5 => 21,
        Facility::LOCAL6 => 22,
        Facility::LOCAL7 => 23,
    }
}

/// The priority value of a message: the facility code times eight plus the severity code.
pub open spec fn priority_of(f: Facility, s: Severity) -> nat {
    facility_code(f) * 8 + severity_code(s)
}

impl Severity {
    /// The numeric code of this severity.
    pub fn code(self) -> (r: u8)
        ensures
            r as nat == severity_code(self),
            r <= 7,
    {
        match self {
            Severity::EMERGENCY => 0,
            Severity::ALERT => 1,
            Severity::CRITICAL => 2,
            Severity::ERROR => 3,
            Severity::WARNING => 4,
            Severity::NOTICE => 5,
            Severity::INFORMATIONAL => 6,
            Severity::DEBUG => 7,
        }
    }
}

impl Facility {
    /// The numeric code of this facility.
    pub fn code(self) -> (r: u8)
        ensures
            r as nat == facility_code(self),
            r <= 23,
    {
        match self {
            Facility::KERN => 0,
            Facility::USER => 1,
            Facility::MAIL => 2,
            Facility::DAEMON => 3,
            Facility::AUTH => 4,
            Facility::SYSLOG => 5,
            Facility::LPR => 6,
            Facility::NEWS => 7,
            Facility::UUCP => 8,
            Facility::CRON => 9,
            Facility::AUTHPRIV => 10,
            Facility::FTP => 11,
            Facility::NTP => 12,
            Facility::AUDIT => 13,
            Facility::ALERT => 14,
            Facility::CLOCK => 15,
            Facility::LOCAL0 => 16,
            Facility::LOCAL1 => 17,
            Facility::LOCAL2 => 18,
            Facility::LOCAL3 => 19,
            Facility::LOCAL4 => 20,
            Facility::LOCAL5 => 21,
            Facility::LOCAL6 => 22,
            Facility::LOCAL7 => 23,
        }
    }
}

/// The priority value that heads every message of the given facility and severity.
pub fn priority(facility: Facility, severity: Severity) -> (r: u8)
    ensures
        r as nat == priority_of(facility, severity),
        r <= 191,
{
    facility.code() * 8 + severity.code()
}

/// Every facility and severity give a priority of `facility * 8 + severity`,
/// which lies between 0 and 191.
pub proof fn lemma_priority_range(facility: Facility, severity: Severity)
    ensures
        priority_of(facility, severity) == facility_code(facility) * 8 + severity_code(severity),
        0 <= priority_of(facility, severity) <= 191,
        facility_code(facility) <= 23,
        severity_code(severity) <= 7,
{
}

} // verus!
