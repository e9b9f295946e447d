//! The host report.

use vstd::prelude::*;
use crate::messages::SystemStatsReponse;

verus! {

/// What the operating system tells of the host; a field the system could not
/// tell is `None`.
#[derive(Debug, Clone, PartialEq, Eq)]
pub struct SystemInfo {
    pub os_version: Option<String>,
    pub kernel_version: Option<String>,
    pub architecture: String,
    pub long_os_version: Option<String>,
    pub cpu_brand: String,
}

/// The text reported for a field: its value, or `unknown` where there is none.
pub open spec fn text_or_lower_unknown(field: Option<String>) -> Seq<char> {
    match field {
        Some(s) => s@,
        None => "unknown"@,
    }
}

fn or_lower_unknown(field: Option<String>) -> (text: String)
    ensures
        text@ == text_or_lower_unknown(field),
        field matches Some(s) ==> text@ == s@,
        field is None ==> text@ == "unknown"@,
{
    match field {
        Some(s) => s,
        None => "unknown".to_string(),
    }
}

/// Builds the host report: each field the system could not tell reads `unknown`;
/// architecture and processor brand are passed through.
pub fn get_system_stats(info: SystemInfo) -> (report: SystemStatsReponse)
    ensures
        report.version@ == text_or_lower_unknown(info.os_version),
        report.kernel_version@ == text_or_lower_unknown(info.kernel_version),
        report.architecture@ == info.architecture@,
        report.os@ == text_or_lower_unknown(info.long_os_version),
        report.cpu@ == info.cpu_brand@,
        info.os_version matches Some(s) ==> report.version@ == s@,
        info.os_version is None ==> report.version@ == "unknown"@,
        info.kernel_version matches Some(s) ==> report.kernel_version@ == s@,
        info.kernel_version is None ==> report.kernel_version@ == "unknown"@,
        info.long_os_version matches Some(s) ==> report.os@ == s@,
        info.long_os_version is None ==> report.os@ == "unknown"@,
{
    SystemStatsReponse {
        version: or_lower_unknown(info.os_version),
        kernel_version: or_lower_unknown(info.kernel_version),
        architecture: info.architecture,
        os: or_lower_unknown(info.long_os_version),
        cpu: info.cpu_brand,
    }
}

/// A field the system could tell is reported as the system's own text, whole;
/// only a field it could not tell reads `unknown`.
pub proof fn lemma_reported_text_is_the_systems(field: Option<String>)
    ensures
        field matches Some(s) ==> text_or_lower_unknown(field) == s@,
        field is None ==> text_or_lower_unknown(field) == "unknown"@,
{
}

} // verus!
