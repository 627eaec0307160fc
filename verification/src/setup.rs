//! Setup check module.
//!
//! Judges whether a host can run the survey tool application, from facts the
//! caller gathered: the operating system name and the output of asking the
//! local Java installation for its version.

use vstd::prelude::*;
use crate::models::result::CheckResult;
use crate::models::result::report_consistent;
use crate::text::dec_rep;
use crate::text::parse_usize_digits;
use crate::text::parsed_usize;
use crate::text::str_eq;
use crate::text::usize_to_string;

verus! {

/// The lowest Java major version the survey tool runs on.
pub const MINIMUM_JAVA_VERSION: usize = 21;

/// Whether the operating system name is one the survey tool supports.
pub open spec fn os_supported(os: Seq<char>) -> bool {
    os == "windows"@ || os == "linux"@
}

/// The success message for a supported operating system.
pub open spec fn os_success_message() -> Seq<char> {
    "Supported operating system found"@
}

/// The failure message naming an unsupported operating system.
pub open spec fn os_failure_message(os: Seq<char>) -> Seq<char> {
    "Only Windows and Linux supported as operating system. Found '"@ + os + "'"@
}

/// The failure message when no Java installation answered.
pub open spec fn java_missing_message() -> Seq<char> {
    "Java not found. Please install Java or set JAVA_HOME"@
}

/// The failure message when the version check is skipped for want of Java.
pub open spec fn java_unchecked_message() -> Seq<char> {
    "Java not found. Cant check it's version"@
}

/// The success message when a Java installation answered.
pub open spec fn java_found_message() -> Seq<char> {
    "Java installation found"@
}

/// The failure message when Java's answer holds no version.
pub open spec fn no_version_message() -> Seq<char> {
    "Could not detect any Java version"@
}

/// The failure message for a Java major version below the minimum.
pub open spec fn version_low_message(found: Seq<char>) -> Seq<char> {
    "Installed Java version too low. Minimum needed: "@ + dec_rep(MINIMUM_JAVA_VERSION as nat)
        + " - found: "@ + found
}

/// The success message for a Java major version meeting the minimum.
pub open spec fn version_good_message(found: Seq<char>) -> Seq<char> {
    "Installed Java version good. Minimum needed: "@ + dec_rep(MINIMUM_JAVA_VERSION as nat)
        + " - found: "@ + found
}

/// The whole matched version text and the first capture group that searching
/// Java's version output with the fixed version pattern yields, or nothing
/// when the output holds no version. The search depends on the text alone.
pub uninterp spec fn version_capture_of(out: Seq<char>) -> Option<(Seq<char>, Seq<char>)>;

/// The version text as reported: the whole match with the pattern's one
/// leading and one trailing space stripped.
pub open spec fn version_found(whole: Seq<char>) -> Seq<char> {
    whole.subrange(1, whole.len() - 1)
}

/// The major version the capture group names: what parsing it as a `usize`
/// and defaulting on failure yields — its decimal value when it is all ASCII
/// digits and the value fits in `usize`, and 0 otherwise (the pattern's
/// digit class also matches other Unicode digits, which parse to 0).
pub open spec fn major_of(group: Seq<char>) -> nat {
    parsed_usize(group)
}

/// What a setup check report holds, given the gathered host facts.
///
/// The operating system part is fixed by `os` alone. The Java part depends on
/// whether Java answered and on the version its answer holds: no answer gives
/// two failures, an answer without a version one failure, and an answer with
/// a version either the too-low failure or the version success, decided by
/// the major version against the minimum.
pub open spec fn setup_post(os: Seq<char>, java_output: Option<String>, r: CheckResult) -> bool {
    let oss = if os_supported(os) {
        seq![os_success_message()]
    } else {
        Seq::<Seq<char>>::empty()
    };
    let ose = if os_supported(os) {
        Seq::<Seq<char>>::empty()
    } else {
        seq![os_failure_message(os)]
    };
    &&& report_consistent(r)
    &&& r.output is None
    &&& match java_output {
        Option::None => {
            &&& r.success_list.deep_view() == oss
            &&& r.error_list.deep_view() == ose + seq![
                java_missing_message(),
                java_unchecked_message(),
            ]
        },
        Option::Some(out) => match version_capture_of(out@) {
            Option::None => {
                &&& r.error_list.deep_view() == ose + seq![no_version_message()]
                &&& r.success_list.deep_view() == oss + seq![java_found_message()]
            },
            Option::Some(c) => {
                if major_of(c.1) < MINIMUM_JAVA_VERSION as nat {
                    &&& r.error_list.deep_view() == ose + seq![
                        version_low_message(version_found(c.0)),
                    ]
                    &&& r.success_list.deep_view() == oss + seq![java_found_message()]
                } else {
                    &&& r.success_list.deep_view() == oss + seq![
                        java_found_message(),
                        version_good_message(version_found(c.0)),
                    ]
                    &&& r.error_list.deep_view() == ose
                }
            },
        },
    }
}

/// Relies on regex::Regex::captures with the fixed version pattern
/// `" (\d+).(\d+).(\d+) "`: on a match it returns the whole matched text and
/// the first capture group, both functions of the text alone. A match starts
/// and ends with the pattern's literal spaces around digit-class characters,
/// and the group matches `\d+`, so it is nonempty; `\d` is Unicode-aware, so
/// nothing more is claimed of the group's characters.
#[verifier::external_body]
fn java_version_capture(out: &str) -> (r: Option<(String, String)>)
    ensures
        match r {
            Some(c) => {
                &&& version_capture_of(out@) == Some((c.0@, c.1@))
                &&& c.0@.len() >= 2
                &&& c.0@[0] == ' '
                &&& c.0@[c.0@.len() - 1] == ' '
                &&& c.1@.len() >= 1
            },
            None => version_capture_of(out@) is None,
        },
{
    let re = regex::Regex::new(" (\\d+).(\\d+).(\\d+) ").unwrap();
    match re.captures(out) {
        Some(caps) => Some((caps.get_match().as_str().to_string(), caps[1].to_string())),
        None => None,
    }
}

/// Check gathered host facts for compatibility with the survey tool.
///
/// `os` names the operating system; `java_output` holds what the local Java
/// installation printed for its version, or nothing when none answered.
pub fn check(os: &str, java_output: Option<String>) -> (r: CheckResult)
    ensures
        setup_post(os@, java_output, r),
{
    let mut result = CheckResult::all_ok();
    if str_eq(os, "windows") || str_eq(os, "linux") {
        result.record_success(String::from_str("Supported operating system found"));
    } else {
        let mut msg = String::from_str(
            "Only Windows and Linux supported as operating system. Found '",
        );
        msg.append(os);
        msg.append("'");
        proof {
            assert(msg@ =~= os_failure_message(os@));
        }
        result.record_structural_failure(msg);
    }
    proof {
        if os_supported(os@) {
            assert(result.success_list.deep_view() =~= seq![os_success_message()]);
            assert(result.error_list.deep_view() =~= Seq::<Seq<char>>::empty());
        } else {
            assert(result.success_list.deep_view() =~= Seq::<Seq<char>>::empty());
            assert(result.error_list.deep_view() =~= seq![os_failure_message(os@)]);
        }
    }
    let ghost oss = result.success_list.deep_view();
    let ghost ose = result.error_list.deep_view();
    match java_output {
        Option::None => {
            result.record_structural_failure(
                String::from_str("Java not found. Please install Java or set JAVA_HOME"),
            );
            result.record_structural_failure(
                String::from_str("Java not found. Cant check it's version"),
            );
            proof {
                assert(result.error_list.deep_view() =~= ose + seq![
                    java_missing_message(),
                    java_unchecked_message(),
                ]);
            }
            result
        },
        Option::Some(out) => {
            result.record_success(String::from_str("Java installation found"));
            let matched = java_version_capture(out.as_str());
            match matched {
                Option::Some(m) => {
                    let (whole, group) = m;
                    let len = whole.as_str().unicode_len();
                    let found = whole.as_str().substring_char(1, len - 1);
                    let major = parse_usize_digits(group.as_str());
                    if major < MINIMUM_JAVA_VERSION {
                        let mut msg = String::from_str(
                            "Installed Java version too low. Minimum needed: ",
                        );
                        let min = usize_to_string(MINIMUM_JAVA_VERSION);
                        msg.append(min.as_str());
                        msg.append(" - found: ");
                        msg.append(found);
                        proof {
                            assert(msg@ =~= version_low_message(found@));
                        }
                        result.record_structural_failure(msg);
                        proof {
                            assert(result.error_list.deep_view() =~= ose + seq![
                                version_low_message(found@),
                            ]);
                            assert(result.success_list.deep_view() =~= oss + seq![
                                java_found_message(),
                            ]);
                        }
                        result
                    } else {
                        let mut msg = String::from_str(
                            "Installed Java version good. Minimum needed: ",
                        );
                        let min = usize_to_string(MINIMUM_JAVA_VERSION);
                        msg.append(min.as_str());
                        msg.append(" - found: ");
                        msg.append(found);
                        proof {
                            assert(msg@ =~= version_good_message(found@));
                        }
                        result.record_success(msg);
                        proof {
                            assert(result.success_list.deep_view() =~= oss + seq![
                                java_found_message(),
                                version_good_message(found@),
                            ]);
                            assert(result.error_list.deep_view() =~= ose);
                        }
                        result
                    }
                },
                Option::None => {
                    result.record_structural_failure(
                        String::from_str("Could not detect any Java version"),
                    );
                    proof {
                        assert(result.error_list.deep_view() =~= ose + seq![
                            no_version_message(),
                        ]);
                        assert(result.success_list.deep_view() =~= oss + seq![
                            java_found_message(),
                        ]);
                    }
                    result
                },
            }
        },
    }
}

} // verus!
