//! Classification of rebuild output lines into short progress details.
//!
//! Each completed line of a rebuild-class command is scanned, ignoring ASCII
//! case, for markers of the build tool's coarse stages; the first match wins
//! and yields a short label for the operator. A miss is not an error: the
//! line still reaches the transcript, only no finer detail is shown.

use vstd::prelude::*;
use vstd::string::StrSliceExecFns;
use vstd::string::StringExecFns;

use crate::text::contains_ci;
use crate::text::contains_seq;
use crate::text::digit_run;
use crate::text::digit_run_end;
use crate::text::find_char;
use crate::text::find_char_from;
use crate::text::find_digit;
use crate::text::find_digit_from;
use crate::text::lemma_digit_run_end_properties;
use crate::text::lemma_find_char_from_properties;
use crate::text::lemma_find_digit_from_properties;
use crate::text::str_contains;
use crate::text::str_contains_ci;

verus! {

/// Detail for a download line: the name between the first pair of single
/// quotes, shortened to at most 30 characters, or a generic label when no
/// quoted name is present.
pub open spec fn download_detail_spec(line: Seq<char>) -> Seq<char> {
    let q1 = find_char_from(line, '\'', 0);
    if q1 == line.len() {
        "downloading..."@
    } else {
        let q2 = find_char_from(line, '\'', q1 + 1);
        if q2 == line.len() {
            "downloading..."@
        } else {
            let pkg = line.subrange(q1 + 1, q2);
            if pkg.len() > 30 {
                "dl: "@ + pkg.take(27) + "..."@
            } else {
                "dl: "@ + pkg
            }
        }
    }
}

/// Detail for a building line: when it speaks of derivations, the first run
/// of digits gives their count; otherwise a generic label.
pub open spec fn building_detail_spec(line: Seq<char>) -> Seq<char> {
    if contains_seq(line, "derivation"@) {
        let d = find_digit_from(line, 0);
        if d < line.len() {
            "building "@ + line.subrange(d, digit_run_end(line, d)) + " drv"@
        } else {
            "building..."@
        }
    } else {
        "building..."@
    }
}

/// What a rebuild output line classifies to: the first marker found, scanned
/// ignoring ASCII case, decides; a line with no marker yields no detail.
pub open spec fn classify_spec(line: Seq<char>) -> Option<Seq<char>> {
    if contains_ci(line, "download"@) {
        Some(download_detail_spec(line))
    } else if contains_ci(line, "copying"@) {
        Some("copying paths..."@)
    } else if contains_ci(line, "building"@) {
        Some(building_detail_spec(line))
    } else if contains_ci(line, "activating"@) || contains_ci(line, "activation"@) {
        Some("activating..."@)
    } else if contains_ci(line, "updating"@) && contains_ci(line, "bootloader"@) {
        Some("updating bootloader..."@)
    } else if contains_ci(line, "reloading"@) {
        Some("reloading services..."@)
    } else {
        None
    }
}

/// Classifies one line of rebuild output into a short progress detail, or
/// `None` when no marker is recognised.
pub fn parse_rebuild_progress(line: &str) -> (r: Option<String>)
    ensures
        match r {
            Some(d) => classify_spec(line@) == Some(d@),
            None => classify_spec(line@) is None,
        },
{
    let n = line.unicode_len();
    if str_contains_ci(line, "download") {
        proof {
            lemma_find_char_from_properties(line@, '\'', 0);
        }
        let q1 = find_char(line, '\'', 0);
        if q1 == n {
            return Some("downloading...".to_owned());
        }
        proof {
            lemma_find_char_from_properties(line@, '\'', q1 + 1);
        }
        let q2 = find_char(line, '\'', q1 + 1);
        if q2 == n {
            return Some("downloading...".to_owned());
        }
        let mut s = "dl: ".to_owned();
        if q2 - (q1 + 1) > 30 {
            let head = line.substring_char(q1 + 1, q1 + 1 + 27);
            s.append(head);
            s.append("...");
            proof {
                let pkg = line@.subrange(q1 + 1, q2 as int);
                assert(head@ =~= pkg.take(27));
                assert(s@ =~= "dl: "@ + pkg.take(27) + "..."@);
            }
            Some(s)
        } else {
            let pkg = line.substring_char(q1 + 1, q2);
            s.append(pkg);
            proof {
                assert(s@ =~= "dl: "@ + line@.subrange(q1 + 1, q2 as int));
            }
            Some(s)
        }
    } else if str_contains_ci(line, "copying") {
        Some("copying paths...".to_owned())
    } else if str_contains_ci(line, "building") {
        if str_contains(line, "derivation") {
            proof {
                lemma_find_digit_from_properties(line@, 0);
            }
            let d = find_digit(line, 0);
            if d < n {
                proof {
                    lemma_digit_run_end_properties(line@, d as int);
                }
                let e = digit_run(line, d);
                let num = line.substring_char(d, e);
                let mut s = "building ".to_owned();
                s.append(num);
                s.append(" drv");
                proof {
                    assert(s@ =~= "building "@ + line@.subrange(d as int, e as int) + " drv"@);
                }
                Some(s)
            } else {
                Some("building...".to_owned())
            }
        } else {
            Some("building...".to_owned())
        }
    } else if str_contains_ci(line, "activating") || str_contains_ci(line, "activation") {
        Some("activating...".to_owned())
    } else if str_contains_ci(line, "updating") && str_contains_ci(line, "bootloader") {
        Some("updating bootloader...".to_owned())
    } else if str_contains_ci(line, "reloading") {
        Some("reloading services...".to_owned())
    } else {
        None
    }
}

} // verus!
