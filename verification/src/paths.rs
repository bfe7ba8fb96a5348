//! Companion paths of the state file, as strings: the transient write
//! artifact, the backup sibling, and the quarantine names for corrupted
//! files.
use vstd::prelude::*;
use vstd::string::StringExecFns;
use crate::text::i64_to_string;
use crate::text::spec_decimal;
use crate::text::spec_signed_decimal;
use crate::text::u64_to_string;

verus! {

/// A sibling path of the state file: the path with a suffix appended.
pub fn state_companion_path(path: &str, suffix: &str) -> (r: String)
    ensures
        r@ == path@ + suffix@,
{
    let mut s = String::from_str(path);
    s.append(suffix);
    s
}

/// Where the previous snapshot is kept.
pub fn backup_state_path(path: &str) -> (r: String)
    ensures
        r@ == path@ + ".bak"@,
{
    state_companion_path(path, ".bak")
}

/// The quarantine name an unparseable state file is renamed to: the path,
/// a corruption marker with the current time, and a counter when earlier
/// attempts collided with an existing file. Quarantined files are never
/// overwritten.
pub open spec fn spec_corrupt_state_path(path: Seq<char>, now: i64, attempt: u64) -> Seq<char> {
    let base = path + ".corrupt-"@ + spec_signed_decimal(now as int);
    if attempt == 0 {
        base
    } else {
        base + "-"@ + spec_decimal(attempt as nat)
    }
}

pub fn next_corrupt_state_path(path: &str, now: i64, attempt: u64) -> (r: String)
    ensures
        r@ == spec_corrupt_state_path(path@, now, attempt),
{
    let mut s = String::from_str(path);
    s.append(".corrupt-");
    let ts = i64_to_string(now);
    s.append(ts.as_str());
    if attempt > 0 {
        s.append("-");
        let n = u64_to_string(attempt);
        s.append(n.as_str());
        proof {
            assert(s@ =~= spec_corrupt_state_path(path@, now, attempt));
        }
    } else {
        proof {
            assert(s@ =~= spec_corrupt_state_path(path@, now, attempt));
        }
    }
    s
}

} // verus!
