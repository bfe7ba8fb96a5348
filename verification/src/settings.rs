//! Settings policy: the valid range of the final-warning duration and the
//! normal form of pre-alert lists (in range, deduplicated, sorted
//! descending, with a default when nothing valid remains).
use vstd::prelude::*;
use vstd::string::StringExecFns;
use crate::types::AppSettings;
use crate::types::PersistedState;

verus! {

pub const FINAL_WARNING_DEFAULT_SEC: u64 = 60;

pub const FINAL_WARNING_MIN_SEC: u64 = 15;

pub const FINAL_WARNING_MAX_SEC: u64 = 300;

/// A pre-alert lead time is kept only when it lies in (0, 86400] seconds.
pub open spec fn spec_alert_in_range(v: u64) -> bool {
    0 < v <= 86400
}

/// Strictly descending: sorted with no duplicates.
pub open spec fn spec_sorted_desc(s: Seq<u64>) -> bool {
    forall|i: int, j: int| 0 <= i < j < s.len() ==> #[trigger] s[i] > #[trigger] s[j]
}

/// The default pre-alert lead times, in seconds.
pub open spec fn spec_default_alerts() -> Seq<u64> {
    seq![600u64, 300u64, 60u64]
}

/// What `normalize_alerts` returns for `input`: the in-range values of the
/// input, deduplicated and sorted descending, or the default list when no
/// in-range value exists.
pub open spec fn spec_is_normalized_alerts(input: Seq<u64>, output: Seq<u64>) -> bool {
    if exists|i: int| 0 <= i < input.len() && spec_alert_in_range(#[trigger] input[i]) {
        &&& spec_sorted_desc(output)
        &&& forall|v: u64|
            #[trigger] output.contains(v) <==> input.contains(v) && spec_alert_in_range(v)
    } else {
        output == spec_default_alerts()
    }
}

fn insert_desc_unique(values: &mut Vec<u64>, x: u64)
    requires
        spec_sorted_desc(old(values)@),
    ensures
        spec_sorted_desc(final(values)@),
        forall|v: u64| #[trigger] final(values)@.contains(v) <==> old(values)@.contains(v) || v == x,
{
    let ghost orig = values@;
    let mut i: usize = 0;
    while i < values.len() && values[i] > x
        invariant
            values@ == orig,
            spec_sorted_desc(values@),
            0 <= i <= values.len(),
            forall|k: int| 0 <= k < i ==> values@[k] > x,
        decreases values.len() - i,
    {
        i += 1;
    }
    if i < values.len() && values[i] == x {
        proof {
            assert(values@.contains(x)) by {
                assert(values@[i as int] == x);
            }
            assert forall|v: u64| #[trigger] values@.contains(v) <==> orig.contains(v) || v == x by {
                if v == x {
                    assert(values@[i as int] == x);
                }
            }
        }
        return ;
    }
    values.insert(i, x);
    proof {
        let s = orig.insert(i as int, x);
        assert(values@ == s);
        assert forall|a: int, b: int| 0 <= a < b < s.len() implies s[a] > s[b] by {
            if a < i && b < i {
                assert(s[a] == orig[a] && s[b] == orig[b]);
            } else if a < i && b == i {
                assert(s[a] == orig[a] && s[b] == x);
            } else if a < i && b > i {
                assert(s[a] == orig[a] && s[b] == orig[b - 1]);
                if b - 1 == i {
                    assert(orig[b - 1] <= x || orig[b - 1] > x);
                    assert(!(orig[i as int] > x));
                    assert(!(orig[i as int] == x)) by {
                        assert(!orig.contains(x)) by {
                            if orig.contains(x) {
                                let w = choose|w: int| 0 <= w < orig.len() && orig[w] == x;
                                if w < i {
                                    assert(orig[w] > x);
                                } else {
                                    assert(!(w == i)) by {
                                        if i < orig.len() && orig[i as int] == x {
                                            assert(false);
                                        }
                                    }
                                    assert(orig[i as int] > orig[w]);
                                    assert(!(orig[i as int] > x));
                                    assert(orig[w] == x);
                                    assert(false);
                                }
                            }
                        }
                    }
                }
            } else if a == i {
                assert(s[a] == x && s[b] == orig[b - 1]);
                assert(b - 1 >= i);
                if i < orig.len() {
                    assert(!(orig[i as int] > x));
                    assert(orig[i as int] != x);
                    assert(orig[i as int] < x);
                    if b - 1 > i {
                        assert(orig[i as int] > orig[b - 1]);
                    }
                }
            } else {
                assert(s[a] == orig[a - 1] && s[b] == orig[b - 1]);
            }
        }
        assert forall|v: u64| #[trigger] s.contains(v) <==> orig.contains(v) || v == x by {
            if s.contains(v) {
                let w = choose|w: int| 0 <= w < s.len() && s[w] == v;
                if w < i {
                    assert(orig[w] == v);
                    assert(orig.contains(v));
                } else if w == i {
                    assert(v == x);
                } else {
                    assert(orig[w - 1] == v);
                    assert(orig.contains(v));
                }
            }
            if orig.contains(v) {
                let w = choose|w: int| 0 <= w < orig.len() && orig[w] == v;
                if w < i {
                    assert(s[w] == v);
                } else {
                    assert(s[w + 1] == v);
                }
                assert(s.contains(v));
            }
            if v == x {
                assert(s[i as int] == x);
                assert(s.contains(v));
            }
        }
    }
}

/// Bring a pre-alert list into normal form: keep the in-range lead times,
/// drop duplicates, sort descending, and fall back to the default list when
/// nothing valid remains.
pub fn normalize_alerts(alerts: &Vec<u64>) -> (r: Vec<u64>)
    ensures
        spec_is_normalized_alerts(alerts@, r@),
{
    let mut out: Vec<u64> = Vec::new();
    let mut idx: usize = 0;
    while idx < alerts.len()
        invariant
            0 <= idx <= alerts.len(),
            spec_sorted_desc(out@),
            forall|v: u64| #[trigger]
                out@.contains(v) <==> (exists|k: int|
                    0 <= k < idx && alerts@[k] == v && spec_alert_in_range(v)),
        decreases alerts.len() - idx,
    {
        let v = alerts[idx];
        if v > 0 && v <= 86400 {
            insert_desc_unique(&mut out, v);
        }
        idx += 1;
        proof {
            assert forall|w: u64| #[trigger]
                out@.contains(w) <==> (exists|k: int|
                    0 <= k < idx && alerts@[k] == w && spec_alert_in_range(w)) by {
                if out@.contains(w) {
                    if w == v && spec_alert_in_range(v) {
                        assert(alerts@[idx - 1] == w);
                    }
                }
                if exists|k: int| 0 <= k < idx && alerts@[k] == w && spec_alert_in_range(w) {
                    let k = choose|k: int|
                        0 <= k < idx && alerts@[k] == w && spec_alert_in_range(w);
                    if k == idx - 1 {
                        assert(w == v);
                    }
                }
            }
        }
    }
    if out.len() == 0 {
        let defaults: Vec<u64> = vec![600u64, 300u64, 60u64];
        proof {
            assert(defaults@ =~= spec_default_alerts());
            assert forall|i: int|
                0 <= i < alerts@.len() implies !spec_alert_in_range(#[trigger] alerts@[i]) by {
                if spec_alert_in_range(alerts@[i]) {
                    assert(out@.contains(alerts@[i]));
                    assert(out@.len() > 0);
                }
            }
        }
        defaults
    } else {
        proof {
            let w = out@[0];
            assert(out@.contains(w));
            let k = choose|k: int|
                0 <= k < alerts@.len() && alerts@[k] == w && spec_alert_in_range(w);
            assert(spec_alert_in_range(alerts@[k]));
        }
        out
    }
}

/// Clamp a final-warning duration into its valid range: in-range values are
/// kept, anything else recovers to the default.
pub open spec fn spec_normalize_final_warning_sec(value: u64) -> u64 {
    if FINAL_WARNING_MIN_SEC <= value && value <= FINAL_WARNING_MAX_SEC {
        value
    } else {
        FINAL_WARNING_DEFAULT_SEC
    }
}

pub fn normalize_final_warning_sec(value: u64) -> (r: u64)
    ensures
        r == spec_normalize_final_warning_sec(value),
{
    if FINAL_WARNING_MIN_SEC <= value && value <= FINAL_WARNING_MAX_SEC {
        value
    } else {
        FINAL_WARNING_DEFAULT_SEC
    }
}

/// The message given when a requested final-warning duration is out of
/// range.
pub open spec fn spec_final_warning_range_error() -> Seq<char> {
    "최종 경고 시간은 15초에서 300초 사이로 설정해 주세요."@
}

/// Accept a final-warning duration only when it lies in the valid range;
/// otherwise report the range error.
pub fn validate_final_warning_sec(value: u64) -> (r: Result<u64, String>)
    ensures
        (FINAL_WARNING_MIN_SEC <= value && value <= FINAL_WARNING_MAX_SEC) ==> r == Ok::<
            u64,
            String,
        >(value),
        !(FINAL_WARNING_MIN_SEC <= value && value <= FINAL_WARNING_MAX_SEC) ==> (r matches Err(e)
            && e@ == spec_final_warning_range_error()),
{
    if FINAL_WARNING_MIN_SEC <= value && value <= FINAL_WARNING_MAX_SEC {
        Ok(value)
    } else {
        Err(String::from_str("최종 경고 시간은 15초에서 300초 사이로 설정해 주세요."))
    }
}

impl Default for AppSettings {
    /// Fresh settings: the default pre-alerts, the default final warning,
    /// and real (non-simulated) shutdown dispatch.
    fn default() -> (r: AppSettings)
        ensures
            r.default_pre_alerts@ == spec_default_alerts(),
            r.final_warning_sec == FINAL_WARNING_DEFAULT_SEC,
            !r.simulate_only,
    {
        let defaults: Vec<u64> = vec![600u64, 300u64, 60u64];
        proof {
            assert(defaults@ =~= spec_default_alerts());
        }
        AppSettings {
            default_pre_alerts: defaults,
            final_warning_sec: FINAL_WARNING_DEFAULT_SEC,
            simulate_only: false,
        }
    }
}

impl Default for PersistedState {
    /// The state a first run starts from: default settings and nothing else.
    fn default() -> (r: PersistedState)
        ensures
            r.version == 1,
            r.settings.default_pre_alerts@ == spec_default_alerts(),
            r.settings.final_warning_sec == FINAL_WARNING_DEFAULT_SEC,
            !r.settings.simulate_only,
            r.history@.len() == 0,
            r.active is None,
            r.id_seq == 0,
            r.last_schedule_request is None,
    {
        PersistedState {
            version: 1,
            settings: AppSettings::default(),
            history: Vec::new(),
            active: None,
            id_seq: 0,
            last_schedule_request: None,
        }
    }
}

} // verus!
