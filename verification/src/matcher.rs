//! The process-liveness matching engine. It works on a plain snapshot of
//! the process table (pid, parent, name, executable, command line); the
//! layered matching itself — PID tree, previously confirmed PIDs, advanced
//! criteria, guarded name fallback — is decided and proved here.
use vstd::prelude::*;
use vstd::seq_lib::*;
use vstd::set_lib::lemma_len_subset;
use crate::text::lower_of;
use crate::text::lowercase_str;
use crate::text::replace_backslashes;
use crate::text::spec_contains;
use crate::text::spec_slashes;
use crate::text::str_contains;
use crate::text::str_eq;
use crate::selector::is_shell_like_process_name;
use crate::selector::normalize_selector_path;
use crate::selector::normalize_selector_text;
use crate::selector::spec_normalize_path;
use crate::selector::spec_normalize_text;
use crate::selector::spec_shell_like;
use crate::types::ProcessSelector;
use crate::types::opt_str_view;

verus! {

/// One row of the process-table snapshot, as plain values.
#[derive(Debug, Clone, PartialEq, Eq)]
pub struct ProcessRecord {
    pub pid: u32,
    pub parent: Option<u32>,
    pub name: String,
    pub exe: Option<String>,
    pub cmdline: Vec<String>,
}

/// Which layer of the matching strategy produced the verdict.
#[derive(Debug, Clone, Copy, PartialEq, Eq, Structural)]
pub enum ProcessMatchSource {
    PidTree,
    TrackedPids,
    Advanced,
    NameFallback,
    NoMatch,
}

/// The verdict of a liveness query: whether the target runs, the PIDs to
/// track next, which layer decided, and whether the answer rests on a
/// degraded (name-only) match.
#[derive(Debug, Clone, PartialEq, Eq)]
pub struct ProcessMatchResult {
    pub running: bool,
    pub matched_pids: Vec<u32>,
    pub source: ProcessMatchSource,
    pub degraded_to_name: bool,
}

/// The label each layer goes by in log lines.
pub open spec fn spec_source_label(source: ProcessMatchSource) -> Seq<char> {
    match source {
        ProcessMatchSource::PidTree => "pidTree"@,
        ProcessMatchSource::TrackedPids => "trackedPids"@,
        ProcessMatchSource::Advanced => "advanced"@,
        ProcessMatchSource::NameFallback => "nameFallback"@,
        ProcessMatchSource::NoMatch => "none"@,
    }
}

pub fn process_match_source_label(source: ProcessMatchSource) -> (r: &'static str)
    ensures
        r@ == spec_source_label(source),
{
    match source {
        ProcessMatchSource::PidTree => "pidTree",
        ProcessMatchSource::TrackedPids => "trackedPids",
        ProcessMatchSource::Advanced => "advanced",
        ProcessMatchSource::NameFallback => "nameFallback",
        ProcessMatchSource::NoMatch => "none",
    }
}

/// A process with this PID is in the snapshot.
pub open spec fn spec_snap_alive(snap: Seq<ProcessRecord>, pid: u32) -> bool {
    exists|i: int| 0 <= i < snap.len() && (#[trigger] snap[i]).pid == pid
}

/// The snapshot records `c` as a child of `p`.
pub open spec fn spec_snap_child(snap: Seq<ProcessRecord>, p: u32, c: u32) -> bool {
    exists|i: int|
        0 <= i < snap.len() && (#[trigger] snap[i]).pid == c && snap[i].parent == Some(p)
}

/// The index records `c` among the children of `p`.
pub open spec fn spec_is_child(index: Seq<(u32, Vec<u32>)>, p: u32, c: u32) -> bool {
    exists|i: int| 0 <= i < index.len() && (#[trigger] index[i]).0 == p && index[i].1@.contains(c)
}

pub fn vec_contains_u64(v: &Vec<u64>, x: u64) -> (r: bool)
    ensures
        r == v@.contains(x),
{
    let mut i: usize = 0;
    while i < v.len()
        invariant
            0 <= i <= v.len(),
            forall|k: int| 0 <= k < i ==> v@[k] != x,
        decreases v.len() - i,
    {
        if v[i] == x {
            return true;
        }
        i += 1;
    }
    false
}

pub fn vec_contains_u32(v: &Vec<u32>, x: u32) -> (r: bool)
    ensures
        r == v@.contains(x),
{
    let mut i: usize = 0;
    while i < v.len()
        invariant
            0 <= i <= v.len(),
            forall|k: int| 0 <= k < i ==> v@[k] != x,
        decreases v.len() - i,
    {
        if v[i] == x {
            return true;
        }
        i += 1;
    }
    false
}

/// Whether the snapshot holds a process with this PID.
pub fn snap_alive(snapshot: &Vec<ProcessRecord>, pid: u32) -> (r: bool)
    ensures
        r == spec_snap_alive(snapshot@, pid),
{
    let mut i: usize = 0;
    while i < snapshot.len()
        invariant
            0 <= i <= snapshot.len(),
            forall|k: int| 0 <= k < i ==> (#[trigger] snapshot@[k]).pid != pid,
        decreases snapshot.len() - i,
    {
        if snapshot[i].pid == pid {
            return true;
        }
        i += 1;
    }
    false
}

/// The PIDs of the snapshot, as a plain list.
pub fn snapshot_pids(snapshot: &Vec<ProcessRecord>) -> (r: Vec<u32>)
    ensures
        forall|x: u32| #[trigger] r@.contains(x) <==> spec_snap_alive(snapshot@, x),
{
    let mut out: Vec<u32> = Vec::new();
    let mut i: usize = 0;
    while i < snapshot.len()
        invariant
            0 <= i <= snapshot.len(),
            out@.len() == i,
            forall|k: int| 0 <= k < i ==> out@[k] == (#[trigger] snapshot@[k]).pid,
        decreases snapshot.len() - i,
    {
        out.push(snapshot[i].pid);
        i += 1;
    }
    proof {
        assert forall|x: u32| #[trigger] out@.contains(x) <==> spec_snap_alive(snapshot@, x) by {
            if out@.contains(x) {
                let k = choose|k: int| 0 <= k < out@.len() && out@[k] == x;
                assert(snapshot@[k].pid == x);
            }
            if spec_snap_alive(snapshot@, x) {
                let k = choose|k: int| 0 <= k < snapshot@.len() && (#[trigger] snapshot@[k]).pid
                    == x;
                assert(out@[k] == x);
            }
        }
    }
    out
}

/// Build the parent-to-children index of the snapshot: complete for every
/// parent the snapshot knows, and never claiming a child the snapshot does
/// not show.
pub fn build_children_index(snapshot: &Vec<ProcessRecord>) -> (r: Vec<(u32, Vec<u32>)>)
    ensures
        forall|p: u32, c: u32| spec_is_child(r@, p, c) ==> spec_snap_child(snapshot@, p, c),
        forall|p: u32, c: u32|
            spec_snap_alive(snapshot@, p) && spec_snap_child(snapshot@, p, c) ==> spec_is_child(
                r@,
                p,
                c,
            ),
{
    let mut index: Vec<(u32, Vec<u32>)> = Vec::new();
    let mut i: usize = 0;
    while i < snapshot.len()
        invariant
            0 <= i <= snapshot.len(),
            index@.len() == i,
            forall|k: int| 0 <= k < i ==> (#[trigger] index@[k]).0 == snapshot@[k].pid,
            forall|k: int, w: int|
                0 <= k < i && 0 <= w < snapshot@.len() && (#[trigger] snapshot@[w]).parent == Some(
                    (#[trigger] index@[k]).0,
                ) ==> index@[k].1@.contains(snapshot@[w].pid),
            forall|k: int, c: u32|
                0 <= k < i && #[trigger] index@[k].1@.contains(c) ==> spec_snap_child(
                    snapshot@,
                    index@[k].0,
                    c,
                ),
        decreases snapshot.len() - i,
    {
        let parent_pid = snapshot[i].pid;
        let mut children: Vec<u32> = Vec::new();
        let mut j: usize = 0;
        while j < snapshot.len()
            invariant
                0 <= j <= snapshot.len(),
                parent_pid == snapshot@[i as int].pid,
                forall|w: int|
                    0 <= w < j && (#[trigger] snapshot@[w]).parent == Some(parent_pid)
                        ==> children@.contains(snapshot@[w].pid),
                forall|t: int| #![trigger children@[t]]
                    0 <= t < children@.len() ==> (exists|w: int|
                        0 <= w < j && (#[trigger] snapshot@[w]).pid == children@[t]
                            && snapshot@[w].parent == Some(parent_pid)),
            decreases snapshot.len() - j,
        {
            let is_child_here: bool = match snapshot[j].parent {
                Some(p) => p == parent_pid,
                None => false,
            };
            let ghost before = children@;
            if is_child_here {
                children.push(snapshot[j].pid);
            }
            j += 1;
            proof {
                if is_child_here {
                    assert(children@ == before.push(snapshot@[j - 1].pid));
                    assert forall|w: int|
                        0 <= w < j && (#[trigger] snapshot@[w]).parent == Some(
                            parent_pid,
                        ) implies children@.contains(snapshot@[w].pid) by {
                        if w < j - 1 {
                            assert(before.contains(snapshot@[w].pid));
                            let t = choose|t: int|
                                0 <= t < before.len() && before[t] == snapshot@[w].pid;
                            assert(children@[t] == snapshot@[w].pid);
                        } else {
                            assert(children@[children@.len() - 1] == snapshot@[j - 1].pid);
                        }
                    }
                    assert forall|t: int| #![trigger children@[t]] 0 <= t < children@.len() implies (
                    exists|w: int|
                        0 <= w < j && (#[trigger] snapshot@[w]).pid == children@[t]
                            && snapshot@[w].parent == Some(parent_pid)) by {
                        if t < children@.len() - 1 {
                            assert(children@[t] == before[t]);
                        } else {
                            assert(snapshot@[j - 1].pid == children@[t] && snapshot@[j - 1].parent
                                == Some(parent_pid));
                        }
                    }
                }
            }
        }
        index.push((parent_pid, children));
        i += 1;
        proof {
            assert forall|k: int, w: int|
                0 <= k < i && 0 <= w < snapshot@.len() && (#[trigger] snapshot@[w]).parent == Some(
                    (#[trigger] index@[k]).0,
                ) implies index@[k].1@.contains(snapshot@[w].pid) by {
                if k == i - 1 {
                    assert(index@[k].0 == parent_pid);
                    assert(index@[k].1@ == children@);
                }
            }
            assert forall|k: int, c: u32|
                0 <= k < i && #[trigger] index@[k].1@.contains(c) implies spec_snap_child(
                snapshot@,
                index@[k].0,
                c,
            ) by {
                if k == i - 1 {
                    assert(index@[k].1@ == children@);
                    let t = choose|t: int| 0 <= t < children@.len() && children@[t] == c;
                    let w = choose|w: int|
                        0 <= w < snapshot@.len() && (#[trigger] snapshot@[w]).pid == children@[t]
                            && snapshot@[w].parent == Some(parent_pid);
                    assert(snapshot@[w].pid == c && snapshot@[w].parent == Some(index@[k].0));
                }
            }
        }
    }
    proof {
        assert forall|p: u32, c: u32|
            spec_is_child(index@, p, c) implies spec_snap_child(snapshot@, p, c) by {
            let k = choose|k: int|
                0 <= k < index@.len() && (#[trigger] index@[k]).0 == p && index@[k].1@.contains(c);
        }
        assert forall|p: u32, c: u32|
            spec_snap_alive(snapshot@, p) && spec_snap_child(snapshot@, p, c) implies spec_is_child(
            index@,
            p,
            c,
        ) by {
            let k = choose|k: int| 0 <= k < snapshot@.len() && (#[trigger] snapshot@[k]).pid == p;
            let w = choose|w: int|
                0 <= w < snapshot@.len() && (#[trigger] snapshot@[w]).pid == c
                    && snapshot@[w].parent == Some(p);
            assert(index@[k].0 == p);
            assert(snapshot@[w].parent == Some(index@[k].0));
            assert(index@[k].1@.contains(c));
        }
    }
    index
}

fn insert_asc_unique(values: &mut Vec<u32>, x: u32)
    requires
        forall|i: int, j: int|
            0 <= i < j < old(values)@.len() ==> #[trigger] old(values)@[i] < #[trigger] old(
                values,
            )@[j],
    ensures
        forall|i: int, j: int|
            0 <= i < j < final (values)@.len() ==> #[trigger] final (values)@[i] < #[trigger] final (
            values)@[j],
        forall|v: u32| #[trigger] final (values)@.contains(v) <==> old(values)@.contains(v) || v == x,
{
    let ghost orig = values@;
    let mut i: usize = 0;
    while i < values.len() && values[i] < x
        invariant
            values@ == orig,
            forall|a: int, b: int|
                0 <= a < b < values@.len() ==> #[trigger] values@[a] < #[trigger] values@[b],
            0 <= i <= values.len(),
            forall|k: int| 0 <= k < i ==> values@[k] < x,
        decreases values.len() - i,
    {
        i += 1;
    }
    if i < values.len() && values[i] == x {
        proof {
            assert(values@[i as int] == x);
            assert forall|v: u32| #[trigger] values@.contains(v) <==> orig.contains(v) || v == x by {
                if v == x {
                    assert(values@[i as int] == x);
                }
            }
        }
        return ;
    }
    values.insert(i, x);
    proof {
        let s = orig.insert(i as int, x);
        assert(values@ == s);
        assert(!orig.contains(x)) by {
            if orig.contains(x) {
                let w = choose|w: int| 0 <= w < orig.len() && orig[w] == x;
                if w < i {
                    assert(orig[w] < x);
                } else {
                    assert(w != i || !(i < orig.len() && orig[i as int] == x));
                    if w == i {
                        assert(false);
                    } else {
                        assert(orig[i as int] < orig[w]);
                        assert(!(orig[i as int] < x));
                        assert(false);
                    }
                }
            }
        }
        assert forall|a: int, b: int|
            0 <= a < b < s.len() implies #[trigger] s[a] < #[trigger] s[b] by {
            if b < i {
                assert(s[a] == orig[a] && s[b] == orig[b]);
            } else if a < i && b == i {
                assert(s[a] == orig[a] && s[b] == x);
            } else if a < i && b > i {
                assert(s[a] == orig[a] && s[b] == orig[b - 1]);
                if b - 1 == i {
                    assert(!(orig[i as int] < x) && orig[i as int] != x);
                    assert(orig[a] < x);
                    assert(x < orig[i as int]);
                } else {
                    assert(orig[a] < orig[b - 1]);
                }
            } else if a == i {
                assert(s[a] == x && s[b] == orig[b - 1]);
                assert(b - 1 >= i);
                if i < orig.len() {
                    assert(!(orig[i as int] < x) && orig[i as int] != x);
                    assert(x < orig[i as int]);
                    if b - 1 > i {
                        assert(orig[i as int] < orig[b - 1]);
                    }
                }
            } else {
                assert(s[a] == orig[a - 1] && s[b] == orig[b - 1]);
            }
        }
        assert forall|v: u32| #[trigger] s.contains(v) <==> orig.contains(v) || v == x by {
            if s.contains(v) {
                let w = choose|w: int| 0 <= w < s.len() && s[w] == v;
                if w < i {
                    assert(orig[w] == v);
                } else if w == i {
                    assert(v == x);
                } else {
                    assert(orig[w - 1] == v);
                }
            }
            if orig.contains(v) {
                let w = choose|w: int| 0 <= w < orig.len() && orig[w] == v;
                if w < i {
                    assert(s[w] == v);
                } else {
                    assert(s[w + 1] == v);
                }
            }
            if v == x {
                assert(s[i as int] == x);
            }
        }
    }
}

/// Walk the live process tree below `root`: the set of processes reachable
/// from an alive root through alive members, following the index's
/// parent-to-children edges. Revisiting-safe; the result is ascending,
/// without duplicates, nonempty exactly when the root itself is alive,
/// closed under alive children of its members, and contains nothing but the
/// root and children of its members.
pub fn collect_tree_from_index(root: u32, children_index: &Vec<(u32, Vec<u32>)>, alive: &Vec<u32>)
    -> (r: Vec<u32>)
    ensures
        forall|i: int, j: int| 0 <= i < j < r@.len() ==> #[trigger] r@[i] < #[trigger] r@[j],
        forall|x: u32| #[trigger] r@.contains(x) ==> alive@.contains(x),
        r@.len() > 0 <==> alive@.contains(root),
        alive@.contains(root) ==> r@.contains(root),
        forall|p: u32, c: u32|
            #[trigger] r@.contains(p) && #[trigger] spec_is_child(children_index@, p, c)
                && alive@.contains(c) ==> r@.contains(c),
        forall|c: u32| #[trigger]
            r@.contains(c) ==> c == root || exists|p: u32|
                r@.contains(p) && spec_is_child(children_index@, p, c),
{
    let mut collected: Vec<u32> = Vec::new();
    if !vec_contains_u32(alive, root) {
        return collected;
    }
    collected.push(root);
    proof {
        assert(collected@ =~= seq![root]);
        assert(collected@[0] == root);
        assert(collected@.contains(root));
        let w = choose|w: int| 0 <= w < alive@.len() && alive@[w] == root;
        assert(alive@.len() >= 1);
    }
    loop
        invariant
            forall|i: int, j: int|
                0 <= i < j < collected@.len() ==> #[trigger] collected@[i] < #[trigger] collected@[j],
            forall|x: u32| #[trigger] collected@.contains(x) ==> alive@.contains(x),
            collected@.contains(root),
            collected@.len() <= alive@.len(),
            forall|c: u32| #[trigger]
                collected@.contains(c) ==> c == root || exists|p: u32|
                    collected@.contains(p) && spec_is_child(children_index@, p, c),
        decreases alive@.len() + 1 - collected@.len(),
    {
        let ghost round_start = collected@;
        let mut changed = false;
        let mut i: usize = 0;
        while i < children_index.len()
            invariant
                forall|a: int, b: int|
                    0 <= a < b < collected@.len() ==> #[trigger] collected@[a] < #[trigger] collected@[b],
                forall|x: u32| #[trigger] collected@.contains(x) ==> alive@.contains(x),
                collected@.contains(root),
                forall|c: u32| #[trigger]
                    collected@.contains(c) ==> c == root || exists|p: u32|
                        collected@.contains(p) && spec_is_child(children_index@, p, c),
                0 <= i <= children_index.len(),
                forall|x: u32| round_start.contains(x) ==> #[trigger] collected@.contains(x),
                !changed ==> collected@ == round_start,
                changed ==> collected@.len() > round_start.len(),
                !changed ==> (forall|k: int, c: u32|
                    0 <= k < i && collected@.contains((#[trigger] children_index@[k]).0) && (
                    #[trigger] children_index@[k].1@.contains(c)) && alive@.contains(c)
                        ==> collected@.contains(c)),
            decreases children_index.len() - i,
        {
            let entry_pid = children_index[i].0;
            if vec_contains_u32(&collected, entry_pid) {
                let mut j: usize = 0;
                while j < children_index[i].1.len()
                    invariant
                        forall|a: int, b: int|
                            0 <= a < b < collected@.len() ==> #[trigger] collected@[a]
                                < #[trigger] collected@[b],
                        forall|x: u32| #[trigger] collected@.contains(x) ==> alive@.contains(x),
                        collected@.contains(root),
                        forall|c: u32| #[trigger]
                            collected@.contains(c) ==> c == root || exists|p: u32|
                                collected@.contains(p) && spec_is_child(children_index@, p, c),
                        0 <= i < children_index.len(),
                        0 <= j <= children_index@[i as int].1@.len(),
                        entry_pid == children_index@[i as int].0,
                        collected@.contains(entry_pid),
                        forall|x: u32| round_start.contains(x) ==> #[trigger] collected@.contains(x),
                        !changed ==> collected@ == round_start,
                        changed ==> collected@.len() > round_start.len(),
                        !changed ==> (forall|k: int, c: u32|
                            0 <= k < i && collected@.contains((#[trigger] children_index@[k]).0)
                                && (#[trigger] children_index@[k].1@.contains(c))
                                && alive@.contains(c) ==> collected@.contains(c)),
                        !changed ==> (forall|w: int|
                            0 <= w < j && alive@.contains(
                                #[trigger] children_index@[i as int].1@[w],
                            ) ==> collected@.contains(children_index@[i as int].1@[w])),
                    decreases children_index@[i as int].1@.len() - j,
                {
                    let c = children_index[i].1[j];
                    if vec_contains_u32(alive, c) && !vec_contains_u32(&collected, c) {
                        let ghost before_insert = collected@;
                        insert_asc_unique(&mut collected, c);
                        changed = true;
                        proof {
                            assert(collected@.contains(c));
                            assert(spec_is_child(children_index@, entry_pid, c)) by {
                                assert(children_index@[i as int].0 == entry_pid);
                                assert(children_index@[i as int].1@.contains(c)) by {
                                    assert(children_index@[i as int].1@[j as int] == c);
                                }
                            }
                            assert forall|cc: u32| #[trigger]
                                collected@.contains(cc) implies cc == root || exists|p: u32|
                                collected@.contains(p) && spec_is_child(
                                    children_index@,
                                    p,
                                    cc,
                                ) by {
                                if cc == c {
                                    assert(collected@.contains(entry_pid));
                                    assert(spec_is_child(children_index@, entry_pid, c));
                                } else {
                                    assert(before_insert.contains(cc));
                                    if cc != root {
                                        let p = choose|p: u32|
                                            before_insert.contains(p) && spec_is_child(
                                                children_index@,
                                                p,
                                                cc,
                                            );
                                        assert(collected@.contains(p));
                                    }
                                }
                            }
                            assert(collected@.len() == before_insert.len() + 1) by {
                                before_insert.unique_seq_to_set();
                                collected@.unique_seq_to_set();
                                assert(collected@.to_set() =~= before_insert.to_set().insert(c));
                            }
                        }
                    }
                    j += 1;
                }
            }
            i += 1;
        }
        proof {
            collected@.unique_seq_to_set();
            collected@.lemma_cardinality_of_set();
            assert(collected@.to_set().subset_of(alive@.to_set())) by {
                assert forall|x: u32| collected@.to_set().contains(x) implies alive@.to_set()
                    .contains(x) by {
                    assert(collected@.contains(x));
                    assert(alive@.contains(x));
                }
            }
            lemma_len_subset(collected@.to_set(), alive@.to_set());
            alive@.lemma_cardinality_of_set();
            assert(collected@.len() <= alive@.len());
        }
        if !changed {
            proof {
                assert forall|p: u32, c: u32|
                    #[trigger] collected@.contains(p) && #[trigger] spec_is_child(
                    children_index@,
                    p,
                    c,
                ) && alive@.contains(c) implies collected@.contains(c) by {
                    let k = choose|k: int|
                        0 <= k < children_index@.len() && (#[trigger] children_index@[k]).0 == p
                            && children_index@[k].1@.contains(c);
                }
            }
            return collected;
        }
    }
}

/// The selector's name criterion, trimmed and case-folded.
pub open spec fn spec_sel_name(s: ProcessSelector) -> Option<Seq<char>> {
    match spec_normalize_text(opt_str_view(s.name)) {
        Some(n) => Some(lower_of(n)),
        None => None,
    }
}

/// The selector's executable criterion in comparison form.
pub open spec fn spec_sel_exe(s: ProcessSelector) -> Option<Seq<char>> {
    spec_normalize_path(opt_str_view(s.executable))
}

/// The selector's command-line criterion, trimmed and case-folded.
pub open spec fn spec_sel_cmd(s: ProcessSelector) -> Option<Seq<char>> {
    match spec_normalize_text(opt_str_view(s.cmdline_contains)) {
        Some(c) => Some(lower_of(c)),
        None => None,
    }
}

/// Name fallback is permitted only for a non-shell-like name, or when an
/// advanced criterion stands beside a shell-like one.
pub open spec fn spec_allow_name_fallback(s: ProcessSelector) -> bool {
    match spec_normalize_text(opt_str_view(s.name)) {
        Some(n) => !spec_shell_like(lower_of(n)) || spec_sel_exe(s) is Some || spec_sel_cmd(s)
            is Some,
        None => false,
    }
}

pub open spec fn spec_advanced_requested(s: ProcessSelector) -> bool {
    spec_sel_exe(s) is Some || spec_sel_cmd(s) is Some
}

/// The record's executable matches the expected normalized path.
pub open spec fn spec_exe_matches(rec: ProcessRecord, expected: Seq<char>) -> bool {
    match rec.exe {
        Some(e) => lower_of(spec_slashes(e@)) == expected,
        None => false,
    }
}

pub open spec fn spec_cmdline_views(rec: ProcessRecord) -> Seq<Seq<char>> {
    rec.cmdline@.map_values(|s: String| s@)
}

/// Command-line parts joined by single spaces.
pub open spec fn spec_join_spaces(parts: Seq<Seq<char>>) -> Seq<char>
    decreases parts.len(),
{
    if parts.len() == 0 {
        Seq::empty()
    } else if parts.len() == 1 {
        parts[0]
    } else {
        spec_join_spaces(parts.drop_last()) + " "@ + parts.last()
    }
}

/// The record's joined command line, case-folded, holds the token.
pub open spec fn spec_cmd_matches(rec: ProcessRecord, token: Seq<char>) -> bool {
    rec.cmdline@.len() > 0 && spec_contains(lower_of(spec_join_spaces(spec_cmdline_views(rec))), token)
}

pub open spec fn spec_advanced_exe_ok(rec: ProcessRecord, sel_exe: Option<Seq<char>>) -> bool {
    match sel_exe {
        Some(x) => spec_exe_matches(rec, x),
        None => true,
    }
}

/// The record satisfies every advanced criterion that was given.
pub open spec fn spec_advanced_match(
    rec: ProcessRecord,
    sel_exe: Option<Seq<char>>,
    sel_cmd: Option<Seq<char>>,
) -> bool {
    &&& spec_advanced_exe_ok(rec, sel_exe)
    &&& match sel_cmd {
        Some(t) => spec_cmd_matches(rec, t),
        None => true,
    }
}

/// Data an advanced criterion needed was missing at this record: no
/// executable path while one was asked for, or an empty command line while
/// a token was asked for (and the executable criterion did not already rule
/// the record out).
pub open spec fn spec_advanced_unavailable_at(
    rec: ProcessRecord,
    sel_exe: Option<Seq<char>>,
    sel_cmd: Option<Seq<char>>,
) -> bool {
    ||| (sel_exe is Some && rec.exe is None)
    ||| (spec_advanced_exe_ok(rec, sel_exe) && sel_cmd is Some && rec.cmdline@.len() == 0)
}

pub open spec fn spec_advanced_unavailable(
    snap: Seq<ProcessRecord>,
    sel_exe: Option<Seq<char>>,
    sel_cmd: Option<Seq<char>>,
) -> bool {
    exists|i: int|
        0 <= i < snap.len() && spec_advanced_unavailable_at(#[trigger] snap[i], sel_exe, sel_cmd)
}

/// The record's name equals the needle, case-insensitively.
pub open spec fn spec_name_matches(rec: ProcessRecord, needle: Seq<char>) -> bool {
    lower_of(rec.name@) == needle
}

pub open spec fn spec_tree_layer_hit(snap: Seq<ProcessRecord>, s: ProcessSelector) -> bool {
    match s.pid {
        Some(p) => spec_snap_alive(snap, p),
        None => false,
    }
}

pub open spec fn spec_tracked_layer_hit(snap: Seq<ProcessRecord>, tracked_list: Seq<u32>) -> bool {
    exists|k: int| 0 <= k < tracked_list.len() && spec_snap_alive(snap, #[trigger] tracked_list[k])
}

pub open spec fn spec_advanced_layer_hit(
    snap: Seq<ProcessRecord>,
    sel_exe: Option<Seq<char>>,
    sel_cmd: Option<Seq<char>>,
) -> bool {
    exists|i: int| 0 <= i < snap.len() && spec_advanced_match(#[trigger] snap[i], sel_exe, sel_cmd)
}

pub open spec fn spec_name_layer_hit(snap: Seq<ProcessRecord>, needle: Seq<char>) -> bool {
    exists|i: int| 0 <= i < snap.len() && spec_name_matches(#[trigger] snap[i], needle)
}

/// Some record before `bound` has this PID and satisfies the advanced
/// criteria.
pub open spec fn spec_advanced_hit_before(
    snap: Seq<ProcessRecord>,
    bound: int,
    x: u32,
    sel_exe: Option<Seq<char>>,
    sel_cmd: Option<Seq<char>>,
) -> bool {
    exists|w: int|
        0 <= w < bound && (#[trigger] snap[w]).pid == x && spec_advanced_match(
            snap[w],
            sel_exe,
            sel_cmd,
        )
}

/// Some record before `bound` has this PID and the wanted name.
pub open spec fn spec_name_hit_before(
    snap: Seq<ProcessRecord>,
    bound: int,
    x: u32,
    needle: Seq<char>,
) -> bool {
    exists|w: int|
        0 <= w < bound && (#[trigger] snap[w]).pid == x && spec_name_matches(snap[w], needle)
}

fn join_spaces(parts: &Vec<String>) -> (r: String)
    ensures
        r@ == spec_join_spaces(parts@.map_values(|s: String| s@)),
{
    let ghost views = parts@.map_values(|s: String| s@);
    let mut out = String::new();
    if parts.len() == 0 {
        proof {
            assert(out@ =~= spec_join_spaces(views));
        }
        return out;
    }
    out.append(parts[0].as_str());
    let mut i: usize = 1;
    proof {
        assert(views.subrange(0, 1)[0] == views[0]);
        assert(out@ =~= spec_join_spaces(views.subrange(0, 1)));
    }
    while i < parts.len()
        invariant
            1 <= i <= parts.len(),
            views == parts@.map_values(|s: String| s@),
            out@ == spec_join_spaces(views.subrange(0, i as int)),
        decreases parts.len() - i,
    {
        out.append(" ");
        out.append(parts[i].as_str());
        i += 1;
        proof {
            let sub = views.subrange(0, i as int);
            assert(sub.drop_last() =~= views.subrange(0, i - 1));
            assert(sub.last() == views[i - 1]);
            assert(out@ =~= spec_join_spaces(sub));
        }
    }
    proof {
        assert(views.subrange(0, parts@.len() as int) =~= views);
    }
    out
}

/// Evaluate the advanced criteria at one record: whether it matches, and
/// whether data a criterion needed was missing here.
fn advanced_match_at(rec: &ProcessRecord, sel_exe: &Option<String>, sel_cmd: &Option<String>) -> (r:
    (bool, bool))
    ensures
        r.0 == spec_advanced_match(*rec, opt_str_view(*sel_exe), opt_str_view(*sel_cmd)),
        r.1 == spec_advanced_unavailable_at(*rec, opt_str_view(*sel_exe), opt_str_view(*sel_cmd)),
{
    let mut unavailable = false;
    let exe_ok: bool = match sel_exe {
        Some(expected) => {
            match &rec.exe {
                Some(e) => {
                    let slashed = replace_backslashes(e.as_str());
                    let lowered = lowercase_str(slashed.as_str());
                    str_eq(lowered.as_str(), expected.as_str())
                },
                None => {
                    unavailable = true;
                    false
                },
            }
        },
        None => true,
    };
    if !exe_ok {
        return (false, unavailable);
    }
    match sel_cmd {
        Some(token) => {
            if rec.cmdline.len() == 0 {
                unavailable = true;
                (false, unavailable)
            } else {
                let joined = join_spaces(&rec.cmdline);
                let lowered = lowercase_str(joined.as_str());
                (str_contains(lowered.as_str(), token.as_str()), unavailable)
            }
        },
        None => (true, unavailable),
    }
}

/// Scan the snapshot for the advanced criteria: the PIDs of every matching
/// record, and whether data a criterion needed was missing anywhere.
fn advanced_scan(snapshot: &Vec<ProcessRecord>, sel_exe: &Option<String>, sel_cmd: &Option<String>)
    -> (r: (Vec<u32>, bool))
    ensures
        forall|x: u32| #[trigger]
            r.0@.contains(x) <==> spec_advanced_hit_before(
                snapshot@,
                snapshot@.len() as int,
                x,
                opt_str_view(*sel_exe),
                opt_str_view(*sel_cmd),
            ),
        r.1 == spec_advanced_unavailable(snapshot@, opt_str_view(*sel_exe), opt_str_view(*sel_cmd)),
{
    let ghost xv = opt_str_view(*sel_exe);
    let ghost cv = opt_str_view(*sel_cmd);
    let mut hits: Vec<u32> = Vec::new();
    let mut unavailable = false;
    let mut i: usize = 0;
    while i < snapshot.len()
        invariant
            0 <= i <= snapshot.len(),
            xv == opt_str_view(*sel_exe),
            cv == opt_str_view(*sel_cmd),
            forall|w: int|
                0 <= w < i && spec_advanced_match(#[trigger] snapshot@[w], xv, cv)
                    ==> hits@.contains(snapshot@[w].pid),
            forall|t: int| #![trigger hits@[t]]
                0 <= t < hits@.len() ==> spec_advanced_hit_before(snapshot@, i as int, hits@[t], xv, cv),
            unavailable == (exists|w: int|
                0 <= w < i && spec_advanced_unavailable_at(#[trigger] snapshot@[w], xv, cv)),
        decreases snapshot.len() - i,
    {
        let ghost before = hits@;
        let (matched_here, unavailable_here) = advanced_match_at(&snapshot[i], sel_exe, sel_cmd);
        if unavailable_here {
            unavailable = true;
        }
        if matched_here {
            hits.push(snapshot[i].pid);
        }
        i += 1;
        proof {
            if matched_here {
                assert(hits@ == before.push(snapshot@[i - 1].pid));
            }
            assert forall|w: int|
                0 <= w < i && spec_advanced_match(#[trigger] snapshot@[w], xv, cv)
                    implies hits@.contains(snapshot@[w].pid) by {
                if w < i - 1 {
                    assert(before.contains(snapshot@[w].pid));
                    let t = choose|t: int| 0 <= t < before.len() && before[t] == snapshot@[w].pid;
                    assert(hits@[t] == snapshot@[w].pid);
                } else {
                    assert(hits@[hits@.len() - 1] == snapshot@[w].pid);
                }
            }
            assert forall|t: int| #![trigger hits@[t]] 0 <= t < hits@.len()
                implies spec_advanced_hit_before(snapshot@, i as int, hits@[t], xv, cv) by {
                if matched_here && t == hits@.len() - 1 {
                    assert(snapshot@[i - 1].pid == hits@[t]);
                    assert(spec_advanced_match(snapshot@[i - 1], xv, cv));
                } else {
                    assert(hits@[t] == before[t]);
                    assert(spec_advanced_hit_before(snapshot@, i - 1, before[t], xv, cv));
                    let w = choose|w: int|
                        0 <= w < i - 1 && (#[trigger] snapshot@[w]).pid == before[t]
                            && spec_advanced_match(snapshot@[w], xv, cv);
                }
            }
            if unavailable_here {
                assert(spec_advanced_unavailable_at(snapshot@[i - 1], xv, cv));
            }
        }
    }
    proof {
        assert forall|x: u32| #[trigger]
            hits@.contains(x) <==> spec_advanced_hit_before(
                snapshot@,
                snapshot@.len() as int,
                x,
                xv,
                cv,
            ) by {
            if hits@.contains(x) {
                let t = choose|t: int| 0 <= t < hits@.len() && hits@[t] == x;
            }
            if spec_advanced_hit_before(snapshot@, snapshot@.len() as int, x, xv, cv) {
                let w = choose|w: int|
                    0 <= w < snapshot@.len() && (#[trigger] snapshot@[w]).pid == x
                        && spec_advanced_match(snapshot@[w], xv, cv);
                assert(hits@.contains(snapshot@[w].pid));
            }
        }
    }
    (hits, unavailable)
}

/// Scan the snapshot for records whose case-folded name equals the needle.
fn name_scan(snapshot: &Vec<ProcessRecord>, needle: &String) -> (r: Vec<u32>)
    ensures
        forall|x: u32| #[trigger]
            r@.contains(x) <==> spec_name_hit_before(snapshot@, snapshot@.len() as int, x, needle@),
{
    let mut hits: Vec<u32> = Vec::new();
    let mut i: usize = 0;
    while i < snapshot.len()
        invariant
            0 <= i <= snapshot.len(),
            forall|w: int|
                0 <= w < i && spec_name_matches(#[trigger] snapshot@[w], needle@)
                    ==> hits@.contains(snapshot@[w].pid),
            forall|t: int| #![trigger hits@[t]]
                0 <= t < hits@.len() ==> spec_name_hit_before(snapshot@, i as int, hits@[t], needle@),
        decreases snapshot.len() - i,
    {
        let ghost before = hits@;
        let lowered = lowercase_str(snapshot[i].name.as_str());
        let matched_here = str_eq(lowered.as_str(), needle.as_str());
        if matched_here {
            hits.push(snapshot[i].pid);
        }
        i += 1;
        proof {
            if matched_here {
                assert(hits@ == before.push(snapshot@[i - 1].pid));
            }
            assert forall|w: int|
                0 <= w < i && spec_name_matches(#[trigger] snapshot@[w], needle@)
                    implies hits@.contains(snapshot@[w].pid) by {
                if w < i - 1 {
                    assert(before.contains(snapshot@[w].pid));
                    let t = choose|t: int| 0 <= t < before.len() && before[t] == snapshot@[w].pid;
                    assert(hits@[t] == snapshot@[w].pid);
                } else {
                    assert(hits@[hits@.len() - 1] == snapshot@[w].pid);
                }
            }
            assert forall|t: int| #![trigger hits@[t]] 0 <= t < hits@.len()
                implies spec_name_hit_before(snapshot@, i as int, hits@[t], needle@) by {
                if matched_here && t == hits@.len() - 1 {
                    assert(snapshot@[i - 1].pid == hits@[t]);
                    assert(spec_name_matches(snapshot@[i - 1], needle@));
                } else {
                    assert(hits@[t] == before[t]);
                    assert(spec_name_hit_before(snapshot@, i - 1, before[t], needle@));
                    let w = choose|w: int|
                        0 <= w < i - 1 && (#[trigger] snapshot@[w]).pid == before[t]
                            && spec_name_matches(snapshot@[w], needle@);
                }
            }
        }
    }
    proof {
        assert forall|x: u32| #[trigger]
            hits@.contains(x) <==> spec_name_hit_before(
                snapshot@,
                snapshot@.len() as int,
                x,
                needle@,
            ) by {
            if hits@.contains(x) {
                let t = choose|t: int| 0 <= t < hits@.len() && hits@[t] == x;
            }
            if spec_name_hit_before(snapshot@, snapshot@.len() as int, x, needle@) {
                let w = choose|w: int|
                    0 <= w < snapshot@.len() && (#[trigger] snapshot@[w]).pid == x
                        && spec_name_matches(snapshot@[w], needle@);
                assert(hits@.contains(snapshot@[w].pid));
            }
        }
    }
    hits
}

/// Keep `dst` strictly ascending while adding every element of `src`.
fn insert_all(dst: &mut Vec<u32>, src: &Vec<u32>)
    requires
        forall|i: int, j: int|
            0 <= i < j < old(dst)@.len() ==> #[trigger] old(dst)@[i] < #[trigger] old(dst)@[j],
    ensures
        forall|i: int, j: int|
            0 <= i < j < final (dst)@.len() ==> #[trigger] final (dst)@[i] < #[trigger] final (
            dst)@[j],
        forall|v: u32| #[trigger] final (dst)@.contains(v) <==> old(dst)@.contains(v) || src@.contains(v),
{
    let mut k: usize = 0;
    while k < src.len()
        invariant
            0 <= k <= src.len(),
            forall|i: int, j: int|
                0 <= i < j < dst@.len() ==> #[trigger] dst@[i] < #[trigger] dst@[j],
            forall|v: u32| #[trigger]
                dst@.contains(v) <==> old(dst)@.contains(v) || (exists|w: int|
                    0 <= w < k && (#[trigger] src@[w]) == v),
        decreases src.len() - k,
    {
        insert_asc_unique(dst, src[k]);
        k += 1;
        proof {
            assert forall|v: u32| #[trigger]
                dst@.contains(v) <==> old(dst)@.contains(v) || (exists|w: int|
                    0 <= w < k && (#[trigger] src@[w]) == v) by {
                if v == src@[k - 1] {
                    assert(dst@.contains(v));
                }
            }
        }
    }
    proof {
        assert forall|v: u32| #[trigger]
            dst@.contains(v) <==> old(dst)@.contains(v) || src@.contains(v) by {
            if src@.contains(v) {
                let w = choose|w: int| 0 <= w < src@.len() && src@[w] == v;
            }
        }
    }
}

/// Keep `dst` strictly ascending while adding every tracked_list PID that is
/// still alive in the snapshot.
fn insert_alive_tracked(dst: &mut Vec<u32>, tracked_list: &Vec<u32>, snapshot: &Vec<ProcessRecord>)
    requires
        forall|i: int, j: int|
            0 <= i < j < old(dst)@.len() ==> #[trigger] old(dst)@[i] < #[trigger] old(dst)@[j],
    ensures
        forall|i: int, j: int|
            0 <= i < j < final (dst)@.len() ==> #[trigger] final (dst)@[i] < #[trigger] final (
            dst)@[j],
        forall|v: u32| #[trigger]
            final (dst)@.contains(v) <==> old(dst)@.contains(v) || (tracked_list@.contains(v)
                && spec_snap_alive(snapshot@, v)),
{
    let mut k: usize = 0;
    while k < tracked_list.len()
        invariant
            0 <= k <= tracked_list.len(),
            forall|i: int, j: int|
                0 <= i < j < dst@.len() ==> #[trigger] dst@[i] < #[trigger] dst@[j],
            forall|v: u32| #[trigger]
                dst@.contains(v) <==> old(dst)@.contains(v) || (exists|w: int|
                    0 <= w < k && (#[trigger] tracked_list@[w]) == v && spec_snap_alive(snapshot@, v)),
        decreases tracked_list.len() - k,
    {
        let candidate = tracked_list[k];
        let ghost before = dst@;
        if snap_alive(snapshot, candidate) {
            insert_asc_unique(dst, candidate);
        }
        k += 1;
        proof {
            assert forall|v: u32| #[trigger]
                dst@.contains(v) <==> old(dst)@.contains(v) || (exists|w: int|
                    0 <= w < k && (#[trigger] tracked_list@[w]) == v && spec_snap_alive(
                        snapshot@,
                        v,
                    )) by {
                if v == candidate && spec_snap_alive(snapshot@, v) {
                    assert(tracked_list@[k - 1] == v);
                    assert(dst@.contains(v));
                }
                if dst@.contains(v) && !before.contains(v) {
                    assert(v == candidate && spec_snap_alive(snapshot@, v));
                    assert(tracked_list@[k - 1] == v);
                }
            }
        }
    }
    proof {
        assert forall|v: u32| #[trigger]
            dst@.contains(v) <==> old(dst)@.contains(v) || (tracked_list@.contains(v) && spec_snap_alive(
                snapshot@,
                v,
            )) by {
            if tracked_list@.contains(v) && spec_snap_alive(snapshot@, v) {
                let w = choose|w: int| 0 <= w < tracked_list@.len() && tracked_list@[w] == v;
            }
        }
    }
}

/// The whole verdict a liveness query owes: which layer fires (each tried
/// only when every earlier one found nothing), what runs, which PIDs are
/// tracked_list next, and when the answer counts as degraded.
pub open spec fn spec_match_verdict(
    sel: ProcessSelector,
    tracked_list: Seq<u32>,
    snap: Seq<ProcessRecord>,
    r: ProcessMatchResult,
) -> bool {
    let exe = spec_sel_exe(sel);
    let cmd = spec_sel_cmd(sel);
    let tree_hit = spec_tree_layer_hit(snap, sel);
    let tracked_hit = spec_tracked_layer_hit(snap, tracked_list);
    let adv_req = spec_advanced_requested(sel);
    let adv_hit = spec_advanced_layer_hit(snap, exe, cmd);
    let name_hit = match spec_sel_name(sel) {
        Some(n) => spec_name_layer_hit(snap, n),
        None => false,
    };
    &&& (r.source is PidTree) == tree_hit
    &&& (r.source is TrackedPids) == (!tree_hit && tracked_hit)
    &&& (r.source is Advanced) == (!tree_hit && !tracked_hit && adv_req && adv_hit)
    &&& (r.source is NameFallback) == (!tree_hit && !tracked_hit && !(adv_req && adv_hit)
        && spec_allow_name_fallback(sel) && name_hit)
    &&& r.running == !(r.source is NoMatch)
    &&& r.degraded_to_name == (adv_req && spec_advanced_unavailable(snap, exe, cmd) && r.source
        is NameFallback)
    &&& (forall|i: int, j: int|
        0 <= i < j < r.matched_pids@.len() ==> #[trigger] r.matched_pids@[i]
            < #[trigger] r.matched_pids@[j])
    &&& (forall|x: u32| #[trigger] r.matched_pids@.contains(x) ==> spec_snap_alive(snap, x))
    &&& ((tree_hit || tracked_hit) ==> (forall|x: u32|
        tracked_list.contains(x) && spec_snap_alive(snap, x) ==> #[trigger] r.matched_pids@.contains(
            x,
        )))
    &&& ((tree_hit || tracked_hit) ==> (forall|x: u32| #[trigger]
        r.matched_pids@.contains(x) ==> (tracked_list.contains(x) || (match sel.pid {
            Some(root) => x == root,
            None => false,
        }) || exists|p: u32| r.matched_pids@.contains(p) && spec_snap_child(snap, p, x))))
    &&& ((r.source is Advanced) ==> (forall|x: u32| #[trigger]
        r.matched_pids@.contains(x) <==> spec_advanced_hit_before(
            snap,
            snap.len() as int,
            x,
            exe,
            cmd,
        )))
    &&& ((r.source is NameFallback) ==> (match spec_sel_name(sel) {
        Some(n) => forall|x: u32| #[trigger]
            r.matched_pids@.contains(x) <==> spec_name_hit_before(snap, snap.len() as int, x, n),
        None => false,
    }))
    &&& ((r.source is NoMatch) ==> r.matched_pids@.len() == 0)
}

/// Decide whether the selected target is running, on a given snapshot of
/// the process table, by the layered strategy: the live PID tree below the
/// selector's PID, then the previously tracked_list PIDs, then the advanced
/// criteria, then the guarded name fallback. The union of what the firing
/// layer confirmed (together with surviving tracked_list PIDs) becomes the next
/// tracked_list set.
pub fn is_process_running(
    selector: &ProcessSelector,
    tracked_pids: &Vec<u32>,
    snapshot: &Vec<ProcessRecord>,
) -> (r: ProcessMatchResult)
    ensures
        spec_match_verdict(*selector, tracked_pids@, snapshot@, r),
{
    let name_trimmed: Option<String> = normalize_selector_text(selector.name.as_ref());
    let shell_like: bool = match &name_trimmed {
        Some(n) => is_shell_like_process_name(n.as_str()),
        None => false,
    };
    let sel_name: Option<String> = match &name_trimmed {
        Some(n) => Some(lowercase_str(n.as_str())),
        None => None,
    };
    let sel_exe: Option<String> = normalize_selector_path(selector.executable.as_ref());
    let sel_cmd: Option<String> = match normalize_selector_text(selector.cmdline_contains.as_ref()) {
        Some(c) => Some(lowercase_str(c.as_str())),
        None => None,
    };
    let allow_name_fallback: bool = match &name_trimmed {
        Some(_) => !shell_like || sel_exe.is_some() || sel_cmd.is_some(),
        None => false,
    };
    let advanced_requested = sel_exe.is_some() || sel_cmd.is_some();

    let mut matched: Vec<u32> = Vec::new();
    let mut tree_hit = false;
    match selector.pid {
        Some(root) => {
            let index = build_children_index(snapshot);
            let alive = snapshot_pids(snapshot);
            let tree = collect_tree_from_index(root, &index, &alive);
            if tree.len() > 0 {
                tree_hit = true;
                proof {
                    assert(tree@.contains(tree@[0]));
                    assert(alive@.contains(tree@[0]));
                }
            }
            proof {
                if spec_snap_alive(snapshot@, root) {
                    assert(alive@.contains(root));
                    assert(tree@.contains(root));
                }
            }
            insert_all(&mut matched, &tree);
            proof {
                assert forall|x: u32| #[trigger]
                    matched@.contains(x) implies spec_snap_alive(snapshot@, x) by {
                    assert(tree@.contains(x));
                    assert(alive@.contains(x));
                }
                assert forall|x: u32| #[trigger]
                    matched@.contains(x) implies ((match selector.pid {
                    Some(rt) => x == rt,
                    None => false,
                }) || exists|p: u32| matched@.contains(p) && spec_snap_child(snapshot@, p, x)) by {
                    assert(tree@.contains(x));
                    if x != root {
                        let p = choose|p: u32|
                            tree@.contains(p) && spec_is_child(index@, p, x);
                        assert(matched@.contains(p));
                        assert(spec_snap_child(snapshot@, p, x));
                    }
                }
            }
        },
        None => {},
    }
    let ghost tree_matched = matched@;
    insert_alive_tracked(&mut matched, tracked_pids, snapshot);

    let mut running = tree_hit;
    let mut source = if tree_hit {
        ProcessMatchSource::PidTree
    } else {
        ProcessMatchSource::NoMatch
    };
    if !running && matched.len() > 0 {
        running = true;
        source = ProcessMatchSource::TrackedPids;
        proof {
            assert(matched@.contains(matched@[0]));
            assert(tracked_pids@.contains(matched@[0]) && spec_snap_alive(
                snapshot@,
                matched@[0],
            ));
            let w = choose|w: int|
                0 <= w < tracked_pids@.len() && tracked_pids@[w] == matched@[0];
            assert(spec_tracked_layer_hit(snapshot@, tracked_pids@));
        }
    }
    proof {
        if !tree_hit && spec_tracked_layer_hit(snapshot@, tracked_pids@) {
            let k = choose|k: int|
                0 <= k < tracked_pids@.len() && spec_snap_alive(
                    snapshot@,
                    #[trigger] tracked_pids@[k],
                );
            assert(matched@.contains(tracked_pids@[k]));
            assert(matched@.len() > 0);
        }
    }

    let mut advanced_unavailable = false;
    if !running && advanced_requested {
        let scan = advanced_scan(snapshot, &sel_exe, &sel_cmd);
        let advanced_hits = scan.0;
        advanced_unavailable = scan.1;
        proof {
            if spec_advanced_layer_hit(snapshot@, opt_str_view(sel_exe), opt_str_view(sel_cmd)) {
                let i = choose|i: int|
                    0 <= i < snapshot@.len() && spec_advanced_match(
                        #[trigger] snapshot@[i],
                        opt_str_view(sel_exe),
                        opt_str_view(sel_cmd),
                    );
                assert(spec_advanced_hit_before(
                    snapshot@,
                    snapshot@.len() as int,
                    snapshot@[i].pid,
                    opt_str_view(sel_exe),
                    opt_str_view(sel_cmd),
                ));
                assert(advanced_hits@.contains(snapshot@[i].pid));
            }
        }
        if advanced_hits.len() > 0 {
            running = true;
            source = ProcessMatchSource::Advanced;
            proof {
                assert(advanced_hits@.contains(advanced_hits@[0]));
                let w = choose|w: int|
                    0 <= w < snapshot@.len() && (#[trigger] snapshot@[w]).pid
                        == advanced_hits@[0] && spec_advanced_match(
                        snapshot@[w],
                        opt_str_view(sel_exe),
                        opt_str_view(sel_cmd),
                    );
                assert(spec_advanced_layer_hit(
                    snapshot@,
                    opt_str_view(sel_exe),
                    opt_str_view(sel_cmd),
                ));
                assert(matched@.len() == 0) by {
                    if matched@.len() > 0 {
                        assert(matched@.contains(matched@[0]));
                    }
                }
            }
            insert_all(&mut matched, &advanced_hits);
        }
    }

    if !running && allow_name_fallback {
        match &sel_name {
            Some(needle) => {
                let name_hits = name_scan(snapshot, needle);
                proof {
                    if spec_name_layer_hit(snapshot@, needle@) {
                        let i = choose|i: int|
                            0 <= i < snapshot@.len() && spec_name_matches(
                                #[trigger] snapshot@[i],
                                needle@,
                            );
                        assert(spec_name_hit_before(
                            snapshot@,
                            snapshot@.len() as int,
                            snapshot@[i].pid,
                            needle@,
                        ));
                        assert(name_hits@.contains(snapshot@[i].pid));
                    }
                }
                if name_hits.len() > 0 {
                    running = true;
                    source = ProcessMatchSource::NameFallback;
                    proof {
                        assert(name_hits@.contains(name_hits@[0]));
                        let w = choose|w: int|
                            0 <= w < snapshot@.len() && (#[trigger] snapshot@[w]).pid
                                == name_hits@[0] && spec_name_matches(snapshot@[w], needle@);
                        assert(spec_name_layer_hit(snapshot@, needle@));
                        assert(matched@.len() == 0) by {
                            if matched@.len() > 0 {
                                assert(matched@.contains(matched@[0]));
                            }
                        }
                    }
                    insert_all(&mut matched, &name_hits);
                }
            },
            None => {},
        }
    }

    let degraded_to_name = advanced_requested && advanced_unavailable && matches!(
        source,
        ProcessMatchSource::NameFallback,
    );
    proof {
        let sel = *selector;
        let snap = snapshot@;
        let exe = spec_sel_exe(sel);
        let cmd = spec_sel_cmd(sel);
        assert(opt_str_view(sel_exe) == exe);
        assert(opt_str_view(sel_cmd) == cmd);
        assert(opt_str_view(sel_name) == spec_sel_name(sel));
        if spec_advanced_layer_hit(snap, exe, cmd) {
            let i = choose|i: int|
                0 <= i < snap.len() && spec_advanced_match(#[trigger] snap[i], exe, cmd);
            assert(spec_advanced_hit_before(snap, snap.len() as int, snap[i].pid, exe, cmd));
        }
        match spec_sel_name(sel) {
            Some(n) => {
                if spec_name_layer_hit(snap, n) {
                    let i = choose|i: int|
                        0 <= i < snap.len() && spec_name_matches(#[trigger] snap[i], n);
                    assert(spec_name_hit_before(snap, snap.len() as int, snap[i].pid, n));
                }
            },
            None => {},
        }
        if source is NoMatch && matched@.len() > 0 {
            assert(matched@.contains(matched@[0]));
        }
    }
    ProcessMatchResult { running, matched_pids: matched, source, degraded_to_name }
}

/// Declares sysinfo's process-table type so a scanner can hold one; Verus
/// sees nothing inside it.
#[verifier::external_type_specification]
#[verifier::external_body]
pub struct ExSystem(sysinfo::System);

/// Holds the live process table between refreshes.
pub struct ProcessScanner {
    system: sysinfo::System,
}

impl ProcessScanner {
    /// Relies on sysinfo::System::new_all to obtain the process table.
    #[verifier::external_body]
    pub fn new() -> (r: ProcessScanner) {
        ProcessScanner { system: sysinfo::System::new_all() }
    }

    /// Relies on sysinfo: System::refresh_processes and System::processes,
    /// with Process::{name, exe, cmd, parent} and Pid::as_u32 read on each
    /// entry. The snapshot mirrors the machine's process table at this
    /// moment, so nothing is promised of its contents.
    #[verifier::external_body]
    pub fn snapshot_processes(&mut self) -> (r: Vec<ProcessRecord>) {
        self.system.refresh_processes(sysinfo::ProcessesToUpdate::All, true);
        let mut records = Vec::new();
        for (pid, process) in self.system.processes() {
            let parent = process.parent().map(|p| p.as_u32());
            let name = process.name().to_string_lossy().to_string();
            let exe = process.exe().map(|p| p.display().to_string());
            let cmdline = process.cmd().iter().map(|c| c.to_string_lossy().into_owned()).collect();
            records.push(ProcessRecord { pid: pid.as_u32(), parent, name, exe, cmdline });
        }
        records
    }
}

/// Refresh the process table and decide whether the selected target runs.
/// What the table held is the machine's business; whatever it held, the
/// verdict is the layered strategy's verdict on it.
pub fn scan_for_selector(
    scanner: &mut ProcessScanner,
    selector: &ProcessSelector,
    tracked_pids: &Vec<u32>,
) -> (r: ProcessMatchResult)
    ensures
        exists|snap: Seq<ProcessRecord>|
            #[trigger] spec_match_verdict(*selector, tracked_pids@, snap, r),
{
    let snapshot = scanner.snapshot_processes();
    let result = is_process_running(selector, tracked_pids, &snapshot);
    proof {
        assert(spec_match_verdict(*selector, tracked_pids@, snapshot@, result));
    }
    result
}

} // verus!
