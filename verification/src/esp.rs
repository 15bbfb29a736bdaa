//! Locating the mount point of the EFI System Partition.
//!
//! Resolution runs in strict priority order: the first line of a successful
//! boot-manager query wins; otherwise a fixed, ordered list of candidate
//! mount roots is probed and the first candidate that holds a directory
//! named `EFI` wins; otherwise the partition is reported unresolved. The
//! query itself and the directory probes are external effects; the driver
//! hands their outcomes in as plain values and this module makes every
//! decision.
use vstd::prelude::*;
use vstd::string::StrSliceExecFns;

verus! {

/// How many candidate mount roots the fallback probe walks.
pub const CANDIDATE_COUNT: usize = 3;

/// The length of the first line of `s`: the index of the first newline, or
/// the whole length when there is none.
pub open spec fn line_len(s: Seq<char>) -> int
    decreases s.len(),
{
    if s.len() == 0 {
        0
    } else if s[0] == '\n' {
        0
    } else {
        1 + line_len(s.drop_first())
    }
}

/// The first line of `s`, as the `lines` convention has it: everything
/// before the first newline, with one carriage return stripped from its end
/// when a newline did follow.
pub open spec fn first_line_of(s: Seq<char>) -> Seq<char> {
    let line = s.take(line_len(s));
    if line_len(s) < s.len() && line.len() > 0 && line.last() == '\r' {
        line.drop_last()
    } else {
        line
    }
}

/// The fixed candidate mount roots, in probe order.
pub open spec fn spec_candidate(i: int) -> Seq<char> {
    if i == 0 {
        "/boot"@
    } else if i == 1 {
        "/boot/efi"@
    } else {
        "/efi"@
    }
}

/// The index of the first successful probe, if any probe succeeded.
pub open spec fn spec_first_hit(hits: Seq<bool>) -> Option<int>
    decreases hits.len(),
{
    if hits.len() == 0 {
        None
    } else if hits[0] {
        Some(0int)
    } else {
        match spec_first_hit(hits.drop_first()) {
            Some(i) => Some(i + 1),
            None => None,
        }
    }
}

/// What resolution returns, given the standard output of a successful
/// boot-manager query (absent when the query failed) and the outcome of
/// each candidate probe.
pub open spec fn spec_resolve_esp(query: Option<Seq<char>>, hits: Seq<bool>) -> Option<Seq<char>> {
    match query {
        Some(out) => if out.len() > 0 {
            Some(first_line_of(out))
        } else {
            spec_fallback(hits)
        },
        None => spec_fallback(hits),
    }
}

/// The fallback half of resolution: the first candidate whose probe hit.
pub open spec fn spec_fallback(hits: Seq<bool>) -> Option<Seq<char>> {
    match spec_first_hit(hits) {
        Some(i) => Some(spec_candidate(i)),
        None => None,
    }
}

/// `line_len` is the position of the first newline: no newline stands
/// before it, and a newline stands at it unless the sequence ends first.
proof fn lemma_line_len_at(s: Seq<char>, i: int)
    requires
        0 <= i <= s.len(),
        forall|k: int| 0 <= k < i ==> s[k] != '\n',
        i == s.len() || s[i] == '\n',
    ensures
        line_len(s) == i,
    decreases s.len(),
{
    if s.len() == 0 {
    } else if s[0] == '\n' {
        assert(i == 0);
    } else {
        let t = s.drop_first();
        assert(forall|k: int| 0 <= k < i - 1 ==> t[k] == s[k + 1] && t[k] != '\n');
        lemma_line_len_at(t, i - 1);
    }
}

/// The first line of a piece of standard output: `None` exactly when the
/// output is empty.
pub fn first_line(out: &str) -> (r: Option<String>)
    ensures
        r matches Some(l) ==> out@.len() > 0 && l@ == first_line_of(out@),
        r is None <==> out@.len() == 0,
{
    let n = out.unicode_len();
    if n == 0 {
        return None;
    }
    let mut i: usize = 0;
    while i < n && out.get_char(i) != '\n'
        invariant
            0 <= i <= n,
            n == out@.len(),
            forall|k: int| 0 <= k < i ==> out@[k] != '\n',
        decreases n - i,
    {
        i = i + 1;
    }
    proof {
        lemma_line_len_at(out@, i as int);
    }
    let mut end = i;
    if i < n && end > 0 && out.get_char(end - 1) == '\r' {
        end = end - 1;
    }
    let line = out.substring_char(0, end);
    proof {
        assert(line@ =~= first_line_of(out@));
    }
    Some(line.to_owned())
}

/// The fixed candidate mount roots, in the order the fallback probes them.
pub fn esp_candidates() -> (r: Vec<String>)
    ensures
        r@.len() == CANDIDATE_COUNT,
        r.deep_view() =~= Seq::new(CANDIDATE_COUNT as nat, |i: int| spec_candidate(i)),
{
    let mut v: Vec<String> = Vec::new();
    v.push("/boot".to_owned());
    v.push("/boot/efi".to_owned());
    v.push("/efi".to_owned());
    v
}

/// Resolves the ESP mount point from the outcomes of the two strategies:
/// `query_stdout` is the standard output of the boot-manager query when it
/// ran and exited successfully, and `hits[i]` says whether candidate `i`
/// holds a directory named `EFI`. The query's first line wins when its
/// output is non-empty; otherwise the first hit candidate; otherwise the
/// partition is unresolved.
pub fn resolve_esp(query_stdout: Option<&str>, hits: &Vec<bool>) -> (r: Option<String>)
    requires
        hits@.len() == CANDIDATE_COUNT,
    ensures
        r.deep_view() == spec_resolve_esp(query_stdout.deep_view(), hits@),
{
    match query_stdout {
        Some(out) => {
            match first_line(out) {
                Some(l) => {
                    return Some(l);
                },
                None => {},
            }
        },
        None => {},
    }
    let candidates = esp_candidates();
    let mut k: usize = 0;
    while k < CANDIDATE_COUNT
        invariant
            0 <= k <= CANDIDATE_COUNT,
            query_stdout is None || (query_stdout matches Some(o) && o@.len() == 0),
            hits@.len() == CANDIDATE_COUNT,
            candidates@.len() == CANDIDATE_COUNT,
            candidates.deep_view() =~= Seq::new(
                CANDIDATE_COUNT as nat,
                |i: int| spec_candidate(i),
            ),
            forall|j: int| 0 <= j < k ==> !hits@[j],
        decreases CANDIDATE_COUNT - k,
    {
        if hits[k] {
            proof {
                lemma_first_hit_at(hits@, k as int);
            }
            let c = candidates[k].clone();
            proof {
                assert(candidates.deep_view()[k as int] == candidates@[k as int]@);
                assert(candidates.deep_view()[k as int] == spec_candidate(k as int));
            }
            return Some(c);
        }
        k = k + 1;
    }
    proof {
        lemma_no_hit(hits@);
    }
    None
}

/// Strict priority: a successful query with non-empty output decides
/// resolution alone — the probe outcomes cannot influence the answer.
pub proof fn lemma_query_wins(out: Seq<char>, hits1: Seq<bool>, hits2: Seq<bool>)
    requires
        out.len() > 0,
    ensures
        spec_resolve_esp(Some(out), hits1) == spec_resolve_esp(Some(out), hits2),
        spec_resolve_esp(Some(out), hits1) == Some(first_line_of(out)),
{
}

/// The fallback never invents a path: whatever the probe outcomes, it
/// answers with a candidate whose probe hit — the earliest one — or with
/// absence when none hit.
pub proof fn lemma_fallback_is_earliest_hit(hits: Seq<bool>)
    ensures
        spec_fallback(hits) matches Some(p) ==> exists|i: int|
            0 <= i < hits.len() && hits[i] && p == spec_candidate(i) && (forall|k: int|
                0 <= k < i ==> !hits[k]),
        spec_fallback(hits) is None ==> forall|k: int| 0 <= k < hits.len() ==> !hits[k],
{
    lemma_first_hit_sound(hits);
    if spec_fallback(hits) is Some {
        let i = spec_first_hit(hits)->0;
        assert(0 <= i < hits.len() && hits[i] && spec_candidate(i) == spec_fallback(hits)->0 && (
        forall|k: int| 0 <= k < i ==> !hits[k]));
    }
}

/// A first hit is a hit, lies in range, and nothing before it hit; and
/// there is none exactly when nothing hit at all.
proof fn lemma_first_hit_sound(hits: Seq<bool>)
    ensures
        spec_first_hit(hits) matches Some(i) ==> 0 <= i < hits.len() && hits[i] && (forall|k: int|
            0 <= k < i ==> !hits[k]),
        spec_first_hit(hits) is None ==> forall|k: int| 0 <= k < hits.len() ==> !hits[k],
    decreases hits.len(),
{
    if hits.len() > 0 && !hits[0] {
        let t = hits.drop_first();
        lemma_first_hit_sound(t);
        assert(forall|k: int| 0 <= k < t.len() ==> t[k] == hits[k + 1]);
        assert(forall|k: int| 1 <= k < hits.len() ==> hits[k] == t[k - 1]);
    }
}

/// When no probe before `i` hit and probe `i` did, `i` is the first hit.
proof fn lemma_first_hit_at(hits: Seq<bool>, i: int)
    requires
        0 <= i < hits.len(),
        forall|k: int| 0 <= k < i ==> !hits[k],
        hits[i],
    ensures
        spec_first_hit(hits) == Some(i),
    decreases hits.len(),
{
    if i == 0 {
    } else {
        let t = hits.drop_first();
        assert(forall|k: int| 0 <= k < i - 1 ==> t[k] == hits[k + 1] && !t[k]);
        lemma_first_hit_at(t, i - 1);
    }
}

/// When no probe hit, there is no first hit.
proof fn lemma_no_hit(hits: Seq<bool>)
    requires
        forall|k: int| 0 <= k < hits.len() ==> !hits[k],
    ensures
        spec_first_hit(hits) is None,
    decreases hits.len(),
{
    if hits.len() > 0 {
        let t = hits.drop_first();
        assert(forall|k: int| 0 <= k < t.len() ==> t[k] == hits[k + 1] && !t[k]);
        lemma_no_hit(t);
    }
}

} // verus!
