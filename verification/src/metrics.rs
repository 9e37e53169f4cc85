//! The metric-name list: a built-in default catalog, and a parser for a
//! user-supplied list separated by semicolons or commas.
//!
//! An input that is empty or all white space selects the catalog. Otherwise
//! the input splits at every `;` and `,`, each piece is trimmed of white
//! space, and the non-empty pieces are the metric names, in input order.

use vstd::prelude::*;
use vstd::string::StrSliceExecFns;

verus! {

/// The white-space characters trimmed from metric names: the Unicode
/// white-space code points.
pub open spec fn is_space(c: char) -> bool {
    let u = c as u32;
    ||| u == 0x09
    ||| u == 0x0A
    ||| u == 0x0B
    ||| u == 0x0C
    ||| u == 0x0D
    ||| u == 0x20
    ||| u == 0x85
    ||| u == 0xA0
    ||| u == 0x1680
    ||| (0x2000 <= u && u <= 0x200A)
    ||| u == 0x2028
    ||| u == 0x2029
    ||| u == 0x202F
    ||| u == 0x3000
}

/// Runtime test for [`is_space`].
pub fn char_is_space(c: char) -> (r: bool)
    ensures
        r == is_space(c),
{
    let u = c as u32;
    u == 0x09 || u == 0x0A || u == 0x0B || u == 0x0C || u == 0x0D || u == 0x20 || u == 0x85
        || u == 0xA0 || u == 0x1680 || (0x2000 <= u && u <= 0x200A) || u == 0x2028 || u == 0x2029
        || u == 0x202F || u == 0x3000
}

/// The two separators between metric names.
pub open spec fn is_sep(c: char) -> bool {
    c == ';' || c == ','
}

/// Runtime test for [`is_sep`].
pub fn char_is_sep(c: char) -> (r: bool)
    ensures
        r == is_sep(c),
{
    c == ';' || c == ','
}

/// A sequence of nothing but white space.
pub open spec fn is_blank(s: Seq<char>) -> bool {
    forall|k: int| 0 <= k < s.len() ==> is_space(s[k])
}

/// `s` without its leading white space.
pub open spec fn trim_front(s: Seq<char>) -> Seq<char>
    decreases s.len(),
{
    if s.len() > 0 && is_space(s[0]) {
        trim_front(s.subrange(1, s.len() as int))
    } else {
        s
    }
}

/// `s` without its trailing white space.
pub open spec fn trim_back(s: Seq<char>) -> Seq<char>
    decreases s.len(),
{
    if s.len() > 0 && is_space(s[s.len() - 1]) {
        trim_back(s.subrange(0, s.len() - 1))
    } else {
        s
    }
}

/// `s` without leading and trailing white space.
pub open spec fn trim(s: Seq<char>) -> Seq<char> {
    trim_back(trim_front(s))
}

/// The segment `cur`, trimmed, as a list: empty if nothing remains.
pub open spec fn emit(cur: Seq<char>) -> Seq<Seq<char>> {
    if trim(cur).len() == 0 {
        Seq::empty()
    } else {
        seq![trim(cur)]
    }
}

/// Splits `s` at separators, with `cur` the segment read so far: the trimmed,
/// non-empty pieces in order.
pub open spec fn scan(s: Seq<char>, cur: Seq<char>) -> Seq<Seq<char>>
    decreases s.len(),
{
    if s.len() == 0 {
        emit(cur)
    } else if is_sep(s[0]) {
        emit(cur) + scan(s.subrange(1, s.len() as int), Seq::empty())
    } else {
        scan(s.subrange(1, s.len() as int), cur.push(s[0]))
    }
}

/// What parsing a metric list returns: the built-in catalog for blank input,
/// otherwise the trimmed, non-empty pieces between separators.
pub open spec fn parse_metrics_spec(s: Seq<char>) -> Seq<Seq<char>> {
    if is_blank(s) {
        default_metrics_spec()
    } else {
        scan(s, Seq::empty())
    }
}

/// The built-in default metric catalog.
pub open spec fn default_metrics_spec() -> Seq<Seq<char>> {
    seq![
        "gpu__time_duration.sum"@,
        "sm__cycles_active.avg"@,
        "sm__cycles_elapsed.avg"@,
        "sm__cycles_elapsed.avg.per_second"@,
        "sm__cycles_elapsed.max"@,
        "sm__throughput.avg.pct_of_peak_sustained_elapsed"@,
        "dram__cycles_elapsed.avg.per_second"@,
        "dram__throughput.avg.pct_of_peak_sustained_elapsed"@,
        "lts__throughput.avg.pct_of_peak_sustained_elapsed"@,
        "sm__warps_active.avg.pct_of_peak_sustained_active"@,
        "sm__warps_active.avg.per_cycle_active"@,
        "sm__inst_executed.avg.per_cycle_active"@,
        "sm__inst_executed.avg.per_cycle_elapsed"@,
        "sm__instruction_throughput.avg.pct_of_peak_sustained_active"@,
        "sm__pipe_alu_cycles_active.avg.pct_of_peak_sustained_active"@,
        "sm__pipe_fma_cycles_active.avg.pct_of_peak_sustained_active"@,
        "sm__pipe_fp64_cycles_active.avg.pct_of_peak_sustained_active"@,
        "sm__pipe_tensor_cycles_active.avg.pct_of_peak_sustained_active"@,
        "sm__inst_executed_pipe_alu.avg.pct_of_peak_sustained_active"@,
        "sm__inst_executed_pipe_fma.avg.pct_of_peak_sustained_active"@,
        "sm__inst_executed_pipe_fp64.avg.pct_of_peak_sustained_active"@,
        "sm__inst_executed_pipe_tensor.avg.pct_of_peak_sustained_active"@,
        "sm__warps_active.avg.pct_of_peak_sustained_active"@,
        "sm__warps_active.avg.per_cycle_active"@,
    ]
}

/// The catalog holds 24 entries and begins with the duration metric.
pub proof fn lemma_default_metrics_shape()
    ensures
        default_metrics_spec().len() == 24,
        default_metrics_spec()[0] == "gpu__time_duration.sum"@,
{
}

/// Builds the default metric catalog.
pub fn default_metrics() -> (r: Vec<String>)
    ensures
        r.deep_view() == default_metrics_spec(),
{
    let mut v: Vec<String> = Vec::new();
    v.push("gpu__time_duration.sum".to_owned());
    v.push("sm__cycles_active.avg".to_owned());
    v.push("sm__cycles_elapsed.avg".to_owned());
    v.push("sm__cycles_elapsed.avg.per_second".to_owned());
    v.push("sm__cycles_elapsed.max".to_owned());
    v.push("sm__throughput.avg.pct_of_peak_sustained_elapsed".to_owned());
    v.push("dram__cycles_elapsed.avg.per_second".to_owned());
    v.push("dram__throughput.avg.pct_of_peak_sustained_elapsed".to_owned());
    v.push("lts__throughput.avg.pct_of_peak_sustained_elapsed".to_owned());
    v.push("sm__warps_active.avg.pct_of_peak_sustained_active".to_owned());
    v.push("sm__warps_active.avg.per_cycle_active".to_owned());
    v.push("sm__inst_executed.avg.per_cycle_active".to_owned());
    v.push("sm__inst_executed.avg.per_cycle_elapsed".to_owned());
    v.push("sm__instruction_throughput.avg.pct_of_peak_sustained_active".to_owned());
    v.push("sm__pipe_alu_cycles_active.avg.pct_of_peak_sustained_active".to_owned());
    v.push("sm__pipe_fma_cycles_active.avg.pct_of_peak_sustained_active".to_owned());
    v.push("sm__pipe_fp64_cycles_active.avg.pct_of_peak_sustained_active".to_owned());
    v.push("sm__pipe_tensor_cycles_active.avg.pct_of_peak_sustained_active".to_owned());
    v.push("sm__inst_executed_pipe_alu.avg.pct_of_peak_sustained_active".to_owned());
    v.push("sm__inst_executed_pipe_fma.avg.pct_of_peak_sustained_active".to_owned());
    v.push("sm__inst_executed_pipe_fp64.avg.pct_of_peak_sustained_active".to_owned());
    v.push("sm__inst_executed_pipe_tensor.avg.pct_of_peak_sustained_active".to_owned());
    v.push("sm__warps_active.avg.pct_of_peak_sustained_active".to_owned());
    v.push("sm__warps_active.avg.per_cycle_active".to_owned());
    proof {
        assert(v.deep_view() =~~= default_metrics_spec());
    }
    v
}

/// Finds the bounds of `s[lo..hi]` with white space trimmed from both ends.
fn trim_bounds(s: &str, lo: usize, hi: usize) -> (r: (usize, usize))
    requires
        lo <= hi <= s@.len(),
    ensures
        lo <= r.0 <= r.1 <= hi,
        s@.subrange(r.0 as int, r.1 as int) == trim(s@.subrange(lo as int, hi as int)),
{
    let ghost whole = s@.subrange(lo as int, hi as int);
    let mut a: usize = lo;
    while a < hi && char_is_space(s.get_char(a))
        invariant
            lo <= a <= hi <= s@.len(),
            trim_front(s@.subrange(lo as int, hi as int)) == trim_front(
                s@.subrange(a as int, hi as int),
            ),
        decreases hi - a,
    {
        proof {
            assert(s@.subrange(a as int, hi as int).subrange(
                1,
                s@.subrange(a as int, hi as int).len() as int,
            ) =~= s@.subrange(a + 1, hi as int));
        }
        a = a + 1;
    }
    proof {
        assert(trim_front(s@.subrange(a as int, hi as int)) == s@.subrange(a as int, hi as int));
    }
    let mut b: usize = hi;
    while b > a && char_is_space(s.get_char(b - 1))
        invariant
            lo <= a <= b <= hi <= s@.len(),
            trim_front(s@.subrange(lo as int, hi as int)) == s@.subrange(a as int, hi as int),
            trim_back(s@.subrange(a as int, hi as int)) == trim_back(
                s@.subrange(a as int, b as int),
            ),
        decreases b - a,
    {
        proof {
            assert(s@.subrange(a as int, b as int).subrange(
                0,
                s@.subrange(a as int, b as int).len() - 1,
            ) =~= s@.subrange(a as int, b - 1));
        }
        b = b - 1;
    }
    proof {
        assert(trim_back(s@.subrange(a as int, b as int)) == s@.subrange(a as int, b as int));
    }
    (a, b)
}

/// Parses a separated list of metric names.
///
/// Blank input (empty or all white space) yields the built-in catalog.
/// Otherwise the input splits at every `;` and `,`; each piece is trimmed of
/// white space and the non-empty pieces are returned in order.
pub fn parse_metrics(input: &str) -> (r: Vec<String>)
    ensures
        r.deep_view() == parse_metrics_spec(input@),
{
    let ghost s = input@;
    let n = input.unicode_len();
    let mut i: usize = 0;
    let mut blank: bool = true;
    while i < n
        invariant
            i <= n,
            n == s.len(),
            s == input@,
            blank <==> (forall|k: int| 0 <= k < i ==> is_space(s[k])),
        decreases n - i,
    {
        if !char_is_space(input.get_char(i)) {
            blank = false;
        }
        i = i + 1;
    }
    if blank {
        let r = default_metrics();
        proof {
            assert(is_blank(s));
        }
        return r;
    }
    let mut out: Vec<String> = Vec::new();
    let mut seg_start: usize = 0;
    let mut i: usize = 0;
    proof {
        assert(s.subrange(0, n as int) =~= s);
        assert(s.subrange(0, 0) =~= Seq::<char>::empty());
        assert(out.deep_view() =~~= Seq::<Seq<char>>::empty());
        assert(out.deep_view() + scan(s, Seq::empty()) =~~= scan(s, Seq::empty()));
    }
    while i < n
        invariant
            seg_start <= i <= n,
            n == s.len(),
            s == input@,
            scan(s, Seq::empty()) == out.deep_view() + scan(
                s.subrange(i as int, n as int),
                s.subrange(seg_start as int, i as int),
            ),
        decreases n - i,
    {
        let ghost rest = s.subrange(i as int, n as int);
        let ghost cur = s.subrange(seg_start as int, i as int);
        let c = input.get_char(i);
        proof {
            assert(rest[0] == s[i as int]);
            assert(rest.subrange(1, rest.len() as int) =~= s.subrange(i + 1, n as int));
        }
        if char_is_sep(c) {
            let ghost dv0 = out.deep_view();
            let (a, b) = trim_bounds(input, seg_start, i);
            if a < b {
                let piece = input.substring_char(a, b).to_owned();
                out.push(piece);
                proof {
                    assert(out.deep_view() =~~= dv0 + emit(cur));
                }
            } else {
                proof {
                    assert(trim(cur).len() == 0);
                    assert(out.deep_view() =~~= dv0 + emit(cur));
                }
            }
            proof {
                assert(scan(rest, cur) == emit(cur) + scan(
                    s.subrange(i + 1, n as int),
                    Seq::empty(),
                ));
                assert(s.subrange(i + 1, i + 1) =~= Seq::<char>::empty());
                assert(dv0 + (emit(cur) + scan(s.subrange(i + 1, n as int), Seq::empty())) =~~= (
                dv0 + emit(cur)) + scan(s.subrange(i + 1, n as int), Seq::empty()));
            }
            seg_start = i + 1;
        } else {
            proof {
                assert(cur.push(s[i as int]) =~= s.subrange(seg_start as int, i + 1));
                assert(scan(rest, cur) == scan(s.subrange(i + 1, n as int), cur.push(s[i as int])));
            }
        }
        i = i + 1;
    }
    let ghost cur = s.subrange(seg_start as int, n as int);
    proof {
        assert(s.subrange(n as int, n as int) =~= Seq::<char>::empty());
        assert(scan(Seq::<char>::empty(), cur) == emit(cur));
    }
    let ghost dv0 = out.deep_view();
    let (a, b) = trim_bounds(input, seg_start, n);
    if a < b {
        let piece = input.substring_char(a, b).to_owned();
        out.push(piece);
        proof {
            assert(out.deep_view() =~~= dv0 + emit(cur));
        }
    } else {
        proof {
            assert(trim(cur).len() == 0);
            assert(out.deep_view() =~~= dv0 + emit(cur));
        }
    }
    proof {
        assert(!is_blank(s));
    }
    out
}

} // verus!
