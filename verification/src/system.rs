//! The computing half of the system collector: reading `/proc/meminfo`,
//! `/proc/stat`, `vcgencmd get_throttled` output and hwmon fan files, and the
//! CPU-usage bookkeeping between two readings.
use vstd::prelude::*;
use vstd::utf8::{decode_utf8, valid_utf8};
use crate::external::{sort_u32s, string_from_utf8};
use crate::numbers::{parse_hex_u32, parse_hex_u32_spec, parse_u32, parse_u32_spec, parse_u64, parse_u64_spec};
use crate::text::{
    chars_of, ends_with, ends_with_chars, eq_str, find, find_chars, lemma_find_from_bounds, lines,
    seq_views, split_lines, split_tokens, starts_with, starts_with_chars, subvec, tokens, trim,
    trim_chars,
};

verus! {

/// The first line of `ls` that starts with `key`.
pub open spec fn first_line_with(ls: Seq<Seq<char>>, key: Seq<char>) -> Option<Seq<char>>
    decreases ls.len(),
{
    if ls.len() == 0 {
        None
    } else if starts_with(ls[0], key) {
        Some(ls[0])
    } else {
        first_line_with(ls.drop_first(), key)
    }
}

/// The number in the second column of the first `/proc/meminfo` line that
/// starts with `key`.
pub open spec fn meminfo_kb(meminfo: Seq<char>, key: Seq<char>) -> Option<u64> {
    match first_line_with(lines(meminfo), key) {
        Some(line) => if tokens(line).len() > 1 {
            parse_u64_spec(tokens(line)[1])
        } else {
            None
        },
        None => None,
    }
}

/// The number in the second column of the first line of `meminfo` that
/// starts with `key` (e.g. `MemTotal:`), in kB.
pub fn parse_meminfo_kb(meminfo: &str, key: &str) -> (r: Option<u64>)
    ensures
        r == meminfo_kb(meminfo@, key@),
{
    let ls = split_lines(&chars_of(meminfo));
    let k = chars_of(key);
    let n = ls.len();
    let mut i: usize = 0;
    assert(seq_views(ls@).skip(0) =~= seq_views(ls@));
    while i < n
        invariant
            n == ls@.len(),
            i <= n,
            first_line_with(seq_views(ls@).skip(i as int), k@) == first_line_with(
                lines(meminfo@),
                k@,
            ),
            k@ == key@,
            seq_views(ls@) == lines(meminfo@),
        decreases n - i,
    {
        let ghost rest = seq_views(ls@).skip(i as int);
        assert(rest[0] == ls@[i as int]@);
        assert(rest.drop_first() =~= seq_views(ls@).skip(i + 1));
        if starts_with_chars(&ls[i], &k) {
            let parts = split_tokens(&ls[i]);
            if parts.len() > 1 {
                return parse_u64(&parts[1]);
            }
            return None;
        }
        i = i + 1;
    }
    None
}

/// The tokens that read as `u64`, in order (`filter_map(parse().ok())`).
pub open spec fn parsed_u64s(ts: Seq<Seq<char>>) -> Seq<u64>
    decreases ts.len(),
{
    if ts.len() == 0 {
        Seq::empty()
    } else {
        parsed_u64s(ts.drop_last()) + match parse_u64_spec(ts.last()) {
            Some(v) => seq![v],
            None => Seq::empty(),
        }
    }
}

/// The sum of `v`.
pub open spec fn seq_sum(v: Seq<u64>) -> int
    decreases v.len(),
{
    if v.len() == 0 {
        0
    } else {
        seq_sum(v.drop_last()) + v.last()
    }
}

/// The counters of the aggregate `cpu` line of `/proc/stat`: the readable
/// numbers after the `cpu` label, if there are at least four.
pub open spec fn cpu_counters(stat: Seq<char>) -> Option<Seq<u64>> {
    let ls = lines(stat);
    if ls.len() == 0 {
        None
    } else {
        let parts = tokens(ls[0]);
        if parts.len() == 0 || parts[0] != "cpu"@ {
            None
        } else {
            let values = parsed_u64s(parts.drop_first());
            if values.len() < 4 {
                None
            } else {
                Some(values)
            }
        }
    }
}

/// Whether the counter sums fit in `u64` (beyond it the addition overflows).
pub open spec fn cpu_totals_fit(stat: Seq<char>) -> bool {
    match cpu_counters(stat) {
        Some(v) => seq_sum(v) <= u64::MAX,
        None => true,
    }
}

/// Idle time (idle plus iowait, the fourth and fifth counters) and total time.
pub open spec fn cpu_totals_spec(stat: Seq<char>) -> Option<(u64, u64)> {
    match cpu_counters(stat) {
        Some(v) => Some(
            (
                (v[3] + if v.len() > 4 {
                    v[4] as int
                } else {
                    0
                }) as u64,
                seq_sum(v) as u64,
            ),
        ),
        None => None,
    }
}

proof fn lemma_parsed_u64s_push(ts: Seq<Seq<char>>, t: Seq<char>)
    ensures
        parsed_u64s(ts.push(t)) == parsed_u64s(ts) + match parse_u64_spec(t) {
            Some(v) => seq![v],
            None => Seq::empty(),
        },
{
    assert(ts.push(t).drop_last() =~= ts);
}

proof fn lemma_seq_sum_prefix(v: Seq<u64>, i: int)
    requires
        0 <= i <= v.len(),
    ensures
        seq_sum(v.take(i)) <= seq_sum(v),
    decreases v.len() - i,
{
    if i < v.len() {
        lemma_seq_sum_prefix(v, i + 1);
        assert(v.take(i + 1).drop_last() =~= v.take(i));
    } else {
        assert(v.take(i) =~= v);
    }
}

/// Whether the `cpu` counters of `stat` can be summed without overflow.
pub fn cpu_totals_in_range(stat: &str) -> (r: bool)
    ensures
        r == cpu_totals_fit(stat@),
{
    match cpu_counters_exec(stat) {
        None => true,
        Some(values) => {
            let n = values.len();
            let mut total: u128 = 0;
            let mut i: usize = 0;
            while i < n
                invariant
                    n == values@.len(),
                    i <= n,
                    total == seq_sum(values@.take(i as int)),
                    total <= i * 0xffff_ffff_ffff_ffffu128,
                    cpu_counters(stat@) == Some(values@),
                decreases n - i,
            {
                assert(values@.take(i + 1).drop_last() =~= values@.take(i as int));
                if total > 0xffff_ffff_ffff_ffffu128 {
                    proof {
                        lemma_seq_sum_prefix(values@, i as int);
                    }
                    return false;
                }
                total = total + values[i] as u128;
                i = i + 1;
            }
            assert(values@.take(n as int) =~= values@);
            total <= 0xffff_ffff_ffff_ffffu128
        },
    }
}

fn cpu_counters_exec(stat: &str) -> (r: Option<Vec<u64>>)
    ensures
        match r {
            Some(v) => cpu_counters(stat@) == Some(v@),
            None => cpu_counters(stat@) is None,
        },
{
    let ls = split_lines(&chars_of(stat));
    if ls.len() == 0 {
        return None;
    }
    let parts = split_tokens(&ls[0]);
    assert(seq_views(ls@)[0] == ls@[0]@);
    if parts.len() == 0 {
        return None;
    }
    assert(seq_views(parts@)[0] == parts@[0]@);
    if !eq_str(&parts[0], "cpu") {
        return None;
    }
    let ghost rest = seq_views(parts@).drop_first();
    let mut values: Vec<u64> = Vec::new();
    let n = parts.len();
    let mut i: usize = 1;
    while i < n
        invariant
            n == parts@.len(),
            1 <= i <= n,
            rest == seq_views(parts@).drop_first(),
            values@ == parsed_u64s(rest.take(i - 1)),
        decreases n - i,
    {
        proof {
            lemma_parsed_u64s_push(rest.take(i - 1), parts@[i as int]@);
            assert(rest.take(i - 1).push(parts@[i as int]@) =~= rest.take(i as int));
        }
        match parse_u64(&parts[i]) {
            Some(v) => {
                values.push(v);
                assert(values@ =~= parsed_u64s(rest.take(i - 1)) + seq![v]);
            },
            None => {
                assert(values@ =~= parsed_u64s(rest.take(i - 1)) + Seq::<u64>::empty());
            },
        }
        i = i + 1;
    }
    assert(rest.take(n - 1) =~= rest);
    if values.len() < 4 {
        return None;
    }
    Some(values)
}

/// Idle and total CPU time from the `cpu` line of `/proc/stat`.
pub fn parse_cpu_totals(stat: &str) -> (r: Option<(u64, u64)>)
    requires
        cpu_totals_fit(stat@),
    ensures
        r == cpu_totals_spec(stat@),
{
    let values = match cpu_counters_exec(stat) {
        Some(v) => v,
        None => return None,
    };
    let n = values.len();
    let mut total: u64 = 0;
    let mut i: usize = 0;
    while i < n
        invariant
            n == values@.len(),
            i <= n,
            seq_sum(values@) <= u64::MAX,
            total == seq_sum(values@.take(i as int)),
        decreases n - i,
    {
        assert(values@.take(i + 1).drop_last() =~= values@.take(i as int));
        proof {
            lemma_seq_sum_prefix(values@, i + 1);
        }
        total = total + values[i];
        i = i + 1;
    }
    assert(values@.take(n as int) =~= values@);
    proof {
        lemma_seq_sum_prefix(values@, 4);
        if n > 4 {
            lemma_seq_sum_prefix(values@, 5);
        }
        reveal_with_fuel(seq_sum, 6);
        assert(values@.take(4).drop_last() =~= values@.take(3));
        if n > 4 {
            assert(values@.take(5).drop_last() =~= values@.take(4));
        }
    }
    let idle = values[3] + if n > 4 {
        values[4]
    } else {
        0
    };
    Some((idle, total))
}

/// The text after the first `0x` up to the next `0x` (`split("0x").nth(1)`).
pub open spec fn after_hex_prefix(t: Seq<char>) -> Option<Seq<char>> {
    match find(t, "0x"@) {
        None => None,
        Some(i) => {
            let rest = t.skip(i + "0x"@.len());
            match find(rest, "0x"@) {
                Some(j) => Some(rest.take(j)),
                None => Some(rest),
            }
        },
    }
}

/// `vcgencmd get_throttled` output (`throttled=0x...`): whether bit 2, "currently
/// throttled", is set; `None` if the output is not UTF-8 or has no hex flags.
pub open spec fn throttled_spec(stdout: Seq<u8>) -> Option<bool> {
    if !valid_utf8(stdout) {
        None
    } else {
        match after_hex_prefix(trim(decode_utf8(stdout))) {
            None => None,
            Some(h) => match parse_hex_u32_spec(h) {
                Some(flags) => Some(flags & 4 != 0),
                None => None,
            },
        }
    }
}

/// Reads the currently-throttled bit from `vcgencmd get_throttled` output.
pub fn parse_throttled(stdout: Vec<u8>) -> (r: Option<bool>)
    ensures
        r == throttled_spec(stdout@),
{
    let text = match string_from_utf8(stdout) {
        Some(t) => t,
        None => return None,
    };
    let t = trim_chars(&chars_of(text.as_str()));
    let tl = t.len();
    let pat = chars_of("0x");
    let i = match find_chars(&t, &pat) {
        Some(i) => i,
        None => return None,
    };
    proof {
        lemma_find_from_bounds(t@, pat@, 0);
    }
    let rest = subvec(&t, i + pat.len(), t.len());
    assert(rest@ =~= t@.skip(i + "0x"@.len()));
    let hex = match find_chars(&rest, &pat) {
        Some(j) => {
            proof {
                lemma_find_from_bounds(rest@, pat@, 0);
            }
            subvec(&rest, 0, j)
        },
        None => rest,
    };
    match parse_hex_u32(&hex) {
        Some(flags) => Some((flags & 4) != 0),
        None => None,
    }
}

/// Whether a hwmon file name is a fan speed input (`fan*_input`).
pub fn is_fan_input_name(name: &str) -> (r: bool)
    ensures
        r == (starts_with(name@, "fan"@) && ends_with(name@, "_input"@)),
{
    let n = chars_of(name);
    starts_with_chars(&n, &chars_of("fan")) && ends_with_chars(&n, &chars_of("_input"))
}

/// The speed that a fan input file holds, in RPM.
pub fn parse_fan_rpm(content: &str) -> (r: Option<u32>)
    ensures
        r == parse_u32_spec(trim(content@)),
{
    parse_u32(&trim_chars(&chars_of(content)))
}

/// The fan speeds in ascending order.
pub fn sort_fan_speeds(mut rpms: Vec<u32>) -> (r: Vec<u32>)
    ensures
        r@.to_multiset() == rpms@.to_multiset(),
        forall|i: int, j: int| 0 <= i <= j < r@.len() ==> r@[i] <= r@[j],
{
    sort_u32s(&mut rpms);
    rpms
}

/// The largest fan speed, if there is any fan.
pub fn max_fan_speed(rpms: &Vec<u32>) -> (r: Option<u32>)
    ensures
        r is None <==> rpms@.len() == 0,
        r matches Some(m) ==> rpms@.contains(m) && forall|i: int| 0 <= i < rpms@.len() ==> rpms@[i]
            <= m,
{
    if rpms.len() == 0 {
        return None;
    }
    let mut m = rpms[0];
    let mut k: usize = 0;
    let mut i: usize = 1;
    while i < rpms.len()
        invariant
            1 <= i <= rpms@.len(),
            k < rpms@.len(),
            rpms@[k as int] == m,
            forall|j: int| 0 <= j < i ==> rpms@[j] <= m,
        decreases rpms@.len() - i,
    {
        if rpms[i] > m {
            m = rpms[i];
            k = i;
        }
        i = i + 1;
    }
    assert(rpms@[k as int] == m);
    Some(m)
}

/// One CPU-usage reading: the new previous totals, and the idle and total
/// time that passed since the previous reading if usage is computed from them
/// (`None` means a usage of 0: no reading now, none before, or no time passed).
pub open spec fn cpu_usage_spec(prev: Option<(u64, u64)>, current: Option<(u64, u64)>) -> (
    Option<(u64, u64)>,
    Option<(u64, u64)>,
) {
    match current {
        None => (prev, None),
        Some((idle, total)) => (
            current,
            match prev {
                None => None,
                Some((prev_idle, prev_total)) => {
                    let idle_delta = if idle >= prev_idle {
                        (idle - prev_idle) as u64
                    } else {
                        0
                    };
                    let total_delta = if total >= prev_total {
                        (total - prev_total) as u64
                    } else {
                        0
                    };
                    if total_delta == 0 {
                        None
                    } else {
                        Some((idle_delta, total_delta))
                    }
                },
            },
        ),
    }
}

/// Updates the CPU bookkeeping with a new `/proc/stat` reading.
pub fn cpu_usage_step(prev: Option<(u64, u64)>, current: Option<(u64, u64)>) -> (r: (
    Option<(u64, u64)>,
    Option<(u64, u64)>,
))
    ensures
        r == cpu_usage_spec(prev, current),
{
    match current {
        None => (prev, None),
        Some((idle, total)) => {
            let deltas = match prev {
                None => None,
                Some((prev_idle, prev_total)) => {
                    let idle_delta = idle.saturating_sub(prev_idle);
                    let total_delta = total.saturating_sub(prev_total);
                    if total_delta == 0 {
                        None
                    } else {
                        Some((idle_delta, total_delta))
                    }
                },
            };
            (current, deltas)
        },
    }
}

/// Used and total memory in kB from `/proc/meminfo`: total minus available
/// (saturating) and total; `None` if either is missing or total is 0.
pub open spec fn ram_usage_spec(meminfo: Seq<char>) -> Option<(u64, u64)> {
    match (meminfo_kb(meminfo, "MemTotal:"@), meminfo_kb(meminfo, "MemAvailable:"@)) {
        (Some(total), Some(available)) => if total == 0 {
            None
        } else {
            Some(
                (
                    if total >= available {
                        (total - available) as u64
                    } else {
                        0
                    },
                    total,
                ),
            )
        },
        _ => None,
    }
}

/// Used and total memory in kB, from which the usage percentage is computed.
pub fn ram_usage_kb(meminfo: &str) -> (r: Option<(u64, u64)>)
    ensures
        r == ram_usage_spec(meminfo@),
{
    let total = match parse_meminfo_kb(meminfo, "MemTotal:") {
        Some(t) => t,
        None => return None,
    };
    let available = match parse_meminfo_kb(meminfo, "MemAvailable:") {
        Some(a) => a,
        None => return None,
    };
    if total == 0 {
        return None;
    }
    Some((total.saturating_sub(available), total))
}

} // verus!
