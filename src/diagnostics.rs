//! Parsers for the host facts that the diagnostics endpoint reports: the
//! output of `lscpu` and the contents of `/proc/meminfo`.

use vstd::prelude::*;
use crate::text::{occurs_at, split_once, split_once_spec, starts_with};

verus! {

/// ASCII whitespace, as `str::trim_ascii` removes it.
pub open spec fn is_ws(c: char) -> bool {
    c == ' ' || c == '\t' || c == '\n' || c == '\r' || c == '\x0C'
}

/// `s` without leading ASCII whitespace.
pub open spec fn trim_start_spec(s: Seq<char>) -> Seq<char>
    decreases s.len(),
{
    if s.len() > 0 && is_ws(s[0]) {
        trim_start_spec(s.drop_first())
    } else {
        s
    }
}

/// `s` without trailing ASCII whitespace.
pub open spec fn trim_end_spec(s: Seq<char>) -> Seq<char>
    decreases s.len(),
{
    if s.len() > 0 && is_ws(s.last()) {
        trim_end_spec(s.drop_last())
    } else {
        s
    }
}

/// `s` without leading or trailing ASCII whitespace.
pub open spec fn trim_spec(s: Seq<char>) -> Seq<char> {
    trim_end_spec(trim_start_spec(s))
}

proof fn lemma_trim_start_from(s: Seq<char>, i: int)
    requires
        0 <= i <= s.len(),
        forall|k: int| 0 <= k < i ==> is_ws(s[k]),
    ensures
        trim_start_spec(s) == trim_start_spec(s.subrange(i, s.len() as int)),
    decreases i,
{
    if i > 0 {
        assert(s.drop_first().subrange(i - 1, s.drop_first().len() as int) =~= s.subrange(
            i,
            s.len() as int,
        ));
        lemma_trim_start_from(s.drop_first(), i - 1);
    } else {
        assert(s.subrange(0, s.len() as int) =~= s);
    }
}

proof fn lemma_trim_end_to(s: Seq<char>, j: int)
    requires
        0 <= j <= s.len(),
        forall|k: int| j <= k < s.len() ==> is_ws(s[k]),
    ensures
        trim_end_spec(s) == trim_end_spec(s.subrange(0, j)),
    decreases s.len() - j,
{
    if j < s.len() {
        assert(s.drop_last().subrange(0, j) =~= s.subrange(0, j));
        lemma_trim_end_to(s.drop_last(), j);
    } else {
        assert(s.subrange(0, j) =~= s);
    }
}

fn is_ws_char(c: char) -> (r: bool)
    ensures
        r == is_ws(c),
{
    c == ' ' || c == '\t' || c == '\n' || c == '\r' || c == '\x0C'
}

/// Removes leading and trailing ASCII whitespace.
pub fn trim<'a>(s: &'a str) -> (r: &'a str)
    ensures
        r@ == trim_spec(s@),
{
    let n = s.unicode_len();
    let mut i: usize = 0;
    while i < n && is_ws_char(s.get_char(i))
        invariant
            n == s@.len(),
            i <= n,
            forall|k: int| 0 <= k < i ==> is_ws(s@[k]),
        decreases n - i,
    {
        i = i + 1;
    }
    proof {
        lemma_trim_start_from(s@, i as int);
    }
    let ghost t = s@.subrange(i as int, n as int);
    assert(i == n || !is_ws(t[0]));
    assert(trim_start_spec(t) == t);
    let mut j: usize = n;
    while j > i && is_ws_char(s.get_char(j - 1))
        invariant
            n == s@.len(),
            i <= j <= n,
            t == s@.subrange(i as int, n as int),
            forall|k: int| j - i <= k < t.len() ==> is_ws(t[k]),
        decreases j,
    {
        j = j - 1;
    }
    proof {
        lemma_trim_end_to(t, j - i);
        let u = t.subrange(0, j - i);
        assert(u =~= s@.subrange(i as int, j as int));
        assert(u.len() == 0 || !is_ws(u.last()));
    }
    s.substring_char(i, j)
}

/// Whether `c` is an ASCII digit.
pub open spec fn is_digit(c: char) -> bool {
    '0' <= c <= '9'
}

/// The value of a string of decimal digits.
pub open spec fn dec_value(s: Seq<char>) -> nat
    decreases s.len(),
{
    if s.len() == 0 {
        0
    } else {
        dec_value(s.drop_last()) * 10 + (s.last() as nat - '0' as nat) as nat
    }
}

/// A count written in decimal: one or more digits whose value fits in a
/// `usize`.
pub open spec fn count_spec(s: Seq<char>) -> Option<usize> {
    if s.len() > 0 && (forall|i: int| 0 <= i < s.len() ==> is_digit(#[trigger] s[i]))
        && dec_value(s) <= usize::MAX {
        Some(dec_value(s) as usize)
    } else {
        None
    }
}

proof fn lemma_dec_grows(s: Seq<char>, i: int)
    requires
        0 <= i <= s.len(),
        forall|k: int| 0 <= k < s.len() ==> is_digit(#[trigger] s[k]),
    ensures
        dec_value(s.subrange(0, i)) <= dec_value(s),
    decreases s.len() - i,
{
    if i < s.len() {
        lemma_dec_grows(s, i + 1);
        let p = s.subrange(0, i + 1);
        assert(p.drop_last() =~= s.subrange(0, i));
    } else {
        assert(s.subrange(0, i) =~= s);
    }
}

/// Reads a decimal count.
pub fn parse_count(s: &str) -> (r: Option<usize>)
    ensures
        r == count_spec(s@),
{
    let n = s.unicode_len();
    if n == 0 {
        return None;
    }
    let mut acc: usize = 0;
    let mut i: usize = 0;
    while i < n
        invariant
            n == s@.len(),
            i <= n,
            forall|k: int| 0 <= k < i ==> is_digit(#[trigger] s@[k]),
            acc == dec_value(s@.subrange(0, i as int)),
        decreases n - i,
    {
        let c = s.get_char(i);
        if !('0' <= c && c <= '9') {
            return None;
        }
        let d = (c as u32 - '0' as u32) as usize;
        let ghost p = s@.subrange(0, i + 1);
        assert(p.drop_last() =~= s@.subrange(0, i as int));
        if acc > (usize::MAX - d) / 10 {
            proof {
                assert(dec_value(p) > usize::MAX) by (nonlinear_arith)
                    requires
                        dec_value(p) == acc * 10 + d,
                        acc > (usize::MAX - d) / 10,
                        d <= 9,
                ;
            }
            if digits_only(s, i + 1, n) {
                proof {
                    lemma_dec_grows(s@, i + 1);
                }
            }
            return None;
        }
        acc = acc * 10 + d;
        i = i + 1;
    }
    assert(s@.subrange(0, n as int) =~= s@);
    Some(acc)
}

fn digits_only(s: &str, from: usize, n: usize) -> (r: bool)
    requires
        n == s@.len(),
        from <= n,
        forall|k: int| 0 <= k < from ==> is_digit(#[trigger] s@[k]),
    ensures
        r == (forall|k: int| 0 <= k < n ==> is_digit(#[trigger] s@[k])),
{
    let mut k = from;
    while k < n
        invariant
            n == s@.len(),
            from <= k <= n,
            forall|t: int| 0 <= t < k ==> is_digit(#[trigger] s@[t]),
        decreases n - k,
    {
        let c = s.get_char(k);
        if !('0' <= c && c <= '9') {
            return false;
        }
        k = k + 1;
    }
    true
}

/// The lines of `s[start..]`, where `s[start..i]` holds no line break.
pub open spec fn lines_from(s: Seq<char>, start: int, i: int) -> Seq<Seq<char>>
    decreases s.len() - i,
{
    if i >= s.len() {
        seq![s.subrange(start, s.len() as int)]
    } else if s[i] == '\n' {
        seq![s.subrange(start, i)] + lines_from(s, i + 1, i + 1)
    } else {
        lines_from(s, start, i + 1)
    }
}

/// The lines of `s`, as `str::split('\n')` gives them.
pub open spec fn lines_spec(s: Seq<char>) -> Seq<Seq<char>> {
    lines_from(s, 0, 0)
}

/// Splits text into its lines.
pub fn split_lines(s: &str) -> (r: Vec<String>)
    ensures
        r@.map_values(|l: String| l@) == lines_spec(s@),
{
    let n = s.unicode_len();
    let mut out: Vec<String> = Vec::new();
    let mut start: usize = 0;
    let mut i: usize = 0;
    while i < n
        invariant
            n == s@.len(),
            start <= i <= n,
            lines_spec(s@) == out@.map_values(|l: String| l@) + lines_from(s@, start as int, i as int),
        decreases n - i,
    {
        if s.get_char(i) == '\n' {
            let ghost before = out@;
            out.push(String::from_str(s.substring_char(start, i)));
            assert(out@.map_values(|l: String| l@) =~= before.map_values(|l: String| l@).push(
                s@.subrange(start as int, i as int),
            ));
            start = i + 1;
        }
        i = i + 1;
    }
    let ghost before = out@;
    out.push(String::from_str(s.substring_char(start, n)));
    assert(out@.map_values(|l: String| l@) =~= before.map_values(|l: String| l@).push(
        s@.subrange(start as int, n as int),
    ));
    out
}

/// The value of a `key: value` line: the text after the first colon,
/// trimmed.
pub open spec fn field_spec(line: Seq<char>) -> Option<Seq<char>> {
    match split_once_spec(line, ":"@) {
        Some((_, v)) => Some(trim_spec(v)),
        None => None,
    }
}

fn field<'a>(line: &'a str) -> (r: Option<&'a str>)
    ensures
        match field_spec(line@) {
            Some(v) => r matches Some(x) && x@ == v,
            None => r is None,
        },
{
    match split_once(line, ":") {
        Some((_, v)) => Some(trim(v)),
        None => None,
    }
}

/// Model of the CPU facts.
pub struct CpuView {
    pub cpu_arc: Option<Seq<char>>,
    pub hardware_threads: Option<usize>,
    pub cpu: Option<Seq<char>>,
    pub l1_cache_d: Option<Seq<char>>,
    pub l1_cache_i: Option<Seq<char>>,
    pub l2_cache: Option<Seq<char>>,
    pub l3_cache: Option<Seq<char>>,
}

/// CPU facts that `lscpu` reports.
pub struct CpuInfo {
    pub cpu_arc: Option<String>,
    pub hardware_threads: Option<usize>,
    pub cpu: Option<String>,
    pub l1_cache_d: Option<String>,
    pub l1_cache_i: Option<String>,
    pub l2_cache: Option<String>,
    pub l3_cache: Option<String>,
}

pub open spec fn opt_view(o: Option<String>) -> Option<Seq<char>> {
    match o {
        Some(s) => Some(s@),
        None => None,
    }
}

impl CpuInfo {
    pub open spec fn view(&self) -> CpuView {
        CpuView {
            cpu_arc: opt_view(self.cpu_arc),
            hardware_threads: self.hardware_threads,
            cpu: opt_view(self.cpu),
            l1_cache_d: opt_view(self.l1_cache_d),
            l1_cache_i: opt_view(self.l1_cache_i),
            l2_cache: opt_view(self.l2_cache),
            l3_cache: opt_view(self.l3_cache),
        }
    }
}

/// `v` with `slot` replaced by the line's value, when the line has one.
pub open spec fn keep_or(slot: Option<Seq<char>>, value: Option<Seq<char>>) -> Option<Seq<char>> {
    match value {
        Some(v) => Some(v),
        None => slot,
    }
}

/// The facts after reading one `lscpu` line: the trimmed line's key decides
/// which fact its value sets; a thread count that is not a number, or a
/// line without a colon, changes nothing.
pub open spec fn cpu_line_spec(v: CpuView, line: Seq<char>) -> CpuView {
    let t = trim_spec(line);
    let value = field_spec(t);
    if occurs_at(t, "Architecture"@, 0) {
        CpuView { cpu_arc: keep_or(v.cpu_arc, value), ..v }
    } else if occurs_at(t, "CPU(s)"@, 0) {
        match value {
            Some(x) => match count_spec(x) {
                Some(k) => CpuView { hardware_threads: Some(k), ..v },
                None => v,
            },
            None => v,
        }
    } else if occurs_at(t, "Model name"@, 0) {
        CpuView { cpu: keep_or(v.cpu, value), ..v }
    } else if occurs_at(t, "L1d"@, 0) {
        CpuView { l1_cache_d: keep_or(v.l1_cache_d, value), ..v }
    } else if occurs_at(t, "L1i"@, 0) {
        CpuView { l1_cache_i: keep_or(v.l1_cache_i, value), ..v }
    } else if occurs_at(t, "L2"@, 0) {
        CpuView { l2_cache: keep_or(v.l2_cache, value), ..v }
    } else if occurs_at(t, "L3"@, 0) {
        CpuView { l3_cache: keep_or(v.l3_cache, value), ..v }
    } else {
        v
    }
}

/// The facts after reading `lines` in order, starting from `v`.
pub open spec fn cpu_scan(v: CpuView, lines: Seq<Seq<char>>) -> CpuView
    decreases lines.len(),
{
    if lines.len() == 0 {
        v
    } else {
        cpu_line_spec(cpu_scan(v, lines.drop_last()), lines.last())
    }
}

/// No fact known.
pub open spec fn cpu_unknown() -> CpuView {
    CpuView {
        cpu_arc: None,
        hardware_threads: None,
        cpu: None,
        l1_cache_d: None,
        l1_cache_i: None,
        l2_cache: None,
        l3_cache: None,
    }
}

fn set_from(slot: &mut Option<String>, value: Option<&str>)
    ensures
        opt_view(*final(slot)) == keep_or(
            opt_view(*old(slot)),
            match value {
                Some(x) => Some(x@),
                None => None,
            },
        ),
{
    if let Some(x) = value {
        *slot = Some(String::from_str(x));
    }
}

fn cpu_line(info: &mut CpuInfo, line: &str)
    ensures
        final(info).view() == cpu_line_spec(old(info).view(), line@),
{
    let t = trim(line);
    let value = field(t);
    if starts_with(t, "Architecture") {
        set_from(&mut info.cpu_arc, value);
    } else if starts_with(t, "CPU(s)") {
        if let Some(x) = value {
            if let Some(k) = parse_count(x) {
                info.hardware_threads = Some(k);
            }
        }
    } else if starts_with(t, "Model name") {
        set_from(&mut info.cpu, value);
    } else if starts_with(t, "L1d") {
        set_from(&mut info.l1_cache_d, value);
    } else if starts_with(t, "L1i") {
        set_from(&mut info.l1_cache_i, value);
    } else if starts_with(t, "L2") {
        set_from(&mut info.l2_cache, value);
    } else if starts_with(t, "L3") {
        set_from(&mut info.l3_cache, value);
    }
}

/// The CPU facts in `lscpu` output, read line by line; a later line for the
/// same fact wins.
pub fn get_cpu_data(output: &str) -> (r: CpuInfo)
    ensures
        r.view() == cpu_scan(cpu_unknown(), lines_spec(output@)),
{
    let lines = split_lines(output);
    let ghost lv = lines@.map_values(|l: String| l@);
    let mut info = CpuInfo {
        cpu_arc: None,
        hardware_threads: None,
        cpu: None,
        l1_cache_d: None,
        l1_cache_i: None,
        l2_cache: None,
        l3_cache: None,
    };
    let mut i: usize = 0;
    while i < lines.len()
        invariant
            i <= lines@.len(),
            lv == lines@.map_values(|l: String| l@),
            info.view() == cpu_scan(cpu_unknown(), lv.subrange(0, i as int)),
        decreases lines@.len() - i,
    {
        cpu_line(&mut info, lines[i].as_str());
        assert(lv.subrange(0, i + 1).drop_last() =~= lv.subrange(0, i as int));
        i = i + 1;
    }
    assert(lv.subrange(0, lines@.len() as int) =~= lv);
    info
}

/// Memory figures that `/proc/meminfo` reports, in kB.
pub struct MemInfo {
    pub mem_total_kb: Option<usize>,
    pub mem_free_kb: Option<usize>,
}

/// The figure on a meminfo line: the first word after the colon, as a count.
pub open spec fn mem_value_spec(line: Seq<char>) -> Option<usize> {
    match field_spec(line) {
        Some(v) => match split_once_spec(v, " "@) {
            Some((w, _)) => count_spec(w),
            None => None,
        },
        None => None,
    }
}

/// The figures after reading one meminfo line.
pub open spec fn mem_line_spec(m: (Option<usize>, Option<usize>), line: Seq<char>) -> (
    Option<usize>,
    Option<usize>,
) {
    if occurs_at(line, "MemTotal"@, 0) {
        match mem_value_spec(line) {
            Some(k) => (Some(k), m.1),
            None => m,
        }
    } else if occurs_at(line, "MemFree"@, 0) {
        match mem_value_spec(line) {
            Some(k) => (m.0, Some(k)),
            None => m,
        }
    } else {
        m
    }
}

/// The figures after reading `lines` in order.
pub open spec fn mem_scan(lines: Seq<Seq<char>>) -> (Option<usize>, Option<usize>)
    decreases lines.len(),
{
    if lines.len() == 0 {
        (None, None)
    } else {
        mem_line_spec(mem_scan(lines.drop_last()), lines.last())
    }
}

fn mem_value(line: &str) -> (r: Option<usize>)
    ensures
        r == mem_value_spec(line@),
{
    match field(line) {
        Some(v) => match split_once(v, " ") {
            Some((w, _)) => parse_count(w),
            None => None,
        },
        None => None,
    }
}

/// Total and free memory in `/proc/meminfo` text; a later line for the same
/// figure wins.
pub fn get_mem_data(text: &str) -> (r: MemInfo)
    ensures
        (r.mem_total_kb, r.mem_free_kb) == mem_scan(lines_spec(text@)),
{
    let lines = split_lines(text);
    let ghost lv = lines@.map_values(|l: String| l@);
    let mut total: Option<usize> = None;
    let mut free: Option<usize> = None;
    let mut i: usize = 0;
    while i < lines.len()
        invariant
            i <= lines@.len(),
            lv == lines@.map_values(|l: String| l@),
            (total, free) == mem_scan(lv.subrange(0, i as int)),
        decreases lines@.len() - i,
    {
        let line = lines[i].as_str();
        if starts_with(line, "MemTotal") {
            if let Some(k) = mem_value(line) {
                total = Some(k);
            }
        } else if starts_with(line, "MemFree") {
            if let Some(k) = mem_value(line) {
                free = Some(k);
            }
        }
        assert(lv.subrange(0, i + 1).drop_last() =~= lv.subrange(0, i as int));
        i = i + 1;
    }
    assert(lv.subrange(0, lines@.len() as int) =~= lv);
    MemInfo { mem_total_kb: total, mem_free_kb: free }
}

} // verus!
