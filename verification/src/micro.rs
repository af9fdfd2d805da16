use vstd::prelude::*;
use vstd::string::StringExecFns;
use vstd::string::StringSliceAdditionalSpecFns;
use crate::policy::{find_policy, form_table, policy_for_file, strip_moo};
use crate::runner::{
    detail_text, is_prefix_filtered, micro_entry_matches, micro_entry_ok, prefix_filtered, run_test, sample_detail,
    test_outcome, Outcome, RunOpts, SstTest, DEFAULT_FLAGS_UMASK,
};
use crate::text::{dec, from_utf8_lossy, push_dec, push_str, utf8_lossy};

verus! {

// ---------------------------------------------------------------------------
// The micro corpus
//
// A spec file lists, one per line, the entries of the hermetic micro
// corpus: `<out>.MOO <pass|failrepro> <src> <idx>`, the micro file an entry
// goes to, what it is expected to do, the full-suite file it comes from and
// its index there. Blank lines and lines starting with `#` are ignored.
// ---------------------------------------------------------------------------

/// An entry of the micro corpus.
#[derive(Clone, Debug)]
pub struct MicroEntry {
    pub out: String,
    pub kind: String,
    pub src: String,
    pub idx: usize,
}

/// An entry as values.
pub struct MicroEntryV {
    pub out: Seq<char>,
    pub kind: Seq<char>,
    pub src: Seq<char>,
    pub idx: usize,
}

pub open spec fn entry_view(e: MicroEntry) -> MicroEntryV {
    MicroEntryV { out: e.out@, kind: e.kind@, src: e.src@, idx: e.idx }
}

pub open spec fn entries_view(v: Seq<MicroEntry>) -> Seq<MicroEntryV> {
    v.map_values(|e: MicroEntry| entry_view(e))
}

/// A whitespace byte: space, or tab to carriage return.
pub open spec fn ws(c: u8) -> bool {
    c == 0x20 || (0x09 <= c && c <= 0x0d)
}

/// The end of the line starting at `p`: the next newline, or the end.
pub open spec fn line_end(b: Seq<u8>, p: int) -> int
    decreases b.len() - p,
{
    if p >= b.len() || b[p] == 0x0a {
        p
    } else {
        line_end(b, p + 1)
    }
}

/// The whitespace-separated words of `b` from `p` to `e`, as ranges, after
/// those in `acc`; `start` is where the word being read began.
pub open spec fn words_acc(b: Seq<u8>, p: int, e: int, start: Option<int>, acc: Seq<(int, int)>) -> Seq<(int, int)>
    decreases e - p,
{
    if p >= e {
        match start {
            Some(s) => acc.push((s, e)),
            None => acc,
        }
    } else if ws(b[p]) {
        match start {
            Some(s) => words_acc(b, p + 1, e, None, acc.push((s, p))),
            None => words_acc(b, p + 1, e, None, acc),
        }
    } else {
        words_acc(b, p + 1, e, if start is None { Some(p) } else { start }, acc)
    }
}

/// The words of the line from `p` to `e`.
pub open spec fn words(b: Seq<u8>, p: int, e: int) -> Seq<(int, int)> {
    words_acc(b, p, e, None, Seq::empty())
}

/// The decimal value of the digits from `s` to `e`.
pub open spec fn dec_value(b: Seq<u8>, s: int, e: int) -> int
    decreases e - s,
{
    if e <= s {
        0
    } else {
        dec_value(b, s, e - 1) * 10 + (b[e - 1] - 0x30)
    }
}

/// The bytes from `s` to `e` are decimal digits.
pub open spec fn all_digits(b: Seq<u8>, s: int, e: int) -> bool {
    forall|i: int| s <= i < e ==> 0x30 <= #[trigger] b[i] <= 0x39
}

/// The index a word gives, as `usize` reads it: an optional `+`, then at
/// least one digit, the value within `usize`.
pub open spec fn index_of(b: Seq<u8>, s: int, e: int) -> Option<usize> {
    let d = if s < e && b[s] == 0x2b {
        s + 1
    } else {
        s
    };
    if d < e && all_digits(b, d, e) && dec_value(b, d, e) <= usize::MAX {
        Some(dec_value(b, d, e) as usize)
    } else {
        None
    }
}

/// The text of the bytes from `s` to `e`.
pub open spec fn text(b: Seq<u8>, s: int, e: int) -> Seq<char> {
    utf8_lossy(b.subrange(s, e))
}

/// Where the line after the one ending at `e` starts.
pub open spec fn next_line(b: Seq<u8>, e: int) -> int {
    if e < b.len() {
        e + 1
    } else {
        e
    }
}

/// The entries of a spec file from line `ln` (counted from zero), at `p`,
/// on, after those in `acc`, or the first malformed line's message.
pub open spec fn spec_acc(path: Seq<char>, b: Seq<u8>, p: int, ln: nat, acc: Seq<MicroEntryV>) -> Result<
    Seq<MicroEntryV>,
    Seq<char>,
>
    decreases b.len() - p,
{
    if p >= b.len() {
        Ok(acc)
    } else {
        let e = line_end(b, p);
        let w = words(b, p, e);
        if e < p || e > b.len() {
            Ok(acc)
        } else if w.len() == 0 || b[w[0].0] == 0x23 {
            spec_acc(path, b, next_line(b, e), ln + 1, acc)
        } else if w.len() != 4 {
            Err(
                path + ":"@ + dec(ln + 1) + ": expected '<out>.MOO <pass|failrepro> <src> <idx>', got: "@ + text(
                    b,
                    w[0].0,
                    w[w.len() - 1].1,
                ),
            )
        } else if index_of(b, w[3].0, w[3].1) is None {
            Err(path + ":"@ + dec(ln + 1) + ": bad idx '"@ + text(b, w[3].0, w[3].1) + "'"@)
        } else {
            spec_acc(
                path,
                b,
                next_line(b, e),
                ln + 1,
                acc.push(
                    MicroEntryV {
                        out: text(b, w[0].0, w[0].1),
                        kind: text(b, w[1].0, w[1].1),
                        src: text(b, w[2].0, w[2].1),
                        idx: index_of(b, w[3].0, w[3].1)->Some_0,
                    },
                ),
            )
        }
    }
}

/// The entries of the spec file `path`, whose contents are `b`.
pub open spec fn micro_spec(path: Seq<char>, b: Seq<u8>) -> Result<Seq<MicroEntryV>, Seq<char>> {
    spec_acc(path, b, 0, 0, Seq::empty())
}

fn is_ws(c: u8) -> (r: bool)
    ensures
        r == ws(c),
{
    c == 0x20 || (0x09 <= c && c <= 0x0d)
}

fn find_line_end(b: &[u8], p: usize) -> (r: usize)
    requires
        p <= b@.len(),
    ensures
        r == line_end(b@, p as int),
        p <= r <= b@.len(),
{
    let mut i: usize = p;
    while i < b.len() && b[i] != 0x0a
        invariant
            p <= i <= b@.len(),
            line_end(b@, i as int) == line_end(b@, p as int),
        decreases b@.len() - i,
    {
        i = i + 1;
    }
    i
}

/// Ranges as integers.
pub open spec fn ranges_view(v: Seq<(usize, usize)>) -> Seq<(int, int)> {
    v.map_values(|r: (usize, usize)| (r.0 as int, r.1 as int))
}

pub open spec fn start_view(s: Option<usize>) -> Option<int> {
    match s {
        Some(x) => Some(x as int),
        None => None,
    }
}

fn find_words(b: &[u8], p: usize, e: usize) -> (r: Vec<(usize, usize)>)
    requires
        p <= e <= b@.len(),
    ensures
        ranges_view(r@) == words(b@, p as int, e as int),
        forall|k: int| 0 <= k < r@.len() ==> p <= (#[trigger] r@[k]).0 < r@[k].1 <= e,
        forall|k: int, j: int| 0 <= k < j < r@.len() ==> (#[trigger] r@[k]).1 <= (#[trigger] r@[j]).0,
{
    let mut acc: Vec<(usize, usize)> = Vec::new();
    let mut start: Option<usize> = None;
    let mut i: usize = p;
    assert(ranges_view(acc@) =~= Seq::<(int, int)>::empty());
    while i < e
        invariant
            p <= i <= e <= b@.len(),
            words_acc(b@, i as int, e as int, start_view(start), ranges_view(acc@)) == words(b@, p as int, e as int),
            start matches Some(s) ==> p <= s < i,
            forall|k: int| 0 <= k < acc@.len() ==> p <= (#[trigger] acc@[k]).0 < acc@[k].1 <= i,
            forall|k: int, j: int| 0 <= k < j < acc@.len() ==> (#[trigger] acc@[k]).1 <= (#[trigger] acc@[j]).0,
            start matches Some(st) ==> forall|k: int| 0 <= k < acc@.len() ==> (#[trigger] acc@[k]).1 <= st,
        decreases e - i,
    {
        if is_ws(b[i]) {
            match start {
                Some(st) => {
                    let ghost before = acc@;
                    acc.push((st, i));
                    assert(ranges_view(acc@) =~= ranges_view(before).push((st as int, i as int)));
                },
                None => {},
            }
            start = None;
        } else {
            if start.is_none() {
                start = Some(i);
            }
        }
        i = i + 1;
    }
    match start {
        Some(st) => {
            let ghost before = acc@;
            acc.push((st, e));
            assert(ranges_view(acc@) =~= ranges_view(before).push((st as int, e as int)));
        },
        None => {},
    }
    acc
}

proof fn lemma_dec_value_grows(b: Seq<u8>, s: int, i: int, e: int)
    requires
        s <= i <= e,
        all_digits(b, s, e),
    ensures
        dec_value(b, s, i) <= dec_value(b, s, e),
        0 <= dec_value(b, s, i),
    decreases e - i,
{
    if i < e {
        lemma_dec_value_grows(b, s, i + 1, e);
    } else {
        lemma_dec_value_nonneg(b, s, e);
    }
}

proof fn lemma_dec_value_nonneg(b: Seq<u8>, s: int, e: int)
    requires
        all_digits(b, s, e),
    ensures
        0 <= dec_value(b, s, e),
    decreases e - s,
{
    if e > s {
        lemma_dec_value_nonneg(b, s, e - 1);
    }
}

/// The index a word gives (see `index_of`).
fn parse_index(b: &[u8], s: usize, e: usize) -> (r: Option<usize>)
    requires
        s <= e <= b@.len(),
    ensures
        r == index_of(b@, s as int, e as int),
{
    let d: usize = if s < e && b[s] == 0x2b {
        s + 1
    } else {
        s
    };
    if d >= e {
        return None;
    }
    let mut v: usize = 0;
    let mut i: usize = d;
    while i < e
        invariant
            s <= e,
            d == (if s < e && b@[s as int] == 0x2b { s + 1 } else { s as int }),
            d <= i <= e <= b@.len(),
            all_digits(b@, d as int, i as int),
            v == dec_value(b@, d as int, i as int),
        decreases e - i,
    {
        let c = b[i];
        if c < 0x30 || c > 0x39 {
            assert(!all_digits(b@, d as int, e as int));
            return None;
        }
        let digit: usize = (c - 0x30) as usize;
        match v.checked_mul(10) {
            Some(t) => match t.checked_add(digit) {
                Some(n) => {
                    v = n;
                },
                None => {
                    proof {
                        if all_digits(b@, d as int, e as int) {
                            lemma_dec_value_grows(b@, d as int, i + 1, e as int);
                        }
                    }
                    return None;
                },
            },
            None => {
                proof {
                    if all_digits(b@, d as int, e as int) {
                        lemma_dec_value_grows(b@, d as int, i + 1, e as int);
                        lemma_dec_value_nonneg(b@, d as int, i as int);
                    }
                }
                return None;
            },
        }
        i = i + 1;
    }
    Some(v)
}

/// The text of some bytes.
fn text_of(b: &[u8], s: usize, e: usize) -> (r: String)
    requires
        s <= e <= b@.len(),
    ensures
        r@ == text(b@, s as int, e as int),
{
    from_utf8_lossy(vstd::slice::slice_subrange(b, s, e))
}

/// Reads the entries of a spec file (see `micro_spec`).
pub fn parse_micro_spec(path: &str, contents: &[u8]) -> (r: Result<Vec<MicroEntry>, String>)
    ensures
        match r {
            Ok(v) => micro_spec(path@, contents@) == Ok::<Seq<MicroEntryV>, Seq<char>>(entries_view(v@)),
            Err(m) => micro_spec(path@, contents@) == Err::<Seq<MicroEntryV>, Seq<char>>(m@),
        },
{
    let b = contents;
    let mut entries: Vec<MicroEntry> = Vec::new();
    let mut p: usize = 0;
    let mut ln: usize = 0;
    assert(entries_view(entries@) =~= Seq::<MicroEntryV>::empty());
    while p < b.len()
        invariant
            b@ == contents@,
            p <= b@.len(),
            ln <= p,
            spec_acc(path@, b@, p as int, ln as nat, entries_view(entries@)) == micro_spec(path@, contents@),
        decreases b@.len() - p,
    {
        let e: usize = find_line_end(b, p);
        let w = find_words(b, p, e);
        if w.len() == 0 || b[w[0].0] == 0x23 {
            p = if e < b.len() {
                e + 1
            } else {
                e
            };
            ln = ln + 1;
            continue;
        }
        if w.len() != 4 {
            let mut m = String::from_str(path);
            push_str(&mut m, ":");
            push_dec(&mut m, ln as u64 + 1);
            push_str(&mut m, ": expected '<out>.MOO <pass|failrepro> <src> <idx>', got: ");
            assert(w@[0].1 <= w@[w@.len() - 1].0 || w@.len() == 1);
            let line = text_of(b, w[0].0, w[w.len() - 1].1);
            push_str(&mut m, line.as_str());
            return Err(m);
        }
        let idx = match parse_index(b, w[3].0, w[3].1) {
            Some(i) => i,
            None => {
                let mut m = String::from_str(path);
                push_str(&mut m, ":");
                push_dec(&mut m, ln as u64 + 1);
                push_str(&mut m, ": bad idx '");
                let t = text_of(b, w[3].0, w[3].1);
                push_str(&mut m, t.as_str());
                push_str(&mut m, "'");
                return Err(m);
            },
        };
        let out = text_of(b, w[0].0, w[0].1);
        let kind = text_of(b, w[1].0, w[1].1);
        let src = text_of(b, w[2].0, w[2].1);
        let ghost before = entries@;
        entries.push(MicroEntry { out, kind, src, idx });
        assert(entries_view(entries@) =~= entries_view(before).push(entry_view(entries@[before.len() as int])));
        p = if e < b.len() {
            e + 1
        } else {
            e
        };
        ln = ln + 1;
    }
    Ok(entries)
}

/// What checking one entry found: the test's name, whether it behaves as
/// its kind declares (see `micro_entry_matches`), for a `pass` entry
/// whether the test is prefix-filtered or expects an exception, and the
/// outcome's detail.
#[derive(Clone, Debug)]
pub struct MicroVerdict {
    pub name: String,
    pub ok: bool,
    pub prefix_filtered: bool,
    pub exception_expected: bool,
    pub detail: String,
}

/// The options an entry from source file `src` runs with: its form's FLAGS
/// mask, else the default.
pub open spec fn micro_opts(src: Seq<u8>) -> RunOpts {
    RunOpts {
        flags_umask: match find_policy(form_table(), strip_moo(src), form_table().len()) {
            Some(p) => match p.flags_umask {
                Some(m) => m,
                None => DEFAULT_FLAGS_UMASK,
            },
            None => DEFAULT_FLAGS_UMASK,
        },
        check_extra_writes: true,
        count_sensitive_flags: true,
    }
}

/// Checks the entry of kind `kind` that takes test `idx` of the tests of
/// source file `src`: the index must lie among them; the test is run with
/// its form's mask and its outcome held against the kind.
pub fn micro_check(kind: &str, src: &str, idx: usize, tests: &[SstTest]) -> (r: Result<MicroVerdict, String>)
    ensures
        idx >= tests@.len() ==> (r matches Err(m) && m@ == src@ + ": idx "@ + dec(idx as nat) + " out of range ("@ + dec(
            tests@.len(),
        ) + " tests)"@),
        idx < tests@.len() ==> (r matches Ok(v) && v.name@ == tests@[idx as int].name@ && v.prefix_filtered == (kind@
            == "pass"@ && prefix_filtered(tests@[idx as int].bytes@)) && v.exception_expected == (kind@ == "pass"@
            && tests@[idx as int].exception is Some) && exists|o: Outcome|
            test_outcome(tests@[idx as int], micro_opts(src.spec_bytes()), o) && v.ok == micro_entry_matches(
                kind@,
                tests@[idx as int],
                o,
            ) && v.detail@ == detail_text(o)),
{
    if idx >= tests.len() {
        let mut m = String::from_str(src);
        push_str(&mut m, ": idx ");
        push_dec(&mut m, idx as u64);
        push_str(&mut m, " out of range (");
        push_dec(&mut m, tests.len() as u64);
        push_str(&mut m, " tests)");
        return Err(m);
    }
    let test = &tests[idx];
    let flags_umask: u16 = match policy_for_file(src) {
        Some(p) => match p.flags_umask {
            Some(m) => m,
            None => DEFAULT_FLAGS_UMASK,
        },
        None => DEFAULT_FLAGS_UMASK,
    };
    let opts = RunOpts { flags_umask, check_extra_writes: true, count_sensitive_flags: true };
    let outcome = run_test(test, &opts);
    let ok = micro_entry_ok(kind, test, &outcome);
    let is_pass = kind.to_string() == String::from_str("pass");
    let prefix = is_pass && is_prefix_filtered(test.bytes.as_slice());
    let exception_expected = is_pass && test.exception.is_some();
    let detail = sample_detail(test, &outcome);
    Ok(MicroVerdict { name: test.name.clone(), ok, prefix_filtered: prefix, exception_expected, detail })
}

} // verus!
