use vstd::prelude::*;
use vstd::string::StringExecFns;
use vstd::string::StringSliceAdditionalSpecFns;
use crate::moo::{moo_parse, parse_moo, tests_view};
use crate::policy::{find_policy, form_table, policy_for_file, strip_moo, FormPolicy};
use crate::runner::{run_file, skip_view, summary_matches, tally_upto, FileSummary, RunOpts, Sample, SstTest, DEFAULT_FLAGS_UMASK};
use crate::text::{dec, hex_pad, push_dec, push_hex, push_str};

verus! {

/// The stride of a file's run: with `--sample n` (n > 0) the stride that
/// walks about `n` of the `total` tests, `ceil(total / n)` and at least
/// one; otherwise `--stride k`; otherwise every test.
pub open spec fn stride_for(total: nat, sample: Option<usize>, stride: Option<usize>) -> nat {
    match sample {
        Some(n) if n > 0 => {
            let c = (total + n - 1) / (n as int);
            if c < 1 {
                1
            } else {
                c as nat
            }
        },
        _ => match stride {
            Some(k) => k as nat,
            None => 1,
        },
    }
}

/// The stride of a file's run (see `stride_for`).
pub fn effective_stride(total: usize, sample: Option<usize>, stride: Option<usize>) -> (r: usize)
    ensures
        r == stride_for(total as nat, sample, stride),
{
    match sample {
        Some(n) => {
            if n > 0 {
                let q = total / n;
                proof {
                    if total % n != 0 {
                        assert(n >= 2);
                        assert(q * n <= total) by (nonlinear_arith)
                            requires
                                n > 0,
                                q == total / n,
                        ;
                        assert(q < usize::MAX) by (nonlinear_arith)
                            requires
                                n >= 2,
                                q * n <= total,
                                total <= usize::MAX,
                        ;
                    }
                }
                let c = if total % n == 0 {
                    q
                } else {
                    q + 1
                };
                proof {
                    assert(c == (total + n - 1) / (n as int)) by (nonlinear_arith)
                        requires
                            n > 0,
                            q == total / n,
                            total % n == 0 ==> c == q,
                            total % n != 0 ==> c == q + 1,
                    ;
                }
                return if c < 1 {
                    1
                } else {
                    c
                };
            }
        },
        None => {},
    }
    match stride {
        Some(k) => k,
        None => 1,
    }
}

/// The FLAGS mask of a file's run: the command line's, else the form's,
/// else the default.
pub open spec fn umask_for(cli: Option<u16>, policy: Option<FormPolicy>) -> u16 {
    match cli {
        Some(m) => m,
        None => match policy {
            Some(p) => match p.flags_umask {
                Some(m) => m,
                None => DEFAULT_FLAGS_UMASK,
            },
            None => DEFAULT_FLAGS_UMASK,
        },
    }
}

/// The options of a file's run: its mask (see `umask_for`), refined by the
/// shift count unless the command line gave the mask exactly, and write
/// checking as asked.
pub fn run_options(cli_umask: Option<u16>, policy: Option<FormPolicy>, check_writes: bool) -> (r: RunOpts)
    ensures
        r.flags_umask == umask_for(cli_umask, policy),
        r.count_sensitive_flags == (cli_umask is None),
        r.check_extra_writes == check_writes,
{
    let flags_umask = match cli_umask {
        Some(m) => m,
        None => match policy {
            Some(p) => match p.flags_umask {
                Some(m) => m,
                None => DEFAULT_FLAGS_UMASK,
            },
            None => DEFAULT_FLAGS_UMASK,
        },
    };
    RunOpts { flags_umask, check_extra_writes: check_writes, count_sensitive_flags: cli_umask.is_none() }
}

/// The first line of a file's summary.
pub open spec fn totals_line(s: FileSummary, total: nat, stride: nat, umask: u16) -> Seq<char> {
    "total="@ + dec(total) + " visited="@ + dec(s.visited as nat) + " (stride "@ + dec(stride) + ") executed="@
        + dec(s.executed as nat) + " flags_umask=0x"@ + hex_pad(umask as nat, 4, true)
}

/// The second line of a file's summary: the buckets.
pub open spec fn buckets_line(s: FileSummary) -> Seq<char> {
    "  PASS="@ + dec(s.pass as nat) + " FAIL="@ + dec(s.fail as nat) + " DECODE_ERR="@ + dec(s.decode_err as nat)
        + " PANIC="@ + dec(s.panic as nat) + " SKIP_EXCEPTION="@ + dec(s.skip_exception as nat) + " SKIP_32BIT="@
        + dec(s.skip_32bit as nat) + " FILTERED="@ + dec(s.filtered as nat) + " REVOKED="@ + dec(s.revoked as nat)
}

/// The two lines of sample `i`.
pub open spec fn sample_lines(i: nat, smp: Sample) -> Seq<Seq<char>> {
    seq![
        "  sample["@ + dec(i) + "]: idx="@ + dec(smp.idx as nat) + " name="@ + smp.name@ + " hash="@ + smp.hash@,
        "    "@ + smp.detail@,
    ]
}

/// The lines of the first `n` samples.
pub open spec fn samples_lines(samples: Seq<Sample>, n: nat) -> Seq<Seq<char>>
    decreases n,
{
    if n == 0 {
        Seq::empty()
    } else {
        samples_lines(samples, (n - 1) as nat) + sample_lines((n - 1) as nat, samples[n - 1])
    }
}

/// The samples a summary shows.
pub const SHOWN_SAMPLES: usize = 3;

/// The lines that report a file's summary: the totals, the buckets, and
/// the first three samples with their descriptions.
pub open spec fn summary_text(s: FileSummary, total: nat, stride: nat, umask: u16) -> Seq<Seq<char>> {
    seq![totals_line(s, total, stride, umask), buckets_line(s)] + samples_lines(
        s.samples@,
        if s.samples@.len() < SHOWN_SAMPLES {
            s.samples@.len()
        } else {
            SHOWN_SAMPLES as nat
        },
    )
}

/// Lines as values.
pub open spec fn lines_view(v: Seq<String>) -> Seq<Seq<char>> {
    v.map_values(|l: String| l@)
}

/// The lines that report a file's summary (see `summary_text`).
pub fn summary_lines(s: &FileSummary, total: usize, stride: usize, flags_umask: u16) -> (r: Vec<String>)
    ensures
        lines_view(r@) == summary_text(*s, total as nat, stride as nat, flags_umask),
{
    let mut first = String::from_str("total=");
    push_dec(&mut first, total as u64);
    push_str(&mut first, " visited=");
    push_dec(&mut first, s.visited as u64);
    push_str(&mut first, " (stride ");
    push_dec(&mut first, stride as u64);
    push_str(&mut first, ") executed=");
    push_dec(&mut first, s.executed as u64);
    push_str(&mut first, " flags_umask=0x");
    push_hex(&mut first, flags_umask as u32, 4, true);
    let mut second = String::from_str("  PASS=");
    push_dec(&mut second, s.pass as u64);
    push_str(&mut second, " FAIL=");
    push_dec(&mut second, s.fail as u64);
    push_str(&mut second, " DECODE_ERR=");
    push_dec(&mut second, s.decode_err as u64);
    push_str(&mut second, " PANIC=");
    push_dec(&mut second, s.panic as u64);
    push_str(&mut second, " SKIP_EXCEPTION=");
    push_dec(&mut second, s.skip_exception as u64);
    push_str(&mut second, " SKIP_32BIT=");
    push_dec(&mut second, s.skip_32bit as u64);
    push_str(&mut second, " FILTERED=");
    push_dec(&mut second, s.filtered as u64);
    push_str(&mut second, " REVOKED=");
    push_dec(&mut second, s.revoked as u64);
    let mut lines: Vec<String> = Vec::new();
    lines.push(first);
    lines.push(second);
    let n: usize = if s.samples.len() < SHOWN_SAMPLES {
        s.samples.len()
    } else {
        SHOWN_SAMPLES
    };
    let mut i: usize = 0;
    while i < n
        invariant
            i <= n,
            n <= s.samples@.len(),
            lines_view(lines@) == seq![
                totals_line(*s, total as nat, stride as nat, flags_umask),
                buckets_line(*s),
            ] + samples_lines(s.samples@, i as nat),
        decreases n - i,
    {
        let smp = &s.samples[i];
        let mut a = String::from_str("  sample[");
        push_dec(&mut a, i as u64);
        push_str(&mut a, "]: idx=");
        push_dec(&mut a, smp.idx as u64);
        push_str(&mut a, " name=");
        push_str(&mut a, smp.name.as_str());
        push_str(&mut a, " hash=");
        push_str(&mut a, smp.hash.as_str());
        let mut b = String::from_str("    ");
        push_str(&mut b, smp.detail.as_str());
        let ghost before = lines@;
        lines.push(a);
        lines.push(b);
        proof {
            assert(lines_view(lines@) =~= lines_view(before) + sample_lines(i as nat, s.samples@[i as int]));
        }
        i = i + 1;
    }
    lines
}

/// The counts of a summary added into an aggregate, when they fit.
pub open spec fn counts_fit(acc: FileSummary, s: FileSummary, total: nat) -> bool {
    &&& acc.visited + s.visited <= usize::MAX
    &&& acc.executed + s.executed <= usize::MAX
    &&& acc.pass + s.pass <= usize::MAX
    &&& acc.fail + s.fail <= usize::MAX
    &&& acc.decode_err + s.decode_err <= usize::MAX
    &&& acc.panic + s.panic <= usize::MAX
    &&& acc.skip_exception + s.skip_exception <= usize::MAX
    &&& acc.skip_32bit + s.skip_32bit <= usize::MAX
    &&& acc.filtered + s.filtered <= usize::MAX
    &&& acc.revoked + s.revoked <= usize::MAX
    &&& acc.total + total <= usize::MAX
}

/// Adds a file's summary into the aggregate of a run over several files:
/// every count, the file's test total, and the file's first three samples
/// with their names prefixed by the file's path.
pub fn add_to_aggregate(acc: &mut FileSummary, s: &FileSummary, total: usize, path: &str)
    requires
        counts_fit(*old(acc), *s, total as nat),
    ensures
        final(acc).visited == old(acc).visited + s.visited,
        final(acc).executed == old(acc).executed + s.executed,
        final(acc).pass == old(acc).pass + s.pass,
        final(acc).fail == old(acc).fail + s.fail,
        final(acc).decode_err == old(acc).decode_err + s.decode_err,
        final(acc).panic == old(acc).panic + s.panic,
        final(acc).skip_exception == old(acc).skip_exception + s.skip_exception,
        final(acc).skip_32bit == old(acc).skip_32bit + s.skip_32bit,
        final(acc).filtered == old(acc).filtered + s.filtered,
        final(acc).revoked == old(acc).revoked + s.revoked,
        final(acc).total == old(acc).total + total,
        final(acc).filename == old(acc).filename,
        final(acc).samples@.len() == old(acc).samples@.len() + if s.samples@.len() < SHOWN_SAMPLES {
            s.samples@.len()
        } else {
            SHOWN_SAMPLES as nat
        },
        forall|k: int| 0 <= k < old(acc).samples@.len() ==> final(acc).samples@[k] == old(acc).samples@[k],
        forall|k: int|
            0 <= k < final(acc).samples@.len() - old(acc).samples@.len() ==> {
                let smp = #[trigger] final(acc).samples@[old(acc).samples@.len() + k];
                &&& smp.idx == s.samples@[k].idx
                &&& smp.name@ == path@ + ": "@ + s.samples@[k].name@
                &&& smp.hash == s.samples@[k].hash
                &&& smp.detail == s.samples@[k].detail
            },
{
    acc.visited = acc.visited + s.visited;
    acc.executed = acc.executed + s.executed;
    acc.pass = acc.pass + s.pass;
    acc.fail = acc.fail + s.fail;
    acc.decode_err = acc.decode_err + s.decode_err;
    acc.panic = acc.panic + s.panic;
    acc.skip_exception = acc.skip_exception + s.skip_exception;
    acc.skip_32bit = acc.skip_32bit + s.skip_32bit;
    acc.filtered = acc.filtered + s.filtered;
    acc.revoked = acc.revoked + s.revoked;
    acc.total = acc.total + total;
    let n: usize = if s.samples.len() < SHOWN_SAMPLES {
        s.samples.len()
    } else {
        SHOWN_SAMPLES
    };
    let ghost base = acc.samples@;
    let ghost a1 = *acc;
    let mut i: usize = 0;
    while i < n
        invariant
            i <= n,
            acc.visited == a1.visited && acc.executed == a1.executed && acc.pass == a1.pass,
            acc.fail == a1.fail && acc.decode_err == a1.decode_err && acc.panic == a1.panic,
            acc.skip_exception == a1.skip_exception && acc.skip_32bit == a1.skip_32bit,
            acc.filtered == a1.filtered && acc.revoked == a1.revoked && acc.total == a1.total,
            acc.filename == a1.filename,
            n <= s.samples@.len(),
            acc.samples@.len() == base.len() + i,
            forall|k: int| 0 <= k < base.len() ==> acc.samples@[k] == base[k],
            forall|k: int|
                0 <= k < i ==> {
                    let smp = #[trigger] acc.samples@[base.len() + k];
                    &&& smp.idx == s.samples@[k].idx
                    &&& smp.name@ == path@ + ": "@ + s.samples@[k].name@
                    &&& smp.hash == s.samples@[k].hash
                    &&& smp.detail == s.samples@[k].detail
                },
        decreases n - i,
    {
        let smp = &s.samples[i];
        let mut name = String::from_str(path);
        push_str(&mut name, ": ");
        push_str(&mut name, smp.name.as_str());
        let hash = smp.hash.clone();
        let detail = smp.detail.clone();
        acc.samples.push(Sample { idx: smp.idx, name, hash, detail });
        i = i + 1;
    }
}

/// A file's run: its test count, the stride and FLAGS mask it ran with,
/// and its summary.
#[derive(Debug)]
pub struct FileReport {
    pub total: usize,
    pub stride: usize,
    pub flags_umask: u16,
    pub summary: FileSummary,
}

/// The policy of a file name, if there is one (see `policy_for_file`).
pub open spec fn policy_of(file_name: Option<&str>) -> Option<FormPolicy> {
    match file_name {
        Some(n) => find_policy(form_table(), strip_moo(n.spec_bytes()), form_table().len()),
        None => None,
    }
}

/// The options a file runs with (see `run_options`).
pub open spec fn file_opts(cli_umask: Option<u16>, file_name: Option<&str>, check_writes: bool) -> RunOpts {
    RunOpts {
        flags_umask: umask_for(cli_umask, policy_of(file_name)),
        check_extra_writes: check_writes,
        count_sensitive_flags: cli_umask is None,
    }
}

/// Runs the tests of one MOO file, `data`, read from `path` and named
/// `file_name` (the key of its form's policy): the file is parsed (see
/// `moo_parse`), a parse error refused with the path; then every
/// `stride`-th test is run (see `stride_for`) with the form's mask unless
/// the command line gave one, tests on the revocation list counted as
/// revoked and, unless `all`, prefixed tests as filtered (see `run_file`).
pub fn run_moo_file(
    path: &str,
    file_name: Option<&str>,
    data: &[u8],
    sample: Option<usize>,
    stride: Option<usize>,
    all: bool,
    check_writes: bool,
    cli_umask: Option<u16>,
    skip_hashes: &[String],
) -> (r: Result<FileReport, String>)
    ensures
        moo_parse(data@) matches Err(e) ==> (r matches Err(m) && m@ == "failed to parse "@ + path@ + ": "@ + e),
        moo_parse(data@) is Ok ==> (r matches Ok(rep) && exists|tests: Seq<SstTest>|
            #[trigger] tests_view(tests) == moo_parse(data@)->Ok_0 && rep.total == tests.len() && rep.stride
                == stride_for(tests.len(), sample, stride) && rep.flags_umask == umask_for(
                cli_umask,
                policy_of(file_name),
            ) && rep.summary.total == tests.len() && summary_matches(
                rep.summary,
                tally_upto(
                    tests,
                    tests.len(),
                    file_opts(cli_umask, file_name, check_writes),
                    if rep.stride > 1 { rep.stride as nat } else { 1 },
                    !all,
                    skip_view(Some(skip_hashes)),
                ),
                tests,
                file_opts(cli_umask, file_name, check_writes),
            )),
{
    let tests = match parse_moo(data) {
        Ok(t) => t,
        Err(e) => {
            let mut m = String::from_str("failed to parse ");
            push_str(&mut m, path);
            push_str(&mut m, ": ");
            push_str(&mut m, e.as_str());
            return Err(m);
        },
    };
    let total: usize = tests.len();
    let stride_eff: usize = effective_stride(total, sample, stride);
    let policy = match file_name {
        Some(n) => policy_for_file(n),
        None => None,
    };
    let opts = run_options(cli_umask, policy, check_writes);
    let summary = run_file(tests.as_slice(), &opts, stride_eff, !all, Some(skip_hashes), |_completed: usize, _visited: usize| {});
    let rep = FileReport { total, stride: stride_eff, flags_umask: opts.flags_umask, summary };
    assert(tests_view(tests@) == moo_parse(data@)->Ok_0);
    Ok(rep)
}

} // verus!
