use dis86::policy::policy_for_file;
use dis86::report::{add_to_aggregate, effective_stride, run_options, summary_lines};
use dis86::runner::{FileSummary, Sample, DEFAULT_FLAGS_UMASK};

#[test]
fn stride_from_sample_count_or_stride() {
  assert_eq!(effective_stride(100, Some(10), None), 10);
  assert_eq!(effective_stride(101, Some(10), None), 11);
  assert_eq!(effective_stride(5, Some(10), None), 1);
  assert_eq!(effective_stride(0, Some(10), None), 1);
  assert_eq!(effective_stride(100, Some(0), Some(7)), 7);
  assert_eq!(effective_stride(100, None, Some(3)), 3);
  assert_eq!(effective_stride(100, None, None), 1);
}

#[test]
fn run_options_pick_the_mask() {
  let mul = policy_for_file("F7.4");
  let o = run_options(None, mul, true);
  assert_eq!(o.flags_umask, 0x0801);
  assert!(o.count_sensitive_flags);
  assert!(o.check_extra_writes);
  let o = run_options(Some(0x00FF), mul, false);
  assert_eq!(o.flags_umask, 0x00FF);
  assert!(!o.count_sensitive_flags);
  let o = run_options(None, policy_for_file("04"), false);
  assert_eq!(o.flags_umask, DEFAULT_FLAGS_UMASK);
  let o = run_options(None, None, false);
  assert_eq!(o.flags_umask, DEFAULT_FLAGS_UMASK);
}

fn sample(idx: usize) -> Sample {
  Sample { idx, name: format!("t{}", idx), hash: "##NOHASH##".to_string(), detail: format!("d{}", idx) }
}

#[test]
fn summary_lines_show_counts_and_three_samples() {
  let mut s = FileSummary::default();
  s.visited = 4;
  s.executed = 3;
  s.pass = 1;
  s.fail = 2;
  s.filtered = 1;
  s.samples = vec![sample(0), sample(2), sample(5), sample(9)];
  let lines = summary_lines(&s, 10, 2, 0x0FD7);
  assert_eq!(lines[0], "total=10 visited=4 (stride 2) executed=3 flags_umask=0x0FD7");
  assert_eq!(
    lines[1],
    "  PASS=1 FAIL=2 DECODE_ERR=0 PANIC=0 SKIP_EXCEPTION=0 SKIP_32BIT=0 FILTERED=1 REVOKED=0"
  );
  assert_eq!(lines.len(), 2 + 2 * 3);
  assert_eq!(lines[2], "  sample[0]: idx=0 name=t0 hash=##NOHASH##");
  assert_eq!(lines[3], "    d0");
  assert_eq!(lines[6], "  sample[2]: idx=5 name=t5 hash=##NOHASH##");
}

#[test]
fn aggregate_adds_counts_and_prefixes_sample_names() {
  let mut acc = FileSummary::default();
  let mut s = FileSummary::default();
  s.visited = 2;
  s.pass = 2;
  s.samples = vec![sample(1), sample(3), sample(4), sample(8)];
  add_to_aggregate(&mut acc, &s, 5, "a.MOO");
  add_to_aggregate(&mut acc, &s, 5, "b.MOO");
  assert_eq!(acc.visited, 4);
  assert_eq!(acc.pass, 4);
  assert_eq!(acc.total, 10);
  assert_eq!(acc.samples.len(), 6);
  assert_eq!(acc.samples[0].name, "a.MOO: t1");
  assert_eq!(acc.samples[3].name, "b.MOO: t1");
  assert_eq!(acc.samples[5].idx, 4);
}
