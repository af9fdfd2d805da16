use std::collections::HashSet;

use dis86::policy::{
  audit_header, audit_row, audit_totals, decode_check, form_policies, policy_for_file, v1_form_files, Capability,
  DeferReason, Scope,
};

const UPSTREAM_STEMS: &[&str] = &[
  "00",
  "01",
  "02",
  "03",
  "04",
  "05",
  "06",
  "07",
  "08",
  "09",
  "0A",
  "0B",
  "0C",
  "0D",
  "0E",
  "10",
  "11",
  "12",
  "13",
  "14",
  "15",
  "16",
  "17",
  "18",
  "19",
  "1A",
  "1B",
  "1C",
  "1D",
  "1E",
  "1F",
  "20",
  "21",
  "22",
  "23",
  "24",
  "25",
  "27",
  "28",
  "29",
  "2A",
  "2B",
  "2C",
  "2D",
  "2F",
  "30",
  "31",
  "32",
  "33",
  "34",
  "35",
  "37",
  "38",
  "39",
  "3A",
  "3B",
  "3C",
  "3D",
  "3F",
  "40",
  "41",
  "42",
  "43",
  "44",
  "45",
  "46",
  "47",
  "48",
  "49",
  "4A",
  "4B",
  "4C",
  "4D",
  "4E",
  "4F",
  "50",
  "51",
  "52",
  "53",
  "54",
  "55",
  "56",
  "57",
  "58",
  "59",
  "5A",
  "5B",
  "5C",
  "5D",
  "5E",
  "5F",
  "60",
  "61",
  "62",
  "68",
  "69",
  "6A",
  "6B",
  "6C",
  "6D",
  "6E",
  "6F",
  "70",
  "71",
  "72",
  "73",
  "74",
  "75",
  "76",
  "77",
  "78",
  "79",
  "7A",
  "7B",
  "7C",
  "7D",
  "7E",
  "7F",
  "80.0",
  "80.1",
  "80.2",
  "80.3",
  "80.4",
  "80.5",
  "80.6",
  "80.7",
  "81.0",
  "81.1",
  "81.2",
  "81.3",
  "81.4",
  "81.5",
  "81.6",
  "81.7",
  "82.0",
  "82.1",
  "82.2",
  "82.3",
  "82.4",
  "82.5",
  "82.6",
  "82.7",
  "83.0",
  "83.1",
  "83.2",
  "83.3",
  "83.4",
  "83.5",
  "83.6",
  "83.7",
  "84",
  "85",
  "86",
  "87",
  "88",
  "89",
  "8A",
  "8B",
  "8C",
  "8D",
  "8E",
  "8F",
  "90",
  "91",
  "92",
  "93",
  "94",
  "95",
  "96",
  "97",
  "98",
  "99",
  "9A",
  "9B",
  "9C",
  "9D",
  "9E",
  "9F",
  "A0",
  "A1",
  "A2",
  "A3",
  "A4",
  "A5",
  "A6",
  "A7",
  "A8",
  "A9",
  "AA",
  "AB",
  "AC",
  "AD",
  "AE",
  "AF",
  "B0",
  "B1",
  "B2",
  "B3",
  "B4",
  "B5",
  "B6",
  "B7",
  "B8",
  "B9",
  "BA",
  "BB",
  "BC",
  "BD",
  "BE",
  "BF",
  "C0.0",
  "C0.1",
  "C0.2",
  "C0.3",
  "C0.4",
  "C0.5",
  "C0.6",
  "C0.7",
  "C1.0",
  "C1.1",
  "C1.2",
  "C1.3",
  "C1.4",
  "C1.5",
  "C1.6",
  "C1.7",
  "C2",
  "C3",
  "C4",
  "C5",
  "C6",
  "C7",
  "C8",
  "C9",
  "CA",
  "CB",
  "CC",
  "CD",
  "CE",
  "CF",
  "D0.0",
  "D0.1",
  "D0.2",
  "D0.3",
  "D0.4",
  "D0.5",
  "D0.6",
  "D0.7",
  "D1.0",
  "D1.1",
  "D1.2",
  "D1.3",
  "D1.4",
  "D1.5",
  "D1.6",
  "D1.7",
  "D2.0",
  "D2.1",
  "D2.2",
  "D2.3",
  "D2.4",
  "D2.5",
  "D2.6",
  "D2.7",
  "D3.0",
  "D3.1",
  "D3.2",
  "D3.3",
  "D3.4",
  "D3.5",
  "D3.6",
  "D3.7",
  "D4",
  "D5",
  "D6",
  "D7",
  "D8",
  "E0",
  "E1",
  "E2",
  "E3",
  "E4",
  "E5",
  "E6",
  "E7",
  "E8",
  "E9",
  "EA",
  "EB",
  "EC",
  "ED",
  "EE",
  "EF",
  "F4",
  "F5",
  "F6.0",
  "F6.1",
  "F6.2",
  "F6.3",
  "F6.4",
  "F6.5",
  "F6.6",
  "F6.7",
  "F7.0",
  "F7.1",
  "F7.2",
  "F7.3",
  "F7.4",
  "F7.5",
  "F7.6",
  "F7.7",
  "F8",
  "F9",
  "FA",
  "FB",
  "FC",
  "FD",
  "FE.0",
  "FE.1",
  "FF.0",
  "FF.1",
  "FF.2",
  "FF.3",
  "FF.4",
  "FF.5",
  "FF.6",
  "metadata.json",
];

#[test]
fn table_covers_exact_upstream_listing() {
  let policies = form_policies();
  let table: HashSet<&str> = policies.iter().map(|p| p.file).collect();
  let expected: HashSet<&str> = UPSTREAM_STEMS.iter().copied().collect();
  assert_eq!(table, expected, "form table must match the upstream listing exactly");
  assert_eq!(policies.len(), UPSTREAM_STEMS.len());
}

#[test]
fn no_duplicate_stems() {
  let mut seen = HashSet::new();
  for p in form_policies() {
    assert!(seen.insert(p.file), "duplicate stem: {}", p.file);
  }
}

#[test]
fn every_v1_file_is_implemented() {
  for p in form_policies() {
    if p.scope == Scope::V1 {
      assert_eq!(p.cap, Capability::Implemented, "V1 form {} must be Implemented", p.file);
    }
  }
}

#[test]
fn deferred_not_implemented_has_note() {
  for p in form_policies() {
    if p.scope == Scope::Deferred(DeferReason::NotImplemented) {
      assert!(!p.note.is_empty(), "Deferred(NotImplemented) {} needs a note", p.file);
    }
  }
}

#[test]
fn v1_list_is_implemented_and_unique() {
  let list = v1_form_files();
  let mut seen = HashSet::new();
  for f in &list {
    let p = policy_for_file(f).unwrap();
    assert_eq!(p.scope, Scope::V1);
    assert_eq!(p.cap, Capability::Implemented);
    assert!(seen.insert(*f), "dup in v1 list: {}", f);
  }
  assert_eq!(list.len(), 258, "expected 258 conservative-v1 forms");
}

#[test]
fn policy_for_file_accepts_moo_suffix() {
  assert_eq!(policy_for_file("04").unwrap().file, policy_for_file("04.MOO").unwrap().file);
  assert!(policy_for_file("nope").is_none());
}

#[test]
fn umask_overrides_are_computed_per_intel_docs() {
  assert_eq!(policy_for_file("F7.4").unwrap().flags_umask, Some(0x0801));
  assert_eq!(policy_for_file("F7.5").unwrap().flags_umask, Some(0x0801));
  assert_eq!(policy_for_file("F7.6").unwrap().flags_umask, Some(0x0000));
  assert_eq!(policy_for_file("F7.7").unwrap().flags_umask, Some(0x0000));
  assert_eq!(policy_for_file("27").unwrap().flags_umask, Some(0x07D7));
  assert_eq!(policy_for_file("2F").unwrap().flags_umask, Some(0x07D7));
  assert_eq!(policy_for_file("37").unwrap().flags_umask, Some(0x0011));
  assert_eq!(policy_for_file("3F").unwrap().flags_umask, Some(0x0011));
  assert_eq!(policy_for_file("04").unwrap().flags_umask, None);
  assert_eq!(policy_for_file("F7.0").unwrap().flags_umask, None);
}

#[test]
fn capability_and_scope_names() {
  assert_eq!(Capability::Implemented.name(), "Implemented");
  assert_eq!(Capability::DecodeOnly.name(), "DecodeOnly");
  assert_eq!(Capability::Undecodable.name(), "Undecodable");
  assert_eq!(Scope::V1.name(), "V1");
  assert_eq!(Scope::Deferred(DeferReason::RepString).name(), "DEFERRED(REP/string)");
  assert_eq!(Scope::Deferred(DeferReason::NotImplemented).name(), "DEFERRED(not impl)");
}

#[test]
fn audit_rows_pad_columns_and_flag_probe_mismatches() {
  assert_eq!(audit_header(), "file          cap          scope                umask    note");
  let add = policy_for_file("04").unwrap();
  assert_eq!(audit_row(&add, false), "04            Implemented  V1                   default  ADD");
  assert_eq!(audit_row(&add, true), audit_row(&add, false));
  let mul = policy_for_file("F7.4").unwrap();
  assert!(audit_row(&mul, false).starts_with("F7.4          Implemented  V1                   0x0801   MUL"));
}

#[test]
fn audit_totals_add_up() {
  let t = audit_totals(&form_policies());
  assert_eq!(t.entries, 327);
  assert_eq!(t.implemented + t.decode_only + t.undecodable, t.entries);
  assert_eq!(t.v1 + t.deferred, t.entries);
  assert_eq!(t.v1, 258);
}

#[test]
fn probe_agrees_with_capability_for_every_form() {
  for p in form_policies() {
    let expected = p.cap != Capability::Undecodable;
    let got = decode_check(&p);
    assert_eq!(got, expected, "decode probe mismatch for {}: probe says decodable={}", p.file, got);
  }
}

#[test]
fn probe_decodes_implemented_form_and_rejects_undecodable() {
  // 04 = ADD AL,imm8: decodes and is carried out.
  let add = policy_for_file("04").unwrap();
  assert_eq!(add.cap, Capability::Implemented);
  assert!(decode_check(&add));

  // 62 = BOUND: not an instruction of the decoder.
  let bound = policy_for_file("62").unwrap();
  assert_eq!(bound.cap, Capability::Undecodable);
  assert!(!decode_check(&bound));

  // DecodeOnly forms decode but must not be advertised as Implemented.
  let cmc = policy_for_file("F5").unwrap();
  assert_eq!(cmc.cap, Capability::DecodeOnly);
  assert!(decode_check(&cmc));
}
