use br::{
    classify, compare, decode, encode, entry_action, first_failure, hash, hash_key, process,
    sidecar_name, EntryAction, ExtensionFilter, Operation, TaskError, Walk, QUALITY,
};

fn css_source() -> Vec<u8> {
    b"body { color: red; margin: 0 auto; }\n".repeat(20)
}

/// Runs one task the way the caller does, against an in-memory sidecar.
fn run_task(source: &[u8], sidecar: &mut Option<Vec<u8>>, force: bool, dry_run: bool) -> Operation {
    let outcome = process(source, sidecar.as_deref(), force, dry_run).expect("task failed");
    if outcome.persist {
        *sidecar = outcome.encoded;
    }
    outcome.operation
}

#[test]
fn fresh_css_creates_sidecar() {
    let filter = ExtensionFilter::standard();
    assert_eq!(entry_action(&filter, "a.css", false), EntryAction::Candidate);
    let name = sidecar_name("a.css");
    assert_eq!(name, "a.css.br");
    let source = css_source();
    let outcome = process(&source, None, false, false).unwrap();
    assert_eq!(outcome.operation, Operation::Create);
    assert!(outcome.persist);
    let written = outcome.encoded.unwrap();
    assert_eq!(decode(&written).unwrap(), source);
    assert_eq!(outcome.operation.report_line(&name), Some("+a.css.br".to_string()));
}

#[test]
fn rerun_without_force_is_noop() {
    let source = css_source();
    let mut sidecar = None;
    assert_eq!(run_task(&source, &mut sidecar, false, false), Operation::Create);
    let first = sidecar.clone().unwrap();
    let outcome = process(&source, sidecar.as_deref(), false, false).unwrap();
    assert_eq!(outcome.operation, Operation::Noop);
    assert!(outcome.encoded.is_none());
    assert!(!outcome.persist);
    assert_eq!(sidecar.unwrap(), first);
    assert_eq!(Operation::Noop.report_line("a.css.br"), None);
}

#[test]
fn changed_source_updates_sidecar() {
    let mut sidecar = None;
    run_task(&css_source(), &mut sidecar, false, false);
    let changed = b"body { color: blue; }\n".to_vec();
    assert_eq!(run_task(&changed, &mut sidecar, false, false), Operation::Update);
    assert_eq!(decode(&sidecar.unwrap()).unwrap(), changed);
    assert_eq!(Operation::Update.report_line("a.css.br"), Some("*a.css.br".to_string()));
}

#[test]
fn same_length_change_updates_sidecar() {
    let mut sidecar = None;
    run_task(b"aaaa", &mut sidecar, false, false);
    assert_eq!(run_task(b"aaab", &mut sidecar, false, false), Operation::Update);
    assert_eq!(decode(&sidecar.unwrap()).unwrap(), b"aaab".to_vec());
}

#[test]
fn force_updates_unchanged_source() {
    let source = css_source();
    let mut sidecar = None;
    run_task(&source, &mut sidecar, false, false);
    assert_eq!(run_task(&source, &mut sidecar, true, false), Operation::Update);
    assert_eq!(decode(&sidecar.unwrap()).unwrap(), source);
}

#[test]
fn force_skips_decoding_a_corrupt_sidecar() {
    let garbage = vec![0xffu8, 0x00, 0x13, 0x37, 0x42];
    assert_eq!(classify(b"x", Some(&garbage), true).unwrap(), Operation::Update);
    let outcome = process(b"x", Some(&garbage), true, false).unwrap();
    assert_eq!(outcome.operation, Operation::Update);
    assert!(outcome.persist);
    assert_eq!(decode(&outcome.encoded.unwrap()).unwrap(), b"x".to_vec());
}

#[test]
fn corrupt_sidecar_without_force_fails_the_task() {
    let garbage = vec![0xffu8, 0x00, 0x13, 0x37, 0x42];
    assert!(decode(&garbage).is_err());
    assert!(matches!(classify(b"x", Some(&garbage), false), Err(TaskError::Decode(_))));
    assert!(matches!(process(b"x", Some(&garbage), false, false), Err(TaskError::Decode(_))));
}

#[test]
fn png_is_not_a_candidate() {
    let filter = ExtensionFilter::standard();
    assert_eq!(entry_action(&filter, "b.png", false), EntryAction::Skip);
    let mut walk: Walk<String> = Walk::new(ExtensionFilter::standard(), "root".to_string());
    let dir = walk.next_dir().unwrap();
    assert_eq!(dir, "root");
    walk.visit("a.css".to_string(), false, "root/a.css".to_string());
    walk.visit("b.png".to_string(), false, "root/b.png".to_string());
    assert!(walk.next_dir().is_none());
    let found = walk.into_candidates();
    assert_eq!(found.len(), 1);
    assert_eq!(found[0].filename, "a.css");
    assert_eq!(found[0].path, "root/a.css");
}

#[test]
fn dry_run_on_fresh_js_reports_create_and_writes_nothing() {
    let source = b"export const x = 1;\n".to_vec();
    let mut sidecar = None;
    let outcome = process(&source, None, false, true).unwrap();
    assert_eq!(outcome.operation, Operation::Create);
    assert!(!outcome.persist);
    assert!(outcome.encoded.is_some());
    assert_eq!(run_task(&source, &mut sidecar, false, true), Operation::Create);
    assert!(sidecar.is_none());
    assert_eq!(sidecar_name("c.js"), "c.js.br");
}

#[test]
fn dry_run_classifies_as_real_run() {
    let source = css_source();
    let stale = encode(b"old").unwrap();
    for sidecar in [None, Some(stale.clone()), Some(encode(&source).unwrap())] {
        for force in [false, true] {
            let dry = process(&source, sidecar.as_deref(), force, true).unwrap();
            let real = process(&source, sidecar.as_deref(), force, false).unwrap();
            assert_eq!(dry.operation, real.operation);
            assert!(!dry.persist);
            assert_eq!(real.persist, real.operation != Operation::Noop);
            assert_eq!(dry.encoded, real.encoded);
        }
    }
}

#[test]
fn second_run_is_noop_for_every_file() {
    let sources: Vec<Vec<u8>> = vec![vec![], b"a".to_vec(), css_source(), (0..=255u8).collect()];
    for source in sources {
        let mut sidecar = None;
        assert_eq!(run_task(&source, &mut sidecar, false, false), Operation::Create);
        let before = sidecar.clone();
        assert_eq!(run_task(&source, &mut sidecar, false, false), Operation::Noop);
        assert_eq!(sidecar, before);
    }
}

#[test]
fn encode_then_decode_gives_input_back() {
    let inputs: Vec<Vec<u8>> = vec![
        vec![],
        b"hello".to_vec(),
        css_source(),
        (0..100_000u32).map(|i| (i % 251) as u8).collect(),
    ];
    for input in inputs {
        let c = encode(&input).unwrap();
        assert_eq!(decode(&c).unwrap(), input);
    }
}

#[test]
fn encoding_compresses_repetitive_input() {
    let source = css_source();
    let c = encode(&source).unwrap();
    assert!(c.len() < source.len());
    assert_ne!(c, source);
    assert_eq!(QUALITY, 11);
}

#[test]
fn hidden_entries_are_skipped() {
    let filter = ExtensionFilter::standard();
    assert_eq!(entry_action(&filter, ".hidden.css", false), EntryAction::Skip);
    assert_eq!(entry_action(&filter, ".git", true), EntryAction::Skip);
    assert_eq!(entry_action(&filter, ".css", false), EntryAction::Skip);
    assert_eq!(entry_action(&filter, "assets", true), EntryAction::Descend);
    let mut walk: Walk<String> = Walk::new(ExtensionFilter::standard(), "r".to_string());
    walk.next_dir();
    assert_eq!(walk.visit(".git".to_string(), true, "r/.git".to_string()), EntryAction::Skip);
    assert_eq!(walk.visit("css".to_string(), true, "r/css".to_string()), EntryAction::Descend);
    assert_eq!(walk.next_dir(), Some("r/css".to_string()));
    assert_eq!(walk.visit(".x.css".to_string(), false, "r/css/.x.css".to_string()), EntryAction::Skip);
    assert_eq!(walk.visit("y.css".to_string(), false, "r/css/y.css".to_string()), EntryAction::Candidate);
    assert_eq!(walk.next_dir(), None);
    let found = walk.into_candidates();
    assert_eq!(found.len(), 1);
    assert_eq!(found[0].path, "r/css/y.css");
}

#[test]
fn extension_rules() {
    let filter = ExtensionFilter::standard();
    assert_eq!(entry_action(&filter, "a.css.br", false), EntryAction::Skip);
    assert_eq!(entry_action(&filter, "Makefile", false), EntryAction::Skip);
    assert_eq!(entry_action(&filter, "a.", false), EntryAction::Skip);
    assert_eq!(entry_action(&filter, "a.CSS", false), EntryAction::Skip);
    assert_eq!(entry_action(&filter, "archive.png.json", false), EntryAction::Candidate);
    assert_eq!(entry_action(&filter, "data.css.png", false), EntryAction::Skip);
    assert_eq!(entry_action(&filter, "index.html", false), EntryAction::Candidate);
    assert_eq!(entry_action(&filter, "manifest.manifest", false), EntryAction::Candidate);
    assert_eq!(entry_action(&filter, "café.svg", false), EntryAction::Candidate);
}

#[test]
fn custom_filter() {
    let filter = ExtensionFilter::new(vec!["png".to_string()]);
    assert!(filter.contains("png"));
    assert!(!filter.contains("css"));
    assert!(!filter.contains("pn"));
    assert_eq!(entry_action(&filter, "b.png", false), EntryAction::Candidate);
    assert_eq!(entry_action(&filter, "a.css", false), EntryAction::Skip);
    let standard = ExtensionFilter::standard();
    for e in ["html", "js", "wasm", "bin", "ldjson", "dtd"] {
        assert!(standard.contains(e));
    }
    assert!(!standard.contains("png"));
    assert!(!standard.contains(""));
}

#[test]
fn digest_is_hex_of_fixed_length() {
    let h = hash(b"hello");
    assert_eq!(h.len(), 32);
    assert!(h.chars().all(|c| c.is_ascii_digit() || ('a'..='f').contains(&c)));
    assert_eq!(h, hash(b"hello"));
    assert_ne!(h, hash(b"hellp"));
    assert_ne!(hash(b""), hash(b"\0"));
    assert_eq!(hash(b"").len(), 32);
    assert_eq!(hash_key(), [2024, 4, 6, 1]);
}

#[test]
fn compare_uses_length_and_digest() {
    assert_eq!(compare(b"abc", b"abc"), Operation::Noop);
    assert_eq!(compare(b"abc", b"abcd"), Operation::Update);
    assert_eq!(compare(b"abc", b"abd"), Operation::Update);
    assert_eq!(compare(b"", b""), Operation::Noop);
}

#[test]
fn first_failure_finds_earliest_error() {
    let all_ok: Vec<Result<(), String>> = vec![Ok(()), Ok(())];
    assert_eq!(first_failure(&all_ok), None);
    let empty: Vec<Result<(), String>> = vec![];
    assert_eq!(first_failure(&empty), None);
    let mixed: Vec<Result<(), String>> =
        vec![Ok(()), Err("first".to_string()), Ok(()), Err("second".to_string())];
    assert_eq!(first_failure(&mixed), Some(1));
}
