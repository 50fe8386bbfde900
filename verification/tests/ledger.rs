use getlyrics::hasher::dummy_hasher::DummyHasher;
use getlyrics::hasher::file_hash_helper::{parse_lines, FileHashHelper};
use getlyrics::hasher::run_policy::RunPolicy;
use getlyrics::traits::traits::{LedgerError, ProcessPolicy};

const ABC_FINGERPRINT: &str = "ba7816bf8f01cfea414140de5dae2223b00361a396177a9cb410ff61f20015ad";
const EMPTY_FINGERPRINT: &str = "e3b0c44298fc1c149afbf4c8996fb92427ae41e4649b934ca495991b7852b855";

fn content(text: &str) -> Option<Vec<u8>> {
    Some(text.as_bytes().to_vec())
}

#[test]
fn dummy_hasher_always_processes() {
    let mut hasher = DummyHasher::new();

    let fake_path = content("does/not/matter.mp3");

    assert!(hasher.should_process(&fake_path).unwrap());
    assert!(hasher.should_process(&fake_path).unwrap());
    assert!(hasher.should_process(&fake_path).unwrap());
}

#[test]
fn dummy_hasher_passes_unreadable_input_and_stores_nothing() {
    let mut hasher = DummyHasher::new();
    assert_eq!(hasher.should_process(&None), Ok(true));
    assert_eq!(hasher.take_unsaved(), "");
}

#[test]
fn test_hash_file_mp3() {
    let mp3_content: Vec<u8> = vec![0x49, 0x44, 0x33, 0x04, 0x00, 0x00, 0x00, 0x00, 0x00, 0x23];
    let helper = FileHashHelper::new("");

    let hash = helper.hash_file(&mp3_content);
    assert!(!hash.is_empty(), "Hash should not be empty");
    assert_eq!(hash.len(), 64, "SHA-256 should be 64 hex chars");
}

#[test]
fn hash_file_gives_the_sha256_digest_in_lower_case_hex() {
    let helper = FileHashHelper::new("");
    assert_eq!(helper.hash_file(b"abc"), ABC_FINGERPRINT);
    assert_eq!(helper.hash_file(b""), EMPTY_FINGERPRINT);
}

#[test]
fn test_store_and_check_hash() {
    let mut helper = FileHashHelper::new("");

    let fake_hash = "abc123deadbeef";

    // Initially it should not exist
    assert!(!helper.has_hash(fake_hash), "Hash should not exist yet");

    // Store the hash
    helper.store_hash(fake_hash);

    // Now it must exist
    assert!(helper.has_hash(fake_hash), "Hash should exist after storing");
}

#[test]
fn test_should_process_logic() {
    let mp3 = content("the bytes of a song");
    let mut helper = FileHashHelper::new("");

    // First call should process the file
    let first = helper.should_process(&mp3).unwrap();
    assert!(first, "First call should return true — not processed yet");

    // Second call should skip the file
    let second = helper.should_process(&mp3).unwrap();
    assert!(!second, "Second call should return false — already processed");
}

#[test]
fn test_store_file_created() {
    let mut helper = FileHashHelper::new("");
    assert!(!helper.has_hash(ABC_FINGERPRINT));
    assert_eq!(helper.take_unsaved(), "");
}

#[test]
fn unreadable_input_is_an_error_not_a_refusal() {
    let mut helper = FileHashHelper::new("");
    assert_eq!(helper.should_process(&None), Err(LedgerError::InputUnreadable));
    assert_eq!(helper.take_unsaved(), "");
}

#[test]
fn same_content_at_another_path_is_known() {
    let mut helper = FileHashHelper::new("");
    assert_eq!(helper.should_process(&content("abc")), Ok(true));
    // The ledger sees the content only: a copy elsewhere has the same fingerprint.
    assert_eq!(helper.should_process(&content("abc")), Ok(false));
    // Changed content under the old path is new.
    assert_eq!(helper.should_process(&content("abd")), Ok(true));
}

#[test]
fn what_is_stored_is_one_line_for_each_new_fingerprint() {
    let mut helper = FileHashHelper::new("");
    assert_eq!(helper.should_process(&content("abc")), Ok(true));
    assert_eq!(helper.take_unsaved(), format!("{}\n", ABC_FINGERPRINT));
    assert_eq!(helper.take_unsaved(), "");
    assert_eq!(helper.should_process(&content("abc")), Ok(false));
    assert_eq!(helper.take_unsaved(), "");
    assert_eq!(helper.should_process(&content("")), Ok(true));
    helper.store_hash("abc123deadbeef");
    assert_eq!(helper.take_unsaved(), format!("{}\nabc123deadbeef\n", EMPTY_FINGERPRINT));
}

#[test]
fn a_ledger_opened_on_what_was_stored_refuses_what_went_through() {
    let mut first = FileHashHelper::new("");
    assert_eq!(first.should_process(&content("abc")), Ok(true));
    let mut stored = String::new();
    stored.push_str(&first.take_unsaved());
    assert_eq!(first.should_process(&content("abc")), Ok(false));

    let mut second = FileHashHelper::new(&stored);
    assert!(second.has_hash(ABC_FINGERPRINT));
    assert_eq!(second.should_process(&content("abc")), Ok(false));
    assert_eq!(second.take_unsaved(), "");
    assert_eq!(second.should_process(&content("")), Ok(true));
    stored.push_str(&second.take_unsaved());
    assert_eq!(stored, format!("{}\n{}\n", ABC_FINGERPRINT, EMPTY_FINGERPRINT));

    let mut third = FileHashHelper::new(&stored);
    assert_eq!(third.should_process(&content("abc")), Ok(false));
    assert_eq!(third.should_process(&content("")), Ok(false));
}

#[test]
fn of_many_calls_for_one_content_one_goes_through() {
    let mut helper = FileHashHelper::new("");
    let mut through = 0;
    for _ in 0..16 {
        if helper.should_process(&content("abc")).unwrap() {
            through += 1;
        }
    }
    assert_eq!(through, 1);

    let mut known = FileHashHelper::new(&format!("{}\n", ABC_FINGERPRINT));
    let mut through = 0;
    for _ in 0..16 {
        if known.should_process(&content("abc")).unwrap() {
            through += 1;
        }
    }
    assert_eq!(through, 0);
}

#[test]
fn stored_text_is_read_line_by_line() {
    assert_eq!(parse_lines(""), Vec::<String>::new());
    assert_eq!(parse_lines("abc\ndef"), vec!["abc", "def"]);
    assert_eq!(parse_lines("abc\ndef\n"), vec!["abc", "def"]);
    assert_eq!(parse_lines("abc\r\ndef\r\n"), vec!["abc", "def"]);
    assert_eq!(parse_lines("abc\n\ndef"), vec!["abc", "", "def"]);
    assert_eq!(parse_lines("\n"), vec![""]);
    assert_eq!(parse_lines("a\rb\n"), vec!["a\rb"]);
}

#[test]
fn a_stored_ledger_with_repeated_lines_is_known_once() {
    let mut helper = FileHashHelper::new("one\ntwo\none\n");
    assert!(helper.has_hash("one"));
    assert!(helper.has_hash("two"));
    assert!(!helper.has_hash("three"));
    assert_eq!(helper.take_unsaved(), "");
    helper.store_hash("two");
    assert_eq!(helper.take_unsaved(), "");
    helper.store_hash("three");
    assert_eq!(helper.take_unsaved(), "three\n");
}

#[test]
fn a_forced_run_bypasses_the_ledger() {
    let stored = format!("{}\n", ABC_FINGERPRINT);
    let mut normal = RunPolicy::for_run(false, Some(&stored)).unwrap();
    assert_eq!(normal.should_process(&content("abc")), Ok(false));

    let mut forced = RunPolicy::for_run(true, Some(&stored)).unwrap();
    assert_eq!(forced.should_process(&content("abc")), Ok(true));
    assert_eq!(forced.should_process(&content("abc")), Ok(true));
    assert_eq!(forced.take_unsaved(), "");
}

#[test]
fn a_run_needs_its_stored_ledger_unless_it_is_forced() {
    assert!(matches!(RunPolicy::for_run(false, None), Err(LedgerError::StoreUnavailable)));
    assert!(matches!(RunPolicy::for_run(true, None), Ok(RunPolicy::Bypass(_))));
    assert!(matches!(RunPolicy::for_run(false, Some("")), Ok(RunPolicy::Ledger(_))));
    assert!(matches!(RunPolicy::for_run(true, Some("")), Ok(RunPolicy::Bypass(_))));
}

#[test]
fn a_stored_ledger_that_ends_within_a_line_gets_its_line_break_first() {
    let stored = String::from("one\ntwo");
    let mut helper = FileHashHelper::new(&stored);
    assert!(helper.has_hash("one"));
    assert!(helper.has_hash("two"));
    assert_eq!(helper.should_process(&content("abc")), Ok(true));
    let added = helper.take_unsaved();
    assert_eq!(added, format!("\n{}\n", ABC_FINGERPRINT));
    assert_eq!(helper.should_process(&content("")), Ok(true));
    assert_eq!(helper.take_unsaved(), format!("{}\n", EMPTY_FINGERPRINT));

    let mut reopened = FileHashHelper::new(&format!("{}{}", stored, added));
    assert!(reopened.has_hash("two"));
    assert!(reopened.has_hash(ABC_FINGERPRINT));
    assert!(!reopened.has_hash(&format!("two{}", ABC_FINGERPRINT)));
    assert_eq!(reopened.should_process(&content("abc")), Ok(false));
    assert_eq!(reopened.take_unsaved(), "");
}
