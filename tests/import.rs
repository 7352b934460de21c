use otp_import::otp::{InvalidReason, ParseError, RowWarning, OTP, OTPs};
use otp_import::pass::{
    canonical_path, BatchStep, Pass, ProcessOutcome, SaveError, StoreError, StoreListing,
    WriteError,
};
use otp_import::platform::Platform;

fn record(name: &str, secret: &str, issuer: Option<&str>, url: &str) -> OTP {
    OTP::new(
        name.to_string(),
        secret.to_string(),
        issuer.map(|i| i.to_string()),
        url.to_string(),
    )
}

fn uri(label: &str) -> String {
    format!("otpauth://totp/{}?secret=JBSWY3DPEHPK3PXP", label)
}

fn open_store(root: &str) -> Pass {
    match Pass::new(root.to_string(), StoreListing::Listed(vec!["a.gpg".to_string()])) {
        Ok(p) => p,
        Err(_) => panic!("store did not open"),
    }
}

fn empty_set() -> OTPs {
    OTPs::from_records(&Vec::new())
}

#[test]
fn canonical_path_without_issuer() {
    assert_eq!(canonical_path("alice", None), "OTP/alice");
}

#[test]
fn canonical_path_with_issuer() {
    assert_eq!(canonical_path("alice", Some("GitHub")), "OTP/GitHub/alice");
}

#[test]
fn canonical_path_is_deterministic() {
    assert_eq!(canonical_path("bob", Some("Mail")), canonical_path("bob", Some("Mail")));
}

#[test]
fn is_valid_reports_first_failed_check() {
    assert_eq!(record("a", "", None, "").is_valid(true), Err(InvalidReason::EmptySecret));
    assert_eq!(record("", "S", None, "").is_valid(true), Err(InvalidReason::EmptyUrl));
    assert_eq!(record("", "S", None, "u").is_valid(true), Err(InvalidReason::EmptyName));
    assert_eq!(record("a", "S", None, "u").is_valid(false), Err(InvalidReason::InvalidUri));
    assert_eq!(record("a", "S", None, "u").is_valid(true), Ok(()));
}

#[test]
fn five_good_rows_and_one_malformed() {
    let mut rows: Vec<Result<OTP, String>> = Vec::new();
    for k in 0..3 {
        let n = format!("user{}", k);
        rows.push(Ok(record(&n, "SECRET", None, &uri(&n))));
    }
    rows.push(Err("found record with 2 fields, but the previous record has 4 fields".to_string()));
    for k in 3..5 {
        let n = format!("user{}", k);
        rows.push(Ok(record(&n, "SECRET", Some("Corp"), &uri(&n))));
    }
    let oks = vec![true; rows.len()];
    let mut set = empty_set();
    let mut warnings = Vec::new();
    assert!(set.read_file("export.csv", &rows, &oks, &mut warnings).is_ok());
    assert_eq!(set.len(), 5);
    assert_eq!(warnings.len(), 1);
    match &warnings[0] {
        RowWarning::Malformed { position, .. } => assert_eq!(*position, 4),
        _ => panic!("expected a malformed-row warning"),
    }
    let positions: Vec<Option<usize>> = set.get_data().iter().map(|o| o.get_position()).collect();
    assert_eq!(positions, vec![Some(1), Some(2), Some(3), Some(5), Some(6)]);
}

#[test]
fn no_valid_rows_names_the_path() {
    let rows: Vec<Result<OTP, String>> = vec![
        Ok(record("a", "", None, &uri("a"))),
        Ok(record("b", "", Some("X"), &uri("b"))),
    ];
    let oks = vec![true, true];
    let mut set = empty_set();
    let mut warnings = Vec::new();
    match set.read_file("codes.csv", &rows, &oks, &mut warnings) {
        Err(ParseError::NoValidRecords { path }) => assert_eq!(path, "codes.csv"),
        Ok(()) => panic!("expected an error"),
    }
    assert!(set.is_empty());
    assert_eq!(warnings.len(), 2);
    match &warnings[1] {
        RowWarning::Invalid { position, reason, entry } => {
            assert_eq!(*position, 2);
            assert_eq!(*reason, InvalidReason::EmptySecret);
            assert_eq!(entry.name, "b");
        }
        _ => panic!("expected an invalid-entry warning"),
    }
}

#[test]
fn rows_with_empty_fields_are_each_dropped() {
    let rows: Vec<Result<OTP, String>> = vec![
        Ok(record("a", "S", None, &uri("a"))),
        Ok(record("", "S", None, &uri("b"))),
        Ok(record("c", "", None, &uri("c"))),
        Ok(record("d", "S", None, "")),
        Ok(record("e", "S", None, &uri("e"))),
    ];
    let oks = vec![true; 5];
    let mut set = empty_set();
    let mut warnings = Vec::new();
    assert!(set.read_file("f.csv", &rows, &oks, &mut warnings).is_ok());
    assert_eq!(set.len(), 2);
    assert_eq!(warnings.len(), 3);
}

#[test]
fn rejected_uri_is_dropped_and_kept_records_are_valid() {
    let rows: Vec<Result<OTP, String>> = vec![
        Ok(record("a", "S", None, &uri("a"))),
        Ok(record("b", "S", None, "not a uri")),
    ];
    let oks = vec![true, false];
    let mut set = empty_set();
    let mut warnings = Vec::new();
    assert!(set.read_file("f.csv", &rows, &oks, &mut warnings).is_ok());
    assert_eq!(set.len(), 1);
    for o in set.get_data() {
        assert_eq!(o.is_valid(true), Ok(()));
    }
    match &warnings[0] {
        RowWarning::Invalid { reason, .. } => assert_eq!(*reason, InvalidReason::InvalidUri),
        _ => panic!("expected an invalid-entry warning"),
    }
}

#[test]
fn read_file_clears_earlier_contents() {
    let mut set = empty_set();
    set.add(record("old", "S", None, &uri("old")));
    let rows: Vec<Result<OTP, String>> = vec![Ok(record("new", "S", None, &uri("new")))];
    let mut warnings = Vec::new();
    assert!(set.read_file("f.csv", &rows, &vec![true], &mut warnings).is_ok());
    assert_eq!(set.len(), 1);
    assert_eq!(set.get_data()[0].name, "new");
}

#[test]
fn insert_command_follows_the_protocol() {
    let pass = open_store("/store");
    let c = pass.insert_command(&record("alice", "S", Some("GitHub"), "otpauth://x"));
    assert_eq!(
        c.args,
        vec!["--issuer", "GitHub", "otp", "insert", "--force", "--account", "alice", "OTP/GitHub/alice"]
    );
    assert_eq!(c.stdin, "otpauth://x\n");
    assert_eq!(c.pass_name, "OTP/GitHub/alice");
    assert_eq!(c.store_dir, "/store");
    let d = pass.insert_command(&record("bob", "S", None, "otpauth://y"));
    assert_eq!(d.args, vec!["otp", "insert", "--force", "--account", "bob", "OTP/bob"]);
}

#[test]
fn writing_twice_gives_the_same_path() {
    let pass = open_store("/store");
    let r = record("alice", "S", Some("GitHub"), "otpauth://x");
    let first = pass.add_entry(&r, ProcessOutcome::Completed);
    let second = pass.add_entry(&r, ProcessOutcome::Completed);
    match (first, second) {
        (Ok(a), Ok(b)) => {
            assert_eq!(a, "OTP/GitHub/alice");
            assert_eq!(a, b);
        }
        _ => panic!("both writes should succeed"),
    }
    assert_eq!(pass.insert_command(&r).args, pass.insert_command(&r).args);
}

#[test]
fn spawn_failure_names_the_record_and_leaves_the_writer_usable() {
    let pass = open_store("/store");
    let r = record("carol", "S", None, "otpauth://z");
    match pass.add_entry(&r, ProcessOutcome::SpawnFailed("No such file or directory".to_string())) {
        Err(WriteError::SpawnFailed { name, cause }) => {
            assert_eq!(name, "carol");
            assert_eq!(cause, "No such file or directory");
        }
        _ => panic!("expected a spawn failure"),
    }
    match pass.add_entry(&r, ProcessOutcome::Completed) {
        Ok(p) => assert_eq!(p, "OTP/carol"),
        Err(_) => panic!("the next write should succeed"),
    }
}

#[test]
fn each_process_failure_has_its_error() {
    let pass = open_store("/store");
    let r = record("dave", "S", None, "u");
    assert!(matches!(
        pass.add_entry(&r, ProcessOutcome::NoStdin),
        Err(WriteError::StdinUnavailable { .. })
    ));
    assert!(matches!(
        pass.add_entry(&r, ProcessOutcome::StdinWriteFailed("broken pipe".to_string())),
        Err(WriteError::WriteFailed { .. })
    ));
    assert!(matches!(
        pass.add_entry(&r, ProcessOutcome::ExitFailed("exit status: 1".to_string())),
        Err(WriteError::ProcessFailed { .. })
    ));
}

#[test]
fn save_to_pass_refuses_invalid_records() {
    let pass = open_store("/store");
    let r = record("erin", "", None, "u");
    match r.save_to_pass(&pass, true, ProcessOutcome::Completed) {
        Err(WriteError::InvalidEntry { name, reason }) => {
            assert_eq!(name, "erin");
            assert_eq!(reason, InvalidReason::EmptySecret);
        }
        _ => panic!("expected a refusal"),
    }
    let good = record("erin", "S", None, "u");
    assert!(matches!(good.save_to_pass(&pass, true, ProcessOutcome::Completed), Ok(_)));
}

#[test]
fn save_refuses_an_empty_set() {
    let pass = open_store("/store");
    assert!(matches!(empty_set().save(&pass), Err(SaveError::EmptyList)));
}

#[test]
fn batch_stops_at_the_first_failure() {
    let pass = open_store("/store");
    let set = OTPs::from_records(&vec![
        record("a", "S", None, "u1"),
        record("b", "S", None, "u2"),
        record("c", "S", None, "u3"),
    ]);
    let first = match set.save(&pass) {
        Ok(BatchStep::Write { index, command }) => {
            assert_eq!(command.pass_name, "OTP/a");
            index
        }
        _ => panic!("expected a first write"),
    };
    assert_eq!(first, 0);
    match pass.add_entries_next(&set, 0, ProcessOutcome::Completed) {
        BatchStep::Write { index, command } => {
            assert_eq!(index, 1);
            assert_eq!(command.pass_name, "OTP/b");
        }
        _ => panic!("expected the second write"),
    }
    match pass.add_entries_next(&set, 1, ProcessOutcome::ExitFailed("1".to_string())) {
        BatchStep::Abort { error: WriteError::ProcessFailed { name, .. } } => assert_eq!(name, "b"),
        _ => panic!("expected an abort"),
    }
    assert!(matches!(pass.add_entries_next(&set, 2, ProcessOutcome::Completed), BatchStep::Done));
    assert!(matches!(pass.add_entries(&empty_set()), BatchStep::Done));
}

#[test]
fn store_opening_and_repointing() {
    assert!(matches!(
        Pass::new("/nope".to_string(), StoreListing::Missing),
        Err(StoreError::NotFound { .. })
    ));
    assert!(matches!(
        Pass::new("/file".to_string(), StoreListing::NotADirectory),
        Err(StoreError::NotFound { .. })
    ));
    let mut pass = open_store("/store");
    assert_eq!(pass.get_entries().len(), 1);
    match pass.change_pass_store_path("/bad", StoreListing::Unreadable("denied".to_string())) {
        Err(StoreError::Unreadable { path, cause }) => {
            assert_eq!(path, "/bad");
            assert_eq!(cause, "denied");
        }
        _ => panic!("expected an unreadable store"),
    }
    assert_eq!(pass.get_base_path().ok(), Some("/store"));
    let listed = StoreListing::Listed(vec!["x.gpg".to_string(), "y.gpg".to_string()]);
    assert!(pass.change_pass_store_path("/other", listed).is_ok());
    assert_eq!(pass.get_base_path().ok(), Some("/other"));
    assert_eq!(pass.get_entries(), &vec!["x.gpg".to_string(), "y.gpg".to_string()]);
    assert!(pass.update_pass_store().is_ok());
}

#[test]
fn explicit_root_wins_over_environment() {
    let p = Platform::new(Some("/env/store".to_string()));
    assert_eq!(p.store_root(Some("/explicit".to_string()), "/home/u"), "/explicit");
    assert_eq!(p.store_root(None, "/home/u"), "/env/store");
}

#[test]
fn default_root_expands_home() {
    let p = Platform::new(None);
    assert_eq!(p.store_root(None, "/home/u"), "/home/u/.password-store");
    assert_eq!(p.default_store_path("/root"), "/root/.password-store");
}

#[test]
fn environment_setting_with_tilde_is_expanded() {
    let p = Platform::new(Some("~/vault".to_string()));
    assert_eq!(p.default_store_path("/home/u"), "/home/u/vault");
    let q = Platform::new(Some("~other/vault".to_string()));
    assert_eq!(q.default_store_path("/home/u"), "~other/vault");
}

#[test]
fn validator_arguments_are_fragment_encoded() {
    let p = Platform::new(None);
    assert_eq!(
        p.validation_args("a > b?"),
        Some(vec!["otp".to_string(), "validate".to_string(), "a%20%3E%20b?".to_string()])
    );
    assert_eq!(p.validation_args(""), None);
    assert!(!p.check_otp_uri("", true));
    assert!(!p.check_otp_uri("otpauth://x", false));
    assert!(p.check_otp_uri("otpauth://x", true));
}

#[test]
fn emptying_a_field_removes_only_that_record() {
    let good: Vec<Result<OTP, String>> = vec![
        Ok(record("a", "S", None, &uri("a"))),
        Ok(record("b", "S", None, &uri("b"))),
        Ok(record("c", "S", None, &uri("c"))),
    ];
    let bad: Vec<Result<OTP, String>> = vec![
        Ok(record("a", "S", None, &uri("a"))),
        Ok(record("b", "", None, &uri("b"))),
        Ok(record("c", "S", None, &uri("c"))),
    ];
    let oks = vec![true; 3];
    let mut before = empty_set();
    let mut after = empty_set();
    let mut warnings = Vec::new();
    assert!(before.read_file("f.csv", &good, &oks, &mut warnings).is_ok());
    assert!(after.read_file("f.csv", &bad, &oks, &mut warnings).is_ok());
    assert_eq!(after.len() + 1, before.len());
    let kept: Vec<(String, Option<usize>)> =
        after.get_data().iter().map(|o| (o.name.clone(), o.get_position())).collect();
    assert_eq!(kept, vec![("a".to_string(), Some(1)), ("c".to_string(), Some(3))]);
}

#[test]
fn new_fails_naming_the_path_without_valid_rows() {
    let rows: Vec<Result<OTP, String>> = vec![
        Ok(record("a", "", None, &uri("a"))),
        Err("CSV deserialize error".to_string()),
    ];
    let mut warnings = Vec::new();
    match OTPs::new("/tmp/export.csv", &rows, &vec![true, true], &mut warnings) {
        Err(ParseError::NoValidRecords { path }) => assert_eq!(path, "/tmp/export.csv"),
        Ok(_) => panic!("expected an error"),
    }
    assert_eq!(warnings.len(), 2);
    let good: Vec<Result<OTP, String>> = vec![Ok(record("a", "S", None, &uri("a")))];
    match OTPs::new("/tmp/export.csv", &good, &vec![true], &mut warnings) {
        Ok(set) => assert_eq!(set.len(), 1),
        Err(_) => panic!("expected a set"),
    }
}
