use wekan_cli::artifact::{Artifact, AType};
use wekan_cli::command::transform_to_exit;
use wekan_cli::config::needs_renewal;
use wekan_cli::error::{CliError, CoreError, Error, InputError, StoreError};
use wekan_cli::result::WekanResult;
use wekan_cli::store::approve_artifact;

#[test]
fn success_prints_message_and_recommendation() {
    let w = WekanResult::new_workflow("  all done \n", " next step ");
    let r = transform_to_exit(Ok(w), false);
    assert_eq!(r.stdout, "all done\nRecommended workflow: next step");
    assert_eq!(r.stderr, "");
    assert_eq!(r.code, 0);
}

#[test]
fn recommendations_can_be_switched_off() {
    let w = WekanResult::new_workflow("all done", "next step");
    let r = transform_to_exit(Ok(w), true);
    assert_eq!(r.stdout, "all done");
    assert_eq!(r.code, 0);
}

#[test]
fn cli_errors_reach_stderr_with_their_code() {
    let e = Error::Cli(CliError::new_msg("Artifact not found"));
    let r = transform_to_exit(Err(e), false);
    assert_eq!(r.stderr, "Artifact not found");
    assert_eq!(r.stdout, "");
    assert_eq!(r.code, 1);
}

#[test]
fn input_errors_are_informational() {
    let e = Error::Input(InputError::new_msg("bad id"));
    let r = transform_to_exit(Err(e), false);
    assert_eq!(r.stdout, "bad id");
    assert_eq!(r.code, 0);
}

#[test]
fn transport_errors_exit_with_two() {
    let e = Error::Core(CoreError::Http(String::from("connection refused")));
    let r = transform_to_exit(Err(e), false);
    assert_eq!(r.stderr, "connection refused");
    assert_eq!(r.code, 2);
}

#[test]
fn store_errors_exit_with_four() {
    let e = Error::Store(StoreError { found: false });
    let r = transform_to_exit(Err(e), false);
    assert_eq!(r.code, 4);
}

#[test]
fn token_renewal_follows_expiry() {
    assert!(needs_renewal("", 0));
    assert!(needs_renewal("not a stamp", 0));
    // One day past the epoch: valid up to that very second, stale after it.
    assert!(!needs_renewal("1970-01-02T00:00:00Z", 86400));
    assert!(needs_renewal("1970-01-02T00:00:00Z", 86401));
}

#[test]
fn remembered_artifacts_must_match_their_key() {
    let a = Artifact {
        _id: String::from("id-1"),
        title: String::from("t-1"),
        kind: AType::Board,
    };
    assert_eq!(approve_artifact("id-1t-1", &a).unwrap(), "id-1");
    match approve_artifact("id-1t-2", &a) {
        Err(Error::Store(se)) => assert!(!se.found),
        other => panic!("expected a silent miss, got {:?}", other),
    }
}
