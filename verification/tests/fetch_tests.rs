use outpost::fetch_and_compare::{fetch_and_compare, FetchError, FetchResult, RemoteRef};
use outpost::git::{Branch, CommitId};

fn id(b: u8) -> CommitId {
    CommitId::new(vec![b; 20]).unwrap()
}

fn direct(name: &str, tip: u8) -> RemoteRef {
    RemoteRef::Direct { full_ref_name: name.to_string(), object: id(tip) }
}

#[test]
fn equal_tip_is_up_to_date() {
    let refs = vec![direct("refs/heads/main", 1)];
    let branch = Branch::Remote("origin/main".to_string());
    // The remote branch's name interpreted as a local name on the far side
    // is `refs/heads/origin/main`, so use a matching branch name instead.
    let branch_plain = Branch::Remote("main".to_string());
    let r = fetch_and_compare(&refs, &branch_plain, &id(1));
    assert!(matches!(r, Ok(FetchResult::UpToDate)));
    // A branch whose far-side name is not advertised is reported missing.
    let r2 = fetch_and_compare(&refs, &branch, &id(1));
    assert!(matches!(r2, Err(FetchError::FetchRemoteMissing)));
}

#[test]
fn different_tip_is_out_of_date_with_that_tip() {
    let refs = vec![direct("refs/heads/main", 2)];
    let branch = Branch::Remote("main".to_string());
    match fetch_and_compare(&refs, &branch, &id(1)) {
        Ok(FetchResult::OutOfDate { remote_commit_id }) => {
            assert_eq!(remote_commit_id, id(2));
        }
        other => panic!("expected OutOfDate, got {other:?}"),
    }
}

#[test]
fn missing_remote_ref_is_reported() {
    let refs = vec![direct("refs/heads/other", 1)];
    let branch = Branch::Remote("main".to_string());
    let r = fetch_and_compare(&refs, &branch, &id(1));
    assert!(matches!(r, Err(FetchError::FetchRemoteMissing)));
}

#[test]
fn empty_ref_map_is_reported_missing() {
    let refs: Vec<RemoteRef> = vec![];
    let branch = Branch::Local("main".to_string());
    let r = fetch_and_compare(&refs, &branch, &id(1));
    assert!(matches!(r, Err(FetchError::FetchRemoteMissing)));
}

#[test]
fn non_direct_entries_are_skipped() {
    let refs = vec![RemoteRef::Other, direct("refs/heads/main", 5), RemoteRef::Other];
    let branch = Branch::Remote("main".to_string());
    match fetch_and_compare(&refs, &branch, &id(4)) {
        Ok(FetchResult::OutOfDate { remote_commit_id }) => {
            assert_eq!(remote_commit_id, id(5));
        }
        other => panic!("expected OutOfDate, got {other:?}"),
    }
}

#[test]
fn first_matching_entry_wins() {
    let refs = vec![direct("refs/heads/main", 3), direct("refs/heads/main", 4)];
    let branch = Branch::Remote("main".to_string());
    match fetch_and_compare(&refs, &branch, &id(9)) {
        Ok(FetchResult::OutOfDate { remote_commit_id }) => {
            assert_eq!(remote_commit_id, id(3));
        }
        other => panic!("expected OutOfDate, got {other:?}"),
    }
}
