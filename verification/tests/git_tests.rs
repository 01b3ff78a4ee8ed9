use outpost::git::{Branch, CommitId, Reference};

#[test]
fn commit_id_accepts_twenty_bytes() {
    let id = CommitId::new(vec![7u8; 20]);
    assert!(id.is_some());
    assert_eq!(id.unwrap().as_bytes(), &vec![7u8; 20]);
}

#[test]
fn commit_id_rejects_other_lengths() {
    assert!(CommitId::new(vec![]).is_none());
    assert!(CommitId::new(vec![0u8; 19]).is_none());
    assert!(CommitId::new(vec![0u8; 21]).is_none());
}

#[test]
fn commit_id_equality_is_by_content() {
    let a = CommitId::new(vec![1u8; 20]).unwrap();
    let b = CommitId::new(vec![1u8; 20]).unwrap();
    let c = CommitId::new(vec![2u8; 20]).unwrap();
    assert!(a == b);
    assert!(a != c);
    assert_eq!(a.duplicate(), a);
}

#[test]
fn branch_short_name_strips_nothing() {
    assert_eq!(Branch::Local("main".to_string()).short_name(), "main");
    assert_eq!(Branch::Remote("origin/main".to_string()).short_name(), "origin/main");
}

#[test]
fn reference_full_name_qualifies_by_locality() {
    let local = Branch::Local("main".to_string());
    assert_eq!(local.as_reference().full_name(), "refs/heads/main");
    let remote = Branch::Remote("origin/main".to_string());
    assert_eq!(remote.as_reference().full_name(), "refs/remotes/origin/main");
}

#[test]
fn reference_local_projection() {
    let remote = Branch::Remote("main".to_string());
    let localized = remote.as_reference().local();
    assert!(matches!(localized, Reference::Local(_)));
    assert_eq!(localized.full_name(), "refs/heads/main");
    assert_eq!(localized.short_name(), "main");
}

#[test]
fn reference_short_name_keeps_name() {
    let b = Branch::Local("feature/x".to_string());
    let r = b.as_reference();
    assert_eq!(r.short_name(), "feature/x");
}
