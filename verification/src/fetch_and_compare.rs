use vstd::prelude::*;
use crate::git::{Branch, CommitId, GitError};

verus! {

/// One reference advertised by the remote during a dry-run fetch. Only
/// direct references carry a tip; peeled, symbolic and unborn entries are
/// never candidates for the comparison and are recorded as `Other`.
#[derive(Debug, Clone)]
pub enum RemoteRef {
    Direct { full_ref_name: String, object: CommitId },
    Other,
}

impl RemoteRef {
    /// Whether this advertised reference is the direct one with the given
    /// fully qualified name.
    pub open spec fn is_direct_named(&self, target: Seq<char>) -> bool {
        self matches RemoteRef::Direct { full_ref_name, .. } && full_ref_name@ == target
    }
}

/// The outcome of one fetch cycle: either the remote tip equals the supplied
/// local snapshot, or it differs and the new remote commit identifier is
/// carried along. This is the only information one fetch produces.
#[derive(Debug)]
pub enum FetchResult {
    UpToDate,
    OutOfDate { remote_commit_id: CommitId },
}

#[derive(Debug)]
pub enum FetchError {
    GitError(GitError),
    FetchRemoteMissing,
}

/// The tip of the first advertised direct reference whose fully qualified
/// name equals `target`, if any is advertised.
pub open spec fn first_direct_tip(refs: Seq<RemoteRef>, target: Seq<char>) -> Option<Seq<u8>>
    decreases refs.len(),
{
    if refs.len() == 0 {
        None
    } else if refs[0].is_direct_named(target) {
        Some(refs[0]->Direct_object@)
    } else {
        first_direct_tip(refs.drop_first(), target)
    }
}

proof fn lemma_first_direct_tip_push(refs: Seq<RemoteRef>, target: Seq<char>, i: int)
    requires
        0 <= i <= refs.len(),
        forall|j: int| 0 <= j < i ==> !refs[j].is_direct_named(target),
    ensures
        first_direct_tip(refs, target) == first_direct_tip(refs.skip(i), target),
    decreases i,
{
    if i > 0 {
        assert(refs.skip(i - 1).drop_first() =~= refs.skip(i));
        lemma_first_direct_tip_push(refs, target, i - 1);
    } else {
        assert(refs.skip(0) =~= refs);
    }
}

/// Decides whether the remote branch has advanced past the supplied local
/// snapshot. `refs` is the reference map a dry-run fetch reported; the entry
/// compared against is the one whose fully qualified name equals the remote
/// branch's name interpreted as a local name on the far side. If the remote
/// no longer advertises that branch, the comparison fails with
/// `FetchRemoteMissing`.
pub fn fetch_and_compare(
    refs: &Vec<RemoteRef>,
    branch: &Branch,
    current_id: &CommitId,
) -> (r: Result<FetchResult, FetchError>)
    ensures
        ({
            let target = "refs/heads/"@ + branch.name_spec();
            match first_direct_tip(refs@, target) {
                None => r matches Err(FetchError::FetchRemoteMissing),
                Some(tip) => if tip == current_id@ {
                    r matches Ok(FetchResult::UpToDate)
                } else {
                    r matches Ok(FetchResult::OutOfDate { remote_commit_id })
                        && remote_commit_id@ == tip
                },
            }
        }),
{
    let target = branch.as_reference().local().full_name();
    let ghost target_spec = "refs/heads/"@ + branch.name_spec();
    assert(target@ == target_spec);
    let n = refs.len();
    let mut i: usize = 0;
    while i < n
        invariant
            n == refs@.len(),
            i <= n,
            target@ == target_spec,
            target_spec == "refs/heads/"@ + branch.name_spec(),
            forall|j: int| 0 <= j < i ==> !refs@[j].is_direct_named(target_spec),
        decreases n - i,
    {
        match &refs[i] {
            RemoteRef::Direct { full_ref_name, object } => {
                if *full_ref_name == target {
                    assert(full_ref_name@ == target_spec);
                    proof {
                        lemma_first_direct_tip_push(refs@, target_spec, i as int);
                        let s = refs@.skip(i as int);
                        assert(s[0] == refs@[i as int]);
                        assert(refs@[i as int] matches RemoteRef::Direct { full_ref_name: f, object: o }
                            && f == *full_ref_name && o == *object);
                        assert(s[0].is_direct_named(target_spec));
                        assert(first_direct_tip(s, target_spec) == Some(s[0]->Direct_object@));
                    }
                    if object.eq(current_id) {
                        return Ok(FetchResult::UpToDate);
                    } else {
                        return Ok(FetchResult::OutOfDate {
                            remote_commit_id: object.duplicate(),
                        });
                    }
                }
            },
            RemoteRef::Other => {},
        }
        i += 1;
    }
    proof {
        lemma_first_direct_tip_push(refs@, target_spec, n as int);
    }
    Err(FetchError::FetchRemoteMissing)
}

} // verus!
