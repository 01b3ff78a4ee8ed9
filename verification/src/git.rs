use vstd::prelude::*;
use vstd::string::*;

verus! {

/// Errors of the repository access layer. The concrete git implementation
/// reports its failures through these variants; they carry no payload so the
/// poll logic can match on them exhaustively.
#[derive(Debug, Clone, PartialEq, Eq)]
pub enum GitError {
    RepositoryNotFound,
    RepositoryHeadMissing,
    RepositoryHeadDetached,
    RepositoryHeadUninitialized,
    RepositoryReferenceError,
    RepositoryRemoteNotFound,
    RepositoryRemoteInvalid,
    RepositoryDefaultRemoteNotConfigured,
    RepositoryDefaultRemoteMissing,
    FetchConnect,
    FetchHandshake,
    FetchReceive,
}

/// A commit identifier: an opaque fixed-size content hash. Two identifiers
/// are equal exactly when they denote the same commit; no other ordering is
/// defined or required.
#[derive(Debug, Clone)]
pub struct CommitId {
    bytes: Vec<u8>,
}

impl CommitId {
    /// The number of bytes in a commit identifier.
    pub open spec fn id_len() -> nat {
        20
    }

    pub closed spec fn view(&self) -> Seq<u8> {
        self.bytes@
    }

    /// A commit identifier is well formed when it holds exactly the fixed
    /// number of hash bytes.
    pub open spec fn wf(&self) -> bool {
        self@.len() == Self::id_len()
    }

    pub fn new(bytes: Vec<u8>) -> (r: Option<CommitId>)
        ensures
            bytes@.len() == Self::id_len() ==> (r matches Some(id) && id@ == bytes@ && id.wf()),
            bytes@.len() != Self::id_len() ==> r is None,
    {
        if bytes.len() == 20 {
            Some(CommitId { bytes })
        } else {
            None
        }
    }

    pub fn as_bytes(&self) -> (r: &Vec<u8>)
        ensures
            r@ == self@,
    {
        &self.bytes
    }

    /// An owned copy denoting the same commit.
    pub fn duplicate(&self) -> (r: CommitId)
        ensures
            r@ == self@,
    {
        CommitId { bytes: vstd::slice::slice_to_vec(self.bytes.as_slice()) }
    }
}

impl PartialEq for CommitId {
    fn eq(&self, other: &CommitId) -> (r: bool)
        ensures
            r == (self@ == other@),
    {
        if self.bytes.len() != other.bytes.len() {
            assert(self@ != other@);
            return false;
        }
        let n = self.bytes.len();
        let mut i: usize = 0;
        while i < n
            invariant
                n == self.bytes@.len() == other.bytes@.len(),
                i <= n,
                forall|j: int| 0 <= j < i ==> self.bytes@[j] == other.bytes@[j],
            decreases n - i,
        {
            if self.bytes[i] != other.bytes[i] {
                return false;
            }
            i += 1;
        }
        assert(self@ =~= other@);
        true
    }
}

impl Eq for CommitId {

}

impl vstd::std_specs::cmp::PartialEqSpecImpl for CommitId {
    open spec fn obeys_eq_spec() -> bool {
        true
    }

    open spec fn eq_spec(&self, other: &CommitId) -> bool {
        self@ == other@
    }
}

/// A branch reference: a name together with a locality tag. A remote branch
/// reference always originates from a local branch's configured upstream.
#[derive(Debug, Clone, PartialEq, Eq)]
pub enum Branch {
    Local(String),
    Remote(String),
}

impl Branch {
    /// The branch name without its locality qualification.
    pub open spec fn name_spec(&self) -> Seq<char> {
        match self {
            Branch::Local(name) => name@,
            Branch::Remote(name) => name@,
        }
    }

    pub open spec fn is_local(&self) -> bool {
        self is Local
    }

    pub fn short_name(&self) -> (r: &str)
        ensures
            r@ == self.name_spec(),
    {
        match self {
            Branch::Local(name) => name.as_str(),
            Branch::Remote(name) => name.as_str(),
        }
    }

    pub fn as_reference(&self) -> (r: Reference<'_>)
        ensures
            r.name_spec() == self.name_spec(),
            r is Local <==> self is Local,
    {
        match self {
            Branch::Local(name) => Reference::Local(name.as_str()),
            Branch::Remote(name) => Reference::Remote(name.as_str()),
        }
    }
}

/// A borrowed view of a branch reference, used to derive qualified names.
#[derive(Debug, Clone)]
pub enum Reference<'a> {
    Local(&'a str),
    Remote(&'a str),
}

impl<'a> Reference<'a> {
    pub open spec fn name_spec(&self) -> Seq<char> {
        match self {
            Reference::Local(name) => name@,
            Reference::Remote(name) => name@,
        }
    }

    /// The fully qualified name this reference resolves to: local branches
    /// live under `refs/heads/`, remote-tracking ones under `refs/remotes/`.
    pub open spec fn full_name_spec(&self) -> Seq<char> {
        match self {
            Reference::Local(name) => "refs/heads/"@ + name@,
            Reference::Remote(name) => "refs/remotes/"@ + name@,
        }
    }

    pub fn short_name(&self) -> (r: &str)
        ensures
            r@ == self.name_spec(),
    {
        match self {
            Reference::Local(name) => name,
            Reference::Remote(name) => name,
        }
    }

    pub fn full_name(&self) -> (r: String)
        ensures
            r@ == self.full_name_spec(),
    {
        match self {
            Reference::Local(name) => {
                let mut s = String::from_str("refs/heads/");
                s.append(name);
                s
            },
            Reference::Remote(name) => {
                let mut s = String::from_str("refs/remotes/");
                s.append(name);
                s
            },
        }
    }

    /// Strips remote qualification: the name interpreted as a local branch,
    /// as it appears on the far side of a fetch.
    pub fn local(self) -> (r: Self)
        ensures
            r is Local,
            r.name_spec() == self.name_spec(),
    {
        match self {
            Reference::Local(name) => Reference::Local(name),
            Reference::Remote(name) => Reference::Local(name),
        }
    }
}

} // verus!
