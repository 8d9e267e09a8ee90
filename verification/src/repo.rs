//! The `owner/repo` pair that locates a repository, and the validation of the
//! command-line argument it is parsed from.

use vstd::prelude::*;

verus! {

/// The two-part identifier locating a repository on the hosting platform.
#[derive(Debug, PartialEq, Eq)]
pub struct RepoId {
    pub owner: String,
    pub repo: String,
}

impl RepoId {
    /// Both parts are non-empty and neither contains the `/` separator, so
    /// the pair can be written back as `owner/repo` unambiguously.
    pub open spec fn wf(self) -> bool {
        &&& self.owner@.len() > 0
        &&& self.repo@.len() > 0
        &&& forall|i: int| 0 <= i < self.owner@.len() ==> self.owner@[i] != '/'
        &&& forall|i: int| 0 <= i < self.repo@.len() ==> self.repo@[i] != '/'
    }
}

/// `i` points at the only `/` in `s`.
pub open spec fn is_sole_slash(s: Seq<char>, i: int) -> bool {
    &&& 0 <= i < s.len()
    &&& s[i] == '/'
    &&& forall|j: int| 0 <= j < s.len() && j != i ==> s[j] != '/'
}

/// A command-line argument is a well-formed `owner/repo` pair when it holds
/// exactly one `/`, with a non-empty owner before it and a non-empty
/// repository name after it.
pub open spec fn valid_repo_arg(s: Seq<char>) -> bool {
    exists|i: int| is_sole_slash(s, i) && 0 < i < s.len() - 1
}

/// The reason an `owner/repo` argument was rejected.
#[derive(Clone, Copy, Debug, PartialEq, Eq, Structural)]
pub enum ArgError {
    /// The argument does not split as `owner/repo` around exactly one `/`
    /// with both parts non-empty.
    MalformedRepo,
}

/// Splits a command-line argument of the form `owner/repo` at its only `/`.
/// Exactly the well-formed arguments are accepted; every other string is
/// reported as a malformed-argument error rather than a panic.
pub fn parse_repo_arg(arg: &str) -> (r: Result<RepoId, ArgError>)
    ensures
        match r {
            Ok(id) => {
                &&& valid_repo_arg(arg@)
                &&& id.wf()
                &&& is_sole_slash(arg@, id.owner@.len() as int)
                &&& id.owner@ == arg@.subrange(0, id.owner@.len() as int)
                &&& id.repo@ == arg@.subrange(id.owner@.len() + 1 as int, arg@.len() as int)
            },
            Err(e) => !valid_repo_arg(arg@) && e == ArgError::MalformedRepo,
        },
{
    let n = arg.unicode_len();
    let mut i: usize = 0;
    let mut slash_count: usize = 0;
    let mut slash_pos: usize = 0;
    while i < n
        invariant
            n == arg@.len(),
            i <= n,
            slash_count <= 2,
            slash_count == 0 ==> forall|j: int| 0 <= j < i ==> arg@[j] != '/',
            slash_count == 1 ==> {
                &&& slash_pos < i
                &&& arg@[slash_pos as int] == '/'
                &&& forall|j: int| 0 <= j < i && j != slash_pos ==> arg@[j] != '/'
            },
            slash_count == 2 ==> !valid_repo_arg(arg@),
        decreases n - i,
    {
        if arg.get_char(i) == '/' {
            if slash_count == 0 {
                slash_pos = i;
                slash_count = 1;
            } else if slash_count == 1 {
                proof {
                    // A second slash refutes every sole-slash candidate.
                    assert forall|k: int| !is_sole_slash(arg@, k) by {
                        if is_sole_slash(arg@, k) {
                            if k == slash_pos {
                                assert(arg@[i as int] != '/');
                            } else {
                                assert(arg@[slash_pos as int] != '/');
                            }
                        }
                    }
                }
                slash_count = 2;
            }
        }
        i += 1;
    }
    if slash_count == 1 && slash_pos > 0 && slash_pos + 1 < n {
        let owner = arg.substring_char(0, slash_pos).to_owned();
        let repo = arg.substring_char(slash_pos + 1, n).to_owned();
        proof {
            assert(is_sole_slash(arg@, slash_pos as int));
            assert forall|j: int| 0 <= j < owner@.len() implies owner@[j] != '/' by {
                assert(owner@[j] == arg@[j]);
            }
            assert forall|j: int| 0 <= j < repo@.len() implies repo@[j] != '/' by {
                assert(repo@[j] == arg@[j + slash_pos + 1]);
            }
        }
        Ok(RepoId { owner, repo })
    } else {
        proof {
            assert forall|k: int| !(is_sole_slash(arg@, k) && 0 < k < arg@.len() - 1) by {
                if is_sole_slash(arg@, k) && 0 < k < arg@.len() - 1 {
                    if slash_count == 0 {
                        assert(arg@[k] != '/');
                    } else if slash_count == 1 && k != slash_pos {
                        // The sole candidate is the slash the scan found,
                        // and it sits at an end of the argument.
                        assert(arg@[k] != '/');
                    }
                }
            }
        }
        Err(ArgError::MalformedRepo)
    }
}

/// A law of input validation: an argument with no `/` separator at all is
/// never a well-formed `owner/repo` pair, so `parse_repo_arg` reports a
/// malformed-argument error on every such string.
pub proof fn lemma_missing_slash_rejected(s: Seq<char>)
    requires
        forall|i: int| 0 <= i < s.len() ==> s[i] != '/',
    ensures
        !valid_repo_arg(s),
{
    assert forall|k: int| !is_sole_slash(s, k) by {
        if 0 <= k < s.len() {
            assert(s[k] != '/');
        }
    }
}

} // verus!
