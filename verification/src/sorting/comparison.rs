use vstd::prelude::*;
use crate::text::{str_eq, to_lower_ascii};

verus! {

/// The hash algorithms a comparer can be configured with; `NoHash` treats
/// size-equal files as non-matching without reading their contents.
#[derive(Debug, Clone, Copy, PartialEq, Eq, Structural)]
pub enum HashAlgorithm {
    MD5,
    SHA256,
    NoHash,
}

/// The algorithm named by a keyword, ignoring its case; anything unknown
/// selects `NoHash`.
pub open spec fn algorithm_of(s: Seq<char>) -> HashAlgorithm {
    let l = crate::text::lower_ascii(s);
    if l == "md5"@ {
        HashAlgorithm::MD5
    } else if l == "sha256"@ {
        HashAlgorithm::SHA256
    } else {
        HashAlgorithm::NoHash
    }
}

impl HashAlgorithm {
    /// Reads an algorithm keyword, ignoring its case.
    pub fn parse(s: &str) -> (r: HashAlgorithm)
        ensures
            r == algorithm_of(s@),
    {
        let lower = to_lower_ascii(s);
        if str_eq(lower.as_str(), "md5") {
            HashAlgorithm::MD5
        } else if str_eq(lower.as_str(), "sha256") {
            HashAlgorithm::SHA256
        } else {
            HashAlgorithm::NoHash
        }
    }

    /// The recognised algorithm keywords.
    pub fn names() -> (r: Vec<&'static str>)
        ensures
            r@.len() == 3,
            r@[0]@ == "md5"@,
            r@[1]@ == "sha256"@,
            r@[2]@ == "none"@,
    {
        let mut names: Vec<&'static str> = Vec::new();
        names.push("md5");
        names.push("sha256");
        names.push("none");
        names
    }
}

/// Which of the two files being compared caused an error.
#[derive(Debug, Clone, Copy, PartialEq, Eq, Structural)]
pub enum Cause {
    Source,
    Target,
    NA,
}

/// The ways a file comparison can fail.
#[derive(Debug, Clone)]
pub enum ComparisonErr {
    AccessDenied(Cause),
    InvalidFile(Cause),
    Metadata(Cause),
    Other(Cause, Option<String>),
}

impl ComparisonErr {
    pub fn other<T>(c: Cause) -> (r: Result<T, ComparisonErr>)
        ensures
            r matches Err(e) && e matches ComparisonErr::Other(c2, m) && c2 == c && m is None,
    {
        Result::Err(ComparisonErr::Other(c, Option::None))
    }

    pub fn other_msg<T>(c: Cause, msg: String) -> (r: Result<T, ComparisonErr>)
        ensures
            r matches Err(e) && e matches ComparisonErr::Other(c2, m) && c2 == c && (m
                matches Some(s) && s@ == msg@),
    {
        Result::Err(ComparisonErr::Other(c, Option::Some(msg)))
    }

    pub fn metadata<T>(c: Cause) -> (r: Result<T, ComparisonErr>)
        ensures
            r matches Err(e) && e matches ComparisonErr::Metadata(c2) && c2 == c,
    {
        Result::Err(ComparisonErr::Metadata(c))
    }

    pub fn invalid_file<T>(c: Cause) -> (r: Result<T, ComparisonErr>)
        ensures
            r matches Err(e) && e matches ComparisonErr::InvalidFile(c2) && c2 == c,
    {
        Result::Err(ComparisonErr::InvalidFile(c))
    }

    pub fn access_denied<T>(c: Cause) -> (r: Result<T, ComparisonErr>)
        ensures
            r matches Err(e) && e matches ComparisonErr::AccessDenied(c2) && c2 == c,
    {
        Result::Err(ComparisonErr::AccessDenied(c))
    }
}

/// The MD5 digest of a byte sequence.
pub uninterp spec fn md5_of(data: Seq<u8>) -> Seq<u8>;

/// The SHA-256 digest of a byte sequence.
pub uninterp spec fn sha256_of(data: Seq<u8>) -> Seq<u8>;

/// Relies on the `md5` hasher (`Digest::new`, `update`, `finalize`): the MD5
/// digest of the bytes, sixteen bytes long, a function of the bytes alone.
#[verifier::external_body]
fn md5_digest(data: &[u8]) -> (r: Vec<u8>)
    ensures
        r@ == md5_of(data@),
        r@.len() == 16,
{
    let mut h: md5::Md5 = md5::Digest::new();
    md5::Digest::update(&mut h, data);
    md5::Digest::finalize(h).as_slice().to_vec()
}

/// Relies on the `sha2` hasher (`Digest::new`, `update`, `finalize`): the
/// SHA-256 digest of the bytes, thirty-two bytes long, a function of the
/// bytes alone.
#[verifier::external_body]
fn sha256_digest(data: &[u8]) -> (r: Vec<u8>)
    ensures
        r@ == sha256_of(data@),
        r@.len() == 32,
{
    let mut h: sha2::Sha256 = sha2::digest::Digest::new();
    sha2::digest::Digest::update(&mut h, data);
    sha2::digest::Digest::finalize(h).as_slice().to_vec()
}

/// Byte-wise equality of two byte vectors.
pub fn bytes_eq(a: &Vec<u8>, b: &Vec<u8>) -> (r: bool)
    ensures
        r == (a@ == b@),
{
    if a.len() != b.len() {
        return false;
    }
    let mut i: usize = 0;
    while i < a.len()
        invariant
            a@.len() == b@.len(),
            i <= a@.len(),
            forall|j: int| 0 <= j < i ==> a@[j] == b@[j],
        decreases a@.len() - i,
    {
        if a[i] != b[i] {
            return false;
        }
        i += 1;
    }
    proof {
        assert(a@ =~= b@);
    }
    true
}

/// Whether two files' contents count as matching under an algorithm: equal
/// length, and equal digests — `NoHash` never matches.
pub open spec fn files_match(algo: HashAlgorithm, s: Seq<u8>, t: Seq<u8>) -> bool {
    s.len() == t.len() && match algo {
        HashAlgorithm::MD5 => md5_of(s) == md5_of(t),
        HashAlgorithm::SHA256 => sha256_of(s) == sha256_of(t),
        HashAlgorithm::NoHash => false,
    }
}

/// Compares file contents by size and configured digest.
#[derive(Debug, Clone, Copy)]
pub struct FileComparer {
    pub ignore_zero_target: bool,
    pub hash_algo: HashAlgorithm,
}

impl FileComparer {
    /// A comparer that hashes with SHA-256.
    pub fn default() -> (r: FileComparer)
        ensures
            r.ignore_zero_target == false,
            r.hash_algo == HashAlgorithm::SHA256,
    {
        Self::new(false, HashAlgorithm::SHA256)
    }

    pub fn new(ignore_zero_target: bool, hash_algo: HashAlgorithm) -> (r: FileComparer)
        ensures
            r.ignore_zero_target == ignore_zero_target,
            r.hash_algo == hash_algo,
    {
        FileComparer { ignore_zero_target, hash_algo }
    }

    /// The digest of a byte vector under an algorithm; `NoHash` yields none.
    pub fn hash(algo: &HashAlgorithm, data: &Vec<u8>) -> (r: Option<Vec<u8>>)
        ensures
            *algo == HashAlgorithm::MD5 ==> (r matches Some(d) && d@ == md5_of(data@)),
            *algo == HashAlgorithm::SHA256 ==> (r matches Some(d) && d@ == sha256_of(data@)),
            *algo == HashAlgorithm::NoHash ==> r is None,
    {
        match algo {
            HashAlgorithm::MD5 => Option::Some(md5_digest(data.as_slice())),
            HashAlgorithm::SHA256 => Option::Some(sha256_digest(data.as_slice())),
            HashAlgorithm::NoHash => Option::None,
        }
    }

    /// Whether two files' contents match: a size difference is a cheap
    /// reject, equal sizes are settled by the configured digest.
    pub fn check_files_matching(&self, src: &Vec<u8>, target: &Vec<u8>) -> (r: bool)
        ensures
            r == files_match(self.hash_algo, src@, target@),
    {
        if src.len() != target.len() {
            return false;
        }
        match self.hash_algo {
            HashAlgorithm::MD5 => {
                let a = md5_digest(src.as_slice());
                let b = md5_digest(target.as_slice());
                bytes_eq(&a, &b)
            },
            HashAlgorithm::SHA256 => {
                let a = sha256_digest(src.as_slice());
                let b = sha256_digest(target.as_slice());
                bytes_eq(&a, &b)
            },
            HashAlgorithm::NoHash => false,
        }
    }
}

} // verus!
