//! Whether two files hold the same bytes, decided in two stages around the
//! reads: first by their sizes, then, when the sizes agree, by their bytes.

use vstd::prelude::*;

verus! {

/// The verdict from the sizes alone: `Some(false)` (the files differ) when
/// the sizes differ, else `None` (the bytes must be compared).
pub open spec fn size_verdict_spec(len1: u64, len2: u64) -> Option<bool> {
    if len1 != len2 {
        Some(false)
    } else {
        None
    }
}

/// Decides from the sizes of two files whether their bytes must be read.
pub fn size_verdict(len1: u64, len2: u64) -> (res: Option<bool>)
    ensures
        res == size_verdict_spec(len1, len2),
{
    if len1 != len2 {
        Some(false)
    } else {
        None
    }
}

/// The bytes agree position by position as far as both go (the reads are
/// paired, and pairing stops with the shorter file).
pub open spec fn bytes_agree(bytes1: Seq<u8>, bytes2: Seq<u8>) -> bool {
    forall|i: int| 0 <= i < bytes1.len() && i < bytes2.len() ==> bytes1[i] == bytes2[i]
}

/// Whether the bytes of two files of the same size agree.
pub fn bytes_verdict(bytes1: &[u8], bytes2: &[u8]) -> (res: bool)
    ensures
        res == bytes_agree(bytes1@, bytes2@),
{
    let n = if bytes1.len() < bytes2.len() {
        bytes1.len()
    } else {
        bytes2.len()
    };
    let mut i: usize = 0;
    while i < n
        invariant
            n <= bytes1.len(),
            n <= bytes2.len(),
            n == bytes1.len() || n == bytes2.len(),
            i <= n,
            forall|k: int| 0 <= k < i ==> bytes1@[k] == bytes2@[k],
        decreases n - i,
    {
        if bytes1[i] != bytes2[i] {
            return false;
        }
        i = i + 1;
    }
    true
}

/// The two files are the same: equal sizes and agreeing bytes.
pub open spec fn same_file_spec(len1: u64, len2: u64, bytes1: Seq<u8>, bytes2: Seq<u8>) -> bool {
    len1 == len2 && bytes_agree(bytes1, bytes2)
}

/// Files whose sizes and bytes are equal are the same; files of different
/// sizes are never the same, whatever their bytes.
pub proof fn lemma_same_file(len1: u64, len2: u64, bytes1: Seq<u8>, bytes2: Seq<u8>)
    ensures
        bytes1 == bytes2 && len1 == len2 ==> same_file_spec(len1, len2, bytes1, bytes2),
        len1 != len2 ==> !same_file_spec(len1, len2, bytes1, bytes2),
        size_verdict_spec(len1, len2) matches Some(v) ==> v == same_file_spec(
            len1,
            len2,
            bytes1,
            bytes2,
        ),
        size_verdict_spec(len1, len2) is None ==> bytes_agree(bytes1, bytes2) == same_file_spec(
            len1,
            len2,
            bytes1,
            bytes2,
        ),
{
}

} // verus!
