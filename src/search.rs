use vstd::prelude::*;
use vstd::string::StringSliceAdditionalSpecFns;

verus! {

/// The UTF-8 bytes of the lowercase form of the text whose UTF-8 bytes are `s`.
pub uninterp spec fn lower_of(s: Seq<u8>) -> Seq<u8>;

/// Relies on `str::to_lowercase`: the lowercase form depends on the text alone.
#[verifier::external_body]
fn lowercase_bytes(s: &str) -> (r: Vec<u8>)
    ensures
        r@ == lower_of(s.spec_bytes()),
{
    s.to_lowercase().into_bytes()
}

/// Whether `needle` occurs in `hay` as a contiguous run of bytes.
pub open spec fn contains_bytes(hay: Seq<u8>, needle: Seq<u8>) -> bool {
    exists|i: int| 0 <= i <= hay.len() - needle.len() && #[trigger] hay.subrange(i, i + needle.len())
        == needle
}

/// Whether the already lowercased `query` occurs in the already lowercased `name`.
pub fn matches_folded(query: &[u8], name: &[u8]) -> (r: bool)
    ensures
        r == contains_bytes(name@, query@),
{
    let n = name.len();
    let m = query.len();
    if m > n {
        return false;
    }
    let mut i: usize = 0;
    while i <= n - m
        invariant
            n == name@.len(),
            m == query@.len(),
            m <= n,
            i <= n - m + 1,
            forall|k: int| 0 <= k < i ==> #[trigger] name@.subrange(k, k + m) != query@,
        decreases n - m + 1 - i,
    {
        let mut j: usize = 0;
        while j < m && name[i + j] == query[j]
            invariant
                n == name@.len(),
                m == query@.len(),
                i + m <= n,
                j <= m,
                forall|t: int| 0 <= t < j ==> name@[i + t] == query@[t],
            decreases m - j,
        {
            j = j + 1;
        }
        if j == m {
            assert(name@.subrange(i as int, i + m) =~= query@);
            return true;
        }
        assert(name@.subrange(i as int, i + m)[j as int] != query@[j as int]);
        i = i + 1;
    }
    false
}

/// Whether a process named `name` is listed under the search text `search`: an empty
/// search lists every process, any other one those whose name contains it, ignoring case.
pub fn process_matches_search(search: &str, name: &str) -> (r: bool)
    ensures
        search@.len() == 0 ==> r,
        search@.len() > 0 ==> r == contains_bytes(
            lower_of(name.spec_bytes()),
            lower_of(search.spec_bytes()),
        ),
{
    if search.is_empty() {
        return true;
    }
    let query = lowercase_bytes(search);
    let folded = lowercase_bytes(name);
    matches_folded(query.as_slice(), folded.as_slice())
}

} // verus!
