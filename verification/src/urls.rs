//! Construction of the release URLs: the "latest release" endpoint, the
//! binary-root directory path, and the download URL in which every "tag"
//! path segment is rewritten to "download".

use vstd::prelude::*;
use vstd::string::{StrSliceExecFns, StringExecFns};

verus! {

/// The characters of the pattern that a release-page URL carries.
pub open spec fn tag_pattern() -> Seq<char> {
    seq!['t', 'a', 'g']
}

/// The characters that replace each occurrence of the pattern.
pub open spec fn download_segment() -> Seq<char> {
    seq!['d', 'o', 'w', 'n', 'l', 'o', 'a', 'd']
}

/// Leftmost, non-overlapping replacement of every occurrence of "tag"
/// by "download" in a character sequence.
pub open spec fn replace_tag(s: Seq<char>) -> Seq<char>
    decreases s.len(),
{
    if s.len() >= 3 && s.subrange(0, 3) =~= tag_pattern() {
        download_segment() + replace_tag(s.skip(3))
    } else if s.len() == 0 {
        Seq::<char>::empty()
    } else {
        seq![s[0]] + replace_tag(s.skip(1))
    }
}

/// Rewrites every occurrence of "tag" in `s` to "download", scanning left
/// to right without overlapping matches.
pub fn rewrite_tag_segments(s: &str) -> (r: String)
    ensures
        r@ == replace_tag(s@),
{
    let n: usize = s.unicode_len();
    let mut out = String::new();
    let mut i: usize = 0;
    proof {
        assert(s@.skip(0) =~= s@);
        assert(out@ + replace_tag(s@) =~= replace_tag(s@));
    }
    while i < n
        invariant
            i <= n,
            n == s@.len(),
            replace_tag(s@) == out@ + replace_tag(s@.skip(i as int)),
        decreases n - i,
    {
        let ghost rest = s@.skip(i as int);
        if n - i >= 3 && s.get_char(i) == 't' && s.get_char(i + 1) == 'a' && s.get_char(i + 2)
            == 'g' {
            proof {
                assert(rest.subrange(0, 3) =~= tag_pattern());
                assert(rest.skip(3) =~= s@.skip(i + 3));
                reveal_strlit("download");
                assert("download"@ =~= download_segment());
            }
            out.append("download");
            i = i + 3;
        } else {
            proof {
                if rest.len() >= 3 && rest.subrange(0, 3) =~= tag_pattern() {
                    assert(s@[i as int] == 't' && s@[i + 1] == 'a' && s@[i + 2] == 'g');
                }
                assert(rest.skip(1) =~= s@.skip(i + 1));
                assert(seq![rest[0]] =~= s@.subrange(i as int, i + 1));
            }
            let piece = s.substring_char(i, i + 1);
            out.append(piece);
            i = i + 1;
        }
    }
    proof {
        assert(s@.skip(n as int) =~= Seq::<char>::empty());
        assert(out@ =~= replace_tag(s@));
    }
    out
}

/// The directory that holds the cached binaries: the base directory with
/// "/bin" appended.
pub fn find_binary_root(base: &str) -> (r: String)
    ensures
        r@ == base@ + "/bin"@,
{
    let mut root = base.to_owned();
    root.append("/bin");
    root
}

/// The "latest release" endpoint of a repository: the repository URL with
/// "/releases/latest" appended.
pub fn latest_release_endpoint(repo: &str) -> (r: String)
    ensures
        r@ == repo@ + "/releases/latest"@,
{
    let mut url = repo.to_owned();
    url.append("/releases/latest");
    url
}

/// The address from which the release asset is fetched: the resolved
/// release URL joined with the binary name, with every "tag" segment
/// rewritten to "download".
pub fn build_download_url(resolved: &str, binary_name: &str) -> (r: String)
    ensures
        r@ == replace_tag(resolved@ + "/"@ + binary_name@),
{
    let mut joined = resolved.to_owned();
    joined.append("/");
    joined.append(binary_name);
    rewrite_tag_segments(joined.as_str())
}

} // verus!
