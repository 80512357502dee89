//! The artifact cache: a model of the binary-root directory, keyed by the
//! fingerprint of each download URL. `ensure` records the effect of one
//! cache visit: a missing artifact is installed from freshly fetched bytes,
//! a present one is left as it is, and in either case the artifact's
//! permission bits become owner-read/write/execute only. The actual disk
//! and network traffic is unverified plumbing that mirrors these steps.

use vstd::prelude::*;
use vstd::pervasive::VecAdditionalExecFns;
use vstd::string::{StrSliceExecFns, StringExecFns};
use crate::fingerprint::{fingerprint, fingerprint_of};

verus! {

/// Owner-read/write/execute-only permission bits.
pub const OWNER_RWX: u32 = 0o700;

/// One cached artifact: the fingerprint it is filed under, its bytes, and
/// its permission bits.
pub struct Artifact {
    pub fingerprint: String,
    pub contents: Vec<u8>,
    pub mode: u32,
}

/// The binary-root directory: a flat collection of artifacts, at most one
/// per fingerprint.
pub struct ArtifactStore {
    pub root: String,
    pub entries: Vec<Artifact>,
}

/// The path under which a download URL's artifact is cached: the binary
/// root joined with the URL's fingerprint.
pub open spec fn cached_path_of(root: Seq<char>, url: Seq<char>) -> Seq<char> {
    root + "/"@ + fingerprint_of(url)
}

/// Computes the cache path of a download URL under a binary root.
pub fn cached_path(root: &str, url: &str) -> (r: String)
    ensures
        r@ == cached_path_of(root@, url@),
{
    let fp = fingerprint(url);
    let mut p = root.to_owned();
    p.append("/");
    p.append(fp.as_str());
    p
}

impl ArtifactStore {
    /// At most one artifact per fingerprint.
    pub open spec fn wf(self) -> bool {
        forall|i: int, j: int|
            0 <= i < self.entries@.len() && 0 <= j < self.entries@.len() && i != j ==> (
            #[trigger] self.entries@[i].fingerprint@) != (#[trigger] self.entries@[j].fingerprint@)
    }

    /// Whether an artifact is filed under this fingerprint.
    pub open spec fn contains_fp(self, fp: Seq<char>) -> bool {
        exists|i: int|
            0 <= i < self.entries@.len() && (#[trigger] self.entries@[i].fingerprint@) == fp
    }

    /// The position of the artifact filed under this fingerprint.
    pub open spec fn entry_index(self, fp: Seq<char>) -> int {
        choose|i: int|
            0 <= i < self.entries@.len() && (#[trigger] self.entries@[i].fingerprint@) == fp
    }

    /// The bytes of the artifact filed under this fingerprint.
    pub open spec fn contents_of(self, fp: Seq<char>) -> Seq<u8> {
        self.entries@[self.entry_index(fp)].contents@
    }

    /// The permission bits of the artifact filed under this fingerprint.
    pub open spec fn mode_of(self, fp: Seq<char>) -> u32 {
        self.entries@[self.entry_index(fp)].mode
    }

    /// In a well-formed store, any position holding a fingerprint is the
    /// position that the spec functions read.
    pub proof fn lemma_index_unique(self, fp: Seq<char>, i: int)
        requires
            self.wf(),
            0 <= i < self.entries@.len(),
            self.entries@[i].fingerprint@ == fp,
        ensures
            self.contains_fp(fp),
            self.entry_index(fp) == i,
    {
        assert(self.contains_fp(fp));
        let j = self.entry_index(fp);
        assert(0 <= j < self.entries@.len() && self.entries@[j].fingerprint@ == fp);
    }

    /// An empty store rooted at the given directory.
    pub fn new(root: String) -> (s: Self)
        ensures
            s.wf(),
            s.root@ == root@,
            s.entries@.len() == 0,
            forall|fp: Seq<char>| !(#[trigger] s.contains_fp(fp)),
    {
        ArtifactStore { root, entries: Vec::new() }
    }

    /// Finds the position of the artifact filed under a fingerprint.
    fn lookup(&self, fp: &String) -> (r: Option<usize>)
        ensures
            r matches Some(i) ==> 0 <= i < self.entries@.len()
                && self.entries@[i as int].fingerprint@ == fp@,
            r is None ==> !self.contains_fp(fp@),
    {
        let n = self.entries.len();
        let mut k: usize = 0;
        while k < n
            invariant
                k <= n,
                n == self.entries@.len(),
                forall|j: int| 0 <= j < k ==> (#[trigger] self.entries@[j].fingerprint@) != fp@,
            decreases n - k,
        {
            if self.entries[k].fingerprint == *fp {
                return Some(k);
            }
            k = k + 1;
        }
        None
    }

    /// Files a new artifact under a fingerprint not yet present.
    fn insert_entry(&mut self, fingerprint: String, contents: Vec<u8>, mode: u32)
        requires
            old(self).wf(),
            !old(self).contains_fp(fingerprint@),
        ensures
            final(self).wf(),
            final(self).root@ == old(self).root@,
            final(self).contains_fp(fingerprint@),
            final(self).contents_of(fingerprint@) == contents@,
            final(self).mode_of(fingerprint@) == mode,
            forall|other: Seq<char>|
                other != fingerprint@ ==> #[trigger] final(self).contains_fp(other) == old(self).contains_fp(other),
            forall|other: Seq<char>|
                other != fingerprint@ && #[trigger] old(self).contains_fp(other) ==> final(self).contents_of(other) == old(self).contents_of(other) && final(self).mode_of(other)
                    == old(self).mode_of(other),
    {
        let ghost fp_spec = fingerprint@;
        let ghost contents_view = contents@;
        let entry = Artifact { fingerprint, contents, mode };
        self.entries.push(entry);
        proof {
            let pre = *old(self);
            let post = *self;
            let n = pre.entries@.len() as int;
            assert(post.entries@[n].fingerprint@ == fp_spec);
            assert forall|i: int, j: int|
                0 <= i < post.entries@.len() && 0 <= j < post.entries@.len() && i != j implies (
            #[trigger] post.entries@[i].fingerprint@) != (
            #[trigger] post.entries@[j].fingerprint@) by {
                if i < n && j < n {
                    assert(pre.entries@[i].fingerprint@ != pre.entries@[j].fingerprint@);
                } else if i == n {
                    assert(pre.entries@[j].fingerprint@ != fp_spec);
                } else {
                    assert(pre.entries@[i].fingerprint@ != fp_spec);
                }
            }
            post.lemma_index_unique(fp_spec, n);
            assert(post.contents_of(fp_spec) =~= contents_view);
            assert forall|other: Seq<char>| other != fp_spec implies #[trigger] post.contains_fp(
                other,
            ) == pre.contains_fp(other) by {
                if pre.contains_fp(other) {
                    let j = pre.entry_index(other);
                    assert(post.entries@[j].fingerprint@ == other);
                }
                if post.contains_fp(other) {
                    let j = post.entry_index(other);
                    assert(j != n);
                    assert(pre.entries@[j].fingerprint@ == other);
                }
            }
            assert forall|other: Seq<char>|
                other != fp_spec && #[trigger] pre.contains_fp(other) implies post.contents_of(
                other,
            ) == pre.contents_of(other) && post.mode_of(other) == pre.mode_of(other) by {
                let j = pre.entry_index(other);
                pre.lemma_index_unique(other, j);
                post.lemma_index_unique(other, j);
            }
        }
    }

    /// Records an artifact found already on disk, under whatever permission
    /// bits and bytes an earlier run left it with. Nothing changes when the
    /// fingerprint is already filed; whether the artifact was recorded is
    /// returned.
    pub fn record_existing(&mut self, fingerprint: String, contents: Vec<u8>, mode: u32) -> (added:
        bool)
        requires
            old(self).wf(),
        ensures
            final(self).wf(),
            final(self).root@ == old(self).root@,
            added <==> !old(self).contains_fp(fingerprint@),
            added ==> final(self).contains_fp(fingerprint@) && final(self).contents_of(
                fingerprint@,
            ) == contents@ && final(self).mode_of(fingerprint@) == mode,
            added ==> forall|other: Seq<char>|
                other != fingerprint@ ==> #[trigger] final(self).contains_fp(other) == old(self).contains_fp(other),
            added ==> forall|other: Seq<char>|
                other != fingerprint@ && #[trigger] old(self).contains_fp(other) ==> final(self).contents_of(other) == old(self).contents_of(other) && final(self).mode_of(other)
                    == old(self).mode_of(other),
            !added ==> *final(self) == *old(self),
    {
        match self.lookup(&fingerprint) {
            Some(i) => {
                proof {
                    self.lemma_index_unique(fingerprint@, i as int);
                }
                false
            },
            None => {
                self.insert_entry(fingerprint, contents, mode);
                true
            },
        }
    }

    /// The artifact filed under a download URL's fingerprint, if any.
    pub fn artifact(&self, url: &String) -> (r: Option<&Artifact>)
        requires
            self.wf(),
        ensures
            r is Some <==> self.contains_fp(fingerprint_of(url@)),
            r matches Some(a) ==> a.fingerprint@ == fingerprint_of(url@) && a.contents@
                == self.contents_of(fingerprint_of(url@)) && a.mode == self.mode_of(
                fingerprint_of(url@),
            ),
    {
        let fp = fingerprint(url.as_str());
        match self.lookup(&fp) {
            Some(i) => {
                proof {
                    self.lemma_index_unique(fp@, i as int);
                }
                Some(&self.entries[i])
            },
            None => None,
        }
    }

    /// Whether ensuring this URL's artifact requires a network fetch:
    /// true exactly when no artifact is filed under the URL's fingerprint.
    pub fn needs_fetch(&self, url: &String) -> (b: bool)
        ensures
            b == !self.contains_fp(fingerprint_of(url@)),
    {
        let fp = fingerprint(url.as_str());
        match self.lookup(&fp) {
            Some(i) => {
                proof {
                    assert(self.contains_fp(fingerprint_of(url@)));
                }
                false
            },
            None => true,
        }
    }
}

/// The effect of one successful `ensure` visit for `url`: `fetched` holds
/// the downloaded bytes exactly when the store had no artifact for the URL
/// beforehand; afterwards the artifact is present with those bytes (or its
/// old bytes on a cache hit), its permission bits are owner-only, and every
/// other fingerprint's artifact is untouched.
pub open spec fn ensure_post(
    pre: ArtifactStore,
    post: ArtifactStore,
    url: Seq<char>,
    fetched: Option<Seq<u8>>,
) -> bool {
    let fp = fingerprint_of(url);
    &&& (fetched is Some <==> !pre.contains_fp(fp))
    &&& post.root@ == pre.root@
    &&& post.contains_fp(fp)
    &&& post.mode_of(fp) == OWNER_RWX
    &&& (fetched matches Some(b) ==> post.contents_of(fp) == b)
    &&& (fetched is None ==> post.contents_of(fp) == pre.contents_of(fp))
    &&& forall|other: Seq<char>|
        other != fp ==> #[trigger] post.contains_fp(other) == pre.contains_fp(other)
    &&& forall|other: Seq<char>|
        other != fp && #[trigger] pre.contains_fp(other) ==> post.contents_of(other)
            == pre.contents_of(other) && post.mode_of(other) == pre.mode_of(other)
}

impl ArtifactStore {
    /// Records one cache visit for a download URL. On a miss the caller
    /// hands in the bytes it fetched; on a hit it hands in nothing and the
    /// cached bytes stay. Either way the artifact ends owner-only and the
    /// artifact's cache path is returned.
    pub fn ensure(&mut self, url: &String, fetched: Option<Vec<u8>>) -> (path: String)
        requires
            old(self).wf(),
            fetched is Some <==> !old(self).contains_fp(fingerprint_of(url@)),
        ensures
            final(self).wf(),
            ensure_post(*old(self), *final(self), url@, fetched.deep_view()),
            path@ == cached_path_of(old(self).root@, url@),
    {
        let ghost fp_spec = fingerprint_of(url@);
        let fp = fingerprint(url.as_str());
        match self.lookup(&fp) {
            Some(i) => {
                let mut taken = Artifact { fingerprint: String::new(), contents: Vec::new(), mode: 0 };
                self.entries.set_and_swap(i, &mut taken);
                let updated = Artifact {
                    fingerprint: taken.fingerprint,
                    contents: taken.contents,
                    mode: OWNER_RWX,
                };
                self.entries.set(i, updated);
                proof {
                    let pre = *old(self);
                    let post = *self;
                    assert(post.entries@ =~= pre.entries@.update(
                        i as int,
                        post.entries@[i as int],
                    ));
                    assert(post.entries@[i as int].fingerprint@ == fp_spec);
                    assert(post.wf());
                    pre.lemma_index_unique(fp_spec, i as int);
                    post.lemma_index_unique(fp_spec, i as int);
                    assert forall|other: Seq<char>| other != fp_spec implies #[trigger] post
                        .contains_fp(other) == pre.contains_fp(other) by {
                        if pre.contains_fp(other) {
                            let j = pre.entry_index(other);
                            assert(post.entries@[j].fingerprint@ == other);
                        }
                        if post.contains_fp(other) {
                            let j = post.entry_index(other);
                            assert(pre.entries@[j].fingerprint@ == other);
                        }
                    }
                    assert forall|other: Seq<char>|
                        other != fp_spec && #[trigger] pre.contains_fp(other) implies post
                        .contents_of(other) == pre.contents_of(other) && post.mode_of(other)
                        == pre.mode_of(other) by {
                        let j = pre.entry_index(other);
                        assert(j != i as int);
                        pre.lemma_index_unique(other, j);
                        post.lemma_index_unique(other, j);
                    }
                }
                cached_path(self.root.as_str(), url.as_str())
            },
            None => {
                let bytes = fetched.unwrap();
                let ghost bytes_view = bytes@;
                self.insert_entry(fp, bytes, OWNER_RWX);
                proof {
                    assert(fetched.deep_view() matches Some(b) && b =~= bytes_view);
                }
                cached_path(self.root.as_str(), url.as_str())
            },
        }
    }

    /// Records one cache visit, first checking that the bytes handed in
    /// match the cache's need: `None` is returned, and nothing changes,
    /// when bytes were handed in for a cached URL or withheld from an
    /// uncached one; otherwise the visit happens and its path is returned.
    pub fn ensure_checked(&mut self, url: &String, fetched: Option<Vec<u8>>) -> (r: Option<String>)
        requires
            old(self).wf(),
        ensures
            r is Some <==> (fetched is Some <==> !old(self).contains_fp(fingerprint_of(url@))),
            r matches Some(path) ==> final(self).wf() && ensure_post(
                *old(self),
                *final(self),
                url@,
                fetched.deep_view(),
            ) && path@ == cached_path_of(old(self).root@, url@),
            r is None ==> *final(self) == *old(self),
    {
        let miss = self.needs_fetch(url);
        match (miss, fetched) {
            (true, Some(bytes)) => Some(self.ensure(url, Some(bytes))),
            (false, None) => Some(self.ensure(url, None)),
            (_, unused) => {
                proof {
                    assert(unused.deep_view() is Some <==> !miss);
                }
                None
            },
        }
    }
}

/// Cache idempotence: after a visit for a URL, a second visit for the same
/// URL fetches nothing, returns the same path, and leaves the artifact's
/// bytes exactly as the first visit left them.
pub proof fn lemma_ensure_idempotent(
    s0: ArtifactStore,
    s1: ArtifactStore,
    s2: ArtifactStore,
    url: Seq<char>,
    f1: Option<Seq<u8>>,
    f2: Option<Seq<u8>>,
)
    requires
        ensure_post(s0, s1, url, f1),
        ensure_post(s1, s2, url, f2),
    ensures
        f2 is None,
        cached_path_of(s1.root@, url) == cached_path_of(s0.root@, url),
        s2.contents_of(fingerprint_of(url)) == s1.contents_of(fingerprint_of(url)),
        f1 matches Some(b) ==> s2.contents_of(fingerprint_of(url)) == b,
{
}

/// Permission invariant: whatever permission bits an artifact carried
/// before, after any successful visit for its URL they are owner-only.
pub proof fn lemma_ensure_owner_only(
    pre: ArtifactStore,
    post: ArtifactStore,
    url: Seq<char>,
    fetched: Option<Seq<u8>>,
)
    requires
        ensure_post(pre, post, url, fetched),
    ensures
        post.mode_of(fingerprint_of(url)) == OWNER_RWX,
{
}

} // verus!
