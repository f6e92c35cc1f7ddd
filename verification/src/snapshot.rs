//! Plain-value snapshots of the process environment and of the filesystem
//! slice that resolution consults.
//!
//! Resolution and loading never touch the real environment or disk; the
//! caller hands them an [`EnvSnapshot`] and an [`FsView`] instead, so the
//! whole chain is a pure function of its arguments.

use vstd::prelude::*;

verus! {

/// Read-only snapshot of the three environment variables that path
/// resolution consults. A field is `None` when the variable is unset.
pub struct EnvSnapshot {
    /// Value of the override variable (`UP_CONFIG`).
    pub up_config: Option<String>,
    /// Value of the XDG-style config-home variable (`XDG_CONFIG_HOME`).
    pub xdg_config_home: Option<String>,
    /// Value of the home-directory variable (`HOME`).
    pub home: Option<String>,
}

/// One filesystem path that exists, together with what a read of it
/// returned: `Some(bytes)` for a successful read, `None` when the file
/// exists but could not be read.
pub struct FsEntry {
    pub path: String,
    pub content: Option<Vec<u8>>,
}

impl FsEntry {
    /// The read outcome at spec level: `Some(bytes)` or `None` (unreadable).
    pub open spec fn content_view(&self) -> Option<Seq<u8>> {
        match self.content {
            Some(b) => Some(b@),
            None => None,
        }
    }
}

/// Snapshot of the filesystem slice that matters to resolution: the paths
/// that exist, each with its read outcome. A path not listed does not exist.
/// When one path is listed twice, the first entry is authoritative.
pub struct FsView {
    pub entries: Vec<FsEntry>,
}

/// What the snapshot holds at path `p`: `None` when `p` does not exist,
/// `Some(outcome)` for the first entry whose path is `p`.
pub open spec fn lookup_entries(s: Seq<FsEntry>, p: Seq<char>) -> Option<Option<Seq<u8>>>
    decreases s.len(),
{
    if s.len() == 0 {
        None
    } else if s[0].path@ == p {
        Some(s[0].content_view())
    } else {
        lookup_entries(s.drop_first(), p)
    }
}

/// Dropping a matchless prefix of the entry list leaves the lookup unchanged.
proof fn lemma_lookup_skip(s: Seq<FsEntry>, p: Seq<char>, k: int)
    requires
        0 <= k <= s.len(),
        forall|j: int| 0 <= j < k ==> s[j].path@ != p,
    ensures
        lookup_entries(s, p) == lookup_entries(s.skip(k), p),
    decreases k,
{
    if k > 0 {
        assert(s.skip(1).skip(k - 1) =~= s.skip(k));
        assert(s.drop_first() =~= s.skip(1));
        lemma_lookup_skip(s.skip(1), p, k - 1);
    } else {
        assert(s.skip(0) =~= s);
    }
}

impl FsView {
    /// Whether path `p` exists in this snapshot.
    pub open spec fn spec_contains(&self, p: Seq<char>) -> bool {
        lookup_entries(self.entries@, p) is Some
    }

    /// The read outcome recorded for path `p`, if `p` exists.
    pub open spec fn spec_lookup(&self, p: Seq<char>) -> Option<Option<Seq<u8>>> {
        lookup_entries(self.entries@, p)
    }

    /// Finds the authoritative entry for path `p`, as an index into
    /// `entries`; `None` means the path does not exist in this snapshot.
    pub fn find(&self, p: &String) -> (r: Option<usize>)
        ensures
            match r {
                Some(i) => i < self.entries@.len() && self.entries@[i as int].path@ == p@
                    && self.spec_lookup(p@) == Some(self.entries@[i as int].content_view()),
                None => self.spec_lookup(p@) is None,
            },
    {
        let n = self.entries.len();
        let mut i: usize = 0;
        while i < n
            invariant
                n == self.entries@.len(),
                i <= n,
                forall|j: int| 0 <= j < i ==> self.entries@[j].path@ != p@,
            decreases n - i,
        {
            if self.entries[i].path == *p {
                proof {
                    lemma_lookup_skip(self.entries@, p@, i as int);
                    assert(self.entries@.skip(i as int)[0] == self.entries@[i as int]);
                }
                return Some(i);
            }
            i = i + 1;
        }
        proof {
            lemma_lookup_skip(self.entries@, p@, n as int);
            assert(self.entries@.skip(n as int).len() == 0);
        }
        None
    }

    /// Whether path `p` exists in this snapshot.
    pub fn contains(&self, p: &String) -> (r: bool)
        ensures
            r == self.spec_contains(p@),
    {
        self.find(p).is_some()
    }
}

} // verus!
