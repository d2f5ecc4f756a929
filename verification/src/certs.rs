//! The certificate resolver: given an ordered list of candidate directories
//! and fixed certificate/key file names, find the first directory holding a
//! usable matched pair. Whether a candidate's two files actually load as a
//! TLS identity is decided outside this crate (it is file I/O); the resolver
//! here owns the search order and guarantees that no directory past the
//! first usable one is ever attempted. A directory with only one of the two
//! files is simply a failed candidate and is skipped. This is a startup-only,
//! one-shot operation: no retry, no background watch, no re-resolution.

use vstd::prelude::*;
use vstd::string::StringExecFns;

verus! {

/// A resolved TLS identity: the matched certificate and key paths and the
/// directory they were found in. Immutable once resolved; owned by the
/// encrypted listener for its entire lifetime.
pub struct CertificateBundle {
    pub dir: String,
    pub cert_path: String,
    pub key_path: String,
}

/// `name` under directory `dir`.
pub open spec fn spec_join(dir: Seq<char>, name: Seq<char>) -> Seq<char> {
    dir + "/"@ + name
}

/// Join a directory and a file name with a path separator.
pub fn join_path(dir: &str, name: &str) -> (r: String)
    ensures
        r@ == spec_join(dir@, name@),
{
    let mut out = String::from_str(dir);
    out.append("/");
    out.append(name);
    proof {
        assert(out@ =~= spec_join(dir@, name@));
    }
    out
}

/// An element as a one-element sequence, or the empty sequence.
pub open spec fn spec_opt_seq<T>(o: Option<T>) -> Seq<T> {
    match o {
        Some(v) => seq![v],
        None => Seq::empty(),
    }
}

/// The ordered candidate list: a development-mode directory first (when in a
/// development build), then the configured system directory (when the
/// platform has one), then the directory adjacent to the running executable.
pub fn candidate_dirs(
    dev_dir: Option<String>,
    system_dir: Option<String>,
    exe_adjacent_dir: String,
) -> (r: Vec<String>)
    ensures
        r@ == spec_opt_seq(dev_dir) + spec_opt_seq(system_dir) + seq![exe_adjacent_dir],
{
    let mut dirs: Vec<String> = Vec::new();
    if let Some(d) = dev_dir {
        dirs.push(d);
    }
    if let Some(d) = system_dir {
        dirs.push(d);
    }
    dirs.push(exe_adjacent_dir);
    proof {
        assert(dirs@ =~= spec_opt_seq(dev_dir) + spec_opt_seq(system_dir) + seq![
            exe_adjacent_dir,
        ]);
    }
    dirs
}

/// The index of the first usable candidate, if any.
pub open spec fn spec_first_usable(usable: Seq<bool>) -> Option<int>
    decreases usable.len(),
{
    if usable.len() == 0 {
        None
    } else if usable[0] {
        Some(0)
    } else {
        match spec_first_usable(usable.drop_first()) {
            Some(i) => Some(i + 1),
            None => None,
        }
    }
}

/// The resolver state machine: candidates are attempted strictly in order,
/// one at a time; a failure moves past the current candidate and nothing
/// ever moves back or skips ahead.
pub struct CertResolver {
    dirs: Vec<String>,
    cert_file_name: String,
    key_file_name: String,
    /// Candidates before this index failed; none at or past it has been
    /// attempted yet.
    next_index: usize,
}

impl CertResolver {
    /// The ordered candidate directories.
    pub closed spec fn dirs(self) -> Seq<String> {
        self.dirs@
    }

    pub closed spec fn cert_file_name(self) -> Seq<char> {
        self.cert_file_name@
    }

    pub closed spec fn key_file_name(self) -> Seq<char> {
        self.key_file_name@
    }

    /// How many candidates have been attempted and failed: exactly the
    /// candidates at indices below this, in order.
    pub closed spec fn attempted(self) -> int {
        self.next_index as int
    }

    pub closed spec fn wf(self) -> bool {
        self.next_index <= self.dirs@.len()
    }

    /// A fresh resolver: nothing attempted yet.
    pub fn new(dirs: Vec<String>, cert_file_name: String, key_file_name: String) -> (r:
        CertResolver)
        ensures
            r.wf(),
            r.dirs() == dirs@,
            r.cert_file_name() == cert_file_name@,
            r.key_file_name() == key_file_name@,
            r.attempted() == 0,
    {
        CertResolver { dirs, cert_file_name, key_file_name, next_index: 0 }
    }

    /// The certificate and key paths of the one candidate to attempt next,
    /// or nothing when every candidate has failed. Only this candidate's
    /// files may be touched; no later directory is exposed.
    pub fn current_candidate(&self) -> (r: Option<(String, String)>)
        requires
            self.wf(),
        ensures
            (r is Some) == (self.attempted() < self.dirs().len()),
            r matches Some(paths) ==> {
                &&& paths.0@ == spec_join(self.dirs()[self.attempted()]@, self.cert_file_name())
                &&& paths.1@ == spec_join(self.dirs()[self.attempted()]@, self.key_file_name())
            },
    {
        if self.next_index < self.dirs.len() {
            let dir = &self.dirs[self.next_index];
            Some(
                (
                    join_path(dir.as_str(), self.cert_file_name.as_str()),
                    join_path(dir.as_str(), self.key_file_name.as_str()),
                ),
            )
        } else {
            None
        }
    }

    /// The current candidate failed to load as a matched pair (either file
    /// missing or unreadable, or not a valid identity): skip it, never to be
    /// revisited.
    pub fn record_failure(&mut self)
        requires
            old(self).wf(),
            old(self).attempted() < old(self).dirs().len(),
        ensures
            final(self).wf(),
            final(self).dirs() == old(self).dirs(),
            final(self).cert_file_name() == old(self).cert_file_name(),
            final(self).key_file_name() == old(self).key_file_name(),
            final(self).attempted() == old(self).attempted() + 1,
    {
        proof {
            vstd::std_specs::vec::axiom_spec_len(&self.dirs);
        }
        self.next_index = self.next_index + 1;
    }

    /// The current candidate loaded as a matched pair: the resolved bundle,
    /// from exactly this directory.
    pub fn resolve_success(&self) -> (b: CertificateBundle)
        requires
            self.wf(),
            self.attempted() < self.dirs().len(),
        ensures
            b.dir == self.dirs()[self.attempted()],
            b.cert_path@ == spec_join(self.dirs()[self.attempted()]@, self.cert_file_name()),
            b.key_path@ == spec_join(self.dirs()[self.attempted()]@, self.key_file_name()),
    {
        let dir = &self.dirs[self.next_index];
        CertificateBundle {
            dir: dir.clone(),
            cert_path: join_path(dir.as_str(), self.cert_file_name.as_str()),
            key_path: join_path(dir.as_str(), self.key_file_name.as_str()),
        }
    }
}

/// What `spec_first_usable` returns: the unique index whose candidate is
/// usable while every earlier one is not — or nothing, when no candidate is
/// usable.
pub proof fn lemma_first_usable(usable: Seq<bool>)
    ensures
        match spec_first_usable(usable) {
            Some(i) => 0 <= i < usable.len() && usable[i] && forall|j: int|
                0 <= j < i ==> !usable[j],
            None => forall|j: int| 0 <= j < usable.len() ==> !usable[j],
        },
    decreases usable.len(),
{
    if usable.len() > 0 && !usable[0] {
        lemma_first_usable(usable.drop_first());
        assert forall|j: int|
            0 <= j < usable.len() && (match spec_first_usable(usable.drop_first()) {
                Some(i) => j < i + 1,
                None => true,
            }) implies !usable[j] by {
            if j > 0 {
                assert(usable.drop_first()[j - 1] == usable[j]);
            }
        }
    }
}

/// Law: a resolver that has failed every candidate before index `k` and
/// finds candidate `k` usable has resolved exactly the first usable
/// candidate; every directory past `k` was never attempted. (`usable[j]`
/// says whether directory `j` holds a loadable matched pair.)
pub proof fn lemma_resolver_stops_at_first_usable(usable: Seq<bool>, k: int)
    requires
        0 <= k < usable.len(),
        forall|j: int| 0 <= j < k ==> !usable[j],
        usable[k],
    ensures
        spec_first_usable(usable) == Some(k),
    decreases k,
{
    if k == 0 {
    } else {
        lemma_resolver_stops_at_first_usable(usable.drop_first(), k - 1);
    }
}

} // verus!
