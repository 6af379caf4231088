//! Turning debounced file-system events into change batches.
use vstd::prelude::*;

verus! {

#[verifier::external_type_specification]
#[verifier::external_body]
pub struct ExGlobSet(globset::GlobSet);

#[verifier::external_type_specification]
#[verifier::external_body]
pub struct ExGlobError(globset::Error);

/// Whether a glob set can be built from `patterns`: each is a valid glob and
/// the set compiles.
pub uninterp spec fn globs_valid(patterns: Seq<Seq<char>>) -> bool;

/// Whether a glob set built from `patterns` matches `path`.
pub uninterp spec fn glob_matches(patterns: Seq<Seq<char>>, path: Seq<char>) -> bool;

pub open spec fn pattern_views(patterns: Seq<String>) -> Seq<Seq<char>> {
    patterns.map_values(|p: String| p@)
}

/// Relies on `globset::Glob::new` for each pattern and `GlobSetBuilder::build`:
/// the set of all the patterns, or the first error; whether it succeeds
/// depends on the patterns alone.
#[verifier::external_body]
fn build_glob_set(patterns: &Vec<String>) -> (r: Result<globset::GlobSet, globset::Error>)
    ensures
        r is Ok <==> globs_valid(pattern_views(patterns@)),
{
    let mut builder = globset::GlobSetBuilder::new();
    for p in patterns.iter() {
        builder.add(globset::Glob::new(p)?);
    }
    builder.build()
}


/// The kind of a file-system event.
#[derive(Debug, Clone, Copy, PartialEq, Eq, Structural)]
pub enum ChangeKind {
    Create,
    Modify,
    Other,
}

/// One file-system event: its kind and the paths it touches.
#[derive(Debug)]
pub struct ChangeEvent {
    pub kind: ChangeKind,
    pub paths: Vec<String>,
}

/// Glob patterns of paths that never trigger a rebuild.
pub struct IgnoreSet {
    set: globset::GlobSet,
    patterns: Vec<String>,
}

/// The paths of the create and modify events, in order.
pub open spec fn changed(events: Seq<ChangeEvent>) -> Seq<String>
    decreases events.len(),
{
    if events.len() == 0 {
        Seq::empty()
    } else if events.last().kind == ChangeKind::Create || events.last().kind == ChangeKind::Modify {
        changed(events.drop_last()) + events.last().paths@
    } else {
        changed(events.drop_last())
    }
}

/// The paths whose flag is not set, in order.
pub open spec fn kept(paths: Seq<String>, ignored: Seq<bool>) -> Seq<String>
    decreases paths.len(),
{
    if paths.len() == 0 {
        Seq::empty()
    } else if ignored[paths.len() - 1] {
        kept(paths.drop_last(), ignored)
    } else {
        kept(paths.drop_last(), ignored).push(paths.last())
    }
}

/// The paths that no pattern matches, in order.
pub open spec fn not_ignored(paths: Seq<String>, patterns: Seq<Seq<char>>) -> Seq<String>
    decreases paths.len(),
{
    if paths.len() == 0 {
        Seq::empty()
    } else if glob_matches(patterns, paths.last()@) {
        not_ignored(paths.drop_last(), patterns)
    } else {
        not_ignored(paths.drop_last(), patterns).push(paths.last())
    }
}

/// The batch handed on: `None` when nothing is left.
pub open spec fn batch_of(paths: Seq<String>) -> Option<Seq<String>> {
    if paths.len() == 0 {
        None
    } else {
        Some(paths)
    }
}

/// The paths of the create and modify events, in order; other kinds are dropped.
pub fn changed_paths(events: Vec<ChangeEvent>) -> (r: Vec<String>)
    ensures
        r@ == changed(events@),
{
    let ghost all = events@;
    let mut events = events;
    let mut out: Vec<String> = Vec::new();
    let ghost mut i: int = 0;
    while events.len() > 0
        invariant
            0 <= i <= all.len(),
            events@ == all.subrange(i, all.len() as int),
            out@ == changed(all.subrange(0, i)),
        decreases events@.len(),
    {
        let e = events.remove(0);
        proof {
            assert(all.subrange(0, i + 1).drop_last() == all.subrange(0, i));
            assert(events@ == all.subrange(i + 1, all.len() as int));
            i = i + 1;
        }
        match e.kind {
            ChangeKind::Create | ChangeKind::Modify => {
                let mut paths = e.paths;
                out.append(&mut paths);
            },
            ChangeKind::Other => {},
        }
    }
    proof {
        assert(all.subrange(0, i) == all);
    }
    out
}

/// Drops the paths flagged as ignored; `None` when none is left.
pub fn drop_ignored(paths: Vec<String>, ignored: &Vec<bool>) -> (r: Option<Vec<String>>)
    requires
        ignored@.len() == paths@.len(),
    ensures
        r matches Some(v) ==> v@.len() > 0,
        match r {
            Some(v) => batch_of(kept(paths@, ignored@)) == Some(v@),
            None => batch_of(kept(paths@, ignored@)) is None,
        },
{
    let ghost all = paths@;
    let n = ignored.len();
    let mut paths = paths;
    let mut out: Vec<String> = Vec::new();
    let mut i: usize = 0;
    while paths.len() > 0
        invariant
            i <= all.len(),
            i + paths@.len() == all.len(),
            ignored@.len() == all.len(),
            n == all.len(),
            paths@ == all.subrange(i as int, all.len() as int),
            out@ == kept(all.subrange(0, i as int), ignored@),
        decreases paths@.len(),
    {
        let p = paths.remove(0);
        proof {
            assert(all.subrange(0, i + 1).drop_last() == all.subrange(0, i as int));
            assert(paths@ == all.subrange(i + 1, all.len() as int));
        }
        if !ignored[i] {
            out.push(p);
        }
        i = i + 1;
    }
    proof {
        assert(all.subrange(0, i as int) == all);
    }
    if out.len() == 0 {
        None
    } else {
        Some(out)
    }
}

impl IgnoreSet {
    pub closed spec fn patterns(&self) -> Seq<Seq<char>> {
        pattern_views(self.patterns@)
    }

    /// The set of `patterns`, or the error of the first one that is not a glob
    /// (or of the set that does not compile).
    pub fn new(patterns: Vec<String>) -> (r: Result<IgnoreSet, globset::Error>)
        ensures
            r is Ok <==> globs_valid(pattern_views(patterns@)),
            r matches Ok(s) ==> s.patterns() == pattern_views(patterns@),
    {
        match build_glob_set(&patterns) {
            Ok(set) => Ok(IgnoreSet { set, patterns }),
            Err(e) => Err(e),
        }
    }

    /// Whether a pattern of the set matches `path`.
    pub fn is_match(&self, path: &str) -> (r: bool)
        ensures
            r == glob_matches(self.patterns(), path@),
    {
        glob_set_is_match(self, path)
    }

    /// The change batch of `events`: the paths of the create and modify events
    /// that no pattern matches, in order; `None` when no path is left.
    pub fn filter_batch(&self, events: Vec<ChangeEvent>) -> (r: Option<Vec<String>>)
        ensures
            r matches Some(v) ==> v@.len() > 0,
            match r {
                Some(v) => batch_of(not_ignored(changed(events@), self.patterns())) == Some(v@),
                None => batch_of(not_ignored(changed(events@), self.patterns())) is None,
            },
    {
        let paths = changed_paths(events);
        let mut flags: Vec<bool> = Vec::new();
        let mut i: usize = 0;
        while i < paths.len()
            invariant
                i <= paths@.len(),
                flags@.len() == i,
                forall|j: int| 0 <= j < i ==> flags@[j] == glob_matches(self.patterns(), #[trigger] paths@[j]@),
            decreases paths@.len() - i,
        {
            flags.push(self.is_match(paths[i].as_str()));
            i = i + 1;
        }
        proof {
            lemma_kept_not_ignored(paths@, flags@, self.patterns());
        }
        drop_ignored(paths, &flags)
    }
}

/// Relies on `globset::GlobSet::is_match`: whether any glob of the set, which
/// [`IgnoreSet::new`] built from the patterns it keeps beside it, matches
/// `path`; that depends on the patterns and the path alone.
#[verifier::external_body]
fn glob_set_is_match(s: &IgnoreSet, path: &str) -> (r: bool)
    ensures
        r == glob_matches(s.patterns(), path@),
{
    s.set.is_match(path)
}

proof fn lemma_kept_not_ignored(paths: Seq<String>, flags: Seq<bool>, patterns: Seq<Seq<char>>)
    requires
        flags.len() == paths.len(),
        forall|j: int| 0 <= j < paths.len() ==> flags[j] == glob_matches(patterns, #[trigger] paths[j]@),
    ensures
        kept(paths, flags) == not_ignored(paths, patterns),
    decreases paths.len(),
{
    if paths.len() > 0 {
        let rest = paths.drop_last();
        assert forall|j: int| 0 <= j < rest.len() implies flags.drop_last()[j] == glob_matches(patterns, #[trigger] rest[j]@) by {
            assert(rest[j] == paths[j]);
        }
        lemma_kept_not_ignored(rest, flags.drop_last(), patterns);
        lemma_kept_prefix(rest, flags);
        assert(flags[paths.len() - 1] == glob_matches(patterns, paths[paths.len() - 1]@));
    }
}

proof fn lemma_kept_prefix(paths: Seq<String>, flags: Seq<bool>)
    requires
        flags.len() >= paths.len() + 1,
    ensures
        kept(paths, flags) == kept(paths, flags.drop_last()),
    decreases paths.len(),
{
    if paths.len() > 0 {
        lemma_kept_prefix(paths.drop_last(), flags);
    }
}

/// A batch whose changed paths are all ignored is dropped: it triggers no rebuild.
pub proof fn lemma_ignored_changes_make_no_batch(events: Seq<ChangeEvent>, patterns: Seq<Seq<char>>)
    requires
        forall|i: int|
            0 <= i < changed(events).len() ==> glob_matches(patterns, #[trigger] changed(events)[i]@),
    ensures
        batch_of(not_ignored(changed(events), patterns)) is None,
{
    lemma_all_ignored(changed(events), patterns);
}

proof fn lemma_all_ignored(paths: Seq<String>, patterns: Seq<Seq<char>>)
    requires
        forall|i: int| 0 <= i < paths.len() ==> glob_matches(patterns, #[trigger] paths[i]@),
    ensures
        not_ignored(paths, patterns).len() == 0,
    decreases paths.len(),
{
    if paths.len() > 0 {
        let rest = paths.drop_last();
        assert forall|i: int| 0 <= i < rest.len() implies glob_matches(patterns, #[trigger] rest[i]@) by {
            assert(rest[i] == paths[i]);
        }
        lemma_all_ignored(rest, patterns);
        assert(glob_matches(patterns, paths[paths.len() - 1]@));
    }
}

} // verus!
