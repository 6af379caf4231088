//! The environment handed to the server-side executable: layered `.env`
//! files with defaults underneath.
use vstd::prelude::*;
use crate::config::EnvDir;
use crate::text::{chars_of, push_str, string_of};

verus! {

/// The value bound to `k` in `entries`: the last pair with that key.
pub open spec fn lookup(entries: Seq<(String, String)>, k: Seq<char>) -> Option<Seq<char>>
    decreases entries.len(),
{
    if entries.len() == 0 {
        None
    } else if entries.last().0@ == k {
        Some(entries.last().1@)
    } else {
        lookup(entries.drop_last(), k)
    }
}

/// The value bound to `k` by the first pair of `pairs` with that key.
pub open spec fn first_binding(pairs: Seq<(String, String)>, k: Seq<char>) -> Option<Seq<char>>
    decreases pairs.len(),
{
    if pairs.len() == 0 {
        None
    } else if first_binding(pairs.drop_last(), k) is Some {
        first_binding(pairs.drop_last(), k)
    } else if pairs.last().0@ == k {
        Some(pairs.last().1@)
    } else {
        None
    }
}

pub open spec fn keys_unique(entries: Seq<(String, String)>) -> bool {
    forall|i: int, j: int|
        0 <= i < j < entries.len() ==> (#[trigger] entries[i]).0@ != (#[trigger] entries[j]).0@
}

/// A set of environment variables, each key bound once.
#[derive(Debug)]
pub struct Env {
    entries: Vec<(String, String)>,
}

proof fn lemma_lookup_index(entries: Seq<(String, String)>, k: Seq<char>)
    ensures
        lookup(entries, k) is None <==> forall|i: int|
            0 <= i < entries.len() ==> (#[trigger] entries[i]).0@ != k,
        keys_unique(entries) ==> forall|i: int|
            0 <= i < entries.len() && (#[trigger] entries[i]).0@ == k ==> lookup(entries, k)
                == Some(entries[i].1@),
    decreases entries.len(),
{
    if entries.len() > 0 {
        let rest = entries.drop_last();
        let n = entries.len() - 1;
        lemma_lookup_index(rest, k);
        assert forall|i: int| 0 <= i < rest.len() implies #[trigger] rest[i] == entries[i] by {}
        assert(entries[n] == entries.last());
        if entries.last().0@ != k {
            assert((forall|i: int| 0 <= i < entries.len() ==> (#[trigger] entries[i]).0@ != k) <==> (
            forall|i: int| 0 <= i < rest.len() ==> (#[trigger] rest[i]).0@ != k)) by {
                if forall|i: int| 0 <= i < rest.len() ==> (#[trigger] rest[i]).0@ != k {
                    assert forall|i: int| 0 <= i < entries.len() implies (#[trigger] entries[i]).0@
                        != k by {
                        if i < n {
                            assert(rest[i] == entries[i]);
                        }
                    }
                }
            }
        }
        if keys_unique(entries) {
            assert(keys_unique(rest)) by {
                assert forall|i: int, j: int| 0 <= i < j < rest.len() implies (#[trigger] rest[i]).0@
                    != (#[trigger] rest[j]).0@ by {
                    assert(rest[i] == entries[i] && rest[j] == entries[j]);
                }
            }
        }
    }
}

impl Env {
    /// The variables as a map from key to value.
    pub closed spec fn view(&self) -> Map<Seq<char>, Seq<char>> {
        Map::new(
            |k: Seq<char>| lookup(self.entries@, k) is Some,
            |k: Seq<char>| lookup(self.entries@, k).unwrap(),
        )
    }

    pub closed spec fn wf(&self) -> bool {
        keys_unique(self.entries@)
    }

    pub fn new() -> (r: Env)
        ensures
            r.wf(),
            r@ == Map::<Seq<char>, Seq<char>>::empty(),
    {
        let r = Env { entries: Vec::new() };
        assert(r@ =~= Map::<Seq<char>, Seq<char>>::empty());
        r
    }

    fn position(&self, key: &str) -> (r: Option<usize>)
        requires
            self.wf(),
        ensures
            match r {
                Some(i) => i < self.entries@.len() && self.entries@[i as int].0@ == key@,
                None => lookup(self.entries@, key@) is None,
            },
    {
        let k = chars_of(key);
        let mut i: usize = 0;
        while i < self.entries.len()
            invariant
                i <= self.entries@.len(),
                forall|j: int| 0 <= j < i ==> (#[trigger] self.entries@[j]).0@ != key@,
            decreases self.entries@.len() - i,
        {
            if self.entries[i].0 == key.to_owned() {
                return Some(i);
            }
            i = i + 1;
        }
        proof {
            lemma_lookup_index(self.entries@, key@);
        }
        None
    }

    /// The value bound to `key`.
    pub fn get(&self, key: &str) -> (r: Option<&String>)
        requires
            self.wf(),
        ensures
            match r {
                Some(v) => self@.contains_key(key@) && self@[key@] == v@,
                None => !self@.contains_key(key@),
            },
    {
        proof {
            lemma_lookup_index(self.entries@, key@);
        }
        match self.position(key) {
            Some(i) => Some(&self.entries[i].1),
            None => None,
        }
    }

    /// Binds `key` to `value`, replacing an earlier binding.
    pub fn insert(&mut self, key: String, value: String)
        requires
            old(self).wf(),
        ensures
            final(self).wf(),
            final(self)@ == old(self)@.insert(key@, value@),
    {
        proof {
            lemma_lookup_index(self.entries@, key@);
        }
        let ghost before = self.entries@;
        match self.position(key.as_str()) {
            Some(i) => {
                self.entries.set(i, (key, value));
                proof {
                    let after = self.entries@;
                    assert(keys_unique(after)) by {
                        assert forall|a: int, b: int| 0 <= a < b < after.len() implies (
                        #[trigger] after[a]).0@ != (#[trigger] after[b]).0@ by {
                            if a != i && b != i {
                                assert(after[a] == before[a] && after[b] == before[b]);
                            }
                        }
                    }
                    lemma_lookup_index(after, key@);
                    assert(after[i as int].0@ == key@);
                    assert(lookup(after, key@) == Some(value@));
                    assert forall|k: Seq<char>| k != key@ implies lookup(after, k) == lookup(before, k) by {
                        lemma_lookup_index(after, k);
                        lemma_lookup_index(before, k);
                        assert forall|j: int| 0 <= j < after.len() && j != i implies after[j] == before[j] by {}
                        if lookup(before, k) is None {
                        } else {
                            let j = choose|j: int| 0 <= j < before.len() && (#[trigger] before[j]).0@ == k;
                            assert(after[j] == before[j]);
                        }
                    }
                }
            },
            None => {
                self.entries.push((key, value));
                proof {
                    let after = self.entries@;
                    assert(keys_unique(after)) by {
                        assert forall|a: int, b: int| 0 <= a < b < after.len() implies (
                        #[trigger] after[a]).0@ != (#[trigger] after[b]).0@ by {
                            if b < before.len() {
                                assert(after[a] == before[a] && after[b] == before[b]);
                            } else {
                                assert(after[a] == before[a]);
                            }
                        }
                    }
                    lemma_lookup_index(after, key@);
                    assert(after[before.len() as int].0@ == key@);
                    assert(lookup(after, key@) == Some(value@));
                    assert forall|k: Seq<char>| k != key@ implies lookup(after, k) == lookup(before, k) by {
                        lemma_lookup_index(after, k);
                        lemma_lookup_index(before, k);
                        if lookup(before, k) is None {
                            assert forall|j: int| 0 <= j < after.len() implies (#[trigger] after[j]).0@ != k by {
                                if j < before.len() {
                                    assert(after[j] == before[j]);
                                }
                            }
                        } else {
                            let j = choose|j: int| 0 <= j < before.len() && (#[trigger] before[j]).0@ == k;
                            assert(after[j] == before[j]);
                        }
                    }
                }
            },
        }
        proof {
            assert(self@ =~= old(self)@.insert(key@, value@));
        }
    }

    /// Binds each key of `envs` that is not bound yet; of repeated keys in
    /// `envs` the first one counts.
    pub fn set_default(&mut self, envs: Vec<(String, String)>)
        requires
            old(self).wf(),
        ensures
            final(self).wf(),
            forall|k: Seq<char>| #[trigger]
                final(self)@.contains_key(k) == (old(self)@.contains_key(k) || first_binding(envs@, k) is Some),
            forall|k: Seq<char>| #[trigger] final(self)@.contains_key(k) ==> final(self)@[k] == if old(self)@.contains_key(k) {
                old(self)@[k]
            } else {
                first_binding(envs@, k).unwrap()
            },
    {
        let ghost all = envs@;
        let ghost start = self@;
        let mut envs = envs;
        let ghost mut i: int = 0;
        while envs.len() > 0
            invariant
                0 <= i <= all.len(),
                envs@ == all.subrange(i, all.len() as int),
                self.wf(),
                forall|k: Seq<char>| #[trigger]
                    self@.contains_key(k) == (start.contains_key(k) || first_binding(all.subrange(0, i), k) is Some),
                forall|k: Seq<char>| #[trigger] self@.contains_key(k) ==> self@[k] == if start.contains_key(k) {
                    start[k]
                } else {
                    first_binding(all.subrange(0, i), k).unwrap()
                },
            decreases envs@.len(),
        {
            let (key, value) = envs.remove(0);
            proof {
                assert(all.subrange(0, i + 1).drop_last() == all.subrange(0, i));
                assert(all.subrange(0, i + 1).last() == all[i]);
                assert(envs@ == all.subrange(i + 1, all.len() as int));
                i = i + 1;
            }
            if self.get(key.as_str()).is_none() {
                self.insert(key, value);
            }
        }
        proof {
            assert(all.subrange(0, i) == all);
        }
    }

    /// The variables as `(key, value)` pairs.
    pub fn cloned_into_iter(&self) -> (r: Vec<(String, String)>)
        requires
            self.wf(),
        ensures
            keys_unique(r@),
            forall|k: Seq<char>| #[trigger] lookup(r@, k) == if self@.contains_key(k) {
                Some(self@[k])
            } else {
                None
            },
    {
        let mut out: Vec<(String, String)> = Vec::new();
        let mut i: usize = 0;
        while i < self.entries.len()
            invariant
                i <= self.entries@.len(),
                out@ == self.entries@.subrange(0, i as int),
            decreases self.entries@.len() - i,
        {
            let (k, v) = &self.entries[i];
            out.push((k.clone(), v.clone()));
            proof {
                assert(out@ =~= self.entries@.subrange(0, i + 1));
            }
            i = i + 1;
        }
        proof {
            assert(out@ =~= self.entries@);
        }
        out
    }

    /// The `.env` files read for `mode`, later ones overriding earlier ones,
    /// relative to the project root; none when loading is switched off.
    pub fn get_env_files_for_mode(mode: &str, env_dir: &EnvDir) -> (r: Vec<String>)
        ensures
            match env_dir {
                EnvDir::False => r@.len() == 0,
                EnvDir::Path(dir) => {
                    &&& r@.len() == 4
                    &&& r@[0]@ == in_dir(dir@, ".env"@)
                    &&& r@[1]@ == in_dir(dir@, ".env.local"@)
                    &&& r@[2]@ == in_dir(dir@, ".env."@ + mode@)
                    &&& r@[3]@ == in_dir(dir@, ".env."@ + mode@ + ".local"@)
                },
            },
    {
        match env_dir {
            EnvDir::False => Vec::new(),
            EnvDir::Path(dir) => {
                let mut names: Vec<String> = Vec::new();
                names.push(file_in(dir, ".env", "", ""));
                names.push(file_in(dir, ".env.local", "", ""));
                names.push(file_in(dir, ".env.", mode, ""));
                names.push(file_in(dir, ".env.", mode, ".local"));
                proof {
                    reveal_strlit("");
                }
                assert(names@[0]@ =~= in_dir(dir@, ".env"@));
                assert(names@[1]@ =~= in_dir(dir@, ".env.local"@));
                assert(names@[2]@ =~= in_dir(dir@, ".env."@ + mode@));
                names
            },
        }
    }

    /// Layers `files` over each other: a key in a later file overrides the
    /// same key in an earlier one.
    pub fn from_layers(files: Vec<Vec<(String, String)>>) -> (r: Env)
        ensures
            r.wf(),
            r@ == layered(files@),
    {
        let ghost all = files@;
        let mut files = files;
        let mut env = Env::new();
        let ghost mut i: int = 0;
        while files.len() > 0
            invariant
                0 <= i <= all.len(),
                files@ == all.subrange(i, all.len() as int),
                env.wf(),
                env@ == layered(all.subrange(0, i)),
            decreases files@.len(),
        {
            let file = files.remove(0);
            proof {
                assert(all.subrange(0, i + 1).drop_last() == all.subrange(0, i));
                assert(files@ == all.subrange(i + 1, all.len() as int));
                i = i + 1;
            }
            let ghost inner = file@;
            let mut file = file;
            let ghost base = env@;
            let ghost mut j: int = 0;
            while file.len() > 0
                invariant
                    0 <= j <= inner.len(),
                    file@ == inner.subrange(j, inner.len() as int),
                    env.wf(),
                    env@ == overlay(base, inner.subrange(0, j)),
                decreases file@.len(),
            {
                let (k, v) = file.remove(0);
                proof {
                    assert(inner.subrange(0, j + 1).drop_last() == inner.subrange(0, j));
                    assert(file@ == inner.subrange(j + 1, inner.len() as int));
                    j = j + 1;
                }
                env.insert(k, v);
            }
            proof {
                assert(inner.subrange(0, j) == inner);
            }
        }
        proof {
            assert(all.subrange(0, i) == all);
        }
        env
    }
}

/// `name` inside `dir`, or `name` alone when `dir` is empty.
pub open spec fn in_dir(dir: Seq<char>, name: Seq<char>) -> Seq<char> {
    if dir.len() == 0 {
        name
    } else {
        dir + seq!['/'] + name
    }
}

/// `m` with each pair of `pairs` bound in turn.
pub open spec fn overlay(m: Map<Seq<char>, Seq<char>>, pairs: Seq<(String, String)>) -> Map<
    Seq<char>,
    Seq<char>,
>
    decreases pairs.len(),
{
    if pairs.len() == 0 {
        m
    } else {
        overlay(m, pairs.drop_last()).insert(pairs.last().0@, pairs.last().1@)
    }
}

/// The files applied one over the other, first to last.
pub open spec fn layered(files: Seq<Vec<(String, String)>>) -> Map<Seq<char>, Seq<char>>
    decreases files.len(),
{
    if files.len() == 0 {
        Map::empty()
    } else {
        overlay(layered(files.drop_last()), files.last()@)
    }
}

fn file_in(dir: &String, a: &str, b: &str, c: &str) -> (r: String)
    ensures
        r@ == in_dir(dir@, a@ + b@ + c@),
{
    let mut out = chars_of(dir.as_str());
    if out.len() > 0 {
        out.push('/');
    }
    push_str(&mut out, a);
    push_str(&mut out, b);
    push_str(&mut out, c);
    assert(out@ =~= in_dir(dir@, a@ + b@ + c@));
    string_of(&out)
}

} // verus!
