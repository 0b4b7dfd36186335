//! Cross-process coordination, modelled verifiably: the advisory lock
//! table keyed by lock-file name, and the temp-then-publish discipline
//! that keeps cache entries either absent or complete.
//!
//! The real lock and rename system calls live in the unverified shell;
//! the laws proved here are about the discipline itself.

use vstd::prelude::*;

use crate::app::{spec_installer_lock, spec_locks_dir};
use crate::config::Config;
use crate::strutil::str_eq;

verus! {

/// The set of lock names currently held somewhere on the machine.
/// One name is one lock file; holding it admits exactly one process.
pub struct LockTable {
    held: Vec<String>,
}

impl LockTable {
    /// The set of held lock names.
    pub closed spec fn view(&self) -> Set<Seq<char>> {
        Set::new(
            |x: Seq<char>|
                exists|i: int| 0 <= i < self.held@.len() && #[trigger] self.held@[i]@ == x,
        )
    }

    /// An empty table: no lock is held.
    pub fn new() -> (r: LockTable)
        ensures
            r@ == Set::<Seq<char>>::empty(),
    {
        let r = LockTable { held: Vec::new() };
        proof {
            assert(r@ =~= Set::<Seq<char>>::empty());
        }
        r
    }

    /// Whether a lock name is currently held.
    pub fn is_held(&self, name: &str) -> (r: bool)
        ensures
            r == self@.contains(name@),
    {
        let n = self.held.len();
        let mut i: usize = 0;
        while i < n
            invariant
                i <= n,
                n == self.held@.len(),
                forall|j: int| 0 <= j < i ==> #[trigger] self.held@[j]@ != name@,
            decreases n - i,
        {
            if str_eq(self.held[i].as_str(), name) {
                return true;
            }
            i += 1;
        }
        false
    }

    /// Attempts to take the exclusive lock `name`.  Granted exactly
    /// when no process holds it; a refused caller blocks and retries
    /// in the real shell.
    pub fn acquire(&mut self, name: &str) -> (r: bool)
        ensures
            r == !old(self)@.contains(name@),
            r ==> final(self)@ == old(self)@.insert(name@),
            !r ==> final(self)@ == old(self)@,
    {
        if self.is_held(name) {
            false
        } else {
            self.held.push(name.to_owned());
            proof {
                assert forall|x: Seq<char>| self@.contains(x) implies old(self)@.insert(
                    name@,
                ).contains(x) by {
                    let i = choose|i: int|
                        0 <= i < self.held@.len() && #[trigger] self.held@[i]@ == x;
                    if i < self.held@.len() - 1 {
                        assert(old(self).held@[i]@ == x);
                    } else {
                        assert(x == name@);
                    }
                }
                assert forall|x: Seq<char>| old(self)@.insert(name@).contains(x) implies
                    self@.contains(x) by {
                    if x == name@ {
                        assert(self.held@[self.held@.len() - 1]@ == x);
                    } else {
                        let i = choose|i: int|
                            0 <= i < old(self).held@.len() && #[trigger] old(self).held@[i]@ == x;
                        assert(self.held@[i]@ == x);
                    }
                }
                assert(self@ =~= old(self)@.insert(name@));
            }
            true
        }
    }

    /// Releases the lock `name`.
    pub fn release(&mut self, name: &str)
        ensures
            final(self)@ == old(self)@.remove(name@),
    {
        let n = self.held.len();
        let mut kept: Vec<String> = Vec::new();
        let mut i: usize = 0;
        while i < n
            invariant
                i <= n,
                n == self.held@.len(),
                self.held == old(self).held,
                forall|j: int| 0 <= j < kept@.len() ==> #[trigger] kept@[j]@ != name@,
                forall|j: int|
                    #![trigger kept@[j]]
                    0 <= j < kept@.len() ==> exists|k: int|
                        0 <= k < i && #[trigger] self.held@[k]@ == kept@[j]@,
                forall|k: int|
                    0 <= k < i && #[trigger] self.held@[k]@ != name@ ==> exists|j: int|
                        0 <= j < kept@.len() && #[trigger] kept@[j]@ == self.held@[k]@,
            decreases n - i,
        {
            let keep = !str_eq(self.held[i].as_str(), name);
            let ghost kb = kept@;
            if keep {
                let s = self.held[i].clone();
                kept.push(s);
            }
            proof {
                assert forall|k: int|
                    0 <= k < i + 1 && #[trigger] self.held@[k]@ != name@ implies exists|j: int|
                        0 <= j < kept@.len() && #[trigger] kept@[j]@ == self.held@[k]@ by {
                    if k == i {
                        assert(kept@[kept@.len() - 1]@ == self.held@[k]@);
                    } else {
                        let j0 = choose|j: int|
                            0 <= j < kb.len() && #[trigger] kb[j]@ == self.held@[k]@;
                        assert(kept@[j0]@ == self.held@[k]@);
                    }
                }
            }
            i += 1;
        }
        self.held = kept;
        proof {
            assert forall|x: Seq<char>| self@.contains(x) implies old(self)@.remove(
                name@,
            ).contains(x) by {
                let j = choose|j: int| 0 <= j < self.held@.len() && #[trigger] self.held@[j]@ == x;
                let k = choose|k: int|
                    0 <= k < n && #[trigger] old(self).held@[k]@ == self.held@[j]@;
                assert(old(self)@.contains(x));
            }
            assert forall|x: Seq<char>| old(self)@.remove(name@).contains(x) implies
                self@.contains(x) by {
                let k = choose|k: int|
                    0 <= k < old(self).held@.len() && #[trigger] old(self).held@[k]@ == x;
                let j = choose|j: int|
                    0 <= j < self.held@.len() && #[trigger] self.held@[j]@ == old(self).held@[k]@;
                assert(self.held@[j]@ == x);
            }
            assert(self@ =~= old(self)@.remove(name@));
        }
    }
}

/// Models acquiring the advisory lock at `path`: granted exactly when
/// no other process holds it.  In the real shell the refused case
/// blocks, with a waiting indicator, until the holder releases.
pub fn acquire_lock(table: &mut LockTable, path: &str) -> (r: bool)
    ensures
        r == !old(table)@.contains(path@),
        r ==> final(table)@ == old(table)@.insert(path@),
        !r ==> final(table)@ == old(table)@,
{
    table.acquire(path)
}

/// Law: distinct lock names never block each other — holding one more
/// lock changes nothing about whether any other name is held.
pub proof fn lemma_distinct_locks_independent(held: Set<Seq<char>>, a: Seq<char>, b: Seq<char>)
    requires
        a != b,
    ensures
        held.insert(a).contains(b) == held.contains(b),
{
}

/// Law: artifact locks for the same tool but different declared
/// versions have distinct lock names, so their bootstraps proceed in
/// parallel.
pub proof fn lemma_installer_lock_keys_distinct(
    cfg: Config,
    name: Seq<char>,
    id1: Seq<char>,
    id2: Seq<char>,
)
    requires
        id1 != id2,
    ensures
        spec_installer_lock(cfg, name, id1) != spec_installer_lock(cfg, name, id2),
{
    let pre = spec_locks_dir(cfg) + "/"@ + "installer-"@ + name + "-"@;
    assert(spec_installer_lock(cfg, name, id1) =~= pre + id1);
    assert(spec_installer_lock(cfg, name, id2) =~= pre + id2);
    if spec_installer_lock(cfg, name, id1) == spec_installer_lock(cfg, name, id2) {
        assert((pre + id1).skip(pre.len() as int) =~= id1);
        assert((pre + id2).skip(pre.len() as int) =~= id2);
        assert(false);
    }
}

/// One entry of the content-addressed cache store: the final path is
/// either absent or complete, and work in flight lives in a scratch
/// file outside the final directory.
#[derive(Clone, Copy, PartialEq, Eq, Structural, Debug)]
pub struct CacheEntry {
    /// Whether the final path exists (and is then complete).
    pub published: bool,
    /// Whether a scratch file exists.
    pub temp_exists: bool,
    /// Whether the scratch file holds the full content.
    pub temp_complete: bool,
}

/// The steps of materializing one cache entry.
#[derive(Clone, Copy, PartialEq, Eq, Structural, Debug)]
pub enum FetchStep {
    /// Create the scratch file in the scratch directory.
    CreateTemp,
    /// Fill the scratch file with the fetched or embedded content.
    WriteTemp,
    /// Atomically publish the scratch file at the final path.
    Publish,
}

/// The effect of one fetch step on a cache entry.
pub open spec fn fetch_effect(c: CacheEntry, s: FetchStep) -> CacheEntry {
    match s {
        FetchStep::CreateTemp => CacheEntry { temp_exists: true, temp_complete: false, ..c },
        FetchStep::WriteTemp => CacheEntry { temp_complete: c.temp_exists, ..c },
        FetchStep::Publish => if c.temp_exists && c.temp_complete {
            CacheEntry { published: true, temp_exists: false, ..c }
        } else {
            c
        },
    }
}

/// The effect of a sequence of fetch steps.
pub open spec fn apply_fetch(c: CacheEntry, steps: Seq<FetchStep>) -> CacheEntry
    decreases steps.len(),
{
    if steps.len() == 0 {
        c
    } else {
        apply_fetch(fetch_effect(c, steps[0]), steps.skip(1))
    }
}

/// The steps that `ensure_cached` performs: nothing when the entry is
/// already published, else stage into scratch and publish atomically.
pub open spec fn spec_fetch_steps(present: bool) -> Seq<FetchStep> {
    if present {
        Seq::<FetchStep>::empty()
    } else {
        seq![FetchStep::CreateTemp, FetchStep::WriteTemp, FetchStep::Publish]
    }
}

/// Plans the materialization of one cache entry.  An already-present
/// entry is returned unchanged: no re-fetch, no re-validation.
pub fn ensure_cached_steps(present: bool) -> (r: Vec<FetchStep>)
    ensures
        r@ == spec_fetch_steps(present),
{
    let mut v: Vec<FetchStep> = Vec::new();
    if !present {
        v.push(FetchStep::CreateTemp);
        v.push(FetchStep::WriteTemp);
        v.push(FetchStep::Publish);
    }
    proof {
        assert(v@ =~= spec_fetch_steps(present));
    }
    v
}

/// Applies one fetch step's effect to a cache entry.
pub fn apply_fetch_step(c: &CacheEntry, s: FetchStep) -> (r: CacheEntry)
    ensures
        r == fetch_effect(*c, s),
{
    let mut r = *c;
    match s {
        FetchStep::CreateTemp => {
            r.temp_exists = true;
            r.temp_complete = false;
        },
        FetchStep::WriteTemp => {
            r.temp_complete = c.temp_exists;
        },
        FetchStep::Publish => {
            if c.temp_exists && c.temp_complete {
                r.published = true;
                r.temp_exists = false;
            }
        },
    }
    r
}

/// Law: a fetch interrupted at any point before the publish step —
/// however much of the scratch file was written — leaves the final
/// cache path absent, never truncated.
pub proof fn lemma_fetch_atomic(c: CacheEntry, steps: Seq<FetchStep>, k: int)
    requires
        !c.published,
        0 <= k <= steps.len(),
        forall|i: int| 0 <= i < k ==> steps[i] != FetchStep::Publish,
    ensures
        !apply_fetch(c, steps.take(k)).published,
    decreases k,
{
    if k > 0 {
        let c1 = fetch_effect(c, steps[0]);
        assert(!c1.published);
        lemma_fetch_atomic(c1, steps.skip(1), k - 1);
        assert(steps.skip(1).take(k - 1) =~= steps.take(k).skip(1));
    }
}

} // verus!
