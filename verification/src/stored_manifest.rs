//! The resume ledger: which chunks of an install are already on disk.
//!
//! The ledger is kept per install (game, version, install path). Reading it
//! from disk and writing it back is the caller's part; what was read is taken
//! here as it comes and is checked against the current chunk layout before
//! any of it is trusted.

use vstd::prelude::*;

verus! {

/// The entries of `stored` that name a chunk of a layout with `chunk_count`
/// chunks, each kept once, in the order of their first appearance.
pub open spec fn keep_valid(stored: Seq<usize>, chunk_count: int) -> Seq<usize>
    decreases stored.len(),
{
    if stored.len() == 0 {
        Seq::empty()
    } else {
        let rest = keep_valid(stored.drop_last(), chunk_count);
        if stored.last() < chunk_count && !rest.contains(stored.last()) {
            rest.push(stored.last())
        } else {
            rest
        }
    }
}

/// What is kept is exactly what was stored and is in range, and nothing is
/// kept twice.
pub proof fn lemma_keep_valid(stored: Seq<usize>, chunk_count: int)
    ensures
        keep_valid(stored, chunk_count).no_duplicates(),
        keep_valid(stored, chunk_count).len() <= stored.len(),
        forall|x: usize| #[trigger]
            keep_valid(stored, chunk_count).contains(x) <==> (stored.contains(x) && x
                < chunk_count),
    decreases stored.len(),
{
    let kept = keep_valid(stored, chunk_count);
    if stored.len() > 0 {
        let rest = keep_valid(stored.drop_last(), chunk_count);
        lemma_keep_valid(stored.drop_last(), chunk_count);
        assert forall|x: usize| #[trigger]
            kept.contains(x) <==> (stored.contains(x) && x < chunk_count) by {
            if kept.contains(x) {
                let i = choose|i: int| 0 <= i < kept.len() && kept[i] == x;
                if i < rest.len() {
                    assert(rest.contains(x));
                    let j = choose|j: int|
                        0 <= j < stored.drop_last().len() && stored.drop_last()[j] == x;
                    assert(stored[j] == x);
                } else {
                    assert(stored[stored.len() - 1] == x);
                }
            }
            if stored.contains(x) && x < chunk_count {
                let j = choose|j: int| 0 <= j < stored.len() && stored[j] == x;
                if j < stored.len() - 1 {
                    assert(stored.drop_last()[j] == x);
                    assert(rest.contains(x));
                    let i = choose|i: int| 0 <= i < rest.len() && rest[i] == x;
                    assert(kept[i] == x);
                } else if rest.contains(x) {
                    let i = choose|i: int| 0 <= i < rest.len() && rest[i] == x;
                    assert(kept[i] == x);
                } else {
                    assert(kept[kept.len() - 1] == x);
                }
            }
        }
    }
}

/// A ledger that already fits the layout is kept as it is.
pub proof fn lemma_keep_valid_fixpoint(stored: Seq<usize>, chunk_count: int)
    requires
        stored.no_duplicates(),
        forall|i: int| 0 <= i < stored.len() ==> stored[i] < chunk_count,
    ensures
        keep_valid(stored, chunk_count) == stored,
    decreases stored.len(),
{
    if stored.len() > 0 {
        lemma_keep_valid_fixpoint(stored.drop_last(), chunk_count);
        let rest = stored.drop_last();
        if rest.contains(stored.last()) {
            let i = choose|i: int| 0 <= i < rest.len() && rest[i] == stored.last();
            assert(stored[i] == stored[stored.len() - 1]);
        }
        assert(rest.push(stored.last()) =~= stored);
    }
}

/// Whether `index` is among `indices`.
pub fn contains_index(indices: &Vec<usize>, index: usize) -> (found: bool)
    ensures
        found == indices@.contains(index),
{
    let mut i: usize = 0;
    while i < indices.len()
        invariant
            i <= indices@.len(),
            forall|j: int| 0 <= j < i ==> indices@[j] != index,
        decreases indices@.len() - i,
    {
        if indices[i] == index {
            return true;
        }
        i = i + 1;
    }
    false
}

/// A ledger as it lies on disk: the install it was written for and the chunks
/// it lists as finished.
#[derive(Debug, Clone)]
pub struct LedgerRecord {
    pub game_id: String,
    pub game_version: String,
    pub completed_contexts: Vec<usize>,
}

/// What a ledger found on disk says about the install of version
/// `game_version` of `game_id`: what it lists, if it was written for that
/// install, and nothing otherwise. A missing ledger says nothing.
pub open spec fn recorded_for(
    game_id: Seq<char>,
    game_version: Seq<char>,
    found: Option<LedgerRecord>,
) -> Seq<usize> {
    match found {
        Some(record) => if record.game_id@ == game_id && record.game_version@ == game_version {
            record.completed_contexts@
        } else {
            Seq::empty()
        },
        None => Seq::empty(),
    }
}

/// The resume ledger of one install.
#[derive(Debug, Clone)]
pub struct StoredManifest {
    game_id: String,
    game_version: String,
    completed_contexts: Vec<usize>,
    base_path: String,
}

impl StoredManifest {
    pub closed spec fn game_id(&self) -> Seq<char> {
        self.game_id@
    }

    pub closed spec fn game_version(&self) -> Seq<char> {
        self.game_version@
    }

    /// The directory the install lives in.
    pub closed spec fn base_path(&self) -> Seq<char> {
        self.base_path@
    }

    /// The recorded indices, as stored.
    pub closed spec fn completed(&self) -> Seq<usize> {
        self.completed_contexts@
    }

    /// A ledger with nothing recorded.
    pub fn new(game_id: String, game_version: String, base_path: String) -> (ledger: Self)
        ensures
            ledger.game_id() == game_id@,
            ledger.game_version() == game_version@,
            ledger.base_path() == base_path@,
            ledger.completed() == Seq::<usize>::empty(),
    {
        StoredManifest { game_id, game_version, completed_contexts: Vec::new(), base_path }
    }

    /// The ledger of an install, from what was found on disk in its
    /// directory. A ledger that is missing, or that was written for another
    /// game or version, counts for nothing.
    pub fn generate(
        game_id: String,
        game_version: String,
        base_path: String,
        found: Option<LedgerRecord>,
    ) -> (ledger: Self)
        ensures
            ledger.game_id() == game_id@,
            ledger.game_version() == game_version@,
            ledger.base_path() == base_path@,
            ledger.completed() == recorded_for(game_id@, game_version@, found),
    {
        let completed_contexts = match found {
            Some(record) => {
                if record.game_id == game_id && record.game_version == game_version {
                    record.completed_contexts
                } else {
                    Vec::new()
                }
            },
            None => Vec::new(),
        };
        StoredManifest { game_id, game_version, completed_contexts, base_path }
    }

    /// The directory the install lives in.
    pub fn install_dir(&self) -> (path: String)
        ensures
            path@ == self.base_path(),
    {
        self.base_path.clone()
    }

    /// The recorded indices that name a chunk of a layout with `chunk_count`
    /// chunks, each once. Entries left over from another layout are dropped.
    pub fn get_completed_contexts(&self, chunk_count: usize) -> (completed: Vec<usize>)
        ensures
            completed@ == keep_valid(self.completed(), chunk_count as int),
            completed@.no_duplicates(),
            forall|i: int| 0 <= i < completed@.len() ==> completed@[i] < chunk_count,
    {
        let mut kept: Vec<usize> = Vec::new();
        let mut i: usize = 0;
        while i < self.completed_contexts.len()
            invariant
                i <= self.completed_contexts@.len(),
                kept@ == keep_valid(
                    self.completed_contexts@.subrange(0, i as int),
                    chunk_count as int,
                ),
            decreases self.completed_contexts@.len() - i,
        {
            let index = self.completed_contexts[i];
            proof {
                let next = self.completed_contexts@.subrange(0, i + 1);
                assert(next.drop_last() =~= self.completed_contexts@.subrange(0, i as int));
            }
            if index < chunk_count && !contains_index(&kept, index) {
                kept.push(index);
            }
            i = i + 1;
        }
        proof {
            assert(self.completed_contexts@.subrange(0, i as int) =~= self.completed_contexts@);
            lemma_keep_valid(self.completed_contexts@, chunk_count as int);
            assert forall|k: int| 0 <= k < kept@.len() implies kept@[k] < chunk_count by {
                assert(kept@.contains(kept@[k]));
            }
        }
        kept
    }

    /// Records `completed` in place of what was recorded before.
    pub fn set_completed_contexts(&mut self, completed: &Vec<usize>)
        ensures
            final(self).completed() == completed@,
            final(self).game_id() == old(self).game_id(),
            final(self).game_version() == old(self).game_version(),
            final(self).base_path() == old(self).base_path(),
    {
        self.completed_contexts = completed.clone();
    }

    /// The ledger as it is to be written to disk.
    pub fn record(&self) -> (record: LedgerRecord)
        ensures
            record.game_id@ == self.game_id(),
            record.game_version@ == self.game_version(),
            record.completed_contexts@ == self.completed(),
    {
        LedgerRecord {
            game_id: self.game_id.clone(),
            game_version: self.game_version.clone(),
            completed_contexts: self.completed_contexts.clone(),
        }
    }
}

} // verus!
