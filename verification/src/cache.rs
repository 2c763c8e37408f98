//! The worker cache: at which addresses each worker of each authority is known.

use crate::address::components;
use crate::keys::{PublicKey, WorkerId};
use multiaddr::Multiaddr;
use vstd::prelude::*;

verus! {

/// The addresses at which a worker is known.
#[derive(Debug, PartialEq, Eq)]
pub struct WorkerInfo {
    /// Where clients send transactions.
    pub transactions: Multiaddr,
    /// Where other workers send messages.
    pub worker_to_worker: Multiaddr,
    /// Where the primary of the worker sends messages.
    pub primary_to_worker: Multiaddr,
}

/// A `WorkerInfo`, each address by its components.
pub struct WorkerInfoView {
    pub transactions: Seq<Seq<u8>>,
    pub worker_to_worker: Seq<Seq<u8>>,
    pub primary_to_worker: Seq<Seq<u8>>,
}

impl View for WorkerInfo {
    type V = WorkerInfoView;

    open spec fn view(&self) -> WorkerInfoView {
        WorkerInfoView {
            transactions: components(self.transactions),
            worker_to_worker: components(self.worker_to_worker),
            primary_to_worker: components(self.primary_to_worker),
        }
    }
}

/// One line of the cache.
#[derive(Debug, PartialEq, Eq)]
pub struct WorkerEntry {
    pub authority: PublicKey,
    pub id: WorkerId,
    pub info: WorkerInfo,
}

impl WorkerEntry {
    /// The authority and the number that the line is about.
    pub open spec fn key(self) -> (Seq<u8>, WorkerId) {
        (self.authority@, self.id)
    }
}

/// The workers of the committee, one line for each.
#[derive(Debug, PartialEq, Eq)]
pub struct WorkerCache {
    pub workers: Vec<WorkerEntry>,
}

/// Lines as a map. Where several lines are about one worker the first one counts.
pub open spec fn workers_by_key(lines: Seq<WorkerEntry>) -> Map<(Seq<u8>, WorkerId), WorkerInfoView>
    decreases lines.len(),
{
    if lines.len() == 0 {
        Map::empty()
    } else {
        workers_by_key(lines.drop_first()).insert(lines[0].key(), lines[0].info@)
    }
}

impl View for WorkerCache {
    type V = Map<(Seq<u8>, WorkerId), WorkerInfoView>;

    open spec fn view(&self) -> Map<(Seq<u8>, WorkerId), WorkerInfoView> {
        workers_by_key(self.workers@)
    }
}

impl WorkerCache {
    /// No worker has two lines.
    pub open spec fn well_formed(self) -> bool {
        forall|i: int, j: int|
            0 <= i < j < self.workers@.len() && (#[trigger] self.workers@[i]).id == (
            #[trigger] self.workers@[j]).id ==> self.workers@[i].authority.bytes@
                != self.workers@[j].authority.bytes@
    }
}

/// In a cache where no two lines have the same authority and the same id, looking up the
/// authority and the id of a line gives the addresses of that line.
pub proof fn law_every_line_is_found(cache: WorkerCache, i: int)
    requires
        forall|a: int, b: int|
            0 <= a < b < cache.workers@.len() && (#[trigger] cache.workers@[a]).id == (
            #[trigger] cache.workers@[b]).id ==> cache.workers@[a].authority.bytes@
                != cache.workers@[b].authority.bytes@,
        0 <= i < cache.workers@.len(),
    ensures
        ({
            let line = cache.workers@[i];
            let key = (line.authority.bytes@, line.id);
            &&& cache@.contains_key(key)
            &&& cache@[key] == line.info@
            &&& cache@[key].transactions == components(line.info.transactions)
            &&& cache@[key].worker_to_worker == components(line.info.worker_to_worker)
            &&& cache@[key].primary_to_worker == components(line.info.primary_to_worker)
        }),
{
    law_first_line_counts(cache, i);
}

/// Looking up an authority and an id gives the addresses of the first line that has both.
pub proof fn law_first_line_counts(cache: WorkerCache, i: int)
    requires
        0 <= i < cache.workers@.len(),
        forall|a: int|
            0 <= a < i && (#[trigger] cache.workers@[a]).id == cache.workers@[i].id
                ==> cache.workers@[a].authority.bytes@ != cache.workers@[i].authority.bytes@,
    ensures
        ({
            let line = cache.workers@[i];
            let key = (line.authority.bytes@, line.id);
            &&& cache@.contains_key(key)
            &&& cache@[key] == line.info@
            &&& cache@[key].transactions == components(line.info.transactions)
            &&& cache@[key].worker_to_worker == components(line.info.worker_to_worker)
            &&& cache@[key].primary_to_worker == components(line.info.primary_to_worker)
        }),
{
    lemma_line_is_found(cache.workers@, i);
}

/// Nothing is found for an authority and an id that no line has.
pub proof fn law_only_lines_are_found(cache: WorkerCache, authority: Seq<u8>, id: WorkerId)
    requires
        forall|a: int|
            0 <= a < cache.workers@.len() && (#[trigger] cache.workers@[a]).id == id
                ==> cache.workers@[a].authority.bytes@ != authority,
    ensures
        !cache@.contains_key((authority, id)),
{
    lemma_only_lines_are_found(cache.workers@, authority, id);
}

proof fn lemma_line_is_found(lines: Seq<WorkerEntry>, i: int)
    requires
        0 <= i < lines.len(),
        forall|a: int|
            0 <= a < i && (#[trigger] lines[a]).id == lines[i].id ==> lines[a].authority.bytes@
                != lines[i].authority.bytes@,
    ensures
        workers_by_key(lines).contains_key((lines[i].authority.bytes@, lines[i].id)),
        workers_by_key(lines)[(lines[i].authority.bytes@, lines[i].id)] == lines[i].info@,
    decreases lines.len(),
{
    if i > 0 {
        let rest = lines.drop_first();
        assert(lines[0].key() != lines[i].key());
        assert(rest[i - 1] == lines[i]);
        assert forall|a: int| 0 <= a < i - 1 && (#[trigger] rest[a]).id == rest[i - 1].id implies
            rest[a].authority.bytes@ != rest[i - 1].authority.bytes@ by {
            assert(rest[a] == lines[a + 1]);
        }
        lemma_line_is_found(rest, i - 1);
    }
}

proof fn lemma_only_lines_are_found(lines: Seq<WorkerEntry>, authority: Seq<u8>, id: WorkerId)
    requires
        forall|a: int|
            0 <= a < lines.len() && (#[trigger] lines[a]).id == id ==> lines[a].authority.bytes@
                != authority,
    ensures
        !workers_by_key(lines).contains_key((authority, id)),
    decreases lines.len(),
{
    if lines.len() > 0 {
        let rest = lines.drop_first();
        assert(lines[0].key() != (authority, id));
        assert forall|a: int| 0 <= a < rest.len() && (#[trigger] rest[a]).id == id implies
            rest[a].authority.bytes@ != authority by {
            assert(rest[a] == lines[a + 1]);
        }
        lemma_only_lines_are_found(rest, authority, id);
    }
}

/// Why the cache has no answer.
#[derive(Debug, Clone, Copy, PartialEq, Eq)]
pub enum ConfigError {
    /// The authority, or the worker of that authority, is not in the cache.
    NotInWorkerCache,
}

impl WorkerCache {
    /// The addresses of worker `id` of authority `to`.
    pub fn worker(&self, to: &PublicKey, id: &WorkerId) -> (found: Result<&WorkerInfo, ConfigError>)
        ensures
            found is Ok <==> self@.contains_key((to@, *id)),
            found matches Ok(info) ==> info@ == self@[(to@, *id)],
            found matches Err(error) ==> error == ConfigError::NotInWorkerCache,
            found is Err ==> forall|k: int|
                0 <= k < self.workers@.len() ==> !((#[trigger] self.workers@[k]).authority.bytes@
                    == to.bytes@ && self.workers@[k].id == *id),
            found matches Ok(info) ==> exists|k: int|
                {
                    &&& 0 <= k < self.workers@.len()
                    &&& (#[trigger] self.workers@[k]).authority.bytes@ == to.bytes@
                    &&& self.workers@[k].id == *id
                    &&& *info == self.workers@[k].info
                    &&& forall|a: int|
                        0 <= a < k ==> !((#[trigger] self.workers@[a]).authority.bytes@ == to.bytes@
                            && self.workers@[a].id == *id)
                },
    {
        let ghost key = (to@, *id);
        let mut i: usize = 0;
        assert(self.workers@.skip(0) =~= self.workers@);
        while i < self.workers.len()
            invariant
                i <= self.workers.len(),
                key == (to@, *id),
                self@.contains_key(key) <==> workers_by_key(self.workers@.skip(i as int)).contains_key(
                    key,
                ),
                self@.contains_key(key) ==> self@[key] == workers_by_key(
                    self.workers@.skip(i as int),
                )[key],
                forall|k: int|
                    0 <= k < i ==> !((#[trigger] self.workers@[k]).authority.bytes@ == to.bytes@
                        && self.workers@[k].id == *id),
            decreases self.workers.len() - i,
        {
            let entry = &self.workers[i];
            assert(self.workers@.skip(i as int).drop_first() =~= self.workers@.skip(i + 1));
            assert(self.workers@.skip(i as int)[0] == *entry);
            if entry.id == *id && entry.authority.same_as(to) {
                return Ok(&entry.info);
            }
            i = i + 1;
        }
        Err(ConfigError::NotInWorkerCache)
    }
}

/// In a cache where no two lines have the same authority and the same id, whoever looks up the
/// authority and the id of a line is given the addresses of that line.
pub proof fn law_worker_gives_the_addresses_of_its_line(
    cache: WorkerCache,
    i: int,
    to: PublicKey,
    found: Result<&WorkerInfo, ConfigError>,
)
    requires
        forall|a: int, b: int|
            0 <= a < b < cache.workers@.len() && (#[trigger] cache.workers@[a]).id == (
            #[trigger] cache.workers@[b]).id ==> cache.workers@[a].authority.bytes@
                != cache.workers@[b].authority.bytes@,
        0 <= i < cache.workers@.len(),
        to.bytes@ == cache.workers@[i].authority.bytes@,
        call_ensures(WorkerCache::worker, (&cache, &to, &cache.workers@[i].id), found),
    ensures
        found matches Ok(info) && {
            &&& components(info.transactions) == components(cache.workers@[i].info.transactions)
            &&& components(info.worker_to_worker) == components(
                cache.workers@[i].info.worker_to_worker,
            )
            &&& components(info.primary_to_worker) == components(
                cache.workers@[i].info.primary_to_worker,
            )
        },
{
    law_every_line_is_found(cache, i);
}

/// Whoever looks up an authority and an id that no line has is refused.
pub proof fn law_worker_refuses_the_unknown(
    cache: WorkerCache,
    to: PublicKey,
    id: WorkerId,
    found: Result<&WorkerInfo, ConfigError>,
)
    requires
        forall|a: int|
            0 <= a < cache.workers@.len() && (#[trigger] cache.workers@[a]).id == id
                ==> cache.workers@[a].authority.bytes@ != to.bytes@,
        call_ensures(WorkerCache::worker, (&cache, &to, &id), found),
    ensures
        found == Err::<&WorkerInfo, _>(ConfigError::NotInWorkerCache),
{
    law_only_lines_are_found(cache, to.bytes@, id);
}

} // verus!
