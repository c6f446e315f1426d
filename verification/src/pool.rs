//! The pool of helper processes: which process serves a request, when a new
//! one is needed, and which ones may go.
//!
//! The pool decides and keeps the books. Whoever runs the processes asks it
//! with [`Pool::get_loader`] or [`Pool::get_editor`], starts a process where
//! the answer is [`PoolAction::Spawn`], and reports it with
//! [`Pool::add_loader`] or [`Pool::add_editor`]. Times are milliseconds on a
//! clock that does not go back.

use crate::config::{ConfigEntryHash, EntryKey};
use vstd::prelude::*;

verus! {

/// A helper process in the pool.
#[derive(Debug, Clone, PartialEq, Eq)]
pub struct PooledProcess {
    key: ConfigEntryHash,
    id: u64,
    last_use: u64,
    users: Vec<u64>,
    disconnected: bool,
}

/// What the pool knows of a process.
pub struct ProcessState {
    /// What the process was started for
    pub key: EntryKey,
    /// The name under which the process is known
    pub id: u64,
    /// When the process was last handed out
    pub last_use: u64,
    /// The users that hold the process
    pub users: Seq<u64>,
    /// Whether the connection to the process is lost
    pub disconnected: bool,
}

impl View for PooledProcess {
    type V = ProcessState;

    closed spec fn view(&self) -> ProcessState {
        ProcessState {
            key: self.key@,
            id: self.id,
            last_use: self.last_use,
            users: self.users@,
            disconnected: self.disconnected,
        }
    }
}

impl PooledProcess {
    /// The name under which the process is known.
    pub fn id(&self) -> (id: u64)
        ensures
            id == self@.id,
    {
        self.id
    }

    /// Number of users that hold the process.
    pub fn n_users(&self) -> (users: usize)
        ensures
            users == self@.users.len(),
    {
        self.users.len()
    }

    /// Notes that the process is handed out at the time `now`.
    pub fn use_(&mut self, now: u64)
        ensures
            final(self)@ == (ProcessState { last_use: now, ..old(self)@ }),
    {
        self.last_use = now;
    }

    pub fn is_disconnected(&self) -> (disconnected: bool)
        ensures
            disconnected == self@.disconnected,
    {
        self.disconnected
    }
}

/// Limits of a pool.
#[derive(Debug, Clone, Copy, PartialEq, Eq, Structural)]
pub struct PoolConfig {
    loader_retention_time: u64,
    max_parallel_operations: usize,
}

impl PoolConfig {
    /// Time in milliseconds for which a process without users is kept.
    pub closed spec fn retention(&self) -> u64 {
        self.loader_retention_time
    }

    /// Number of users that may hold one process at a time.
    pub closed spec fn parallel(&self) -> usize {
        self.max_parallel_operations
    }

    /// Whether the limits make sense: a process can have a user.
    pub closed spec fn valid(&self) -> bool {
        self.max_parallel_operations >= 1
    }

    /// A minute of retention, and no limit on the users of a process.
    pub fn new() -> (config: PoolConfig)
        ensures
            config.valid(),
            config.retention() == 60_000,
            config.parallel() == usize::MAX,
    {
        PoolConfig { loader_retention_time: 60_000, max_parallel_operations: usize::MAX }
    }

    /// Sets the number of users that may hold one process at a time; zero
    /// stands for no limit.
    pub fn max_parallel_operations(&mut self, max_parallel_operations: usize)
        ensures
            final(self).valid(),
            final(self).retention() == old(self).retention(),
            final(self).parallel() == (if max_parallel_operations == 0 {
                usize::MAX
            } else {
                max_parallel_operations
            }),
    {
        if max_parallel_operations == 0 {
            self.max_parallel_operations = usize::MAX;
        } else {
            self.max_parallel_operations = max_parallel_operations;
        }
    }

    /// Sets the time in milliseconds for which a process without users is
    /// kept.
    pub fn loader_retention_time(&mut self, milliseconds: u64)
        ensures
            final(self).valid() == old(self).valid(),
            final(self).retention() == milliseconds,
            final(self).parallel() == old(self).parallel(),
    {
        self.loader_retention_time = milliseconds;
    }
}

impl Default for PoolConfig {
    fn default() -> (config: PoolConfig)
        ensures
            config.valid(),
            config.retention() == 60_000,
            config.parallel() == usize::MAX,
    {
        PoolConfig::new()
    }
}

/// What the caller has to do to get a process.
#[derive(Debug, Clone, Copy, PartialEq, Eq, Structural)]
pub enum PoolAction {
    /// Use the process of this name
    Reuse(u64),
    /// Start a process and add it to the pool
    Spawn,
}

/// What the pool knows of each process of a list.
pub open spec fn states(processes: Seq<PooledProcess>) -> Seq<ProcessState> {
    Seq::new(processes.len(), |i: int| processes[i]@)
}

/// Whether a process can take one more user for the given key.
pub open spec fn usable(process: ProcessState, key: EntryKey, parallel: int) -> bool {
    process.key == key && !process.disconnected && process.users.len() < parallel
}

/// The first process of the list that can take the request, if there is one.
pub open spec fn first_usable(processes: Seq<ProcessState>, key: EntryKey, parallel: int) -> Option<
    int,
>
    decreases processes.len(),
{
    if processes.len() == 0 {
        None
    } else {
        match first_usable(processes.drop_last(), key, parallel) {
            Some(i) => Some(i),
            None => if usable(processes.last(), key, parallel) {
                Some(processes.len() - 1)
            } else {
                None
            },
        }
    }
}

/// A process once it is handed to one more user at the time `now`.
pub open spec fn handed_out(process: ProcessState, now: u64, user: u64) -> ProcessState {
    ProcessState { last_use: now, users: process.users.push(user), ..process }
}

/// A process that was started for `key` at the time `now` and has one user.
pub open spec fn started(key: EntryKey, id: u64, now: u64, user: u64) -> ProcessState {
    ProcessState { key, id, last_use: now, users: seq![user], disconnected: false }
}

/// Whether the sweep at the time `now` takes a process away: it has no user
/// and was last handed out more than the retention time ago.
pub open spec fn expired(process: ProcessState, now: u64, retention: u64) -> bool {
    process.users.len() == 0 && now - process.last_use > retention
}

/// The processes that the sweep at the time `now` leaves, in their order.
pub open spec fn swept(processes: Seq<ProcessState>, now: u64, retention: u64) -> Seq<ProcessState>
    decreases processes.len(),
{
    if processes.len() == 0 {
        Seq::empty()
    } else {
        let head = swept(processes.drop_last(), now, retention);
        if expired(processes.last(), now, retention) {
            head
        } else {
            head.push(processes.last())
        }
    }
}

/// The users of a process without one of them.
pub open spec fn without_user(users: Seq<u64>, user: u64) -> Seq<u64>
    decreases users.len(),
{
    if users.len() == 0 {
        Seq::empty()
    } else {
        let head = without_user(users.drop_last(), user);
        if users.last() == user {
            head
        } else {
            head.push(users.last())
        }
    }
}

/// The processes once a user has let go of every process that it held.
pub open spec fn released(processes: Seq<ProcessState>, user: u64) -> Seq<ProcessState> {
    Seq::new(
        processes.len(),
        |i: int| ProcessState { users: without_user(processes[i].users, user), ..processes[i] },
    )
}

/// The processes once the connection to the process `id` is lost.
pub open spec fn disconnected(processes: Seq<ProcessState>, id: u64) -> Seq<ProcessState> {
    Seq::new(
        processes.len(),
        |i: int|
            if processes[i].id == id {
                ProcessState { disconnected: true, ..processes[i] }
            } else {
                processes[i]
            },
    )
}

/// The first usable process is usable, and no process before it is.
pub proof fn lemma_first_usable(processes: Seq<ProcessState>, key: EntryKey, parallel: int)
    ensures
        match first_usable(processes, key, parallel) {
            Some(i) => 0 <= i < processes.len() && usable(processes[i], key, parallel) && forall|
                j: int,
            | 0 <= j < i ==> !usable(processes[j], key, parallel),
            None => forall|j: int| 0 <= j < processes.len() ==> !usable(processes[j], key, parallel),
        },
    decreases processes.len(),
{
    if processes.len() > 0 {
        let head = processes.drop_last();
        lemma_first_usable(head, key, parallel);
        assert forall|j: int| 0 <= j < head.len() implies head[j] == processes[j] by {}
        match first_usable(head, key, parallel) {
            Some(i) => {
                assert(head[i] == processes[i]);
            },
            None => {
                assert forall|j: int| 0 <= j < processes.len() - 1 implies !usable(
                    processes[j],
                    key,
                    parallel,
                ) by {
                    assert(head[j] == processes[j]);
                }
            },
        }
    }
}

/// Where a list holds a usable process, a lookup finds one.
pub proof fn lemma_usable_is_found(
    processes: Seq<ProcessState>,
    key: EntryKey,
    parallel: int,
    at: int,
)
    requires
        0 <= at < processes.len(),
        usable(processes[at], key, parallel),
    ensures
        first_usable(processes, key, parallel) is Some,
{
    lemma_first_usable(processes, key, parallel);
}

/// The sweep leaves every process that has a user or was handed out within the
/// retention time.
pub proof fn lemma_swept_keeps(processes: Seq<ProcessState>, now: u64, retention: u64, at: int)
    requires
        0 <= at < processes.len(),
        !expired(processes[at], now, retention),
    ensures
        swept(processes, now, retention).contains(processes[at]),
    decreases processes.len(),
{
    let head = processes.drop_last();
    let kept = swept(head, now, retention);
    if at == processes.len() - 1 {
        let all = kept.push(processes.last());
        assert(all[all.len() - 1] == processes[at]);
    } else {
        assert(head[at] == processes[at]);
        lemma_swept_keeps(head, now, retention, at);
        let i = choose|i: int| 0 <= i < kept.len() && kept[i] == processes[at];
        if !expired(processes.last(), now, retention) {
            assert(kept.push(processes.last())[i] == processes[at]);
        }
    }
}

/// Two loads in a row under one key start one process.
///
/// The first load finds no process and has one started at the time `first`.
/// Its user may let go of the process, and sweeps may run up to the time
/// `second`. If no more than the retention time has passed, if the process has
/// kept its connection, and if more than one user may hold a process or the
/// first user has let go, then the second load finds a process in the pool.
pub proof fn lemma_second_load_reuses(
    processes: Seq<ProcessState>,
    key: EntryKey,
    config: PoolConfig,
    id: u64,
    first: u64,
    second: u64,
    user: u64,
    let_go: bool,
)
    requires
        config.valid(),
        first_usable(processes, key, config.parallel() as int) is None,
        first <= second,
        second - first <= config.retention(),
        config.parallel() > 1 || let_go,
    ensures
        ({
            let spawned = processes.push(started(key, id, first, user));
            let held = if let_go {
                released(spawned, user)
            } else {
                spawned
            };
            first_usable(swept(held, second, config.retention()), key, config.parallel() as int)
                is Some
        }),
{
    let parallel = config.parallel() as int;
    let spawned = processes.push(started(key, id, first, user));
    let held = if let_go {
        released(spawned, user)
    } else {
        spawned
    };
    let at = processes.len() as int;
    let process = held[at];
    assert(spawned[at] == started(key, id, first, user));
    if let_go {
        let users = seq![user];
        assert(users.len() == 1 && users.last() == user);
        assert(users.drop_last() =~= Seq::<u64>::empty());
        assert(without_user(users.drop_last(), user) =~= Seq::<u64>::empty());
        assert(without_user(users, user) =~= Seq::<u64>::empty());
        assert(process.users.len() == 0);
    } else {
        assert(process.users.len() == 1);
    }
    assert(usable(process, key, parallel));
    assert(!expired(process, second, config.retention()));
    lemma_swept_keeps(held, second, config.retention(), at);
    let kept = swept(held, second, config.retention());
    let i = choose|i: int| 0 <= i < kept.len() && kept[i] == process;
    lemma_usable_is_found(kept, key, parallel, i);
}

/// Looks for a process that can take the request. The process that is found is
/// handed to the user.
fn get_process(
    processes: &mut Vec<PooledProcess>,
    key: &ConfigEntryHash,
    parallel: usize,
    now: u64,
    user: u64,
) -> (action: PoolAction)
    ensures
        match first_usable(states(old(processes)@), key@, parallel as int) {
            Some(i) => action == PoolAction::Reuse(old(processes)@[i]@.id) && states(
                final(processes)@,
            ) == states(old(processes)@).update(i, handed_out(old(processes)@[i]@, now, user)),
            None => action == PoolAction::Spawn && states(final(processes)@) == states(
                old(processes)@,
            ),
        },
{
    let ghost before = states(processes@);
    let mut i: usize = 0;
    while i < processes.len()
        invariant
            i <= processes@.len(),
            states(processes@) == before,
            before == states(old(processes)@),
            first_usable(before.subrange(0, i as int), key@, parallel as int) is None,
        decreases processes@.len() - i,
    {
        let ghost head = before.subrange(0, i + 1);
        assert(head.drop_last() =~= before.subrange(0, i as int));
        assert(head.last() == processes@[i as int]@);
        let found = processes[i].key.same(key) && !processes[i].disconnected
            && processes[i].users.len() < parallel;
        if found {
            proof {
                lemma_first_usable(before, key@, parallel as int);
                lemma_first_usable(before.subrange(0, i as int), key@, parallel as int);
                assert(usable(before[i as int], key@, parallel as int));
                match first_usable(before, key@, parallel as int) {
                    Some(k) => {
                        if k < i {
                            assert(before.subrange(0, i as int)[k] == before[k]);
                        }
                    },
                    None => {},
                }
                assert(first_usable(before, key@, parallel as int) == Some(i as int));
            }
            let mut process = processes.remove(i);
            let id = process.id;
            process.last_use = now;
            process.users.push(user);
            processes.insert(i, process);
            assert(states(processes@) =~= before.update(
                i as int,
                handed_out(before[i as int], now, user),
            ));
            return PoolAction::Reuse(id);
        }
        i += 1;
    }
    assert(before.subrange(0, i as int) =~= before);
    PoolAction::Spawn
}

/// Takes away the processes that have no user and were last handed out more
/// than the retention time ago.
fn sweep(processes: &mut Vec<PooledProcess>, now: u64, retention: u64)
    ensures
        states(final(processes)@) == swept(states(old(processes)@), now, retention),
{
    let ghost before = states(processes@);
    let mut kept: Vec<PooledProcess> = Vec::new();
    let mut rest: Vec<PooledProcess> = Vec::new();
    std::mem::swap(processes, &mut rest);
    let mut i: usize = 0;
    while i < rest.len()
        invariant
            i <= rest@.len(),
            states(rest@) == before,
            states(kept@) == swept(before.subrange(0, i as int), now, retention),
        decreases rest@.len() - i,
    {
        let ghost head = before.subrange(0, i + 1);
        assert(head.drop_last() =~= before.subrange(0, i as int));
        assert(head.last() == rest@[i as int]@);
        let drop = rest[i].users.len() == 0 && now >= rest[i].last_use && now - rest[i].last_use
            > retention;
        if !drop {
            kept.push(rest[i].clone_process());
            assert(states(kept@) =~= swept(head, now, retention));
        }
        i += 1;
    }
    assert(before.subrange(0, i as int) =~= before);
    *processes = kept;
}

impl PooledProcess {
    fn clone_process(&self) -> (copy: PooledProcess)
        ensures
            copy@ == self@,
    {
        let mut users: Vec<u64> = Vec::new();
        let mut i: usize = 0;
        while i < self.users.len()
            invariant
                i <= self.users@.len(),
                users@ == self.users@.subrange(0, i as int),
            decreases self.users@.len() - i,
        {
            users.push(self.users[i]);
            assert(users@ =~= self.users@.subrange(0, i + 1));
            i += 1;
        }
        assert(users@ =~= self.users@);
        PooledProcess {
            key: self.key.duplicate(),
            id: self.id,
            last_use: self.last_use,
            users,
            disconnected: self.disconnected,
        }
    }

    fn release(&mut self, user: u64)
        ensures
            final(self)@ == (ProcessState {
                users: without_user(old(self)@.users, user),
                ..old(self)@
            }),
    {
        let ghost before = self.users@;
        let mut users: Vec<u64> = Vec::new();
        let mut i: usize = 0;
        while i < self.users.len()
            invariant
                i <= self.users@.len(),
                self.users@ == before,
                users@ == without_user(before.subrange(0, i as int), user),
            decreases self.users@.len() - i,
        {
            let ghost head = before.subrange(0, i + 1);
            assert(head.drop_last() =~= before.subrange(0, i as int));
            if self.users[i] != user {
                users.push(self.users[i]);
            }
            i += 1;
        }
        assert(before.subrange(0, i as int) =~= before);
        self.users = users;
    }
}

/// Lets a user go from every process of the list.
fn release_all(processes: &mut Vec<PooledProcess>, user: u64)
    ensures
        states(final(processes)@) == released(states(old(processes)@), user),
{
    let ghost before = states(processes@);
    let mut i: usize = 0;
    while i < processes.len()
        invariant
            i <= processes@.len(),
            processes@.len() == before.len(),
            forall|j: int| 0 <= j < i ==> (#[trigger] processes@[j])@ == released(before, user)[j],
            forall|j: int| i <= j < before.len() ==> (#[trigger] processes@[j])@ == before[j],
        decreases processes@.len() - i,
    {
        let mut process = processes.remove(i);
        process.release(user);
        processes.insert(i, process);
        i += 1;
    }
    assert(states(processes@) =~= released(before, user));
}

/// Marks the process `id` of the list as disconnected.
fn disconnect(processes: &mut Vec<PooledProcess>, id: u64)
    ensures
        states(final(processes)@) == disconnected(states(old(processes)@), id),
{
    let ghost before = states(processes@);
    let mut i: usize = 0;
    while i < processes.len()
        invariant
            i <= processes@.len(),
            processes@.len() == before.len(),
            forall|j: int|
                0 <= j < i ==> (#[trigger] processes@[j])@ == disconnected(before, id)[j],
            forall|j: int| i <= j < before.len() ==> (#[trigger] processes@[j])@ == before[j],
        decreases processes@.len() - i,
    {
        if processes[i].id == id {
            let mut process = processes.remove(i);
            process.disconnected = true;
            processes.insert(i, process);
        }
        i += 1;
    }
    assert(states(processes@) =~= disconnected(before, id));
}

/// The helper processes that are running, and the limits that hold for them.
#[derive(Debug, Clone, PartialEq, Eq)]
pub struct Pool {
    loaders: Vec<PooledProcess>,
    editors: Vec<PooledProcess>,
    config: PoolConfig,
}

impl Pool {
    /// The loader processes of the pool.
    pub closed spec fn loaders(&self) -> Seq<ProcessState> {
        states(self.loaders@)
    }

    /// The editor processes of the pool.
    pub closed spec fn editors(&self) -> Seq<ProcessState> {
        states(self.editors@)
    }

    /// The limits of the pool.
    pub closed spec fn limits(&self) -> PoolConfig {
        self.config
    }

    /// A pool without processes.
    pub fn new(config: PoolConfig) -> (pool: Pool)
        ensures
            pool.loaders() == Seq::<ProcessState>::empty(),
            pool.editors() == Seq::<ProcessState>::empty(),
            pool.limits() == config,
    {
        let pool = Pool { loaders: Vec::new(), editors: Vec::new(), config };
        assert(pool.loaders() =~= Seq::<ProcessState>::empty());
        assert(pool.editors() =~= Seq::<ProcessState>::empty());
        pool
    }

    /// Looks for a loader process for the key. The first process that was
    /// started for the key, is connected and has room for a user is handed
    /// to the user, and the time is noted; where there is none, the caller
    /// has to start one.
    pub fn get_loader(&mut self, key: &ConfigEntryHash, now: u64, user: u64) -> (action: PoolAction)
        ensures
            final(self).editors() == old(self).editors(),
            final(self).limits() == old(self).limits(),
            match first_usable(old(self).loaders(), key@, old(self).limits().parallel() as int) {
                Some(i) => {
                    &&& action == PoolAction::Reuse(old(self).loaders()[i].id)
                    &&& final(self).loaders() == old(self).loaders().update(
                        i,
                        handed_out(old(self).loaders()[i], now, user),
                    )
                },
                None => action == PoolAction::Spawn && final(self).loaders() == old(self).loaders(),
            },
    {
        proof {
            lemma_first_usable(self.loaders(), key@, self.config.parallel() as int);
        }
        get_process(&mut self.loaders, key, self.config.max_parallel_operations, now, user)
    }

    /// Looks for an editor process for the key, as [`Pool::get_loader`] does
    /// for loaders.
    pub fn get_editor(&mut self, key: &ConfigEntryHash, now: u64, user: u64) -> (action: PoolAction)
        ensures
            final(self).loaders() == old(self).loaders(),
            final(self).limits() == old(self).limits(),
            match first_usable(old(self).editors(), key@, old(self).limits().parallel() as int) {
                Some(i) => {
                    &&& action == PoolAction::Reuse(old(self).editors()[i].id)
                    &&& final(self).editors() == old(self).editors().update(
                        i,
                        handed_out(old(self).editors()[i], now, user),
                    )
                },
                None => action == PoolAction::Spawn && final(self).editors() == old(self).editors(),
            },
    {
        proof {
            lemma_first_usable(self.editors(), key@, self.config.parallel() as int);
        }
        get_process(&mut self.editors, key, self.config.max_parallel_operations, now, user)
    }

    /// Adds a loader process that was started for the key and is held by the
    /// user.
    pub fn add_loader(&mut self, key: ConfigEntryHash, id: u64, now: u64, user: u64)
        ensures
            final(self).loaders() == old(self).loaders().push(started(key@, id, now, user)),
            final(self).editors() == old(self).editors(),
            final(self).limits() == old(self).limits(),
    {
        let mut users: Vec<u64> = Vec::new();
        users.push(user);
        assert(users@ =~= seq![user]);
        self.loaders.push(PooledProcess { key, id, last_use: now, users, disconnected: false });
        assert(self.loaders() =~= old(self).loaders().push(started(key@, id, now, user)));
    }

    /// Adds an editor process that was started for the key and is held by the
    /// user.
    pub fn add_editor(&mut self, key: ConfigEntryHash, id: u64, now: u64, user: u64)
        ensures
            final(self).editors() == old(self).editors().push(started(key@, id, now, user)),
            final(self).loaders() == old(self).loaders(),
            final(self).limits() == old(self).limits(),
    {
        let mut users: Vec<u64> = Vec::new();
        users.push(user);
        assert(users@ =~= seq![user]);
        self.editors.push(PooledProcess { key, id, last_use: now, users, disconnected: false });
        assert(self.editors() =~= old(self).editors().push(started(key@, id, now, user)));
    }

    /// Notes that a user has let go of the processes that it held.
    pub fn release_user(&mut self, user: u64)
        ensures
            final(self).loaders() == released(old(self).loaders(), user),
            final(self).editors() == released(old(self).editors(), user),
            final(self).limits() == old(self).limits(),
    {
        release_all(&mut self.loaders, user);
        release_all(&mut self.editors, user);
    }

    /// Notes that the connection to a process is lost. The process is handed
    /// to nobody from now on.
    pub fn mark_disconnected(&mut self, id: u64)
        ensures
            final(self).loaders() == disconnected(old(self).loaders(), id),
            final(self).editors() == disconnected(old(self).editors(), id),
            final(self).limits() == old(self).limits(),
    {
        disconnect(&mut self.loaders, id);
        disconnect(&mut self.editors, id);
    }

    /// Takes away the loader processes that have no user and were last handed
    /// out more than the retention time ago.
    pub fn clean_loaders(&mut self, now: u64)
        ensures
            final(self).loaders() == swept(
                old(self).loaders(),
                now,
                old(self).limits().retention(),
            ),
            final(self).editors() == old(self).editors(),
            final(self).limits() == old(self).limits(),
    {
        sweep(&mut self.loaders, now, self.config.loader_retention_time);
    }

    /// The names of the loader processes in the pool.
    pub fn loader_ids(&self) -> (ids: Vec<u64>)
        ensures
            ids@ == Seq::new(self.loaders().len(), |i: int| self.loaders()[i].id),
    {
        let mut ids: Vec<u64> = Vec::new();
        let mut i: usize = 0;
        while i < self.loaders.len()
            invariant
                i <= self.loaders@.len(),
                ids@ == Seq::new(i as nat, |j: int| self.loaders()[j].id),
            decreases self.loaders@.len() - i,
        {
            ids.push(self.loaders[i].id);
            assert(ids@ =~= Seq::new((i + 1) as nat, |j: int| self.loaders()[j].id));
            i += 1;
        }
        ids
    }
}

} // verus!
