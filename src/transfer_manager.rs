use vstd::prelude::*;
use crate::crypto::{generate_secure_code, is_secure_code};
use crate::device::Device;

verus! {

/// Where a transfer task stands. `Completed`, `Failed` and `Cancelled` are final.
#[derive(Debug, Clone)]
pub enum TransferStatus {
    Pending,
    InProgress,
    Paused,
    Completed,
    Failed(String),
    Cancelled,
}

/// One transfer of a file or a folder to a peer.
#[derive(Debug, Clone)]
pub struct TransferTask {
    pub id: String,
    pub source_path: String,
    pub target_device: Device,
    pub file_size: u64,
    pub transferred: u64,
    pub status: TransferStatus,
    pub created_at: i64,
    pub encrypted: bool,
    pub secure_code: Option<String>,
}

/// Finished tasks, in the order they finished.
#[derive(Debug, Clone)]
pub struct TransferHistory {
    pub tasks: Vec<TransferTask>,
}

/// A request to change a task's status.
#[derive(Debug, Clone, Copy, PartialEq, Eq)]
pub enum LifecycleOp {
    Start,
    Pause,
    Resume,
    Cancel,
}

/// What a running transfer does before its next chunk.
#[derive(Debug, Clone, Copy, PartialEq, Eq)]
pub enum ChunkDecision {
    Proceed,
    Wait,
    Abort,
}

pub open spec fn is_terminal(s: TransferStatus) -> bool {
    s is Completed || s is Failed || s is Cancelled
}

/// The status a lifecycle operation leads to from `s`, or `None` where it is refused.
pub open spec fn next_status(op: LifecycleOp, s: TransferStatus) -> Option<TransferStatus> {
    match op {
        LifecycleOp::Start => if s is Pending {
            Some(TransferStatus::InProgress)
        } else {
            None
        },
        LifecycleOp::Pause => if s is Pending || s is InProgress || s is Paused {
            Some(TransferStatus::Paused)
        } else {
            None
        },
        LifecycleOp::Resume => if s is Paused {
            Some(TransferStatus::InProgress)
        } else {
            None
        },
        LifecycleOp::Cancel => if s is Pending || s is InProgress || s is Paused {
            Some(TransferStatus::Cancelled)
        } else {
            None
        },
    }
}

/// The facts every task keeps.
pub open spec fn task_ok(t: TransferTask) -> bool {
    &&& t.transferred <= t.file_size
    &&& t.encrypted <==> t.secure_code is Some
    &&& t.status is Completed ==> t.transferred == t.file_size
}

pub open spec fn task_ids_distinct(s: Seq<TransferTask>) -> bool {
    forall|i: int, j: int| 0 <= i < j < s.len() ==> s[i].id@ != s[j].id@
}

pub open spec fn has_task(s: Seq<TransferTask>, id: Seq<char>) -> bool {
    exists|i: int| 0 <= i < s.len() && s[i].id@ == id
}

/// The position of the task with this id (meaningful where `has_task` holds).
pub open spec fn task_pos(s: Seq<TransferTask>, id: Seq<char>) -> int {
    choose|i: int| 0 <= i < s.len() && s[i].id@ == id
}

pub open spec fn with_status(t: TransferTask, s: TransferStatus) -> TransferTask {
    TransferTask { status: s, ..t }
}

/// The snapshot a task leaves for the history once its run has ended: the
/// outcome decides between completed, with every byte moved, and failed.
pub open spec fn finished(t: TransferTask, outcome: Result<(), String>) -> TransferTask {
    match outcome {
        Ok(_) => TransferTask { status: TransferStatus::Completed, transferred: t.file_size, ..t },
        Err(e) => with_status(t, TransferStatus::Failed(e)),
    }
}

/// Sum of a sequence of sizes.
pub open spec fn sum_sizes(s: Seq<u64>) -> nat
    decreases s.len(),
{
    if s.len() == 0 {
        0
    } else {
        sum_sizes(s.drop_last()) + s.last() as nat
    }
}

/// Milliseconds still to wait so that `sent` bytes in `elapsed_ms` stay under
/// `limit` bytes per second.
pub open spec fn throttle_spec(limit: Option<u64>, sent: u64, elapsed_ms: u64) -> nat {
    match limit {
        Some(l) if l > 0 => {
            let needed = (sent as int * 1000 + l as int - 1) / l as int;
            if needed > elapsed_ms as int {
                (needed - elapsed_ms as int) as nat
            } else {
                0
            }
        },
        _ => 0,
    }
}

/// Relies on uuid's `Uuid::new_v4` and its hyphenated text form: a random id of
/// 36 characters.
#[verifier::external_body]
fn new_task_id() -> (r: String)
    ensures
        r@.len() == 36,
{
    uuid::Uuid::new_v4().to_string()
}

/// Relies on chrono's `Utc::now().timestamp()`: seconds since the Unix epoch.
#[verifier::external_body]
fn now_timestamp() -> (r: i64) {
    chrono::Utc::now().timestamp()
}

impl TransferStatus {
    pub fn snapshot(&self) -> (r: TransferStatus)
        ensures
            r == *self,
    {
        match self {
            TransferStatus::Pending => TransferStatus::Pending,
            TransferStatus::InProgress => TransferStatus::InProgress,
            TransferStatus::Paused => TransferStatus::Paused,
            TransferStatus::Completed => TransferStatus::Completed,
            TransferStatus::Failed(e) => TransferStatus::Failed(e.clone()),
            TransferStatus::Cancelled => TransferStatus::Cancelled,
        }
    }

    /// Whether no operation can change this status any more.
    pub fn is_final(&self) -> (r: bool)
        ensures
            r == is_terminal(*self),
    {
        match self {
            TransferStatus::Completed | TransferStatus::Failed(_) | TransferStatus::Cancelled => true,
            _ => false,
        }
    }
}

impl TransferTask {
    pub fn snapshot(&self) -> (r: TransferTask)
        ensures
            r == *self,
    {
        TransferTask {
            id: self.id.clone(),
            source_path: self.source_path.clone(),
            target_device: self.target_device.snapshot(),
            file_size: self.file_size,
            transferred: self.transferred,
            status: self.status.snapshot(),
            created_at: self.created_at,
            encrypted: self.encrypted,
            secure_code: match &self.secure_code {
                Some(c) => Some(c.clone()),
                None => None,
            },
        }
    }
}

fn copy_tasks(v: &Vec<TransferTask>) -> (r: Vec<TransferTask>)
    ensures
        r@ == v@,
{
    let mut out: Vec<TransferTask> = Vec::new();
    let mut i: usize = 0;
    while i < v.len()
        invariant
            i <= v@.len(),
            out@ == v@.subrange(0, i as int),
        decreases v@.len() - i,
    {
        out.push(v[i].snapshot());
        i = i + 1;
        assert(out@ =~= v@.subrange(0, i as int));
    }
    assert(v@.subrange(0, i as int) =~= v@);
    out
}

fn find_task(v: &Vec<TransferTask>, id: &String) -> (r: Option<usize>)
    ensures
        match r {
            Some(i) => i < v@.len() && v@[i as int].id@ == id@,
            None => !has_task(v@, id@),
        },
{
    let mut i: usize = 0;
    while i < v.len()
        invariant
            i <= v@.len(),
            forall|k: int| 0 <= k < i ==> v@[k].id@ != id@,
        decreases v@.len() - i,
    {
        if v[i].id == *id {
            return Some(i);
        }
        i = i + 1;
    }
    None
}

/// Owns the tasks that are under way and the history of finished ones.
pub struct AdvancedTransferManager {
    active_transfers: Vec<TransferTask>,
    transfer_history: TransferHistory,
    bandwidth_limit: Option<u64>,
}

impl AdvancedTransferManager {
    pub closed spec fn active(&self) -> Seq<TransferTask> {
        self.active_transfers@
    }

    pub closed spec fn history(&self) -> Seq<TransferTask> {
        self.transfer_history.tasks@
    }

    pub closed spec fn limit(&self) -> Option<u64> {
        self.bandwidth_limit
    }

    /// An id is taken once a task has it, under way or finished.
    pub open spec fn id_in_use(&self, id: Seq<char>) -> bool {
        has_task(self.active(), id) || has_task(self.history(), id)
    }

    pub open spec fn wf(&self) -> bool {
        &&& task_ids_distinct(self.active() + self.history())
        &&& forall|i: int|
            0 <= i < self.active().len() ==> task_ok(#[trigger] self.active()[i]) && !is_terminal(
                self.active()[i].status,
            )
        &&& forall|i: int|
            0 <= i < self.history().len() ==> task_ok(#[trigger] self.history()[i]) && is_terminal(
                self.history()[i].status,
            )
    }

    pub fn new() -> (r: AdvancedTransferManager)
        ensures
            r.wf(),
            r.active() == Seq::<TransferTask>::empty(),
            r.history() == Seq::<TransferTask>::empty(),
            r.limit() is None,
    {
        AdvancedTransferManager {
            active_transfers: Vec::new(),
            transfer_history: TransferHistory { tasks: Vec::new() },
            bandwidth_limit: None,
        }
    }

    fn id_taken(&self, id: &String) -> (r: bool)
        ensures
            r == self.id_in_use(id@),
    {
        find_task(&self.active_transfers, id).is_some() || find_task(
            &self.transfer_history.tasks,
            id,
        ).is_some()
    }

    /// Registers a pending task under the given id, or refuses an id that is
    /// already in use.
    pub fn add_transfer_with(
        &mut self,
        task_id: String,
        source_path: String,
        target_device: Device,
        file_size: u64,
        secure_code: Option<String>,
        created_at: i64,
    ) -> (r: Result<String, String>)
        requires
            old(self).wf(),
        ensures
            final(self).wf(),
            final(self).history() == old(self).history(),
            final(self).limit() == old(self).limit(),
            old(self).id_in_use(task_id@) ==> r is Err && final(self).active() == old(self).active(),
            !old(self).id_in_use(task_id@) ==> r == Ok::<String, String>(task_id) && final(self).active() == old(self).active().push(
                TransferTask {
                    id: task_id,
                    source_path,
                    target_device,
                    file_size,
                    transferred: 0,
                    status: TransferStatus::Pending,
                    created_at,
                    encrypted: secure_code is Some,
                    secure_code,
                },
            ),
    {
        if self.id_taken(&task_id) {
            return Err(String::from_str("Transfer task id already in use"));
        }
        let encrypted = secure_code.is_some();
        let task = TransferTask {
            id: task_id.clone(),
            source_path,
            target_device,
            file_size,
            transferred: 0,
            status: TransferStatus::Pending,
            created_at,
            encrypted,
            secure_code,
        };
        let ghost a = self.active();
        let ghost h = self.history();
        self.active_transfers.push(task);
        proof {
            let n = self.active();
            assert forall|i: int, j: int|
                0 <= i < j < (n + h).len() implies (n + h)[i].id@ != (n + h)[j].id@ by {
                if j == a.len() as int {
                    assert(a + h =~= (n + h).remove(a.len() as int));
                    if i < a.len() {
                        assert(n[i] == a[i]);
                    }
                } else if i == a.len() as int {
                    assert(h[j - a.len() - 1] == (n + h)[j]);
                } else {
                    let ii = if i < a.len() { i } else { i - 1 };
                    let jj = if j < a.len() { j } else { j - 1 };
                    assert((a + h)[ii] == (n + h)[i]);
                    assert((a + h)[jj] == (n + h)[j]);
                }
            }
        }
        Ok(task_id)
    }

    /// Creates a pending task for a source of the given size, with a fresh id and,
    /// when encryption is asked for, a fresh secure code.
    pub fn add_transfer(
        &mut self,
        source_path: String,
        target_device: Device,
        encrypted: bool,
        file_size: u64,
    ) -> (r: Result<String, String>)
        requires
            old(self).wf(),
        ensures
            final(self).wf(),
            final(self).history() == old(self).history(),
            final(self).limit() == old(self).limit(),
            match r {
                Ok(id) => !old(self).id_in_use(id@) && final(self).active().len() == old(self).active().len() + 1 && final(self).active().drop_last() == old(self).active()
                    && ({
                    let t = final(self).active().last();
                    &&& t.id == id
                    &&& t.source_path == source_path
                    &&& t.target_device == target_device
                    &&& t.file_size == file_size
                    &&& t.transferred == 0
                    &&& t.status is Pending
                    &&& t.encrypted == encrypted
                    &&& match t.secure_code {
                        Some(c) => is_secure_code(c@),
                        None => true,
                    }
                }),
                Err(_) => final(self).active() == old(self).active() && exists|s: Seq<char>|
                    s.len() == 36 && old(self).id_in_use(s),
            },
    {
        let task_id = new_task_id();
        let ghost tid = task_id@;
        let secure_code = if encrypted {
            Some(generate_secure_code())
        } else {
            None
        };
        let created_at = now_timestamp();
        let r = self.add_transfer_with(
            task_id,
            source_path,
            target_device,
            file_size,
            secure_code,
            created_at,
        );
        proof {
            if r is Ok {
                assert(self.active().drop_last() =~= old(self).active());
            } else {
                assert(old(self).id_in_use(tid));
            }
        }
        r
    }

    /// Applies a lifecycle operation other than cancelling to the task with the
    /// given id.
    fn change_status(&mut self, task_id: &str, op: LifecycleOp) -> (r: Result<(), String>)
        requires
            old(self).wf(),
            op != LifecycleOp::Cancel,
        ensures
            final(self).wf(),
            final(self).history() == old(self).history(),
            final(self).limit() == old(self).limit(),
            !has_task(old(self).active(), task_id@) ==> r is Err && r->Err_0@
                == "Transfer task not found"@ && final(self).active() == old(self).active(),
            has_task(old(self).active(), task_id@) ==> {
                let i = task_pos(old(self).active(), task_id@);
                let t = old(self).active()[i];
                match next_status(op, t.status) {
                    Some(s) => r is Ok && final(self).active() == old(self).active().update(
                        i,
                        with_status(t, s),
                    ),
                    None => r is Err && final(self).active() == old(self).active(),
                }
            },
    {
        let id = task_id.to_owned();
        match find_task(&self.active_transfers, &id) {
            None => Err(String::from_str("Transfer task not found")),
            Some(i) => {
                let ghost a = self.active();
                let ghost h = self.history();
                proof {
                    let c = task_pos(a, id@);
                    assert((a + h)[c].id@ == (a + h)[i as int].id@);
                    assert(c == i as int);
                }
                let mut t = self.active_transfers[i].snapshot();
                let next = match (op, &t.status) {
                    (LifecycleOp::Start, TransferStatus::Pending) => Some(TransferStatus::InProgress),
                    (LifecycleOp::Pause, TransferStatus::Pending)
                    | (LifecycleOp::Pause, TransferStatus::InProgress)
                    | (LifecycleOp::Pause, TransferStatus::Paused) => Some(TransferStatus::Paused),
                    (LifecycleOp::Resume, TransferStatus::Paused) => Some(TransferStatus::InProgress),
                    _ => None,
                };
                match next {
                    Some(s) => {
                        t.status = s;
                        self.active_transfers.set(i, t);
                        proof {
                            let n = self.active();
                            assert forall|x: int, y: int|
                                0 <= x < y < (n + h).len() implies (n + h)[x].id@ != (n
                                    + h)[y].id@ by {
                                assert((n + h)[x].id@ == (a + h)[x].id@);
                                assert((n + h)[y].id@ == (a + h)[y].id@);
                            }
                        }
                        Ok(())
                    },
                    None => Err(String::from_str("Transfer task cannot make this change")),
                }
            },
        }
    }

    /// Marks a pending task as running and hands back its snapshot for the run.
    pub fn start_transfer(&mut self, task_id: &str) -> (r: Result<TransferTask, String>)
        requires
            old(self).wf(),
        ensures
            final(self).wf(),
            final(self).history() == old(self).history(),
            final(self).limit() == old(self).limit(),
            !has_task(old(self).active(), task_id@) ==> r is Err && r->Err_0@
                == "Transfer task not found"@ && final(self).active() == old(self).active(),
            has_task(old(self).active(), task_id@) ==> {
                let i = task_pos(old(self).active(), task_id@);
                let t = old(self).active()[i];
                if t.status is Pending {
                    r == Ok::<TransferTask, String>(with_status(t, TransferStatus::InProgress))
                        && final(self).active() == old(self).active().update(
                        i,
                        with_status(t, TransferStatus::InProgress),
                    )
                } else {
                    r is Err && final(self).active() == old(self).active()
                }
            },
    {
        let r = self.change_status(task_id, LifecycleOp::Start);
        match r {
            Err(e) => Err(e),
            Ok(_) => {
                let id = task_id.to_owned();
                let ghost a = old(self).active();
                match find_task(&self.active_transfers, &id) {
                    Some(i) => {
                        proof {
                            let h = self.history();
                            let n = self.active();
                            let c = task_pos(a, id@);
                            assert((n + h)[c].id@ == (n + h)[i as int].id@);
                        }
                        Ok(self.active_transfers[i].snapshot())
                    },
                    None => {
                        proof {
                            let c = task_pos(a, id@);
                            assert(self.active()[c].id@ == id@);
                        }
                        Err(String::from_str("Transfer task not found"))
                    },
                }
            },
        }
    }

    pub fn pause_transfer(&mut self, task_id: &str) -> (r: Result<(), String>)
        requires
            old(self).wf(),
        ensures
            final(self).wf(),
            final(self).history() == old(self).history(),
            !has_task(old(self).active(), task_id@) ==> r is Err && r->Err_0@
                == "Transfer task not found"@ && final(self).active() == old(self).active(),
            has_task(old(self).active(), task_id@) ==> {
                let i = task_pos(old(self).active(), task_id@);
                let t = old(self).active()[i];
                if t.status is Pending || t.status is InProgress || t.status is Paused {
                    r is Ok && final(self).active() == old(self).active().update(
                        i,
                        with_status(t, TransferStatus::Paused),
                    )
                } else {
                    r is Err && final(self).active() == old(self).active()
                }
            },
    {
        self.change_status(task_id, LifecycleOp::Pause)
    }

    pub fn resume_transfer(&mut self, task_id: &str) -> (r: Result<(), String>)
        requires
            old(self).wf(),
        ensures
            final(self).wf(),
            final(self).history() == old(self).history(),
            !has_task(old(self).active(), task_id@) ==> r is Err && r->Err_0@
                == "Transfer task not found"@ && final(self).active() == old(self).active(),
            has_task(old(self).active(), task_id@) ==> {
                let i = task_pos(old(self).active(), task_id@);
                let t = old(self).active()[i];
                if t.status is Paused {
                    r is Ok && final(self).active() == old(self).active().update(
                        i,
                        with_status(t, TransferStatus::InProgress),
                    )
                } else {
                    r is Err && final(self).active() == old(self).active()
                }
            },
    {
        self.change_status(task_id, LifecycleOp::Resume)
    }

    /// Cancels a task that has not ended: it leaves the active set at once and
    /// goes to the history as cancelled, so its run, which finds it gone at the
    /// next chunk, never completes it.
    pub fn cancel_transfer(&mut self, task_id: &str) -> (r: Result<(), String>)
        requires
            old(self).wf(),
        ensures
            final(self).wf(),
            final(self).limit() == old(self).limit(),
            !has_task(old(self).active(), task_id@) ==> r is Err && r->Err_0@
                == "Transfer task not found"@ && final(self).active() == old(self).active()
                && final(self).history() == old(self).history(),
            has_task(old(self).active(), task_id@) ==> {
                let i = task_pos(old(self).active(), task_id@);
                let t = old(self).active()[i];
                &&& r is Ok
                &&& final(self).active() == old(self).active().remove(i)
                &&& final(self).history() == old(self).history().push(
                    with_status(t, TransferStatus::Cancelled),
                )
            },
    {
        let id = task_id.to_owned();
        match find_task(&self.active_transfers, &id) {
            None => Err(String::from_str("Transfer task not found")),
            Some(i) => {
                proof {
                    let a = self.active();
                    let h = self.history();
                    let c = task_pos(a, id@);
                    assert((a + h)[c].id@ == (a + h)[i as int].id@);
                }
                let mut t = self.active_transfers[i].snapshot();
                t.status = TransferStatus::Cancelled;
                self.move_to_history(i, t);
                Ok(())
            },
        }
    }

    /// Takes the task at position `i` out of the active set and appends its
    /// final snapshot `t` to the history.
    fn move_to_history(&mut self, i: usize, t: TransferTask)
        requires
            old(self).wf(),
            i < old(self).active().len(),
            t.id@ == old(self).active()[i as int].id@,
            task_ok(t),
            is_terminal(t.status),
        ensures
            final(self).wf(),
            final(self).limit() == old(self).limit(),
            final(self).active() == old(self).active().remove(i as int),
            final(self).history() == old(self).history().push(t),
    {
        let ghost a = self.active();
        let ghost h = self.history();
        let ghost snap = t;
        self.active_transfers.remove(i);
        self.transfer_history.tasks.push(t);
        proof {
            let n = self.active();
            let nh = self.history();
            assert(n + nh =~= (a + h).remove(i as int).push(snap));
            let old_all = a + h;
            let mid = old_all.remove(i as int);
            assert forall|x: int, y: int| 0 <= x < y < mid.len() implies mid[x].id@ != mid[y].id@ by {
                let xx = if x < i { x } else { x + 1 };
                let yy = if y < i { y } else { y + 1 };
                assert(mid[x] == old_all[xx] && mid[y] == old_all[yy]);
            }
            assert forall|x: int| 0 <= x < mid.len() implies mid[x].id@ != snap.id@ by {
                let xx = if x < i { x } else { x + 1 };
                assert(mid[x] == old_all[xx]);
                assert(old_all[i as int] == a[i as int]);
            }
            assert forall|x: int| 0 <= x < n.len() implies task_ok(#[trigger] n[x]) && !is_terminal(
                n[x].status,
            ) by {
                let xx = if x < i { x } else { x + 1 };
                assert(n[x] == a[xx]);
            }
            assert forall|x: int| 0 <= x < nh.len() implies task_ok(#[trigger] nh[x]) && is_terminal(
                nh[x].status,
            ) by {
                if x < h.len() {
                    assert(nh[x] == h[x]);
                }
            }
        }
    }

    /// What the run of a task does at its next chunk boundary: go on while it is
    /// running, wait while it is paused, stop otherwise.
    pub fn chunk_gate(&self, task_id: &str) -> (r: ChunkDecision)
        requires
            self.wf(),
        ensures
            !has_task(self.active(), task_id@) ==> r == ChunkDecision::Abort,
            has_task(self.active(), task_id@) ==> {
                let t = self.active()[task_pos(self.active(), task_id@)];
                r == (if t.status is InProgress {
                    ChunkDecision::Proceed
                } else if t.status is Paused {
                    ChunkDecision::Wait
                } else {
                    ChunkDecision::Abort
                })
            },
    {
        let id = task_id.to_owned();
        match find_task(&self.active_transfers, &id) {
            None => ChunkDecision::Abort,
            Some(i) => {
                proof {
                    let a = self.active();
                    let h = self.history();
                    let c = task_pos(a, id@);
                    assert((a + h)[c].id@ == (a + h)[i as int].id@);
                }
                match self.active_transfers[i].status {
                    TransferStatus::InProgress => ChunkDecision::Proceed,
                    TransferStatus::Paused => ChunkDecision::Wait,
                    _ => ChunkDecision::Abort,
                }
            },
        }
    }

    /// Records how many bytes of an active task have gone; the count never goes
    /// back and never passes the task's size.
    pub fn record_progress(&mut self, task_id: &str, transferred: u64) -> (r: Result<(), String>)
        requires
            old(self).wf(),
        ensures
            final(self).wf(),
            final(self).history() == old(self).history(),
            !has_task(old(self).active(), task_id@) ==> r is Err && r->Err_0@
                == "Transfer task not found"@ && final(self).active() == old(self).active(),
            has_task(old(self).active(), task_id@) ==> {
                let i = task_pos(old(self).active(), task_id@);
                let t = old(self).active()[i];
                let capped = if transferred > t.file_size {
                    t.file_size
                } else {
                    transferred
                };
                let n = if capped > t.transferred {
                    capped
                } else {
                    t.transferred
                };
                r is Ok && final(self).active() == old(self).active().update(
                    i,
                    TransferTask { transferred: n, ..t },
                )
            },
    {
        let id = task_id.to_owned();
        match find_task(&self.active_transfers, &id) {
            None => Err(String::from_str("Transfer task not found")),
            Some(i) => {
                let ghost a = self.active();
                let ghost h = self.history();
                proof {
                    let c = task_pos(a, id@);
                    assert((a + h)[c].id@ == (a + h)[i as int].id@);
                }
                let mut t = self.active_transfers[i].snapshot();
                let capped = if transferred > t.file_size {
                    t.file_size
                } else {
                    transferred
                };
                if capped > t.transferred {
                    t.transferred = capped;
                }
                self.active_transfers.set(i, t);
                proof {
                    let n = self.active();
                    assert forall|x: int, y: int|
                        0 <= x < y < (n + h).len() implies (n + h)[x].id@ != (n + h)[y].id@ by {
                        assert((n + h)[x].id@ == (a + h)[x].id@);
                        assert((n + h)[y].id@ == (a + h)[y].id@);
                    }
                    assert(task_ok(n[i as int]) && !is_terminal(n[i as int].status));
                }
                Ok(())
            },
        }
    }

    /// Ends the run of a task: it leaves the active set and its final snapshot
    /// is appended to the history and handed back. A task that is not active
    /// gives `None`, so each task is finished once.
    pub fn finish_transfer(&mut self, task_id: &str, outcome: Result<(), String>) -> (r: Option<
        TransferTask,
    >)
        requires
            old(self).wf(),
        ensures
            final(self).wf(),
            final(self).limit() == old(self).limit(),
            !has_task(old(self).active(), task_id@) ==> r is None && final(self).active() == old(self).active() && final(self).history() == old(self).history(),
            has_task(old(self).active(), task_id@) ==> {
                let i = task_pos(old(self).active(), task_id@);
                let t = finished(old(self).active()[i], outcome);
                &&& r == Some(t)
                &&& final(self).active() == old(self).active().remove(i)
                &&& final(self).history() == old(self).history().push(t)
            },
    {
        let id = task_id.to_owned();
        match find_task(&self.active_transfers, &id) {
            None => None,
            Some(i) => {
                let ghost a = self.active();
                let ghost h = self.history();
                proof {
                    let c = task_pos(a, id@);
                    assert((a + h)[c].id@ == (a + h)[i as int].id@);
                }
                let mut t = self.active_transfers[i].snapshot();
                match outcome {
                    Ok(_) => {
                        t.status = TransferStatus::Completed;
                        t.transferred = t.file_size;
                    },
                    Err(e) => {
                        t.status = TransferStatus::Failed(e);
                    },
                }
                let snap = t.snapshot();
                self.move_to_history(i, t);
                Some(snap)
            },
        }
    }

    /// The tasks under way, in the order they were added.
    pub fn get_active_transfers(&self) -> (r: Vec<TransferTask>)
        ensures
            r@ == self.active(),
    {
        copy_tasks(&self.active_transfers)
    }

    /// The finished tasks, in the order they finished.
    pub fn get_transfer_history(&self) -> (r: TransferHistory)
        ensures
            r.tasks@ == self.history(),
    {
        TransferHistory { tasks: copy_tasks(&self.transfer_history.tasks) }
    }

    pub fn set_bandwidth_limit(&mut self, limit: Option<u64>)
        ensures
            final(self).limit() == limit,
            final(self).active() == old(self).active(),
            final(self).history() == old(self).history(),
    {
        self.bandwidth_limit = limit;
    }

    pub fn bandwidth_limit(&self) -> (r: Option<u64>)
        ensures
            r == self.limit(),
    {
        self.bandwidth_limit
    }

    /// How long a transfer that has sent `sent` bytes in `elapsed_ms`
    /// milliseconds waits before its next chunk to keep under the limit.
    pub fn throttle_delay_ms(&self, sent: u64, elapsed_ms: u64) -> (r: u64)
        ensures
            throttle_spec(self.limit(), sent, elapsed_ms) <= u64::MAX ==> r == throttle_spec(
                self.limit(),
                sent,
                elapsed_ms,
            ),
            throttle_spec(self.limit(), sent, elapsed_ms) > u64::MAX ==> r == u64::MAX,
    {
        match self.bandwidth_limit {
            Some(l) if l > 0 => {
                let needed: u128 = (sent as u128 * 1000 + l as u128 - 1) / l as u128;
                if needed > elapsed_ms as u128 {
                    if needed - elapsed_ms as u128 > u64::MAX as u128 {
                        u64::MAX
                    } else {
                        (needed - elapsed_ms as u128) as u64
                    }
                } else {
                    0
                }
            },
            _ => 0,
        }
    }

    /// The size of a folder from the sizes of all the files in its tree, or an
    /// error where the total does not fit in 64 bits.
    pub fn calculate_folder_size(file_sizes: &Vec<u64>) -> (r: Result<u64, String>)
        ensures
            sum_sizes(file_sizes@) <= u64::MAX ==> r == Ok::<u64, String>(
                sum_sizes(file_sizes@) as u64,
            ),
            sum_sizes(file_sizes@) > u64::MAX ==> r is Err,
    {
        let mut total: u64 = 0;
        let mut i: usize = 0;
        while i < file_sizes.len()
            invariant
                i <= file_sizes@.len(),
                total == sum_sizes(file_sizes@.subrange(0, i as int)),
            decreases file_sizes@.len() - i,
        {
            proof {
                assert(file_sizes@.subrange(0, i as int + 1).drop_last() =~= file_sizes@.subrange(
                    0,
                    i as int,
                ));
            }
            match total.checked_add(file_sizes[i]) {
                Some(t) => total = t,
                None => {
                    proof {
                        lemma_sum_prefix_grows(file_sizes@, i as int + 1);
                    }
                    return Err(String::from_str("Folder size does not fit in 64 bits"));
                },
            }
            i = i + 1;
        }
        assert(file_sizes@.subrange(0, i as int) =~= file_sizes@);
        Ok(total)
    }
}

/// The sum of a prefix is at most the sum of the whole.
proof fn lemma_sum_prefix_grows(s: Seq<u64>, k: int)
    requires
        0 <= k <= s.len(),
    ensures
        sum_sizes(s.subrange(0, k)) <= sum_sizes(s),
    decreases s.len() - k,
{
    if k < s.len() {
        lemma_sum_prefix_grows(s, k + 1);
        assert(s.subrange(0, k + 1).drop_last() =~= s.subrange(0, k));
    } else {
        assert(s.subrange(0, k) =~= s);
    }
}

/// A task whose status is final is never changed by a lifecycle operation;
/// `resume` applies to a paused task only; `cancel` applies exactly to pending,
/// running and paused tasks.
pub proof fn lemma_lifecycle_rules(op: LifecycleOp, s: TransferStatus)
    ensures
        is_terminal(s) ==> next_status(op, s) is None,
        op == LifecycleOp::Resume ==> (next_status(op, s) is Some <==> s is Paused),
        op == LifecycleOp::Cancel ==> (next_status(op, s) is Some <==> (s is Pending
            || s is InProgress || s is Paused)),
{
}

/// Every id handed out by a sequence of successful additions is new, so the
/// ids of all tasks, active or finished, are pairwise distinct.
pub proof fn lemma_task_ids_unique(m: AdvancedTransferManager)
    requires
        m.wf(),
    ensures
        forall|i: int, j: int|
            0 <= i < j < m.active().len() ==> m.active()[i].id@ != m.active()[j].id@,
        forall|i: int, j: int|
            0 <= i < m.active().len() && 0 <= j < m.history().len() ==> m.active()[i].id@
                != m.history()[j].id@,
{
    let all = m.active() + m.history();
    assert forall|i: int, j: int|
        0 <= i < m.active().len() && 0 <= j < m.history().len() implies m.active()[i].id@
        != m.history()[j].id@ by {
        assert(all[i] == m.active()[i]);
        assert(all[m.active().len() + j] == m.history()[j]);
    }
    assert forall|i: int, j: int|
        0 <= i < j < m.active().len() implies m.active()[i].id@ != m.active()[j].id@ by {
        assert(all[i] == m.active()[i]);
        assert(all[j] == m.active()[j]);
    }
}

/// A task whose run ends has reached a final status, and one that completed
/// has moved every byte.
pub proof fn lemma_finish_outcome(t: TransferTask, outcome: Result<(), String>)
    requires
        task_ok(t),
    ensures
        is_terminal(finished(t, outcome).status),
        finished(t, outcome).status is Completed ==> finished(t, outcome).transferred
            == finished(t, outcome).file_size,
        task_ok(finished(t, outcome)),
{
}

/// Every task under way has a status that can still change, and every task in
/// the history has a final one: a task reaches a final status exactly when it
/// moves to the history.
pub proof fn lemma_final_iff_finished(m: AdvancedTransferManager)
    requires
        m.wf(),
    ensures
        forall|i: int| 0 <= i < m.active().len() ==> !is_terminal(#[trigger] m.active()[i].status),
        forall|i: int| 0 <= i < m.history().len() ==> is_terminal(#[trigger] m.history()[i].status),
{
}

} // verus!
