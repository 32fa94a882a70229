//! Process descriptors, the process table, and the kernel context.
//!
//! The kernel's process-wide state (process table, TMR result buffer,
//! shared accumulator, TMR flag, pid and resource counters) is owned by a
//! single [`Kernel`] value and threaded by reference, so the "exclusive
//! access while mutating" discipline is enforced by the type system.
//! Stack, trap-frame and address-space-root regions are identified by
//! handles drawn from a monotone counter, which makes disjointness of the
//! regions owned by live descriptors a provable invariant.

use vstd::prelude::*;

verus! {

/// Lifecycle state of a process descriptor.
#[derive(Clone, Copy, Debug, PartialEq, Eq, Structural)]
pub enum State {
    Ready,
    Running,
    Sleeping,
    Waiting,
    Dead,
}

/// Errors for paths the kernel used to drop silently.
#[derive(Clone, Copy, Debug, PartialEq, Eq, Structural)]
pub enum KernelError {
    /// An insertion was requested while no process table exists; the new
    /// descriptor is dropped.
    TableUnavailable,
    /// The trap handler was entered without a trap frame.
    NullFrame,
    /// The trap frame carries an opcode outside the syscall ABI.
    UnknownSyscall,
}

/// Per-process scratch record (working-directory path bytes).
#[derive(Clone, Copy, Debug)]
pub struct ProcessData {
    pub cwd_path: [u8; 128],
}

impl ProcessData {
    /// A zeroed scratch record.
    pub fn zero() -> (r: ProcessData)
        ensures
            forall|i: int| 0 <= i < 128 ==> r.cwd_path@[i] == 0u8,
    {
        ProcessData { cwd_path: [0u8; 128] }
    }
}

/// Whether a scratch record holds only zero bytes.
pub open spec fn zeroed(d: ProcessData) -> bool {
    forall|i: int| 0 <= i < 128 ==> d.cwd_path@[i] == 0u8
}

/// The saved execution context handed across the trap boundary: the saved
/// program counter, the syscall opcode recorded by the trap trampoline,
/// and the pid of the trapping process.
#[derive(Clone, Copy, Debug, PartialEq, Eq, Structural)]
pub struct TrapFrame {
    pub pc: usize,
    pub syscall_id: usize,
    pub pid: usize,
}

/// One schedulable unit of execution. The `frame`, `stack` and `root`
/// fields are handles of the register-save frame, the execution stack and
/// the address-space root owned exclusively by this descriptor.
#[derive(Clone, Copy, Debug)]
pub struct Process {
    pub state: State,
    pub pid: usize,
    pub is_tmr: bool,
    pub stack: usize,
    pub frame: usize,
    pub root: usize,
    pub data: ProcessData,
    /// Program counter the descriptor's initial context was wired to.
    pub entry_pc: usize,
    pub sleep_until: usize,
}

/// The fields of a freshly allocated descriptor: resource handles are the
/// three consecutive regions starting at `base` (frame, stack, root, in
/// allocation order), the scratch record is zeroed, and the initial
/// context starts at `entry`.
pub open spec fn spawned(p: Process, entry: usize, tmr_flag: bool, pid: usize, base: usize) -> bool {
    &&& p.state is Running
    &&& p.pid == pid
    &&& p.is_tmr == tmr_flag
    &&& p.frame == base
    &&& p.stack == base + 1
    &&& p.root == base + 2
    &&& zeroed(p.data)
    &&& p.entry_pc == entry
    &&& p.sleep_until == 0
}

/// The descriptor `p` put to sleep for `duration`.
pub open spec fn slept(p: Process, duration: usize) -> Process {
    Process { state: State::Sleeping, sleep_until: duration, ..p }
}

/// No resource handle of `p` equals one of `q`.
pub open spec fn resources_disjoint(p: Process, q: Process) -> bool {
    &&& p.frame != q.frame && p.frame != q.stack && p.frame != q.root
    &&& p.stack != q.frame && p.stack != q.stack && p.stack != q.root
    &&& p.root != q.frame && p.root != q.stack && p.root != q.root
}

/// A descriptor whose pid and resource handles were drawn from counters
/// that have since reached `next_pid` and `next_region`.
pub open spec fn proc_wf(p: Process, next_pid: usize, next_region: usize) -> bool {
    &&& 1 <= p.pid < next_pid
    &&& p.frame < next_region
    &&& p.stack < next_region
    &&& p.root < next_region
    &&& p.frame != p.stack && p.frame != p.root && p.stack != p.root
}

/// Well-formedness of a process table: every descriptor is well formed,
/// pids appear in strictly increasing insertion order (so no two
/// descriptors share a pid), and the resources of distinct descriptors
/// are disjoint.
pub open spec fn table_wf(tbl: Seq<Process>, next_pid: usize, next_region: usize) -> bool {
    &&& forall|i: int| 0 <= i < tbl.len() ==> proc_wf(#[trigger] tbl[i], next_pid, next_region)
    &&& forall|i: int, j: int|
        0 <= i < j < tbl.len() ==> #[trigger] tbl[i].pid < #[trigger] tbl[j].pid
    &&& forall|i: int, j: int|
        0 <= i < tbl.len() && 0 <= j < tbl.len() && i != j ==> resources_disjoint(
            #[trigger] tbl[i],
            #[trigger] tbl[j],
        )
}

impl Process {
    /// Handle of the register-save frame this descriptor owns.
    pub fn get_frame_addr(&self) -> (r: usize)
        ensures
            r == self.frame,
    {
        self.frame
    }

    /// Program counter the descriptor's initial context was wired to.
    pub fn get_pc(&self) -> (r: usize)
        ensures
            r == self.entry_pc,
    {
        self.entry_pc
    }

    /// Handle of the address-space root this descriptor owns.
    pub fn get_table_addr(&self) -> (r: usize)
        ensures
            r == self.root,
    {
        self.root
    }

    /// The descriptor's lifecycle state.
    pub fn get_state(&self) -> (r: &State)
        ensures
            *r == self.state,
    {
        &self.state
    }

    /// The descriptor's pid.
    pub fn get_pid(&self) -> (r: usize)
        ensures
            r == self.pid,
    {
        self.pid
    }

    /// Spawns a blank sibling: a fresh descriptor with newly allocated
    /// frame, stack and root and a fresh pid, not marked TMR, without
    /// copying any register state.
    pub fn clones(&self, kernel: &mut Kernel) -> (r: Process)
        requires
            old(kernel).next_pid + 1 <= usize::MAX,
            old(kernel).next_region + 3 <= usize::MAX,
        ensures
            spawned(r, 0, false, old(kernel).next_pid, old(kernel).next_region),
            final(kernel).next_pid == old(kernel).next_pid + 1,
            final(kernel).next_region == old(kernel).next_region + 3,
            final(kernel).process_list == old(kernel).process_list,
            final(kernel).tmr_values_list == old(kernel).tmr_values_list,
            final(kernel).total == old(kernel).total,
            final(kernel).tmr_bool == old(kernel).tmr_bool,
            final(kernel).elapsed_cycles == old(kernel).elapsed_cycles,
    {
        kernel.alloc_descriptor(false)
    }

    /// Derives the three replica descriptors of a TMR group from a
    /// template descriptor; `None` if the template is not marked TMR.
    /// Each replica gets its own resources and pid and `is_tmr == false`.
    pub fn tmr(&self, kernel: &mut Kernel) -> (r: Option<(Process, Process, Process)>)
        requires
            old(kernel).next_pid + 3 <= usize::MAX,
            old(kernel).next_region + 9 <= usize::MAX,
        ensures
            self.is_tmr <==> r is Some,
            r matches Some((p1, p2, p3)) ==> {
                &&& spawned(p1, 0, false, old(kernel).next_pid, old(kernel).next_region)
                &&& spawned(p2, 0, false, (old(kernel).next_pid + 1) as usize, (old(kernel).next_region + 3) as usize)
                &&& spawned(p3, 0, false, (old(kernel).next_pid + 2) as usize, (old(kernel).next_region + 6) as usize)
                &&& final(kernel).next_pid == old(kernel).next_pid + 3
                &&& final(kernel).next_region == old(kernel).next_region + 9
            },
            r is None ==> *final(kernel) == *old(kernel),
            final(kernel).process_list == old(kernel).process_list,
            final(kernel).tmr_values_list == old(kernel).tmr_values_list,
            final(kernel).total == old(kernel).total,
            final(kernel).tmr_bool == old(kernel).tmr_bool,
            final(kernel).elapsed_cycles == old(kernel).elapsed_cycles,
    {
        if self.is_tmr {
            let clone1 = self.clones(kernel);
            let clone2 = self.clones(kernel);
            let clone3 = self.clones(kernel);
            Some((clone1, clone2, clone3))
        } else {
            None
        }
    }

    /// Marks the descriptor Sleeping and stores the requested duration.
    /// Nothing else of the descriptor changes.
    pub fn sleep(&mut self, duration: usize)
        ensures
            *final(self) == slept(*old(self), duration),
    {
        self.state = State::Sleeping;
        self.sleep_until = duration;
    }
}

/// All process-wide kernel state, owned explicitly instead of living in
/// globals.
#[derive(Debug)]
pub struct Kernel {
    /// The process table; `None` models the time before kernel init, when
    /// insertions are dropped.
    pub process_list: Option<Vec<Process>>,
    /// TMR result buffer: one optional result vector per replica that has
    /// reported in.
    pub tmr_values_list: Vec<Option<Vec<usize>>>,
    /// Shared accumulator holding the most recently computed result
    /// vector.
    pub total: Option<Vec<usize>>,
    /// Set once any TMR creation has occurred; gates the Sum syscall
    /// between the buffered-vote path and the direct-print path.
    pub tmr_bool: bool,
    /// Cycle-counter delta of the process-table initialization phase.
    pub elapsed_cycles: usize,
    /// Next pid to hand out; pids start at 1 and are never reused.
    pub next_pid: usize,
    /// Next resource-region handle to hand out.
    pub next_region: usize,
}

/// What `create_process` does to the kernel. With no table, nothing
/// changes and the request is refused. Otherwise a single request appends
/// one descriptor; a TMR request draws a template (which is never
/// inserted and consumes one pid and one resource triple) and appends
/// exactly three replica descriptors, every one wired to the same entry
/// point, each with `is_tmr == false`, and reports the pid of the last
/// replica inserted.
pub open spec fn create_effect(
    old_k: Kernel,
    new_k: Kernel,
    entry: usize,
    tmr: bool,
    r: Result<usize, KernelError>,
) -> bool {
    &&& new_k.tmr_values_list == old_k.tmr_values_list
    &&& new_k.total == old_k.total
    &&& new_k.elapsed_cycles == old_k.elapsed_cycles
    &&& match old_k.process_list {
        None => {
            &&& r == Err::<usize, KernelError>(KernelError::TableUnavailable)
            &&& new_k == old_k
        },
        Some(tbl) => {
            &&& new_k.process_list matches Some(ntbl) && (if !tmr {
                &&& r == Ok::<usize, KernelError>(old_k.next_pid)
                &&& new_k.tmr_bool == old_k.tmr_bool
                &&& new_k.next_pid == old_k.next_pid + 1
                &&& new_k.next_region == old_k.next_region + 3
                &&& ntbl@.len() == tbl@.len() + 1
                &&& (forall|i: int| 0 <= i < tbl@.len() ==> ntbl@[i] == tbl@[i])
                &&& spawned(ntbl@[tbl@.len() as int], entry, false, old_k.next_pid, old_k.next_region)
            } else {
                &&& r == Ok::<usize, KernelError>((old_k.next_pid + 3) as usize)
                &&& new_k.tmr_bool
                &&& new_k.next_pid == old_k.next_pid + 4
                &&& new_k.next_region == old_k.next_region + 12
                &&& ntbl@.len() == tbl@.len() + 3
                &&& (forall|i: int| 0 <= i < tbl@.len() ==> ntbl@[i] == tbl@[i])
                &&& spawned(
                    ntbl@[tbl@.len() as int],
                    entry,
                    false,
                    (old_k.next_pid + 1) as usize,
                    (old_k.next_region + 3) as usize,
                )
                &&& spawned(
                    ntbl@[tbl@.len() as int + 1],
                    entry,
                    false,
                    (old_k.next_pid + 2) as usize,
                    (old_k.next_region + 6) as usize,
                )
                &&& spawned(
                    ntbl@[tbl@.len() as int + 2],
                    entry,
                    false,
                    (old_k.next_pid + 3) as usize,
                    (old_k.next_region + 9) as usize,
                )
            })
        },
    }
}

/// What `sleep_pid` does to the kernel: everything but the process table
/// stays as it was; in the table, the descriptor carrying `pid` (if any)
/// is marked Sleeping with the requested duration and every other
/// descriptor is untouched; `found` reports whether the pid was present.
pub open spec fn sleep_effect(
    old_k: Kernel,
    new_k: Kernel,
    pid: usize,
    duration: usize,
    found: bool,
) -> bool {
    &&& new_k.tmr_values_list == old_k.tmr_values_list
    &&& new_k.total == old_k.total
    &&& new_k.tmr_bool == old_k.tmr_bool
    &&& new_k.elapsed_cycles == old_k.elapsed_cycles
    &&& new_k.next_pid == old_k.next_pid
    &&& new_k.next_region == old_k.next_region
    &&& match old_k.process_list {
        None => {
            &&& new_k.process_list is None
            &&& !found
        },
        Some(tbl) => {
            &&& new_k.process_list matches Some(ntbl)
            &&& ntbl@.len() == tbl@.len()
            &&& (found <==> exists|i: int|
                0 <= i < tbl@.len() && (#[trigger] tbl@[i]).pid == pid)
            &&& (forall|i: int|
                0 <= i < tbl@.len() && (#[trigger] tbl@[i]).pid != pid ==> ntbl@[i] == tbl@[i])
            &&& (forall|i: int|
                0 <= i < tbl@.len() && (#[trigger] tbl@[i]).pid == pid ==> ntbl@[i] == slept(
                    tbl@[i],
                    duration,
                ))
        },
    }
}

impl Kernel {
    /// Kernel invariant: the counters are in range and the process table,
    /// if it exists, is well formed with respect to them.
    pub open spec fn wf(self) -> bool {
        &&& 1 <= self.next_pid
        &&& match self.process_list {
            None => true,
            Some(tbl) => table_wf(tbl@, self.next_pid, self.next_region),
        }
    }

    /// The sequence of descriptors in the process table.
    pub open spec fn table(self) -> Seq<Process>
        recommends
            self.process_list is Some,
    {
        self.process_list->0@
    }

    /// Hands out one descriptor's worth of fresh resources and a fresh
    /// pid, advancing both counters.
    fn alloc_descriptor(&mut self, is_tmr: bool) -> (p: Process)
        requires
            old(self).next_pid + 1 <= usize::MAX,
            old(self).next_region + 3 <= usize::MAX,
        ensures
            spawned(p, 0, is_tmr, old(self).next_pid, old(self).next_region),
            final(self).next_pid == old(self).next_pid + 1,
            final(self).next_region == old(self).next_region + 3,
            final(self).process_list == old(self).process_list,
            final(self).tmr_values_list == old(self).tmr_values_list,
            final(self).total == old(self).total,
            final(self).tmr_bool == old(self).tmr_bool,
            final(self).elapsed_cycles == old(self).elapsed_cycles,
    {
        let base: usize = self.next_region;
        let p = Process {
            is_tmr,
            frame: base,
            stack: base + 1,
            pid: self.next_pid,
            root: base + 2,
            state: State::Running,
            data: ProcessData::zero(),
            entry_pc: 0,
            sleep_until: 0,
        };
        self.next_pid = self.next_pid + 1;
        self.next_region = self.next_region + 3;
        p
    }

    /// The kernel state before init: no process table, empty result
    /// buffer, no accumulated total, counters at their start values.
    pub fn new() -> (k: Kernel)
        ensures
            k.wf(),
            k.process_list is None,
            k.tmr_values_list@.len() == 0,
            k.total is None,
            !k.tmr_bool,
            k.elapsed_cycles == 0,
            k.next_pid == 1,
            k.next_region == 0,
    {
        Kernel {
            process_list: None,
            tmr_values_list: Vec::new(),
            total: None,
            tmr_bool: false,
            elapsed_cycles: 0,
            next_pid: 1,
            next_region: 0,
        }
    }

    /// Creates the process table, empty, ready for insertions.
    pub fn init_process_list(&mut self)
        requires
            old(self).wf(),
        ensures
            final(self).wf(),
            final(self).process_list matches Some(tbl) && tbl@.len() == 0,
            final(self).tmr_values_list == old(self).tmr_values_list,
            final(self).total == old(self).total,
            final(self).tmr_bool == old(self).tmr_bool,
            final(self).elapsed_cycles == old(self).elapsed_cycles,
            final(self).next_pid == old(self).next_pid,
            final(self).next_region == old(self).next_region,
    {
        self.process_list = Some(Vec::with_capacity(15));
    }

    /// Creates the TMR result buffer, empty.
    pub fn init_tmr_values_list(&mut self)
        ensures
            final(self).tmr_values_list@.len() == 0,
            final(self).process_list == old(self).process_list,
            final(self).total == old(self).total,
            final(self).tmr_bool == old(self).tmr_bool,
            final(self).elapsed_cycles == old(self).elapsed_cycles,
            final(self).next_pid == old(self).next_pid,
            final(self).next_region == old(self).next_region,
    {
        self.tmr_values_list = Vec::with_capacity(3);
    }

    /// Creates one process, or a TMR group of three replica processes,
    /// all wired to the same entry point, and appends them to the process
    /// table. Refused with `TableUnavailable` when the table does not
    /// exist yet. On success the returned pid identifies the created
    /// process; for a TMR group it identifies only the last replica
    /// inserted — callers needing the whole group must consult the table.
    pub fn create_process(&mut self, entry: usize, tmr: bool) -> (r: Result<usize, KernelError>)
        requires
            old(self).wf(),
            old(self).next_pid + 4 <= usize::MAX,
            old(self).next_region + 12 <= usize::MAX,
        ensures
            final(self).wf(),
            create_effect(*old(self), *final(self), entry, tmr, r),
    {
        if self.process_list.is_none() {
            return Err(KernelError::TableUnavailable);
        }
        if !tmr {
            let mut proc = self.alloc_descriptor(false);
            proc.entry_pc = entry;
            let pid: usize = proc.pid;
            match &mut self.process_list {
                Some(tbl) => {
                    tbl.push(proc);
                },
                None => {},
            }
            Ok(pid)
        } else {
            self.tmr_bool = true;
            let template = self.alloc_descriptor(true);
            match template.tmr(self) {
                Some((mut p1, mut p2, mut p3)) => {
                    p1.entry_pc = entry;
                    p2.entry_pc = entry;
                    p3.entry_pc = entry;
                    let pid: usize = p3.pid;
                    match &mut self.process_list {
                        Some(tbl) => {
                            tbl.push(p1);
                            tbl.push(p2);
                            tbl.push(p3);
                        },
                        None => {},
                    }
                    Ok(pid)
                },
                None => Err(KernelError::TableUnavailable),
            }
        }
    }

    /// Linear scan of the process table for `pid`; the matching
    /// descriptor, if any, is put to sleep for `duration`. Reports
    /// whether a match was found; an unknown pid mutates nothing.
    pub fn sleep_pid(&mut self, pid: usize, duration: usize) -> (found: bool)
        requires
            old(self).wf(),
        ensures
            final(self).wf(),
            sleep_effect(*old(self), *final(self), pid, duration, found),
    {
        match self.process_list.take() {
            None => false,
            Some(mut tbl) => {
                let ghost t0 = tbl@;
                let n: usize = tbl.len();
                let mut i: usize = 0;
                let mut found = false;
                while i < n && !found
                    invariant
                        i <= n,
                        n == tbl@.len(),
                        t0.len() == n,
                        table_wf(t0, old(self).next_pid, old(self).next_region),
                        !found ==> tbl@ == t0,
                        !found ==> forall|j: int| 0 <= j < i ==> (#[trigger] t0[j]).pid != pid,
                        found ==> exists|j: int|
                            0 <= j < i && (#[trigger] t0[j]).pid == pid && tbl@ == t0.update(
                                j,
                                slept(t0[j], duration),
                            ),
                    decreases n - i,
                {
                    if tbl[i].pid == pid {
                        let mut p = tbl[i];
                        p.sleep(duration);
                        tbl.set(i, p);
                        found = true;
                    }
                    i = i + 1;
                }
                proof {
                    if found {
                        let j = choose|j: int|
                            0 <= j < t0.len() && (#[trigger] t0[j]).pid == pid && tbl@ == t0.update(
                                j,
                                slept(t0[j], duration),
                            );
                        assert forall|m: int|
                            0 <= m < t0.len() && (#[trigger] t0[m]).pid == pid implies tbl@[m]
                            == slept(t0[m], duration) by {
                            if m != j {
                                // two distinct descriptors cannot share a pid
                                if m < j {
                                    assert(t0[m].pid < t0[j].pid);
                                } else {
                                    assert(t0[j].pid < t0[m].pid);
                                }
                            }
                        }
                        assert forall|m: int|
                            0 <= m < tbl@.len() implies proc_wf(
                            #[trigger] tbl@[m],
                            old(self).next_pid,
                            old(self).next_region,
                        ) by {
                            assert(proc_wf(t0[m], old(self).next_pid, old(self).next_region));
                        }
                    }
                }
                self.process_list = Some(tbl);
                found
            },
        }
    }

    /// Law: no two descriptors of a well-formed process table share a
    /// pid, and the table lists pids in strictly increasing insertion
    /// order — pids are handed out monotonically and never reused.
    pub proof fn lemma_pid_unique(self)
        requires
            self.wf(),
            self.process_list is Some,
        ensures
            forall|i: int, j: int|
                0 <= i < self.table().len() && 0 <= j < self.table().len() && i != j
                    ==> (#[trigger] self.table()[i]).pid != (#[trigger] self.table()[j]).pid,
            forall|i: int, j: int|
                0 <= i < j < self.table().len() ==> (#[trigger] self.table()[i]).pid < (
                #[trigger] self.table()[j]).pid,
    {
        let tbl = self.table();
        assert forall|i: int, j: int|
            0 <= i < tbl.len() && 0 <= j < tbl.len() && i != j implies (#[trigger] tbl[i]).pid != (
        #[trigger] tbl[j]).pid by {
            if i < j {
                assert(tbl[i].pid < tbl[j].pid);
            } else {
                assert(tbl[j].pid < tbl[i].pid);
            }
        }
    }

    /// Law: the stack, frame and address-space-root regions of any two
    /// distinct descriptors in a well-formed process table never overlap.
    pub proof fn lemma_resources_disjoint(self)
        requires
            self.wf(),
            self.process_list is Some,
        ensures
            forall|i: int, j: int|
                0 <= i < self.table().len() && 0 <= j < self.table().len() && i != j
                    ==> resources_disjoint(
                    #[trigger] self.table()[i],
                    #[trigger] self.table()[j],
                ),
    {
    }

    /// The first descriptor of the process table, if any: the process the
    /// boot path hands to the context-switch trampoline.
    pub fn front(&self) -> (r: Option<Process>)
        ensures
            match self.process_list {
                None => r is None,
                Some(tbl) => (if tbl@.len() == 0 {
                    r is None
                } else {
                    r == Some(tbl@[0])
                }),
            },
    {
        match &self.process_list {
            None => None,
            Some(tbl) => {
                if tbl.len() == 0 {
                    None
                } else {
                    Some(tbl[0])
                }
            },
        }
    }
}

/// Difference of two cycle-counter readings under usize wrap-around.
pub open spec fn wrapping_delta(start: usize, end: usize) -> usize {
    if end >= start {
        (end - start) as usize
    } else {
        (usize::MAX - start + end + 1) as usize
    }
}

/// Cycle-counter delta, tolerating one wrap of the counter between the
/// two readings.
fn cycle_delta(start: usize, end: usize) -> (r: usize)
    ensures
        r == wrapping_delta(start, end),
{
    if end >= start {
        end - start
    } else {
        usize::MAX - start + end + 1
    }
}

/// Relies on riscv::register::mcycle::try_read: reads the machine
/// cycle-counter CSR, reporting `None` on targets without one. Nothing is
/// assumed about the value read.
#[verifier::external_body]
fn read_cycle_counter() -> (r: Option<usize>) {
    match riscv::register::mcycle::try_read() {
        Ok(c) => Some(c),
        Err(_) => None,
    }
}

/// Boot path: takes a cycle-counter reading, creates the process table
/// and the TMR result buffer, creates the TMR group for the task at
/// `entry`, and records the cycle-counter delta of this whole phase.
/// Returns the kernel and the program counter of the first scheduled
/// process, which the boot code hands to the context-switch trampoline.
pub fn init(entry: usize) -> (r: (Kernel, usize))
    ensures
        r.0.wf(),
        r.0.process_list matches Some(tbl) && {
            &&& tbl@.len() == 3
            &&& spawned(tbl@[0], entry, false, 2, 3)
            &&& spawned(tbl@[1], entry, false, 3, 6)
            &&& spawned(tbl@[2], entry, false, 4, 9)
        },
        r.0.tmr_bool,
        r.0.tmr_values_list@.len() == 0,
        r.0.total is None,
        r.0.next_pid == 5,
        r.0.next_region == 12,
        r.1 == entry,
{
    let start_time = read_cycle_counter();
    let mut kernel = Kernel::new();
    kernel.init_process_list();
    kernel.init_tmr_values_list();
    let _ = kernel.create_process(entry, true);
    let pc: usize = match kernel.front() {
        Some(p) => p.get_pc(),
        None => 0,
    };
    let end_time = read_cycle_counter();
    match (start_time, end_time) {
        (Some(s), Some(e)) => {
            kernel.elapsed_cycles = cycle_delta(s, e);
        },
        _ => {},
    }
    (kernel, pc)
}

} // verus!
