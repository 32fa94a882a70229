//! Syscall opcodes, the trap-handling state machine, and the TMR voter.
//!
//! One trap per invocation of [`make_syscall`]: the opcode is read from
//! the trap frame, the saved program counter is advanced past the trap
//! instruction before dispatch, and the kernel state changes according
//! to the opcode. The nested Sum → TmrAdd → Verify chain runs
//! synchronously inside the same dispatch pass.

use vstd::prelude::*;

verus! {

use crate::process::{Kernel, KernelError, TrapFrame, sleep_effect};

/// The syscall opcodes of the kernel's trap ABI, numbered 0 through 8.
#[derive(Clone, Copy, Debug, PartialEq, Eq, Structural)]
pub enum Syscall {
    Nop,
    DumpRegisters,
    Sleep,
    Exit,
    TmrAdd,
    Verify,
    PrintTotal,
    Print,
    Sum,
}

/// The opcode carried by number `v`, if `v` lies inside the syscall ABI.
pub open spec fn spec_decode(v: usize) -> Option<Syscall> {
    if v == 0 {
        Some(Syscall::Nop)
    } else if v == 1 {
        Some(Syscall::DumpRegisters)
    } else if v == 2 {
        Some(Syscall::Sleep)
    } else if v == 3 {
        Some(Syscall::Exit)
    } else if v == 4 {
        Some(Syscall::TmrAdd)
    } else if v == 5 {
        Some(Syscall::Verify)
    } else if v == 6 {
        Some(Syscall::PrintTotal)
    } else if v == 7 {
        Some(Syscall::Print)
    } else if v == 8 {
        Some(Syscall::Sum)
    } else {
        None
    }
}

impl Syscall {
    /// Decodes a syscall number; numbers outside the ABI are refused.
    pub fn try_from(v: usize) -> (r: Result<Syscall, ()>)
        ensures
            match spec_decode(v) {
                Some(s) => r == Ok::<Syscall, ()>(s),
                None => r == Err::<Syscall, ()>(()),
            },
    {
        match v {
            0 => Ok(Syscall::Nop),
            1 => Ok(Syscall::DumpRegisters),
            2 => Ok(Syscall::Sleep),
            3 => Ok(Syscall::Exit),
            4 => Ok(Syscall::TmrAdd),
            5 => Ok(Syscall::Verify),
            6 => Ok(Syscall::PrintTotal),
            7 => Ok(Syscall::Print),
            8 => Ok(Syscall::Sum),
            _ => Err(()),
        }
    }
}

/// The voter's report: the accepted result vector, the index of the
/// winning buffer entry, and its agreement score. A score of 0
/// means no two entries agreed and the first entry was accepted by the
/// first-occurrence fallback, not by a real majority.
#[derive(Clone, Debug)]
pub struct VoteReport {
    pub accepted: Option<Vec<usize>>,
    pub index: usize,
    pub score: usize,
}

/// The contents of one result-buffer entry, as an optional sequence.
pub open spec fn entry_view(e: Option<Vec<usize>>) -> Option<Seq<usize>> {
    match e {
        Some(v) => Some(v@),
        None => None,
    }
}

/// Two buffered entries agree when both are present and every element
/// matches.
pub open spec fn entry_eq(a: Option<Vec<usize>>, b: Option<Vec<usize>>) -> bool {
    a matches Some(x) && b matches Some(y) && x@ == y@
}

/// How many of the first `n` buffer entries, position `i` itself
/// excluded, agree with entry `i`.
pub open spec fn agree_upto(buf: Seq<Option<Vec<usize>>>, i: int, n: int) -> nat
    decreases n,
{
    if n <= 0 {
        0
    } else {
        agree_upto(buf, i, n - 1) + (if n - 1 != i && entry_eq(buf[i], buf[n - 1]) {
            1nat
        } else {
            0nat
        })
    }
}

/// Agreement score of entry `i`: the number of other buffered entries it
/// fully equals.
pub open spec fn agreement_score(buf: Seq<Option<Vec<usize>>>, i: int) -> nat {
    agree_upto(buf, i, buf.len() as int)
}

/// A valid vote report over buffer `buf`: the accepted entry carries the
/// highest agreement score, with ties — including the no-majority case
/// where every score is 0 — broken in favour of the lowest index.
pub open spec fn vote_ok(buf: Seq<Option<Vec<usize>>>, rep: VoteReport) -> bool {
    &&& buf.len() > 0
    &&& 0 <= rep.index < buf.len()
    &&& rep.score == agreement_score(buf, rep.index as int)
    &&& forall|j: int| 0 <= j < buf.len() ==> agreement_score(buf, j) <= rep.score
    &&& forall|j: int| 0 <= j < rep.index ==> agreement_score(buf, j) < rep.score
    &&& entry_view(rep.accepted) == entry_view(buf[rep.index as int])
}

/// Element-by-element equality of two result vectors.
fn vec_equal(x: &Vec<usize>, y: &Vec<usize>) -> (r: bool)
    ensures
        r == (x@ == y@),
{
    if x.len() != y.len() {
        return false;
    }
    let n: usize = x.len();
    let mut k: usize = 0;
    while k < n
        invariant
            k <= n,
            n == x@.len(),
            n == y@.len(),
            forall|m: int| 0 <= m < k ==> x@[m] == y@[m],
        decreases n - k,
    {
        if x[k] != y[k] {
            return false;
        }
        k = k + 1;
    }
    proof {
        assert(x@ =~= y@);
    }
    true
}

/// Equality of two buffered entries, as the voter compares them.
fn entries_equal(a: &Option<Vec<usize>>, b: &Option<Vec<usize>>) -> (r: bool)
    ensures
        r == entry_eq(*a, *b),
{
    match (a, b) {
        (Some(x), Some(y)) => vec_equal(x, y),
        _ => false,
    }
}

/// A copy of a result vector.
fn clone_vec(v: &Vec<usize>) -> (r: Vec<usize>)
    ensures
        r@ == v@,
{
    let mut out: Vec<usize> = Vec::new();
    let n: usize = v.len();
    let mut k: usize = 0;
    while k < n
        invariant
            k <= n,
            n == v@.len(),
            out@.len() == k,
            forall|m: int| 0 <= m < k ==> out@[m] == v@[m],
        decreases n - k,
    {
        out.push(v[k]);
        k = k + 1;
    }
    proof {
        assert(out@ =~= v@);
    }
    out
}

/// A copy of a result-buffer entry.
fn clone_entry(e: &Option<Vec<usize>>) -> (r: Option<Vec<usize>>)
    ensures
        entry_view(r) == entry_view(*e),
{
    match e {
        None => None,
        Some(v) => Some(clone_vec(v)),
    }
}

/// Majority-of-3 vote over the buffered result vectors: every pair is
/// compared element by element, each entry is scored by the number of
/// other entries it fully equals, and the entry with the highest score
/// is accepted, first occurrence winning ties. When all entries
/// mutually disagree the first entry is accepted with score 0 — the
/// silent fallback of the design, surfaced here by the score. `None` only on an
/// empty buffer.
pub fn verify_vote(buf: &Vec<Option<Vec<usize>>>) -> (r: Option<VoteReport>)
    ensures
        match r {
            None => buf@.len() == 0,
            Some(rep) => vote_ok(buf@, rep),
        },
{
    let n: usize = buf.len();
    if n == 0 {
        return None;
    }
    let mut best_index: usize = 0;
    let mut best_score: usize = 0;
    let mut i: usize = 0;
    while i < n
        invariant
            n == buf@.len(),
            0 < n,
            i <= n,
            i > 0 ==> best_index < i,
            i > 0 ==> best_score == agreement_score(buf@, best_index as int),
            i > 0 ==> forall|j: int| 0 <= j < i ==> agreement_score(buf@, j) <= best_score,
            i > 0 ==> forall|j: int| 0 <= j < best_index ==> agreement_score(buf@, j) < best_score,
        decreases n - i,
    {
        let mut cnt: usize = 0;
        let mut k: usize = 0;
        while k < n
            invariant
                n == buf@.len(),
                i < n,
                k <= n,
                cnt == agree_upto(buf@, i as int, k as int),
                cnt <= k,
            decreases n - k,
        {
            if k != i {
                if entries_equal(&buf[i], &buf[k]) {
                    cnt = cnt + 1;
                }
            }
            k = k + 1;
        }
        if i == 0 || cnt > best_score {
            best_index = i;
            best_score = cnt;
        }
        i = i + 1;
    }
    Some(
        VoteReport {
            accepted: clone_entry(&buf[best_index]),
            index: best_index,
            score: best_score,
        },
    )
}

/// Everything outside the result buffer left as it was.
pub open spec fn same_but_buffer(old_k: Kernel, new_k: Kernel) -> bool {
    &&& new_k.process_list == old_k.process_list
    &&& new_k.total == old_k.total
    &&& new_k.tmr_bool == old_k.tmr_bool
    &&& new_k.elapsed_cycles == old_k.elapsed_cycles
    &&& new_k.next_pid == old_k.next_pid
    &&& new_k.next_region == old_k.next_region
}

/// What the TmrAdd syscall does to the result buffer: `pushed` (a copy
/// of the shared accumulator) is appended, nothing else in the buffer
/// changes, and the voter runs — exactly once, and only then — when the
/// buffer now holds at least 3 entries.
pub open spec fn tmr_add_effect(
    old_buf: Seq<Option<Vec<usize>>>,
    new_buf: Seq<Option<Vec<usize>>>,
    pushed: Option<Seq<usize>>,
    r: Option<VoteReport>,
) -> bool {
    &&& new_buf.len() == old_buf.len() + 1
    &&& (forall|i: int| 0 <= i < old_buf.len() ==> new_buf[i] == old_buf[i])
    &&& entry_view(new_buf.last()) == pushed
    &&& match r {
        None => new_buf.len() < 3,
        Some(rep) => new_buf.len() >= 3 && vote_ok(new_buf, rep),
    }
}

/// The fixed result vector of the Sum task body: [1,2,3] + [1,2,3],
/// elementwise.
pub open spec fn sum_vector() -> Seq<usize> {
    seq![2usize, 4usize, 6usize]
}

/// What the Sum syscall does: the shared accumulator is overwritten with
/// the elementwise sum of the two fixed 3-element vectors; if a TMR
/// group exists, the new total is then submitted to the result buffer
/// (the nested TmrAdd), otherwise the buffer is untouched and the total
/// is printed directly.
pub open spec fn sum_effect(old_k: Kernel, new_k: Kernel, r: Option<VoteReport>) -> bool {
    &&& new_k.process_list == old_k.process_list
    &&& new_k.tmr_bool == old_k.tmr_bool
    &&& new_k.elapsed_cycles == old_k.elapsed_cycles
    &&& new_k.next_pid == old_k.next_pid
    &&& new_k.next_region == old_k.next_region
    &&& new_k.total matches Some(t) && t@ == sum_vector()
    &&& if old_k.tmr_bool {
        tmr_add_effect(old_k.tmr_values_list@, new_k.tmr_values_list@, Some(sum_vector()), r)
    } else {
        new_k.tmr_values_list == old_k.tmr_values_list && r is None
    }
}

/// TmrAdd: appends a copy of the shared accumulator to the result
/// buffer; once the buffer holds at least 3 entries, runs the voter
/// (the nested Verify) over it.
fn do_tmr_add(kernel: &mut Kernel) -> (r: Option<VoteReport>)
    ensures
        same_but_buffer(*old(kernel), *final(kernel)),
        tmr_add_effect(
            old(kernel).tmr_values_list@,
            final(kernel).tmr_values_list@,
            entry_view(old(kernel).total),
            r,
        ),
{
    let entry = clone_entry(&kernel.total);
    kernel.tmr_values_list.push(entry);
    if kernel.tmr_values_list.len() >= 3 {
        verify_vote(&kernel.tmr_values_list)
    } else {
        None
    }
}

/// Sum: computes the fixed elementwise sum of two 3-element vectors into
/// the shared accumulator, then either submits it to the TMR buffer or
/// leaves it for direct printing, depending on whether a TMR group
/// exists.
fn do_sum(kernel: &mut Kernel) -> (r: Option<VoteReport>)
    ensures
        sum_effect(*old(kernel), *final(kernel), r),
{
    let mut x: Vec<usize> = Vec::new();
    x.push(1);
    x.push(2);
    x.push(3);
    let mut y: Vec<usize> = Vec::new();
    y.push(1);
    y.push(2);
    y.push(3);
    proof {
        assert(x@ =~= seq![1usize, 2usize, 3usize]);
        assert(y@ =~= seq![1usize, 2usize, 3usize]);
    }
    let mut value: Vec<usize> = Vec::new();
    let n: usize = x.len();
    let mut i: usize = 0;
    while i < n
        invariant
            n == x@.len(),
            n == y@.len(),
            x@ == seq![1usize, 2usize, 3usize],
            y@ == seq![1usize, 2usize, 3usize],
            i <= n,
            value@.len() == i,
            forall|m: int| 0 <= m < i ==> value@[m] == x@[m] + y@[m],
        decreases n - i,
    {
        value.push(x[i] + y[i]);
        i = i + 1;
    }
    proof {
        assert(value@ =~= sum_vector());
    }
    kernel.total = Some(value);
    if kernel.tmr_bool {
        do_tmr_add(kernel)
    } else {
        None
    }
}

/// The dispatcher's contract, one trap per invocation: without a frame
/// nothing happens and the trap is reported as such; otherwise the saved
/// program counter is advanced past the trap instruction (fixed width 4)
/// before dispatch, whatever the opcode — even an unrecognized one — and
/// the kernel changes according to the opcode read from the frame.
pub open spec fn dispatch_effect(
    old_k: Kernel,
    new_k: Kernel,
    pc: usize,
    frame: Option<TrapFrame>,
    fout: Option<TrapFrame>,
    res: Result<SyscallOutcome, KernelError>,
) -> bool {
    match frame {
        None => {
            &&& fout is None
            &&& res == Err::<SyscallOutcome, KernelError>(KernelError::NullFrame)
            &&& new_k == old_k
        },
        Some(f) => {
            &&& fout == Some(TrapFrame { pc: (pc + 4) as usize, ..f })
            &&& match spec_decode(f.syscall_id) {
                None => {
                    &&& res == Err::<SyscallOutcome, KernelError>(KernelError::UnknownSyscall)
                    &&& new_k == old_k
                },
                Some(Syscall::Nop) => {
                    &&& res == Ok::<SyscallOutcome, KernelError>(SyscallOutcome::Nop)
                    &&& new_k == old_k
                },
                Some(Syscall::DumpRegisters) => {
                    &&& res == Ok::<SyscallOutcome, KernelError>(SyscallOutcome::DumpRegisters)
                    &&& new_k == old_k
                },
                Some(Syscall::Sleep) => {
                    &&& res matches Ok(SyscallOutcome::Sleep(found)) && sleep_effect(
                        old_k,
                        new_k,
                        f.pid,
                        1,
                        found,
                    )
                },
                Some(Syscall::Exit) => {
                    &&& res == Ok::<SyscallOutcome, KernelError>(SyscallOutcome::Exit)
                    &&& new_k == old_k
                },
                Some(Syscall::TmrAdd) => {
                    &&& res matches Ok(SyscallOutcome::TmrAdd(rep)) && tmr_add_effect(
                        old_k.tmr_values_list@,
                        new_k.tmr_values_list@,
                        entry_view(old_k.total),
                        rep,
                    )
                    &&& same_but_buffer(old_k, new_k)
                },
                Some(Syscall::Verify) => {
                    &&& res matches Ok(SyscallOutcome::Verify(rep)) && match rep {
                        None => old_k.tmr_values_list@.len() == 0,
                        Some(rp) => vote_ok(old_k.tmr_values_list@, rp),
                    }
                    &&& new_k == old_k
                },
                Some(Syscall::PrintTotal) => {
                    &&& res == Ok::<SyscallOutcome, KernelError>(SyscallOutcome::PrintTotal)
                    &&& new_k == old_k
                },
                Some(Syscall::Print) => {
                    &&& res == Ok::<SyscallOutcome, KernelError>(SyscallOutcome::Print)
                    &&& new_k == old_k
                },
                Some(Syscall::Sum) => {
                    &&& res matches Ok(SyscallOutcome::Sum(rep)) && sum_effect(old_k, new_k, rep)
                },
            }
        },
    }
}

/// What a dispatched syscall did, surfaced to the trap trampoline in
/// place of the console lines and the machine halt of the bare-metal
/// kernel.
#[derive(Clone, Debug)]
pub enum SyscallOutcome {
    /// Nothing happened.
    Nop,
    /// The saved registers were forwarded to the register-dump
    /// collaborator.
    DumpRegisters,
    /// Whether the calling pid was found and marked Sleeping.
    Sleep(bool),
    /// The whole machine must halt.
    Exit,
    /// The vote report, if this submission completed a quorum.
    TmrAdd(Option<VoteReport>),
    /// The voter's report over the current buffer.
    Verify(Option<VoteReport>),
    /// The shared accumulator was logged.
    PrintTotal,
    /// The recorded elapsed time was logged.
    Print,
    /// The vote report, if TMR mode submitted the total and completed a
    /// quorum.
    Sum(Option<VoteReport>),
}

/// The trap-handling state machine, one trap per invocation: validates
/// the frame, reads the syscall opcode from it, advances the saved
/// program counter past the trap instruction *before* dispatch, and
/// performs the requested kernel operation, nested syscalls included.
/// Returns the updated frame to resume from, and what was done.
pub fn make_syscall(kernel: &mut Kernel, pc: usize, frame: Option<TrapFrame>) -> (r: (
    Option<TrapFrame>,
    Result<SyscallOutcome, KernelError>,
))
    requires
        old(kernel).wf(),
        pc + 4 <= usize::MAX,
    ensures
        final(kernel).wf(),
        dispatch_effect(*old(kernel), *final(kernel), pc, frame, r.0, r.1),
{
    let mut f = match frame {
        None => {
            return (None, Err(KernelError::NullFrame));
        },
        Some(f) => f,
    };
    let syscall_id: usize = f.syscall_id;
    // skip the trap instruction
    f.pc = pc + 4;
    let res: Result<SyscallOutcome, KernelError> = match Syscall::try_from(syscall_id) {
        Ok(Syscall::Nop) => Ok(SyscallOutcome::Nop),
        Ok(Syscall::DumpRegisters) => Ok(SyscallOutcome::DumpRegisters),
        Ok(Syscall::Sleep) => {
            let found: bool = kernel.sleep_pid(f.pid, 1);
            Ok(SyscallOutcome::Sleep(found))
        },
        Ok(Syscall::Exit) => Ok(SyscallOutcome::Exit),
        Ok(Syscall::TmrAdd) => Ok(SyscallOutcome::TmrAdd(do_tmr_add(kernel))),
        Ok(Syscall::Verify) => Ok(SyscallOutcome::Verify(verify_vote(&kernel.tmr_values_list))),
        Ok(Syscall::PrintTotal) => Ok(SyscallOutcome::PrintTotal),
        Ok(Syscall::Print) => Ok(SyscallOutcome::Print),
        Ok(Syscall::Sum) => Ok(SyscallOutcome::Sum(do_sum(kernel))),
        Err(_) => Err(KernelError::UnknownSyscall),
    };
    (Some(f), res)
}

/// Law: a full TMR round from boot. `init` creates one TMR group of
/// three replicas; each replica in turn traps with the Sum syscall
/// (which submits its result through the nested TmrAdd). The first two
/// submissions must not trigger a vote, the third must trigger exactly
/// one, and the accepted result is the replicas' common sum vector, the
/// first entry winning the three-way tie with agreement score 2 —
/// Verify never runs on fewer than three buffered entries.
pub fn run_tmr_pipeline(entry: usize, pc1: usize, pc2: usize, pc3: usize) -> (r: (
    Kernel,
    Option<VoteReport>,
    Option<VoteReport>,
    Option<VoteReport>,
))
    requires
        pc1 + 4 <= usize::MAX,
        pc2 + 4 <= usize::MAX,
        pc3 + 4 <= usize::MAX,
    ensures
        r.0.wf(),
        r.0.tmr_values_list@.len() == 3,
        r.1 is None,
        r.2 is None,
        r.3 matches Some(rep) && {
            &&& entry_view(rep.accepted) == Some(sum_vector())
            &&& rep.index == 0
            &&& rep.score == 2
        },
{
    let (mut kernel, _boot_pc) = crate::process::init(entry);
    // the three replicas of the group carry pids 2, 3 and 4
    let (_f1, res1) = make_syscall(
        &mut kernel,
        pc1,
        Some(TrapFrame { pc: pc1, syscall_id: 8, pid: 2 }),
    );
    let rep1 = match res1 {
        Ok(SyscallOutcome::Sum(rp)) => rp,
        _ => None,
    };
    let (_f2, res2) = make_syscall(
        &mut kernel,
        pc2,
        Some(TrapFrame { pc: pc2, syscall_id: 8, pid: 3 }),
    );
    let rep2 = match res2 {
        Ok(SyscallOutcome::Sum(rp)) => rp,
        _ => None,
    };
    let (_f3, res3) = make_syscall(
        &mut kernel,
        pc3,
        Some(TrapFrame { pc: pc3, syscall_id: 8, pid: 4 }),
    );
    let rep3 = match res3 {
        Ok(SyscallOutcome::Sum(rp)) => rp,
        _ => None,
    };
    proof {
        let buf = kernel.tmr_values_list@;
        assert(entry_view(buf[0]) == Some(sum_vector()));
        assert(entry_view(buf[1]) == Some(sum_vector()));
        assert(entry_view(buf[2]) == Some(sum_vector()));
        // all three entries agree pairwise, so every agreement score is 2
        assert(agree_upto(buf, 0, 0) == 0);
        assert(agree_upto(buf, 0, 1) == 0);
        assert(agree_upto(buf, 0, 2) == 1);
        assert(agreement_score(buf, 0) == 2);
        assert(agree_upto(buf, 1, 0) == 0);
        assert(agree_upto(buf, 1, 1) == 1);
        assert(agree_upto(buf, 1, 2) == 1);
        assert(agreement_score(buf, 1) == 2);
        assert(agree_upto(buf, 2, 0) == 0);
        assert(agree_upto(buf, 2, 1) == 1);
        assert(agree_upto(buf, 2, 2) == 2);
        assert(agreement_score(buf, 2) == 2);
        let rep = rep3->0;
        // the first-occurrence tie-break leaves only index 0
        assert(rep.index == 0) by {
            if rep.index != 0 {
                assert(agreement_score(buf, 0) < rep.score);
            }
        }
        assert(entry_view(rep.accepted) == entry_view(buf[0]));
    }
    (kernel, rep1, rep2, rep3)
}

} // verus!
