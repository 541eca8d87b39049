//! The bounded run loop's bookkeeping: how many exits a vCPU may take, and what a finished run
//! reports.
use crate::error::{Error, VmExitError};
use crate::vcpu::{PortIoExit, VcpuId, VmExitReport};
use vstd::prelude::*;

verus! {

/// What a vCPU run that stopped reports: its last exit, its port-I/O exits in order, and how
/// many exits it took.
#[derive(Debug, Clone, PartialEq, Eq)]
pub struct VmExecutionResult {
    pub report: VmExitReport,
    pub io_exits: Vec<PortIoExit>,
    pub completed_exits: u32,
}

impl VmExecutionResult {
    pub fn new(report: VmExitReport, io_exits: Vec<PortIoExit>, completed_exits: u32) -> (r: Self)
        ensures r.report == report, r.io_exits@ == io_exits@, r.completed_exits == completed_exits,
    {
        VmExecutionResult { report, io_exits, completed_exits }
    }

    pub fn report(&self) -> (r: VmExitReport)
        ensures r == self.report,
    {
        self.report
    }

    pub fn io_exits(&self) -> (r: &[PortIoExit])
        ensures r@ == self.io_exits@,
    {
        self.io_exits.as_slice()
    }

    pub fn completed_exits(&self) -> (r: u32)
        ensures r == self.completed_exits,
    {
        self.completed_exits
    }
}

/// The exits a vCPU has taken against its limit, and the reason of the last one.
#[derive(Debug, Clone, Copy, PartialEq, Eq)]
pub struct ExitBudget {
    pub vcpu_id: VcpuId,
    pub limit: u32,
    pub completed: u32,
    pub last_exit_reason: Option<u32>,
}

impl ExitBudget {
    pub open spec fn wf(self) -> bool {
        self.completed <= self.limit
    }

    pub fn new(vcpu_id: VcpuId, limit: u32) -> (r: Self)
        ensures r.vcpu_id == vcpu_id, r.limit == limit, r.completed == 0, r.last_exit_reason is None, r.wf(),
    {
        ExitBudget { vcpu_id, limit, completed: 0, last_exit_reason: None }
    }

    /// Another run is allowed exactly while fewer exits than the limit were taken; the refusal
    /// names the vCPU, the limit, the count and the last exit reason.
    pub fn ensure_run_allowed(self) -> (r: Result<(), Error>)
        ensures
            self.completed < self.limit ==> r is Ok,
            self.completed >= self.limit ==> r == Err::<(), Error>(Error::VmExit(VmExitError::ExitBudgetExhausted {
                vcpu_id: self.vcpu_id.0,
                budget: self.limit,
                completed: self.completed,
                last_exit_reason: self.last_exit_reason,
            })),
    {
        if self.completed < self.limit {
            return Ok(());
        }
        Err(Error::VmExit(VmExitError::ExitBudgetExhausted {
            vcpu_id: self.vcpu_id.get(),
            budget: self.limit,
            completed: self.completed,
            last_exit_reason: self.last_exit_reason,
        }))
    }

    /// Counts one exit with the given reason; allowed only after `ensure_run_allowed` passed.
    pub fn record(&mut self, reason: u32)
        requires old(self).completed < old(self).limit,
        ensures
            final(self).completed == old(self).completed + 1,
            final(self).last_exit_reason == Some(reason),
            final(self).limit == old(self).limit,
            final(self).vcpu_id == old(self).vcpu_id,
            final(self).wf(),
    {
        self.completed = self.completed + 1;
        self.last_exit_reason = Some(reason);
    }

    pub fn completed(self) -> (r: u32)
        ensures r == self.completed,
    {
        self.completed
    }
}

/// The budget after counting one exit with `reason`.
pub open spec fn spec_record(budget: ExitBudget, reason: u32) -> ExitBudget {
    ExitBudget { completed: (budget.completed + 1) as u32, last_exit_reason: Some(reason), ..budget }
}

/// The budget after counting the exits `reasons`, in order.
pub open spec fn spec_record_all(budget: ExitBudget, reasons: Seq<u32>) -> ExitBudget
    decreases reasons.len(),
{
    if reasons.len() == 0 {
        budget
    } else {
        spec_record(spec_record_all(budget, reasons.drop_last()), reasons.last())
    }
}

/// A budget of `limit` allows exactly `limit` runs: after any `k <= limit` exits a further run
/// is allowed exactly when `k < limit`, and the budget remembers the reason of the last exit.
pub proof fn lemma_budget_allows_exactly_limit(vcpu_id: VcpuId, limit: u32, reasons: Seq<u32>)
    requires reasons.len() <= limit,
    ensures
        ({
            let after = spec_record_all(ExitBudget { vcpu_id, limit, completed: 0, last_exit_reason: None }, reasons);
            &&& after.completed == reasons.len()
            &&& after.limit == limit
            &&& after.vcpu_id == vcpu_id
            &&& (after.completed < after.limit <==> reasons.len() < limit)
            &&& (reasons.len() > 0 ==> after.last_exit_reason == Some(reasons.last()))
            &&& (reasons.len() == 0 ==> after.last_exit_reason is None)
        }),
    decreases reasons.len(),
{
    if reasons.len() > 0 {
        lemma_budget_allows_exactly_limit(vcpu_id, limit, reasons.drop_last());
    }
}

/// What the exit handler decided about one exit: keep running after a serviced port-I/O exit,
/// or stop with the final exit.
#[derive(Debug, Clone, PartialEq, Eq)]
pub enum VmExitDisposition {
    Continue(PortIoExit),
    Stopped(VmExitReport),
}

/// The error a run with `limit` reports when its budget ran out after `completed` exits.
pub open spec fn spec_exhausted(vcpu_id: VcpuId, limit: u32, completed: u32, last_exit_reason: Option<u32>) -> Error {
    Error::VmExit(VmExitError::ExitBudgetExhausted { vcpu_id: vcpu_id.0, budget: limit, completed, last_exit_reason })
}

/// The reasons of a run's exits, in order.
pub open spec fn exit_reasons(exits: Seq<(u32, VmExitDisposition)>) -> Seq<u32> {
    exits.map_values(|e: (u32, VmExitDisposition)| e.0)
}

/// How a run with `limit` goes on from its `k`-th exit, having kept the serviced port-I/O exits
/// `kept`: past the budget it fails; out of exits it is still running (`None`); a serviced exit
/// is kept and the run goes on; a stop ends it with its report, the kept exits and the count.
pub open spec fn spec_run_from(vcpu_id: VcpuId, limit: u32, exits: Seq<(u32, VmExitDisposition)>, k: nat,
    kept: Seq<PortIoExit>) -> Option<Result<(VmExitReport, Seq<PortIoExit>, nat), Error>>
    decreases limit - k,
{
    if k >= limit {
        Some(Err(spec_exhausted(vcpu_id, limit, limit,
            if limit == 0 { None } else { Some(exits[limit - 1].0) })))
    } else if k >= exits.len() {
        None
    } else {
        match exits[k as int].1 {
            VmExitDisposition::Continue(io) => spec_run_from(vcpu_id, limit, exits, k + 1, kept.push(io)),
            VmExitDisposition::Stopped(report) => Some(Ok((report, kept, k + 1))),
        }
    }
}

/// The outcome of a run with `limit` whose vCPU took the exits `exits`, or `None` while it is
/// still running.
pub open spec fn spec_run(vcpu_id: VcpuId, limit: u32, exits: Seq<(u32, VmExitDisposition)>)
    -> Option<Result<(VmExitReport, Seq<PortIoExit>, nat), Error>>
{
    spec_run_from(vcpu_id, limit, exits, 0, Seq::empty())
}

/// The port-I/O exits of serviced exits, in order.
pub open spec fn serviced_ios(exits: Seq<(u32, VmExitDisposition)>) -> Seq<PortIoExit> {
    exits.map_values(|e: (u32, VmExitDisposition)| match e.1 {
        VmExitDisposition::Continue(io) => io,
        VmExitDisposition::Stopped(_) => arbitrary(),
    })
}

/// Whether every exit was serviced.
pub open spec fn all_serviced(exits: Seq<(u32, VmExitDisposition)>) -> bool {
    forall|j: int| 0 <= j < exits.len() ==> (#[trigger] exits[j]).1 is Continue
}

proof fn lemma_run_from(vcpu_id: VcpuId, limit: u32, exits: Seq<(u32, VmExitDisposition)>, k: nat)
    requires
        k <= limit,
        k <= exits.len(),
        all_serviced(exits.take(k as int)),
    ensures
        ({
            let out = spec_run_from(vcpu_id, limit, exits, k, serviced_ios(exits.take(k as int)));
            match out {
                Some(Ok((report, kept, completed))) => {
                    &&& k + 1 <= completed <= limit
                    &&& completed <= exits.len()
                    &&& kept == serviced_ios(exits.take(completed - 1))
                    &&& all_serviced(exits.take(completed - 1))
                    &&& exits[completed - 1].1 == VmExitDisposition::Stopped(report)
                },
                Some(Err(e)) => {
                    &&& limit <= exits.len()
                    &&& all_serviced(exits.take(limit as int))
                    &&& e == spec_exhausted(vcpu_id, limit, limit,
                        if limit == 0 { None } else { Some(exits[limit - 1].0) })
                },
                None => exits.len() < limit && all_serviced(exits),
            }
        }),
    decreases limit - k,
{
    if k < limit && k < exits.len() {
        match exits[k as int].1 {
            VmExitDisposition::Continue(io) => {
                assert(exits.take(k as int + 1) =~= exits.take(k as int).push(exits[k as int]));
                assert(serviced_ios(exits.take(k as int + 1)) =~= serviced_ios(exits.take(k as int)).push(io));
                assert forall|j: int| 0 <= j < exits.take(k as int + 1).len() implies
                    (#[trigger] exits.take(k as int + 1)[j]).1 is Continue by {
                    if j < k {
                        assert(exits.take(k as int + 1)[j] == exits.take(k as int)[j]);
                    }
                }
                lemma_run_from(vcpu_id, limit, exits, k + 1);
            },
            VmExitDisposition::Stopped(_) => {},
        }
    } else if k >= exits.len() && k < limit {
        assert(exits.take(k as int) =~= exits);
    }
}

proof fn lemma_run_from_prefix(vcpu_id: VcpuId, limit: u32, exits: Seq<(u32, VmExitDisposition)>, k: nat, n: nat)
    requires
        k <= n,
        n <= exits.len(),
        n <= limit,
        all_serviced(exits.take(n as int)),
    ensures
        spec_run_from(vcpu_id, limit, exits, k, serviced_ios(exits.take(k as int)))
            == spec_run_from(vcpu_id, limit, exits, n, serviced_ios(exits.take(n as int))),
    decreases n - k,
{
    if k < n {
        assert(exits.take(n as int)[k as int] == exits[k as int]);
        let io = match exits[k as int].1 {
            VmExitDisposition::Continue(io) => io,
            VmExitDisposition::Stopped(_) => arbitrary(),
        };
        assert(exits.take(k as int + 1) =~= exits.take(k as int).push(exits[k as int]));
        assert(serviced_ios(exits.take(k as int + 1)) =~= serviced_ios(exits.take(k as int)).push(io));
        lemma_run_from_prefix(vcpu_id, limit, exits, k + 1, n);
    }
}

/// What a bounded run does, whatever exits its vCPU takes: it runs the vCPU at most `limit`
/// times. It stops with the first exit the handler stops on, after `completed` exits with
/// `1 <= completed <= limit`, reporting that exit and keeping the `completed - 1` serviced
/// port-I/O exits before it in order. If the first `limit` exits were all serviced it fails
/// with the exhausted budget, naming the limit as the count and the last reason; with a limit of
/// zero it fails before any run.
pub proof fn lemma_run_loop(vcpu_id: VcpuId, limit: u32, exits: Seq<(u32, VmExitDisposition)>)
    ensures
        match spec_run(vcpu_id, limit, exits) {
            Some(Ok((report, kept, completed))) => {
                &&& 1 <= completed <= limit
                &&& completed <= exits.len()
                &&& kept.len() == completed - 1
                &&& kept == serviced_ios(exits.take(completed - 1))
                &&& all_serviced(exits.take(completed - 1))
                &&& exits[completed - 1].1 == VmExitDisposition::Stopped(report)
            },
            Some(Err(e)) => {
                &&& limit <= exits.len()
                &&& all_serviced(exits.take(limit as int))
                &&& e == spec_exhausted(vcpu_id, limit, limit,
                    if limit == 0 { None } else { Some(exits[limit - 1].0) })
            },
            None => exits.len() < limit && all_serviced(exits),
        },
        limit == 0 ==> spec_run(vcpu_id, limit, exits) == Some(
            Err::<(VmExitReport, Seq<PortIoExit>, nat), Error>(spec_exhausted(vcpu_id, 0, 0, None))),
{
    assert(exits.take(0) =~= Seq::<(u32, VmExitDisposition)>::empty());
    assert(serviced_ios(exits.take(0)) =~= Seq::<PortIoExit>::empty());
    lemma_run_from(vcpu_id, limit, exits, 0);
}

/// The decisions of a bounded vCPU run, one exit at a time; the caller performs each run of
/// the vCPU and the servicing of its exit.
pub struct VcpuRunLoop {
    pub budget: ExitBudget,
    pub io_exits: Vec<PortIoExit>,
    /// The exits taken so far, with what the handler decided of each.
    pub history: Ghost<Seq<(u32, VmExitDisposition)>>,
}

impl VcpuRunLoop {
    /// Every exit so far was serviced and counted against the budget, which is never overdrawn,
    /// and the serviced port-I/O exits are kept in order.
    pub open spec fn wf(self) -> bool {
        &&& self.budget.wf()
        &&& self.budget == spec_record_all(
            ExitBudget { vcpu_id: self.budget.vcpu_id, limit: self.budget.limit, completed: 0, last_exit_reason: None },
            exit_reasons(self.history@),
        )
        &&& self.history@.len() == self.budget.completed
        &&& all_serviced(self.history@)
        &&& self.io_exits@ == serviced_ios(self.history@)
    }

    pub fn new(vcpu_id: VcpuId, limit: u32) -> (r: Self)
        ensures
            r.wf(),
            r.budget == (ExitBudget { vcpu_id, limit, completed: 0, last_exit_reason: None }),
            r.io_exits@.len() == 0,
            r.history@ == Seq::<(u32, VmExitDisposition)>::empty(),
    {
        let r = VcpuRunLoop { budget: ExitBudget::new(vcpu_id, limit), io_exits: Vec::new(), history: Ghost(Seq::empty()) };
        proof {
            assert(exit_reasons(r.history@) =~= Seq::<u32>::empty());
            assert(r.io_exits@ =~= serviced_ios(r.history@));
        }
        r
    }

    /// Whether the vCPU may run once more: a refusal is exactly the run's outcome when the
    /// budget is spent (see `lemma_run_loop`).
    pub fn before_run(&self) -> (r: Result<(), Error>)
        requires self.wf(),
        ensures
            self.budget.completed < self.budget.limit ==> r is Ok,
            self.budget.completed >= self.budget.limit ==> r == Err::<(), Error>(Error::VmExit(
                VmExitError::ExitBudgetExhausted {
                    vcpu_id: self.budget.vcpu_id.0,
                    budget: self.budget.limit,
                    completed: self.budget.completed,
                    last_exit_reason: self.budget.last_exit_reason,
                })),
            r is Ok <==> spec_run(self.budget.vcpu_id, self.budget.limit, self.history@) is None,
            r matches Err(e) ==> spec_run(self.budget.vcpu_id, self.budget.limit, self.history@) == Some(
                Err::<(VmExitReport, Seq<PortIoExit>, nat), Error>(e)),
    {
        proof {
            let h = self.history@;
            lemma_run_loop(self.budget.vcpu_id, self.budget.limit, h);
            lemma_budget_allows_exactly_limit(self.budget.vcpu_id, self.budget.limit, exit_reasons(h));
            assert(h.take(h.len() as int) =~= h);
            if h.len() > 0 {
                assert(exit_reasons(h).last() == h[h.len() - 1].0);
            }
        }
        self.budget.ensure_run_allowed()
    }

    /// Counts the exit the vCPU just took and applies the handler's decision: a serviced exit is
    /// kept and the run goes on (`None`); a stop ends the run with its report, the serviced exits
    /// in order and the number of exits taken, which is the run's outcome (see `lemma_run_loop`).
    pub fn after_exit(&mut self, reason: u32, disposition: VmExitDisposition) -> (r: Option<VmExecutionResult>)
        requires
            old(self).wf(),
            old(self).budget.completed < old(self).budget.limit,
        ensures
            final(self).budget == spec_record(old(self).budget, reason),
            final(self).history@ == old(self).history@.push((reason, disposition)),
            match disposition {
                VmExitDisposition::Continue(io) => {
                    &&& r is None
                    &&& final(self).wf()
                    &&& final(self).io_exits@ == old(self).io_exits@.push(io)
                },
                VmExitDisposition::Stopped(report) => {
                    &&& r is Some
                    &&& r->Some_0.report == report
                    &&& r->Some_0.io_exits@ == old(self).io_exits@
                    &&& r->Some_0.completed_exits == old(self).budget.completed + 1
                    &&& final(self).io_exits@.len() == 0
                },
            },
            r matches Some(result) ==> spec_run(old(self).budget.vcpu_id, old(self).budget.limit, final(self).history@)
                == Some(Ok::<(VmExitReport, Seq<PortIoExit>, nat), Error>(
                    (result.report, result.io_exits@, result.completed_exits as nat))),
            r is None ==> spec_run(old(self).budget.vcpu_id, old(self).budget.limit, final(self).history@) is None
                || final(self).budget.completed == final(self).budget.limit,
    {
        let ghost h = self.history@;
        let ghost entry = (reason, disposition);
        self.budget.record(reason);
        self.history = Ghost(h.push(entry));
        proof {
            let h2 = h.push(entry);
            assert(exit_reasons(h2) =~= exit_reasons(h).push(reason));
            assert(exit_reasons(h2).drop_last() =~= exit_reasons(h));
            assert(h2.take(h.len() as int) =~= h);
            lemma_run_loop(self.budget.vcpu_id, self.budget.limit, h2);
            lemma_run_loop(self.budget.vcpu_id, self.budget.limit, h);
        }
        match disposition {
            VmExitDisposition::Continue(io) => {
                self.io_exits.push(io);
                proof {
                    let h2 = h.push(entry);
                    assert(serviced_ios(h2) =~= serviced_ios(h).push(io));
                    assert forall|j: int| 0 <= j < h2.len() implies (#[trigger] h2[j]).1 is Continue by {
                        if j < h.len() {
                            assert(h2[j] == h[j]);
                        }
                    }
                }
                None
            },
            VmExitDisposition::Stopped(report) => {
                proof {
                    let h2 = h.push(entry);
                    let n = h.len();
                    assert(h2.take(n as int) =~= h);
                    assert(h2.take(0) =~= Seq::<(u32, VmExitDisposition)>::empty());
                    assert(serviced_ios(h2.take(0)) =~= Seq::<PortIoExit>::empty());
                    lemma_run_from_prefix(old(self).budget.vcpu_id, old(self).budget.limit, h2, 0, n);
                    assert(h2[n as int] == entry);
                }
                let mut io_exits: Vec<PortIoExit> = Vec::new();
                std::mem::swap(&mut io_exits, &mut self.io_exits);
                Some(VmExecutionResult { report, io_exits, completed_exits: self.budget.completed() })
            },
        }
    }
}

} // verus!
