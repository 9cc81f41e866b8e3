//! The supervisor: port resolution, the spawn plan, and the lifecycle state
//! machine driven by the control-event queue.

use vstd::prelude::*;

use crate::control::ControlEvent;
use crate::lifecycle::{rank, status_for, status_of, LifecycleState, StatusReport};
use crate::service::{ServiceEntry, ServiceEntryView, ServiceTable};

verus! {

/// The port a service is registered under, given its configured port and
/// the outcome of an allocation attempt: a nonzero configured port passes
/// through unchanged; the sentinel `0` takes the allocated port, and the
/// service is skipped (`None`) when allocation failed or handed back `0`,
/// which is no usable port.
pub open spec fn resolved_port_of(configured: u16, allocated: Option<u16>) -> Option<u16> {
    if configured != 0 {
        Some(configured)
    } else {
        match allocated {
            Some(p) => if p != 0 {
                Some(p)
            } else {
                None
            },
            None => None,
        }
    }
}

/// Resolve the port for one service.
///
/// The result, when there is one, is always in `1..=65535`; a nonzero
/// configured port is passed through unchanged, so resolution never rewrites
/// an explicitly configured port.
pub fn resolve_port(configured: u16, allocated: Option<u16>) -> (r: Option<u16>)
    ensures
        r == resolved_port_of(configured, allocated),
        r matches Some(p) ==> 1 <= p <= 65535,
        configured != 0 ==> r == Some(configured),
{
    if configured != 0 {
        Some(configured)
    } else {
        match allocated {
            Some(p) => if p != 0 {
                Some(p)
            } else {
                None
            },
            None => None,
        }
    }
}

/// Mathematical model of one registration order.
#[verifier::ext_equal]
pub ghost struct SpawnRequestView {
    pub key: Seq<char>,
    pub service_type: Seq<char>,
    pub name: Seq<char>,
    pub port: u16,
    pub text: Seq<(Seq<char>, Seq<char>)>,
}

/// One registration order: everything a registration worker needs to publish
/// one advertisement. Its port is already resolved and never `0`.
pub struct SpawnRequest {
    pub key: String,
    pub service_type: String,
    pub name: String,
    pub port: u16,
    pub text: Vec<(String, String)>,
}

impl View for SpawnRequest {
    type V = SpawnRequestView;

    open spec fn view(&self) -> SpawnRequestView {
        SpawnRequestView {
            key: self.key@,
            service_type: self.service_type@,
            name: self.name@,
            port: self.port,
            text: self.text.deep_view(),
        }
    }
}

impl DeepView for SpawnRequest {
    type V = SpawnRequestView;

    open spec fn deep_view(&self) -> SpawnRequestView {
        self.view()
    }
}

/// The registration order for one entry at a given resolved port.
pub open spec fn request_of(entry: ServiceEntryView, port: u16) -> SpawnRequestView {
    SpawnRequestView {
        key: entry.key,
        service_type: entry.svc.service_type,
        name: entry.svc.name,
        port,
        text: entry.svc.text,
    }
}

/// The spawn plan for a table: one registration order per entry whose port
/// resolves, in table order, each under its resolved port. `allocs[i]` is
/// the outcome of the allocation attempt for entry `i` (irrelevant for
/// entries with a nonzero configured port).
pub open spec fn spawn_plan(entries: Seq<ServiceEntryView>, allocs: Seq<Option<u16>>) -> Seq<
    SpawnRequestView,
>
    decreases entries.len(),
{
    if entries.len() == 0 {
        Seq::empty()
    } else {
        let i = entries.len() - 1;
        let head = spawn_plan(entries.drop_last(), allocs);
        match resolved_port_of(entries[i].svc.port, allocs[i]) {
            Some(p) => head.push(request_of(entries[i], p)),
            None => head,
        }
    }
}

/// How many entries of the table resolve to a usable port.
pub open spec fn resolved_count(entries: Seq<ServiceEntryView>, allocs: Seq<Option<u16>>) -> int
    decreases entries.len(),
{
    if entries.len() == 0 {
        0
    } else {
        let i = entries.len() - 1;
        resolved_count(entries.drop_last(), allocs) + if resolved_port_of(
            entries[i].svc.port,
            allocs[i],
        ) is Some {
            1int
        } else {
            0int
        }
    }
}

/// The spawn plan issues exactly one registration order per entry whose port
/// resolves: a failed allocation skips that one entry and no other.
pub proof fn lemma_spawn_plan_len(entries: Seq<ServiceEntryView>, allocs: Seq<Option<u16>>)
    ensures
        spawn_plan(entries, allocs).len() == resolved_count(entries, allocs),
        resolved_count(entries, allocs) <= entries.len(),
    decreases entries.len(),
{
    if entries.len() > 0 {
        lemma_spawn_plan_len(entries.drop_last(), allocs);
    }
}

/// One spawn attempt per table entry: when every entry's port resolves — in
/// particular whenever all allocation attempts succeed with a nonzero port —
/// the plan holds exactly one registration order per entry, whatever each
/// entry's configured port was.
pub proof fn lemma_spawn_plan_complete(entries: Seq<ServiceEntryView>, allocs: Seq<Option<u16>>)
    requires
        forall|i: int|
            0 <= i < entries.len() ==> resolved_port_of(
                entries[i].svc.port,
                #[trigger] allocs[i],
            ) is Some,
    ensures
        spawn_plan(entries, allocs).len() == entries.len(),
    decreases entries.len(),
{
    if entries.len() > 0 {
        lemma_spawn_plan_complete(entries.drop_last(), allocs);
    }
}

/// Auto-assignment is settled before any worker is given its order: every
/// registration order in the plan carries a port in `1..=65535`.
pub proof fn lemma_spawn_plan_ports_resolved(
    entries: Seq<ServiceEntryView>,
    allocs: Seq<Option<u16>>,
)
    ensures
        forall|k: int|
            0 <= k < spawn_plan(entries, allocs).len() ==> 1 <= (#[trigger] spawn_plan(
                entries,
                allocs,
            )[k]).port <= 65535,
    decreases entries.len(),
{
    if entries.len() > 0 {
        lemma_spawn_plan_ports_resolved(entries.drop_last(), allocs);
        let plan = spawn_plan(entries, allocs);
        let head = spawn_plan(entries.drop_last(), allocs);
        assert forall|k: int| 0 <= k < plan.len() implies 1 <= (#[trigger] plan[k]).port
            <= 65535 by {
            if k < head.len() {
                assert(plan[k] == head[k]);
            }
        }
    }
}

/// Partial-failure isolation: whatever happens to the other entries, every
/// entry whose own port resolves has its registration order in the plan.
pub proof fn lemma_spawn_plan_isolates_failures(
    entries: Seq<ServiceEntryView>,
    allocs: Seq<Option<u16>>,
    j: int,
)
    requires
        0 <= j < entries.len(),
        resolved_port_of(entries[j].svc.port, allocs[j]) is Some,
    ensures
        spawn_plan(entries, allocs).contains(
            request_of(entries[j], resolved_port_of(entries[j].svc.port, allocs[j])->Some_0),
        ),
    decreases entries.len(),
{
    let plan = spawn_plan(entries, allocs);
    let req = request_of(entries[j], resolved_port_of(entries[j].svc.port, allocs[j])->Some_0);
    if j == entries.len() - 1 {
        assert(plan.last() == req);
        assert(plan.contains(req));
    } else {
        lemma_spawn_plan_isolates_failures(entries.drop_last(), allocs, j);
        let head = spawn_plan(entries.drop_last(), allocs);
        let k = choose|k: int| 0 <= k < head.len() && head[k] == req;
        assert(plan[k] == req);
    }
}

/// What one poll of the control-event queue came back with.
#[derive(Clone, Copy, PartialEq, Eq, Structural, Debug)]
pub enum PollOutcome {
    /// An event was delivered.
    Delivered(ControlEvent),
    /// The bounded wait elapsed with no event; not an error, the loop simply
    /// polls again.
    TimedOut,
    /// The queue's sender side is gone; logged, and the loop continues.
    ChannelClosed,
}

/// What the control loop does after one poll: the status records to report
/// to the host, in order, and whether to log the poll as unhandled.
pub struct PollStep {
    pub reports: Vec<StatusReport>,
    pub log_unhandled: bool,
}

/// Whether a poll outcome is anything other than a stop request or a plain
/// timeout: such polls are logged and otherwise ignored.
pub open spec fn unhandled_poll(outcome: PollOutcome) -> bool {
    match outcome {
        PollOutcome::Delivered(e) => !(e is Stop),
        PollOutcome::TimedOut => false,
        PollOutcome::ChannelClosed => true,
    }
}

/// The supervisor: sole owner of the lifecycle state machine.
pub struct Supervisor {
    state: LifecycleState,
}

impl View for Supervisor {
    type V = LifecycleState;

    closed spec fn view(&self) -> LifecycleState {
        self.state
    }
}

impl Supervisor {
    /// A fresh supervisor, about to load the configuration.
    pub fn new() -> (s: Supervisor)
        ensures
            s@ is Starting,
    {
        Supervisor { state: LifecycleState::Starting }
    }

    /// The current lifecycle state.
    pub fn current_state(&self) -> (s: LifecycleState)
        ensures
            s == self@,
    {
        self.state
    }

    /// Issue the spawn plan for the loaded table and enter `Running`.
    ///
    /// `allocations[i]` is the outcome of the port-allocation attempt for
    /// entry `i` (ignored for entries with a nonzero configured port). The
    /// transition to `Running` is unconditional once all spawn orders have
    /// been issued; the returned status record, owed to the host exactly
    /// once, is the `Running` report.
    pub fn start_services(&mut self, table: &ServiceTable, allocations: &Vec<Option<u16>>) -> (r: (
        Vec<SpawnRequest>,
        StatusReport,
    ))
        requires
            old(self)@ is Starting,
            allocations@.len() == table@.len(),
        ensures
            final(self)@ is Running,
            rank(old(self)@) <= rank(final(self)@),
            r.0.deep_view() == spawn_plan(table@, allocations@),
            r.1 == status_of(LifecycleState::Running),
    {
        let mut plan: Vec<SpawnRequest> = Vec::new();
        let n = table.entries.len();
        let mut i: usize = 0;
        while i < n
            invariant
                n == table@.len(),
                allocations@.len() == table@.len(),
                i <= n,
                plan.deep_view() == spawn_plan(table@.take(i as int), allocations@),
            decreases n - i,
        {
            let entry = &table.entries[i];
            proof {
                assert(table@.take(i + 1).drop_last() =~= table@.take(i as int));
                assert(table@.take(i + 1).last() == table@[i as int]);
                assert(table@[i as int] == entry@);
            }
            match resolve_port(entry.svc.port, allocations[i]) {
                Some(port) => {
                    let req = build_request(entry, port);
                    plan.push(req);
                    proof {
                        assert(plan.deep_view() =~= spawn_plan(
                            table@.take(i + 1),
                            allocations@,
                        ));
                    }
                },
                None => {
                    proof {
                        assert(plan.deep_view() =~= spawn_plan(
                            table@.take(i + 1),
                            allocations@,
                        ));
                    }
                },
            }
            i += 1;
        }
        proof {
            assert(table@.take(n as int) =~= table@);
        }
        self.state = LifecycleState::Running;
        (plan, status_for(LifecycleState::Running))
    }

    /// Act on one poll of the control-event queue.
    ///
    /// A delivered `Stop` drives the lifecycle through `StopPending` to
    /// `Stopped`, and exactly those two status records, in that order, are
    /// owed to the host; nothing else is ever reported in between. Every
    /// other outcome leaves the supervisor in `Running` with nothing to
    /// report — in particular an `Interrogate` causes no transition — and
    /// is logged when it is neither a stop nor a plain timeout.
    ///
    /// Known limitation: no worker is drained or joined on the way from
    /// `StopPending` to `Stopped`. Workers are torn down by process exit,
    /// so an advertisement may be released only after the host already
    /// considers the service stopped.
    pub fn poll(&mut self, outcome: PollOutcome) -> (step: PollStep)
        requires
            old(self)@ is Running,
        ensures
            outcome == PollOutcome::Delivered(ControlEvent::Stop) ==> {
                &&& final(self)@ is Stopped
                &&& step.reports@ == seq![
                    status_of(LifecycleState::StopPending),
                    status_of(LifecycleState::Stopped),
                ]
            },
            outcome != PollOutcome::Delivered(ControlEvent::Stop) ==> {
                &&& final(self)@ is Running
                &&& step.reports@.len() == 0
            },
            step.log_unhandled == unhandled_poll(outcome),
            rank(old(self)@) <= rank(final(self)@),
    {
        match outcome {
            PollOutcome::Delivered(ControlEvent::Stop) => {
                self.state = LifecycleState::StopPending;
                let mut reports: Vec<StatusReport> = Vec::new();
                reports.push(status_for(LifecycleState::StopPending));
                self.state = LifecycleState::Stopped;
                reports.push(status_for(LifecycleState::Stopped));
                proof {
                    assert(reports@ =~= seq![
                        status_of(LifecycleState::StopPending),
                        status_of(LifecycleState::Stopped),
                    ]);
                }
                PollStep { reports, log_unhandled: false }
            },
            PollOutcome::Delivered(_) => {
                let logged = !matches!(outcome, PollOutcome::Delivered(ControlEvent::Stop));
                PollStep { reports: Vec::new(), log_unhandled: logged }
            },
            PollOutcome::TimedOut => PollStep { reports: Vec::new(), log_unhandled: false },
            PollOutcome::ChannelClosed => PollStep { reports: Vec::new(), log_unhandled: true },
        }
    }
}

/// Build the registration order for one entry at its resolved port.
fn build_request(entry: &ServiceEntry, port: u16) -> (r: SpawnRequest)
    ensures
        r@ == request_of(entry@, port),
{
    let r = SpawnRequest {
        key: entry.key.clone(),
        service_type: entry.svc.service_type.clone(),
        name: entry.svc.name.clone(),
        port,
        text: clone_text(&entry.svc.text),
    };
    proof {
        assert(r@ =~= request_of(entry@, port));
    }
    r
}

/// Copy a TXT-record attribute list.
fn clone_text(src: &Vec<(String, String)>) -> (r: Vec<(String, String)>)
    ensures
        r@ == src@,
{
    let mut out: Vec<(String, String)> = Vec::new();
    let mut i: usize = 0;
    while i < src.len()
        invariant
            i <= src@.len(),
            out@ == src@.take(i as int),
        decreases src@.len() - i,
    {
        let pair = &src[i];
        out.push((pair.0.clone(), pair.1.clone()));
        proof {
            assert(out@ =~= src@.take(i + 1));
        }
        i += 1;
    }
    proof {
        assert(src@.take(src@.len() as int) =~= src@);
    }
    out
}

} // verus!
