//! The decisions behind a lazily initialised, shared application-data cell.
//!
//! A cell starts with a pending producer. The first `get` claims it and runs
//! it; callers that come while it runs wait for the same run; once it has
//! produced, every `get` takes the cached value. The producer is never run
//! twice, and a cell whose claimed run was abandoned stays poisoned: callers
//! keep waiting on a run that never comes, and the waiting side fails.

use vstd::prelude::*;

verus! {

/// The abstract state of a cell: whether its producer is still pending,
/// whether its value is ready, and how many times the producer was run.
pub struct InitModel {
    pub pending: bool,
    pub ready: bool,
    pub runs: nat,
}

/// What happens to a cell.
pub enum InitEvent {
    /// A caller asks for the value.
    Get,
    /// The claimed producer has finished and its value is stored.
    Produced,
}

/// What a caller of `get` is told to do.
#[derive(PartialEq, Eq, Structural, Clone, Copy, Debug)]
pub enum GetStep {
    /// The value is stored: take it.
    UseCached,
    /// This caller claimed the producer: run it and store its value.
    RunProducer,
    /// Another caller's run is under way: wait for its value.
    Wait,
}

/// A cell that nothing has asked yet.
pub open spec fn fresh_model() -> InitModel {
    InitModel { pending: true, ready: false, runs: 0 }
}

/// The states that a cell can reach: the producer was run once exactly when
/// it is no longer pending, and a value is ready only after that run.
pub open spec fn model_wf(m: InitModel) -> bool {
    &&& m.runs == (if m.pending { 0nat } else { 1nat })
    &&& m.ready ==> !m.pending
}

/// What a `get` is told in state `m`.
pub open spec fn get_step(m: InitModel) -> GetStep {
    if m.ready {
        GetStep::UseCached
    } else if m.pending {
        GetStep::RunProducer
    } else {
        GetStep::Wait
    }
}

/// The state after event `e` in state `m`.
pub open spec fn step(m: InitModel, e: InitEvent) -> InitModel {
    match e {
        InitEvent::Get => if !m.ready && m.pending {
            InitModel { pending: false, ready: false, runs: m.runs + 1 }
        } else {
            m
        },
        InitEvent::Produced => if m.pending {
            m
        } else {
            InitModel { ready: true, ..m }
        },
    }
}

/// The state after the events `es`, in order, from state `m`.
pub open spec fn run_events(m: InitModel, es: Seq<InitEvent>) -> InitModel
    decreases es.len(),
{
    if es.len() == 0 {
        m
    } else {
        run_events(step(m, es[0]), es.drop_first())
    }
}

/// Whether the events `es` hold a `get`.
pub open spec fn has_get(es: Seq<InitEvent>) -> bool {
    exists|i: int| 0 <= i < es.len() && es[i] is Get
}

/// Every step keeps a reachable state reachable.
pub proof fn lemma_step_wf(m: InitModel, e: InitEvent)
    requires
        model_wf(m),
    ensures
        model_wf(step(m, e)),
{
}

/// Whatever events come, in whatever order, a reachable state stays reachable.
pub proof fn lemma_run_events_wf(m: InitModel, es: Seq<InitEvent>)
    requires
        model_wf(m),
    ensures
        model_wf(run_events(m, es)),
    decreases es.len(),
{
    if es.len() > 0 {
        lemma_step_wf(m, es[0]);
        lemma_run_events_wf(step(m, es[0]), es.drop_first());
    }
}

/// However many callers ask a fresh cell for its value, and however their
/// requests interleave with the producer's completion, the producer runs
/// exactly once if anyone asked, and never otherwise.
pub proof fn lemma_producer_runs_once(es: Seq<InitEvent>)
    ensures
        run_events(fresh_model(), es).runs == (if has_get(es) { 1nat } else { 0nat }),
        run_events(fresh_model(), es).runs <= 1,
{
    lemma_pending_until_get(fresh_model(), es);
    lemma_run_events_wf(fresh_model(), es);
}

/// From a pending state, the producer stays pending exactly as long as no
/// `get` has come.
proof fn lemma_pending_until_get(m: InitModel, es: Seq<InitEvent>)
    requires
        model_wf(m),
        m.pending,
    ensures
        run_events(m, es).pending == !has_get(es),
    decreases es.len(),
{
    if es.len() > 0 {
        let rest = es.drop_first();
        if es[0] is Get {
            lemma_claimed_stays_claimed(step(m, es[0]), rest);
        } else {
            lemma_pending_until_get(step(m, es[0]), rest);
            if has_get(rest) {
                let i = choose|i: int| 0 <= i < rest.len() && rest[i] is Get;
                assert(es[i + 1] is Get);
            }
            if has_get(es) {
                let i = choose|i: int| 0 <= i < es.len() && es[i] is Get;
                assert(rest[i - 1] is Get);
            }
        }
    } else {
        assert(!has_get(es));
    }
    assert(es.len() > 0 && es[0] is Get ==> has_get(es));
}

/// A claimed producer is never pending again.
proof fn lemma_claimed_stays_claimed(m: InitModel, es: Seq<InitEvent>)
    requires
        !m.pending,
    ensures
        !run_events(m, es).pending,
        run_events(m, es).runs == m.runs,
    decreases es.len(),
{
    if es.len() > 0 {
        lemma_claimed_stays_claimed(step(m, es[0]), es.drop_first());
    }
}

/// Once the value is ready it stays ready, the producer is not run again,
/// and every later `get` takes the cached value.
pub proof fn lemma_ready_is_final(m: InitModel, es: Seq<InitEvent>)
    requires
        model_wf(m),
        m.ready,
    ensures
        run_events(m, es) == m,
        get_step(run_events(m, es)) == GetStep::UseCached,
    decreases es.len(),
{
    if es.len() > 0 {
        lemma_ready_is_final(step(m, es[0]), es.drop_first());
    }
}

/// What a caller of `get` is to do, with the producer handed to the caller
/// that claimed it.
pub enum GetAction<P> {
    /// The value is stored: take it.
    UseCached,
    /// This caller claimed the producer: run it and store its value.
    Run(P),
    /// Another caller's run is under way: wait for its value.
    Wait,
}

impl<P> GetAction<P> {
    /// The step this action stands for.
    pub open spec fn spec_step(&self) -> GetStep {
        match self {
            GetAction::UseCached => GetStep::UseCached,
            GetAction::Run(_) => GetStep::RunProducer,
            GetAction::Wait => GetStep::Wait,
        }
    }
}

/// The initialisation state of one cell: the producer while it is pending,
/// and whether its value has been stored.
pub struct LazyInit<P> {
    producer: Option<P>,
    ready: bool,
    runs: Ghost<nat>,
}

impl<P> LazyInit<P> {
    /// The abstract state of the cell.
    pub closed spec fn model(&self) -> InitModel {
        InitModel { pending: self.producer is Some, ready: self.ready, runs: self.runs@ }
    }

    /// The producer, while no caller has claimed it.
    pub closed spec fn spec_producer(&self) -> Option<P> {
        self.producer
    }

    /// The cell is in a reachable state.
    pub open spec fn wf(&self) -> bool {
        model_wf(self.model())
    }

    /// A cell whose value `producer` will compute on first demand.
    pub fn new(producer: P) -> (r: LazyInit<P>)
        ensures
            r.model() == fresh_model(),
            r.spec_producer() == Some(producer),
            r.wf(),
    {
        LazyInit { producer: Some(producer), ready: false, runs: Ghost(0) }
    }

    /// Decides what a caller of `get` does: take the stored value, claim and
    /// run the producer, or wait for the run that another caller claimed.
    pub fn on_get(&mut self) -> (r: GetAction<P>)
        requires
            old(self).wf(),
        ensures
            final(self).wf(),
            final(self).model() == step(old(self).model(), InitEvent::Get),
            r.spec_step() == get_step(old(self).model()),
            r matches GetAction::Run(p) ==> old(self).spec_producer() == Some(p),
            final(self).spec_producer() is None || final(self).spec_producer()
                == old(self).spec_producer(),
    {
        if self.ready {
            GetAction::UseCached
        } else {
            match self.producer.take() {
                Some(p) => {
                    self.runs = Ghost(self.runs@ + 1);
                    GetAction::Run(p)
                },
                None => GetAction::Wait,
            }
        }
    }

    /// Records that the claimed producer has finished and its value is stored.
    pub fn on_produced(&mut self)
        requires
            old(self).wf(),
        ensures
            final(self).wf(),
            final(self).model() == step(old(self).model(), InitEvent::Produced),
            final(self).spec_producer() == old(self).spec_producer(),
    {
        if self.producer.is_none() {
            self.ready = true;
        }
    }

    /// Whether the value has been stored.
    pub fn is_ready(&self) -> (r: bool)
        ensures
            r == self.model().ready,
    {
        self.ready
    }
}

/// Why a handler argument could not be extracted from a request.
#[derive(PartialEq, Eq, Structural, Clone, Copy, Debug)]
pub enum ExtractError {
    /// No cell of the requested type was registered with the application.
    NotConfigured,
}

/// `500 Internal Server Error`: the status a failed extraction answers with.
pub const INTERNAL_SERVER_ERROR: u16 = 500;

impl ExtractError {
    /// The HTTP status of the response that reports this error.
    pub fn status_code(&self) -> (r: u16)
        ensures
            r == INTERNAL_SERVER_ERROR,
    {
        INTERNAL_SERVER_ERROR
    }

    /// The message shown to the client: generic, without internal details.
    pub fn message(&self) -> (r: &'static str)
        ensures
            r@ == "Requested application data is not configured correctly. View/enable debug logs for more details."@,
    {
        "Requested application data is not configured correctly. View/enable debug logs for more details."
    }
}

/// Resolves a handler argument from what the application registered for its
/// type: the registered handle when there is one, a configuration error
/// when there is none.
pub fn resolve<H>(registered: Option<H>) -> (r: Result<H, ExtractError>)
    ensures
        registered is Some <==> r is Ok,
        registered matches Some(h) ==> r == Ok::<H, ExtractError>(h),
        registered is None ==> r == Err::<H, ExtractError>(ExtractError::NotConfigured),
{
    match registered {
        Some(h) => Ok(h),
        None => Err(ExtractError::NotConfigured),
    }
}

/// The name under which a failed extraction is logged: the route's name
/// where it has one, its path otherwise.
pub fn route_label<'a>(route_name: Option<&'a str>, path: &'a str) -> (r: &'a str)
    ensures
        route_name matches Some(n) ==> r == n,
        route_name is None ==> r == path,
{
    match route_name {
        Some(n) => n,
        None => path,
    }
}

} // verus!
