//! The ownership protocol of one processing run.
//!
//! A run converts its input, hands it to the engine together with a
//! callback context (when callbacks are installed), dispatches any number of
//! callbacks while the engine runs, converts the engine's result and then
//! releases everything it allocated. `Session` records where a run stands and
//! what it holds; each step is allowed only where the protocol allows it, and
//! `release` names each allocation that is still live, once.
use vstd::prelude::*;
use vstd::string::*;
use crate::boundary::{
    decode_terminated, encode_terminated, first_terminator, opt_chars, terminated, terminator_free,
    text_of, EncodingError,
};

verus! {

/// Where an allocation of a run stands.
#[derive(Debug, Clone, Copy, PartialEq, Eq, Structural)]
pub enum Holding {
    /// Not allocated (yet).
    Absent,
    /// Allocated and not released.
    Live,
    /// Released.
    Freed,
}

/// The phases of a run.
#[derive(Debug, Clone, Copy, PartialEq, Eq, Structural)]
pub enum Phase {
    Idle,
    InputConverted,
    EngineRunning,
    CallbackDispatch,
    ResultConverted,
    Released,
}

/// The two callbacks that the engine may call while it runs.
#[derive(Debug, Clone, Copy, PartialEq, Eq, Structural)]
pub enum Callback {
    /// A diagnostic was detected.
    Diagnostic,
    /// The engine asks for the source of an inclusion directive.
    Inclusion,
}

/// The allocations a run makes.
#[derive(Debug, Clone, Copy, PartialEq, Eq, Structural)]
pub enum Resource {
    /// The boundary form of the input text.
    Input,
    /// The boxed diagnostic behavior.
    ErrorBehavior,
    /// The boxed inclusion behavior.
    InclusionBehavior,
    /// The callback context that holds the two behaviors' addresses.
    Context,
}

/// The state of one processing run.
#[derive(Debug, Clone, Copy)]
pub struct Session {
    pub phase: Phase,
    /// Whether the run installs a callback context.
    pub with_callbacks: bool,
    pub input: Holding,
    pub context: Holding,
    pub error_behavior: Holding,
    pub inclusion_behavior: Holding,
    /// Whether the engine's entry point was called.
    pub engine_called: bool,
    /// How many diagnostics were dispatched.
    pub diagnostics: u64,
    /// How many inclusion requests were dispatched.
    pub inclusions: u64,
}

/// True when a callback's behaviors and the context that reaches them are
/// all live.
pub open spec fn callbacks_live(s: Session) -> bool {
    &&& s.context == Holding::Live
    &&& s.error_behavior == Holding::Live
    &&& s.inclusion_behavior == Holding::Live
}

/// True when nothing that a run allocated is still live.
pub open spec fn nothing_live(s: Session) -> bool {
    &&& s.input != Holding::Live
    &&& s.context != Holding::Live
    &&& s.error_behavior != Holding::Live
    &&& s.inclusion_behavior != Holding::Live
}

/// True when no callback state was ever allocated.
pub open spec fn callbacks_absent(s: Session) -> bool {
    &&& s.context == Holding::Absent
    &&& s.error_behavior == Holding::Absent
    &&& s.inclusion_behavior == Holding::Absent
}

impl Session {
    /// The holdings that each phase allows.
    pub open spec fn wf(self) -> bool {
        match self.phase {
            Phase::Idle => {
                &&& self.input == Holding::Absent
                &&& callbacks_absent(self)
                &&& !self.engine_called
                &&& self.diagnostics == 0
                &&& self.inclusions == 0
            },
            Phase::InputConverted => {
                &&& self.input == Holding::Live
                &&& callbacks_absent(self)
                &&& !self.engine_called
                &&& self.diagnostics == 0
                &&& self.inclusions == 0
            },
            Phase::EngineRunning | Phase::CallbackDispatch | Phase::ResultConverted => {
                &&& self.input == Holding::Live
                &&& self.engine_called
                &&& self.with_callbacks ==> callbacks_live(self)
                &&& !self.with_callbacks ==> {
                    &&& callbacks_absent(self)
                    &&& self.diagnostics == 0
                    &&& self.inclusions == 0
                }
            },
            Phase::Released => nothing_live(self),
        }
    }
}

/// A new run.
pub open spec fn started(with_callbacks: bool) -> Session {
    Session {
        phase: Phase::Idle,
        with_callbacks,
        input: Holding::Absent,
        context: Holding::Absent,
        error_behavior: Holding::Absent,
        inclusion_behavior: Holding::Absent,
        engine_called: false,
        diagnostics: 0,
        inclusions: 0,
    }
}

/// The run after its input conversion, which succeeded or not. A failed
/// conversion ends the run at once.
pub open spec fn converted(s: Session, ok: bool) -> Session {
    if ok {
        Session { phase: Phase::InputConverted, input: Holding::Live, ..s }
    } else {
        Session { phase: Phase::Released, ..s }
    }
}

/// The run once the engine was entered, with its callbacks installed where
/// the run has them.
pub open spec fn entered(s: Session) -> Session {
    if s.with_callbacks {
        Session {
            phase: Phase::EngineRunning,
            engine_called: true,
            context: Holding::Live,
            error_behavior: Holding::Live,
            inclusion_behavior: Holding::Live,
            ..s
        }
    } else {
        Session { phase: Phase::EngineRunning, engine_called: true, ..s }
    }
}

/// The run while the engine has entered the callback `c`.
pub open spec fn dispatched(s: Session, c: Callback) -> Session {
    match c {
        Callback::Diagnostic => Session {
            phase: Phase::CallbackDispatch,
            diagnostics: (s.diagnostics + 1) as u64,
            ..s
        },
        Callback::Inclusion => Session {
            phase: Phase::CallbackDispatch,
            inclusions: (s.inclusions + 1) as u64,
            ..s
        },
    }
}

/// The run once a callback returned to the engine.
pub open spec fn resumed(s: Session) -> Session {
    Session { phase: Phase::EngineRunning, ..s }
}

/// The run once the engine returned and its result was converted.
pub open spec fn returned(s: Session) -> Session {
    Session { phase: Phase::ResultConverted, ..s }
}

/// `h` after a release: what was live is freed.
pub open spec fn freed(h: Holding) -> Holding {
    if h == Holding::Live {
        Holding::Freed
    } else {
        h
    }
}

/// The run once everything it holds was released.
pub open spec fn released(s: Session) -> Session {
    Session {
        phase: Phase::Released,
        input: freed(s.input),
        context: freed(s.context),
        error_behavior: freed(s.error_behavior),
        inclusion_behavior: freed(s.inclusion_behavior),
        ..s
    }
}

/// `[r]` where `h` is live, else nothing.
pub open spec fn if_live(h: Holding, r: Resource) -> Seq<Resource> {
    if h == Holding::Live {
        seq![r]
    } else {
        Seq::empty()
    }
}

/// The live allocations of `s`, in the order in which they are released:
/// the input, the two behaviors, then the context that pointed to them.
pub open spec fn live_resources(s: Session) -> Seq<Resource> {
    if_live(s.input, Resource::Input) + if_live(s.error_behavior, Resource::ErrorBehavior)
        + if_live(s.inclusion_behavior, Resource::InclusionBehavior) + if_live(
        s.context,
        Resource::Context,
    )
}

impl Session {
    /// A new run, which installs callbacks where `with_callbacks` holds.
    pub fn new(with_callbacks: bool) -> (r: Session)
        ensures
            r == started(with_callbacks),
            r.wf(),
    {
        Session {
            phase: Phase::Idle,
            with_callbacks,
            input: Holding::Absent,
            context: Holding::Absent,
            error_behavior: Holding::Absent,
            inclusion_behavior: Holding::Absent,
            engine_called: false,
            diagnostics: 0,
            inclusions: 0,
        }
    }

    /// Converts the run's input text to its boundary form.
    ///
    /// Fails exactly when the text holds a terminator byte; the run is then
    /// over before any call to the engine, holding nothing.
    pub fn convert_input(&mut self, data: &str) -> (r: Result<Vec<u8>, EncodingError>)
        requires
            old(self).wf(),
            old(self).phase == Phase::Idle,
        ensures
            *final(self) == converted(*old(self), r is Ok),
            final(self).wf(),
            r is Ok <==> terminator_free(data.spec_bytes()),
            r matches Ok(v) ==> v@ == terminated(data.spec_bytes()),
            r matches Err(e) ==> {
                &&& e.position == first_terminator(data.spec_bytes())
                &&& final(self).phase == Phase::Released
                &&& !final(self).engine_called
                &&& nothing_live(*final(self))
            },
    {
        let r = encode_terminated(data);
        match r {
            Ok(_) => {
                self.phase = Phase::InputConverted;
                self.input = Holding::Live;
            },
            Err(_) => {
                self.phase = Phase::Released;
            },
        }
        r
    }

    /// Records the call of the engine's entry point, with the callback
    /// context and both behaviors allocated first where the run has them.
    pub fn enter_engine(&mut self)
        requires
            old(self).wf(),
            old(self).phase == Phase::InputConverted,
        ensures
            *final(self) == entered(*old(self)),
            final(self).wf(),
    {
        self.phase = Phase::EngineRunning;
        self.engine_called = true;
        if self.with_callbacks {
            self.context = Holding::Live;
            self.error_behavior = Holding::Live;
            self.inclusion_behavior = Holding::Live;
        }
    }

    /// Records that the engine entered the callback `c`. The context and
    /// both behaviors are live, so the callback may use them.
    pub fn dispatch(&mut self, c: Callback)
        requires
            old(self).wf(),
            old(self).phase == Phase::EngineRunning,
            old(self).with_callbacks,
            c == Callback::Diagnostic ==> old(self).diagnostics < u64::MAX,
            c == Callback::Inclusion ==> old(self).inclusions < u64::MAX,
        ensures
            *final(self) == dispatched(*old(self), c),
            final(self).wf(),
            callbacks_live(*final(self)),
    {
        self.phase = Phase::CallbackDispatch;
        match c {
            Callback::Diagnostic => {
                self.diagnostics = self.diagnostics + 1;
            },
            Callback::Inclusion => {
                self.inclusions = self.inclusions + 1;
            },
        }
    }

    /// Records that a callback returned to the engine.
    pub fn resume(&mut self)
        requires
            old(self).wf(),
            old(self).phase == Phase::CallbackDispatch,
        ensures
            *final(self) == resumed(*old(self)),
            final(self).wf(),
    {
        self.phase = Phase::EngineRunning;
    }

    /// Converts the engine's result, the boundary string at the start of
    /// `output`, back to text: `None` where it is not well-formed UTF-8.
    pub fn engine_returned(&mut self, output: &[u8]) -> (r: Option<String>)
        requires
            old(self).wf(),
            old(self).phase == Phase::EngineRunning,
        ensures
            *final(self) == returned(*old(self)),
            final(self).wf(),
            opt_chars(r) == text_of(output@),
    {
        self.phase = Phase::ResultConverted;
        decode_terminated(output)
    }

    /// Releases what the run holds, and returns each allocation to free,
    /// once, in the order in which to free it.
    pub fn release(&mut self) -> (r: Vec<Resource>)
        requires
            old(self).wf(),
            old(self).phase == Phase::ResultConverted,
        ensures
            r@ == live_resources(*old(self)),
            *final(self) == released(*old(self)),
            final(self).wf(),
    {
        let mut r: Vec<Resource> = Vec::new();
        if self.input == Holding::Live {
            r.push(Resource::Input);
            self.input = Holding::Freed;
        }
        if self.error_behavior == Holding::Live {
            r.push(Resource::ErrorBehavior);
            self.error_behavior = Holding::Freed;
        }
        if self.inclusion_behavior == Holding::Live {
            r.push(Resource::InclusionBehavior);
            self.inclusion_behavior = Holding::Freed;
        }
        if self.context == Holding::Live {
            r.push(Resource::Context);
            self.context = Holding::Freed;
        }
        self.phase = Phase::Released;
        assert(r@ == live_resources(*old(self)));
        r
    }
}

/// The run after the engine entered and left each callback of `calls`, in
/// order, starting from `s`.
pub open spec fn dispatch_all(s: Session, calls: Seq<Callback>) -> Session
    decreases calls.len(),
{
    if calls.len() == 0 {
        s
    } else {
        resumed(dispatched(dispatch_all(s, calls.drop_last()), calls.last()))
    }
}

/// How many times `c` occurs in `calls`.
pub open spec fn count_of(calls: Seq<Callback>, c: Callback) -> nat
    decreases calls.len(),
{
    if calls.len() == 0 {
        0
    } else {
        count_of(calls.drop_last(), c) + if calls.last() == c {
            1nat
        } else {
            0nat
        }
    }
}

/// A whole run whose input conversion succeeds, during which the engine
/// makes the callbacks `calls`.
pub open spec fn completed_run(with_callbacks: bool, calls: Seq<Callback>) -> Session {
    returned(dispatch_all(entered(converted(started(with_callbacks), true)), calls))
}

/// While the engine runs, callbacks do not change what the run holds.
pub proof fn lemma_dispatch_keeps_holdings(s: Session, calls: Seq<Callback>)
    requires
        s.wf(),
        s.phase == Phase::EngineRunning,
        s.with_callbacks,
    ensures
        ({
            let t = dispatch_all(s, calls);
            &&& t.wf()
            &&& t.phase == Phase::EngineRunning
            &&& t.with_callbacks
            &&& t.input == s.input
            &&& callbacks_live(t)
        }),
    decreases calls.len(),
{
    if calls.len() > 0 {
        lemma_dispatch_keeps_holdings(s, calls.drop_last());
    }
}

/// Each callback is counted once.
pub proof fn lemma_dispatch_counts(s: Session, calls: Seq<Callback>)
    requires
        s.diagnostics + calls.len() <= u64::MAX,
        s.inclusions + calls.len() <= u64::MAX,
    ensures
        dispatch_all(s, calls).diagnostics == s.diagnostics + count_of(calls, Callback::Diagnostic),
        dispatch_all(s, calls).inclusions == s.inclusions + count_of(calls, Callback::Inclusion),
        count_of(calls, Callback::Diagnostic) <= calls.len(),
        count_of(calls, Callback::Inclusion) <= calls.len(),
    decreases calls.len(),
{
    if calls.len() > 0 {
        lemma_dispatch_counts(s, calls.drop_last());
    }
}

/// Every callback of a run finds the context and both behaviors live, however
/// many callbacks come before it and in whatever order.
pub proof fn lemma_callbacks_stay_valid(calls: Seq<Callback>, k: int)
    requires
        0 <= k < calls.len(),
    ensures
        ({
            let before = dispatch_all(entered(converted(started(true), true)), calls.take(k));
            &&& before.phase == Phase::EngineRunning
            &&& callbacks_live(dispatched(before, calls[k]))
        }),
{
    lemma_dispatch_keeps_holdings(entered(converted(started(true), true)), calls.take(k));
}

/// A run whose input converts releases, once each, exactly what it
/// allocated: the input, and with callbacks the two behaviors and the
/// context. It ends holding nothing, having dispatched each callback that the
/// engine made once.
pub proof fn lemma_run_releases_all(with_callbacks: bool, calls: Seq<Callback>)
    requires
        !with_callbacks ==> calls.len() == 0,
        calls.len() <= u64::MAX,
    ensures
        ({
            let t = completed_run(with_callbacks, calls);
            let done = released(t);
            &&& t.wf()
            &&& t.phase == Phase::ResultConverted
            &&& t.engine_called
            &&& live_resources(t) == if with_callbacks {
                seq![
                    Resource::Input,
                    Resource::ErrorBehavior,
                    Resource::InclusionBehavior,
                    Resource::Context,
                ]
            } else {
                seq![Resource::Input]
            }
            &&& done.wf()
            &&& done.phase == Phase::Released
            &&& done.input == Holding::Freed
            &&& with_callbacks ==> {
                &&& done.context == Holding::Freed
                &&& done.error_behavior == Holding::Freed
                &&& done.inclusion_behavior == Holding::Freed
            }
            &&& !with_callbacks ==> callbacks_absent(done)
            &&& done.diagnostics == count_of(calls, Callback::Diagnostic)
            &&& done.inclusions == count_of(calls, Callback::Inclusion)
        }),
{
    let e = entered(converted(started(with_callbacks), true));
    if with_callbacks {
        lemma_dispatch_keeps_holdings(e, calls);
    }
    lemma_dispatch_counts(e, calls);
}

/// A run in which the engine makes no callback dispatches nothing and still
/// releases the context and both behaviors.
pub proof fn lemma_quiet_run()
    ensures
        ({
            let done = released(completed_run(true, Seq::empty()));
            &&& done.diagnostics == 0
            &&& done.inclusions == 0
            &&& done.input == Holding::Freed
            &&& done.context == Holding::Freed
            &&& done.error_behavior == Holding::Freed
            &&& done.inclusion_behavior == Holding::Freed
        }),
{
    lemma_run_releases_all(true, Seq::empty());
}

/// A run whose input does not convert never calls the engine and holds
/// nothing.
pub proof fn lemma_failed_conversion_ends_run(with_callbacks: bool)
    ensures
        ({
            let done = converted(started(with_callbacks), false);
            &&& done.phase == Phase::Released
            &&& !done.engine_called
            &&& nothing_live(done)
            &&& done.wf()
        }),
{
}

} // verus!
