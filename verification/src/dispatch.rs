//! The dispatch core: the canonical event type, the per-category handler
//! registry, and the single-consumer loop that delivers events to handlers
//! in strict arrival order.
//!
//! Handlers are opaque callables supplied by the embedding (the scripting
//! environment); the loop invokes at most one handler per event, serially.
//! A missing handler is a no-op; a failing handler is fatal, with a
//! category-specific non-zero exit status.
//!
//! The motion payload is a type parameter `M`: the dispatch logic never
//! reads the coordinates, it only carries them to the handler.
use vstd::prelude::*;

verus! {

/// The five event categories, one per `Interaction` variant.
#[derive(Clone, Copy, PartialEq, Eq, Structural, Debug)]
pub enum Category {
    Keydown,
    Keyup,
    Mousepress,
    Mouserelease,
    Mousemove,
}

/// A canonical input event: a translated 16-bit code for key and button
/// activity, or a motion sample `M` for pointer movement.
#[derive(Clone, Copy, PartialEq, Eq, Debug)]
pub enum Interaction<M> {
    Keydown(u16),
    Keyup(u16),
    MousePress(u16),
    MouseRelease(u16),
    MouseMove(M),
}

/// What a handler receives: the event code, or the motion sample.
#[derive(Clone, Copy, PartialEq, Eq, Debug)]
pub enum Payload<M> {
    Code(u16),
    Motion(M),
}

/// The category an event belongs to.
pub open spec fn spec_category<M>(ev: Interaction<M>) -> Category {
    match ev {
        Interaction::Keydown(_) => Category::Keydown,
        Interaction::Keyup(_) => Category::Keyup,
        Interaction::MousePress(_) => Category::Mousepress,
        Interaction::MouseRelease(_) => Category::Mouserelease,
        Interaction::MouseMove(_) => Category::Mousemove,
    }
}

/// The payload an event delivers to its handler.
pub open spec fn spec_payload<M>(ev: Interaction<M>) -> Payload<M> {
    match ev {
        Interaction::Keydown(code) => Payload::Code(code),
        Interaction::Keyup(code) => Payload::Code(code),
        Interaction::MousePress(code) => Payload::Code(code),
        Interaction::MouseRelease(code) => Payload::Code(code),
        Interaction::MouseMove(m) => Payload::Motion(m),
    }
}

/// One handler invocation, as recorded by the loop: which category fired
/// and what the handler received.
pub open spec fn spec_invocation<M>(ev: Interaction<M>) -> (Category, Payload<M>) {
    (spec_category(ev), spec_payload(ev))
}

impl<M> Interaction<M> {
    /// The category of this event.
    pub fn category(&self) -> (c: Category)
        ensures
            c == spec_category(*self),
    {
        match self {
            Interaction::Keydown(_) => Category::Keydown,
            Interaction::Keyup(_) => Category::Keyup,
            Interaction::MousePress(_) => Category::Mousepress,
            Interaction::MouseRelease(_) => Category::Mouserelease,
            Interaction::MouseMove(_) => Category::Mousemove,
        }
    }
}

impl<M: Copy> Interaction<M> {
    /// The payload this event hands to its handler.
    pub fn payload(&self) -> (p: Payload<M>)
        ensures
            p == spec_payload(*self),
    {
        match self {
            Interaction::Keydown(code) => Payload::Code(*code),
            Interaction::Keyup(code) => Payload::Code(*code),
            Interaction::MousePress(code) => Payload::Code(*code),
            Interaction::MouseRelease(code) => Payload::Code(*code),
            Interaction::MouseMove(m) => Payload::Motion(*m),
        }
    }
}

/// A scripted callback the embedding registers for one event category.
/// `Err` signals a handler failure, which the dispatch loop treats as
/// fatal; the `String` is the failure report shown to the operator.
/// Nothing is assumed of an implementation: the loop's contract holds
/// whatever an invocation returns.
pub trait Handler<M> {
    /// Invokes the callable with one event's payload.
    fn invoke(&self, payload: Payload<M>) -> Result<(), String>;
}

/// The handler registry: at most one handler per category, populated once
/// during setup and read-only while the loop runs. A `None` slot means
/// events of that category are dropped silently.
pub struct Register<H> {
    pub keydown: Option<H>,
    pub keyup: Option<H>,
    pub mousepress: Option<H>,
    pub mouserelease: Option<H>,
    pub mousemove: Option<H>,
}

impl<H> Register<H> {
    /// The slot for a category.
    pub open spec fn spec_slot(self, c: Category) -> Option<H> {
        match c {
            Category::Keydown => self.keydown,
            Category::Keyup => self.keyup,
            Category::Mousepress => self.mousepress,
            Category::Mouserelease => self.mouserelease,
            Category::Mousemove => self.mousemove,
        }
    }

    /// Whether a handler is registered for a category.
    pub open spec fn has_handler(self, c: Category) -> bool {
        self.spec_slot(c) is Some
    }

    /// An empty registry: no handler in any slot.
    pub fn new() -> (r: Register<H>)
        ensures
            forall|c: Category| !r.has_handler(c),
    {
        Register {
            keydown: None,
            keyup: None,
            mousepress: None,
            mouserelease: None,
            mousemove: None,
        }
    }

    /// The slot for a category.
    pub fn slot(&self, c: Category) -> (r: &Option<H>)
        ensures
            *r == self.spec_slot(c),
    {
        match c {
            Category::Keydown => &self.keydown,
            Category::Keyup => &self.keyup,
            Category::Mousepress => &self.mousepress,
            Category::Mouserelease => &self.mouserelease,
            Category::Mousemove => &self.mousemove,
        }
    }
}

/// The process exit status used when a handler of the given category
/// fails. Non-zero and distinct per category, so an operator can tell
/// from the status which callback failed.
pub open spec fn spec_exit_status(c: Category) -> i32 {
    match c {
        Category::Keydown => 11,
        Category::Keyup => 12,
        Category::Mousepress => 13,
        Category::Mouserelease => 14,
        Category::Mousemove => 15,
    }
}

/// The exit status for a failed handler of the given category.
pub fn exit_status(c: Category) -> (r: i32)
    ensures
        r == spec_exit_status(c),
{
    match c {
        Category::Keydown => 11,
        Category::Keyup => 12,
        Category::Mousepress => 13,
        Category::Mouserelease => 14,
        Category::Mousemove => 15,
    }
}

/// Law: handler-failure exit statuses are non-zero and distinct per
/// category, so the observable status identifies the failing category.
pub proof fn lemma_exit_status_distinct(a: Category, b: Category)
    ensures
        spec_exit_status(a) != 0,
        a != b ==> spec_exit_status(a) != spec_exit_status(b),
{
}

/// What one dispatch step did with an event.
#[derive(Debug)]
pub enum DispatchStep<M> {
    /// No handler was registered for the event's category; nothing ran.
    Skipped,
    /// The handler ran with this payload and returned successfully.
    Delivered(Payload<M>),
    /// The handler ran with this payload and failed: the loop must stop
    /// and the process exit with the given status; the `String` is the
    /// handler's failure report.
    Failed(Payload<M>, i32, String),
}

/// Processes one event: looks up the handler for the event's category and,
/// if one is registered, invokes it synchronously with the event's payload.
/// A missing handler is a silent no-op. Whatever the invocation returns,
/// the step reports the exact payload delivered, and on failure the
/// category-specific exit status.
pub fn dispatch_one<H: Handler<M>, M: Copy>(reg: &Register<H>, ev: &Interaction<M>) -> (r:
    DispatchStep<M>)
    ensures
        r is Skipped <==> !reg.has_handler(spec_category(*ev)),
        r matches DispatchStep::Delivered(p) ==> p == spec_payload(*ev),
        r matches DispatchStep::Failed(p, status, _) ==> p == spec_payload(*ev) && status
            == spec_exit_status(spec_category(*ev)),
{
    let cat = ev.category();
    match reg.slot(cat) {
        None => DispatchStep::Skipped,
        Some(h) => {
            let p = ev.payload();
            match h.invoke(p) {
                Ok(_) => DispatchStep::Delivered(p),
                Err(msg) => DispatchStep::Failed(p, exit_status(cat), msg),
            }
        },
    }
}

/// The sequence of handler invocations a registry owes for a sequence of
/// events, in arrival order: exactly the events whose category has a
/// registered handler, each contributing its category and payload, in the
/// order the events arrived.
pub open spec fn spec_plan<H, M>(reg: Register<H>, events: Seq<Interaction<M>>) -> Seq<
    (Category, Payload<M>),
>
    decreases events.len(),
{
    if events.len() == 0 {
        Seq::empty()
    } else if reg.has_handler(spec_category(events.last())) {
        spec_plan(reg, events.drop_last()).push(spec_invocation(events.last()))
    } else {
        spec_plan(reg, events.drop_last())
    }
}

/// Law: dispatch order follows arrival order. The invocations owed for a
/// sequence of events split around any cut point: everything produced by
/// the earlier events comes before everything produced by the later ones,
/// within and across categories alike.
pub proof fn lemma_plan_preserves_order<H, M>(
    reg: Register<H>,
    early: Seq<Interaction<M>>,
    late: Seq<Interaction<M>>,
)
    ensures
        spec_plan(reg, early + late) == spec_plan(reg, early) + spec_plan(reg, late),
    decreases late.len(),
{
    if late.len() == 0 {
        assert(early + late =~= early);
        assert(spec_plan(reg, early) + spec_plan(reg, late) =~= spec_plan(reg, early));
    } else {
        lemma_plan_preserves_order(reg, early, late.drop_last());
        assert((early + late).drop_last() =~= early + late.drop_last());
        assert((early + late).last() == late.last());
        if reg.has_handler(spec_category(late.last())) {
            assert(spec_plan(reg, early) + spec_plan(reg, late) =~= (spec_plan(reg, early)
                + spec_plan(reg, late.drop_last())).push(spec_invocation(late.last())));
        } else {
            assert(spec_plan(reg, early) + spec_plan(reg, late) =~= spec_plan(reg, early)
                + spec_plan(reg, late.drop_last()));
        }
    }
}

/// Law: one event owes one invocation when its category has a handler,
/// and none otherwise.
pub proof fn lemma_plan_single<H, M>(reg: Register<H>, ev: Interaction<M>)
    ensures
        reg.has_handler(spec_category(ev)) ==> spec_plan(reg, seq![ev]) =~= seq![
            spec_invocation(ev),
        ],
        !reg.has_handler(spec_category(ev)) ==> spec_plan(reg, seq![ev]) =~= Seq::<
            (Category, Payload<M>),
        >::empty(),
{
    let s = seq![ev];
    assert(s.len() == 1);
    assert(s.last() == ev);
    assert(s.drop_last() =~= Seq::<Interaction<M>>::empty());
    assert(spec_plan(reg, Seq::<Interaction<M>>::empty()) =~= Seq::<
        (Category, Payload<M>),
    >::empty());
    if reg.has_handler(spec_category(ev)) {
        assert(spec_plan(reg, s) =~= seq![spec_invocation(ev)]);
    } else {
        assert(spec_plan(reg, s) =~= Seq::<(Category, Payload<M>)>::empty());
    }
}

/// Law: nothing is coalesced or dropped. With a handler in every slot,
/// every event — every motion sample included — owes exactly one
/// invocation, in arrival order.
pub proof fn lemma_plan_delivers_every_event<H, M>(reg: Register<H>, events: Seq<Interaction<M>>)
    requires
        forall|c: Category| reg.has_handler(c),
    ensures
        spec_plan(reg, events) == events.map_values(|ev: Interaction<M>| spec_invocation(ev)),
    decreases events.len(),
{
    let mapped = events.map_values(|ev: Interaction<M>| spec_invocation(ev));
    if events.len() == 0 {
        assert(spec_plan(reg, events) =~= mapped);
    } else {
        lemma_plan_delivers_every_event(reg, events.drop_last());
        assert(spec_plan(reg, events) =~= mapped);
    }
}

/// Law: an event whose category has no registered handler is a no-op — it
/// adds nothing to the owed invocations, and dispatch of the surrounding
/// events is unchanged.
pub proof fn lemma_missing_handler_noop<H, M>(
    reg: Register<H>,
    events: Seq<Interaction<M>>,
    ev: Interaction<M>,
)
    requires
        !reg.has_handler(spec_category(ev)),
    ensures
        spec_plan(reg, events.push(ev)) == spec_plan(reg, events),
{
    assert(events.push(ev).drop_last() =~= events);
    assert(events.push(ev).last() == ev);
}

/// How a dispatch run over a batch of events ended.
#[derive(Debug, PartialEq, Eq)]
pub enum DispatchOutcome {
    /// Every event was processed and no handler failed.
    Completed,
    /// A handler failed: the process must exit with this status; the
    /// `String` is the handler's failure report.
    Fatal(i32, String),
}

/// The dispatch loop over a batch of events: processes events in arrival
/// order, invoking the registered handler (if any) for each, and stops at
/// the first handler failure.
///
/// Returns the log of invocations made (category and payload, in order),
/// the number of events consumed, and the outcome. The log is exactly the
/// invocations owed for the consumed prefix; on a fatal outcome the last
/// consumed event's handler is the one that failed, no later event is
/// touched, and the status is that event's category-specific exit status.
pub fn dispatch_all<H: Handler<M>, M: Copy>(reg: &Register<H>, events: &Vec<Interaction<M>>) -> (r:
    (Vec<(Category, Payload<M>)>, usize, DispatchOutcome))
    ensures
        r.1 <= events.len(),
        r.0@ == spec_plan(*reg, events@.take(r.1 as int)),
        r.2 is Completed ==> r.1 == events.len(),
        r.2 matches DispatchOutcome::Fatal(status, _) ==> {
            &&& 1 <= r.1
            &&& reg.has_handler(spec_category(events@[r.1 - 1]))
            &&& r.0@.len() >= 1
            &&& r.0@.last() == spec_invocation(events@[r.1 - 1])
            &&& status == spec_exit_status(spec_category(events@[r.1 - 1]))
        },
{
    let mut log: Vec<(Category, Payload<M>)> = Vec::new();
    let mut i: usize = 0;
    while i < events.len()
        invariant
            i <= events.len(),
            log@ == spec_plan(*reg, events@.take(i as int)),
        decreases events.len() - i,
    {
        let ev = &events[i];
        let step = dispatch_one(reg, ev);
        i = i + 1;
        proof {
            assert(events@.take(i as int).drop_last() =~= events@.take(i as int - 1));
            assert(events@.take(i as int).last() == events@[i - 1]);
        }
        match step {
            DispatchStep::Skipped => {},
            DispatchStep::Delivered(p) => {
                let c = ev.category();
                log.push((c, p));
            },
            DispatchStep::Failed(p, status, msg) => {
                let c = ev.category();
                log.push((c, p));
                return (log, i, DispatchOutcome::Fatal(status, msg));
            },
        }
    }
    (log, i, DispatchOutcome::Completed)
}

} // verus!
