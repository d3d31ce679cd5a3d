//! The delayed dispatcher: it waits out the request's delay, then shows the
//! notification once. The waiting and the showing are done by its driver,
//! which performs each step and reports what came of it as an event.
use vstd::prelude::*;
use vstd::string::*;
use crate::request::NotificationRequest;

verus! {

/// Where a dispatcher stands.
#[derive(Debug, Clone, PartialEq, Eq)]
pub enum Stage {
    /// The delay is being waited out.
    Waiting,
    /// The notification has been handed to the notification service.
    Delivering,
    /// The notification service showed it.
    Done,
    /// The notification service refused it.
    Failed,
}

/// What the driver reports back.
#[derive(Debug, Clone, PartialEq, Eq)]
pub enum Event {
    /// The requested wait has elapsed.
    WaitElapsed,
    /// The notification service returned success.
    Delivered,
    /// The notification service returned this error.
    DeliveryFailed(String),
}

/// A notification as it is handed to the notification service.
#[derive(Debug, Clone, PartialEq, Eq)]
pub struct Shown {
    pub summary: String,
    pub body: String,
    pub icon: String,
    pub appname: String,
}

/// What the driver is to do next.
#[derive(Debug, Clone, PartialEq, Eq)]
pub enum Step {
    /// Sleep this many seconds on a monotonic clock, then report `WaitElapsed`.
    Wait(u64),
    /// Show this notification, then report how the service answered.
    Show(Shown),
    /// The notification was shown: the work is over.
    Finish,
    /// Delivery failed with this error, which is fatal.
    Abort(String),
}

/// A one-shot dispatch of a request.
#[derive(Debug, Clone, PartialEq, Eq)]
pub struct Dispatcher {
    pub request: NotificationRequest,
    pub stage: Stage,
}

/// The application name that every notification is tagged with.
pub open spec fn app_name() -> Seq<char> {
    "rnotify"@
}

/// The events that a stage accepts.
pub open spec fn accepts_event(s: Stage, e: Event) -> bool {
    match s {
        Stage::Waiting => e is WaitElapsed,
        Stage::Delivering => e is Delivered || e is DeliveryFailed,
        _ => false,
    }
}

/// The notification carries the request's texts and the application name.
pub open spec fn shows(n: Shown, q: NotificationRequest) -> bool {
    &&& n.summary@ == q.title@
    &&& n.body@ == q.message@
    &&& n.icon@ == q.icon@
    &&& n.appname@ == app_name()
}

/// A fresh dispatcher for `q`, and its first step: wait the delay.
pub open spec fn started(q: NotificationRequest, d: Dispatcher, s: Step) -> bool {
    &&& d.request == q
    &&& d.stage is Waiting
    &&& s == Step::Wait(q.delay)
}

/// One move: after the wait, show; after the show, finish or abort with the
/// service's error. The request never changes.
pub open spec fn stepped(d: Dispatcher, e: Event, d2: Dispatcher, s: Step) -> bool {
    &&& d2.request == d.request
    &&& match e {
        Event::WaitElapsed => d2.stage is Delivering && s is Show && shows(s->Show_0, d.request),
        Event::Delivered => d2.stage is Done && s is Finish,
        Event::DeliveryFailed(msg) => d2.stage is Failed && s == Step::Abort(msg),
    }
}

/// A run of a dispatcher for `q`: the states it passes through, the events it
/// was handed, each one accepted, and the steps it answered with (the first
/// is the answer to its start).
pub open spec fn is_run(
    q: NotificationRequest,
    events: Seq<Event>,
    states: Seq<Dispatcher>,
    steps: Seq<Step>,
) -> bool {
    &&& states.len() == events.len() + 1
    &&& steps.len() == events.len() + 1
    &&& started(q, states[0], steps[0])
    &&& forall|i: int|
        0 <= i < events.len() ==> accepts_event(states[i].stage, #[trigger] events[i])
            && stepped(states[i], events[i], states[i + 1], steps[i + 1])
}

impl Dispatcher {
    /// Takes the request over and asks first for the wait of its delay.
    pub fn start(request: NotificationRequest) -> (r: (Dispatcher, Step))
        ensures
            started(request, r.0, r.1),
    {
        let delay = request.delay;
        (Dispatcher { request, stage: Stage::Waiting }, Step::Wait(delay))
    }

    /// Whether the dispatcher expects this event now.
    pub fn accepts(&self, e: &Event) -> (r: bool)
        ensures
            r == accepts_event(self.stage, *e),
    {
        match (&self.stage, e) {
            (Stage::Waiting, Event::WaitElapsed) => true,
            (Stage::Delivering, Event::Delivered) => true,
            (Stage::Delivering, Event::DeliveryFailed(_)) => true,
            _ => false,
        }
    }

    /// Moves on by one event and says what to do next.
    pub fn step(&mut self, e: Event) -> (s: Step)
        requires
            accepts_event(old(self).stage, e),
        ensures
            stepped(*old(self), e, *final(self), s),
    {
        match e {
            Event::WaitElapsed => {
                self.stage = Stage::Delivering;
                let n = Shown {
                    summary: self.request.title.clone(),
                    body: self.request.message.clone(),
                    icon: self.request.icon.clone(),
                    appname: String::from_str("rnotify"),
                };
                proof {
                    reveal_strlit("rnotify");
                }
                Step::Show(n)
            },
            Event::Delivered => {
                self.stage = Stage::Done;
                Step::Finish
            },
            Event::DeliveryFailed(msg) => {
                self.stage = Stage::Failed;
                Step::Abort(msg)
            },
        }
    }
}

proof fn lemma_run_stages(
    q: NotificationRequest,
    events: Seq<Event>,
    states: Seq<Dispatcher>,
    steps: Seq<Step>,
)
    requires
        is_run(q, events, states, steps),
    ensures
        events.len() <= 2,
        events.len() >= 1 ==> events[0] is WaitElapsed && states[1].stage is Delivering
            && steps[1] is Show && shows(steps[1]->Show_0, q),
        events.len() == 2 ==> events[1] is Delivered || events[1] is DeliveryFailed,
        events.len() == 2 ==> (steps[2] is Finish <==> events[1] is Delivered),
        events.len() == 2 ==> (steps[2] is Abort <==> events[1] is DeliveryFailed),
{
    if events.len() >= 1 {
        assert(accepts_event(states[0].stage, events[0]));
        assert(stepped(states[0], events[0], states[1], steps[1]));
    }
    if events.len() >= 2 {
        assert(accepts_event(states[1].stage, events[1]));
        assert(stepped(states[1], events[1], states[2], steps[2]));
    }
    if events.len() >= 3 {
        assert(accepts_event(states[2].stage, events[2]));
    }
}

/// In every run, the first step is a wait of exactly the requested delay and
/// no other wait is asked for; the notification is shown at most once, only
/// as the answer to the end of that wait, and with the request's texts.
pub proof fn lemma_show_follows_wait(
    q: NotificationRequest,
    events: Seq<Event>,
    states: Seq<Dispatcher>,
    steps: Seq<Step>,
)
    requires
        is_run(q, events, states, steps),
    ensures
        steps[0] == Step::Wait(q.delay),
        forall|i: int| 0 < i < steps.len() ==> !(#[trigger] steps[i] is Wait),
        forall|i: int|
            0 <= i < steps.len() && #[trigger] steps[i] is Show ==> i == 1
                && events[0] is WaitElapsed && shows(steps[i]->Show_0, q),
{
    lemma_run_stages(q, events, states, steps);
}

/// In every run, the work finishes only after the notification was shown and
/// the service answered success; it aborts only when the service answered
/// with an error, and then with that error.
pub proof fn lemma_finish_follows_delivery(
    q: NotificationRequest,
    events: Seq<Event>,
    states: Seq<Dispatcher>,
    steps: Seq<Step>,
)
    requires
        is_run(q, events, states, steps),
    ensures
        forall|i: int|
            0 <= i < steps.len() && #[trigger] steps[i] is Finish ==> i == 2 && steps[1] is Show
                && events[1] is Delivered,
        forall|i: int|
            0 <= i < steps.len() && #[trigger] steps[i] is Abort ==> i == 2 && steps[1] is Show
                && events[1] == Event::DeliveryFailed(steps[i]->Abort_0),
{
    lemma_run_stages(q, events, states, steps);
    if events.len() == 2 {
        assert(stepped(states[1], events[1], states[2], steps[2]));
    }
}

} // verus!
