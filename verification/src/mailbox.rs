use crate::receiver::{
    plan_step, react_ready, react_step, terminated, Emit, Outcome, PollPlan, Polled, ReceiverState,
    ReceiverView,
};
use crate::system::SystemMsg;
use futures::channel::mpsc::Receiver;
use futures::stream::StreamExt;
use std::task::Context;
use vstd::prelude::*;

verus! {

#[verifier::external_type_specification]
#[verifier::external_body]
#[verifier::reject_recursive_types(T)]
pub struct ExReceiver<T>(Receiver<T>);

#[verifier::external_type_specification]
#[verifier::external_body]
pub struct ExContext<'a>(Context<'a>);

/// Calls `StreamExt::poll_next_unpin` on a channel receiver and tells the
/// three answers apart. What the channel yields depends on its senders and
/// on timing, so the contract claims nothing of it.
#[verifier::external_body]
fn poll_channel<T>(r: &mut Receiver<T>, cx: &mut Context<'_>) -> Polled<T> {
    match r.poll_next_unpin(cx) {
        std::task::Poll::Pending => Polled::Pending,
        std::task::Poll::Ready(Some(item)) => Polled::Item(item),
        std::task::Poll::Ready(None) => Polled::Ended,
    }
}

/// Calls `Receiver::close`: senders can no longer send, buffered items can
/// still be received. The contract claims nothing; the mailbox records each
/// call it makes in a ghost flag of its own (`MailboxView`).
#[verifier::external_body]
fn close_channel<T>(r: &mut Receiver<T>) {
    r.close()
}

/// One round of polling, as a relation: the channels held by `v` were
/// polled with some results, and `react_step` gave `w` and `outcome`.
pub open spec fn round_to<M, A>(v: ReceiverView<M, A>, w: ReceiverView<M, A>, outcome: Outcome<M, A>) -> bool {
    exists|sp: Option<Polled<M>>, yp: Option<Polled<SystemMsg<A>>>|
        #![trigger react_step(v, sp, yp)]
        react_ready(v, sp, yp) && react_step(v, sp, yp).0 == w && react_step(v, sp, yp).1.outcome
            == outcome
}

/// A mailbox as seen from outside: its decision state, and whether each
/// channel has been closed (senders shut out, buffered items still drain).
pub struct MailboxView<M, A> {
    pub state: ReceiverView<M, A>,
    pub stream_closed: bool,
    pub system_closed: bool,
}

/// In a round from `v` to `w`, the application channel is closed: it is
/// still held after the round, and the system channel was exhausted in it.
pub open spec fn closes_stream<M, A>(v: ReceiverView<M, A>, w: ReceiverView<M, A>) -> bool {
    w.stream_open && v.system_open && !w.system_open
}

/// In a round from `v` to `w`, the system channel is closed: it is still
/// held after the round, and the application channel was exhausted in it.
pub open spec fn closes_system<M, A>(v: ReceiverView<M, A>, w: ReceiverView<M, A>) -> bool {
    w.system_open && v.stream_open && !w.stream_open
}

/// One round of polling of a mailbox, closing the channel whose partner was
/// exhausted in it.
pub open spec fn mailbox_round<M, A>(a: MailboxView<M, A>, b: MailboxView<M, A>, outcome: Outcome<M, A>) -> bool {
    &&& round_to(a.state, b.state, outcome)
    &&& b.stream_closed == (a.stream_closed || closes_stream(a.state, b.state))
    &&& b.system_closed == (a.system_closed || closes_system(a.state, b.state))
}

/// One poll of a mailbox `a` may end in `b` handing out `e`: a buffered
/// message goes out first; a mailbox without channels is finished; in both
/// cases no channel is touched. Otherwise the held channels are polled, and
/// when a channel ended while the other was pending they are polled once
/// more; in each round the channel whose partner was exhausted is closed.
pub open spec fn polls_to<M, A>(a: MailboxView<M, A>, b: MailboxView<M, A>, e: Emit<M, A>) -> bool {
    match plan_step(a.state) {
        (v1, PollPlan::Deliver(m)) => b == MailboxView { state: v1, ..a } && e == Emit::<M, A>::Ready(m),
        (v1, PollPlan::Finished) => b == MailboxView { state: v1, ..a } && e == Emit::<M, A>::Finished,
        (v1, PollPlan::Poll { .. }) => {
            let a1 = MailboxView { state: v1, ..a };
            ||| mailbox_round(a1, b, Outcome::Emit(e))
            ||| exists|a2: MailboxView<M, A>|
                #![trigger mailbox_round(a1, a2, Outcome::<M, A>::Again)]
                mailbox_round(a1, a2, Outcome::Again) && mailbox_round(a2, b, Outcome::Emit(e))
        },
    }
}

/// The receiving end of an actor's mailbox: an application channel and a
/// system channel, merged as `ReceiverState` decides.
#[verifier::reject_recursive_types(M)]
#[verifier::reject_recursive_types(A)]
pub struct ActorReceiver<M, A> {
    stream: Option<Receiver<M>>,
    system: Option<Receiver<SystemMsg<A>>>,
    state: ReceiverState<M, A>,
    stream_closed: Ghost<bool>,
    system_closed: Ghost<bool>,
}

impl<M, A> ActorReceiver<M, A> {
    /// The mailbox state.
    pub closed spec fn state_view(&self) -> ReceiverView<M, A> {
        self.state@
    }

    /// The mailbox state, with whether each channel has been closed.
    pub closed spec fn mailbox_view(&self) -> MailboxView<M, A> {
        MailboxView { state: self.state@, stream_closed: self.stream_closed@, system_closed: self.system_closed@ }
    }

    /// The application channel, while it is held.
    pub closed spec fn stream_channel(&self) -> Option<Receiver<M>> {
        self.stream
    }

    /// The system channel, while it is held.
    pub closed spec fn system_channel(&self) -> Option<Receiver<SystemMsg<A>>> {
        self.system
    }

    /// Well-formedness: a channel is held exactly while the state says so.
    pub closed spec fn wf(&self) -> bool {
        &&& (self.stream is Some <==> self.state@.stream_open)
        &&& (self.system is Some <==> self.state@.system_open)
    }

    /// A mailbox over the two receivers.
    pub fn new(stream: Receiver<M>, system: Receiver<SystemMsg<A>>) -> (r: Self)
        ensures
            r.wf(),
            r.stream_channel() == Some(stream),
            r.system_channel() == Some(system),
            r.mailbox_view() == (MailboxView::<M, A> {
                state: ReceiverView { stream_open: true, system_open: true, ready: None, completed: false },
                stream_closed: false,
                system_closed: false,
            }),
            r.state_view() == r.mailbox_view().state,
    {
        ActorReceiver {
            stream: Some(stream),
            system: Some(system),
            state: ReceiverState::new(),
            stream_closed: Ghost(false),
            system_closed: Ghost(false),
        }
    }

    /// The mailbox has handed out its end and holds no channel.
    pub fn is_terminated(&self) -> (r: bool)
        ensures
            r == terminated(self.state_view()),
    {
        self.state.is_terminated()
    }

    fn round(&mut self, cx: &mut Context<'_>) -> (r: Outcome<M, A>)
        requires
            old(self).wf(),
            old(self).state_view().ready is None,
            old(self).state_view().stream_open || old(self).state_view().system_open,
        ensures
            final(self).wf(),
            mailbox_round(old(self).mailbox_view(), final(self).mailbox_view(), r),
    {
        let sp = match &mut self.stream {
            Some(r) => Some(poll_channel(r, cx)),
            None => None,
        };
        let yp = match &mut self.system {
            Some(r) => Some(poll_channel(r, cx)),
            None => None,
        };
        let ghost gsp = sp;
        let ghost gyp = yp;
        let ghost v = self.state@;
        let reaction = self.state.react(sp, yp);
        if !self.state.stream_open() {
            self.stream = None;
        }
        if !self.state.system_open() {
            self.system = None;
        }
        if reaction.close_stream {
            match &mut self.stream {
                Some(r) => {
                    close_channel(r);
                    self.stream_closed = Ghost(true);
                },
                None => {},
            }
        }
        if reaction.close_system {
            match &mut self.system {
                Some(r) => {
                    close_channel(r);
                    self.system_closed = Ghost(true);
                },
                None => {},
            }
        }
        proof {
            assert(react_ready(v, gsp, gyp) && react_step(v, gsp, gyp).0 == self.state@
                && react_step(v, gsp, gyp).1.outcome == reaction.outcome);
        }
        reaction.outcome
    }

    /// One poll of the mailbox: hands out a buffered message, reports the
    /// end, or polls the channels it holds, at most twice, dropping a
    /// channel once it is exhausted and closing the other then.
    pub fn poll(&mut self, cx: &mut Context<'_>) -> (r: Emit<M, A>)
        requires
            old(self).wf(),
        ensures
            final(self).wf(),
            polls_to(old(self).mailbox_view(), final(self).mailbox_view(), r),
            !(plan_step(old(self).state_view()).1 is Poll) ==> final(self).stream_channel() == old(
                self,
            ).stream_channel() && final(self).system_channel() == old(self).system_channel(),
    {
        let ghost v0 = self.state@;
        match self.state.plan() {
            PollPlan::Deliver(m) => {
                return Emit::Ready(m);
            },
            PollPlan::Finished => {
                return Emit::Finished;
            },
            PollPlan::Poll { .. } => {},
        }
        let ghost v1 = self.state@;
        match self.round(cx) {
            Outcome::Emit(e) => {
                return e;
            },
            Outcome::Again => {},
        }
        let ghost v2 = self.state@;
        proof {
            let (sp, yp) = choose|sp: Option<Polled<M>>, yp: Option<Polled<SystemMsg<A>>>|
                #![trigger react_step(v1, sp, yp)]
                react_ready(v1, sp, yp) && react_step(v1, sp, yp).0 == v2 && react_step(v1, sp, yp).1.outcome
                    == Outcome::<M, A>::Again;
            assert(v2.stream_open != v2.system_open && v2.ready is None);
        }
        let p = self.state.plan();
        proof {
            assert(self.state@ == v2);
        }
        let out = self.round(cx);
        let ghost v3 = self.state@;
        proof {
            let (sp, yp) = choose|sp: Option<Polled<M>>, yp: Option<Polled<SystemMsg<A>>>|
                #![trigger react_step(v2, sp, yp)]
                react_ready(v2, sp, yp) && react_step(v2, sp, yp).0 == v3 && react_step(v2, sp, yp).1.outcome
                    == out;
            assert(!(out is Again));
        }
        match out {
            Outcome::Emit(e) => {
                proof {
                    assert(round_to(v1, v2, Outcome::<M, A>::Again));
                }
                e
            },
            Outcome::Again => Emit::Pending,
        }
    }
}

/// A poll reports the end only when the mailbox holds no channel and no
/// buffered message; a terminated mailbox reports the end and stays as it is.
pub proof fn lemma_poll_ends_only_without_channels<M, A>(
    a: MailboxView<M, A>,
    b: MailboxView<M, A>,
    e: Emit<M, A>,
)
    requires
        polls_to(a, b, e),
    ensures
        e is Finished ==> a.state.ready is None && !a.state.stream_open && !a.state.system_open
            && terminated(b.state),
        terminated(a.state) && a.state.ready is None ==> e is Finished && b == a,
{
    let v = a.state;
    if e is Finished && (v.ready is None) && (v.stream_open || v.system_open) {
        let a1 = MailboxView { state: plan_step(v).0, ..a };
        if mailbox_round(a1, b, Outcome::Emit(e)) {
            let (sp, yp) = choose|sp: Option<Polled<M>>, yp: Option<Polled<SystemMsg<A>>>|
                #![trigger react_step(a1.state, sp, yp)]
                react_ready(a1.state, sp, yp) && react_step(a1.state, sp, yp).0 == b.state
                    && react_step(a1.state, sp, yp).1.outcome == Outcome::<M, A>::Emit(e);
        } else {
            let a2 = choose|a2: MailboxView<M, A>|
                #![trigger mailbox_round(a1, a2, Outcome::<M, A>::Again)]
                mailbox_round(a1, a2, Outcome::Again) && mailbox_round(a2, b, Outcome::Emit(e));
            let (sp, yp) = choose|sp: Option<Polled<M>>, yp: Option<Polled<SystemMsg<A>>>|
                #![trigger react_step(a2.state, sp, yp)]
                react_ready(a2.state, sp, yp) && react_step(a2.state, sp, yp).0 == b.state
                    && react_step(a2.state, sp, yp).1.outcome == Outcome::<M, A>::Emit(e);
        }
    }
}

/// In a poll, the application channel is closed only when the system
/// channel is gone afterwards while the application channel was held before,
/// and a channel once closed stays closed.
pub proof fn lemma_close_only_after_partner_ends<M, A>(
    a: MailboxView<M, A>,
    b: MailboxView<M, A>,
    e: Emit<M, A>,
)
    requires
        polls_to(a, b, e),
    ensures
        a.stream_closed ==> b.stream_closed,
        a.system_closed ==> b.system_closed,
        b.stream_closed && !a.stream_closed ==> a.state.stream_open && !b.state.system_open,
        b.system_closed && !a.system_closed ==> a.state.system_open && !b.state.stream_open,
{
    let v = a.state;
    if v.ready is None && (v.stream_open || v.system_open) {
        let a1 = MailboxView { state: plan_step(v).0, ..a };
        if !mailbox_round(a1, b, Outcome::Emit(e)) {
            let a2 = choose|a2: MailboxView<M, A>|
                #![trigger mailbox_round(a1, a2, Outcome::<M, A>::Again)]
                mailbox_round(a1, a2, Outcome::Again) && mailbox_round(a2, b, Outcome::Emit(e));
            let (sp, yp) = choose|sp: Option<Polled<M>>, yp: Option<Polled<SystemMsg<A>>>|
                #![trigger react_step(a2.state, sp, yp)]
                react_ready(a2.state, sp, yp) && react_step(a2.state, sp, yp).0 == b.state
                    && react_step(a2.state, sp, yp).1.outcome == Outcome::<M, A>::Emit(e);
            let (sp1, yp1) = choose|sp: Option<Polled<M>>, yp: Option<Polled<SystemMsg<A>>>|
                #![trigger react_step(a1.state, sp, yp)]
                react_ready(a1.state, sp, yp) && react_step(a1.state, sp, yp).0 == a2.state
                    && react_step(a1.state, sp, yp).1.outcome == Outcome::<M, A>::Again;
        } else {
            let (sp, yp) = choose|sp: Option<Polled<M>>, yp: Option<Polled<SystemMsg<A>>>|
                #![trigger react_step(a1.state, sp, yp)]
                react_ready(a1.state, sp, yp) && react_step(a1.state, sp, yp).0 == b.state
                    && react_step(a1.state, sp, yp).1.outcome == Outcome::<M, A>::Emit(e);
        }
    }
}

} // verus!
