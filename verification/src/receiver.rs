use crate::system::{Message, SystemMsg};
use vstd::prelude::*;

verus! {

/// What one poll of an inner channel produced.
pub enum Polled<T> {
    /// Nothing is available yet.
    Pending,
    /// The channel yielded an item.
    Item(T),
    /// The channel is exhausted: every sender is gone and nothing is buffered.
    Ended,
}

/// What one poll of a mailbox hands to the actor loop.
pub enum Emit<M, A> {
    /// A message is ready.
    Ready(Message<M, A>),
    /// Nothing is ready; the task will be woken again.
    Pending,
    /// The mailbox is finished and yields nothing more.
    Finished,
}

/// What the mailbox wants done before polling its inner channels.
pub enum PollPlan<M, A> {
    /// A message buffered by an earlier poll is handed out without polling.
    Deliver(Message<M, A>),
    /// Both channels are gone: the mailbox is finished.
    Finished,
    /// Poll the channels that are still present.
    Poll { stream: bool, system: bool },
}

/// The outcome of one round of polling.
pub enum Outcome<M, A> {
    Emit(Emit<M, A>),
    /// A channel ended while the other is pending: plan and poll again.
    Again,
}

/// Channel operations the mailbox asks for after a round of polling.
pub struct Reaction<M, A> {
    /// Close the application channel (no new sends; buffered items still drain).
    pub close_stream: bool,
    /// Close the system channel.
    pub close_system: bool,
    pub outcome: Outcome<M, A>,
}

/// Decision state of an actor's mailbox, which merges an application
/// channel and a system channel. The channels themselves are held by the
/// caller, which keeps a channel exactly while the matching flag is set.
pub struct ReceiverState<M, A> {
    stream_open: bool,
    system_open: bool,
    ready: Option<Message<M, A>>,
    completed: bool,
}

pub open spec fn is_ended<T>(p: Option<Polled<T>>) -> bool {
    p matches Some(Polled::Ended)
}

/// A polled channel that is absent or exhausted.
pub open spec fn is_gone<T>(p: Option<Polled<T>>) -> bool {
    p is None || p matches Some(Polled::Ended)
}

/// The outcome of a round of polling, as a function of what each channel produced.
pub open spec fn round_outcome<M, A>(
    stream: Option<Polled<M>>,
    system: Option<Polled<SystemMsg<A>>>,
) -> Outcome<M, A> {
    match (stream, system) {
        (Some(Polled::Item(m)), _) => Outcome::Emit(Emit::Ready(Message::Actual(m))),
        (_, Some(Polled::Item(s))) => Outcome::Emit(Emit::Ready(Message::System(s))),
        _ => if is_gone(stream) && is_gone(system) {
            Outcome::Emit(Emit::Ready(Message::System(SystemMsg::Stop)))
        } else if is_ended(stream) || is_ended(system) {
            Outcome::Again
        } else {
            Outcome::Emit(Emit::Pending)
        },
    }
}

/// The mathematical state of a mailbox.
pub struct ReceiverView<M, A> {
    pub stream_open: bool,
    pub system_open: bool,
    pub ready: Option<Message<M, A>>,
    pub completed: bool,
}

impl<M, A> View for ReceiverState<M, A> {
    type V = ReceiverView<M, A>;

    closed spec fn view(&self) -> ReceiverView<M, A> {
        ReceiverView {
            stream_open: self.stream_open,
            system_open: self.system_open,
            ready: self.ready,
            completed: self.completed,
        }
    }
}

/// The mailbox has handed out its end and holds no channel.
pub open spec fn terminated<M, A>(v: ReceiverView<M, A>) -> bool {
    v.completed && !v.stream_open && !v.system_open
}

/// First half of a poll, as a transition: a buffered message goes out first;
/// with no channel left the mailbox is finished; otherwise the present
/// channels are polled.
pub open spec fn plan_step<M, A>(v: ReceiverView<M, A>) -> (ReceiverView<M, A>, PollPlan<M, A>) {
    match v.ready {
        Some(msg) => (ReceiverView { ready: None, ..v }, PollPlan::Deliver(msg)),
        None => if !v.stream_open && !v.system_open {
            (ReceiverView { completed: true, ..v }, PollPlan::Finished)
        } else {
            (v, PollPlan::Poll { stream: v.stream_open, system: v.system_open })
        },
    }
}

/// Second half of a poll, as a transition: an exhausted channel is dropped;
/// a channel whose partner is exhausted is closed; an application item goes
/// out before a system item of the same round, which is buffered.
pub open spec fn react_step<M, A>(
    v: ReceiverView<M, A>,
    stream: Option<Polled<M>>,
    system: Option<Polled<SystemMsg<A>>>,
) -> (ReceiverView<M, A>, Reaction<M, A>) {
    let stream_open = v.stream_open && !is_ended(stream);
    let system_open = v.system_open && !is_ended(system);
    let ready = match (stream, system) {
        (Some(Polled::Item(_)), Some(Polled::Item(s))) => Some(Message::<M, A>::System(s)),
        _ => None,
    };
    (
        ReceiverView { stream_open, system_open, ready, completed: v.completed },
        Reaction {
            close_stream: stream_open && is_ended(system),
            close_system: system_open && is_ended(stream),
            outcome: round_outcome(stream, system),
        },
    )
}

/// The arguments of `react` match the plan: exactly the present channels
/// were polled, and nothing is buffered.
pub open spec fn react_ready<M, A>(
    v: ReceiverView<M, A>,
    stream: Option<Polled<M>>,
    system: Option<Polled<SystemMsg<A>>>,
) -> bool {
    &&& v.ready is None
    &&& (stream is Some <==> v.stream_open)
    &&& (system is Some <==> v.system_open)
    &&& (v.stream_open || v.system_open)
}

impl<M, A> ReceiverState<M, A> {
    /// A fresh mailbox: both channels present, nothing buffered.
    pub fn new() -> (r: Self)
        ensures
            r@ == (ReceiverView::<M, A> { stream_open: true, system_open: true, ready: None, completed: false }),
    {
        ReceiverState { stream_open: true, system_open: true, ready: None, completed: false }
    }

    /// Whether the caller must keep the application channel.
    pub fn stream_open(&self) -> (r: bool)
        ensures
            r == self@.stream_open,
    {
        self.stream_open
    }

    /// Whether the caller must keep the system channel.
    pub fn system_open(&self) -> (r: bool)
        ensures
            r == self@.system_open,
    {
        self.system_open
    }

    /// The mailbox has handed out its end and holds no channel.
    pub fn is_terminated(&self) -> (r: bool)
        ensures
            r == terminated(self@),
    {
        self.completed && !self.stream_open && !self.system_open
    }

    /// First half of a poll: hand out a buffered message, report the end,
    /// or say which channels to poll.
    pub fn plan(&mut self) -> (p: PollPlan<M, A>)
        ensures
            (final(self)@, p) == plan_step(old(self)@),
    {
        match self.ready.take() {
            Some(msg) => PollPlan::Deliver(msg),
            None => {
                if !self.stream_open && !self.system_open {
                    self.completed = true;
                    PollPlan::Finished
                } else {
                    PollPlan::Poll { stream: self.stream_open, system: self.system_open }
                }
            },
        }
    }

    /// Second half of a poll: given what each present channel produced,
    /// decide what to hand out, which channels to drop (the flags) and
    /// which to close.
    pub fn react(&mut self, stream: Option<Polled<M>>, system: Option<Polled<SystemMsg<A>>>) -> (r:
        Reaction<M, A>)
        requires
            react_ready(old(self)@, stream, system),
        ensures
            (final(self)@, r) == react_step(old(self)@, stream, system),
    {
        let stream_ended = match &stream {
            Some(Polled::Ended) => true,
            _ => false,
        };
        let system_ended = match &system {
            Some(Polled::Ended) => true,
            _ => false,
        };
        let stream_gone = stream_ended || stream.is_none();
        let system_gone = system_ended || system.is_none();
        self.stream_open = self.stream_open && !stream_ended;
        self.system_open = self.system_open && !system_ended;
        let close_stream = self.stream_open && system_ended;
        let close_system = self.system_open && stream_ended;
        let outcome = match stream {
            Some(Polled::Item(m)) => {
                match system {
                    Some(Polled::Item(s)) => {
                        self.ready = Some(Message::System(s));
                    },
                    _ => {},
                }
                Outcome::Emit(Emit::Ready(Message::Actual(m)))
            },
            _ => match system {
                Some(Polled::Item(s)) => Outcome::Emit(Emit::Ready(Message::System(s))),
                _ => {
                    if stream_gone && system_gone {
                        Outcome::Emit(Emit::Ready(Message::System(SystemMsg::Stop)))
                    } else if stream_ended || system_ended {
                        Outcome::Again
                    } else {
                        Outcome::Emit(Emit::Pending)
                    }
                },
            },
        };
        Reaction { close_stream, close_system, outcome }
    }
}

/// When one round yields both an application item and a system item, the
/// application item goes out first and the system item is handed out by the
/// very next poll, without polling the channels again.
pub proof fn lemma_simultaneous_items_keep_order<M, A>(v: ReceiverView<M, A>, m: M, s: SystemMsg<A>)
    requires
        react_ready(v, Some(Polled::Item(m)), Some(Polled::Item(s))),
    ensures
        react_step(v, Some(Polled::Item(m)), Some(Polled::Item(s))).1.outcome == Outcome::<M, A>::Emit(
            Emit::Ready(Message::Actual(m)),
        ),
        plan_step(react_step(v, Some(Polled::Item(m)), Some(Polled::Item(s))).0).1 == PollPlan::<
            M,
            A,
        >::Deliver(Message::System(s)),
{
}

/// A poll of the mailbox takes at most two rounds: after a round that asks
/// for another, exactly one channel is left and nothing is buffered, so the
/// next plan polls that channel, and whatever it yields, that round does not
/// ask for another.
pub proof fn lemma_poll_takes_at_most_two_rounds<M, A>(
    v: ReceiverView<M, A>,
    stream: Option<Polled<M>>,
    system: Option<Polled<SystemMsg<A>>>,
    stream2: Option<Polled<M>>,
    system2: Option<Polled<SystemMsg<A>>>,
)
    requires
        react_ready(v, stream, system),
        react_step(v, stream, system).1.outcome is Again,
        react_ready(react_step(v, stream, system).0, stream2, system2),
    ensures
        ({
            let w = react_step(v, stream, system).0;
            &&& w.stream_open != w.system_open
            &&& plan_step(w) == (w, PollPlan::<M, A>::Poll { stream: w.stream_open, system: w.system_open })
            &&& !(react_step(w, stream2, system2).1.outcome is Again)
        }),
{
}

/// Once the mailbox has synthesized a Stop because every present channel
/// is exhausted, it holds no channel: the next poll reports the end, the
/// mailbox is then terminated, and every later poll reports the end again
/// without changing anything.
pub proof fn lemma_end_after_synthesized_stop<M, A>(
    v: ReceiverView<M, A>,
    stream: Option<Polled<M>>,
    system: Option<Polled<SystemMsg<A>>>,
)
    requires
        react_ready(v, stream, system),
        is_gone(stream),
        is_gone(system),
    ensures
        ({
            let w = react_step(v, stream, system).0;
            let e = plan_step(w).0;
            &&& react_step(v, stream, system).1.outcome == Outcome::<M, A>::Emit(
                Emit::Ready(Message::System(SystemMsg::Stop)),
            )
            &&& plan_step(w).1 is Finished
            &&& terminated(e)
            &&& plan_step(e) == (e, PollPlan::<M, A>::Finished)
        }),
{
}

/// A round in which a channel turned out exhausted never leaves the actor
/// waiting: it hands out an item, or the Stop once no channel is left, or
/// asks for another round; and when nothing arrived while the other channel
/// is held and pending, it asks for another round, keeping exactly that
/// channel and closing it.
pub proof fn lemma_exhausted_round_never_waits<M, A>(
    v: ReceiverView<M, A>,
    stream: Option<Polled<M>>,
    system: Option<Polled<SystemMsg<A>>>,
)
    requires
        react_ready(v, stream, system),
        is_ended(stream) || is_ended(system),
    ensures
        react_step(v, stream, system).1.outcome != Outcome::<M, A>::Emit(Emit::Pending),
        is_ended(stream) && system == Some(Polled::<SystemMsg<A>>::Pending) ==> {
            let (w, r) = react_step(v, stream, system);
            &&& r.outcome == Outcome::<M, A>::Again
            &&& !w.stream_open && w.system_open && r.close_system
        },
        is_ended(system) && stream == Some(Polled::<M>::Pending) ==> {
            let (w, r) = react_step(v, stream, system);
            &&& r.outcome == Outcome::<M, A>::Again
            &&& w.stream_open && !w.system_open && r.close_stream
        },
{
}

/// Which of the two channels is the one exhausted makes no difference to a
/// round in which the other is held and pending: both ask for another round
/// of the channel still held, and in both the Stop then follows once that
/// channel ends too.
pub proof fn lemma_exhausted_channel_symmetric<M, A>(v: ReceiverView<M, A>)
    requires
        v.ready is None,
        v.stream_open,
        v.system_open,
    ensures
        react_step(v, Some(Polled::<M>::Pending), Some(Polled::<SystemMsg<A>>::Ended)).1.outcome
            == react_step(v, Some(Polled::<M>::Ended), Some(Polled::<SystemMsg<A>>::Pending)).1.outcome,
        react_step(
            react_step(v, Some(Polled::<M>::Pending), Some(Polled::<SystemMsg<A>>::Ended)).0,
            Some(Polled::<M>::Ended),
            None,
        ).1.outcome == Outcome::<M, A>::Emit(Emit::Ready(Message::System(SystemMsg::Stop))),
        react_step(
            react_step(v, Some(Polled::<M>::Ended), Some(Polled::<SystemMsg<A>>::Pending)).0,
            None,
            Some(Polled::<SystemMsg<A>>::Ended),
        ).1.outcome == Outcome::<M, A>::Emit(Emit::Ready(Message::System(SystemMsg::Stop))),
{
}

/// What the two channels produced in one round of polling.
pub type RoundInput<M, A> = (Option<Polled<M>>, Option<Polled<SystemMsg<A>>>);

/// The messages a round of polling hands out, now or through the buffer:
/// the application item, then the system item; or a single Stop when every
/// present channel turned out to be exhausted.
pub open spec fn round_messages<M, A>(stream: Option<Polled<M>>, system: Option<Polled<SystemMsg<A>>>) -> Seq<
    Message<M, A>,
> {
    if is_gone(stream) && is_gone(system) {
        seq![Message::System(SystemMsg::Stop)]
    } else {
        let actual = match stream {
            Some(Polled::Item(m)) => seq![Message::<M, A>::Actual(m)],
            _ => Seq::<Message<M, A>>::empty(),
        };
        let sys = match system {
            Some(Polled::Item(s)) => seq![Message::<M, A>::System(s)],
            _ => Seq::<Message<M, A>>::empty(),
        };
        actual + sys
    }
}

/// The messages of a whole sequence of rounds, round after round.
pub open spec fn all_round_messages<M, A>(inputs: Seq<RoundInput<M, A>>) -> Seq<Message<M, A>>
    decreases inputs.len(),
{
    if inputs.len() == 0 {
        Seq::empty()
    } else {
        round_messages(inputs[0].0, inputs[0].1) + all_round_messages(inputs.drop_first())
    }
}

/// The message buffered in a state, as a sequence of at most one.
pub open spec fn buffered<M, A>(v: ReceiverView<M, A>) -> Seq<Message<M, A>> {
    match v.ready {
        Some(m) => seq![m],
        None => Seq::empty(),
    }
}

/// The message an outcome hands out, as a sequence of at most one.
pub open spec fn emitted<M, A>(o: Outcome<M, A>) -> Seq<Message<M, A>> {
    match o {
        Outcome::Emit(Emit::Ready(m)) => seq![m],
        _ => Seq::empty(),
    }
}

/// A run of the mailbox from `v`, polled again and again, whose rounds of
/// polling meet the channels' results `inputs` in turn: a buffered message
/// goes out first; a mailbox without channels is finished. Gives the last
/// state, every message handed out, and whether the run is consistent: each
/// round's results are for exactly the channels then held, and the run ends
/// once the mailbox is finished.
pub open spec fn drive<M, A>(v: ReceiverView<M, A>, inputs: Seq<RoundInput<M, A>>) -> (
    ReceiverView<M, A>,
    Seq<Message<M, A>>,
    bool,
)
    decreases inputs.len(), (if v.ready is Some { 1int } else { 0int }),
{
    match plan_step(v) {
        (u, PollPlan::Deliver(m)) => {
            let rest = drive(u, inputs);
            (rest.0, seq![m] + rest.1, rest.2)
        },
        (u, PollPlan::Finished) => (u, Seq::empty(), inputs.len() == 0),
        (u, PollPlan::Poll { .. }) => if inputs.len() == 0 {
            (u, Seq::empty(), true)
        } else if !react_ready(u, inputs[0].0, inputs[0].1) {
            (u, Seq::empty(), false)
        } else {
            let (w, r) = react_step(u, inputs[0].0, inputs[0].1);
            let rest = drive(w, inputs.drop_first());
            (rest.0, emitted(r.outcome) + rest.1, rest.2)
        },
    }
}

/// Over a whole consistent run, the mailbox hands out exactly the buffered
/// message, then, round after round, each application item followed by the
/// system item of the same round, or a single Stop for a round in which every
/// present channel was exhausted: nothing is dropped, duplicated or
/// reordered, so each channel's items come out in the order it yielded them.
pub proof fn lemma_run_hands_out_every_item<M, A>(v: ReceiverView<M, A>, inputs: Seq<RoundInput<M, A>>)
    ensures
        drive(v, inputs).2 ==> drive(v, inputs).1 == buffered(v) + all_round_messages(inputs),
    decreases inputs.len(), (if v.ready is Some { 1int } else { 0int }),
{
    match plan_step(v) {
        (u, PollPlan::Deliver(m)) => {
            lemma_run_hands_out_every_item(u, inputs);
            assert(buffered(u) == Seq::<Message<M, A>>::empty());
            assert(Seq::<Message<M, A>>::empty() + all_round_messages(inputs) =~= all_round_messages(inputs));
        },
        (u, PollPlan::Finished) => {
            assert(Seq::<Message<M, A>>::empty() + Seq::<Message<M, A>>::empty() =~= Seq::<Message<M, A>>::empty());
        },
        (u, PollPlan::Poll { .. }) => {
            if inputs.len() == 0 {
                assert(Seq::<Message<M, A>>::empty() + Seq::<Message<M, A>>::empty() =~= Seq::<Message<M, A>>::empty());
            } else if react_ready(u, inputs[0].0, inputs[0].1) {
                let (sp, yp) = inputs[0];
                let (w, r) = react_step(u, sp, yp);
                let rest = inputs.drop_first();
                lemma_run_hands_out_every_item(w, rest);
                assert(emitted(r.outcome) + buffered(w) =~= round_messages(sp, yp));
                if drive(v, inputs).2 {
                    assert(emitted(r.outcome) + (buffered(w) + all_round_messages(rest)) =~= (
                    emitted(r.outcome) + buffered(w)) + all_round_messages(rest));
                    assert(buffered(v) + all_round_messages(inputs) =~= round_messages(sp, yp)
                        + all_round_messages(rest));
                }
            }
        },
    }
}

/// In a consistent run, a round in which every present channel was
/// exhausted (the round that synthesizes the Stop) is the last round, and
/// the run ends with the mailbox terminated.
pub proof fn lemma_run_stops_last<M, A>(v: ReceiverView<M, A>, inputs: Seq<RoundInput<M, A>>, i: int)
    requires
        drive(v, inputs).2,
        0 <= i < inputs.len(),
        is_gone(inputs[i].0),
        is_gone(inputs[i].1),
    ensures
        i == inputs.len() - 1,
        !drive(v, inputs).0.stream_open && !drive(v, inputs).0.system_open,
    decreases inputs.len(), (if v.ready is Some { 1int } else { 0int }),
{
    match plan_step(v) {
        (u, PollPlan::Deliver(m)) => {
            lemma_run_stops_last(u, inputs, i);
        },
        (u, PollPlan::Finished) => {},
        (u, PollPlan::Poll { .. }) => {
            let (w, r) = react_step(u, inputs[0].0, inputs[0].1);
            if i > 0 {
                lemma_run_stops_last(w, inputs.drop_first(), i - 1);
            } else {
                assert(!w.stream_open && !w.system_open && w.ready is None);
                assert(plan_step(w).1 is Finished);
                assert(drive(v, inputs).2 == drive(w, inputs.drop_first()).2);
                assert(drive(w, inputs.drop_first()).2 ==> inputs.drop_first().len() == 0);
            }
        },
    }
}

proof fn lemma_stop_only_from_last_round<M, A>(inputs: Seq<RoundInput<M, A>>)
    requires
        forall|i: int| 0 <= i < inputs.len() ==> inputs[i].1 != Some(Polled::Item(SystemMsg::<A>::Stop)),
        forall|i: int|
            0 <= i < inputs.len() - 1 ==> !(is_gone(#[trigger] inputs[i].0) && is_gone(inputs[i].1)),
    ensures
        forall|k: int|
            0 <= k < all_round_messages(inputs).len() && all_round_messages(inputs)[k] == Message::<
                M,
                A,
            >::System(SystemMsg::Stop) ==> k == all_round_messages(inputs).len() - 1 && is_gone(
                inputs[inputs.len() - 1].0,
            ) && is_gone(inputs[inputs.len() - 1].1),
    decreases inputs.len(),
{
    if inputs.len() > 0 {
        let rest = inputs.drop_first();
        assert forall|i: int| 0 <= i < rest.len() implies rest[i].1 != Some(
            Polled::Item(SystemMsg::<A>::Stop),
        ) by {
            assert(rest[i] == inputs[i + 1]);
        }
        assert forall|i: int| 0 <= i < rest.len() - 1 implies !(is_gone(#[trigger] rest[i].0) && is_gone(
            rest[i].1,
        )) by {
            assert(rest[i] == inputs[i + 1]);
        }
        lemma_stop_only_from_last_round(rest);
        let first = round_messages(inputs[0].0, inputs[0].1);
        let all = all_round_messages(inputs);
        assert(all == first + all_round_messages(rest));
        assert forall|k: int|
            0 <= k < all.len() && all[k] == Message::<M, A>::System(SystemMsg::Stop) implies k == all.len()
            - 1 && is_gone(inputs[inputs.len() - 1].0) && is_gone(inputs[inputs.len() - 1].1) by {
            if k < first.len() {
                if is_gone(inputs[0].0) && is_gone(inputs[0].1) {
                    assert(inputs.len() == 1);
                    assert(rest.len() == 0);
                } else {
                    assert(first[k] != Message::<M, A>::System(SystemMsg::Stop));
                }
            } else {
                assert(all[k] == all_round_messages(rest)[k - first.len()]);
                assert(rest[rest.len() - 1] == inputs[inputs.len() - 1]);
            }
        }
    }
}

/// When no sender ever enqueues a Stop, a consistent run from a mailbox
/// with nothing buffered hands out a Stop at most once, as its very last
/// message, from a round in which every present channel was exhausted; the
/// mailbox then holds no channel.
pub proof fn lemma_run_single_stop<M, A>(v: ReceiverView<M, A>, inputs: Seq<RoundInput<M, A>>)
    requires
        drive(v, inputs).2,
        v.ready is None,
        forall|i: int| 0 <= i < inputs.len() ==> inputs[i].1 != Some(Polled::Item(SystemMsg::<A>::Stop)),
    ensures
        forall|k: int|
            0 <= k < drive(v, inputs).1.len() && drive(v, inputs).1[k] == Message::<M, A>::System(
                SystemMsg::Stop,
            ) ==> k == drive(v, inputs).1.len() - 1 && !drive(v, inputs).0.stream_open
                && !drive(v, inputs).0.system_open,
{
    lemma_run_hands_out_every_item(v, inputs);
    assert(buffered(v) + all_round_messages(inputs) =~= all_round_messages(inputs));
    assert forall|i: int| 0 <= i < inputs.len() - 1 implies !(is_gone(#[trigger] inputs[i].0) && is_gone(
        inputs[i].1,
    )) by {
        if is_gone(inputs[i].0) && is_gone(inputs[i].1) {
            lemma_run_stops_last(v, inputs, i);
        }
    }
    lemma_stop_only_from_last_round(inputs);
    if inputs.len() > 0 && is_gone(inputs[inputs.len() - 1].0) && is_gone(inputs[inputs.len() - 1].1) {
        lemma_run_stops_last(v, inputs, inputs.len() - 1);
    }
}

/// Decision state of a mailbox made of a single channel that carries both
/// kinds of messages. It lets go of its channel right after handing out a
/// Stop; the caller keeps the channel exactly while `is_open` holds.
pub struct SingleReceiverState {
    open: bool,
}

/// What one poll of a single-channel mailbox does, as a transition on
/// whether it still holds its channel.
pub open spec fn single_step<M, A>(open: bool, polled: Option<Polled<Message<M, A>>>) -> (bool, Emit<M, A>) {
    if !open {
        (false, Emit::Finished)
    } else {
        match polled {
            Some(Polled::Item(Message::System(SystemMsg::Stop))) => (false, Emit::Ready(Message::System(SystemMsg::Stop))),
            Some(Polled::Item(msg)) => (true, Emit::Ready(msg)),
            Some(Polled::Ended) => (true, Emit::Finished),
            _ => (true, Emit::Pending),
        }
    }
}

impl View for SingleReceiverState {
    type V = bool;

    closed spec fn view(&self) -> bool {
        self.open
    }
}

impl SingleReceiverState {
    /// A fresh mailbox that holds its channel.
    pub fn new() -> (r: Self)
        ensures
            r@,
    {
        SingleReceiverState { open: true }
    }

    /// Whether the channel is still held and must be polled.
    pub fn is_open(&self) -> (r: bool)
        ensures
            r == self@,
    {
        self.open
    }

    /// Decide what one poll hands out; `polled` is what the channel produced,
    /// or `None` when the mailbox no longer holds it.
    pub fn react<M, A>(&mut self, polled: Option<Polled<Message<M, A>>>) -> (r: Emit<M, A>)
        requires
            polled is Some <==> old(self)@,
        ensures
            (final(self)@, r) == single_step(old(self)@, polled),
    {
        if !self.open {
            return Emit::Finished;
        }
        match polled {
            Some(Polled::Item(msg)) => {
                let is_stop = match &msg {
                    Message::System(SystemMsg::Stop) => true,
                    _ => false,
                };
                if is_stop {
                    self.open = false;
                }
                Emit::Ready(msg)
            },
            Some(Polled::Ended) => Emit::Finished,
            _ => Emit::Pending,
        }
    }
}

/// A single-channel mailbox hands out every message it receives unchanged,
/// and lets go of its channel exactly when that message is a Stop: after a
/// Start, news of a stopped actor or an application message, the channel is
/// still held and polled again. An empty or exhausted channel is kept too.
pub proof fn lemma_single_keeps_channel_unless_stop<M, A>(m: Message<M, A>, p: Option<Polled<Message<M, A>>>)
    ensures
        single_step(true, Some(Polled::Item(m))).1 == Emit::<M, A>::Ready(m),
        single_step(true, Some(Polled::Item(m))).0 <==> m != Message::<M, A>::System(SystemMsg::Stop),
        !(p matches Some(Polled::Item(_))) ==> single_step(true, p).0,
        single_step::<M, A>(false, p) == (false, Emit::<M, A>::Finished),
{
}

/// After a single-channel mailbox hands out a Stop, every later poll reports
/// the end.
pub proof fn lemma_single_stop_is_last<M, A>(open: bool)
    requires
        open,
    ensures
        ({
            let after = single_step::<M, A>(open, Some(Polled::Item(Message::System(SystemMsg::Stop))));
            &&& after.1 == Emit::<M, A>::Ready(Message::System(SystemMsg::Stop))
            &&& !after.0
            &&& single_step::<M, A>(after.0, None) == (false, Emit::<M, A>::Finished)
        }),
{
}

} // verus!
