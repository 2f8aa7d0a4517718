use crate::aid::Aid;
use crate::text::{compare_text, lex_sign};
use core::cmp::Ordering;
use vstd::std_specs::cmp::{PartialEqSpec, PartialOrdSpec};
use std::sync::Arc;
use vstd::prelude::*;

verus! {

/// What a handler answers after processing one message.
#[derive(Debug, Clone, Copy, PartialEq, Eq, Structural)]
pub enum Status {
    /// Keep running and wait for the next message.
    Done,
    /// Stop the actor.
    Stop,
}

/// Control messages of the runtime, parameterised by the handle type that
/// identifies an actor.
///
/// Control messages are ordered `Start`, then `Stopped` (by actor, then by
/// error text, no error first), then `Stop`.
#[derive(Debug, Clone, Eq, Ord)]
pub enum SystemMsg<A> {
    Start,
    Stopped { aid: A, error: Option<Arc<String>> },
    Stop,
}

/// The envelope every mailbox carries: either a control message or an
/// application message.
#[derive(Debug, Clone)]
pub enum Message<M, A> {
    System(SystemMsg<A>),
    Actual(M),
}

/// Why a message could not be delivered to an actor.
#[derive(Debug, PartialEq, Eq)]
pub enum AidError {
    /// The actor's mailbox is closed.
    ActorAlreadyStopped,
    /// Sending to the actor timed out.
    SendTimedOut(Aid),
}

impl<M, A> Message<M, A> {
    /// Transforms an application message; control messages pass unchanged.
    pub fn map<F, R>(self, map: F) -> (r: Message<R, A>) where F: FnOnce(M) -> R
        requires
            self matches Message::Actual(m) ==> call_requires(map, (m,)),
        ensures
            match self {
                Message::System(s) => r == Message::<R, A>::System(s),
                Message::Actual(m) => r is Actual && call_ensures(map, (m,), r->Actual_0),
            },
    {
        match self {
            Message::System(m) => Message::System(m),
            Message::Actual(msg) => Message::Actual(map(msg)),
        }
    }
}

/// The callback of a handler that a message is dispatched to.
pub enum Callback<M, A> {
    /// `handle_message`, with the application message.
    Message(M),
    /// `handle_start`.
    Start,
    /// `handle_shutdown`.
    Shutdown,
    /// `handle_stopped`, with the stopped actor and its error.
    Stopped { aid: A, error: Option<Arc<String>> },
}

impl<M, A> Message<M, A> {
    /// The handler callback this message goes to: an application message to
    /// `handle_message`, and each control message to its own callback.
    pub fn callback(self) -> (r: Callback<M, A>)
        ensures
            match self {
                Message::Actual(m) => r == Callback::<M, A>::Message(m),
                Message::System(SystemMsg::Start) => r == Callback::<M, A>::Start,
                Message::System(SystemMsg::Stop) => r == Callback::<M, A>::Shutdown,
                Message::System(SystemMsg::Stopped { aid, error }) => r == Callback::<M, A>::Stopped { aid, error },
            },
    {
        match self {
            Message::Actual(m) => Callback::Message(m),
            Message::System(SystemMsg::Start) => Callback::Start,
            Message::System(SystemMsg::Stop) => Callback::Shutdown,
            Message::System(SystemMsg::Stopped { aid, error }) => Callback::Stopped { aid, error },
        }
    }

    /// How a stream adaptor treats a message: an application message goes
    /// to the user's function (`Ok`); a control message passes through
    /// unchanged (`Err`).
    pub fn into_actual(self) -> (r: Result<M, SystemMsg<A>>)
        ensures
            match self {
                Message::Actual(m) => r == Ok::<M, SystemMsg<A>>(m),
                Message::System(s) => r == Err::<M, SystemMsg<A>>(s),
            },
    {
        match self {
            Message::Actual(m) => Ok(m),
            Message::System(s) => Err(s),
        }
    }

    /// The application message a filter is asked about; a control message
    /// is never filtered out.
    pub fn actual(&self) -> (r: Option<&M>)
        ensures
            match self {
                Message::Actual(m) => r == Some(m),
                Message::System(_) => r is None,
            },
    {
        match self {
            Message::Actual(m) => Some(m),
            Message::System(_) => None,
        }
    }
}

/// What a handler that does not override the control callbacks answers:
/// it keeps running on a start and on news of a stopped actor, and stops
/// when asked to.
pub open spec fn default_status_spec<A>(msg: SystemMsg<A>) -> Status {
    match msg {
        SystemMsg::Stop => Status::Stop,
        _ => Status::Done,
    }
}

impl<A> SystemMsg<A> {
    /// The answer of a handler's default control callbacks.
    pub fn default_status(&self) -> (r: Status)
        ensures
            r == default_status_spec(*self),
    {
        match self {
            SystemMsg::Stop => Status::Stop,
            _ => Status::Done,
        }
    }
}

/// The settings of an actor system.
#[derive(Clone, Debug)]
pub struct ActorSystemConfig {
    /// The capacity of an actor's mailbox when its builder names none.
    pub message_channel_size: u16,
    /// Whether the system starts running its actors as soon as it is created.
    pub start_on_launch: bool,
}

impl ActorSystemConfig {
    /// Return a new config with the changed `message_channel_size`.
    pub fn message_channel_size(self, value: u16) -> (r: Self)
        ensures
            r.message_channel_size == value,
            r.start_on_launch == self.start_on_launch,
    {
        let mut config = self;
        config.message_channel_size = value;
        config
    }
}

impl Default for ActorSystemConfig {
    /// Create the config with the default values: mailboxes of 32 messages,
    /// started on launch.
    fn default() -> (r: Self)
        ensures
            r.message_channel_size == 32,
            r.start_on_launch,
    {
        ActorSystemConfig { message_channel_size: 32, start_on_launch: true }
    }
}

/// The text of a delivery error.
pub open spec fn aid_error_text(e: AidError) -> Seq<char> {
    match e {
        AidError::ActorAlreadyStopped => "Actor already stopped"@,
        AidError::SendTimedOut(aid) => "Send timeout for "@ + crate::aid::display_text(aid@),
    }
}

impl AidError {
    /// The message that describes the error.
    pub fn to_string(&self) -> (r: String)
        ensures
            r@ == aid_error_text(*self),
    {
        match self {
            AidError::ActorAlreadyStopped => String::from_str("Actor already stopped"),
            AidError::SendTimedOut(aid) => {
                let mut t = String::from_str("Send timeout for ");
                let id = aid.to_string();
                t.append(id.as_str());
                t
            },
        }
    }
}

/// The order of two optional error texts: no error first, texts
/// lexicographically.
pub open spec fn error_order(a: Option<Arc<String>>, b: Option<Arc<String>>) -> Ordering {
    match (a, b) {
        (None, None) => Ordering::Equal,
        (None, Some(_)) => Ordering::Less,
        (Some(_), None) => Ordering::Greater,
        (Some(x), Some(y)) => {
            let sign = lex_sign((*x)@, (*y)@);
            if sign < 0 {
                Ordering::Less
            } else if sign == 0 {
                Ordering::Equal
            } else {
                Ordering::Greater
            }
        },
    }
}

fn compare_errors(a: &Option<Arc<String>>, b: &Option<Arc<String>>) -> (r: Ordering)
    ensures
        r == error_order(*a, *b),
{
    match (a, b) {
        (None, None) => Ordering::Equal,
        (None, Some(_)) => Ordering::Less,
        (Some(_), None) => Ordering::Greater,
        (Some(x), Some(y)) => {
            let x: &String = x;
            let y: &String = y;
            let sign = compare_text(x, y);
            if sign < 0 {
                Ordering::Less
            } else if sign == 0 {
                Ordering::Equal
            } else {
                Ordering::Greater
            }
        },
    }
}

/// The text of an optional error.
pub open spec fn error_text(e: Option<Arc<String>>) -> Option<Seq<char>> {
    match e {
        Some(t) => Some((*t)@),
        None => None,
    }
}

/// Two optional error texts are ordered `Equal` exactly when the texts are
/// the same.
pub proof fn lemma_error_order_equal(e1: Option<Arc<String>>, e2: Option<Arc<String>>)
    ensures
        (error_order(e1, e2) == Ordering::Equal) <==> (error_text(e1) == error_text(e2)),
{
    match (e1, e2) {
        (Some(x), Some(y)) => {
            crate::text::lemma_lex_zero((*x)@, (*y)@);
        },
        _ => {},
    }
}

impl<A: PartialEq> PartialEq for SystemMsg<A> {
    /// Control messages are equal when they are of one kind and, for news of
    /// a stopped actor, name equal actors with equal error texts.
    fn eq(&self, other: &Self) -> (r: bool) {
        match (self, other) {
            (SystemMsg::Start, SystemMsg::Start) => true,
            (SystemMsg::Stop, SystemMsg::Stop) => true,
            (
                SystemMsg::Stopped { aid: a1, error: e1 },
                SystemMsg::Stopped { aid: a2, error: e2 },
            ) => {
                let same_aid = a1 == a2;
                let by_error = compare_errors(e1, e2);
                proof {
                    lemma_error_order_equal(*e1, *e2);
                }
                let same_error = match by_error {
                    Ordering::Equal => true,
                    _ => false,
                };
                same_aid && same_error
            },
            _ => false,
        }
    }
}

impl<A: PartialEq> vstd::std_specs::cmp::PartialEqSpecImpl for SystemMsg<A> {
    open spec fn obeys_eq_spec() -> bool {
        A::obeys_eq_spec()
    }

    open spec fn eq_spec(&self, other: &Self) -> bool {
        match (*self, *other) {
            (SystemMsg::Start, SystemMsg::Start) => true,
            (SystemMsg::Stop, SystemMsg::Stop) => true,
            (
                SystemMsg::Stopped { aid: a1, error: e1 },
                SystemMsg::Stopped { aid: a2, error: e2 },
            ) => PartialEqSpec::eq_spec(&a1, &a2) && error_text(e1) == error_text(e2),
            _ => false,
        }
    }
}

impl<M: PartialEq, A: PartialEq> PartialEq for Message<M, A> {
    /// Messages are equal when both are control messages that are equal, or
    /// both are application messages that are equal.
    fn eq(&self, other: &Self) -> (r: bool) {
        match (self, other) {
            (Message::System(msg1), Message::System(msg2)) => msg1 == msg2,
            (Message::Actual(msg1), Message::Actual(msg2)) => msg1 == msg2,
            _ => false,
        }
    }

    fn ne(&self, other: &Self) -> (r: bool) {
        match (self, other) {
            (Message::System(msg1), Message::System(msg2)) => msg1 != msg2,
            (Message::Actual(msg1), Message::Actual(msg2)) => msg1 != msg2,
            _ => true,
        }
    }
}

impl<M: PartialEq, A: PartialEq> vstd::std_specs::cmp::PartialEqSpecImpl for Message<M, A> {
    open spec fn obeys_eq_spec() -> bool {
        M::obeys_eq_spec() && A::obeys_eq_spec()
    }

    open spec fn eq_spec(&self, other: &Self) -> bool {
        match (*self, *other) {
            (Message::System(msg1), Message::System(msg2)) => PartialEqSpec::eq_spec(&msg1, &msg2),
            (Message::Actual(msg1), Message::Actual(msg2)) => PartialEqSpec::eq_spec(&msg1, &msg2),
            _ => false,
        }
    }
}

impl<M: Eq, A: Eq> Eq for Message<M, A> {

}

/// Equal control messages are of one kind; news of stopped actors is equal
/// only when it names equal actors and carries the same error text (both
/// absent, or both present with the same text); and news naming equal actors
/// with the same error is equal. So news that two different actors stopped
/// is never equal, whatever the error.
pub proof fn lemma_system_msg_eq_by_fields<A: PartialEq>(
    x: SystemMsg<A>,
    y: SystemMsg<A>,
    a1: A,
    e1: Option<Arc<String>>,
    a2: A,
    e2: Option<Arc<String>>,
)
    ensures
        PartialEqSpec::eq_spec(&x, &y) ==> (x is Start <==> y is Start) && (x is Stop <==> y is Stop) && (
        x is Stopped <==> y is Stopped),
        PartialEqSpec::eq_spec(
            &SystemMsg::Stopped { aid: a1, error: e1 },
            &SystemMsg::Stopped { aid: a2, error: e2 },
        ) ==> PartialEqSpec::eq_spec(&a1, &a2) && (e1 is Some <==> e2 is Some) && (e1 is Some ==> (
        *e1->0)@ == (*e2->0)@),
        PartialEqSpec::eq_spec(&a1, &a2) && e1 == e2 ==> PartialEqSpec::eq_spec(
            &SystemMsg::Stopped { aid: a1, error: e1 },
            &SystemMsg::Stopped { aid: a2, error: e2 },
        ),
        !PartialEqSpec::eq_spec(&a1, &a2) ==> !PartialEqSpec::eq_spec(
            &Message::<(), A>::System(SystemMsg::Stopped { aid: a1, error: e1 }),
            &Message::<(), A>::System(SystemMsg::Stopped { aid: a2, error: e2 }),
        ),
{
}

/// For actor handles whose equality is identity, control messages are equal
/// exactly when they are of one kind and, for news of stopped actors, name
/// the very same actor with the same error text.
pub proof fn lemma_system_msg_eq_with_identity_handles<A: PartialEq>(x: SystemMsg<A>, y: SystemMsg<A>)
    requires
        forall|a: A, b: A| #[trigger] PartialEqSpec::eq_spec(&a, &b) <==> a == b,
    ensures
        x == y ==> PartialEqSpec::eq_spec(&x, &y),
        PartialEqSpec::eq_spec(&x, &y) ==> match (x, y) {
            (SystemMsg::Stopped { aid: a1, error: e1 }, SystemMsg::Stopped { aid: a2, error: e2 }) => a1
                == a2 && error_text(e1) == error_text(e2),
            (SystemMsg::Start, SystemMsg::Start) => true,
            (SystemMsg::Stop, SystemMsg::Stop) => true,
            _ => false,
        },
{
    match (x, y) {
        (SystemMsg::Stopped { aid: a1, error: e1 }, SystemMsg::Stopped { aid: a2, error: e2 }) => {
            assert(PartialEqSpec::eq_spec(&a1, &a2) <==> a1 == a2);
        },
        _ => {},
    }
}

/// Inequality of messages is the negation of their equality, and a control
/// message never equals an application message.
pub proof fn lemma_message_ne<M: PartialEq, A: PartialEq>(
    s: SystemMsg<A>,
    m: M,
    a: Message<M, A>,
    b: Message<M, A>,
)
    ensures
        !PartialEqSpec::eq_spec(&Message::<M, A>::System(s), &Message::<M, A>::Actual(m)),
        !PartialEqSpec::eq_spec(&Message::<M, A>::Actual(m), &Message::<M, A>::System(s)),
        PartialEqSpec::eq_spec(&a, &b) <==> match (a, b) {
            (Message::System(x), Message::System(y)) => PartialEqSpec::eq_spec(&x, &y),
            (Message::Actual(x), Message::Actual(y)) => PartialEqSpec::eq_spec(&x, &y),
            _ => false,
        },
{
}

/// The position of a control message in the order of kinds.
pub open spec fn system_rank<A>(m: SystemMsg<A>) -> int {
    match m {
        SystemMsg::Start => 0,
        SystemMsg::Stopped { .. } => 1,
        SystemMsg::Stop => 2,
    }
}

/// The order of two control messages of different kinds.
pub open spec fn rank_order<A>(a: SystemMsg<A>, b: SystemMsg<A>) -> Ordering {
    if system_rank(a) < system_rank(b) {
        Ordering::Less
    } else if system_rank(a) == system_rank(b) {
        Ordering::Equal
    } else {
        Ordering::Greater
    }
}

impl<A: PartialOrd> PartialOrd for SystemMsg<A> {
    fn partial_cmp(&self, other: &Self) -> (r: Option<Ordering>) {
        match (self, other) {
            (
                SystemMsg::Stopped { aid: a1, error: e1 },
                SystemMsg::Stopped { aid: a2, error: e2 },
            ) => match a1.partial_cmp(a2) {
                Some(Ordering::Equal) => Some(compare_errors(e1, e2)),
                o => o,
            },
            (SystemMsg::Start, SystemMsg::Start) => Some(Ordering::Equal),
            (SystemMsg::Stop, SystemMsg::Stop) => Some(Ordering::Equal),
            (SystemMsg::Start, _) => Some(Ordering::Less),
            (SystemMsg::Stop, _) => Some(Ordering::Greater),
            (SystemMsg::Stopped { .. }, SystemMsg::Start) => Some(Ordering::Greater),
            (SystemMsg::Stopped { .. }, SystemMsg::Stop) => Some(Ordering::Less),
        }
    }
}

impl<A: PartialOrd> vstd::std_specs::cmp::PartialOrdSpecImpl for SystemMsg<A> {
    open spec fn obeys_partial_cmp_spec() -> bool {
        A::obeys_partial_cmp_spec()
    }

    open spec fn partial_cmp_spec(&self, other: &Self) -> Option<Ordering> {
        match (*self, *other) {
            (
                SystemMsg::Stopped { aid: a1, error: e1 },
                SystemMsg::Stopped { aid: a2, error: e2 },
            ) => match PartialOrdSpec::partial_cmp_spec(&a1, &a2) {
                Some(Ordering::Equal) => Some(error_order(e1, e2)),
                o => o,
            },
            (a, b) => Some(rank_order(a, b)),
        }
    }
}

impl<M: PartialOrd, A: PartialOrd> PartialOrd for Message<M, A> {
    /// A start sorts before application messages, which sort before every
    /// other control message; messages of one kind compare by content.
    fn partial_cmp(&self, other: &Self) -> (r: Option<Ordering>) {
        match (self, other) {
            (Message::System(SystemMsg::Start), Message::Actual(_)) => Some(Ordering::Less),
            (Message::Actual(_), Message::System(SystemMsg::Start)) => Some(Ordering::Greater),
            (Message::System(msg1), Message::System(msg2)) => msg1.partial_cmp(msg2),
            (Message::Actual(msg1), Message::Actual(msg2)) => msg1.partial_cmp(msg2),
            (Message::System(_), Message::Actual(_)) => Some(Ordering::Greater),
            (Message::Actual(_), Message::System(_)) => Some(Ordering::Less),
        }
    }
}

impl<M: PartialOrd, A: PartialOrd> vstd::std_specs::cmp::PartialOrdSpecImpl for Message<M, A> {
    open spec fn obeys_partial_cmp_spec() -> bool {
        M::obeys_partial_cmp_spec() && A::obeys_partial_cmp_spec()
    }

    open spec fn partial_cmp_spec(&self, other: &Self) -> Option<Ordering> {
        match (*self, *other) {
            (Message::System(SystemMsg::Start), Message::Actual(_)) => Some(Ordering::Less),
            (Message::Actual(_), Message::System(SystemMsg::Start)) => Some(Ordering::Greater),
            (Message::System(msg1), Message::System(msg2)) => PartialOrdSpec::partial_cmp_spec(&msg1, &msg2),
            (Message::Actual(msg1), Message::Actual(msg2)) => PartialOrdSpec::partial_cmp_spec(&msg1, &msg2),
            (Message::System(_), Message::Actual(_)) => Some(Ordering::Greater),
            (Message::Actual(_), Message::System(_)) => Some(Ordering::Less),
        }
    }
}

/// Control messages are ordered first by kind, whatever they hold: a start
/// before news of a stopped actor, which comes before a stop. News of
/// stopped actors is ordered by the actor first, and only for equal actors
/// by the error text, equal texts giving `Equal`.
pub proof fn lemma_system_msg_order<A: PartialOrd>(
    x: SystemMsg<A>,
    a1: A,
    e1: Option<Arc<String>>,
    a2: A,
    e2: Option<Arc<String>>,
)
    ensures
        PartialOrdSpec::partial_cmp_spec(&SystemMsg::<A>::Start, &x) == Some(
            if x is Start { Ordering::Equal } else { Ordering::Less },
        ),
        PartialOrdSpec::partial_cmp_spec(&x, &SystemMsg::<A>::Stop) == Some(
            if x is Stop { Ordering::Equal } else { Ordering::Less },
        ),
        PartialOrdSpec::partial_cmp_spec(&a1, &a2) != Some(Ordering::Equal) ==> PartialOrdSpec::partial_cmp_spec(
            &SystemMsg::Stopped { aid: a1, error: e1 },
            &SystemMsg::Stopped { aid: a2, error: e2 },
        ) == PartialOrdSpec::partial_cmp_spec(&a1, &a2),
        PartialOrdSpec::partial_cmp_spec(&a1, &a2) == Some(Ordering::Equal) ==> (PartialOrdSpec::partial_cmp_spec(
            &SystemMsg::Stopped { aid: a1, error: e1 },
            &SystemMsg::Stopped { aid: a2, error: e2 },
        ) == Some(Ordering::Equal) <==> error_text(e1) == error_text(e2)),
{
    lemma_error_order_equal(e1, e2);
}

/// A start sorts before every application message, and every other control
/// message sorts after every application message.
pub proof fn lemma_message_order_by_kind<M: PartialOrd, A: PartialOrd>(s: SystemMsg<A>, m: M)
    ensures
        PartialOrdSpec::partial_cmp_spec(&Message::<M, A>::System(s), &Message::<M, A>::Actual(m)) == Some(
            if s is Start { Ordering::Less } else { Ordering::Greater },
        ),
        PartialOrdSpec::partial_cmp_spec(&Message::<M, A>::Actual(m), &Message::<M, A>::System(s)) == Some(
            if s is Start { Ordering::Greater } else { Ordering::Less },
        ),
{
}

} // verus!
