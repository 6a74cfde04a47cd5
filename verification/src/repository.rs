//! The two conversations with the worker: one round trip per request, and
//! the wait for events.
//!
//! Neither conversation is held here. The caller owns the channels, does the
//! sending and the waiting, and asks the functions of this module what to do
//! next and what to return.
use vstd::prelude::*;

use crate::error::{Error, ErrorView};
use crate::gateway::decoded;
use crate::request::Request;
use crate::response::{decode_spec, outcome_view, Outcome, Reply, ReplyView};

verus! {

/// How long one wait on the event channel lasts, in milliseconds.
pub const POLL_INTERVAL_MS: u64 = 1000;

pub open spec fn send_failed_text() -> Seq<char> {
    "could not send request to backend"@
}

pub open spec fn no_reply_text() -> Seq<char> {
    "could not receive response from backend"@
}

pub open spec fn closed_text() -> Seq<char> {
    "receiver is closed"@
}

pub open spec fn shut_down_text() -> Seq<char> {
    "worker has been shut down"@
}

/// The payload to put on the command channel for `request`, next to a reply
/// slot made for this call alone.
pub fn register_payload(request: &Request) -> (payload: String)
    ensures
        payload@ == request@.wire(),
{
    request.to_wire()
}

/// What follows the attempt to send: on a delivered command the caller
/// awaits the reply slot; on a failed send the round trip is over, with
/// this error and without a second try.
pub fn register_sent(delivered: bool) -> (next: Result<(), Error>)
    ensures
        delivered <==> next is Ok,
        !delivered ==> next.unwrap_err()@ == ErrorView::LocalError(send_failed_text()),
{
    if delivered {
        Ok(())
    } else {
        Err(Error::create_local_error("could not send request to backend"))
    }
}

/// What a reply slot can end with, by its view.
pub open spec fn register_replied_spec(reply: Option<Seq<char>>) -> Result<ReplyView, ErrorView> {
    match reply {
        Some(payload) => decode_spec(payload),
        None => Err(ErrorView::LocalError(no_reply_text())),
    }
}

/// The outcome of a round trip whose command was delivered: the decoded
/// reply, or a local error if the slot was dropped unfilled.
pub fn register_replied(reply: Option<String>) -> (outcome: Outcome)
    ensures
        outcome_view(outcome) == register_replied_spec(
            match reply {
                Some(payload) => Some(payload@),
                None => None,
            },
        ),
{
    match reply {
        Some(payload) => Reply::decode(payload),
        None => Err(Error::create_local_error("could not receive response from backend")),
    }
}

/// What the channels did in the course of one round trip.
#[derive(Debug, Clone, PartialEq, Eq)]
pub enum Exchange {
    /// The command channel did not take the command.
    SendFailed,
    /// The command was taken, and the reply slot was dropped unfilled.
    NoReply,
    /// The command was taken, and the slot was filled with this payload.
    Reply(String),
}

pub enum ExchangeView {
    SendFailed,
    NoReply,
    Reply(Seq<char>),
}

impl View for Exchange {
    type V = ExchangeView;

    open spec fn view(&self) -> ExchangeView {
        match self {
            Exchange::SendFailed => ExchangeView::SendFailed,
            Exchange::NoReply => ExchangeView::NoReply,
            Exchange::Reply(payload) => ExchangeView::Reply(payload@),
        }
    }
}

/// How a round trip ends, given what the channels did.
pub open spec fn register_spec(exchange: ExchangeView) -> Result<ReplyView, ErrorView> {
    match exchange {
        ExchangeView::SendFailed => Err(ErrorView::LocalError(send_failed_text())),
        ExchangeView::NoReply => Err(ErrorView::LocalError(no_reply_text())),
        ExchangeView::Reply(payload) => decode_spec(payload),
    }
}

/// A whole round trip over channels whose doings are known in advance: the
/// steps [`register_sent`] and [`register_replied`] in the order in which
/// the caller takes them.
pub fn register(exchange: Exchange) -> (outcome: Outcome)
    ensures
        outcome_view(outcome) == register_spec(exchange@),
{
    let (delivered, reply) = match exchange {
        Exchange::SendFailed => (false, None),
        Exchange::NoReply => (true, None),
        Exchange::Reply(payload) => (true, Some(payload)),
    };
    match register_sent(delivered) {
        Err(error) => Err(error),
        Ok(()) => register_replied(reply),
    }
}

/// Whether a round trip's reply arrived and the parser rejects it.
pub open spec fn unreadable(exchange: ExchangeView) -> bool {
    exchange matches ExchangeView::Reply(payload) && decoded(payload) is Err
}

/// Whether a round trip's reply arrived and the parser accepts it.
pub open spec fn readable(exchange: ExchangeView) -> bool {
    exchange matches ExchangeView::Reply(payload) && decoded(payload) is Ok
}

/// A round trip tells "nothing came back" from "what came back could not be
/// read": it ends in a decode error exactly when a reply arrived that the
/// parser rejects, and in a local error exactly when the command could not
/// be sent or the slot was dropped. A reply that the parser accepts is
/// returned, whether the worker reports success or failure in it.
pub proof fn lemma_register_tells_failures_apart(exchange: ExchangeView)
    ensures
        unreadable(exchange) == (register_spec(exchange) matches Err(error) && error
            is DecodeError),
        !(exchange is Reply) == (register_spec(exchange) matches Err(error) && error
            is LocalError),
        readable(exchange) == (register_spec(exchange) is Ok),
        readable(exchange) ==> register_spec(exchange) == Ok::<ReplyView, ErrorView>(
            ReplyView {
                response: decoded(exchange->Reply_0)->Ok_0,
                payload: exchange->Reply_0,
            },
        ),
{
}

/// What one wait on the event channel gave.
#[derive(Debug, Clone, PartialEq, Eq)]
pub enum Poll {
    /// A payload arrived within the interval.
    Payload(String),
    /// The channel is closed: its producer is gone.
    Closed,
    /// The interval passed and nothing arrived.
    TimedOut,
}

pub enum PollView {
    Payload(Seq<char>),
    Closed,
    TimedOut,
}

impl View for Poll {
    type V = PollView;

    open spec fn view(&self) -> PollView {
        match self {
            Poll::Payload(payload) => PollView::Payload(payload@),
            Poll::Closed => PollView::Closed,
            Poll::TimedOut => PollView::TimedOut,
        }
    }
}

/// An optional [`Outcome`] by the views of what it holds.
pub open spec fn ending_view(ending: Option<Outcome>) -> Option<
    Result<ReplyView, ErrorView>,
> {
    match ending {
        Some(outcome) => Some(outcome_view(outcome)),
        None => None,
    }
}

/// What the head of the drain loop decides.
#[derive(Debug)]
pub enum Turn {
    /// Wait on the event channel, for at most this many milliseconds.
    Wait { millis: u64 },
    /// Return this error: the program is shutting down.
    Stop(Error),
}

pub enum TurnView {
    Wait { millis: u64 },
    Stop(ErrorView),
}

impl View for Turn {
    type V = TurnView;

    open spec fn view(&self) -> TurnView {
        match self {
            Turn::Wait { millis } => TurnView::Wait { millis: *millis },
            Turn::Stop(error) => TurnView::Stop(error@),
        }
    }
}

/// How the drain loop goes on from the program status: it stops once the
/// program is shutting down, and waits for one interval otherwise.
pub open spec fn receive_event_check_spec(shutting_down: bool) -> TurnView {
    if shutting_down {
        TurnView::Stop(ErrorView::LocalError(shut_down_text()))
    } else {
        TurnView::Wait { millis: POLL_INTERVAL_MS }
    }
}

/// How the drain loop goes on from a wait: `Some` ends it with that
/// outcome, `None` sends it back to the program status.
pub open spec fn receive_event_polled_spec(poll: PollView) -> Option<
    Result<ReplyView, ErrorView>,
> {
    match poll {
        PollView::Payload(payload) => Some(decode_spec(payload)),
        PollView::Closed => Some(Err(ErrorView::LocalError(closed_text()))),
        PollView::TimedOut => None,
    }
}

/// The head of the drain loop. The caller reads the program status and
/// passes it in, then does what the turn says; after a wait it calls
/// [`receive_event_polled`] with what the wait gave.
pub fn receive_event_check(shutting_down: bool) -> (turn: Turn)
    ensures
        turn@ == receive_event_check_spec(shutting_down),
{
    if shutting_down {
        Turn::Stop(Error::create_local_error("worker has been shut down"))
    } else {
        Turn::Wait { millis: POLL_INTERVAL_MS }
    }
}

/// The foot of the drain loop. On `Some` the caller returns that outcome; on
/// `None` it goes back to [`receive_event_check`].
pub fn receive_event_polled(poll: Poll) -> (done: Option<Outcome>)
    ensures
        ending_view(done) == receive_event_polled_spec(poll@),
{
    match poll {
        Poll::Payload(payload) => Some(Reply::decode(payload)),
        Poll::Closed => Some(Err(Error::create_local_error("receiver is closed"))),
        Poll::TimedOut => None,
    }
}

/// What one turn of the drain loop sees: the program status at its head,
/// and what the wait gives if the turn gets that far.
#[derive(Debug, Clone, PartialEq, Eq)]
pub struct Round {
    pub shutting_down: bool,
    pub poll: Poll,
}

pub struct RoundView {
    pub shutting_down: bool,
    pub poll: PollView,
}

impl View for Round {
    type V = RoundView;

    open spec fn view(&self) -> RoundView {
        RoundView { shutting_down: self.shutting_down, poll: self.poll@ }
    }
}

/// Whether a turn of the drain loop ends the loop.
pub open spec fn decisive(round: RoundView) -> bool {
    round.shutting_down || !(round.poll is TimedOut)
}

/// What a decisive turn ends the loop with.
pub open spec fn round_ending(round: RoundView) -> Result<ReplyView, ErrorView> {
    if round.shutting_down {
        Err(ErrorView::LocalError(shut_down_text()))
    } else {
        match round.poll {
            PollView::Payload(payload) => decode_spec(payload),
            _ => Err(ErrorView::LocalError(closed_text())),
        }
    }
}

/// The drain loop over the turns given: the ending of the first decisive
/// turn, or nothing while every turn timed out with the program running.
pub open spec fn receive_event_spec(rounds: Seq<RoundView>) -> Option<
    Result<ReplyView, ErrorView>,
>
    decreases rounds.len(),
{
    if rounds.len() == 0 {
        None
    } else if decisive(rounds[0]) {
        Some(round_ending(rounds[0]))
    } else {
        receive_event_spec(rounds.skip(1))
    }
}

/// The views of the turns in `rounds`, in order.
pub open spec fn rounds_view(rounds: Seq<Round>) -> Seq<RoundView> {
    rounds.map_values(|round: Round| round@)
}

/// Runs the drain loop over turns known in advance: the loop of
/// [`receive_event_check`] and [`receive_event_polled`], with the world's
/// answers read from `rounds`. `None` says that the turns ran out before the
/// loop ended.
pub fn receive_event(rounds: &Vec<Round>) -> (done: Option<Outcome>)
    ensures
        ending_view(done) == receive_event_spec(rounds_view(rounds@)),
{
    let mut turn: usize = 0;
    assert(rounds_view(rounds@).skip(0) == rounds_view(rounds@));
    while turn < rounds.len()
        invariant
            turn <= rounds.len(),
            receive_event_spec(rounds_view(rounds@)) == receive_event_spec(
                rounds_view(rounds@).skip(turn as int),
            ),
        decreases rounds.len() - turn,
    {
        let ghost rest = rounds_view(rounds@).skip(turn as int);
        assert(rest[0] == rounds@[turn as int]@);
        assert(rest.skip(1) == rounds_view(rounds@).skip(turn + 1));
        if let Turn::Stop(error) = receive_event_check(rounds[turn].shutting_down) {
            return Some(Err(error));
        }
        match &rounds[turn].poll {
            Poll::Payload(payload) => {
                return Some(Reply::decode(payload.clone()));
            },
            Poll::Closed => {
                return Some(Err(Error::create_local_error("receiver is closed")));
            },
            Poll::TimedOut => {},
        }
        turn = turn + 1;
    }
    None
}

/// The drain loop ends at the first decisive turn and with that turn's
/// ending, however many fruitless waits came before it: with the decoded
/// payload if one arrived, with the closed-receiver error if the producer
/// was gone, and with the shutdown error if the program was shutting down
/// when the turn began.
pub proof fn lemma_receive_event_first_decisive(rounds: Seq<RoundView>, first: int)
    requires
        0 <= first < rounds.len(),
        decisive(rounds[first]),
        forall|earlier: int| 0 <= earlier < first ==> !decisive(#[trigger] rounds[earlier]),
    ensures
        receive_event_spec(rounds) == Some(round_ending(rounds[first])),
        rounds[first].shutting_down ==> receive_event_spec(rounds) == Some(
            Err::<ReplyView, ErrorView>(ErrorView::LocalError(shut_down_text())),
        ),
        !rounds[first].shutting_down ==> (rounds[first].poll matches PollView::Payload(payload)
            ==> receive_event_spec(rounds) == Some(decode_spec(payload))),
        !rounds[first].shutting_down && rounds[first].poll is Closed ==> receive_event_spec(rounds)
            == Some(Err::<ReplyView, ErrorView>(ErrorView::LocalError(closed_text()))),
    decreases first,
{
    if first > 0 {
        assert(!decisive(rounds[0]));
        let rest = rounds.skip(1);
        assert(rest[first - 1] == rounds[first]);
        assert forall|earlier: int| 0 <= earlier < first - 1 implies !decisive(
            #[trigger] rest[earlier],
        ) by {
            assert(rest[earlier] == rounds[earlier + 1]);
        }
        lemma_receive_event_first_decisive(rest, first - 1);
    }
}

/// While the program runs and every wait times out, the drain loop has not
/// ended: no event is made up, and none is lost.
pub proof fn lemma_receive_event_goes_on(rounds: Seq<RoundView>)
    requires
        forall|turn: int| 0 <= turn < rounds.len() ==> !decisive(#[trigger] rounds[turn]),
    ensures
        receive_event_spec(rounds) is None,
    decreases rounds.len(),
{
    if rounds.len() > 0 {
        let rest = rounds.skip(1);
        assert forall|turn: int| 0 <= turn < rest.len() implies !decisive(#[trigger] rest[turn]) by {
            assert(rest[turn] == rounds[turn + 1]);
        }
        lemma_receive_event_goes_on(rest);
    }
}

} // verus!
