//! What holds of a stream over any number of calls.

use crate::io::tcp::shares_stream;
use crate::io::stream::Stream;
use crate::result::{Error, Result};
use mio::net::TcpStream;
use openssl::ssl::SslStream;
use vstd::prelude::*;

verus! {

/// Whether `states` is what a stream went through under the calls of
/// `upgrade` that were made with `clients` and returned `outcomes`.
pub open spec fn upgrades(
    states: Seq<Stream>,
    clients: Seq<bool>,
    outcomes: Seq<Result<Option<()>>>,
) -> bool {
    &&& states.len() == outcomes.len() + 1
    &&& clients.len() == outcomes.len()
    &&& forall|i: int|
        0 <= i < outcomes.len() ==> (#[trigger] states[i]).advanced(
            clients[i],
            states[i + 1],
            outcomes[i],
        )
}

/// A stream that is not negotiating is never changed by `upgrade`, and every
/// call says that there is nothing left to do, however many are made.
pub proof fn stable_stream_stays(
    states: Seq<Stream>,
    clients: Seq<bool>,
    outcomes: Seq<Result<Option<()>>>,
)
    requires
        upgrades(states, clients, outcomes),
        !states[0].negotiating(),
    ensures
        forall|i: int| 0 <= i < states.len() ==> #[trigger] states[i] == states[0],
        forall|i: int|
            0 <= i < outcomes.len() ==> #[trigger] outcomes[i] == Ok::<Option<()>, Error>(Some(())),
    decreases outcomes.len(),
{
    if outcomes.len() > 0 {
        let n = outcomes.len() - 1;
        stable_stream_stays(states.take(n + 1), clients.take(n), outcomes.take(n));
        assert(states.take(n + 1)[n] == states[n]);
        assert(states[n].advanced(clients[n], states[n + 1], outcomes[n]));
        assert forall|i: int| 0 <= i < states.len() implies #[trigger] states[i] == states[0] by {
            if i <= n {
                assert(states.take(n + 1)[i] == states[i]);
            }
        }
        assert forall|i: int| 0 <= i < outcomes.len() implies #[trigger] outcomes[i] == Ok::<
            Option<()>,
            Error,
        >(Some(())) by {
            if i < n {
                assert(outcomes.take(n)[i] == outcomes[i]);
            }
        }
    }
}

/// A handshake attempt that has to wait leaves the stream negotiating and
/// as it was, and says so with `None`. The next attempt that has to wait
/// does the same: a blocked stream can be polled again and again.
pub proof fn blocked_attempt_repeats(
    stream: Stream,
    first: Error,
    second: Error,
    between: Stream,
    first_outcome: Result<Option<()>>,
    after: Stream,
    second_outcome: Result<Option<()>>,
)
    requires
        stream.negotiating(),
        first.is_would_block(),
        second.is_would_block(),
        stream.settled(Err(first), between, first_outcome),
        between.settled(Err(second), after, second_outcome),
    ensures
        between == stream,
        after == stream,
        after.negotiating(),
        first_outcome == Ok::<Option<()>, Error>(None),
        second_outcome == first_outcome,
{
}

/// A negotiating client is told to try again only where a handshake
/// attempt over a clone of its socket ended in an error that asks to wait,
/// and the stream is then as it was.
pub proof fn retry_means_blocked(before: Stream, after: Stream, outcome: Result<Option<()>>)
    requires
        before.negotiating(),
        before.advanced(true, after, outcome),
        outcome == Ok::<Option<()>, Error>(None),
    ensures
        after == before,
        exists|error: Error|
            #![trigger before.settled(Err(error), after, outcome)]
            error.is_would_block() && before.attempted(Err(error)) && before.settled(
                Err(error),
                after,
                outcome,
            ),
{
    let attempt = choose|attempt: Result<SslStream<TcpStream>>|
        #![trigger before.settled(attempt, after, outcome)]
        before.attempted(attempt) && before.settled(attempt, after, outcome);
    assert(attempt is Err);
    let error = attempt->Err_0;
    assert(attempt == Err::<SslStream<TcpStream>, Error>(error));
    assert(error.is_would_block() && before.attempted(Err(error)) && before.settled(
        Err(error),
        after,
        outcome,
    ));
}

/// Over any calls of `upgrade`, a stream is established at most once: from
/// the call that returns `Some` for a negotiating stream on, it is secured
/// and stays exactly as that call left it. The socket that it then offers
/// the reactor is a handle to the stream of the socket it offered before.
pub proof fn established_once(
    states: Seq<Stream>,
    clients: Seq<bool>,
    outcomes: Seq<Result<Option<()>>>,
    at: int,
)
    requires
        upgrades(states, clients, outcomes),
        0 <= at < outcomes.len(),
        states[at].negotiating(),
        outcomes[at] matches Ok(Some(_)),
    ensures
        clients[at],
        states[at + 1].secured(),
        shares_stream(states[at].descriptor(), states[at + 1].descriptor()),
        forall|i: int| at < i < states.len() ==> #[trigger] states[i] == states[at + 1],
        forall|i: int|
            at < i < outcomes.len() ==> #[trigger] outcomes[i] == Ok::<Option<()>, Error>(Some(())),
{
    assert(states[at].advanced(clients[at], states[at + 1], outcomes[at]));
    let rest = states.len() - (at + 1);
    let later_states = states.skip(at + 1);
    let later_clients = clients.skip(at + 1);
    let later_outcomes = outcomes.skip(at + 1);
    assert forall|i: int| 0 <= i < later_outcomes.len() implies (#[trigger] later_states[i]).advanced(
        later_clients[i],
        later_states[i + 1],
        later_outcomes[i],
    ) by {
        assert(states[at + 1 + i].advanced(
            clients[at + 1 + i],
            states[at + 1 + i + 1],
            outcomes[at + 1 + i],
        ));
    }
    stable_stream_stays(later_states, later_clients, later_outcomes);
    assert forall|i: int| at < i < states.len() implies #[trigger] states[i] == states[at + 1] by {
        assert(later_states[i - (at + 1)] == states[i]);
    }
    assert forall|i: int| at < i < outcomes.len() implies #[trigger] outcomes[i] == Ok::<
        Option<()>,
        Error,
    >(Some(())) by {
        assert(later_outcomes[i - (at + 1)] == outcomes[i]);
    }
}

/// A plain stream stays plain and a negotiating stream is never made plain:
/// the only change that `upgrade` makes is from negotiating to secured.
pub proof fn only_negotiation_ends(
    before: Stream,
    is_client: bool,
    after: Stream,
    outcome: Result<Option<()>>,
)
    requires
        before.advanced(is_client, after, outcome),
    ensures
        after != before ==> before.negotiating() && after.secured() && is_client,
        before is Tcp <==> after is Tcp,
{
}

/// Reading, writing and flushing never change whether a stream is plain,
/// negotiating or secured, nor the socket that it offers the reactor; before
/// TLS is established they leave the stream exactly as it was.
pub proof fn io_keeps_the_route(before: Stream, after: Stream)
    requires
        before.carried(after),
    ensures
        after.secured() == before.secured(),
        after.negotiating() == before.negotiating(),
        after.descriptor() == before.descriptor(),
        !before.secured() ==> after == before,
{
}

/// A failure to accept TLS as a server cannot be taken for success: the
/// call returns an error of its own kind and the stream is as it was.
pub proof fn acceptance_is_refused(before: Stream, after: Stream, outcome: Result<Option<()>>)
    requires
        before.negotiating(),
        before.advanced(false, after, outcome),
    ensures
        outcome matches Err(error) && error.kind is Unsupported,
        after == before,
        after.negotiating(),
{
}

} // verus!
