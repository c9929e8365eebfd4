//! What holds of the game as a whole.

use vstd::prelude::*;

use crate::chat::{
    after_guess, chat_deliveries, chat_error, chat_room, ends_round, has_host, is_answer,
    lemma_search_host, next_round, round_over_deliveries,
};
use crate::cleanup::{AbortedTask, CleanupTask, Delay};
use crate::events::{
    keeps_private, DeliveryView, EventView, InboundWsEvent, PayloadView, PlayerView,
};
use crate::handlers::{event_deliveries, left};
use crate::lobby::{joined, joined_deliveries, joins, welcome};
use crate::room::{find, lemma_search, stops_waiting, waits, RoomView};
use crate::text::lowercase;

verus! {

/// Whether the player at position `h` is the host and no other player is.
pub open spec fn is_only_host(players: Seq<PlayerView>, h: int) -> bool {
    &&& 0 <= h < players.len()
    &&& forall|i: int| 0 <= i < players.len() ==> ((#[trigger] players[i]).info.is_host <==> i == h)
}

/// Whether there is exactly one host.
pub open spec fn one_host(players: Seq<PlayerView>) -> bool {
    exists|h: int| is_only_host(players, h)
}

/// Whether two players differ at most in who hosts and who has the answer.
pub open spec fn same_player(a: PlayerView, b: PlayerView) -> bool {
    &&& a.private_id == b.private_id
    &&& a.info.name == b.info.name
    &&& a.info.public_id == b.info.public_id
    &&& a.sender == b.sender
}

/// Whether two groups have the same players in the same order.
pub open spec fn same_players(a: Seq<PlayerView>, b: Seq<PlayerView>) -> bool {
    &&& a.len() == b.len()
    &&& forall|i: int| 0 <= i < a.len() ==> same_player(#[trigger] a[i], b[i])
}

/// The end of a round passes the one host's place on to the next player in turn, takes the answer
/// from everyone, and keeps the players.
pub proof fn law_round_passes_host_on(players: Seq<PlayerView>, h: int)
    requires
        is_only_host(players, h),
    ensures
        is_only_host(next_round(players), (h + 1) % (players.len() as int)),
        forall|i: int|
            0 <= i < players.len() ==> !(#[trigger] next_round(players)[i]).info.has_answer,
        same_players(next_round(players), players),
{
    lemma_search_host(players, 0);
    assert(players[h].info.is_host);
}

/// The players after `k` rounds.
pub open spec fn after_rounds(players: Seq<PlayerView>, k: nat) -> Seq<PlayerView>
    decreases k,
{
    if k == 0 {
        players
    } else {
        next_round(after_rounds(players, (k - 1) as nat))
    }
}

/// Hosting goes round: after `k` rounds the host is the player `k` places on, and after as many
/// rounds as there are players the first host hosts again.
pub proof fn law_hosting_goes_round(players: Seq<PlayerView>, h: int, k: nat)
    requires
        is_only_host(players, h),
    ensures
        is_only_host(after_rounds(players, k), (h + k) % (players.len() as int)),
        same_players(after_rounds(players, k), players),
        is_only_host(after_rounds(players, players.len()), h),
{
    lemma_rounds(players, h, k);
    lemma_rounds(players, h, players.len());
    let n = players.len() as int;
    assert((h + n) % n == h) by (nonlinear_arith)
        requires
            0 <= h < n,
    ;
}

/// After `k` rounds the host is the player `k` places on.
proof fn lemma_rounds(players: Seq<PlayerView>, h: int, k: nat)
    requires
        is_only_host(players, h),
    ensures
        is_only_host(after_rounds(players, k), (h + k) % (players.len() as int)),
        same_players(after_rounds(players, k), players),
    decreases k,
{
    let n = players.len() as int;
    if k > 0 {
        let before = after_rounds(players, (k - 1) as nat);
        lemma_rounds(players, h, (k - 1) as nat);
        law_round_passes_host_on(before, (h + k - 1) % n);
        assert(((h + k - 1) % n + 1) % n == (h + k) % n) by (nonlinear_arith)
            requires
                n > 0,
        ;
        assert forall|i: int| 0 <= i < n implies same_player(
            #[trigger] after_rounds(players, k)[i],
            players[i],
        ) by {
            assert(same_player(after_rounds(players, k)[i], before[i]));
            assert(same_player(before[i], players[i]));
        }
    } else {
        assert(h % n == h) by (nonlinear_arith)
            requires
                0 <= h < n,
        ;
    }
}

/// A player who joins an empty room as host, or a room with one host as no host, leaves it with
/// one host. That is how `player_connected` makes players.
pub proof fn law_joining_keeps_one_host(room: RoomView, player: PlayerView)
    requires
        room.players.len() == 0 || one_host(room.players),
        player.info.is_host == (room.players.len() == 0),
    ensures
        one_host(joined(room, player).players),
{
    let after = joined(room, player).players;
    if room.players.len() == 0 {
        assert(is_only_host(after, 0));
    } else {
        let h = choose|h: int| is_only_host(room.players, h);
        assert(is_only_host(after, h));
    }
}

/// Whether no two players host.
pub open spec fn at_most_one_host(players: Seq<PlayerView>) -> bool {
    forall|i: int, j: int|
        0 <= i < players.len() && 0 <= j < players.len() && (#[trigger] players[i]).info.is_host
            && (#[trigger] players[j]).info.is_host ==> i == j
}

/// Leaving a room with one host leaves it with at most one: with none if it was the host who left,
/// and with one if it was another player, or nobody.
pub proof fn law_leaving_keeps_at_most_one_host(room: RoomView, private_id: Seq<char>)
    requires
        one_host(room.players),
    ensures
        at_most_one_host(left(room, private_id).players),
        match find(room.players, private_id) {
            Some(i) if room.players[i].info.is_host => !has_host(left(room, private_id).players),
            _ => one_host(left(room, private_id).players),
        },
{
    let h = choose|h: int| is_only_host(room.players, h);
    let after = left(room, private_id).players;
    lemma_search(room.players, private_id, 0);
    match find(room.players, private_id) {
        Some(i) => {
            assert(forall|j: int|
                0 <= j < after.len() ==> after[j] == room.players[if j < i {
                    j
                } else {
                    j + 1
                }]);
            if h < i {
                assert(is_only_host(after, h));
            } else if h > i {
                assert(is_only_host(after, h - 1));
            }
        },
        None => {},
    }
}

/// Leaving undoes joining under a new private id, but a cleanup that joining has stopped stays
/// stopped.
pub proof fn law_leaving_undoes_joining(room: RoomView, player: PlayerView)
    requires
        find(room.players, player.private_id) is None,
    ensures
        left(joined(room, player), player.private_id) == (RoomView {
            cleanup_abort_handle: None,
            ..room
        }),
{
    law_inserted_player_is_found(room.players, player, player.private_id);
    assert(room.players.push(player).remove(room.players.len() as int) =~= room.players);
}

/// A guess by the player at position `i` changes nobody's hosting and none but that player.
proof fn lemma_guess(room: RoomView, i: int, h: int)
    requires
        0 <= i < room.players.len(),
        is_only_host(room.players, h),
    ensures
        is_only_host(after_guess(room, i).players, h),
        same_players(after_guess(room, i).players, room.players),
{
}

/// Chat keeps a room with one host a room with one host.
pub proof fn law_chat_keeps_one_host(
    room: RoomView,
    message: Seq<char>,
    lowered: Seq<char>,
    private_id: Seq<char>,
)
    requires
        one_host(room.players),
    ensures
        one_host(chat_room(room, message, lowered, private_id).players),
{
    let h = choose|h: int| is_only_host(room.players, h);
    if chat_error(room, message, private_id) is None && is_answer(room, lowered) {
        lemma_search(room.players, private_id, 0);
        let i = find(room.players, private_id)->0;
        lemma_guess(room, i, h);
        law_round_passes_host_on(after_guess(room, i).players, h);
    }
}

/// Chat in a room with a host changes who hosts and who has the answer, and nothing else.
pub proof fn law_chat_keeps_players_and_picture(
    room: RoomView,
    message: Seq<char>,
    lowered: Seq<char>,
    private_id: Seq<char>,
)
    requires
        has_host(room.players),
    ensures
        same_players(chat_room(room, message, lowered, private_id).players, room.players),
        chat_room(room, message, lowered, private_id) == (RoomView {
            players: chat_room(room, message, lowered, private_id).players,
            ..room
        }),
{
    if chat_error(room, message, private_id) is None && is_answer(room, lowered) {
        lemma_search(room.players, private_id, 0);
        let i = find(room.players, private_id)->0;
        let guessed = after_guess(room, i).players;
        let h = choose|h: int|
            0 <= h < room.players.len() && (#[trigger] room.players[h]).info.is_host;
        assert(guessed[h].info.is_host);
        lemma_search_host(guessed, 0);
    }
}

/// A message that is refused changes nothing and nobody is told of it.
pub proof fn law_refused_message_has_no_effect(
    room: RoomView,
    message: Seq<char>,
    lowered: Seq<char>,
    private_id: Seq<char>,
)
    requires
        chat_error(room, message, private_id) is Some,
    ensures
        chat_room(room, message, lowered, private_id) == room,
        chat_deliveries(room, message, lowered, private_id).len() == 0,
{
}

/// Letter case does not matter: two messages with one lower-case form do the same to the room.
pub proof fn law_guesses_ignore_case(
    room: RoomView,
    a: Seq<char>,
    b: Seq<char>,
    private_id: Seq<char>,
)
    requires
        a.len() > 0,
        b.len() > 0,
        lowercase(a) == lowercase(b),
    ensures
        chat_room(room, a, lowercase(a), private_id) == chat_room(
            room,
            b,
            lowercase(b),
            private_id,
        ),
{
}

/// While a player other than the writer and the hosts lacks the answer, no message ends the round
/// or changes that player.
pub proof fn law_round_goes_on_while_somebody_guesses(
    room: RoomView,
    message: Seq<char>,
    lowered: Seq<char>,
    private_id: Seq<char>,
    j: int,
)
    requires
        0 <= j < room.players.len(),
        find(room.players, private_id) != Some(j),
        !room.players[j].info.is_host,
        !room.players[j].info.has_answer,
    ensures
        !ends_round(room, message, lowered, private_id),
        chat_room(room, message, lowered, private_id).players[j] == room.players[j],
{
    if chat_error(room, message, private_id) is None && is_answer(room, lowered) {
        lemma_search(room.players, private_id, 0);
        let guessed = after_guess(room, find(room.players, private_id)->0).players;
        assert(guessed[j] == room.players[j]);
    }
}

/// Whether every delivery keeps private ids private.
pub open spec fn all_keep_private(deliveries: Seq<DeliveryView>) -> bool {
    forall|i: int| 0 <= i < deliveries.len() ==> keeps_private(#[trigger] deliveries[i])
}

/// A player's private id is told to that player alone, when players connect and join.
pub proof fn law_joining_keeps_private_ids(room: RoomView, player: PlayerView, sender: u64)
    ensures
        all_keep_private(joined_deliveries(room, player)),
        all_keep_private(welcome(room, sender)),
{
}

/// No private id is told in chat or at the end of a round.
pub proof fn law_chat_keeps_private_ids(
    room: RoomView,
    message: Seq<char>,
    lowered: Seq<char>,
    private_id: Seq<char>,
)
    ensures
        all_keep_private(chat_deliveries(room, message, lowered, private_id)),
        all_keep_private(round_over_deliveries(room)),
{
    if chat_error(room, message, private_id) is None {
        let guessed = after_guess(room, find(room.players, private_id)->0);
        lemma_round_over_keeps_private(guessed);
    }
    lemma_round_over_keeps_private(room);
}

/// No private id is told at the end of a round.
proof fn lemma_round_over_keeps_private(room: RoomView)
    ensures
        all_keep_private(round_over_deliveries(room)),
{
}

/// No private id is told when an event of a player is handled.
pub proof fn law_events_keep_private_ids(
    room: RoomView,
    event: InboundWsEvent,
    private_id: Seq<char>,
)
    ensures
        all_keep_private(event_deliveries(room, event, private_id)),
{
    if let InboundWsEvent::ChatMessage(text) = event {
        law_chat_keeps_private_ids(room, text@, lowercase(text@), private_id);
    }
}

/// The answer event goes to the one player who gave the answer, and to nobody else.
pub proof fn law_answer_goes_to_guesser_alone(
    room: RoomView,
    message: Seq<char>,
    lowered: Seq<char>,
    private_id: Seq<char>,
    k: int,
)
    requires
        0 <= k < chat_deliveries(room, message, lowered, private_id).len(),
        chat_deliveries(room, message, lowered, private_id)[k].payload matches PayloadView::Event(
            EventView::Answer(_),
        ),
    ensures
        is_answer(room, lowered),
        find(room.players, private_id) matches Some(i) && chat_deliveries(
            room,
            message,
            lowered,
            private_id,
        )[k].to == seq![room.players[i].sender],
{
    lemma_search(room.players, private_id, 0);
}

/// A player inserted under a new private id is found under it, and whoever was found before is
/// still found.
pub proof fn law_inserted_player_is_found(
    players: Seq<PlayerView>,
    player: PlayerView,
    other_id: Seq<char>,
)
    requires
        find(players, player.private_id) is None,
    ensures
        find(players.push(player), player.private_id) == Some(players.len() as int),
        other_id != player.private_id ==> find(players.push(player), other_id) == find(
            players,
            other_id,
        ),
{
    let after = players.push(player);
    lemma_search(players, player.private_id, 0);
    lemma_search(after, player.private_id, 0);
    lemma_search(players, other_id, 0);
    lemma_search(after, other_id, 0);
    assert(after[players.len() as int] == player);
    assert(forall|j: int| 0 <= j < players.len() ==> after[j] == players[j]);
}

/// Cancelling a cleanup undoes it: the task that is told to stop is the one that was to delete the
/// room, the room is as it was before it waited, and cancelling again changes nothing and stops
/// nothing. The rooms are those before `wait_then_cleanup`, after it, and after each of two
/// calls of `cancel_cleanup`.
pub proof fn law_cancelling_stops_the_cleanup(
    before: RoomView,
    waiting: RoomView,
    delay: Delay,
    task: CleanupTask,
    cancelled: RoomView,
    aborted: Option<AbortedTask>,
    again: RoomView,
    aborted_again: Option<AbortedTask>,
)
    requires
        waits(before, waiting, delay, task),
        stops_waiting(waiting, cancelled, aborted),
        stops_waiting(cancelled, again, aborted_again),
    ensures
        aborted matches Some(stopped) && stopped.handle() == task.registration.handle(),
        cancelled == (RoomView { cleanup_abort_handle: None, ..before }),
        before.cleanup_abort_handle is None ==> cancelled == before,
        again == cancelled,
        aborted_again is None,
{
}

/// Joining a room that waits to be deleted stops the task that was to delete it.
pub proof fn law_joining_stops_the_cleanup(
    before: RoomView,
    waiting: RoomView,
    delay: Delay,
    task: CleanupTask,
    player: PlayerView,
    after: RoomView,
    aborted: Option<AbortedTask>,
)
    requires
        waits(before, waiting, delay, task),
        joins(waiting, player, after, aborted),
    ensures
        aborted matches Some(stopped) && stopped.handle() == task.registration.handle(),
        after == joined(before, player),
{
}

/// Deleting a room undoes opening it under a new id.
pub proof fn law_delete_undoes_open<R>(rooms: Map<Seq<char>, R>, id: Seq<char>, room: R)
    requires
        !rooms.contains_key(id),
    ensures
        rooms.insert(id, room).remove(id) == rooms,
{
    assert(rooms.insert(id, room).remove(id) =~= rooms);
}

} // verus!
