//! One game of coinflip: a stake, the player who opened the game, and, once
//! a second player has joined, the flip that decides between the two.

use vstd::prelude::*;
use vstd::string::*;

use crate::fairness::random_below;
use crate::hub::{deliveries_of, with_member, without, Delivery, DeliveryView, Registry};
use crate::money::{fixed_amount_text, push_fixed_amount};

verus! {

/// A player of coinflip: who it is, and the connection that answers go to.
#[derive(Debug)]
pub struct Player {
    pub id: usize,
    pub name: String,
    pub connection: i32,
}

/// What a player's entry holds.
pub ghost struct PlayerView {
    pub id: usize,
    pub name: Seq<char>,
    pub connection: i32,
}

impl View for Player {
    type V = PlayerView;

    open spec fn view(&self) -> PlayerView {
        PlayerView { id: self.id, name: self.name@, connection: self.connection }
    }
}

/// Why a player could not join a game.
#[derive(Clone, Copy, Debug, PartialEq, Eq, Structural)]
pub enum JoinGameError {
    /// No game is open under this name.
    GameNotFound,
    /// The player is in the game already.
    AlreadyJoined,
    /// The game has its two players.
    GameFull,
}

/// What a player who could not join is told.
pub open spec fn refusal_text(reason: JoinGameError) -> Seq<char> {
    match reason {
        JoinGameError::GameNotFound => "Game not found"@,
        JoinGameError::AlreadyJoined => "You are already in this game"@,
        JoinGameError::GameFull => "Game is full"@,
    }
}

/// What each entry of `players` holds.
pub open spec fn entries_of(players: Seq<Player>) -> Seq<PlayerView> {
    Seq::new(players.len(), |i: int| players[i]@)
}

/// The players of `players`, in order.
pub open spec fn player_ids(players: Seq<PlayerView>) -> Seq<usize> {
    Seq::new(players.len(), |i: int| players[i].id)
}

/// The place of the winner for the draw `draw`: the first player for an even
/// draw, the second for an odd one.
pub open spec fn winner_place(draw: u64) -> int {
    (draw % 2) as int
}

/// What the winner is told.
pub open spec fn winner_text(amount: nat) -> Seq<char> {
    "You won $"@ + fixed_amount_text(amount) + "!"@
}

/// What the loser is told.
pub open spec fn loser_text() -> Seq<char> {
    "You lost. Better luck next time!"@
}

/// What those who watch are told.
pub open spec fn result_text(winner: Seq<char>, amount: nat) -> Seq<char> {
    "Player "@ + winner + " won $"@ + fixed_amount_text(amount) + "!"@
}

/// The state of a game.
pub ghost struct CoinflipGameView {
    pub id: Seq<char>,
    pub spectators: Seq<i32>,
    pub players: Seq<PlayerView>,
    /// The stake, in cents.
    pub amount: u64,
}

impl CoinflipGameView {
    /// The invariant of a game: one or two players, nobody twice, and no
    /// spectator twice.
    pub open spec fn wf(self) -> bool {
        &&& 1 <= self.players.len() <= 2
        &&& player_ids(self.players).no_duplicates()
        &&& self.spectators.no_duplicates()
    }

    /// Whether the game waits for its second player.
    pub open spec fn is_open(self) -> bool {
        self.players.len() == 1
    }

    /// The answer to a request of `player` to join.
    pub open spec fn join_outcome(self, player: PlayerView) -> Result<(), JoinGameError> {
        if player_ids(self.players).contains(player.id) {
            Err(JoinGameError::AlreadyJoined)
        } else if self.players.len() >= 2 {
            Err(JoinGameError::GameFull)
        } else {
            Ok(())
        }
    }

    /// The state after a request of `player` to join.
    pub open spec fn after_join(self, player: PlayerView) -> CoinflipGameView {
        if self.join_outcome(player) is Ok {
            CoinflipGameView { players: self.players.push(player), ..self }
        } else {
            self
        }
    }

    /// The deliveries that settle a game of two for the draw `draw`: the
    /// winner's message to the winner, the loser's to the loser, and the
    /// result to those who watch.
    pub open spec fn settlement(self, draw: u64) -> Seq<DeliveryView> {
        let winner = self.players[winner_place(draw)];
        let loser = self.players[1 - winner_place(draw)];
        seq![
            DeliveryView {
                recipients: seq![winner.connection],
                text: winner_text(self.amount as nat),
            },
            DeliveryView { recipients: seq![loser.connection], text: loser_text() },
            DeliveryView {
                recipients: self.spectators,
                text: result_text(winner.name, self.amount as nat),
            },
        ]
    }

    /// The connections of the players, then those who watch.
    pub open spec fn audience(self) -> Seq<i32> {
        Seq::new(self.players.len(), |i: int| self.players[i].connection) + self.spectators
    }
}

/// One game of coinflip.
pub struct CoinflipGame {
    id: String,
    spectators: Registry,
    players: Vec<Player>,
    amount: u64,
}

impl View for CoinflipGame {
    type V = CoinflipGameView;

    closed spec fn view(&self) -> CoinflipGameView {
        CoinflipGameView {
            id: self.id@,
            spectators: self.spectators@,
            players: entries_of(self.players@),
            amount: self.amount,
        }
    }
}

/// A request to join that is refused changes nothing, and one that is
/// granted keeps the game well formed and fills it.
pub proof fn lemma_join_keeps_wf(state: CoinflipGameView, player: PlayerView)
    requires
        state.wf(),
    ensures
        state.after_join(player).wf(),
        state.join_outcome(player) is Err ==> state.after_join(player) == state,
        state.join_outcome(player) is Ok ==> state.after_join(player).players.len() == 2,
        state.players.len() == 2 ==> state.join_outcome(player) is Err,
        player_ids(state.players).contains(player.id) ==> state.join_outcome(player) is Err,
{
    if state.join_outcome(player) is Ok {
        let ids = player_ids(state.players);
        let new_ids = player_ids(state.after_join(player).players);
        assert forall|a: int, b: int|
            0 <= a < new_ids.len() && 0 <= b < new_ids.len() && a != b implies new_ids[a]
            != new_ids[b] by {
            if a < ids.len() {
                assert(ids[a] == new_ids[a]);
            }
            if b < ids.len() {
                assert(ids[b] == new_ids[b]);
            }
        }
    }
}

/// What the winner of `amount` cents is told.
pub fn winner_message(amount: u64) -> (text: String)
    ensures
        text@ == winner_text(amount as nat),
{
    let mut text = String::from_str("You won $");
    push_fixed_amount(&mut text, amount);
    text.append("!");
    text
}

/// What the loser is told.
pub fn loser_message() -> (text: String)
    ensures
        text@ == loser_text(),
{
    String::from_str("You lost. Better luck next time!")
}

/// What those who watch are told when `winner` has won `amount` cents.
pub fn result_message(winner: &str, amount: u64) -> (text: String)
    ensures
        text@ == result_text(winner@, amount as nat),
{
    let mut text = String::from_str("Player ");
    text.append(winner);
    text.append(" won $");
    push_fixed_amount(&mut text, amount);
    text.append("!");
    text
}

/// The answer to a request to join that was refused: the reason, for the
/// connection that made the request.
pub fn join_refusal(reason: JoinGameError, connection: i32) -> (delivery: Delivery)
    ensures
        delivery@ == (DeliveryView { recipients: seq![connection], text: refusal_text(reason) }),
{
    let text = match reason {
        JoinGameError::GameNotFound => String::from_str("Game not found"),
        JoinGameError::AlreadyJoined => String::from_str("You are already in this game"),
        JoinGameError::GameFull => String::from_str("Game is full"),
    };
    single(connection, text)
}

/// A delivery of `text` to the connection `to` alone.
fn single(to: i32, text: String) -> (delivery: Delivery)
    ensures
        delivery@ == (DeliveryView { recipients: seq![to], text: text@ }),
{
    let mut recipients: Vec<i32> = Vec::new();
    recipients.push(to);
    assert(recipients@ =~= seq![to]);
    Delivery { recipients, text }
}

impl Player {
    /// A copy of this entry.
    pub fn copy(&self) -> (copy: Player)
        ensures
            copy@ == self@,
    {
        Player { id: self.id, name: self.name.clone(), connection: self.connection }
    }
}

impl CoinflipGame {
    /// A game under the name `id` with the stake `amount`, in cents, opened
    /// by `player`.
    pub fn new(id: String, amount: u64, player: Player) -> (game: CoinflipGame)
        ensures
            game@.wf(),
            game@ == (CoinflipGameView {
                id: id@,
                spectators: Seq::empty(),
                players: seq![player@],
                amount,
            }),
    {
        let mut players: Vec<Player> = Vec::new();
        players.push(player);
        let game = CoinflipGame { id, spectators: Registry::new(), players, amount };
        assert(game@.players =~= seq![player@]);
        assert(player_ids(game@.players) =~= seq![player.id]);
        game
    }

    /// The name of the game.
    pub fn id(&self) -> (id: &String)
        ensures
            id@ == self@.id,
    {
        &self.id
    }

    /// The stake, in cents.
    pub fn amount(&self) -> (amount: u64)
        ensures
            amount == self@.amount,
    {
        self.amount
    }

    /// The players, in the order in which they came.
    pub fn players(&self) -> (entries: Vec<Player>)
        ensures
            entries_of(entries@) == self@.players,
    {
        let mut entries: Vec<Player> = Vec::new();
        let mut i: usize = 0;
        while i < self.players.len()
            invariant
                i <= self.players.len(),
                entries@.len() == i,
                forall|j: int| 0 <= j < i ==> entries@[j]@ == self.players@[j]@,
            decreases self.players.len() - i,
        {
            entries.push(self.players[i].copy());
            i += 1;
        }
        assert(entries_of(entries@) =~= self@.players);
        entries
    }

    /// Those who watch the game, in the order in which they came.
    pub fn spectators(&self) -> (ids: Vec<i32>)
        ensures
            ids@ == self@.spectators,
    {
        self.spectators.members()
    }

    /// Whether the player `id` is in the game.
    pub fn has_player(&self, id: usize) -> (present: bool)
        ensures
            present == player_ids(self@.players).contains(id),
    {
        let mut i: usize = 0;
        while i < self.players.len()
            invariant
                i <= self.players.len(),
                forall|j: int| 0 <= j < i ==> self.players@[j].id != id,
            decreases self.players.len() - i,
        {
            if self.players[i].id == id {
                assert(player_ids(self@.players)[i as int] == id);
                return true;
            }
            i += 1;
        }
        assert forall|j: int| 0 <= j < player_ids(self@.players).len() implies player_ids(
            self@.players,
        )[j] != id by {}
        false
    }

    /// Adds a connection to those who watch.
    pub fn watch(&mut self, user_id: i32)
        requires
            old(self)@.wf(),
        ensures
            final(self)@.wf(),
            final(self)@ == (CoinflipGameView {
                spectators: with_member(old(self)@.spectators, user_id),
                ..old(self)@
            }),
    {
        self.spectators.register(user_id);
    }

    /// Takes a connection out of those who watch.
    pub fn unwatch(&mut self, user_id: i32)
        requires
            old(self)@.wf(),
        ensures
            final(self)@.wf(),
            final(self)@ == (CoinflipGameView {
                spectators: without(old(self)@.spectators, user_id),
                ..old(self)@
            }),
    {
        self.spectators.unregister(user_id);
    }

    /// Lets `player` join. A player who is in the game already is refused,
    /// and so is anybody once the game has its two players; a refusal
    /// changes nothing.
    pub fn join(&mut self, player: Player) -> (outcome: Result<(), JoinGameError>)
        requires
            old(self)@.wf(),
        ensures
            final(self)@.wf(),
            outcome == old(self)@.join_outcome(player@),
            final(self)@ == old(self)@.after_join(player@),
    {
        proof {
            lemma_join_keeps_wf(self@, player@);
        }
        if self.has_player(player.id) {
            return Err(JoinGameError::AlreadyJoined);
        }
        if self.players.len() >= 2 {
            return Err(JoinGameError::GameFull);
        }
        self.players.push(player);
        assert(self@.players =~= old(self)@.players.push(player@));
        Ok(())
    }

    /// One text for the players and for those who watch.
    pub fn handle_message(&self, text: String) -> (delivery: Delivery)
        ensures
            delivery@ == (DeliveryView { recipients: self@.audience(), text: text@ }),
    {
        let mut recipients: Vec<i32> = Vec::new();
        let mut i: usize = 0;
        while i < self.players.len()
            invariant
                i <= self.players.len(),
                recipients@.len() == i,
                forall|j: int| 0 <= j < i ==> recipients@[j] == self.players@[j].connection,
            decreases self.players.len() - i,
        {
            recipients.push(self.players[i].connection);
            i += 1;
        }
        let mut watchers = self.spectators.members();
        let ghost front = recipients@;
        recipients.append(&mut watchers);
        assert(recipients@ =~= self@.audience());
        Delivery { recipients, text }
    }

    /// Settles a game of two for the draw `draw`: the winner and the loser
    /// get their messages, and those who watch get the result.
    pub fn resolve(&self, draw: u64) -> (deliveries: Vec<Delivery>)
        requires
            self@.wf(),
            self@.players.len() == 2,
        ensures
            deliveries_of(deliveries@) == self@.settlement(draw),
    {
        let place: usize = if draw % 2 == 0 {
            0
        } else {
            1
        };
        let winner = &self.players[place];
        let loser = &self.players[1 - place];
        let mut deliveries: Vec<Delivery> = Vec::new();
        deliveries.push(single(winner.connection, winner_message(self.amount)));
        deliveries.push(single(loser.connection, loser_message()));
        deliveries.push(
            self.spectators.fan_out(result_message(winner.name.as_str(), self.amount)),
        );
        assert(deliveries_of(deliveries@) =~= self@.settlement(draw));
        deliveries
    }

    /// Flips the coin for a game of two and settles it. A game that still
    /// waits for its second player is left alone.
    pub fn start_game(&self) -> (deliveries: Vec<Delivery>)
        requires
            self@.wf(),
        ensures
            self@.players.len() == 2 ==> exists|draw: u64|
                draw < 2 && deliveries_of(deliveries@) == #[trigger] self@.settlement(draw),
            self@.players.len() != 2 ==> deliveries@.len() == 0,
    {
        if self.players.len() == 2 {
            let draw = random_below(2);
            let deliveries = self.resolve(draw);
            assert(draw < 2 && deliveries_of(deliveries@) == self@.settlement(draw));
            deliveries
        } else {
            Vec::new()
        }
    }
}

} // verus!
