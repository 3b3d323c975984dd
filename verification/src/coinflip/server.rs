//! The hub of coinflip: the lobby, and the games that wait for their second
//! player.
//!
//! A game is opened under a fresh name and announced to the lobby. When a
//! second player joins, the coin is flipped, the two players and those who
//! watch are told, and the game is gone: a later request to join it finds
//! nothing under its name.

use vstd::prelude::*;
use vstd::string::*;

use crate::coinflip::game::{
    player_ids, CoinflipGame, CoinflipGameView, JoinGameError, Player, PlayerView,
};
use crate::hub::{
    deliveries_of, fan_out_for, with_member, without, without_all, Delivery, DeliveryView,
    Registry,
};
use crate::fairness::random_below;
use crate::ids::fresh_id;
use crate::money::{decimal, fraction_amount_text, push_decimal, push_fraction_amount};
use crate::wire::{
    json_quote, json_quoted, object_of_three, object_of_two, three_member_object,
    two_member_object,
};

verus! {

/// A structured message of coinflip: its kind, and its contents as JSON.
#[derive(Debug)]
pub struct JsonResponse {
    pub message_type: String,
    /// The contents, written as JSON already.
    pub payload: String,
}

/// What goes to the connections of the coinflip hub.
#[derive(Debug)]
pub enum ClientMessage {
    /// A text that is sent as it is.
    Text(String),
    /// A structured message, sent as a JSON object.
    Json(JsonResponse),
}

/// A connection has been opened; `session_id` names the game that it wants
/// to watch, if any.
#[derive(Debug)]
pub struct Connect {
    pub session_id: String,
    pub user_id: i32,
}

/// A connection has been closed.
#[derive(Debug)]
pub struct Disconnect {
    pub session_id: String,
    pub user_id: i32,
}

/// A request to open a game with the stake `amount`, in cents.
#[derive(Debug)]
pub struct AddGame {
    pub amount: u64,
    pub player: Player,
}

/// A request to join the game `gameid`.
#[derive(Debug)]
pub struct JoinGame {
    pub gameid: String,
    pub player: Player,
}

/// What a connection sends to join a game.
#[derive(Debug)]
pub struct JoinPayload {
    pub user_id: usize,
    pub game_id: String,
}

/// The request to join that a connection makes with `payload`. `name` is the
/// name behind the connection; a connection without a name makes no request.
pub fn join_request(payload: JoinPayload, name: Option<String>, connection: i32) -> (request:
    Option<JoinGame>)
    ensures
        match name {
            None => request is None,
            Some(player_name) => request matches Some(join) && join.gameid@ == payload.game_id@
                && join.player@ == (PlayerView {
                id: payload.user_id,
                name: player_name@,
                connection,
            }),
        },
{
    match name {
        None => None,
        Some(player_name) => Some(
            JoinGame {
                gameid: payload.game_id,
                player: Player { id: payload.user_id, name: player_name, connection },
            },
        ),
    }
}

/// The names of `games`, in order.
pub open spec fn game_ids(games: Seq<CoinflipGameView>) -> Seq<Seq<char>> {
    Seq::new(games.len(), |i: int| games[i].id)
}

/// What each game of `games` holds.
pub open spec fn games_of(games: Seq<CoinflipGame>) -> Seq<CoinflipGameView> {
    Seq::new(games.len(), |i: int| games[i]@)
}

/// The JSON object that carries a structured message of the kind
/// `message_type` with the contents `payload`.
pub open spec fn response_wire(message_type: Seq<char>, payload: Seq<char>) -> Seq<char> {
    object_of_two("message_type"@, json_quoted(message_type), "payload"@, payload)
}

/// The contents of the announcement of a game: the stake, the name of the
/// game, and who has opened it.
pub open spec fn new_game_payload(id: Seq<char>, amount: u64, player: PlayerView) -> Seq<char> {
    object_of_three(
        "amount"@,
        fraction_amount_text(amount as nat),
        "game_id"@,
        json_quoted(id),
        "player"@,
        object_of_two("id"@, decimal(player.id as nat), "name"@, json_quoted(player.name)),
    )
}

/// The wire text of the announcement of a game.
pub open spec fn new_game_wire(id: Seq<char>, amount: u64, player: PlayerView) -> Seq<char> {
    response_wire("new_game"@, new_game_payload(id, amount, player))
}

/// The wire text of a message to the hub.
pub open spec fn message_wire(msg: ClientMessage) -> Seq<char> {
    match msg {
        ClientMessage::Text(text) => text@,
        ClientMessage::Json(response) => response_wire(
            response.message_type@,
            response.payload@,
        ),
    }
}

/// The state of the hub: the lobby, and the open games in the order in which
/// they were opened.
pub ghost struct CoinflipServerView {
    pub spectators: Seq<i32>,
    pub sessions: Seq<CoinflipGameView>,
}

impl CoinflipServerView {
    /// The invariant of the hub: nobody stands in the lobby twice, every
    /// game is well formed and waits for its second player, and no two
    /// games have one name.
    pub open spec fn wf(self) -> bool {
        &&& self.spectators.no_duplicates()
        &&& game_ids(self.sessions).no_duplicates()
        &&& forall|i: int|
            0 <= i < self.sessions.len() ==> (#[trigger] self.sessions[i]).wf()
                && self.sessions[i].is_open()
    }

    /// Whether a game is open under the name `id`.
    pub open spec fn has_game(self, id: Seq<char>) -> bool {
        game_ids(self.sessions).contains(id)
    }

    /// The place of the game `id` among the open games.
    pub open spec fn place_of(self, id: Seq<char>) -> int {
        game_ids(self.sessions).index_of(id)
    }

    /// The state after a game has been opened under the name `id`; a name
    /// that is in use changes nothing.
    pub open spec fn after_add(self, id: Seq<char>, amount: u64, player: PlayerView)
        -> CoinflipServerView {
        if self.has_game(id) {
            self
        } else {
            CoinflipServerView {
                spectators: self.spectators,
                sessions: self.sessions.push(
                    CoinflipGameView {
                        id,
                        spectators: Seq::empty(),
                        players: seq![player],
                        amount,
                    },
                ),
            }
        }
    }

    /// The answer to a request of `player` to join the game `id`.
    pub open spec fn join_outcome(self, id: Seq<char>, player: PlayerView) -> Result<
        (),
        JoinGameError,
    > {
        if !self.has_game(id) {
            Err(JoinGameError::GameNotFound)
        } else {
            self.sessions[self.place_of(id)].join_outcome(player)
        }
    }

    /// The state after a request of `player` to join the game `id`: a game
    /// that has got its second player is settled and gone.
    pub open spec fn after_join(self, id: Seq<char>, player: PlayerView) -> CoinflipServerView {
        if self.join_outcome(id, player) is Ok {
            CoinflipServerView {
                spectators: self.spectators,
                sessions: self.sessions.remove(self.place_of(id)),
            }
        } else {
            self
        }
    }

    /// The deliveries that settle the game `id` once `player` has joined it,
    /// for the draw `draw`.
    pub open spec fn join_settlement(self, id: Seq<char>, player: PlayerView, draw: u64) -> Seq<
        DeliveryView,
    > {
        self.sessions[self.place_of(id)].after_join(player).settlement(draw)
    }

    /// The state after the connection `user_id` has been opened: it stands
    /// in the lobby once, and every game is as it was.
    pub open spec fn after_connect(self, user_id: i32) -> CoinflipServerView {
        CoinflipServerView {
            spectators: with_member(self.spectators, user_id),
            sessions: self.sessions,
        }
    }

    /// The state after the connection `user_id` has been closed: it is gone
    /// from the lobby, and every game is as it was.
    pub open spec fn after_disconnect(self, user_id: i32) -> CoinflipServerView {
        CoinflipServerView {
            spectators: without(self.spectators, user_id),
            sessions: self.sessions,
        }
    }

    /// The open games after the spectators of the game `id` have become
    /// `watchers`; every other game is as it was.
    pub open spec fn with_watchers(self, id: Seq<char>, watchers: Seq<i32>) -> Seq<
        CoinflipGameView,
    > {
        let i = self.place_of(id);
        self.sessions.update(i, CoinflipGameView { spectators: watchers, ..self.sessions[i] })
    }

    /// The state after the connection `user_id` has asked to watch the game
    /// `id`. Where no game is open under this name, nothing changes.
    pub open spec fn after_watch(self, id: Seq<char>, user_id: i32) -> CoinflipServerView {
        if self.has_game(id) {
            CoinflipServerView {
                spectators: self.spectators,
                sessions: self.with_watchers(
                    id,
                    with_member(self.sessions[self.place_of(id)].spectators, user_id),
                ),
            }
        } else {
            self
        }
    }

    /// The state after the connection `user_id` has stopped watching the
    /// game `id`. Where no game is open under this name, nothing changes.
    pub open spec fn after_unwatch(self, id: Seq<char>, user_id: i32) -> CoinflipServerView {
        if self.has_game(id) {
            CoinflipServerView {
                spectators: self.spectators,
                sessions: self.with_watchers(
                    id,
                    without(self.sessions[self.place_of(id)].spectators, user_id),
                ),
            }
        } else {
            self
        }
    }
}

/// The hub of coinflip.
pub struct CoinflipServer {
    spectators: Registry,
    sessions: Vec<CoinflipGame>,
}

impl View for CoinflipServer {
    type V = CoinflipServerView;

    closed spec fn view(&self) -> CoinflipServerView {
        CoinflipServerView { spectators: self.spectators@, sessions: games_of(self.sessions@) }
    }
}

/// A request to join is refused without any change where the game is not
/// there, where the player is in it already, and where it has its two
/// players; otherwise the game is settled and gone.
pub proof fn lemma_refused_join_changes_nothing(
    state: CoinflipServerView,
    id: Seq<char>,
    player: PlayerView,
)
    requires
        state.wf(),
    ensures
        state.join_outcome(id, player) is Err ==> state.after_join(id, player) == state,
        state.has_game(id) && player_ids(state.sessions[state.place_of(id)].players).contains(
            player.id,
        ) ==> state.join_outcome(id, player) is Err,
        state.has_game(id) && state.sessions[state.place_of(id)].players.len() == 2
            ==> state.join_outcome(id, player) is Err,
        state.join_outcome(id, player) is Ok ==> !state.after_join(id, player).has_game(id),
        state.after_join(id, player).wf(),
{
    if state.join_outcome(id, player) is Ok {
        let ids = game_ids(state.sessions);
        let i = ids.index_of(id);
        let after = state.after_join(id, player);
        let new_ids = game_ids(after.sessions);
        assert(new_ids =~= ids.remove(i));
        assert forall|k: int| 0 <= k < new_ids.len() implies new_ids[k] != id by {
            if k < i {
                assert(new_ids[k] == ids[k]);
            } else {
                assert(new_ids[k] == ids[k + 1]);
            }
        }
        assert forall|k: int| 0 <= k < after.sessions.len() implies (
        #[trigger] after.sessions[k]).wf() && after.sessions[k].is_open() by {
            if k < i {
                assert(after.sessions[k] == state.sessions[k]);
            } else {
                assert(after.sessions[k] == state.sessions[k + 1]);
            }
        }
    }
}

impl JsonResponse {
    /// The JSON object `{"message_type":..,"payload":..}` for this message.
    pub fn to_wire(&self) -> (text: String)
        ensures
            text@ == response_wire(self.message_type@, self.payload@),
    {
        let kind = json_quote(self.message_type.as_str());
        two_member_object("message_type", kind.as_str(), "payload", self.payload.as_str())
    }
}

/// The announcement of the game `id` with the stake `amount`, opened by
/// `player`.
pub fn new_game_message(id: &str, amount: u64, player: &Player) -> (message: JsonResponse)
    ensures
        message.message_type@ == "new_game"@,
        message.payload@ == new_game_payload(id@, amount, player@),
{
    let game_id = json_quote(id);
    let name = json_quote(player.name.as_str());
    let mut number = String::new();
    push_decimal(&mut number, player.id as u64);
    assert(number@ =~= decimal(player.id as nat));
    let mut stake = String::new();
    push_fraction_amount(&mut stake, amount);
    assert(stake@ =~= fraction_amount_text(amount as nat));
    let opener = two_member_object("id", number.as_str(), "name", name.as_str());
    let payload = three_member_object(
        "amount",
        stake.as_str(),
        "game_id",
        game_id.as_str(),
        "player",
        opener.as_str(),
    );
    JsonResponse { message_type: String::from_str("new_game"), payload }
}

impl CoinflipServer {
    /// A hub with an empty lobby and without games.
    pub fn new() -> (server: CoinflipServer)
        ensures
            server@.spectators == Seq::<i32>::empty(),
            server@.sessions == Seq::<CoinflipGameView>::empty(),
            server@.wf(),
    {
        let server = CoinflipServer { spectators: Registry::new(), sessions: Vec::new() };
        assert(server@.sessions =~= Seq::<CoinflipGameView>::empty());
        assert(game_ids(server@.sessions) =~= Seq::<Seq<char>>::empty());
        server
    }

    /// The connections in the lobby, in order.
    pub fn lobby(&self) -> (ids: Vec<i32>)
        ensures
            ids@ == self@.spectators,
    {
        self.spectators.members()
    }

    /// The number of open games.
    pub fn open_games(&self) -> (count: usize)
        ensures
            count == self@.sessions.len(),
    {
        self.sessions.len()
    }

    /// The place of the game `id` among the open games, if it is open.
    fn find_game(&self, id: &String) -> (found: Option<usize>)
        ensures
            match found {
                Some(i) => i < self@.sessions.len() && self@.sessions[i as int].id == id@,
                None => !self@.has_game(id@),
            },
    {
        let mut i: usize = 0;
        while i < self.sessions.len()
            invariant
                i <= self.sessions.len(),
                forall|j: int| 0 <= j < i ==> self.sessions@[j]@.id != id@,
            decreases self.sessions.len() - i,
        {
            if *self.sessions[i].id() == *id {
                return Some(i);
            }
            i += 1;
        }
        assert forall|j: int| 0 <= j < game_ids(self@.sessions).len() implies game_ids(
            self@.sessions,
        )[j] != id@ by {}
        None
    }

    /// The game `id`, if it is open.
    pub fn game(&self, id: &String) -> (game: Option<&CoinflipGame>)
        requires
            self@.wf(),
        ensures
            match game {
                Some(g) => self@.has_game(id@) && g@ == self@.sessions[self@.place_of(id@)],
                None => !self@.has_game(id@),
            },
    {
        match self.find_game(id) {
            Some(i) => {
                proof {
                    let ids = game_ids(self@.sessions);
                    assert(ids[i as int] == id@);
                }
                Some(&self.sessions[i])
            },
            None => None,
        }
    }

    /// Registers a connection in the lobby. One that is known already
    /// stays where it is, and no game is touched.
    pub fn handle_connect(&mut self, msg: Connect)
        requires
            old(self)@.wf(),
        ensures
            final(self)@.wf(),
            final(self)@ == old(self)@.after_connect(msg.user_id),
            final(self)@.sessions == old(self)@.sessions,
    {
        self.spectators.register(msg.user_id);
    }

    /// Takes a connection out of the lobby. An unknown one changes nothing,
    /// and no game is touched.
    pub fn handle_disconnect(&mut self, msg: Disconnect)
        requires
            old(self)@.wf(),
        ensures
            final(self)@.wf(),
            final(self)@ == old(self)@.after_disconnect(msg.user_id),
            final(self)@.sessions == old(self)@.sessions,
    {
        self.spectators.unregister(msg.user_id);
    }

    /// Takes the connections whose sink did not take a text out of the
    /// lobby. The others stay as they are, in their order, and no game is
    /// touched.
    pub fn handle_failed(&mut self, failed: &Vec<i32>)
        requires
            old(self)@.wf(),
        ensures
            final(self)@.wf(),
            final(self)@.spectators == without_all(old(self)@.spectators, failed@),
            forall|k: int|
                0 <= k < failed@.len() ==> !final(self)@.spectators.contains(
                    #[trigger] failed@[k],
                ),
            final(self)@.sessions == old(self)@.sessions,
    {
        self.spectators.unregister_all(failed);
    }

    /// Adds a connection to those who watch the game `gameid` and says
    /// whether such a game is open. The lobby and the other games stay as
    /// they are.
    pub fn watch_game(&mut self, gameid: &String, user_id: i32) -> (found: bool)
        requires
            old(self)@.wf(),
        ensures
            final(self)@.wf(),
            found == old(self)@.has_game(gameid@),
            final(self)@ == old(self)@.after_watch(gameid@, user_id),
    {
        match self.find_game(gameid) {
            Some(i) => {
                proof {
                    let ids = game_ids(self@.sessions);
                    assert(ids[i as int] == gameid@);
                    assert(self@.sessions[i as int].wf());
                }
                self.sessions[i].watch(user_id);
                assert(self@.sessions =~= old(self)@.after_watch(gameid@, user_id).sessions);
                assert(game_ids(self@.sessions) =~= game_ids(old(self)@.sessions));
                assert forall|k: int| 0 <= k < self@.sessions.len() implies (
                #[trigger] self@.sessions[k]).wf() && self@.sessions[k].is_open() by {
                    assert(old(self)@.sessions[k].wf());
                }
                true
            },
            None => false,
        }
    }

    /// Takes a connection out of those who watch the game `gameid` and says
    /// whether such a game is open. The lobby and the other games stay as
    /// they are.
    pub fn unwatch_game(&mut self, gameid: &String, user_id: i32) -> (found: bool)
        requires
            old(self)@.wf(),
        ensures
            final(self)@.wf(),
            found == old(self)@.has_game(gameid@),
            final(self)@ == old(self)@.after_unwatch(gameid@, user_id),
    {
        match self.find_game(gameid) {
            Some(i) => {
                proof {
                    let ids = game_ids(self@.sessions);
                    assert(ids[i as int] == gameid@);
                    assert(self@.sessions[i as int].wf());
                }
                self.sessions[i].unwatch(user_id);
                assert(self@.sessions =~= old(self)@.after_unwatch(gameid@, user_id).sessions);
                assert(game_ids(self@.sessions) =~= game_ids(old(self)@.sessions));
                assert forall|k: int| 0 <= k < self@.sessions.len() implies (
                #[trigger] self@.sessions[k]).wf() && self@.sessions[k].is_open() by {
                    assert(old(self)@.sessions[k].wf());
                }
                true
            },
            None => false,
        }
    }

    /// Sends a message to the lobby: a text as it is, a structured message
    /// as its JSON object.
    pub fn handle_message(&self, msg: ClientMessage) -> (deliveries: Vec<Delivery>)
        ensures
            deliveries_of(deliveries@) == fan_out_for(self@.spectators, message_wire(msg)),
    {
        let wire = match msg {
            ClientMessage::Text(text) => text,
            ClientMessage::Json(response) => response.to_wire(),
        };
        let mut deliveries: Vec<Delivery> = Vec::new();
        self.spectators.push_fan_out(&mut deliveries, wire);
        assert(deliveries_of(deliveries@) =~= fan_out_for(self@.spectators, message_wire(msg)));
        deliveries
    }

    /// Opens a game under the name `id` and announces it to the lobby. A
    /// name that is in use is refused with `None` and changes nothing.
    pub fn add_game_with_id(&mut self, id: String, msg: AddGame) -> (deliveries: Option<
        Vec<Delivery>,
    >)
        requires
            old(self)@.wf(),
        ensures
            final(self)@.wf(),
            final(self)@ == old(self)@.after_add(id@, msg.amount, msg.player@),
            match deliveries {
                Some(sent) => {
                    &&& !old(self)@.has_game(id@)
                    &&& deliveries_of(sent@) == fan_out_for(
                        old(self)@.spectators,
                        new_game_wire(id@, msg.amount, msg.player@),
                    )
                },
                None => old(self)@.has_game(id@),
            },
    {
        match self.find_game(&id) {
            Some(i) => {
                assert(game_ids(self@.sessions)[i as int] == id@);
                return None;
            },
            None => {},
        }
        let wire = new_game_message(id.as_str(), msg.amount, &msg.player).to_wire();
        let mut deliveries: Vec<Delivery> = Vec::new();
        self.spectators.push_fan_out(&mut deliveries, wire);
        assert(deliveries_of(deliveries@) =~= fan_out_for(
            old(self)@.spectators,
            new_game_wire(id@, msg.amount, msg.player@),
        ));
        let game = CoinflipGame::new(id, msg.amount, msg.player);
        self.sessions.push(game);
        proof {
            let before = old(self)@;
            let after = before.after_add(id@, msg.amount, msg.player@);
            assert(self@.sessions =~= after.sessions);
            let ids = game_ids(before.sessions);
            let new_ids = game_ids(self@.sessions);
            assert forall|a: int, b: int|
                0 <= a < new_ids.len() && 0 <= b < new_ids.len() && a != b implies new_ids[a]
                != new_ids[b] by {
                if a < ids.len() {
                    assert(ids[a] == new_ids[a]);
                }
                if b < ids.len() {
                    assert(ids[b] == new_ids[b]);
                }
            }
            assert forall|k: int| 0 <= k < self@.sessions.len() implies (
            #[trigger] self@.sessions[k]).wf() && self@.sessions[k].is_open() by {
                if k < before.sessions.len() {
                    assert(before.sessions[k].wf());
                }
            }
        }
        Some(deliveries)
    }

    /// Opens a game under a fresh name and announces it to the lobby: what
    /// `add_game_with_id` does for the name that has been drawn. A name that
    /// is free opens the game, so a hub without open games always opens it;
    /// a name that is in use changes nothing and gives `None`.
    pub fn handle_add_game(&mut self, msg: AddGame) -> (deliveries: Option<Vec<Delivery>>)
        requires
            old(self)@.wf(),
        ensures
            final(self)@.wf(),
            exists|id: Seq<char>|
                #![trigger old(self)@.after_add(id, msg.amount, msg.player@)]
                {
                    &&& final(self)@ == old(self)@.after_add(id, msg.amount, msg.player@)
                    &&& match deliveries {
                        Some(sent) => {
                            &&& !old(self)@.has_game(id)
                            &&& deliveries_of(sent@) == fan_out_for(
                                old(self)@.spectators,
                                new_game_wire(id, msg.amount, msg.player@),
                            )
                        },
                        None => old(self)@.has_game(id),
                    }
                },
            old(self)@.sessions.len() == 0 ==> deliveries is Some,
            deliveries is None ==> final(self)@ == old(self)@,
    {
        let id = fresh_id();
        let ghost name = id@;
        let ghost amount = msg.amount;
        let ghost player = msg.player@;
        let deliveries = self.add_game_with_id(id, msg);
        proof {
            assert(self@ == old(self)@.after_add(name, amount, player));
            if old(self)@.sessions.len() == 0 {
                assert(game_ids(old(self)@.sessions) =~= Seq::<Seq<char>>::empty());
                assert(!old(self)@.has_game(name));
            }
        }
        deliveries
    }

    /// Lets a player join a game and settles it for the draw `draw`. The
    /// request is refused where no game is open under this name and where
    /// the player is in the game already; a refusal changes nothing. A game
    /// that is settled is gone.
    pub fn join_with_draw(&mut self, msg: JoinGame, draw: u64) -> (outcome: Result<
        Vec<Delivery>,
        JoinGameError,
    >)
        requires
            old(self)@.wf(),
        ensures
            final(self)@.wf(),
            final(self)@ == old(self)@.after_join(msg.gameid@, msg.player@),
            match outcome {
                Ok(sent) => {
                    &&& old(self)@.join_outcome(msg.gameid@, msg.player@) is Ok
                    &&& deliveries_of(sent@) == old(self)@.join_settlement(
                        msg.gameid@,
                        msg.player@,
                        draw,
                    )
                },
                Err(reason) => old(self)@.join_outcome(msg.gameid@, msg.player@) == Err::<
                    (),
                    JoinGameError,
                >(reason),
            },
    {
        proof {
            lemma_refused_join_changes_nothing(self@, msg.gameid@, msg.player@);
        }
        let place = match self.find_game(&msg.gameid) {
            Some(i) => i,
            None => {
                return Err(JoinGameError::GameNotFound);
            },
        };
        proof {
            let ids = game_ids(self@.sessions);
            assert(ids[place as int] == msg.gameid@);
            assert(self@.sessions[place as int].wf());
        }
        if self.sessions[place].has_player(msg.player.id) {
            return Err(JoinGameError::AlreadyJoined);
        }
        let mut game = self.sessions.remove(place);
        assert(games_of(self.sessions@) =~= old(self)@.sessions.remove(place as int));
        let joined = game.join(msg.player);
        assert(joined is Ok);
        Ok(game.resolve(draw))
    }

    /// Lets a player join a game; with the second player the coin is
    /// flipped and the game is settled.
    pub fn handle_join_game(&mut self, msg: JoinGame) -> (outcome: Result<
        Vec<Delivery>,
        JoinGameError,
    >)
        requires
            old(self)@.wf(),
        ensures
            final(self)@.wf(),
            final(self)@ == old(self)@.after_join(msg.gameid@, msg.player@),
            match outcome {
                Ok(sent) => {
                    &&& old(self)@.join_outcome(msg.gameid@, msg.player@) is Ok
                    &&& exists|draw: u64|
                        draw < 2 && deliveries_of(sent@) == #[trigger] old(self)@.join_settlement(
                            msg.gameid@,
                            msg.player@,
                            draw,
                        )
                },
                Err(reason) => old(self)@.join_outcome(msg.gameid@, msg.player@) == Err::<
                    (),
                    JoinGameError,
                >(reason),
            },
    {
        let draw = random_below(2);
        let ghost gameid = msg.gameid@;
        let ghost player = msg.player@;
        let outcome = self.join_with_draw(msg, draw);
        proof {
            if outcome is Ok {
                let sent = outcome->Ok_0;
                assert(draw < 2 && deliveries_of(sent@) == old(self)@.join_settlement(
                    gameid,
                    player,
                    draw,
                ));
            }
        }
        outcome
    }
}

} // verus!
