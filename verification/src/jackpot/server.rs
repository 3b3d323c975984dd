//! The hub of the jackpot game: the connections, the session, and what is
//! said to everybody when somebody joins, the countdown starts and the
//! winner is drawn.
//!
//! The first deposit opens a session. With the second participant a
//! countdown of 15 seconds starts; deposits that come while it runs are taken
//! and take part in the draw. When the countdown ends the winner is drawn,
//! announced together with the total, and the session is closed.

use vstd::prelude::*;
use vstd::string::*;

use crate::hub::{
    deliveries_of, fan_out_all, fan_out_for, lemma_fan_out_all_push, reply_for, with_member,
    without, without_all, Delivery, DeliveryView, Registry,
};
use crate::jackpot::session::{
    depositor_ids, lemma_deposit_keeps_wf, total_of, wins, GameSession, GameSessionView, Player,
    PlayerView,
};
use crate::money::{amount_text, push_amount};
use crate::timer::{TimerCommand, TimerEvent};
use crate::wire::{object_of_two_texts, two_text_object};

verus! {

/// The length of the countdown, in milliseconds.
pub const COUNTDOWN_MS: u64 = 15_000;

/// A message to the connections of the jackpot hub: a text and its kind.
#[derive(Debug)]
pub struct ClientMessage {
    pub msg: String,
    pub variant: String,
}

/// A deposit as it comes from a connection.
#[derive(Debug)]
pub struct Deposit {
    pub player: Player,
}

/// A connection has been opened.
#[derive(Clone, Copy, Debug)]
pub struct Connect {
    pub user_id: i32,
}

/// A connection has been closed.
#[derive(Clone, Copy, Debug)]
pub struct Disconnect {
    pub user_id: i32,
}

/// The notice to the bookkeeping that a deposit has been taken. The amount
/// is in cents.
#[derive(Clone, Copy, Debug, PartialEq, Eq, Structural)]
pub struct RecordDeposit {
    pub user_id: i32,
    pub amount: u64,
}

/// The phases of the jackpot.
#[derive(Clone, Copy, Debug, PartialEq, Eq, Structural)]
pub enum JackpotPhase {
    /// No session: nobody has deposited since the last draw.
    Idle,
    /// Deposits are collected and no countdown runs.
    Collecting,
    /// The countdown runs; deposits are still taken.
    CountingDown,
}

/// What a step of the hub hands out.
pub struct JackpotOutput {
    /// Texts to deliver, in order.
    pub deliveries: Vec<Delivery>,
    /// Requests to the timer scheduler, in order.
    pub timers: Vec<TimerCommand>,
    /// Notices to the bookkeeping, in order.
    pub records: Vec<RecordDeposit>,
}

/// The contents of a message, as texts.
pub ghost struct MessageText {
    pub msg: Seq<char>,
    pub variant: Seq<char>,
}

impl View for ClientMessage {
    type V = MessageText;

    open spec fn view(&self) -> MessageText {
        MessageText { msg: self.msg@, variant: self.variant@ }
    }
}

impl MessageText {
    /// The JSON object that carries this message.
    pub open spec fn wire_text(self) -> Seq<char> {
        object_of_two_texts("msg"@, self.msg, "variant"@, self.variant)
    }
}

/// The wire text of each message of `messages`.
pub open spec fn wires_of(messages: Seq<MessageText>) -> Seq<Seq<char>> {
    Seq::new(messages.len(), |i: int| messages[i].wire_text())
}

/// The message that the countdown has started.
pub open spec fn timer_start_text() -> MessageText {
    MessageText {
        msg: "The game timer has started. 15 seconds until the winner is chosen."@,
        variant: "timer_start"@,
    }
}

/// The message that names the winner and the prize: the sum of all deposits.
pub open spec fn winner_text(name: Seq<char>, total: nat) -> MessageText {
    MessageText {
        msg: name + " has won the jackpot of "@ + amount_text(total),
        variant: "winner"@,
    }
}

/// The message that somebody has deposited.
pub open spec fn player_join_text(name: Seq<char>, deposit: nat) -> MessageText {
    MessageText {
        msg: name + " has joined the game with a deposit of "@ + amount_text(deposit),
        variant: "player_join"@,
    }
}

/// The message that the session has been closed.
pub open spec fn reset_text() -> MessageText {
    MessageText { msg: "Resetting game!"@, variant: "reset"@ }
}

/// The answer to what cannot be taken as a deposit.
pub open spec fn invalid_payload_text() -> MessageText {
    MessageText { msg: "Invalid payload"@, variant: "error"@ }
}

impl ClientMessage {
    /// A message of the kind `variant` with the text `msg`.
    pub fn new(msg: &str, variant: &str) -> (message: ClientMessage)
        ensures
            message@ == (MessageText { msg: msg@, variant: variant@ }),
    {
        ClientMessage { msg: String::from_str(msg), variant: String::from_str(variant) }
    }

    /// The JSON object `{"msg":..,"variant":..}` for this message.
    pub fn to_wire(&self) -> (text: String)
        ensures
            text@ == self@.wire_text(),
    {
        two_text_object("msg", self.msg.as_str(), "variant", self.variant.as_str())
    }
}

/// The message that the countdown has started.
pub fn timer_start_message() -> (message: ClientMessage)
    ensures
        message@ == timer_start_text(),
{
    ClientMessage::new(
        "The game timer has started. 15 seconds until the winner is chosen.",
        "timer_start",
    )
}

/// The message that names the winner and the prize of `total` cents.
pub fn winner_message(name: &str, total: u64) -> (message: ClientMessage)
    ensures
        message@ == winner_text(name@, total as nat),
{
    let mut msg = String::from_str(name);
    msg.append(" has won the jackpot of ");
    push_amount(&mut msg, total);
    ClientMessage { msg, variant: String::from_str("winner") }
}

/// The message that `name` has deposited `deposit` cents.
pub fn player_join_message(name: &str, deposit: u64) -> (message: ClientMessage)
    ensures
        message@ == player_join_text(name@, deposit as nat),
{
    let mut msg = String::from_str(name);
    msg.append(" has joined the game with a deposit of ");
    push_amount(&mut msg, deposit);
    ClientMessage { msg, variant: String::from_str("player_join") }
}

/// The message that the session has been closed.
pub fn reset_message() -> (message: ClientMessage)
    ensures
        message@ == reset_text(),
{
    ClientMessage::new("Resetting game!", "reset")
}

/// The answer to what cannot be taken as a deposit.
pub fn invalid_payload_message() -> (message: ClientMessage)
    ensures
        message@ == invalid_payload_text(),
{
    ClientMessage::new("Invalid payload", "error")
}

/// The hub of the jackpot game.
pub struct JackpotServer {
    sessions: Registry,
    game_session: Option<GameSession>,
}

/// The state of the hub: the registered connections in order, and the
/// session while there is one.
pub ghost struct JackpotServerView {
    pub sessions: Seq<i32>,
    pub game_session: Option<GameSessionView>,
}

/// Whether `winner` may come out of a draw in `session`: a participant whose
/// span holds some draw, or nobody where the total is zero.
pub open spec fn is_fair_winner(session: GameSessionView, winner: Option<PlayerView>) -> bool {
    match winner {
        Some(player) => exists|i: int, roll: nat|
            wins(session.players, i, roll) && player == session.players[i],
        None => total_of(session.players) == 0,
    }
}

impl JackpotServerView {
    /// The invariant of the hub.
    pub open spec fn wf(self) -> bool {
        &&& self.sessions.no_duplicates()
        &&& self.game_session matches Some(session) ==> session.wf()
    }

    /// The phase of the jackpot.
    pub open spec fn phase(self) -> JackpotPhase {
        match self.game_session {
            None => JackpotPhase::Idle,
            Some(session) => if session.timer_started {
                JackpotPhase::CountingDown
            } else {
                JackpotPhase::Collecting
            },
        }
    }

    /// The session that a deposit goes to: the one there is, or a new one.
    pub open spec fn open_session(self) -> GameSessionView {
        match self.game_session {
            Some(session) => session,
            None => GameSessionView::empty(),
        }
    }

    /// The sum of all deposits; zero without a session.
    pub open spec fn prize(self) -> nat {
        total_of(self.open_session().players)
    }

    /// Whether a deposit by `player` is taken.
    pub open spec fn takes(self, player: PlayerView) -> bool {
        self.open_session().can_take(player)
    }

    /// Whether a deposit by `player` starts the countdown.
    pub open spec fn starts_countdown(self, player: PlayerView) -> bool {
        self.takes(player) && self.open_session().after_deposit(player).countdown_due()
    }

    /// The state after a deposit by `player`.
    pub open spec fn after_deposit(self, player: PlayerView) -> JackpotServerView {
        if self.takes(player) {
            JackpotServerView {
                sessions: self.sessions,
                game_session: Some(
                    self.open_session().after_deposit(player).after_countdown_start(),
                ),
            }
        } else {
            self
        }
    }

    /// What is said to everybody after a deposit by `player`: that the
    /// participant has joined, and that the countdown has started where it
    /// has.
    pub open spec fn deposit_messages(self, player: PlayerView) -> Seq<MessageText> {
        if !self.takes(player) {
            Seq::empty()
        } else if self.starts_countdown(player) {
            seq![player_join_text(player.name, player.deposit as nat), timer_start_text()]
        } else {
            seq![player_join_text(player.name, player.deposit as nat)]
        }
    }

    /// The deliveries of a deposit by `player`: the messages for everybody,
    /// or the refusal for the connection that sent the deposit.
    pub open spec fn deposit_deliveries(self, player: PlayerView) -> Seq<DeliveryView> {
        if self.takes(player) {
            fan_out_all(self.sessions, wires_of(self.deposit_messages(player)))
        } else {
            reply_for(self.sessions, player.user_id, invalid_payload_text().wire_text())
        }
    }

    /// The timer requests of a deposit by `player`.
    pub open spec fn deposit_timers(self, player: PlayerView) -> Seq<TimerCommand> {
        if self.starts_countdown(player) {
            seq![
                TimerCommand::After {
                    delay_ms: COUNTDOWN_MS,
                    event: TimerEvent::CountdownExpired,
                },
            ]
        } else {
            Seq::empty()
        }
    }

    /// The notices to the bookkeeping of a deposit by `player`.
    pub open spec fn deposit_records(self, player: PlayerView) -> Seq<RecordDeposit> {
        if self.takes(player) {
            seq![RecordDeposit { user_id: player.user_id, amount: player.deposit }]
        } else {
            Seq::empty()
        }
    }

    /// What is said to everybody when the draw has been made: who has won
    /// how much, where somebody has won, and that the session is closed.
    pub open spec fn settle_messages(self, winner: Option<PlayerView>) -> Seq<MessageText> {
        match winner {
            Some(player) => seq![winner_text(player.name, self.prize()), reset_text()],
            None => seq![reset_text()],
        }
    }
}

impl View for JackpotServer {
    type V = JackpotServerView;

    closed spec fn view(&self) -> JackpotServerView {
        JackpotServerView {
            sessions: self.sessions@,
            game_session: match self.game_session {
                Some(session) => Some(session@),
                None => None,
            },
        }
    }
}

/// What the hub is to do with a text that a connection has sent.
#[derive(Debug)]
pub enum DepositRequest {
    /// The connection has no account: what it sends is not looked at.
    Ignore,
    /// The text is no deposit: the connection is told so.
    Reject,
    /// The text is a deposit.
    Accept(Deposit),
}

/// Reads what the connection `user_id` has sent. `name` is the name of the
/// account behind the connection, if there is one, and `amount` the amount
/// in cents that the text asks to deposit, if it asks for one.
pub fn deposit_request(user_id: i32, name: Option<String>, amount: Option<u64>) -> (request:
    DepositRequest)
    ensures
        match (name, amount) {
            (None, _) => request is Ignore,
            (Some(_), None) => request is Reject,
            (Some(account), Some(cents)) => request matches DepositRequest::Accept(deposit)
                && deposit.player@ == (PlayerView {
                user_id,
                name: account@,
                deposit: cents,
            }),
        },
{
    match name {
        None => DepositRequest::Ignore,
        Some(account) => match amount {
            None => DepositRequest::Reject,
            Some(cents) => DepositRequest::Accept(
                Deposit { player: Player { user_id, name: account, deposit: cents } },
            ),
        },
    }
}

/// What an optional entry holds.
pub open spec fn entry_of(held: Option<Player>) -> Option<PlayerView> {
    match held {
        Some(player) => Some(player@),
        None => None,
    }
}

impl JackpotOutput {
    /// Nothing to deliver, to schedule or to record.
    pub open spec fn is_silent(&self) -> bool {
        self.deliveries@.len() == 0 && self.timers@.len() == 0 && self.records@.len() == 0
    }

    /// An output without deliveries, timer requests and notices.
    pub fn silent() -> (output: JackpotOutput)
        ensures
            output.is_silent(),
    {
        JackpotOutput { deliveries: Vec::new(), timers: Vec::new(), records: Vec::new() }
    }
}

impl JackpotServer {
    /// A hub without connections and without a session.
    pub fn new() -> (server: JackpotServer)
        ensures
            server@.sessions == Seq::<i32>::empty(),
            server@.game_session is None,
            server@.wf(),
    {
        JackpotServer { sessions: Registry::new(), game_session: None }
    }

    /// The registered connections, in order.
    pub fn connections(&self) -> (ids: Vec<i32>)
        ensures
            ids@ == self@.sessions,
    {
        self.sessions.members()
    }

    /// The session, while there is one.
    pub fn session(&self) -> (session: Option<&GameSession>)
        ensures
            match session {
                Some(s) => self@.game_session == Some(s@),
                None => self@.game_session is None,
            },
    {
        self.game_session.as_ref()
    }

    /// The phase of the jackpot.
    pub fn phase(&self) -> (phase: JackpotPhase)
        ensures
            phase == self@.phase(),
    {
        match &self.game_session {
            None => JackpotPhase::Idle,
            Some(session) => if session.timer_started() {
                JackpotPhase::CountingDown
            } else {
                JackpotPhase::Collecting
            },
        }
    }

    /// The sum of all deposits, in cents; zero without a session.
    pub fn prize(&self) -> (total: u64)
        requires
            self@.wf(),
        ensures
            total == self@.prize(),
    {
        match &self.game_session {
            Some(session) => session.total(),
            None => {
                assert(GameSessionView::empty().players.len() == 0);
                0
            },
        }
    }

    /// Registers a connection. One that is known already stays where it is.
    pub fn handle_connect(&mut self, msg: Connect)
        requires
            old(self)@.wf(),
        ensures
            final(self)@.wf(),
            final(self)@.sessions == with_member(old(self)@.sessions, msg.user_id),
            final(self)@.game_session == old(self)@.game_session,
    {
        self.sessions.register(msg.user_id);
    }

    /// Takes a connection out of the registry. An unknown one changes
    /// nothing.
    pub fn handle_disconnect(&mut self, msg: Disconnect)
        requires
            old(self)@.wf(),
        ensures
            final(self)@.wf(),
            final(self)@.sessions == without(old(self)@.sessions, msg.user_id),
            final(self)@.game_session == old(self)@.game_session,
    {
        self.sessions.unregister(msg.user_id);
    }

    /// Takes the connections whose sink did not take a text out of the
    /// registry. The others stay as they are, in their order, and the
    /// session is not touched.
    pub fn handle_failed(&mut self, failed: &Vec<i32>)
        requires
            old(self)@.wf(),
        ensures
            final(self)@.wf(),
            final(self)@.sessions == without_all(old(self)@.sessions, failed@),
            forall|k: int|
                0 <= k < failed@.len() ==> !final(self)@.sessions.contains(#[trigger] failed@[k]),
            final(self)@.game_session == old(self)@.game_session,
    {
        self.sessions.unregister_all(failed);
    }

    /// One message for every connection, as its JSON object.
    pub fn handle_message(&self, msg: ClientMessage) -> (deliveries: Vec<Delivery>)
        ensures
            deliveries_of(deliveries@) == fan_out_for(self@.sessions, msg@.wire_text()),
    {
        let mut deliveries: Vec<Delivery> = Vec::new();
        self.sessions.push_fan_out(&mut deliveries, msg.to_wire());
        assert(deliveries_of(deliveries@) =~= fan_out_for(self@.sessions, msg@.wire_text()));
        deliveries
    }

    /// Tells everybody that the countdown has started.
    pub fn notify_timer_start(&self) -> (deliveries: Vec<Delivery>)
        ensures
            deliveries_of(deliveries@) == fan_out_for(
                self@.sessions,
                timer_start_text().wire_text(),
            ),
    {
        self.handle_message(timer_start_message())
    }

    /// Tells everybody that `player` has won the prize: the sum of all
    /// deposits of the session.
    pub fn notify_winner(&self, player: Player) -> (deliveries: Vec<Delivery>)
        requires
            self@.wf(),
        ensures
            deliveries_of(deliveries@) == fan_out_for(
                self@.sessions,
                winner_text(player.name@, self@.prize()).wire_text(),
            ),
    {
        let total = self.prize();
        self.handle_message(winner_message(player.name.as_str(), total))
    }

    /// Tells everybody that `player` has deposited.
    pub fn notify_player_join(&self, player: &Player) -> (deliveries: Vec<Delivery>)
        ensures
            deliveries_of(deliveries@) == fan_out_for(
                self@.sessions,
                player_join_text(player.name@, player.deposit as nat).wire_text(),
            ),
    {
        self.handle_message(player_join_message(player.name.as_str(), player.deposit))
    }

    /// Closes the session and tells everybody.
    pub fn reset_game(&mut self) -> (deliveries: Vec<Delivery>)
        requires
            old(self)@.wf(),
        ensures
            final(self)@.wf(),
            final(self)@.sessions == old(self)@.sessions,
            final(self)@.game_session is None,
            deliveries_of(deliveries@) == fan_out_for(
                old(self)@.sessions,
                reset_text().wire_text(),
            ),
    {
        self.game_session = None;
        self.handle_message(reset_message())
    }

    /// Refuses what a connection has sent in place of a deposit. The
    /// refusal goes to that connection alone, and nothing changes.
    pub fn reject_payload(&self, user_id: i32) -> (deliveries: Vec<Delivery>)
        ensures
            deliveries_of(deliveries@) == reply_for(
                self@.sessions,
                user_id,
                invalid_payload_text().wire_text(),
            ),
    {
        let mut deliveries: Vec<Delivery> = Vec::new();
        self.sessions.push_reply(&mut deliveries, user_id, invalid_payload_message().to_wire());
        assert(deliveries_of(deliveries@) =~= reply_for(
            self@.sessions,
            user_id,
            invalid_payload_text().wire_text(),
        ));
        deliveries
    }

    /// Takes a deposit: opens a session where there is none, adds the
    /// deposit, tells everybody, and has the deposit recorded. With the
    /// second participant the countdown starts. A deposit with which the
    /// total would not fit in 64 bits is refused and changes nothing.
    pub fn handle_deposit(&mut self, msg: Deposit) -> (output: JackpotOutput)
        requires
            old(self)@.wf(),
        ensures
            final(self)@.wf(),
            final(self)@ == old(self)@.after_deposit(msg.player@),
            deliveries_of(output.deliveries@) == old(self)@.deposit_deliveries(msg.player@),
            output.timers@ == old(self)@.deposit_timers(msg.player@),
            output.records@ == old(self)@.deposit_records(msg.player@),
    {
        let ghost before = self@;
        let ghost entry = msg.player@;
        let mut output = JackpotOutput::silent();
        let player = msg.player;
        let user_id = player.user_id;
        let deposit = player.deposit;
        let name = player.name.clone();
        if self.game_session.is_none() {
            self.game_session = Some(GameSession::new());
        }
        let mut accepted = false;
        let mut begun = false;
        match &mut self.game_session {
            Some(session) => {
                proof {
                    lemma_deposit_keeps_wf(session@, entry);
                }
                accepted = session.add_player(player);
                if accepted {
                    begun = session.begin_countdown();
                }
            },
            None => {},
        }
        assert(accepted == before.takes(entry));
        assert(begun == before.starts_countdown(entry));
        let ghost join = player_join_text(entry.name, entry.deposit as nat).wire_text();
        let ghost none = Seq::<Seq<char>>::empty();
        if accepted {
            let join_wire = player_join_message(name.as_str(), deposit).to_wire();
            self.sessions.push_fan_out(&mut output.deliveries, join_wire);
            output.records.push(RecordDeposit { user_id, amount: deposit });
            proof {
                lemma_fan_out_all_push(before.sessions, none, join);
                assert(none.push(join) =~= wires_of(
                    seq![player_join_text(entry.name, entry.deposit as nat)],
                ));
            }
            if begun {
                let start_wire = timer_start_message().to_wire();
                self.sessions.push_fan_out(&mut output.deliveries, start_wire);
                output.timers.push(
                    TimerCommand::After {
                        delay_ms: COUNTDOWN_MS,
                        event: TimerEvent::CountdownExpired,
                    },
                );
                proof {
                    lemma_fan_out_all_push(
                        before.sessions,
                        none.push(join),
                        timer_start_text().wire_text(),
                    );
                    assert(none.push(join).push(timer_start_text().wire_text()) =~= wires_of(
                        before.deposit_messages(entry),
                    ));
                }
            }
        } else {
            let refusal = invalid_payload_message().to_wire();
            self.sessions.push_reply(&mut output.deliveries, user_id, refusal);
        }
        assert(deliveries_of(output.deliveries@) =~= before.deposit_deliveries(entry));
        assert(output.timers@ =~= before.deposit_timers(entry));
        assert(output.records@ =~= before.deposit_records(entry));
        output
    }

    /// Closes the session after the draw: tells everybody who has won the
    /// prize, where somebody has won, and that the session is closed.
    pub fn settle(&mut self, winner: Option<Player>) -> (deliveries: Vec<Delivery>)
        requires
            old(self)@.wf(),
        ensures
            final(self)@.wf(),
            final(self)@.sessions == old(self)@.sessions,
            final(self)@.game_session is None,
            deliveries_of(deliveries@) == fan_out_all(
                old(self)@.sessions,
                wires_of(old(self)@.settle_messages(entry_of(winner))),
            ),
    {
        let ghost before = self@;
        let ghost none = Seq::<Seq<char>>::empty();
        let mut deliveries: Vec<Delivery> = Vec::new();
        let total = self.prize();
        let ghost mut said = none;
        match winner {
            Some(player) => {
                let wire = winner_message(player.name.as_str(), total).to_wire();
                let ghost text = wire@;
                self.sessions.push_fan_out(&mut deliveries, wire);
                proof {
                    lemma_fan_out_all_push(before.sessions, none, text);
                    said = none.push(text);
                }
            },
            None => {
                proof {
                    lemma_fan_out_all_push(before.sessions, none, Seq::<char>::empty());
                }
            },
        }
        assert(deliveries_of(deliveries@) =~= fan_out_all(before.sessions, said));
        self.game_session = None;
        let wire = reset_message().to_wire();
        self.sessions.push_fan_out(&mut deliveries, wire);
        proof {
            lemma_fan_out_all_push(before.sessions, said, reset_text().wire_text());
            assert(said.push(reset_text().wire_text()) =~= wires_of(
                before.settle_messages(entry_of(winner)),
            ));
        }
        deliveries
    }

    /// Takes the event of a timer that has fired. When the countdown ends
    /// while it runs, the winner is drawn and the session is settled; every
    /// other event, and the end of a countdown that does not run, is
    /// ignored.
    pub fn handle_timer(&mut self, event: TimerEvent) -> (output: JackpotOutput)
        requires
            old(self)@.wf(),
        ensures
            final(self)@.wf(),
            final(self)@.sessions == old(self)@.sessions,
            output.timers@.len() == 0,
            output.records@.len() == 0,
            if event is CountdownExpired && old(self)@.phase() is CountingDown {
                &&& final(self)@.game_session is None
                &&& exists|winner: Option<PlayerView>|
                    #![trigger is_fair_winner(old(self)@.game_session->0, winner)]
                    {
                        &&& is_fair_winner(old(self)@.game_session->0, winner)
                        &&& deliveries_of(output.deliveries@) == fan_out_all(
                            old(self)@.sessions,
                            wires_of(old(self)@.settle_messages(winner)),
                        )
                    }
            } else {
                final(self)@ == old(self)@ && output.deliveries@.len() == 0
            },
    {
        let mut output = JackpotOutput::silent();
        match event {
            TimerEvent::CountdownExpired => {
                let drawn = match &self.game_session {
                    Some(session) => if session.timer_started() {
                        let winner = session.start_game();
                        assert(is_fair_winner(session@, entry_of(winner)));
                        Some(winner)
                    } else {
                        None
                    },
                    None => None,
                };
                match drawn {
                    Some(winner) => {
                        output.deliveries = self.settle(winner);
                        assert(is_fair_winner(old(self)@.game_session->0, entry_of(winner)));
                    },
                    None => {},
                }
            },
            _ => {},
        }
        output
    }
}

/// The state of a session that has taken `deposits` one after the other,
/// from the first deposit on.
pub open spec fn after_deposits(deposits: Seq<PlayerView>) -> GameSessionView
    decreases deposits.len(),
{
    if deposits.len() == 0 {
        GameSessionView::empty()
    } else {
        after_deposits(deposits.drop_last()).after_deposit(deposits.last())
    }
}

/// The sum of the amounts that have been recorded while a session took
/// `deposits` one after the other: the amounts of the deposits that were
/// taken.
pub open spec fn recorded_total(deposits: Seq<PlayerView>) -> nat
    decreases deposits.len(),
{
    if deposits.len() == 0 {
        0
    } else if after_deposits(deposits.drop_last()).can_take(deposits.last()) {
        recorded_total(deposits.drop_last()) + deposits.last().deposit as nat
    } else {
        recorded_total(deposits.drop_last())
    }
}

/// The prize is the sum of the recorded deposits: whatever deposits a
/// session has taken, its total is the sum of their amounts.
pub proof fn lemma_prize_is_sum_of_deposits(deposits: Seq<PlayerView>)
    ensures
        after_deposits(deposits).wf(),
        total_of(after_deposits(deposits).players) == recorded_total(deposits),
    decreases deposits.len(),
{
    if deposits.len() == 0 {
        assert(depositor_ids(GameSessionView::empty().players) =~= Seq::<i32>::empty());
    } else {
        lemma_prize_is_sum_of_deposits(deposits.drop_last());
        lemma_deposit_keeps_wf(after_deposits(deposits.drop_last()), deposits.last());
    }
}

} // verus!
