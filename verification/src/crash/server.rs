//! The hub of the crash game: the connections, and the one session that
//! their actions go to.
//!
//! The hub never changes the session but through the session's own entries,
//! and it turns what the session says into texts for delivery. An answer to
//! an action goes to the connection that sent it; what a round has to say
//! goes to everybody.

use vstd::prelude::*;
use vstd::string::*;

use crate::crash::game::{CrashGame, CrashGameView, CrashPhase, BETTING_WINDOW_MS};
use crate::crash::messages::{
    cash_out_reply, cash_out_reply_text, deposit_reply, deposit_reply_text, texts_of,
    AddPlayerToCrash, CashOutFromCrash, ClientMessage, ClientMessageJson, DepositInCrashError,
    JsonText,
};
use crate::hub::{
    deliveries_of, fan_out_all, fan_out_for, reply_for, with_member, without, without_all,
    Delivery, DeliveryView, HubOutput, Registry,
};
use crate::timer::{TimerCommand, TimerEvent};

verus! {

/// A connection has been opened.
#[derive(Clone, Copy, Debug)]
pub struct Connect {
    pub user_id: i32,
}

/// A connection has been closed.
#[derive(Clone, Copy, Debug)]
pub struct Disconnect {
    pub user_id: i32,
}

/// A bet as it comes from a connection. The amount is in cents.
#[derive(Clone, Copy, Debug)]
pub struct DepositInCrash {
    pub user_id: i32,
    pub amount: u64,
}

/// A cash-out as it comes from a connection.
#[derive(Clone, Copy, Debug)]
pub struct CashOut {
    pub user_id: i32,
}

/// The hub of the crash game.
pub struct CrashServer {
    sessions: Registry,
    crash_game: Option<CrashGame>,
}

/// The state of the hub: the registered connections in order, and the
/// session once the hub has been started.
pub ghost struct CrashServerView {
    pub sessions: Seq<i32>,
    pub crash_game: Option<CrashGameView>,
}

/// The wire text of each message of `messages`.
pub open spec fn wires_of(messages: Seq<JsonText>) -> Seq<Seq<char>> {
    Seq::new(messages.len(), |i: int| messages[i].wire_text())
}

/// The wire text of a message to the hub: a plain text as it is, a
/// structured message as its JSON object.
pub open spec fn message_wire(msg: ClientMessage) -> Seq<char> {
    match msg {
        ClientMessage::Text(text) => text@,
        ClientMessage::Json(json) => json@.wire_text(),
    }
}

impl CrashServerView {
    /// The invariant of the hub.
    pub open spec fn wf(self) -> bool {
        &&& self.sessions.no_duplicates()
        &&& self.crash_game matches Some(game) ==> game.wf()
    }

    /// The timer requests of a bet: the first bet of a round arms the end
    /// of the betting window.
    pub open spec fn deposit_timers(self, msg: DepositInCrash) -> Seq<TimerCommand> {
        match self.crash_game {
            Some(game) => if game.phase is Idle && game.bet_outcome(msg.user_id, msg.amount)
                is Ok {
                seq![
                    TimerCommand::After {
                        delay_ms: BETTING_WINDOW_MS,
                        event: TimerEvent::BettingClosed,
                    },
                ]
            } else {
                Seq::empty()
            },
            None => Seq::empty(),
        }
    }
}

impl View for CrashServer {
    type V = CrashServerView;

    closed spec fn view(&self) -> CrashServerView {
        CrashServerView {
            sessions: self.sessions@,
            crash_game: match self.crash_game {
                Some(game) => Some(game@),
                None => None,
            },
        }
    }
}

impl CrashServer {
    /// A hub without connections, not yet started.
    pub fn new() -> (server: CrashServer)
        ensures
            server@.sessions == Seq::<i32>::empty(),
            server@.crash_game is None,
            server@.wf(),
    {
        CrashServer { sessions: Registry::new(), crash_game: None }
    }

    /// Starts the hub: from now on there is a session, idle at first.
    /// A hub that has been started stays as it is.
    pub fn started(&mut self)
        requires
            old(self)@.wf(),
        ensures
            final(self)@.wf(),
            final(self)@.sessions == old(self)@.sessions,
            final(self)@.crash_game == match old(self)@.crash_game {
                Some(game) => Some(game),
                None => Some(CrashGameView::idle()),
            },
    {
        if self.crash_game.is_none() {
            self.crash_game = Some(CrashGame::new());
        }
    }

    /// The registered connections, in order.
    pub fn connections(&self) -> (ids: Vec<i32>)
        ensures
            ids@ == self@.sessions,
    {
        self.sessions.members()
    }

    /// The session, once the hub has been started.
    pub fn game(&self) -> (game: Option<&CrashGame>)
        ensures
            match game {
                Some(g) => self@.crash_game == Some(g@),
                None => self@.crash_game is None,
            },
    {
        self.crash_game.as_ref()
    }

    /// Registers a connection. One that is known already stays where it is.
    pub fn handle_connect(&mut self, msg: Connect)
        requires
            old(self)@.wf(),
        ensures
            final(self)@.wf(),
            final(self)@.sessions == with_member(old(self)@.sessions, msg.user_id),
            final(self)@.crash_game == old(self)@.crash_game,
    {
        self.sessions.register(msg.user_id);
    }

    /// Takes a connection out of the registry. An unknown one changes
    /// nothing.
    pub fn handle_disconnect(&mut self, msg: Disconnect)
        requires
            old(self)@.wf(),
        ensures
            final(self)@.wf(),
            final(self)@.sessions == without(old(self)@.sessions, msg.user_id),
            final(self)@.crash_game == old(self)@.crash_game,
    {
        self.sessions.unregister(msg.user_id);
    }

    /// Takes the connections whose sink did not take a text out of the
    /// registry. The others stay as they are, in their order, and the
    /// session is not touched.
    pub fn handle_failed(&mut self, failed: &Vec<i32>)
        requires
            old(self)@.wf(),
        ensures
            final(self)@.wf(),
            final(self)@.sessions == without_all(old(self)@.sessions, failed@),
            forall|k: int|
                0 <= k < failed@.len() ==> !final(self)@.sessions.contains(#[trigger] failed@[k]),
            final(self)@.crash_game == old(self)@.crash_game,
    {
        self.sessions.unregister_all(failed);
    }

    /// Sends a message to every connection: a text as it is, a structured
    /// message as its JSON object.
    pub fn handle_message(&self, msg: ClientMessage) -> (deliveries: Vec<Delivery>)
        ensures
            deliveries_of(deliveries@) == fan_out_for(self@.sessions, message_wire(msg)),
    {
        let wire = match msg {
            ClientMessage::Text(text) => text,
            ClientMessage::Json(json) => json.to_wire(),
        };
        let mut deliveries: Vec<Delivery> = Vec::new();
        self.sessions.push_fan_out(&mut deliveries, wire);
        assert(deliveries_of(deliveries@) =~= fan_out_for(self@.sessions, message_wire(msg)));
        deliveries
    }

    /// The deliveries that carry each of `messages` to every connection.
    fn broadcast_all(&self, messages: &Vec<ClientMessageJson>) -> (deliveries: Vec<Delivery>)
        ensures
            deliveries_of(deliveries@) == fan_out_all(
                self@.sessions,
                wires_of(texts_of(messages@)),
            ),
    {
        let mut deliveries: Vec<Delivery> = Vec::new();
        let ghost wires = wires_of(texts_of(messages@));
        let mut i: usize = 0;
        assert(wires.take(0) =~= Seq::<Seq<char>>::empty());
        assert(deliveries_of(deliveries@) =~= Seq::<DeliveryView>::empty());
        while i < messages.len()
            invariant
                i <= messages.len(),
                wires == wires_of(texts_of(messages@)),
                deliveries_of(deliveries@) == fan_out_all(self@.sessions, wires.take(i as int)),
            decreases messages.len() - i,
        {
            let wire = messages[i].to_wire();
            let ghost text = wire@;
            self.sessions.push_fan_out(&mut deliveries, wire);
            proof {
                let next = wires.take(i + 1);
                assert(next.drop_last() =~= wires.take(i as int));
                assert(next.last() == text);
            }
            i += 1;
        }
        assert(wires.take(messages@.len() as int) =~= wires);
        deliveries
    }

    /// Takes a bet from a connection and answers it. The answer goes to the
    /// connection that sent the bet; the first bet of a round also arms the
    /// end of the betting window. A hub that has not been started ignores
    /// the bet.
    pub fn handle_deposit(&mut self, msg: DepositInCrash) -> (output: HubOutput)
        requires
            old(self)@.wf(),
        ensures
            final(self)@.wf(),
            final(self)@.sessions == old(self)@.sessions,
            match old(self)@.crash_game {
                Some(game) => {
                    &&& final(self)@.crash_game == Some(game.after_bet(msg.user_id, msg.amount))
                    &&& deliveries_of(output.deliveries@) == reply_for(
                        old(self)@.sessions,
                        msg.user_id,
                        deposit_reply_text(game.bet_outcome(msg.user_id, msg.amount)).wire_text(),
                    )
                },
                None => final(self)@.crash_game is None && output.deliveries@.len() == 0,
            },
            output.timers@ == old(self)@.deposit_timers(msg),
    {
        let mut output = HubOutput::silent();
        match &mut self.crash_game {
            Some(game) => {
                let was_idle = match game.phase() {
                    CrashPhase::Idle => true,
                    _ => false,
                };
                let outcome = game.handle_add_player(
                    AddPlayerToCrash { user_id: msg.user_id, bet_amount: msg.amount },
                );
                if was_idle && outcome.is_ok() {
                    output.timers.push(
                        TimerCommand::After {
                            delay_ms: BETTING_WINDOW_MS,
                            event: TimerEvent::BettingClosed,
                        },
                    );
                }
                let wire = deposit_reply(outcome).to_wire();
                self.sessions.push_reply(&mut output.deliveries, msg.user_id, wire);
            },
            None => {},
        }
        assert(output.timers@ =~= old(self)@.deposit_timers(msg));
        output
    }

    /// Refuses a bet whose amount cannot be read as an amount of money. The
    /// refusal goes to the connection that sent the bet, and nothing changes.
    pub fn reject_deposit(&self, user_id: i32) -> (deliveries: Vec<Delivery>)
        ensures
            deliveries_of(deliveries@) == reply_for(
                self@.sessions,
                user_id,
                deposit_reply_text(
                    Err::<(), DepositInCrashError>(DepositInCrashError::InvalidAmount),
                ).wire_text(),
            ),
    {
        let mut deliveries: Vec<Delivery> = Vec::new();
        let wire = deposit_reply(Err(DepositInCrashError::InvalidAmount)).to_wire();
        self.sessions.push_reply(&mut deliveries, user_id, wire);
        assert(deliveries_of(deliveries@) =~= reply_for(
            self@.sessions,
            user_id,
            deposit_reply_text(
                Err::<(), DepositInCrashError>(DepositInCrashError::InvalidAmount),
            ).wire_text(),
        ));
        deliveries
    }

    /// Takes a cash-out from a connection while the curve of the round
    /// stands at `live`, and answers it. The answer goes to the connection
    /// that sent the request. A hub that has not been started ignores the
    /// request.
    pub fn handle_cash_out(&mut self, msg: CashOut, live: u64) -> (output: HubOutput)
        requires
            old(self)@.wf(),
        ensures
            final(self)@.wf(),
            final(self)@.sessions == old(self)@.sessions,
            output.timers@.len() == 0,
            match old(self)@.crash_game {
                Some(game) => {
                    &&& final(self)@.crash_game == Some(game.after_cash_out(msg.user_id, live))
                    &&& deliveries_of(output.deliveries@) == reply_for(
                        old(self)@.sessions,
                        msg.user_id,
                        cash_out_reply_text(
                            game.cash_out_outcome(msg.user_id, live),
                        ).wire_text(),
                    )
                },
                None => final(self)@.crash_game is None && output.deliveries@.len() == 0,
            },
    {
        let mut output = HubOutput::silent();
        match &mut self.crash_game {
            Some(game) => {
                let outcome = game.handle_cash_out(CashOutFromCrash { user_id: msg.user_id }, live);
                let wire = cash_out_reply(outcome).to_wire();
                self.sessions.push_reply(&mut output.deliveries, msg.user_id, wire);
            },
            None => {},
        }
        output
    }

    /// Hands the event of a timer that has fired at `now_ms`, with the curve
    /// of the round at `live`, to the session and sends what the session has
    /// to say to every connection. A hub that has not been started ignores
    /// the event.
    pub fn handle_timer(&mut self, event: TimerEvent, now_ms: u64, live: u64) -> (output:
        HubOutput)
        requires
            old(self)@.wf(),
        ensures
            final(self)@.wf(),
            final(self)@.sessions == old(self)@.sessions,
            match (old(self)@.crash_game, final(self)@.crash_game) {
                (Some(before), Some(after)) => {
                    &&& before.timer_step(after, event, now_ms, live)
                    &&& deliveries_of(output.deliveries@) == fan_out_all(
                        old(self)@.sessions,
                        wires_of(before.timer_messages(after, event, live)),
                    )
                    &&& output.timers@ == before.timer_timers(event, live)
                },
                (None, None) => output.is_silent(),
                _ => false,
            },
    {
        let said = match &mut self.crash_game {
            Some(game) => game.handle_timer(event, now_ms, live),
            None => {
                return HubOutput::silent();
            },
        };
        let deliveries = self.broadcast_all(&said.messages);
        HubOutput { deliveries, timers: said.timers }
    }
}

} // verus!
