//! The session of the crash game: who has bet, which phase the round is in,
//! what is shown, and where the round will crash.
//!
//! A session goes from `Idle` to `Betting` with the first bet, to `Running`
//! when the betting window closes, to `Crashed` when the multiplier reaches
//! the crash point, and back to `Idle` when the pause is over. It never reads
//! a clock and never computes the curve: the start of a round is told the
//! time, and a tick or a cash-out is told where the curve stands.

use vstd::prelude::*;
use vstd::string::*;

use crate::crash::curve::{
    display, displayed, factor_at, growth_factor, lemma_factor_steps_up, START_MULTIPLIER,
};
use crate::crash::messages::{
    crash_message, crash_text, multiplier_message, multiplier_text, start_message, start_text,
    texts_of, AddPlayerToCrash, CashOutFromCrash, CashoutFromCrashError, ClientMessageJson,
    DepositInCrashError, JsonText, ResetCrashGame,
};
use crate::fairness::{
    crash_outcome, derive_crash_point, is_seed_text, lemma_crash_point_bounds, new_seed_pair,
    FairnessRecord, SeedPair,
};
use crate::ids::fresh_id;
use crate::timer::{TimerCommand, TimerEvent};
use crate::wire::text_of;

verus! {

/// How long bets are taken after the first one, in milliseconds.
pub const BETTING_WINDOW_MS: u64 = 15_000;

/// How long a crashed round stays on display before the next may begin.
pub const COOLDOWN_MS: u64 = 15_000;

/// The time between two ticks of a running round.
pub const TICK_INTERVAL_MS: u64 = 200;

/// The phases of a crash session.
#[derive(Clone, Copy, Debug, PartialEq, Eq, Structural)]
pub enum CrashPhase {
    /// No round and no bets.
    Idle,
    /// Bets are taken; the round has not started.
    Betting,
    /// The multiplier climbs; participants may cash out.
    Running,
    /// The round is over; its result stays until the pause ends.
    Crashed,
}

/// One participant's stake in a round.
#[derive(Clone, Copy, Debug, PartialEq, Eq, Structural)]
pub struct Bet {
    pub user_id: i32,
    /// The stake, in cents.
    pub bet_amount: u64,
    pub cashed_out: bool,
    /// The multiplier, in hundredths, at which the participant left the
    /// round; zero as long as `cashed_out` is false.
    pub cashed_out_at: u64,
}

/// What a step of the session asks its hub and its timers to do.
pub struct CrashOutput {
    /// Messages for every connection, in this order.
    pub messages: Vec<ClientMessageJson>,
    /// Requests to the timer scheduler, in this order.
    pub timers: Vec<TimerCommand>,
}

/// A crash session.
pub struct CrashGame {
    phase: CrashPhase,
    players: Vec<Bet>,
    multiplier: u64,
    crash_point: Option<u64>,
    started_at: Option<u64>,
    round_id: Option<String>,
    public_seed: Option<String>,
    private_seed: Option<String>,
}

/// The state of a crash session.
pub ghost struct CrashGameView {
    pub phase: CrashPhase,
    pub players: Seq<Bet>,
    /// The multiplier on display, in hundredths.
    pub multiplier: u64,
    /// Where the round crashes, in hundredths.
    pub crash_point: Option<u64>,
    /// When the round started, in milliseconds on the caller's clock.
    pub started_at: Option<u64>,
    pub round_id: Option<Seq<char>>,
    pub public_seed: Option<Seq<char>>,
    pub private_seed: Option<Seq<char>>,
}

/// The participants of `players`, in order.
pub open spec fn bettor_ids(players: Seq<Bet>) -> Seq<i32> {
    Seq::new(players.len(), |i: int| players[i].user_id)
}

/// `players` after `user_id` has staked `amount` more: the stake is added to
/// the participant's bet, or a new bet stands at the end.
pub open spec fn bets_with(players: Seq<Bet>, user_id: i32, amount: u64) -> Seq<Bet> {
    let ids = bettor_ids(players);
    if ids.contains(user_id) {
        let i = ids.index_of(user_id);
        players.update(
            i,
            Bet {
                user_id: players[i].user_id,
                bet_amount: (players[i].bet_amount + amount) as u64,
                cashed_out: players[i].cashed_out,
                cashed_out_at: players[i].cashed_out_at,
            },
        )
    } else {
        players.push(Bet { user_id, bet_amount: amount, cashed_out: false, cashed_out_at: 0 })
    }
}

impl CrashGameView {
    /// The state without a round and without bets.
    pub open spec fn idle() -> CrashGameView {
        CrashGameView {
            phase: CrashPhase::Idle,
            players: Seq::empty(),
            multiplier: 100,
            crash_point: None,
            started_at: None,
            round_id: None,
            public_seed: None,
            private_seed: None,
        }
    }

    /// Nothing of a round is held.
    pub open spec fn no_round(self) -> bool {
        &&& self.crash_point is None
        &&& self.started_at is None
        &&& self.round_id is None
        &&& self.public_seed is None
        &&& self.private_seed is None
        &&& self.multiplier == 100
    }

    /// A round is held, and its crash point is the one that its seeds give.
    pub open spec fn in_round(self) -> bool {
        &&& self.crash_point is Some
        &&& self.started_at is Some
        &&& self.round_id is Some
        &&& self.public_seed is Some
        &&& self.private_seed is Some
        &&& self.crash_point->0 == crash_outcome(self.public_seed->0, self.private_seed->0)
        &&& 100 <= self.multiplier <= self.crash_point->0
    }

    /// Whether `bet` may stand in this state: nobody has cashed out before a
    /// round runs, and nobody has cashed out above the crash point.
    pub open spec fn admits(self, bet: Bet) -> bool {
        if bet.cashed_out {
            &&& self.phase is Running || self.phase is Crashed
            &&& self.crash_point is Some
            &&& 100 <= bet.cashed_out_at <= self.crash_point->0
        } else {
            bet.cashed_out_at == 0
        }
    }

    /// The invariant of a session.
    pub open spec fn wf(self) -> bool {
        &&& bettor_ids(self.players).no_duplicates()
        &&& forall|i: int| 0 <= i < self.players.len() ==> self.admits(#[trigger] self.players[i])
        &&& match self.phase {
            CrashPhase::Idle => self.players.len() == 0 && self.no_round(),
            CrashPhase::Betting => self.players.len() > 0 && self.no_round(),
            CrashPhase::Running => self.in_round(),
            CrashPhase::Crashed => self.in_round() && self.multiplier == self.crash_point->0,
        }
    }

    /// The time since the round started, at `now_ms`. A time before the
    /// start counts as the start.
    pub open spec fn elapsed(self, now_ms: u64) -> nat {
        match self.started_at {
            Some(start) => if now_ms >= start {
                (now_ms - start) as nat
            } else {
                0
            },
            None => 0,
        }
    }

    /// What a running round shows when its curve stands at `live`: the
    /// curve's value, never less than what is shown now and never more than
    /// the crash point.
    pub open spec fn shown_for(self, live: u64) -> u64 {
        displayed(self.crash_point->0 as nat, self.multiplier as nat, live as nat) as u64
    }

    /// The growth factor, in hundredths per second, that belongs to what is
    /// shown now.
    pub open spec fn factor(self) -> nat {
        factor_at(self.multiplier as nat)
    }

    /// The answer to a bet of `amount` by `user_id`.
    pub open spec fn bet_outcome(self, user_id: i32, amount: u64) -> Result<
        (),
        DepositInCrashError,
    > {
        let ids = bettor_ids(self.players);
        if self.phase is Running || self.phase is Crashed {
            Err(DepositInCrashError::GameAlreadyStarted)
        } else if ids.contains(user_id) && self.players[ids.index_of(user_id)].bet_amount + amount
            > u64::MAX {
            Err(DepositInCrashError::InvalidAmount)
        } else {
            Ok(())
        }
    }

    /// The state after a bet of `amount` by `user_id`.
    pub open spec fn after_bet(self, user_id: i32, amount: u64) -> CrashGameView {
        if self.bet_outcome(user_id, amount) is Ok {
            CrashGameView {
                phase: CrashPhase::Betting,
                players: bets_with(self.players, user_id, amount),
                ..self
            }
        } else {
            self
        }
    }

    /// The answer to a cash-out by `user_id` while the curve stands at
    /// `live`: the multiplier that
    /// the participant leaves with, or the reason why not.
    pub open spec fn cash_out_outcome(self, user_id: i32, live: u64) -> Result<
        u64,
        CashoutFromCrashError,
    > {
        let ids = bettor_ids(self.players);
        if !(self.phase is Running) {
            Err(CashoutFromCrashError::GameNotStarted)
        } else if !ids.contains(user_id) {
            Err(CashoutFromCrashError::UserNotFound)
        } else if self.players[ids.index_of(user_id)].cashed_out {
            Err(CashoutFromCrashError::AlreadyCashedOut)
        } else {
            Ok(self.shown_for(live))
        }
    }

    /// The state after a cash-out by `user_id` while the curve stands at
    /// `live`.
    pub open spec fn after_cash_out(self, user_id: i32, live: u64) -> CrashGameView {
        match self.cash_out_outcome(user_id, live) {
            Ok(multiplier) => {
                let i = bettor_ids(self.players).index_of(user_id);
                CrashGameView {
                    players: self.players.update(
                        i,
                        Bet {
                            user_id: self.players[i].user_id,
                            bet_amount: self.players[i].bet_amount,
                            cashed_out: true,
                            cashed_out_at: multiplier,
                        },
                    ),
                    ..self
                }
            },
            Err(_) => self,
        }
    }

    /// Whether a tick ends the round when the curve stands at `live`.
    pub open spec fn crashes_at(self, live: u64) -> bool {
        self.phase is Running && self.shown_for(live) >= self.crash_point->0
    }

    /// The state after a tick with the curve at `live`.
    pub open spec fn after_tick(self, live: u64) -> CrashGameView {
        if self.phase is Running {
            CrashGameView {
                phase: if self.crashes_at(live) {
                    CrashPhase::Crashed
                } else {
                    CrashPhase::Running
                },
                multiplier: self.shown_for(live),
                ..self
            }
        } else {
            self
        }
    }

    /// The messages that a tick with the curve at `live` sends to everybody.
    pub open spec fn tick_messages(self, live: u64) -> Seq<JsonText> {
        if !(self.phase is Running) {
            Seq::empty()
        } else if self.crashes_at(live) {
            seq![
                multiplier_text(self.shown_for(live) as nat),
                crash_text(self.crash_point->0 as nat, self.private_seed->0),
            ]
        } else {
            seq![multiplier_text(self.shown_for(live) as nat)]
        }
    }

    /// The timer requests of a tick with the curve at `live`.
    pub open spec fn tick_timers(self, live: u64) -> Seq<TimerCommand> {
        if self.crashes_at(live) {
            seq![
                TimerCommand::CancelAll,
                TimerCommand::After { delay_ms: COOLDOWN_MS, event: TimerEvent::CooldownExpired },
            ]
        } else {
            Seq::empty()
        }
    }

    /// The state after the round has started at `now_ms` under this name
    /// and with these seeds.
    pub open spec fn after_start(
        self,
        round_id: Seq<char>,
        public_seed: Seq<char>,
        private_seed: Seq<char>,
        now_ms: u64,
    ) -> CrashGameView {
        if self.phase is Betting {
            CrashGameView {
                phase: CrashPhase::Running,
                players: self.players,
                multiplier: 100,
                crash_point: Some(crash_outcome(public_seed, private_seed) as u64),
                started_at: Some(now_ms),
                round_id: Some(round_id),
                public_seed: Some(public_seed),
                private_seed: Some(private_seed),
            }
        } else {
            self
        }
    }

    /// The state after the pause has ended.
    pub open spec fn after_cooldown(self) -> CrashGameView {
        if self.phase is Crashed {
            CrashGameView::idle()
        } else {
            self
        }
    }
}

impl CrashGameView {
    /// Whether `after` is what the start of a round at `now_ms` leaves of
    /// this state: outside the betting phase the state itself, and in it a
    /// running round under some name and with some pair of seeds of the
    /// right shape.
    pub open spec fn round_started(self, after: CrashGameView, now_ms: u64) -> bool {
        if self.phase is Betting {
            &&& after.round_id is Some
            &&& after.public_seed is Some
            &&& after.private_seed is Some
            &&& is_seed_text(after.public_seed->0)
            &&& is_seed_text(after.private_seed->0)
            &&& after == self.after_start(
                after.round_id->0,
                after.public_seed->0,
                after.private_seed->0,
                now_ms,
            )
        } else {
            after == self
        }
    }

    /// The messages that announce the round which `after` holds: its public
    /// seed and its name, and not its private seed.
    pub open spec fn start_messages(self, after: CrashGameView) -> Seq<JsonText> {
        if self.phase is Betting {
            seq![start_text(after.round_id->0, after.public_seed->0)]
        } else {
            Seq::empty()
        }
    }

    /// The timer requests of the start of a round: the ticks.
    pub open spec fn start_timers(self) -> Seq<TimerCommand> {
        if self.phase is Betting {
            seq![TimerCommand::Every { interval_ms: TICK_INTERVAL_MS, event: TimerEvent::Tick }]
        } else {
            Seq::empty()
        }
    }

    /// The timer requests of the end of the pause: whatever is left of the
    /// old round's timers is dropped.
    pub open spec fn cooldown_timers(self) -> Seq<TimerCommand> {
        if self.phase is Crashed {
            seq![TimerCommand::CancelAll]
        } else {
            Seq::empty()
        }
    }

    /// Whether `after` is what the timer event `event` leaves of this
    /// state, fired at `now_ms` with the curve at `live`. The start of a
    /// round reads the time, a tick reads the curve.
    pub open spec fn timer_step(
        self,
        after: CrashGameView,
        event: TimerEvent,
        now_ms: u64,
        live: u64,
    ) -> bool {
        match event {
            TimerEvent::BettingClosed => self.round_started(after, now_ms),
            TimerEvent::Tick => after == self.after_tick(live),
            TimerEvent::CooldownExpired => after == self.after_cooldown(),
            TimerEvent::CountdownExpired => after == self,
        }
    }

    /// The messages for everybody that the timer event `event` gives rise
    /// to, fired with the curve at `live`.
    pub open spec fn timer_messages(self, after: CrashGameView, event: TimerEvent, live: u64)
        -> Seq<JsonText> {
        match event {
            TimerEvent::BettingClosed => self.start_messages(after),
            TimerEvent::Tick => self.tick_messages(live),
            TimerEvent::CooldownExpired => Seq::empty(),
            TimerEvent::CountdownExpired => Seq::empty(),
        }
    }

    /// The timer requests that the timer event `event` gives rise to, fired
    /// with the curve at `live`.
    pub open spec fn timer_timers(self, event: TimerEvent, live: u64) -> Seq<TimerCommand> {
        match event {
            TimerEvent::BettingClosed => self.start_timers(),
            TimerEvent::Tick => self.tick_timers(live),
            TimerEvent::CooldownExpired => self.cooldown_timers(),
            TimerEvent::CountdownExpired => Seq::empty(),
        }
    }
}

/// In a list without repetitions, the place of a participant is the only
/// place where the participant stands.
pub proof fn lemma_place_is_unique(players: Seq<Bet>, i: int)
    requires
        bettor_ids(players).no_duplicates(),
        0 <= i < players.len(),
    ensures
        bettor_ids(players).contains(players[i].user_id),
        bettor_ids(players).index_of(players[i].user_id) == i,
{
    let ids = bettor_ids(players);
    assert(ids[i] == players[i].user_id);
}

/// A bet keeps the session well formed.
pub proof fn lemma_bet_keeps_wf(state: CrashGameView, user_id: i32, amount: u64)
    requires
        state.wf(),
    ensures
        state.after_bet(user_id, amount).wf(),
{
    if state.bet_outcome(user_id, amount) is Ok {
        let after = state.after_bet(user_id, amount);
        let ids = bettor_ids(state.players);
        let new_ids = bettor_ids(after.players);
        if ids.contains(user_id) {
            let i = ids.index_of(user_id);
            assert(new_ids =~= ids);
            assert forall|k: int| 0 <= k < after.players.len() implies after.admits(
                #[trigger] after.players[k],
            ) by {
                assert(state.admits(state.players[k]));
            }
        } else {
            assert forall|a: int, b: int|
                0 <= a < new_ids.len() && 0 <= b < new_ids.len() && a != b implies new_ids[a]
                != new_ids[b] by {
                if a < ids.len() {
                    assert(ids[a] == new_ids[a]);
                }
                if b < ids.len() {
                    assert(ids[b] == new_ids[b]);
                }
            }
            assert forall|k: int| 0 <= k < after.players.len() implies after.admits(
                #[trigger] after.players[k],
            ) by {
                if k < state.players.len() {
                    assert(state.admits(state.players[k]));
                }
            }
        }
    }
}

/// A cash-out keeps the session well formed.
pub proof fn lemma_cash_out_keeps_wf(state: CrashGameView, user_id: i32, live: u64)
    requires
        state.wf(),
    ensures
        state.after_cash_out(user_id, live).wf(),
{
    if state.cash_out_outcome(user_id, live) is Ok {
        let after = state.after_cash_out(user_id, live);
        assert(bettor_ids(after.players) =~= bettor_ids(state.players));
        assert forall|k: int| 0 <= k < after.players.len() implies after.admits(
            #[trigger] after.players[k],
        ) by {
            assert(state.admits(state.players[k]));
        }
    }
}

/// A tick keeps the session well formed.
pub proof fn lemma_tick_keeps_wf(state: CrashGameView, live: u64)
    requires
        state.wf(),
    ensures
        state.after_tick(live).wf(),
{
    let after = state.after_tick(live);
    assert forall|k: int| 0 <= k < after.players.len() implies after.admits(
        #[trigger] after.players[k],
    ) by {
        assert(state.admits(state.players[k]));
    }
}

/// The start of a round keeps the session well formed.
pub proof fn lemma_start_keeps_wf(
    state: CrashGameView,
    round_id: Seq<char>,
    public_seed: Seq<char>,
    private_seed: Seq<char>,
    now_ms: u64,
)
    requires
        state.wf(),
    ensures
        state.after_start(round_id, public_seed, private_seed, now_ms).wf(),
        100 <= crash_outcome(public_seed, private_seed) <= u64::MAX,
{
    lemma_crash_point_bounds(crate::fairness::seed_word(public_seed, private_seed));
    let after = state.after_start(round_id, public_seed, private_seed, now_ms);
    assert forall|k: int| 0 <= k < after.players.len() implies after.admits(
        #[trigger] after.players[k],
    ) by {
        assert(state.admits(state.players[k]));
    }
}

/// What is shown never falls and never passes the crash point: a tick leaves
/// the multiplier where it was or raises it, keeps it at or below the crash
/// point, and leaves the crash point alone. A round that has crashed shows
/// its crash point.
pub proof fn lemma_shown_multiplier_rises(state: CrashGameView, live: u64)
    requires
        state.wf(),
    ensures
        state.after_tick(live).multiplier >= state.multiplier,
        state.after_tick(live).crash_point == state.crash_point,
        state.phase is Running ==> state.after_tick(live).multiplier <= state.crash_point->0,
        state.after_tick(live).phase is Crashed ==> state.after_tick(live).multiplier
            == state.crash_point->0,
{
}

/// The tick that ends a round says so to everybody: it shows the crash point
/// as the last multiplier and then announces the crash point together with
/// the private seed, and it is the only tick that names the private seed.
pub proof fn lemma_crash_is_announced(state: CrashGameView, live: u64)
    requires
        state.wf(),
    ensures
        state.after_tick(live).phase is Crashed && state.phase is Running
            ==> state.tick_messages(live) == seq![
            multiplier_text(state.crash_point->0 as nat),
            crash_text(state.crash_point->0 as nat, state.private_seed->0),
        ],
        state.after_tick(live).phase is Running ==> state.tick_messages(live) == seq![
            multiplier_text(state.after_tick(live).multiplier as nat),
        ],
{
}

/// Where the curve has not fallen below what is shown, a tick shows the
/// curve itself, cut off at the crash point: the display depends on the
/// curve's value and on nothing else.
pub proof fn lemma_shown_follows_curve(state: CrashGameView, live: u64)
    requires
        state.wf(),
        state.phase is Running,
        live >= state.multiplier,
    ensures
        state.after_tick(live).multiplier == if live >= state.crash_point->0 {
            state.crash_point->0
        } else {
            live
        },
        state.after_tick(live).phase is Crashed <==> live >= state.crash_point->0,
{
}

/// The growth factor never falls from tick to tick: what is shown only
/// rises, and a larger multiplier never has a smaller factor.
pub proof fn lemma_factor_never_falls(state: CrashGameView, live: u64)
    requires
        state.wf(),
    ensures
        state.after_tick(live).factor() >= state.factor(),
{
    lemma_factor_steps_up(state.multiplier as nat, state.after_tick(live).multiplier as nat);
}

/// A round that has crashed is final: no bet, no cash-out, no tick and no
/// start of a round changes anything in it. Only the end of the pause does.
pub proof fn lemma_crashed_is_final(
    state: CrashGameView,
    user_id: i32,
    amount: u64,
    now_ms: u64,
    live: u64,
    round_id: Seq<char>,
    public_seed: Seq<char>,
    private_seed: Seq<char>,
)
    requires
        state.phase is Crashed,
    ensures
        state.after_bet(user_id, amount) == state,
        state.bet_outcome(user_id, amount) == Err::<(), DepositInCrashError>(
            DepositInCrashError::GameAlreadyStarted,
        ),
        state.after_cash_out(user_id, live) == state,
        state.cash_out_outcome(user_id, live) == Err::<u64, CashoutFromCrashError>(
            CashoutFromCrashError::GameNotStarted,
        ),
        state.after_tick(live) == state,
        state.after_start(round_id, public_seed, private_seed, now_ms) == state,
{
}

/// A cash-out succeeds only while the round runs, and then at a multiplier
/// between 1.00 and the crash point, which is also what the bet records.
pub proof fn lemma_cash_out_is_bounded(state: CrashGameView, user_id: i32, live: u64)
    requires
        state.wf(),
    ensures
        match state.cash_out_outcome(user_id, live) {
            Ok(multiplier) => {
                let i = bettor_ids(state.players).index_of(user_id);
                &&& state.phase is Running
                &&& 100 <= multiplier <= state.crash_point->0
                &&& state.after_cash_out(user_id, live).players[i].cashed_out
                &&& state.after_cash_out(user_id, live).players[i].cashed_out_at == multiplier
            },
            Err(_) => state.after_cash_out(user_id, live) == state,
        },
{
    if state.cash_out_outcome(user_id, live) is Ok {
        let ids = bettor_ids(state.players);
        let i = ids.index_of(user_id);
        assert(0 <= i < state.players.len());
    }
}

/// A rejected action changes nothing.
pub proof fn lemma_rejection_changes_nothing(
    state: CrashGameView,
    user_id: i32,
    amount: u64,
    live: u64,
)
    ensures
        state.bet_outcome(user_id, amount) is Err ==> state.after_bet(user_id, amount) == state,
        state.cash_out_outcome(user_id, live) is Err ==> state.after_cash_out(user_id, live)
            == state,
{
}

impl View for CrashGame {
    type V = CrashGameView;

    closed spec fn view(&self) -> CrashGameView {
        CrashGameView {
            phase: self.phase,
            players: self.players@,
            multiplier: self.multiplier,
            crash_point: self.crash_point,
            started_at: self.started_at,
            round_id: text_of(self.round_id),
            public_seed: text_of(self.public_seed),
            private_seed: text_of(self.private_seed),
        }
    }
}

/// A copy of an optional text.
fn copy_of(held: &Option<String>) -> (copy: Option<String>)
    ensures
        text_of(copy) == text_of(*held),
{
    match held {
        Some(text) => Some(text.clone()),
        None => None,
    }
}

impl CrashOutput {
    /// Nothing to send and nothing to schedule.
    pub open spec fn is_silent(&self) -> bool {
        self.messages@.len() == 0 && self.timers@.len() == 0
    }

    /// An output without messages and without timer requests.
    pub fn silent() -> (output: CrashOutput)
        ensures
            output.is_silent(),
    {
        CrashOutput { messages: Vec::new(), timers: Vec::new() }
    }
}

impl CrashGame {
    /// A session without a round and without bets.
    pub fn new() -> (game: CrashGame)
        ensures
            game@ == CrashGameView::idle(),
            game@.wf(),
    {
        let game = CrashGame {
            phase: CrashPhase::Idle,
            players: Vec::new(),
            multiplier: START_MULTIPLIER,
            crash_point: None,
            started_at: None,
            round_id: None,
            public_seed: None,
            private_seed: None,
        };
        assert(game@.players =~= Seq::<Bet>::empty());
        assert(bettor_ids(game@.players) =~= Seq::<i32>::empty());
        game
    }

    /// The phase of the session.
    pub fn phase(&self) -> (phase: CrashPhase)
        ensures
            phase == self@.phase,
    {
        self.phase
    }

    /// The multiplier on display, in hundredths.
    pub fn multiplier(&self) -> (multiplier: u64)
        ensures
            multiplier == self@.multiplier,
    {
        self.multiplier
    }

    /// Where the round crashes, in hundredths; `None` while there is no
    /// round.
    pub fn crash_point(&self) -> (point: Option<u64>)
        ensures
            point == self@.crash_point,
    {
        self.crash_point
    }

    /// The bets, in the order in which the participants came.
    pub fn players(&self) -> (bets: Vec<Bet>)
        ensures
            bets@ == self@.players,
    {
        let mut bets: Vec<Bet> = Vec::new();
        let mut i: usize = 0;
        while i < self.players.len()
            invariant
                i <= self.players.len(),
                bets@ == self.players@.take(i as int),
            decreases self.players.len() - i,
        {
            bets.push(self.players[i]);
            assert(self.players@.take(i + 1) =~= self.players@.take(i as int).push(
                self.players@[i as int],
            ));
            i += 1;
        }
        assert(self.players@.take(self.players@.len() as int) =~= self.players@);
        bets
    }

    /// The name of the round, while there is one.
    pub fn round_id(&self) -> (id: Option<String>)
        ensures
            text_of(id) == self@.round_id,
    {
        copy_of(&self.round_id)
    }

    /// The public seed of the round, while there is one.
    pub fn public_seed(&self) -> (seed: Option<String>)
        ensures
            text_of(seed) == self@.public_seed,
    {
        copy_of(&self.public_seed)
    }

    /// The private seed, which is handed out only when the round has
    /// crashed.
    pub fn revealed_private_seed(&self) -> (seed: Option<String>)
        ensures
            text_of(seed) == if self@.phase is Crashed {
                self@.private_seed
            } else {
                None
            },
    {
        match self.phase {
            CrashPhase::Crashed => copy_of(&self.private_seed),
            _ => None,
        }
    }

    /// What a client needs to recompute the result of the crashed round;
    /// `None` while no round has crashed.
    pub fn fairness_record(&self) -> (record: Option<FairnessRecord>)
        requires
            self@.wf(),
        ensures
            record is Some <==> self@.phase is Crashed,
            record matches Some(r) ==> {
                &&& Some(r.round_id@) == self@.round_id
                &&& Some(r.public_seed@) == self@.public_seed
                &&& Some(r.private_seed@) == self@.private_seed
                &&& Some(r.derived_outcome) == self@.crash_point
                &&& r.is_reproducible()
            },
    {
        match self.phase {
            CrashPhase::Crashed => {
                match (&self.round_id, &self.public_seed, &self.private_seed, self.crash_point) {
                    (Some(round_id), Some(public_seed), Some(private_seed), Some(point)) => Some(
                        FairnessRecord {
                            round_id: round_id.clone(),
                            public_seed: public_seed.clone(),
                            private_seed: private_seed.clone(),
                            derived_outcome: point,
                        },
                    ),
                    _ => None,
                }
            },
            _ => None,
        }
    }

    /// The place of the bet of `user_id`, if there is one.
    fn find_bet(&self, user_id: i32) -> (found: Option<usize>)
        ensures
            match found {
                Some(i) => i < self.players@.len() && self.players@[i as int].user_id == user_id,
                None => !bettor_ids(self.players@).contains(user_id),
            },
    {
        let mut i: usize = 0;
        while i < self.players.len()
            invariant
                i <= self.players.len(),
                forall|j: int| 0 <= j < i ==> self.players@[j].user_id != user_id,
            decreases self.players.len() - i,
        {
            if self.players[i].user_id == user_id {
                return Some(i);
            }
            i += 1;
        }
        assert forall|j: int| 0 <= j < bettor_ids(self.players@).len() implies bettor_ids(
            self.players@,
        )[j] != user_id by {}
        None
    }

    /// Takes a bet. Bets are taken until the round starts; the first bet
    /// opens the betting. A second bet of the same participant is added to
    /// the first.
    pub fn handle_add_player(&mut self, msg: AddPlayerToCrash) -> (outcome: Result<
        (),
        DepositInCrashError,
    >)
        requires
            old(self)@.wf(),
        ensures
            final(self)@.wf(),
            outcome == old(self)@.bet_outcome(msg.user_id, msg.bet_amount),
            final(self)@ == old(self)@.after_bet(msg.user_id, msg.bet_amount),
    {
        proof {
            lemma_bet_keeps_wf(self@, msg.user_id, msg.bet_amount);
        }
        match self.phase {
            CrashPhase::Running => {
                return Err(DepositInCrashError::GameAlreadyStarted);
            },
            CrashPhase::Crashed => {
                return Err(DepositInCrashError::GameAlreadyStarted);
            },
            _ => {},
        }
        match self.find_bet(msg.user_id) {
            Some(i) => {
                proof {
                    lemma_place_is_unique(self.players@, i as int);
                }
                let held = self.players[i].bet_amount;
                if held > u64::MAX - msg.bet_amount {
                    return Err(DepositInCrashError::InvalidAmount);
                }
                self.players[i].bet_amount = held + msg.bet_amount;
                assert(self.players@ =~= bets_with(old(self).players@, msg.user_id, msg.bet_amount));
            },
            None => {
                self.players.push(
                    Bet {
                        user_id: msg.user_id,
                        bet_amount: msg.bet_amount,
                        cashed_out: false,
                        cashed_out_at: 0,
                    },
                );
            },
        }
        self.phase = CrashPhase::Betting;
        Ok(())
    }

    /// The growth factor, in hundredths per second, that belongs to what is
    /// shown now. Whoever computes the curve takes it from here.
    pub fn growth_factor(&self) -> (factor: u64)
        ensures
            factor == self@.factor(),
    {
        growth_factor(self.multiplier)
    }

    /// The time since the round started, at `now_ms`; zero without a round
    /// and for a time before the start.
    pub fn elapsed_at(&self, now_ms: u64) -> (elapsed: u64)
        ensures
            elapsed == self@.elapsed(now_ms),
    {
        match self.started_at {
            Some(start) => if now_ms >= start {
                now_ms - start
            } else {
                0
            },
            None => 0,
        }
    }

    /// Lets a participant leave the running round while its curve stands at
    /// `live`: the participant leaves at what the round shows for that
    /// value, and the bet records it.
    pub fn handle_cash_out(&mut self, msg: CashOutFromCrash, live: u64) -> (outcome: Result<
        u64,
        CashoutFromCrashError,
    >)
        requires
            old(self)@.wf(),
        ensures
            final(self)@.wf(),
            outcome == old(self)@.cash_out_outcome(msg.user_id, live),
            final(self)@ == old(self)@.after_cash_out(msg.user_id, live),
    {
        proof {
            lemma_cash_out_keeps_wf(self@, msg.user_id, live);
        }
        let crash_point = match (self.phase, self.crash_point) {
            (CrashPhase::Running, Some(point)) => point,
            _ => {
                return Err(CashoutFromCrashError::GameNotStarted);
            },
        };
        match self.find_bet(msg.user_id) {
            Some(i) => {
                proof {
                    lemma_place_is_unique(self.players@, i as int);
                }
                if self.players[i].cashed_out {
                    return Err(CashoutFromCrashError::AlreadyCashedOut);
                }
                let shown = display(crash_point, self.multiplier, live);
                self.players[i].cashed_out = true;
                self.players[i].cashed_out_at = shown;
                assert(self.players@ =~= old(self)@.after_cash_out(msg.user_id, live).players);
                Ok(shown)
            },
            None => Err(CashoutFromCrashError::UserNotFound),
        }
    }

    /// Starts the round at `now_ms` under the name `round_id` and with the
    /// seeds `seeds`, if bets have been taken; the crash point is the one
    /// that the seeds give. Outside the betting phase nothing happens.
    pub fn start_round(&mut self, round_id: String, seeds: SeedPair, now_ms: u64) -> (started:
        bool)
        requires
            old(self)@.wf(),
        ensures
            final(self)@.wf(),
            started == (old(self)@.phase is Betting),
            final(self)@ == old(self)@.after_start(
                round_id@,
                seeds.public_seed@,
                seeds.private_seed@,
                now_ms,
            ),
    {
        proof {
            lemma_start_keeps_wf(
                self@,
                round_id@,
                seeds.public_seed@,
                seeds.private_seed@,
                now_ms,
            );
        }
        match self.phase {
            CrashPhase::Betting => {
                let point = derive_crash_point(
                    seeds.public_seed.as_str(),
                    seeds.private_seed.as_str(),
                );
                self.phase = CrashPhase::Running;
                self.multiplier = START_MULTIPLIER;
                self.crash_point = Some(point);
                self.started_at = Some(now_ms);
                self.round_id = Some(round_id);
                self.public_seed = Some(seeds.public_seed);
                self.private_seed = Some(seeds.private_seed);
                true
            },
            _ => false,
        }
    }

    /// Brings the multiplier on display up to date with the curve's value
    /// `live`, in hundredths, and ends the round where the crash point is
    /// reached. What is shown never falls and never passes the crash point.
    pub fn update_game(&mut self, live: u64)
        requires
            old(self)@.wf(),
        ensures
            final(self)@.wf(),
            final(self)@ == old(self)@.after_tick(live),
    {
        proof {
            lemma_tick_keeps_wf(self@, live);
        }
        match (self.phase, self.crash_point) {
            (CrashPhase::Running, Some(point)) => {
                let shown = display(point, self.multiplier, live);
                self.multiplier = shown;
                if shown >= point {
                    self.phase = CrashPhase::Crashed;
                }
            },
            _ => {},
        }
    }

    /// Clears the session at the end of the pause: no round, no bets.
    /// Outside the pause nothing happens.
    pub fn reset_game(&mut self)
        requires
            old(self)@.wf(),
        ensures
            final(self)@.wf(),
            final(self)@ == old(self)@.after_cooldown(),
    {
        match self.phase {
            CrashPhase::Crashed => {
                self.phase = CrashPhase::Idle;
                self.players.clear();
                self.multiplier = START_MULTIPLIER;
                self.crash_point = None;
                self.started_at = None;
                self.round_id = None;
                self.public_seed = None;
                self.private_seed = None;
                assert(self@.players =~= Seq::<Bet>::empty());
                assert(bettor_ids(self@.players) =~= Seq::<i32>::empty());
            },
            _ => {},
        }
    }

    /// Answers the notice that the round has crashed with the timer that
    /// ends the pause; `None` where no round has crashed.
    pub fn handle_reset(&self, msg: ResetCrashGame) -> (timer: Option<TimerCommand>)
        ensures
            timer == if self@.phase is Crashed {
                Some(
                    TimerCommand::After {
                        delay_ms: COOLDOWN_MS,
                        event: TimerEvent::CooldownExpired,
                    },
                )
            } else {
                None
            },
    {
        match self.phase {
            CrashPhase::Crashed => Some(
                TimerCommand::After { delay_ms: COOLDOWN_MS, event: TimerEvent::CooldownExpired },
            ),
            _ => None,
        }
    }
}

impl CrashGame {
    /// Closes the betting and starts the round at `now_ms`: draws a name
    /// and a pair of seeds, fixes the crash point, and returns the message
    /// that shows the public seed and the request for the ticks. Outside the
    /// betting phase nothing happens.
    pub fn run_game_loop(&mut self, now_ms: u64) -> (output: CrashOutput)
        requires
            old(self)@.wf(),
        ensures
            final(self)@.wf(),
            old(self)@.round_started(final(self)@, now_ms),
            texts_of(output.messages@) == old(self)@.start_messages(final(self)@),
            output.timers@ == old(self)@.start_timers(),
    {
        let mut output = CrashOutput::silent();
        match self.phase {
            CrashPhase::Betting => {
                let round_id = fresh_id();
                let seeds = new_seed_pair();
                let announcement = start_message(round_id.as_str(), seeds.public_seed.as_str());
                self.start_round(round_id, seeds, now_ms);
                output.messages.push(announcement);
                output.timers.push(
                    TimerCommand::Every { interval_ms: TICK_INTERVAL_MS, event: TimerEvent::Tick },
                );
            },
            _ => {},
        }
        assert(texts_of(output.messages@) =~= old(self)@.start_messages(self@));
        assert(output.timers@ =~= old(self)@.start_timers());
        output
    }

    /// One tick with the curve at `live`: brings the multiplier up to date and returns
    /// the message that shows it. Where the round crashes, the message with
    /// the crash point and the private seed follows, the timers of the round
    /// are dropped and the pause is armed. Outside a running round nothing
    /// happens.
    pub fn tick(&mut self, live: u64) -> (output: CrashOutput)
        requires
            old(self)@.wf(),
        ensures
            final(self)@.wf(),
            final(self)@ == old(self)@.after_tick(live),
            texts_of(output.messages@) == old(self)@.tick_messages(live),
            output.timers@ == old(self)@.tick_timers(live),
    {
        let mut output = CrashOutput::silent();
        match self.phase {
            CrashPhase::Running => {
                self.update_game(live);
                output.messages.push(multiplier_message(self.multiplier));
                match (self.phase, self.crash_point, &self.private_seed) {
                    (CrashPhase::Crashed, Some(point), Some(private_seed)) => {
                        output.messages.push(crash_message(point, private_seed.as_str()));
                        output.timers.push(TimerCommand::CancelAll);
                        output.timers.push(
                            TimerCommand::After {
                                delay_ms: COOLDOWN_MS,
                                event: TimerEvent::CooldownExpired,
                            },
                        );
                    },
                    _ => {},
                }
            },
            _ => {},
        }
        assert(texts_of(output.messages@) =~= old(self)@.tick_messages(live));
        assert(output.timers@ =~= old(self)@.tick_timers(live));
        output
    }

    /// Ends the pause: clears the session and drops what is left of its
    /// timers, so that nothing of the old round can fire into the next.
    /// Outside the pause nothing happens.
    pub fn end_cooldown(&mut self) -> (output: CrashOutput)
        requires
            old(self)@.wf(),
        ensures
            final(self)@.wf(),
            final(self)@ == old(self)@.after_cooldown(),
            output.messages@.len() == 0,
            output.timers@ == old(self)@.cooldown_timers(),
    {
        let mut output = CrashOutput::silent();
        match self.phase {
            CrashPhase::Crashed => {
                self.reset_game();
                output.timers.push(TimerCommand::CancelAll);
            },
            _ => {},
        }
        assert(output.timers@ =~= old(self)@.cooldown_timers());
        output
    }

    /// Takes the event of a timer that has fired at `now_ms`, with the curve
    /// of the round at `live`. Every event is acted on in the phase that it
    /// belongs to and ignored in the others; an event of another game is
    /// ignored always.
    pub fn handle_timer(&mut self, event: TimerEvent, now_ms: u64, live: u64) -> (output:
        CrashOutput)
        requires
            old(self)@.wf(),
        ensures
            final(self)@.wf(),
            old(self)@.timer_step(final(self)@, event, now_ms, live),
            texts_of(output.messages@) == old(self)@.timer_messages(final(self)@, event, live),
            output.timers@ == old(self)@.timer_timers(event, live),
    {
        match event {
            TimerEvent::BettingClosed => self.run_game_loop(now_ms),
            TimerEvent::Tick => self.tick(live),
            TimerEvent::CooldownExpired => self.end_cooldown(),
            TimerEvent::CountdownExpired => {
                let output = CrashOutput::silent();
                assert(texts_of(output.messages@) =~= Seq::<JsonText>::empty());
                assert(output.timers@ =~= Seq::<TimerCommand>::empty());
                output
            },
        }
    }
}

} // verus!
