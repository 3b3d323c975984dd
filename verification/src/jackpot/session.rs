//! The session of the jackpot game: who has deposited how much, and who wins
//! a given draw.
//!
//! Every participant holds a span of numbers as long as the deposit, the
//! spans follow each other in the order in which the participants came, and
//! together they fill the numbers from zero up to the total. A draw is one of
//! these numbers; the participant whose span holds it wins. Deposits that
//! come while the countdown runs take part in the draw like the others.

use vstd::prelude::*;
use vstd::string::*;

use crate::fairness::random_below;

verus! {

/// A participant of the jackpot and the deposit, in cents.
#[derive(Debug)]
pub struct Player {
    pub user_id: i32,
    pub name: String,
    pub deposit: u64,
}

/// What a participant's entry holds.
pub ghost struct PlayerView {
    pub user_id: i32,
    pub name: Seq<char>,
    pub deposit: u64,
}

impl View for Player {
    type V = PlayerView;

    open spec fn view(&self) -> PlayerView {
        PlayerView { user_id: self.user_id, name: self.name@, deposit: self.deposit }
    }
}

/// What each entry of `players` holds.
pub open spec fn entries_of(players: Seq<Player>) -> Seq<PlayerView> {
    Seq::new(players.len(), |i: int| players[i]@)
}

/// The participants of `players`, in order.
pub open spec fn depositor_ids(players: Seq<PlayerView>) -> Seq<i32> {
    Seq::new(players.len(), |i: int| players[i].user_id)
}

/// The sum of the deposits of `players`.
pub open spec fn total_of(players: Seq<PlayerView>) -> nat
    decreases players.len(),
{
    if players.len() == 0 {
        0
    } else {
        total_of(players.drop_last()) + players.last().deposit as nat
    }
}

/// The number at which the span of the participant at place `i` begins: the
/// sum of the deposits of those who came before.
pub open spec fn span_start(players: Seq<PlayerView>, i: int) -> nat {
    total_of(players.take(i))
}

/// Whether the participant at place `i` wins the draw `roll`: the draw lies
/// in the participant's span.
pub open spec fn wins(players: Seq<PlayerView>, i: int, roll: nat) -> bool {
    &&& 0 <= i < players.len()
    &&& span_start(players, i) <= roll < span_start(players, i) + players[i].deposit
}

/// `players` after a deposit by `player`: the deposit is added to what the
/// participant holds and the name is brought up to date, or a new entry
/// stands at the end.
pub open spec fn entries_with(players: Seq<PlayerView>, player: PlayerView) -> Seq<PlayerView> {
    let ids = depositor_ids(players);
    if ids.contains(player.user_id) {
        let i = ids.index_of(player.user_id);
        players.update(
            i,
            PlayerView {
                user_id: player.user_id,
                name: player.name,
                deposit: (players[i].deposit + player.deposit) as u64,
            },
        )
    } else {
        players.push(player)
    }
}

/// The state of a jackpot session.
pub ghost struct GameSessionView {
    pub players: Seq<PlayerView>,
    pub timer_started: bool,
}

impl GameSessionView {
    /// The session without participants.
    pub open spec fn empty() -> GameSessionView {
        GameSessionView { players: Seq::empty(), timer_started: false }
    }

    /// The invariant of a session: nobody stands in it twice, the total fits
    /// in 64 bits, and the countdown runs only with two participants or
    /// more.
    pub open spec fn wf(self) -> bool {
        &&& depositor_ids(self.players).no_duplicates()
        &&& total_of(self.players) <= u64::MAX
        &&& self.timer_started ==> self.players.len() >= 2
    }

    /// Whether a deposit by `player` can be taken: the total must still fit
    /// in 64 bits.
    pub open spec fn can_take(self, player: PlayerView) -> bool {
        total_of(self.players) + player.deposit <= u64::MAX
    }

    /// The state after a deposit by `player`.
    pub open spec fn after_deposit(self, player: PlayerView) -> GameSessionView {
        if self.can_take(player) {
            GameSessionView {
                players: entries_with(self.players, player),
                timer_started: self.timer_started,
            }
        } else {
            self
        }
    }

    /// Whether the countdown is due: two participants or more, and no
    /// countdown yet.
    pub open spec fn countdown_due(self) -> bool {
        self.players.len() >= 2 && !self.timer_started
    }

    /// The state after the countdown has been started where it was due.
    pub open spec fn after_countdown_start(self) -> GameSessionView {
        if self.countdown_due() {
            GameSessionView { players: self.players, timer_started: true }
        } else {
            self
        }
    }
}

/// The total of a list with one more entry at the end.
pub proof fn lemma_total_of_push(players: Seq<PlayerView>, player: PlayerView)
    ensures
        total_of(players.push(player)) == total_of(players) + player.deposit,
{
    assert(players.push(player).drop_last() =~= players);
}

/// The total of a list in which one entry has been replaced.
pub proof fn lemma_total_of_update(players: Seq<PlayerView>, i: int, player: PlayerView)
    requires
        0 <= i < players.len(),
    ensures
        total_of(players.update(i, player)) == total_of(players) - players[i].deposit
            + player.deposit,
    decreases players.len(),
{
    let updated = players.update(i, player);
    if i == players.len() - 1 {
        assert(updated.drop_last() =~= players.drop_last());
    } else {
        assert(updated.drop_last() =~= players.drop_last().update(i, player));
        lemma_total_of_update(players.drop_last(), i, player);
    }
}

/// The spans follow each other: each begins where the one before ends, the
/// first begins at zero and the last ends at the total.
pub proof fn lemma_spans_are_adjacent(players: Seq<PlayerView>, i: int)
    requires
        0 <= i < players.len(),
    ensures
        span_start(players, 0) == 0,
        span_start(players, i + 1) == span_start(players, i) + players[i].deposit,
        span_start(players, players.len() as int) == total_of(players),
        span_start(players, i + 1) <= total_of(players),
    decreases players.len() - i,
{
    assert(players.take(0) =~= Seq::<PlayerView>::empty());
    assert(players.take(i + 1).drop_last() =~= players.take(i));
    assert(players.take(players.len() as int) =~= players);
    if i + 1 < players.len() {
        lemma_spans_are_adjacent(players, i + 1);
    }
}

/// A later span never begins before an earlier one.
pub proof fn lemma_spans_are_ordered(players: Seq<PlayerView>, i: int, j: int)
    requires
        0 <= i <= j <= players.len(),
    ensures
        span_start(players, i) <= span_start(players, j),
    decreases j - i,
{
    if i < j {
        lemma_spans_are_adjacent(players, j - 1);
        lemma_spans_are_ordered(players, i, j - 1);
    }
}

/// A draw has at most one winner.
pub proof fn lemma_winner_is_unique(players: Seq<PlayerView>, i: int, j: int, roll: nat)
    requires
        wins(players, i, roll),
        wins(players, j, roll),
    ensures
        i == j,
{
    if i < j {
        lemma_spans_are_adjacent(players, i);
        lemma_spans_are_ordered(players, i + 1, j);
    } else if j < i {
        lemma_spans_are_adjacent(players, j);
        lemma_spans_are_ordered(players, j + 1, i);
    }
}

/// Every draw below the total has a winner, and no other draw has one.
pub proof fn lemma_every_draw_has_a_winner(players: Seq<PlayerView>, roll: nat)
    ensures
        roll < total_of(players) <==> exists|i: int| wins(players, i, roll),
    decreases players.len(),
{
    if players.len() == 0 {
        assert(players.take(0) =~= players);
    } else {
        let last = players.len() - 1;
        let front = players.drop_last();
        lemma_spans_are_adjacent(players, last);
        lemma_every_draw_has_a_winner(front, roll);
        assert(players.take(last) =~= front);
        if roll < total_of(front) {
            let i = choose|i: int| wins(front, i, roll);
            assert(front.take(i) =~= players.take(i));
            assert(wins(players, i, roll));
        } else if roll < total_of(players) {
            assert(wins(players, last, roll));
        } else {
            assert forall|i: int| !wins(players, i, roll) by {
                if 0 <= i < players.len() {
                    lemma_spans_are_adjacent(players, i);
                }
            }
        }
    }
}

/// The chance of a participant is the deposit's share of the total: among
/// the draws `0 .. total`, those that the participant at place `i` wins are
/// the `deposit` numbers from the start of the span on, and no others.
pub proof fn lemma_chance_is_proportional(players: Seq<PlayerView>, i: int)
    requires
        0 <= i < players.len(),
    ensures
        span_start(players, i) + players[i].deposit <= total_of(players),
        Set::new(|roll: int| 0 <= roll && wins(players, i, roll as nat)) =~= Set::new(
            |roll: int|
                span_start(players, i) <= roll < span_start(players, i) + players[i].deposit,
        ),
        Set::new(|roll: int| 0 <= roll && wins(players, i, roll as nat)).len()
            == players[i].deposit,
{
    lemma_spans_are_adjacent(players, i);
    let low = span_start(players, i) as int;
    let high = low + players[i].deposit;
    let won = Set::new(|roll: int| 0 <= roll && wins(players, i, roll as nat));
    let span = Set::new(|roll: int| low <= roll < high);
    assert(won =~= span);
    vstd::set_lib::lemma_int_range(low, high);
    assert(span =~= vstd::set_lib::set_int_range(low, high));
}

/// A jackpot session.
pub struct GameSession {
    players: Vec<Player>,
    timer_started: bool,
}

impl View for GameSession {
    type V = GameSessionView;

    closed spec fn view(&self) -> GameSessionView {
        GameSessionView {
            players: entries_of(self.players@),
            timer_started: self.timer_started,
        }
    }
}

/// A deposit keeps the session well formed and raises the total by exactly
/// the deposit.
pub proof fn lemma_deposit_keeps_wf(state: GameSessionView, player: PlayerView)
    requires
        state.wf(),
    ensures
        state.after_deposit(player).wf(),
        state.can_take(player) ==> total_of(state.after_deposit(player).players) == total_of(
            state.players,
        ) + player.deposit,
        state.after_deposit(player).players.len() >= state.players.len(),
{
    if state.can_take(player) {
        let ids = depositor_ids(state.players);
        let after = state.after_deposit(player);
        let new_ids = depositor_ids(after.players);
        if ids.contains(player.user_id) {
            let i = ids.index_of(player.user_id);
            assert(ids[i] == state.players[i].user_id);
            lemma_spans_are_adjacent(state.players, i);
            lemma_total_of_update(state.players, i, after.players[i]);
            assert(new_ids =~= ids);
        } else {
            lemma_total_of_push(state.players, player);
            assert forall|a: int, b: int|
                0 <= a < new_ids.len() && 0 <= b < new_ids.len() && a != b implies new_ids[a]
                != new_ids[b] by {
                if a < ids.len() {
                    assert(ids[a] == new_ids[a]);
                }
                if b < ids.len() {
                    assert(ids[b] == new_ids[b]);
                }
            }
        }
    }
}

impl Player {
    /// A copy of this entry.
    pub fn copy(&self) -> (copy: Player)
        ensures
            copy@ == self@,
    {
        Player { user_id: self.user_id, name: self.name.clone(), deposit: self.deposit }
    }
}

impl GameSession {
    /// A session without participants.
    pub fn new() -> (session: GameSession)
        ensures
            session@ == GameSessionView::empty(),
            session@.wf(),
    {
        let session = GameSession { players: Vec::new(), timer_started: false };
        assert(session@.players =~= Seq::<PlayerView>::empty());
        assert(depositor_ids(session@.players) =~= Seq::<i32>::empty());
        session
    }

    /// The number of participants.
    pub fn len(&self) -> (count: usize)
        ensures
            count == self@.players.len(),
    {
        self.players.len()
    }

    /// Whether the countdown runs.
    pub fn timer_started(&self) -> (running: bool)
        ensures
            running == self@.timer_started,
    {
        self.timer_started
    }

    /// The participants, in the order in which they came.
    pub fn players(&self) -> (entries: Vec<Player>)
        ensures
            entries_of(entries@) == self@.players,
    {
        let mut entries: Vec<Player> = Vec::new();
        let mut i: usize = 0;
        while i < self.players.len()
            invariant
                i <= self.players.len(),
                entries@.len() == i,
                forall|j: int| 0 <= j < i ==> entries@[j]@ == self.players@[j]@,
            decreases self.players.len() - i,
        {
            entries.push(self.players[i].copy());
            i += 1;
        }
        assert(entries_of(entries@) =~= self@.players);
        entries
    }

    /// The sum of all deposits, in cents.
    pub fn total(&self) -> (total: u64)
        requires
            self@.wf(),
        ensures
            total == total_of(self@.players),
    {
        let ghost entries = self@.players;
        let mut total: u64 = 0;
        let mut i: usize = 0;
        assert(entries.take(0) =~= Seq::<PlayerView>::empty());
        while i < self.players.len()
            invariant
                i <= self.players.len(),
                entries == entries_of(self.players@),
                total_of(entries) <= u64::MAX,
                total == span_start(entries, i as int),
            decreases self.players.len() - i,
        {
            proof {
                lemma_spans_are_adjacent(entries, i as int);
            }
            total = total + self.players[i].deposit;
            i += 1;
        }
        assert(entries.take(entries.len() as int) =~= entries);
        total
    }

    /// The place of the entry of `user_id`, if there is one.
    fn find(&self, user_id: i32) -> (found: Option<usize>)
        ensures
            match found {
                Some(i) => i < self.players@.len() && self.players@[i as int].user_id == user_id,
                None => !depositor_ids(self@.players).contains(user_id),
            },
    {
        let mut i: usize = 0;
        while i < self.players.len()
            invariant
                i <= self.players.len(),
                forall|j: int| 0 <= j < i ==> self.players@[j].user_id != user_id,
            decreases self.players.len() - i,
        {
            if self.players[i].user_id == user_id {
                return Some(i);
            }
            i += 1;
        }
        assert forall|j: int| 0 <= j < depositor_ids(self@.players).len() implies depositor_ids(
            self@.players,
        )[j] != user_id by {}
        None
    }

    /// Takes a deposit. What a participant deposits again is added to what
    /// the participant holds. The one deposit that is refused is one with
    /// which the total would no longer fit in 64 bits; it changes nothing.
    pub fn add_player(&mut self, player: Player) -> (accepted: bool)
        requires
            old(self)@.wf(),
        ensures
            final(self)@.wf(),
            accepted == old(self)@.can_take(player@),
            final(self)@ == old(self)@.after_deposit(player@),
    {
        proof {
            lemma_deposit_keeps_wf(self@, player@);
        }
        let total = self.total();
        if player.deposit > u64::MAX - total {
            return false;
        }
        match self.find(player.user_id) {
            Some(i) => {
                proof {
                    let ids = depositor_ids(self@.players);
                    assert(ids[i as int] == player.user_id);
                    lemma_spans_are_adjacent(self@.players, i as int);
                }
                let held = self.players[i].deposit;
                self.players[i].deposit = held + player.deposit;
                self.players[i].name = player.name;
                assert(entries_of(self.players@) =~= entries_with(
                    old(self)@.players,
                    player@,
                ));
            },
            None => {
                self.players.push(player);
                assert(entries_of(self.players@) =~= entries_with(
                    old(self)@.players,
                    player@,
                ));
            },
        }
        true
    }

    /// Starts the countdown if it is due: with two participants or more and
    /// no countdown yet.
    pub fn begin_countdown(&mut self) -> (begun: bool)
        requires
            old(self)@.wf(),
        ensures
            final(self)@.wf(),
            begun == old(self)@.countdown_due(),
            final(self)@ == old(self)@.after_countdown_start(),
    {
        if self.players.len() >= 2 && !self.timer_started {
            self.timer_started = true;
            true
        } else {
            false
        }
    }

    /// The winner of the draw `roll`: the participant whose span holds it.
    /// A draw at or above the total has no winner.
    pub fn draw_winner(&self, roll: u64) -> (winner: Option<Player>)
        requires
            self@.wf(),
        ensures
            match winner {
                Some(player) => exists|i: int|
                    wins(self@.players, i, roll as nat) && player@ == self@.players[i],
                None => roll >= total_of(self@.players),
            },
    {
        let ghost entries = self@.players;
        let mut remaining: u64 = roll;
        let mut i: usize = 0;
        assert(entries.take(0) =~= Seq::<PlayerView>::empty());
        while i < self.players.len()
            invariant
                i <= self.players.len(),
                entries == entries_of(self.players@),
                span_start(entries, i as int) <= roll,
                remaining == roll - span_start(entries, i as int),
            decreases self.players.len() - i,
        {
            proof {
                lemma_spans_are_adjacent(entries, i as int);
            }
            if remaining < self.players[i].deposit {
                let winner = self.players[i].copy();
                assert(winner@ == entries[i as int]);
                assert(wins(self@.players, i as int, roll as nat) && winner@
                    == self@.players[i as int]);
                return Some(winner);
            }
            remaining = remaining - self.players[i].deposit;
            i += 1;
        }
        assert(entries.take(entries.len() as int) =~= entries);
        None
    }

    /// Draws the winner: a number below the total comes from the random
    /// generator, and the participant whose span holds it wins. Without a
    /// deposit above zero there is nothing to draw from and nobody wins.
    pub fn start_game(&self) -> (winner: Option<Player>)
        requires
            self@.wf(),
        ensures
            match winner {
                Some(player) => exists|i: int, roll: nat|
                    wins(self@.players, i, roll) && player@ == self@.players[i],
                None => total_of(self@.players) == 0,
            },
    {
        let total = self.total();
        if total == 0 {
            return None;
        }
        let roll = random_below(total);
        let winner = self.draw_winner(roll);
        proof {
            if winner is Some {
                let player = winner->0;
                let i = choose|i: int|
                    wins(self@.players, i, roll as nat) && player@ == self@.players[i];
                assert(wins(self@.players, i, roll as nat) && player@ == self@.players[i]);
            }
        }
        winner
    }
}

} // verus!
