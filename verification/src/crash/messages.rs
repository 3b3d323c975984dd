//! The messages of the crash game and their texts.

use vstd::prelude::*;
use vstd::string::*;

use crate::money::{amount_text, push_amount};
use crate::wire::{object_of_two_texts, two_text_object};

verus! {

/// A structured message to clients: a free text and the kind it belongs to.
#[derive(Clone, Debug)]
pub struct ClientMessageJson {
    pub msg: String,
    pub msg_type: String,
}

/// What goes to the connections of the crash hub.
#[derive(Clone, Debug)]
pub enum ClientMessage {
    /// A text that is sent as it is.
    Text(String),
    /// A structured message, sent as a JSON object.
    Json(ClientMessageJson),
}

/// A bet on the coming round. The amount is in cents.
#[derive(Clone, Copy, Debug)]
pub struct AddPlayerToCrash {
    pub user_id: i32,
    pub bet_amount: u64,
}

/// A request to leave the running round at the current multiplier.
#[derive(Clone, Copy, Debug)]
pub struct CashOutFromCrash {
    pub user_id: i32,
}

/// Tells the session that the round has crashed and the pause may begin.
#[derive(Clone, Copy, Debug)]
pub struct ResetCrashGame;

/// Why a cash-out was refused.
#[derive(Clone, Copy, Debug, PartialEq, Eq, Structural)]
pub enum CashoutFromCrashError {
    /// No round is running: none has started yet, or the last has crashed.
    GameNotStarted,
    /// The participant has no bet in this round.
    UserNotFound,
    /// The participant has left this round already.
    AlreadyCashedOut,
}

/// Why a bet was refused.
#[derive(Clone, Copy, Debug, PartialEq, Eq, Structural)]
pub enum DepositInCrashError {
    /// The round is running or has crashed; bets are taken again after the
    /// pause.
    GameAlreadyStarted,
    /// The participant's bets together would not fit in 64 bits.
    InvalidAmount,
}

/// The contents of a structured message, as texts.
pub ghost struct JsonText {
    pub msg: Seq<char>,
    pub msg_type: Seq<char>,
}

impl View for ClientMessageJson {
    type V = JsonText;

    open spec fn view(&self) -> JsonText {
        JsonText { msg: self.msg@, msg_type: self.msg_type@ }
    }
}

/// The contents of each message of `messages`.
pub open spec fn texts_of(messages: Seq<ClientMessageJson>) -> Seq<JsonText> {
    Seq::new(messages.len(), |i: int| messages[i]@)
}

impl JsonText {
    /// The JSON object that carries this message.
    pub open spec fn wire_text(self) -> Seq<char> {
        object_of_two_texts("msg"@, self.msg, "msg_type"@, self.msg_type)
    }
}

/// The message that opens a round: the public seed and the round's name.
pub open spec fn start_text(round_id: Seq<char>, public_seed: Seq<char>) -> JsonText {
    JsonText {
        msg: "Crash Started, public seed: "@ + public_seed + ", round: "@ + round_id,
        msg_type: "start"@,
    }
}

/// The message of one tick: the multiplier that is shown.
pub open spec fn multiplier_text(multiplier: nat) -> JsonText {
    JsonText { msg: amount_text(multiplier), msg_type: "multiplier"@ }
}

/// The message that ends a round: the crash point and the private seed.
pub open spec fn crash_text(crash_point: nat, private_seed: Seq<char>) -> JsonText {
    JsonText {
        msg: "Crash point reached: "@ + amount_text(crash_point) + ", private seed: "@
            + private_seed,
        msg_type: "crash"@,
    }
}

/// The answer to a bet.
pub open spec fn deposit_reply_text(outcome: Result<(), DepositInCrashError>) -> JsonText {
    match outcome {
        Ok(_) => JsonText { msg: "Successfully deposited"@, msg_type: "success_deposit"@ },
        Err(DepositInCrashError::GameAlreadyStarted) => JsonText {
            msg: "Game already started"@,
            msg_type: "failed_to_deposit"@,
        },
        Err(DepositInCrashError::InvalidAmount) => JsonText {
            msg: "Invalid amount"@,
            msg_type: "failed_to_deposit"@,
        },
    }
}

/// The answer to a cash-out.
pub open spec fn cash_out_reply_text(outcome: Result<u64, CashoutFromCrashError>) -> JsonText {
    match outcome {
        Ok(_) => JsonText { msg: "Cashed out successfully"@, msg_type: "success_cashout"@ },
        Err(CashoutFromCrashError::AlreadyCashedOut) => JsonText {
            msg: "Already cashed out"@,
            msg_type: "failed_to_cashout"@,
        },
        Err(CashoutFromCrashError::GameNotStarted) => JsonText {
            msg: "Game not started"@,
            msg_type: "failed_to_cashout"@,
        },
        Err(CashoutFromCrashError::UserNotFound) => JsonText {
            msg: "User haven't deposited"@,
            msg_type: "failed_to_cashout"@,
        },
    }
}

impl CashoutFromCrashError {
    /// A sentence that names the error.
    pub fn describe(&self) -> (text: &'static str)
        ensures
            text@ == match *self {
                CashoutFromCrashError::GameNotStarted => "Game is not started"@,
                CashoutFromCrashError::UserNotFound => "User not found in the game"@,
                CashoutFromCrashError::AlreadyCashedOut => "Already cashed out"@,
            },
    {
        match self {
            CashoutFromCrashError::GameNotStarted => "Game is not started",
            CashoutFromCrashError::UserNotFound => "User not found in the game",
            CashoutFromCrashError::AlreadyCashedOut => "Already cashed out",
        }
    }
}

impl DepositInCrashError {
    /// A sentence that names the error.
    pub fn describe(&self) -> (text: &'static str)
        ensures
            text@ == match *self {
                DepositInCrashError::GameAlreadyStarted => "Game is already started"@,
                DepositInCrashError::InvalidAmount => "Amount is too large"@,
            },
    {
        match self {
            DepositInCrashError::GameAlreadyStarted => "Game is already started",
            DepositInCrashError::InvalidAmount => "Amount is too large",
        }
    }
}

impl ClientMessageJson {
    /// A message of the kind `msg_type` with the text `msg`.
    pub fn new(msg: &str, msg_type: &str) -> (message: ClientMessageJson)
        ensures
            message@ == (JsonText { msg: msg@, msg_type: msg_type@ }),
    {
        ClientMessageJson { msg: String::from_str(msg), msg_type: String::from_str(msg_type) }
    }

    /// The JSON object `{"msg":..,"msg_type":..}` for this message.
    pub fn to_wire(&self) -> (text: String)
        ensures
            text@ == self@.wire_text(),
    {
        two_text_object("msg", self.msg.as_str(), "msg_type", self.msg_type.as_str())
    }
}

/// The message that opens a round.
pub fn start_message(round_id: &str, public_seed: &str) -> (message: ClientMessageJson)
    ensures
        message@ == start_text(round_id@, public_seed@),
{
    let mut msg = String::from_str("Crash Started, public seed: ");
    msg.append(public_seed);
    msg.append(", round: ");
    msg.append(round_id);
    ClientMessageJson { msg, msg_type: String::from_str("start") }
}

/// The message of one tick.
pub fn multiplier_message(multiplier: u64) -> (message: ClientMessageJson)
    ensures
        message@ == multiplier_text(multiplier as nat),
{
    let mut msg = String::new();
    push_amount(&mut msg, multiplier);
    assert(msg@ =~= amount_text(multiplier as nat));
    ClientMessageJson { msg, msg_type: String::from_str("multiplier") }
}

/// The message that ends a round.
pub fn crash_message(crash_point: u64, private_seed: &str) -> (message: ClientMessageJson)
    ensures
        message@ == crash_text(crash_point as nat, private_seed@),
{
    let mut msg = String::from_str("Crash point reached: ");
    push_amount(&mut msg, crash_point);
    msg.append(", private seed: ");
    msg.append(private_seed);
    ClientMessageJson { msg, msg_type: String::from_str("crash") }
}

/// The answer to a bet.
pub fn deposit_reply(outcome: Result<(), DepositInCrashError>) -> (message: ClientMessageJson)
    ensures
        message@ == deposit_reply_text(outcome),
{
    match outcome {
        Ok(_) => ClientMessageJson::new("Successfully deposited", "success_deposit"),
        Err(DepositInCrashError::GameAlreadyStarted) => ClientMessageJson::new(
            "Game already started",
            "failed_to_deposit",
        ),
        Err(DepositInCrashError::InvalidAmount) => ClientMessageJson::new(
            "Invalid amount",
            "failed_to_deposit",
        ),
    }
}

/// The answer to a cash-out.
pub fn cash_out_reply(outcome: Result<u64, CashoutFromCrashError>) -> (message: ClientMessageJson)
    ensures
        message@ == cash_out_reply_text(outcome),
{
    match outcome {
        Ok(_) => ClientMessageJson::new("Cashed out successfully", "success_cashout"),
        Err(CashoutFromCrashError::AlreadyCashedOut) => ClientMessageJson::new(
            "Already cashed out",
            "failed_to_cashout",
        ),
        Err(CashoutFromCrashError::GameNotStarted) => ClientMessageJson::new(
            "Game not started",
            "failed_to_cashout",
        ),
        Err(CashoutFromCrashError::UserNotFound) => ClientMessageJson::new(
            "User haven't deposited",
            "failed_to_cashout",
        ),
    }
}

} // verus!
