//! What the service answers to its three requests, and the life of an
//! admitted batch.
//!
//! Requests arrive here as plain values: the request id taken from the
//! header, if there was one, and the body, if it could be parsed. Amounts
//! are in cents.

use vstd::prelude::*;
use crate::db::api::{
    balance_or_zero, can_transfer, credit_fits, credited, transfer_fits, transfer_outcome,
    transferred, try_add_money, Engine, LedgerError,
};
use crate::fund::wire::{fresh_uuid, Fund};
use crate::uuid_cache::{
    admits, admitted, check_and_add_batch_pay, check_and_add_trade, UuidCache,
};

verus! {

/// HTTP status of an accepted request.
pub const STATUS_OK: u16 = 200;

/// HTTP status of a refused request.
pub const STATUS_BAD_REQUEST: u16 = 400;

/// The code reported in the body of an accepted request, and the code with
/// which the upstream acknowledges the end of a batch.
pub const CODE_OK: i32 = 200;

/// Time allowed for one attempt to tell the upstream that a batch is
/// complete, in milliseconds.
pub const FINISH_TIMEOUT_MS: u64 = 600;

/// Body of a request to start a batch.
#[derive(Debug, Clone, PartialEq, Eq)]
pub struct BatchPayJson {
    pub batch_pay_id: String,
    pub uids: Vec<i64>,
}

/// Body of a request to move funds between two users; `amount` is in
/// cents.
#[derive(Debug, Clone, Copy, PartialEq, Eq)]
pub struct UserTradeJson {
    pub source_uid: i64,
    pub target_uid: i64,
    pub amount: i64,
}

/// Body of the notice that tells the upstream that a batch is complete.
#[derive(Debug, Clone, PartialEq, Eq)]
pub struct FinishJson {
    pub batch_pay_id: String,
}

/// Body of the answer to a balance query; the amounts are in cents.
#[derive(Debug, Clone, PartialEq, Eq)]
pub struct QueryUserAmountDataResponse {
    pub code: i32,
    pub msg: String,
    pub request_id: String,
    pub data: Vec<Fund>,
}

/// Why a request was refused.
#[derive(Debug, Clone, Copy, PartialEq, Eq, Structural)]
pub enum Refusal {
    /// A batch with this id was admitted before.
    DuplicateBatch,
    /// A trade with this request id was admitted before.
    DuplicateRequest,
    /// The body could not be parsed.
    InvalidJson,
    /// The amount of a trade is not positive.
    InvalidAmount,
    /// The target of a trade cannot hold the amount on top of its balance.
    TargetFull,
    /// The ledger refused the transfer.
    Ledger(LedgerError),
}

impl Refusal {
    /// The text under which the refusal is reported to the client.
    pub open spec fn message_text(self) -> Seq<char> {
        match self {
            Refusal::DuplicateBatch => "batchPayId already exist"@,
            Refusal::DuplicateRequest => "requestId already exist"@,
            Refusal::InvalidJson => "Invalid JSON"@,
            Refusal::InvalidAmount => "invalid amount"@,
            Refusal::TargetFull => "balance out of range"@,
            Refusal::Ledger(error) => error.message_text(),
        }
    }

    /// The text under which the refusal is reported to the client.
    pub fn message(&self) -> (text: String)
        ensures
            text@ == self.message_text(),
    {
        match self {
            Refusal::DuplicateBatch => "batchPayId already exist".to_owned(),
            Refusal::DuplicateRequest => "requestId already exist".to_owned(),
            Refusal::InvalidJson => "Invalid JSON".to_owned(),
            Refusal::InvalidAmount => "invalid amount".to_owned(),
            Refusal::TargetFull => "balance out of range".to_owned(),
            Refusal::Ledger(error) => error.message(),
        }
    }
}

/// The answer to a request to start a batch or to trade.
#[derive(Debug, Clone, PartialEq, Eq)]
pub enum Reply {
    /// Accepted: code 200, the message `ok`, and the request id echoed.
    Accepted { code: i32, msg: String, request_id: String },
    /// Refused, with the reason in words.
    Refused { error: String },
}

/// A reply with its texts as sequences of characters.
pub enum ReplyView {
    Accepted { code: i32, msg: Seq<char>, request_id: Seq<char> },
    Refused { error: Seq<char> },
}

impl View for Reply {
    type V = ReplyView;

    open spec fn view(&self) -> ReplyView {
        match self {
            Reply::Accepted { code, msg, request_id } => ReplyView::Accepted {
                code: *code,
                msg: msg@,
                request_id: request_id@,
            },
            Reply::Refused { error } => ReplyView::Refused { error: error@ },
        }
    }
}

impl Reply {
    /// The HTTP status that goes with the reply: 200 when accepted, 400 when
    /// refused.
    pub fn status(&self) -> (status: u16)
        ensures
            status == (if self is Accepted {
                STATUS_OK
            } else {
                STATUS_BAD_REQUEST
            }),
    {
        match self {
            Reply::Accepted { .. } => STATUS_OK,
            Reply::Refused { .. } => STATUS_BAD_REQUEST,
        }
    }
}

/// The reply that a verdict calls for.
pub open spec fn reply_to(verdict: Result<(), Refusal>, request_id: Seq<char>) -> ReplyView {
    match verdict {
        Ok(()) => ReplyView::Accepted { code: CODE_OK, msg: "ok"@, request_id },
        Err(refusal) => ReplyView::Refused { error: refusal.message_text() },
    }
}

/// The request id that a reply echoes: the one of the header, or the empty
/// text where the header has none.
pub open spec fn echoed(header: Option<String>) -> Seq<char> {
    match header {
        Some(id) => id@,
        None => Seq::empty(),
    }
}

/// The request id that a reply echoes.
pub fn request_id_of(header: Option<String>) -> (id: String)
    ensures
        id@ == echoed(header),
{
    match header {
        Some(id) => id,
        None => String::new(),
    }
}

fn reply_with(verdict: Result<(), Refusal>, request_id: String) -> (reply: Reply)
    ensures
        reply@ == reply_to(verdict, request_id@),
{
    match verdict {
        Ok(()) => Reply::Accepted { code: CODE_OK, msg: "ok".to_owned(), request_id },
        Err(refusal) => Reply::Refused { error: refusal.message() },
    }
}

/// The verdict on a trade, given the trade ids seen so far and the ledger.
///
/// A request id that was seen before is refused whatever the body holds;
/// then a body that did not parse, then an amount that is not positive or
/// that the target cannot hold; what is left is up to the ledger.
pub open spec fn trade_verdict(
    seen: Set<Seq<char>>,
    m: Map<i64, i64>,
    request_id: Seq<char>,
    body: Option<UserTradeJson>,
) -> Result<(), Refusal> {
    if !admits(seen, request_id) {
        Err(Refusal::DuplicateRequest)
    } else {
        match body {
            None => Err(Refusal::InvalidJson),
            Some(trade) => {
                if trade.amount <= 0 {
                    Err(Refusal::InvalidAmount)
                } else if !transfer_fits(m, trade.source_uid, trade.target_uid, trade.amount) {
                    Err(Refusal::TargetFull)
                } else {
                    match transfer_outcome(m, trade.source_uid, trade.target_uid, trade.amount) {
                        Ok(()) => Ok(()),
                        Err(error) => Err(Refusal::Ledger(error)),
                    }
                }
            },
        }
    }
}

/// The ledger after a trade request: the transfer is made where the verdict
/// is favourable, and nothing changes where it is not.
pub open spec fn ledger_after_trade(
    seen: Set<Seq<char>>,
    m: Map<i64, i64>,
    request_id: Seq<char>,
    body: Option<UserTradeJson>,
) -> Map<i64, i64> {
    match body {
        Some(trade) if trade_verdict(seen, m, request_id, body) is Ok => transferred(
            m,
            trade.source_uid,
            trade.target_uid,
            trade.amount,
        ),
        _ => m,
    }
}

/// Handles a request to trade: admits its request id, then moves the funds.
///
/// The request id counts as seen from here on, whether or not the trade goes
/// through.
pub fn user_trade<E: Engine>(
    cache: &mut UuidCache,
    engine: &mut E,
    header: Option<String>,
    body: Option<UserTradeJson>,
) -> (reply: Reply)
    ensures
        reply@ == reply_to(
            trade_verdict(
                old(cache).trade_ids(),
                old(engine).balances(),
                echoed(header),
                body,
            ),
            echoed(header),
        ),
        final(engine).balances() == ledger_after_trade(
            old(cache).trade_ids(),
            old(engine).balances(),
            echoed(header),
            body,
        ),
        final(cache).trade_ids() == admitted(old(cache).trade_ids(), echoed(header)),
        final(cache).batch_ids() == old(cache).batch_ids(),
{
    let request_id = request_id_of(header);
    if !check_and_add_trade(cache, request_id.clone()) {
        return reply_with(Err(Refusal::DuplicateRequest), request_id);
    }
    let trade = match body {
        Some(trade) => trade,
        None => {
            return reply_with(Err(Refusal::InvalidJson), request_id);
        },
    };
    if trade.amount <= 0 {
        return reply_with(Err(Refusal::InvalidAmount), request_id);
    }
    if !can_transfer(engine, trade.source_uid, trade.target_uid, trade.amount) {
        return reply_with(Err(Refusal::TargetFull), request_id);
    }
    match engine.transfer(trade.source_uid, trade.target_uid, trade.amount) {
        Ok(()) => reply_with(Ok(()), request_id),
        Err(error) => reply_with(Err(Refusal::Ledger(error)), request_id),
    }
}

/// The entry that a balance query reports for `uid`: its balance, or zero
/// where it has no account.
pub open spec fn reported(m: Map<i64, i64>, uid: i64) -> Fund {
    Fund { uid, amount: balance_or_zero(m, uid) as i64 }
}

/// Handles a balance query: one entry per user asked for, in the order
/// asked.
pub fn query_user_amount<E: Engine>(engine: &E, header: Option<String>, uids: &Vec<i64>) -> (answer:
    QueryUserAmountDataResponse)
    ensures
        answer.code == CODE_OK,
        answer.msg@ == "ok"@,
        answer.request_id@ == echoed(header),
        answer.data@.len() == uids@.len(),
        forall|i: int|
            0 <= i < uids@.len() ==> #[trigger] answer.data@[i] == reported(
                engine.balances(),
                uids@[i],
            ),
{
    let mut data: Vec<Fund> = Vec::new();
    let mut i: usize = 0;
    while i < uids.len()
        invariant
            i <= uids@.len(),
            data@.len() == i,
            forall|j: int|
                0 <= j < i ==> #[trigger] data@[j] == reported(engine.balances(), uids@[j]),
        decreases uids@.len() - i,
    {
        let uid = uids[i];
        let amount = match engine.get_balance(uid) {
            Ok(balance) => balance,
            Err(_) => 0,
        };
        data.push(Fund { uid, amount });
        i = i + 1;
    }
    QueryUserAmountDataResponse {
        code: CODE_OK,
        msg: "ok".to_owned(),
        request_id: request_id_of(header),
        data,
    }
}

/// The verdict on a request to start a batch, given the batch ids seen so
/// far: a batch id is admitted once.
pub open spec fn batch_verdict(seen: Set<Seq<char>>, batch_pay_id: Seq<char>) -> Result<
    (),
    Refusal,
> {
    if admits(seen, batch_pay_id) {
        Ok(())
    } else {
        Err(Refusal::DuplicateBatch)
    }
}

/// Handles a request to start a batch: admits its batch id and, where that
/// is granted, hands out the batch to be run. The ledger is not involved.
pub fn batch_pay(cache: &mut UuidCache, header: Option<String>, body: BatchPayJson) -> (outcome: (
    Reply,
    Option<BatchRun>,
))
    ensures
        outcome.0@ == reply_to(
            batch_verdict(old(cache).batch_ids(), body.batch_pay_id@),
            echoed(header),
        ),
        outcome.1 is Some <==> admits(old(cache).batch_ids(), body.batch_pay_id@),
        outcome.1 matches Some(run) ==> run.is_start_of(body),
        final(cache).batch_ids() == admitted(old(cache).batch_ids(), body.batch_pay_id@),
        final(cache).trade_ids() == old(cache).trade_ids(),
{
    let request_id = request_id_of(header);
    if !check_and_add_batch_pay(cache, body.batch_pay_id.clone()) {
        return (reply_with(Err(Refusal::DuplicateBatch), request_id), None);
    }
    (reply_with(Ok(()), request_id), Some(BatchRun::start(body)))
}

/// What became of one user's discovery when it was reported to the batch.
#[derive(Debug, Clone, Copy, PartialEq, Eq, Structural)]
pub enum Settlement {
    /// The amount found was credited to the user.
    Credited,
    /// Discovery came back without an amount; nothing was credited.
    NothingFound,
    /// The amount found does not fit on top of the user's balance; nothing
    /// was credited.
    OutOfRange,
    /// No such user is waiting in this batch; nothing changed.
    Rejected,
}

/// An admitted batch while its users are discovered.
///
/// Each entry of `uids` gets one discovery of its own, and is settled once,
/// when that discovery reports.
#[derive(Debug, Clone, PartialEq, Eq)]
pub struct BatchRun {
    /// The id under which the batch was admitted.
    pub batch_pay_id: String,
    /// The users of the batch, in the order asked.
    pub uids: Vec<i64>,
    /// For each entry of `uids`, whether its discovery has reported.
    pub settled: Vec<bool>,
}

impl BatchRun {
    /// The batch keeps one mark per user.
    pub open spec fn wf(&self) -> bool {
        self.settled@.len() == self.uids@.len()
    }

    /// Whether every discovery of the batch has reported.
    pub open spec fn all_settled(&self) -> bool {
        forall|i: int| 0 <= i < self.settled@.len() ==> self.settled@[i]
    }

    /// Whether the entry at `index` is still waiting for its discovery.
    pub open spec fn awaits(&self, index: usize) -> bool {
        &&& index < self.uids@.len()
        &&& index < self.settled@.len()
        &&& !self.settled@[index as int]
    }

    /// Whether this is the batch asked for by `body`, with every user still
    /// waiting.
    pub open spec fn is_start_of(&self, body: BatchPayJson) -> bool {
        &&& self.wf()
        &&& self.batch_pay_id@ == body.batch_pay_id@
        &&& self.uids@ == body.uids@
        &&& forall|i: int| 0 <= i < self.settled@.len() ==> !self.settled@[i]
    }

    /// The batch asked for by `body`, with every user still waiting.
    pub fn start(body: BatchPayJson) -> (run: Self)
        ensures
            run.is_start_of(body),
    {
        let mut settled: Vec<bool> = Vec::new();
        let mut i: usize = 0;
        while i < body.uids.len()
            invariant
                i <= body.uids@.len(),
                settled@.len() == i,
                forall|j: int| 0 <= j < i ==> !settled@[j],
            decreases body.uids@.len() - i,
        {
            settled.push(false);
            i = i + 1;
        }
        BatchRun { batch_pay_id: body.batch_pay_id, uids: body.uids, settled }
    }

    /// Takes in what the discovery of the user at `index` reports, and
    /// credits the amount found to that user.
    ///
    /// An entry is settled once: a report for an entry that is not waiting
    /// changes nothing.
    pub fn user_settled<E: Engine>(
        &mut self,
        engine: &mut E,
        index: usize,
        discovered: Option<i64>,
    ) -> (settlement: Settlement)
        ensures
            old(self).wf() ==> final(self).wf(),
            final(self).batch_pay_id == old(self).batch_pay_id,
            final(self).uids == old(self).uids,
            settlement == settlement_of(*old(self), old(engine).balances(), index, discovered),
            final(self).settled@ == (if old(self).awaits(index) {
                old(self).settled@.update(index as int, true)
            } else {
                old(self).settled@
            }),
            final(engine).balances() == (if settlement == Settlement::Credited {
                credited(old(engine).balances(), old(self).uids@[index as int], discovered.unwrap())
            } else {
                old(engine).balances()
            }),
    {
        if index >= self.uids.len() || index >= self.settled.len() || self.settled[index] {
            return Settlement::Rejected;
        }
        self.settled.set(index, true);
        match discovered {
            None => Settlement::NothingFound,
            Some(amount) => {
                if try_add_money(engine, self.uids[index], amount) {
                    Settlement::Credited
                } else {
                    Settlement::OutOfRange
                }
            },
        }
    }

    /// Whether every discovery of the batch has reported, so that the
    /// upstream can be told that the batch is complete.
    pub fn is_settled(&self) -> (done: bool)
        ensures
            done == self.all_settled(),
    {
        let mut i: usize = 0;
        while i < self.settled.len()
            invariant
                i <= self.settled@.len(),
                forall|j: int| 0 <= j < i ==> self.settled@[j],
            decreases self.settled@.len() - i,
        {
            if !self.settled[i] {
                return false;
            }
            i = i + 1;
        }
        true
    }

    /// The loop that tells the upstream that the batch is complete, once
    /// every discovery has reported; `None` before that.
    pub fn finish_loop(&self) -> (finish: Option<FinishLoop>)
        ensures
            finish is Some <==> self.all_settled(),
            finish matches Some(state) ==> {
                &&& state.batch_pay_id@ == self.batch_pay_id@
                &&& state.request_id@.len() == 36
                &&& !state.acknowledged
            },
    {
        if self.is_settled() {
            Some(FinishLoop::new(self.batch_pay_id.clone()))
        } else {
            None
        }
    }
}

/// What a report for the entry at `index` comes to.
pub open spec fn settlement_of(
    run: BatchRun,
    m: Map<i64, i64>,
    index: usize,
    discovered: Option<i64>,
) -> Settlement {
    if !run.awaits(index) {
        Settlement::Rejected
    } else {
        match discovered {
            None => Settlement::NothingFound,
            Some(amount) => if credit_fits(m, run.uids@[index as int], amount) {
                Settlement::Credited
            } else {
                Settlement::OutOfRange
            },
        }
    }
}

/// What came of one attempt to tell the upstream that a batch is complete:
/// the code it answered with, or no answer within the time allowed.
#[derive(Debug, Clone, Copy, PartialEq, Eq, Structural)]
pub enum FinishReply {
    Answered(i32),
    TimedOut,
}

/// What the notification loop does after an attempt.
#[derive(Debug, Clone, Copy, PartialEq, Eq, Structural)]
pub enum FinishStep {
    /// The upstream has acknowledged; stop.
    Done,
    /// Tell it again.
    Retry,
}

/// The code that an attempt comes to: the HTTP status of the answer, or 0
/// where the request failed.
pub open spec fn finish_code_of(status: Option<u16>) -> i32 {
    match status {
        Some(code) => code as i32,
        None => 0,
    }
}

/// The code that an attempt comes to: the HTTP status of the answer, or 0
/// where the request failed.
pub fn finish_code(status: Option<u16>) -> (code: i32)
    ensures
        code == finish_code_of(status),
{
    match status {
        Some(code) => code as i32,
        None => 0,
    }
}

/// Whether the reply acknowledges the notice: only an answer with code 200
/// does.
pub open spec fn acknowledges(reply: FinishReply) -> bool {
    reply == FinishReply::Answered(CODE_OK)
}

/// How many attempts the notification loop makes when they come out as
/// `replies`, in this order: as many as it takes to reach the first
/// acknowledgement, or `None` if there is none among them.
pub open spec fn attempts_until_done(replies: Seq<FinishReply>) -> Option<nat>
    decreases replies.len(),
{
    if replies.len() == 0 {
        None
    } else if acknowledges(replies[0]) {
        Some(1)
    } else {
        match attempts_until_done(replies.drop_first()) {
            Some(n) => Some(n + 1),
            None => None,
        }
    }
}

/// The notice that a batch is complete, as it goes to the upstream: the
/// request id for the header and the body.
#[derive(Debug, Clone, PartialEq, Eq)]
pub struct FinishNotice {
    pub request_id: String,
    pub body: FinishJson,
}

/// The loop that tells the upstream that a batch is complete, again and
/// again until it acknowledges.
#[derive(Debug, Clone, PartialEq, Eq)]
pub struct FinishLoop {
    /// The batch that is complete.
    pub batch_pay_id: String,
    /// The request id under which every attempt is sent.
    pub request_id: String,
    /// Whether the upstream has acknowledged.
    pub acknowledged: bool,
}

impl FinishLoop {
    /// A loop for the batch, not yet acknowledged, that sends under the
    /// given request id.
    pub fn with_request_id(batch_pay_id: String, request_id: String) -> (state: Self)
        ensures
            state.batch_pay_id == batch_pay_id,
            state.request_id == request_id,
            !state.acknowledged,
    {
        FinishLoop { batch_pay_id, request_id, acknowledged: false }
    }

    /// A loop for the batch, not yet acknowledged, that sends under a fresh
    /// request id.
    pub fn new(batch_pay_id: String) -> (state: Self)
        ensures
            state.batch_pay_id == batch_pay_id,
            state.request_id@.len() == 36,
            !state.acknowledged,
    {
        FinishLoop::with_request_id(batch_pay_id, fresh_uuid())
    }

    /// The notice to send: the same for every attempt.
    pub fn notice(&self) -> (notice: FinishNotice)
        ensures
            notice.request_id@ == self.request_id@,
            notice.body.batch_pay_id@ == self.batch_pay_id@,
    {
        FinishNotice {
            request_id: self.request_id.clone(),
            body: FinishJson { batch_pay_id: self.batch_pay_id.clone() },
        }
    }

    /// Takes one attempt into account: the loop is done at the first
    /// acknowledgement and retries after anything else.
    pub fn replied(&mut self, reply: FinishReply) -> (step: FinishStep)
        ensures
            step == (if acknowledges(reply) || old(self).acknowledged {
                FinishStep::Done
            } else {
                FinishStep::Retry
            }),
            final(self).acknowledged == (old(self).acknowledged || acknowledges(reply)),
            final(self).batch_pay_id == old(self).batch_pay_id,
            final(self).request_id == old(self).request_id,
    {
        let acknowledged_now = match reply {
            FinishReply::Answered(code) => code == CODE_OK,
            FinishReply::TimedOut => false,
        };
        if acknowledged_now {
            self.acknowledged = true;
        }
        if self.acknowledged {
            FinishStep::Done
        } else {
            FinishStep::Retry
        }
    }
}

/// The notification loop ends at the first acknowledgement, whatever came
/// before it: if the attempt at position `first` is acknowledged and none
/// before it is, the loop makes `first + 1` attempts.
pub proof fn lemma_done_at_first_acknowledgement(replies: Seq<FinishReply>, first: int)
    requires
        0 <= first < replies.len(),
        acknowledges(replies[first]),
        forall|i: int| 0 <= i < first ==> !acknowledges(#[trigger] replies[i]),
    ensures
        attempts_until_done(replies) == Some((first + 1) as nat),
    decreases first,
{
    if first > 0 {
        let rest = replies.drop_first();
        assert forall|i: int| 0 <= i < first - 1 implies !acknowledges(#[trigger] rest[i]) by {
            assert(rest[i] == replies[i + 1]);
        }
        lemma_done_at_first_acknowledgement(rest, first - 1);
    }
}

/// Without an acknowledgement the loop never ends.
pub proof fn lemma_retries_without_acknowledgement(replies: Seq<FinishReply>)
    requires
        forall|i: int| 0 <= i < replies.len() ==> !acknowledges(#[trigger] replies[i]),
    ensures
        attempts_until_done(replies) is None,
    decreases replies.len(),
{
    if replies.len() > 0 {
        let rest = replies.drop_first();
        assert forall|i: int| 0 <= i < rest.len() implies !acknowledges(#[trigger] rest[i]) by {
            assert(rest[i] == replies[i + 1]);
        }
        lemma_retries_without_acknowledgement(rest);
    }
}

} // verus!
