//! A balance query on an account-model chain, one request at a time: the
//! session says what to ask next, the caller asks and records the answer.

use crate::amount::Amount;
use crate::blockchain::evm::balance_of_call;
use crate::blockchain::evm::balance_of_calldata;
use crate::blockchain::evm::evm_address;
use crate::blockchain::evm::evm_query_result;
use crate::blockchain::evm::owner_account;
use crate::blockchain::evm::query_evm_balance;
use crate::blockchain::evm::token_answered;
use crate::blockchain::evm::token_balances_upto;
use crate::blockchain::evm::EvmCall;
use crate::blockchain::types::query_result_view;
use crate::blockchain::types::AccountBalance;
use crate::blockchain::types::AccountBalanceView;
use crate::blockchain::types::ChainConfig;
use crate::blockchain::types::ChainConfigView;
use crate::blockchain::types::QueryError;
use crate::blockchain::types::TokenConfigView;
use vstd::prelude::*;

verus! {

/// What is known of the native balance.
#[derive(Clone, Copy, Debug)]
pub enum NativeAnswer {
    /// Not asked yet.
    Unknown,
    /// The request failed.
    Failed,
    /// The endpoint reported this balance.
    Balance(Amount),
}

/// What a session has learned so far: the native balance, and the answers
/// of the token calls, one place for each token from the first on.
#[derive(Debug)]
pub struct EvmSession {
    pub native: NativeAnswer,
    pub answers: Vec<Option<Vec<u8>>>,
}

/// What to do next.
#[derive(Debug)]
pub enum EvmAction {
    /// Ask the endpoint for the native balance of `owner`.
    GetBalance { owner: [u8; 20] },
    /// Make the read-only call for the token at place `token`.
    Call { token: usize, call: EvmCall },
    /// Nothing is left to ask: this is the query's result.
    Finish(Result<AccountBalance, QueryError>),
}

/// What an `EvmAction` holds, as mathematical values.
pub enum EvmActionView {
    GetBalance { owner: Seq<u8> },
    Call { token: usize, to: Seq<u8>, data: Seq<u8> },
    Finish(Result<AccountBalanceView, QueryError>),
}

impl View for EvmAction {
    type V = EvmActionView;

    open spec fn view(&self) -> EvmActionView {
        match self {
            EvmAction::GetBalance { owner } => EvmActionView::GetBalance { owner: owner@ },
            EvmAction::Call { token, call } => EvmActionView::Call {
                token: *token,
                to: call.to@,
                data: call.data@,
            },
            EvmAction::Finish(r) => EvmActionView::Finish(query_result_view(*r)),
        }
    }
}

/// The answers with a failure recorded for each token, from the next one
/// on, whose contract address names no account: no call is made for those.
pub open spec fn without_uncallable(
    tokens: Seq<TokenConfigView>,
    answers: Seq<Option<Vec<u8>>>,
) -> Seq<Option<Vec<u8>>>
    decreases tokens.len() - answers.len(),
{
    if answers.len() < tokens.len() && evm_address(tokens[answers.len() as int].contract_address)
        is None {
        without_uncallable(tokens, answers.push(None))
    } else {
        answers
    }
}

/// What a session does next: an address that names no account ends it at
/// once; the native balance is asked for first, and its failure ends the
/// session; then the tokens are called in their order; after the last one
/// the result is put together.
pub open spec fn next_action(
    address: Seq<char>,
    config: ChainConfigView,
    native: NativeAnswer,
    answers: Seq<Option<Vec<u8>>>,
) -> EvmActionView {
    match evm_address(address) {
        None => EvmActionView::Finish(Err(QueryError::InvalidAddress)),
        Some(owner) => match native {
            NativeAnswer::Unknown => EvmActionView::GetBalance { owner },
            NativeAnswer::Failed => EvmActionView::Finish(Err(QueryError::EndpointError)),
            NativeAnswer::Balance(balance) => {
                let known = without_uncallable(config.tokens, answers);
                if known.len() < config.tokens.len() {
                    EvmActionView::Call {
                        token: known.len() as usize,
                        to: evm_address(config.tokens[known.len() as int].contract_address)->0,
                        data: balance_of_call(owner),
                    }
                } else {
                    EvmActionView::Finish(
                        evm_query_result(address, config, Some(balance), known),
                    )
                }
            },
        },
    }
}

/// The answers after a step: once the native balance is known, the tokens
/// that cannot be called are passed over.
pub open spec fn answers_after_step(
    address: Seq<char>,
    config: ChainConfigView,
    native: NativeAnswer,
    answers: Seq<Option<Vec<u8>>>,
) -> Seq<Option<Vec<u8>>> {
    if evm_address(address) is Some && native is Balance {
        without_uncallable(config.tokens, answers)
    } else {
        answers
    }
}

/// The answer recorded at place `i`, if any.
pub open spec fn answer_at(answers: Seq<Option<Vec<u8>>>, i: int) -> Option<Seq<u8>> {
    if 0 <= i < answers.len() {
        match answers[i] {
            Some(bytes) => Some(bytes@),
            None => None,
        }
    } else {
        None
    }
}

/// Whether two records hold the same answers for the first `n` tokens, as
/// far as those can be called.
pub open spec fn answers_agree(
    tokens: Seq<TokenConfigView>,
    a: Seq<Option<Vec<u8>>>,
    b: Seq<Option<Vec<u8>>>,
    n: nat,
) -> bool {
    forall|i: int|
        0 <= i < n && evm_address(tokens[i].contract_address) is Some ==> #[trigger] answer_at(a, i)
            == answer_at(b, i)
}

/// Records that agree give the same token balances.
pub proof fn lemma_agreeing_answers(
    tokens: Seq<TokenConfigView>,
    a: Seq<Option<Vec<u8>>>,
    b: Seq<Option<Vec<u8>>>,
    n: nat,
)
    requires
        answers_agree(tokens, a, b, n),
    ensures
        token_balances_upto(tokens, a, n) == token_balances_upto(tokens, b, n),
    decreases n,
{
    if n > 0 {
        lemma_agreeing_answers(tokens, a, b, (n - 1) as nat);
        if evm_address(tokens[n - 1].contract_address) is Some {
            assert(answer_at(a, n - 1) == answer_at(b, n - 1));
        }
    }
}

/// Passing over uncallable tokens adds failures only, and never goes past
/// the last token unless the record was there already.
pub proof fn lemma_without_uncallable(tokens: Seq<TokenConfigView>, answers: Seq<Option<Vec<u8>>>)
    ensures
        without_uncallable(tokens, answers).len() >= answers.len(),
        answers.len() <= tokens.len() ==> without_uncallable(tokens, answers).len() <= tokens.len(),
        without_uncallable(tokens, answers).subrange(0, answers.len() as int) == answers,
        forall|i: int|
            answers.len() <= i < without_uncallable(tokens, answers).len() ==> evm_address(
                tokens[i].contract_address,
            ) is None && (#[trigger] without_uncallable(tokens, answers)[i]) is None,
        without_uncallable(tokens, answers).len() < tokens.len() ==> evm_address(
            tokens[without_uncallable(tokens, answers).len() as int].contract_address,
        ) is Some,
    decreases tokens.len() - answers.len(),
{
    if answers.len() < tokens.len() && evm_address(tokens[answers.len() as int].contract_address)
        is None {
        let next = answers.push(None);
        lemma_without_uncallable(tokens, next);
        let all = without_uncallable(tokens, answers);
        assert(all == without_uncallable(tokens, next));
        assert(all.subrange(0, answers.len() as int) =~= next.subrange(0, answers.len() as int));
        assert(next.subrange(0, answers.len() as int) =~= answers);
        assert(all.subrange(0, next.len() as int)[answers.len() as int] == next[answers.len() as int]);
    } else {
        assert(answers.subrange(0, answers.len() as int) =~= answers);
    }
}

/// A copy of `bytes`.
fn copy_bytes(bytes: &Vec<u8>) -> (r: Vec<u8>)
    ensures
        r@ == bytes@,
{
    let mut out: Vec<u8> = Vec::new();
    let mut i: usize = 0;
    while i < bytes.len()
        invariant
            i <= bytes.len(),
            out@ == bytes@.subrange(0, i as int),
        decreases bytes.len() - i,
    {
        out.push(bytes[i]);
        assert(bytes@.subrange(0, i + 1) == bytes@.subrange(0, i as int).push(bytes@[i as int]));
        i += 1;
    }
    assert(bytes@.subrange(0, bytes.len() as int) == bytes@);
    out
}

impl EvmSession {
    /// A session that has asked nothing yet.
    pub fn new() -> (r: EvmSession)
        ensures
            r.native is Unknown,
            r.answers@.len() == 0,
    {
        EvmSession { native: NativeAnswer::Unknown, answers: Vec::new() }
    }

    /// Records what the endpoint reported as native balance: `None` where
    /// the request failed.
    pub fn record_native(&mut self, balance: Option<Amount>)
        ensures
            final(self).answers == old(self).answers,
            final(self).native == match balance {
                Some(b) => NativeAnswer::Balance(b),
                None => NativeAnswer::Failed,
            },
    {
        self.native = match balance {
            Some(b) => NativeAnswer::Balance(b),
            None => NativeAnswer::Failed,
        };
    }

    /// Records what the call for the next token returned: `None` where it
    /// failed.
    pub fn record_answer(&mut self, answer: Option<Vec<u8>>)
        ensures
            final(self).native == old(self).native,
            final(self).answers@ == old(self).answers@.push(answer),
    {
        self.answers.push(answer);
    }

    /// What to do next for the query of `address` on the chain of `config`.
    pub fn step(&mut self, address: &str, config: &ChainConfig) -> (action: EvmAction)
        ensures
            final(self).native == old(self).native,
            final(self).answers@ == answers_after_step(
                address@,
                config@,
                old(self).native,
                old(self).answers@,
            ),
            action@ == next_action(address@, config@, old(self).native, old(self).answers@),
    {
        let owner = match owner_account(address) {
            Ok(owner) => owner,
            Err(e) => {
                return EvmAction::Finish(Err(e));
            },
        };
        let balance = match self.native {
            NativeAnswer::Unknown => {
                return EvmAction::GetBalance { owner };
            },
            NativeAnswer::Failed => {
                return EvmAction::Finish(Err(QueryError::EndpointError));
            },
            NativeAnswer::Balance(balance) => balance,
        };
        while self.answers.len() < config.tokens.len() && owner_account(
            config.tokens[self.answers.len()].contract_address.as_str(),
        ).is_err()
            invariant
                self.native == old(self).native,
                without_uncallable(config@.tokens, self.answers@) == without_uncallable(
                    config@.tokens,
                    old(self).answers@,
                ),
            decreases config.tokens@.len() - self.answers@.len(),
        {
            assert(config@.tokens[self.answers@.len() as int] == config.tokens@[self.answers@.len() as int]@);
            self.answers.push(None);
        }
        if self.answers.len() < config.tokens.len() {
            let token = self.answers.len();
            assert(config@.tokens[token as int] == config.tokens@[token as int]@);
            match owner_account(config.tokens[token].contract_address.as_str()) {
                Ok(to) => EvmAction::Call {
                    token,
                    call: EvmCall { to, data: balance_of_calldata(&owner) },
                },
                Err(e) => EvmAction::Finish(Err(e)),
            }
        } else {
            EvmAction::Finish(query_evm_balance(address, config, Some(balance), &self.answers))
        }
    }
}

/// Runs a session to its end on answers that are known beforehand:
/// `native` for the native balance, and `answers` for the token calls, by
/// the place of the token. Whatever the answers, the session ends, and its
/// result is that of `query_evm_balance` on the same answers.
pub fn run_evm_session(
    address: &str,
    config: &ChainConfig,
    native: Option<Amount>,
    answers: &Vec<Option<Vec<u8>>>,
) -> (r: Result<AccountBalance, QueryError>)
    ensures
        query_result_view(r) == evm_query_result(address@, config@, native, answers@),
{
    let mut session = EvmSession::new();
    loop
        invariant
            session.native is Unknown || session.native == match native {
                Some(b) => NativeAnswer::Balance(b),
                None => NativeAnswer::Failed,
            },
            session.answers@.len() <= config.tokens@.len(),
            answers_agree(config@.tokens, session.answers@, answers@, session.answers@.len()),
            forall|i: int|
                0 <= i < session.answers@.len() && evm_address(
                    config@.tokens[i].contract_address,
                ) is None ==> (#[trigger] session.answers@[i]) is None,
        decreases
                (if session.native is Unknown {
                    1int
                } else {
                    0int
                }),
                config.tokens@.len() - session.answers@.len(),
    {
        let ghost before = session.answers@;
        proof {
            lemma_without_uncallable(config@.tokens, before);
        }
        match session.step(address, config) {
            EvmAction::GetBalance { owner } => {
                session.record_native(native);
            },
            EvmAction::Call { token, call } => {
                let answer = if token < answers.len() {
                    match &answers[token] {
                        Some(bytes) => Some(copy_bytes(bytes)),
                        None => None,
                    }
                } else {
                    None
                };
                let ghost known = session.answers@;
                assert(evm_address(address@) is Some && session.native is Balance);
                assert(known == without_uncallable(config@.tokens, before));
                let count = config.tokens.len();
                assert(known.len() <= count);
                assert(token == known.len());
                assert(known.subrange(0, before.len() as int) == before);
                session.record_answer(answer);
                assert forall|i: int|
                    0 <= i < session.answers@.len() && evm_address(
                        config@.tokens[i].contract_address,
                    ) is Some implies #[trigger] answer_at(session.answers@, i) == answer_at(
                    answers@,
                    i,
                ) by {
                    if i < before.len() {
                        assert(known.subrange(0, before.len() as int)[i] == known[i]);
                        assert(answer_at(before, i) == answer_at(answers@, i));
                    } else if i < known.len() {
                        assert(known[i] is None);
                    } else {
                        assert(session.answers@[i] == answer);
                    }
                }
                assert forall|i: int|
                    0 <= i < session.answers@.len() && evm_address(
                        config@.tokens[i].contract_address,
                    ) is None implies (#[trigger] session.answers@[i]) is None by {
                    if i < before.len() {
                        assert(known.subrange(0, before.len() as int)[i] == known[i]);
                    } else if i < known.len() {
                        assert(known[i] is None);
                    }
                }
            },
            EvmAction::Finish(r) => {
                proof {
                    if evm_address(address@) is Some && native is Some {
                        let known = session.answers@;
                        assert(session.native is Balance);
                        assert(known == without_uncallable(config@.tokens, before));
                        assert(known.subrange(0, before.len() as int) == before);
                        assert forall|i: int|
                            0 <= i < config@.tokens.len() && evm_address(
                                config@.tokens[i].contract_address,
                            ) is Some implies #[trigger] answer_at(known, i) == answer_at(
                            answers@,
                            i,
                        ) by {
                            if i < before.len() {
                                assert(known.subrange(0, before.len() as int)[i] == known[i]);
                                assert(answer_at(before, i) == answer_at(answers@, i));
                            } else if i < known.len() {
                                assert(known[i] is None);
                            }
                        }
                        lemma_agreeing_answers(
                            config@.tokens,
                            known,
                            answers@,
                            config@.tokens.len(),
                        );
                    }
                }
                return r;
            },
        }
    }
}

} // verus!
