//! The transition that carries out an offer: the taker pays the maker, custody releases the
//! locked asset to the taker, and the custody holding account and the record are destroyed in
//! the maker's favour.

use crate::account::Account;
use crate::address::Address;
use crate::derivation::{
    escrow_tag, escrow_tag_bytes, lemma_rederive_reproduces, rederive, rederive_spec,
    signer_seeds, signing_seeds,
};
use crate::error::{EscrowError, Failure, FailureKind};
use crate::instruction::Request;
use crate::instructions::initialize;
use crate::instructions::{invoke, invoked, outcome_view, steps_view, Step, StepView};
use crate::programs::{token_program, token_program_id};
use crate::state::{lemma_from_bytes_of_to_bytes, Escrow, EscrowView};
use crate::token::mint_unpacked;
use crate::validator::{
    account_at, bad_holding, check_rederived_address, holding_failure, mint_failure, or_else,
    presence_failure, program_failure, signer_failure, validate_holding, validate_mint,
    validate_program, validate_signer,
};
use vstd::prelude::*;

verus! {

/// Position of the maker, who does not sign.
pub const MAKER: usize = 0;

/// Position of the taker, who signs.
pub const TAKER: usize = 1;

/// Position of the definition of the asset that the taker gives.
pub const TAKER_SELL_MINT: usize = 2;

/// Position of the definition of the asset that the taker receives: the one in custody.
pub const TAKER_BUY_MINT: usize = 3;

/// Position of the taker's holding account of the asset given.
pub const TAKER_SELL_ACCOUNT: usize = 4;

/// Position of the taker's holding account of the asset received.
pub const TAKER_BUY_ACCOUNT: usize = 5;

/// Position of the maker's account that receives what the taker gives.
pub const RECEIVER: usize = 6;

/// Position of the custody address, where the record is stored.
pub const ESCROW: usize = 7;

/// Position of the custody address's holding account of the locked asset.
pub const ESCROW_TOKEN_ACCOUNT: usize = 8;

/// Position of the asset-ledger module.
pub const TOKEN_PROGRAM: usize = 9;

/// What a checked account list says of an exchange.
#[derive(Clone, Copy, Debug, PartialEq, Eq)]
pub struct ExchangeAccounts {
    pub maker: Address,
    pub taker: Address,
    pub taker_sell_mint: Address,
    pub taker_buy_mint: Address,
    pub taker_sell_account: Address,
    pub taker_buy_account: Address,
    pub receiver: Address,
    pub escrow: Address,
    pub escrow_token_account: Address,
    pub token_program: Address,
    /// The decimal places of the asset given.
    pub sell_decimals: u8,
    /// The decimal places of the asset received.
    pub buy_decimals: u8,
}

/// The first check of the account list that fails, in the order of the positions: the maker is
/// there, the taker has signed, the two asset definitions and the three holding accounts after
/// them are accepted, the custody address is there, its holding account is accepted, and the
/// last account is the asset-ledger module.
pub open spec fn accounts_failure(accounts: Seq<Account>) -> Option<FailureKind> {
    or_else(
        presence_failure(accounts, MAKER as int),
        or_else(
            signer_failure(accounts, TAKER as int),
            or_else(
                mint_failure(accounts, TAKER_SELL_MINT as int),
                or_else(
                    mint_failure(accounts, TAKER_BUY_MINT as int),
                    or_else(
                        holding_failure(accounts, TAKER_SELL_ACCOUNT as int),
                        or_else(
                            holding_failure(accounts, TAKER_BUY_ACCOUNT as int),
                            or_else(
                                holding_failure(accounts, RECEIVER as int),
                                or_else(
                                    presence_failure(accounts, ESCROW as int),
                                    or_else(
                                        holding_failure(accounts, ESCROW_TOKEN_ACCOUNT as int),
                                        program_failure(
                                            accounts,
                                            TOKEN_PROGRAM as int,
                                            token_program_id(),
                                        ),
                                    ),
                                ),
                            ),
                        ),
                    ),
                ),
            ),
        ),
    )
}

/// What an account list that passed the checks says of the exchange.
pub open spec fn checked_accounts(accounts: Seq<Account>) -> ExchangeAccounts {
    ExchangeAccounts {
        maker: accounts[MAKER as int].key,
        taker: accounts[TAKER as int].key,
        taker_sell_mint: accounts[TAKER_SELL_MINT as int].key,
        taker_buy_mint: accounts[TAKER_BUY_MINT as int].key,
        taker_sell_account: accounts[TAKER_SELL_ACCOUNT as int].key,
        taker_buy_account: accounts[TAKER_BUY_ACCOUNT as int].key,
        receiver: accounts[RECEIVER as int].key,
        escrow: accounts[ESCROW as int].key,
        escrow_token_account: accounts[ESCROW_TOKEN_ACCOUNT as int].key,
        token_program: accounts[TOKEN_PROGRAM as int].key,
        sell_decimals: mint_unpacked(accounts[TAKER_SELL_MINT as int].data@)->Some_0.decimals,
        buy_decimals: mint_unpacked(accounts[TAKER_BUY_MINT as int].data@)->Some_0.decimals,
    }
}

/// Checks the account list of an exchange, position by position, and returns what it says of
/// the exchange. Nothing else is looked at once a check has failed.
pub fn validate_exchange_accounts(accounts: &[Account]) -> (r: Result<ExchangeAccounts, Failure>)
    ensures
        accounts_failure(accounts@) matches Some(kind) ==> r matches Err(f) && f@ == kind,
        accounts_failure(accounts@) is None ==> accounts@.len() > TOKEN_PROGRAM && r == Ok::<
            ExchangeAccounts,
            Failure,
        >(checked_accounts(accounts@)),
{
    let maker = match account_at(accounts, MAKER) {
        Ok(a) => a,
        Err(f) => { return Err(f); },
    };
    let taker = match validate_signer(accounts, TAKER) {
        Ok(a) => a,
        Err(f) => { return Err(f); },
    };
    let (taker_sell_mint, sell_info) = match validate_mint(accounts, TAKER_SELL_MINT) {
        Ok(found) => found,
        Err(f) => { return Err(f); },
    };
    let (taker_buy_mint, buy_info) = match validate_mint(accounts, TAKER_BUY_MINT) {
        Ok(found) => found,
        Err(f) => { return Err(f); },
    };
    let taker_sell_account = match validate_holding(accounts, TAKER_SELL_ACCOUNT) {
        Ok(a) => a,
        Err(f) => { return Err(f); },
    };
    let taker_buy_account = match validate_holding(accounts, TAKER_BUY_ACCOUNT) {
        Ok(a) => a,
        Err(f) => { return Err(f); },
    };
    let receiver = match validate_holding(accounts, RECEIVER) {
        Ok(a) => a,
        Err(f) => { return Err(f); },
    };
    let escrow = match account_at(accounts, ESCROW) {
        Ok(a) => a,
        Err(f) => { return Err(f); },
    };
    let escrow_token_account = match validate_holding(accounts, ESCROW_TOKEN_ACCOUNT) {
        Ok(a) => a,
        Err(f) => { return Err(f); },
    };
    let token_program = match validate_program(accounts, TOKEN_PROGRAM, &token_program()) {
        Ok(a) => a,
        Err(f) => { return Err(f); },
    };
    Ok(
        ExchangeAccounts {
            maker: maker.key,
            taker: taker.key,
            taker_sell_mint: taker_sell_mint.key,
            taker_buy_mint: taker_buy_mint.key,
            taker_sell_account: taker_sell_account.key,
            taker_buy_account: taker_buy_account.key,
            receiver: receiver.key,
            escrow: escrow.key,
            escrow_token_account: escrow_token_account.key,
            token_program: token_program.key,
            sell_decimals: sell_info.decimals,
            buy_decimals: buy_info.decimals,
        },
    )
}

/// The request that pays the maker: `sell_amount` of the asset given, from the taker's holding
/// account to the maker's receiving account, on the taker's word.
pub open spec fn payment_request(checked: ExchangeAccounts, sell_amount: u64) -> Request {
    Request::TransferChecked {
        token_program: checked.token_program,
        source: checked.taker_sell_account,
        mint: checked.taker_sell_mint,
        destination: checked.receiver,
        authority: checked.taker,
        amount: sell_amount,
        decimals: checked.sell_decimals,
    }
}

/// The request that releases custody: `buy_amount` of the locked asset, from the custody
/// holding account to the taker's, on the word of the custody address.
pub open spec fn release_request(checked: ExchangeAccounts, buy_amount: u64) -> Request {
    Request::TransferChecked {
        token_program: checked.token_program,
        source: checked.escrow_token_account,
        mint: checked.taker_buy_mint,
        destination: checked.taker_buy_account,
        authority: checked.escrow,
        amount: buy_amount,
        decimals: checked.buy_decimals,
    }
}

/// The request that closes the custody holding account in the maker's favour, on the word of
/// the custody address.
pub open spec fn closing_request(checked: ExchangeAccounts) -> Request {
    Request::CloseAccount {
        token_program: checked.token_program,
        account: checked.escrow_token_account,
        destination: checked.maker,
        owner: checked.escrow,
    }
}

/// The seeds with which the protocol signs for the custody address of the offer.
pub open spec fn custody_seeds(checked: ExchangeAccounts, bump: u8) -> Seq<Seq<u8>> {
    signing_seeds(escrow_tag(), checked.maker@, checked.taker_buy_mint@, bump)
}

/// The steps of the transition, in order: pay the maker; release the locked asset to the
/// taker; close the custody holding account; destroy the record. The amounts are those of the
/// call.
pub open spec fn exchange_steps(
    checked: ExchangeAccounts,
    sell_amount: u64,
    buy_amount: u64,
    bump: u8,
) -> Seq<StepView> {
    seq![
        invoked(
            payment_request(checked, sell_amount),
            seq![TAKER_SELL_ACCOUNT, TAKER_SELL_MINT, RECEIVER, TAKER, TOKEN_PROGRAM],
            None,
        ),
        invoked(
            release_request(checked, buy_amount),
            seq![ESCROW_TOKEN_ACCOUNT, TAKER_BUY_MINT, TAKER_BUY_ACCOUNT, ESCROW, TOKEN_PROGRAM],
            Some(custody_seeds(checked, bump)),
        ),
        invoked(
            closing_request(checked),
            seq![ESCROW_TOKEN_ACCOUNT, MAKER, ESCROW],
            Some(custody_seeds(checked, bump)),
        ),
        StepView::Close { account: ESCROW, beneficiary: MAKER },
    ]
}

/// Makes the steps of the transition from what the checks found: the accounts of the exchange
/// and the bump stored in the record. The steps are made exactly where `token_program` is the
/// asset-ledger module; otherwise that module's error is passed on.
pub fn exchange_plan(checked: &ExchangeAccounts, sell_amount: u64, buy_amount: u64, bump: u8) -> (r:
    Result<Vec<Step>, Failure>)
    ensures
        r is Ok <==> checked.token_program@ == token_program_id(),
        r matches Ok(steps) ==> steps_view(steps@) == exchange_steps(
            *checked,
            sell_amount,
            buy_amount,
            bump,
        ),
        r matches Err(f) ==> f@ == FailureKind::Program,
{
    let payment = match invoke(
        Request::TransferChecked {
            token_program: checked.token_program,
            source: checked.taker_sell_account,
            mint: checked.taker_sell_mint,
            destination: checked.receiver,
            authority: checked.taker,
            amount: sell_amount,
            decimals: checked.sell_decimals,
        },
        vec![TAKER_SELL_ACCOUNT, TAKER_SELL_MINT, RECEIVER, TAKER, TOKEN_PROGRAM],
        None,
    ) {
        Ok(step) => step,
        Err(f) => { return Err(f); },
    };
    let tag = escrow_tag_bytes();
    let release = match invoke(
        Request::TransferChecked {
            token_program: checked.token_program,
            source: checked.escrow_token_account,
            mint: checked.taker_buy_mint,
            destination: checked.taker_buy_account,
            authority: checked.escrow,
            amount: buy_amount,
            decimals: checked.buy_decimals,
        },
        vec![ESCROW_TOKEN_ACCOUNT, TAKER_BUY_MINT, TAKER_BUY_ACCOUNT, ESCROW, TOKEN_PROGRAM],
        Some(signer_seeds(tag.as_slice(), &checked.maker, &checked.taker_buy_mint, bump)),
    ) {
        Ok(step) => step,
        Err(f) => { return Err(f); },
    };
    let closing = match invoke(
        Request::CloseAccount {
            token_program: checked.token_program,
            account: checked.escrow_token_account,
            destination: checked.maker,
            owner: checked.escrow,
        },
        vec![ESCROW_TOKEN_ACCOUNT, MAKER, ESCROW],
        Some(signer_seeds(tag.as_slice(), &checked.maker, &checked.taker_buy_mint, bump)),
    ) {
        Ok(step) => step,
        Err(f) => { return Err(f); },
    };
    let destroy = Step::Close { account: ESCROW, beneficiary: MAKER };
    let steps = vec![payment, release, closing, destroy];
    assert(steps_view(steps@) =~= exchange_steps(*checked, sell_amount, buy_amount, bump));
    Ok(steps)
}

/// Fails where the storage at `ESCROW` does not hold a record.
pub open spec fn record_failure(accounts: Seq<Account>) -> Option<FailureKind> {
    if EscrowView::from_bytes(accounts[ESCROW as int].data@) is None {
        Some(FailureKind::MalformedRecord)
    } else {
        None
    }
}

/// The bump stored in the record at `ESCROW`.
pub open spec fn stored_bump(accounts: Seq<Account>) -> u8 {
    EscrowView::from_bytes(accounts[ESCROW as int].data@)->Some_0.bump
}

/// Fails where the address at `ESCROW` is not the one derived again from the maker, the asset
/// that the taker receives and the stored bump.
pub open spec fn custody_failure(accounts: Seq<Account>, program_id: Address) -> Option<
    FailureKind,
> {
    if rederive_spec(
        escrow_tag(),
        accounts[MAKER as int].key@,
        accounts[TAKER_BUY_MINT as int].key@,
        stored_bump(accounts),
        program_id@,
    ) == Some(accounts[ESCROW as int].key@) {
        None
    } else {
        Some(FailureKind::Escrow(EscrowError::InvalidPda))
    }
}

/// Why the transition is refused: the first that fails of the checks of the account list, the
/// reading of the record, and the custody address.
pub open spec fn exchange_failure(accounts: Seq<Account>, program_id: Address) -> Option<
    FailureKind,
> {
    or_else(
        accounts_failure(accounts),
        or_else(record_failure(accounts), custody_failure(accounts, program_id)),
    )
}

/// The steps of the transition for an account list that passes every check.
pub open spec fn exchange_outcome(accounts: Seq<Account>, sell_amount: u64, buy_amount: u64) -> Seq<
    StepView,
> {
    exchange_steps(checked_accounts(accounts), sell_amount, buy_amount, stored_bump(accounts))
}

/// The outcome of the transition: the failure, or the steps.
pub open spec fn exchange_result(
    accounts: Seq<Account>,
    sell_amount: u64,
    buy_amount: u64,
    program_id: Address,
) -> Result<Seq<StepView>, FailureKind> {
    match exchange_failure(accounts, program_id) {
        Some(kind) => Err(kind),
        None => Ok(exchange_outcome(accounts, sell_amount, buy_amount)),
    }
}

/// Carries out an offer: the taker gives `sell_amount` of one asset to the maker and receives
/// `buy_amount` of the asset in custody. The transition is refused with the first check that
/// fails, before any step. Where every check passes, the result is the list of steps for the
/// host. The two amounts are those of the call: they are not compared with the amounts in the
/// record, nor the receiving account with the one in the record.
pub fn process_exchange(
    accounts: &[Account],
    sell_amount: u64,
    buy_amount: u64,
    program_id: &Address,
) -> (r: Result<Vec<Step>, Failure>)
    ensures
        outcome_view(r) == exchange_result(accounts@, sell_amount, buy_amount, *program_id),
{
    let checked = match validate_exchange_accounts(accounts) {
        Ok(checked) => checked,
        Err(f) => { return Err(f); },
    };
    let record = match Escrow::try_from_slice(accounts[ESCROW].data.as_slice()) {
        Some(record) => record,
        None => { return Err(Failure::MalformedRecord); },
    };
    let tag = escrow_tag_bytes();
    let rederived = rederive(
        tag.as_slice(),
        &checked.maker,
        &checked.taker_buy_mint,
        record.bump,
        program_id,
    );
    match check_rederived_address(&checked.escrow, rederived) {
        Ok(()) => {},
        Err(f) => { return Err(f); },
    };
    exchange_plan(&checked, sell_amount, buy_amount, record.bump)
}

/// An exchange against a custody address that is not the one derived again from the maker, the
/// asset received and the stored bump is refused as a mismatch of the derived address, so that
/// no step is taken, wherever the account list passes its checks and the storage holds a
/// record.
pub proof fn lemma_exchange_refuses_other_address(
    accounts: Seq<Account>,
    sell_amount: u64,
    buy_amount: u64,
    program_id: Address,
)
    requires
        accounts_failure(accounts) is None,
        EscrowView::from_bytes(accounts[ESCROW as int].data@) matches Some(record)
            && rederive_spec(
            escrow_tag(),
            accounts[MAKER as int].key@,
            accounts[TAKER_BUY_MINT as int].key@,
            record.bump,
            program_id@,
        ) != Some(accounts[ESCROW as int].key@),
    ensures
        exchange_result(accounts, sell_amount, buy_amount, program_id) == Err::<
            Seq<StepView>,
            FailureKind,
        >(FailureKind::Escrow(EscrowError::InvalidPda)),
{
}

/// An exchange with a holding account that is frozen, or that does not belong to the
/// asset-ledger module, is refused, so that no step is taken: be it one of the taker's two,
/// the maker's receiving account or the custody holding account.
pub proof fn lemma_exchange_refuses_bad_holding(
    accounts: Seq<Account>,
    sell_amount: u64,
    buy_amount: u64,
    program_id: Address,
)
    requires
        bad_holding(accounts, TAKER_SELL_ACCOUNT as int) || bad_holding(
            accounts,
            TAKER_BUY_ACCOUNT as int,
        ) || bad_holding(accounts, RECEIVER as int) || bad_holding(
            accounts,
            ESCROW_TOKEN_ACCOUNT as int,
        ),
    ensures
        exchange_result(accounts, sell_amount, buy_amount, program_id) is Err,
{
}

/// The steps of an exchange depend on the record through its bump alone: two account lists
/// that differ only in the other fields of the record have the same outcome, whatever amounts
/// the record holds.
pub proof fn lemma_exchange_ignores_recorded_terms(
    accounts: Seq<Account>,
    others: Seq<Account>,
    sell_amount: u64,
    buy_amount: u64,
    program_id: Address,
)
    requires
        accounts.len() == others.len(),
        forall|i: int| 0 <= i < accounts.len() && i != ESCROW ==> accounts[i] == others[i],
        accounts.len() > ESCROW ==> {
            &&& accounts[ESCROW as int].key == others[ESCROW as int].key
            &&& EscrowView::from_bytes(accounts[ESCROW as int].data@) matches Some(record)
            &&& EscrowView::from_bytes(others[ESCROW as int].data@) matches Some(other)
            &&& record.bump == other.bump
        },
    ensures
        exchange_result(accounts, sell_amount, buy_amount, program_id) == exchange_result(
            others,
            sell_amount,
            buy_amount,
            program_id,
        ),
{
}

/// The record of an offer passes the checks of an exchange: where the offer was accepted,
/// deriving its custody address again with the bump in its record gives that address, so that
/// an exchange for the same maker and asset at that address, on that record, is not refused for
/// its record or its custody address.
pub proof fn lemma_exchange_accepts_offer_address(
    offer: Seq<Account>,
    accounts: Seq<Account>,
    sell_amount: u64,
    buy_amount: u64,
    program_id: Address,
)
    requires
        initialize::init_failure(offer, program_id) is None,
        accounts.len() > ESCROW,
        accounts[MAKER as int].key@ == offer[initialize::MAKER as int].key@,
        accounts[TAKER_BUY_MINT as int].key@ == offer[initialize::SELL_MINT as int].key@,
        accounts[ESCROW as int].key@ == offer[initialize::ESCROW as int].key@,
        initialize::init_outcome(offer, sell_amount, buy_amount, program_id)[1]
            matches StepView::Store { bytes, .. } && accounts[ESCROW as int].data@ == bytes,
    ensures
        record_failure(accounts) is None,
        custody_failure(accounts, program_id) is None,
{
    let checked = initialize::checked_accounts(offer);
    let bump = initialize::offer_address(offer, program_id)->Some_0.1;
    lemma_from_bytes_of_to_bytes(initialize::recorded(checked, sell_amount, buy_amount, bump)@);
    lemma_rederive_reproduces(
        escrow_tag(),
        offer[initialize::MAKER as int].key@,
        offer[initialize::SELL_MINT as int].key@,
        program_id@,
    );
}

} // verus!
