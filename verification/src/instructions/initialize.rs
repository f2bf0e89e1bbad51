//! The transition that creates an offer: the maker's asset goes into custody and the terms are
//! recorded at the custody address.

use crate::account::Account;
use crate::address::Address;
use crate::derivation::{
    derive_spec, escrow_tag, escrow_tag_bytes, signer_seeds, signing_seeds,
};
use crate::error::{EscrowError, Failure, FailureKind};
use crate::instruction::Request;
use crate::instructions::{invoke, invoked, outcome_view, steps_view, Step, StepView};
use crate::programs::{
    associated_token_program, associated_token_program_id, system_program, system_program_id,
    token_program, token_program_id,
};
use crate::rent::{required_balance, storage_fee};
use crate::state::{lemma_from_bytes_of_to_bytes, Escrow, EscrowView, ESCROW_LEN};
use crate::token::mint_unpacked;
use crate::validator::{
    account_at, bad_holding, check_custody_address, custody_bump, holding_failure, mint_failure,
    or_else, presence_failure, program_failure, signer_failure, validate_holding, validate_mint,
    validate_program, validate_signer,
};
use vstd::prelude::*;

verus! {

/// Position of the maker, who signs.
pub const MAKER: usize = 0;

/// Position of the definition of the asset that the maker locks.
pub const SELL_MINT: usize = 1;

/// Position of the definition of the asset that the maker wants.
pub const BUY_MINT: usize = 2;

/// Position of the maker's holding account of the locked asset.
pub const MAKER_SELL_ACCOUNT: usize = 3;

/// Position of the maker's holding account of the wanted asset, which is to receive it.
pub const MAKER_BUY_ACCOUNT: usize = 4;

/// Position of the custody address, where the record is stored.
pub const ESCROW: usize = 5;

/// Position of the custody address's holding account of the locked asset.
pub const ESCROW_TOKEN_ACCOUNT: usize = 6;

/// Position of the account that stores the fee rules.
pub const RENT: usize = 7;

/// Position of the system module.
pub const SYSTEM_PROGRAM: usize = 8;

/// Position of the asset-ledger module.
pub const TOKEN_PROGRAM: usize = 9;

/// Position of the associated-account module.
pub const ASSOCIATED_TOKEN_PROGRAM: usize = 10;

/// What a checked account list says of a new offer.
#[derive(Clone, Copy, Debug, PartialEq, Eq)]
pub struct InitAccounts {
    pub maker: Address,
    pub sell_mint: Address,
    pub buy_mint: Address,
    pub maker_sell_account: Address,
    pub maker_buy_account: Address,
    pub escrow: Address,
    pub escrow_token_account: Address,
    pub token_program: Address,
    /// The decimal places of the locked asset.
    pub sell_decimals: u8,
}

/// The first check of the account list that fails, in the order of the positions: the maker
/// has signed, the two asset definitions and the maker's two holding accounts are accepted,
/// the next three accounts are there, and the last three are the three modules.
pub open spec fn accounts_failure(accounts: Seq<Account>) -> Option<FailureKind> {
    or_else(
        signer_failure(accounts, MAKER as int),
        or_else(
            mint_failure(accounts, SELL_MINT as int),
            or_else(
                mint_failure(accounts, BUY_MINT as int),
                or_else(
                    holding_failure(accounts, MAKER_SELL_ACCOUNT as int),
                    or_else(
                        holding_failure(accounts, MAKER_BUY_ACCOUNT as int),
                        or_else(
                            presence_failure(accounts, RENT as int),
                            or_else(
                                program_failure(
                                    accounts,
                                    SYSTEM_PROGRAM as int,
                                    system_program_id(),
                                ),
                                or_else(
                                    program_failure(
                                        accounts,
                                        TOKEN_PROGRAM as int,
                                        token_program_id(),
                                    ),
                                    program_failure(
                                        accounts,
                                        ASSOCIATED_TOKEN_PROGRAM as int,
                                        associated_token_program_id(),
                                    ),
                                ),
                            ),
                        ),
                    ),
                ),
            ),
        ),
    )
}

/// What an account list that passed the checks says of the offer.
pub open spec fn checked_accounts(accounts: Seq<Account>) -> InitAccounts {
    InitAccounts {
        maker: accounts[MAKER as int].key,
        sell_mint: accounts[SELL_MINT as int].key,
        buy_mint: accounts[BUY_MINT as int].key,
        maker_sell_account: accounts[MAKER_SELL_ACCOUNT as int].key,
        maker_buy_account: accounts[MAKER_BUY_ACCOUNT as int].key,
        escrow: accounts[ESCROW as int].key,
        escrow_token_account: accounts[ESCROW_TOKEN_ACCOUNT as int].key,
        token_program: accounts[TOKEN_PROGRAM as int].key,
        sell_decimals: mint_unpacked(accounts[SELL_MINT as int].data@)->Some_0.decimals,
    }
}

/// Checks the account list of a new offer, position by position, and returns what it says of
/// the offer. Nothing else is looked at once a check has failed.
pub fn validate_init_accounts(accounts: &[Account]) -> (r: Result<InitAccounts, Failure>)
    ensures
        accounts_failure(accounts@) matches Some(kind) ==> r matches Err(f) && f@ == kind,
        accounts_failure(accounts@) is None ==> accounts@.len() > ASSOCIATED_TOKEN_PROGRAM && r
            == Ok::<InitAccounts, Failure>(checked_accounts(accounts@)),
{
    let maker = match validate_signer(accounts, MAKER) {
        Ok(a) => a,
        Err(f) => { return Err(f); },
    };
    let (sell_mint, sell_info) = match validate_mint(accounts, SELL_MINT) {
        Ok(found) => found,
        Err(f) => { return Err(f); },
    };
    let (buy_mint, _) = match validate_mint(accounts, BUY_MINT) {
        Ok(found) => found,
        Err(f) => { return Err(f); },
    };
    let maker_sell_account = match validate_holding(accounts, MAKER_SELL_ACCOUNT) {
        Ok(a) => a,
        Err(f) => { return Err(f); },
    };
    let maker_buy_account = match validate_holding(accounts, MAKER_BUY_ACCOUNT) {
        Ok(a) => a,
        Err(f) => { return Err(f); },
    };
    let escrow = match account_at(accounts, ESCROW) {
        Ok(a) => a,
        Err(f) => { return Err(f); },
    };
    let escrow_token_account = match account_at(accounts, ESCROW_TOKEN_ACCOUNT) {
        Ok(a) => a,
        Err(f) => { return Err(f); },
    };
    match account_at(accounts, RENT) {
        Ok(_) => {},
        Err(f) => { return Err(f); },
    };
    match validate_program(accounts, SYSTEM_PROGRAM, &system_program()) {
        Ok(_) => {},
        Err(f) => { return Err(f); },
    };
    let token_program = match validate_program(accounts, TOKEN_PROGRAM, &token_program()) {
        Ok(a) => a,
        Err(f) => { return Err(f); },
    };
    match validate_program(accounts, ASSOCIATED_TOKEN_PROGRAM, &associated_token_program()) {
        Ok(_) => {},
        Err(f) => { return Err(f); },
    };
    Ok(
        InitAccounts {
            maker: maker.key,
            sell_mint: sell_mint.key,
            buy_mint: buy_mint.key,
            maker_sell_account: maker_sell_account.key,
            maker_buy_account: maker_buy_account.key,
            escrow: escrow.key,
            escrow_token_account: escrow_token_account.key,
            token_program: token_program.key,
            sell_decimals: sell_info.decimals,
        },
    )
}

/// The record that the transition writes: live, with the terms as they were supplied.
pub open spec fn recorded(
    checked: InitAccounts,
    sell_amount: u64,
    buy_amount: u64,
    bump: u8,
) -> Escrow {
    Escrow {
        is_initialized: true,
        authority: checked.maker,
        sell_mint: checked.sell_mint,
        buy_mint: checked.buy_mint,
        sell_amount,
        buy_amount,
        receive_account: checked.maker_buy_account,
        bump,
    }
}

/// The request that creates storage for one record at the custody address, owned by the
/// protocol and funded by the maker with the storage fee.
pub open spec fn storage_request(checked: InitAccounts, program_id: Address, fee: u64) -> Request {
    Request::CreateAccount {
        payer: checked.maker,
        account: checked.escrow,
        lamports: fee,
        space: ESCROW_LEN as u64,
        owner: program_id,
    }
}

/// The request that creates the custody address's holding account of the locked asset.
pub open spec fn custody_account_request(checked: InitAccounts) -> Request {
    Request::CreateAssociatedTokenAccount {
        payer: checked.maker,
        wallet: checked.escrow,
        mint: checked.sell_mint,
        token_program: checked.token_program,
    }
}

/// The request that moves the locked amount from the maker into custody.
pub open spec fn deposit_request(checked: InitAccounts, sell_amount: u64) -> Request {
    Request::TransferChecked {
        token_program: checked.token_program,
        source: checked.maker_sell_account,
        mint: checked.sell_mint,
        destination: checked.escrow_token_account,
        authority: checked.maker,
        amount: sell_amount,
        decimals: checked.sell_decimals,
    }
}

/// The steps of the transition, in order: create the record's storage, signing for the custody
/// address; write the record; create the custody holding account; move the locked amount into
/// it.
pub open spec fn init_steps(
    checked: InitAccounts,
    sell_amount: u64,
    buy_amount: u64,
    program_id: Address,
    bump: u8,
    fee: u64,
) -> Seq<StepView> {
    seq![
        invoked(
            storage_request(checked, program_id, fee),
            seq![MAKER, ESCROW, SYSTEM_PROGRAM],
            Some(signing_seeds(escrow_tag(), checked.maker@, checked.sell_mint@, bump)),
        ),
        StepView::Store {
            account: ESCROW,
            bytes: recorded(checked, sell_amount, buy_amount, bump)@.to_bytes(),
        },
        invoked(
            custody_account_request(checked),
            seq![
                MAKER,
                ESCROW_TOKEN_ACCOUNT,
                ESCROW,
                SELL_MINT,
                SYSTEM_PROGRAM,
                TOKEN_PROGRAM,
                ASSOCIATED_TOKEN_PROGRAM,
            ],
            None,
        ),
        invoked(
            deposit_request(checked, sell_amount),
            seq![MAKER_SELL_ACCOUNT, SELL_MINT, ESCROW_TOKEN_ACCOUNT, MAKER, TOKEN_PROGRAM],
            None,
        ),
    ]
}

/// Why the steps cannot be made: the first request, in their order, whose instruction cannot
/// be built.
pub open spec fn plan_failure(checked: InitAccounts, sell_amount: u64) -> Option<FailureKind> {
    match custody_account_request(checked).built() {
        Err(kind) => Some(kind),
        Ok(_) => match deposit_request(checked, sell_amount).built() {
            Err(kind) => Some(kind),
            Ok(_) => None,
        },
    }
}

/// Makes the steps of the transition from what the checks found: the offer's accounts, the
/// bump of its custody address and the storage fee. With the asset-ledger module as
/// `token_program`, the steps are made wherever an address can be derived for the custody
/// holding account.
pub fn init_plan(
    checked: &InitAccounts,
    sell_amount: u64,
    buy_amount: u64,
    program_id: &Address,
    bump: u8,
    fee: u64,
) -> (r: Result<Vec<Step>, Failure>)
    ensures
        plan_failure(*checked, sell_amount) matches Some(kind) ==> r matches Err(f) && f@ == kind,
        plan_failure(*checked, sell_amount) is None ==> (r matches Ok(steps) && steps_view(steps@)
            == init_steps(*checked, sell_amount, buy_amount, *program_id, bump, fee)),
        custody_account_request(*checked).built() is Ok && checked.token_program@
            == token_program_id() ==> r is Ok,
{
    let tag = escrow_tag_bytes();
    let seeds = signer_seeds(tag.as_slice(), &checked.maker, &checked.sell_mint, bump);
    let create = match invoke(
        Request::CreateAccount {
            payer: checked.maker,
            account: checked.escrow,
            lamports: fee,
            space: ESCROW_LEN as u64,
            owner: *program_id,
        },
        vec![MAKER, ESCROW, SYSTEM_PROGRAM],
        Some(seeds),
    ) {
        Ok(step) => step,
        Err(f) => { return Err(f); },
    };
    let record = Escrow::new(
        checked.maker,
        checked.sell_mint,
        checked.buy_mint,
        sell_amount,
        buy_amount,
        checked.maker_buy_account,
        bump,
    );
    let store = Step::Store { account: ESCROW, bytes: record.to_bytes() };
    let custody = match invoke(
        Request::CreateAssociatedTokenAccount {
            payer: checked.maker,
            wallet: checked.escrow,
            mint: checked.sell_mint,
            token_program: checked.token_program,
        },
        vec![
            MAKER,
            ESCROW_TOKEN_ACCOUNT,
            ESCROW,
            SELL_MINT,
            SYSTEM_PROGRAM,
            TOKEN_PROGRAM,
            ASSOCIATED_TOKEN_PROGRAM,
        ],
        None,
    ) {
        Ok(step) => step,
        Err(f) => { return Err(f); },
    };
    let deposit = match invoke(
        Request::TransferChecked {
            token_program: checked.token_program,
            source: checked.maker_sell_account,
            mint: checked.sell_mint,
            destination: checked.escrow_token_account,
            authority: checked.maker,
            amount: sell_amount,
            decimals: checked.sell_decimals,
        },
        vec![MAKER_SELL_ACCOUNT, SELL_MINT, ESCROW_TOKEN_ACCOUNT, MAKER, TOKEN_PROGRAM],
        None,
    ) {
        Ok(step) => step,
        Err(f) => { return Err(f); },
    };
    let steps = vec![create, store, custody, deposit];
    assert(steps_view(steps@) =~= init_steps(
        *checked,
        sell_amount,
        buy_amount,
        *program_id,
        bump,
        fee,
    ));
    Ok(steps)
}

/// The failure of the storage fee, if the fee rules in the account at `RENT` give none.
pub open spec fn fee_failure(accounts: Seq<Account>) -> Option<FailureKind> {
    match storage_fee(accounts[RENT as int], ESCROW_LEN) {
        Err(kind) => Some(kind),
        Ok(_) => None,
    }
}

/// The custody address of the offer and its bump, derived from the maker and the locked asset.
pub open spec fn offer_address(accounts: Seq<Account>, program_id: Address) -> Option<
    (Seq<u8>, u8),
> {
    derive_spec(
        escrow_tag(),
        accounts[MAKER as int].key@,
        accounts[SELL_MINT as int].key@,
        program_id@,
    )
}

/// Fails where the address at `ESCROW` is not the custody address derived for the offer.
pub open spec fn custody_failure(accounts: Seq<Account>, program_id: Address) -> Option<
    FailureKind,
> {
    if custody_bump(accounts[ESCROW as int].key@, offer_address(accounts, program_id)) is None {
        Some(FailureKind::Escrow(EscrowError::InvalidPda))
    } else {
        None
    }
}

/// Fails where no address can be derived for the custody holding account.
pub open spec fn custody_account_failure(accounts: Seq<Account>) -> Option<FailureKind> {
    match custody_account_request(checked_accounts(accounts)).built() {
        Err(kind) => Some(kind),
        Ok(_) => None,
    }
}

/// Why the transition is refused: the first that fails of the checks of the account list, the
/// storage fee, the custody address, and the address of the custody holding account.
pub open spec fn init_failure(accounts: Seq<Account>, program_id: Address) -> Option<FailureKind> {
    or_else(
        accounts_failure(accounts),
        or_else(
            fee_failure(accounts),
            or_else(custody_failure(accounts, program_id), custody_account_failure(accounts)),
        ),
    )
}

/// The steps of the transition for an account list that passes every check.
pub open spec fn init_outcome(
    accounts: Seq<Account>,
    sell_amount: u64,
    buy_amount: u64,
    program_id: Address,
) -> Seq<StepView> {
    init_steps(
        checked_accounts(accounts),
        sell_amount,
        buy_amount,
        program_id,
        offer_address(accounts, program_id)->Some_0.1,
        storage_fee(accounts[RENT as int], ESCROW_LEN)->Ok_0,
    )
}

/// The outcome of the transition: the failure, or the steps.
pub open spec fn init_result(
    accounts: Seq<Account>,
    sell_amount: u64,
    buy_amount: u64,
    program_id: Address,
) -> Result<Seq<StepView>, FailureKind> {
    match init_failure(accounts, program_id) {
        Some(kind) => Err(kind),
        None => Ok(init_outcome(accounts, sell_amount, buy_amount, program_id)),
    }
}

/// Creates an offer: the maker locks `sell_amount` of one asset and asks `buy_amount` of
/// another. The transition is refused with the first check that fails, before any step. Where
/// every check passes, the result is the list of steps for the host.
pub fn process_init_escrow(
    accounts: &[Account],
    sell_amount: u64,
    buy_amount: u64,
    program_id: &Address,
) -> (r: Result<Vec<Step>, Failure>)
    ensures
        outcome_view(r) == init_result(accounts@, sell_amount, buy_amount, *program_id),
{
    let checked = match validate_init_accounts(accounts) {
        Ok(checked) => checked,
        Err(f) => { return Err(f); },
    };
    let fee = match required_balance(&accounts[RENT], ESCROW_LEN) {
        Ok(fee) => fee,
        Err(f) => { return Err(f); },
    };
    let tag = escrow_tag_bytes();
    let derived = crate::derivation::derive(
        tag.as_slice(),
        &checked.maker,
        &checked.sell_mint,
        program_id,
    );
    let bump = match check_custody_address(&checked.escrow, derived) {
        Ok(bump) => bump,
        Err(f) => { return Err(f); },
    };
    init_plan(&checked, sell_amount, buy_amount, program_id, bump, fee)
}

/// Every offer that is accepted is recorded as it was made: the record written is live and
/// holds the maker, the two assets, the two amounts, the maker's receiving account and the
/// bump, as supplied; and it is written to storage created at the address derived from the tag,
/// the maker and the locked asset.
pub proof fn lemma_init_records_terms(
    accounts: Seq<Account>,
    sell_amount: u64,
    buy_amount: u64,
    program_id: Address,
)
    requires
        init_failure(accounts, program_id) is None,
    ensures
        ({
            let steps = init_outcome(accounts, sell_amount, buy_amount, program_id);
            let derived = derive_spec(
                escrow_tag(),
                accounts[MAKER as int].key@,
                accounts[SELL_MINT as int].key@,
                program_id@,
            );
            &&& derived is Some
            &&& accounts[ESCROW as int].key@ == derived->Some_0.0
            &&& steps[0] matches StepView::Invoke { request, .. }
            &&& request matches Request::CreateAccount { account, space, owner, .. }
            &&& account == accounts[ESCROW as int].key
            &&& space == 146
            &&& owner == program_id
            &&& steps[1] matches StepView::Store { account: at, bytes }
            &&& at == ESCROW
            &&& EscrowView::from_bytes(bytes) == Some(
                EscrowView {
                    is_initialized: true,
                    authority: accounts[MAKER as int].key@,
                    sell_mint: accounts[SELL_MINT as int].key@,
                    buy_mint: accounts[BUY_MINT as int].key@,
                    sell_amount,
                    buy_amount,
                    receive_account: accounts[MAKER_BUY_ACCOUNT as int].key@,
                    bump: derived->Some_0.1,
                },
            )
        }),
{
    let checked = checked_accounts(accounts);
    let bump = offer_address(accounts, program_id)->Some_0.1;
    lemma_from_bytes_of_to_bytes(recorded(checked, sell_amount, buy_amount, bump)@);
}

/// An offer made with a holding account of the maker that is frozen, or that does not belong
/// to the asset-ledger module, is refused, so that no step is taken. Where the checks before
/// that account pass, the failure is that of the holding account.
pub proof fn lemma_init_refuses_bad_holding(
    accounts: Seq<Account>,
    sell_amount: u64,
    buy_amount: u64,
    program_id: Address,
)
    requires
        bad_holding(accounts, MAKER_SELL_ACCOUNT as int) || bad_holding(
            accounts,
            MAKER_BUY_ACCOUNT as int,
        ),
    ensures
        init_result(accounts, sell_amount, buy_amount, program_id) is Err,
        signer_failure(accounts, MAKER as int) is None && mint_failure(accounts, SELL_MINT as int)
            is None && mint_failure(accounts, BUY_MINT as int) is None && bad_holding(
            accounts,
            MAKER_SELL_ACCOUNT as int,
        ) ==> init_result(accounts, sell_amount, buy_amount, program_id) == Err::<
            Seq<StepView>,
            FailureKind,
        >(FailureKind::Escrow(EscrowError::InvalidTokenAccount)),
{
}

} // verus!
