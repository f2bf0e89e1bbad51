//! A model of the host's ledger, as far as the two transitions touch it, and what the
//! transitions do to it.
//!
//! Each step is given the effect that the module it addresses gives it, and the conditions
//! without which that module refuses it. A host may refuse a step for further reasons: what is
//! proved here of a run holds of every run that the host carried through, and what is proved
//! to be refused is refused on these conditions alone.

use crate::account::Account;
use crate::address::Address;
use crate::derivation::search_from;
use crate::error::FailureKind;
use crate::instruction::{associated_seeds, Request};
use crate::instructions::exchange;
use crate::instructions::initialize;
use crate::instructions::StepView;
use crate::programs::associated_token_program_id;
use crate::state::{lemma_from_bytes_of_to_bytes, lemma_to_bytes_len, EscrowView};
use vstd::prelude::*;

verus! {

/// The ledger: balances in the base currency, the data stored at addresses that a program
/// owns, and the amounts in holding accounts.
pub struct Ledger {
    /// The balance of each address in the base currency; an address without entry has none.
    pub lamports: Map<Seq<u8>, nat>,
    /// The data of each account that was created for a program.
    pub storage: Map<Seq<u8>, Seq<u8>>,
    /// The amount in each holding account that exists.
    pub holdings: Map<Seq<u8>, nat>,
    /// The balance that the host asks a new holding account to hold.
    pub holding_reserve: nat,
}

impl Ledger {
    /// The balance of an address in the base currency.
    pub open spec fn balance(self, address: Seq<u8>) -> nat {
        if self.lamports.dom().contains(address) {
            self.lamports[address]
        } else {
            0
        }
    }

    /// Whether an address is in use, so that no account can be created there.
    pub open spec fn occupied(self, address: Seq<u8>) -> bool {
        self.balance(address) > 0 || self.storage.dom().contains(address)
            || self.holdings.dom().contains(address)
    }

    /// The ledger after `amount` has moved from one address to another.
    pub open spec fn pay(self, from: Seq<u8>, to: Seq<u8>, amount: nat) -> Ledger
        recommends
            self.balance(from) >= amount,
    {
        let taken = self.lamports.insert(from, (self.balance(from) - amount) as nat);
        let before = if taken.dom().contains(to) {
            taken[to]
        } else {
            0
        };
        Ledger { lamports: taken.insert(to, (before + amount) as nat), ..self }
    }
}

/// What a request does to the ledger, or `None` where it is refused.
/// - Creating an account is refused at an address in use, and where the payer cannot fund it.
///   The account starts with the funds and with `space` zero bytes.
/// - Creating an associated holding account is refused where its address cannot be derived or
///   is in use, and where the payer cannot fund the reserve. The account starts empty.
/// - A transfer is refused unless both holding accounts exist and the source holds the amount.
/// - Closing a holding account is refused unless it exists and is empty. Its balance goes to
///   the destination.
pub open spec fn request_effect(ledger: Ledger, request: Request) -> Option<Ledger> {
    match request {
        Request::CreateAccount { payer, account, lamports, space, .. } => {
            if ledger.occupied(account@) || ledger.balance(payer@) < lamports {
                None
            } else {
                let funded = ledger.pay(payer@, account@, lamports as nat);
                Some(
                    Ledger {
                        storage: funded.storage.insert(
                            account@,
                            Seq::new(space as nat, |i: int| 0u8),
                        ),
                        ..funded
                    },
                )
            }
        },
        Request::CreateAssociatedTokenAccount { payer, wallet, mint, token_program } => {
            match search_from(
                associated_seeds(wallet@, token_program@, mint@),
                associated_token_program_id(),
                255,
            ) {
                None => None,
                Some((address, _)) => if ledger.occupied(address) || ledger.balance(payer@)
                    < ledger.holding_reserve {
                    None
                } else {
                    let funded = ledger.pay(payer@, address, ledger.holding_reserve);
                    Some(Ledger { holdings: funded.holdings.insert(address, 0), ..funded })
                },
            }
        },
        Request::TransferChecked { source, destination, amount, .. } => {
            if !ledger.holdings.dom().contains(source@) || !ledger.holdings.dom().contains(
                destination@,
            ) || ledger.holdings[source@] < amount {
                None
            } else {
                let taken = ledger.holdings.insert(
                    source@,
                    (ledger.holdings[source@] - amount) as nat,
                );
                Some(
                    Ledger {
                        holdings: taken.insert(
                            destination@,
                            (taken[destination@] + amount) as nat,
                        ),
                        ..ledger
                    },
                )
            }
        },
        Request::CloseAccount { account, destination, .. } => {
            if !ledger.holdings.dom().contains(account@) || ledger.holdings[account@] != 0 {
                None
            } else {
                let paid = ledger.pay(account@, destination@, ledger.balance(account@));
                Some(Ledger { holdings: paid.holdings.remove(account@), ..paid })
            }
        },
    }
}

/// What a step does to the ledger, or `None` where it is refused. `keys` are the addresses of
/// the transition's account list.
/// - A request has the effect of `request_effect`.
/// - Writing is refused unless the account has storage for the bytes. They replace its start.
/// - Destroying an account is refused where the beneficiary's balance would pass 64 bits. The
///   beneficiary gets the whole balance; the account keeps neither balance nor storage.
pub open spec fn step_effect(ledger: Ledger, step: StepView, keys: Seq<Seq<u8>>) -> Option<
    Ledger,
> {
    match step {
        StepView::Invoke { request, .. } => request_effect(ledger, request),
        StepView::Store { account, bytes } => {
            if account >= keys.len() || !ledger.storage.dom().contains(keys[account as int])
                || ledger.storage[keys[account as int]].len() < bytes.len() {
                None
            } else {
                let old = ledger.storage[keys[account as int]];
                Some(
                    Ledger {
                        storage: ledger.storage.insert(
                            keys[account as int],
                            bytes + old.subrange(bytes.len() as int, old.len() as int),
                        ),
                        ..ledger
                    },
                )
            }
        },
        StepView::Close { account, beneficiary } => {
            if account >= keys.len() || beneficiary >= keys.len() || ledger.balance(
                keys[beneficiary as int],
            ) + ledger.balance(keys[account as int]) > u64::MAX {
                None
            } else {
                let paid = ledger.pay(
                    keys[account as int],
                    keys[beneficiary as int],
                    ledger.balance(keys[account as int]),
                );
                Some(Ledger { storage: paid.storage.remove(keys[account as int]), ..paid })
            }
        },
    }
}

/// The ledger after the steps were carried out in order, or `None` where one was refused.
pub open spec fn run(ledger: Ledger, steps: Seq<StepView>, keys: Seq<Seq<u8>>) -> Option<Ledger>
    decreases steps.len(),
{
    if steps.len() == 0 {
        Some(ledger)
    } else {
        match step_effect(ledger, steps[0], keys) {
            None => None,
            Some(next) => run(next, steps.drop_first(), keys),
        }
    }
}

/// The ledger after a transition: as the steps left it where all were carried out, and as it
/// was where the transition was refused or a step failed.
pub open spec fn settled(
    ledger: Ledger,
    outcome: Result<Seq<StepView>, FailureKind>,
    keys: Seq<Seq<u8>>,
) -> Ledger {
    match outcome {
        Err(_) => ledger,
        Ok(steps) => match run(ledger, steps, keys) {
            Some(after) => after,
            None => ledger,
        },
    }
}

/// The addresses of an account list.
pub open spec fn keys_of(accounts: Seq<Account>) -> Seq<Seq<u8>> {
    accounts.map_values(|a: Account| a.key@)
}

/// A run of four steps carries them out one after the other.
proof fn lemma_run_four(ledger: Ledger, steps: Seq<StepView>, keys: Seq<Seq<u8>>)
    requires
        steps.len() == 4,
    ensures
        run(ledger, steps, keys) == match step_effect(ledger, steps[0], keys) {
            None => None,
            Some(l1) => match step_effect(l1, steps[1], keys) {
                None => None,
                Some(l2) => match step_effect(l2, steps[2], keys) {
                    None => None,
                    Some(l3) => step_effect(l3, steps[3], keys),
                },
            },
        },
{
    let s1 = steps.drop_first();
    let s2 = s1.drop_first();
    let s3 = s2.drop_first();
    let s4 = s3.drop_first();
    assert(s1[0] == steps[1]);
    assert(s2[0] == steps[2]);
    assert(s3[0] == steps[3]);
    assert(s4.len() == 0);
    reveal_with_fuel(run, 5);
}

/// A transition that is refused leaves the ledger as it was.
pub proof fn lemma_refused_changes_nothing(
    ledger: Ledger,
    outcome: Result<Seq<StepView>, FailureKind>,
    keys: Seq<Seq<u8>>,
)
    requires
        outcome is Err,
    ensures
        settled(ledger, outcome, keys) == ledger,
{
}

/// An exchange against a custody address that is not the one derived again from the maker, the
/// asset received and the stored bump leaves the ledger as it was.
pub proof fn lemma_exchange_at_other_address_changes_nothing(
    ledger: Ledger,
    accounts: Seq<Account>,
    sell_amount: u64,
    buy_amount: u64,
    program_id: Address,
)
    requires
        exchange::accounts_failure(accounts) is None,
        exchange::record_failure(accounts) is None,
        exchange::custody_failure(accounts, program_id) is Some,
    ensures
        settled(
            ledger,
            exchange::exchange_result(accounts, sell_amount, buy_amount, program_id),
            keys_of(accounts),
        ) == ledger,
{
}

/// After an exchange that was carried through, with the amounts of the call whatever the
/// record says:
/// - the custody holding account and the record are gone;
/// - the receiving account named in the call holds `sell_amount` more, where it is none of the
///   other three holding accounts;
/// - the taker's receiving account holds `buy_amount` more, where it is none of the other
///   three holding accounts;
/// - the maker's balance has grown by the balances of the custody holding account and of the
///   record, where maker, custody holding account and record are three addresses; the custody
///   address is then free for a new offer, unless it is itself a holding account.
pub proof fn lemma_exchange_settles(
    ledger: Ledger,
    accounts: Seq<Account>,
    sell_amount: u64,
    buy_amount: u64,
    program_id: Address,
    after: Ledger,
)
    requires
        exchange::exchange_failure(accounts, program_id) is None,
        run(
            ledger,
            exchange::exchange_outcome(accounts, sell_amount, buy_amount),
            keys_of(accounts),
        ) == Some(after),
    ensures
        ({
            let checked = exchange::checked_accounts(accounts);
            let (maker, record, custody) = (
                checked.maker@,
                checked.escrow@,
                checked.escrow_token_account@,
            );
            let (source, receiver, target) = (
                checked.taker_sell_account@,
                checked.receiver@,
                checked.taker_buy_account@,
            );
            &&& !after.holdings.dom().contains(custody)
            &&& !after.storage.dom().contains(record)
            &&& receiver != source && receiver != custody && receiver != target
                ==> after.holdings.dom().contains(receiver) && after.holdings[receiver]
                == ledger.holdings[receiver] + sell_amount
            &&& target != source && target != custody && target != receiver
                ==> after.holdings.dom().contains(target) && after.holdings[target]
                == ledger.holdings[target] + buy_amount
            &&& maker != custody && maker != record && custody != record ==> after.balance(maker)
                == ledger.balance(maker) + ledger.balance(custody) + ledger.balance(record)
            &&& maker != custody && maker != record && custody != record
                && !ledger.holdings.dom().contains(record) ==> !after.occupied(record)
        }),
{
    let steps = exchange::exchange_outcome(accounts, sell_amount, buy_amount);
    let keys = keys_of(accounts);
    lemma_run_four(ledger, steps, keys);
    assert(keys[exchange::ESCROW as int] == accounts[exchange::ESCROW as int].key@);
    assert(keys[exchange::MAKER as int] == accounts[exchange::MAKER as int].key@);
}

/// After an offer was created, its record is stored at the custody address, as it was made,
/// and the address is in use.
pub proof fn lemma_init_stores_record(
    ledger: Ledger,
    accounts: Seq<Account>,
    sell_amount: u64,
    buy_amount: u64,
    program_id: Address,
    after: Ledger,
)
    requires
        initialize::init_failure(accounts, program_id) is None,
        run(
            ledger,
            initialize::init_outcome(accounts, sell_amount, buy_amount, program_id),
            keys_of(accounts),
        ) == Some(after),
    ensures
        ({
            let custody = accounts[initialize::ESCROW as int].key@;
            let derived = initialize::offer_address(accounts, program_id);
            &&& derived matches Some((address, bump))
            &&& custody == address
            &&& after.occupied(custody)
            &&& after.storage.dom().contains(custody)
            &&& EscrowView::from_bytes(after.storage[custody]) == Some(
                initialize::recorded(
                    initialize::checked_accounts(accounts),
                    sell_amount,
                    buy_amount,
                    bump,
                )@,
            )
        }),
{
    let steps = initialize::init_outcome(accounts, sell_amount, buy_amount, program_id);
    let keys = keys_of(accounts);
    let checked = initialize::checked_accounts(accounts);
    let bump = initialize::offer_address(accounts, program_id)->Some_0.1;
    let record = initialize::recorded(checked, sell_amount, buy_amount, bump)@;
    lemma_run_four(ledger, steps, keys);
    lemma_to_bytes_len(record);
    lemma_from_bytes_of_to_bytes(record);
    assert(keys[initialize::ESCROW as int] == accounts[initialize::ESCROW as int].key@);
    let l1 = step_effect(ledger, steps[0], keys)->Some_0;
    let l2 = step_effect(l1, steps[1], keys)->Some_0;
    assert(l1.storage[checked.escrow@].len() == 146);
    assert(l2.storage[checked.escrow@] =~= record.to_bytes());
}

/// After an offer was created with the associated holding account of the custody address as
/// its custody holding account, that account holds exactly the locked amount, and the maker's
/// holding account that much less.
pub proof fn lemma_init_takes_custody(
    ledger: Ledger,
    accounts: Seq<Account>,
    sell_amount: u64,
    buy_amount: u64,
    program_id: Address,
    after: Ledger,
)
    requires
        initialize::init_failure(accounts, program_id) is None,
        run(
            ledger,
            initialize::init_outcome(accounts, sell_amount, buy_amount, program_id),
            keys_of(accounts),
        ) == Some(after),
        search_from(
            associated_seeds(
                accounts[initialize::ESCROW as int].key@,
                accounts[initialize::TOKEN_PROGRAM as int].key@,
                accounts[initialize::SELL_MINT as int].key@,
            ),
            associated_token_program_id(),
            255,
        ) matches Some((address, _)) && address
            == accounts[initialize::ESCROW_TOKEN_ACCOUNT as int].key@,
    ensures
        ({
            let custody = accounts[initialize::ESCROW_TOKEN_ACCOUNT as int].key@;
            let source = accounts[initialize::MAKER_SELL_ACCOUNT as int].key@;
            &&& after.holdings.dom().contains(custody)
            &&& after.holdings[custody] == sell_amount
            &&& source != custody ==> after.holdings[source] + sell_amount
                == ledger.holdings[source]
        }),
{
    let steps = initialize::init_outcome(accounts, sell_amount, buy_amount, program_id);
    lemma_run_four(ledger, steps, keys_of(accounts));
}

/// No offer can be created while its custody address is in use: the host refuses the first
/// step, and the ledger stays as it was.
pub proof fn lemma_offer_refused_at_address_in_use(
    ledger: Ledger,
    accounts: Seq<Account>,
    sell_amount: u64,
    buy_amount: u64,
    program_id: Address,
)
    requires
        initialize::init_failure(accounts, program_id) is None,
        ledger.occupied(accounts[initialize::ESCROW as int].key@),
    ensures
        run(
            ledger,
            initialize::init_outcome(accounts, sell_amount, buy_amount, program_id),
            keys_of(accounts),
        ) is None,
        settled(
            ledger,
            initialize::init_result(accounts, sell_amount, buy_amount, program_id),
            keys_of(accounts),
        ) == ledger,
{
    let steps = initialize::init_outcome(accounts, sell_amount, buy_amount, program_id);
    lemma_run_four(ledger, steps, keys_of(accounts));
}

/// A second offer of the same maker for the same locked asset, whatever its other terms, has
/// the custody address of the first, and is refused right after the first was created.
pub proof fn lemma_second_offer_refused(
    ledger: Ledger,
    first: Seq<Account>,
    first_sell_amount: u64,
    first_buy_amount: u64,
    second: Seq<Account>,
    second_sell_amount: u64,
    second_buy_amount: u64,
    program_id: Address,
    between: Ledger,
)
    requires
        initialize::init_failure(first, program_id) is None,
        initialize::init_failure(second, program_id) is None,
        first[initialize::MAKER as int].key@ == second[initialize::MAKER as int].key@,
        first[initialize::SELL_MINT as int].key@ == second[initialize::SELL_MINT as int].key@,
        run(
            ledger,
            initialize::init_outcome(first, first_sell_amount, first_buy_amount, program_id),
            keys_of(first),
        ) == Some(between),
    ensures
        second[initialize::ESCROW as int].key@ == first[initialize::ESCROW as int].key@,
        run(
            between,
            initialize::init_outcome(second, second_sell_amount, second_buy_amount, program_id),
            keys_of(second),
        ) is None,
{
    lemma_init_stores_record(
        ledger,
        first,
        first_sell_amount,
        first_buy_amount,
        program_id,
        between,
    );
    lemma_offer_refused_at_address_in_use(
        between,
        second,
        second_sell_amount,
        second_buy_amount,
        program_id,
    );
}

} // verus!
