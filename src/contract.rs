use vstd::prelude::*;

use crate::account::AccountId;
use crate::records::{appended, lemma_append_grows_by_one, log_of, CustomRecord, RecordStore};

verus! {

/// An amount of tokens on the external ledger.
pub type Balance = u128;

/// The two ways an operation of [`TestErc`] can fail.
#[derive(Clone, Copy, Debug, PartialEq, Eq, Structural)]
pub enum Error {
    /// The caller is not the current official.
    NotOfficial,
    /// The token ledger refused the delegated transfer.
    TransferError,
}

/// A delegated transfer to be made on the token ledger `ledger`: move
/// `amount` from `from` to `to` out of the allowance that `from` granted.
#[derive(Clone, Copy, Debug)]
pub struct TransferFrom {
    pub ledger: AccountId,
    pub from: AccountId,
    pub to: AccountId,
    pub amount: Balance,
}

/// What an insertion reports once the ledger has answered its transfer.
pub open spec fn transfer_verdict(succeeded: bool) -> Result<(), Error> {
    if succeeded {
        Ok(())
    } else {
        Err(Error::TransferError)
    }
}

/// An insertion reports success exactly when the ledger made its transfer,
/// and `Error::TransferError` otherwise; either way the caller's log has
/// grown by the one record holding `value`.
pub proof fn lemma_insert_outcome(
    logs: Map<AccountId, Seq<CustomRecord>>,
    caller: AccountId,
    value: u128,
    succeeded: bool,
)
    ensures
        succeeded ==> transfer_verdict(succeeded) == Ok::<(), Error>(()),
        !succeeded ==> transfer_verdict(succeeded) == Err::<(), Error>(Error::TransferError),
        log_of(appended(logs, caller, CustomRecord { value }), caller) == log_of(
            logs,
            caller,
        ).push(CustomRecord { value }),
{
    lemma_append_grows_by_one(logs, caller, CustomRecord { value });
}

/// The contract's state: the token ledger it delegates transfers to, the
/// per-account record logs, and the official account.
pub struct TestErc {
    erc20: AccountId,
    custom: RecordStore,
    official: AccountId,
}

impl TestErc {
    /// The record store is well formed; every operation keeps it so.
    pub closed spec fn wf(&self) -> bool {
        self.custom.wf()
    }

    /// The token ledger this state delegates transfers to.
    pub closed spec fn ledger_spec(&self) -> AccountId {
        self.erc20
    }

    /// The current official account.
    pub closed spec fn official_spec(&self) -> AccountId {
        self.official
    }

    /// The record logs, by account.
    pub closed spec fn logs_spec(&self) -> Map<AccountId, Seq<CustomRecord>> {
        self.custom@
    }

    /// A fresh state bound to the token ledger `erc20`, with `official` as
    /// the official account and no record logs.
    pub fn new(erc20: AccountId, official: AccountId) -> (r: TestErc)
        ensures
            r.wf(),
            r.ledger_spec() == erc20,
            r.official_spec() == official,
            r.logs_spec() == Map::<AccountId, Seq<CustomRecord>>::empty(),
    {
        TestErc { erc20, custom: RecordStore::new(), official }
    }

    /// First step of an insertion by `caller`, the sender that the host
    /// authenticated: appends a record holding
    /// `value` to the caller's log, whatever happens afterwards, and returns
    /// the delegated transfer of `amount` from `caller` to `to` that the host
    /// makes next. Its outcome is turned into the insertion's result by
    /// [`TestErc::transfer_result`]; the appended record stays either way.
    pub fn insert_value(
        &mut self,
        caller: AccountId,
        to: AccountId,
        value: u128,
        amount: Balance,
    ) -> (r: TransferFrom)
        requires
            old(self).wf(),
        ensures
            final(self).wf(),
            final(self).logs_spec() == appended(
                old(self).logs_spec(),
                caller,
                CustomRecord { value },
            ),
            final(self).official_spec() == old(self).official_spec(),
            final(self).ledger_spec() == old(self).ledger_spec(),
            r.ledger == old(self).ledger_spec(),
            r.from == caller,
            r.to == to,
            r.amount == amount,
    {
        self.custom.append(caller, value);
        TransferFrom { ledger: self.erc20, from: caller, to, amount }
    }

    /// Second step of an insertion: `Ok(())` when the ledger made the
    /// transfer, `Err(Error::TransferError)` whatever the ledger's error was.
    pub fn transfer_result<E>(outcome: &Result<(), E>) -> (r: Result<(), Error>)
        ensures
            r == transfer_verdict(outcome is Ok),
    {
        match outcome {
            Ok(()) => Ok(()),
            Err(_) => Err(Error::TransferError),
        }
    }

    /// Hands the official role to `to`, when `caller` holds it; otherwise
    /// fails with `Error::NotOfficial` and changes nothing.
    pub fn change_official(&mut self, caller: AccountId, to: AccountId) -> (r: Result<(), Error>)
        requires
            old(self).wf(),
        ensures
            final(self).wf(),
            final(self).logs_spec() == old(self).logs_spec(),
            final(self).ledger_spec() == old(self).ledger_spec(),
            caller == old(self).official_spec() ==> r == Ok::<(), Error>(())
                && final(self).official_spec() == to,
            caller != old(self).official_spec() ==> r == Err::<(), Error>(Error::NotOfficial)
                && final(self).official_spec() == old(self).official_spec(),
    {
        if caller != self.official {
            Err(Error::NotOfficial)
        } else {
            self.official = to;
            Ok(())
        }
    }

    /// The current official account.
    pub fn official(&self) -> (r: AccountId)
        ensures
            r == self.official_spec(),
    {
        self.official
    }

    /// The token ledger this state delegates transfers to.
    pub fn erc20(&self) -> (r: AccountId)
        ensures
            r == self.ledger_spec(),
    {
        self.erc20
    }

    /// The record log of `account`, or `None` when it has none.
    pub fn records_of(&self, account: AccountId) -> (r: Option<Vec<CustomRecord>>)
        requires
            self.wf(),
        ensures
            match r {
                Some(log) => self.logs_spec().contains_key(account) && log@ == self.logs_spec()[account],
                None => !self.logs_spec().contains_key(account),
            },
    {
        self.custom.get(account)
    }
}

} // verus!
