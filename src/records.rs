use vstd::prelude::*;

use crate::account::AccountId;

verus! {

/// One entry of an account's history. Immutable once created.
#[derive(Clone, Copy, Debug, PartialEq, Eq, Structural)]
pub struct CustomRecord {
    pub value: u128,
}

/// The log of `account` in `logs`; an account without an entry reads as empty.
pub open spec fn log_of(
    logs: Map<AccountId, Seq<CustomRecord>>,
    account: AccountId,
) -> Seq<CustomRecord> {
    if logs.contains_key(account) {
        logs[account]
    } else {
        Seq::empty()
    }
}

/// `logs` after `record` is appended to the log of `account`, creating that
/// log when the account has none yet.
pub open spec fn appended(
    logs: Map<AccountId, Seq<CustomRecord>>,
    account: AccountId,
    record: CustomRecord,
) -> Map<AccountId, Seq<CustomRecord>> {
    logs.insert(account, log_of(logs, account).push(record))
}

/// `logs` after one record for each of `values` is appended, in that order,
/// to the log of `account`.
pub open spec fn appended_all(
    logs: Map<AccountId, Seq<CustomRecord>>,
    account: AccountId,
    values: Seq<u128>,
) -> Map<AccountId, Seq<CustomRecord>>
    decreases values.len(),
{
    if values.len() == 0 {
        logs
    } else {
        appended(
            appended_all(logs, account, values.drop_last()),
            account,
            CustomRecord { value: values.last() },
        )
    }
}

/// The records holding `values`, in the same order.
pub open spec fn records_holding(values: Seq<u128>) -> Seq<CustomRecord> {
    values.map_values(|v: u128| CustomRecord { value: v })
}

/// An append adds exactly one record to the account's log, at its end, and
/// keeps every earlier record in place.
pub proof fn lemma_append_grows_by_one(
    logs: Map<AccountId, Seq<CustomRecord>>,
    account: AccountId,
    record: CustomRecord,
)
    ensures
        appended(logs, account, record).contains_key(account),
        log_of(appended(logs, account, record), account) == log_of(logs, account).push(record),
        log_of(appended(logs, account, record), account).len() == log_of(logs, account).len()
            + 1,
        forall|other: AccountId|
            other != account ==> log_of(appended(logs, account, record), other) == log_of(
                logs,
                other,
            ) && (appended(logs, account, record).contains_key(other) == logs.contains_key(
                other,
            )),
{
}

/// Appending to an account that has no log yet, once for each of `values`,
/// leaves it a log of exactly those values in the order they were appended;
/// the logs of the other accounts are untouched. In particular one append
/// makes a log of one record holding the appended value.
pub proof fn lemma_fresh_log_keeps_order(
    logs: Map<AccountId, Seq<CustomRecord>>,
    account: AccountId,
    values: Seq<u128>,
)
    requires
        !logs.contains_key(account),
    ensures
        log_of(appended_all(logs, account, values), account) == records_holding(values),
        log_of(appended_all(logs, account, values), account).len() == values.len(),
        forall|other: AccountId|
            other != account ==> log_of(appended_all(logs, account, values), other) == log_of(
                logs,
                other,
            ) && (appended_all(logs, account, values).contains_key(other)
                == logs.contains_key(other)),
    decreases values.len(),
{
    if values.len() == 0 {
        assert(records_holding(values) =~= Seq::<CustomRecord>::empty());
    } else {
        let before = appended_all(logs, account, values.drop_last());
        lemma_fresh_log_keeps_order(logs, account, values.drop_last());
        lemma_append_grows_by_one(before, account, CustomRecord { value: values.last() });
        assert(records_holding(values) =~= records_holding(values.drop_last()).push(
            CustomRecord { value: values.last() },
        ));
    }
}

/// Appending the same value twice leaves two records, not one.
pub proof fn lemma_repeated_append_keeps_both(
    logs: Map<AccountId, Seq<CustomRecord>>,
    account: AccountId,
    record: CustomRecord,
)
    ensures
        log_of(appended(appended(logs, account, record), account, record), account) == log_of(
            logs,
            account,
        ).push(record).push(record),
        log_of(appended(appended(logs, account, record), account, record), account).len()
            == log_of(logs, account).len() + 2,
{
    lemma_append_grows_by_one(logs, account, record);
    lemma_append_grows_by_one(appended(logs, account, record), account, record);
}

/// Per-account append-only logs of records.
pub struct RecordStore {
    entries: Vec<(AccountId, Vec<CustomRecord>)>,
    logs: Ghost<Map<AccountId, Seq<CustomRecord>>>,
}

impl View for RecordStore {
    type V = Map<AccountId, Seq<CustomRecord>>;

    closed spec fn view(&self) -> Map<AccountId, Seq<CustomRecord>> {
        self.logs@
    }
}

impl RecordStore {
    /// Each account appears at most once among the entries, and the entries
    /// hold exactly the logs of the model.
    pub closed spec fn wf(&self) -> bool {
        &&& forall|i: int, j: int|
            0 <= i < j < self.entries@.len() ==> self.entries@[i].0 != self.entries@[j].0
        &&& forall|i: int|
            0 <= i < self.entries@.len() ==> #[trigger] self.logs@.contains_key(
                self.entries@[i].0,
            ) && self.logs@[self.entries@[i].0] == self.entries@[i].1@
        &&& forall|a: AccountId|
            #[trigger] self.logs@.contains_key(a) ==> exists|i: int|
                0 <= i < self.entries@.len() && #[trigger] self.entries@[i].0 == a
    }

    /// A store in which no account has a log.
    pub fn new() -> (r: RecordStore)
        ensures
            r.wf(),
            r@ == Map::<AccountId, Seq<CustomRecord>>::empty(),
    {
        RecordStore { entries: Vec::new(), logs: Ghost(Map::empty()) }
    }

    /// Appends a record holding `value` at the end of the log of `account`,
    /// creating a one-entry log when the account has none.
    pub fn append(&mut self, account: AccountId, value: u128)
        requires
            old(self).wf(),
        ensures
            final(self).wf(),
            final(self)@ == appended(old(self)@, account, CustomRecord { value }),
    {
        let record = CustomRecord { value };
        let ghost start = self@;
        let ghost target = appended(start, account, record);
        let mut i: usize = 0;
        while i < self.entries.len()
            invariant
                self.wf(),
                self@ == start,
                start == old(self)@,
                target == appended(start, account, record),
                record == (CustomRecord { value }),
                i <= self.entries@.len(),
                forall|j: int| 0 <= j < i ==> self.entries@[j].0 != account,
            decreases self.entries@.len() - i,
        {
            if self.entries[i].0 == account {
                let ghost before = self.entries@;
                self.entries[i].1.push(record);
                assert(self.entries@.len() == before.len());
                assert(self.entries@[i as int].0 == account);
                assert(self.entries@[i as int].1@ == before[i as int].1@.push(record));
                assert(forall|j: int| 0 <= j < before.len() && j != i ==> self.entries@[j] == before[j]);
                self.logs = Ghost(target);
                assert(self.wf());
                return;
            }
            i = i + 1;
        }
        assert(!start.contains_key(account));
        let mut log: Vec<CustomRecord> = Vec::new();
        log.push(record);
        let ghost before = self.entries@;
        self.entries.push((account, log));
        self.logs = Ghost(target);
        assert(self.entries@[before.len() as int].0 == account);
        assert(forall|j: int| 0 <= j < before.len() ==> self.entries@[j] == before[j]);
        assert(self.wf());
    }

    /// The log of `account`, or `None` when the account has none.
    pub fn get(&self, account: AccountId) -> (r: Option<Vec<CustomRecord>>)
        requires
            self.wf(),
        ensures
            match r {
                Some(log) => self@.contains_key(account) && log@ == self@[account],
                None => !self@.contains_key(account),
            },
    {
        let mut i: usize = 0;
        while i < self.entries.len()
            invariant
                self.wf(),
                i <= self.entries@.len(),
                forall|j: int| 0 <= j < i ==> self.entries@[j].0 != account,
            decreases self.entries@.len() - i,
        {
            if self.entries[i].0 == account {
                let log = self.entries[i].1.clone();
                assert(forall|k: int|
                    0 <= k < log@.len() ==> #[trigger] log@[k] == self.entries@[i as int].1@[k]);
                assert(log@ =~= self.entries@[i as int].1@);
                assert(self.logs@.contains_key(self.entries@[i as int].0));
                return Some(log);
            }
            i = i + 1;
        }
        None
    }
}

} // verus!
