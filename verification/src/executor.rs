//! The action executor: a model of the credential table, the all-or-nothing
//! credential swap against it, and the planning step that the surrounding
//! service uses to drive the same swap against a live store.

use vstd::prelude::*;

use crate::protocol::{Action, ActionV};

verus! {

/// Failure of an action's execution.
#[derive(Debug, Clone, PartialEq, Eq)]
pub enum ExecError {
    /// The named account does not exist; not retryable without new input.
    NotFound(String),
    /// The transaction failed; the store was left untouched, so the whole
    /// call may be retried from scratch.
    Storage(String),
}

/// Mathematical image of an `ExecError`.
pub enum ExecErrorV {
    NotFound(Seq<char>),
    Storage(Seq<char>),
}

impl View for ExecError {
    type V = ExecErrorV;

    open spec fn view(&self) -> ExecErrorV {
        match self {
            ExecError::NotFound(u) => ExecErrorV::NotFound(u@),
            ExecError::Storage(c) => ExecErrorV::Storage(c@),
        }
    }
}

/// One row of the credential table.
#[derive(Debug, Clone, PartialEq, Eq)]
pub struct CredRecord {
    pub user_id: i32,
    pub username: String,
    pub password_hash: String,
}

/// Mathematical image of a `CredRecord`.
pub struct CredRecordV {
    pub user_id: int,
    pub username: Seq<char>,
    pub password_hash: Seq<char>,
}

impl View for CredRecord {
    type V = CredRecordV;

    open spec fn view(&self) -> CredRecordV {
        CredRecordV {
            user_id: self.user_id as int,
            username: self.username@,
            password_hash: self.password_hash@,
        }
    }
}

/// What a username authenticates: the account row and password hash bound to
/// it.
pub struct AccountV {
    pub user_id: int,
    pub password_hash: Seq<char>,
}

/// The account a row binds its username to.
pub open spec fn acct_of(r: CredRecordV) -> AccountV {
    AccountV { user_id: r.user_id, password_hash: r.password_hash }
}

/// The table as a map from username to account, built row by row.
pub open spec fn map_of(rows: Seq<CredRecordV>) -> Map<Seq<char>, AccountV>
    decreases rows.len(),
{
    if rows.len() == 0 {
        Map::empty()
    } else {
        map_of(rows.drop_last()).insert(rows.last().username, acct_of(rows.last()))
    }
}

/// The uniqueness invariant the store enforces: no two rows share a username.
pub open spec fn unique_usernames(rows: Seq<CredRecordV>) -> bool {
    forall|i: int, j: int|
        0 <= i < j < rows.len() ==> rows[i].username != rows[j].username
}

/// Two rows with the same username are the same row.
pub proof fn lemma_unique_index(rows: Seq<CredRecordV>, a: int, b: int)
    requires
        unique_usernames(rows),
        0 <= a < rows.len(),
        0 <= b < rows.len(),
        rows[a].username == rows[b].username,
    ensures
        a == b,
{
    if a < b {
        assert(rows[a].username != rows[b].username);
    } else if b < a {
        assert(rows[b].username != rows[a].username);
    }
}

/// A username is a key of the table's map exactly when some row carries it.
pub proof fn lemma_map_of_contains(rows: Seq<CredRecordV>, u: Seq<char>)
    ensures
        map_of(rows).contains_key(u) <==> (exists|m: int|
            0 <= m < rows.len() && rows[m].username == u),
    decreases rows.len(),
{
    if rows.len() > 0 {
        let prefix = rows.drop_last();
        lemma_map_of_contains(prefix, u);
        if rows.last().username == u {
            assert(rows[rows.len() - 1].username == u);
        } else {
            if map_of(rows).contains_key(u) {
                let m = choose|m: int| 0 <= m < prefix.len() && prefix[m].username == u;
                assert(rows[m].username == u);
            }
            if exists|m: int| 0 <= m < rows.len() && rows[m].username == u {
                let m = choose|m: int| 0 <= m < rows.len() && rows[m].username == u;
                assert(m != rows.len() - 1);
                assert(prefix[m].username == u);
            }
        }
    }
}

/// Under uniqueness, the map binds each row's username to that row's account.
pub proof fn lemma_map_of_index(rows: Seq<CredRecordV>, i: int)
    requires
        unique_usernames(rows),
        0 <= i < rows.len(),
    ensures
        map_of(rows).contains_key(rows[i].username),
        map_of(rows)[rows[i].username] == acct_of(rows[i]),
    decreases rows.len(),
{
    if i < rows.len() - 1 {
        let prefix = rows.drop_last();
        assert(unique_usernames(prefix));
        assert(prefix[i] == rows[i]);
        lemma_map_of_index(prefix, i);
        assert(rows.last().username != rows[i].username);
    }
}

/// The rows after the swap: rows `i` and `j` exchange account and password
/// hash while every username keeps its position.
pub open spec fn swapped_rows(rows: Seq<CredRecordV>, i: int, j: int) -> Seq<CredRecordV> {
    rows.update(
        i,
        CredRecordV {
            user_id: rows[j].user_id,
            username: rows[i].username,
            password_hash: rows[j].password_hash,
        },
    ).update(
        j,
        CredRecordV {
            user_id: rows[i].user_id,
            username: rows[j].username,
            password_hash: rows[i].password_hash,
        },
    )
}

/// Effect of a successful swap on the table's map: the two usernames exchange
/// the accounts they authenticate; nothing else moves.
pub open spec fn swap_effect(
    m: Map<Seq<char>, AccountV>,
    o: Seq<char>,
    n: Seq<char>,
) -> Map<Seq<char>, AccountV> {
    m.insert(o, m[n]).insert(n, m[o])
}

/// Swapping two distinct rows realises `swap_effect` on the table's map and
/// preserves the uniqueness invariant.
pub proof fn lemma_map_of_swapped(rows: Seq<CredRecordV>, i: int, j: int)
    requires
        unique_usernames(rows),
        0 <= i < rows.len(),
        0 <= j < rows.len(),
        i != j,
    ensures
        unique_usernames(swapped_rows(rows, i, j)),
        map_of(swapped_rows(rows, i, j)) == swap_effect(
            map_of(rows),
            rows[i].username,
            rows[j].username,
        ),
{
    let sw = swapped_rows(rows, i, j);
    let o = rows[i].username;
    let n = rows[j].username;
    assert(sw.len() == rows.len());
    assert(forall|m: int| 0 <= m < rows.len() ==> sw[m].username == rows[m].username);
    assert forall|a: int, b: int| 0 <= a < b < sw.len() implies sw[a].username
        != sw[b].username by {
        assert(rows[a].username != rows[b].username);
    }
    let lhs = map_of(sw);
    let rhs = swap_effect(map_of(rows), o, n);
    lemma_map_of_index(rows, i);
    lemma_map_of_index(rows, j);
    assert forall|u: Seq<char>| lhs.contains_key(u) implies rhs.contains_key(u) by {
        lemma_map_of_contains(sw, u);
        let m = choose|m: int| 0 <= m < sw.len() && sw[m].username == u;
        assert(rows[m].username == u);
        lemma_map_of_contains(rows, u);
    }
    assert forall|u: Seq<char>| rhs.contains_key(u) implies lhs.contains_key(u) by {
        lemma_map_of_contains(rows, u);
        let m = choose|m: int| 0 <= m < rows.len() && rows[m].username == u;
        assert(sw[m].username == u);
        lemma_map_of_contains(sw, u);
    }
    assert forall|u: Seq<char>| lhs.contains_key(u) implies lhs[u] == rhs[u] by {
        lemma_map_of_contains(sw, u);
        let m = choose|m: int| 0 <= m < sw.len() && sw[m].username == u;
        lemma_map_of_index(sw, m);
        lemma_map_of_index(rows, m);
        if u == o {
            lemma_unique_index(rows, m, i);
            assert(lhs[u] == acct_of(sw[i]));
            assert(rhs[u] == map_of(rows)[n]);
        } else if u == n {
            lemma_unique_index(rows, m, j);
            assert(lhs[u] == acct_of(sw[j]));
            assert(rhs[u] == map_of(rows)[o]);
        } else {
            assert(m != i && m != j);
            assert(sw[m] == rows[m]);
        }
    }
    assert(lhs =~= rhs);
}

/// True exactly when the two strings spell the same characters.
fn str_eq(a: &str, b: &str) -> (r: bool)
    ensures
        r == (a@ == b@),
{
    let n = a.unicode_len();
    if n != b.unicode_len() {
        return false;
    }
    let mut k: usize = 0;
    while k < n
        invariant
            k <= n,
            n == a@.len(),
            n == b@.len(),
            forall|m: int| 0 <= m < k ==> a@[m] == b@[m],
        decreases n - k,
    {
        if a.get_char(k) != b.get_char(k) {
            assert(a@[k as int] != b@[k as int]);
            return false;
        }
        k = k + 1;
    }
    proof {
        assert(a@ =~= b@);
    }
    true
}

/// The credential table: a model of the external store that owns the
/// `(user_id, username, password_hash)` rows.
pub struct CredStore {
    records: Vec<CredRecord>,
}

impl CredStore {
    /// The rows, in insertion order.
    pub closed spec fn rows(self) -> Seq<CredRecordV> {
        self.records@.map_values(|r: CredRecord| r@)
    }

    /// The table seen as a map from username to bound account.
    pub open spec fn map_view(self) -> Map<Seq<char>, AccountV> {
        map_of(self.rows())
    }

    /// Table invariant: usernames are unique across rows.
    pub open spec fn wf(self) -> bool {
        unique_usernames(self.rows())
    }

    /// An empty table.
    pub fn new() -> (s: CredStore)
        ensures
            s.wf(),
            s.rows() == Seq::<CredRecordV>::empty(),
            s.map_view() == Map::<Seq<char>, AccountV>::empty(),
    {
        let s = CredStore { records: Vec::new() };
        proof {
            assert(s.rows() =~= Seq::<CredRecordV>::empty());
        }
        s
    }

    /// Number of rows.
    pub fn len(&self) -> (n: usize)
        ensures
            n == self.rows().len(),
    {
        self.records.len()
    }

    fn find_idx(&self, username: &str) -> (r: Option<usize>)
        ensures
            match r {
                Some(i) => i < self.rows().len() && self.rows()[i as int].username == username@,
                None => forall|m: int|
                    0 <= m < self.rows().len() ==> self.rows()[m].username != username@,
            },
    {
        let len = self.records.len();
        let mut k: usize = 0;
        while k < len
            invariant
                k <= len,
                len == self.rows().len(),
                forall|m: int| 0 <= m < k ==> self.rows()[m].username != username@,
            decreases len - k,
        {
            if str_eq(self.records[k].username.as_str(), username) {
                return Some(k);
            }
            k = k + 1;
        }
        None
    }

    /// Point lookup by username.
    pub fn lookup(&self, username: &str) -> (r: Option<&CredRecord>)
        requires
            self.wf(),
        ensures
            match r {
                Some(rec) => self.map_view().contains_key(username@) && rec@.username
                    == username@ && acct_of(rec@) == self.map_view()[username@],
                None => !self.map_view().contains_key(username@),
            },
    {
        match self.find_idx(username) {
            Some(i) => {
                proof {
                    lemma_map_of_index(self.rows(), i as int);
                }
                Some(&self.records[i])
            },
            None => {
                proof {
                    lemma_map_of_contains(self.rows(), username@);
                }
                None
            },
        }
    }

    /// Insert one row. Fails, leaving the table untouched, when the username
    /// is already bound: the store's uniqueness constraint.
    pub fn insert(&mut self, rec: CredRecord) -> (r: Result<(), ExecError>)
        requires
            old(self).wf(),
        ensures
            final(self).wf(),
            match r {
                Ok(_) => !old(self).map_view().contains_key(rec.username@) && final(self).rows()
                    == old(self).rows().push(rec@) && final(self).map_view() == old(
                    self,
                ).map_view().insert(rec.username@, acct_of(rec@)),
                Err(e) => *final(self) == *old(self) && old(self).map_view().contains_key(
                    rec.username@,
                ) && e@ is Storage,
            },
    {
        match self.find_idx(rec.username.as_str()) {
            Some(i) => {
                proof {
                    lemma_map_of_index(self.rows(), i as int);
                }
                Err(ExecError::Storage(String::from_str("unique constraint violated on insert")))
            },
            None => {
                proof {
                    lemma_map_of_contains(self.rows(), rec.username@);
                }
                let ghost pre = self.rows();
                self.records.push(rec);
                proof {
                    assert(self.rows() =~= pre.push(rec@));
                    assert(pre.push(rec@).drop_last() =~= pre);
                    assert forall|a: int, b: int|
                        0 <= a < b < self.rows().len() implies self.rows()[a].username
                        != self.rows()[b].username by {
                        if b < pre.len() {
                            assert(pre[a].username != pre[b].username);
                        } else {
                            assert(pre[a].username != rec.username@);
                        }
                    }
                }
                Ok(())
            },
        }
    }

    /// The credential swap, run as one all-or-nothing transaction against this
    /// table. `storage_fault` forces the write step to fail the way a storage
    /// engine might (for instance on a constraint violation); the transaction
    /// then rolls back and the table is left exactly as it was.
    pub fn transfer(
        &mut self,
        old_username: &String,
        new_username: &String,
        storage_fault: bool,
    ) -> (r: Result<(), ExecError>)
        requires
            old(self).wf(),
        ensures
            final(self).wf(),
            transfer_post(
                old(self).map_view(),
                old(self).rows().len() as int,
                old_username@,
                new_username@,
                storage_fault,
                final(self).map_view(),
                final(self).rows().len() as int,
                r,
            ),
    {
        let oi = match self.find_idx(old_username.as_str()) {
            Some(i) => i,
            None => {
                proof {
                    lemma_map_of_contains(self.rows(), old_username@);
                }
                return Err(ExecError::NotFound(old_username.clone()));
            },
        };
        proof {
            lemma_map_of_index(self.rows(), oi as int);
        }
        let ni = match self.find_idx(new_username.as_str()) {
            Some(i) => i,
            None => {
                proof {
                    lemma_map_of_contains(self.rows(), new_username@);
                }
                return Err(ExecError::NotFound(new_username.clone()));
            },
        };
        proof {
            lemma_map_of_index(self.rows(), ni as int);
        }
        if storage_fault || oi == ni {
            // The reinsert would fail: forced fault, or both usernames name the
            // same row, so reinserting two rows under one username violates
            // uniqueness. The transaction rolls back.
            return Err(
                ExecError::Storage(String::from_str("unique constraint violated on reinsert")),
            );
        }
        proof {
            if old_username@ == new_username@ {
                lemma_unique_index(self.rows(), oi as int, ni as int);
            }
        }
        let ghost pre_rows = self.rows();
        let len = self.records.len();
        let mut out: Vec<CredRecord> = Vec::new();
        let mut k: usize = 0;
        while k < len
            invariant
                k <= len,
                len == self.rows().len(),
                pre_rows == self.rows(),
                oi < len,
                ni < len,
                oi != ni,
                out@.len() == k,
                forall|m: int|
                    0 <= m < k ==> out@[m]@ == swapped_rows(pre_rows, oi as int, ni as int)[m],
            decreases len - k,
        {
            if k == oi {
                out.push(
                    CredRecord {
                        user_id: self.records[ni].user_id,
                        username: self.records[oi].username.clone(),
                        password_hash: self.records[ni].password_hash.clone(),
                    },
                );
            } else if k == ni {
                out.push(
                    CredRecord {
                        user_id: self.records[oi].user_id,
                        username: self.records[ni].username.clone(),
                        password_hash: self.records[oi].password_hash.clone(),
                    },
                );
            } else {
                out.push(
                    CredRecord {
                        user_id: self.records[k].user_id,
                        username: self.records[k].username.clone(),
                        password_hash: self.records[k].password_hash.clone(),
                    },
                );
            }
            k = k + 1;
        }
        self.records = out;
        proof {
            assert(self.rows() =~= swapped_rows(pre_rows, oi as int, ni as int));
            lemma_map_of_swapped(pre_rows, oi as int, ni as int);
        }
        Ok(())
    }
}

/// What holds of the table after a `TransferPlus` attempt: exactly one of the
/// four documented outcomes, and in every failing one the table is untouched.
pub open spec fn transfer_post(
    pre: Map<Seq<char>, AccountV>,
    pre_len: int,
    o: Seq<char>,
    n: Seq<char>,
    storage_fault: bool,
    post: Map<Seq<char>, AccountV>,
    post_len: int,
    r: Result<(), ExecError>,
) -> bool {
    post_len == pre_len && if !pre.contains_key(o) {
        post == pre && (match r {
            Err(e) => e@ == ExecErrorV::NotFound(o),
            Ok(_) => false,
        })
    } else if !pre.contains_key(n) {
        post == pre && (match r {
            Err(e) => e@ == ExecErrorV::NotFound(n),
            Ok(_) => false,
        })
    } else if storage_fault || o == n {
        post == pre && (match r {
            Err(e) => e@ is Storage,
            Ok(_) => false,
        })
    } else {
        r is Ok && post == swap_effect(pre, o, n)
    }
}

/// What holds of the table after `execute`: the actions without side effects
/// leave it untouched and succeed; `TransferPlus` obeys `transfer_post`.
pub open spec fn execute_post(
    pre: Map<Seq<char>, AccountV>,
    pre_len: int,
    action: ActionV,
    storage_fault: bool,
    post: Map<Seq<char>, AccountV>,
    post_len: int,
    r: Result<(), ExecError>,
) -> bool {
    match action {
        ActionV::Null => r is Ok && post == pre && post_len == pre_len,
        ActionV::Abort => r is Ok && post == pre && post_len == pre_len,
        ActionV::TransferPlus { old_username, new_username } => transfer_post(
            pre,
            pre_len,
            old_username,
            new_username,
            storage_fault,
            post,
            post_len,
            r,
        ),
    }
}

/// Execute a validated action against the table, with the write step forced
/// to fail when `storage_fault` holds: the simulated storage failure always
/// rolls back, so the table never ends in a partly written state.
pub fn execute_with_fault(
    action: &Action,
    store: &mut CredStore,
    storage_fault: bool,
) -> (r: Result<(), ExecError>)
    requires
        old(store).wf(),
    ensures
        final(store).wf(),
        execute_post(
            old(store).map_view(),
            old(store).rows().len() as int,
            action@,
            storage_fault,
            final(store).map_view(),
            final(store).rows().len() as int,
            r,
        ),
{
    match action {
        Action::Null => Ok(()),
        Action::Abort => Ok(()),
        Action::TransferPlus { old_username, new_username } => store.transfer(
            old_username,
            new_username,
            storage_fault,
        ),
    }
}

/// Execute a validated action against the table as a single all-or-nothing
/// transaction: `Null` and `Abort` are no-ops; `TransferPlus` swaps which
/// account the two usernames authenticate, or fails leaving the table
/// untouched.
pub fn execute(action: &Action, store: &mut CredStore) -> (r: Result<(), ExecError>)
    requires
        old(store).wf(),
    ensures
        final(store).wf(),
        execute_post(
            old(store).map_view(),
            old(store).rows().len() as int,
            action@,
            false,
            final(store).map_view(),
            final(store).rows().len() as int,
            r,
        ),
{
    execute_with_fault(action, store, false)
}

/// The two rows a successful swap writes back after deleting the originals.
#[derive(Debug, Clone, PartialEq, Eq)]
pub struct SwapPlan {
    /// The old username, now bound to the new account's row and hash.
    pub first: CredRecord,
    /// The new username, now bound to the old account's row and hash.
    pub second: CredRecord,
}

/// Decide a `TransferPlus` from the two point lookups a live store returned:
/// either the exact pair of rows to reinsert, or the failure the protocol owes
/// the caller. All decisions of the swap algorithm are made here; the caller
/// only performs the reads and writes.
pub fn plan_swap(
    old_username: String,
    new_username: String,
    old_row: Option<(i32, String)>,
    new_row: Option<(i32, String)>,
) -> (r: Result<SwapPlan, ExecError>)
    ensures
        match (old_row, new_row) {
            (None, _) => match r {
                Err(e) => e@ == ExecErrorV::NotFound(old_username@),
                Ok(_) => false,
            },
            (Some(_), None) => match r {
                Err(e) => e@ == ExecErrorV::NotFound(new_username@),
                Ok(_) => false,
            },
            (Some(orow), Some(nrow)) => if old_username@ == new_username@ {
                match r {
                    Err(e) => e@ is Storage,
                    Ok(_) => false,
                }
            } else {
                match r {
                    Ok(p) => p.first@ == (CredRecordV {
                        user_id: nrow.0 as int,
                        username: old_username@,
                        password_hash: nrow.1@,
                    }) && p.second@ == (CredRecordV {
                        user_id: orow.0 as int,
                        username: new_username@,
                        password_hash: orow.1@,
                    }),
                    Err(_) => false,
                }
            },
        },
{
    match (old_row, new_row) {
        (None, _) => Err(ExecError::NotFound(old_username)),
        (Some(_), None) => Err(ExecError::NotFound(new_username)),
        (Some(orow), Some(nrow)) => {
            if str_eq(old_username.as_str(), new_username.as_str()) {
                Err(ExecError::Storage(String::from_str("unique constraint violated on reinsert")))
            } else {
                Ok(
                    SwapPlan {
                        first: CredRecord {
                            user_id: nrow.0,
                            username: old_username,
                            password_hash: nrow.1,
                        },
                        second: CredRecord {
                            user_id: orow.0,
                            username: new_username,
                            password_hash: orow.1,
                        },
                    },
                )
            }
        },
    }
}

/// Law: a successful swap exchanges exactly the two bindings. The set of
/// usernames is unchanged, the old username authenticates what the new one
/// did and vice versa, and every other username keeps its account.
pub proof fn lemma_swap_effect_correct(m: Map<Seq<char>, AccountV>, o: Seq<char>, n: Seq<char>)
    requires
        m.contains_key(o),
        m.contains_key(n),
        o != n,
    ensures
        swap_effect(m, o, n).dom() == m.dom(),
        swap_effect(m, o, n)[o] == m[n],
        swap_effect(m, o, n)[n] == m[o],
        forall|u: Seq<char>|
            m.contains_key(u) && u != o && u != n ==> swap_effect(m, o, n)[u] == m[u],
{
    assert(swap_effect(m, o, n).dom() =~= m.dom());
}

/// Law: two swaps that share no username commute. Whatever order the store
/// serialises them in, the table ends in the same state, so concurrent
/// transfers over disjoint username pairs do not interfere.
pub proof fn lemma_disjoint_swaps_commute(
    m: Map<Seq<char>, AccountV>,
    o1: Seq<char>,
    n1: Seq<char>,
    o2: Seq<char>,
    n2: Seq<char>,
)
    requires
        o1 != o2,
        o1 != n2,
        n1 != o2,
        n1 != n2,
    ensures
        swap_effect(swap_effect(m, o1, n1), o2, n2) == swap_effect(swap_effect(m, o2, n2), o1, n1),
{
    assert(swap_effect(swap_effect(m, o1, n1), o2, n2) =~= swap_effect(
        swap_effect(m, o2, n2),
        o1,
        n1,
    ));
}

} // verus!
