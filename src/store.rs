use vstd::prelude::*;

verus! {

/// The shared cache could not be reached.
#[derive(Clone, Copy, Debug, PartialEq, Eq, Structural)]
pub struct StoreUnavailable;

/// One single-key write to the shared cache. Each is atomic on its own; a
/// sequence of them is not a transaction.
pub enum StoreOp {
    /// Set `session:{token_id}` to `subject`, expiring after `ttl` seconds.
    PutSession { token_id: String, subject: i64, ttl: i64 },
    /// Set `refresh:{token_id}` to `subject`, expiring after `ttl` seconds.
    PutRefresh { token_id: String, subject: i64, ttl: i64 },
    /// Delete `session:{token_id}`; no effect when absent.
    DeleteSession { token_id: String },
    /// Delete `refresh:{token_id}`; no effect when absent.
    DeleteRefresh { token_id: String },
    /// Add `token_id` to the set `user:{subject}:sessions`.
    AddToUserSet { subject: i64, token_id: String },
    /// Remove `token_id` from the set `user:{subject}:sessions`.
    RemoveFromUserSet { subject: i64, token_id: String },
    /// Let the set `user:{subject}:sessions` expire after `ttl` seconds.
    ExpireUserSet { subject: i64, ttl: i64 },
    /// Delete the set `user:{subject}:sessions`.
    DeleteUserSet { subject: i64 },
    /// Set `blacklist:{token_id}`, expiring after `ttl` seconds.
    Blacklist { token_id: String, ttl: i64 },
}

/// A store operation with its token ids as character sequences.
pub ghost enum OpView {
    PutSession { token_id: Seq<char>, subject: i64, ttl: i64 },
    PutRefresh { token_id: Seq<char>, subject: i64, ttl: i64 },
    DeleteSession { token_id: Seq<char> },
    DeleteRefresh { token_id: Seq<char> },
    AddToUserSet { subject: i64, token_id: Seq<char> },
    RemoveFromUserSet { subject: i64, token_id: Seq<char> },
    ExpireUserSet { subject: i64, ttl: i64 },
    DeleteUserSet { subject: i64 },
    Blacklist { token_id: Seq<char>, ttl: i64 },
}

impl View for StoreOp {
    type V = OpView;

    open spec fn view(&self) -> OpView {
        match self {
            StoreOp::PutSession { token_id, subject, ttl } => OpView::PutSession {
                token_id: token_id@,
                subject: *subject,
                ttl: *ttl,
            },
            StoreOp::PutRefresh { token_id, subject, ttl } => OpView::PutRefresh {
                token_id: token_id@,
                subject: *subject,
                ttl: *ttl,
            },
            StoreOp::DeleteSession { token_id } => OpView::DeleteSession { token_id: token_id@ },
            StoreOp::DeleteRefresh { token_id } => OpView::DeleteRefresh { token_id: token_id@ },
            StoreOp::AddToUserSet { subject, token_id } => OpView::AddToUserSet {
                subject: *subject,
                token_id: token_id@,
            },
            StoreOp::RemoveFromUserSet { subject, token_id } => OpView::RemoveFromUserSet {
                subject: *subject,
                token_id: token_id@,
            },
            StoreOp::ExpireUserSet { subject, ttl } => OpView::ExpireUserSet {
                subject: *subject,
                ttl: *ttl,
            },
            StoreOp::DeleteUserSet { subject } => OpView::DeleteUserSet { subject: *subject },
            StoreOp::Blacklist { token_id, ttl } => OpView::Blacklist {
                token_id: token_id@,
                ttl: *ttl,
            },
        }
    }
}

/// The operations of a plan, as views.
pub open spec fn plan_view(ops: Seq<StoreOp>) -> Seq<OpView> {
    ops.map_values(|o: StoreOp| o@)
}

/// What the shared cache holds at one instant, before any entry expires:
/// live sessions and refresh entries (token id to subject), each user's
/// set of access-token ids, and the revoked token ids.
pub ghost struct CacheState {
    pub sessions: Map<Seq<char>, i64>,
    pub refreshes: Map<Seq<char>, i64>,
    pub user_sets: Map<i64, Set<Seq<char>>>,
    pub blacklist: Set<Seq<char>>,
}

/// The session set of `subject`; an absent set reads as empty.
pub open spec fn members(s: CacheState, subject: i64) -> Set<Seq<char>> {
    if s.user_sets.contains_key(subject) {
        s.user_sets[subject]
    } else {
        Set::empty()
    }
}

/// The effect of one operation. Expiry settings do not change what is held.
pub open spec fn apply_op(s: CacheState, op: OpView) -> CacheState {
    match op {
        OpView::PutSession { token_id, subject, ttl } => CacheState {
            sessions: s.sessions.insert(token_id, subject),
            ..s
        },
        OpView::PutRefresh { token_id, subject, ttl } => CacheState {
            refreshes: s.refreshes.insert(token_id, subject),
            ..s
        },
        OpView::DeleteSession { token_id } => CacheState {
            sessions: s.sessions.remove(token_id),
            ..s
        },
        OpView::DeleteRefresh { token_id } => CacheState {
            refreshes: s.refreshes.remove(token_id),
            ..s
        },
        OpView::AddToUserSet { subject, token_id } => CacheState {
            user_sets: s.user_sets.insert(subject, members(s, subject).insert(token_id)),
            ..s
        },
        OpView::RemoveFromUserSet { subject, token_id } => CacheState {
            user_sets: s.user_sets.insert(subject, members(s, subject).remove(token_id)),
            ..s
        },
        OpView::ExpireUserSet { subject, ttl } => s,
        OpView::DeleteUserSet { subject } => CacheState {
            user_sets: s.user_sets.remove(subject),
            ..s
        },
        OpView::Blacklist { token_id, ttl } => CacheState {
            blacklist: s.blacklist.insert(token_id),
            ..s
        },
    }
}

/// The effect of a sequence of operations, applied in order.
pub open spec fn apply_ops(s: CacheState, ops: Seq<OpView>) -> CacheState
    decreases ops.len(),
{
    if ops.len() == 0 {
        s
    } else {
        apply_ops(apply_op(s, ops[0]), ops.drop_first())
    }
}

/// Applying `a + b` is applying `a`, then `b`.
pub proof fn lemma_apply_concat(s: CacheState, a: Seq<OpView>, b: Seq<OpView>)
    ensures
        apply_ops(s, a + b) == apply_ops(apply_ops(s, a), b),
    decreases a.len(),
{
    if a.len() == 0 {
        assert(a + b =~= b);
    } else {
        assert((a + b).drop_first() =~= a.drop_first() + b);
        lemma_apply_concat(apply_op(s, a[0]), a.drop_first(), b);
    }
}

/// Whether an access token id may authorize a request in `s`: not revoked,
/// and its session entry is live.
pub open spec fn usable(s: CacheState, token_id: Seq<char>) -> bool {
    !s.blacklist.contains(token_id) && s.sessions.contains_key(token_id)
}

/// The read of `blacklist:{token_id}` on a reachable cache.
pub open spec fn read_blacklist(s: CacheState, token_id: Seq<char>) -> Result<bool, StoreUnavailable> {
    Ok(s.blacklist.contains(token_id))
}

/// The read of `session:{token_id}` on a reachable cache.
pub open spec fn read_session(s: CacheState, token_id: Seq<char>) -> Result<
    Option<i64>,
    StoreUnavailable,
> {
    if s.sessions.contains_key(token_id) {
        Ok(Some(s.sessions[token_id]))
    } else {
        Ok(None)
    }
}

/// The read of `refresh:{token_id}` on a reachable cache.
pub open spec fn read_refresh(s: CacheState, token_id: Seq<char>) -> Result<
    Option<i64>,
    StoreUnavailable,
> {
    if s.refreshes.contains_key(token_id) {
        Ok(Some(s.refreshes[token_id]))
    } else {
        Ok(None)
    }
}

/// No operation removes a revoked id.
pub proof fn lemma_blacklist_grows(s: CacheState, ops: Seq<OpView>)
    ensures
        s.blacklist.subset_of(apply_ops(s, ops).blacklist),
    decreases ops.len(),
{
    if ops.len() > 0 {
        lemma_blacklist_grows(apply_op(s, ops[0]), ops.drop_first());
    }
}

} // verus!
