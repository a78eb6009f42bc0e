use crate::claims::Claims;
use crate::codec::{hs256_claims, verdict_of, CodecError};
use crate::guard::{guard_outcome, GuardError};
use crate::session::{
    eviction_plan, login_plan, logout_plan, redemption_outcome, revoke_all, revoke_member,
    rotation_plan, AuthConfig, AuthError, Grant,
};
use crate::store::{
    apply_op, apply_ops, lemma_apply_concat, lemma_blacklist_grows, members, plan_view,
    read_blacklist, read_refresh, read_session, usable, CacheState, OpView,
};
use vstd::prelude::*;

verus! {

/// Every live session is tracked: its id is in the session set of its
/// subject, or it is revoked.
pub open spec fn sessions_tracked(s: CacheState) -> bool {
    forall|j: Seq<char>|
        #[trigger] s.sessions.contains_key(j) ==> members(s, s.sessions[j]).contains(j)
            || s.blacklist.contains(j)
}

/// A token signed by `encode_claims` verifies to its own claims until it
/// expires: the codec reads back exactly the claims that were signed.
pub proof fn sign_then_verify(secret: Seq<u8>, c: Claims, token: Seq<char>, now: i64)
    requires
        c.exp >= 0 ==> hs256_claims(secret, token) == Some(c.fields()),
        0 <= c.exp,
        now <= c.exp,
    ensures
        verdict_of(hs256_claims(secret, token), now as int) == Ok::<_, CodecError>(c.fields()),
{
}

/// A login admits its own access token at once: the token verifies to
/// claims of the login's subject, and after the login's writes, and after
/// the session cap evicts any other member, the guard lets it through with
/// that subject, whatever the cache held before, as long as the fresh access
/// id was not already revoked.
pub proof fn login_then_authorize(
    s: CacheState,
    cfg: AuthConfig,
    g: Grant,
    subject: i64,
    now: i64,
    victim: Option<Seq<char>>,
)
    requires
        g.issued_for(&cfg, subject),
        g.reads_back(cfg.jwt_secret@),
        plan_view(g.ops@) == login_plan(
            cfg.session_ttl_secs,
            cfg.refresh_ttl_secs,
            g.access.sub,
            g.access.jti@,
            g.refresh.jti@,
        ),
        0 <= g.access.exp,
        now <= g.access.exp,
        !s.blacklist.contains(g.access.jti@),
        victim matches Some(v) ==> v != g.access.jti@,
    ensures
        verdict_of(hs256_claims(cfg.jwt_secret@, g.result.access_token@), now as int) == Ok::<
            _,
            CodecError,
        >(g.access.fields()),
        g.access.sub == subject,
        ({
            let s1 = apply_ops(s, plan_view(g.ops@));
            let s2 = match victim {
                Some(v) => apply_ops(s1, eviction_plan(cfg.refresh_ttl_secs, subject, v)),
                None => s1,
            };
            &&& usable(s2, g.access.jti@)
            &&& s2.sessions[g.access.jti@] == subject
            &&& members(s2, subject).contains(g.access.jti@)
            &&& guard_outcome(
                read_blacklist(s2, g.access.jti@),
                read_session(s2, g.access.jti@),
                None,
                seq![],
                g.access.sub,
            ) == Ok::<i64, GuardError>(subject)
        }),
{
    reveal_with_fuel(apply_ops, 5);
    let access_id = g.access.jti@;
    let s1 = apply_ops(s, plan_view(g.ops@));
    assert(members(s1, subject).contains(access_id));
    assert(s1.sessions[access_id] == subject);
    match victim {
        Some(v) => {
            let s2 = apply_ops(s1, eviction_plan(cfg.refresh_ttl_secs, subject, v));
            assert(members(s2, subject) == members(s1, subject).remove(v));
            assert(s2.sessions == s1.sessions.remove(v));
        },
        None => {},
    }
}

/// A refresh token redeems once: after a successful redemption's writes,
/// its id reads as revoked, its refresh entry is gone, and every later
/// redemption attempt fails as revoked, whatever writes come in between.
pub proof fn redeem_once(
    s: CacheState,
    session_ttl: i64,
    refresh_ttl: i64,
    subject: i64,
    old_id: Seq<char>,
    access_id: Seq<char>,
    refresh_id: Seq<char>,
    later: Seq<OpView>,
)
    requires
        redemption_outcome(read_blacklist(s, old_id), read_refresh(s, old_id)) == Ok::<
            i64,
            AuthError,
        >(subject),
    ensures
        ({
            let s2 = apply_ops(
                s,
                rotation_plan(session_ttl, refresh_ttl, subject, old_id, access_id, refresh_id),
            );
            let s3 = apply_ops(s2, later);
            &&& !s2.refreshes.contains_key(old_id)
            &&& redemption_outcome(read_blacklist(s3, old_id), read_refresh(s3, old_id)) == Err::<
                i64,
                _,
            >(AuthError::Revoked)
        }),
{
    reveal_with_fuel(apply_ops, 7);
    let s2 = apply_ops(
        s,
        rotation_plan(session_ttl, refresh_ttl, subject, old_id, access_id, refresh_id),
    );
    assert(s2.blacklist.contains(old_id));
    lemma_blacklist_grows(s2, later);
}

proof fn lemma_revoke_all(s: CacheState, refresh_ttl: i64, ids: Seq<Seq<char>>, n: nat)
    requires
        n <= ids.len(),
    ensures
        ({
            let r = apply_ops(s, revoke_all(refresh_ttl, ids, n));
            &&& r.user_sets == s.user_sets
            &&& s.blacklist.subset_of(r.blacklist)
            &&& forall|j: Seq<char>|
                #[trigger] r.sessions.contains_key(j) ==> s.sessions.contains_key(j)
                    && r.sessions[j] == s.sessions[j]
            &&& forall|k: int| 0 <= k < n ==> #[trigger] r.blacklist.contains(ids[k])
        }),
    decreases n,
{
    if n > 0 {
        let a = revoke_all(refresh_ttl, ids, (n - 1) as nat);
        let b = revoke_member(refresh_ttl, ids[n - 1]);
        lemma_revoke_all(s, refresh_ttl, ids, (n - 1) as nat);
        lemma_apply_concat(s, a, b);
        let mid = apply_ops(s, a);
        reveal_with_fuel(apply_ops, 3);
        let r = apply_ops(mid, b);
        assert(r.sessions == mid.sessions.remove(ids[n - 1]));
        assert(r.blacklist == mid.blacklist.insert(ids[n - 1]));
    }
}

/// After a logout of `subject` that read its session set as `ids`, no
/// session of `subject` passes the guard any more: every id of the set is
/// revoked for good, whatever writes follow, and, where every live session
/// was tracked, no live unrevoked session of `subject` is left at all; the
/// set itself is gone.
pub proof fn logout_revokes_all(
    s: CacheState,
    refresh_ttl: i64,
    subject: i64,
    ids: Seq<Seq<char>>,
    later: Seq<OpView>,
)
    requires
        forall|j: Seq<char>| #[trigger] members(s, subject).contains(j) ==> ids.contains(j),
    ensures
        ({
            let s2 = apply_ops(s, logout_plan(refresh_ttl, subject, ids));
            &&& members(s2, subject).is_empty()
            &&& forall|i: int, required: Option<Seq<char>>, perms: Seq<Seq<char>>|
                0 <= i < ids.len() ==> #[trigger] guard_outcome(
                    read_blacklist(apply_ops(s2, later), ids[i]),
                    read_session(apply_ops(s2, later), ids[i]),
                    required,
                    perms,
                    subject,
                ) == Err::<i64, _>(GuardError::Unauthenticated)
            &&& sessions_tracked(s) ==> forall|t: Seq<char>|
                #[trigger] usable(s2, t) ==> s2.sessions[t] != subject
            &&& sessions_tracked(s) ==> sessions_tracked(s2)
        }),
{
    let a = revoke_all(refresh_ttl, ids, ids.len());
    let b = seq![OpView::DeleteUserSet { subject }];
    lemma_revoke_all(s, refresh_ttl, ids, ids.len());
    lemma_apply_concat(s, a, b);
    let mid = apply_ops(s, a);
    reveal_with_fuel(apply_ops, 2);
    let s2 = apply_ops(mid, b);
    assert(s2 == apply_op(mid, OpView::DeleteUserSet { subject }));
    assert(members(s2, subject) =~= Set::empty());
    lemma_blacklist_grows(s2, later);
    assert forall|i: int, required: Option<Seq<char>>, perms: Seq<Seq<char>>|
        0 <= i < ids.len() implies #[trigger] guard_outcome(
        read_blacklist(apply_ops(s2, later), ids[i]),
        read_session(apply_ops(s2, later), ids[i]),
        required,
        perms,
        subject,
    ) == Err::<i64, _>(GuardError::Unauthenticated) by {
        assert(mid.blacklist.contains(ids[i]));
        assert(apply_ops(s2, later).blacklist.contains(ids[i]));
    }
    if sessions_tracked(s) {
        assert forall|t: Seq<char>| #[trigger] s2.sessions.contains_key(t) implies members(
            s2,
            s2.sessions[t],
        ).contains(t) || s2.blacklist.contains(t) by {
            assert(s.sessions.contains_key(t));
            let u = s.sessions[t];
            if !s.blacklist.contains(t) {
                assert(members(s, u).contains(t));
                if u == subject {
                    let k = choose|k: int| 0 <= k < ids.len() && ids[k] == t;
                    assert(mid.blacklist.contains(ids[k]));
                } else {
                    assert(members(s2, u) == members(s, u));
                }
            }
        }
        assert forall|t: Seq<char>| #[trigger] usable(s2, t) implies s2.sessions[t] != subject by {
            assert(s2.sessions.contains_key(t));
            if s2.sessions[t] == subject {
                assert(!members(s2, subject).contains(t));
            }
        }
    }
}

/// The writes of a login, of an eviction, and of a refresh rotation keep
/// every live session tracked.
pub proof fn plans_keep_sessions_tracked(
    s: CacheState,
    session_ttl: i64,
    refresh_ttl: i64,
    subject: i64,
    token_id: Seq<char>,
    other_id: Seq<char>,
    old_id: Seq<char>,
)
    requires
        sessions_tracked(s),
    ensures
        sessions_tracked(
            apply_ops(s, login_plan(session_ttl, refresh_ttl, subject, token_id, other_id)),
        ),
        sessions_tracked(apply_ops(s, eviction_plan(refresh_ttl, subject, token_id))),
        sessions_tracked(
            apply_ops(
                s,
                rotation_plan(session_ttl, refresh_ttl, subject, old_id, token_id, other_id),
            ),
        ),
{
    reveal_with_fuel(apply_ops, 7);
    let l = apply_ops(s, login_plan(session_ttl, refresh_ttl, subject, token_id, other_id));
    assert(l.sessions == s.sessions.insert(token_id, subject));
    assert(members(l, subject) == members(s, subject).insert(token_id));
    assert forall|j: Seq<char>| #[trigger] l.sessions.contains_key(j) implies members(
        l,
        l.sessions[j],
    ).contains(j) || l.blacklist.contains(j) by {
        if j != token_id && l.sessions[j] != subject {
            assert(members(l, l.sessions[j]) == members(s, s.sessions[j]));
        }
    }
    let e = apply_ops(s, eviction_plan(refresh_ttl, subject, token_id));
    assert(e.sessions == s.sessions.remove(token_id));
    assert(members(e, subject) == members(s, subject).remove(token_id));
    assert forall|j: Seq<char>| #[trigger] e.sessions.contains_key(j) implies members(
        e,
        e.sessions[j],
    ).contains(j) || e.blacklist.contains(j) by {
        assert(s.sessions.contains_key(j));
        if e.sessions[j] != subject {
            assert(members(e, e.sessions[j]) == members(s, s.sessions[j]));
        }
    }
    let r = apply_ops(
        s,
        rotation_plan(session_ttl, refresh_ttl, subject, old_id, token_id, other_id),
    );
    assert(r.sessions == s.sessions.insert(token_id, subject));
    assert(members(r, subject) == members(s, subject).insert(token_id));
    assert forall|j: Seq<char>| #[trigger] r.sessions.contains_key(j) implies members(
        r,
        r.sessions[j],
    ).contains(j) || r.blacklist.contains(j) by {
        if j != token_id {
            assert(s.sessions.contains_key(j));
            if s.blacklist.contains(j) {
                assert(r.blacklist.contains(j));
            } else if r.sessions[j] != subject {
                assert(members(r, r.sessions[j]) == members(s, s.sessions[j]));
            }
        }
    }
}

/// A login that finds `max` usable sessions in its user's set leaves `max`
/// usable sessions after the cap evicts one of the old ones: the victim no
/// longer passes the guard, the new access token and every other old session
/// still do, and the set is back to `max` members.
pub proof fn cap_evicts_exactly_one(
    s: CacheState,
    session_ttl: i64,
    refresh_ttl: i64,
    subject: i64,
    max: nat,
    access_id: Seq<char>,
    refresh_id: Seq<char>,
    victim: Seq<char>,
)
    requires
        members(s, subject).finite(),
        members(s, subject).len() == max,
        forall|t: Seq<char>| #[trigger] members(s, subject).contains(t) ==> usable(s, t),
        !members(s, subject).contains(access_id),
        !s.blacklist.contains(access_id),
        members(s, subject).contains(victim),
    ensures
        ({
            let s1 = apply_ops(s, login_plan(session_ttl, refresh_ttl, subject, access_id, refresh_id));
            let s2 = apply_ops(s1, eviction_plan(refresh_ttl, subject, victim));
            &&& members(s1, subject) == members(s, subject).insert(access_id)
            &&& members(s1, subject).len() == max + 1
            &&& !usable(s2, victim)
            &&& usable(s2, access_id)
            &&& forall|t: Seq<char>|
                #[trigger] members(s, subject).contains(t) && t != victim ==> usable(s2, t)
            &&& members(s2, subject) == members(s1, subject).remove(victim)
            &&& members(s2, subject).len() == max
        }),
{
    reveal_with_fuel(apply_ops, 5);
    let s1 = apply_ops(s, login_plan(session_ttl, refresh_ttl, subject, access_id, refresh_id));
    let s2 = apply_ops(s1, eviction_plan(refresh_ttl, subject, victim));
    assert(members(s1, subject) == members(s, subject).insert(access_id));
    assert(s1.sessions == s.sessions.insert(access_id, subject));
    assert(s1.blacklist == s.blacklist);
    assert(members(s2, subject) == members(s1, subject).remove(victim));
    assert(s2.blacklist == s1.blacklist.insert(victim));
    assert(s2.sessions == s1.sessions.remove(victim));
    assert(victim != access_id);
}

/// The cache after logins of `subject` with the access ids `access` and the
/// refresh ids `refresh`, in order, with no eviction.
pub open spec fn login_run(
    s: CacheState,
    session_ttl: i64,
    refresh_ttl: i64,
    subject: i64,
    access: Seq<Seq<char>>,
    refresh: Seq<Seq<char>>,
) -> CacheState
    decreases access.len(),
{
    if access.len() == 0 || refresh.len() != access.len() {
        s
    } else {
        apply_ops(
            login_run(
                s,
                session_ttl,
                refresh_ttl,
                subject,
                access.drop_last(),
                refresh.drop_last(),
            ),
            login_plan(session_ttl, refresh_ttl, subject, access.last(), refresh.last()),
        )
    }
}

proof fn lemma_login_run(
    s: CacheState,
    session_ttl: i64,
    refresh_ttl: i64,
    subject: i64,
    access: Seq<Seq<char>>,
    refresh: Seq<Seq<char>>,
)
    requires
        members(s, subject).is_empty(),
        refresh.len() == access.len(),
        access.no_duplicates(),
        forall|i: int| 0 <= i < access.len() ==> !s.blacklist.contains(#[trigger] access[i]),
    ensures
        ({
            let r = login_run(s, session_ttl, refresh_ttl, subject, access, refresh);
            &&& members(r, subject) == access.to_set()
            &&& r.blacklist == s.blacklist
            &&& forall|i: int| 0 <= i < access.len() ==> usable(r, #[trigger] access[i])
        }),
    decreases access.len(),
{
    let r = login_run(s, session_ttl, refresh_ttl, subject, access, refresh);
    if access.len() == 0 {
        assert(access.to_set() =~= Set::empty());
        assert(members(r, subject) =~= Set::empty());
    } else {
        let pa = access.drop_last();
        let pr = refresh.drop_last();
        assert forall|i: int, j: int| 0 <= i < pa.len() && 0 <= j < pa.len() && i != j implies pa[i]
            != pa[j] by {
            assert(pa[i] == access[i] && pa[j] == access[j]);
        }
        assert forall|i: int| 0 <= i < pa.len() implies !s.blacklist.contains(#[trigger] pa[i]) by {
            assert(pa[i] == access[i]);
        }
        lemma_login_run(s, session_ttl, refresh_ttl, subject, pa, pr);
        let m = login_run(s, session_ttl, refresh_ttl, subject, pa, pr);
        reveal_with_fuel(apply_ops, 5);
        assert(r == apply_ops(
            m,
            login_plan(session_ttl, refresh_ttl, subject, access.last(), refresh.last()),
        ));
        assert(members(r, subject) == members(m, subject).insert(access.last()));
        assert(r.sessions == m.sessions.insert(access.last(), subject));
        assert(access =~= pa.push(access.last()));
        assert(access.to_set() =~= pa.to_set().insert(access.last())) by {
            assert forall|x: Seq<char>| access.to_set().contains(x) implies pa.to_set().insert(
                access.last(),
            ).contains(x) by {
                let k = choose|k: int| 0 <= k < access.len() && access[k] == x;
                if k < access.len() - 1 {
                    assert(pa[k] == x);
                }
            }
            assert forall|x: Seq<char>| pa.to_set().insert(access.last()).contains(x) implies access.to_set().contains(
                x,
            ) by {
                if x != access.last() {
                    let k = choose|k: int| 0 <= k < pa.len() && pa[k] == x;
                    assert(access[k] == x);
                } else {
                    assert(access[access.len() - 1] == x);
                }
            }
        }
        assert forall|i: int| 0 <= i < access.len() implies usable(r, #[trigger] access[i]) by {
            if i < access.len() - 1 {
                assert(pa[i] == access[i]);
                assert(usable(m, pa[i]));
            }
        }
    }
}

/// A user who starts with no sessions and logs in `max + 1` times, each
/// time with a fresh access id: the first `max` logins leave at most `max`
/// members, so the cap evicts nothing; after the last login the cap evicts
/// one earlier session, which no longer passes the guard, while the other
/// `max` tokens, the newest among them, still do.
pub proof fn cap_after_max_plus_one_logins(
    s: CacheState,
    session_ttl: i64,
    refresh_ttl: i64,
    subject: i64,
    max: nat,
    access: Seq<Seq<char>>,
    refresh: Seq<Seq<char>>,
    victim: Seq<char>,
)
    requires
        members(s, subject).is_empty(),
        access.len() == max + 1,
        refresh.len() == access.len(),
        access.no_duplicates(),
        forall|i: int| 0 <= i < access.len() ==> !s.blacklist.contains(#[trigger] access[i]),
        access.take(max as int).contains(victim),
    ensures
        forall|k: nat|
            k <= max ==> (#[trigger] members(
                login_run(
                    s,
                    session_ttl,
                    refresh_ttl,
                    subject,
                    access.take(k as int),
                    refresh.take(k as int),
                ),
                subject,
            )).len() == k,
        ({
            let s1 = login_run(s, session_ttl, refresh_ttl, subject, access, refresh);
            let s2 = apply_ops(s1, eviction_plan(refresh_ttl, subject, victim));
            &&& members(s1, subject).len() == max + 1
            &&& !usable(s2, victim)
            &&& forall|i: int| 0 <= i < access.len() && access[i] != victim ==> usable(
                s2,
                #[trigger] access[i],
            )
            &&& members(s2, subject) == access.to_set().remove(victim)
            &&& members(s2, subject).len() == max
        }),
{
    assert forall|k: nat| k <= max implies (#[trigger] members(
        login_run(
            s,
            session_ttl,
            refresh_ttl,
            subject,
            access.take(k as int),
            refresh.take(k as int),
        ),
        subject,
    )).len() == k by {
        let a = access.take(k as int);
        assert forall|i: int, j: int| 0 <= i < a.len() && 0 <= j < a.len() && i != j implies a[i]
            != a[j] by {
            assert(a[i] == access[i] && a[j] == access[j]);
        }
        assert forall|i: int| 0 <= i < a.len() implies !s.blacklist.contains(#[trigger] a[i]) by {
            assert(a[i] == access[i]);
        }
        lemma_login_run(s, session_ttl, refresh_ttl, subject, a, refresh.take(k as int));
        a.unique_seq_to_set();
    }
    lemma_login_run(s, session_ttl, refresh_ttl, subject, access, refresh);
    access.unique_seq_to_set();
    let s1 = login_run(s, session_ttl, refresh_ttl, subject, access, refresh);
    let s2 = apply_ops(s1, eviction_plan(refresh_ttl, subject, victim));
    reveal_with_fuel(apply_ops, 4);
    let k = choose|k: int| 0 <= k < max && access.take(max as int)[k] == victim;
    assert(access[k] == victim);
    assert(members(s2, subject) == members(s1, subject).remove(victim));
    assert(s2.blacklist == s1.blacklist.insert(victim));
    assert(s2.sessions == s1.sessions.remove(victim));
    assert(access.to_set().contains(victim));
}

} // verus!
