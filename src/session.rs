use crate::claims::{expiry_of, make_claims, Claims};
use crate::codec::{decode_claims, encode_claims, hs256_claims, hs256_token, CodecError};
use crate::models::{LoginResult, User, UserResponse};
use crate::password::{bcrypt_verdict, check_password};
use crate::store::{plan_view, OpView, StoreOp, StoreUnavailable};
use vstd::prelude::*;

verus! {

/// Signing secret and lifetimes of the session layer.
pub struct AuthConfig {
    pub jwt_secret: Vec<u8>,
    pub session_ttl_secs: i64,
    pub refresh_ttl_secs: i64,
    pub max_sessions_per_user: usize,
    pub permissions_ttl_secs: i64,
}

impl AuthConfig {
    /// A configuration with the default lifetimes: access tokens 15 minutes,
    /// refresh tokens 7 days, 5 sessions per user, permissions cached 5 minutes.
    pub fn new(secret: Vec<u8>) -> (r: AuthConfig)
        ensures
            r.jwt_secret == secret,
            r.session_ttl_secs == 900,
            r.refresh_ttl_secs == 604800,
            r.max_sessions_per_user == 5,
            r.permissions_ttl_secs == 300,
    {
        AuthConfig {
            jwt_secret: secret,
            session_ttl_secs: 60 * 15,
            refresh_ttl_secs: 60 * 60 * 24 * 7,
            max_sessions_per_user: 5,
            permissions_ttl_secs: 60 * 5,
        }
    }
}

/// Why a session operation failed.
#[derive(Clone, Copy, Debug, PartialEq, Eq, Structural)]
pub enum AuthError {
    UserNotFound,
    AccountDisabled,
    InvalidCredentials,
    InvalidToken,
    Expired,
    Revoked,
    RefreshNotFound,
    SigningError,
    StoreUnavailable,
}

/// The writes that open a session: the access session entry, the refresh
/// entry, the access id in the user's set, and the set's lifetime.
pub open spec fn login_plan(
    session_ttl: i64,
    refresh_ttl: i64,
    subject: i64,
    access_id: Seq<char>,
    refresh_id: Seq<char>,
) -> Seq<OpView> {
    seq![
        OpView::PutSession { token_id: access_id, subject, ttl: session_ttl },
        OpView::PutRefresh { token_id: refresh_id, subject, ttl: refresh_ttl },
        OpView::AddToUserSet { subject, token_id: access_id },
        OpView::ExpireUserSet { subject, ttl: refresh_ttl },
    ]
}

/// The writes that evict one session of `subject`.
pub open spec fn eviction_plan(refresh_ttl: i64, subject: i64, victim: Seq<char>) -> Seq<OpView> {
    seq![
        OpView::RemoveFromUserSet { subject, token_id: victim },
        OpView::Blacklist { token_id: victim, ttl: refresh_ttl },
        OpView::DeleteSession { token_id: victim },
    ]
}

/// The writes that redeem refresh token `old_id` and open the session of a
/// new access token with a new refresh token.
pub open spec fn rotation_plan(
    session_ttl: i64,
    refresh_ttl: i64,
    subject: i64,
    old_id: Seq<char>,
    access_id: Seq<char>,
    refresh_id: Seq<char>,
) -> Seq<OpView> {
    seq![
        OpView::PutRefresh { token_id: refresh_id, subject, ttl: refresh_ttl },
        OpView::Blacklist { token_id: old_id, ttl: refresh_ttl },
        OpView::DeleteRefresh { token_id: old_id },
        OpView::PutSession { token_id: access_id, subject, ttl: session_ttl },
        OpView::AddToUserSet { subject, token_id: access_id },
        OpView::ExpireUserSet { subject, ttl: refresh_ttl },
    ]
}

/// The writes that revoke one member of a user's session set.
pub open spec fn revoke_member(refresh_ttl: i64, token_id: Seq<char>) -> Seq<OpView> {
    seq![
        OpView::DeleteSession { token_id },
        OpView::Blacklist { token_id, ttl: refresh_ttl },
    ]
}

/// The writes that revoke the first `n` of `ids`.
pub open spec fn revoke_all(refresh_ttl: i64, ids: Seq<Seq<char>>, n: nat) -> Seq<OpView>
    decreases n,
{
    if n == 0 || ids.len() < n {
        seq![]
    } else {
        revoke_all(refresh_ttl, ids, (n - 1) as nat) + revoke_member(refresh_ttl, ids[n - 1])
    }
}

/// The writes of a logout: revoke every listed member, then drop the set.
pub open spec fn logout_plan(refresh_ttl: i64, subject: i64, ids: Seq<Seq<char>>) -> Seq<OpView> {
    revoke_all(refresh_ttl, ids, ids.len()) + seq![OpView::DeleteUserSet { subject }]
}

/// Token ids of a list of strings.
pub open spec fn ids_of(v: Seq<String>) -> Seq<Seq<char>> {
    v.map_values(|s: String| s@)
}

/// The outcome of the credential checks of a login, in their order.
pub open spec fn credential_outcome(record: Option<User>, verdict: Option<bool>) -> Result<
    (),
    AuthError,
> {
    match record {
        None => Err(AuthError::UserNotFound),
        Some(u) => if u.disabled {
            Err(AuthError::AccountDisabled)
        } else if verdict != Some(true) {
            Err(AuthError::InvalidCredentials)
        } else {
            Ok(())
        },
    }
}

/// Checks a credential-store row and the password verdict on its hash.
pub fn check_credentials(record: &Option<User>, verdict: Option<bool>) -> (r: Result<
    UserResponse,
    AuthError,
>)
    ensures
        match r {
            Ok(v) => credential_outcome(*record, verdict) is Ok && (record matches Some(u)
                && v.shows(&u)),
            Err(e) => credential_outcome(*record, verdict) == Err::<(), _>(e),
        },
{
    match record {
        None => Err(AuthError::UserNotFound),
        Some(u) => if u.disabled {
            Err(AuthError::AccountDisabled)
        } else if verdict != Some(true) {
            Err(AuthError::InvalidCredentials)
        } else {
            Ok(UserResponse::from(u))
        },
    }
}

/// The password verdict that a login reads for a row.
pub open spec fn verdict_for(record: Option<User>, password: Seq<char>) -> Option<bool> {
    match record {
        Some(u) => bcrypt_verdict(password, u.password_hash@),
        None => None,
    }
}

/// A granted login or refresh: the tokens, their claims, and the writes
/// that make them live.
pub struct Grant {
    pub result: LoginResult,
    pub access: Claims,
    pub refresh: Claims,
    pub ops: Vec<StoreOp>,
}

impl Grant {
    /// The tokens are the signed forms of the claims under `secret`.
    pub open spec fn signed_under(&self, secret: Seq<u8>) -> bool {
        &&& self.result.access_token@ == hs256_token(
            secret,
            self.access.sub,
            self.access.iat,
            self.access.exp,
            self.access.jti@,
        )
        &&& self.result.refresh_token@ == hs256_token(
            secret,
            self.refresh.sub,
            self.refresh.iat,
            self.refresh.exp,
            self.refresh.jti@,
        )
    }

    /// Each token with a non-negative expiry reads back to its claims under `secret`.
    pub open spec fn reads_back(&self, secret: Seq<u8>) -> bool {
        &&& self.access.exp >= 0 ==> hs256_claims(secret, self.result.access_token@) == Some(
            self.access.fields(),
        )
        &&& self.refresh.exp >= 0 ==> hs256_claims(secret, self.result.refresh_token@) == Some(
            self.refresh.fields(),
        )
    }

    /// Access and refresh claims belong to `subject` and live for the configured lifetimes.
    pub open spec fn issued_for(&self, cfg: &AuthConfig, subject: i64) -> bool {
        &&& self.access.sub == subject
        &&& self.refresh.sub == subject
        &&& self.access.exp == expiry_of(self.access.iat as int, cfg.session_ttl_secs as int)
        &&& self.refresh.exp == expiry_of(self.refresh.iat as int, cfg.refresh_ttl_secs as int)
    }
}

fn put_session(token_id: &String, subject: i64, ttl: i64) -> (r: StoreOp)
    ensures
        r@ == (OpView::PutSession { token_id: token_id@, subject, ttl }),
{
    StoreOp::PutSession { token_id: token_id.clone(), subject, ttl }
}

fn put_refresh(token_id: &String, subject: i64, ttl: i64) -> (r: StoreOp)
    ensures
        r@ == (OpView::PutRefresh { token_id: token_id@, subject, ttl }),
{
    StoreOp::PutRefresh { token_id: token_id.clone(), subject, ttl }
}

fn add_to_set(subject: i64, token_id: &String) -> (r: StoreOp)
    ensures
        r@ == (OpView::AddToUserSet { subject, token_id: token_id@ }),
{
    StoreOp::AddToUserSet { subject, token_id: token_id.clone() }
}

fn blacklist(token_id: &String, ttl: i64) -> (r: StoreOp)
    ensures
        r@ == (OpView::Blacklist { token_id: token_id@, ttl }),
{
    StoreOp::Blacklist { token_id: token_id.clone(), ttl }
}

fn delete_session(token_id: &String) -> (r: StoreOp)
    ensures
        r@ == (OpView::DeleteSession { token_id: token_id@ }),
{
    StoreOp::DeleteSession { token_id: token_id.clone() }
}

/// Issues signed access and refresh tokens for `user` and the writes that
/// open their session.
pub fn open_session(cfg: &AuthConfig, user: UserResponse) -> (r: Result<Grant, AuthError>)
    ensures
        r is Ok,
        match r {
            Ok(g) => {
                &&& g.result.user == user
                &&& g.issued_for(cfg, user.id)
                &&& g.signed_under(cfg.jwt_secret@)
                &&& g.reads_back(cfg.jwt_secret@)
                &&& plan_view(g.ops@) == login_plan(
                    cfg.session_ttl_secs,
                    cfg.refresh_ttl_secs,
                    user.id,
                    g.access.jti@,
                    g.refresh.jti@,
                )
            },
            Err(e) => e == AuthError::SigningError,
        },
{
    let access = make_claims(user.id, cfg.session_ttl_secs);
    let access_token = match encode_claims(cfg.jwt_secret.as_slice(), &access) {
        Ok(t) => t,
        Err(_) => {
            return Err(AuthError::SigningError);
        },
    };
    let refresh = make_claims(user.id, cfg.refresh_ttl_secs);
    let refresh_token = match encode_claims(cfg.jwt_secret.as_slice(), &refresh) {
        Ok(t) => t,
        Err(_) => {
            return Err(AuthError::SigningError);
        },
    };
    let mut ops: Vec<StoreOp> = Vec::new();
    ops.push(put_session(&access.jti, user.id, cfg.session_ttl_secs));
    ops.push(put_refresh(&refresh.jti, user.id, cfg.refresh_ttl_secs));
    ops.push(add_to_set(user.id, &access.jti));
    ops.push(StoreOp::ExpireUserSet { subject: user.id, ttl: cfg.refresh_ttl_secs });
    assert(plan_view(ops@) =~= login_plan(
        cfg.session_ttl_secs,
        cfg.refresh_ttl_secs,
        user.id,
        access.jti@,
        refresh.jti@,
    ));
    Ok(Grant { result: LoginResult { access_token, refresh_token, user }, access, refresh, ops })
}

/// Logs in with the row that the credential store gave for the username:
/// `UserNotFound` without a row, `AccountDisabled` for a disabled account,
/// `InvalidCredentials` when bcrypt does not accept the password; otherwise
/// the tokens of a new session and the writes that open it.
pub fn login(cfg: &AuthConfig, record: &Option<User>, password: &str) -> (r: Result<
    Grant,
    AuthError,
>)
    ensures
        credential_outcome(*record, verdict_for(*record, password@)) is Ok ==> r is Ok,
        match r {
            Ok(g) => {
                &&& credential_outcome(*record, verdict_for(*record, password@)) is Ok
                &&& record matches Some(u) && g.result.user.shows(&u) && g.issued_for(cfg, u.id)
                &&& g.signed_under(cfg.jwt_secret@)
                &&& g.reads_back(cfg.jwt_secret@)
                &&& plan_view(g.ops@) == login_plan(
                    cfg.session_ttl_secs,
                    cfg.refresh_ttl_secs,
                    g.access.sub,
                    g.access.jti@,
                    g.refresh.jti@,
                )
            },
            Err(AuthError::SigningError) => credential_outcome(
                *record,
                verdict_for(*record, password@),
            ) is Ok,
            Err(e) => credential_outcome(*record, verdict_for(*record, password@)) == Err::<
                (),
                _,
            >(e),
        },
{
    let verdict = match record {
        Some(u) => if u.disabled {
            None
        } else {
            check_password(password, u.password_hash.as_str())
        },
        None => None,
    };
    let user = match check_credentials(record, verdict) {
        Ok(v) => v,
        Err(e) => {
            return Err(e);
        },
    };
    open_session(cfg, user)
}

/// A token id of `members` other than `newest`, if there is one.
pub fn pick_victim(members: &Vec<String>, newest: &String) -> (r: Option<String>)
    ensures
        match r {
            Some(v) => ids_of(members@).contains(v@) && v@ != newest@,
            None => forall|i: int| 0 <= i < members@.len() ==> #[trigger] members@[i]@ == newest@,
        },
{
    let mut i: usize = 0;
    while i < members.len()
        invariant
            i <= members@.len(),
            forall|j: int| 0 <= j < i ==> #[trigger] members@[j]@ == newest@,
        decreases members@.len() - i,
    {
        if !members[i].eq(newest) {
            assert(ids_of(members@)[i as int] == members@[i as int]@);
            return Some(members[i].clone());
        }
        i = i + 1;
    }
    None
}

/// The writes that follow the insertion of `newest` into the session set of
/// `subject`, whose members are then `members`: when the set holds more than
/// the configured maximum, one member other than `newest` is evicted.
pub fn enforce_session_cap(cfg: &AuthConfig, subject: i64, newest: &String, members: &Vec<String>) -> (r: Vec<StoreOp>)
    ensures
        members@.len() <= cfg.max_sessions_per_user ==> r@.len() == 0,
        members@.len() > cfg.max_sessions_per_user ==> {
            ||| exists|v: Seq<char>| #![trigger ids_of(members@).contains(v)]
                ids_of(members@).contains(v) && v != newest@
                && plan_view(r@) == eviction_plan(cfg.refresh_ttl_secs, subject, v)
            ||| r@.len() == 0 && forall|i: int| 0 <= i < members@.len() ==> #[trigger] members@[i]@ == newest@
        },
{
    let mut ops: Vec<StoreOp> = Vec::new();
    if members.len() > cfg.max_sessions_per_user {
        match pick_victim(members, newest) {
            Some(v) => {
                ops.push(StoreOp::RemoveFromUserSet { subject, token_id: v.clone() });
                ops.push(blacklist(&v, cfg.refresh_ttl_secs));
                ops.push(delete_session(&v));
                assert(plan_view(ops@) =~= eviction_plan(cfg.refresh_ttl_secs, subject, v@));
            },
            None => {},
        }
    }
    ops
}

/// Verifies a presented refresh token: `InvalidToken` or `Expired` as the codec finds.
pub fn begin_refresh(cfg: &AuthConfig, refresh_token: &str) -> (r: Result<Claims, AuthError>)
    ensures
        (r == Err::<Claims, _>(AuthError::InvalidToken)) <==> hs256_claims(cfg.jwt_secret@, refresh_token@) is None,
        r matches Ok(c) ==> hs256_claims(cfg.jwt_secret@, refresh_token@) == Some(c.fields()),
        r matches Err(e) ==> e == AuthError::InvalidToken || e == AuthError::Expired,
{
    match decode_claims(cfg.jwt_secret.as_slice(), refresh_token) {
        Ok(c) => Ok(c),
        Err(CodecError::Expired) => Err(AuthError::Expired),
        Err(_) => Err(AuthError::InvalidToken),
    }
}

/// The outcome of the store reads of a redemption: revocation first, then liveness.
pub open spec fn redemption_outcome(
    blacklisted: Result<bool, StoreUnavailable>,
    live: Result<Option<i64>, StoreUnavailable>,
) -> Result<i64, AuthError> {
    match blacklisted {
        Err(_) => Err(AuthError::StoreUnavailable),
        Ok(true) => Err(AuthError::Revoked),
        Ok(false) => match live {
            Err(_) => Err(AuthError::StoreUnavailable),
            Ok(None) => Err(AuthError::RefreshNotFound),
            Ok(Some(subject)) => Ok(subject),
        },
    }
}

/// Decides a redemption from whether the token id is revoked and from its
/// refresh entry; an unreachable store denies.
pub fn check_redemption(
    blacklisted: Result<bool, StoreUnavailable>,
    live: Result<Option<i64>, StoreUnavailable>,
) -> (r: Result<i64, AuthError>)
    ensures
        r == redemption_outcome(blacklisted, live),
{
    match blacklisted {
        Err(_) => Err(AuthError::StoreUnavailable),
        Ok(true) => Err(AuthError::Revoked),
        Ok(false) => match live {
            Err(_) => Err(AuthError::StoreUnavailable),
            Ok(None) => Err(AuthError::RefreshNotFound),
            Ok(Some(subject)) => Ok(subject),
        },
    }
}

/// Rotates the redeemed refresh token `old` of `subject`: issues new access
/// and refresh tokens and the writes that revoke `old` and open the new session.
/// The user view is filled in by `finish_refresh`.
pub fn rotate(cfg: &AuthConfig, old: &Claims, subject: i64) -> (r: Result<Grant, AuthError>)
    ensures
        r is Ok,
        match r {
            Ok(g) => {
                &&& g.issued_for(cfg, subject)
                &&& g.signed_under(cfg.jwt_secret@)
                &&& g.reads_back(cfg.jwt_secret@)
                &&& plan_view(g.ops@) == rotation_plan(
                    cfg.session_ttl_secs,
                    cfg.refresh_ttl_secs,
                    subject,
                    old.jti@,
                    g.access.jti@,
                    g.refresh.jti@,
                )
            },
            Err(e) => e == AuthError::SigningError,
        },
{
    let refresh = make_claims(subject, cfg.refresh_ttl_secs);
    let refresh_token = match encode_claims(cfg.jwt_secret.as_slice(), &refresh) {
        Ok(t) => t,
        Err(_) => {
            return Err(AuthError::SigningError);
        },
    };
    let access = make_claims(subject, cfg.session_ttl_secs);
    let access_token = match encode_claims(cfg.jwt_secret.as_slice(), &access) {
        Ok(t) => t,
        Err(_) => {
            return Err(AuthError::SigningError);
        },
    };
    let mut ops: Vec<StoreOp> = Vec::new();
    ops.push(put_refresh(&refresh.jti, subject, cfg.refresh_ttl_secs));
    ops.push(blacklist(&old.jti, cfg.refresh_ttl_secs));
    ops.push(StoreOp::DeleteRefresh { token_id: old.jti.clone() });
    ops.push(put_session(&access.jti, subject, cfg.session_ttl_secs));
    ops.push(add_to_set(subject, &access.jti));
    ops.push(StoreOp::ExpireUserSet { subject, ttl: cfg.refresh_ttl_secs });
    assert(plan_view(ops@) =~= rotation_plan(
        cfg.session_ttl_secs,
        cfg.refresh_ttl_secs,
        subject,
        old.jti@,
        access.jti@,
        refresh.jti@,
    ));
    let user = UserResponse { id: subject, username: String::new() };
    Ok(Grant { result: LoginResult { access_token, refresh_token, user }, access, refresh, ops })
}

/// Completes a refresh with the row that the credential store gave for the
/// subject: `UserNotFound` without a row, else the rotated tokens and the user view.
pub fn finish_refresh(grant: Grant, record: &Option<User>) -> (r: Result<LoginResult, AuthError>)
    ensures
        match record {
            None => r == Err::<LoginResult, _>(AuthError::UserNotFound),
            Some(u) => r matches Ok(res) && res.user.shows(u)
                && res.access_token == grant.result.access_token
                && res.refresh_token == grant.result.refresh_token,
        },
{
    match record {
        None => Err(AuthError::UserNotFound),
        Some(u) => Ok(LoginResult {
            access_token: grant.result.access_token,
            refresh_token: grant.result.refresh_token,
            user: UserResponse::from(u),
        }),
    }
}

/// The writes of a logout of `subject` whose session set holds `members`:
/// each member's session is deleted and its id revoked, then the set is deleted.
pub fn logout_all(cfg: &AuthConfig, subject: i64, members: &Vec<String>) -> (r: Vec<StoreOp>)
    ensures
        plan_view(r@) == logout_plan(cfg.refresh_ttl_secs, subject, ids_of(members@)),
{
    let mut ops: Vec<StoreOp> = Vec::new();
    let mut i: usize = 0;
    while i < members.len()
        invariant
            i <= members@.len(),
            plan_view(ops@) == revoke_all(cfg.refresh_ttl_secs, ids_of(members@), i as nat),
        decreases members@.len() - i,
    {
        let ghost before = plan_view(ops@);
        ops.push(delete_session(&members[i]));
        ops.push(blacklist(&members[i], cfg.refresh_ttl_secs));
        assert(ids_of(members@)[i as int] == members@[i as int]@);
        assert(plan_view(ops@) =~= before + revoke_member(cfg.refresh_ttl_secs, members@[i as int]@));
        i = i + 1;
    }
    let ghost before = plan_view(ops@);
    ops.push(StoreOp::DeleteUserSet { subject });
    assert(plan_view(ops@) =~= before + seq![OpView::DeleteUserSet { subject }]);
    ops
}

} // verus!
