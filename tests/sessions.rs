use std::collections::{HashMap, HashSet};

use web_backend::codec::decode_claims;
use web_backend::guard::{
    authenticate, authorize, bearer_token, check_session, has_permission, permission_cache_entry,
    read_permission_cache, CachedPermissions, GuardError,
};
use web_backend::models::{login_service, LoginError, LoginInput, LoginResult, User};
use web_backend::session::{
    begin_refresh, check_credentials, check_redemption, enforce_session_cap, finish_refresh,
    login, logout_all, pick_victim, rotate, AuthConfig, AuthError, Grant,
};
use web_backend::password::{prepare_registration, RegisterError};
use web_backend::store::{StoreOp, StoreUnavailable};

/// A cache that holds what the store operations write.
#[derive(Default)]
struct Cache {
    sessions: HashMap<String, i64>,
    refreshes: HashMap<String, i64>,
    user_sets: HashMap<i64, HashSet<String>>,
    blacklist: HashSet<String>,
}

impl Cache {
    fn run(&mut self, ops: &[StoreOp]) {
        for op in ops {
            match op {
                StoreOp::PutSession { token_id, subject, .. } => {
                    self.sessions.insert(token_id.clone(), *subject);
                }
                StoreOp::PutRefresh { token_id, subject, .. } => {
                    self.refreshes.insert(token_id.clone(), *subject);
                }
                StoreOp::DeleteSession { token_id } => {
                    self.sessions.remove(token_id);
                }
                StoreOp::DeleteRefresh { token_id } => {
                    self.refreshes.remove(token_id);
                }
                StoreOp::AddToUserSet { subject, token_id } => {
                    self.user_sets.entry(*subject).or_default().insert(token_id.clone());
                }
                StoreOp::RemoveFromUserSet { subject, token_id } => {
                    self.user_sets.entry(*subject).or_default().remove(token_id);
                }
                StoreOp::ExpireUserSet { .. } => {}
                StoreOp::DeleteUserSet { subject } => {
                    self.user_sets.remove(subject);
                }
                StoreOp::Blacklist { token_id, .. } => {
                    self.blacklist.insert(token_id.clone());
                }
            }
        }
    }

    fn members(&self, subject: i64) -> Vec<String> {
        self.user_sets.get(&subject).map(|s| s.iter().cloned().collect()).unwrap_or_default()
    }

    fn login(&mut self, cfg: &AuthConfig, record: &Option<User>, password: &str) -> Result<Grant, AuthError> {
        let g = login(cfg, record, password)?;
        self.run(&g.ops);
        let members = self.members(g.access.sub);
        let evict = enforce_session_cap(cfg, g.access.sub, &g.access.jti, &members);
        self.run(&evict);
        Ok(g)
    }

    fn authorize(&self, cfg: &AuthConfig, token: &str, required: Option<&str>, perms: &Vec<String>) -> Result<i64, GuardError> {
        let header = format!("Bearer {}", token);
        let claims = authenticate(&cfg.jwt_secret, Some(&header))?;
        let black = Ok(self.blacklist.contains(&claims.jti));
        let live = Ok(self.sessions.get(&claims.jti).copied());
        authorize(&claims, black, live, required, perms)
    }

    fn refresh(&mut self, cfg: &AuthConfig, token: &str, record: &Option<User>) -> Result<LoginResult, AuthError> {
        let old = begin_refresh(cfg, token)?;
        let black = Ok(self.blacklist.contains(&old.jti));
        let live = Ok(self.refreshes.get(&old.jti).copied());
        let subject = check_redemption(black, live)?;
        let g = rotate(cfg, &old, subject)?;
        self.run(&g.ops);
        finish_refresh(g, record)
    }
}

fn alice(password: &str, disabled: bool) -> Option<User> {
    Some(User {
        id: 7,
        username: "alice".to_string(),
        password_hash: bcrypt::hash(password, 4).unwrap(),
        disabled,
    })
}

fn config() -> AuthConfig {
    AuthConfig::new(b"session-secret".to_vec())
}

#[test]
fn config_defaults() {
    let cfg = config();
    assert_eq!(cfg.session_ttl_secs, 900);
    assert_eq!(cfg.refresh_ttl_secs, 604800);
    assert_eq!(cfg.max_sessions_per_user, 5);
    assert_eq!(cfg.permissions_ttl_secs, 300);
}

#[test]
fn login_scenario() {
    let cfg = config();
    let record = alice("correct", false);
    let g = login(&cfg, &record, "correct").ok().unwrap();
    assert_eq!(g.result.user.id, 7);
    assert_eq!(g.result.user.username, "alice");
    assert_eq!(g.access.exp - g.access.iat, 900);
    assert_eq!(g.refresh.exp - g.refresh.iat, 604800);
    let a = decode_claims(&cfg.jwt_secret, &g.result.access_token).unwrap();
    assert_eq!(a.sub, 7);
    assert_eq!(a.jti, g.access.jti);
    assert_eq!(g.ops.len(), 4);
    assert!(matches!(&g.ops[0], StoreOp::PutSession { token_id, subject: 7, ttl: 900 } if *token_id == g.access.jti));
    assert!(matches!(&g.ops[1], StoreOp::PutRefresh { token_id, subject: 7, ttl: 604800 } if *token_id == g.refresh.jti));
    assert!(matches!(&g.ops[2], StoreOp::AddToUserSet { subject: 7, token_id } if *token_id == g.access.jti));
    assert!(matches!(&g.ops[3], StoreOp::ExpireUserSet { subject: 7, ttl: 604800 }));

    assert!(matches!(login(&cfg, &record, "wrong"), Err(AuthError::InvalidCredentials)));
    assert!(matches!(login(&cfg, &None, "correct"), Err(AuthError::UserNotFound)));
    assert!(matches!(login(&cfg, &alice("correct", true), "correct"), Err(AuthError::AccountDisabled)));
    let mut broken = alice("correct", false);
    broken.as_mut().unwrap().password_hash = "not-a-hash".to_string();
    assert!(matches!(login(&cfg, &broken, "correct"), Err(AuthError::InvalidCredentials)));
}

#[test]
fn refresh_after_lifetime_is_expired() {
    let mut cfg = config();
    cfg.refresh_ttl_secs = -10;
    let record = alice("correct", false);
    let g = login(&cfg, &record, "correct").ok().unwrap();
    assert!(matches!(begin_refresh(&cfg, &g.result.refresh_token), Err(AuthError::Expired)));
    assert!(matches!(begin_refresh(&cfg, "garbage"), Err(AuthError::InvalidToken)));
}

#[test]
fn credential_checks_in_order() {
    assert!(matches!(check_credentials(&None, Some(true)), Err(AuthError::UserNotFound)));
    assert!(matches!(check_credentials(&alice("x", true), Some(true)), Err(AuthError::AccountDisabled)));
    assert!(matches!(check_credentials(&alice("x", false), Some(false)), Err(AuthError::InvalidCredentials)));
    assert!(matches!(check_credentials(&alice("x", false), None), Err(AuthError::InvalidCredentials)));
    let ok = check_credentials(&alice("x", false), Some(true)).ok().unwrap();
    assert_eq!((ok.id, ok.username.as_str()), (7, "alice"));
}

#[test]
fn login_service_outcomes() {
    let input = LoginInput { username: "alice".to_string(), password: "correct".to_string() };
    let ok = login_service(&input, &Ok(alice("correct", false))).ok().unwrap();
    assert_eq!(ok.id, 7);
    assert!(matches!(login_service(&input, &Ok(alice("other", false))), Err(LoginError::InvalidCredentials)));
    assert!(matches!(login_service(&input, &Ok(None)), Err(LoginError::InvalidCredentials)));
    assert!(matches!(login_service(&input, &Err(())), Err(LoginError::ServerError)));
}

#[test]
fn login_then_authorize_yields_subject() {
    let cfg = config();
    let record = alice("correct", false);
    let mut cache = Cache::default();
    let g = cache.login(&cfg, &record, "correct").ok().unwrap();
    assert_eq!(cache.authorize(&cfg, &g.result.access_token, None, &vec![]), Ok(7));
    assert_eq!(cache.authorize(&cfg, &g.result.refresh_token, None, &vec![]), Err(GuardError::Unauthenticated));
}

#[test]
fn refresh_redeems_once() {
    let cfg = config();
    let record = alice("correct", false);
    let mut cache = Cache::default();
    let g = cache.login(&cfg, &record, "correct").ok().unwrap();
    let r = cache.refresh(&cfg, &g.result.refresh_token, &record).ok().unwrap();
    assert_eq!(r.user.id, 7);
    assert_eq!(cache.authorize(&cfg, &r.access_token, None, &vec![]), Ok(7));
    assert!(matches!(cache.refresh(&cfg, &g.result.refresh_token, &record), Err(AuthError::Revoked)));
    assert!(!cache.refreshes.contains_key(&g.refresh.jti));
    assert!(cache.refresh(&cfg, &r.refresh_token, &record).is_ok());
}

#[test]
fn redemption_decisions() {
    assert_eq!(check_redemption(Ok(false), Ok(Some(4))), Ok(4));
    assert_eq!(check_redemption(Ok(true), Ok(Some(4))), Err(AuthError::Revoked));
    assert_eq!(check_redemption(Ok(false), Ok(None)), Err(AuthError::RefreshNotFound));
    assert_eq!(check_redemption(Err(StoreUnavailable), Ok(Some(4))), Err(AuthError::StoreUnavailable));
    assert_eq!(check_redemption(Ok(false), Err(StoreUnavailable)), Err(AuthError::StoreUnavailable));
}

#[test]
fn finish_refresh_needs_user() {
    let cfg = config();
    let old = web_backend::claims::make_claims(7, 100);
    let g = rotate(&cfg, &old, 7).ok().unwrap();
    assert!(matches!(&g.ops[1], StoreOp::Blacklist { token_id, ttl: 604800 } if *token_id == old.jti));
    assert!(matches!(&g.ops[2], StoreOp::DeleteRefresh { token_id } if *token_id == old.jti));
    let access = g.result.access_token.clone();
    let res = finish_refresh(g, &alice("p", false)).ok().unwrap();
    assert_eq!(res.user.username, "alice");
    assert_eq!(res.access_token, access);
    let g2 = rotate(&cfg, &old, 7).ok().unwrap();
    assert!(matches!(finish_refresh(g2, &None), Err(AuthError::UserNotFound)));
}

#[test]
fn logout_revokes_every_session() {
    let cfg = config();
    let record = alice("correct", false);
    let mut cache = Cache::default();
    let a = cache.login(&cfg, &record, "correct").ok().unwrap();
    let b = cache.login(&cfg, &record, "correct").ok().unwrap();
    let ops = logout_all(&cfg, 7, &cache.members(7));
    assert_eq!(ops.len(), 5);
    cache.run(&ops);
    for g in [&a, &b] {
        assert_eq!(cache.authorize(&cfg, &g.result.access_token, None, &vec![]), Err(GuardError::Unauthenticated));
    }
    assert!(cache.members(7).is_empty());
    let again = logout_all(&cfg, 7, &cache.members(7));
    assert!(matches!(again.as_slice(), [StoreOp::DeleteUserSet { subject: 7 }]));
}

#[test]
fn session_cap_evicts_exactly_one() {
    let cfg = config();
    let record = alice("correct", false);
    let mut cache = Cache::default();
    let mut grants = Vec::new();
    for _ in 0..cfg.max_sessions_per_user + 1 {
        grants.push(cache.login(&cfg, &record, "correct").ok().unwrap());
    }
    let refused: Vec<_> = grants
        .iter()
        .filter(|g| cache.authorize(&cfg, &g.result.access_token, None, &vec![]).is_err())
        .collect();
    assert_eq!(refused.len(), 1);
    let newest = grants.last().unwrap();
    assert_eq!(cache.authorize(&cfg, &newest.result.access_token, None, &vec![]), Ok(7));
    assert_eq!(cache.members(7).len(), cfg.max_sessions_per_user);
}

#[test]
fn cap_decisions() {
    let cfg = config();
    let newest = "n".to_string();
    let five: Vec<String> = vec!["a", "b", "c", "d", "n"].into_iter().map(String::from).collect();
    assert!(enforce_session_cap(&cfg, 1, &newest, &five).is_empty());
    let six: Vec<String> = vec!["n", "a", "b", "c", "d", "e"].into_iter().map(String::from).collect();
    let ops = enforce_session_cap(&cfg, 1, &newest, &six);
    assert_eq!(ops.len(), 3);
    assert!(matches!(&ops[0], StoreOp::RemoveFromUserSet { subject: 1, token_id } if token_id == "a"));
    assert!(matches!(&ops[1], StoreOp::Blacklist { token_id, ttl: 604800 } if token_id == "a"));
    assert!(matches!(&ops[2], StoreOp::DeleteSession { token_id } if token_id == "a"));
    assert_eq!(pick_victim(&vec!["n".to_string()], &newest), None);
    assert_eq!(pick_victim(&vec![], &newest), None);
}

#[test]
fn permission_gating() {
    let cfg = config();
    let record = alice("correct", false);
    let mut cache = Cache::default();
    let g = cache.login(&cfg, &record, "correct").ok().unwrap();
    let perms = vec!["read".to_string()];
    assert_eq!(cache.authorize(&cfg, &g.result.access_token, Some("write"), &perms), Err(GuardError::Forbidden));
    assert_eq!(cache.authorize(&cfg, &g.result.access_token, Some("read"), &perms), Ok(7));
}

#[test]
fn gate_steps() {
    assert_eq!(bearer_token("Bearer abc"), Some("abc".to_string()));
    assert_eq!(bearer_token("Bearer "), Some(String::new()));
    assert_eq!(bearer_token("bearer abc"), None);
    assert_eq!(bearer_token("Token"), None);
    let cfg = config();
    assert_eq!(authenticate(&cfg.jwt_secret, None).err(), Some(GuardError::Unauthenticated));
    assert_eq!(authenticate(&cfg.jwt_secret, Some("Basic xyz")).err(), Some(GuardError::Unauthenticated));
    assert_eq!(authenticate(&cfg.jwt_secret, Some("Bearer xyz")).err(), Some(GuardError::Unauthenticated));
    assert_eq!(check_session(Ok(false), Ok(Some(1))), Ok(()));
    assert_eq!(check_session(Ok(true), Ok(Some(1))), Err(GuardError::Unauthenticated));
    assert_eq!(check_session(Ok(false), Ok(None)), Err(GuardError::Unauthenticated));
    assert_eq!(check_session(Err(StoreUnavailable), Ok(Some(1))), Err(GuardError::Unauthenticated));
    assert_eq!(check_session(Ok(false), Err(StoreUnavailable)), Err(GuardError::Unauthenticated));
}

#[test]
fn permission_cache_entries() {
    let perms = vec!["read".to_string(), "write".to_string()];
    assert_eq!(permission_cache_entry(&perms), "[\"read\",\"write\"]");
    assert_eq!(permission_cache_entry(&vec![]), "[]");
    assert!(has_permission(&perms, "write"));
    assert!(!has_permission(&perms, "admin"));
    assert!(!has_permission(&vec![], "read"));
    match read_permission_cache(&Ok(Some("[\"read\"]".to_string()))) {
        CachedPermissions::Hit(v) => assert_eq!(v, vec!["read".to_string()]),
        _ => panic!("expected a cached list"),
    }
    assert!(matches!(read_permission_cache(&Ok(Some("{oops".to_string()))), CachedPermissions::Miss));
    assert!(matches!(read_permission_cache(&Ok(Some("[1]".to_string()))), CachedPermissions::Miss));
    assert!(matches!(read_permission_cache(&Ok(None)), CachedPermissions::Miss));
    assert!(matches!(read_permission_cache(&Err(StoreUnavailable)), CachedPermissions::Unreachable));
}

#[test]
fn registration_hashes_verify() {
    assert_eq!(prepare_registration(true, "pw"), Err(RegisterError::UsernameTaken));
    let h = prepare_registration(false, "pw").unwrap();
    assert_ne!(h, "pw");
    assert!(bcrypt::verify("pw", &h).unwrap());
    assert!(!bcrypt::verify("other", &h).unwrap());
}
