//! The OAuth credential cache: one access/refresh credential pair, handed
//! out while valid and replaced whole by a refresh once it has expired.
//!
//! The cache decides; the caller talks to the token endpoint. A caller
//! asks `get_access_token` for a step: either the current token, or the
//! URL of the refresh grant to call. Only after that call succeeds does it
//! install the new grant, so the exchange never runs under a lock on the
//! cache, and a failed refresh leaves the expired credential in place for
//! the next caller to retry.
use vstd::prelude::*;

use crate::clock::now_millis;

verus! {

/// Where and as whom to obtain tokens.
#[derive(Clone, Debug)]
pub struct CervedOAuthConfig {
    pub cerved_oauth_base_url: String,
    pub cerved_oauth_username: String,
    pub cerved_oauth_password: String,
}

/// A token grant as the token endpoint returns it.
#[derive(Clone, Debug)]
pub struct CervedAuthRes {
    pub access_token: String,
    pub refresh_token: String,
    /// Lifetime of the access token, in seconds.
    pub expires_in: u32,
}

/// A credential: a grant and the time it was obtained, in milliseconds
/// since the Unix epoch.
#[derive(Clone, Debug)]
pub struct CervedAuth {
    pub access_token: String,
    pub refresh_token: String,
    pub expires_in: u32,
    pub created_at: i64,
}

impl CervedAuth {
    /// The instant after which the credential is expired.
    pub open spec fn expires_at(&self) -> int {
        self.created_at + 1000 * self.expires_in
    }

    pub open spec fn is_expired_at(&self, now: i64) -> bool {
        self.expires_at() < now
    }
}

/// The credential made of `res` obtained at `now`.
pub open spec fn spec_issued(res: CervedAuthRes, now: i64) -> CervedAuth {
    CervedAuth {
        access_token: res.access_token,
        refresh_token: res.refresh_token,
        expires_in: res.expires_in,
        created_at: now,
    }
}

pub open spec fn token_path() -> Seq<char> {
    "/cas/oauth/token?grant_type="@
}

/// The password grant URL for `c`.
pub open spec fn spec_password_grant_url(c: CervedOAuthConfig) -> Seq<char> {
    c.cerved_oauth_base_url@ + token_path() + "password&client_id=cerved-client&username="@
        + c.cerved_oauth_username@ + "&password="@ + c.cerved_oauth_password@
}

/// The refresh grant URL for `refresh_token` at the endpoint under `base`.
pub open spec fn spec_refresh_grant_url(base: Seq<char>, refresh_token: Seq<char>) -> Seq<char> {
    base + token_path() + "refresh_token&client_id=cerved-client&refresh_token="@
        + refresh_token
}

impl CervedAuth {
    /// The credential made of a grant obtained at `now`.
    pub fn issued(res: CervedAuthRes, now: i64) -> (r: CervedAuth)
        ensures
            r == spec_issued(res, now),
    {
        CervedAuth {
            access_token: res.access_token,
            refresh_token: res.refresh_token,
            expires_in: res.expires_in,
            created_at: now,
        }
    }

    /// The credential made of a grant obtained just now.
    pub fn from(res: CervedAuthRes) -> (r: CervedAuth)
        ensures
            r.access_token == res.access_token,
            r.refresh_token == res.refresh_token,
            r.expires_in == res.expires_in,
    {
        let now = now_millis();
        CervedAuth::issued(res, now)
    }

    /// Whether the credential is expired at `now`.
    pub fn is_expired(&self, now: i64) -> (r: bool)
        ensures
            r == self.is_expired_at(now),
    {
        (self.created_at as i128) + 1000 * (self.expires_in as i128) < (now as i128)
    }
}

/// The URL of the password grant that yields the first credential.
pub fn password_grant_url(c: &CervedOAuthConfig) -> (r: String)
    ensures
        r@ == spec_password_grant_url(*c),
{
    let mut u = c.cerved_oauth_base_url.clone();
    u.append("/cas/oauth/token?grant_type=");
    u.append("password&client_id=cerved-client&username=");
    u.append(c.cerved_oauth_username.as_str());
    u.append("&password=");
    u.append(c.cerved_oauth_password.as_str());
    proof {
        assert(u@ =~= spec_password_grant_url(*c));
    }
    u
}

/// The URL of the refresh grant for `refresh_token`.
pub fn refresh_grant_url(base: &String, refresh_token: &String) -> (r: String)
    ensures
        r@ == spec_refresh_grant_url(base@, refresh_token@),
{
    let mut u = base.clone();
    u.append("/cas/oauth/token?grant_type=");
    u.append("refresh_token&client_id=cerved-client&refresh_token=");
    u.append(refresh_token.as_str());
    proof {
        assert(u@ =~= spec_refresh_grant_url(base@, refresh_token@));
    }
    u
}

/// What a caller of the cache does next.
#[derive(Clone, Debug, PartialEq, Eq)]
pub enum TokenStep {
    /// Use this access token.
    Current(String),
    /// The credential has expired: call this refresh grant URL and install
    /// what it returns.
    Refresh(String),
}

/// The credential cache.
#[derive(Clone, Debug)]
pub struct CervedOAuthClient {
    pub cerved_oauth_config: CervedOAuthConfig,
    pub token: CervedAuth,
}

/// Whether `r` is the step the cache `c` asks for at `now`: the current
/// token while it is valid, the refresh grant URL once it has expired.
pub open spec fn is_token_step(c: CervedOAuthClient, now: i64, r: TokenStep) -> bool {
    if c.token.is_expired_at(now) {
        r matches TokenStep::Refresh(url) && url@ == spec_refresh_grant_url(
            c.cerved_oauth_config.cerved_oauth_base_url@,
            c.token.refresh_token@,
        )
    } else {
        r == TokenStep::Current(c.token.access_token)
    }
}

impl CervedOAuthClient {
    /// The cache holding the credential of a password grant obtained at
    /// `now`.
    pub fn new(cerved_oauth_config: CervedOAuthConfig, grant: CervedAuthRes, now: i64) -> (r: CervedOAuthClient)
        ensures
            r.cerved_oauth_config == cerved_oauth_config,
            r.token == spec_issued(grant, now),
    {
        CervedOAuthClient { cerved_oauth_config, token: CervedAuth::issued(grant, now) }
    }

    /// The step at `now`.
    pub fn token_step_at(&self, now: i64) -> (r: TokenStep)
        ensures
            is_token_step(*self, now, r),
    {
        if self.token.is_expired(now) {
            TokenStep::Refresh(
                refresh_grant_url(
                    &self.cerved_oauth_config.cerved_oauth_base_url,
                    &self.token.refresh_token,
                ),
            )
        } else {
            TokenStep::Current(self.token.access_token.clone())
        }
    }

    /// The step now: the current access token, or the refresh to perform.
    pub fn get_access_token(&self) -> (r: TokenStep)
        ensures
            exists|now: i64| is_token_step(*self, now, r),
    {
        let now = now_millis();
        self.token_step_at(now)
    }

    /// Replaces the credential whole with a grant obtained at `now` and
    /// returns its access token.
    pub fn install_at(&mut self, grant: CervedAuthRes, now: i64) -> (r: String)
        ensures
            final(self).cerved_oauth_config == old(self).cerved_oauth_config,
            final(self).token == spec_issued(grant, now),
            r == grant.access_token,
    {
        let token = grant.access_token.clone();
        self.token = CervedAuth::issued(grant, now);
        token
    }

    /// Replaces the credential whole with a grant obtained just now and
    /// returns its access token.
    pub fn install(&mut self, grant: CervedAuthRes) -> (r: String)
        ensures
            final(self).cerved_oauth_config == old(self).cerved_oauth_config,
            final(self).token.access_token == grant.access_token,
            final(self).token.refresh_token == grant.refresh_token,
            final(self).token.expires_in == grant.expires_in,
            r == grant.access_token,
    {
        let now = now_millis();
        self.install_at(grant, now)
    }
}

/// While the stored credential is valid, every caller gets the same
/// token, and none is asked to refresh.
pub proof fn lemma_valid_token_is_shared(c: CervedOAuthClient, t1: i64, t2: i64, r1: TokenStep, r2: TokenStep)
    requires
        !c.token.is_expired_at(t1),
        !c.token.is_expired_at(t2),
        is_token_step(c, t1, r1),
        is_token_step(c, t2, r2),
    ensures
        r1 == r2,
        r1 == TokenStep::Current(c.token.access_token),
{
}

/// Once the stored credential has expired, every caller is asked to
/// refresh until a new grant is installed (a failed refresh installs
/// nothing); after that, every caller gets the new token until it expires
/// in turn. A token is handed out only while it is valid.
pub proof fn lemma_expired_token_is_refreshed(
    c: CervedOAuthClient,
    t_expired: i64,
    t_later: i64,
    r_later: TokenStep,
    grant: CervedAuthRes,
    t_installed: i64,
    t_after: i64,
    r_after: TokenStep,
)
    requires
        c.token.is_expired_at(t_expired),
        t_expired <= t_later,
        is_token_step(c, t_later, r_later),
        t_after <= t_installed + 1000 * grant.expires_in,
        is_token_step(
            CervedOAuthClient {
                cerved_oauth_config: c.cerved_oauth_config,
                token: spec_issued(grant, t_installed),
            },
            t_after,
            r_after,
        ),
    ensures
        r_later is Refresh,
        r_after == TokenStep::Current(grant.access_token),
{
}

/// A token is handed out only at an instant when it has not expired.
pub proof fn lemma_no_expired_token_handed_out(c: CervedOAuthClient, now: i64, r: TokenStep)
    requires
        is_token_step(c, now, r),
        r is Current,
    ensures
        !c.token.is_expired_at(now),
        r == TokenStep::Current(c.token.access_token),
{
}

} // verus!
