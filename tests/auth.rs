use ceres::auth::{
    password_grant_url, refresh_grant_url, CervedAuth, CervedAuthRes, CervedOAuthClient,
    CervedOAuthConfig, TokenStep,
};

fn config() -> CervedOAuthConfig {
    CervedOAuthConfig {
        cerved_oauth_base_url: "https://auth.example.com".to_owned(),
        cerved_oauth_username: "user".to_owned(),
        cerved_oauth_password: "pw".to_owned(),
    }
}

fn grant(access: &str, refresh: &str, expires_in: u32) -> CervedAuthRes {
    CervedAuthRes {
        access_token: access.to_owned(),
        refresh_token: refresh.to_owned(),
        expires_in,
    }
}

#[test]
fn grant_urls() {
    assert_eq!(
        password_grant_url(&config()),
        "https://auth.example.com/cas/oauth/token?grant_type=password&client_id=cerved-client&username=user&password=pw"
    );
    assert_eq!(
        refresh_grant_url(&"https://auth.example.com".to_owned(), &"r1".to_owned()),
        "https://auth.example.com/cas/oauth/token?grant_type=refresh_token&client_id=cerved-client&refresh_token=r1"
    );
}

#[test]
fn valid_token_is_shared_without_refresh() {
    let client = CervedOAuthClient::new(config(), grant("a1", "r1", 60), 1_000_000);
    for now in [1_000_000, 1_030_000, 1_060_000] {
        assert_eq!(client.token_step_at(now), TokenStep::Current("a1".to_owned()));
    }
}

#[test]
fn expired_token_asks_for_refresh_until_installed() {
    let mut client = CervedOAuthClient::new(config(), grant("a1", "r1", 60), 1_000_000);
    let expected = TokenStep::Refresh(
        "https://auth.example.com/cas/oauth/token?grant_type=refresh_token&client_id=cerved-client&refresh_token=r1"
            .to_owned(),
    );
    assert_eq!(client.token_step_at(1_060_001), expected);
    // a failed refresh installs nothing: the next caller is asked again
    assert_eq!(client.token_step_at(1_070_000), expected);
    let token = client.install_at(grant("a2", "r2", 60), 1_070_000);
    assert_eq!(token, "a2");
    assert_eq!(client.token_step_at(1_070_001), TokenStep::Current("a2".to_owned()));
    assert_eq!(client.token_step_at(1_130_000), TokenStep::Current("a2".to_owned()));
    assert!(matches!(client.token_step_at(1_130_001), TokenStep::Refresh(_)));
}

#[test]
fn credential_expiry_is_exclusive() {
    let c = CervedAuth::issued(grant("a", "r", 1), 0);
    assert!(!c.is_expired(1000));
    assert!(c.is_expired(1001));
    let far = CervedAuth::issued(grant("a", "r", u32::MAX), i64::MAX);
    assert!(!far.is_expired(i64::MAX));
    let old = CervedAuth::issued(grant("a", "r", 0), i64::MIN);
    assert!(old.is_expired(i64::MIN + 1));
}

#[test]
fn fresh_credential_is_current_now() {
    let c = CervedAuth::from(grant("a", "r", 3600));
    let client = CervedOAuthClient { cerved_oauth_config: config(), token: c };
    assert_eq!(client.get_access_token(), TokenStep::Current("a".to_owned()));
    let mut stale = CervedOAuthClient::new(config(), grant("old", "r0", 0), 0);
    assert!(matches!(stale.get_access_token(), TokenStep::Refresh(_)));
    assert_eq!(stale.install(grant("new", "r1", 3600)), "new");
    assert_eq!(stale.get_access_token(), TokenStep::Current("new".to_owned()));
}
