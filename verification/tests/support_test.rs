use dodo_payments::config::settings::Settings;
use dodo_payments::infrastructure::auth::api_key_middleware::extract_api_key;
use dodo_payments::domain::services::webhook_service::new_webhook_secret;
use dodo_payments::infrastructure::auth::argon::{authenticate, compose_api_key, hash_api_key, issue_api_key, StoredApiKey};
use dodo_payments::shared::random::random_alphanumeric_string;
use dodo_payments::infrastructure::psp::client::charge_url;
use dodo_payments::shared::errors::AppError;
use dodo_payments::shared::text::{i64_to_decimal, parse_u64};
use argon2::password_hash::{PasswordHasher, SaltString};

#[test]
fn charge_url_drops_trailing_slashes() {
    assert_eq!(charge_url("http://localhost:8081"), "http://localhost:8081/charge");
    assert_eq!(charge_url("http://localhost:8081///"), "http://localhost:8081/charge");
    assert_eq!(charge_url(""), "/charge");
}

#[test]
fn settings_use_defaults_for_unset_variables() {
    let s = Settings::from_vars("postgres://db".to_string(), None, None, None, None, None);
    assert_eq!(s.database_url, "postgres://db");
    assert_eq!(s.bind_addr, "0.0.0.0:8080");
    assert_eq!(s.mock_psp_url, "http://localhost:8081");
    assert_eq!(s.payment_timeout_seconds, 5);
    assert_eq!(s.webhook_secret, "dev_webhook_secret_change_me");
    assert_eq!(s.seed_api_key, "dodo_live_dev_secret_key");
}

#[test]
fn settings_take_given_values() {
    let s = Settings::from_vars(
        "db".to_string(),
        Some("127.0.0.1:9000".to_string()),
        Some("http://psp".to_string()),
        Some("12".to_string()),
        Some("s".to_string()),
        Some("k".to_string()),
    );
    assert_eq!(s.bind_addr, "127.0.0.1:9000");
    assert_eq!(s.mock_psp_url, "http://psp");
    assert_eq!(s.payment_timeout_seconds, 12);
    assert_eq!(s.webhook_secret, "s");
    assert_eq!(s.seed_api_key, "k");
}

#[test]
fn unparsable_timeout_falls_back_to_five_seconds() {
    for bad in ["", "abc", "-1", "1.5", " 7", "+", "18446744073709551616"] {
        let s = Settings::from_vars("db".to_string(), None, None, Some(bad.to_string()), None, None);
        assert_eq!(s.payment_timeout_seconds, 5, "{bad:?}");
    }
}

#[test]
fn parse_u64_agrees_with_str_parse() {
    for text in ["0", "7", "+7", "007", "18446744073709551615", "18446744073709551616", "", "+", "-0", "1_0", "9x"] {
        assert_eq!(parse_u64(text), text.parse::<u64>().ok(), "{text:?}");
    }
}

#[test]
fn decimal_text_agrees_with_to_string() {
    for n in [0i64, 9, 10, -1, 1700000000, i64::MAX, i64::MIN] {
        assert_eq!(i64_to_decimal(n), n.to_string());
    }
}

#[test]
fn api_key_header_wins_over_bearer_token() {
    assert_eq!(extract_api_key(Some("k1"), Some("Bearer k2")).unwrap(), "k1");
    assert_eq!(extract_api_key(None, Some("Bearer k2")).unwrap(), "k2");
    assert!(matches!(extract_api_key(None, Some("Basic k2")), Err(AppError::Unauthorized)));
    assert!(matches!(extract_api_key(None, Some("bearer k2")), Err(AppError::Unauthorized)));
    assert!(matches!(extract_api_key(None, None), Err(AppError::Unauthorized)));
    assert_eq!(extract_api_key(None, Some("Bearer ")).unwrap(), "");
}

#[test]
fn issued_keys_carry_the_live_prefix() {
    assert_eq!(compose_api_key("abc"), "dodo_live_abc");
}

fn hash_of(key: &str) -> String {
    let salt = SaltString::from_b64("c29tZXNhbHRzb21lc2FsdA").unwrap();
    argon2::Argon2::default().hash_password(key.as_bytes(), &salt).unwrap().to_string()
}

#[test]
fn presented_key_authenticates_the_business_of_the_first_matching_hash() {
    let stored = vec![
        StoredApiKey { business_id: 1, key_hash: hash_of("other") },
        StoredApiKey { business_id: 2, key_hash: "not a phc string".to_string() },
        StoredApiKey { business_id: 3, key_hash: hash_of("dodo_live_x") },
        StoredApiKey { business_id: 4, key_hash: hash_of("dodo_live_x") },
    ];
    assert_eq!(authenticate("dodo_live_x", &stored).unwrap(), 3);
    assert!(matches!(authenticate("dodo_live_y", &stored), Err(AppError::Unauthorized)));
    assert!(matches!(authenticate("dodo_live_x", &Vec::new()), Err(AppError::Unauthorized)));
}

#[test]
fn errors_are_answered_without_their_details() {
    let parts = AppError::Internal("secret detail".to_string()).response_parts();
    assert_eq!((parts.status, parts.code, parts.message), (500, "internal_error", "Internal server error"));
    let parts = AppError::Unauthorized.response_parts();
    assert_eq!((parts.status, parts.code, parts.message), (401, "unauthorized", "Invalid or missing API key"));
    let parts = AppError::NotFound("invoice_not_found").response_parts();
    assert_eq!((parts.status, parts.code, parts.message), (404, "invoice_not_found", "Resource not found"));
    let parts = AppError::Conflict("c", "m").response_parts();
    assert_eq!((parts.status, parts.code, parts.message), (409, "c", "m"));
    let parts = AppError::BadRequest("b", "n").response_parts();
    assert_eq!((parts.status, parts.code, parts.message), (400, "b", "n"));
    let parts = AppError::Sqlx(sqlx::Error::RowNotFound).response_parts();
    assert_eq!((parts.status, parts.code, parts.message), (500, "database_error", "Database operation failed"));
}

#[test]
fn issued_key_authenticates_its_business() {
    let other = issue_api_key(1).unwrap();
    let issued = issue_api_key(7).unwrap();
    assert_eq!(issued.stored.business_id, 7);
    assert_eq!(issued.key.len(), 53);
    assert!(issued.key.starts_with("dodo_live_"));
    assert!(issued.key[10..].chars().all(|c| c.is_ascii_alphanumeric()));
    assert_ne!(issued.key, other.key);
    assert!(issued.stored.key_hash.starts_with("$argon2id$"));
    assert_ne!(issued.stored.key_hash, issued.key);
    let stored = vec![other.stored, issued.stored];
    assert_eq!(authenticate(&issued.key, &stored).unwrap(), 7);
    assert_eq!(authenticate(&other.key, &stored).unwrap(), 1);
    assert!(matches!(authenticate("dodo_live_unknown", &stored), Err(AppError::Unauthorized)));
}

#[test]
fn seeded_key_hash_verifies_only_its_key() {
    let hash = hash_api_key("dodo_live_dev_secret_key").unwrap();
    assert!(hash.starts_with("$argon2id$"));
    let stored = vec![StoredApiKey { business_id: 3, key_hash: hash }];
    assert_eq!(authenticate("dodo_live_dev_secret_key", &stored).unwrap(), 3);
    assert!(matches!(authenticate("dodo_live_dev_secret_kex", &stored), Err(AppError::Unauthorized)));
}

#[test]
fn webhook_secrets_are_48_letters_and_digits() {
    let a = new_webhook_secret();
    let b = new_webhook_secret();
    assert_eq!(a.len(), 48);
    assert!(a.chars().all(|c| c.is_ascii_alphanumeric()));
    assert_ne!(a, b);
    assert_eq!(random_alphanumeric_string(0), "");
    assert_eq!(random_alphanumeric_string(5).len(), 5);
}
