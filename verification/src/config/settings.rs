//! The service's settings, from the values of its environment variables.
use vstd::prelude::*;
use crate::shared::text::{lemma_natural_text_reads_back, natural_text, parse_u64, parsed_u64};

verus! {

#[derive(Clone, Debug)]
pub struct Settings {
    pub database_url: String,
    pub bind_addr: String,
    pub mock_psp_url: String,
    pub payment_timeout_seconds: u64,
    pub webhook_secret: String,
    pub seed_api_key: String,
}

/// A variable's value, or the default when it is unset.
pub open spec fn or_default(value: Option<String>, default: Seq<char>) -> Seq<char> {
    match value {
        Some(v) => v@,
        None => default,
    }
}

/// The PSP timeout: the variable's value if it parses as a `u64`, else 5
/// seconds.
pub open spec fn timeout_or_default(value: Option<String>) -> u64 {
    match value {
        Some(v) => match parsed_u64(v@) {
            Some(n) => n as u64,
            None => 5,
        },
        None => 5,
    }
}

fn value_or(value: Option<String>, default: &str) -> (res: String)
    ensures
        res@ == or_default(value, default@),
{
    match value {
        Some(v) => v,
        None => String::from_str(default),
    }
}

impl Settings {
    /// The settings from the values of `DATABASE_URL` (required),
    /// `BIND_ADDR`, `MOCK_PSP_URL`, `PAYMENT_TIMEOUT_SECONDS`,
    /// `WEBHOOK_SECRET` and `SEED_API_KEY` (`None` where a variable is unset
    /// or not valid Unicode), with the defaults for the optional ones.
    pub fn from_vars(
        database_url: String,
        bind_addr: Option<String>,
        mock_psp_url: Option<String>,
        payment_timeout_seconds: Option<String>,
        webhook_secret: Option<String>,
        seed_api_key: Option<String>,
    ) -> (res: Settings)
        ensures
            res.database_url == database_url,
            res.bind_addr@ == or_default(bind_addr, "0.0.0.0:8080"@),
            res.mock_psp_url@ == or_default(mock_psp_url, "http://localhost:8081"@),
            res.payment_timeout_seconds == timeout_or_default(payment_timeout_seconds),
            res.webhook_secret@ == or_default(webhook_secret, "dev_webhook_secret_change_me"@),
            res.seed_api_key@ == or_default(seed_api_key, "dodo_live_dev_secret_key"@),
    {
        let timeout = match payment_timeout_seconds {
            Some(v) => match parse_u64(v.as_str()) {
                Some(n) => n,
                None => 5,
            },
            None => 5,
        };
        Settings {
            database_url,
            bind_addr: value_or(bind_addr, "0.0.0.0:8080"),
            mock_psp_url: value_or(mock_psp_url, "http://localhost:8081"),
            payment_timeout_seconds: timeout,
            webhook_secret: value_or(webhook_secret, "dev_webhook_secret_change_me"),
            seed_api_key: value_or(seed_api_key, "dodo_live_dev_secret_key"),
        }
    }
}

/// An optional setting takes the variable's value when it is set and the
/// default otherwise; the PSP timeout is 5 seconds unless the variable holds
/// a `u64` in decimal, which is then taken as it is.
pub proof fn lemma_settings_defaults(value: String, default: Seq<char>, seconds: u64)
    ensures
        or_default(Some(value), default) == value@,
        or_default(None, default) == default,
        timeout_or_default(None) == 5,
        value@ == natural_text(seconds as nat) ==> timeout_or_default(Some(value)) == seconds,
        parsed_u64(value@) is None ==> timeout_or_default(Some(value)) == 5,
{
    lemma_natural_text_reads_back(seconds as nat);
}

} // verus!
