//! The settings of the process and the rules that they must meet.

use crate::base58::{base58_bytes, decode_error_text, from_base58};
use crate::error::AppError;
use crate::text::{bool_word, is_prefix, parse_bool, parse_u16, starts_with, u16_numeral};
use vstd::prelude::*;
use vstd::string::*;

verus! {

/// The settings that the process runs with, each one validated.
#[derive(Debug, Clone, PartialEq, Eq)]
pub struct AppConfig {
    pub grpc_endpoint: String,
    pub grpc_token: String,
    pub rpc_http_url: String,
    pub target_account: String,
    pub database_url: String,
    pub log_level: String,
    pub metrics_port: u16,
    pub include_failed_transactions: bool,
}

/// The settings as they are found, before any rule is applied: each is the
/// text of one variable, or nothing where the variable is not set.
#[derive(Debug, Clone, PartialEq, Eq)]
pub struct Settings {
    pub grpc_endpoint: Option<String>,
    pub grpc_token: Option<String>,
    pub target_account: Option<String>,
    pub database_url: Option<String>,
    pub rpc_http_url: Option<String>,
    pub log_level: Option<String>,
    pub metrics_port: Option<String>,
    pub include_failed_transactions: Option<String>,
}

/// The text of a setting, where it is set.
pub open spec fn text_of(value: Option<String>) -> Option<Seq<char>> {
    match value {
        Some(s) => Some(s@),
        None => None,
    }
}

/// An endpoint begins with one of the two schemes of HTTP.
pub open spec fn has_http_scheme(url: Seq<char>) -> bool {
    is_prefix("http://"@, url) || is_prefix("https://"@, url)
}

/// The port that the metrics are served on: the setting where it is a
/// port number, and 9090 otherwise.
pub open spec fn port_setting(value: Option<Seq<char>>) -> u16 {
    match value {
        Some(text) => match u16_numeral(text) {
            Some(port) => port,
            None => 9090,
        },
        None => 9090,
    }
}

/// Whether failed transactions are wanted: the setting where it is `true`
/// or `false`, and yes otherwise.
pub open spec fn flag_setting(value: Option<Seq<char>>) -> bool {
    match value {
        Some(text) => match bool_word(text) {
            Some(flag) => flag,
            None => true,
        },
        None => true,
    }
}

/// A setting, or the text that stands in for it where it is not set.
pub open spec fn text_or(value: Option<Seq<char>>, fallback: Seq<char>) -> Seq<char> {
    match value {
        Some(text) => text,
        None => fallback,
    }
}

impl Settings {
    /// What is wrong with the settings, if anything: the words of the first
    /// rule that they break, or for a target account that is no base58 text
    /// the words that such an error begins with. The rules, in order: the
    /// four required settings are there, the target account is base58 text,
    /// the endpoint has an HTTP scheme.
    pub open spec fn fault(&self) -> Option<Seq<char>> {
        if self.grpc_endpoint is None {
            Some("GRPC_ENDPOINT not set"@)
        } else if self.grpc_token is None {
            Some("GRPC_TOKEN not set"@)
        } else if self.target_account is None {
            Some("TARGET_ACCOUNT not set"@)
        } else if self.database_url is None {
            Some("DATABASE_URL not set"@)
        } else if base58_bytes(self.target_account->0@) is None {
            Some("Invalid base58 address: "@)
        } else if !has_http_scheme(self.grpc_endpoint->0@) {
            Some(
                "GRPC_ENDPOINT must be an HTTP/HTTPS URL (http:// or https://), got: "@
                    + self.grpc_endpoint->0@,
            )
        } else {
            None
        }
    }

    /// `config` is what these settings stand for, defaults filled in.
    pub open spec fn yields(&self, config: AppConfig) -> bool {
        &&& text_of(self.grpc_endpoint) == Some(config.grpc_endpoint@)
        &&& text_of(self.grpc_token) == Some(config.grpc_token@)
        &&& text_of(self.target_account) == Some(config.target_account@)
        &&& text_of(self.database_url) == Some(config.database_url@)
        &&& config.rpc_http_url@ == text_or(
            text_of(self.rpc_http_url),
            "https://api.mainnet-beta.solana.com"@,
        )
        &&& config.log_level@ == text_or(text_of(self.log_level), "info"@)
        &&& config.metrics_port == port_setting(text_of(self.metrics_port))
        &&& config.include_failed_transactions == flag_setting(
            text_of(self.include_failed_transactions),
        )
    }
}

/// A required setting, or the `Config` error that names it as missing.
fn required(value: Option<String>, missing: &str) -> (r: Result<String, AppError>)
    ensures
        match r {
            Ok(text) => value == Some(text),
            Err(AppError::Config(words)) => value is None && words@ == missing@,
            Err(_) => false,
        },
{
    match value {
        Some(text) => Ok(text),
        None => Err(AppError::Config(String::from_str(missing))),
    }
}

/// An optional setting, or the text that stands in for it.
fn or_default(value: Option<String>, fallback: &str) -> (r: String)
    ensures
        r@ == text_or(text_of(value), fallback@),
{
    match value {
        Some(text) => text,
        None => String::from_str(fallback),
    }
}

impl AppConfig {
    /// Builds the configuration from the settings as found. The four
    /// required settings must be there, the target account must be base58
    /// text and the endpoint must have an HTTP scheme; the first rule broken
    /// gives the `Config` error. The other four settings have defaults, which
    /// also stand in for a port or a flag that cannot be read.
    pub fn from_settings(settings: Settings) -> (r: Result<AppConfig, AppError>)
        ensures
            match r {
                Ok(config) => settings.fault() is None && settings.yields(config),
                Err(AppError::Config(words)) => match settings.fault() {
                    Some(fault) => if settings.grpc_endpoint is Some && settings.grpc_token is Some
                        && settings.target_account is Some && settings.database_url is Some
                        && base58_bytes(settings.target_account->0@) is None {
                        is_prefix(fault, words@)
                    } else {
                        words@ == fault
                    },
                    None => false,
                },
                Err(_) => false,
            },
    {
        let Settings {
            grpc_endpoint,
            grpc_token,
            target_account,
            database_url,
            rpc_http_url,
            log_level,
            metrics_port,
            include_failed_transactions,
        } = settings;
        let grpc_endpoint = match required(grpc_endpoint, "GRPC_ENDPOINT not set") {
            Ok(text) => text,
            Err(e) => {
                return Err(e);
            },
        };
        let grpc_token = match required(grpc_token, "GRPC_TOKEN not set") {
            Ok(text) => text,
            Err(e) => {
                return Err(e);
            },
        };
        let target_account = match required(target_account, "TARGET_ACCOUNT not set") {
            Ok(text) => text,
            Err(e) => {
                return Err(e);
            },
        };
        let database_url = match required(database_url, "DATABASE_URL not set") {
            Ok(text) => text,
            Err(e) => {
                return Err(e);
            },
        };
        let rpc_http_url = or_default(rpc_http_url, "https://api.mainnet-beta.solana.com");
        let log_level = or_default(log_level, "info");
        let metrics_port = match &metrics_port {
            Some(text) => match parse_u16(text.as_str()) {
                Some(port) => port,
                None => 9090,
            },
            None => 9090,
        };
        let include_failed_transactions = match &include_failed_transactions {
            Some(text) => match parse_bool(text.as_str()) {
                Some(flag) => flag,
                None => true,
            },
            None => true,
        };
        match Self::validate_base58_address(target_account.as_str()) {
            Ok(()) => {},
            Err(e) => {
                return Err(e);
            },
        }
        match Self::validate_grpc_url(grpc_endpoint.as_str()) {
            Ok(()) => {},
            Err(e) => {
                return Err(e);
            },
        }
        Ok(
            AppConfig {
                grpc_endpoint,
                grpc_token,
                rpc_http_url,
                target_account,
                database_url,
                log_level,
                metrics_port,
                include_failed_transactions,
            },
        )
    }

    /// Accepts an address that is base58 text, as `bs58` decodes it. The
    /// error is a `Config` whose text begins with `Invalid base58 address: `
    /// and goes on with the decoder's own words.
    pub fn validate_base58_address(address: &str) -> (r: Result<(), AppError>)
        ensures
            match r {
                Ok(_) => base58_bytes(address@) is Some,
                Err(AppError::Config(words)) => base58_bytes(address@) is None && is_prefix(
                    "Invalid base58 address: "@,
                    words@,
                ),
                Err(_) => false,
            },
    {
        match from_base58(address) {
            Ok(_) => Ok(()),
            Err(e) => {
                let detail = decode_error_text(&e);
                let words = String::from_str("Invalid base58 address: ").concat(detail.as_str());
                proof {
                    assert(words@.subrange(0, "Invalid base58 address: "@.len() as int)
                        =~= "Invalid base58 address: "@);
                }
                Err(AppError::Config(words))
            },
        }
    }

    /// Accepts an endpoint that begins with `http://` or `https://`. The
    /// error is a `Config` that quotes the endpoint.
    pub fn validate_grpc_url(url: &str) -> (r: Result<(), AppError>)
        ensures
            match r {
                Ok(_) => has_http_scheme(url@),
                Err(AppError::Config(words)) => !has_http_scheme(url@) && words@
                    == "GRPC_ENDPOINT must be an HTTP/HTTPS URL (http:// or https://), got: "@
                    + url@,
                Err(_) => false,
            },
    {
        if !starts_with(url, "http://") && !starts_with(url, "https://") {
            return Err(
                AppError::Config(
                    String::from_str(
                        "GRPC_ENDPOINT must be an HTTP/HTTPS URL (http:// or https://), got: ",
                    ).concat(url),
                ),
            );
        }
        Ok(())
    }
}

} // verus!
