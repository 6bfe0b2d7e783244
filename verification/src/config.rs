//! Connection configuration for the external graph engine.
//!
//! The configuration is an explicit struct handed to whatever opens the
//! connection, never ambient state; the caller reads the environment and
//! passes what it found, and the documented defaults fill the gaps.

use vstd::prelude::*;

verus! {

/// Where and as whom to reach the graph engine.
#[derive(Debug, Clone, PartialEq)]
pub struct StoreConfig {
    pub uri: String,
    pub user: String,
    pub password: String,
}

impl StoreConfig {
    /// Builds the configuration from optionally-present environment values,
    /// falling back to the documented local defaults.
    pub fn from_env_values(
        uri: Option<String>,
        user: Option<String>,
        password: Option<String>,
    ) -> (r: StoreConfig)
        ensures
            r.uri@ == (match uri {
                Some(u) => u@,
                None => "bolt://localhost:7687"@,
            }),
            r.user@ == (match user {
                Some(u) => u@,
                None => "neo4j"@,
            }),
            r.password@ == (match password {
                Some(p) => p@,
                None => "password"@,
            }),
    {
        StoreConfig {
            uri: match uri {
                Some(u) => u,
                None => "bolt://localhost:7687".to_owned(),
            },
            user: match user {
                Some(u) => u,
                None => "neo4j".to_owned(),
            },
            password: match password {
                Some(p) => p,
                None => "password".to_owned(),
            },
        }
    }
}

/// Decides whether a connection probe succeeded: the probe query asks the
/// engine for the constant 1 and the connection is verified exactly when
/// that value came back.
pub fn connection_verified(probe: Option<i64>) -> (r: bool)
    ensures
        r == (probe == Some(1i64)),
{
    match probe {
        Some(v) => v == 1i64,
        None => false,
    }
}

} // verus!
