//! Identification of the workload towards the secret service.
//!
//! A [`SecretQuery`] names the runner, its environment and a secrets
//! version.  The transport that carries the query to the secret server is a
//! generated network client and lives outside the library; the shell keeps
//! one settled query in a process-wide slot and every caller reads it
//! through [`get_query`].

use vstd::prelude::*;

verus! {

/// Every secret of a runner, as (key, value) pairs.
pub type AllSecrets = Vec<(String, Vec<u8>)>;

/// What identifies this workload's secrets: runner, environment, version.
#[derive(Debug)]
pub struct SecretQuery {
    /// The runner whose secrets are asked for.
    pub runner_id: String,
    /// The environment the runner is deployed in.
    pub enviornment_id: String,
    /// The secrets version asked for; zero means the current one.
    pub version: i64,
}

impl Clone for SecretQuery {
    fn clone(&self) -> (r: Self)
        ensures
            r == *self,
    {
        SecretQuery {
            runner_id: self.runner_id.clone(),
            enviornment_id: self.enviornment_id.clone(),
            version: self.version,
        }
    }
}

impl SecretQuery {
    /// Builds a query; an absent version means the current one, zero.
    pub fn new(runner_id: String, enviornment_id: String, version: Option<i64>) -> (q:
        SecretQuery)
        ensures
            q.runner_id == runner_id,
            q.enviornment_id == enviornment_id,
            q.version == if version is Some {
                version->0
            } else {
                0
            },
    {
        let version: i64 = if let Some(val) = version {
            val
        } else {
            0
        };
        SecretQuery { runner_id, enviornment_id, version }
    }
}

/// Reads the settled query out of the process-wide slot the shell owns;
/// fails exactly while no query has been settled yet.
pub fn get_query(slot: &Option<SecretQuery>) -> (r: Result<SecretQuery, ()>)
    ensures
        r is Ok <==> slot is Some,
        r matches Ok(q) ==> q == slot->0,
{
    if let Some(query) = slot {
        Ok(query.clone())
    } else {
        Err(())
    }
}

} // verus!
