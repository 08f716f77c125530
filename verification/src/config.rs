//! Configuration of a keeper.
use vstd::prelude::*;

verus! {

/// Settings of a keeper node.
#[derive(Clone, Debug)]
pub struct KeeperConfig {
    /// Keeper name/identifier
    pub name: String,
    /// Secret key (seed phrase or private key)
    pub secret_key: String,
    /// RPC endpoint
    pub rpc_url: String,
    /// Registry contract ID
    pub contract_id: String,
    /// Network (testnet/mainnet)
    pub network: String,
    /// Poll interval in seconds
    pub poll_interval_secs: u64,
    /// Maximum concurrent task executions
    pub max_concurrent_tasks: usize,
    /// Attempts made to submit one execution before giving up
    pub retry_max_attempts: u32,
}

/// Poll interval used when none is configured, in seconds.
pub fn default_poll_interval() -> (r: u64)
    ensures
        r == 60,
{
    60
}

/// Concurrency used when none is configured.
pub fn default_max_concurrent() -> (r: usize)
    ensures
        r == 10,
{
    10
}

/// Submission attempts used when none are configured.
pub fn default_retry_max_attempts() -> (r: u32)
    ensures
        r == 3,
{
    3
}

impl KeeperConfig {
    /// A fresh configuration with the default poll interval, concurrency and retries.
    pub fn new(name: String, secret_key: String, rpc_url: String, contract_id: String, network: String) -> (c: KeeperConfig)
        ensures
            c == (KeeperConfig {
                name,
                secret_key,
                rpc_url,
                contract_id,
                network,
                poll_interval_secs: 60,
                max_concurrent_tasks: 10,
                retry_max_attempts: 3,
            }),
    {
        KeeperConfig {
            name,
            secret_key,
            rpc_url,
            contract_id,
            network,
            poll_interval_secs: default_poll_interval(),
            max_concurrent_tasks: default_max_concurrent(),
            retry_max_attempts: default_retry_max_attempts(),
        }
    }

    /// An independent copy of this configuration.
    pub fn duplicate(&self) -> (c: KeeperConfig)
        ensures
            c == *self,
    {
        KeeperConfig {
            name: self.name.clone(),
            secret_key: self.secret_key.clone(),
            rpc_url: self.rpc_url.clone(),
            contract_id: self.contract_id.clone(),
            network: self.network.clone(),
            poll_interval_secs: self.poll_interval_secs,
            max_concurrent_tasks: self.max_concurrent_tasks,
            retry_max_attempts: self.retry_max_attempts,
        }
    }
}

} // verus!
