//! The immutable description of one mining session.

use vstd::prelude::*;

verus! {

/// Abstract value of a [`MiningConfig`]: every field as a mathematical value,
/// with each piece of text as its sequence of characters.
pub struct ConfigModel {
    pub rpc_endpoint: Seq<char>,
    pub alternate_submission_endpoint: Seq<char>,
    pub signer_key_path: Seq<char>,
    pub fee_payer_key_path: Seq<char>,
    pub priority_fee: Option<u64>,
    pub dynamic_fee_endpoint: Option<Seq<char>>,
    pub dynamic_fee_enabled: bool,
    pub tip: u64,
    pub pool_endpoint: Option<Seq<char>>,
    pub worker_cores: u64,
    pub buffer_time_ms: u64,
}

/// One session's configuration: endpoints, key locations, fee policy,
/// concurrency width and timing. Constructed once per `start` call and
/// immutable afterwards; the session that it configures owns it.
pub struct MiningConfig {
    /// Endpoint for primary transaction submission.
    pub rpc_endpoint: String,
    /// Endpoint for priority-fee-bypass submission.
    pub alternate_submission_endpoint: String,
    /// Location of the signer key.
    pub signer_key_path: String,
    /// Location of the fee-payer key.
    pub fee_payer_key_path: String,
    /// Static priority fee, when one is set.
    pub priority_fee: Option<u64>,
    /// Endpoint asked for a dynamic fee, when one is set.
    pub dynamic_fee_endpoint: Option<String>,
    /// Whether the dynamic fee is consulted at all.
    pub dynamic_fee_enabled: bool,
    /// Tip amount.
    pub tip: u64,
    /// Pool endpoint; absence means solo mining.
    pub pool_endpoint: Option<String>,
    /// Number of worker cores.
    pub worker_cores: u64,
    /// Submission buffer time in milliseconds.
    pub buffer_time_ms: u64,
}

impl View for MiningConfig {
    type V = ConfigModel;

    open spec fn view(&self) -> ConfigModel {
        ConfigModel {
            rpc_endpoint: self.rpc_endpoint@,
            alternate_submission_endpoint: self.alternate_submission_endpoint@,
            signer_key_path: self.signer_key_path@,
            fee_payer_key_path: self.fee_payer_key_path@,
            priority_fee: self.priority_fee,
            dynamic_fee_endpoint: match self.dynamic_fee_endpoint {
                Some(s) => Some(s@),
                None => None,
            },
            dynamic_fee_enabled: self.dynamic_fee_enabled,
            tip: self.tip,
            pool_endpoint: match self.pool_endpoint {
                Some(s) => Some(s@),
                None => None,
            },
            worker_cores: self.worker_cores,
            buffer_time_ms: self.buffer_time_ms,
        }
    }
}

impl Clone for MiningConfig {
    fn clone(&self) -> (res: Self)
        ensures
            res@ == self@,
    {
        MiningConfig {
            rpc_endpoint: self.rpc_endpoint.clone(),
            alternate_submission_endpoint: self.alternate_submission_endpoint.clone(),
            signer_key_path: self.signer_key_path.clone(),
            fee_payer_key_path: self.fee_payer_key_path.clone(),
            priority_fee: self.priority_fee,
            dynamic_fee_endpoint: match &self.dynamic_fee_endpoint {
                Some(s) => Some(s.clone()),
                None => None,
            },
            dynamic_fee_enabled: self.dynamic_fee_enabled,
            tip: self.tip,
            pool_endpoint: match &self.pool_endpoint {
                Some(s) => Some(s.clone()),
                None => None,
            },
            worker_cores: self.worker_cores,
            buffer_time_ms: self.buffer_time_ms,
        }
    }
}

/// The configuration a registry holds before any session was started: the
/// public mainnet endpoints, one worker core, no fees and no pool.
pub open spec fn default_config_model() -> ConfigModel {
    ConfigModel {
        rpc_endpoint: "https://api.mainnet-beta.solana.com"@,
        alternate_submission_endpoint: "https://api.mainnet-beta.solana.com"@,
        signer_key_path: ""@,
        fee_payer_key_path: ""@,
        priority_fee: None,
        dynamic_fee_endpoint: None,
        dynamic_fee_enabled: false,
        tip: 0,
        pool_endpoint: None,
        worker_cores: 1,
        buffer_time_ms: 0,
    }
}

impl Default for MiningConfig {
    fn default() -> (res: Self)
        ensures
            res@ == default_config_model(),
    {
        MiningConfig {
            rpc_endpoint: "https://api.mainnet-beta.solana.com".to_owned(),
            alternate_submission_endpoint: "https://api.mainnet-beta.solana.com".to_owned(),
            signer_key_path: "".to_owned(),
            fee_payer_key_path: "".to_owned(),
            priority_fee: None,
            dynamic_fee_endpoint: None,
            dynamic_fee_enabled: false,
            tip: 0,
            pool_endpoint: None,
            worker_cores: 1,
            buffer_time_ms: 0,
        }
    }
}

} // verus!
