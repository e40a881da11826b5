//! The indexer's options, and what they say about the stream to start.

use vstd::prelude::*;
use crate::lake::{
    AwsSdkSettings, AwsSdkSettingsView, LakeCredentials, LakeCredentialsView, LakeSettings,
    LakeSettingsView, Network,
};
use crate::resolver::ResolvedStartHeight;
use crate::start_options::{ChainId, StartOptions};

verus! {

/// The RPC endpoint of mainnet, used where the options name none.
pub const MAINNET_RPC_URL: &'static str = "https://rpc.mainnet.near.org";

/// The RPC endpoint of testnet, used where the options name none.
pub const TESTNET_RPC_URL: &'static str = "https://rpc.testnet.near.org";

/// The region of the storage client.
pub const LAKE_REGION: &'static str = "eu-central-1";

/// The name under which the storage credentials are reported.
pub const LAKE_CREDENTIALS_PROVIDER: &'static str = "alertexer_lake";

/// The options that the indexer runs with.
#[derive(Clone)]
pub struct Opts {
    /// Connection string of the database.
    pub database_url: String,
    /// Access key with the right to read from the object storage.
    pub lake_aws_access_key: String,
    /// Secret access key that goes with it.
    pub lake_aws_secret_access_key: String,
    /// Endpoint of a storage compatible with S3, to use in place of S3.
    pub s3_endpoint: Option<String>,
    /// Bucket to read on such a storage.
    pub s3_bucket_name: Option<String>,
    /// Region of that bucket.
    pub s3_region_name: Option<String>,
    /// RPC endpoint, to use in place of the network's public one.
    pub rpc_url: Option<String>,
    /// Whether the indexer logs at debug level.
    pub debug: bool,
    /// Whether the indexer runs in non-strict mode: receipts without a parent
    /// transaction are skipped, and account changes and access keys are not
    /// stored.
    pub non_strict_mode: bool,
    /// How many blocks are indexed at a time; at least one.
    pub concurrency: u16,
    /// The network, with the start options given for it.
    pub chain_id: ChainId,
}

/// A copy of a text that may be absent.
fn copy_of(text: &Option<String>) -> (copy: Option<String>)
    ensures
        copy.deep_view() == text.deep_view(),
{
    match text {
        Some(text) => Some(text.clone()),
        None => None,
    }
}

impl Opts {
    /// Whether the options can be run with: at least one block is indexed
    /// at a time.
    pub open spec fn well_formed(&self) -> bool {
        self.concurrency >= 1
    }

    /// The RPC endpoint that these options lead to: the one they name, or
    /// else the public endpoint of their network.
    pub open spec fn rpc_url_view(&self) -> Seq<char> {
        match self.rpc_url {
            Some(url) => url@,
            None => match self.chain_id {
                ChainId::Mainnet(_) => MAINNET_RPC_URL@,
                ChainId::Testnet(_) => TESTNET_RPC_URL@,
            },
        }
    }

    /// The storage credentials that these options lead to: the two keys,
    /// without a session token and without an end.
    pub open spec fn lake_credentials_view(&self) -> LakeCredentialsView {
        LakeCredentialsView {
            access_key_id: self.lake_aws_access_key@,
            secret_access_key: self.lake_aws_secret_access_key@,
            session_token: None,
            expires_after: None,
            provider_name: LAKE_CREDENTIALS_PROVIDER@,
        }
    }

    /// The settings of the storage client that these options lead to.
    pub open spec fn lake_aws_sdk_config_view(&self) -> AwsSdkSettingsView {
        AwsSdkSettingsView {
            credentials: self.lake_credentials_view(),
            region: LAKE_REGION@,
            endpoint: self.s3_endpoint.deep_view(),
        }
    }

    /// The settings of a stream that starts at `start`.
    pub open spec fn to_lake_config_view(&self, start: ResolvedStartHeight) -> LakeSettingsView {
        LakeSettingsView {
            s3: self.lake_aws_sdk_config_view(),
            network: Network::of_chain(self.chain_id),
            start_block_height: start.height,
            s3_bucket_name: self.s3_bucket_name.deep_view(),
            s3_region_name: self.s3_region_name.deep_view(),
        }
    }

    /// Tells whether the options can be run with.
    pub fn is_well_formed(&self) -> (ok: bool)
        ensures
            ok == self.well_formed(),
    {
        self.concurrency >= 1
    }

    /// The start options given for the chosen network.
    pub fn start_options(&self) -> (options: &StartOptions)
        ensures
            *options == self.chain_id.start_options(),
    {
        match &self.chain_id {
            ChainId::Mainnet(start_options) => start_options,
            ChainId::Testnet(start_options) => start_options,
        }
    }

    /// The storage credentials.
    fn lake_credentials(&self) -> (credentials: LakeCredentials)
        ensures
            credentials@ == self.lake_credentials_view(),
    {
        LakeCredentials {
            access_key_id: self.lake_aws_access_key.clone(),
            secret_access_key: self.lake_aws_secret_access_key.clone(),
            session_token: None,
            expires_after: None,
            provider_name: LAKE_CREDENTIALS_PROVIDER,
        }
    }

    /// The settings of the storage client. The endpoint is set only where
    /// the options name one.
    pub fn lake_aws_sdk_config(&self) -> (settings: AwsSdkSettings)
        ensures
            settings@ == self.lake_aws_sdk_config_view(),
    {
        AwsSdkSettings {
            credentials: self.lake_credentials(),
            region: LAKE_REGION.to_owned(),
            endpoint: copy_of(&self.s3_endpoint),
        }
    }

    /// The RPC endpoint to ask for the latest finalized block.
    pub fn rpc_url(&self) -> (url: &str)
        ensures
            url@ == self.rpc_url_view(),
    {
        match &self.rpc_url {
            Some(url) => url.as_str(),
            None => match self.chain_id {
                ChainId::Mainnet(_) => MAINNET_RPC_URL,
                ChainId::Testnet(_) => TESTNET_RPC_URL,
            },
        }
    }

    /// The settings of the block stream that starts at `start`.
    ///
    /// Every height is accepted, the first block of the chain and heights
    /// that the chain has not reached included, and nothing but the height
    /// is taken from `start`. The bucket and its region are set only where
    /// the options name them.
    pub fn to_lake_config(&self, start: ResolvedStartHeight) -> (settings: LakeSettings)
        ensures
            settings@ == self.to_lake_config_view(start),
    {
        LakeSettings {
            s3: self.lake_aws_sdk_config(),
            network: Network::from_chain(&self.chain_id),
            start_block_height: start.height,
            s3_bucket_name: copy_of(&self.s3_bucket_name),
            s3_region_name: copy_of(&self.s3_region_name),
        }
    }
}

} // verus!
