//! Settings of the block stream, as plain values.
//!
//! The streaming framework and the storage client build their own
//! configuration objects. What goes into them is decided here and written
//! down in these records; the caller hands each field to the builder it
//! belongs to.

use vstd::prelude::*;
use crate::start_options::{BlockHeight, ChainId};

verus! {

/// The network whose blocks are streamed.
#[derive(Clone, Copy, Debug, PartialEq, Eq, Structural)]
pub enum Network {
    Mainnet,
    Testnet,
}

impl Network {
    /// The network that a chain id names.
    pub open spec fn of_chain(chain_id: ChainId) -> Network {
        match chain_id {
            ChainId::Mainnet(_) => Network::Mainnet,
            ChainId::Testnet(_) => Network::Testnet,
        }
    }

    /// The network that a chain id names.
    pub fn from_chain(chain_id: &ChainId) -> (network: Network)
        ensures
            network == Network::of_chain(*chain_id),
    {
        match chain_id {
            ChainId::Mainnet(_) => Network::Mainnet,
            ChainId::Testnet(_) => Network::Testnet,
        }
    }
}

/// Static credentials for the object storage.
#[derive(Clone, PartialEq, Eq)]
pub struct LakeCredentials {
    pub access_key_id: String,
    pub secret_access_key: String,
    pub session_token: Option<String>,
    /// Seconds since the epoch after which the credentials lapse.
    pub expires_after: Option<u64>,
    /// The name under which the credentials are reported.
    pub provider_name: &'static str,
}

/// Settings of the storage client.
#[derive(Clone, PartialEq, Eq)]
pub struct AwsSdkSettings {
    pub credentials: LakeCredentials,
    pub region: String,
    /// The endpoint to use in place of the storage service's own.
    pub endpoint: Option<String>,
}

/// Settings of the block stream.
#[derive(Clone, PartialEq, Eq)]
pub struct LakeSettings {
    pub s3: AwsSdkSettings,
    pub network: Network,
    /// The height of the first block to stream. Any height is accepted; the
    /// framework waits where the chain has not reached it yet.
    pub start_block_height: BlockHeight,
    /// The bucket to read in place of the network's own.
    pub s3_bucket_name: Option<String>,
    /// The region of that bucket, in place of the network's own.
    pub s3_region_name: Option<String>,
}

/// What `LakeCredentials` holds.
pub struct LakeCredentialsView {
    pub access_key_id: Seq<char>,
    pub secret_access_key: Seq<char>,
    pub session_token: Option<Seq<char>>,
    pub expires_after: Option<u64>,
    pub provider_name: Seq<char>,
}

/// What `AwsSdkSettings` holds.
pub struct AwsSdkSettingsView {
    pub credentials: LakeCredentialsView,
    pub region: Seq<char>,
    pub endpoint: Option<Seq<char>>,
}

/// What `LakeSettings` holds.
pub struct LakeSettingsView {
    pub s3: AwsSdkSettingsView,
    pub network: Network,
    pub start_block_height: BlockHeight,
    pub s3_bucket_name: Option<Seq<char>>,
    pub s3_region_name: Option<Seq<char>>,
}

impl View for LakeCredentials {
    type V = LakeCredentialsView;

    open spec fn view(&self) -> LakeCredentialsView {
        LakeCredentialsView {
            access_key_id: self.access_key_id@,
            secret_access_key: self.secret_access_key@,
            session_token: self.session_token.deep_view(),
            expires_after: self.expires_after,
            provider_name: self.provider_name@,
        }
    }
}

impl View for AwsSdkSettings {
    type V = AwsSdkSettingsView;

    open spec fn view(&self) -> AwsSdkSettingsView {
        AwsSdkSettingsView {
            credentials: self.credentials@,
            region: self.region@,
            endpoint: self.endpoint.deep_view(),
        }
    }
}

impl View for LakeSettings {
    type V = LakeSettingsView;

    open spec fn view(&self) -> LakeSettingsView {
        LakeSettingsView {
            s3: self.s3@,
            network: self.network,
            start_block_height: self.start_block_height,
            s3_bucket_name: self.s3_bucket_name.deep_view(),
            s3_region_name: self.s3_region_name.deep_view(),
        }
    }
}

} // verus!
