//! Plain-value views of the site configuration and of the chain constants
//! that the renderer displays.  Both are passthrough data owned by the
//! embedding program; the library only reads them.

use vstd::prelude::*;

verus! {

/// The site-configuration fields the dashboard shows.
pub struct WebsiteConfig {
    pub network_name: String,
    pub relay_url: String,
    pub relay_pubkey: String,
    pub show_config_details: bool,
    pub link_beaconchain: String,
    pub link_etherscan: String,
    pub link_data_api: String,
}

/// The chain constants the dashboard shows: fork versions, the genesis
/// validators root, and the builder signing domain.  The signing domain is
/// computed by a collaborator; `None` records that the computation failed,
/// which the renderer degrades to a visible error string.
pub struct ChainContext {
    pub capella_fork_version: [u8; 4],
    pub bellatrix_fork_version: [u8; 4],
    pub genesis_fork_version: [u8; 4],
    pub genesis_validators_root: [u8; 32],
    pub builder_domain: Option<[u8; 32]>,
}

} // verus!
