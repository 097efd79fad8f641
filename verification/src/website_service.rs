//! The refresh pipeline: the single authority that mutates the slot
//! tracker and the template cache.
//!
//! The embedding program runs one long-lived worker that drains an ordered
//! queue of chain updates.  For each update it calls `handle_chain_update`;
//! when that asks for a refresh it performs the four data-store reads and
//! hands whatever came back — snapshot or failure — to `update_templates`.
//! A cycle either completes fully (the cache holds the renders of the new
//! snapshot) or fails fully (the cache is untouched).

use vstd::prelude::*;
use crate::config::{ChainContext, WebsiteConfig};
use crate::models::{DashboardSnapshot, DeliveredPayload, FetchError, SortKey};
use crate::sort::sort_payloads_by_value;
use crate::state::{CachedTemplates, LatestSlotInfo};
use crate::templates::{
    context_data, page_of, template_data, with_key, IndexTemplate, PageData, RenderedView,
};

verus! {

use vstd::string::StringExecFns;

/// A slot-advancement notification from the chain-event feed.
#[derive(Debug, Clone, Copy, PartialEq, Eq, Structural)]
pub struct SlotUpdate {
    pub slot: u64,
}

/// An event from the chain-event feed.  Only slot updates are meaningful
/// to the dashboard; every other event is acknowledged and discarded.
#[derive(Debug, Clone, Copy, PartialEq, Eq, Structural)]
pub enum ChainUpdate {
    SlotUpdate(SlotUpdate),
    PayloadAttributesUpdate,
}

/// A copy of the payload list.
fn copy_payloads(payloads: &Vec<DeliveredPayload>) -> (r: Vec<DeliveredPayload>)
    ensures
        r@ == payloads@,
{
    let mut r: Vec<DeliveredPayload> = Vec::new();
    let mut i: usize = 0;
    while i < payloads.len()
        invariant
            i <= payloads.len(),
            r@ == payloads@.take(i as int),
        decreases payloads.len() - i,
    {
        r.push(payloads[i]);
        proof {
            assert(payloads@.take(i + 1) =~= payloads@.take(i as int).push(payloads@[i as int]));
        }
        i = i + 1;
    }
    proof {
        assert(payloads@.take(payloads@.len() as int) =~= payloads@);
    }
    r
}

/// The dashboard service: the pure decision and computation steps of its
/// refresh pipeline.  The embedding program supplies the queue, the data
/// store and the HTTP surface.
pub struct WebsiteService {}

impl WebsiteService {
    /// Step one of a cycle: the slot of a slot update is published to the
    /// tracker immediately, before any data fetch, so the displayed slot is
    /// never blocked on a slow refresh.  Returns whether the event asks for
    /// a refresh cycle; every other event leaves the tracker unchanged.
    pub fn handle_chain_update(slot_info: &mut LatestSlotInfo, update: &ChainUpdate) -> (refresh:
        bool)
        ensures
            match update {
                ChainUpdate::SlotUpdate(su) => refresh && final(slot_info).latest() == su.slot,
                _ => !refresh && *final(slot_info) == *old(slot_info),
            },
    {
        match update {
            ChainUpdate::SlotUpdate(su) => {
                slot_info.publish(su.slot);
                true
            },
            _ => false,
        }
    }

    /// Builds the view context for one sort order from the configuration,
    /// the chain constants, the current slot, the payload list already in
    /// the order of that view, and the three counts.
    pub fn generate_template(
        config: &WebsiteConfig,
        chain: &ChainContext,
        latest_slot: u64,
        recent_payloads: &Vec<DeliveredPayload>,
        order_by: SortKey,
        num_network_validators: i64,
        num_registered_validators: i64,
        num_delivered_payloads: i64,
    ) -> (t: IndexTemplate)
        ensures
            template_data(t) == context_data(
                *config,
                *chain,
                latest_slot,
                recent_payloads@,
                order_by,
                num_network_validators,
                num_registered_validators,
                num_delivered_payloads,
            ),
    {
        let (value_link, value_order_icon) = match order_by {
            SortKey::DefaultOrder => (String::from_str("/?order_by=-value"), String::from_str("")),
            SortKey::ValueDescending => (
                String::from_str("/?order_by=value"),
                String::from_str("\u{25bc}"),
            ),
            SortKey::ValueAscending => (String::from_str("/"), String::from_str("\u{25b2}")),
        };
        let builder_signing_domain = match &chain.builder_domain {
            Some(domain) => crate::fmt::hex_str(domain.as_slice()),
            None => String::from_str("Error computing builder domain"),
        };
        let t = IndexTemplate {
            network: config.network_name.clone(),
            relay_url: config.relay_url.clone(),
            relay_pubkey: config.relay_pubkey.clone(),
            show_config_details: config.show_config_details,
            network_validators: num_network_validators,
            registered_validators: num_registered_validators,
            latest_slot,
            recent_payloads: copy_payloads(recent_payloads),
            num_delivered_payloads: num_delivered_payloads,
            value_link,
            value_order_icon,
            link_beaconchain: config.link_beaconchain.clone(),
            link_etherscan: config.link_etherscan.clone(),
            link_data_api: config.link_data_api.clone(),
            capella_fork_version: crate::fmt::hex_str(chain.capella_fork_version.as_slice()),
            bellatrix_fork_version: crate::fmt::hex_str(chain.bellatrix_fork_version.as_slice()),
            genesis_fork_version: crate::fmt::hex_str(chain.genesis_fork_version.as_slice()),
            genesis_validators_root: crate::fmt::hex_str(chain.genesis_validators_root.as_slice()),
            builder_signing_domain,
        };
        proof {
            assert(template_data(t) =~= context_data(
                *config,
                *chain,
                latest_slot,
                recent_payloads@,
                order_by,
                num_network_validators,
                num_registered_validators,
                num_delivered_payloads,
            ));
        }
        t
    }

    /// The middle of a cycle, after the data-store reads: derive the three
    /// orderings of the snapshot's payload list, build a view context for
    /// each, and render them.  The triple is exactly the renders of this
    /// one snapshot, ready to be installed as a unit — and it is built
    /// without touching the cache, so the embedding program holds the
    /// cache's exclusive access only for the instant of the swap itself.
    pub fn build_views(
        config: &WebsiteConfig,
        chain: &ChainContext,
        latest_slot: u64,
        snapshot: &DashboardSnapshot,
    ) -> (views: (RenderedView, RenderedView, RenderedView))
        ensures
            ({
                let d = context_data(
                    *config,
                    *chain,
                    latest_slot,
                    snapshot.recent_payloads@,
                    SortKey::DefaultOrder,
                    snapshot.num_network_validators,
                    snapshot.num_registered_validators,
                    snapshot.num_delivered_payloads,
                );
                &&& views.0@ == page_of(with_key(d, SortKey::DefaultOrder))
                &&& views.1@ == page_of(with_key(d, SortKey::ValueDescending))
                &&& views.2@ == page_of(with_key(d, SortKey::ValueAscending))
            }),
    {
        // Sort payloads for the two value-ordered views
        let payloads_by_value_desc = sort_payloads_by_value(&snapshot.recent_payloads, true);
        let payloads_by_value_asc = sort_payloads_by_value(&snapshot.recent_payloads, false);

        // Generate templates for the three sort orders
        let default_template = Self::generate_template(
            config,
            chain,
            latest_slot,
            &snapshot.recent_payloads,
            SortKey::DefaultOrder,
            snapshot.num_network_validators,
            snapshot.num_registered_validators,
            snapshot.num_delivered_payloads,
        );
        let by_value_desc_template = Self::generate_template(
            config,
            chain,
            latest_slot,
            &payloads_by_value_desc,
            SortKey::ValueDescending,
            snapshot.num_network_validators,
            snapshot.num_registered_validators,
            snapshot.num_delivered_payloads,
        );
        let by_value_asc_template = Self::generate_template(
            config,
            chain,
            latest_slot,
            &payloads_by_value_asc,
            SortKey::ValueAscending,
            snapshot.num_network_validators,
            snapshot.num_registered_validators,
            snapshot.num_delivered_payloads,
        );

        let ghost d = context_data(
            *config,
            *chain,
            latest_slot,
            snapshot.recent_payloads@,
            SortKey::DefaultOrder,
            snapshot.num_network_validators,
            snapshot.num_registered_validators,
            snapshot.num_delivered_payloads,
        );
        proof {
            assert(template_data(default_template) =~= with_key(d, SortKey::DefaultOrder));
            assert(template_data(by_value_desc_template) =~= with_key(
                d,
                SortKey::ValueDescending,
            ));
            assert(template_data(by_value_asc_template) =~= with_key(d, SortKey::ValueAscending));
        }

        let default_view = default_template.render();
        let by_value_desc_view = by_value_desc_template.render();
        let by_value_asc_view = by_value_asc_template.render();
        (default_view, by_value_desc_view, by_value_asc_view)
    }

    /// Steps two to six of a cycle, after the data-store reads.  On a
    /// fetched snapshot: derive the three orderings, render them, and
    /// install the triple as a single unit — afterwards each view is
    /// exactly the render of that snapshot under its sort order, so the
    /// cache is coherent.  On a fetch failure: the cache is identical to
    /// what it was, and the error is handed back.
    pub fn update_templates(
        cache: &mut CachedTemplates,
        config: &WebsiteConfig,
        chain: &ChainContext,
        latest_slot: u64,
        fetched: Result<DashboardSnapshot, FetchError>,
    ) -> (r: Result<(), FetchError>)
        ensures
            match fetched {
                Result::Err(e) => *final(cache) == *old(cache) && r == Result::<(),
                    FetchError,
                >::Err(e),
                Result::Ok(snapshot) => {
                    let d = context_data(
                        *config,
                        *chain,
                        latest_slot,
                        snapshot.recent_payloads@,
                        SortKey::DefaultOrder,
                        snapshot.num_network_validators,
                        snapshot.num_registered_validators,
                        snapshot.num_delivered_payloads,
                    );
                    &&& r == Result::<(), FetchError>::Ok(())
                    &&& final(cache).renders_data(d)
                    &&& final(cache).coherent()
                },
            },
    {
        let snapshot = match fetched {
            Result::Ok(snapshot) => snapshot,
            Result::Err(e) => {
                return Result::Err(e);
            },
        };

        // Build the three views, then install the whole triple at once
        let (default_view, by_value_desc_view, by_value_asc_view) = Self::build_views(
            config,
            chain,
            latest_slot,
            &snapshot,
        );
        cache.replace(default_view, by_value_desc_view, by_value_asc_view);
        Result::Ok(())
    }
}

/// A cycle that fails leaves every view identical, and a cycle that
/// succeeds installs the renders of exactly the snapshot it fetched: the
/// cache stays coherent across any sequence of refresh cycles that starts
/// from the placeholder.
pub proof fn lemma_cycle_preserves_coherence(
    before: CachedTemplates,
    after: CachedTemplates,
    d: PageData,
)
    requires
        before.coherent(),
        after == before || after.renders_data(d),
    ensures
        after.coherent(),
{
}

} // verus!
