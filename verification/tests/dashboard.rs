use helix_website::config::{ChainContext, WebsiteConfig};
use helix_website::handlers::{index, parse_order_by};
use helix_website::models::{
    epoch_of_slot, DashboardSnapshot, DeliveredPayload, FetchError, SortKey,
};
use helix_website::sort::sort_payloads_by_value;
use helix_website::state::{CachedTemplates, LatestSlotInfo};
use helix_website::website_service::{ChainUpdate, SlotUpdate, WebsiteService};

fn payload(slot: i32, value: u128) -> DeliveredPayload {
    DeliveredPayload {
        slot,
        epoch: slot / 32,
        parent_hash: [0x11; 32],
        block_hash: [0x22; 32],
        builder_pubkey: [0x33; 48],
        proposer_pubkey: [0x44; 48],
        proposer_fee_recipient: [0x55; 20],
        gas_limit: 30_000_000,
        gas_used: 12_000_000,
        value,
        num_txs: 42,
        block: slot + 1000,
    }
}

fn config() -> WebsiteConfig {
    WebsiteConfig {
        network_name: "Holesky".to_string(),
        relay_url: "https://relay.example.org".to_string(),
        relay_pubkey: "0xabcdef".to_string(),
        show_config_details: true,
        link_beaconchain: "https://beaconcha.in".to_string(),
        link_etherscan: "https://etherscan.io".to_string(),
        link_data_api: "https://relay.example.org/data".to_string(),
    }
}

fn chain() -> ChainContext {
    ChainContext {
        capella_fork_version: [0x01, 0x02, 0x03, 0x04],
        bellatrix_fork_version: [0x05, 0x06, 0x07, 0x08],
        genesis_fork_version: [0x00, 0x00, 0x10, 0x20],
        genesis_validators_root: [0xab; 32],
        builder_domain: Some([0xcd; 32]),
    }
}

fn snapshot(values: &[u128]) -> DashboardSnapshot {
    let recent_payloads = values
        .iter()
        .enumerate()
        .map(|(i, v)| payload(100 - i as i32, *v))
        .collect();
    DashboardSnapshot {
        num_network_validators: 5,
        num_registered_validators: 3,
        num_delivered_payloads: 12,
        recent_payloads,
    }
}

#[test]
fn slot_tracker_starts_at_placeholder() {
    let info = LatestSlotInfo::new(0);
    assert_eq!(info.get_latest_slot(), 0);
}

#[test]
fn slot_tracker_reads_last_published_value() {
    let mut info = LatestSlotInfo::new(0);
    info.publish(100);
    assert_eq!(info.get_latest_slot(), 100);
    assert_eq!(info.get_latest_slot(), 100);
    info.publish(101);
    assert_eq!(info.get_latest_slot(), 101);
}

#[test]
fn slot_tracker_last_write_wins_even_backwards() {
    let mut info = LatestSlotInfo::new(0);
    info.publish(7);
    info.publish(3);
    assert_eq!(info.get_latest_slot(), 3);
}

#[test]
fn epoch_is_slot_div_32() {
    assert_eq!(epoch_of_slot(0), 0);
    assert_eq!(epoch_of_slot(31), 0);
    assert_eq!(epoch_of_slot(32), 1);
    assert_eq!(epoch_of_slot(100), 3);
}

#[test]
fn sort_descending_orders_by_value() {
    let payloads = vec![
        payload(100, 5),
        payload(99, 3),
        payload(98, 9),
        payload(97, 3),
        payload(96, 1),
    ];
    let sorted = sort_payloads_by_value(&payloads, true);
    let values: Vec<u128> = sorted.iter().map(|p| p.value).collect();
    assert_eq!(values, vec![9, 5, 3, 3, 1]);
    // ties keep their original relative order: slot 99 came before slot 97
    let tie_slots: Vec<i32> = sorted.iter().filter(|p| p.value == 3).map(|p| p.slot).collect();
    assert_eq!(tie_slots, vec![99, 97]);
}

#[test]
fn sort_ascending_orders_by_value() {
    let payloads = vec![
        payload(100, 5),
        payload(99, 3),
        payload(98, 9),
        payload(97, 3),
        payload(96, 1),
    ];
    let sorted = sort_payloads_by_value(&payloads, false);
    let values: Vec<u128> = sorted.iter().map(|p| p.value).collect();
    assert_eq!(values, vec![1, 3, 3, 5, 9]);
    let tie_slots: Vec<i32> = sorted.iter().filter(|p| p.value == 3).map(|p| p.slot).collect();
    assert_eq!(tie_slots, vec![99, 97]);
}

#[test]
fn sort_of_empty_list_is_empty() {
    let payloads: Vec<DeliveredPayload> = Vec::new();
    assert_eq!(sort_payloads_by_value(&payloads, true).len(), 0);
    assert_eq!(sort_payloads_by_value(&payloads, false).len(), 0);
}

#[test]
fn generate_template_hex_encodes_chain_constants() {
    let t = WebsiteService::generate_template(
        &config(),
        &chain(),
        100,
        &Vec::new(),
        SortKey::DefaultOrder,
        5,
        3,
        12,
    );
    assert_eq!(t.capella_fork_version, "01020304");
    assert_eq!(t.bellatrix_fork_version, "05060708");
    assert_eq!(t.genesis_fork_version, "00001020");
    assert_eq!(t.genesis_validators_root, "ab".repeat(32));
    assert_eq!(t.builder_signing_domain, "cd".repeat(32));
    assert_eq!(t.latest_slot, 100);
    assert_eq!(t.network, "Holesky");
}

#[test]
fn generate_template_degrades_missing_domain_to_error_string() {
    let mut c = chain();
    c.builder_domain = None;
    let t = WebsiteService::generate_template(
        &config(),
        &c,
        100,
        &Vec::new(),
        SortKey::DefaultOrder,
        5,
        3,
        12,
    );
    assert_eq!(t.builder_signing_domain, "Error computing builder domain");
}

#[test]
fn generate_template_sort_links_cycle() {
    let t_default = WebsiteService::generate_template(
        &config(), &chain(), 1, &Vec::new(), SortKey::DefaultOrder, 0, 0, 0,
    );
    assert_eq!(t_default.value_link, "/?order_by=-value");
    assert_eq!(t_default.value_order_icon, "");
    let t_desc = WebsiteService::generate_template(
        &config(), &chain(), 1, &Vec::new(), SortKey::ValueDescending, 0, 0, 0,
    );
    assert_eq!(t_desc.value_link, "/?order_by=value");
    assert_eq!(t_desc.value_order_icon, "\u{25bc}");
    let t_asc = WebsiteService::generate_template(
        &config(), &chain(), 1, &Vec::new(), SortKey::ValueAscending, 0, 0, 0,
    );
    assert_eq!(t_asc.value_link, "/");
    assert_eq!(t_asc.value_order_icon, "\u{25b2}");
}

#[test]
fn large_slots_are_not_truncated() {
    let slot: u64 = 5_000_000_000; // above any 32-bit value
    let t = WebsiteService::generate_template(
        &config(), &chain(), slot, &Vec::new(), SortKey::DefaultOrder, 0, 0, 0,
    );
    assert_eq!(t.latest_slot, slot);
    assert!(t.render().contains("Latest slot: 5000000000"));
}

#[test]
fn build_views_matches_installed_views() {
    let snap = snapshot(&[5, 3, 9, 3, 1]);
    let (default_view, desc_view, asc_view) =
        WebsiteService::build_views(&config(), &chain(), 100, &snap);
    let mut cache = CachedTemplates::new();
    let result = WebsiteService::update_templates(
        &mut cache,
        &config(),
        &chain(),
        100,
        Ok(snapshot(&[5, 3, 9, 3, 1])),
    );
    assert!(result.is_ok());
    assert_eq!(cache.get(SortKey::DefaultOrder), &default_view);
    assert_eq!(cache.get(SortKey::ValueDescending), &desc_view);
    assert_eq!(cache.get(SortKey::ValueAscending), &asc_view);
}

#[test]
fn render_is_deterministic() {
    let snap = snapshot(&[5, 3, 9, 3, 1]);
    let t = WebsiteService::generate_template(
        &config(),
        &chain(),
        100,
        &snap.recent_payloads,
        SortKey::DefaultOrder,
        snap.num_network_validators,
        snap.num_registered_validators,
        snap.num_delivered_payloads,
    );
    let first = t.render();
    let second = t.render();
    assert_eq!(first, second);
}

#[test]
fn render_shows_counts_and_values() {
    let snap = snapshot(&[1_500_000_000_000_000_000]);
    let t = WebsiteService::generate_template(
        &config(),
        &chain(),
        1234567,
        &snap.recent_payloads,
        SortKey::DefaultOrder,
        1234567,
        3,
        12,
    );
    let page = t.render();
    assert!(page.contains("Network validators: 1,234,567"));
    assert!(page.contains("Registered validators: 3"));
    assert!(page.contains("Latest slot: 1234567"));
    assert!(page.contains("Delivered payloads: 12"));
    assert!(page.contains("<td>1.5000</td>"));
    assert!(page.contains("Holesky relay"));
    assert!(page.contains("Error computing builder domain") == false);
}

#[test]
fn refresh_cycle_installs_views_for_one_snapshot() {
    let mut cache = CachedTemplates::new();
    let mut info = LatestSlotInfo::new(0);
    let update = ChainUpdate::SlotUpdate(SlotUpdate { slot: 100 });
    let refresh = WebsiteService::handle_chain_update(&mut info, &update);
    assert!(refresh);
    assert_eq!(info.get_latest_slot(), 100);

    let snap = snapshot(&[5, 3, 9, 3, 1]);
    let result = WebsiteService::update_templates(
        &mut cache,
        &config(),
        &chain(),
        info.get_latest_slot(),
        Ok(snap),
    );
    assert!(result.is_ok());

    // the three views are the renders of the one snapshot, each under its
    // own payload order
    let snap_again = snapshot(&[5, 3, 9, 3, 1]);
    let expected_default = WebsiteService::generate_template(
        &config(), &chain(), 100, &snap_again.recent_payloads, SortKey::DefaultOrder, 5, 3, 12,
    )
    .render();
    let desc = sort_payloads_by_value(&snap_again.recent_payloads, true);
    let expected_desc = WebsiteService::generate_template(
        &config(), &chain(), 100, &desc, SortKey::ValueDescending, 5, 3, 12,
    )
    .render();
    let asc = sort_payloads_by_value(&snap_again.recent_payloads, false);
    let expected_asc = WebsiteService::generate_template(
        &config(), &chain(), 100, &asc, SortKey::ValueAscending, 5, 3, 12,
    )
    .render();
    assert_eq!(cache.get(SortKey::DefaultOrder), &expected_default);
    assert_eq!(cache.get(SortKey::ValueDescending), &expected_desc);
    assert_eq!(cache.get(SortKey::ValueAscending), &expected_asc);
}

#[test]
fn failed_fetch_keeps_previous_views_but_slot_advances() {
    let mut cache = CachedTemplates::new();
    let mut info = LatestSlotInfo::new(0);

    // a first successful cycle for slot 100
    let update = ChainUpdate::SlotUpdate(SlotUpdate { slot: 100 });
    WebsiteService::handle_chain_update(&mut info, &update);
    let result = WebsiteService::update_templates(
        &mut cache,
        &config(),
        &chain(),
        info.get_latest_slot(),
        Ok(snapshot(&[5, 3, 9, 3, 1])),
    );
    assert!(result.is_ok());
    let before_default = cache.get(SortKey::DefaultOrder).clone();
    let before_desc = cache.get(SortKey::ValueDescending).clone();
    let before_asc = cache.get(SortKey::ValueAscending).clone();

    // a second update whose payload fetch fails
    let update = ChainUpdate::SlotUpdate(SlotUpdate { slot: 101 });
    let refresh = WebsiteService::handle_chain_update(&mut info, &update);
    assert!(refresh);
    assert_eq!(info.get_latest_slot(), 101);
    let result = WebsiteService::update_templates(
        &mut cache,
        &config(),
        &chain(),
        info.get_latest_slot(),
        Err(FetchError::RecentPayloads),
    );
    assert_eq!(result, Err(FetchError::RecentPayloads));

    // the slot advanced, the views did not
    assert_eq!(info.get_latest_slot(), 101);
    assert_eq!(cache.get(SortKey::DefaultOrder), &before_default);
    assert_eq!(cache.get(SortKey::ValueDescending), &before_desc);
    assert_eq!(cache.get(SortKey::ValueAscending), &before_asc);
}

#[test]
fn every_fetch_error_is_handed_back_unchanged() {
    let errors = [
        FetchError::NetworkValidatorCount,
        FetchError::RegisteredValidatorCount,
        FetchError::RecentPayloads,
        FetchError::PayloadCount,
    ];
    for e in errors {
        let mut cache = CachedTemplates::new();
        let result =
            WebsiteService::update_templates(&mut cache, &config(), &chain(), 1, Err(e));
        assert_eq!(result, Err(e));
        assert_eq!(cache.get(SortKey::DefaultOrder), "");
    }
}

#[test]
fn non_slot_updates_are_discarded() {
    let mut info = LatestSlotInfo::new(7);
    let refresh = WebsiteService::handle_chain_update(&mut info, &ChainUpdate::PayloadAttributesUpdate);
    assert!(!refresh);
    assert_eq!(info.get_latest_slot(), 7);
}

#[test]
fn request_before_first_cycle_gets_placeholder() {
    let cache = CachedTemplates::new();
    assert_eq!(index(&cache, &None), "");
    assert_eq!(index(&cache, &Some("value".to_string())), "");
    assert_eq!(index(&cache, &Some("-value".to_string())), "");
}

#[test]
fn order_by_parameter_selects_the_view() {
    let mut cache = CachedTemplates::new();
    let result = WebsiteService::update_templates(
        &mut cache,
        &config(),
        &chain(),
        100,
        Ok(snapshot(&[5, 3, 9, 3, 1])),
    );
    assert!(result.is_ok());
    assert_eq!(index(&cache, &None), cache.get(SortKey::DefaultOrder));
    assert_eq!(
        index(&cache, &Some("-value".to_string())),
        cache.get(SortKey::ValueDescending)
    );
    assert_eq!(
        index(&cache, &Some("value".to_string())),
        cache.get(SortKey::ValueAscending)
    );
    // an unknown parameter falls back to the default view
    assert_eq!(
        index(&cache, &Some("unknown".to_string())),
        cache.get(SortKey::DefaultOrder)
    );
}

#[test]
fn parse_order_by_maps_the_closed_set() {
    assert_eq!(parse_order_by(&None), SortKey::DefaultOrder);
    assert_eq!(parse_order_by(&Some("-value".to_string())), SortKey::ValueDescending);
    assert_eq!(parse_order_by(&Some("value".to_string())), SortKey::ValueAscending);
    assert_eq!(parse_order_by(&Some("slot".to_string())), SortKey::DefaultOrder);
}
