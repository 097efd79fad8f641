//! The dashboard page: its data context, its layout, and a deterministic
//! renderer.
//!
//! `PageData` is the mathematical content of one page; `page_of` is the
//! page layout, written once over that content.  `IndexTemplate` is the
//! executable context struct, `render` the executable renderer, and the two
//! are tied together by `template_data`.

use vstd::prelude::*;
use crate::config::{ChainContext, WebsiteConfig};
use crate::fmt::{
    dec_of, eth_of, grouped_of, hex_of, hex_str, int_dec_of, i64_to_decimal, pretty_int,
    u128_to_decimal, wei_to_eth,
};
use crate::models::{DeliveredPayload, SortKey};
use crate::sort::sort_by_value_spec;

verus! {

use vstd::string::StringExecFns;

/// An opaque rendered view: the bytes served for one sort order.
pub type RenderedView = String;

/// The link target of the value-column header for a sort order: clicking it
/// cycles default order to descending, descending to ascending, and
/// ascending back to default.
pub open spec fn value_link_of(order_by: SortKey) -> Seq<char> {
    match order_by {
        SortKey::DefaultOrder => "/?order_by=-value"@,
        SortKey::ValueDescending => "/?order_by=value"@,
        SortKey::ValueAscending => "/"@,
    }
}

/// The icon shown beside the value-column header for a sort order.
pub open spec fn value_order_icon_of(order_by: SortKey) -> Seq<char> {
    match order_by {
        SortKey::DefaultOrder => ""@,
        SortKey::ValueDescending => "\u{25bc}"@,
        SortKey::ValueAscending => "\u{25b2}"@,
    }
}

/// The payload list of the view for a sort order, derived from the list as
/// the data store delivered it.
pub open spec fn sort_for(order_by: SortKey, payloads: Seq<DeliveredPayload>) -> Seq<
    DeliveredPayload,
> {
    match order_by {
        SortKey::DefaultOrder => payloads,
        SortKey::ValueDescending => sort_by_value_spec(payloads, true),
        SortKey::ValueAscending => sort_by_value_spec(payloads, false),
    }
}

/// The mathematical content of one rendered page.
#[verifier::ext_equal]
pub ghost struct PageData {
    pub network: Seq<char>,
    pub relay_url: Seq<char>,
    pub relay_pubkey: Seq<char>,
    pub show_config_details: bool,
    pub network_validators: i64,
    pub registered_validators: i64,
    pub latest_slot: u64,
    pub payloads: Seq<DeliveredPayload>,
    pub num_delivered_payloads: i64,
    pub value_link: Seq<char>,
    pub value_order_icon: Seq<char>,
    pub link_beaconchain: Seq<char>,
    pub link_etherscan: Seq<char>,
    pub link_data_api: Seq<char>,
    pub capella_fork_version: Seq<char>,
    pub bellatrix_fork_version: Seq<char>,
    pub genesis_fork_version: Seq<char>,
    pub genesis_validators_root: Seq<char>,
    pub builder_signing_domain: Seq<char>,
}

/// `d` with the fields that depend on the sort order replaced by the ones
/// for `order_by`: link, icon, and the payload order.
pub open spec fn with_key(d: PageData, order_by: SortKey) -> PageData {
    PageData {
        value_link: value_link_of(order_by),
        value_order_icon: value_order_icon_of(order_by),
        payloads: sort_for(order_by, d.payloads),
        ..d
    }
}

/// The page header: title and heading.
pub open spec fn header_of(d: PageData) -> Seq<char> {
    "<!DOCTYPE html><html><head><title>"@ + d.network + " relay</title></head><body><h1>"@
        + d.network + " relay</h1>"@
}

/// The relay-identity section; the detail lines appear only when the
/// configuration asks for them.
pub open spec fn identity_of(d: PageData) -> Seq<char> {
    "<p>Relay URL: "@ + d.relay_url + "</p>"@ + if d.show_config_details {
        "<p>Relay pubkey: "@ + d.relay_pubkey + "</p><p>Data API: "@ + d.link_data_api + "</p>"@
    } else {
        Seq::<char>::empty()
    }
}

/// The counters section: validator counts, latest slot, payload count.
pub open spec fn stats_of(d: PageData) -> Seq<char> {
    "<p>Network validators: "@ + grouped_of(d.network_validators as int)
        + "</p><p>Registered validators: "@ + grouped_of(d.registered_validators as int)
        + "</p><p>Latest slot: "@ + dec_of(d.latest_slot as nat)
        + "</p><p>Delivered payloads: "@ + grouped_of(d.num_delivered_payloads as int) + "</p>"@
}

/// The sort-order navigation line.
pub open spec fn sort_link_of(d: PageData) -> Seq<char> {
    "<p><a href=\""@ + d.value_link + "\">Value</a> "@ + d.value_order_icon + "</p>"@
}

/// One table row of a delivered payload.
pub open spec fn row_of(p: DeliveredPayload) -> Seq<char> {
    "<tr><td>"@ + int_dec_of(p.slot as int) + "</td><td>"@ + int_dec_of(p.epoch as int)
        + "</td><td>"@ + int_dec_of(p.block as int) + "</td><td>"@ + eth_of(p.value as nat)
        + "</td><td>"@ + int_dec_of(p.num_txs as int) + "</td><td>"@ + hex_of(p.block_hash@)
        + "</td><td>"@ + hex_of(p.parent_hash@) + "</td><td>"@ + hex_of(p.builder_pubkey@)
        + "</td><td>"@ + hex_of(p.proposer_pubkey@) + "</td><td>"@ + hex_of(
        p.proposer_fee_recipient@,
    ) + "</td><td>"@ + int_dec_of(p.gas_used as int) + "</td><td>"@ + int_dec_of(
        p.gas_limit as int,
    ) + "</td></tr>"@
}

/// The table rows of a payload list, in list order.
pub open spec fn rows_of(s: Seq<DeliveredPayload>) -> Seq<char>
    decreases s.len(),
{
    if s.len() == 0 {
        Seq::empty()
    } else {
        rows_of(s.drop_last()) + row_of(s.last())
    }
}

/// The payload table: header row and one row per payload.
pub open spec fn table_of(s: Seq<DeliveredPayload>) -> Seq<char> {
    "<table><tr><th>Slot</th><th>Epoch</th><th>Block</th><th>Value (ETH)</th><th>Txs</th><th>Block hash</th><th>Parent hash</th><th>Builder</th><th>Proposer</th><th>Fee recipient</th><th>Gas used</th><th>Gas limit</th></tr>"@
        + rows_of(s) + "</table>"@
}

/// The page footer: chain constants and external links.
pub open spec fn footer_of(d: PageData) -> Seq<char> {
    "<p>Fork versions: genesis "@ + d.genesis_fork_version + ", bellatrix "@
        + d.bellatrix_fork_version + ", capella "@ + d.capella_fork_version
        + "</p><p>Genesis validators root: "@ + d.genesis_validators_root
        + "</p><p>Builder signing domain: "@ + d.builder_signing_domain + "</p><p><a href=\""@
        + d.link_beaconchain + "\">beaconcha.in</a> <a href=\""@ + d.link_etherscan
        + "\">etherscan</a></p></body></html>"@
}

/// The whole page for a content value: the layout, written once.
pub open spec fn page_of(d: PageData) -> Seq<char> {
    header_of(d) + identity_of(d) + stats_of(d) + sort_link_of(d) + table_of(d.payloads)
        + footer_of(d)
}

/// The context an index page is rendered from.  Field for field the data
/// of one dashboard view.
pub struct IndexTemplate {
    pub network: String,
    pub relay_url: String,
    pub relay_pubkey: String,
    pub show_config_details: bool,
    pub network_validators: i64,
    pub registered_validators: i64,
    pub latest_slot: u64,
    pub recent_payloads: Vec<DeliveredPayload>,
    pub num_delivered_payloads: i64,
    pub value_link: String,
    pub value_order_icon: String,
    pub link_beaconchain: String,
    pub link_etherscan: String,
    pub link_data_api: String,
    pub capella_fork_version: String,
    pub bellatrix_fork_version: String,
    pub genesis_fork_version: String,
    pub genesis_validators_root: String,
    pub builder_signing_domain: String,
}

/// The content a template value denotes.
pub open spec fn template_data(t: IndexTemplate) -> PageData {
    PageData {
        network: t.network@,
        relay_url: t.relay_url@,
        relay_pubkey: t.relay_pubkey@,
        show_config_details: t.show_config_details,
        network_validators: t.network_validators,
        registered_validators: t.registered_validators,
        latest_slot: t.latest_slot,
        payloads: t.recent_payloads@,
        num_delivered_payloads: t.num_delivered_payloads,
        value_link: t.value_link@,
        value_order_icon: t.value_order_icon@,
        link_beaconchain: t.link_beaconchain@,
        link_etherscan: t.link_etherscan@,
        link_data_api: t.link_data_api@,
        capella_fork_version: t.capella_fork_version@,
        bellatrix_fork_version: t.bellatrix_fork_version@,
        genesis_fork_version: t.genesis_fork_version@,
        genesis_validators_root: t.genesis_validators_root@,
        builder_signing_domain: t.builder_signing_domain@,
    }
}

/// The content of the view generated for a sort order from the given
/// configuration, chain constants, slot, payload list and counts.
pub open spec fn context_data(
    config: WebsiteConfig,
    chain: ChainContext,
    latest_slot: u64,
    payloads: Seq<DeliveredPayload>,
    order_by: SortKey,
    num_network_validators: i64,
    num_registered_validators: i64,
    num_delivered_payloads: i64,
) -> PageData {
    PageData {
        network: config.network_name@,
        relay_url: config.relay_url@,
        relay_pubkey: config.relay_pubkey@,
        show_config_details: config.show_config_details,
        network_validators: num_network_validators,
        registered_validators: num_registered_validators,
        latest_slot: latest_slot,
        payloads: payloads,
        num_delivered_payloads: num_delivered_payloads,
        value_link: value_link_of(order_by),
        value_order_icon: value_order_icon_of(order_by),
        link_beaconchain: config.link_beaconchain@,
        link_etherscan: config.link_etherscan@,
        link_data_api: config.link_data_api@,
        capella_fork_version: hex_of(chain.capella_fork_version@),
        bellatrix_fork_version: hex_of(chain.bellatrix_fork_version@),
        genesis_fork_version: hex_of(chain.genesis_fork_version@),
        genesis_validators_root: hex_of(chain.genesis_validators_root@),
        builder_signing_domain: domain_text_of(chain.builder_domain),
    }
}

/// The text shown for the builder signing domain: its hexadecimal encoding,
/// or an error placeholder when the computation failed.
pub open spec fn domain_text_of(domain: Option<[u8; 32]>) -> Seq<char> {
    match domain {
        Some(d) => hex_of(d@),
        None => "Error computing builder domain"@,
    }
}

/// Renders the page header.
fn render_header(t: &IndexTemplate) -> (s: String)
    ensures
        s@ == header_of(template_data(*t)),
{
    let mut s = String::from_str("<!DOCTYPE html><html><head><title>");
    s.append(t.network.as_str());
    s.append(" relay</title></head><body><h1>");
    s.append(t.network.as_str());
    s.append(" relay</h1>");
    s
}

/// Renders the relay-identity section.
fn render_identity(t: &IndexTemplate) -> (s: String)
    ensures
        s@ == identity_of(template_data(*t)),
{
    let mut s = String::from_str("<p>Relay URL: ");
    s.append(t.relay_url.as_str());
    s.append("</p>");
    if t.show_config_details {
        s.append("<p>Relay pubkey: ");
        s.append(t.relay_pubkey.as_str());
        s.append("</p><p>Data API: ");
        s.append(t.link_data_api.as_str());
        s.append("</p>");
    }
    s
}

/// Renders the counters section.
fn render_stats(t: &IndexTemplate) -> (s: String)
    ensures
        s@ == stats_of(template_data(*t)),
{
    let mut s = String::from_str("<p>Network validators: ");
    let network_validators = pretty_int(&t.network_validators);
    s.append(network_validators.as_str());
    s.append("</p><p>Registered validators: ");
    let registered_validators = pretty_int(&t.registered_validators);
    s.append(registered_validators.as_str());
    s.append("</p><p>Latest slot: ");
    let latest_slot = u128_to_decimal(t.latest_slot as u128);
    s.append(latest_slot.as_str());
    s.append("</p><p>Delivered payloads: ");
    let num_delivered = pretty_int(&t.num_delivered_payloads);
    s.append(num_delivered.as_str());
    s.append("</p>");
    s
}

/// Renders the sort-order navigation line.
fn render_sort_link(t: &IndexTemplate) -> (s: String)
    ensures
        s@ == sort_link_of(template_data(*t)),
{
    let mut s = String::from_str("<p><a href=\"");
    s.append(t.value_link.as_str());
    s.append("\">Value</a> ");
    s.append(t.value_order_icon.as_str());
    s.append("</p>");
    s
}

/// Renders one payload table row.
fn render_row(p: &DeliveredPayload) -> (s: String)
    ensures
        s@ == row_of(*p),
{
    let mut s = String::from_str("<tr><td>");
    let slot = i64_to_decimal(p.slot as i64);
    s.append(slot.as_str());
    s.append("</td><td>");
    let epoch = i64_to_decimal(p.epoch as i64);
    s.append(epoch.as_str());
    s.append("</td><td>");
    let block = i64_to_decimal(p.block as i64);
    s.append(block.as_str());
    s.append("</td><td>");
    let value = wei_to_eth(&p.value);
    s.append(value.as_str());
    s.append("</td><td>");
    let num_txs = i64_to_decimal(p.num_txs as i64);
    s.append(num_txs.as_str());
    s.append("</td><td>");
    let block_hash = hex_str(p.block_hash.as_slice());
    s.append(block_hash.as_str());
    s.append("</td><td>");
    let parent_hash = hex_str(p.parent_hash.as_slice());
    s.append(parent_hash.as_str());
    s.append("</td><td>");
    let builder_pubkey = hex_str(p.builder_pubkey.as_slice());
    s.append(builder_pubkey.as_str());
    s.append("</td><td>");
    let proposer_pubkey = hex_str(p.proposer_pubkey.as_slice());
    s.append(proposer_pubkey.as_str());
    s.append("</td><td>");
    let fee_recipient = hex_str(p.proposer_fee_recipient.as_slice());
    s.append(fee_recipient.as_str());
    s.append("</td><td>");
    let gas_used = i64_to_decimal(p.gas_used as i64);
    s.append(gas_used.as_str());
    s.append("</td><td>");
    let gas_limit = i64_to_decimal(p.gas_limit as i64);
    s.append(gas_limit.as_str());
    s.append("</td></tr>");
    s
}

/// Renders the payload table.
fn render_table(payloads: &Vec<DeliveredPayload>) -> (s: String)
    ensures
        s@ == table_of(payloads@),
{
    let mut s = String::from_str(
        "<table><tr><th>Slot</th><th>Epoch</th><th>Block</th><th>Value (ETH)</th><th>Txs</th><th>Block hash</th><th>Parent hash</th><th>Builder</th><th>Proposer</th><th>Fee recipient</th><th>Gas used</th><th>Gas limit</th></tr>",
    );
    let ghost head: Seq<char> = s@;
    let mut i: usize = 0;
    while i < payloads.len()
        invariant
            i <= payloads.len(),
            s@ == head + rows_of(payloads@.take(i as int)),
        decreases payloads.len() - i,
    {
        let row = render_row(&payloads[i]);
        s.append(row.as_str());
        proof {
            assert(payloads@.take(i + 1).drop_last() =~= payloads@.take(i as int));
            assert(payloads@.take(i + 1).last() == payloads@[i as int]);
        }
        i = i + 1;
    }
    proof {
        assert(payloads@.take(payloads@.len() as int) =~= payloads@);
    }
    s.append("</table>");
    s
}

/// Renders the page footer.
fn render_footer(t: &IndexTemplate) -> (s: String)
    ensures
        s@ == footer_of(template_data(*t)),
{
    let mut s = String::from_str("<p>Fork versions: genesis ");
    s.append(t.genesis_fork_version.as_str());
    s.append(", bellatrix ");
    s.append(t.bellatrix_fork_version.as_str());
    s.append(", capella ");
    s.append(t.capella_fork_version.as_str());
    s.append("</p><p>Genesis validators root: ");
    s.append(t.genesis_validators_root.as_str());
    s.append("</p><p>Builder signing domain: ");
    s.append(t.builder_signing_domain.as_str());
    s.append("</p><p><a href=\"");
    s.append(t.link_beaconchain.as_str());
    s.append("\">beaconcha.in</a> <a href=\"");
    s.append(t.link_etherscan.as_str());
    s.append("\">etherscan</a></p></body></html>");
    s
}

impl IndexTemplate {
    /// Renders the template into a view.  The result is a function of the
    /// template alone, so two renders of equal templates are byte-identical.
    pub fn render(&self) -> (r: RenderedView)
        ensures
            r@ == page_of(template_data(*self)),
    {
        let mut s = render_header(self);
        let identity = render_identity(self);
        s.append(identity.as_str());
        let stats = render_stats(self);
        s.append(stats.as_str());
        let sort_link = render_sort_link(self);
        s.append(sort_link.as_str());
        let table = render_table(&self.recent_payloads);
        s.append(table.as_str());
        let footer = render_footer(self);
        s.append(footer.as_str());
        s
    }
}

/// Rendering is deterministic: two templates with the same content render
/// to byte-identical views, for every sort order the content may hold.
pub proof fn lemma_render_deterministic(a: IndexTemplate, b: IndexTemplate)
    requires
        template_data(a) == template_data(b),
    ensures
        page_of(template_data(a)) == page_of(template_data(b)),
{
}

} // verus!
