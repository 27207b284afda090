//! Standardized, versioned event emission for contract state changes.
//!
//! Every emission operation appends to a [`Host`]'s publication log: first a
//! [`StandardEvent`] stamped with the schema version, the host's clock and the
//! emitting contract's identity, then (for most actions) a compact legacy event.
mod emitter;
mod event;
mod host;
mod laws;
mod registry;
mod schema;
mod value;

pub use emitter::{
    admin_changed_publications, approve_publications, authorization_changed_publications,
    burn_publications, claimed_amount, emitted, fee_collected_publications, legacy, mint_metadata,
    mint_publications, pool_updated_publications, proposal_created_publications,
    proposal_executed_publications, rewards_claimed_publications, stake_publications, standard,
    trade_executed_publications, transfer_publications, unstake_publications, vote_publications,
    EventEmitter, CURRENT_VERSION,
};
pub use event::{EventView, LegacyEvent, Metadata, Publication, PublicationView, StandardEvent};
pub use host::{Host, HostView};
pub use laws::{
    lemma_emissions_stamped, lemma_repeated_transfer_publishes_twice, lemma_rewards_amount_is_total,
    lemma_trade_layout, lemma_transfer_layout, stamped,
};
pub use registry::{
    lemma_meta_key_tags_unique, lemma_topic_tags_unique, MetaKey, Topic, EVENT_NAMESPACE,
};
pub use schema::{lemma_compatible_up_to_current, EventSchema};
pub use value::{Address, Value};
