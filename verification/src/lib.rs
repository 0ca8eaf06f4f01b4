//! Card data for a collectible card game, retrieved from a remote content
//! pipeline in two stages (resolve a download descriptor, then fetch the
//! payload), memoized per set identifier, aggregated over a fixed registry of
//! sets, and filtered by a gold-cost predicate. The cache, the aggregation
//! and the filter are verified; callers perform the network transfers that
//! the planning methods ask for and hand the decoded responses back.

mod api;
mod filter;
mod model;
mod request;

pub use api::CardSetApi;
pub use api::CardsPlan;
pub use api::CardsPlanSpec;
pub use api::SetPlan;
pub use api::SetPlanSpec;
pub use api::all_cards;
pub use api::base_set_id;
pub use api::call_to_arms_set_id;
pub use api::cards_plan_spec;
pub use api::cards_prefix;
pub use api::first_missing_from;
pub use api::lemma_aggregate_concatenates;
pub use api::lemma_failed_set_retried_alone;
pub use api::lemma_second_lookup_uses_cache;
pub use api::registry;
pub use api::set_ids;
pub use api::set_plan_spec;
pub use filter::CardListFilterable;
pub use filter::FindItemsParams;
pub use filter::item_filter;
pub use filter::keeps_card;
pub use model::Card;
pub use model::CardList;
pub use model::CardReference;
pub use model::CardReferenceView;
pub use model::CardSet;
pub use model::CardSetResponse;
pub use model::CardSetView;
pub use model::CardView;
pub use model::ImageSet;
pub use model::Rarity;
pub use model::SetInfo;
pub use model::SetInfoView;
pub use model::TranslationSet;
pub use model::cards_view;
pub use model::clone_cards;
pub use model::opt_string_view;
pub use model::refs_view;
pub use request::CardSetRequest;
pub use request::CardSetRequestError;
pub use request::CardSetRequestView;
pub use request::card_set_request_url;
pub use request::parse_url;
pub use request::spec_card_set_request_url;
pub use request::spec_error_message;
pub use request::url_join;
