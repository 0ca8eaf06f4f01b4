use artifact_api::Card;
use artifact_api::CardList;
use artifact_api::CardListFilterable;
use artifact_api::CardReference;
use artifact_api::CardSet;
use artifact_api::CardSetApi;
use artifact_api::CardSetRequest;
use artifact_api::CardSetRequestError;
use artifact_api::CardSetResponse;
use artifact_api::CardsPlan;
use artifact_api::FindItemsParams;
use artifact_api::ImageSet;
use artifact_api::Rarity;
use artifact_api::SetInfo;
use artifact_api::SetPlan;
use artifact_api::TranslationSet;
use artifact_api::base_set_id;
use artifact_api::call_to_arms_set_id;
use artifact_api::parse_url;

fn blank_card(card_id: i32, card_type: &str, gold_cost: Option<i32>) -> Card {
    Card {
        card_id,
        base_card_id: card_id,
        card_type: card_type.to_string(),
        card_name: TranslationSet { english: None },
        card_text: TranslationSet { english: None },
        mini_image: ImageSet { default: None },
        large_image: ImageSet { default: None },
        ingame_image: ImageSet { default: None },
        references: vec![],
        attack: None,
        hit_points: None,
        illustrator: None,
        gold_cost,
        mana_cost: None,
        sub_type: None,
        is_green: None,
        is_red: None,
        is_black: None,
        is_blue: None,
        item_def: None,
        rarity: None,
    }
}

fn fixture_response(set_id: i32, cards: Vec<Card>) -> CardSetResponse {
    CardSetResponse {
        card_set: CardSet {
            version: 1,
            set_info: SetInfo {
                set_id,
                pack_item_def: 20000 + set_id,
                name: TranslationSet {
                    english: Some(format!("Set {}", set_id)),
                },
            },
            card_list: cards,
        },
    }
}

#[test]
fn english_val_missing_yields_empty_string() {
    let t = TranslationSet { english: None };
    assert_eq!(t.english_val(), "");
}

#[test]
fn english_val_present_yields_value() {
    let t = TranslationSet {
        english: Some("Keefe the Bold".to_string()),
    };
    assert_eq!(t.english_val(), "Keefe the Bold");
}

#[test]
fn find_items_exact_cost_selects_items_only() {
    let cards: CardList = vec![
        blank_card(1, "Item", Some(3)),
        blank_card(2, "Item", Some(2)),
        blank_card(3, "Creature", Some(3)),
    ];
    let found = cards.find_items(&FindItemsParams {
        gold_cost: 3,
        include_hold: false,
    });
    assert_eq!(found.len(), 1);
    assert_eq!(found[0].card_id, 1);
}

#[test]
fn find_items_adjacent_adds_cost_below_regardless_of_type() {
    let cards: CardList = vec![
        blank_card(1, "Item", Some(3)),
        blank_card(2, "Item", Some(2)),
        blank_card(3, "Creature", Some(3)),
    ];
    let found = cards.find_items(&FindItemsParams {
        gold_cost: 3,
        include_hold: true,
    });
    assert_eq!(found.len(), 2);
    assert_eq!(found[0].card_id, 1);
    assert_eq!(found[1].card_id, 2);
}

#[test]
fn find_items_excludes_cards_without_gold_cost() {
    let cards: CardList = vec![
        blank_card(1, "Item", None),
        blank_card(2, "Creature", None),
    ];
    let found = cards.find_items(&FindItemsParams {
        gold_cost: 3,
        include_hold: true,
    });
    assert!(found.is_empty());
}

#[test]
fn find_items_keeps_order_of_input() {
    let cards: CardList = vec![
        blank_card(5, "Item", Some(4)),
        blank_card(9, "Item", Some(4)),
        blank_card(7, "Item", Some(4)),
    ];
    let found = cards.find_items(&FindItemsParams {
        gold_cost: 4,
        include_hold: false,
    });
    let ids: Vec<i32> = found.iter().map(|c| c.card_id).collect();
    assert_eq!(ids, vec![5, 9, 7]);
}

#[test]
fn find_items_adjacent_at_minimum_cost_adds_nothing() {
    let cards: CardList = vec![
        blank_card(1, "Item", Some(i32::MIN)),
        blank_card(2, "Creature", Some(i32::MAX)),
    ];
    let found = cards.find_items(&FindItemsParams {
        gold_cost: i32::MIN,
        include_hold: true,
    });
    assert_eq!(found.len(), 1);
    assert_eq!(found[0].card_id, 1);
}

#[test]
fn registry_lists_both_sets_in_order() {
    let ids = artifact_api::set_ids();
    assert_eq!(ids, vec!["00".to_string(), "01".to_string()]);
    assert_eq!(base_set_id(), "00");
    assert_eq!(call_to_arms_set_id(), "01");
}

#[test]
fn descriptor_resolves_relative_path_against_root() {
    let descriptor = CardSetRequest {
        cdn_root: "https://cdn.example/".to_string(),
        url: "set.json".to_string(),
        expire_time: 0,
    };
    assert_eq!(descriptor.url(), "https://cdn.example/set.json");
}

#[test]
fn descriptor_resolves_absolute_path_against_host() {
    let descriptor = CardSetRequest {
        cdn_root: "https://cdn.example/".to_string(),
        url: "/abs/set.json".to_string(),
        expire_time: 0,
    };
    assert_eq!(descriptor.url(), "https://cdn.example/abs/set.json");
}

#[test]
fn descriptor_try_url_rejects_unresolvable_root() {
    let descriptor = CardSetRequest {
        cdn_root: "not a url".to_string(),
        url: "set.json".to_string(),
        expire_time: 0,
    };
    assert_eq!(descriptor.try_url(), None);
}

#[test]
fn descriptor_equality_needs_all_three_fields() {
    let a = CardSetRequest {
        cdn_root: "https://cdn.example/".to_string(),
        url: "set.json".to_string(),
        expire_time: 7,
    };
    let b = CardSetRequest {
        cdn_root: "https://cdn.example/".to_string(),
        url: "set.json".to_string(),
        expire_time: 7,
    };
    let c = CardSetRequest {
        cdn_root: "https://cdn.example/".to_string(),
        url: "set.json".to_string(),
        expire_time: 8,
    };
    assert!(a == b);
    assert!(a != c);
}

#[test]
fn parse_url_joins_identifier_onto_base_endpoint() {
    let url = parse_url("00").expect("a plain identifier must resolve");
    assert_eq!(url, "https://playartifact.com/cardset/00");
}

#[test]
fn parse_url_rejects_identifier_that_cannot_join() {
    match parse_url("http://[") {
        Err(CardSetRequestError::MalformedIdentifier) => {}
        other => panic!("expected MalformedIdentifier, got {:?}", other),
    }
}

#[test]
fn error_messages_read_back() {
    assert_eq!(
        CardSetRequestError::MalformedIdentifier.to_string(),
        "invalid set id"
    );
    let transport = CardSetRequestError::TransportError {
        message: "connection refused".to_string(),
    };
    assert_eq!(transport.to_string(), "connection refused");
    let decode = CardSetRequestError::DecodeError {
        message: "missing field".to_string(),
    };
    assert_eq!(decode.to_string(), "missing field");
}

#[test]
fn second_lookup_is_served_from_cache_without_fetch() {
    let mut api = CardSetApi::new();
    let fetched = match api.get_set_plan(base_set_id()) {
        Ok(SetPlan::Fetch(url)) => url,
        other => panic!("an empty cache must ask for a fetch, got {:?}", other),
    };
    assert_eq!(fetched, "https://playartifact.com/cardset/00");
    let response = fixture_response(0, vec![blank_card(1, "Item", Some(3))]);
    let returned = api.complete_get_set(base_set_id(), response);
    assert!(api.is_cached(base_set_id()));
    match api.get_set_plan(base_set_id()) {
        Ok(SetPlan::Cached(cached)) => assert_eq!(cached, returned),
        other => panic!("a cached set must be served from the cache, got {:?}", other),
    }
}

#[test]
fn aggregation_concatenates_sets_in_registry_order() {
    let mut api = CardSetApi::new();
    let a = vec![blank_card(1, "Item", Some(3)), blank_card(2, "Spell", None)];
    let b = vec![blank_card(10, "Creature", Some(5))];
    api.complete_get_set(base_set_id(), fixture_response(0, a.clone()));
    api.complete_get_set(call_to_arms_set_id(), fixture_response(1, b.clone()));
    match api.get_cards_plan() {
        CardsPlan::Ready(cards) => {
            let expected: Vec<i32> = vec![1, 2, 10];
            let ids: Vec<i32> = cards.iter().map(|c| c.card_id).collect();
            assert_eq!(ids, expected);
        }
        CardsPlan::Missing(id) => panic!("nothing should be missing, yet {} is", id),
    }
}

#[test]
fn failed_second_set_leaves_first_cached_and_is_retried_alone() {
    let mut api = CardSetApi::new();
    let a = fixture_response(0, vec![blank_card(1, "Item", Some(3))]);
    api.complete_get_set(base_set_id(), a);
    match api.get_cards_plan() {
        CardsPlan::Missing(id) => assert_eq!(id, "01"),
        CardsPlan::Ready(_) => panic!("the second set is not cached yet"),
    }
    match api.get_set_plan(base_set_id()) {
        Ok(SetPlan::Cached(cached)) => assert_eq!(cached.card_set.set_info.set_id, 0),
        other => panic!("the first set must stay cached, got {:?}", other),
    }
    let b = fixture_response(1, vec![blank_card(10, "Creature", Some(5))]);
    api.complete_get_set(call_to_arms_set_id(), b);
    match api.get_cards_plan() {
        CardsPlan::Ready(cards) => {
            let ids: Vec<i32> = cards.iter().map(|c| c.card_id).collect();
            assert_eq!(ids, vec![1, 10]);
        }
        CardsPlan::Missing(id) => panic!("nothing should be missing, yet {} is", id),
    }
}

#[test]
fn cards_survive_cloning_unchanged() {
    let mut card = blank_card(4, "Item", Some(6));
    card.card_name = TranslationSet {
        english: Some("Traveler's Cloak".to_string()),
    };
    card.references = vec![CardReference {
        card_id: 9,
        ref_type: "includes".to_string(),
        count: Some(1),
    }];
    card.rarity = Some(Rarity::Rare);
    let copy = card.clone();
    assert_eq!(copy, card);
}
