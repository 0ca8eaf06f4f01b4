use vstd::prelude::*;

verus! {

/// One localized string, with only the primary locale modeled. A missing
/// value reads as the empty string rather than failing.
#[derive(Debug, PartialEq)]
pub struct TranslationSet {
    pub english: Option<String>,
}

impl View for TranslationSet {
    type V = Option<Seq<char>>;

    open spec fn view(&self) -> Option<Seq<char>> {
        match self.english {
            Some(s) => Some(s@),
            None => None,
        }
    }
}

impl Clone for TranslationSet {
    fn clone(&self) -> (r: Self)
        ensures
            r@ == self@,
    {
        TranslationSet {
            english: match &self.english {
                Some(s) => Some(s.clone()),
                None => None,
            },
        }
    }
}

impl TranslationSet {
    /// The primary-locale value, or the empty string when none is set.
    pub fn english_val(self) -> (r: String)
        ensures
            r@ == match self@ {
                Some(s) => s,
                None => Seq::<char>::empty(),
            },
    {
        if let Some(english) = self.english {
            english
        } else {
            String::new()
        }
    }
}

/// One image role of a card; the address may be absent.
#[derive(Debug, PartialEq)]
pub struct ImageSet {
    pub default: Option<String>,
}

impl View for ImageSet {
    type V = Option<Seq<char>>;

    open spec fn view(&self) -> Option<Seq<char>> {
        match self.default {
            Some(s) => Some(s@),
            None => None,
        }
    }
}

impl Clone for ImageSet {
    fn clone(&self) -> (r: Self)
        ensures
            r@ == self@,
    {
        ImageSet {
            default: match &self.default {
                Some(s) => Some(s.clone()),
                None => None,
            },
        }
    }
}

/// Metadata of one card set.
#[derive(Debug, PartialEq)]
pub struct SetInfo {
    pub set_id: i32,
    pub pack_item_def: i32,
    pub name: TranslationSet,
}

/// Mathematical value of a `SetInfo`.
#[verifier::ext_equal]
pub ghost struct SetInfoView {
    pub set_id: i32,
    pub pack_item_def: i32,
    pub name: Option<Seq<char>>,
}

impl View for SetInfo {
    type V = SetInfoView;

    open spec fn view(&self) -> SetInfoView {
        SetInfoView { set_id: self.set_id, pack_item_def: self.pack_item_def, name: self.name@ }
    }
}

impl Clone for SetInfo {
    fn clone(&self) -> (r: Self)
        ensures
            r@ == self@,
    {
        SetInfo {
            set_id: self.set_id,
            pack_item_def: self.pack_item_def,
            name: self.name.clone(),
        }
    }
}

/// A relation from one card to another, such as "included item" or
/// "upgrades to".
#[derive(Debug, PartialEq)]
pub struct CardReference {
    pub card_id: i32,
    pub ref_type: String,
    pub count: Option<i32>,
}

/// Mathematical value of a `CardReference`.
#[verifier::ext_equal]
pub ghost struct CardReferenceView {
    pub card_id: i32,
    pub ref_type: Seq<char>,
    pub count: Option<i32>,
}

impl View for CardReference {
    type V = CardReferenceView;

    open spec fn view(&self) -> CardReferenceView {
        CardReferenceView {
            card_id: self.card_id,
            ref_type: self.ref_type@,
            count: self.count,
        }
    }
}

impl Clone for CardReference {
    fn clone(&self) -> (r: Self)
        ensures
            r@ == self@,
    {
        CardReference {
            card_id: self.card_id,
            ref_type: self.ref_type.clone(),
            count: self.count,
        }
    }
}

/// The closed set of card rarities.
#[derive(Debug, Clone, Copy, PartialEq, Eq, Structural)]
pub enum Rarity {
    Common,
    Uncommon,
    Rare,
}

/// The view of an optional owned string.
pub open spec fn opt_string_view(o: Option<String>) -> Option<Seq<char>> {
    match o {
        Some(s) => Some(s@),
        None => None,
    }
}

/// The views of a sequence of card references.
pub open spec fn refs_view(s: Seq<CardReference>) -> Seq<CardReferenceView> {
    s.map_values(|r: CardReference| r@)
}

/// The central entity: one collectible card. Most attributes are optional
/// because card schemas vary by type (creature, item, spell).
#[derive(Debug, PartialEq)]
pub struct Card {
    pub card_id: i32,
    pub base_card_id: i32,
    pub card_type: String,
    pub card_name: TranslationSet,
    pub card_text: TranslationSet,
    pub mini_image: ImageSet,
    pub large_image: ImageSet,
    pub ingame_image: ImageSet,
    pub references: Vec<CardReference>,
    pub attack: Option<i32>,
    pub hit_points: Option<i32>,
    pub illustrator: Option<String>,
    pub gold_cost: Option<i32>,
    pub mana_cost: Option<i32>,
    pub sub_type: Option<String>,
    pub is_green: Option<bool>,
    pub is_red: Option<bool>,
    pub is_black: Option<bool>,
    pub is_blue: Option<bool>,
    pub item_def: Option<i32>,
    pub rarity: Option<Rarity>,
}

/// Mathematical value of a `Card`.
#[verifier::ext_equal]
pub ghost struct CardView {
    pub card_id: i32,
    pub base_card_id: i32,
    pub card_type: Seq<char>,
    pub card_name: Option<Seq<char>>,
    pub card_text: Option<Seq<char>>,
    pub mini_image: Option<Seq<char>>,
    pub large_image: Option<Seq<char>>,
    pub ingame_image: Option<Seq<char>>,
    pub references: Seq<CardReferenceView>,
    pub attack: Option<i32>,
    pub hit_points: Option<i32>,
    pub illustrator: Option<Seq<char>>,
    pub gold_cost: Option<i32>,
    pub mana_cost: Option<i32>,
    pub sub_type: Option<Seq<char>>,
    pub is_green: Option<bool>,
    pub is_red: Option<bool>,
    pub is_black: Option<bool>,
    pub is_blue: Option<bool>,
    pub item_def: Option<i32>,
    pub rarity: Option<Rarity>,
}

impl View for Card {
    type V = CardView;

    open spec fn view(&self) -> CardView {
        CardView {
            card_id: self.card_id,
            base_card_id: self.base_card_id,
            card_type: self.card_type@,
            card_name: self.card_name@,
            card_text: self.card_text@,
            mini_image: self.mini_image@,
            large_image: self.large_image@,
            ingame_image: self.ingame_image@,
            references: refs_view(self.references@),
            attack: self.attack,
            hit_points: self.hit_points,
            illustrator: opt_string_view(self.illustrator),
            gold_cost: self.gold_cost,
            mana_cost: self.mana_cost,
            sub_type: opt_string_view(self.sub_type),
            is_green: self.is_green,
            is_red: self.is_red,
            is_black: self.is_black,
            is_blue: self.is_blue,
            item_def: self.item_def,
            rarity: self.rarity,
        }
    }
}

fn clone_opt_string(o: &Option<String>) -> (r: Option<String>)
    ensures
        opt_string_view(r) == opt_string_view(*o),
{
    match o {
        Some(s) => Some(s.clone()),
        None => None,
    }
}

impl Clone for Card {
    fn clone(&self) -> (r: Self)
        ensures
            r@ == self@,
    {
        let references = self.references.clone();
        proof {
            assert forall|i: int| 0 <= i < self.references@.len() implies references@[i]@
                == self.references@[i]@ by {
                assert(cloned::<CardReference>(self.references@[i], references@[i]));
            }
            assert(refs_view(references@) =~= refs_view(self.references@));
        }
        Card {
            card_id: self.card_id,
            base_card_id: self.base_card_id,
            card_type: self.card_type.clone(),
            card_name: self.card_name.clone(),
            card_text: self.card_text.clone(),
            mini_image: self.mini_image.clone(),
            large_image: self.large_image.clone(),
            ingame_image: self.ingame_image.clone(),
            references,
            attack: self.attack,
            hit_points: self.hit_points,
            illustrator: clone_opt_string(&self.illustrator),
            gold_cost: self.gold_cost,
            mana_cost: self.mana_cost,
            sub_type: clone_opt_string(&self.sub_type),
            is_green: self.is_green,
            is_red: self.is_red,
            is_black: self.is_black,
            is_blue: self.is_blue,
            item_def: self.item_def,
            rarity: self.rarity,
        }
    }
}

/// An ordered collection of cards.
pub type CardList = Vec<Card>;

/// The views of a sequence of cards.
pub open spec fn cards_view(s: Seq<Card>) -> Seq<CardView> {
    s.map_values(|c: Card| c@)
}

/// Clones every card of a list, preserving order and values.
pub fn clone_cards(cards: &CardList) -> (r: CardList)
    ensures
        cards_view(r@) == cards_view(cards@),
{
    let r = cards.clone();
    proof {
        assert forall|i: int| 0 <= i < cards@.len() implies r@[i]@ == cards@[i]@ by {
            assert(cloned::<Card>(cards@[i], r@[i]));
        }
        assert(cards_view(r@) =~= cards_view(cards@));
    }
    r
}

/// One card set: a version stamp, its metadata, and its ordered card list.
#[derive(Debug, PartialEq)]
pub struct CardSet {
    pub version: i32,
    pub set_info: SetInfo,
    pub card_list: CardList,
}

/// Mathematical value of a `CardSet`.
#[verifier::ext_equal]
pub ghost struct CardSetView {
    pub version: i32,
    pub set_info: SetInfoView,
    pub card_list: Seq<CardView>,
}

impl View for CardSet {
    type V = CardSetView;

    open spec fn view(&self) -> CardSetView {
        CardSetView {
            version: self.version,
            set_info: self.set_info@,
            card_list: cards_view(self.card_list@),
        }
    }
}

impl Clone for CardSet {
    fn clone(&self) -> (r: Self)
        ensures
            r@ == self@,
    {
        CardSet {
            version: self.version,
            set_info: self.set_info.clone(),
            card_list: clone_cards(&self.card_list),
        }
    }
}

/// The payload fetched for one set identifier: exactly one card set. This is
/// the unit stored in the response cache.
#[derive(Debug, PartialEq)]
pub struct CardSetResponse {
    pub card_set: CardSet,
}

impl View for CardSetResponse {
    type V = CardSetView;

    open spec fn view(&self) -> CardSetView {
        self.card_set@
    }
}

impl Clone for CardSetResponse {
    fn clone(&self) -> (r: Self)
        ensures
            r@ == self@,
    {
        CardSetResponse { card_set: self.card_set.clone() }
    }
}

} // verus!
