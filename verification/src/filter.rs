use vstd::prelude::*;
use crate::model::Card;
use crate::model::CardList;

verus! {

/// The filter's parameters: the gold cost looked for, and whether cards one
/// gold below it are included as well.
#[derive(Debug)]
pub struct FindItemsParams {
    pub gold_cost: i32,
    pub include_hold: bool,
}

/// Whether a card is selected: it must carry a gold cost, and either be an
/// item at exactly the target cost, or — when adjacent costs are included —
/// cost one gold less than the target, whatever its type.
pub open spec fn keeps_card(c: Card, gold_cost: i32, include_hold: bool) -> bool {
    match c.gold_cost {
        Some(g) => (c.card_type@ == "Item"@ && g == gold_cost) || (include_hold && g == gold_cost
            - 1),
        None => false,
    }
}

/// The selection predicate of `find_items`, as a function value.
pub open spec fn item_filter(gold_cost: i32, include_hold: bool) -> spec_fn(Card) -> bool {
    |c: Card| keeps_card(c, gold_cost, include_hold)
}

/// Card lists that can be filtered down to item cards by gold cost.
pub trait CardListFilterable: Sized {
    /// The order-preserving subsequence of cards selected by `params`.
    fn find_items(self, params: &FindItemsParams) -> CardList;
}

fn card_matches(c: &Card, params: &FindItemsParams) -> (r: bool)
    ensures
        r == keeps_card(*c, params.gold_cost, params.include_hold),
{
    match c.gold_cost {
        Some(g) => {
            let exact = c.card_type == "Item".to_owned() && g == params.gold_cost;
            let adjacent = params.include_hold && params.gold_cost > i32::MIN && g
                == params.gold_cost - 1;
            exact || adjacent
        },
        None => false,
    }
}

impl CardListFilterable for CardList {
    /// Exactly the cards selected by the cost predicate, in their original
    /// order; cards with no gold cost are excluded unconditionally.
    fn find_items(self, params: &FindItemsParams) -> (r: CardList)
        ensures
            r@ == self@.filter(item_filter(params.gold_cost, params.include_hold)),
    {
        let ghost all = self@;
        let ghost pred = item_filter(params.gold_cost, params.include_hold);
        let mut rest = self;
        let mut out: CardList = Vec::new();
        proof {
            assert(all.subrange(0, 0).filter(pred) =~= Seq::<Card>::empty());
            assert(all.subrange(0, all.len() as int) =~= all);
        }
        while rest.len() > 0
            invariant
                rest@.len() <= all.len(),
                rest@ == all.subrange(all.len() - rest.len(), all.len() as int),
                out@ == all.subrange(0, all.len() - rest.len()).filter(pred),
                pred == item_filter(params.gold_cost, params.include_hold),
            decreases rest.len(),
        {
            let ghost k: int = all.len() - rest@.len();
            let card = rest.remove(0);
            proof {
                assert(card == all[k]);
                assert(rest@ =~= all.subrange(k + 1, all.len() as int));
                let done = all.subrange(0, k + 1);
                assert(done.drop_last() =~= all.subrange(0, k));
                reveal(Seq::filter);
                assert(done.filter(pred) == if pred(all[k]) {
                    all.subrange(0, k).filter(pred).push(all[k])
                } else {
                    all.subrange(0, k).filter(pred)
                });
            }
            if card_matches(&card, params) {
                out.push(card);
            }
        }
        proof {
            assert(all.subrange(0, all.len() as int) =~= all);
        }
        out
    }
}

} // verus!
