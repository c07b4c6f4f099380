use bevymmo::market::{select_best_buy_order, BuyBid, MarketError, MARKET_1_ID, MARKET_2_ID};

fn bid(id: u64, market: &str, item: &str, price: u64, is_own: bool) -> BuyBid {
    BuyBid {
        id,
        market_id: market.to_string(),
        item_id: item.to_string(),
        price_gold: price,
        is_own,
    }
}

#[test]
fn select_best_buy_order_picks_highest_then_lowest_id() {
    let bids = [
        bid(4, MARKET_1_ID, "sword", 100, false),
        bid(2, MARKET_1_ID, "sword", 300, false),
        bid(1, MARKET_1_ID, "sword", 300, false),
    ];
    let best = select_best_buy_order(&bids, MARKET_1_ID, "sword", 100).unwrap();
    assert_eq!(best.id, 1);
    assert_eq!(best.price_gold, 300);
}

#[test]
fn select_best_buy_order_rejects_self_and_cross_market() {
    let own_only = [bid(1, MARKET_1_ID, "sword", 500, true)];
    assert_eq!(
        select_best_buy_order(&own_only, MARKET_1_ID, "sword", 1).unwrap_err(),
        MarketError::SelfTrade
    );
    let other_market = [bid(1, MARKET_2_ID, "sword", 500, false)];
    assert_eq!(
        select_best_buy_order(&other_market, MARKET_1_ID, "sword", 1).unwrap_err(),
        MarketError::NoMatchingBid
    );
}

#[test]
fn select_best_buy_order_does_not_list_when_nothing_matches() {
    let bids = [bid(1, MARKET_1_ID, "bow", 50, false)];
    assert_eq!(
        select_best_buy_order(&bids, MARKET_1_ID, "sword", 1).unwrap_err(),
        MarketError::NoMatchingBid
    );
}

#[test]
fn own_bid_is_skipped_in_favour_of_another_buyer() {
    let bids = [
        bid(1, MARKET_1_ID, "sword", 400, true),
        bid(2, MARKET_1_ID, "sword", 100, false),
    ];
    let best = select_best_buy_order(&bids, MARKET_1_ID, "sword", 1).unwrap();
    assert_eq!(best.id, 2);
}

#[test]
fn bids_below_the_asking_total_do_not_match() {
    let bids = [bid(1, MARKET_1_ID, "sword", 99, false)];
    assert_eq!(
        select_best_buy_order(&bids, MARKET_1_ID, "sword", 100).unwrap_err(),
        MarketError::NoMatchingBid
    );
    let exact = [bid(1, MARKET_1_ID, "sword", 100, false)];
    assert_eq!(select_best_buy_order(&exact, MARKET_1_ID, "sword", 100).unwrap().id, 1);
}

#[test]
fn an_empty_book_has_no_matching_bid() {
    assert_eq!(
        select_best_buy_order(&[], MARKET_1_ID, "sword", 1).unwrap_err(),
        MarketError::NoMatchingBid
    );
}

#[test]
fn the_chosen_bid_keeps_every_field() {
    let bids = [bid(8, MARKET_2_ID, "bow", 70, false)];
    let best = select_best_buy_order(&bids, MARKET_2_ID, "bow", 10).unwrap();
    assert_eq!(best.market_id, MARKET_2_ID);
    assert_eq!(best.item_id, "bow");
    assert_eq!(best.price_gold, 70);
    assert!(!best.is_own);
}

#[test]
fn market_errors_have_messages() {
    assert_eq!(MarketError::SelfTrade.message(), "you cannot trade with yourself");
    assert_eq!(MarketError::NoMatchingBid.message(), "no matching buy order");
}

use bevymmo::market::{
    buy_bids_for, check_order_owner, find_buy_order, open_order_count, MarketBuyOrder,
    MarketSellOrder,
};
use bevymmo::rows::{AbilitySelectionRow, ItemInstanceRow};

fn buy_row(id: u64, market: &str, buyer: u128, price: u64) -> MarketBuyOrder {
    MarketBuyOrder {
        id,
        market_id: market.to_string(),
        buyer_character_id: buyer,
        item_id: "sword".to_string(),
        price_gold: price,
        created_at_micros: 0,
    }
}

fn sell_row(id: u64, market: &str, seller: u128) -> MarketSellOrder {
    MarketSellOrder {
        id,
        market_id: market.to_string(),
        seller_character_id: seller,
        item_id: "sword".to_string(),
        item: ItemInstanceRow {
            instance_id: id,
            item_id: "sword".to_string(),
            inscriptions: None,
            ability_selection: AbilitySelectionRow { primary: None, secondary: None },
        },
        price_gold: 10,
        created_at_micros: 0,
    }
}

#[test]
fn stored_bids_are_seen_from_the_seller() {
    let rows = [buy_row(1, MARKET_1_ID, 5, 300), buy_row(2, MARKET_1_ID, 6, 200)];
    let bids = buy_bids_for(&rows, 5);
    assert_eq!(bids.len(), 2);
    assert!(bids[0].is_own && !bids[1].is_own);
    assert_eq!(bids[1].price_gold, 200);
    let best = select_best_buy_order(&bids, MARKET_1_ID, "sword", 1).unwrap();
    assert_eq!(best.id, 2);
    assert_eq!(find_buy_order(&rows, best.id), Some(1));
    assert_eq!(find_buy_order(&rows, 99), None);
}

#[test]
fn open_orders_count_both_sides_in_one_market() {
    let sells = [sell_row(1, MARKET_1_ID, 5), sell_row(2, MARKET_2_ID, 5), sell_row(3, MARKET_1_ID, 6)];
    let buys = [buy_row(4, MARKET_1_ID, 5, 1), buy_row(5, MARKET_1_ID, 5, 1)];
    assert_eq!(open_order_count(&sells, &buys, 5, MARKET_1_ID), 3);
    assert_eq!(open_order_count(&sells, &buys, 5, MARKET_2_ID), 1);
    assert_eq!(open_order_count(&sells, &buys, 7, MARKET_1_ID), 0);
}

#[test]
fn only_the_owner_cancels_an_order() {
    assert_eq!(check_order_owner(3, 3), Ok(()));
    assert_eq!(check_order_owner(3, 4), Err("that order is not yours".to_string()));
}

use bevymmo::market::{check_market_npc, MarketNpcFacts};

#[test]
fn a_market_request_needs_a_nearby_market_npc() {
    let ok = MarketNpcFacts {
        character_entity_found: true,
        npc_entity_found: true,
        is_npc: true,
        within_reach: true,
        profile_found: true,
        runs_market: true,
    };
    assert_eq!(check_market_npc(ok), Ok(()));
    let mut f = ok;
    f.within_reach = false;
    f.runs_market = false;
    assert_eq!(check_market_npc(f), Err("you are too far from that NPC".to_string()));
    let mut f = ok;
    f.is_npc = false;
    assert_eq!(check_market_npc(f), Err("that entity is not an NPC".to_string()));
    let mut f = ok;
    f.runs_market = false;
    assert_eq!(check_market_npc(f), Err("that NPC is not a market".to_string()));
    let mut f = ok;
    f.character_entity_found = false;
    f.npc_entity_found = false;
    assert_eq!(check_market_npc(f), Err("character has no entity".to_string()));
}
