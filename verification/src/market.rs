//! Isolated player markets: matching a sale against the standing bids.
use vstd::prelude::*;
use crate::rows::ItemInstanceRow;
use crate::text::{owned, same_text};

verus! {

/// Id of the first catalogue market hall.
pub const MARKET_1_ID: &'static str = "market_1";

/// Id of the second catalogue market hall.
pub const MARKET_2_ID: &'static str = "market_2";

/// Why a market request cannot be filled.
#[derive(Debug, Clone, Copy, PartialEq, Eq, Structural)]
pub enum MarketError {
    /// The only bid that would match belongs to the seller.
    SelfTrade,
    /// No bid in this market, for this item, at or above the asked total.
    NoMatchingBid,
}

pub open spec fn market_error_text(err: MarketError) -> Seq<char> {
    match err {
        MarketError::SelfTrade => "you cannot trade with yourself"@,
        MarketError::NoMatchingBid => "no matching buy order"@,
    }
}

impl MarketError {
    /// The message a reducer returns for this error.
    pub fn message(&self) -> (s: String)
        ensures
            s@ == market_error_text(*self),
    {
        proof {
            reveal_strlit("you cannot trade with yourself");
            reveal_strlit("no matching buy order");
        }
        match self {
            MarketError::SelfTrade => owned("you cannot trade with yourself"),
            MarketError::NoMatchingBid => owned("no matching buy order"),
        }
    }
}

/// A standing buy order as the matcher sees it.
#[derive(Debug)]
pub struct BuyBid {
    pub id: u64,
    pub market_id: String,
    pub item_id: String,
    /// The total the buyer escrowed.
    pub price_gold: u64,
    /// Whether the bid was placed by the character now selling.
    pub is_own: bool,
}

impl BuyBid {
    pub fn duplicate(&self) -> (r: BuyBid)
        ensures
            r == *self,
    {
        BuyBid {
            id: self.id,
            market_id: self.market_id.clone(),
            item_id: self.item_id.clone(),
            price_gold: self.price_gold,
            is_own: self.is_own,
        }
    }
}

/// A bid in `market` for `item` that pays at least `min_total`.
pub open spec fn bid_matches(bid: BuyBid, market: Seq<char>, item: Seq<char>, min_total: u64) -> bool {
    bid.market_id@ == market && bid.item_id@ == item && bid.price_gold >= min_total
}

/// A matching bid the seller may fill: one that is not their own.
pub open spec fn bid_eligible(bid: BuyBid, market: Seq<char>, item: Seq<char>, min_total: u64) -> bool {
    bid_matches(bid, market, item, min_total) && !bid.is_own
}

/// `a` is preferred to `b`: it pays more, or pays the same and is older
/// (lower id).
pub open spec fn bid_preferred(a: BuyBid, b: BuyBid) -> bool {
    a.price_gold > b.price_gold || (a.price_gold == b.price_gold && a.id < b.id)
}

/// `best` is an eligible bid of `bids` that no eligible bid is preferred to.
pub open spec fn is_best_bid(bids: Seq<BuyBid>, market: Seq<char>, item: Seq<char>, min_total: u64, best: BuyBid) -> bool {
    &&& exists|k: int| 0 <= k < bids.len() && bids[k] == best
    &&& bid_eligible(best, market, item, min_total)
    &&& forall|k: int|
        0 <= k < bids.len() && bid_eligible(#[trigger] bids[k], market, item, min_total)
            ==> !bid_preferred(bids[k], best)
}

/// Picks the bid a sale of `item_id` in `market_id` fills: the highest price
/// of at least `min_total`, oldest first on a tie, never the seller's own.
///
/// When nothing eligible remains but one of the seller's own bids would have
/// matched, the error is `SelfTrade`; otherwise `NoMatchingBid`.
pub fn select_best_buy_order(bids: &[BuyBid], market_id: &str, item_id: &str, min_total: u64) -> (r: Result<BuyBid, MarketError>)
    ensures
        (exists|k: int| 0 <= k < bids@.len() && bid_eligible(#[trigger] bids@[k], market_id@, item_id@, min_total))
            ==> (r matches Ok(best) && is_best_bid(bids@, market_id@, item_id@, min_total, best)),
        !(exists|k: int| 0 <= k < bids@.len() && bid_eligible(#[trigger] bids@[k], market_id@, item_id@, min_total))
            ==> r is Err,
        r == Err::<BuyBid, MarketError>(MarketError::SelfTrade) <==> (
            !(exists|k: int| 0 <= k < bids@.len() && bid_eligible(#[trigger] bids@[k], market_id@, item_id@, min_total))
            && (exists|k: int| 0 <= k < bids@.len() && bid_matches(#[trigger] bids@[k], market_id@, item_id@, min_total))),
        r == Err::<BuyBid, MarketError>(MarketError::NoMatchingBid) <==>
            !(exists|k: int| 0 <= k < bids@.len() && bid_matches(#[trigger] bids@[k], market_id@, item_id@, min_total)),
{
    let mut best: Option<usize> = None;
    let mut saw_own = false;
    let mut i: usize = 0;
    while i < bids.len()
        invariant
            i <= bids@.len(),
            best matches Some(b) ==> b < i && bid_eligible(bids@[b as int], market_id@, item_id@, min_total),
            best is None ==> forall|k: int| 0 <= k < i ==> !bid_eligible(#[trigger] bids@[k], market_id@, item_id@, min_total),
            best matches Some(b) ==> forall|k: int| 0 <= k < i && bid_eligible(#[trigger] bids@[k], market_id@, item_id@, min_total)
                ==> !bid_preferred(bids@[k], bids@[b as int]),
            saw_own <==> exists|k: int| 0 <= k < i && bid_matches(#[trigger] bids@[k], market_id@, item_id@, min_total) && bids@[k].is_own,
        decreases bids@.len() - i,
    {
        let bid = &bids[i];
        let matches = same_text(bid.market_id.as_str(), market_id) && same_text(bid.item_id.as_str(), item_id)
            && bid.price_gold >= min_total;
        if matches {
            if bid.is_own {
                saw_own = true;
            } else {
                match best {
                    None => {
                        best = Some(i);
                    },
                    Some(b) => {
                        let current = &bids[b];
                        if bid.price_gold > current.price_gold || (bid.price_gold == current.price_gold && bid.id < current.id) {
                            best = Some(i);
                        }
                    },
                }
            }
        }
        i = i + 1;
    }
    match best {
        Some(b) => Ok(bids[b].duplicate()),
        None => {
            if saw_own {
                Err(MarketError::SelfTrade)
            } else {
                Err(MarketError::NoMatchingBid)
            }
        },
    }
}

// ---------------------------------------------------------------------------
// Standing orders
// ---------------------------------------------------------------------------

/// A standing bid: gold escrowed by a buyer for one item in one market.
#[derive(Debug)]
pub struct MarketBuyOrder {
    pub id: u64,
    pub market_id: String,
    pub buyer_character_id: u128,
    pub item_id: String,
    /// The total escrowed.
    pub price_gold: u64,
    /// When the bid was placed, in microseconds since the epoch.
    pub created_at_micros: i64,
}

/// A standing listing: an item escrowed by a seller in one market.
#[derive(Debug)]
pub struct MarketSellOrder {
    pub id: u64,
    pub market_id: String,
    pub seller_character_id: u128,
    pub item_id: String,
    pub item: ItemInstanceRow,
    /// The total asked for the listed pile.
    pub price_gold: u64,
    /// When the listing was placed, in microseconds since the epoch.
    pub created_at_micros: i64,
}

/// The bid the matcher sees for a stored buy order, from the point of view
/// of `seller`.
pub open spec fn bid_of(row: MarketBuyOrder, seller: u128) -> BuyBid {
    BuyBid {
        id: row.id,
        market_id: row.market_id,
        item_id: row.item_id,
        price_gold: row.price_gold,
        is_own: row.buyer_character_id == seller,
    }
}

/// The stored bids as the matcher sees them when `seller` sells: one bid per
/// row, in order, marked as the seller's own where the seller placed it.
pub fn buy_bids_for(rows: &[MarketBuyOrder], seller_character_id: u128) -> (bids: Vec<BuyBid>)
    ensures
        bids@.len() == rows@.len(),
        forall|k: int| 0 <= k < rows@.len() ==> #[trigger] bids@[k] == bid_of(rows@[k], seller_character_id),
{
    let mut bids: Vec<BuyBid> = Vec::new();
    let mut i: usize = 0;
    while i < rows.len()
        invariant
            i <= rows@.len(),
            bids@.len() == i,
            forall|k: int| 0 <= k < i ==> #[trigger] bids@[k] == bid_of(rows@[k], seller_character_id),
        decreases rows@.len() - i,
    {
        let row = &rows[i];
        bids.push(
            BuyBid {
                id: row.id,
                market_id: row.market_id.clone(),
                item_id: row.item_id.clone(),
                price_gold: row.price_gold,
                is_own: row.buyer_character_id == seller_character_id,
            },
        );
        i = i + 1;
    }
    bids
}

/// How many of the first `n` listings `character` has open in `market`.
pub open spec fn sells_in(rows: Seq<MarketSellOrder>, n: nat, character: u128, market: Seq<char>) -> nat
    decreases n,
{
    if n == 0 {
        0
    } else {
        sells_in(rows, (n - 1) as nat, character, market) + if rows[n - 1].seller_character_id == character
            && rows[n - 1].market_id@ == market {
            1nat
        } else {
            0nat
        }
    }
}

/// How many of the first `n` bids `character` has open in `market`.
pub open spec fn buys_in(rows: Seq<MarketBuyOrder>, n: nat, character: u128, market: Seq<char>) -> nat
    decreases n,
{
    if n == 0 {
        0
    } else {
        buys_in(rows, (n - 1) as nat, character, market) + if rows[n - 1].buyer_character_id == character
            && rows[n - 1].market_id@ == market {
            1nat
        } else {
            0nat
        }
    }
}

proof fn lemma_sells_in_prefix(a: Seq<MarketSellOrder>, b: Seq<MarketSellOrder>, n: nat, character: u128, market: Seq<char>)
    requires
        n <= a.len(),
        n <= b.len(),
        forall|k: int| 0 <= k < n ==> a[k] == b[k],
    ensures
        sells_in(a, n, character, market) == sells_in(b, n, character, market),
    decreases n,
{
    if n > 0 {
        lemma_sells_in_prefix(a, b, (n - 1) as nat, character, market);
    }
}

proof fn lemma_buys_in_prefix(a: Seq<MarketBuyOrder>, b: Seq<MarketBuyOrder>, n: nat, character: u128, market: Seq<char>)
    requires
        n <= a.len(),
        n <= b.len(),
        forall|k: int| 0 <= k < n ==> a[k] == b[k],
    ensures
        buys_in(a, n, character, market) == buys_in(b, n, character, market),
    decreases n,
{
    if n > 0 {
        lemma_buys_in_prefix(a, b, (n - 1) as nat, character, market);
    }
}

/// Every open order counts once: an empty book counts nothing, and adding a
/// listing or a bid to the book raises a character's count in a market by
/// exactly one when the order is theirs in that market, and leaves it
/// unchanged otherwise.
pub proof fn law_each_open_order_counts_once(
    sells: Seq<MarketSellOrder>,
    buys: Seq<MarketBuyOrder>,
    new_sell: MarketSellOrder,
    new_buy: MarketBuyOrder,
    character: u128,
    market: Seq<char>,
)
    ensures
        sells_in(Seq::<MarketSellOrder>::empty(), 0, character, market) == 0,
        buys_in(Seq::<MarketBuyOrder>::empty(), 0, character, market) == 0,
        sells_in(sells.push(new_sell), sells.len() + 1, character, market) == sells_in(
            sells,
            sells.len(),
            character,
            market,
        ) + if new_sell.seller_character_id == character && new_sell.market_id@ == market {
            1int
        } else {
            0int
        },
        buys_in(buys.push(new_buy), buys.len() + 1, character, market) == buys_in(
            buys,
            buys.len(),
            character,
            market,
        ) + if new_buy.buyer_character_id == character && new_buy.market_id@ == market {
            1int
        } else {
            0int
        },
{
    lemma_sells_in_prefix(sells.push(new_sell), sells, sells.len(), character, market);
    lemma_buys_in_prefix(buys.push(new_buy), buys, buys.len(), character, market);
    assert(sells.push(new_sell)[sells.len() as int] == new_sell);
    assert(buys.push(new_buy)[buys.len() as int] == new_buy);
}

/// The orders `character` has open in `market`, listings and bids together:
/// the number the per-market order cap is checked against.
pub fn open_order_count(
    sells: &[MarketSellOrder],
    buys: &[MarketBuyOrder],
    character_id: u128,
    market_id: &str,
) -> (count: usize)
    requires
        sells@.len() + buys@.len() <= usize::MAX,
    ensures
        count == sells_in(sells@, sells@.len(), character_id, market_id@) + buys_in(
            buys@,
            buys@.len(),
            character_id,
            market_id@,
        ),
{
    let mut sell_count: usize = 0;
    let mut i: usize = 0;
    while i < sells.len()
        invariant
            i <= sells@.len(),
            sell_count == sells_in(sells@, i as nat, character_id, market_id@),
            sell_count <= i,
        decreases sells@.len() - i,
    {
        if sells[i].seller_character_id == character_id && same_text(sells[i].market_id.as_str(), market_id) {
            sell_count = sell_count + 1;
        }
        i = i + 1;
    }
    let mut buy_count: usize = 0;
    let mut j: usize = 0;
    while j < buys.len()
        invariant
            j <= buys@.len(),
            buy_count == buys_in(buys@, j as nat, character_id, market_id@),
            buy_count <= j,
        decreases buys@.len() - j,
    {
        if buys[j].buyer_character_id == character_id && same_text(buys[j].market_id.as_str(), market_id) {
            buy_count = buy_count + 1;
        }
        j = j + 1;
    }
    sell_count + buy_count
}

/// The stored order whose id the matcher chose.
pub fn find_buy_order(rows: &[MarketBuyOrder], id: u64) -> (r: Option<usize>)
    ensures
        match r {
            Some(k) => k < rows@.len() && rows@[k as int].id == id && forall|j: int| 0 <= j < k ==> rows@[j].id != id,
            None => forall|j: int| 0 <= j < rows@.len() ==> rows@[j].id != id,
        },
{
    let mut i: usize = 0;
    while i < rows.len()
        invariant
            i <= rows@.len(),
            forall|j: int| 0 <= j < i ==> rows@[j].id != id,
        decreases rows@.len() - i,
    {
        if rows[i].id == id {
            return Some(i);
        }
        i = i + 1;
    }
    None
}

/// Only the character who placed an order may cancel it.
pub fn check_order_owner(owner_character_id: u128, caller_character_id: u128) -> (r: Result<(), String>)
    ensures
        owner_character_id == caller_character_id ==> r is Ok,
        owner_character_id != caller_character_id ==> (r matches Err(e) && e@ == "that order is not yours"@),
{
    if owner_character_id != caller_character_id {
        proof {
            reveal_strlit("that order is not yours");
        }
        return Err(owned("that order is not yours"));
    }
    Ok(())
}

/// What a market request found out about the character and the NPC it
/// addresses.
#[derive(Debug, Clone, Copy, PartialEq, Eq, Structural)]
pub struct MarketNpcFacts {
    /// The character has a game entity.
    pub character_entity_found: bool,
    /// The addressed entity exists.
    pub npc_entity_found: bool,
    /// The addressed entity is an NPC.
    pub is_npc: bool,
    /// The character stands within trading distance of it.
    pub within_reach: bool,
    /// The NPC has a profile.
    pub profile_found: bool,
    /// The NPC's profile names a market.
    pub runs_market: bool,
}

/// Why a market request cannot use the NPC, in the order of the checks.
pub open spec fn market_npc_refusal(f: MarketNpcFacts) -> Option<Seq<char>> {
    if !f.character_entity_found {
        Some("character has no entity"@)
    } else if !f.npc_entity_found {
        Some("NPC not found"@)
    } else if !f.is_npc {
        Some("that entity is not an NPC"@)
    } else if !f.within_reach {
        Some("you are too far from that NPC"@)
    } else if !f.profile_found {
        Some("NPC has no profile"@)
    } else if !f.runs_market {
        Some("that NPC is not a market"@)
    } else {
        None
    }
}

/// Checks that a market request addresses a nearby NPC that runs a market.
pub fn check_market_npc(facts: MarketNpcFacts) -> (r: Result<(), String>)
    ensures
        match market_npc_refusal(facts) {
            Some(e) => r matches Err(m) && m@ == e,
            None => r is Ok,
        },
{
    proof {
        reveal_strlit("character has no entity");
        reveal_strlit("NPC not found");
        reveal_strlit("that entity is not an NPC");
        reveal_strlit("you are too far from that NPC");
        reveal_strlit("NPC has no profile");
        reveal_strlit("that NPC is not a market");
    }
    if !facts.character_entity_found {
        return Err(owned("character has no entity"));
    }
    if !facts.npc_entity_found {
        return Err(owned("NPC not found"));
    }
    if !facts.is_npc {
        return Err(owned("that entity is not an NPC"));
    }
    if !facts.within_reach {
        return Err(owned("you are too far from that NPC"));
    }
    if !facts.profile_found {
        return Err(owned("NPC has no profile"));
    }
    if !facts.runs_market {
        return Err(owned("that NPC is not a market"));
    }
    Ok(())
}

} // verus!
