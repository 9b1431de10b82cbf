use vstd::prelude::*;
use crate::boat::Boat;
use crate::enemies::EnemyT;
use crate::inventory::{
    category_indices, first_of_type, lemma_category_indices_exact, level_up, Inventory, Item, ItemCategory, ItemType,
};
use crate::player::Player;

verus! {

/// Hull points a boat health upgrade adds.
pub const BOAT_HEALTH_UPGRADE: i32 = 25;

/// What the player can ask the shop to do.
#[derive(Clone, Copy, PartialEq, Eq, Structural, Debug)]
pub enum ShopEvent {
    Upgrade(usize),
    Sell(usize),
    UpgradePlayerHealth,
    UpgradeBoatSpeed,
    UpgradeBoatHealth,
    UpgradeBoatRotation,
    UpgradeBoatCannon,
}

/// The pages of the shop window.
#[derive(Clone, Copy, PartialEq, Eq, Structural, Debug)]
pub enum ShopPage {
    PlayerUpgrades,
    ShipUpgrades,
    Sell,
}

/// The buttons of the shop window; item buttons carry the position of the
/// item in the inventory.
#[derive(Clone, Copy, PartialEq, Eq, Structural, Debug)]
pub enum ShopButton {
    PlayerUpgrades,
    ShipUpgrades,
    Sell,
    UpgradeItem(usize),
    SellItem(usize),
    UpgradePlayerHealth,
    UpgradeBoatSpeed,
    UpgradeBoatHealth,
    UpgradeBoatRotation,
    UpgradeBoatCannon,
}

/// What pressing a button does: turn to a page, or send a request.
#[derive(Clone, Copy, PartialEq, Eq, Structural, Debug)]
pub enum ButtonAction {
    ShowPage(ShopPage),
    Send(ShopEvent),
}

/// What a request to the shop came to. The boat's speed, turning and cannon
/// upgrades scale quantities the engine keeps; it applies them on these
/// outcomes.
#[derive(Clone, Copy, PartialEq, Eq, Structural, Debug)]
pub enum ShopOutcome {
    Ignored,
    ItemUpgraded(ItemType),
    ItemSold,
    PlayerHealthUpgraded,
    BoatSpeedUpgraded,
    BoatHealthUpgraded,
    BoatRotationUpgraded,
    BoatCannonUpgraded,
}

/// The gold each of the fixed upgrades costs.
pub struct UpgradePrices {
    pub player_health: u32,
    pub boat_speed: u32,
    pub boat_health: u32,
    pub boat_rotation: u32,
    pub boat_cannon: u32,
}

pub open spec fn spec_button_action(button: ShopButton) -> ButtonAction {
    match button {
        ShopButton::PlayerUpgrades => ButtonAction::ShowPage(ShopPage::PlayerUpgrades),
        ShopButton::ShipUpgrades => ButtonAction::ShowPage(ShopPage::ShipUpgrades),
        ShopButton::Sell => ButtonAction::ShowPage(ShopPage::Sell),
        ShopButton::UpgradeItem(i) => ButtonAction::Send(ShopEvent::Upgrade(i)),
        ShopButton::SellItem(i) => ButtonAction::Send(ShopEvent::Sell(i)),
        ShopButton::UpgradePlayerHealth => ButtonAction::Send(ShopEvent::UpgradePlayerHealth),
        ShopButton::UpgradeBoatSpeed => ButtonAction::Send(ShopEvent::UpgradeBoatSpeed),
        ShopButton::UpgradeBoatHealth => ButtonAction::Send(ShopEvent::UpgradeBoatHealth),
        ShopButton::UpgradeBoatRotation => ButtonAction::Send(ShopEvent::UpgradeBoatRotation),
        ShopButton::UpgradeBoatCannon => ButtonAction::Send(ShopEvent::UpgradeBoatCannon),
    }
}

/// What pressing a shop button does.
pub fn button_action(button: ShopButton) -> (action: ButtonAction)
    ensures
        action == spec_button_action(button),
{
    match button {
        ShopButton::PlayerUpgrades => ButtonAction::ShowPage(ShopPage::PlayerUpgrades),
        ShopButton::ShipUpgrades => ButtonAction::ShowPage(ShopPage::ShipUpgrades),
        ShopButton::Sell => ButtonAction::ShowPage(ShopPage::Sell),
        ShopButton::UpgradeItem(i) => ButtonAction::Send(ShopEvent::Upgrade(i)),
        ShopButton::SellItem(i) => ButtonAction::Send(ShopEvent::Sell(i)),
        ShopButton::UpgradePlayerHealth => ButtonAction::Send(ShopEvent::UpgradePlayerHealth),
        ShopButton::UpgradeBoatSpeed => ButtonAction::Send(ShopEvent::UpgradeBoatSpeed),
        ShopButton::UpgradeBoatHealth => ButtonAction::Send(ShopEvent::UpgradeBoatHealth),
        ShopButton::UpgradeBoatRotation => ButtonAction::Send(ShopEvent::UpgradeBoatRotation),
        ShopButton::UpgradeBoatCannon => ButtonAction::Send(ShopEvent::UpgradeBoatCannon),
    }
}

/// Name of the loot an enemy leaves behind.
pub open spec fn loot_name(kind: EnemyT) -> Seq<char> {
    match kind {
        EnemyT::RSkeleton => "Bone"@,
        EnemyT::Bat => "Bat Wing"@,
        EnemyT::Rock => "Rock Shard"@,
        _ => "Nothing"@,
    }
}

/// Price of the loot an enemy leaves behind; nothing of value for the
/// enemies that drop no loot.
pub open spec fn loot_price(kind: EnemyT) -> u32 {
    match kind {
        EnemyT::RSkeleton => 100,
        EnemyT::Bat => 100,
        EnemyT::Rock => 150,
        _ => 0,
    }
}

/// `item` is the loot an enemy of this kind leaves behind: a loot item of
/// that name and price, at level one.
pub open spec fn is_loot_of(item: Item, kind: EnemyT) -> bool {
    &&& item.item_type == ItemType::Loot
    &&& item.name@ == loot_name(kind)
    &&& item.price == loot_price(kind)
    &&& item.level == 1
}

/// The loot a defeated enemy leaves behind: a bone from a skeleton, a wing
/// from a bat, a shard from a rock, and an item worth nothing otherwise.
pub fn generate_loot_item(enemy_type: EnemyT) -> (item: Item)
    ensures
        is_loot_of(item, enemy_type),
{
    match enemy_type {
        EnemyT::RSkeleton => Item::new(ItemType::Loot, "Bone".to_owned(), 100),
        EnemyT::Bat => Item::new(ItemType::Loot, "Bat Wing".to_owned(), 100),
        EnemyT::Rock => Item::new(ItemType::Loot, "Rock Shard".to_owned(), 150),
        _ => Item::new(ItemType::Loot, "Nothing".to_owned(), 0),
    }
}

/// The price of a fixed upgrade, for the requests that are one.
pub open spec fn fixed_price(event: ShopEvent, prices: UpgradePrices) -> u32 {
    match event {
        ShopEvent::UpgradePlayerHealth => prices.player_health,
        ShopEvent::UpgradeBoatSpeed => prices.boat_speed,
        ShopEvent::UpgradeBoatHealth => prices.boat_health,
        ShopEvent::UpgradeBoatRotation => prices.boat_rotation,
        _ => prices.boat_cannon,
    }
}

/// The outcome of a fixed upgrade that was paid for.
pub open spec fn fixed_outcome(event: ShopEvent) -> ShopOutcome {
    match event {
        ShopEvent::UpgradePlayerHealth => ShopOutcome::PlayerHealthUpgraded,
        ShopEvent::UpgradeBoatSpeed => ShopOutcome::BoatSpeedUpgraded,
        ShopEvent::UpgradeBoatHealth => ShopOutcome::BoatHealthUpgraded,
        ShopEvent::UpgradeBoatRotation => ShopOutcome::BoatRotationUpgraded,
        _ => ShopOutcome::BoatCannonUpgraded,
    }
}

pub open spec fn is_fixed_upgrade(event: ShopEvent) -> bool {
    !(event is Upgrade) && !(event is Sell)
}

/// What the engine needs to hold before it hands a request to the shop: the
/// sums involved fit their integer types.
pub open spec fn shop_event_fits(event: ShopEvent, player: Player, boat: Boat) -> bool {
    let items = player.inventory.items@;
    match event {
        ShopEvent::Upgrade(index) => index < items.len() ==> forall|i: int|
            0 <= i < items.len() && items[i].item_type == items[index as int].item_type ==> items[i].level < u32::MAX,
        ShopEvent::Sell(index) => index < items.len() ==> player.inventory.money + sell_value(items[index as int])
            <= u32::MAX,
        ShopEvent::UpgradePlayerHealth => player.max_health < i32::MAX,
        ShopEvent::UpgradeBoatHealth => boat.max_health <= i32::MAX - BOAT_HEALTH_UPGRADE,
        _ => true,
    }
}

/// Whether the sums a request involves fit their integer types, so that
/// `handle_shop_event` may be called with it.
pub fn shop_event_fits_check(event: ShopEvent, player: &Player, boat: &Boat) -> (fits: bool)
    ensures
        fits == shop_event_fits(event, *player, *boat),
{
    let items = &player.inventory.items;
    match event {
        ShopEvent::Upgrade(index) => {
            if index >= items.len() {
                return true;
            }
            let t = items[index].item_type;
            let mut i: usize = 0;
            while i < items.len()
                invariant
                    items@ == player.inventory.items@,
                    event == ShopEvent::Upgrade(index),
                    i <= items@.len(),
                    index < items@.len(),
                    t == items@[index as int].item_type,
                    forall|j: int| 0 <= j < i && items@[j].item_type == t ==> items@[j].level < u32::MAX,
                decreases items@.len() - i,
            {
                if items[i].item_type == t && items[i].level == u32::MAX {
                    assert(!(items@[i as int].level < u32::MAX));
                    return false;
                }
                i = i + 1;
            }
            true
        },
        ShopEvent::Sell(index) => {
            index >= items.len() || items[index].price / 2 <= u32::MAX - player.inventory.money
        },
        ShopEvent::UpgradePlayerHealth => player.max_health < i32::MAX,
        ShopEvent::UpgradeBoatHealth => boat.max_health <= i32::MAX - BOAT_HEALTH_UPGRADE,
        _ => true,
    }
}

/// Gold a sale of the item brings: half its price, rounded down.
pub open spec fn sell_value(item: Item) -> u32 {
    item.price / 2
}

/// The gold a request involves for a player holding `items`: the price of
/// the item to upgrade, what the item to sell brings, or the price of a fixed
/// upgrade; nothing for a position that holds no item.
pub open spec fn event_amount(event: ShopEvent, items: Seq<Item>, prices: UpgradePrices) -> u32 {
    match event {
        ShopEvent::Upgrade(i) => if i < items.len() { items[i as int].price } else { 0 },
        ShopEvent::Sell(i) => if i < items.len() { sell_value(items[i as int]) } else { 0 },
        _ => fixed_price(event, prices),
    }
}

/// The request names an item the player holds, or none at all.
pub open spec fn names_held_item(event: ShopEvent, items: Seq<Item>) -> bool {
    match event {
        ShopEvent::Upgrade(i) => i < items.len(),
        ShopEvent::Sell(i) => i < items.len(),
        _ => true,
    }
}

/// One button of a shop page and the gold written on it.
#[derive(Clone, Copy, PartialEq, Eq, Structural, Debug)]
pub struct ShopEntry {
    pub button: ShopButton,
    pub amount: u32,
}

/// The button for the item at `i` in a listing: an upgrade at the item's
/// price for a weapon, a sale for half the price for loot.
pub open spec fn item_entry(items: Seq<Item>, c: ItemCategory, i: usize) -> ShopEntry {
    match c {
        ItemCategory::Weapons => ShopEntry { button: ShopButton::UpgradeItem(i), amount: items[i as int].price },
        ItemCategory::Sellable => ShopEntry { button: ShopButton::SellItem(i), amount: items[i as int].price / 2 },
    }
}

/// The buttons of the items of a category, in inventory order.
pub open spec fn category_entries(items: Seq<Item>, c: ItemCategory) -> Seq<ShopEntry> {
    category_indices(items, c, items.len()).map_values(|i: usize| item_entry(items, c, i))
}

/// The buttons a page of the shop shows, above the page tabs: the weapons
/// to upgrade and the pirate's health on the first page, the four boat
/// upgrades on the second, the loot to sell on the third.
pub open spec fn page_entries(page: ShopPage, items: Seq<Item>, prices: UpgradePrices) -> Seq<ShopEntry> {
    match page {
        ShopPage::PlayerUpgrades => category_entries(items, ItemCategory::Weapons).push(
            ShopEntry { button: ShopButton::UpgradePlayerHealth, amount: prices.player_health },
        ),
        ShopPage::ShipUpgrades => seq![
            ShopEntry { button: ShopButton::UpgradeBoatSpeed, amount: prices.boat_speed },
            ShopEntry { button: ShopButton::UpgradeBoatHealth, amount: prices.boat_health },
            ShopEntry { button: ShopButton::UpgradeBoatRotation, amount: prices.boat_rotation },
            ShopEntry { button: ShopButton::UpgradeBoatCannon, amount: prices.boat_cannon },
        ],
        ShopPage::Sell => category_entries(items, ItemCategory::Sellable),
    }
}

/// The buttons of the items of a category, in inventory order.
fn item_entries(inventory: &Inventory, c: ItemCategory) -> (entries: Vec<ShopEntry>)
    ensures
        entries@ == category_entries(inventory.items@, c),
{
    let indices = inventory.item_indices(c);
    let count: usize = inventory.items.len();
    proof {
        lemma_category_indices_exact(inventory.items@, c, count as nat);
    }
    let mut entries: Vec<ShopEntry> = Vec::new();
    let mut k: usize = 0;
    while k < indices.len()
        invariant
            k <= indices@.len(),
            indices@ == category_indices(inventory.items@, c, inventory.items@.len()),
            forall|j: int| 0 <= j < indices@.len() ==> #[trigger] indices@[j] < inventory.items@.len(),
            entries@ == indices@.take(k as int).map_values(|i: usize| item_entry(inventory.items@, c, i)),
        decreases indices@.len() - k,
    {
        let i = indices[k];
        let price = inventory.items[i].price;
        let entry = match c {
            ItemCategory::Weapons => ShopEntry { button: ShopButton::UpgradeItem(i), amount: price },
            ItemCategory::Sellable => ShopEntry { button: ShopButton::SellItem(i), amount: price / 2 },
        };
        entries.push(entry);
        proof {
            assert(indices@.take(k + 1) =~= indices@.take(k as int).push(indices@[k as int]));
        }
        k = k + 1;
    }
    proof {
        assert(indices@.take(indices@.len() as int) =~= indices@);
    }
    entries
}

/// The buttons a page of the shop shows, with the gold written on each.
pub fn shop_page_entries(page: ShopPage, inventory: &Inventory, prices: &UpgradePrices) -> (entries: Vec<ShopEntry>)
    ensures
        entries@ == page_entries(page, inventory.items@, *prices),
{
    match page {
        ShopPage::PlayerUpgrades => {
            let mut entries = item_entries(inventory, ItemCategory::Weapons);
            entries.push(ShopEntry { button: ShopButton::UpgradePlayerHealth, amount: prices.player_health });
            entries
        },
        ShopPage::ShipUpgrades => {
            let entries = vec![
                ShopEntry { button: ShopButton::UpgradeBoatSpeed, amount: prices.boat_speed },
                ShopEntry { button: ShopButton::UpgradeBoatHealth, amount: prices.boat_health },
                ShopEntry { button: ShopButton::UpgradeBoatRotation, amount: prices.boat_rotation },
                ShopEntry { button: ShopButton::UpgradeBoatCannon, amount: prices.boat_cannon },
            ];
            assert(entries@ =~= page_entries(page, inventory.items@, *prices));
            entries
        },
        ShopPage::Sell => item_entries(inventory, ItemCategory::Sellable),
    }
}

/// Every button a shop page shows sends a request about an item the player
/// holds, or a fixed upgrade, and the gold written on it is what the shop
/// charges for that request or, for a sale, pays for it.
pub proof fn lemma_shown_amount_is_charged(page: ShopPage, items: Seq<Item>, prices: UpgradePrices, k: int)
    requires
        items.len() <= usize::MAX,
        0 <= k < page_entries(page, items, prices).len(),
    ensures
        spec_button_action(page_entries(page, items, prices)[k].button) is Send,
        names_held_item(spec_button_action(page_entries(page, items, prices)[k].button)->Send_0, items),
        page_entries(page, items, prices)[k].amount == event_amount(
            spec_button_action(page_entries(page, items, prices)[k].button)->Send_0,
            items,
            prices,
        ),
{
    lemma_category_indices_exact(items, ItemCategory::Weapons, items.len());
    lemma_category_indices_exact(items, ItemCategory::Sellable, items.len());
    let weapons = category_indices(items, ItemCategory::Weapons, items.len());
    let loot = category_indices(items, ItemCategory::Sellable, items.len());
    match page {
        ShopPage::PlayerUpgrades => {
            if k < weapons.len() {
                assert(weapons[k] < items.len());
            }
        },
        ShopPage::ShipUpgrades => {},
        ShopPage::Sell => {
            assert(loot[k] < items.len());
        },
    }
}

/// One request to the shop was carried out, taking the pirate and the boat
/// from `p0` and `b0` to `p1` and `b1`.
///
/// * Upgrading the item at an index, when there is one and the player has
///   its price in gold, takes the price and raises the level of the first
///   item of the same type.
/// * Selling the item at an index takes it out of the inventory and pays
///   half its price.
/// * The fixed upgrades, when the player can pay for them, take their price
///   and raise the pirate's health (one point, healed to full), the boat's
///   hull (twenty-five points, repaired to full), or report the boat upgrade
///   for the engine to apply.
///
/// A request the player cannot pay for changes nothing.
pub open spec fn shop_request_done(
    event: ShopEvent,
    p0: Player,
    b0: Boat,
    p1: Player,
    b1: Boat,
    outcome: ShopOutcome,
    prices: UpgradePrices,
) -> bool {
    let items = p0.inventory.items@;
    let money = p0.inventory.money;
    let amount = event_amount(event, items, prices);
    &&& p1.weapon == p0.weapon
    &&& p1.animation_state == p0.animation_state
    &&& b1.id == b0.id
    &&& b1.acceleration == b0.acceleration
    // The gold the request takes or brings.
    &&& p1.inventory.money == gold_after(event, items, money, prices)
    // Only selling brings gold in, and the shop never adds items.
    &&& (!(event is Sell) ==> p1.inventory.money <= money)
    &&& p1.inventory.items@.len() <= items.len()
    // Upgrading an owned item.
    &&& (event matches ShopEvent::Upgrade(index) ==> {
        &&& p1.health == p0.health
        &&& p1.max_health == p0.max_health
        &&& b1 == b0
        &&& if index < items.len() && money >= amount {
            let t = items[index as int].item_type;
            &&& outcome == ShopOutcome::ItemUpgraded(t)
            &&& p1.inventory.money == money - amount
            &&& exists|i: int| first_of_type(items, t, i) && p1.inventory.items@ == items.update(i, level_up(items[i]))
        } else {
            &&& outcome == ShopOutcome::Ignored
            &&& p1.inventory.money == money
            &&& p1.inventory.items@ == items
        }
    })
    // Selling an owned item.
    &&& (event matches ShopEvent::Sell(index) ==> {
        &&& p1.health == p0.health
        &&& p1.max_health == p0.max_health
        &&& b1 == b0
        &&& if index < items.len() {
            &&& outcome == ShopOutcome::ItemSold
            &&& p1.inventory.money == money + amount
            &&& p1.inventory.items@ == items.remove(index as int)
        } else {
            &&& outcome == ShopOutcome::Ignored
            &&& p1.inventory.money == money
            &&& p1.inventory.items@ == items
        }
    })
    // The fixed upgrades.
    &&& (is_fixed_upgrade(event) ==> {
        &&& p1.inventory.items@ == items
        &&& if money >= amount {
            &&& outcome == fixed_outcome(event)
            &&& p1.inventory.money == money - amount
            &&& if event == ShopEvent::UpgradePlayerHealth {
                &&& p1.max_health == p0.max_health + 1
                &&& p1.health == p1.max_health
            } else {
                &&& p1.max_health == p0.max_health
                &&& p1.health == p0.health
            }
            &&& if event == ShopEvent::UpgradeBoatHealth {
                &&& b1.max_health == b0.max_health + BOAT_HEALTH_UPGRADE
                &&& b1.health == b1.max_health
            } else {
                &&& b1.max_health == b0.max_health
                &&& b1.health == b0.health
            }
        } else {
            &&& outcome == ShopOutcome::Ignored
            &&& p1.inventory.money == money
            &&& p1.health == p0.health
            &&& p1.max_health == p0.max_health
            &&& b1 == b0
        }
    })
}

/// The gold the player holds after a request: a sale of an owned item brings
/// in what it is worth; a request that names an owned item or none, and that
/// the player can pay for, takes its price; anything else leaves the gold.
pub open spec fn gold_after(event: ShopEvent, items: Seq<Item>, money: u32, prices: UpgradePrices) -> int {
    let amount = event_amount(event, items, prices);
    if event is Sell {
        if names_held_item(event, items) { money + amount } else { money as int }
    } else if names_held_item(event, items) && money >= amount {
        money - amount
    } else {
        money as int
    }
}

/// Carries out one request to the shop, as `shop_request_done` describes.
pub fn handle_shop_event(event: ShopEvent, player: &mut Player, boat: &mut Boat, prices: &UpgradePrices) -> (outcome: ShopOutcome)
    requires
        shop_event_fits(event, *old(player), *old(boat)),
    ensures
        shop_request_done(event, *old(player), *old(boat), *final(player), *final(boat), outcome, *prices),
{
    match event {
        ShopEvent::Upgrade(index) => {
            if index < player.inventory.items.len() {
                let item_type = player.inventory.items[index].item_type;
                let cost = player.inventory.items[index].price;
                if player.inventory.money >= cost {
                    if player.inventory.find_and_upgrade_item(item_type) {
                        player.inventory.money = player.inventory.money - cost;
                        return ShopOutcome::ItemUpgraded(item_type);
                    }
                }
            }
            ShopOutcome::Ignored
        },
        ShopEvent::Sell(index) => {
            match player.inventory.remove_item(index) {
                Some(item) => {
                    player.inventory.money = player.inventory.money + item.price / 2;
                    ShopOutcome::ItemSold
                },
                None => ShopOutcome::Ignored,
            }
        },
        ShopEvent::UpgradePlayerHealth => {
            if player.inventory.money >= prices.player_health {
                player.max_health = player.max_health + 1;
                player.health = player.max_health;
                player.inventory.money = player.inventory.money - prices.player_health;
                ShopOutcome::PlayerHealthUpgraded
            } else {
                ShopOutcome::Ignored
            }
        },
        ShopEvent::UpgradeBoatSpeed => {
            if player.inventory.money >= prices.boat_speed {
                player.inventory.money = player.inventory.money - prices.boat_speed;
                ShopOutcome::BoatSpeedUpgraded
            } else {
                ShopOutcome::Ignored
            }
        },
        ShopEvent::UpgradeBoatHealth => {
            if player.inventory.money >= prices.boat_health {
                boat.max_health = boat.max_health + BOAT_HEALTH_UPGRADE;
                boat.health = boat.max_health;
                player.inventory.money = player.inventory.money - prices.boat_health;
                ShopOutcome::BoatHealthUpgraded
            } else {
                ShopOutcome::Ignored
            }
        },
        ShopEvent::UpgradeBoatRotation => {
            if player.inventory.money >= prices.boat_rotation {
                player.inventory.money = player.inventory.money - prices.boat_rotation;
                ShopOutcome::BoatRotationUpgraded
            } else {
                ShopOutcome::Ignored
            }
        },
        ShopEvent::UpgradeBoatCannon => {
            if player.inventory.money >= prices.boat_cannon {
                player.inventory.money = player.inventory.money - prices.boat_cannon;
                ShopOutcome::BoatCannonUpgraded
            } else {
                ShopOutcome::Ignored
            }
        },
    }
}

/// The request at `k` fitted the pirate and boat `players[k]` and `boats[k]`
/// it met, and left them as `players[k + 1]` and `boats[k + 1]`, with
/// `outcomes[k]` as what came of it.
pub open spec fn request_step(
    events: Seq<ShopEvent>,
    players: Seq<Player>,
    boats: Seq<Boat>,
    outcomes: Seq<ShopOutcome>,
    prices: UpgradePrices,
    k: int,
) -> bool {
    &&& shop_event_fits(events[k], players[k], boats[k])
    &&& shop_request_done(events[k], players[k], boats[k], players[k + 1], boats[k + 1], outcomes[k], prices)
}

/// Requests carried out one after another, from the first pirate and boat
/// of `players` and `boats` to the last.
pub open spec fn shop_requests_done(
    events: Seq<ShopEvent>,
    players: Seq<Player>,
    boats: Seq<Boat>,
    outcomes: Seq<ShopOutcome>,
    prices: UpgradePrices,
) -> bool {
    &&& outcomes.len() <= events.len()
    &&& players.len() == outcomes.len() + 1
    &&& boats.len() == outcomes.len() + 1
    &&& forall|k: int| 0 <= k < outcomes.len() ==> #[trigger] request_step(events, players, boats, outcomes, prices, k)
}

/// Carries out the requests in the order given, as long as the sums each one
/// involves fit their integer types; stops before the first that does not.
pub fn handle_shop_events(events: &Vec<ShopEvent>, player: &mut Player, boat: &mut Boat, prices: &UpgradePrices) -> (outcomes: Vec<ShopOutcome>)
    ensures
        exists|players: Seq<Player>, boats: Seq<Boat>|
            {
                &&& shop_requests_done(events@, players, boats, outcomes@, *prices)
                &&& players[0] == *old(player)
                &&& boats[0] == *old(boat)
                &&& players.last() == *final(player)
                &&& boats.last() == *final(boat)
            },
        outcomes@.len() < events@.len() ==> !shop_event_fits(events@[outcomes@.len() as int], *final(player), *final(boat)),
{
    let mut outcomes: Vec<ShopOutcome> = Vec::new();
    let ghost mut players: Seq<Player> = seq![*player];
    let ghost mut boats: Seq<Boat> = seq![*boat];
    let mut k: usize = 0;
    while k < events.len()
        invariant
            k <= events@.len(),
            outcomes@.len() == k,
            shop_requests_done(events@, players, boats, outcomes@, *prices),
            players[0] == *old(player),
            boats[0] == *old(boat),
            players.last() == *player,
            boats.last() == *boat,
        decreases events@.len() - k,
    {
        let event = events[k];
        if !shop_event_fits_check(event, player, boat) {
            return outcomes;
        }
        let ghost before_outcomes = outcomes@;
        let ghost player_before = *player;
        let ghost boat_before = *boat;
        let outcome = handle_shop_event(event, player, boat, prices);
        outcomes.push(outcome);
        proof {
            let before_players = players;
            let before_boats = boats;
            players = players.push(*player);
            boats = boats.push(*boat);
            assert forall|j: int| 0 <= j < outcomes@.len() implies #[trigger] request_step(
                events@,
                players,
                boats,
                outcomes@,
                *prices,
                j,
            ) by {
                if j < k {
                    assert(request_step(events@, before_players, before_boats, before_outcomes, *prices, j));
                } else {
                    assert(players[j] == player_before);
                    assert(boats[j] == boat_before);
                }
            }
            assert(shop_requests_done(events@, players, boats, outcomes@, *prices));
        }
        k = k + 1;
    }
    outcomes
}

/// The gold the first `n` requests brought in by sales, each sale paying
/// what the item sold was worth when it was sold.
pub open spec fn sales_total(events: Seq<ShopEvent>, players: Seq<Player>, prices: UpgradePrices, n: nat) -> int
    decreases n,
{
    if n == 0 {
        0
    } else {
        let k = n - 1;
        let earlier = sales_total(events, players, prices, (n - 1) as nat);
        if events[k] is Sell {
            earlier + event_amount(events[k], players[k].inventory.items@, prices)
        } else {
            earlier
        }
    }
}

/// Over any run of requests, the player's gold never grows by more than what
/// the sales in it brought in; a run without sales never raises the gold.
pub proof fn lemma_gold_grows_only_by_sales(
    events: Seq<ShopEvent>,
    players: Seq<Player>,
    boats: Seq<Boat>,
    outcomes: Seq<ShopOutcome>,
    prices: UpgradePrices,
)
    requires
        shop_requests_done(events, players, boats, outcomes, prices),
    ensures
        players.last().inventory.money <= players[0].inventory.money + sales_total(
            events,
            players,
            prices,
            outcomes.len(),
        ),
        (forall|k: int| 0 <= k < outcomes.len() ==> !(events[k] is Sell)) ==> players.last().inventory.money
            <= players[0].inventory.money,
{
    lemma_gold_prefix(events, players, boats, outcomes, prices, outcomes.len());
}

proof fn lemma_gold_prefix(
    events: Seq<ShopEvent>,
    players: Seq<Player>,
    boats: Seq<Boat>,
    outcomes: Seq<ShopOutcome>,
    prices: UpgradePrices,
    n: nat,
)
    requires
        shop_requests_done(events, players, boats, outcomes, prices),
        n <= outcomes.len(),
    ensures
        players[n as int].inventory.money <= players[0].inventory.money + sales_total(events, players, prices, n),
        (forall|k: int| 0 <= k < n ==> !(events[k] is Sell)) ==> sales_total(events, players, prices, n) == 0,
    decreases n,
{
    if n > 0 {
        let k = n - 1;
        lemma_gold_prefix(events, players, boats, outcomes, prices, (n - 1) as nat);
        assert(request_step(events, players, boats, outcomes, prices, k));
    }
}

/// Different buttons do different things: the three tabs turn to their own
/// pages, and every other button sends a request of its own.
pub proof fn lemma_buttons_distinct(b1: ShopButton, b2: ShopButton)
    ensures
        spec_button_action(b1) == spec_button_action(b2) ==> b1 == b2,
        spec_button_action(ShopButton::PlayerUpgrades) == ButtonAction::ShowPage(ShopPage::PlayerUpgrades),
        spec_button_action(ShopButton::ShipUpgrades) == ButtonAction::ShowPage(ShopPage::ShipUpgrades),
        spec_button_action(ShopButton::Sell) == ButtonAction::ShowPage(ShopPage::Sell),
        b1 matches ShopButton::UpgradeItem(i) ==> spec_button_action(b1) == ButtonAction::Send(ShopEvent::Upgrade(i)),
        b1 matches ShopButton::SellItem(i) ==> spec_button_action(b1) == ButtonAction::Send(ShopEvent::Sell(i)),
{
}

/// A sale pays half the item's price, rounded down.
pub proof fn lemma_sale_pays_half(item: Item)
    ensures
        2 * sell_value(item) <= item.price,
        item.price < 2 * sell_value(item) + 2,
{
}

/// Only skeletons, bats and rocks leave loot worth anything; a rock's shard
/// is worth more than a bone or a bat's wing, which are worth the same.
pub proof fn lemma_loot_values(kind: EnemyT)
    ensures
        loot_price(kind) > 0 <==> (kind is RSkeleton || kind is Bat || kind is Rock),
        loot_price(EnemyT::Rock) > loot_price(EnemyT::RSkeleton),
        loot_price(EnemyT::RSkeleton) == loot_price(EnemyT::Bat),
        loot_name(EnemyT::RSkeleton) == "Bone"@,
        loot_name(EnemyT::Bat) == "Bat Wing"@,
        loot_name(EnemyT::Rock) == "Rock Shard"@,
        loot_price(EnemyT::Rock) == 150,
        loot_price(EnemyT::RSkeleton) == 100,
{
}

/// What each outcome of a request did: an ignored request changed nothing;
/// a health upgrade added one point to the pirate's maximum and healed it, a
/// hull upgrade added twenty-five points to the boat's and repaired it, each
/// for its price; a sale took one item out and brought gold in; an item
/// upgrade raised one item's level for gold and kept the number of items.
pub proof fn lemma_request_outcomes(
    event: ShopEvent,
    p0: Player,
    b0: Boat,
    p1: Player,
    b1: Boat,
    outcome: ShopOutcome,
    prices: UpgradePrices,
)
    requires
        shop_request_done(event, p0, b0, p1, b1, outcome, prices),
    ensures
        outcome == ShopOutcome::Ignored ==> p1.inventory.money == p0.inventory.money && p1.inventory.items@
            == p0.inventory.items@ && p1.health == p0.health && p1.max_health == p0.max_health && b1 == b0,
        outcome == ShopOutcome::PlayerHealthUpgraded ==> p1.max_health == p0.max_health + 1 && p1.health
            == p1.max_health && p1.inventory.money == p0.inventory.money - prices.player_health && b1 == b0,
        outcome == ShopOutcome::BoatHealthUpgraded ==> b1.max_health == b0.max_health + 25 && b1.health
            == b1.max_health && p1.inventory.money == p0.inventory.money - prices.boat_health,
        outcome == ShopOutcome::BoatSpeedUpgraded ==> p1.inventory.money == p0.inventory.money - prices.boat_speed
            && b1 == b0,
        outcome == ShopOutcome::BoatRotationUpgraded ==> p1.inventory.money == p0.inventory.money
            - prices.boat_rotation && b1 == b0,
        outcome == ShopOutcome::BoatCannonUpgraded ==> p1.inventory.money == p0.inventory.money - prices.boat_cannon
            && b1 == b0,
        outcome == ShopOutcome::ItemSold ==> p1.inventory.items@.len() == p0.inventory.items@.len() - 1
            && p1.inventory.money >= p0.inventory.money && event is Sell,
        outcome is ItemUpgraded ==> event is Upgrade && p1.inventory.items@.len() == p0.inventory.items@.len()
            && p1.inventory.money == p0.inventory.money - event_amount(event, p0.inventory.items@, prices),
        p1.inventory.money != p0.inventory.money ==> outcome != ShopOutcome::Ignored,
{
}

} // verus!
