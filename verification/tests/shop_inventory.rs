use sea_of_fortune::boat::Boat;
use sea_of_fortune::enemies::EnemyT;
use sea_of_fortune::inventory::{Inventory, Item, ItemCategory, ItemType};
use sea_of_fortune::player::Player;
use sea_of_fortune::shop::{
    button_action, generate_loot_item, handle_shop_event, handle_shop_events, shop_event_fits_check, shop_page_entries, ButtonAction, ShopButton,
    ShopEntry, ShopEvent, ShopOutcome, ShopPage, UpgradePrices,
};

fn prices() -> UpgradePrices {
    UpgradePrices { player_health: 100, boat_speed: 200, boat_health: 300, boat_rotation: 150, boat_cannon: 250 }
}

fn item(t: ItemType, name: &str, price: u32) -> Item {
    Item::new(t, name.to_string(), price)
}

#[test]
fn new_inventory_is_empty() {
    let inv = Inventory::new(1000);
    assert_eq!(inv.money, 1000);
    assert!(inv.items.is_empty());
}

#[test]
fn loot_items_by_enemy() {
    let bone = generate_loot_item(EnemyT::RSkeleton);
    assert_eq!(bone.name, "Bone");
    assert_eq!(bone.price, 100);
    assert_eq!(bone.item_type, ItemType::Loot);
    assert_eq!(bone.level, 1);
    let wing = generate_loot_item(EnemyT::Bat);
    assert_eq!(wing.name, "Bat Wing");
    assert_eq!(wing.price, 100);
    let shard = generate_loot_item(EnemyT::Rock);
    assert_eq!(shard.name, "Rock Shard");
    assert_eq!(shard.price, 150);
    let nothing = generate_loot_item(EnemyT::Kraken(3));
    assert_eq!(nothing.name, "Nothing");
    assert_eq!(nothing.price, 0);
    assert_eq!(generate_loot_item(EnemyT::PoisonSkeleton).price, 0);
}

#[test]
fn remove_item_shifts_and_out_of_range_is_none() {
    let mut inv = Inventory::new(0);
    inv.add_item(item(ItemType::Sword, "Cutlass", 50));
    inv.add_item(item(ItemType::Loot, "Bone", 100));
    inv.add_item(item(ItemType::Loot, "Rock Shard", 150));
    let removed = inv.remove_item(1).unwrap();
    assert_eq!(removed.name, "Bone");
    assert_eq!(inv.items.len(), 2);
    assert_eq!(inv.items[1].name, "Rock Shard");
    assert!(inv.remove_item(2).is_none());
    assert_eq!(inv.items.len(), 2);
}

#[test]
fn add_then_remove_last_restores() {
    let mut inv = Inventory::new(7);
    inv.add_item(item(ItemType::Dagger, "Dirk", 10));
    inv.add_item(item(ItemType::Loot, "Bone", 100));
    let back = inv.remove_item(1).unwrap();
    assert_eq!(back.name, "Bone");
    assert_eq!(inv.items.len(), 1);
    assert_eq!(inv.items[0].name, "Dirk");
    assert_eq!(inv.money, 7);
}

#[test]
fn upgrade_raises_first_item_of_type() {
    let mut inv = Inventory::new(0);
    inv.add_item(item(ItemType::Loot, "Bone", 100));
    inv.add_item(item(ItemType::Sword, "Cutlass", 50));
    inv.add_item(item(ItemType::Sword, "Sabre", 80));
    assert!(inv.find_and_upgrade_item(ItemType::Sword));
    assert_eq!(inv.items[1].level, 2);
    assert_eq!(inv.items[2].level, 1);
    assert!(!inv.find_and_upgrade_item(ItemType::Musket));
    assert_eq!(inv.items[0].level, 1);
}

#[test]
fn shop_listings() {
    let mut inv = Inventory::new(0);
    inv.add_item(item(ItemType::Loot, "Bone", 100));
    inv.add_item(item(ItemType::Sword, "Cutlass", 50));
    inv.add_item(item(ItemType::Loot, "Bat Wing", 100));
    inv.add_item(item(ItemType::Musket, "Musket", 120));
    inv.add_item(item(ItemType::Pistol, "Pistol", 90));
    assert_eq!(inv.item_indices(ItemCategory::Weapons), vec![1, 3, 4]);
    assert_eq!(inv.item_indices(ItemCategory::Sellable), vec![0, 2]);
    assert!(Inventory::new(3).item_indices(ItemCategory::Weapons).is_empty());
}

#[test]
fn buttons_turn_pages_or_send_requests() {
    assert_eq!(button_action(ShopButton::Sell), ButtonAction::ShowPage(ShopPage::Sell));
    assert_eq!(button_action(ShopButton::ShipUpgrades), ButtonAction::ShowPage(ShopPage::ShipUpgrades));
    assert_eq!(button_action(ShopButton::PlayerUpgrades), ButtonAction::ShowPage(ShopPage::PlayerUpgrades));
    assert_eq!(button_action(ShopButton::UpgradeItem(4)), ButtonAction::Send(ShopEvent::Upgrade(4)));
    assert_eq!(button_action(ShopButton::SellItem(2)), ButtonAction::Send(ShopEvent::Sell(2)));
    assert_eq!(button_action(ShopButton::UpgradeBoatCannon), ButtonAction::Send(ShopEvent::UpgradeBoatCannon));
    assert_eq!(button_action(ShopButton::UpgradePlayerHealth), ButtonAction::Send(ShopEvent::UpgradePlayerHealth));
}

fn setup() -> (Player, Boat) {
    let mut p = Player::new(3, 1000);
    p.inventory.add_item(item(ItemType::Sword, "Cutlass", 300));
    p.inventory.add_item(item(ItemType::Loot, "Bone", 101));
    (p, Boat::new(0))
}

#[test]
fn upgrading_an_item_costs_its_price() {
    let (mut p, mut b) = setup();
    let out = handle_shop_event(ShopEvent::Upgrade(0), &mut p, &mut b, &prices());
    assert_eq!(out, ShopOutcome::ItemUpgraded(ItemType::Sword));
    assert_eq!(p.inventory.money, 700);
    assert_eq!(p.inventory.items[0].level, 2);
}

#[test]
fn upgrading_the_second_of_a_type_raises_the_first() {
    let (mut p, mut b) = setup();
    p.inventory.add_item(item(ItemType::Sword, "Sabre", 10));
    let out = handle_shop_event(ShopEvent::Upgrade(2), &mut p, &mut b, &prices());
    assert_eq!(out, ShopOutcome::ItemUpgraded(ItemType::Sword));
    assert_eq!(p.inventory.money, 990);
    assert_eq!(p.inventory.items[0].level, 2);
    assert_eq!(p.inventory.items[2].level, 1);
}

#[test]
fn unaffordable_or_missing_item_changes_nothing() {
    let (mut p, mut b) = setup();
    p.inventory.money = 299;
    assert_eq!(handle_shop_event(ShopEvent::Upgrade(0), &mut p, &mut b, &prices()), ShopOutcome::Ignored);
    assert_eq!(p.inventory.money, 299);
    assert_eq!(p.inventory.items[0].level, 1);
    assert_eq!(handle_shop_event(ShopEvent::Upgrade(9), &mut p, &mut b, &prices()), ShopOutcome::Ignored);
    assert_eq!(handle_shop_event(ShopEvent::Sell(9), &mut p, &mut b, &prices()), ShopOutcome::Ignored);
    assert_eq!(p.inventory.money, 299);
    assert_eq!(p.inventory.items.len(), 2);
}

#[test]
fn selling_pays_half_rounded_down() {
    let (mut p, mut b) = setup();
    let out = handle_shop_event(ShopEvent::Sell(1), &mut p, &mut b, &prices());
    assert_eq!(out, ShopOutcome::ItemSold);
    assert_eq!(p.inventory.money, 1050);
    assert_eq!(p.inventory.items.len(), 1);
    assert_eq!(p.inventory.items[0].name, "Cutlass");
}

#[test]
fn health_upgrades() {
    let (mut p, mut b) = setup();
    p.health = 1;
    assert_eq!(handle_shop_event(ShopEvent::UpgradePlayerHealth, &mut p, &mut b, &prices()), ShopOutcome::PlayerHealthUpgraded);
    assert_eq!((p.health, p.max_health, p.inventory.money), (4, 4, 900));
    b.health = 2;
    assert_eq!(handle_shop_event(ShopEvent::UpgradeBoatHealth, &mut p, &mut b, &prices()), ShopOutcome::BoatHealthUpgraded);
    assert_eq!((b.health, b.max_health, p.inventory.money), (30, 30, 600));
}

#[test]
fn boat_upgrades_report_and_charge() {
    let (mut p, mut b) = setup();
    assert_eq!(handle_shop_event(ShopEvent::UpgradeBoatSpeed, &mut p, &mut b, &prices()), ShopOutcome::BoatSpeedUpgraded);
    assert_eq!(handle_shop_event(ShopEvent::UpgradeBoatRotation, &mut p, &mut b, &prices()), ShopOutcome::BoatRotationUpgraded);
    assert_eq!(handle_shop_event(ShopEvent::UpgradeBoatCannon, &mut p, &mut b, &prices()), ShopOutcome::BoatCannonUpgraded);
    assert_eq!(p.inventory.money, 400);
    assert_eq!(handle_shop_event(ShopEvent::UpgradeBoatCannon, &mut p, &mut b, &prices()), ShopOutcome::BoatCannonUpgraded);
    assert_eq!(p.inventory.money, 150);
    assert_eq!(handle_shop_event(ShopEvent::UpgradeBoatSpeed, &mut p, &mut b, &prices()), ShopOutcome::Ignored);
    assert_eq!(p.inventory.money, 150);
    assert_eq!((b.health, b.max_health), (5, 5));
}

#[test]
fn requests_that_would_overflow_are_recognised() {
    let (mut p, mut b) = setup();
    assert!(shop_event_fits_check(ShopEvent::Upgrade(0), &p, &b));
    assert!(shop_event_fits_check(ShopEvent::Upgrade(7), &p, &b));
    p.inventory.items[0].level = u32::MAX;
    assert!(!shop_event_fits_check(ShopEvent::Upgrade(0), &p, &b));
    assert!(shop_event_fits_check(ShopEvent::Sell(1), &p, &b));
    p.inventory.money = u32::MAX - 50;
    assert!(shop_event_fits_check(ShopEvent::Sell(1), &p, &b));
    p.inventory.money = u32::MAX - 49;
    assert!(!shop_event_fits_check(ShopEvent::Sell(1), &p, &b));
    p.max_health = i32::MAX;
    assert!(!shop_event_fits_check(ShopEvent::UpgradePlayerHealth, &p, &b));
    b.max_health = i32::MAX - 25;
    assert!(shop_event_fits_check(ShopEvent::UpgradeBoatHealth, &p, &b));
    b.max_health = i32::MAX - 24;
    assert!(!shop_event_fits_check(ShopEvent::UpgradeBoatHealth, &p, &b));
    assert!(shop_event_fits_check(ShopEvent::UpgradeBoatSpeed, &p, &b));
}

fn stocked_inventory() -> Inventory {
    let mut inv = Inventory::new(1000);
    inv.add_item(item(ItemType::Sword, "Cutlass", 300));
    inv.add_item(item(ItemType::Loot, "Bone", 101));
    inv.add_item(item(ItemType::Pistol, "Flintlock", 250));
    inv.add_item(item(ItemType::Loot, "Rock Shard", 150));
    inv
}

#[test]
fn player_upgrade_page_lists_weapons_then_health() {
    let inv = stocked_inventory();
    let entries = shop_page_entries(ShopPage::PlayerUpgrades, &inv, &prices());
    assert_eq!(
        entries,
        vec![
            ShopEntry { button: ShopButton::UpgradeItem(0), amount: 300 },
            ShopEntry { button: ShopButton::UpgradeItem(2), amount: 250 },
            ShopEntry { button: ShopButton::UpgradePlayerHealth, amount: 100 },
        ]
    );
}

#[test]
fn ship_upgrade_page_lists_the_four_boat_upgrades() {
    let inv = stocked_inventory();
    let entries = shop_page_entries(ShopPage::ShipUpgrades, &inv, &prices());
    assert_eq!(
        entries,
        vec![
            ShopEntry { button: ShopButton::UpgradeBoatSpeed, amount: 200 },
            ShopEntry { button: ShopButton::UpgradeBoatHealth, amount: 300 },
            ShopEntry { button: ShopButton::UpgradeBoatRotation, amount: 150 },
            ShopEntry { button: ShopButton::UpgradeBoatCannon, amount: 250 },
        ]
    );
}

#[test]
fn sell_page_lists_loot_at_half_price() {
    let inv = stocked_inventory();
    let entries = shop_page_entries(ShopPage::Sell, &inv, &prices());
    assert_eq!(
        entries,
        vec![
            ShopEntry { button: ShopButton::SellItem(1), amount: 50 },
            ShopEntry { button: ShopButton::SellItem(3), amount: 75 },
        ]
    );
    let empty = Inventory::new(0);
    assert!(shop_page_entries(ShopPage::Sell, &empty, &prices()).is_empty());
}

#[test]
fn sale_credits_the_amount_shown() {
    let (mut p, mut b) = setup();
    p.inventory = stocked_inventory();
    let entries = shop_page_entries(ShopPage::Sell, &p.inventory, &prices());
    let shown = entries[1];
    let event = match button_action(shown.button) {
        ButtonAction::Send(e) => e,
        ButtonAction::ShowPage(_) => panic!("a sale button sends a request"),
    };
    let before = p.inventory.money;
    assert_eq!(handle_shop_event(event, &mut p, &mut b, &prices()), ShopOutcome::ItemSold);
    assert_eq!(p.inventory.money, before + shown.amount);
}

#[test]
fn upgrade_charges_the_amount_shown() {
    let (mut p, mut b) = setup();
    p.inventory = stocked_inventory();
    let entries = shop_page_entries(ShopPage::PlayerUpgrades, &p.inventory, &prices());
    let shown = entries[1];
    let event = match button_action(shown.button) {
        ButtonAction::Send(e) => e,
        ButtonAction::ShowPage(_) => panic!("an upgrade button sends a request"),
    };
    let before = p.inventory.money;
    assert_eq!(handle_shop_event(event, &mut p, &mut b, &prices()), ShopOutcome::ItemUpgraded(ItemType::Pistol));
    assert_eq!(p.inventory.money, before - shown.amount);
    assert_eq!(p.inventory.items[2].level, 2);
}

#[test]
fn requests_are_carried_out_in_order() {
    let (mut p, mut b) = setup();
    let events = vec![ShopEvent::Sell(1), ShopEvent::Upgrade(0), ShopEvent::UpgradePlayerHealth, ShopEvent::Upgrade(9)];
    let outcomes = handle_shop_events(&events, &mut p, &mut b, &prices());
    assert_eq!(
        outcomes,
        vec![
            ShopOutcome::ItemSold,
            ShopOutcome::ItemUpgraded(ItemType::Sword),
            ShopOutcome::PlayerHealthUpgraded,
            ShopOutcome::Ignored,
        ]
    );
    assert_eq!(p.inventory.money, 1000 + 50 - 300 - 100);
    assert_eq!(p.inventory.items.len(), 1);
    assert_eq!(p.inventory.items[0].level, 2);
    assert_eq!(p.max_health, 4);
}

#[test]
fn requests_stop_before_one_that_would_overflow() {
    let (mut p, mut b) = setup();
    p.inventory.money = u32::MAX - 10;
    let outcomes = handle_shop_events(&vec![ShopEvent::Sell(1)], &mut p, &mut b, &prices());
    assert!(outcomes.is_empty());
    assert_eq!(p.inventory.money, u32::MAX - 10);
    assert_eq!(p.inventory.items.len(), 2);

    let events = vec![ShopEvent::UpgradeBoatSpeed, ShopEvent::Sell(1)];
    let outcomes = handle_shop_events(&events, &mut p, &mut b, &prices());
    assert_eq!(outcomes, vec![ShopOutcome::BoatSpeedUpgraded, ShopOutcome::ItemSold]);
    assert_eq!(p.inventory.money, u32::MAX - 10 - 200 + 50);
}

#[test]
fn gold_never_rises_without_sales() {
    let (mut p, mut b) = setup();
    let events = vec![
        ShopEvent::Upgrade(0),
        ShopEvent::UpgradeBoatHealth,
        ShopEvent::UpgradeBoatCannon,
        ShopEvent::Upgrade(0),
        ShopEvent::UpgradePlayerHealth,
    ];
    let outcomes = handle_shop_events(&events, &mut p, &mut b, &prices());
    assert_eq!(outcomes.len(), events.len());
    assert!(p.inventory.money <= 1000);
    // 300 + 300 + 250 leave 150: the second sword upgrade is refused.
    assert_eq!(outcomes[3], ShopOutcome::Ignored);
    assert_eq!(p.inventory.money, 50);
}
