use vstd::prelude::*;

verus! {

/// The kinds of things a player can own.
#[derive(Clone, Copy, PartialEq, Eq, Structural, Debug)]
pub enum ItemType {
    Sword,
    Pistol,
    Dagger,
    Musket,
    Loot,
}

/// One owned thing: a weapon that can be upgraded, or loot that can be sold.
pub struct Item {
    pub item_type: ItemType,
    pub name: String,
    pub price: u32,
    pub level: u32,
}

/// The player's gold and belongings, in the order they were obtained.
pub struct Inventory {
    pub money: u32,
    pub items: Vec<Item>,
}

/// Weapons are listed on the upgrade page of the shop.
pub open spec fn is_weapon(t: ItemType) -> bool {
    t == ItemType::Sword || t == ItemType::Pistol || t == ItemType::Dagger || t == ItemType::Musket
}

/// Which items a listing of the shop shows.
#[derive(Clone, Copy, PartialEq, Eq, Structural, Debug)]
pub enum ItemCategory {
    Weapons,
    Sellable,
}

pub open spec fn in_category(t: ItemType, c: ItemCategory) -> bool {
    match c {
        ItemCategory::Weapons => is_weapon(t),
        ItemCategory::Sellable => t == ItemType::Loot,
    }
}

/// The indices below `n` of the items in category `c`, in increasing order.
pub open spec fn category_indices(items: Seq<Item>, c: ItemCategory, n: nat) -> Seq<usize>
    decreases n,
{
    if n == 0 {
        Seq::empty()
    } else {
        let before = category_indices(items, c, (n - 1) as nat);
        if in_category(items[n - 1].item_type, c) {
            before.push((n - 1) as usize)
        } else {
            before
        }
    }
}

/// The item upgraded by one level, all else kept.
pub open spec fn level_up(item: Item) -> Item {
    Item { item_type: item.item_type, name: item.name, price: item.price, level: (item.level + 1) as u32 }
}

/// `i` is the position of the first item of type `t`.
pub open spec fn first_of_type(items: Seq<Item>, t: ItemType, i: int) -> bool {
    &&& 0 <= i < items.len()
    &&& items[i].item_type == t
    &&& forall|j: int| 0 <= j < i ==> items[j].item_type != t
}

pub open spec fn owns_type(items: Seq<Item>, t: ItemType) -> bool {
    exists|i: int| 0 <= i < items.len() && items[i].item_type == t
}

impl Item {
    /// A new item at level one.
    pub fn new(item_type: ItemType, name: String, price: u32) -> (item: Item)
        ensures
            item.item_type == item_type,
            item.name == name,
            item.price == price,
            item.level == 1,
    {
        Item { item_type, name, price, level: 1 }
    }
}

impl Inventory {
    /// An inventory with the given gold and nothing else.
    pub fn new(money: u32) -> (inv: Inventory)
        ensures
            inv.money == money,
            inv.items@ == Seq::<Item>::empty(),
    {
        Inventory { money, items: Vec::new() }
    }

    /// Puts an item at the end of the inventory.
    pub fn add_item(&mut self, item: Item)
        ensures
            final(self).money == old(self).money,
            final(self).items@ == old(self).items@.push(item),
    {
        self.items.push(item);
    }

    /// Takes out the item at `index`, shifting the later ones down; `None`
    /// when there is no item there.
    pub fn remove_item(&mut self, index: usize) -> (removed: Option<Item>)
        ensures
            final(self).money == old(self).money,
            index < old(self).items.len() ==> removed == Some(old(self).items@[index as int])
                && final(self).items@ == old(self).items@.remove(index as int),
            index >= old(self).items.len() ==> removed is None && final(self).items@ == old(self).items@,
    {
        if index < self.items.len() {
            Some(self.items.remove(index))
        } else {
            None
        }
    }

    /// Raises by one the level of the first item of type `item_type`.
    /// Returns whether there was such an item.
    pub fn find_and_upgrade_item(&mut self, item_type: ItemType) -> (found: bool)
        requires
            forall|i: int| 0 <= i < old(self).items.len() && old(self).items@[i].item_type == item_type
                ==> old(self).items@[i].level < u32::MAX,
        ensures
            final(self).money == old(self).money,
            found == owns_type(old(self).items@, item_type),
            found ==> exists|i: int| first_of_type(old(self).items@, item_type, i)
                && final(self).items@ == old(self).items@.update(i, level_up(old(self).items@[i])),
            !found ==> final(self).items@ == old(self).items@,
    {
        let mut i: usize = 0;
        while i < self.items.len()
            invariant
                i <= self.items.len(),
                self.items@ == old(self).items@,
                self.money == old(self).money,
                forall|j: int| 0 <= j < i ==> self.items@[j].item_type != item_type,
                forall|j: int| 0 <= j < old(self).items.len() && old(self).items@[j].item_type == item_type
                    ==> old(self).items@[j].level < u32::MAX,
            decreases self.items.len() - i,
        {
            if self.items[i].item_type == item_type {
                let level = self.items[i].level;
                self.items[i].level = level + 1;
                assert(first_of_type(old(self).items@, item_type, i as int));
                assert(self.items@ =~= old(self).items@.update(i as int, level_up(old(self).items@[i as int])));
                return true;
            }
            i = i + 1;
        }
        false
    }

    /// The positions of the items in category `c`, in increasing order.
    pub fn item_indices(&self, c: ItemCategory) -> (indices: Vec<usize>)
        ensures
            indices@ == category_indices(self.items@, c, self.items@.len()),
    {
        let mut indices: Vec<usize> = Vec::new();
        let mut i: usize = 0;
        while i < self.items.len()
            invariant
                i <= self.items.len(),
                indices@ == category_indices(self.items@, c, i as nat),
            decreases self.items.len() - i,
        {
            let t = self.items[i].item_type;
            let wanted = match c {
                ItemCategory::Weapons => t == ItemType::Sword || t == ItemType::Pistol || t == ItemType::Dagger
                    || t == ItemType::Musket,
                ItemCategory::Sellable => t == ItemType::Loot,
            };
            if wanted {
                indices.push(i);
            }
            i = i + 1;
        }
        indices
    }
}

/// A shop listing shows exactly the items of its category: every listed
/// position holds such an item, positions are listed in increasing order, and
/// every such item is listed.
pub proof fn lemma_category_indices_exact(items: Seq<Item>, c: ItemCategory, n: nat)
    requires
        n <= items.len(),
        n <= usize::MAX,
    ensures
        forall|k: int| 0 <= k < category_indices(items, c, n).len() ==> {
            let i = #[trigger] category_indices(items, c, n)[k];
            i < n && in_category(items[i as int].item_type, c)
        },
        forall|k1: int, k2: int| 0 <= k1 < k2 < category_indices(items, c, n).len()
            ==> category_indices(items, c, n)[k1] < category_indices(items, c, n)[k2],
        forall|i: int| 0 <= i < n && in_category(#[trigger] items[i].item_type, c)
            ==> category_indices(items, c, n).contains(i as usize),
    decreases n,
{
    if n > 0 {
        lemma_category_indices_exact(items, c, (n - 1) as nat);
        let before = category_indices(items, c, (n - 1) as nat);
        if in_category(items[n - 1].item_type, c) {
            assert(category_indices(items, c, n) == before.push((n - 1) as usize));
            assert forall|i: int| 0 <= i < n && in_category(#[trigger] items[i].item_type, c)
                implies category_indices(items, c, n).contains(i as usize) by {
                if i < n - 1 {
                    let k = choose|k: int| 0 <= k < before.len() && before[k] == i as usize;
                    assert(category_indices(items, c, n)[k] == i as usize);
                } else {
                    assert(category_indices(items, c, n)[before.len() as int] == i as usize);
                }
            }
        }
    }
}

/// Putting an item into the inventory and taking out the last one gives
/// back that item and leaves the inventory as it was.
pub proof fn lemma_add_then_remove_last(items: Seq<Item>, item: Item)
    ensures
        items.push(item)[items.len() as int] == item,
        items.push(item).remove(items.len() as int) == items,
{
    assert(items.push(item).remove(items.len() as int) =~= items);
}

/// An upgrade raises an item's level by exactly one and keeps its type, name
/// and price.
pub proof fn lemma_level_up_adds_one(item: Item)
    requires
        item.level < u32::MAX,
    ensures
        level_up(item).level == item.level + 1,
        level_up(item).item_type == item.item_type,
        level_up(item).name == item.name,
        level_up(item).price == item.price,
{
}

/// The upgrade page lists the four weapons and never loot; the sale page
/// lists loot and never a weapon.
pub proof fn lemma_categories(t: ItemType)
    ensures
        in_category(t, ItemCategory::Sellable) <==> t == ItemType::Loot,
        in_category(t, ItemCategory::Weapons) <==> t != ItemType::Loot,
        !(in_category(t, ItemCategory::Weapons) && in_category(t, ItemCategory::Sellable)),
{
}

} // verus!
