use vstd::prelude::*;

verus! {

/// The upgrades sold in the shop.
#[derive(Clone, Copy, Debug, PartialEq, Eq, Hash, Structural)]
pub enum UpgradeId {
    AttackBoost,
    HealthBoost,
    SpeedBoost,
}

/// What the shop keeps between runs: currency and the upgrades owned.
pub struct ShopData {
    pub currency: u32,
    pub owned_upgrades: Vec<UpgradeId>,
}

impl ShopData {
    /// No currency and no upgrade.
    pub fn default() -> (d: ShopData)
        ensures
            d.currency == 0,
            d.owned_upgrades@.len() == 0,
    {
        ShopData { currency: 0, owned_upgrades: Vec::new() }
    }
}

/// The shop: spends currency on upgrades, each bought at most once.
pub struct ShopManager {
    data: ShopData,
}

impl ShopManager {
    /// The currency held.
    pub closed spec fn balance(&self) -> u32 {
        self.data.currency
    }

    /// The upgrades owned, in the order they were bought.
    pub closed spec fn owned(&self) -> Seq<UpgradeId> {
        self.data.owned_upgrades@
    }

    /// A shop holding `data` (as loaded from the player's files).
    pub fn with_data(data: ShopData) -> (s: ShopManager)
        ensures
            s.balance() == data.currency,
            s.owned() == data.owned_upgrades@,
    {
        ShopManager { data }
    }

    /// What the shop holds, to be saved.
    pub fn data(&self) -> (d: &ShopData)
        ensures
            d.currency == self.balance(),
            d.owned_upgrades@ == self.owned(),
    {
        &self.data
    }

    /// The currency held.
    pub fn currency(&self) -> (c: u32)
        ensures
            c == self.balance(),
    {
        self.data.currency
    }

    /// Adds currency, saturating at `u32::MAX`.
    pub fn add_currency(&mut self, amount: u32)
        ensures
            final(self).balance() == if old(self).balance() + amount > u32::MAX {
                u32::MAX as int
            } else {
                old(self).balance() + amount
            },
            final(self).owned() == old(self).owned(),
    {
        self.data.currency = self.data.currency.saturating_add(amount);
    }

    /// Buys `upgrade` for `cost`: refused, changing nothing, when it is
    /// already owned or the currency does not cover the cost; otherwise the
    /// cost is paid and the upgrade is owned.
    pub fn try_purchase(&mut self, upgrade: UpgradeId, cost: u32) -> (bought: bool)
        ensures
            purchase_outcome(*old(self), *final(self), upgrade, cost, bought),
    {
        if self.has_upgrade(upgrade) {
            return false;
        }
        if self.data.currency < cost {
            return false;
        }
        self.data.currency = self.data.currency - cost;
        self.data.owned_upgrades.push(upgrade);
        true
    }

    /// Whether `upgrade` is owned.
    pub fn has_upgrade(&self, upgrade: UpgradeId) -> (r: bool)
        ensures
            r == self.owned().contains(upgrade),
    {
        let mut i: usize = 0;
        while i < self.data.owned_upgrades.len()
            invariant
                0 <= i <= self.data.owned_upgrades@.len(),
                forall|j: int| 0 <= j < i ==> self.data.owned_upgrades@[j] != upgrade,
            decreases self.data.owned_upgrades@.len() - i,
        {
            if self.data.owned_upgrades[i] == upgrade {
                assert(self.owned().contains(upgrade));
                return true;
            }
            i = i + 1;
        }
        false
    }

    /// The upgrades owned, in the order they were bought.
    pub fn owned_upgrades(&self) -> (s: &[UpgradeId])
        ensures
            s@ == self.owned(),
    {
        self.data.owned_upgrades.as_slice()
    }
}

/// The outcome of trying to buy `upgrade` for `cost`: bought exactly when it
/// is not owned yet and the balance covers the cost, in which case the cost is
/// paid and the upgrade appended; otherwise nothing changes.
pub open spec fn purchase_outcome(s0: ShopManager, s1: ShopManager, upgrade: UpgradeId, cost: u32, bought: bool) -> bool {
    &&& bought == (!s0.owned().contains(upgrade) && s0.balance() >= cost)
    &&& bought ==> s1.balance() == s0.balance() - cost && s1.owned() == s0.owned().push(upgrade)
    &&& !bought ==> s1.balance() == s0.balance() && s1.owned() == s0.owned()
}

/// An upgrade is bought at most once: of two purchases of the same upgrade,
/// whatever their prices, at most one succeeds.
pub proof fn law_upgrade_bought_once(s0: ShopManager, s1: ShopManager, s2: ShopManager, upgrade: UpgradeId,
    cost1: u32, bought1: bool, cost2: u32, bought2: bool)
    requires
        purchase_outcome(s0, s1, upgrade, cost1, bought1),
        purchase_outcome(s1, s2, upgrade, cost2, bought2),
    ensures
        !(bought1 && bought2),
{
    if bought1 {
        assert(s1.owned()[s0.owned().len() as int] == upgrade);
    }
}

/// Purchases keep the owned upgrades free of duplicates.
pub proof fn law_purchase_keeps_upgrades_distinct(s0: ShopManager, s1: ShopManager, upgrade: UpgradeId,
    cost: u32, bought: bool)
    requires
        forall|a: int, b: int| 0 <= a < b < s0.owned().len() ==> s0.owned()[a] != s0.owned()[b],
        purchase_outcome(s0, s1, upgrade, cost, bought),
    ensures
        forall|a: int, b: int| 0 <= a < b < s1.owned().len() ==> s1.owned()[a] != s1.owned()[b],
{
    if bought {
        assert forall|a: int, b: int| 0 <= a < b < s1.owned().len() implies s1.owned()[a] != s1.owned()[b] by {
            if b == s0.owned().len() {
                assert(s1.owned()[a] == s0.owned()[a]);
                assert(s0.owned().contains(s0.owned()[a]));
            }
        }
    }
}

} // verus!
