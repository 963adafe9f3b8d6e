use vstd::prelude::*;
use vstd::string::StringExecFns;
use crate::data::characters::{CharacterId, char_index, debug_name_of, CHARACTER_COUNT};

verus! {

/// What a skill node grants per level. Each magnitude is a whole number in
/// the unit named beside the variant (percent points unless noted).
#[derive(Debug)]
pub enum SkillType {
    DamageIncrease(u32),
    CriticalChance(u32),
    CriticalDamage(u32),
    AttackSpeed(u32),
    /// Extra hits in combo chains.
    ComboExtension(u32),
    AreaOfEffect(u32),
    Penetration(u32),
    MaxHealthIncrease(u32),
    DamageReduction(u32),
    DodgeChance(u32),
    BlockEfficiency(u32),
    /// Health points regenerated per second.
    HealthRegen(u32),
    Thorns(u32),
    Resistance(u32),
    MovementSpeed(u32),
    CooldownReduction(u32),
    AbilityDuration(u32),
    ResourceGain(u32),
    Lifesteal(u32),
    Multicast(u32),
    LuckBonus(u32),
    /// Unlocks the named ability.
    UnlockAbility(String),
    PassiveBuff(String, u32),
    SynergyBoost(String, u32),
}

/// One node of a skill tree.
pub struct SkillNode {
    pub id: String,
    pub name: String,
    pub description: String,
    /// 1 to 5; higher tiers sit deeper in a branch.
    pub tier: u32,
    pub max_level: u32,
    pub current_level: u32,
    pub skill_point_cost: u32,
    /// Ids of the nodes that must have a level before this one can be raised.
    pub prerequisites: Vec<String>,
    pub skill_type: SkillType,
    pub unlocked: bool,
}

/// A named branch of nodes.
pub struct SkillBranch {
    pub name: String,
    pub description: String,
    pub nodes: Vec<SkillNode>,
}

/// The skill tree of one character: three specialisation branches.
pub struct SkillTree {
    pub character: CharacterId,
    pub branch_offense: SkillBranch,
    pub branch_defense: SkillBranch,
    pub branch_utility: SkillBranch,
}

/// Skill trees and unspent skill points of every character.
pub struct SkillTreeManager {
    trees: Vec<Option<SkillTree>>,
    skill_points: Vec<u32>,
}

// ---------------------------------------------------------------------------
// Model
// ---------------------------------------------------------------------------

impl SkillTree {
    /// All nodes of the tree, offense branch first, then defense, then utility.
    pub open spec fn nodes(self) -> Seq<SkillNode> {
        self.branch_offense.nodes@ + self.branch_defense.nodes@ + self.branch_utility.nodes@
    }

    /// Two trees that differ at most in the contents of their nodes.
    pub open spec fn same_shape(self, other: SkillTree) -> bool {
        &&& self.character == other.character
        &&& self.branch_offense.name@ == other.branch_offense.name@
        &&& self.branch_offense.description@ == other.branch_offense.description@
        &&& self.branch_defense.name@ == other.branch_defense.name@
        &&& self.branch_defense.description@ == other.branch_defense.description@
        &&& self.branch_utility.name@ == other.branch_utility.name@
        &&& self.branch_utility.description@ == other.branch_utility.description@
        &&& self.branch_offense.nodes@.len() == other.branch_offense.nodes@.len()
        &&& self.branch_defense.nodes@.len() == other.branch_defense.nodes@.len()
        &&& self.branch_utility.nodes@.len() == other.branch_utility.nodes@.len()
    }
}

/// First position at or after `i` whose node has the id `id`.
pub open spec fn find_from(nodes: Seq<SkillNode>, id: Seq<char>, i: int) -> Option<int>
    decreases nodes.len() - i,
{
    if i < 0 || i >= nodes.len() {
        None
    } else if nodes[i].id@ == id {
        Some(i)
    } else {
        find_from(nodes, id, i + 1)
    }
}

/// First position whose node has the id `id`.
pub open spec fn find_node(nodes: Seq<SkillNode>, id: Seq<char>) -> Option<int> {
    find_from(nodes, id, 0)
}

/// A prerequisite blocks when a node with its id exists and has no level yet.
/// A prerequisite that names no node does not block.
pub open spec fn prereq_blocks(nodes: Seq<SkillNode>, p: Seq<char>) -> bool {
    match find_node(nodes, p) {
        Some(j) => nodes[j].current_level == 0,
        None => false,
    }
}

/// First prerequisite, at or after position `i`, that blocks.
pub open spec fn first_blocking_from(nodes: Seq<SkillNode>, prereqs: Seq<String>, i: int) -> Option<int>
    decreases prereqs.len() - i,
{
    if i < 0 || i >= prereqs.len() {
        None
    } else if prereq_blocks(nodes, prereqs[i]@) {
        Some(i)
    } else {
        first_blocking_from(nodes, prereqs, i + 1)
    }
}

/// Skill points locked in a sequence of nodes: cost times level, summed.
pub open spec fn spent_in(nodes: Seq<SkillNode>) -> int
    decreases nodes.len(),
{
    if nodes.len() == 0 {
        0
    } else {
        spent_in(nodes.drop_last()) + nodes.last().skill_point_cost * nodes.last().current_level
    }
}

/// Skill points locked in a tree.
pub open spec fn spent(tree: SkillTree) -> int {
    spent_in(tree.nodes())
}

/// A node after one more level has been bought.
pub open spec fn raised(n: SkillNode) -> SkillNode {
    SkillNode { current_level: (n.current_level + 1) as u32, unlocked: true, ..n }
}

/// A node after its tree has been reset: no level, and locked again unless
/// it sits in the first tier.
pub open spec fn reset_node(n: SkillNode) -> SkillNode {
    SkillNode { current_level: 0, unlocked: if n.tier > 1 { false } else { n.unlocked }, ..n }
}

/// Why raising the node `id` of `tree` with `points` available fails, as the
/// message that reports it; `None` when it succeeds.
pub open spec fn unlock_error(tree: SkillTree, points: u32, id: Seq<char>) -> Option<Seq<char>> {
    let nodes = tree.nodes();
    match find_node(nodes, id) {
        None => Some("Skill "@ + id + " not found"@),
        Some(k) => {
            let n = nodes[k];
            if n.current_level >= n.max_level {
                Some("Skill already at max level"@)
            } else {
                match first_blocking_from(nodes, n.prerequisites@, 0) {
                    Some(b) => Some("Prerequisite "@ + n.prerequisites@[b]@ + " not unlocked"@),
                    None => if points < n.skill_point_cost {
                        Some("Not enough skill points"@)
                    } else {
                        None
                    },
                }
            }
        }
    }
}

impl SkillTreeManager {
    /// The skill tree of a character, if it has one.
    pub closed spec fn tree_of(&self, c: CharacterId) -> Option<SkillTree> {
        self.trees@[char_index(c)]
    }

    /// The unspent skill points of a character.
    pub closed spec fn points_of(&self, c: CharacterId) -> u32 {
        self.skill_points@[char_index(c)]
    }

    /// One tree slot and one point counter per playable character.
    pub closed spec fn wf(&self) -> bool {
        &&& self.trees@.len() == CHARACTER_COUNT
        &&& self.skill_points@.len() == CHARACTER_COUNT
    }

    /// `after` is `before` with one more level bought in node `id` of `c`'s tree.
    pub open spec fn raised_from(before: &SkillTreeManager, after: &SkillTreeManager, c: CharacterId, id: Seq<char>) -> bool {
        &&& before.tree_of(c) is Some
        &&& after.tree_of(c) is Some
        &&& {
            let t0 = before.tree_of(c)->0;
            let t1 = after.tree_of(c)->0;
            let k = find_node(t0.nodes(), id)->0;
            &&& unlock_error(t0, before.points_of(c), id) is None
            &&& find_node(t0.nodes(), id) is Some
            &&& t1.same_shape(t0)
            &&& t1.nodes() == t0.nodes().update(k, raised(t0.nodes()[k]))
            &&& after.points_of(c) == before.points_of(c) - t0.nodes()[k].skill_point_cost
        }
        &&& forall|d: CharacterId| d != c ==> after.tree_of(d) == before.tree_of(d) && after.points_of(d) == before.points_of(d)
    }

    /// `after` is `before` with the tree of `c` reset and `refund` points given back.
    pub open spec fn reset_from(before: &SkillTreeManager, after: &SkillTreeManager, c: CharacterId, refund: u32) -> bool {
        &&& match before.tree_of(c) {
            Some(t0) => {
                &&& after.tree_of(c) is Some
                &&& after.tree_of(c)->0.same_shape(t0)
                &&& after.tree_of(c)->0.nodes() == t0.nodes().map_values(|n: SkillNode| reset_node(n))
                &&& refund == spent(t0)
            },
            None => after.tree_of(c) is None && refund == 0,
        }
        &&& after.points_of(c) == before.points_of(c) + refund
        &&& forall|d: CharacterId| d != c ==> after.tree_of(d) == before.tree_of(d) && after.points_of(d) == before.points_of(d)
    }
}

// ---------------------------------------------------------------------------
// Lemmas on the model
// ---------------------------------------------------------------------------

proof fn lemma_find_from_shift(a: Seq<SkillNode>, b: Seq<SkillNode>, id: Seq<char>, j: int)
    requires
        0 <= j <= b.len(),
    ensures
        find_from(a + b, id, a.len() + j) == match find_from(b, id, j) {
            Some(k) => Some(k + a.len()),
            None => None,
        },
    decreases b.len() - j,
{
    if j < b.len() {
        assert((a + b)[a.len() + j] == b[j]);
        lemma_find_from_shift(a, b, id, j + 1);
    }
}

proof fn lemma_find_from_concat(a: Seq<SkillNode>, b: Seq<SkillNode>, id: Seq<char>, i: int)
    requires
        0 <= i <= a.len(),
    ensures
        find_from(a + b, id, i) == match find_from(a, id, i) {
            Some(k) => Some(k),
            None => match find_from(b, id, 0) {
                Some(k) => Some(k + a.len()),
                None => None,
            },
        },
    decreases a.len() - i,
{
    if i < a.len() {
        assert((a + b)[i] == a[i]);
        lemma_find_from_concat(a, b, id, i + 1);
    } else {
        lemma_find_from_shift(a, b, id, 0);
    }
}

proof fn lemma_find_from_found(nodes: Seq<SkillNode>, id: Seq<char>, i: int)
    requires
        find_from(nodes, id, i) is Some,
    ensures
        0 <= find_from(nodes, id, i)->0 < nodes.len(),
        nodes[find_from(nodes, id, i)->0].id@ == id,
    decreases nodes.len() - i,
{
    if 0 <= i < nodes.len() && nodes[i].id@ != id {
        lemma_find_from_found(nodes, id, i + 1);
    }
}

proof fn lemma_spent_concat(a: Seq<SkillNode>, b: Seq<SkillNode>)
    ensures
        spent_in(a + b) == spent_in(a) + spent_in(b),
    decreases b.len(),
{
    if b.len() == 0 {
        assert(a + b =~= a);
    } else {
        assert((a + b).drop_last() =~= a + b.drop_last());
        lemma_spent_concat(a, b.drop_last());
    }
}

proof fn lemma_spent_nonneg(s: Seq<SkillNode>)
    ensures
        spent_in(s) >= 0,
    decreases s.len(),
{
    if s.len() > 0 {
        lemma_spent_nonneg(s.drop_last());
        assert(s.last().skill_point_cost * s.last().current_level >= 0) by (nonlinear_arith);
    }
}

proof fn lemma_raise_cost(n: SkillNode)
    requires
        n.current_level < u32::MAX,
    ensures
        raised(n).skill_point_cost * raised(n).current_level
            == n.skill_point_cost * n.current_level + n.skill_point_cost,
{
    let c = n.skill_point_cost as int;
    let l = n.current_level as int;
    assert(c * (l + 1) == c * l + c) by (nonlinear_arith);
}

proof fn lemma_spent_update(s: Seq<SkillNode>, k: int, x: SkillNode)
    requires
        0 <= k < s.len(),
    ensures
        spent_in(s.update(k, x)) == spent_in(s) - s[k].skill_point_cost * s[k].current_level
            + x.skill_point_cost * x.current_level,
    decreases s.len(),
{
    if k == s.len() - 1 {
        assert(s.update(k, x).drop_last() =~= s.drop_last());
    } else {
        assert(s.update(k, x).drop_last() =~= s.drop_last().update(k, x));
        lemma_spent_update(s.drop_last(), k, x);
    }
}

proof fn lemma_spent_take(s: Seq<SkillNode>, i: int)
    requires
        0 <= i < s.len(),
    ensures
        spent_in(s.take(i + 1)) == spent_in(s.take(i)) + s[i].skill_point_cost * s[i].current_level,
{
    assert(s.take(i + 1).drop_last() =~= s.take(i));
}

proof fn lemma_spent_prefix_le(s: Seq<SkillNode>, i: int)
    requires
        0 <= i <= s.len(),
    ensures
        spent_in(s.take(i)) <= spent_in(s),
{
    assert(s =~= s.take(i) + s.skip(i));
    lemma_spent_concat(s.take(i), s.skip(i));
    lemma_spent_nonneg(s.skip(i));
}

proof fn lemma_spent_reset(s: Seq<SkillNode>)
    ensures
        spent_in(s.map_values(|n: SkillNode| reset_node(n))) == 0,
    decreases s.len(),
{
    if s.len() > 0 {
        let m = s.map_values(|n: SkillNode| reset_node(n));
        assert(m.last() == reset_node(s.last()));
        assert(m.last().current_level == 0);
        assert(s.map_values(|n: SkillNode| reset_node(n)).drop_last()
            =~= s.drop_last().map_values(|n: SkillNode| reset_node(n)));
        lemma_spent_reset(s.drop_last());
    }
}

// ---------------------------------------------------------------------------
// Executable code
// ---------------------------------------------------------------------------

/// Position of the first node of `nodes` whose id is `key`.
fn find_in(nodes: &Vec<SkillNode>, key: &String) -> (r: Option<usize>)
    ensures
        match r {
            Some(k) => find_from(nodes@, key@, 0) == Some(k as int) && k < nodes@.len(),
            None => find_from(nodes@, key@, 0) is None,
        },
{
    let mut i: usize = 0;
    while i < nodes.len()
        invariant
            0 <= i <= nodes@.len(),
            find_from(nodes@, key@, 0) == find_from(nodes@, key@, i as int),
        decreases nodes@.len() - i,
    {
        if nodes[i].id == *key {
            return Some(i);
        }
        i = i + 1;
    }
    None
}

/// Branch number (0 offense, 1 defense, 2 utility) and position within it.
pub open spec fn global_position(t: SkillTree, b: usize, k: usize) -> int {
    if b == 0 {
        k as int
    } else if b == 1 {
        t.branch_offense.nodes@.len() + k
    } else {
        t.branch_offense.nodes@.len() + t.branch_defense.nodes@.len() + k
    }
}

pub open spec fn branch_len(t: SkillTree, b: usize) -> int {
    if b == 0 {
        t.branch_offense.nodes@.len() as int
    } else if b == 1 {
        t.branch_defense.nodes@.len() as int
    } else {
        t.branch_utility.nodes@.len() as int
    }
}

/// Resets every node of a branch, returning the points they held.
fn reset_branch(nodes: &mut Vec<SkillNode>) -> (refund: u32)
    requires
        spent_in(old(nodes)@) <= u32::MAX,
    ensures
        final(nodes)@ == old(nodes)@.map_values(|n: SkillNode| reset_node(n)),
        refund == spent_in(old(nodes)@),
{
    let ghost orig = nodes@;
    let mut refund: u32 = 0;
    let mut i: usize = 0;
    while i < nodes.len()
        invariant
            0 <= i <= nodes@.len(),
            nodes@.len() == orig.len(),
            spent_in(orig) <= u32::MAX,
            refund == spent_in(orig.take(i as int)),
            forall|j: int| 0 <= j < i ==> nodes@[j] == reset_node(orig[j]),
            forall|j: int| i <= j < nodes@.len() ==> nodes@[j] == orig[j],
        decreases nodes@.len() - i,
    {
        proof {
            lemma_spent_take(orig, i as int);
            lemma_spent_prefix_le(orig, i as int + 1);
            lemma_spent_nonneg(orig.take(i as int));
        }
        let cost = nodes[i].skill_point_cost;
        let level = nodes[i].current_level;
        let product = cost as u64 * level as u64;
        assert(product == orig[i as int].skill_point_cost * orig[i as int].current_level);
        refund = refund + (product as u32);
        nodes[i].current_level = 0;
        if nodes[i].tier > 1 {
            nodes[i].unlocked = false;
        }
        i = i + 1;
    }
    assert(orig.take(i as int) =~= orig);
    assert(nodes@ =~= orig.map_values(|n: SkillNode| reset_node(n)));
    refund
}

impl SkillTree {
    /// Finds a node by id: its branch number and position within the branch.
    fn locate(&self, key: &String) -> (r: Option<(usize, usize)>)
        ensures
            match r {
                Some((b, k)) => b < 3 && k < branch_len(*self, b)
                    && find_node(self.nodes(), key@) == Some(global_position(*self, b, k)),
                None => find_node(self.nodes(), key@) is None,
            },
    {
        let ghost a = self.branch_offense.nodes@;
        let ghost d = self.branch_defense.nodes@;
        let ghost u = self.branch_utility.nodes@;
        proof {
            lemma_find_from_concat(a + d, u, key@, 0);
            lemma_find_from_concat(a, d, key@, 0);
        }
        if let Some(k) = find_in(&self.branch_offense.nodes, key) {
            return Some((0, k));
        }
        if let Some(k) = find_in(&self.branch_defense.nodes, key) {
            return Some((1, k));
        }
        if let Some(k) = find_in(&self.branch_utility.nodes, key) {
            return Some((2, k));
        }
        None
    }

    /// The node at a branch number and position.
    fn node_at(&self, b: usize, k: usize) -> (n: &SkillNode)
        requires
            b < 3,
            k < branch_len(*self, b),
        ensures
            *n == self.nodes()[global_position(*self, b, k)],
    {
        if b == 0 {
            &self.branch_offense.nodes[k]
        } else if b == 1 {
            &self.branch_defense.nodes[k]
        } else {
            &self.branch_utility.nodes[k]
        }
    }

    /// Buys one level of the node at a branch number and position.
    fn raise_at(&mut self, b: usize, k: usize)
        requires
            b < 3,
            k < branch_len(*old(self), b),
            old(self).nodes()[global_position(*old(self), b, k)].current_level < u32::MAX,
        ensures
            final(self).same_shape(*old(self)),
            final(self).nodes() == old(self).nodes().update(
                global_position(*old(self), b, k),
                raised(old(self).nodes()[global_position(*old(self), b, k)]),
            ),
    {
        let ghost g = global_position(*self, b, k);
        let ghost before = self.nodes();
        if b == 0 {
            let lvl = self.branch_offense.nodes[k].current_level;
            self.branch_offense.nodes[k].current_level = lvl + 1;
            self.branch_offense.nodes[k].unlocked = true;
        } else if b == 1 {
            let lvl = self.branch_defense.nodes[k].current_level;
            self.branch_defense.nodes[k].current_level = lvl + 1;
            self.branch_defense.nodes[k].unlocked = true;
        } else {
            let lvl = self.branch_utility.nodes[k].current_level;
            self.branch_utility.nodes[k].current_level = lvl + 1;
            self.branch_utility.nodes[k].unlocked = true;
        }
        assert(self.nodes() =~= before.update(g, raised(before[g])));
    }

    /// Resets every node of the tree and returns the points they held.
    fn reset(&mut self) -> (refund: u32)
        requires
            spent(*old(self)) <= u32::MAX,
        ensures
            final(self).same_shape(*old(self)),
            final(self).nodes() == old(self).nodes().map_values(|n: SkillNode| reset_node(n)),
            refund == spent(*old(self)),
    {
        let ghost a = self.branch_offense.nodes@;
        let ghost d = self.branch_defense.nodes@;
        let ghost u = self.branch_utility.nodes@;
        proof {
            lemma_spent_concat(a + d, u);
            lemma_spent_concat(a, d);
            lemma_spent_nonneg(a);
            lemma_spent_nonneg(d);
            lemma_spent_nonneg(u);
        }
        let r1 = reset_branch(&mut self.branch_offense.nodes);
        let r2 = reset_branch(&mut self.branch_defense.nodes);
        let r3 = reset_branch(&mut self.branch_utility.nodes);
        assert(self.nodes() =~= (a + d + u).map_values(|n: SkillNode| reset_node(n)));
        r1 + r2 + r3
    }
}

fn message3(a: &str, b: &str, c: &str) -> (s: String)
    ensures
        s@ == a@ + b@ + c@,
{
    let mut s = String::from_str(a);
    s.append(b);
    s.append(c);
    s
}

impl SkillTreeManager {
    /// Buys one level of the node `skill_id` in the tree of `character`.
    ///
    /// Fails, changing nothing, when the character has no tree, when no node
    /// has that id, when the node is at its maximum level, when a
    /// prerequisite that exists in the tree has no level yet, or when the
    /// character lacks the node's cost in skill points; the error is the
    /// message that says which. On success the node gains a level and is
    /// unlocked, and its cost is taken from the character's points, so that
    /// unspent and spent points together stay the same.
    #[verifier::loop_isolation(false)]
    pub fn unlock_skill(&mut self, character: CharacterId, skill_id: &str) -> (r: Result<(), String>)
        requires
            old(self).wf(),
        ensures
            final(self).wf(),
            match old(self).tree_of(character) {
                None => r matches Err(m) && m@ == "No skill tree found for character "@ + debug_name_of(character)
                    && *final(self) == *old(self),
                Some(t) => match r {
                    Ok(()) => SkillTreeManager::raised_from(old(self), final(self), character, skill_id@),
                    Err(m) => unlock_error(t, old(self).points_of(character), skill_id@) == Some(m@)
                        && *final(self) == *old(self),
                },
            },
            r is Ok ==> final(self).points_of(character) + spent(final(self).tree_of(character)->0)
                == old(self).points_of(character) + spent(old(self).tree_of(character)->0),
    {
        let ci = character.slot();
        let available_points = self.skill_points[ci];
        let key = skill_id.to_owned();
        match &self.trees[ci] {
            None => {
                let mut m = String::from_str("No skill tree found for character ");
                m.append(character.debug_name());
                return Err(m);
            },
            Some(tree) => {
                let ghost nodes = tree.nodes();
                let (b, k) = match tree.locate(&key) {
                    Some(pos) => pos,
                    None => {
                        return Err(message3("Skill ", skill_id, " not found"));
                    },
                };
                let ghost g = global_position(*tree, b, k);
                let node = tree.node_at(b, k);
                if node.current_level >= node.max_level {
                    return Err(String::from_str("Skill already at max level"));
                }
                let prerequisites = &node.prerequisites;
                let cost = node.skill_point_cost;
                let mut i: usize = 0;
                while i < prerequisites.len()
                    invariant
                        0 <= i <= prerequisites@.len(),
                        nodes == tree.nodes(),
                        first_blocking_from(nodes, prerequisites@, 0)
                            == first_blocking_from(nodes, prerequisites@, i as int),
                    decreases prerequisites@.len() - i,
                {
                    if let Some((pb, pk)) = tree.locate(&prerequisites[i]) {
                        proof {
                            lemma_find_from_found(nodes, prerequisites@[i as int]@, 0);
                        }
                        let pn = tree.node_at(pb, pk);
                        if pn.current_level == 0 {
                            return Err(message3("Prerequisite ", prerequisites[i].as_str(), " not unlocked"));
                        }
                    }
                    i = i + 1;
                }
                if available_points < cost {
                    return Err(String::from_str("Not enough skill points"));
                }
                proof {
                    lemma_find_from_found(nodes, key@, 0);
                }
            },
        }
        let ghost old_self = *self;
        let ghost t0 = self.trees@[ci as int]->0;
        let ghost k0 = find_node(t0.nodes(), skill_id@)->0;
        let mut taken: Option<SkillTree> = None;
        std::mem::swap(&mut taken, &mut self.trees[ci]);
        let mut tree = taken.unwrap();
        let (b, k) = tree.locate(&key).unwrap();
        tree.raise_at(b, k);
        let cost = tree.node_at(b, k).skill_point_cost;
        self.trees.set(ci, Some(tree));
        self.skill_points.set(ci, available_points - cost);
        proof {
            lemma_spent_update(t0.nodes(), k0, raised(t0.nodes()[k0]));
            lemma_raise_cost(t0.nodes()[k0]);
            assert forall|d: CharacterId| d != character implies self.tree_of(d) == old_self.tree_of(d)
                && self.points_of(d) == old_self.points_of(d) by {
                assert(char_index(d) != char_index(character));
            }
        }
        Ok(())
    }

    /// Gives a character more skill points.
    pub fn add_skill_points(&mut self, character: CharacterId, points: u32)
        requires
            old(self).wf(),
            old(self).points_of(character) + points <= u32::MAX,
        ensures
            final(self).wf(),
            final(self).points_of(character) == old(self).points_of(character) + points,
            forall|c: CharacterId| final(self).tree_of(c) == old(self).tree_of(c),
            forall|d: CharacterId| d != character ==> final(self).points_of(d) == old(self).points_of(d),
    {
        let ci = character.slot();
        let current = self.skill_points[ci];
        self.skill_points.set(ci, current + points);
        proof {
            assert forall|d: CharacterId| d != character implies self.points_of(d) == old(self).points_of(d) by {
                assert(char_index(d) != char_index(character));
            }
        }
    }

    /// The unspent skill points of a character.
    pub fn get_skill_points(&self, character: CharacterId) -> (p: u32)
        requires
            self.wf(),
        ensures
            p == self.points_of(character),
    {
        self.skill_points[character.slot()]
    }

    /// The skill tree of a character, if it has one.
    pub fn get_tree(&self, character: CharacterId) -> (t: Option<&SkillTree>)
        requires
            self.wf(),
        ensures
            t is Some <==> self.tree_of(character) is Some,
            t is Some ==> *(t->0) == self.tree_of(character)->0,
    {
        self.trees[character.slot()].as_ref()
    }

    /// Resets the tree of a character and gives back every point it held,
    /// returning how many that was (none when the character has no tree).
    pub fn reset_tree(&mut self, character: CharacterId) -> (refunded: u32)
        requires
            old(self).wf(),
            old(self).tree_of(character) is Some ==>
                old(self).points_of(character) + spent(old(self).tree_of(character)->0) <= u32::MAX,
        ensures
            final(self).wf(),
            SkillTreeManager::reset_from(old(self), final(self), character, refunded),
    {
        let ci = character.slot();
        let ghost old_self = *self;
        let mut refunded: u32 = 0;
        let mut taken: Option<SkillTree> = None;
        std::mem::swap(&mut taken, &mut self.trees[ci]);
        match taken {
            Some(mut tree) => {
                proof {
                    lemma_spent_nonneg(tree.nodes());
                }
                refunded = tree.reset();
                self.trees.set(ci, Some(tree));
            },
            None => {
                self.trees.set(ci, None);
            },
        }
        let current = self.skill_points[ci];
        self.skill_points.set(ci, current + refunded);
        proof {
            assert forall|d: CharacterId| d != character implies self.tree_of(d) == old_self.tree_of(d)
                && self.points_of(d) == old_self.points_of(d) by {
                assert(char_index(d) != char_index(character));
            }
        }
        refunded
    }
}

/// Resetting a tree leaves no point spent in it, and the points it held are
/// all back among the unspent ones.
pub proof fn law_reset_returns_every_point(before: SkillTreeManager, after: SkillTreeManager, c: CharacterId, refund: u32)
    requires
        SkillTreeManager::reset_from(&before, &after, c, refund),
        before.tree_of(c) is Some,
    ensures
        spent(after.tree_of(c)->0) == 0,
        after.points_of(c) == before.points_of(c) + spent(before.tree_of(c)->0),
{
    lemma_spent_reset(before.tree_of(c)->0.nodes());
}

/// Buying a level and then resetting the tree leaves the character with the
/// points it had before the purchase plus those already spent.
pub proof fn law_unlock_then_reset(m0: SkillTreeManager, m1: SkillTreeManager, m2: SkillTreeManager,
    c: CharacterId, id: Seq<char>, refund: u32)
    requires
        SkillTreeManager::raised_from(&m0, &m1, c, id),
        SkillTreeManager::reset_from(&m1, &m2, c, refund),
    ensures
        m2.points_of(c) == m0.points_of(c) + spent(m0.tree_of(c)->0),
        spent(m2.tree_of(c)->0) == 0,
{
    let t0 = m0.tree_of(c)->0;
    let k = find_node(t0.nodes(), id)->0;
    lemma_find_from_found(t0.nodes(), id, 0);
    lemma_spent_update(t0.nodes(), k, raised(t0.nodes()[k]));
    lemma_raise_cost(t0.nodes()[k]);
    lemma_spent_reset(m1.tree_of(c)->0.nodes());
}

// ---------------------------------------------------------------------------
// Stat bonuses
// ---------------------------------------------------------------------------

/// Bonuses accumulated from the levelled nodes of a tree. Each numeric field
/// is the sum over the nodes of that kind of value times level, saturating at
/// `u64::MAX`. The game reads the percentage-style fields
/// (damage_multiplier, crit_damage, attack_speed, aoe_radius, max_health_multiplier, block_efficiency, thorns, movement_speed, ability_duration, resource_gain, luck_bonus) as hundredths and the others as they are.
pub struct SkillBonuses {
    pub damage_multiplier: u64,
    pub crit_chance: u64,
    pub crit_damage: u64,
    pub attack_speed: u64,
    pub combo_extension: u64,
    pub aoe_radius: u64,
    pub penetration: u64,
    pub max_health_multiplier: u64,
    pub damage_reduction: u64,
    pub dodge_chance: u64,
    pub block_efficiency: u64,
    pub health_regen: u64,
    pub thorns: u64,
    pub resistance: u64,
    pub movement_speed: u64,
    pub cooldown_reduction: u64,
    pub ability_duration: u64,
    pub resource_gain: u64,
    pub lifesteal: u64,
    pub multicast_chance: u64,
    pub luck_bonus: u64,
    pub unlocked_abilities: Vec<String>,
}

/// Number of numeric bonus fields.
pub const STAT_COUNT: usize = 21;

/// The numeric stat a skill type adds to and its value per level, if any.
pub open spec fn stat_of(t: SkillType) -> Option<(int, u32)> {
    match t {
        SkillType::DamageIncrease(v) => Some((0int, v)),
        SkillType::CriticalChance(v) => Some((1int, v)),
        SkillType::CriticalDamage(v) => Some((2int, v)),
        SkillType::AttackSpeed(v) => Some((3int, v)),
        SkillType::ComboExtension(v) => Some((4int, v)),
        SkillType::AreaOfEffect(v) => Some((5int, v)),
        SkillType::Penetration(v) => Some((6int, v)),
        SkillType::MaxHealthIncrease(v) => Some((7int, v)),
        SkillType::DamageReduction(v) => Some((8int, v)),
        SkillType::DodgeChance(v) => Some((9int, v)),
        SkillType::BlockEfficiency(v) => Some((10int, v)),
        SkillType::HealthRegen(v) => Some((11int, v)),
        SkillType::Thorns(v) => Some((12int, v)),
        SkillType::Resistance(v) => Some((13int, v)),
        SkillType::MovementSpeed(v) => Some((14int, v)),
        SkillType::CooldownReduction(v) => Some((15int, v)),
        SkillType::AbilityDuration(v) => Some((16int, v)),
        SkillType::ResourceGain(v) => Some((17int, v)),
        SkillType::Lifesteal(v) => Some((18int, v)),
        SkillType::Multicast(v) => Some((19int, v)),
        SkillType::LuckBonus(v) => Some((20int, v)),
        _ => None,
    }
}

/// What one node adds to stat `i`.
pub open spec fn node_contribution(n: SkillNode, i: int) -> int {
    match stat_of(n.skill_type) {
        Some((j, v)) => if j == i && n.current_level > 0 { v * n.current_level } else { 0 },
        None => 0,
    }
}

pub open spec fn sat_add(a: int, b: int) -> int {
    if a + b > u64::MAX { u64::MAX as int } else { a + b }
}

/// Stat `i` accumulated over a sequence of nodes, in order, saturating.
pub open spec fn stat_total(nodes: Seq<SkillNode>, i: int) -> int
    decreases nodes.len(),
{
    if nodes.len() == 0 {
        0
    } else {
        sat_add(stat_total(nodes.drop_last(), i), node_contribution(nodes.last(), i))
    }
}

/// Abilities unlocked by levelled nodes, each once, in the order first met.
pub open spec fn abilities_of(nodes: Seq<SkillNode>) -> Seq<Seq<char>>
    decreases nodes.len(),
{
    if nodes.len() == 0 {
        Seq::empty()
    } else {
        let prev = abilities_of(nodes.drop_last());
        let n = nodes.last();
        match n.skill_type {
            SkillType::UnlockAbility(a) => if n.current_level > 0 && !prev.contains(a@) {
                prev.push(a@)
            } else {
                prev
            },
            _ => prev,
        }
    }
}

/// A levelled node adds its value per level, times its level, to the bonus
/// field its skill type names (saturating), and to no other field: a
/// damage increase to `damage_multiplier`, a dodge chance to
/// `dodge_chance`, a block efficiency to `block_efficiency`, and so on for
/// every numeric skill type. `before` and `after` are the bonuses of a list
/// of nodes without and with `n` at its end.
pub proof fn law_node_adds_to_its_field(before: SkillBonuses, after: SkillBonuses, nodes: Seq<SkillNode>, n: SkillNode)
    requires
        before.models(nodes),
        after.models(nodes.push(n)),
        n.current_level > 0,
    ensures
        n.skill_type matches SkillType::DamageIncrease(x) ==> after.damage_multiplier == sat_add(before.damage_multiplier as int, x * n.current_level)
            && after.crit_chance == before.crit_chance && after.crit_damage == before.crit_damage && after.attack_speed == before.attack_speed && after.combo_extension == before.combo_extension && after.aoe_radius == before.aoe_radius && after.penetration == before.penetration && after.max_health_multiplier == before.max_health_multiplier && after.damage_reduction == before.damage_reduction && after.dodge_chance == before.dodge_chance && after.block_efficiency == before.block_efficiency && after.health_regen == before.health_regen && after.thorns == before.thorns && after.resistance == before.resistance && after.movement_speed == before.movement_speed && after.cooldown_reduction == before.cooldown_reduction && after.ability_duration == before.ability_duration && after.resource_gain == before.resource_gain && after.lifesteal == before.lifesteal && after.multicast_chance == before.multicast_chance && after.luck_bonus == before.luck_bonus,
        n.skill_type matches SkillType::CriticalChance(x) ==> after.crit_chance == sat_add(before.crit_chance as int, x * n.current_level)
            && after.damage_multiplier == before.damage_multiplier && after.crit_damage == before.crit_damage && after.attack_speed == before.attack_speed && after.combo_extension == before.combo_extension && after.aoe_radius == before.aoe_radius && after.penetration == before.penetration && after.max_health_multiplier == before.max_health_multiplier && after.damage_reduction == before.damage_reduction && after.dodge_chance == before.dodge_chance && after.block_efficiency == before.block_efficiency && after.health_regen == before.health_regen && after.thorns == before.thorns && after.resistance == before.resistance && after.movement_speed == before.movement_speed && after.cooldown_reduction == before.cooldown_reduction && after.ability_duration == before.ability_duration && after.resource_gain == before.resource_gain && after.lifesteal == before.lifesteal && after.multicast_chance == before.multicast_chance && after.luck_bonus == before.luck_bonus,
        n.skill_type matches SkillType::CriticalDamage(x) ==> after.crit_damage == sat_add(before.crit_damage as int, x * n.current_level)
            && after.damage_multiplier == before.damage_multiplier && after.crit_chance == before.crit_chance && after.attack_speed == before.attack_speed && after.combo_extension == before.combo_extension && after.aoe_radius == before.aoe_radius && after.penetration == before.penetration && after.max_health_multiplier == before.max_health_multiplier && after.damage_reduction == before.damage_reduction && after.dodge_chance == before.dodge_chance && after.block_efficiency == before.block_efficiency && after.health_regen == before.health_regen && after.thorns == before.thorns && after.resistance == before.resistance && after.movement_speed == before.movement_speed && after.cooldown_reduction == before.cooldown_reduction && after.ability_duration == before.ability_duration && after.resource_gain == before.resource_gain && after.lifesteal == before.lifesteal && after.multicast_chance == before.multicast_chance && after.luck_bonus == before.luck_bonus,
        n.skill_type matches SkillType::AttackSpeed(x) ==> after.attack_speed == sat_add(before.attack_speed as int, x * n.current_level)
            && after.damage_multiplier == before.damage_multiplier && after.crit_chance == before.crit_chance && after.crit_damage == before.crit_damage && after.combo_extension == before.combo_extension && after.aoe_radius == before.aoe_radius && after.penetration == before.penetration && after.max_health_multiplier == before.max_health_multiplier && after.damage_reduction == before.damage_reduction && after.dodge_chance == before.dodge_chance && after.block_efficiency == before.block_efficiency && after.health_regen == before.health_regen && after.thorns == before.thorns && after.resistance == before.resistance && after.movement_speed == before.movement_speed && after.cooldown_reduction == before.cooldown_reduction && after.ability_duration == before.ability_duration && after.resource_gain == before.resource_gain && after.lifesteal == before.lifesteal && after.multicast_chance == before.multicast_chance && after.luck_bonus == before.luck_bonus,
        n.skill_type matches SkillType::ComboExtension(x) ==> after.combo_extension == sat_add(before.combo_extension as int, x * n.current_level)
            && after.damage_multiplier == before.damage_multiplier && after.crit_chance == before.crit_chance && after.crit_damage == before.crit_damage && after.attack_speed == before.attack_speed && after.aoe_radius == before.aoe_radius && after.penetration == before.penetration && after.max_health_multiplier == before.max_health_multiplier && after.damage_reduction == before.damage_reduction && after.dodge_chance == before.dodge_chance && after.block_efficiency == before.block_efficiency && after.health_regen == before.health_regen && after.thorns == before.thorns && after.resistance == before.resistance && after.movement_speed == before.movement_speed && after.cooldown_reduction == before.cooldown_reduction && after.ability_duration == before.ability_duration && after.resource_gain == before.resource_gain && after.lifesteal == before.lifesteal && after.multicast_chance == before.multicast_chance && after.luck_bonus == before.luck_bonus,
        n.skill_type matches SkillType::AreaOfEffect(x) ==> after.aoe_radius == sat_add(before.aoe_radius as int, x * n.current_level)
            && after.damage_multiplier == before.damage_multiplier && after.crit_chance == before.crit_chance && after.crit_damage == before.crit_damage && after.attack_speed == before.attack_speed && after.combo_extension == before.combo_extension && after.penetration == before.penetration && after.max_health_multiplier == before.max_health_multiplier && after.damage_reduction == before.damage_reduction && after.dodge_chance == before.dodge_chance && after.block_efficiency == before.block_efficiency && after.health_regen == before.health_regen && after.thorns == before.thorns && after.resistance == before.resistance && after.movement_speed == before.movement_speed && after.cooldown_reduction == before.cooldown_reduction && after.ability_duration == before.ability_duration && after.resource_gain == before.resource_gain && after.lifesteal == before.lifesteal && after.multicast_chance == before.multicast_chance && after.luck_bonus == before.luck_bonus,
        n.skill_type matches SkillType::Penetration(x) ==> after.penetration == sat_add(before.penetration as int, x * n.current_level)
            && after.damage_multiplier == before.damage_multiplier && after.crit_chance == before.crit_chance && after.crit_damage == before.crit_damage && after.attack_speed == before.attack_speed && after.combo_extension == before.combo_extension && after.aoe_radius == before.aoe_radius && after.max_health_multiplier == before.max_health_multiplier && after.damage_reduction == before.damage_reduction && after.dodge_chance == before.dodge_chance && after.block_efficiency == before.block_efficiency && after.health_regen == before.health_regen && after.thorns == before.thorns && after.resistance == before.resistance && after.movement_speed == before.movement_speed && after.cooldown_reduction == before.cooldown_reduction && after.ability_duration == before.ability_duration && after.resource_gain == before.resource_gain && after.lifesteal == before.lifesteal && after.multicast_chance == before.multicast_chance && after.luck_bonus == before.luck_bonus,
        n.skill_type matches SkillType::MaxHealthIncrease(x) ==> after.max_health_multiplier == sat_add(before.max_health_multiplier as int, x * n.current_level)
            && after.damage_multiplier == before.damage_multiplier && after.crit_chance == before.crit_chance && after.crit_damage == before.crit_damage && after.attack_speed == before.attack_speed && after.combo_extension == before.combo_extension && after.aoe_radius == before.aoe_radius && after.penetration == before.penetration && after.damage_reduction == before.damage_reduction && after.dodge_chance == before.dodge_chance && after.block_efficiency == before.block_efficiency && after.health_regen == before.health_regen && after.thorns == before.thorns && after.resistance == before.resistance && after.movement_speed == before.movement_speed && after.cooldown_reduction == before.cooldown_reduction && after.ability_duration == before.ability_duration && after.resource_gain == before.resource_gain && after.lifesteal == before.lifesteal && after.multicast_chance == before.multicast_chance && after.luck_bonus == before.luck_bonus,
        n.skill_type matches SkillType::DamageReduction(x) ==> after.damage_reduction == sat_add(before.damage_reduction as int, x * n.current_level)
            && after.damage_multiplier == before.damage_multiplier && after.crit_chance == before.crit_chance && after.crit_damage == before.crit_damage && after.attack_speed == before.attack_speed && after.combo_extension == before.combo_extension && after.aoe_radius == before.aoe_radius && after.penetration == before.penetration && after.max_health_multiplier == before.max_health_multiplier && after.dodge_chance == before.dodge_chance && after.block_efficiency == before.block_efficiency && after.health_regen == before.health_regen && after.thorns == before.thorns && after.resistance == before.resistance && after.movement_speed == before.movement_speed && after.cooldown_reduction == before.cooldown_reduction && after.ability_duration == before.ability_duration && after.resource_gain == before.resource_gain && after.lifesteal == before.lifesteal && after.multicast_chance == before.multicast_chance && after.luck_bonus == before.luck_bonus,
        n.skill_type matches SkillType::DodgeChance(x) ==> after.dodge_chance == sat_add(before.dodge_chance as int, x * n.current_level)
            && after.damage_multiplier == before.damage_multiplier && after.crit_chance == before.crit_chance && after.crit_damage == before.crit_damage && after.attack_speed == before.attack_speed && after.combo_extension == before.combo_extension && after.aoe_radius == before.aoe_radius && after.penetration == before.penetration && after.max_health_multiplier == before.max_health_multiplier && after.damage_reduction == before.damage_reduction && after.block_efficiency == before.block_efficiency && after.health_regen == before.health_regen && after.thorns == before.thorns && after.resistance == before.resistance && after.movement_speed == before.movement_speed && after.cooldown_reduction == before.cooldown_reduction && after.ability_duration == before.ability_duration && after.resource_gain == before.resource_gain && after.lifesteal == before.lifesteal && after.multicast_chance == before.multicast_chance && after.luck_bonus == before.luck_bonus,
        n.skill_type matches SkillType::BlockEfficiency(x) ==> after.block_efficiency == sat_add(before.block_efficiency as int, x * n.current_level)
            && after.damage_multiplier == before.damage_multiplier && after.crit_chance == before.crit_chance && after.crit_damage == before.crit_damage && after.attack_speed == before.attack_speed && after.combo_extension == before.combo_extension && after.aoe_radius == before.aoe_radius && after.penetration == before.penetration && after.max_health_multiplier == before.max_health_multiplier && after.damage_reduction == before.damage_reduction && after.dodge_chance == before.dodge_chance && after.health_regen == before.health_regen && after.thorns == before.thorns && after.resistance == before.resistance && after.movement_speed == before.movement_speed && after.cooldown_reduction == before.cooldown_reduction && after.ability_duration == before.ability_duration && after.resource_gain == before.resource_gain && after.lifesteal == before.lifesteal && after.multicast_chance == before.multicast_chance && after.luck_bonus == before.luck_bonus,
        n.skill_type matches SkillType::HealthRegen(x) ==> after.health_regen == sat_add(before.health_regen as int, x * n.current_level)
            && after.damage_multiplier == before.damage_multiplier && after.crit_chance == before.crit_chance && after.crit_damage == before.crit_damage && after.attack_speed == before.attack_speed && after.combo_extension == before.combo_extension && after.aoe_radius == before.aoe_radius && after.penetration == before.penetration && after.max_health_multiplier == before.max_health_multiplier && after.damage_reduction == before.damage_reduction && after.dodge_chance == before.dodge_chance && after.block_efficiency == before.block_efficiency && after.thorns == before.thorns && after.resistance == before.resistance && after.movement_speed == before.movement_speed && after.cooldown_reduction == before.cooldown_reduction && after.ability_duration == before.ability_duration && after.resource_gain == before.resource_gain && after.lifesteal == before.lifesteal && after.multicast_chance == before.multicast_chance && after.luck_bonus == before.luck_bonus,
        n.skill_type matches SkillType::Thorns(x) ==> after.thorns == sat_add(before.thorns as int, x * n.current_level)
            && after.damage_multiplier == before.damage_multiplier && after.crit_chance == before.crit_chance && after.crit_damage == before.crit_damage && after.attack_speed == before.attack_speed && after.combo_extension == before.combo_extension && after.aoe_radius == before.aoe_radius && after.penetration == before.penetration && after.max_health_multiplier == before.max_health_multiplier && after.damage_reduction == before.damage_reduction && after.dodge_chance == before.dodge_chance && after.block_efficiency == before.block_efficiency && after.health_regen == before.health_regen && after.resistance == before.resistance && after.movement_speed == before.movement_speed && after.cooldown_reduction == before.cooldown_reduction && after.ability_duration == before.ability_duration && after.resource_gain == before.resource_gain && after.lifesteal == before.lifesteal && after.multicast_chance == before.multicast_chance && after.luck_bonus == before.luck_bonus,
        n.skill_type matches SkillType::Resistance(x) ==> after.resistance == sat_add(before.resistance as int, x * n.current_level)
            && after.damage_multiplier == before.damage_multiplier && after.crit_chance == before.crit_chance && after.crit_damage == before.crit_damage && after.attack_speed == before.attack_speed && after.combo_extension == before.combo_extension && after.aoe_radius == before.aoe_radius && after.penetration == before.penetration && after.max_health_multiplier == before.max_health_multiplier && after.damage_reduction == before.damage_reduction && after.dodge_chance == before.dodge_chance && after.block_efficiency == before.block_efficiency && after.health_regen == before.health_regen && after.thorns == before.thorns && after.movement_speed == before.movement_speed && after.cooldown_reduction == before.cooldown_reduction && after.ability_duration == before.ability_duration && after.resource_gain == before.resource_gain && after.lifesteal == before.lifesteal && after.multicast_chance == before.multicast_chance && after.luck_bonus == before.luck_bonus,
        n.skill_type matches SkillType::MovementSpeed(x) ==> after.movement_speed == sat_add(before.movement_speed as int, x * n.current_level)
            && after.damage_multiplier == before.damage_multiplier && after.crit_chance == before.crit_chance && after.crit_damage == before.crit_damage && after.attack_speed == before.attack_speed && after.combo_extension == before.combo_extension && after.aoe_radius == before.aoe_radius && after.penetration == before.penetration && after.max_health_multiplier == before.max_health_multiplier && after.damage_reduction == before.damage_reduction && after.dodge_chance == before.dodge_chance && after.block_efficiency == before.block_efficiency && after.health_regen == before.health_regen && after.thorns == before.thorns && after.resistance == before.resistance && after.cooldown_reduction == before.cooldown_reduction && after.ability_duration == before.ability_duration && after.resource_gain == before.resource_gain && after.lifesteal == before.lifesteal && after.multicast_chance == before.multicast_chance && after.luck_bonus == before.luck_bonus,
        n.skill_type matches SkillType::CooldownReduction(x) ==> after.cooldown_reduction == sat_add(before.cooldown_reduction as int, x * n.current_level)
            && after.damage_multiplier == before.damage_multiplier && after.crit_chance == before.crit_chance && after.crit_damage == before.crit_damage && after.attack_speed == before.attack_speed && after.combo_extension == before.combo_extension && after.aoe_radius == before.aoe_radius && after.penetration == before.penetration && after.max_health_multiplier == before.max_health_multiplier && after.damage_reduction == before.damage_reduction && after.dodge_chance == before.dodge_chance && after.block_efficiency == before.block_efficiency && after.health_regen == before.health_regen && after.thorns == before.thorns && after.resistance == before.resistance && after.movement_speed == before.movement_speed && after.ability_duration == before.ability_duration && after.resource_gain == before.resource_gain && after.lifesteal == before.lifesteal && after.multicast_chance == before.multicast_chance && after.luck_bonus == before.luck_bonus,
        n.skill_type matches SkillType::AbilityDuration(x) ==> after.ability_duration == sat_add(before.ability_duration as int, x * n.current_level)
            && after.damage_multiplier == before.damage_multiplier && after.crit_chance == before.crit_chance && after.crit_damage == before.crit_damage && after.attack_speed == before.attack_speed && after.combo_extension == before.combo_extension && after.aoe_radius == before.aoe_radius && after.penetration == before.penetration && after.max_health_multiplier == before.max_health_multiplier && after.damage_reduction == before.damage_reduction && after.dodge_chance == before.dodge_chance && after.block_efficiency == before.block_efficiency && after.health_regen == before.health_regen && after.thorns == before.thorns && after.resistance == before.resistance && after.movement_speed == before.movement_speed && after.cooldown_reduction == before.cooldown_reduction && after.resource_gain == before.resource_gain && after.lifesteal == before.lifesteal && after.multicast_chance == before.multicast_chance && after.luck_bonus == before.luck_bonus,
        n.skill_type matches SkillType::ResourceGain(x) ==> after.resource_gain == sat_add(before.resource_gain as int, x * n.current_level)
            && after.damage_multiplier == before.damage_multiplier && after.crit_chance == before.crit_chance && after.crit_damage == before.crit_damage && after.attack_speed == before.attack_speed && after.combo_extension == before.combo_extension && after.aoe_radius == before.aoe_radius && after.penetration == before.penetration && after.max_health_multiplier == before.max_health_multiplier && after.damage_reduction == before.damage_reduction && after.dodge_chance == before.dodge_chance && after.block_efficiency == before.block_efficiency && after.health_regen == before.health_regen && after.thorns == before.thorns && after.resistance == before.resistance && after.movement_speed == before.movement_speed && after.cooldown_reduction == before.cooldown_reduction && after.ability_duration == before.ability_duration && after.lifesteal == before.lifesteal && after.multicast_chance == before.multicast_chance && after.luck_bonus == before.luck_bonus,
        n.skill_type matches SkillType::Lifesteal(x) ==> after.lifesteal == sat_add(before.lifesteal as int, x * n.current_level)
            && after.damage_multiplier == before.damage_multiplier && after.crit_chance == before.crit_chance && after.crit_damage == before.crit_damage && after.attack_speed == before.attack_speed && after.combo_extension == before.combo_extension && after.aoe_radius == before.aoe_radius && after.penetration == before.penetration && after.max_health_multiplier == before.max_health_multiplier && after.damage_reduction == before.damage_reduction && after.dodge_chance == before.dodge_chance && after.block_efficiency == before.block_efficiency && after.health_regen == before.health_regen && after.thorns == before.thorns && after.resistance == before.resistance && after.movement_speed == before.movement_speed && after.cooldown_reduction == before.cooldown_reduction && after.ability_duration == before.ability_duration && after.resource_gain == before.resource_gain && after.multicast_chance == before.multicast_chance && after.luck_bonus == before.luck_bonus,
        n.skill_type matches SkillType::Multicast(x) ==> after.multicast_chance == sat_add(before.multicast_chance as int, x * n.current_level)
            && after.damage_multiplier == before.damage_multiplier && after.crit_chance == before.crit_chance && after.crit_damage == before.crit_damage && after.attack_speed == before.attack_speed && after.combo_extension == before.combo_extension && after.aoe_radius == before.aoe_radius && after.penetration == before.penetration && after.max_health_multiplier == before.max_health_multiplier && after.damage_reduction == before.damage_reduction && after.dodge_chance == before.dodge_chance && after.block_efficiency == before.block_efficiency && after.health_regen == before.health_regen && after.thorns == before.thorns && after.resistance == before.resistance && after.movement_speed == before.movement_speed && after.cooldown_reduction == before.cooldown_reduction && after.ability_duration == before.ability_duration && after.resource_gain == before.resource_gain && after.lifesteal == before.lifesteal && after.luck_bonus == before.luck_bonus,
        n.skill_type matches SkillType::LuckBonus(x) ==> after.luck_bonus == sat_add(before.luck_bonus as int, x * n.current_level)
            && after.damage_multiplier == before.damage_multiplier && after.crit_chance == before.crit_chance && after.crit_damage == before.crit_damage && after.attack_speed == before.attack_speed && after.combo_extension == before.combo_extension && after.aoe_radius == before.aoe_radius && after.penetration == before.penetration && after.max_health_multiplier == before.max_health_multiplier && after.damage_reduction == before.damage_reduction && after.dodge_chance == before.dodge_chance && after.block_efficiency == before.block_efficiency && after.health_regen == before.health_regen && after.thorns == before.thorns && after.resistance == before.resistance && after.movement_speed == before.movement_speed && after.cooldown_reduction == before.cooldown_reduction && after.ability_duration == before.ability_duration && after.resource_gain == before.resource_gain && after.lifesteal == before.lifesteal && after.multicast_chance == before.multicast_chance,
{
    assert(nodes.push(n).drop_last() =~= nodes);
    assert forall|i: int| 0 <= i < STAT_COUNT implies after.stat(i) == sat_add(before.stat(i) as int, node_contribution(n, i)) by {
        assert(before.stat(i) == stat_total(nodes, i));
        assert(after.stat(i) == stat_total(nodes.push(n), i));
    }
    assert(after.stat(0) == sat_add(before.stat(0) as int, node_contribution(n, 0)));
    assert(after.stat(1) == sat_add(before.stat(1) as int, node_contribution(n, 1)));
    assert(after.stat(2) == sat_add(before.stat(2) as int, node_contribution(n, 2)));
    assert(after.stat(3) == sat_add(before.stat(3) as int, node_contribution(n, 3)));
    assert(after.stat(4) == sat_add(before.stat(4) as int, node_contribution(n, 4)));
    assert(after.stat(5) == sat_add(before.stat(5) as int, node_contribution(n, 5)));
    assert(after.stat(6) == sat_add(before.stat(6) as int, node_contribution(n, 6)));
    assert(after.stat(7) == sat_add(before.stat(7) as int, node_contribution(n, 7)));
    assert(after.stat(8) == sat_add(before.stat(8) as int, node_contribution(n, 8)));
    assert(after.stat(9) == sat_add(before.stat(9) as int, node_contribution(n, 9)));
    assert(after.stat(10) == sat_add(before.stat(10) as int, node_contribution(n, 10)));
    assert(after.stat(11) == sat_add(before.stat(11) as int, node_contribution(n, 11)));
    assert(after.stat(12) == sat_add(before.stat(12) as int, node_contribution(n, 12)));
    assert(after.stat(13) == sat_add(before.stat(13) as int, node_contribution(n, 13)));
    assert(after.stat(14) == sat_add(before.stat(14) as int, node_contribution(n, 14)));
    assert(after.stat(15) == sat_add(before.stat(15) as int, node_contribution(n, 15)));
    assert(after.stat(16) == sat_add(before.stat(16) as int, node_contribution(n, 16)));
    assert(after.stat(17) == sat_add(before.stat(17) as int, node_contribution(n, 17)));
    assert(after.stat(18) == sat_add(before.stat(18) as int, node_contribution(n, 18)));
    assert(after.stat(19) == sat_add(before.stat(19) as int, node_contribution(n, 19)));
    assert(after.stat(20) == sat_add(before.stat(20) as int, node_contribution(n, 20)));
}

/// A per-level value times a level.
fn scaled(v: u32, level: u32) -> (r: u64)
    ensures
        r == v * level,
{
    assert(0 <= v * level <= u32::MAX * u32::MAX) by (nonlinear_arith)
        requires
            0 <= v <= u32::MAX,
            0 <= level <= u32::MAX;
    v as u64 * level as u64
}

impl SkillBonuses {
    /// Numeric field number `i`, in declaration order.
    pub open spec fn stat(&self, i: int) -> u64 {
        if i == 0 {
            self.damage_multiplier
        } else if i == 1 {
            self.crit_chance
        } else if i == 2 {
            self.crit_damage
        } else if i == 3 {
            self.attack_speed
        } else if i == 4 {
            self.combo_extension
        } else if i == 5 {
            self.aoe_radius
        } else if i == 6 {
            self.penetration
        } else if i == 7 {
            self.max_health_multiplier
        } else if i == 8 {
            self.damage_reduction
        } else if i == 9 {
            self.dodge_chance
        } else if i == 10 {
            self.block_efficiency
        } else if i == 11 {
            self.health_regen
        } else if i == 12 {
            self.thorns
        } else if i == 13 {
            self.resistance
        } else if i == 14 {
            self.movement_speed
        } else if i == 15 {
            self.cooldown_reduction
        } else if i == 16 {
            self.ability_duration
        } else if i == 17 {
            self.resource_gain
        } else if i == 18 {
            self.lifesteal
        } else if i == 19 {
            self.multicast_chance
        } else if i == 20 {
            self.luck_bonus
        } else {
            0
        }
    }

    /// The bonuses of a sequence of nodes.
    pub open spec fn models(&self, nodes: Seq<SkillNode>) -> bool {
        &&& forall|i: int| 0 <= i < STAT_COUNT ==> #[trigger] self.stat(i) == stat_total(nodes, i)
        &&& self.unlocked_abilities@.map_values(|a: String| a@) == abilities_of(nodes)
    }

    fn empty() -> (b: SkillBonuses)
        ensures
            b.models(Seq::empty()),
    {
        let b = SkillBonuses {
            damage_multiplier: 0,
            crit_chance: 0,
            crit_damage: 0,
            attack_speed: 0,
            combo_extension: 0,
            aoe_radius: 0,
            penetration: 0,
            max_health_multiplier: 0,
            damage_reduction: 0,
            dodge_chance: 0,
            block_efficiency: 0,
            health_regen: 0,
            thorns: 0,
            resistance: 0,
            movement_speed: 0,
            cooldown_reduction: 0,
            ability_duration: 0,
            resource_gain: 0,
            lifesteal: 0,
            multicast_chance: 0,
            luck_bonus: 0,
            unlocked_abilities: Vec::new(),
        };
        assert(b.unlocked_abilities@.map_values(|a: String| a@) =~= Seq::<Seq<char>>::empty());
        b
    }

    /// Adds what one node grants at a level.
    fn apply_skill(&mut self, skill_type: &SkillType, level: u32)
        ensures
            forall|i: int| 0 <= i < STAT_COUNT ==> #[trigger] final(self).stat(i) == match stat_of(*skill_type) {
                Some((j, v)) => if j == i { sat_add(old(self).stat(i) as int, v * level) } else { old(self).stat(i) as int },
                None => old(self).stat(i) as int,
            },
            final(self).unlocked_abilities@.map_values(|a: String| a@) == match *skill_type {
                SkillType::UnlockAbility(a) => {
                    let prev = old(self).unlocked_abilities@.map_values(|x: String| x@);
                    if prev.contains(a@) { prev } else { prev.push(a@) }
                },
                _ => old(self).unlocked_abilities@.map_values(|x: String| x@),
            },
    {
        match skill_type {
            SkillType::DamageIncrease(v) => {
                self.damage_multiplier = self.damage_multiplier.saturating_add(scaled(*v, level));
            },
            SkillType::CriticalChance(v) => {
                self.crit_chance = self.crit_chance.saturating_add(scaled(*v, level));
            },
            SkillType::CriticalDamage(v) => {
                self.crit_damage = self.crit_damage.saturating_add(scaled(*v, level));
            },
            SkillType::AttackSpeed(v) => {
                self.attack_speed = self.attack_speed.saturating_add(scaled(*v, level));
            },
            SkillType::ComboExtension(v) => {
                self.combo_extension = self.combo_extension.saturating_add(scaled(*v, level));
            },
            SkillType::AreaOfEffect(v) => {
                self.aoe_radius = self.aoe_radius.saturating_add(scaled(*v, level));
            },
            SkillType::Penetration(v) => {
                self.penetration = self.penetration.saturating_add(scaled(*v, level));
            },
            SkillType::MaxHealthIncrease(v) => {
                self.max_health_multiplier = self.max_health_multiplier.saturating_add(scaled(*v, level));
            },
            SkillType::DamageReduction(v) => {
                self.damage_reduction = self.damage_reduction.saturating_add(scaled(*v, level));
            },
            SkillType::DodgeChance(v) => {
                self.dodge_chance = self.dodge_chance.saturating_add(scaled(*v, level));
            },
            SkillType::BlockEfficiency(v) => {
                self.block_efficiency = self.block_efficiency.saturating_add(scaled(*v, level));
            },
            SkillType::HealthRegen(v) => {
                self.health_regen = self.health_regen.saturating_add(scaled(*v, level));
            },
            SkillType::Thorns(v) => {
                self.thorns = self.thorns.saturating_add(scaled(*v, level));
            },
            SkillType::Resistance(v) => {
                self.resistance = self.resistance.saturating_add(scaled(*v, level));
            },
            SkillType::MovementSpeed(v) => {
                self.movement_speed = self.movement_speed.saturating_add(scaled(*v, level));
            },
            SkillType::CooldownReduction(v) => {
                self.cooldown_reduction = self.cooldown_reduction.saturating_add(scaled(*v, level));
            },
            SkillType::AbilityDuration(v) => {
                self.ability_duration = self.ability_duration.saturating_add(scaled(*v, level));
            },
            SkillType::ResourceGain(v) => {
                self.resource_gain = self.resource_gain.saturating_add(scaled(*v, level));
            },
            SkillType::Lifesteal(v) => {
                self.lifesteal = self.lifesteal.saturating_add(scaled(*v, level));
            },
            SkillType::Multicast(v) => {
                self.multicast_chance = self.multicast_chance.saturating_add(scaled(*v, level));
            },
            SkillType::LuckBonus(v) => {
                self.luck_bonus = self.luck_bonus.saturating_add(scaled(*v, level));
            },
            SkillType::UnlockAbility(ability) => {
                let ghost prev = self.unlocked_abilities@.map_values(|x: String| x@);
                let mut found = false;
                let mut i: usize = 0;
                while i < self.unlocked_abilities.len()
                    invariant
                        0 <= i <= self.unlocked_abilities@.len(),
                        prev == self.unlocked_abilities@.map_values(|x: String| x@),
                        found <==> exists|j: int| 0 <= j < i && prev[j] == ability@,
                    decreases self.unlocked_abilities@.len() - i,
                {
                    assert(prev[i as int] == self.unlocked_abilities@[i as int]@);
                    if self.unlocked_abilities[i] == *ability {
                        found = true;
                    }
                    i = i + 1;
                }
                proof {
                    if found {
                        let j = choose|j: int| 0 <= j < i && prev[j] == ability@;
                        assert(prev.contains(ability@));
                    } else {
                        assert(!prev.contains(ability@));
                    }
                }
                if !found {
                    self.unlocked_abilities.push(ability.clone());
                    assert(self.unlocked_abilities@.map_values(|x: String| x@) =~= prev.push(ability@));
                }
            },
            _ => {},
        }
    }
}

impl Default for SkillBonuses {
    /// No bonus at all.
    fn default() -> (b: SkillBonuses)
        ensures
            b.models(Seq::empty()),
    {
        SkillBonuses::empty()
    }
}

proof fn lemma_bonus_step(b0: SkillBonuses, b1: SkillBonuses, prefix: Seq<SkillNode>, n: SkillNode)
    requires
        b0.models(prefix),
        n.current_level > 0,
        forall|i: int| 0 <= i < STAT_COUNT ==> #[trigger] b1.stat(i) == match stat_of(n.skill_type) {
            Some((j, v)) => if j == i { sat_add(b0.stat(i) as int, v * n.current_level) } else { b0.stat(i) as int },
            None => b0.stat(i) as int,
        },
        b1.unlocked_abilities@.map_values(|a: String| a@) == match n.skill_type {
            SkillType::UnlockAbility(a) => {
                let prev = b0.unlocked_abilities@.map_values(|x: String| x@);
                if prev.contains(a@) { prev } else { prev.push(a@) }
            },
            _ => b0.unlocked_abilities@.map_values(|x: String| x@),
        },
    ensures
        b1.models(prefix.push(n)),
{
    let s = prefix.push(n);
    assert(s.drop_last() =~= prefix);
    assert forall|i: int| 0 <= i < STAT_COUNT implies #[trigger] b1.stat(i) == stat_total(s, i) by {
        assert(b0.stat(i) == stat_total(prefix, i));
        if let Some((j, v)) = stat_of(n.skill_type) {
            if j != i {
                assert(node_contribution(n, i) == 0);
                assert(stat_total(prefix, i) <= u64::MAX);
            }
        }
    }
}

proof fn lemma_bonus_skip(b0: SkillBonuses, prefix: Seq<SkillNode>, n: SkillNode)
    requires
        b0.models(prefix),
        n.current_level == 0,
    ensures
        b0.models(prefix.push(n)),
{
    let s = prefix.push(n);
    assert(s.drop_last() =~= prefix);
    assert forall|i: int| 0 <= i < STAT_COUNT implies #[trigger] b0.stat(i) == stat_total(s, i) by {
        assert(b0.stat(i) == stat_total(prefix, i));
        assert(node_contribution(n, i) == 0);
    }
}

/// Adds the bonuses of every levelled node of a branch.
fn apply_branch(bonuses: &mut SkillBonuses, nodes: &Vec<SkillNode>, Ghost(before): Ghost<Seq<SkillNode>>)
    requires
        old(bonuses).models(before),
    ensures
        final(bonuses).models(before + nodes@),
{
    let mut i: usize = 0;
    while i < nodes.len()
        invariant
            0 <= i <= nodes@.len(),
            bonuses.models(before + nodes@.take(i as int)),
        decreases nodes@.len() - i,
    {
        let ghost prefix = before + nodes@.take(i as int);
        assert(before + nodes@.take(i as int + 1) =~= prefix.push(nodes@[i as int]));
        let node = &nodes[i];
        if node.current_level > 0 {
            let ghost b0 = *bonuses;
            bonuses.apply_skill(&node.skill_type, node.current_level);
            proof { lemma_bonus_step(b0, *bonuses, prefix, *node); }
        } else {
            proof { lemma_bonus_skip(*bonuses, prefix, *node); }
        }
        i = i + 1;
    }
    assert(nodes@.take(i as int) =~= nodes@);
}

impl SkillTree {
    /// Bonuses of every levelled node of the tree, branch by branch.
    fn calculate_bonuses(&self) -> (b: SkillBonuses)
        ensures
            b.models(self.nodes()),
    {
        let mut b = SkillBonuses::empty();
        apply_branch(&mut b, &self.branch_offense.nodes, Ghost(Seq::empty()));
        assert(Seq::<SkillNode>::empty() + self.branch_offense.nodes@ =~= self.branch_offense.nodes@);
        apply_branch(&mut b, &self.branch_defense.nodes, Ghost(self.branch_offense.nodes@));
        apply_branch(&mut b, &self.branch_utility.nodes, Ghost(self.branch_offense.nodes@ + self.branch_defense.nodes@));
        b
    }
}

impl SkillTreeManager {
    /// Bonuses a character has from its tree; none when it has no tree.
    pub fn calculate_bonuses(&self, character: CharacterId) -> (b: SkillBonuses)
        requires
            self.wf(),
        ensures
            match self.tree_of(character) {
                Some(t) => b.models(t.nodes()),
                None => b.models(Seq::empty()),
            },
    {
        match &self.trees[character.slot()] {
            Some(tree) => tree.calculate_bonuses(),
            None => SkillBonuses::empty(),
        }
    }
}
/// What a skill type grants, as its variant's position, its magnitude and
/// its text.
pub open spec fn skill_type_view(t: SkillType) -> (int, u32, Seq<char>) {
    match t {
        SkillType::DamageIncrease(v) => (0, v, ""@),
        SkillType::CriticalChance(v) => (1, v, ""@),
        SkillType::CriticalDamage(v) => (2, v, ""@),
        SkillType::AttackSpeed(v) => (3, v, ""@),
        SkillType::ComboExtension(v) => (4, v, ""@),
        SkillType::AreaOfEffect(v) => (5, v, ""@),
        SkillType::Penetration(v) => (6, v, ""@),
        SkillType::MaxHealthIncrease(v) => (7, v, ""@),
        SkillType::DamageReduction(v) => (8, v, ""@),
        SkillType::DodgeChance(v) => (9, v, ""@),
        SkillType::BlockEfficiency(v) => (10, v, ""@),
        SkillType::HealthRegen(v) => (11, v, ""@),
        SkillType::Thorns(v) => (12, v, ""@),
        SkillType::Resistance(v) => (13, v, ""@),
        SkillType::MovementSpeed(v) => (14, v, ""@),
        SkillType::CooldownReduction(v) => (15, v, ""@),
        SkillType::AbilityDuration(v) => (16, v, ""@),
        SkillType::ResourceGain(v) => (17, v, ""@),
        SkillType::Lifesteal(v) => (18, v, ""@),
        SkillType::Multicast(v) => (19, v, ""@),
        SkillType::LuckBonus(v) => (20, v, ""@),
        SkillType::UnlockAbility(a) => (21, 0, a@),
        SkillType::PassiveBuff(a, v) => (22, v, a@),
        SkillType::SynergyBoost(a, v) => (23, v, a@),
    }
}

/// The texts of a list of ids.
pub open spec fn id_texts(v: Seq<String>) -> Seq<Seq<char>> {
    v.map_values(|s: String| s@)
}

/// Branch `b` (0 offense, 1 defense, 2 utility) of the tree of `c`: its name,
/// its description and its number of nodes.
pub open spec fn branch_entry(c: CharacterId, b: int) -> (Seq<char>, Seq<char>, int) {
    if c == CharacterId::Bas && b == 0 {
        ("Veeg Master"@, "Master the art of the veeg with devastating sweeping attacks"@, 7)
    } else if c == CharacterId::Bas && b == 1 {
        ("Janitor's Fortitude"@, "Become as sturdy as the school buildings you clean"@, 7)
    } else if c == CharacterId::Bas && b == 2 {
        ("Efficient Worker"@, "Work smarter, not harder - utility and support skills"@, 7)
    } else if c == CharacterId::Berkay && b == 0 {
        ("Kebab Connoisseur"@, "Harness the power of the special kebab"@, 1)
    } else if c == CharacterId::Berkay && b == 1 {
        ("Meat Shield"@, "As filling as a good kebab"@, 1)
    } else if c == CharacterId::Berkay && b == 2 {
        ("Turkish Efficiency"@, "Work with the speed and precision of a kebab chef"@, 1)
    } else if c == CharacterId::Luca && b == 0 {
        ("Winter Arc Warrior"@, "Embrace the cold and unleash devastating power"@, 1)
    } else if c == CharacterId::Luca && b == 1 {
        ("Ice Armor"@, "Cold as ice, hard to break"@, 1)
    } else if c == CharacterId::Luca && b == 2 {
        ("Arctic Agility"@, "Move with the speed of a winter wind"@, 1)
    } else {
        (""@, ""@, 0)
    }
}

/// Node `k` of branch `b` of the tree of `c`: id, name, description, tier,
/// maximum level, cost, prerequisite ids and what it grants (as
/// `skill_type_view` gives it).
pub open spec fn node_entry(c: CharacterId, b: int, k: int) -> (Seq<char>, Seq<char>, Seq<char>, u32, u32, u32,
    Seq<Seq<char>>, (int, u32, Seq<char>)) {
    if c == CharacterId::Bas && b == 0 && k == 0 {
        ("bas_off_1"@, "Sweeping Strike"@, "Increase damage by 5% per level"@, 1u32, 5u32, 1u32, seq![], (0int, 5u32, ""@))
    } else if c == CharacterId::Bas && b == 0 && k == 1 {
        ("bas_off_2"@, "Precision Sweeping"@, "Gain 2% critical hit chance per level"@, 1u32, 5u32, 1u32, seq![], (1int, 2u32, ""@))
    } else if c == CharacterId::Bas && b == 0 && k == 2 {
        ("bas_off_3"@, "Veeg Fury"@, "Increase attack speed by 8% per level"@, 2u32, 3u32, 2u32, seq!["bas_off_1"@], (3int, 8u32, ""@))
    } else if c == CharacterId::Bas && b == 0 && k == 3 {
        ("bas_off_4"@, "Splash Damage"@, "Increase AoE radius by 15% per level (enhances Bas Veeg ability)"@, 2u32, 3u32, 2u32, seq!["bas_off_1"@], (5int, 15u32, ""@))
    } else if c == CharacterId::Bas && b == 0 && k == 4 {
        ("bas_off_5"@, "Brutal Cleaning"@, "Critical hits deal 20% more damage per level"@, 3u32, 3u32, 3u32, seq!["bas_off_2"@, "bas_off_3"@], (2int, 20u32, ""@))
    } else if c == CharacterId::Bas && b == 0 && k == 5 {
        ("bas_off_6"@, "Chain Sweeping"@, "Add 1 extra hit to combo chains per level"@, 4u32, 2u32, 4u32, seq!["bas_off_5"@], (4int, 1u32, ""@))
    } else if c == CharacterId::Bas && b == 0 && k == 6 {
        ("bas_off_7"@, "Ultimate Veeg"@, "Bas Veeg ability now creates a vortex that pulls enemies"@, 5u32, 1u32, 5u32, seq!["bas_off_6"@], (21int, 0u32, "VeegVortex"@))
    } else if c == CharacterId::Bas && b == 1 && k == 0 {
        ("bas_def_1"@, "Sturdy Apron"@, "Increase max health by 8% per level"@, 1u32, 5u32, 1u32, seq![], (7int, 8u32, ""@))
    } else if c == CharacterId::Bas && b == 1 && k == 1 {
        ("bas_def_2"@, "Tough Cleaning"@, "Reduce damage taken by 3% per level"@, 1u32, 5u32, 1u32, seq![], (8int, 3u32, ""@))
    } else if c == CharacterId::Bas && b == 1 && k == 2 {
        ("bas_def_3"@, "Nimble Janitor"@, "Gain 5% dodge chance per level"@, 2u32, 3u32, 2u32, seq!["bas_def_1"@], (9int, 5u32, ""@))
    } else if c == CharacterId::Bas && b == 1 && k == 3 {
        ("bas_def_4"@, "Regeneration"@, "Regenerate 2 HP per second per level"@, 2u32, 3u32, 2u32, seq!["bas_def_1"@], (11int, 2u32, ""@))
    } else if c == CharacterId::Bas && b == 1 && k == 4 {
        ("bas_def_5"@, "Slippery Floor"@, "Attackers have a chance to slip, taking 10% of damage dealt per level"@, 3u32, 3u32, 3u32, seq!["bas_def_2"@], (12int, 10u32, ""@))
    } else if c == CharacterId::Bas && b == 1 && k == 5 {
        ("bas_def_6"@, "Unyielding"@, "Gain 10% resistance to stun and knockback per level"@, 4u32, 2u32, 4u32, seq!["bas_def_5"@], (13int, 10u32, ""@))
    } else if c == CharacterId::Bas && b == 1 && k == 6 {
        ("bas_def_7"@, "Janitor's Last Stand"@, "When health drops below 25%, gain 50% damage reduction for 5 seconds (60s cooldown)"@, 5u32, 1u32, 5u32, seq!["bas_def_6"@], (21int, 0u32, "LastStand"@))
    } else if c == CharacterId::Bas && b == 2 && k == 0 {
        ("bas_util_1"@, "Quick Pace"@, "Increase movement speed by 5% per level"@, 1u32, 5u32, 1u32, seq![], (14int, 5u32, ""@))
    } else if c == CharacterId::Bas && b == 2 && k == 1 {
        ("bas_util_2"@, "Efficient Cleaning"@, "Reduce ability cooldowns by 5% per level"@, 1u32, 5u32, 1u32, seq![], (15int, 5u32, ""@))
    } else if c == CharacterId::Bas && b == 2 && k == 2 {
        ("bas_util_3"@, "Extended Effect"@, "Increase ability duration by 10% per level"@, 2u32, 3u32, 2u32, seq!["bas_util_2"@], (16int, 10u32, ""@))
    } else if c == CharacterId::Bas && b == 2 && k == 3 {
        ("bas_util_4"@, "Hard Worker"@, "Gain 10% more currency and XP per level"@, 2u32, 3u32, 2u32, seq!["bas_util_1"@], (17int, 10u32, ""@))
    } else if c == CharacterId::Bas && b == 2 && k == 4 {
        ("bas_util_5"@, "Life Drain"@, "Gain 5% lifesteal per level"@, 3u32, 3u32, 3u32, seq!["bas_util_3"@], (18int, 5u32, ""@))
    } else if c == CharacterId::Bas && b == 2 && k == 5 {
        ("bas_util_6"@, "Lucky Break"@, "Increase luck by 15% per level (better drops, rare events)"@, 4u32, 2u32, 4u32, seq!["bas_util_4"@], (20int, 15u32, ""@))
    } else if c == CharacterId::Bas && b == 2 && k == 6 {
        ("bas_util_7"@, "Double Time"@, "10% chance to cast abilities twice"@, 5u32, 1u32, 5u32, seq!["bas_util_5"@, "bas_util_6"@], (19int, 10u32, ""@))
    } else if c == CharacterId::Berkay && b == 0 && k == 0 {
        ("berkay_off_1"@, "Spicy Strikes"@, "Increase damage by 6% per level"@, 1u32, 5u32, 1u32, seq![], (0int, 6u32, ""@))
    } else if c == CharacterId::Berkay && b == 1 && k == 0 {
        ("berkay_def_1"@, "Kebab Armor"@, "Increase max health by 10% per level"@, 1u32, 5u32, 1u32, seq![], (7int, 10u32, ""@))
    } else if c == CharacterId::Berkay && b == 2 && k == 0 {
        ("berkay_util_1"@, "Swift Service"@, "Increase movement speed by 6% per level"@, 1u32, 5u32, 1u32, seq![], (14int, 6u32, ""@))
    } else if c == CharacterId::Luca && b == 0 && k == 0 {
        ("luca_off_1"@, "Frozen Fury"@, "Increase damage by 7% per level"@, 1u32, 5u32, 1u32, seq![], (0int, 7u32, ""@))
    } else if c == CharacterId::Luca && b == 1 && k == 0 {
        ("luca_def_1"@, "Frostbite Resistance"@, "Increase max health by 8% per level"@, 1u32, 5u32, 1u32, seq![], (7int, 8u32, ""@))
    } else if c == CharacterId::Luca && b == 2 && k == 0 {
        ("luca_util_1"@, "Blizzard Sprint"@, "Increase movement speed by 7% per level"@, 1u32, 5u32, 1u32, seq![], (14int, 7u32, ""@))
    } else {
        (""@, ""@, ""@, 0u32, 0u32, 0u32, seq![], (0int, 0u32, ""@))
    }
}

/// `n` is the node that entry `e` describes.
pub open spec fn is_node(n: SkillNode, e: (Seq<char>, Seq<char>, Seq<char>, u32, u32, u32, Seq<Seq<char>>,
    (int, u32, Seq<char>))) -> bool {
    &&& n.id@ == e.0
    &&& n.name@ == e.1
    &&& n.description@ == e.2
    &&& n.tier == e.3
    &&& n.max_level == e.4
    &&& n.skill_point_cost == e.5
    &&& id_texts(n.prerequisites@) == e.6
    &&& skill_type_view(n.skill_type) == e.7
}

/// Branch `b` of a tree: 0 offense, 1 defense, anything else utility.
pub open spec fn branch_of(t: SkillTree, b: int) -> SkillBranch {
    if b == 0 {
        t.branch_offense
    } else if b == 1 {
        t.branch_defense
    } else {
        t.branch_utility
    }
}

/// `t` is the tree of `c` as `branch_entry` and `node_entry` list it.
pub open spec fn is_listed_tree(t: SkillTree, c: CharacterId) -> bool {
    &&& t.character == c
    &&& forall|b: int| 0 <= b < 3 ==> {
        let br = #[trigger] branch_of(t, b);
        &&& br.name@ == branch_entry(c, b).0
        &&& br.description@ == branch_entry(c, b).1
        &&& br.nodes@.len() == branch_entry(c, b).2
        &&& forall|k: int| 0 <= k < br.nodes@.len() ==> #[trigger] is_node(br.nodes@[k], node_entry(c, b, k))
    }
}

proof fn lemma_listed_tree_len(t: SkillTree, c: CharacterId)
    requires
        is_listed_tree(t, c),
    ensures
        t.nodes().len() == branch_entry(c, 0).2 + branch_entry(c, 1).2 + branch_entry(c, 2).2,
{
    assert(branch_of(t, 0) == t.branch_offense);
    assert(branch_of(t, 1) == t.branch_defense);
    assert(branch_of(t, 2) == t.branch_utility);
}

fn no_prerequisites() -> (v: Vec<String>)
    ensures
        id_texts(v@) == Seq::<Seq<char>>::empty(),
{
    let v: Vec<String> = Vec::new();
    assert(id_texts(v@) =~= Seq::<Seq<char>>::empty());
    v
}

fn one_prerequisite(a: &str) -> (v: Vec<String>)
    ensures
        id_texts(v@) == seq![a@],
{
    let mut v: Vec<String> = Vec::new();
    v.push(String::from_str(a));
    assert(id_texts(v@) =~= seq![a@]);
    v
}

fn two_prerequisites(a: &str, b: &str) -> (v: Vec<String>)
    ensures
        id_texts(v@) == seq![a@, b@],
{
    let mut v: Vec<String> = Vec::new();
    v.push(String::from_str(a));
    v.push(String::from_str(b));
    assert(id_texts(v@) =~= seq![a@, b@]);
    v
}


// ---------------------------------------------------------------------------
// The trees of the cast
// ---------------------------------------------------------------------------

/// Nodes nobody has bought yet: no level, and unlocked exactly in tier 1.
pub open spec fn fresh_nodes(s: Seq<SkillNode>) -> bool {
    forall|j: int| #![trigger s[j]] 0 <= j < s.len() ==> s[j].current_level == 0 && s[j].unlocked == (s[j].tier == 1)
}

proof fn lemma_fresh_concat3(t: SkillTree)
    requires
        fresh_nodes(t.branch_offense.nodes@),
        fresh_nodes(t.branch_defense.nodes@),
        fresh_nodes(t.branch_utility.nodes@),
    ensures
        fresh_nodes(t.nodes()),
{
    let a = t.branch_offense.nodes@;
    let d = t.branch_defense.nodes@;
    let u = t.branch_utility.nodes@;
    assert forall|j: int| #![trigger t.nodes()[j]] 0 <= j < t.nodes().len() implies t.nodes()[j].current_level == 0
        && t.nodes()[j].unlocked == (t.nodes()[j].tier == 1) by {
        if j < a.len() {
            assert(t.nodes()[j] == a[j]);
        } else if j < a.len() + d.len() {
            assert(t.nodes()[j] == d[j - a.len()]);
        } else {
            assert(t.nodes()[j] == u[j - a.len() - d.len()]);
        }
    }
}

fn node(id: &str, name: &str, description: &str, tier: u32, max_level: u32, cost: u32,
    prerequisites: Vec<String>, skill_type: SkillType) -> (n: SkillNode)
    ensures
        n.id@ == id@,
        n.name@ == name@,
        n.description@ == description@,
        n.tier == tier,
        n.max_level == max_level,
        n.current_level == 0,
        n.skill_point_cost == cost,
        n.prerequisites == prerequisites,
        n.skill_type == skill_type,
        n.unlocked == (tier == 1),
{
    SkillNode {
        id: String::from_str(id),
        name: String::from_str(name),
        description: String::from_str(description),
        tier,
        max_level,
        current_level: 0,
        skill_point_cost: cost,
        prerequisites,
        skill_type,
        unlocked: tier == 1,
    }
}

fn push_node(nodes: &mut Vec<SkillNode>, n: SkillNode, Ghost(c): Ghost<CharacterId>, Ghost(b): Ghost<int>)
    requires
        fresh_nodes(old(nodes)@),
        n.current_level == 0,
        n.unlocked == (n.tier == 1),
        forall|j: int| 0 <= j < old(nodes)@.len() ==> #[trigger] is_node(old(nodes)@[j], node_entry(c, b, j)),
        is_node(n, node_entry(c, b, old(nodes)@.len() as int)),
    ensures
        final(nodes)@ == old(nodes)@.push(n),
        fresh_nodes(final(nodes)@),
        forall|j: int| 0 <= j < final(nodes)@.len() ==> #[trigger] is_node(final(nodes)@[j], node_entry(c, b, j)),
{
    nodes.push(n);
}

impl SkillTreeManager {
    /// The skill tree of Bas, as `branch_entry` and `node_entry` list it.
    fn create_bas_tree() -> (t: SkillTree)
        ensures
            is_listed_tree(t, CharacterId::Bas),
            fresh_nodes(t.nodes()),
    {
        let mut offense: Vec<SkillNode> = Vec::new();
        push_node(&mut offense, node("bas_off_1", "Sweeping Strike", "Increase damage by 5% per level", 1, 5, 1, no_prerequisites(), SkillType::DamageIncrease(5)), Ghost(CharacterId::Bas), Ghost(0int));
        push_node(&mut offense, node("bas_off_2", "Precision Sweeping", "Gain 2% critical hit chance per level", 1, 5, 1, no_prerequisites(), SkillType::CriticalChance(2)), Ghost(CharacterId::Bas), Ghost(0int));
        push_node(&mut offense, node("bas_off_3", "Veeg Fury", "Increase attack speed by 8% per level", 2, 3, 2, one_prerequisite("bas_off_1"), SkillType::AttackSpeed(8)), Ghost(CharacterId::Bas), Ghost(0int));
        push_node(&mut offense, node("bas_off_4", "Splash Damage", "Increase AoE radius by 15% per level (enhances Bas Veeg ability)", 2, 3, 2, one_prerequisite("bas_off_1"), SkillType::AreaOfEffect(15)), Ghost(CharacterId::Bas), Ghost(0int));
        push_node(&mut offense, node("bas_off_5", "Brutal Cleaning", "Critical hits deal 20% more damage per level", 3, 3, 3, two_prerequisites("bas_off_2", "bas_off_3"), SkillType::CriticalDamage(20)), Ghost(CharacterId::Bas), Ghost(0int));
        push_node(&mut offense, node("bas_off_6", "Chain Sweeping", "Add 1 extra hit to combo chains per level", 4, 2, 4, one_prerequisite("bas_off_5"), SkillType::ComboExtension(1)), Ghost(CharacterId::Bas), Ghost(0int));
        push_node(&mut offense, node("bas_off_7", "Ultimate Veeg", "Bas Veeg ability now creates a vortex that pulls enemies", 5, 1, 5, one_prerequisite("bas_off_6"), SkillType::UnlockAbility(String::from_str("VeegVortex"))), Ghost(CharacterId::Bas), Ghost(0int));
        let mut defense: Vec<SkillNode> = Vec::new();
        push_node(&mut defense, node("bas_def_1", "Sturdy Apron", "Increase max health by 8% per level", 1, 5, 1, no_prerequisites(), SkillType::MaxHealthIncrease(8)), Ghost(CharacterId::Bas), Ghost(1int));
        push_node(&mut defense, node("bas_def_2", "Tough Cleaning", "Reduce damage taken by 3% per level", 1, 5, 1, no_prerequisites(), SkillType::DamageReduction(3)), Ghost(CharacterId::Bas), Ghost(1int));
        push_node(&mut defense, node("bas_def_3", "Nimble Janitor", "Gain 5% dodge chance per level", 2, 3, 2, one_prerequisite("bas_def_1"), SkillType::DodgeChance(5)), Ghost(CharacterId::Bas), Ghost(1int));
        push_node(&mut defense, node("bas_def_4", "Regeneration", "Regenerate 2 HP per second per level", 2, 3, 2, one_prerequisite("bas_def_1"), SkillType::HealthRegen(2)), Ghost(CharacterId::Bas), Ghost(1int));
        push_node(&mut defense, node("bas_def_5", "Slippery Floor", "Attackers have a chance to slip, taking 10% of damage dealt per level", 3, 3, 3, one_prerequisite("bas_def_2"), SkillType::Thorns(10)), Ghost(CharacterId::Bas), Ghost(1int));
        push_node(&mut defense, node("bas_def_6", "Unyielding", "Gain 10% resistance to stun and knockback per level", 4, 2, 4, one_prerequisite("bas_def_5"), SkillType::Resistance(10)), Ghost(CharacterId::Bas), Ghost(1int));
        push_node(&mut defense, node("bas_def_7", "Janitor's Last Stand", "When health drops below 25%, gain 50% damage reduction for 5 seconds (60s cooldown)", 5, 1, 5, one_prerequisite("bas_def_6"), SkillType::UnlockAbility(String::from_str("LastStand"))), Ghost(CharacterId::Bas), Ghost(1int));
        let mut utility: Vec<SkillNode> = Vec::new();
        push_node(&mut utility, node("bas_util_1", "Quick Pace", "Increase movement speed by 5% per level", 1, 5, 1, no_prerequisites(), SkillType::MovementSpeed(5)), Ghost(CharacterId::Bas), Ghost(2int));
        push_node(&mut utility, node("bas_util_2", "Efficient Cleaning", "Reduce ability cooldowns by 5% per level", 1, 5, 1, no_prerequisites(), SkillType::CooldownReduction(5)), Ghost(CharacterId::Bas), Ghost(2int));
        push_node(&mut utility, node("bas_util_3", "Extended Effect", "Increase ability duration by 10% per level", 2, 3, 2, one_prerequisite("bas_util_2"), SkillType::AbilityDuration(10)), Ghost(CharacterId::Bas), Ghost(2int));
        push_node(&mut utility, node("bas_util_4", "Hard Worker", "Gain 10% more currency and XP per level", 2, 3, 2, one_prerequisite("bas_util_1"), SkillType::ResourceGain(10)), Ghost(CharacterId::Bas), Ghost(2int));
        push_node(&mut utility, node("bas_util_5", "Life Drain", "Gain 5% lifesteal per level", 3, 3, 3, one_prerequisite("bas_util_3"), SkillType::Lifesteal(5)), Ghost(CharacterId::Bas), Ghost(2int));
        push_node(&mut utility, node("bas_util_6", "Lucky Break", "Increase luck by 15% per level (better drops, rare events)", 4, 2, 4, one_prerequisite("bas_util_4"), SkillType::LuckBonus(15)), Ghost(CharacterId::Bas), Ghost(2int));
        push_node(&mut utility, node("bas_util_7", "Double Time", "10% chance to cast abilities twice", 5, 1, 5, two_prerequisites("bas_util_5", "bas_util_6"), SkillType::Multicast(10)), Ghost(CharacterId::Bas), Ghost(2int));
        let t = SkillTree {
            character: CharacterId::Bas,
            branch_offense: SkillBranch { name: String::from_str("Veeg Master"), description: String::from_str("Master the art of the veeg with devastating sweeping attacks"), nodes: offense },
            branch_defense: SkillBranch { name: String::from_str("Janitor's Fortitude"), description: String::from_str("Become as sturdy as the school buildings you clean"), nodes: defense },
            branch_utility: SkillBranch { name: String::from_str("Efficient Worker"), description: String::from_str("Work smarter, not harder - utility and support skills"), nodes: utility },
        };
        proof { lemma_fresh_concat3(t); }
        t
    }

    /// The skill tree of Berkay, as `branch_entry` and `node_entry` list it.
    fn create_berkay_tree() -> (t: SkillTree)
        ensures
            is_listed_tree(t, CharacterId::Berkay),
            fresh_nodes(t.nodes()),
    {
        let mut offense: Vec<SkillNode> = Vec::new();
        push_node(&mut offense, node("berkay_off_1", "Spicy Strikes", "Increase damage by 6% per level", 1, 5, 1, no_prerequisites(), SkillType::DamageIncrease(6)), Ghost(CharacterId::Berkay), Ghost(0int));
        let mut defense: Vec<SkillNode> = Vec::new();
        push_node(&mut defense, node("berkay_def_1", "Kebab Armor", "Increase max health by 10% per level", 1, 5, 1, no_prerequisites(), SkillType::MaxHealthIncrease(10)), Ghost(CharacterId::Berkay), Ghost(1int));
        let mut utility: Vec<SkillNode> = Vec::new();
        push_node(&mut utility, node("berkay_util_1", "Swift Service", "Increase movement speed by 6% per level", 1, 5, 1, no_prerequisites(), SkillType::MovementSpeed(6)), Ghost(CharacterId::Berkay), Ghost(2int));
        let t = SkillTree {
            character: CharacterId::Berkay,
            branch_offense: SkillBranch { name: String::from_str("Kebab Connoisseur"), description: String::from_str("Harness the power of the special kebab"), nodes: offense },
            branch_defense: SkillBranch { name: String::from_str("Meat Shield"), description: String::from_str("As filling as a good kebab"), nodes: defense },
            branch_utility: SkillBranch { name: String::from_str("Turkish Efficiency"), description: String::from_str("Work with the speed and precision of a kebab chef"), nodes: utility },
        };
        proof { lemma_fresh_concat3(t); }
        t
    }

    /// The skill tree of Luca, as `branch_entry` and `node_entry` list it.
    fn create_luca_tree() -> (t: SkillTree)
        ensures
            is_listed_tree(t, CharacterId::Luca),
            fresh_nodes(t.nodes()),
    {
        let mut offense: Vec<SkillNode> = Vec::new();
        push_node(&mut offense, node("luca_off_1", "Frozen Fury", "Increase damage by 7% per level", 1, 5, 1, no_prerequisites(), SkillType::DamageIncrease(7)), Ghost(CharacterId::Luca), Ghost(0int));
        let mut defense: Vec<SkillNode> = Vec::new();
        push_node(&mut defense, node("luca_def_1", "Frostbite Resistance", "Increase max health by 8% per level", 1, 5, 1, no_prerequisites(), SkillType::MaxHealthIncrease(8)), Ghost(CharacterId::Luca), Ghost(1int));
        let mut utility: Vec<SkillNode> = Vec::new();
        push_node(&mut utility, node("luca_util_1", "Blizzard Sprint", "Increase movement speed by 7% per level", 1, 5, 1, no_prerequisites(), SkillType::MovementSpeed(7)), Ghost(CharacterId::Luca), Ghost(2int));
        let t = SkillTree {
            character: CharacterId::Luca,
            branch_offense: SkillBranch { name: String::from_str("Winter Arc Warrior"), description: String::from_str("Embrace the cold and unleash devastating power"), nodes: offense },
            branch_defense: SkillBranch { name: String::from_str("Ice Armor"), description: String::from_str("Cold as ice, hard to break"), nodes: defense },
            branch_utility: SkillBranch { name: String::from_str("Arctic Agility"), description: String::from_str("Move with the speed of a winter wind"), nodes: utility },
        };
        proof { lemma_fresh_concat3(t); }
        t
    }


    /// Trees for Bas (21 nodes), Berkay and Luca (3 nodes each), as
    /// `branch_entry` and `node_entry` list them, nobody else; no node bought
    /// and no skill point for anyone.
    pub fn new() -> (m: SkillTreeManager)
        ensures
            m.wf(),
            m.tree_of(CharacterId::Bas) matches Some(t) && is_listed_tree(t, CharacterId::Bas),
            m.tree_of(CharacterId::Bas)->0.nodes().len() == 21,
            m.tree_of(CharacterId::Berkay) matches Some(t) && is_listed_tree(t, CharacterId::Berkay),
            m.tree_of(CharacterId::Berkay)->0.nodes().len() == 3,
            m.tree_of(CharacterId::Luca) matches Some(t) && is_listed_tree(t, CharacterId::Luca),
            m.tree_of(CharacterId::Luca)->0.nodes().len() == 3,
            forall|c: CharacterId| c != CharacterId::Bas && c != CharacterId::Berkay && c != CharacterId::Luca
                ==> m.tree_of(c) is None,
            forall|c: CharacterId| m.tree_of(c) is Some ==> fresh_nodes(m.tree_of(c)->0.nodes()),
            forall|c: CharacterId| m.points_of(c) == 0,
    {
        let mut trees: Vec<Option<SkillTree>> = Vec::new();
        let mut skill_points: Vec<u32> = Vec::new();
        let mut i: usize = 0;
        while i < CHARACTER_COUNT
            invariant
                0 <= i <= CHARACTER_COUNT,
                trees@.len() == i,
                skill_points@.len() == i,
                forall|j: int| 0 <= j < i ==> trees@[j] is None,
                forall|j: int| 0 <= j < i ==> skill_points@[j] == 0,
            decreases CHARACTER_COUNT - i,
        {
            trees.push(None);
            skill_points.push(0);
            i = i + 1;
        }
        let bas = Self::create_bas_tree();
        let berkay = Self::create_berkay_tree();
        let luca = Self::create_luca_tree();
        proof {
            lemma_listed_tree_len(bas, CharacterId::Bas);
            lemma_listed_tree_len(berkay, CharacterId::Berkay);
            lemma_listed_tree_len(luca, CharacterId::Luca);
        }
        trees.set(CharacterId::Bas.slot(), Some(bas));
        trees.set(CharacterId::Berkay.slot(), Some(berkay));
        trees.set(CharacterId::Luca.slot(), Some(luca));
        let m = SkillTreeManager { trees, skill_points };
        assert forall|c: CharacterId| c != CharacterId::Bas && c != CharacterId::Berkay && c != CharacterId::Luca
            implies m.tree_of(c) is None by {
            assert(char_index(c) != 3 && char_index(c) != 0 && char_index(c) != 1);
        }
        m
    }
}

} // verus!
