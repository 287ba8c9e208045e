//! Distribution of rounding-and-smoothing budgets among the four corners of a
//! rectangle: the adjacency relation between corners and sides, the descending
//! radius order in which corners are processed, and, for each corner and each
//! of its two shared sides, which budget formula applies.

use vstd::prelude::*;

verus! {

/// One of the four corner identities of a rectangle.
#[derive(Clone, Copy, Debug, PartialEq, Eq, Structural)]
pub enum Corner {
    TopLeft,
    TopRight,
    BottomLeft,
    BottomRight,
}

/// One of the four sides of a rectangle.
#[derive(Clone, Copy, Debug, PartialEq, Eq, Structural)]
pub enum Side {
    Top,
    Left,
    Right,
    Bottom,
}

/// A neighbour of a corner, together with the side the two corners share.
#[derive(Clone, Copy, Debug, PartialEq, Eq, Structural)]
pub struct Adjacent {
    pub corner: Corner,
    pub side: Side,
}

/// The fixed adjacency relation: each corner has exactly two neighbours, one
/// along each of the two sides that meet at the corner.
pub open spec fn adjacents_of(corner: Corner) -> (Adjacent, Adjacent) {
    match corner {
        Corner::TopLeft => (
            Adjacent { corner: Corner::TopRight, side: Side::Top },
            Adjacent { corner: Corner::BottomLeft, side: Side::Left },
        ),
        Corner::TopRight => (
            Adjacent { corner: Corner::TopLeft, side: Side::Top },
            Adjacent { corner: Corner::BottomRight, side: Side::Right },
        ),
        Corner::BottomLeft => (
            Adjacent { corner: Corner::BottomRight, side: Side::Bottom },
            Adjacent { corner: Corner::TopLeft, side: Side::Left },
        ),
        Corner::BottomRight => (
            Adjacent { corner: Corner::BottomLeft, side: Side::Bottom },
            Adjacent { corner: Corner::TopRight, side: Side::Right },
        ),
    }
}

/// The two neighbours of `corner`, each with the shared side.
pub fn get_adjacents(corner: &Corner) -> (r: (Adjacent, Adjacent))
    ensures
        r == adjacents_of(*corner),
{
    match corner {
        Corner::TopLeft => (
            Adjacent { corner: Corner::TopRight, side: Side::Top },
            Adjacent { corner: Corner::BottomLeft, side: Side::Left },
        ),
        Corner::TopRight => (
            Adjacent { corner: Corner::TopLeft, side: Side::Top },
            Adjacent { corner: Corner::BottomRight, side: Side::Right },
        ),
        Corner::BottomLeft => (
            Adjacent { corner: Corner::BottomRight, side: Side::Bottom },
            Adjacent { corner: Corner::TopLeft, side: Side::Left },
        ),
        Corner::BottomRight => (
            Adjacent { corner: Corner::BottomLeft, side: Side::Bottom },
            Adjacent { corner: Corner::TopRight, side: Side::Right },
        ),
    }
}

/// `a` and `b` are neighbours that share the side `s`.
pub open spec fn shares_side(a: Corner, b: Corner, s: Side) -> bool {
    let (adj1, adj2) = adjacents_of(a);
    (adj1.corner == b && adj1.side == s) || (adj2.corner == b && adj2.side == s)
}

/// `a` and `b` are neighbours along some side.
pub open spec fn are_adjacent(a: Corner, b: Corner) -> bool {
    exists|s: Side| shares_side(a, b, s)
}

/// Adjacency is symmetric: if `b` is a neighbour of `a` along side `s`, then
/// `a` is a neighbour of `b` along the same side.
pub proof fn lemma_adjacency_symmetric(a: Corner, b: Corner, s: Side)
    ensures
        shares_side(a, b, s) == shares_side(b, a, s),
{
}

/// A corner's two neighbours are distinct corners, reached along distinct
/// sides, and neither of them is the corner itself.
pub proof fn lemma_adjacents_distinct(c: Corner)
    ensures
        adjacents_of(c).0.corner != adjacents_of(c).1.corner,
        adjacents_of(c).0.side != adjacents_of(c).1.side,
        adjacents_of(c).0.corner != c,
        adjacents_of(c).1.corner != c,
{
}

/// The key a corner carries into the ordering: an order-preserving integer
/// image of the corner's raw radius, zero exactly when the radius is zero.
pub open spec fn corner_key(
    corner: Corner,
    top_left: u64,
    top_right: u64,
    bottom_left: u64,
    bottom_right: u64,
) -> u64 {
    match corner {
        Corner::TopLeft => top_left,
        Corner::TopRight => top_right,
        Corner::BottomLeft => bottom_left,
        Corner::BottomRight => bottom_right,
    }
}

/// The fixed tie-break rank of a corner: its position in the declaration
/// order top-left, top-right, bottom-left, bottom-right. Corners whose keys
/// are equal keep this order when sorted.
pub open spec fn corner_rank(corner: Corner) -> int {
    match corner {
        Corner::TopLeft => 0,
        Corner::TopRight => 1,
        Corner::BottomLeft => 2,
        Corner::BottomRight => 3,
    }
}

/// The key of `corner` among the four given per-corner keys.
pub fn corner_key_of(
    corner: &Corner,
    top_left: u64,
    top_right: u64,
    bottom_left: u64,
    bottom_right: u64,
) -> (r: u64)
    ensures
        r == corner_key(*corner, top_left, top_right, bottom_left, bottom_right),
{
    match corner {
        Corner::TopLeft => top_left,
        Corner::TopRight => top_right,
        Corner::BottomLeft => bottom_left,
        Corner::BottomRight => bottom_right,
    }
}

/// The four corners ordered by their keys, largest first, stably: corners
/// with equal keys keep the declaration order. Distribution processes
/// corners in this order, largest raw radius first.
pub fn order_corners_by_radius_desc(
    top_left: u64,
    top_right: u64,
    bottom_left: u64,
    bottom_right: u64,
) -> (order: Vec<Corner>)
    ensures
        order@.len() == 4,
        forall|i: int, j: int| 0 <= i < j < 4 ==> order@[i] != order@[j],
        forall|i: int, j: int|
            0 <= i < j < 4 ==> corner_key(order@[i], top_left, top_right, bottom_left, bottom_right)
                >= corner_key(order@[j], top_left, top_right, bottom_left, bottom_right),
        forall|i: int, j: int|
            0 <= i < j < 4 && corner_key(order@[i], top_left, top_right, bottom_left, bottom_right)
                == corner_key(order@[j], top_left, top_right, bottom_left, bottom_right)
                ==> corner_rank(order@[i]) < corner_rank(order@[j]),
{
    let mut c0 = Corner::TopLeft;
    let mut c1 = Corner::TopRight;
    let mut c2 = Corner::BottomLeft;
    let mut c3 = Corner::BottomRight;
    let mut k0 = top_left;
    let mut k1 = top_right;
    let mut k2 = bottom_left;
    let mut k3 = bottom_right;
    // A stable sorting network: adjacent pairs swap only on a strict
    // key increase, so equal keys never change their relative order.
    if k0 < k1 {
        let c = c0; c0 = c1; c1 = c;
        let k = k0; k0 = k1; k1 = k;
    }
    if k1 < k2 {
        let c = c1; c1 = c2; c2 = c;
        let k = k1; k1 = k2; k2 = k;
    }
    if k2 < k3 {
        let c = c2; c2 = c3; c3 = c;
        let k = k2; k2 = k3; k3 = k;
    }
    if k0 < k1 {
        let c = c0; c0 = c1; c1 = c;
        let k = k0; k0 = k1; k1 = k;
    }
    if k1 < k2 {
        let c = c1; c1 = c2; c2 = c;
        let k = k1; k1 = k2; k2 = k;
    }
    if k0 < k1 {
        let c = c0; c0 = c1; c1 = c;
        let k = k0; k0 = k1; k1 = k;
    }
    let mut order: Vec<Corner> = Vec::new();
    order.push(c0);
    order.push(c1);
    order.push(c2);
    order.push(c3);
    proof {
        assert(order@ =~= seq![c0, c1, c2, c3]);
    }
    order
}

/// Which formula yields a corner's budget along one shared side.
#[derive(Clone, Copy, Debug, PartialEq, Eq, Structural)]
pub enum BudgetFormula {
    /// Both the corner's and the neighbour's raw radius are zero: the budget
    /// along this side is zero, and no proportional division is attempted.
    Zero,
    /// The neighbour was processed earlier, so its budget is already fixed:
    /// the corner takes whatever remains of the side.
    Leftover,
    /// Otherwise the side is split in proportion of the two raw radii.
    Proportional,
}

/// A corner's budget rule along one of its two sides: the neighbour at the
/// other end of the side, the side itself, and the formula that applies.
#[derive(Clone, Copy, Debug, PartialEq, Eq, Structural)]
pub struct AdjacentRule {
    pub adjacent: Corner,
    pub side: Side,
    pub formula: BudgetFormula,
}

/// One step of the distribution: the corner processed at this point of the
/// order, and its budget rule along each of its two sides. The corner's
/// budget is the minimum of the two sides' values, and its clamped radius
/// the minimum of its raw radius and that budget.
#[derive(Clone, Copy, Debug, PartialEq, Eq, Structural)]
pub struct CornerStep {
    pub corner: Corner,
    pub rule1: AdjacentRule,
    pub rule2: AdjacentRule,
}

/// The budget rule for one side: zero when both radii at its ends are zero,
/// the leftover of the side when the neighbour's budget is already fixed,
/// and the proportional split of the side otherwise.
pub open spec fn formula_for(
    current_zero: bool,
    adjacent_zero: bool,
    adjacent_assigned: bool,
) -> BudgetFormula {
    if current_zero && adjacent_zero {
        BudgetFormula::Zero
    } else if adjacent_assigned {
        BudgetFormula::Leftover
    } else {
        BudgetFormula::Proportional
    }
}

/// Executable form of the budget rule.
pub fn budget_formula(current_zero: bool, adjacent_zero: bool, adjacent_assigned: bool) -> (r:
    BudgetFormula)
    ensures
        r == formula_for(current_zero, adjacent_zero, adjacent_assigned),
{
    if current_zero && adjacent_zero {
        BudgetFormula::Zero
    } else if adjacent_assigned {
        BudgetFormula::Leftover
    } else {
        BudgetFormula::Proportional
    }
}

/// `corner` is processed at some step of `plan` strictly before step `i`.
pub open spec fn corner_assigned_before(plan: Seq<CornerStep>, i: int, corner: Corner) -> bool {
    exists|j: int| 0 <= j < i && plan[j].corner == corner
}

/// The rule `rule` is the correct one for the corner of step `i` toward its
/// neighbour `adj`: it names that neighbour and the shared side, and its
/// formula follows the budget rule, where a neighbour counts as assigned
/// exactly when it stands earlier in the plan.
pub open spec fn rule_matches(
    rule: AdjacentRule,
    current: Corner,
    adj: Adjacent,
    plan: Seq<CornerStep>,
    i: int,
    top_left: u64,
    top_right: u64,
    bottom_left: u64,
    bottom_right: u64,
) -> bool {
    &&& rule.adjacent == adj.corner
    &&& rule.side == adj.side
    &&& rule.formula == formula_for(
        corner_key(current, top_left, top_right, bottom_left, bottom_right) == 0,
        corner_key(adj.corner, top_left, top_right, bottom_left, bottom_right) == 0,
        corner_assigned_before(plan, i, adj.corner),
    )
}

/// Step `i` of `plan` carries the two correct rules for its corner, one per
/// adjacent side.
pub open spec fn step_ok(
    plan: Seq<CornerStep>,
    i: int,
    top_left: u64,
    top_right: u64,
    bottom_left: u64,
    bottom_right: u64,
) -> bool {
    let step = plan[i];
    let adj = adjacents_of(step.corner);
    &&& rule_matches(
        step.rule1,
        step.corner,
        adj.0,
        plan,
        i,
        top_left,
        top_right,
        bottom_left,
        bottom_right,
    )
    &&& rule_matches(
        step.rule2,
        step.corner,
        adj.1,
        plan,
        i,
        top_left,
        top_right,
        bottom_left,
        bottom_right,
    )
}

/// A well-formed distribution plan: the four corners each once, ordered by
/// key largest first with ties kept in declaration order, and each step
/// carrying the correct rule along each of its two sides.
pub open spec fn plan_wf(
    plan: Seq<CornerStep>,
    top_left: u64,
    top_right: u64,
    bottom_left: u64,
    bottom_right: u64,
) -> bool {
    &&& plan.len() == 4
    &&& forall|i: int, j: int| 0 <= i < j < 4 ==> plan[i].corner != plan[j].corner
    &&& forall|i: int, j: int|
        0 <= i < j < 4 ==> corner_key(
            plan[i].corner,
            top_left,
            top_right,
            bottom_left,
            bottom_right,
        ) >= corner_key(plan[j].corner, top_left, top_right, bottom_left, bottom_right)
    &&& forall|i: int, j: int|
        0 <= i < j < 4 && corner_key(plan[i].corner, top_left, top_right, bottom_left, bottom_right)
            == corner_key(plan[j].corner, top_left, top_right, bottom_left, bottom_right)
            ==> corner_rank(plan[i].corner) < corner_rank(plan[j].corner)
    &&& forall|i: int|
        0 <= i < 4 ==> step_ok(plan, i, top_left, top_right, bottom_left, bottom_right)
}

/// Whether `corner` stands among the first `upto` entries of `order`.
fn corner_in_prefix(order: &Vec<Corner>, upto: usize, corner: Corner) -> (r: bool)
    requires
        upto <= order@.len(),
    ensures
        r == exists|k: int| 0 <= k < upto && order@[k] == corner,
{
    let mut j: usize = 0;
    let mut found = false;
    while j < upto
        invariant
            j <= upto,
            upto <= order@.len(),
            found == exists|k: int| 0 <= k < j && order@[k] == corner,
        decreases upto - j,
    {
        if order[j] == corner {
            found = true;
        }
        j = j + 1;
    }
    found
}

/// Appending a step to a plan does not change which corners stand before an
/// index that lay within the old plan.
proof fn lemma_assigned_before_push(plan: Seq<CornerStep>, step: CornerStep, i: int, c: Corner)
    requires
        0 <= i <= plan.len(),
    ensures
        corner_assigned_before(plan.push(step), i, c) == corner_assigned_before(plan, i, c),
{
    if corner_assigned_before(plan.push(step), i, c) {
        let k = choose|k: int| 0 <= k < i && plan.push(step)[k].corner == c;
        assert(plan[k].corner == c);
    }
    if corner_assigned_before(plan, i, c) {
        let k = choose|k: int| 0 <= k < i && plan[k].corner == c;
        assert(plan.push(step)[k].corner == c);
    }
}

/// The full distribution plan for the four per-corner keys: the corners in
/// processing order, each with the formula that decides its budget along
/// each of its two sides. A caller evaluates the steps in order, taking for
/// each corner the minimum of its two sides' values as the budget and the
/// minimum of raw radius and budget as the clamped radius.
#[verifier::rlimit(60)]
pub fn plan_distribution(
    top_left: u64,
    top_right: u64,
    bottom_left: u64,
    bottom_right: u64,
) -> (plan: Vec<CornerStep>)
    ensures
        plan_wf(plan@, top_left, top_right, bottom_left, bottom_right),
{
    let order = order_corners_by_radius_desc(top_left, top_right, bottom_left, bottom_right);
    let mut plan: Vec<CornerStep> = Vec::new();
    let mut i: usize = 0;
    while i < 4
        invariant
            i <= 4,
            order@.len() == 4,
            plan@.len() == i,
            forall|j: int| 0 <= j < i ==> plan@[j].corner == order@[j],
            forall|j: int|
                0 <= j < i ==> step_ok(plan@, j, top_left, top_right, bottom_left, bottom_right),
        decreases 4 - i,
    {
        let corner = order[i];
        let (adj1, adj2) = get_adjacents(&corner);
        let current_zero = corner_key_of(&corner, top_left, top_right, bottom_left, bottom_right)
            == 0;
        let adj1_zero = corner_key_of(&adj1.corner, top_left, top_right, bottom_left, bottom_right)
            == 0;
        let adj2_zero = corner_key_of(&adj2.corner, top_left, top_right, bottom_left, bottom_right)
            == 0;
        let adj1_assigned = corner_in_prefix(&order, i, adj1.corner);
        let adj2_assigned = corner_in_prefix(&order, i, adj2.corner);
        let rule1 = AdjacentRule {
            adjacent: adj1.corner,
            side: adj1.side,
            formula: budget_formula(current_zero, adj1_zero, adj1_assigned),
        };
        let rule2 = AdjacentRule {
            adjacent: adj2.corner,
            side: adj2.side,
            formula: budget_formula(current_zero, adj2_zero, adj2_assigned),
        };
        let ghost old_plan = plan@;
        let new_step = CornerStep { corner, rule1, rule2 };
        plan.push(new_step);
        proof {
            assert forall|j: int| 0 <= j < i implies step_ok(
                plan@,
                j,
                top_left,
                top_right,
                bottom_left,
                bottom_right,
            ) by {
                assert(step_ok(old_plan, j, top_left, top_right, bottom_left, bottom_right));
                lemma_assigned_before_push(
                    old_plan,
                    new_step,
                    j,
                    adjacents_of(old_plan[j].corner).0.corner,
                );
                lemma_assigned_before_push(
                    old_plan,
                    new_step,
                    j,
                    adjacents_of(old_plan[j].corner).1.corner,
                );
                assert(plan@[j] == old_plan[j]);
            }
            assert(corner_assigned_before(plan@, i as int, adj1.corner) == adj1_assigned) by {
                lemma_assigned_before_push(old_plan, new_step, i as int, adj1.corner);
                if corner_assigned_before(old_plan, i as int, adj1.corner) {
                    let k = choose|k: int| 0 <= k < i && old_plan[k].corner == adj1.corner;
                    assert(order@[k] == adj1.corner);
                }
                if exists|k: int| 0 <= k < i && order@[k] == adj1.corner {
                    let k = choose|k: int| 0 <= k < i && order@[k] == adj1.corner;
                    assert(old_plan[k].corner == adj1.corner);
                }
            }
            assert(corner_assigned_before(plan@, i as int, adj2.corner) == adj2_assigned) by {
                lemma_assigned_before_push(old_plan, new_step, i as int, adj2.corner);
                if corner_assigned_before(old_plan, i as int, adj2.corner) {
                    let k = choose|k: int| 0 <= k < i && old_plan[k].corner == adj2.corner;
                    assert(order@[k] == adj2.corner);
                }
                if exists|k: int| 0 <= k < i && order@[k] == adj2.corner {
                    let k = choose|k: int| 0 <= k < i && order@[k] == adj2.corner;
                    assert(old_plan[k].corner == adj2.corner);
                }
            }
            assert(step_ok(plan@, i as int, top_left, top_right, bottom_left, bottom_right));
        }
        i = i + 1;
    }
    proof {
        assert forall|x: int, y: int| 0 <= x < y < 4 implies plan@[x].corner != plan@[y].corner
            && corner_key(plan@[x].corner, top_left, top_right, bottom_left, bottom_right)
            >= corner_key(plan@[y].corner, top_left, top_right, bottom_left, bottom_right) by {
            assert(plan@[x].corner == order@[x]);
            assert(plan@[y].corner == order@[y]);
        }
        assert forall|x: int, y: int|
            0 <= x < y < 4 && corner_key(
                plan@[x].corner,
                top_left,
                top_right,
                bottom_left,
                bottom_right,
            ) == corner_key(
                plan@[y].corner,
                top_left,
                top_right,
                bottom_left,
                bottom_right,
            ) implies corner_rank(plan@[x].corner) < corner_rank(plan@[y].corner) by {
            assert(plan@[x].corner == order@[x]);
            assert(plan@[y].corner == order@[y]);
        }
    }
    plan
}

/// The rule of `step` whose neighbour is `corner`; meaningful when `corner`
/// is in fact one of the two neighbours of the step's corner.
pub open spec fn step_rule_toward(step: CornerStep, corner: Corner) -> AdjacentRule {
    if step.rule1.adjacent == corner {
        step.rule1
    } else {
        step.rule2
    }
}

/// The proportional split divides the side by the sum of the two raw radii.
/// A well-formed plan chooses it only when at least one of the two radii is
/// nonzero, so the division never sees a zero denominator.
pub proof fn lemma_proportional_needs_nonzero_pair(
    plan: Seq<CornerStep>,
    top_left: u64,
    top_right: u64,
    bottom_left: u64,
    bottom_right: u64,
    i: int,
)
    requires
        plan_wf(plan, top_left, top_right, bottom_left, bottom_right),
        0 <= i < 4,
    ensures
        plan[i].rule1.formula == BudgetFormula::Proportional ==> !(corner_key(
            plan[i].corner,
            top_left,
            top_right,
            bottom_left,
            bottom_right,
        ) == 0 && corner_key(plan[i].rule1.adjacent, top_left, top_right, bottom_left, bottom_right)
            == 0),
        plan[i].rule2.formula == BudgetFormula::Proportional ==> !(corner_key(
            plan[i].corner,
            top_left,
            top_right,
            bottom_left,
            bottom_right,
        ) == 0 && corner_key(plan[i].rule2.adjacent, top_left, top_right, bottom_left, bottom_right)
            == 0),
{
    assert(step_ok(plan, i, top_left, top_right, bottom_left, bottom_right));
}

/// Structural half of budget conservation along one side. When the two
/// corners of a side both have nonzero raw radius, the earlier-processed
/// corner splits the side proportionally and the later-processed corner is
/// assigned exactly the remainder of the side. The two values claimed along
/// the side therefore sum to the side's length whenever the earlier corner's
/// budget is decided by this side rather than capped by its other side.
pub proof fn lemma_side_budgets_complementary(
    plan: Seq<CornerStep>,
    top_left: u64,
    top_right: u64,
    bottom_left: u64,
    bottom_right: u64,
    i: int,
    j: int,
)
    requires
        plan_wf(plan, top_left, top_right, bottom_left, bottom_right),
        0 <= i < j < 4,
        are_adjacent(plan[i].corner, plan[j].corner),
        corner_key(plan[i].corner, top_left, top_right, bottom_left, bottom_right) != 0,
        corner_key(plan[j].corner, top_left, top_right, bottom_left, bottom_right) != 0,
    ensures
        step_rule_toward(plan[j], plan[i].corner).formula == BudgetFormula::Leftover,
        step_rule_toward(plan[i], plan[j].corner).formula == BudgetFormula::Proportional,
{
    let a = plan[i].corner;
    let b = plan[j].corner;
    let s = choose|s: Side| shares_side(a, b, s);
    lemma_adjacency_symmetric(a, b, s);
    lemma_adjacents_distinct(a);
    lemma_adjacents_distinct(b);
    assert(step_ok(plan, i, top_left, top_right, bottom_left, bottom_right));
    assert(step_ok(plan, j, top_left, top_right, bottom_left, bottom_right));
    assert(corner_assigned_before(plan, j, a)) by {
        assert(0 <= i < j && plan[i].corner == a);
    }
    assert(!corner_assigned_before(plan, i, b)) by {
        if corner_assigned_before(plan, i, b) {
            let k = choose|k: int| 0 <= k < i && plan[k].corner == b;
            assert(plan[k].corner != plan[j].corner);
        }
    }
}

/// Whether a side runs horizontally, so that its length is the rectangle's
/// width; the two vertical sides have the height as their length.
pub fn side_is_horizontal(side: &Side) -> (r: bool)
    ensures
        r == (*side == Side::Top || *side == Side::Bottom),
{
    match side {
        Side::Top | Side::Bottom => true,
        Side::Left | Side::Right => false,
    }
}

} // verus!
