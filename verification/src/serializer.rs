//! Result reducer: turns a raw optimizer solution plus the original instance
//! into a normalized, serializable report with placed items, utilization,
//! completeness status and an unplaced-item accounting, without assuming the
//! optimizer guarantees any ordering or completeness.
//!
//! Geometric quantities are plain integers in the caller's fixed-point
//! units; the reduction itself never divides, so utilization is carried as
//! an exact ratio.

use vstd::arithmetic::mul::lemma_mul_nonnegative;
use vstd::arithmetic::mul::lemma_mul_upper_bound;
use vstd::prelude::*;

verus! {

/// One item class of the instance: its external identifier and the area of
/// one unit, in squared input units.
#[derive(Clone, Copy, Debug, PartialEq, Eq, Structural)]
pub struct ItemClass {
    /// External identifier of the item class.
    pub id: u64,
    /// Area of a single unit of this item.
    pub area: u64,
}

/// One placed-item record: identifier, rotation and translation, copied
/// verbatim from the raw solution.
#[derive(Clone, Copy, Debug, PartialEq, Eq, Structural)]
pub struct PlacedItem {
    /// Identifier of the item class this unit belongs to.
    pub item_id: u64,
    /// Rotation of the placed unit, in degrees (fixed-point, caller's scale).
    pub rotation_degrees: i64,
    /// Horizontal position of the placed unit on the strip.
    pub position_x: i64,
    /// Vertical position of the placed unit on the strip.
    pub position_y: i64,
}

/// The original instance as this layer reads it: item classes with their
/// requested quantities, and the strip's fixed height.
#[derive(Clone, Debug)]
pub struct InstanceModel {
    /// The item classes and how many units of each were requested.
    pub items: Vec<(ItemClass, u64)>,
    /// Fixed height of the strip; only the width is optimized.
    pub strip_height: u64,
}

/// The raw solution as this layer reads it: the placed-item records in the
/// order the optimizer produced them, and the derived strip width.
#[derive(Clone, Debug)]
pub struct SolutionModel {
    /// Placed-item records, in the optimizer's insertion order.
    pub placed: Vec<PlacedItem>,
    /// Strip width the optimizer settled on.
    pub strip_width: u64,
}

/// Completeness of a run: whether every requested unit was placed.
#[derive(Clone, Copy, Debug, PartialEq, Eq, Structural)]
pub enum RunStatus {
    /// As many units were placed as were requested.
    Complete,
    /// Fewer units were placed than were requested.
    Partial,
}

impl RunStatus {
    /// The textual form used in serialized reports.
    pub fn text(&self) -> (r: String)
        ensures
            *self is Complete ==> r@ == "complete"@,
            *self is Partial ==> r@ == "partial"@,
    {
        match self {
            RunStatus::Complete => "complete".to_owned(),
            RunStatus::Partial => "partial".to_owned(),
        }
    }
}

/// Material utilization as an exact ratio: total item area over strip area.
/// The real value it denotes is `num / den`, and zero when `den` is zero.
#[derive(Clone, Copy, Debug, PartialEq, Eq, Structural)]
pub struct Utilization {
    /// Total area of all requested items.
    pub num: u128,
    /// Area of the strip: width times height.
    pub den: u128,
}

impl Utilization {
    /// Whether the denoted real value is zero: either no item area, or a
    /// zero strip area (where the ratio is defined as zero rather than a
    /// division error).
    pub open spec fn spec_is_zero(self) -> bool {
        self.num == 0 || self.den == 0
    }
}

/// Sum of the requested quantities over all item classes.
pub open spec fn spec_requested(items: Seq<(ItemClass, u64)>) -> int
    decreases items.len(),
{
    if items.len() == 0 {
        0
    } else {
        spec_requested(items.drop_last()) + items.last().1
    }
}

/// Total area of all requested items: unit area times quantity, summed.
pub open spec fn spec_total_area(items: Seq<(ItemClass, u64)>) -> int
    decreases items.len(),
{
    if items.len() == 0 {
        0
    } else {
        spec_total_area(items.drop_last()) + items.last().0.area * items.last().1
    }
}

/// How many placed records carry the given item identifier.
pub open spec fn spec_count_placed(placed: Seq<PlacedItem>, id: u64) -> int
    decreases placed.len(),
{
    if placed.len() == 0 {
        0
    } else {
        spec_count_placed(placed.drop_last(), id) + if placed.last().item_id == id {
            1int
        } else {
            0int
        }
    }
}

/// Units of one item class left unplaced: requested minus placed, saturating
/// at zero so an over-placing optimizer cannot drive it negative.
pub open spec fn spec_unplaced_qty(qty: u64, count: int) -> int {
    if count >= qty { 0 } else { qty - count }
}

/// The unplaced-item multiset, as a sequence: for each item class in
/// instance order, its identifier repeated once per unplaced unit.
pub open spec fn spec_unplaced_ids(items: Seq<(ItemClass, u64)>, placed: Seq<PlacedItem>) -> Seq<
    u64,
>
    decreases items.len(),
{
    if items.len() == 0 {
        Seq::empty()
    } else {
        spec_unplaced_ids(items.drop_last(), placed) + Seq::new(
            spec_unplaced_qty(
                items.last().1,
                spec_count_placed(placed, items.last().0.id),
            ) as nat,
            |i: int| items.last().0.id,
        )
    }
}

/// Item identifiers occur at most once among the instance's item classes.
pub open spec fn spec_unique_ids(items: Seq<(ItemClass, u64)>) -> bool {
    forall|i: int, j: int|
        0 <= i < j < items.len() ==> items[i].0.id != items[j].0.id
}

/// Some item class of the instance carries the given identifier.
pub open spec fn spec_has_id(items: Seq<(ItemClass, u64)>, id: u64) -> bool {
    exists|i: int| 0 <= i < items.len() && items[i].0.id == id
}

/// Every placed record refers to an item class of the instance.
pub open spec fn spec_ids_known(items: Seq<(ItemClass, u64)>, placed: Seq<PlacedItem>) -> bool {
    forall|k: int| 0 <= k < placed.len() ==> spec_has_id(items, #[trigger] placed[k].item_id)
}

/// No item class has more units placed than were requested.
pub open spec fn spec_counts_within(
    items: Seq<(ItemClass, u64)>,
    placed: Seq<PlacedItem>,
) -> bool {
    forall|i: int|
        0 <= i < items.len() ==> spec_count_placed(placed, #[trigger] items[i].0.id)
            <= items[i].1
}

/// Completeness judged by aggregate counts: complete iff at least as many
/// units were placed as requested.
pub open spec fn spec_status(placed_len: int, requested: int) -> RunStatus {
    if placed_len < requested {
        RunStatus::Partial
    } else {
        RunStatus::Complete
    }
}

/// The exact utilization ratio of a report: total requested item area over
/// strip area (width times height).
pub open spec fn spec_utilization(
    strip_width: u64,
    strip_height: u64,
    items: Seq<(ItemClass, u64)>,
) -> Utilization {
    Utilization {
        num: spec_total_area(items) as u128,
        den: (strip_width * strip_height) as u128,
    }
}

/// The normalized report of one run. Created once by `from_solution`,
/// immutable thereafter.
#[derive(Clone, Debug)]
pub struct NestingOutput {
    /// Name of the problem instance.
    pub instance_name: String,
    /// Strip width the optimizer settled on.
    pub strip_width: u64,
    /// Fixed strip height from the instance.
    pub strip_height: u64,
    /// Number of units successfully placed.
    pub total_items_placed: usize,
    /// The placed units, in the optimizer's insertion order.
    pub layouts: Vec<PlacedItem>,
    /// Material utilization as an exact ratio.
    pub utilization: Utilization,
    /// Total computation time, in milliseconds.
    pub computation_time_ms: u64,
    /// Whether every requested unit was placed.
    pub status: RunStatus,
    /// Total number of units requested.
    pub items_requested: Option<u64>,
    /// Identifiers of unplaced units, one entry per unplaced unit.
    pub unplaced_item_ids: Vec<u64>,
    /// Rendered vector graphic of the layout, set by the caller after
    /// generation.
    pub svg_string: Option<String>,
    /// The seed the run was driven with, attached by the composed entry
    /// point so the run is reproducible; `None` straight out of the reducer.
    pub seed_used: Option<u64>,
}

/// The sum of the requested quantities never shrinks when items are
/// appended, so every prefix sum is bounded by the total.
pub proof fn lemma_requested_prefix(items: Seq<(ItemClass, u64)>, n: int)
    requires
        0 <= n <= items.len(),
    ensures
        0 <= spec_requested(items.subrange(0, n)) <= spec_requested(items),
    decreases items.len() - n,
{
    if n == items.len() {
        assert(items.subrange(0, n) =~= items);
        lemma_requested_nonneg(items);
    } else {
        lemma_requested_prefix(items, n + 1);
        lemma_requested_nonneg(items.subrange(0, n));
        assert(items.subrange(0, n + 1).drop_last() =~= items.subrange(0, n));
    }
}

/// The requested-quantity sum is non-negative.
pub proof fn lemma_requested_nonneg(items: Seq<(ItemClass, u64)>)
    ensures
        spec_requested(items) >= 0,
    decreases items.len(),
{
    if items.len() > 0 {
        lemma_requested_nonneg(items.drop_last());
    }
}

/// Every prefix of the total-area sum is bounded by the whole sum.
pub proof fn lemma_area_prefix(items: Seq<(ItemClass, u64)>, n: int)
    requires
        0 <= n <= items.len(),
    ensures
        0 <= spec_total_area(items.subrange(0, n)) <= spec_total_area(items),
    decreases items.len() - n,
{
    if n == items.len() {
        assert(items.subrange(0, n) =~= items);
        lemma_area_nonneg(items);
    } else {
        lemma_area_prefix(items, n + 1);
        lemma_area_nonneg(items.subrange(0, n));
        let prefix = items.subrange(0, n + 1);
        assert(prefix.drop_last() =~= items.subrange(0, n));
        lemma_mul_nonnegative(prefix.last().0.area as int, prefix.last().1 as int);
    }
}

/// The total-area sum is non-negative.
pub proof fn lemma_area_nonneg(items: Seq<(ItemClass, u64)>)
    ensures
        spec_total_area(items) >= 0,
    decreases items.len(),
{
    if items.len() > 0 {
        lemma_area_nonneg(items.drop_last());
        lemma_mul_nonnegative(items.last().0.area as int, items.last().1 as int);
    }
}

/// A placed-record count is non-negative and bounded by the record count.
proof fn lemma_count_bounds(placed: Seq<PlacedItem>, id: u64)
    ensures
        0 <= spec_count_placed(placed, id) <= placed.len(),
    decreases placed.len(),
{
    if placed.len() > 0 {
        lemma_count_bounds(placed.drop_last(), id);
    }
}

/// Appending one placed record raises exactly the count of its own
/// identifier by one and leaves every other count unchanged.
proof fn lemma_count_push(placed: Seq<PlacedItem>, p: PlacedItem, id: u64)
    ensures
        spec_count_placed(placed.push(p), id) == spec_count_placed(placed, id) + if p.item_id
            == id {
            1int
        } else {
            0int
        },
{
    assert(placed.push(p).drop_last() =~= placed);
}

/// How many item classes of the instance carry the given identifier.
spec fn spec_id_occurrences(items: Seq<(ItemClass, u64)>, id: u64) -> int
    decreases items.len(),
{
    if items.len() == 0 {
        0
    } else {
        spec_id_occurrences(items.drop_last(), id) + if items.last().0.id == id {
            1int
        } else {
            0int
        }
    }
}

/// With unique identifiers, an identifier occurs exactly once among the item
/// classes when present, and zero times when absent.
proof fn lemma_occurrences_unique(items: Seq<(ItemClass, u64)>, id: u64)
    requires
        spec_unique_ids(items),
    ensures
        spec_has_id(items, id) ==> spec_id_occurrences(items, id) == 1,
        !spec_has_id(items, id) ==> spec_id_occurrences(items, id) == 0,
    decreases items.len(),
{
    if items.len() > 0 {
        let prefix = items.drop_last();
        assert(spec_unique_ids(prefix)) by {
            assert(forall|i: int, j: int|
                0 <= i < j < prefix.len() ==> prefix[i].0.id != prefix[j].0.id);
        }
        lemma_occurrences_unique(prefix, id);
        if items.last().0.id == id {
            assert(!spec_has_id(prefix, id)) by {
                if spec_has_id(prefix, id) {
                    let i = choose|i: int| 0 <= i < prefix.len() && prefix[i].0.id == id;
                    assert(items[i].0.id != items[items.len() - 1].0.id);
                }
            }
            assert(spec_has_id(items, id)) by {
                assert(items[items.len() - 1].0.id == id);
            }
        } else {
            if spec_has_id(items, id) {
                let i = choose|i: int| 0 <= i < items.len() && items[i].0.id == id;
                assert(0 <= i < prefix.len() && prefix[i].0.id == id);
            }
            if spec_has_id(prefix, id) {
                let i = choose|i: int| 0 <= i < prefix.len() && prefix[i].0.id == id;
                assert(0 <= i < items.len() && items[i].0.id == id);
            }
        }
    }
}

/// Sum, over all item classes, of how many placed records carry that class's
/// identifier.
spec fn spec_total_count(items: Seq<(ItemClass, u64)>, placed: Seq<PlacedItem>) -> int
    decreases items.len(),
{
    if items.len() == 0 {
        0
    } else {
        spec_total_count(items.drop_last(), placed) + spec_count_placed(
            placed,
            items.last().0.id,
        )
    }
}

/// With no placed records, every per-class count is zero.
proof fn lemma_total_count_empty(items: Seq<(ItemClass, u64)>, placed: Seq<PlacedItem>)
    requires
        placed.len() == 0,
    ensures
        spec_total_count(items, placed) == 0,
    decreases items.len(),
{
    if items.len() > 0 {
        lemma_total_count_empty(items.drop_last(), placed);
    }
}

/// Appending one placed record raises the summed counts by the number of
/// item classes carrying its identifier.
proof fn lemma_total_count_push(items: Seq<(ItemClass, u64)>, q: Seq<PlacedItem>, p: PlacedItem)
    ensures
        spec_total_count(items, q.push(p)) == spec_total_count(items, q) + spec_id_occurrences(
            items,
            p.item_id,
        ),
    decreases items.len(),
{
    if items.len() > 0 {
        lemma_total_count_push(items.drop_last(), q, p);
        lemma_count_push(q, p, items.last().0.id);
    }
}

/// When identifiers are unique and every placed record refers to a known
/// item class, the per-class counts sum up to the number of placed records:
/// each record is counted exactly once.
proof fn lemma_total_count_matches_placed(
    items: Seq<(ItemClass, u64)>,
    placed: Seq<PlacedItem>,
)
    requires
        spec_unique_ids(items),
        spec_ids_known(items, placed),
    ensures
        spec_total_count(items, placed) == placed.len(),
    decreases placed.len(),
{
    if placed.len() == 0 {
        lemma_total_count_empty(items, placed);
    } else {
        let q = placed.drop_last();
        let p = placed.last();
        assert(spec_ids_known(items, q)) by {
            assert(forall|k: int|
                0 <= k < q.len() ==> spec_has_id(items, #[trigger] q[k].item_id)) by {
                assert(forall|k: int| 0 <= k < q.len() ==> q[k] == placed[k]);
            }
        }
        lemma_total_count_matches_placed(items, q);
        lemma_total_count_push(items, q, p);
        assert(q.push(p) =~= placed);
        assert(spec_has_id(items, p.item_id)) by {
            assert(placed[placed.len() - 1].item_id == p.item_id);
        }
        lemma_occurrences_unique(items, p.item_id);
    }
}

/// As long as no class is over-placed, the unplaced multiset is exactly as
/// large as the requested total minus the summed per-class counts.
proof fn lemma_unplaced_len(items: Seq<(ItemClass, u64)>, placed: Seq<PlacedItem>)
    requires
        spec_counts_within(items, placed),
    ensures
        spec_unplaced_ids(items, placed).len() == spec_requested(items) - spec_total_count(
            items,
            placed,
        ),
    decreases items.len(),
{
    if items.len() > 0 {
        let prefix = items.drop_last();
        assert(spec_counts_within(prefix, placed)) by {
            assert(forall|i: int| 0 <= i < prefix.len() ==> prefix[i] == items[i]);
        }
        lemma_unplaced_len(prefix, placed);
        lemma_count_bounds(placed, items.last().0.id);
        assert(spec_count_placed(placed, items[items.len() - 1].0.id) <= items[items.len()
            - 1].1);
    }
}

/// Conservation of items: when the instance's identifiers are unique, every
/// placed record refers to a known item class, and no class is over-placed,
/// the number of placed units plus the size of the unplaced multiset equals
/// the number of requested units.
pub proof fn lemma_item_conservation(items: Seq<(ItemClass, u64)>, placed: Seq<PlacedItem>)
    requires
        spec_unique_ids(items),
        spec_ids_known(items, placed),
        spec_counts_within(items, placed),
    ensures
        placed.len() + spec_unplaced_ids(items, placed).len() == spec_requested(items),
{
    lemma_total_count_matches_placed(items, placed);
    lemma_unplaced_len(items, placed);
}

/// When the strip area is positive and the requested items' total area does
/// not exceed it, the utilization ratio lies in the unit interval: its
/// numerator is at most its denominator.
pub proof fn lemma_utilization_in_unit_interval(
    strip_width: u64,
    strip_height: u64,
    items: Seq<(ItemClass, u64)>,
)
    requires
        spec_total_area(items) <= strip_width * strip_height,
    ensures
        spec_utilization(strip_width, strip_height, items).num <= spec_utilization(
            strip_width,
            strip_height,
            items,
        ).den,
{
    lemma_area_nonneg(items);
    lemma_mul_upper_bound(
        strip_width as int,
        u64::MAX as int,
        strip_height as int,
        u64::MAX as int,
    );
}

/// When the strip area is zero, the utilization ratio denotes exactly zero
/// rather than raising a division error.
pub proof fn lemma_utilization_zero_strip(
    strip_width: u64,
    strip_height: u64,
    items: Seq<(ItemClass, u64)>,
)
    requires
        strip_width == 0 || strip_height == 0,
    ensures
        spec_utilization(strip_width, strip_height, items).spec_is_zero(),
{
    if strip_width == 0 {
        vstd::arithmetic::mul::lemma_mul_basics(strip_height as int);
    } else {
        vstd::arithmetic::mul::lemma_mul_basics(strip_width as int);
    }
}

/// Counts how many placed records carry the given identifier.
fn count_placed(placed: &Vec<PlacedItem>, id: u64) -> (c: u64)
    ensures
        c == spec_count_placed(placed@, id),
{
    let mut c: u64 = 0;
    let mut i: usize = 0;
    proof {
        lemma_count_bounds(placed@, id);
    }
    while i < placed.len()
        invariant
            0 <= i <= placed.len(),
            c == spec_count_placed(placed@.subrange(0, i as int), id),
            c <= i,
        decreases placed.len() - i,
    {
        proof {
            assert(placed@.subrange(0, i + 1).drop_last() =~= placed@.subrange(0, i as int));
            assert(placed@.subrange(0, i + 1).last() == placed@[i as int]);
        }
        if placed[i].item_id == id {
            c = c + 1;
        }
        i = i + 1;
    }
    proof {
        assert(placed@.subrange(0, placed@.len() as int) =~= placed@);
    }
    c
}

/// Sums the requested quantities over all item classes.
fn total_requested(items: &Vec<(ItemClass, u64)>) -> (t: u64)
    requires
        spec_requested(items@) <= u64::MAX,
    ensures
        t == spec_requested(items@),
{
    let mut t: u64 = 0;
    let mut i: usize = 0;
    while i < items.len()
        invariant
            0 <= i <= items.len(),
            spec_requested(items@) <= u64::MAX,
            t == spec_requested(items@.subrange(0, i as int)),
        decreases items.len() - i,
    {
        proof {
            assert(items@.subrange(0, i + 1).drop_last() =~= items@.subrange(0, i as int));
            assert(items@.subrange(0, i + 1).last() == items@[i as int]);
            lemma_requested_prefix(items@, i + 1);
        }
        t = t + items[i].1;
        i = i + 1;
    }
    proof {
        assert(items@.subrange(0, items@.len() as int) =~= items@);
    }
    t
}

/// Sums the total requested item area over all item classes.
fn total_item_area(items: &Vec<(ItemClass, u64)>) -> (a: u128)
    requires
        spec_total_area(items@) <= u128::MAX,
    ensures
        a == spec_total_area(items@),
{
    let mut a: u128 = 0;
    let mut i: usize = 0;
    while i < items.len()
        invariant
            0 <= i <= items.len(),
            spec_total_area(items@) <= u128::MAX,
            a == spec_total_area(items@.subrange(0, i as int)),
        decreases items.len() - i,
    {
        proof {
            assert(items@.subrange(0, i + 1).drop_last() =~= items@.subrange(0, i as int));
            assert(items@.subrange(0, i + 1).last() == items@[i as int]);
            lemma_area_prefix(items@, i + 1);
            lemma_mul_upper_bound(
                items@[i as int].0.area as int,
                u64::MAX as int,
                items@[i as int].1 as int,
                u64::MAX as int,
            );
            lemma_mul_nonnegative(items@[i as int].0.area as int, items@[i as int].1 as int);
        }
        let product = (items[i].0.area as u128) * (items[i].1 as u128);
        a = a + product;
        i = i + 1;
    }
    proof {
        assert(items@.subrange(0, items@.len() as int) =~= items@);
    }
    a
}

/// Whether the requested-quantity sum of the instance fits in 64 bits, as
/// `from_solution` requires.
pub fn requested_fits(items: &Vec<(ItemClass, u64)>) -> (b: bool)
    ensures
        b == (spec_requested(items@) <= u64::MAX),
{
    let mut t: u64 = 0;
    let mut i: usize = 0;
    while i < items.len()
        invariant
            0 <= i <= items.len(),
            t == spec_requested(items@.subrange(0, i as int)),
        decreases items.len() - i,
    {
        proof {
            assert(items@.subrange(0, i + 1).drop_last() =~= items@.subrange(0, i as int));
            assert(items@.subrange(0, i + 1).last() == items@[i as int]);
        }
        match t.checked_add(items[i].1) {
            Some(next) => {
                t = next;
            },
            None => {
                proof {
                    lemma_requested_prefix(items@, i + 1);
                }
                return false;
            },
        }
        i = i + 1;
    }
    proof {
        assert(items@.subrange(0, items@.len() as int) =~= items@);
    }
    true
}

/// Whether the total requested item area of the instance fits in 128 bits,
/// as `from_solution` requires.
pub fn area_fits(items: &Vec<(ItemClass, u64)>) -> (b: bool)
    ensures
        b == (spec_total_area(items@) <= u128::MAX),
{
    let mut a: u128 = 0;
    let mut i: usize = 0;
    while i < items.len()
        invariant
            0 <= i <= items.len(),
            a == spec_total_area(items@.subrange(0, i as int)),
        decreases items.len() - i,
    {
        proof {
            assert(items@.subrange(0, i + 1).drop_last() =~= items@.subrange(0, i as int));
            assert(items@.subrange(0, i + 1).last() == items@[i as int]);
            lemma_mul_upper_bound(
                items@[i as int].0.area as int,
                u64::MAX as int,
                items@[i as int].1 as int,
                u64::MAX as int,
            );
            lemma_mul_nonnegative(items@[i as int].0.area as int, items@[i as int].1 as int);
        }
        let product = (items[i].0.area as u128) * (items[i].1 as u128);
        match a.checked_add(product) {
            Some(next) => {
                a = next;
            },
            None => {
                proof {
                    lemma_area_prefix(items@, i + 1);
                }
                return false;
            },
        }
        i = i + 1;
    }
    proof {
        assert(items@.subrange(0, items@.len() as int) =~= items@);
    }
    true
}

impl NestingOutput {
    /// Reduces a raw solution and the original instance into the normalized
    /// report: placed records are copied verbatim in insertion order,
    /// utilization is the exact ratio of requested item area to strip area,
    /// the status compares aggregate counts, and the unplaced multiset holds
    /// one identifier per unplaced unit, saturating per class at zero.
    pub fn from_solution(
        solution: &SolutionModel,
        instance: &InstanceModel,
        instance_name: String,
        computation_time_ms: u64,
    ) -> (r: NestingOutput)
        requires
            spec_requested(instance.items@) <= u64::MAX,
            spec_total_area(instance.items@) <= u128::MAX,
        ensures
            r.instance_name == instance_name,
            r.strip_width == solution.strip_width,
            r.strip_height == instance.strip_height,
            r.layouts@ == solution.placed@,
            r.total_items_placed == solution.placed@.len(),
            r.utilization == spec_utilization(
                solution.strip_width,
                instance.strip_height,
                instance.items@,
            ),
            r.computation_time_ms == computation_time_ms,
            r.status == spec_status(
                solution.placed@.len() as int,
                spec_requested(instance.items@),
            ),
            r.items_requested == Some((spec_requested(instance.items@) as u64)),
            r.unplaced_item_ids@ == spec_unplaced_ids(instance.items@, solution.placed@),
            r.svg_string is None,
            r.seed_used is None,
            (spec_unique_ids(instance.items@) && spec_ids_known(instance.items@, solution.placed@)
                && spec_counts_within(instance.items@, solution.placed@))
                ==> r.total_items_placed + r.unplaced_item_ids@.len() == spec_requested(
                instance.items@,
            ),
    {
        proof {
            if spec_unique_ids(instance.items@) && spec_ids_known(
                instance.items@,
                solution.placed@,
            ) && spec_counts_within(instance.items@, solution.placed@) {
                lemma_item_conservation(instance.items@, solution.placed@);
            }
        }
        let mut layouts: Vec<PlacedItem> = Vec::new();
        let mut i: usize = 0;
        while i < solution.placed.len()
            invariant
                0 <= i <= solution.placed.len(),
                layouts@ == solution.placed@.subrange(0, i as int),
            decreases solution.placed.len() - i,
        {
            layouts.push(solution.placed[i]);
            proof {
                assert(layouts@ =~= solution.placed@.subrange(0, i + 1));
            }
            i = i + 1;
        }
        proof {
            assert(solution.placed@.subrange(0, solution.placed@.len() as int)
                =~= solution.placed@);
        }
        let total_items_placed = layouts.len();

        let num = total_item_area(&instance.items);
        proof {
            lemma_mul_upper_bound(
                solution.strip_width as int,
                u64::MAX as int,
                instance.strip_height as int,
                u64::MAX as int,
            );
            lemma_mul_nonnegative(solution.strip_width as int, instance.strip_height as int);
        }
        let den = (solution.strip_width as u128) * (instance.strip_height as u128);

        let requested = total_requested(&instance.items);
        let status = if (total_items_placed as u64) < requested {
            RunStatus::Partial
        } else {
            RunStatus::Complete
        };

        let mut unplaced_item_ids: Vec<u64> = Vec::new();
        let mut k: usize = 0;
        while k < instance.items.len()
            invariant
                0 <= k <= instance.items.len(),
                unplaced_item_ids@ == spec_unplaced_ids(
                    instance.items@.subrange(0, k as int),
                    solution.placed@,
                ),
            decreases instance.items.len() - k,
        {
            let (item, qty) = instance.items[k];
            let count = count_placed(&solution.placed, item.id);
            let missing = if count >= qty { 0u64 } else { qty - count };
            proof {
                lemma_count_bounds(solution.placed@, item.id);
                assert(missing == spec_unplaced_qty(
                    qty,
                    spec_count_placed(solution.placed@, item.id),
                ));
            }
            let ghost before = unplaced_item_ids@;
            let mut j: u64 = 0;
            while j < missing
                invariant
                    0 <= j <= missing,
                    unplaced_item_ids@ == before + Seq::new(j as nat, |n: int| item.id),
                decreases missing - j,
            {
                unplaced_item_ids.push(item.id);
                proof {
                    assert(unplaced_item_ids@ =~= before + Seq::new(
                        (j + 1) as nat,
                        |n: int| item.id,
                    ));
                }
                j = j + 1;
            }
            proof {
                let prefix = instance.items@.subrange(0, k + 1);
                assert(prefix.drop_last() =~= instance.items@.subrange(0, k as int));
                assert(prefix.last() == instance.items@[k as int]);
                assert(unplaced_item_ids@ =~= spec_unplaced_ids(prefix, solution.placed@));
            }
            k = k + 1;
        }
        proof {
            assert(instance.items@.subrange(0, instance.items@.len() as int)
                =~= instance.items@);
        }

        NestingOutput {
            instance_name,
            strip_width: solution.strip_width,
            strip_height: instance.strip_height,
            total_items_placed,
            layouts,
            utilization: Utilization { num, den },
            computation_time_ms,
            status,
            items_requested: Some(requested),
            unplaced_item_ids,
            svg_string: None,
            seed_used: None,
        }
    }
}

} // verus!
