//! Grouping the items a scan found into categories, largest first.

use vstd::prelude::*;
use crate::model::{category_description, category_display_name, ScanCategory, ScanItem};
use crate::sorting::{
    lemma_sort_desc_map, lemma_sort_desc_no_duplicates, lemma_sort_desc_permutes,
    lemma_sort_desc_sorted, lemma_sort_desc_total, lemma_total_weight_push, sort_by_weight_desc,
    sort_desc, sorted_desc, total_weight, Weighed, WeighedExec,
};

verus! {

impl Weighed for ScanItem {
    open spec fn weight(&self) -> int {
        self.size_bytes as int
    }
}

impl WeighedExec for ScanItem {
    fn weight_of(&self) -> (w: u64) {
        self.size_bytes
    }
}

/// The items of one category, largest first, with their total size.
#[derive(Debug, PartialEq, Eq)]
pub struct CategoryResult {
    pub category: ScanCategory,
    pub display_name: String,
    pub description: String,
    pub total_bytes: u64,
    pub items: Vec<ScanItem>,
}

/// The mathematical value of a `CategoryResult`.
pub struct CategorySummary {
    pub category: ScanCategory,
    pub display_name: Seq<char>,
    pub description: Seq<char>,
    pub total_bytes: u64,
    pub items: Seq<ScanItem>,
}

impl View for CategoryResult {
    type V = CategorySummary;

    open spec fn view(&self) -> CategorySummary {
        CategorySummary {
            category: self.category,
            display_name: self.display_name@,
            description: self.description@,
            total_bytes: self.total_bytes,
            items: self.items@,
        }
    }
}

impl Weighed for CategorySummary {
    open spec fn weight(&self) -> int {
        self.total_bytes as int
    }
}

impl Weighed for CategoryResult {
    open spec fn weight(&self) -> int {
        self.total_bytes as int
    }
}

impl WeighedExec for CategoryResult {
    fn weight_of(&self) -> (w: u64) {
        self.total_bytes
    }
}

/// The outcome of a whole scan.
#[derive(Debug, PartialEq, Eq)]
pub struct ScanResult {
    pub started_at: i64,
    pub completed_at: Option<i64>,
    pub total_bytes: u64,
    pub categories: Vec<CategoryResult>,
}

/// The categories of `items`, each once, in the order they first occur.
pub open spec fn categories_in_order(items: Seq<ScanItem>) -> Seq<ScanCategory>
    decreases items.len(),
{
    if items.len() == 0 {
        Seq::empty()
    } else {
        let earlier = categories_in_order(items.drop_last());
        if earlier.contains(items.last().category) {
            earlier
        } else {
            earlier.push(items.last().category)
        }
    }
}

/// The items of category `c`, in the order they come.
pub open spec fn items_in(items: Seq<ScanItem>, c: ScanCategory) -> Seq<ScanItem> {
    items.filter(|i: ScanItem| i.category == c)
}

/// What a scan reports for category `c`.
pub open spec fn summary_of(items: Seq<ScanItem>, c: ScanCategory) -> CategorySummary {
    CategorySummary {
        category: c,
        display_name: category_display_name(c),
        description: category_description(c),
        total_bytes: total_weight(items_in(items, c)) as u64,
        items: sort_desc(items_in(items, c)),
    }
}

/// One summary per category, in the order the categories first occur.
pub open spec fn grouped(items: Seq<ScanItem>) -> Seq<CategorySummary> {
    categories_in_order(items).map_values(|c: ScanCategory| summary_of(items, c))
}

/// The summaries a scan reports, largest category first.
pub open spec fn scan_summaries(items: Seq<ScanItem>) -> Seq<CategorySummary> {
    sort_desc(grouped(items))
}

pub open spec fn summaries(v: Seq<CategoryResult>) -> Seq<CategorySummary> {
    v.map_values(|c: CategoryResult| c@)
}

pub proof fn lemma_total_take(s: Seq<ScanItem>, i: int)
    requires
        0 <= i <= s.len(),
    ensures
        total_weight(s.take(i)) <= total_weight(s),
    decreases s.len(),
{
    if i < s.len() {
        assert(s.drop_last().take(i) =~= s.take(i));
        lemma_total_take(s.drop_last(), i);
    } else {
        assert(s.take(i) =~= s);
    }
}

pub proof fn lemma_total_filter(s: Seq<ScanItem>, c: ScanCategory)
    ensures
        total_weight(items_in(s, c)) <= total_weight(s),
        total_weight(items_in(s, c)) >= 0,
    decreases s.len(),
{
    reveal_with_fuel(Seq::filter, 1);
    if s.len() > 0 {
        lemma_total_filter(s.drop_last(), c);
        if s.last().category == c {
            crate::sorting::lemma_total_weight_push(items_in(s.drop_last(), c), s.last());
        }
    }
}

fn categories_of(items: &Vec<ScanItem>) -> (cats: Vec<ScanCategory>)
    ensures
        cats@ == categories_in_order(items@),
{
    let mut cats: Vec<ScanCategory> = Vec::new();
    let mut i: usize = 0;
    assert(items@.take(0) =~= Seq::<ScanItem>::empty());
    while i < items.len()
        invariant
            i <= items.len(),
            cats@ == categories_in_order(items@.take(i as int)),
        decreases items.len() - i,
    {
        let c = items[i].category;
        let mut found = false;
        let mut j: usize = 0;
        while j < cats.len()
            invariant
                j <= cats.len(),
                found == exists|k: int| 0 <= k < j && cats@[k] == c,
            decreases cats.len() - j,
        {
            if cats[j] == c {
                found = true;
            }
            j = j + 1;
        }
        assert(items@.take(i + 1).drop_last() =~= items@.take(i as int));
        assert(items@.take(i + 1).last() == items@[i as int]);
        if !found {
            assert(!cats@.contains(c));
            cats.push(c);
        } else {
            assert(cats@.contains(c));
        }
        i = i + 1;
    }
    assert(items@.take(i as int) =~= items@);
    cats
}

/// The items of category `c`, copied in order, and their total size.
fn collect_category(items: &Vec<ScanItem>, c: ScanCategory) -> (r: (Vec<ScanItem>, u64))
    requires
        total_weight(items@) <= u64::MAX,
    ensures
        r.0@ == items_in(items@, c),
        r.1 == total_weight(items_in(items@, c)),
{
    let mut group: Vec<ScanItem> = Vec::new();
    let mut total: u64 = 0;
    let mut i: usize = 0;
    assert(items@.take(0) =~= Seq::<ScanItem>::empty());
    proof {
        reveal_with_fuel(Seq::filter, 1);
    }
    while i < items.len()
        invariant
            i <= items.len(),
            total_weight(items@) <= u64::MAX,
            group@ == items_in(items@.take(i as int), c),
            total == total_weight(group@),
        decreases items.len() - i,
    {
        let ghost prefix = items@.take(i + 1);
        proof {
            reveal_with_fuel(Seq::filter, 1);
            assert(prefix.drop_last() =~= items@.take(i as int));
            assert(prefix.last() == items@[i as int]);
            lemma_total_filter(prefix, c);
            lemma_total_take(items@, i + 1);
        }
        if items[i].category == c {
            let item = items[i].duplicate();
            proof {
                crate::sorting::lemma_total_weight_push(group@, item);
            }
            total = total + item.size_bytes;
            group.push(item);
        }
        i = i + 1;
    }
    assert(items@.take(i as int) =~= items@);
    (group, total)
}

/// Groups the items a scan found by category. Each category lists its items
/// from largest to smallest and carries their total size; categories come
/// from largest to smallest total, equal totals in the order in which their
/// categories first occur among `items`. The result's total is the size of
/// all items.
pub fn build_scan_result(items: Vec<ScanItem>, started_at: i64, completed_at: i64) -> (r: ScanResult)
    requires
        total_weight(items@) <= u64::MAX,
    ensures
        r.started_at == started_at,
        r.completed_at == Some(completed_at),
        r.total_bytes == total_weight(items@),
        summaries(r.categories@) == scan_summaries(items@),
{
    let cats = categories_of(&items);
    let mut results: Vec<CategoryResult> = Vec::new();
    let mut k: usize = 0;
    while k < cats.len()
        invariant
            k <= cats.len(),
            cats@ == categories_in_order(items@),
            total_weight(items@) <= u64::MAX,
            summaries(results@) == grouped(items@).take(k as int),
        decreases cats.len() - k,
    {
        let c = cats[k];
        let (group, total) = collect_category(&items, c);
        let sorted = sort_by_weight_desc(group);
        let result = CategoryResult {
            category: c,
            display_name: String::from_str(c.display_name()),
            description: String::from_str(c.description()),
            total_bytes: total,
            items: sorted,
        };
        assert(result@ == summary_of(items@, c));
        assert(grouped(items@)[k as int] == summary_of(items@, c));
        let ghost before = results@;
        results.push(result);
        assert(summaries(results@) =~= summaries(before).push(summary_of(items@, c)));
        assert(grouped(items@).take(k + 1) =~= grouped(items@).take(k as int).push(
            grouped(items@)[k as int],
        ));
        k = k + 1;
        assert(summaries(results@) =~= grouped(items@).take(k as int));
    }
    assert(grouped(items@).take(k as int) =~= grouped(items@));
    let sorted = sort_by_weight_desc(results);
    proof {
        lemma_sort_desc_map(results@, |c: CategoryResult| c@);
    }
    let mut total: u64 = 0;
    let mut i: usize = 0;
    assert(items@.take(0) =~= Seq::<ScanItem>::empty());
    while i < items.len()
        invariant
            i <= items.len(),
            total_weight(items@) <= u64::MAX,
            total == total_weight(items@.take(i as int)),
        decreases items.len() - i,
    {
        proof {
            assert(items@.take(i + 1).drop_last() =~= items@.take(i as int));
            lemma_total_take(items@, i + 1);
        }
        total = total + items[i].size_bytes;
        i = i + 1;
    }
    assert(items@.take(i as int) =~= items@);
    ScanResult {
        started_at,
        completed_at: Some(completed_at),
        total_bytes: total,
        categories: sorted,
    }
}

proof fn lemma_push_contains<A>(s: Seq<A>, x: A, c: A)
    ensures
        s.push(x).contains(c) <==> (s.contains(c) || x == c),
{
    if s.push(x).contains(c) {
        let j = choose|j: int| 0 <= j < s.push(x).len() && s.push(x)[j] == c;
        if j < s.len() {
            assert(s[j] == c);
        }
    }
    if s.contains(c) {
        let j = choose|j: int| 0 <= j < s.len() && s[j] == c;
        assert(s.push(x)[j] == c);
    }
    if x == c {
        assert(s.push(x)[s.len() as int] == c);
    }
}

proof fn lemma_categories_in_order_members(items: Seq<ScanItem>, c: ScanCategory)
    ensures
        categories_in_order(items).contains(c) <==> exists|i: int|
            0 <= i < items.len() && #[trigger] items[i].category == c,
    decreases items.len(),
{
    if items.len() > 0 {
        let p = items.drop_last();
        let x = items.last();
        lemma_categories_in_order_members(p, c);
        let earlier = categories_in_order(p);
        lemma_push_contains(earlier, x.category, c);
        if exists|i: int| 0 <= i < p.len() && #[trigger] p[i].category == c {
            let i = choose|i: int| 0 <= i < p.len() && #[trigger] p[i].category == c;
            assert(items[i] == p[i]);
        }
        if exists|i: int| 0 <= i < items.len() && #[trigger] items[i].category == c {
            let i = choose|i: int| 0 <= i < items.len() && #[trigger] items[i].category == c;
            if i < items.len() - 1 {
                assert(p[i] == items[i]);
            } else {
                assert(x.category == c);
            }
        }
        if x.category == c {
            assert(items[items.len() - 1].category == c);
        }
    }
}

proof fn lemma_categories_in_order_distinct(items: Seq<ScanItem>)
    ensures
        categories_in_order(items).no_duplicates(),
    decreases items.len(),
{
    if items.len() > 0 {
        lemma_categories_in_order_distinct(items.drop_last());
    }
}

proof fn lemma_items_in_absent(items: Seq<ScanItem>, c: ScanCategory)
    requires
        !categories_in_order(items).contains(c),
    ensures
        items_in(items, c).len() == 0,
    decreases items.len(),
{
    reveal_with_fuel(Seq::filter, 1);
    if items.len() > 0 {
        let p = items.drop_last();
        lemma_push_contains(categories_in_order(p), items.last().category, c);
        lemma_items_in_absent(p, c);
        if items.last().category == c {
            assert(categories_in_order(items).contains(c) || categories_in_order(p).push(c).last() == c);
            lemma_categories_in_order_members(items, c);
            assert(items[items.len() - 1].category == c);
        }
    }
}

/// The total size of the items of each category in `cats`, added up.
pub open spec fn category_sum(cats: Seq<ScanCategory>, items: Seq<ScanItem>) -> int
    decreases cats.len(),
{
    if cats.len() == 0 {
        0
    } else {
        category_sum(cats.drop_last(), items) + total_weight(items_in(items, cats.last()))
    }
}

proof fn lemma_category_sum_push_item(cats: Seq<ScanCategory>, p: Seq<ScanItem>, x: ScanItem)
    requires
        cats.no_duplicates(),
    ensures
        category_sum(cats, p.push(x)) == category_sum(cats, p) + (if cats.contains(x.category) {
            x.size_bytes as int
        } else {
            0
        }),
    decreases cats.len(),
{
    reveal_with_fuel(Seq::filter, 1);
    if cats.len() > 0 {
        let rest = cats.drop_last();
        let c = cats.last();
        assert(rest.no_duplicates());
        lemma_category_sum_push_item(rest, p, x);
        assert(p.push(x).drop_last() =~= p);
        assert(p.push(x).last() == x);
        if x.category == c {
            lemma_total_weight_push(items_in(p, c), x);
            assert(!rest.contains(c)) by {
                if rest.contains(c) {
                    let j = choose|j: int| 0 <= j < rest.len() && rest[j] == c;
                    assert(cats[j] == cats[cats.len() - 1]);
                }
            }
            assert(cats.contains(x.category)) by {
                assert(cats[cats.len() - 1] == c);
            }
        } else {
            assert(items_in(p.push(x), c) == items_in(p, c));
            assert(cats.contains(x.category) == rest.contains(x.category)) by {
                if cats.contains(x.category) {
                    let j = choose|j: int| 0 <= j < cats.len() && cats[j] == x.category;
                    assert(j < cats.len() - 1);
                    assert(rest[j] == x.category);
                }
                if rest.contains(x.category) {
                    let j = choose|j: int| 0 <= j < rest.len() && rest[j] == x.category;
                    assert(cats[j] == x.category);
                }
            }
        }
    }
}

proof fn lemma_category_sum_total(items: Seq<ScanItem>)
    ensures
        category_sum(categories_in_order(items), items) == total_weight(items),
    decreases items.len(),
{
    if items.len() > 0 {
        let p = items.drop_last();
        let x = items.last();
        assert(items =~= p.push(x));
        lemma_category_sum_total(p);
        lemma_categories_in_order_distinct(p);
        let earlier = categories_in_order(p);
        lemma_category_sum_push_item(earlier, p, x);
        if !earlier.contains(x.category) {
            let cats = earlier.push(x.category);
            assert(cats.drop_last() =~= earlier);
            assert(cats.last() == x.category);
            assert(category_sum(cats, items) == category_sum(earlier, items) + total_weight(
                items_in(items, x.category),
            ));
            lemma_items_in_absent(p, x.category);
            reveal_with_fuel(Seq::filter, 1);
            assert(items_in(p, x.category) =~= Seq::<ScanItem>::empty());
            assert(items_in(items, x.category) =~= seq![x]);
            assert(seq![x].drop_last() =~= Seq::<ScanItem>::empty());
            assert(seq![x].last() == x);
            assert(total_weight(Seq::<ScanItem>::empty()) == 0);
            assert(total_weight(seq![x]) == x.size_bytes);
        }
        assert(total_weight(items) == total_weight(p) + x.size_bytes);
    }
}

proof fn lemma_summaries_total(cats: Seq<ScanCategory>, items: Seq<ScanItem>)
    requires
        total_weight(items) <= u64::MAX,
    ensures
        total_weight(cats.map_values(|c: ScanCategory| summary_of(items, c))) == category_sum(
            cats,
            items,
        ),
    decreases cats.len(),
{
    if cats.len() > 0 {
        lemma_summaries_total(cats.drop_last(), items);
        lemma_total_filter(items, cats.last());
        assert(cats.map_values(|c: ScanCategory| summary_of(items, c)).drop_last()
            =~= cats.drop_last().map_values(|c: ScanCategory| summary_of(items, c)));
    }
}

/// The categories of a scan result are ordered from largest to smallest total.
pub proof fn lemma_scan_categories_sorted(items: Seq<ScanItem>)
    ensures
        sorted_desc(scan_summaries(items)),
{
    lemma_sort_desc_sorted(grouped(items));
}

/// The totals of a scan result's categories add up to the size of all items
/// (when that size fits the counter).
pub proof fn lemma_scan_total_is_sum_of_categories(items: Seq<ScanItem>)
    requires
        total_weight(items) <= u64::MAX,
    ensures
        total_weight(scan_summaries(items)) == total_weight(items),
{
    lemma_sort_desc_total(grouped(items));
    lemma_summaries_total(categories_in_order(items), items);
    lemma_category_sum_total(items);
}

/// Each category of a scan result lists exactly the items of its category,
/// from largest to smallest, under that category's name and description;
/// every category of an item occurs, and none occurs twice.
pub proof fn lemma_scan_summaries_exact(items: Seq<ScanItem>)
    ensures
        forall|k: int|
            0 <= k < scan_summaries(items).len() ==> #[trigger] scan_summaries(items)[k]
                == summary_of(items, scan_summaries(items)[k].category),
        forall|k: int|
            0 <= k < scan_summaries(items).len() ==> sorted_desc(
                #[trigger] scan_summaries(items)[k].items,
            ) && scan_summaries(items)[k].items.to_multiset() == items_in(
                items,
                scan_summaries(items)[k].category,
            ).to_multiset(),
        forall|i: int, j: int|
            0 <= i < j < scan_summaries(items).len() ==> #[trigger] scan_summaries(items)[i].category
                != #[trigger] scan_summaries(items)[j].category,
        forall|i: int|
            0 <= i < items.len() ==> exists|k: int|
                0 <= k < scan_summaries(items).len() && #[trigger] scan_summaries(items)[k].category
                    == #[trigger] items[i].category,
{
    broadcast use vstd::seq_lib::to_multiset_contains;

    let g = grouped(items);
    let r = scan_summaries(items);
    let cats = categories_in_order(items);
    lemma_sort_desc_permutes(g);
    lemma_categories_in_order_distinct(items);
    assert forall|k: int| 0 <= k < r.len() implies #[trigger] r[k] == summary_of(items, r[k].category) by {
        assert(r.contains(r[k]));
        assert(r.to_multiset().count(r[k]) > 0);
        assert(g.contains(r[k]));
    }
    assert forall|k: int| 0 <= k < r.len() implies sorted_desc(#[trigger] r[k].items)
        && r[k].items.to_multiset() == items_in(items, r[k].category).to_multiset() by {
        lemma_sort_desc_sorted(items_in(items, r[k].category));
        lemma_sort_desc_permutes(items_in(items, r[k].category));
    }
    assert(g.no_duplicates()) by {
        assert forall|i: int, j: int| 0 <= i < g.len() && 0 <= j < g.len() && i != j implies g[i]
            != g[j] by {
            assert(g[i].category == cats[i]);
            assert(g[j].category == cats[j]);
        }
    }
    lemma_sort_desc_no_duplicates(g);
    assert forall|i: int, j: int| 0 <= i < j < r.len() implies #[trigger] r[i].category
        != #[trigger] r[j].category by {
        if r[i].category == r[j].category {
            assert(r[i] == r[j]);
        }
    }
    assert forall|i: int| 0 <= i < items.len() implies exists|k: int|
        0 <= k < r.len() && #[trigger] r[k].category == #[trigger] items[i].category by {
        let c = items[i].category;
        lemma_categories_in_order_members(items, c);
        let j = choose|j: int| 0 <= j < cats.len() && cats[j] == c;
        assert(g[j] == summary_of(items, c));
        assert(g.contains(g[j]));
        assert(g.to_multiset().count(g[j]) > 0);
        assert(r.contains(g[j]));
        let k = choose|k: int| 0 <= k < r.len() && r[k] == g[j];
        assert(r[k].category == c);
    }
}

} // verus!
