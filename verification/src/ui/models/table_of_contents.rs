//! The outline of an article: a tree of numbered headings.

use vstd::prelude::*;

verus! {

/// The outline of one article.
#[derive(Debug)]
pub struct Table {
    pub title: String,
    pub items: Vec<Item>,
}

/// One heading of an outline.
#[derive(Debug)]
pub struct Item {
    /// The marker that the source assigned to the heading.
    pub number: i32,
    pub text: String,
    /// The headings below this one. `None` marks a leaf, which is not the
    /// same as a heading with an empty list below it.
    pub sub_items: Option<Vec<Item>>,
}

/// What a heading is, apart from where it is stored.
pub ghost struct ItemView {
    pub number: int,
    pub text: Seq<char>,
    pub sub_items: Option<Seq<ItemView>>,
}

/// What an outline is, apart from where it is stored.
pub ghost struct TableView {
    pub title: Seq<char>,
    pub items: Seq<ItemView>,
}

/// What a heading says, its sub-headings included.
pub open spec fn item_view(item: Item) -> ItemView
    decreases item,
{
    ItemView {
        number: item.number as int,
        text: item.text@,
        sub_items: match item.sub_items {
            None => None,
            Some(v) => Some(
                Seq::new(
                    v@.len(),
                    |i: int|
                        if 0 <= i < v@.len() {
                            item_view(v[i])
                        } else {
                            arbitrary()
                        },
                ),
            ),
        },
    }
}

/// The views of a list of headings, in order.
pub open spec fn items_view(items: Seq<Item>) -> Seq<ItemView> {
    Seq::new(items.len(), |i: int| item_view(items[i]))
}

impl View for Item {
    type V = ItemView;

    open spec fn view(&self) -> ItemView {
        item_view(*self)
    }
}

/// What lies below a heading is the list of views of its sub-headings.
pub proof fn lemma_sub_items_view(item: Item)
    ensures
        item@.number == item.number,
        item@.text == item.text@,
        item@.sub_items == match item.sub_items {
            None => None::<Seq<ItemView>>,
            Some(v) => Some(items_view(v@)),
        },
{
    match item.sub_items {
        None => {},
        Some(v) => {
            assert(item@.sub_items->0 =~= items_view(v@));
        },
    }
}

impl View for Table {
    type V = TableView;

    open spec fn view(&self) -> TableView {
        TableView { title: self.title@, items: items_view(self.items@) }
    }
}

/// Copies a list of headings, each with everything below it.
pub fn clone_items(items: &Vec<Item>) -> (copy: Vec<Item>)
    ensures
        items_view(copy@) == items_view(items@),
    decreases items, 0int,
{
    let mut copy: Vec<Item> = Vec::new();
    let mut i: usize = 0;
    while i < items.len()
        invariant
            i <= items.len(),
            copy@.len() == i,
            forall|k: int| 0 <= k < i ==> item_view(#[trigger] copy@[k]) == item_view(items@[k]),
        decreases items.len() - i,
    {
        let item = clone_item(&items[i]);
        copy.push(item);
        i += 1;
    }
    assert(items_view(copy@) =~= items_view(items@));
    copy
}

/// Copies one heading with everything below it.
pub fn clone_item(item: &Item) -> (copy: Item)
    ensures
        copy@ == item@,
    decreases item, 1int,
{
    let sub_items = match &item.sub_items {
        None => None,
        Some(v) => Some(clone_items(v)),
    };
    let copy = Item { number: item.number, text: item.text.clone(), sub_items };
    proof {
        lemma_sub_items_view(*item);
        lemma_sub_items_view(copy);
    }
    copy
}

impl Clone for Item {
    fn clone(&self) -> (copy: Self)
        ensures
            copy@ == self@,
    {
        clone_item(self)
    }
}

impl Clone for Table {
    fn clone(&self) -> (copy: Self)
        ensures
            copy@ == self@,
    {
        Table { title: self.title.clone(), items: clone_items(&self.items) }
    }
}

/// Tells whether two lists of headings say the same, entry by entry.
pub fn same_items(left: &Vec<Item>, right: &Vec<Item>) -> (b: bool)
    ensures
        b == (items_view(left@) == items_view(right@)),
    decreases left, 0int,
{
    if left.len() != right.len() {
        assert(items_view(left@).len() != items_view(right@).len());
        return false;
    }
    let mut i: usize = 0;
    while i < left.len()
        invariant
            i <= left.len(),
            left.len() == right.len(),
            forall|k: int| 0 <= k < i ==> item_view(#[trigger] left@[k]) == item_view(right@[k]),
        decreases left.len() - i,
    {
        if !same_item(&left[i], &right[i]) {
            assert(items_view(left@)[i as int] != items_view(right@)[i as int]);
            return false;
        }
        i += 1;
    }
    assert(items_view(left@) =~= items_view(right@));
    true
}

/// Tells whether two headings say the same, with everything below them.
pub fn same_item(left: &Item, right: &Item) -> (b: bool)
    ensures
        b == (left@ == right@),
    decreases left, 1int,
{
    proof {
        lemma_sub_items_view(*left);
        lemma_sub_items_view(*right);
    }
    if left.number != right.number || left.text != right.text {
        return false;
    }
    match (&left.sub_items, &right.sub_items) {
        (None, None) => true,
        (Some(l), Some(r)) => same_items(l, r),
        _ => false,
    }
}

/// True when `target` is `node` or stands somewhere below it.
pub open spec fn within_item(node: ItemView, target: ItemView) -> bool
    decreases node,
{
    node == target || match node.sub_items {
        None => false,
        Some(below) => exists|i: int|
            0 <= i < below.len() && within_item(#[trigger] below[i], target),
    }
}

/// True when `target` stands somewhere in the list `nodes` or below it.
pub open spec fn within_items(nodes: Seq<ItemView>, target: ItemView) -> bool {
    exists|i: int| 0 <= i < nodes.len() && within_item(#[trigger] nodes[i], target)
}

/// A heading stands at a node or below it when it is the node, or stands
/// in the list below the node.
pub proof fn lemma_within_item(node: ItemView, target: ItemView)
    ensures
        within_item(node, target) <==> (node == target || (node.sub_items is Some && within_items(
            node.sub_items->0,
            target,
        ))),
{
    if node != target && node.sub_items is Some {
        let below = node.sub_items->0;
        if within_item(node, target) {
            let i = choose|i: int| 0 <= i < below.len() && within_item(#[trigger] below[i], target);
            assert(0 <= i < below.len() && within_item(below[i], target));
        }
        if within_items(below, target) {
            let i = choose|i: int| 0 <= i < below.len() && within_item(#[trigger] below[i], target);
            assert(0 <= i < below.len() && within_item(below[i], target));
        }
    }
}

/// Looks for a heading in a list of headings and below them.
pub fn find_in_items(items: &Vec<Item>, target: &Item) -> (b: bool)
    ensures
        b == within_items(items_view(items@), target@),
    decreases items, 0int,
{
    let mut i: usize = 0;
    while i < items.len()
        invariant
            i <= items.len(),
            forall|k: int| 0 <= k < i ==> !within_item(#[trigger] items_view(items@)[k], target@),
        decreases items.len() - i,
    {
        if find_in_item(&items[i], target) {
            assert(within_item(items_view(items@)[i as int], target@));
            return true;
        }
        i += 1;
    }
    false
}

/// Looks for a heading at a heading and below it.
pub fn find_in_item(item: &Item, target: &Item) -> (b: bool)
    ensures
        b == within_item(item@, target@),
    decreases item, 1int,
{
    proof {
        lemma_sub_items_view(*item);
    }
    if same_item(item, target) {
        return true;
    }
    match &item.sub_items {
        None => false,
        Some(below) => {
            let found = find_in_items(below, target);
            proof {
                lemma_within_item(item@, target@);
            }
            found
        },
    }
}

impl Item {
    /// Tells whether the two headings say the same, with everything below them.
    pub fn same_as(&self, other: &Item) -> (b: bool)
        ensures
            b == (self@ == other@),
    {
        same_item(self, other)
    }
}

impl Table {
    /// True when the heading stands somewhere in this outline.
    pub open spec fn holds(&self, item: ItemView) -> bool {
        within_items(self@.items, item)
    }

    /// Tells whether the heading stands somewhere in this outline.
    pub fn contains(&self, item: &Item) -> (b: bool)
        ensures
            b == self.holds(item@),
    {
        find_in_items(&self.items, item)
    }
}

} // verus!
