//! The data of a to-do list: its items, in order, and the instant of its
//! last change.

use vstd::prelude::*;

use crate::timestamp::Timestamp;

verus! {

/// What an item holds, as mathematical values.
pub struct ItemView {
    pub description: Seq<char>,
    pub completed: bool,
}

/// A single item in a to-do list.
#[derive(Debug)]
pub struct TodoItem {
    pub description: String,
    pub completed: bool,
}

impl View for TodoItem {
    type V = ItemView;

    open spec fn view(&self) -> ItemView {
        ItemView { description: self.description@, completed: self.completed }
    }
}

impl TodoItem {
    /// A new, not yet completed item with the given description.
    pub fn new(description: String) -> (r: TodoItem)
        ensures
            r.description@ == description@,
            !r.completed,
    {
        TodoItem { description, completed: false }
    }

    /// A copy of this item.
    pub fn duplicate(&self) -> (r: TodoItem)
        ensures
            r@ == self@,
    {
        TodoItem { description: self.description.clone(), completed: self.completed }
    }
}

impl Default for TodoItem {
    fn default() -> (r: TodoItem)
        ensures
            r.description@.len() == 0,
            !r.completed,
    {
        TodoItem { description: String::new(), completed: false }
    }
}

/// The views of a sequence of items.
pub open spec fn item_views(items: Seq<TodoItem>) -> Seq<ItemView> {
    items.map_values(|it: TodoItem| it@)
}

/// `items` with the completion flag of the item at `index` flipped.
pub open spec fn toggled(items: Seq<ItemView>, index: int) -> Seq<ItemView> {
    items.update(
        index,
        ItemView { description: items[index].description, completed: !items[index].completed },
    )
}

/// `items` with the item at `from` taken out and put back in at position
/// `to` of the shortened sequence.
pub open spec fn moved(items: Seq<ItemView>, from: int, to: int) -> Seq<ItemView> {
    items.remove(from).insert(to, items[from])
}

/// What a list holds, as mathematical values.
pub struct ListView {
    pub items: Seq<ItemView>,
    pub last_updated: Timestamp,
}

/// A list of to-do items.
#[derive(Debug)]
pub struct TodoList {
    items: Vec<TodoItem>,
    last_updated: Timestamp,
}

impl View for TodoList {
    type V = ListView;

    closed spec fn view(&self) -> ListView {
        ListView { items: item_views(self.items@), last_updated: self.last_updated }
    }
}

impl TodoList {
    /// Every list's instant is one that chrono has a date-time for.
    #[verifier::type_invariant]
    spec fn stamp_is_valid(&self) -> bool {
        self.last_updated.wf()
    }

    /// A list holding `items`, in that order, last changed at `last_updated`.
    pub fn with_items(items: Vec<TodoItem>, last_updated: Timestamp) -> (r: TodoList)
        requires
            last_updated.wf(),
        ensures
            r@.items == item_views(items@),
            r@.last_updated == last_updated,
    {
        TodoList { items, last_updated }
    }

    /// Returns the number of items in this list.
    pub fn len(&self) -> (r: usize)
        ensures
            r == self@.items.len(),
    {
        self.items.len()
    }

    /// Returns `true` if this list holds no items.
    pub fn is_empty(&self) -> (r: bool)
        ensures
            r == (self@.items.len() == 0),
    {
        self.items.len() == 0
    }

    /// The items of this list, in order.
    pub fn iter(&self) -> (r: &[TodoItem])
        ensures
            item_views(r@) == self@.items,
    {
        self.items.as_slice()
    }

    /// The instant of the last change.
    pub fn last_updated(&self) -> (r: Timestamp)
        ensures
            r == self@.last_updated,
            r.wf(),
    {
        proof {
            use_type_invariant(self);
        }
        self.last_updated
    }

    /// Sets the instant of the last change to `now`, leaving the items as
    /// they are.
    pub fn stamp(&mut self, now: Timestamp)
        requires
            now.wf(),
        ensures
            final(self)@.items == old(self)@.items,
            final(self)@.last_updated == now,
    {
        self.last_updated = now;
    }

    /// Takes the items out of this list, leaving it empty.
    fn take_items(&mut self) -> (r: Vec<TodoItem>)
        ensures
            r@ == old(self).items@,
            final(self).items@.len() == 0,
            final(self).last_updated == old(self).last_updated,
            final(self).last_updated.wf(),
    {
        proof {
            use_type_invariant(&*self);
        }
        let mut items: Vec<TodoItem> = Vec::new();
        std::mem::swap(&mut items, &mut self.items);
        items
    }

    /// Stamps this list with the current instant of the system clock.
    fn set_last_updated(&mut self)
        ensures
            final(self)@.items == old(self)@.items,
            final(self)@.last_updated.wf(),
            final(self)@.last_updated.nanos < 1_000_000_000,
    {
        let now = Timestamp::now();
        self.stamp(now);
    }

    /// Appends `item` to the end of this list.
    pub fn add_item(&mut self, item: TodoItem)
        ensures
            final(self)@.items == old(self)@.items.push(item@),
            final(self)@.last_updated.wf(),
            final(self)@.last_updated.nanos < 1_000_000_000,
    {
        let mut items = self.take_items();
        items.push(item);
        self.items = items;
        proof {
            assert(item_views(self.items@) =~= item_views(old(self).items@).push(item@));
        }
        self.set_last_updated();
    }

    /// Moves the item at `ix_old` to position `ix_new` of the list that is
    /// left once it is taken out.
    pub fn move_item(&mut self, ix_old: usize, ix_new: usize)
        requires
            ix_old < old(self)@.items.len(),
            ix_new < old(self)@.items.len(),
        ensures
            final(self)@.items == moved(old(self)@.items, ix_old as int, ix_new as int),
            final(self)@.last_updated.wf(),
            final(self)@.last_updated.nanos < 1_000_000_000,
    {
        let mut items = self.take_items();
        let item = items.remove(ix_old);
        items.insert(ix_new, item);
        self.items = items;
        proof {
            let v = item_views(old(self).items@);
            assert(item_views(self.items@) =~= v.remove(ix_old as int).insert(
                ix_new as int,
                v[ix_old as int],
            ));
        }
        self.set_last_updated();
    }

    /// Removes the item at `index`; those after it move up by one.
    pub fn remove_item(&mut self, index: usize)
        requires
            index < old(self)@.items.len(),
        ensures
            final(self)@.items == old(self)@.items.remove(index as int),
            final(self)@.last_updated.wf(),
            final(self)@.last_updated.nanos < 1_000_000_000,
    {
        let mut items = self.take_items();
        items.remove(index);
        self.items = items;
        proof {
            assert(item_views(self.items@) =~= item_views(old(self).items@).remove(index as int));
        }
        self.set_last_updated();
    }

    /// Flips the item at `index` between completed and incomplete, and
    /// returns its new status.
    pub fn toggle_completion(&mut self, index: usize) -> (r: bool)
        requires
            index < old(self)@.items.len(),
        ensures
            final(self)@.items == toggled(old(self)@.items, index as int),
            r == final(self)@.items[index as int].completed,
            r == !old(self)@.items[index as int].completed,
            final(self)@.last_updated.wf(),
            final(self)@.last_updated.nanos < 1_000_000_000,
    {
        let mut items = self.take_items();
        let updated = !items[index].completed;
        items[index].completed = updated;
        self.items = items;
        proof {
            assert(item_views(self.items@) =~= toggled(item_views(old(self).items@), index as int));
        }
        self.set_last_updated();
        updated
    }
}

impl Default for TodoList {
    /// An empty list, stamped with the current instant.
    fn default() -> (r: TodoList)
        ensures
            r@.items.len() == 0,
            r@.last_updated.wf(),
            r@.last_updated.nanos < 1_000_000_000,
    {
        TodoList { items: Vec::new(), last_updated: Timestamp::now() }
    }
}

/// Adding an item makes the list one longer and puts the item last.
pub proof fn lemma_add_appends(items: Seq<ItemView>, item: ItemView)
    ensures
        items.push(item).len() == items.len() + 1,
        items.push(item).last() == item,
        items.push(item).take(items.len() as int) == items,
{
    assert(items.push(item).take(items.len() as int) =~= items);
}

/// Removing an item makes the list one shorter and keeps the others in
/// their order: those before it stay, those after it move up by one.
pub proof fn lemma_remove_keeps_order(items: Seq<ItemView>, index: int)
    requires
        0 <= index < items.len(),
    ensures
        items.remove(index).len() == items.len() - 1,
        forall|i: int| 0 <= i < index ==> #[trigger] items.remove(index)[i] == items[i],
        forall|i: int| index <= i < items.len() - 1 ==> #[trigger] items.remove(index)[i] == items[i + 1],
{
}

/// Moving an item puts it at the target position and keeps the order of
/// the others, which are those that removing it would leave.
pub proof fn lemma_move_keeps_others(items: Seq<ItemView>, from: int, to: int)
    requires
        0 <= from < items.len(),
        0 <= to < items.len(),
    ensures
        moved(items, from, to).len() == items.len(),
        moved(items, from, to)[to] == items[from],
        moved(items, from, to).remove(to) == items.remove(from),
{
    assert(moved(items, from, to).remove(to) =~= items.remove(from));
}

/// Toggling the same item twice reports the two opposite statuses, the
/// second being the item's original one, and gives back the original items.
pub proof fn lemma_toggle_twice(items: Seq<ItemView>, index: int)
    requires
        0 <= index < items.len(),
    ensures
        toggled(items, index)[index].completed == !items[index].completed,
        toggled(toggled(items, index), index)[index].completed == items[index].completed,
        toggled(toggled(items, index), index) == items,
{
    assert(toggled(toggled(items, index), index) =~= items);
}

} // verus!
