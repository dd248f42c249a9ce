//! The ordered log of clipboard items and its per-type counters.

use crate::clock::unix_time_nanos;
use vstd::prelude::*;

verus! {

/// What kind of content an item records.
#[derive(Debug, PartialEq, Eq, Clone, Copy, Structural)]
pub enum ClipboardItemType {
    TEXT,
    IMAGE,
}

/// One recorded clipboard entry. For a text entry `data` is the text itself,
/// for an image entry it is the name of the file that holds the image.
#[derive(Debug)]
pub struct ClipboardItem {
    pub time: u128,
    pub item_type: ClipboardItemType,
    pub data: String,
}

/// The mathematical value of a [`ClipboardItem`].
pub struct ItemView {
    pub time: nat,
    pub item_type: ClipboardItemType,
    pub data: Seq<char>,
}

impl View for ClipboardItem {
    type V = ItemView;

    open spec fn view(&self) -> ItemView {
        ItemView { time: self.time as nat, item_type: self.item_type, data: self.data@ }
    }
}

/// How many items of `items` have the type `item_type`.
pub open spec fn count_items(items: Seq<ItemView>, item_type: ClipboardItemType) -> nat
    decreases items.len(),
{
    if items.len() == 0 {
        0
    } else {
        count_items(items.drop_last(), item_type) + if items.last().item_type == item_type {
            1nat
        } else {
            0nat
        }
    }
}

/// How many image items of `items` record the file name `name`.
pub open spec fn count_images_named(items: Seq<ItemView>, name: Seq<char>) -> nat
    decreases items.len(),
{
    if items.len() == 0 {
        0
    } else {
        count_images_named(items.drop_last(), name) + if items.last().item_type
            == ClipboardItemType::IMAGE && items.last().data == name {
            1nat
        } else {
            0nat
        }
    }
}

/// The data of the most recent item of type `item_type`, or the empty string
/// when `items` holds no item of that type.
pub open spec fn last_data_of(items: Seq<ItemView>, item_type: ClipboardItemType) -> Seq<char>
    decreases items.len(),
{
    if items.len() == 0 {
        Seq::empty()
    } else if items.last().item_type == item_type {
        items.last().data
    } else {
        last_data_of(items.drop_last(), item_type)
    }
}

/// The mathematical value of a [`ClipboardHistory`]: the items, oldest first,
/// and the two counters.
pub struct HistoryView {
    pub items: Seq<ItemView>,
    pub image_counter: nat,
    pub text_counter: nat,
}

impl HistoryView {
    /// The history without any item.
    pub open spec fn empty() -> HistoryView {
        HistoryView { items: Seq::empty(), image_counter: 0, text_counter: 0 }
    }

    /// The counter kept for `item_type`.
    pub open spec fn counter(self, item_type: ClipboardItemType) -> nat {
        match item_type {
            ClipboardItemType::TEXT => self.text_counter,
            ClipboardItemType::IMAGE => self.image_counter,
        }
    }

    /// Each counter equals the number of items of its type.
    pub open spec fn counters_consistent(self) -> bool {
        &&& self.text_counter == count_items(self.items, ClipboardItemType::TEXT)
        &&& self.image_counter == count_items(self.items, ClipboardItemType::IMAGE)
    }

    /// No text item records the empty string.
    pub open spec fn texts_nonempty(self) -> bool {
        forall|i: int|
            0 <= i < self.items.len() && (#[trigger] self.items[i]).item_type
                == ClipboardItemType::TEXT ==> self.items[i].data.len() > 0
    }

    /// The invariant of a history.
    pub open spec fn wf(self) -> bool {
        self.counters_consistent() && self.texts_nonempty()
    }

    /// This history with `item` appended and the counter of its type raised by one.
    pub open spec fn push(self, item: ItemView) -> HistoryView {
        HistoryView {
            items: self.items.push(item),
            image_counter: if item.item_type == ClipboardItemType::IMAGE {
                self.image_counter + 1
            } else {
                self.image_counter
            },
            text_counter: if item.item_type == ClipboardItemType::TEXT {
                self.text_counter + 1
            } else {
                self.text_counter
            },
        }
    }

    /// This history with all of `items` appended, in their order.
    pub open spec fn push_all(self, items: Seq<ItemView>) -> HistoryView
        decreases items.len(),
    {
        if items.len() == 0 {
            self
        } else {
            self.push_all(items.drop_last()).push(items.last())
        }
    }

    /// This history is `prev` with one item of the given type and data appended,
    /// whatever its time stamp.
    pub open spec fn extends_with(
        self,
        prev: HistoryView,
        item_type: ClipboardItemType,
        data: Seq<char>,
    ) -> bool {
        &&& self.items.len() > 0
        &&& self == prev.push(
            ItemView { time: self.items.last().time, item_type: item_type, data: data },
        )
    }

    /// The data of the most recent item of type `item_type`, empty when there is none.
    pub open spec fn last_data(self, item_type: ClipboardItemType) -> Seq<char> {
        last_data_of(self.items, item_type)
    }

    /// Some item, of either type, records exactly `data`.
    pub open spec fn holds_data(self, data: Seq<char>) -> bool {
        exists|i: int| 0 <= i < self.items.len() && (#[trigger] self.items[i]).data == data
    }
}

/// The append-only log of clipboard items, oldest first, with one counter per
/// item type.
#[derive(Debug)]
pub struct ClipboardHistory {
    pub items: Vec<ClipboardItem>,
    pub image_counter: u128,
    pub text_counter: u128,
}

impl View for ClipboardHistory {
    type V = HistoryView;

    open spec fn view(&self) -> HistoryView {
        HistoryView {
            items: Seq::new(self.items@.len(), |i: int| self.items@[i]@),
            image_counter: self.image_counter as nat,
            text_counter: self.text_counter as nat,
        }
    }
}

/// A count of items never exceeds the number of items.
pub proof fn lemma_count_bounded(items: Seq<ItemView>, item_type: ClipboardItemType)
    ensures
        count_items(items, item_type) <= items.len(),
    decreases items.len(),
{
    if items.len() > 0 {
        lemma_count_bounded(items.drop_last(), item_type);
    }
}

/// Appending an item raises the count of its own type by one and leaves the
/// count of the other type as it was.
pub proof fn lemma_count_push(items: Seq<ItemView>, item: ItemView, item_type: ClipboardItemType)
    ensures
        count_items(items.push(item), item_type) == count_items(items, item_type)
            + if item.item_type == item_type {
            1nat
        } else {
            0nat
        },
{
    assert(items.push(item).drop_last() =~= items);
}

/// One append keeps the counters equal to the counts.
pub proof fn lemma_push_keeps_counters(history: HistoryView, item: ItemView)
    requires
        history.counters_consistent(),
    ensures
        history.push(item).counters_consistent(),
{
    lemma_count_push(history.items, item, ClipboardItemType::TEXT);
    lemma_count_push(history.items, item, ClipboardItemType::IMAGE);
}

/// After any sequence of appends to a history whose counters equal the
/// counts, each counter still equals the number of items of its type. The
/// empty history is such a start.
pub proof fn lemma_appends_keep_counters(history: HistoryView, items: Seq<ItemView>)
    requires
        history.counters_consistent(),
    ensures
        history.push_all(items).counters_consistent(),
        history.push_all(items).text_counter == count_items(
            history.push_all(items).items,
            ClipboardItemType::TEXT,
        ),
        history.push_all(items).image_counter == count_items(
            history.push_all(items).items,
            ClipboardItemType::IMAGE,
        ),
        HistoryView::empty().counters_consistent(),
    decreases items.len(),
{
    if items.len() > 0 {
        lemma_appends_keep_counters(history, items.drop_last());
        lemma_push_keeps_counters(history.push_all(items.drop_last()), items.last());
    }
}

/// After an append the most recent data of the new item's type is the new
/// item's, and that of the other type is what it was.
pub proof fn lemma_last_data_push(
    history: HistoryView,
    item: ItemView,
    item_type: ClipboardItemType,
)
    ensures
        history.push(item).last_data(item_type) == if item.item_type == item_type {
            item.data
        } else {
            history.last_data(item_type)
        },
{
    assert(history.push(item).items.drop_last() =~= history.items);
}

/// Appending an item raises the number of image items named `name` by one
/// when the item is such an image item, and leaves it as it was otherwise.
pub proof fn lemma_count_push_named(items: Seq<ItemView>, item: ItemView, name: Seq<char>)
    ensures
        count_images_named(items.push(item), name) == count_images_named(items, name)
            + if item.item_type == ClipboardItemType::IMAGE && item.data == name {
            1nat
        } else {
            0nat
        },
{
    assert(items.push(item).drop_last() =~= items);
}

/// Where no item records `name`, no image item does.
pub proof fn lemma_unheld_name_counts_zero(items: Seq<ItemView>, name: Seq<char>)
    requires
        forall|i: int| 0 <= i < items.len() ==> (#[trigger] items[i]).data != name,
    ensures
        count_images_named(items, name) == 0,
    decreases items.len(),
{
    if items.len() > 0 {
        let front = items.drop_last();
        assert forall|i: int| 0 <= i < front.len() implies (#[trigger] front[i]).data != name by {
            assert(front[i] == items[i]);
        }
        lemma_unheld_name_counts_zero(front, name);
    }
}

impl ClipboardHistory {
    /// The empty history.
    pub fn new() -> (history: ClipboardHistory)
        ensures
            history@ == HistoryView::empty(),
            history@.wf(),
    {
        let history = ClipboardHistory { items: Vec::new(), image_counter: 0, text_counter: 0 };
        assert(history@.items =~= Seq::<ItemView>::empty());
        history
    }

    /// Appends an item with the given time stamp and raises the counter of its type.
    pub fn add_item_at(&mut self, item: String, item_type: ClipboardItemType, time: u128)
        requires
            old(self)@.counters_consistent(),
        ensures
            final(self)@ == old(self)@.push(
                ItemView { time: time as nat, item_type: item_type, data: item@ },
            ),
            final(self)@.counters_consistent(),
            old(self)@.wf() && (item_type == ClipboardItemType::TEXT ==> item@.len() > 0)
                ==> final(self)@.wf(),
    {
        let stored: usize = self.items.len();
        proof {
            lemma_count_bounded(self@.items, ClipboardItemType::TEXT);
            lemma_count_bounded(self@.items, ClipboardItemType::IMAGE);
            assert(self@.items.len() == stored);
        }
        if item_type == ClipboardItemType::IMAGE {
            self.image_counter += 1;
        }
        if item_type == ClipboardItemType::TEXT {
            self.text_counter += 1;
        }
        let ghost added = ItemView { time: time as nat, item_type: item_type, data: item@ };
        self.items.push(ClipboardItem { time: time, item_type: item_type, data: item });
        proof {
            assert(self@.items =~= old(self)@.items.push(added));
            assert(self@.items.drop_last() =~= old(self)@.items);
        }
    }

    /// Appends an item stamped with the current time and raises the counter of
    /// its type. Nothing is tested against earlier items.
    pub fn add_item(&mut self, item: String, item_type: ClipboardItemType)
        requires
            old(self)@.counters_consistent(),
        ensures
            final(self)@.extends_with(old(self)@, item_type, item@),
            final(self)@.counters_consistent(),
            old(self)@.wf() && (item_type == ClipboardItemType::TEXT ==> item@.len() > 0)
                ==> final(self)@.wf(),
    {
        let time: u128 = unix_time_nanos();
        self.add_item_at(item, item_type, time);
    }

    /// The item at the 0-based position `index`, if there is one.
    pub fn get_item(&self, index: usize) -> (item: Option<&ClipboardItem>)
        ensures
            item is Some <==> index < self@.items.len(),
            item matches Some(found) ==> *found == self.items@[index as int] && found@
                == self@.items[index as int],
    {
        if index < self.items.len() {
            Some(&self.items[index])
        } else {
            None
        }
    }

    /// The counter kept for `item_type`.
    pub fn get_counter(&self, item_type: ClipboardItemType) -> (counter: u128)
        ensures
            counter == self@.counter(item_type),
    {
        match item_type {
            ClipboardItemType::TEXT => self.text_counter,
            ClipboardItemType::IMAGE => self.image_counter,
        }
    }

    /// Tests the invariant: both counters match the items, and no text item is
    /// empty.
    pub fn is_well_formed(&self) -> (ok: bool)
        ensures
            ok == self@.wf(),
    {
        let mut texts: usize = 0;
        let mut images: usize = 0;
        let mut nonempty = true;
        let mut i: usize = 0;
        while i < self.items.len()
            invariant
                0 <= i <= self.items.len(),
                texts == count_items(self@.items.take(i as int), ClipboardItemType::TEXT),
                images == count_items(self@.items.take(i as int), ClipboardItemType::IMAGE),
                nonempty == (forall|j: int|
                    0 <= j < i && (#[trigger] self@.items[j]).item_type == ClipboardItemType::TEXT
                        ==> self@.items[j].data.len() > 0),
            decreases self.items.len() - i,
        {
            let item = &self.items[i];
            proof {
                let upto = self@.items.take(i as int + 1);
                assert(upto.drop_last() =~= self@.items.take(i as int));
                assert(upto.last() == self@.items[i as int]);
                lemma_count_bounded(upto, ClipboardItemType::TEXT);
                lemma_count_bounded(upto, ClipboardItemType::IMAGE);
            }
            match item.item_type {
                ClipboardItemType::TEXT => {
                    texts += 1;
                    if item.data.as_str().is_empty() {
                        nonempty = false;
                    }
                },
                ClipboardItemType::IMAGE => {
                    images += 1;
                },
            }
            i += 1;
        }
        proof {
            assert(self@.items.take(i as int) =~= self@.items);
        }
        nonempty && self.text_counter == texts as u128 && self.image_counter == images as u128
    }
    /// The data of the most recent item of type `item_type`, or the empty
    /// string when no item has that type.
    pub fn last_data(&self, item_type: ClipboardItemType) -> (data: String)
        ensures
            data@ == self@.last_data(item_type),
    {
        let mut i: usize = self.items.len();
        proof {
            assert(self@.items.take(i as int) =~= self@.items);
        }
        while i > 0
            invariant
                0 <= i <= self.items.len(),
                last_data_of(self@.items.take(i as int), item_type) == self@.last_data(item_type),
            decreases i,
        {
            proof {
                assert(self@.items.take(i as int).drop_last() =~= self@.items.take(i as int - 1));
            }
            i -= 1;
            if self.items[i].item_type == item_type {
                return self.items[i].data.clone();
            }
        }
        String::new()
    }

    /// Whether some item, of either type, records exactly `data`.
    pub fn holds_data(&self, data: &String) -> (found: bool)
        ensures
            found == self@.holds_data(data@),
    {
        let mut i: usize = 0;
        while i < self.items.len()
            invariant
                0 <= i <= self.items.len(),
                forall|j: int| 0 <= j < i ==> (#[trigger] self@.items[j]).data != data@,
            decreases self.items.len() - i,
        {
            if self.items[i].data == *data {
                assert(self@.items[i as int].data == data@);
                return true;
            }
            i += 1;
        }
        false
    }
}

impl Default for ClipboardHistory {
    fn default() -> (history: ClipboardHistory)
        ensures
            history@ == HistoryView::empty(),
    {
        ClipboardHistory::new()
    }
}

} // verus!
