//! The clipboard manager: it owns one history and decides, for each sample of
//! the clipboard, whether the history grows.

use crate::history::{
    count_images_named, lemma_count_push_named, lemma_last_data_push,
    lemma_unheld_name_counts_zero, HistoryView, ItemView,
};
pub use crate::history::{ClipboardHistory, ClipboardItem, ClipboardItemType};
use crate::naming::{image_name, image_name_of};
use std::sync::Arc;
use vstd::prelude::*;

verus! {

/// Whether the helper program that captures images from the clipboard may
/// still be invoked. `Unavailable` is final.
#[derive(Debug, PartialEq, Eq, Clone, Copy, Structural)]
pub enum HelperState {
    Available,
    Unavailable,
}

/// What has to be put on the clipboard to restore an item.
#[derive(Debug)]
pub enum RestoreAction {
    /// Put this text on the clipboard.
    SetText(String),
    /// Put the image stored in the file of this name on the clipboard.
    SetImage(String),
    /// The history has no item of that number: leave the clipboard alone.
    NotFound,
}

/// The mathematical value of a [`RestoreAction`].
pub enum RestoreActionView {
    SetText(Seq<char>),
    SetImage(Seq<char>),
    NotFound,
}

impl View for RestoreAction {
    type V = RestoreActionView;

    open spec fn view(&self) -> RestoreActionView {
        match self {
            RestoreAction::SetText(text) => RestoreActionView::SetText(text@),
            RestoreAction::SetImage(name) => RestoreActionView::SetImage(name@),
            RestoreAction::NotFound => RestoreActionView::NotFound,
        }
    }
}

/// The least length of a helper output that counts as an image.
pub const MIN_IMAGE_BYTES: usize = 51;

impl HistoryView {
    /// A text sample is recorded when it is not empty and differs from the
    /// most recently recorded text.
    pub open spec fn admits_text(self, content: Seq<char>) -> bool {
        content.len() > 0 && content != self.last_data(ClipboardItemType::TEXT)
    }

    /// This history is what a sample of the text `content` makes of `prev`.
    pub open spec fn follows_text_sample(self, prev: HistoryView, content: Seq<char>) -> bool {
        if prev.admits_text(content) {
            self.extends_with(prev, ClipboardItemType::TEXT, content)
        } else {
            self == prev
        }
    }

    /// An image sample is recorded when it is long enough to be an image and
    /// no item records the name of its bytes.
    pub open spec fn admits_image(self, data: Seq<u8>) -> bool {
        data.len() >= MIN_IMAGE_BYTES && !self.holds_data(image_name_of(data))
    }

    /// A save of the image bytes `data` records them when no file of their
    /// name is on disk yet and the history admits them.
    pub open spec fn saves_image(self, data: Seq<u8>, file_exists: bool) -> bool {
        !file_exists && self.admits_image(data)
    }

    /// This history is what a save of the image bytes `data` makes of `prev`:
    /// `prev` with one image item appended that bears the name of the bytes,
    /// or `prev` itself.
    pub open spec fn follows_image_save(
        self,
        prev: HistoryView,
        data: Seq<u8>,
        file_exists: bool,
    ) -> bool {
        if prev.saves_image(data, file_exists) {
            self.extends_with(prev, ClipboardItemType::IMAGE, image_name_of(data))
        } else {
            self == prev
        }
    }

    /// What restoring the item with the 1-based number `item_number` asks for.
    pub open spec fn restore_target(self, item_number: nat) -> RestoreActionView {
        if 1 <= item_number <= self.items.len() {
            let item = self.items[item_number - 1];
            match item.item_type {
                ClipboardItemType::TEXT => RestoreActionView::SetText(item.data),
                ClipboardItemType::IMAGE => RestoreActionView::SetImage(item.data),
            }
        } else {
            RestoreActionView::NotFound
        }
    }
}

/// The mathematical value of a [`ClipboardManager`].
pub struct ManagerView {
    pub history: HistoryView,
    pub history_file_path: Seq<char>,
    pub helper: HelperState,
}

impl ManagerView {
    /// The invariant of a manager: its history is well formed.
    pub open spec fn wf(self) -> bool {
        self.history.wf()
    }

    /// The manager after the helper was invoked and gave `output`, `None`
    /// standing for an invocation that failed: a failure switches an available
    /// helper off, and nothing else changes.
    pub open spec fn after_helper_output(self, output: Option<Seq<u8>>) -> ManagerView {
        if self.helper == HelperState::Available && output is None {
            ManagerView { helper: HelperState::Unavailable, ..self }
        } else {
            self
        }
    }

    /// The image that the helper's output asks to record, with its name:
    /// there is one when the helper was available and the history admits the
    /// bytes.
    pub open spec fn image_candidate(self, output: Option<Seq<u8>>) -> Option<
        (Seq<u8>, Seq<char>),
    > {
        match output {
            Some(data) if self.helper == HelperState::Available && self.history.admits_image(
                data,
            ) => Some((data, image_name_of(data))),
            _ => None,
        }
    }
}

/// The bytes that the helper gave, if it gave any.
pub open spec fn bytes_of(output: Option<Vec<u8>>) -> Option<Seq<u8>> {
    match output {
        Some(data) => Some(data@),
        None => None,
    }
}

/// The bytes and the name of an image that is to be recorded, if there is one.
pub open spec fn named_bytes_of(candidate: Option<(Vec<u8>, String)>) -> Option<
    (Seq<u8>, Seq<char>),
> {
    match candidate {
        Some((data, name)) => Some((data@, name@)),
        None => None,
    }
}

/// Sampling the same text twice in a row records it at most once: where
/// `once` is what a sample of `content` makes of `start`, a second sample of
/// `content` changes nothing.
pub proof fn lemma_same_text_twice(
    start: HistoryView,
    once: HistoryView,
    twice: HistoryView,
    content: Seq<char>,
)
    requires
        once.follows_text_sample(start, content),
        twice.follows_text_sample(once, content),
    ensures
        twice == once,
        once == start || once.extends_with(start, ClipboardItemType::TEXT, content),
{
    if start.admits_text(content) {
        let added = ItemView {
            time: once.items.last().time,
            item_type: ClipboardItemType::TEXT,
            data: content,
        };
        lemma_last_data_push(start, added, ClipboardItemType::TEXT);
    }
}

/// A sample of the empty text never changes the history, whatever it holds.
pub proof fn lemma_empty_text_ignored(start: HistoryView, after: HistoryView)
    requires
        after.follows_text_sample(start, Seq::empty()),
    ensures
        after == start,
{
}

/// A sampled image is recorded once. Where a sample of `data` found an image
/// to record and `after` is the history in which `save_image` has recorded
/// it, a further sample of the same bytes finds nothing to record, and
/// exactly one image item of `after` bears the name of the bytes.
pub proof fn lemma_image_recorded_once(start: ManagerView, after: ManagerView, data: Seq<u8>)
    requires
        start.image_candidate(Some(data)) is Some,
        after.history.extends_with(
            start.history,
            ClipboardItemType::IMAGE,
            image_name_of(data),
        ),
    ensures
        after.image_candidate(Some(data)) is None,
        count_images_named(after.history.items, image_name_of(data)) == 1,
{
    let name = image_name_of(data);
    let added = ItemView {
        time: after.history.items.last().time,
        item_type: ClipboardItemType::IMAGE,
        data: name,
    };
    assert(after.history.items.last() == added);
    assert(after.history.holds_data(name));
    lemma_unheld_name_counts_zero(start.history.items, name);
    lemma_count_push_named(start.history.items, added, name);
}

/// Saving the same bytes twice records them once. Where the first save
/// recorded the bytes, a second save of them changes nothing, whether or not
/// their file is on disk by then and whatever name the caller proposes, and
/// exactly one image item bears the name of the bytes.
pub proof fn lemma_same_image_saved_twice(
    start: HistoryView,
    once: HistoryView,
    twice: HistoryView,
    data: Seq<u8>,
    file_exists: bool,
)
    requires
        start.saves_image(data, false),
        once.follows_image_save(start, data, false),
        twice.follows_image_save(once, data, file_exists),
    ensures
        twice == once,
        count_images_named(once.items, image_name_of(data)) == 1,
{
    let name = image_name_of(data);
    let added = ItemView {
        time: once.items.last().time,
        item_type: ClipboardItemType::IMAGE,
        data: name,
    };
    assert(once.items.last() == added);
    assert(once.holds_data(name));
    lemma_unheld_name_counts_zero(start.items, name);
    lemma_count_push_named(start.items, added, name);
}

/// Bytes too few to be an image are never recorded by a save.
pub proof fn lemma_small_image_not_saved(
    start: HistoryView,
    after: HistoryView,
    data: Seq<u8>,
    file_exists: bool,
)
    requires
        data.len() < MIN_IMAGE_BYTES,
        after.follows_image_save(start, data, file_exists),
    ensures
        after == start,
{
}

/// A helper output of fewer than `MIN_IMAGE_BYTES` bytes is never recorded
/// and changes nothing.
pub proof fn lemma_small_output_ignored(manager: ManagerView, data: Seq<u8>)
    requires
        data.len() < MIN_IMAGE_BYTES,
    ensures
        manager.image_candidate(Some(data)) is None,
        manager.after_helper_output(Some(data)) == manager,
{
}

/// The helper's switch goes one way. After one failed invocation the helper
/// is unavailable, and from then on every output, a good one too, leaves the
/// manager as it is and yields nothing to record.
pub proof fn lemma_helper_stays_off(manager: ManagerView, later: Option<Seq<u8>>)
    ensures
        manager.after_helper_output(None).helper == HelperState::Unavailable,
        manager.after_helper_output(None).after_helper_output(later)
            == manager.after_helper_output(None),
        manager.after_helper_output(None).image_candidate(later) is None,
        manager.helper == HelperState::Unavailable ==> manager.after_helper_output(later)
            == manager && manager.image_candidate(later) is None,
{
}

/// Owns the history and the path of the file that backs it, and remembers
/// whether the image helper is still usable.
pub struct ClipboardManager {
    history: ClipboardHistory,
    history_file_path: Arc<String>,
    helper: HelperState,
}

impl View for ClipboardManager {
    type V = ManagerView;

    closed spec fn view(&self) -> ManagerView {
        ManagerView {
            history: self.history@,
            history_file_path: (*self.history_file_path)@,
            helper: self.helper,
        }
    }
}

impl ClipboardManager {
    /// A manager for the history file at `history_file_path`. `stored` is the
    /// history that the file held, `None` when there is no such file: the
    /// manager then starts from the empty history. The image helper starts
    /// out available.
    pub fn new(history_file_path: Arc<String>, stored: Option<ClipboardHistory>) -> (manager:
        ClipboardManager)
        requires
            stored matches Some(history) ==> history@.wf(),
        ensures
            manager@.history == match stored {
                Some(history) => history@,
                None => HistoryView::empty(),
            },
            manager@.history_file_path == (*history_file_path)@,
            manager@.helper == HelperState::Available,
            manager@.wf(),
    {
        let history = match stored {
            Some(history) => history,
            None => ClipboardHistory::new(),
        };
        ClipboardManager { history, history_file_path, helper: HelperState::Available }
    }

    /// The history, oldest item first.
    pub fn get_history(&self) -> (history: &ClipboardHistory)
        ensures
            history@ == self@.history,
    {
        &self.history
    }

    /// The path of the file that backs the history.
    pub fn history_file_path(&self) -> (path: &String)
        ensures
            path@ == self@.history_file_path,
    {
        &*self.history_file_path
    }

    /// Whether the image helper may still be invoked.
    pub fn helper_state(&self) -> (state: HelperState)
        ensures
            state == self@.helper,
    {
        self.helper
    }

    /// Records `text` as a new text item, unless it is empty. Returns whether
    /// the history grew and has to be written out.
    pub fn save_text(&mut self, text: String) -> (saved: bool)
        requires
            old(self)@.wf(),
        ensures
            saved == (text@.len() > 0),
            saved ==> final(self)@.history.extends_with(
                old(self)@.history,
                ClipboardItemType::TEXT,
                text@,
            ),
            !saved ==> final(self)@.history == old(self)@.history,
            final(self)@.history_file_path == old(self)@.history_file_path,
            final(self)@.helper == old(self)@.helper,
            final(self)@.wf(),
    {
        if text.as_str().is_empty() {
            return false;
        }
        self.history.add_item(text, ClipboardItemType::TEXT);
        true
    }

    /// The most recently recorded image name, empty when there is none.
    pub fn last_clipboard_image(&self) -> (name: String)
        ensures
            name@ == self@.history.last_data(ClipboardItemType::IMAGE),
    {
        self.history.last_data(ClipboardItemType::IMAGE)
    }

    /// The most recently recorded text, empty when there is none.
    pub fn last_clipboard_text(&self) -> (text: String)
        ensures
            text@ == self@.history.last_data(ClipboardItemType::TEXT),
    {
        self.history.last_data(ClipboardItemType::TEXT)
    }

    /// Takes in one reading of the text clipboard, `None` standing for a
    /// reading that failed. A text that is not empty and differs from the most
    /// recently recorded text becomes a new item; anything else changes
    /// nothing. Returns whether the history grew and has to be written out.
    pub fn update_clipboard_content(&mut self, reading: Option<String>) -> (saved: bool)
        requires
            old(self)@.wf(),
        ensures
            saved == (reading matches Some(content) && old(self)@.history.admits_text(content@)),
            reading matches Some(content) ==> final(self)@.history.follows_text_sample(
                old(self)@.history,
                content@,
            ),
            reading is None ==> final(self)@.history == old(self)@.history,
            reading matches Some(content) && content@.len() == 0 ==> final(self)@.history
                == old(self)@.history,
            final(self)@.history_file_path == old(self)@.history_file_path,
            final(self)@.helper == old(self)@.helper,
            final(self)@.wf(),
    {
        match reading {
            Some(content) => {
                if content != self.last_clipboard_text() {
                    self.save_text(content)
                } else {
                    false
                }
            },
            None => false,
        }
    }

    /// Takes in what one invocation of the image helper gave, `None` standing
    /// for an invocation that failed. The caller invokes the helper only while
    /// `helper_state` is `Available`; once it is `Unavailable` the output is
    /// ignored, whatever it is.
    ///
    /// A failed invocation switches the helper off for good. An output of
    /// fewer than `MIN_IMAGE_BYTES` bytes is no image. Otherwise the bytes are
    /// named after their digest, and if no item records that name yet they are
    /// returned with it, to be handed to `save_image` together with whether a
    /// file of that name exists. The history itself is left as it is.
    pub fn update_image_content(&mut self, output: Option<Vec<u8>>) -> (candidate: Option<
        (Vec<u8>, String),
    >)
        ensures
            final(self)@ == old(self)@.after_helper_output(bytes_of(output)),
            named_bytes_of(candidate) == old(self)@.image_candidate(bytes_of(output)),
            old(self)@.helper == HelperState::Unavailable ==> final(self)@ == old(self)@
                && candidate is None,
            output matches Some(data) && data@.len() < MIN_IMAGE_BYTES ==> final(self)@
                == old(self)@ && candidate is None,
    {
        if self.helper == HelperState::Unavailable {
            return None;
        }
        match output {
            None => {
                self.helper = HelperState::Unavailable;
                None
            },
            Some(image_data) => {
                if image_data.len() < MIN_IMAGE_BYTES {
                    return None;
                }
                let name = image_name(&image_data);
                if self.history.holds_data(&name) {
                    return None;
                }
                Some((image_data, name))
            },
        }
    }

    /// Records the image with the bytes `image_data` as a new image item,
    /// under the name that the bytes themselves give (see `image_name`).
    /// `image_name` is only the caller's proposal for the file and decides
    /// nothing; `file_exists` says whether the file for these bytes is
    /// already on disk.
    ///
    /// Nothing happens when that file exists, when the bytes are fewer than
    /// `MIN_IMAGE_BYTES`, or when some item already records the name of the
    /// bytes. Otherwise the item is appended and `image_data` is returned, to
    /// be written to the file of that name; the history then has to be written
    /// out as well.
    pub fn save_image(
        &mut self,
        image_data: Vec<u8>,
        image_name: String,
        file_exists: bool,
    ) -> (to_write: Option<Vec<u8>>)
        requires
            old(self)@.wf(),
        ensures
            final(self)@.history.follows_image_save(
                old(self)@.history,
                image_data@,
                file_exists,
            ),
            to_write is Some <==> old(self)@.history.saves_image(image_data@, file_exists),
            to_write matches Some(bytes) ==> bytes@ == image_data@,
            file_exists || image_data@.len() < MIN_IMAGE_BYTES ==> final(self)@ == old(self)@
                && to_write is None,
            final(self)@.history_file_path == old(self)@.history_file_path,
            final(self)@.helper == old(self)@.helper,
            final(self)@.wf(),
    {
        if file_exists || image_data.len() < MIN_IMAGE_BYTES {
            return None;
        }
        let name = crate::naming::image_name(&image_data);
        if self.history.holds_data(&name) {
            return None;
        }
        self.history.add_item(name, ClipboardItemType::IMAGE);
        Some(image_data)
    }

    /// What to put on the clipboard to restore the item with the 1-based
    /// number `item_number`. A number that names no item, zero included, gives
    /// `NotFound`.
    pub fn set_clipboard_text(&self, item_number: usize) -> (action: RestoreAction)
        ensures
            action@ == self@.history.restore_target(item_number as nat),
    {
        if item_number == 0 {
            return RestoreAction::NotFound;
        }
        match self.history.get_item(item_number - 1) {
            Some(item) => {
                match item.item_type {
                    ClipboardItemType::TEXT => RestoreAction::SetText(item.data.clone()),
                    ClipboardItemType::IMAGE => RestoreAction::SetImage(item.data.clone()),
                }
            },
            None => RestoreAction::NotFound,
        }
    }
}

impl Default for ClipboardManager {
    /// A manager with the empty history and the empty path, whose image
    /// helper is switched off.
    fn default() -> (manager: ClipboardManager)
        ensures
            manager@.history == HistoryView::empty(),
            manager@.history_file_path == Seq::<char>::empty(),
            manager@.helper == HelperState::Unavailable,
            manager@.wf(),
    {
        ClipboardManager {
            history: ClipboardHistory::new(),
            history_file_path: Arc::new(String::new()),
            helper: HelperState::Unavailable,
        }
    }
}

} // verus!
