use vstd::prelude::*;
use std::collections::VecDeque;
use crate::error::{ActionError, ErrorKind};
use crate::item::{Icon, Item, ItemData};
use crate::text::{decimal, push_decimal, push_str};

verus! {

/// The glyph drawn beside clipboard items.
pub const CLIPBOARD_GLYPH: char = '\u{f0ea}';

/// One captured clipboard text, with its capture time in seconds since the
/// Unix epoch.
#[derive(Debug)]
pub struct HistoryEntry {
    pub text: String,
    pub captured_at: i64,
}

/// A bounded history of clipboard texts, most recent first, exposed as an
/// item provider.
pub struct ClipboardHistoryAction {
    history_max_len: usize,
    history: VecDeque<HistoryEntry>,
}

/// The model of a history: text and capture time of each entry.
pub type HistoryView = Seq<(Seq<char>, i64)>;

/// The history after `text` was captured at time `at`: a text equal to the
/// most recent entry is not pushed again; entries beyond `max` are evicted
/// from the oldest end.
pub open spec fn after_push(h: HistoryView, max: nat, text: Seq<char>, at: i64) -> HistoryView {
    let grown = if h.len() > 0 && h[0].0 == text {
        h
    } else {
        seq![(text, at)] + h
    };
    if grown.len() > max {
        grown.subrange(0, max as int)
    } else {
        grown
    }
}

/// The number of bytes of the UTF-8 encoding of `s`, as `str::len`
/// reports it.
pub open spec fn byte_len(s: Seq<char>) -> nat {
    (vstd::utf8::encode_utf8(s).len() as usize) as nat
}

/// The subtitle of a history item whose capture time reads `label`.
pub open spec fn entry_subtitle(label: Seq<char>, byte_len: nat) -> Seq<char> {
    label + ", "@ + decimal(byte_len) + " bytes"@
}

/// The icon of clipboard items.
pub open spec fn is_clipboard_icon(icon: Option<Icon>) -> bool {
    icon matches Some(Icon::Character { ch, font }) && ch == CLIPBOARD_GLYPH && font@
        == "FontAwesome"@
}

/// Relies on chrono's `DateTime::from_timestamp`, `with_timezone(&Local)`
/// and `format`: the capture time as the local wall-clock time, month and
/// day; `None` where chrono cannot represent the timestamp. The text
/// depends on the machine's time zone, so nothing is stated of it.
#[verifier::external_body]
fn local_time_label(secs: i64) -> (r: Option<String>) {
    match chrono::DateTime::from_timestamp(secs, 0) {
        Some(t) => Some(t.with_timezone(&chrono::Local).format("%T %b %e").to_string()),
        None => None,
    }
}

fn clipboard_icon() -> (r: Icon)
    ensures
        is_clipboard_icon(Some(r)),
{
    Icon::Character { ch: CLIPBOARD_GLYPH, font: "FontAwesome".to_string() }
}

/// The item that shows `text`, captured at a time that reads `label`.
pub fn history_item(text: &str, label: &str) -> (r: Item)
    ensures
        r.title@ == text@,
        r.data matches Some(ItemData::Text(t)) && t@ == text@,
        r.subtitle matches Some(s) && s@ == entry_subtitle(label@, byte_len(text@)),
        r.badge is None,
        is_clipboard_icon(r.icon),
{
    let mut item = Item::new_text_item(text);
    let mut sub = label.to_string();
    push_str(&mut sub, ", ");
    push_decimal(&mut sub, text.len());
    push_str(&mut sub, " bytes");
    proof {
        reveal_strlit(", ");
        reveal_strlit(" bytes");
    }
    item.subtitle = Some(sub);
    item.icon = Some(clipboard_icon());
    item
}

impl ClipboardHistoryAction {
    /// The entries, most recent first.
    pub closed spec fn entries(&self) -> HistoryView {
        Seq::new(
            self.history@.len(),
            |i: int| (self.history@[i].text@, self.history@[i].captured_at),
        )
    }

    /// The most entries that the history keeps.
    pub closed spec fn max_len(&self) -> nat {
        self.history_max_len as nat
    }

    /// The history never holds more than its maximum.
    pub open spec fn wf(&self) -> bool {
        self.entries().len() <= self.max_len()
    }

    /// An empty history that keeps at most `history_max_len` entries.
    pub fn new(history_max_len: usize) -> (r: ClipboardHistoryAction)
        ensures
            r.wf(),
            r.entries() == Seq::<(Seq<char>, i64)>::empty(),
            r.max_len() == history_max_len,
    {
        let r = ClipboardHistoryAction { history_max_len, history: VecDeque::new() };
        assert(r.entries() =~= Seq::<(Seq<char>, i64)>::empty());
        r
    }

    /// The number of entries.
    pub fn len(&self) -> (r: usize)
        ensures
            r == self.entries().len(),
    {
        self.history.len()
    }

    /// Records `text`, captured at `captured_at` (seconds since the epoch).
    pub fn push_text(&mut self, text: String, captured_at: i64)
        requires
            old(self).wf(),
        ensures
            final(self).wf(),
            final(self).max_len() == old(self).max_len(),
            final(self).entries() == after_push(
                old(self).entries(),
                old(self).max_len(),
                text@,
                captured_at,
            ),
    {
        let ghost h = self.entries();
        let ghost max = self.max_len();
        let ghost new_text = text@;
        let is_dup = if self.history.len() > 0 {
            self.history[0].text == text
        } else {
            false
        };
        if !is_dup {
            self.history.push_front(HistoryEntry { text, captured_at });
        }
        let ghost grown = if h.len() > 0 && h[0].0 == new_text {
            h
        } else {
            seq![(new_text, captured_at)] + h
        };
        assert(self.entries() =~= grown);
        while self.history.len() > self.history_max_len
            invariant
                self.history_max_len == max,
                grown.len() > max ==> self.entries().len() >= max,
                grown.len() <= max ==> self.entries().len() == grown.len(),
                self.entries() == grown.subrange(0, self.entries().len() as int),
                grown.len() >= self.entries().len(),
            decreases self.history@.len(),
        {
            let ghost before = self.entries();
            self.history.pop_back();
            assert(self.entries() =~= before.subrange(0, before.len() - 1));
        }
        assert(grown.subrange(0, grown.len() as int) =~= grown);
    }

    /// The item that stands for this provider in the root list.
    pub fn get_item(&self) -> (r: Item)
        ensures
            r.title@ == "Clipboard History"@,
            r.subtitle matches Some(s) && s@ == "View clipboard history up to "@ + decimal(
                self.max_len(),
            ) + " entries"@,
            is_clipboard_icon(r.icon),
            r.data is None,
    {
        let mut item = Item::new("Clipboard History");
        let mut sub = String::new();
        push_str(&mut sub, "View clipboard history up to ");
        push_decimal(&mut sub, self.history_max_len);
        push_str(&mut sub, " entries");
        proof {
            reveal_strlit("View clipboard history up to ");
            reveal_strlit(" entries");
        }
        item.subtitle = Some(sub);
        item.icon = Some(clipboard_icon());
        item
    }

    /// The provider runs with no reference or text.
    pub fn accept_nothing(&self) -> (r: bool)
        ensures
            r,
    {
        true
    }

    /// The history as items, most recent first; fails with `NoData` when it
    /// is empty.
    pub fn run(&self) -> (r: Result<Vec<Item>, ActionError>)
        ensures
            r is Err <==> self.entries().len() == 0,
            r matches Err(e) ==> e.kind == ErrorKind::NoData && e.message@
                == "No clipboard history available"@,
            r matches Ok(items) ==> {
                &&& items@.len() == self.entries().len()
                &&& forall|i: int|
                    0 <= i < items@.len() ==> {
                        let it = #[trigger] items@[i];
                        &&& it.title@ == self.entries()[i].0
                        &&& it.data matches Some(ItemData::Text(t)) && t@ == self.entries()[i].0
                        &&& it.subtitle matches Some(s) && exists|label: Seq<char>|
                            s@ == entry_subtitle(label, byte_len(self.entries()[i].0))
                        &&& is_clipboard_icon(it.icon)
                    }
            },
    {
        if self.history.len() == 0 {
            return Err(ActionError::new(ErrorKind::NoData, "No clipboard history available"));
        }
        let mut items: Vec<Item> = Vec::new();
        let mut i: usize = 0;
        while i < self.history.len()
            invariant
                i <= self.history@.len(),
                items@.len() == i,
                forall|k: int|
                    0 <= k < i ==> {
                        let it = #[trigger] items@[k];
                        &&& it.title@ == self.entries()[k].0
                        &&& it.data matches Some(ItemData::Text(t)) && t@ == self.entries()[k].0
                        &&& it.subtitle matches Some(s) && exists|label: Seq<char>|
                            s@ == entry_subtitle(label, byte_len(self.entries()[k].0))
                        &&& is_clipboard_icon(it.icon)
                    },
            decreases self.history@.len() - i,
        {
            let entry = &self.history[i];
            let label = match local_time_label(entry.captured_at) {
                Some(l) => l,
                None => String::new(),
            };
            let item = history_item(entry.text.as_str(), label.as_str());
            let ghost lab = label@;
            assert(item.subtitle matches Some(s) && s@ == entry_subtitle(
                lab,
                byte_len(self.entries()[i as int].0),
            ));
            items.push(item);
            i = i + 1;
        }
        Ok(items)
    }
}

/// A history never grows past its maximum; capturing the text that is
/// already the most recent entry leaves it unchanged; capturing any other
/// text puts it in front, grows the history by one while below the
/// maximum, and at the maximum evicts exactly the oldest entry.
pub proof fn lemma_history_push(h: HistoryView, max: nat, text: Seq<char>, at: i64)
    requires
        h.len() <= max,
    ensures
        after_push(h, max, text, at).len() <= max,
        h.len() > 0 && h[0].0 == text ==> after_push(h, max, text, at) == h,
        !(h.len() > 0 && h[0].0 == text) ==> {
            &&& h.len() < max ==> after_push(h, max, text, at) == seq![(text, at)] + h
            &&& h.len() == max && max > 0 ==> after_push(h, max, text, at) == seq![(text, at)]
                + h.subrange(0, max - 1)
            &&& max == 0 ==> after_push(h, max, text, at).len() == 0
        },
{
    if !(h.len() > 0 && h[0].0 == text) && h.len() == max && max > 0 {
        assert((seq![(text, at)] + h).subrange(0, max as int) =~= seq![(text, at)] + h.subrange(
            0,
            max - 1,
        ));
    }
}

} // verus!
