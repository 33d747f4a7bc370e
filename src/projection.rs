use vstd::prelude::*;
use crate::controller::MinionsApp;
use crate::error::ActionError;
use crate::item::{Icon, Item, ItemData};
use crate::status::Capability;
use crate::text::{decimal, push_decimal, push_str};
use crate::status::{Status, StatusView};

verus! {

/// Rows of the item list on show at once.
pub const LISTBOX_NUM: usize = 5;

/// Everything the window draws, derived from the state alone.
#[derive(Debug)]
pub struct UiProjection {
    /// The index of the item shown in the entry box; `None` shows the
    /// launcher's own title.
    pub entry_item: Option<usize>,
    /// The entry box takes free text.
    pub entry_editable: bool,
    pub filter_text: String,
    pub action_name: Option<String>,
    /// The reference panel shows the bound reference.
    pub show_reference: bool,
    /// The indices of the listed items, in display order.
    pub items: Vec<usize>,
    /// The highlighted position in `items`, or `-1`.
    pub highlight: i32,
    pub spinning: bool,
    pub error: Option<ActionError>,
    /// There is nothing left to list, so the window goes away.
    pub hide_window: bool,
}

/// First shown row of a list of `count` rows with `highlight` highlighted:
/// the highlight sits in the middle where it can, and the page is filled
/// from the end of the list once the end is reached.
pub open spec fn window_start(count: int, highlight: int) -> int {
    let half = (LISTBOX_NUM / 2) as int;
    let start = if highlight < half { 0 } else { highlight - half };
    let end = window_end(count, highlight);
    if end - start < LISTBOX_NUM {
        if end - LISTBOX_NUM > 0 { end - LISTBOX_NUM } else { 0 }
    } else {
        start
    }
}

/// One past the last shown row, as [`window_start`] describes.
pub open spec fn window_end(count: int, highlight: int) -> int {
    let half = (LISTBOX_NUM / 2) as int;
    let start = if highlight < half { 0 } else { highlight - half };
    if start + LISTBOX_NUM < count { start + LISTBOX_NUM } else { count }
}

/// The rows `[start, end)` of a list of `count` rows that are shown with
/// `highlight` highlighted.
pub fn display_window(count: usize, highlight: i32) -> (r: (usize, usize))
    ensures
        r.0 == window_start(count as int, highlight as int),
        r.1 == window_end(count as int, highlight as int),
        r.0 <= r.1 <= count,
        r.1 - r.0 == if count < LISTBOX_NUM { count } else { LISTBOX_NUM },
        0 <= highlight < count ==> r.0 <= highlight < r.1,
{
    let start: usize = if highlight < (LISTBOX_NUM / 2) as i32 {
        0
    } else {
        (highlight - (LISTBOX_NUM / 2) as i32) as usize
    };
    let end: usize = if start < count && count - start > LISTBOX_NUM {
        start + LISTBOX_NUM
    } else {
        count
    };
    let first: usize = if end < start || end - start < LISTBOX_NUM {
        if end > LISTBOX_NUM {
            end - LISTBOX_NUM
        } else {
            0
        }
    } else {
        start
    };
    (first, end)
}

/// The glyph of the entry box when no item is shown in it.
pub const DEFAULT_GLYPH: char = '\u{f015}';
/// Marks a row whose action ends the chain.
pub const FINAL_GLYPH: char = '\u{f04d}';
/// Marks a row whose action returns further items.
pub const CHAIN_GLYPH: char = '\u{f0c9}';
/// Marks a row that runs on Enter.
pub const SELECTABLE_GLYPH: char = '\u{f090}';
/// Marks a row that asks for free text first.
pub const TEXT_GLYPH: char = '\u{f170}';

/// What the reference panel shows for a bound payload.
#[derive(Debug)]
pub struct ReferencePanel {
    pub title: String,
    pub subtitle: String,
    pub action_name: String,
}

/// How one row of the item list is drawn.
#[derive(Debug)]
pub struct RowView {
    pub title: String,
    /// `None` when the item has no subtitle or an empty one.
    pub subtitle: Option<String>,
    pub badge: Option<String>,
    pub icon: Icon,
    /// Whether the item's action ends the chain or returns items.
    pub arrow: char,
    /// Whether the item runs on Enter, asks for text first, or neither.
    pub selectable: char,
}

/// The icon of an item, or `fallback` when it has none.
pub open spec fn icon_or(icon: Option<Icon>, fallback: Icon) -> Icon {
    match icon {
        Some(i) => i,
        None => fallback,
    }
}

fn glyph(c: char) -> (r: Icon)
    ensures
        r matches Icon::Character { ch, font } && ch == c && font@ == "FontAwesome"@,
{
    Icon::Character { ch: c, font: "FontAwesome".to_string() }
}

fn icon_or_else(icon: &Option<Icon>, fallback: Icon) -> (r: Icon)
    ensures
        r == icon_or(*icon, fallback),
{
    match icon {
        Some(i) => i.clone(),
        None => fallback,
    }
}

/// The text and icon of the entry box: the item's title and icon (the
/// default glyph when it has none), or the launcher's name.
pub fn entry_view(item: Option<&Item>) -> (r: (String, Icon))
    ensures
        match item {
            Some(it) => r.0@ == it.title@ && (it.icon is Some ==> r.1 == it.icon.unwrap()),
            None => r.0@ == "Minions"@,
        },
        (item is None || item.unwrap().icon is None) ==> (r.1 matches Icon::Character { ch, font }
            && ch == DEFAULT_GLYPH && font@ == "FontAwesome"@),
{
    match item {
        Some(it) => (it.title.clone(), icon_or_else(&it.icon, glyph(DEFAULT_GLYPH))),
        None => ("Minions".to_string(), glyph(DEFAULT_GLYPH)),
    }
}

/// What the reference panel shows for `data`.
pub fn reference_panel(data: &ItemData) -> (r: ReferencePanel)
    ensures
        match data {
            ItemData::Text(t) => {
                &&& r.title@ == t@
                &&& r.subtitle@ == "Text data: "@ + decimal(crate::clipboard::byte_len(t@))
                    + " bytes"@
                &&& r.action_name@ == "Open Text with"@
            },
            ItemData::Path(p) => {
                &&& r.title@ == p@
                &&& r.subtitle@ == "Path data"@
                &&& r.action_name@ == "Open Path with"@
            },
        },
{
    match data {
        ItemData::Text(t) => {
            let mut subtitle = String::new();
            push_str(&mut subtitle, "Text data: ");
            push_decimal(&mut subtitle, t.as_str().len());
            push_str(&mut subtitle, " bytes");
            proof {
                reveal_strlit("Text data: ");
                reveal_strlit(" bytes");
            }
            ReferencePanel {
                title: t.clone(),
                subtitle,
                action_name: "Open Text with".to_string(),
            }
        },
        ItemData::Path(p) => ReferencePanel {
            title: p.clone(),
            subtitle: "Path data".to_string(),
            action_name: "Open Path with".to_string(),
        },
    }
}

/// How `item` is drawn as a row, where `caps` says what it can do and
/// `returns_items` whether its action returns further items.
pub fn row_view(item: &Item, caps: Capability, returns_items: bool) -> (r: RowView)
    ensures
        r.title@ == item.title@,
        r.subtitle == match item.subtitle {
            Some(s) => if s@.len() > 0 { Some(s) } else { None },
            None => None,
        },
        r.badge == item.badge,
        item.icon is Some ==> r.icon == item.icon.unwrap(),
        item.icon is None ==> (r.icon matches Icon::GtkName(n) && n@ == "gtk-missing-image"@),
        r.arrow == if returns_items { CHAIN_GLYPH } else { FINAL_GLYPH },
        r.selectable == if caps.selectable {
            SELECTABLE_GLYPH
        } else if caps.selectable_with_text {
            TEXT_GLYPH
        } else {
            ' '
        },
{
    let subtitle = match &item.subtitle {
        Some(s) => if !s.as_str().is_empty() {
            Some(s.clone())
        } else {
            None
        },
        None => None,
    };
    RowView {
        title: item.title.clone(),
        subtitle,
        badge: match &item.badge {
            Some(b) => Some(b.clone()),
            None => None,
        },
        icon: icon_or_else(&item.icon, Icon::GtkName("gtk-missing-image".to_string())),
        arrow: if returns_items { CHAIN_GLYPH } else { FINAL_GLYPH },
        selectable: if caps.selectable {
            SELECTABLE_GLYPH
        } else if caps.selectable_with_text {
            TEXT_GLYPH
        } else {
            ' '
        },
    }
}

impl MinionsApp {
    /// What the window shows in the current state.
    pub fn update_ui(&self) -> (p: UiProjection)
        requires
            self.wf(),
        ensures
            p.spinning == (self.status@ is Running),
            p.entry_editable == (self.status@ is EnteringText),
            p.show_reference == (self.status@ is FilteringNone || self.status@ is FilteringEntering
                || self.status@ is FilteringMoving),
            p.hide_window == (self.status@ is FilteringNone && self.ctx.list_items@.len() == 0),
            p.error is Some == (self.status@ is Error),
            p.error matches Some(e) ==> self.status@ == StatusView::Error(e@),
            match self.status@ {
                StatusView::FilteringNone => {
                    &&& p.items@ == crate::status::all_indices(self.ctx.list_items@.len())
                    &&& p.highlight == -1
                    &&& p.entry_item is None
                    &&& p.filter_text@.len() == 0
                    &&& p.action_name is None
                },
                StatusView::FilteringEntering(f, _) | StatusView::FilteringMoving(f) => {
                    &&& p.items@ == f.filter_indices
                    &&& p.highlight == f.selected_idx
                    &&& p.entry_item == crate::status::selected_item(self.status@)
                    &&& p.filter_text@ == f.filter_text
                    &&& p.action_name is None
                },
                StatusView::EnteringText(i) => {
                    &&& p.items@.len() == 0
                    &&& p.highlight == -1
                    &&& p.entry_item is None
                    &&& p.filter_text@.len() == 0
                    &&& p.action_name matches Some(n) && n@ == self.ctx.list_items@[i as int].title@
                },
                _ => {
                    &&& p.items@.len() == 0
                    &&& p.highlight == -1
                    &&& p.entry_item is None
                    &&& p.filter_text@.len() == 0
                    &&& p.action_name is None
                },
            },
    {
        let mut p = UiProjection {
            entry_item: None,
            entry_editable: false,
            filter_text: String::new(),
            action_name: None,
            show_reference: false,
            items: Vec::new(),
            highlight: -1,
            spinning: false,
            error: None,
            hide_window: false,
        };
        match &self.status {
            Status::Initial => {},
            Status::Running(_) => {
                p.spinning = true;
            },
            Status::Error(e) => {
                p.error = Some(e.clone());
            },
            Status::FilteringNone => {
                p.show_reference = true;
                p.hide_window = self.ctx.list_items.len() == 0;
                p.items = crate::controller::identity_indices(self.ctx.list_items.len());
            },
            Status::FilteringEntering(f, _) | Status::FilteringMoving(f) => {
                p.entry_item = self.selected_index();
                p.show_reference = true;
                p.filter_text = f.filter_text.clone();
                p.items = f.filter_indices.clone();
                p.highlight = f.selected_idx;
                assert(p.items@ =~= f.filter_indices@);
            },
            Status::EnteringText(i) => {
                p.entry_editable = true;
                p.action_name = Some(self.ctx.list_items[*i].title.clone());
            },
        }
        p
    }
}

} // verus!
