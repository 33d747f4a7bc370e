use vstd::prelude::*;

verus! {

/// How an item is drawn beside its title.
#[derive(Debug)]
pub enum Icon {
    /// A platform icon name.
    GtkName(String),
    /// An image file, scaled to a fixed pixel size.
    File(String),
    /// A glyph rendered in the given font.
    Character { ch: char, font: String },
}

/// A reference payload that an action can operate on.
#[derive(Debug)]
pub enum ItemData {
    Text(String),
    Path(String),
}

/// One selectable entry of a list.
#[derive(Debug)]
pub struct Item {
    pub title: String,
    pub subtitle: Option<String>,
    pub badge: Option<String>,
    pub icon: Option<Icon>,
    pub data: Option<ItemData>,
}

impl Clone for Icon {
    fn clone(&self) -> (r: Self)
        ensures
            r == *self,
    {
        match self {
            Icon::GtkName(n) => Icon::GtkName(n.clone()),
            Icon::File(p) => Icon::File(p.clone()),
            Icon::Character { ch, font } => Icon::Character { ch: *ch, font: font.clone() },
        }
    }
}

impl Clone for ItemData {
    fn clone(&self) -> (r: Self)
        ensures
            r == *self,
    {
        match self {
            ItemData::Text(t) => ItemData::Text(t.clone()),
            ItemData::Path(p) => ItemData::Path(p.clone()),
        }
    }
}

fn clone_opt_string(s: &Option<String>) -> (r: Option<String>)
    ensures
        r == *s,
{
    match s {
        Some(t) => Some(t.clone()),
        None => None,
    }
}

impl Clone for Item {
    fn clone(&self) -> (r: Self)
        ensures
            r == *self,
    {
        Item {
            title: self.title.clone(),
            subtitle: clone_opt_string(&self.subtitle),
            badge: clone_opt_string(&self.badge),
            icon: match &self.icon {
                Some(i) => Some(i.clone()),
                None => None,
            },
            data: match &self.data {
                Some(d) => Some(d.clone()),
                None => None,
            },
        }
    }
}

impl Item {
    /// An item with the given title and nothing else.
    pub fn new(title: &str) -> (r: Item)
        ensures
            r.title@ == title@,
            r.subtitle is None,
            r.badge is None,
            r.icon is None,
            r.data is None,
    {
        Item { title: title.to_string(), subtitle: None, badge: None, icon: None, data: None }
    }

    /// An item that shows `text` and carries it as its payload.
    pub fn new_text_item(text: &str) -> (r: Item)
        ensures
            r.title@ == text@,
            r.subtitle is None,
            r.badge is None,
            r.icon is None,
            r.data matches Some(ItemData::Text(t)) && t@ == text@,
    {
        let mut item = Item::new(text);
        item.data = Some(ItemData::Text(text.to_string()));
        item
    }
}

/// A copy of `items`, item by item.
pub fn clone_items(items: &Vec<Item>) -> (r: Vec<Item>)
    ensures
        r@ == items@,
{
    let mut r: Vec<Item> = Vec::new();
    let mut i: usize = 0;
    while i < items.len()
        invariant
            i <= items@.len(),
            r@ == items@.subrange(0, i as int),
        decreases items@.len() - i,
    {
        r.push(items[i].clone());
        i = i + 1;
    }
    assert(items@.subrange(0, items@.len() as int) == items@);
    r
}

} // verus!
