//! Application menus in the titlebar.
//!
//! A client says where its menu lives; the compositor reads it over
//! `com.canonical.dbusmenu` and draws it. Both halves are optional at every
//! step — most applications export nothing, and the titlebar simply shows a
//! title and its controls when they do not.
//!
//! This is the bookkeeping: where each window's menu lives, what it holds,
//! and which part of it is open.

pub mod layout;
pub mod model;

use std::collections::HashMap;

use vstd::prelude::*;

use crate::layout::WindowId;
use crate::menu::model::{item_view, item_views, lemma_views, MenuBar, MenuBarView, MenuItem, MenuItemView, bar_is_empty, holds_id, graft_from};

verus! {

broadcast use vstd::std_specs::hash::group_hash_axioms;

/// Where a window's menu lives on the session bus.
#[derive(Debug)]
pub struct MenuAddress {
    pub service: String,
    pub path: String,
}

impl View for MenuAddress {
    type V = (Seq<char>, Seq<char>);

    open spec fn view(&self) -> (Seq<char>, Seq<char>) {
        (self.service@, self.path@)
    }
}

impl MenuAddress {
    pub fn duplicate(&self) -> (r: MenuAddress)
        ensures
            r@ == self@,
    {
        MenuAddress { service: self.service.clone(), path: self.path.clone() }
    }

    pub fn same_as(&self, other: &MenuAddress) -> (r: bool)
        ensures
            r == (self@ == other@),
    {
        self.service == other.service && self.path == other.path
    }
}

/// Which menu is open, and where.
#[derive(Debug, PartialEq, Eq)]
pub struct OpenMenu {
    pub window: WindowId,
    /// The path from the menubar down to the open submenu, by item id. One
    /// entry means a top-level menu is open; two means a submenu inside it.
    pub path: Vec<i32>,
    /// The item the pointer or keyboard is on, if any.
    pub highlighted: Option<i32>,
}

pub struct OpenMenuView {
    pub window: WindowId,
    pub path: Seq<i32>,
    pub highlighted: Option<i32>,
}

impl View for OpenMenu {
    type V = OpenMenuView;

    open spec fn view(&self) -> OpenMenuView {
        OpenMenuView { window: self.window, path: self.path@, highlighted: self.highlighted }
    }
}

pub open spec fn open_view(open: Option<OpenMenu>) -> Option<OpenMenuView> {
    match open {
        Some(o) => Some(o@),
        None => None,
    }
}

/// Whether `open` is the top-level menu `id` of `window`.
pub open spec fn is_open_at(open: Option<OpenMenuView>, window: WindowId, id: i32) -> bool {
    open matches Some(o) && o.window == window && o.path.len() > 0 && o.path[0] == id
}

/// Clicking a top-level label: it opens, or closes if it was the one open.
pub open spec fn toggled(open: Option<OpenMenuView>, window: WindowId, id: i32) -> Option<
    OpenMenuView,
> {
    if is_open_at(open, window, id) {
        None
    } else {
        Some(OpenMenuView { window, path: seq![id], highlighted: None })
    }
}

/// Opening submenu `id` of whatever is open: it goes one level down, unless
/// it is the submenu already open.
pub open spec fn descended(open: Option<OpenMenuView>, id: i32) -> Option<OpenMenuView> {
    match open {
        Some(o) => if o.path.len() > 0 && o.path.last() == id {
            open
        } else {
            Some(OpenMenuView { window: o.window, path: o.path.push(id), highlighted: None })
        },
        None => None,
    }
}

/// Backing out one level; out of the top level, the menu closes.
pub open spec fn ascended(open: Option<OpenMenuView>) -> Option<OpenMenuView> {
    match open {
        Some(o) => {
            let path = if o.path.len() > 0 {
                o.path.drop_last()
            } else {
                o.path
            };
            if path.len() == 0 {
                None
            } else {
                Some(OpenMenuView { window: o.window, path, highlighted: o.highlighted })
            }
        },
        None => None,
    }
}

/// The index of the first of `items[i..]` whose id is `id`.
pub open spec fn find_from(items: Seq<MenuItemView>, id: i32, i: int) -> Option<int>
    decreases items.len() - i,
{
    if i < 0 || i >= items.len() {
        None
    } else if items[i].id == id {
        Some(i)
    } else {
        find_from(items, id, i + 1)
    }
}

/// The rows at the end of `path`, each step choosing the first row with that
/// id; `None` where a step finds no such row.
pub open spec fn rows_at(items: Seq<MenuItemView>, path: Seq<i32>) -> Option<Seq<MenuItemView>>
    decreases path.len(),
{
    if path.len() == 0 {
        Some(items)
    } else {
        match find_from(items, path[0], 0) {
            Some(j) => rows_at(items[j].children, path.drop_first()),
            None => None,
        }
    }
}

/// Every window's menubar, and whichever one is open. `L` is whatever the
/// render pass recorded of where the row and the popup were last drawn.
pub struct Menus<L> {
    /// Where each window's menu lives. Kept separately from the contents: a
    /// window can name an address long before anything reads it.
    addresses: HashMap<WindowId, MenuAddress>,
    bars: HashMap<WindowId, MenuBar>,
    open: Option<OpenMenu>,
    /// The menu geometry as last drawn, and the window it belongs to.
    layout: Option<(WindowId, L)>,
}

impl<L> Menus<L> {
    pub closed spec fn addresses(&self) -> Map<WindowId, (Seq<char>, Seq<char>)> {
        self.addresses@.map_values(|a: MenuAddress| a@)
    }

    pub closed spec fn bars(&self) -> Map<WindowId, MenuBarView> {
        self.bars@.map_values(|b: MenuBar| b@)
    }

    pub closed spec fn open_menu(&self) -> Option<OpenMenuView> {
        open_view(self.open)
    }

    pub closed spec fn drawn(&self) -> Option<(WindowId, L)> {
        self.layout
    }

    /// Nothing can be open with an empty path.
    pub open spec fn well_formed(&self) -> bool {
        self.open_menu() matches Some(o) ==> o.path.len() > 0
    }

    pub fn new() -> (m: Self)
        ensures
            m.addresses() == Map::<WindowId, (Seq<char>, Seq<char>)>::empty(),
            m.bars() == Map::<WindowId, MenuBarView>::empty(),
            m.open_menu() is None,
            m.drawn() is None,
            m.well_formed(),
    {
        let m = Menus { addresses: HashMap::new(), bars: HashMap::new(), open: None, layout: None };
        assert(m.addresses() =~= Map::<WindowId, (Seq<char>, Seq<char>)>::empty());
        assert(m.bars() =~= Map::<WindowId, MenuBarView>::empty());
        m
    }

    pub fn address(&self, window: WindowId) -> (r: Option<&MenuAddress>)
        ensures
            match r {
                Some(a) => self.addresses().contains_key(window) && a@ == self.addresses()[window],
                None => !self.addresses().contains_key(window),
            },
    {
        self.addresses.get(&window)
    }

    fn close_for(&mut self, window: WindowId)
        ensures
            final(self).addresses() == old(self).addresses(),
            final(self).bars() == old(self).bars(),
            final(self).open_menu() == (if old(self).open_menu() matches Some(o) && o.window
                == window {
                None
            } else {
                old(self).open_menu()
            }),
            final(self).drawn() == (if old(self).drawn() matches Some(d) && d.0 == window {
                None
            } else {
                old(self).drawn()
            }),
    {
        let shut = match &self.open {
            Some(open) => open.window == window,
            None => false,
        };
        if shut {
            self.open = None;
        }
        let drawn_here = match &self.layout {
            Some(drawn) => drawn.0 == window,
            None => false,
        };
        if drawn_here {
            self.layout = None;
        }
    }

    /// Records where a window's menu lives. Returns the address to fetch from,
    /// or `None` if there is nothing new to do.
    pub fn set_address(&mut self, window: WindowId, address: Option<MenuAddress>) -> (r: Option<
        MenuAddress,
    >)
        ensures
            match address {
                Some(a) => if old(self).addresses().contains_key(window)
                    && old(self).addresses()[window] == a@ {
                    &&& r is None
                    &&& final(self).addresses() == old(self).addresses()
                    &&& final(self).bars() == old(self).bars()
                } else {
                    &&& r matches Some(f) && f@ == a@
                    &&& final(self).addresses() == old(self).addresses().insert(window, a@)
                    &&& final(self).bars() == old(self).bars().remove(window)
                },
                None => {
                    &&& r is None
                    &&& final(self).addresses() == old(self).addresses().remove(window)
                    &&& final(self).bars() == old(self).bars().remove(window)
                },
            },
            address is Some ==> final(self).open_menu() == old(self).open_menu(),
            address is Some ==> final(self).drawn() == old(self).drawn(),
            address is None ==> final(self).open_menu() == (if old(self).open_menu() matches Some(
                o,
            ) && o.window == window {
                None
            } else {
                old(self).open_menu()
            }) && final(self).drawn() == (if old(self).drawn() matches Some(d) && d.0 == window {
                None
            } else {
                old(self).drawn()
            }),
    {
        match address {
            Some(address) => {
                let same = match self.addresses.get(&window) {
                    Some(known) => known.same_as(&address),
                    None => false,
                };
                if same {
                    return None;
                }
                self.bars.remove(&window);
                self.addresses.insert(window, address.duplicate());
                proof {
                    assert(self.addresses() =~= old(self).addresses().insert(window, address@));
                    assert(self.bars() =~= old(self).bars().remove(window));
                }
                Some(address)
            },
            None => {
                self.addresses.remove(&window);
                self.bars.remove(&window);
                proof {
                    assert(self.addresses() =~= old(self).addresses().remove(window));
                    assert(self.bars() =~= old(self).bars().remove(window));
                }
                self.close_for(window);
                None
            },
        }
    }

    /// A window's menubar, unless it has nothing to show.
    pub fn bar(&self, window: WindowId) -> (r: Option<&MenuBar>)
        ensures
            match r {
                Some(b) => self.bars().contains_key(window) && b@ == self.bars()[window]
                    && !bar_is_empty(b@.items),
                None => !self.bars().contains_key(window) || bar_is_empty(
                    self.bars()[window].items,
                ),
            },
    {
        match self.bars.get(&window) {
            Some(bar) => if bar.is_empty() {
                None
            } else {
                Some(bar)
            },
            None => None,
        }
    }

    /// Stores a fetched menubar. A reply for a window that has since closed, or
    /// whose address changed, is dropped.
    pub fn set_bar(&mut self, window: WindowId, address: &MenuAddress, bar: MenuBar) -> (r: bool)
        ensures
            r == (old(self).addresses().contains_key(window) && old(self).addresses()[window]
                == address@),
            r ==> final(self).bars() == old(self).bars().insert(window, bar@),
            !r ==> final(self).bars() == old(self).bars(),
            final(self).addresses() == old(self).addresses(),
            final(self).open_menu() == old(self).open_menu(),
            final(self).drawn() == old(self).drawn(),
    {
        let current = match self.addresses.get(&window) {
            Some(known) => known.same_as(address),
            None => false,
        };
        if !current {
            return false;
        }
        let ghost b = bar@;
        self.bars.insert(window, bar);
        assert(self.bars() =~= old(self).bars().insert(window, b));
        true
    }

    /// Fills in a submenu the user opened.
    pub fn graft(&mut self, window: WindowId, id: i32, children: Vec<MenuItem>) -> (r: bool)
        ensures
            r == (old(self).bars().contains_key(window) && holds_id(
                old(self).bars()[window].items,
                id,
                0,
            )),
            r ==> final(self).bars() == old(self).bars().insert(
                window,
                MenuBarView {
                    items: graft_from(
                        old(self).bars()[window].items,
                        id,
                        item_views(children@),
                        0,
                    )->0,
                    revision: old(self).bars()[window].revision,
                },
            ),
            !r ==> final(self).bars() == old(self).bars(),
            final(self).addresses() == old(self).addresses(),
            final(self).open_menu() == old(self).open_menu(),
            final(self).drawn() == old(self).drawn(),
    {
        match self.bars.remove(&window) {
            Some(bar) => {
                let mut bar = bar;
                let ghost before = bar@;
                let found = bar.graft(id, children);
                let ghost after = bar@;
                self.bars.insert(window, bar);
                proof {
                    if found {
                        assert(after.items == graft_from(before.items, id, item_views(children@), 0)->0);
                    } else {
                        assert(after == before);
                    }
                    assert(self.bars() =~= old(self).bars().insert(window, after));
                }
                found
            },
            None => {
                assert(self.bars() =~= old(self).bars());
                false
            },
        }
    }

    pub fn open(&self) -> (r: Option<&OpenMenu>)
        ensures
            open_view(
                match r {
                    Some(o) => Some(*o),
                    None => None,
                },
            ) == self.open_menu(),
    {
        self.open.as_ref()
    }

    /// Records where the row and popup were drawn. Called once per frame by the
    /// render pass, for the window whose frame it just built.
    pub fn record_layout(&mut self, window: WindowId, layout: L)
        ensures
            final(self).drawn() == Some((window, layout)),
            final(self).addresses() == old(self).addresses(),
            final(self).bars() == old(self).bars(),
            final(self).open_menu() == old(self).open_menu(),
    {
        self.layout = Some((window, layout));
    }

    /// The menu geometry as last drawn, and the window it belongs to.
    pub fn drawn_layout(&self) -> (r: Option<&(WindowId, L)>)
        ensures
            match r {
                Some(d) => self.drawn() == Some(*d),
                None => self.drawn() is None,
            },
    {
        self.layout.as_ref()
    }

    pub fn clear_layout(&mut self)
        ensures
            final(self).drawn() is None,
            final(self).addresses() == old(self).addresses(),
            final(self).bars() == old(self).bars(),
            final(self).open_menu() == old(self).open_menu(),
    {
        self.layout = None;
    }

    /// The items of whichever menu is open, ready to lay out.
    pub fn open_items(&self) -> (r: Option<(WindowId, &[MenuItem])>)
        ensures
            match r {
                Some((w, items)) => self.open_menu() matches Some(o) && w == o.window
                    && self.bars().contains_key(w) && rows_at(self.bars()[w].items, o.path)
                    == Some(item_views(items@)),
                None => match self.open_menu() {
                    Some(o) => !self.bars().contains_key(o.window) || rows_at(
                        self.bars()[o.window].items,
                        o.path,
                    ) is None,
                    None => true,
                },
            },
    {
        let open = match &self.open {
            Some(open) => open,
            None => {
                return None;
            },
        };
        let bar = match self.bars.get(&open.window) {
            Some(bar) => bar,
            None => {
                return None;
            },
        };
        let mut items: &[MenuItem] = bar.items.as_slice();
        let mut step: usize = 0;
        let ghost path = open.path@;
        assert(path.skip(0) =~= path);
        while step < open.path.len()
            invariant
                step <= open.path.len(),
                path == open.path@,
                self.open == Some(*open),
                self.bars@.contains_key(open.window),
                self.bars@[open.window] == *bar,
                rows_at(bar@.items, path) == rows_at(item_views(items@), path.skip(step as int)),
            decreases open.path.len() - step,
        {
            let id = open.path[step];
            let ghost views = item_views(items@);
            proof {
                lemma_views(items@);
                assert(path.skip(step as int).drop_first() =~= path.skip(step + 1));
            }
            let mut j: usize = 0;
            while j < items.len() && items[j].id != id
                invariant
                    j <= items.len(),
                    views == item_views(items@),
                    views.len() == items@.len(),
                    forall|k: int| 0 <= k < items@.len() ==> #[trigger] views[k] == item_view(items@[k]),
                    find_from(views, id, 0) == find_from(views, id, j as int),
                decreases items.len() - j,
            {
                j = j + 1;
            }
            if j == items.len() {
                return None;
            }
            proof {
                assert(views[j as int] == item_view(items@[j as int]));
                assert(find_from(views, id, j as int) == Some(j as int));
            }
            items = items[j].children.as_slice();
            step = step + 1;
        }
        assert(path.skip(step as int) =~= Seq::<i32>::empty());
        Some((open.window, items))
    }

    /// Opens a top-level menu, or closes it if it was the one already open —
    /// which is what clicking the same label twice means everywhere.
    pub fn toggle(&mut self, window: WindowId, id: i32) -> (r: bool)
        ensures
            r,
            final(self).open_menu() == toggled(old(self).open_menu(), window, id),
            final(self).well_formed(),
            final(self).addresses() == old(self).addresses(),
            final(self).bars() == old(self).bars(),
            final(self).drawn() == old(self).drawn(),
    {
        let already = match &self.open {
            Some(open) => open.window == window && open.path.len() > 0 && open.path[0] == id,
            None => false,
        };
        if already {
            self.open = None;
        } else {
            self.open = Some(OpenMenu { window, path: vec![id], highlighted: None });
            assert(self.open->0.path@ =~= seq![id]);
        }
        true
    }

    /// Descends into a submenu of whatever is open.
    pub fn descend(&mut self, id: i32) -> (r: bool)
        ensures
            r == (old(self).open_menu() matches Some(o) && !(o.path.len() > 0 && o.path.last()
                == id)),
            final(self).open_menu() == descended(old(self).open_menu(), id),
            old(self).well_formed() ==> final(self).well_formed(),
            final(self).addresses() == old(self).addresses(),
            final(self).bars() == old(self).bars(),
            final(self).drawn() == old(self).drawn(),
    {
        match &mut self.open {
            Some(open) => {
                let n = open.path.len();
                if n > 0 && open.path[n - 1] == id {
                    return false;
                }
                open.path.push(id);
                open.highlighted = None;
                true
            },
            None => false,
        }
    }

    /// Backs out one level, closing the menu entirely at the top.
    pub fn ascend(&mut self) -> (r: bool)
        ensures
            r == old(self).open_menu() is Some,
            final(self).open_menu() == ascended(old(self).open_menu()),
            final(self).well_formed(),
            final(self).addresses() == old(self).addresses(),
            final(self).bars() == old(self).bars(),
            final(self).drawn() == old(self).drawn(),
    {
        let emptied = match &mut self.open {
            Some(open) => {
                open.path.pop();
                open.path.len() == 0
            },
            None => {
                return false;
            },
        };
        if emptied {
            self.open = None;
        }
        true
    }

    /// Moves the highlight; reports whether anything changed.
    pub fn highlight(&mut self, id: Option<i32>) -> (r: bool)
        ensures
            r == (old(self).open_menu() matches Some(o) && o.highlighted != id),
            final(self).open_menu() == (match old(self).open_menu() {
                Some(o) => Some(OpenMenuView { window: o.window, path: o.path, highlighted: id }),
                None => None,
            }),
            old(self).well_formed() ==> final(self).well_formed(),
            final(self).addresses() == old(self).addresses(),
            final(self).bars() == old(self).bars(),
            final(self).drawn() == old(self).drawn(),
    {
        match &mut self.open {
            Some(open) => {
                if open.highlighted == id {
                    return false;
                }
                open.highlighted = id;
                true
            },
            None => false,
        }
    }

    /// Closes whatever is open; reports whether anything was.
    pub fn close(&mut self) -> (r: bool)
        ensures
            r == old(self).open_menu() is Some,
            final(self).open_menu() is None,
            final(self).addresses() == old(self).addresses(),
            final(self).bars() == old(self).bars(),
            final(self).drawn() == old(self).drawn(),
    {
        let was = self.open.is_some();
        self.open = None;
        was
    }

    /// Drops everything a window owned. Called when it closes.
    pub fn forget(&mut self, window: WindowId)
        ensures
            final(self).addresses() == old(self).addresses().remove(window),
            final(self).bars() == old(self).bars().remove(window),
            final(self).open_menu() == (if old(self).open_menu() matches Some(o) && o.window
                == window {
                None
            } else {
                old(self).open_menu()
            }),
            final(self).drawn() == (if old(self).drawn() matches Some(d) && d.0 == window {
                None
            } else {
                old(self).drawn()
            }),
    {
        self.addresses.remove(&window);
        self.bars.remove(&window);
        proof {
            assert(self.addresses() =~= old(self).addresses().remove(window));
            assert(self.bars() =~= old(self).bars().remove(window));
        }
        self.close_for(window);
    }
}

/// Clicking the same label twice, from anything but that label's own menu,
/// leaves nothing open.
pub proof fn lemma_second_click_closes(open: Option<OpenMenuView>, window: WindowId, id: i32)
    requires
        !is_open_at(open, window, id),
    ensures
        toggled(toggled(open, window, id), window, id) is None,
{
}

/// Opening a submenu and backing out of it again walks the same path: the
/// same window, the same levels open.
pub proof fn lemma_descend_then_ascend(open: Option<OpenMenuView>, id: i32)
    requires
        open matches Some(o) && o.path.len() > 0 && o.path.last() != id,
    ensures
        ascended(descended(open, id)) matches Some(back) && back.window == open->0.window
            && back.path == open->0.path,
{
    let o = open->0;
    assert(o.path.push(id).drop_last() =~= o.path);
}

/// Backing out of a top-level menu closes it.
pub proof fn lemma_ascend_from_top_closes(open: Option<OpenMenuView>)
    requires
        open matches Some(o) && o.path.len() == 1,
    ensures
        ascended(open) is None,
{
}

} // verus!
