//! The menu tree the titlebar draws.
//!
//! `com.canonical.dbusmenu` is a loose specification: every property is
//! optional, toolkits disagree about which ones they send, and a client may
//! describe its whole menu or only the row it was asked for. So this is
//! deliberately forgiving — anything missing takes a sensible default, and an
//! item that makes no sense is dropped rather than failing the tree.

use vstd::prelude::*;

use crate::text::{chars_of, push_char, text_is};

verus! {

/// How deep a menu may nest. Real menus are two or three levels; a cycle in a
/// malicious tree would otherwise recurse until the stack ran out.
pub const MAX_DEPTH: usize = 8;

/// How many items one level may hold.
pub const MAX_ITEMS: usize = 256;

/// What a row in a menu does when you click it.
#[derive(Debug, Clone, Copy, PartialEq, Eq, Structural)]
pub enum ItemKind {
    Standard,
    /// A rule between groups, drawn rather than clicked.
    Separator,
    Checkbox,
    Radio,
}

impl Default for ItemKind {
    fn default() -> (k: Self)
        ensures
            k == ItemKind::Standard,
    {
        ItemKind::Standard
    }
}

/// Whether a toggleable item is on. `Unknown` is the spec's own third state,
/// and means the client has not said.
#[derive(Debug, Clone, Copy, PartialEq, Eq, Structural)]
pub enum Toggle {
    Off,
    On,
    Unknown,
}

impl Default for Toggle {
    fn default() -> (t: Self)
        ensures
            t == Toggle::Unknown,
    {
        Toggle::Unknown
    }
}

/// One row of a menu.
#[derive(Debug, PartialEq, Eq)]
pub struct MenuItem {
    /// The client's own id, which is what an activation is reported with.
    pub id: i32,
    pub label: String,
    pub kind: ItemKind,
    pub enabled: bool,
    pub visible: bool,
    pub toggle: Toggle,
    /// Populated lazily: the client is asked for a submenu's contents when the
    /// user opens it, not when its parent is drawn.
    pub children: Vec<MenuItem>,
    /// Whether the client says there is a submenu here at all.
    pub has_submenu: bool,
}

/// A menu row as a value: its label as characters and its submenu as rows.
pub struct MenuItemView {
    pub id: i32,
    pub label: Seq<char>,
    pub kind: ItemKind,
    pub enabled: bool,
    pub visible: bool,
    pub toggle: Toggle,
    pub children: Seq<MenuItemView>,
    pub has_submenu: bool,
}

pub open spec fn item_view(item: MenuItem) -> MenuItemView
    decreases item, 0int,
{
    MenuItemView {
        id: item.id,
        label: item.label@,
        kind: item.kind,
        enabled: item.enabled,
        visible: item.visible,
        toggle: item.toggle,
        children: item_views_upto(item.children@, item.children@.len() as int),
        has_submenu: item.has_submenu,
    }
}

/// The views of the first `upto` rows of `items`.
pub open spec fn item_views_upto(items: Seq<MenuItem>, upto: int) -> Seq<MenuItemView>
    decreases items, upto,
{
    if upto <= 0 || upto > items.len() {
        Seq::empty()
    } else {
        item_views_upto(items, upto - 1).push(item_view(items[upto - 1]))
    }
}

/// The views of a row of items.
pub open spec fn item_views(items: Seq<MenuItem>) -> Seq<MenuItemView> {
    item_views_upto(items, items.len() as int)
}

pub proof fn lemma_views_upto(items: Seq<MenuItem>, upto: int)
    requires
        0 <= upto <= items.len(),
    ensures
        item_views_upto(items, upto).len() == upto,
        forall|j: int| 0 <= j < upto ==> #[trigger] item_views_upto(items, upto)[j] == item_view(items[j]),
    decreases upto,
{
    if upto > 0 {
        lemma_views_upto(items, upto - 1);
    }
}

pub proof fn lemma_views(items: Seq<MenuItem>)
    ensures
        item_views(items).len() == items.len(),
        forall|j: int| 0 <= j < items.len() ==> #[trigger] item_views(items)[j] == item_view(items[j]),
{
    lemma_views_upto(items, items.len() as int);
}

proof fn lemma_views_push(items: Seq<MenuItem>, x: MenuItem)
    ensures
        item_views(items.push(x)) == item_views(items).push(item_view(x)),
{
    lemma_views(items);
    lemma_views(items.push(x));
    assert(item_views(items.push(x)) =~= item_views(items).push(item_view(x)));
}

proof fn lemma_views_update(items: Seq<MenuItem>, i: int, x: MenuItem)
    requires
        0 <= i < items.len(),
    ensures
        item_views(items.update(i, x)) == item_views(items).update(i, item_view(x)),
{
    lemma_views(items);
    lemma_views(items.update(i, x));
    assert(item_views(items.update(i, x)) =~= item_views(items).update(i, item_view(x)));
}

impl View for MenuItem {
    type V = MenuItemView;

    open spec fn view(&self) -> MenuItemView {
        item_view(*self)
    }
}

impl Default for MenuItem {
    fn default() -> (item: Self)
        ensures
            item.id == 0,
            item.label@ == Seq::<char>::empty(),
            item.kind == ItemKind::Standard,
            item.enabled,
            item.visible,
            item.toggle == Toggle::Unknown,
            item.children@ == Seq::<MenuItem>::empty(),
            !item.has_submenu,
    {
        MenuItem {
            id: 0,
            label: String::new(),
            kind: ItemKind::Standard,
            enabled: true,
            visible: true,
            toggle: Toggle::Unknown,
            children: Vec::new(),
            has_submenu: false,
        }
    }
}

/// Whether a row can be clicked.
pub open spec fn actionable(item: MenuItemView) -> bool {
    item.enabled && item.visible && item.kind != ItemKind::Separator
}

impl MenuItem {
    /// Whether this row can be clicked. A separator and a greyed-out item both
    /// answer `false`, which is the only thing the caller cares about.
    pub fn is_actionable(&self) -> (r: bool)
        ensures
            r == actionable(self@),
    {
        self.enabled && self.visible && self.kind != ItemKind::Separator
    }

    /// A deep copy, submenus included.
    pub fn duplicate(&self) -> (r: MenuItem)
        ensures
            r@ == self@,
        decreases self,
    {
        let mut children: Vec<MenuItem> = Vec::new();
        let mut i: usize = 0;
        while i < self.children.len()
            invariant
                i <= self.children.len(),
                item_views(children@) == item_views(self.children@.take(i as int)),
            decreases self.children.len() - i,
        {
            let child = self.children[i].duplicate();
            proof {
                lemma_views_push(children@, child);
                lemma_views_push(self.children@.take(i as int), self.children@[i as int]);
                assert(self.children@.take(i as int).push(self.children@[i as int])
                    =~= self.children@.take(i + 1));
            }
            children.push(child);
            i = i + 1;
        }
        assert(self.children@.take(i as int) =~= self.children@);
        MenuItem {
            id: self.id,
            label: self.label.clone(),
            kind: self.kind,
            enabled: self.enabled,
            visible: self.visible,
            toggle: self.toggle,
            children,
            has_submenu: self.has_submenu,
        }
    }
}

/// One window's menubar: the top-level row, and whatever has been opened below
/// it.
#[derive(Debug, PartialEq, Eq)]
pub struct MenuBar {
    pub items: Vec<MenuItem>,
    /// The revision the client last reported. A `LayoutUpdated` naming an older
    /// one is stale and ignored.
    pub revision: u32,
}

pub struct MenuBarView {
    pub items: Seq<MenuItemView>,
    pub revision: u32,
}

impl View for MenuBar {
    type V = MenuBarView;

    open spec fn view(&self) -> MenuBarView {
        MenuBarView { items: item_views(self.items@), revision: self.revision }
    }
}

impl Default for MenuBar {
    fn default() -> (bar: Self)
        ensures
            bar@.items == Seq::<MenuItemView>::empty(),
            bar@.revision == 0,
    {
        let bar = MenuBar { items: Vec::new(), revision: 0 };
        proof {
            lemma_views(bar.items@);
            assert(bar@.items =~= Seq::<MenuItemView>::empty());
        }
        bar
    }
}

/// Whether a menubar shows nothing: every top-level entry is hidden.
pub open spec fn bar_is_empty(items: Seq<MenuItemView>) -> bool {
    forall|i: int| 0 <= i < items.len() ==> !(#[trigger] items[i]).visible
}

/// Whether a row is kept: it is visible, and, for the top-level row, not a
/// separator.
pub open spec fn keeps(item: MenuItemView, top_level: bool) -> bool {
    item.visible && (!top_level || item.kind != ItemKind::Separator)
}

/// The rows of `items` that are kept, in order.
pub open spec fn kept(items: Seq<MenuItemView>, top_level: bool) -> Seq<MenuItemView>
    decreases items.len(),
{
    if items.len() == 0 {
        Seq::empty()
    } else {
        let init = kept(items.drop_last(), top_level);
        if keeps(items.last(), top_level) {
            init.push(items.last())
        } else {
            init
        }
    }
}

/// Copies of the rows of `items` that are kept, in order.
pub fn kept_rows(items: &[MenuItem], top_level: bool) -> (r: Vec<MenuItem>)
    ensures
        item_views(r@) == kept(item_views(items@), top_level),
{
    let mut out: Vec<MenuItem> = Vec::new();
    let mut i: usize = 0;
    proof {
        lemma_views(items@);
        lemma_views(out@);
        assert(item_views(items@).take(0) =~= Seq::<MenuItemView>::empty());
        assert(item_views(out@) =~= Seq::<MenuItemView>::empty());
    }
    while i < items.len()
        invariant
            i <= items.len(),
            item_views(items@).len() == items@.len(),
            forall|j: int| 0 <= j < items@.len() ==> #[trigger] item_views(items@)[j] == item_view(items@[j]),
            item_views(out@) == kept(item_views(items@).take(i as int), top_level),
        decreases items.len() - i,
    {
        let ghost views = item_views(items@);
        assert(views.take(i + 1).drop_last() =~= views.take(i as int));
        assert(views.take(i + 1).last() == views[i as int]);
        if items[i].visible && (!top_level || items[i].kind != ItemKind::Separator) {
            let copy = items[i].duplicate();
            proof {
                lemma_views_push(out@, copy);
            }
            out.push(copy);
        }
        i = i + 1;
    }
    assert(item_views(items@).take(i as int) =~= item_views(items@));
    out
}

/// The submenu of `items[i]` replaced by `kids`, at the first row in
/// preorder, from `i` on, whose id is `id`; `None` when no such row exists.
pub open spec fn graft_from(
    items: Seq<MenuItemView>,
    id: i32,
    kids: Seq<MenuItemView>,
    i: int,
) -> Option<Seq<MenuItemView>>
    decreases items, items.len() - i,
{
    if i < 0 || i >= items.len() {
        None
    } else {
        let item = items[i];
        if item.id == id {
            Some(
                items.update(
                    i,
                    MenuItemView {
                        id: item.id,
                        label: item.label,
                        kind: item.kind,
                        enabled: item.enabled,
                        visible: item.visible,
                        toggle: item.toggle,
                        children: kids,
                        has_submenu: kids.len() > 0,
                    },
                ),
            )
        } else {
            match graft_from(item.children, id, kids, 0) {
                Some(c) => Some(
                    items.update(
                        i,
                        MenuItemView {
                            id: item.id,
                            label: item.label,
                            kind: item.kind,
                            enabled: item.enabled,
                            visible: item.visible,
                            toggle: item.toggle,
                            children: c,
                            has_submenu: item.has_submenu,
                        },
                    ),
                ),
                None => graft_from(items, id, kids, i + 1),
            }
        }
    }
}

/// Whether a row with id `id` is anywhere in the tree below `items[i..]`.
pub open spec fn holds_id(items: Seq<MenuItemView>, id: i32, i: int) -> bool
    decreases items, items.len() - i,
{
    if i < 0 || i >= items.len() {
        false
    } else {
        items[i].id == id || holds_id(items[i].children, id, 0) || holds_id(items, id, i + 1)
    }
}

pub proof fn lemma_graft_finds_present(
    items: Seq<MenuItemView>,
    id: i32,
    kids: Seq<MenuItemView>,
    i: int,
)
    ensures
        graft_from(items, id, kids, i) is Some <==> holds_id(items, id, i),
    decreases items, items.len() - i,
{
    if 0 <= i < items.len() {
        lemma_graft_finds_present(items[i].children, id, kids, 0);
        lemma_graft_finds_present(items, id, kids, i + 1);
    }
}

fn graft_into(items: &mut Vec<MenuItem>, id: i32, replacement: Vec<MenuItem>) -> (r: Result<
    (),
    Vec<MenuItem>,
>)
    ensures
        r is Ok ==> graft_from(item_views(old(items)@), id, item_views(replacement@), 0) == Some(
            item_views(final(items)@),
        ),
        r matches Err(back) ==> back == replacement && graft_from(
            item_views(old(items)@),
            id,
            item_views(replacement@),
            0,
        ) is None && item_views(final(items)@) == item_views(old(items)@),
    decreases old(items)@,
{
    let ghost start = item_views(items@);
    let ghost kids = item_views(replacement@);
    let ghost original = replacement;
    let mut children = replacement;
    let mut i: usize = 0;
    proof {
        lemma_views(items@);
    }
    while i < items.len()
        invariant
            i <= items.len(),
            items.len() == old(items).len(),
            forall|k: int| i <= k < items.len() ==> items@[k] == old(items)@[k],
            item_views(items@) == start,
            start == item_views(old(items)@),
            kids == item_views(original@),
            original == replacement,
            children == original,
            graft_from(start, id, kids, 0) == graft_from(start, id, kids, i as int),
        decreases items.len() - i,
    {
        proof {
            lemma_views(items@);
            lemma_views(old(items)@);
        }
        if items[i].id == id {
            let ghost before = items@;
            let item = &mut items[i];
            item.has_submenu = children.len() > 0;
            item.children = children;
            proof {
                let updated = items@[i as int];
                assert(items@ == before.update(i as int, updated));
                lemma_views_update(before, i as int, updated);
                lemma_views(original@);
                lemma_views(before);
                assert(item_view(updated).children == kids);
                assert(item_views(items@) =~= graft_from(start, id, kids, i as int)->0);
                assert(graft_from(start, id, kids, i as int) is Some);
                assert(graft_from(start, id, kids, 0) == Some(item_views(items@)));
            }
            return Ok(());
        }
        let ghost before = items@;
        let item = &mut items[i];
        assert(decreases_to!(old(items)@ => old(items)@[i as int].children@));
        let r = graft_into(&mut item.children, id, children);
        proof {
            let updated = items@[i as int];
            assert(items@ == before.update(i as int, updated));
            lemma_views_update(before, i as int, updated);
            lemma_views(before);
            assert(start[i as int].children == item_views(before[i as int].children@));
        }
        match r {
            Ok(()) => {
                assert(item_views(items@) =~= graft_from(start, id, kids, i as int)->0);
                assert(graft_from(start, id, kids, i as int) is Some);
                assert(graft_from(start, id, kids, 0) == Some(item_views(items@)));
                return Ok(());
            },
            Err(back) => {
                assert(item_views(items@) =~= start);
                children = back;
            },
        }
        i = i + 1;
    }
    Err(children)
}

impl MenuBar {
    pub fn is_empty(&self) -> (r: bool)
        ensures
            r == bar_is_empty(self@.items),
    {
        proof {
            lemma_views(self.items@);
        }
        let mut i: usize = 0;
        while i < self.items.len()
            invariant
                i <= self.items.len(),
                item_views(self.items@).len() == self.items.len(),
                forall|j: int| 0 <= j < self.items.len() ==> #[trigger] item_views(self.items@)[j] == item_view(self.items@[j]),
                forall|j: int| 0 <= j < i ==> !(#[trigger] self.items@[j]).visible,
            decreases self.items.len() - i,
        {
            if self.items[i].visible {
                assert(item_views(self.items@)[i as int].visible);
                return false;
            }
            i = i + 1;
        }
        true
    }

    /// The top-level entries, in order, that are worth drawing.
    pub fn visible(&self) -> (r: Vec<MenuItem>)
        ensures
            item_views(r@) == kept(self@.items, true),
    {
        kept_rows(self.items.as_slice(), true)
    }

    /// Replaces one submenu's contents, wherever it is in the tree.
    ///
    /// Returns whether the id was found, so a reply for a menu the user has
    /// already closed is dropped rather than grafted onto the wrong branch.
    pub fn graft(&mut self, id: i32, children: Vec<MenuItem>) -> (r: bool)
        ensures
            r == holds_id(old(self)@.items, id, 0),
            r ==> graft_from(old(self)@.items, id, item_views(children@), 0) == Some(
                final(self)@.items,
            ),
            !r ==> final(self)@.items == old(self)@.items,
            final(self)@.revision == old(self)@.revision,
    {
        proof {
            lemma_graft_finds_present(old(self)@.items, id, item_views(children@), 0);
        }
        match graft_into(&mut self.items, id, children) {
            Ok(()) => true,
            Err(_) => false,
        }
    }
}

/// What a client says about one row, each property as `GetLayout` sent it, or
/// `None` where it sent nothing usable.
pub struct NodeProperties {
    /// `type`: `"separator"` or the standard row.
    pub kind: Option<String>,
    pub label: Option<String>,
    pub enabled: Option<bool>,
    pub visible: Option<bool>,
    /// `toggle-type`: `"checkmark"`, `"radio"` or nothing.
    pub toggle_type: Option<String>,
    pub toggle_state: Option<i32>,
    /// `children-display`: `"submenu"` when the row opens one.
    pub children_display: Option<String>,
}

/// One node of a `GetLayout` reply: `(id, properties, children)`. A child that
/// did not unbox to a node is `None`.
pub struct LayoutNode {
    pub id: i32,
    pub properties: NodeProperties,
    pub children: Vec<Option<LayoutNode>>,
}

/// Whether an optional text property is exactly `lit`.
pub open spec fn says(text: Option<String>, lit: Seq<char>) -> bool {
    text matches Some(s) && s@ == lit
}

pub open spec fn spec_kind(p: NodeProperties) -> ItemKind {
    if says(p.kind, "separator"@) {
        ItemKind::Separator
    } else if says(p.toggle_type, "checkmark"@) {
        ItemKind::Checkbox
    } else if says(p.toggle_type, "radio"@) {
        ItemKind::Radio
    } else {
        ItemKind::Standard
    }
}

pub open spec fn spec_toggle(state: Option<i32>) -> Toggle {
    match state {
        Some(s) => if s == 0 {
            Toggle::Off
        } else if s == 1 {
            Toggle::On
        } else {
            Toggle::Unknown
        },
        None => Toggle::Unknown,
    }
}

/// `&File` and `_File` both mean F is the access key.
pub open spec fn is_marker(c: char) -> bool {
    c == '&' || c == '_'
}

/// A label with its access-key markers removed; a doubled marker stands for
/// one literal marker.
pub open spec fn spec_strip(s: Seq<char>) -> Seq<char>
    decreases s.len(),
{
    if s.len() == 0 {
        Seq::empty()
    } else if is_marker(s[0]) {
        if s.len() >= 2 && s[1] == s[0] {
            seq![s[0]] + spec_strip(s.skip(2))
        } else {
            spec_strip(s.skip(1))
        }
    } else {
        seq![s[0]] + spec_strip(s.skip(1))
    }
}

/// The rows parsed from the first `upto` children of a node at `depth`.
pub open spec fn parse_upto(cs: Seq<Option<LayoutNode>>, depth: int, upto: int) -> Seq<
    MenuItemView,
>
    decreases cs, upto,
{
    if upto <= 0 || upto > cs.len() {
        Seq::empty()
    } else {
        let init = parse_upto(cs, depth, upto - 1);
        match cs[upto - 1] {
            Some(n) => init.push(parse_node(n, depth)),
            None => init,
        }
    }
}

/// The rows a node's children give at `depth`: nothing below the nesting
/// limit, and at most `MAX_ITEMS` of them.
pub open spec fn parse_level(cs: Seq<Option<LayoutNode>>, depth: int) -> Seq<MenuItemView> {
    if depth >= MAX_DEPTH {
        Seq::empty()
    } else {
        parse_upto(cs, depth, if cs.len() < MAX_ITEMS { cs.len() as int } else { MAX_ITEMS as int })
    }
}

/// The row one node becomes at `depth`.
pub open spec fn parse_node(n: LayoutNode, depth: int) -> MenuItemView
    decreases n, 0int,
{
    let cs = n.children@;
    let kids = if depth + 1 >= MAX_DEPTH {
        Seq::empty()
    } else {
        parse_upto(
            cs,
            depth + 1,
            if cs.len() < MAX_ITEMS {
                cs.len() as int
            } else {
                MAX_ITEMS as int
            },
        )
    };
    let p = n.properties;
    MenuItemView {
        id: n.id,
        label: spec_strip(
            match p.label {
                Some(l) => l@,
                None => Seq::empty(),
            },
        ),
        kind: spec_kind(p),
        enabled: match p.enabled {
            Some(b) => b,
            None => true,
        },
        visible: match p.visible {
            Some(b) => b,
            None => true,
        },
        toggle: spec_toggle(p.toggle_state),
        children: kids,
        has_submenu: kids.len() > 0 || says(p.children_display, "submenu"@),
    }
}

fn says_text(text: &Option<String>, lit: &str) -> (b: bool)
    ensures
        b == says(*text, lit@),
{
    match text {
        Some(s) => text_is(s, lit),
        None => false,
    }
}

/// `&File` and `_File` both mean F is the access key. Nothing here draws the
/// underline, so the marker is simply removed — leaving it in would put a
/// stray ampersand in every menu.
pub fn strip_mnemonics(label: String) -> (r: String)
    ensures
        r@ == spec_strip(label@),
{
    let chars = chars_of(label.as_str());
    let mut out = String::new();
    let mut i: usize = 0;
    proof {
        assert(chars@.skip(0) =~= chars@);
    }
    while i < chars.len()
        invariant
            i <= chars.len(),
            chars@ == label@,
            out@ + spec_strip(chars@.skip(i as int)) == spec_strip(chars@),
        decreases chars.len() - i,
    {
        let ghost rest = chars@.skip(i as int);
        let c = chars[i];
        assert(rest[0] == c);
        if c == '&' || c == '_' {
            if i + 1 < chars.len() && chars[i + 1] == c {
                assert(rest[1] == c);
                assert(rest.skip(2) =~= chars@.skip(i + 2));
                assert(out@.push(c) + spec_strip(rest.skip(2)) =~= out@ + (seq![c] + spec_strip(
                    rest.skip(2),
                )));
                push_char(&mut out, c);
                i = i + 2;
            } else {
                assert(rest.skip(1) =~= chars@.skip(i + 1));
                i = i + 1;
            }
        } else {
            assert(rest.skip(1) =~= chars@.skip(i + 1));
            assert(out@.push(c) + spec_strip(rest.skip(1)) =~= out@ + (seq![c] + spec_strip(
                rest.skip(1),
            )));
            push_char(&mut out, c);
            i = i + 1;
        }
    }
    assert(chars@.skip(i as int) =~= Seq::<char>::empty());
    assert(out@ + Seq::<char>::empty() =~= out@);
    out
}

fn parse_children(children: &Vec<Option<LayoutNode>>, depth: usize) -> (r: Vec<MenuItem>)
    requires
        depth <= MAX_DEPTH,
    ensures
        item_views(r@) == parse_level(children@, depth as int),
    decreases children, 1int,
{
    let mut out: Vec<MenuItem> = Vec::new();
    if depth >= MAX_DEPTH {
        proof {
            lemma_views(out@);
            assert(item_views(out@) =~= Seq::<MenuItemView>::empty());
        }
        return out;
    }
    let n = if children.len() < MAX_ITEMS {
        children.len()
    } else {
        MAX_ITEMS
    };
    let mut i: usize = 0;
    proof {
        lemma_views(out@);
        assert(item_views(out@) =~= Seq::<MenuItemView>::empty());
    }
    while i < n
        invariant
            i <= n,
            n <= children.len(),
            n == (if children@.len() < MAX_ITEMS {
                children@.len() as int
            } else {
                MAX_ITEMS as int
            }),
            depth < MAX_DEPTH,
            item_views(out@) == parse_upto(children@, depth as int, i as int),
        decreases n - i,
    {
        match &children[i] {
            Some(node) => {
                assert(decreases_to!(children => children@[i as int]->0));
                let item = parse_item(node, depth);
                proof {
                    lemma_views_push(out@, item);
                }
                out.push(item);
            },
            None => {},
        }
        i = i + 1;
    }
    out
}

fn parse_item(node: &LayoutNode, depth: usize) -> (r: MenuItem)
    requires
        depth < MAX_DEPTH,
    ensures
        r@ == parse_node(*node, depth as int),
    decreases node, 0int,
{
    let p = &node.properties;
    let kind = if says_text(&p.kind, "separator") {
        ItemKind::Separator
    } else if says_text(&p.toggle_type, "checkmark") {
        ItemKind::Checkbox
    } else if says_text(&p.toggle_type, "radio") {
        ItemKind::Radio
    } else {
        ItemKind::Standard
    };
    let parsed = parse_children(&node.children, depth + 1);
    let label = match &p.label {
        Some(l) => l.clone(),
        None => String::new(),
    };
    let toggle = match p.toggle_state {
        Some(0) => Toggle::Off,
        Some(1) => Toggle::On,
        _ => Toggle::Unknown,
    };
    let has_submenu = parsed.len() > 0 || says_text(&p.children_display, "submenu");
    proof {
        lemma_views(parsed@);
    }
    MenuItem {
        id: node.id,
        label: strip_mnemonics(label),
        kind,
        enabled: match p.enabled {
            Some(b) => b,
            None => true,
        },
        visible: match p.visible {
            Some(b) => b,
            None => true,
        },
        toggle,
        has_submenu,
        children: parsed,
    }
}

/// Turns a `GetLayout` reply into a menubar.
///
/// The reply's root is the menubar itself and is never drawn; its children are
/// the top-level entries.
pub fn parse_layout(root: &LayoutNode) -> (bar: MenuBar)
    ensures
        bar@.items == parse_level(root.children@, 0),
        bar@.revision == 0,
{
    MenuBar { items: parse_children(&root.children, 0), revision: 0 }
}

/// How many levels deep a row of items reaches: one for the row itself, and
/// one more for each level of submenu below its deepest entry.
pub open spec fn nesting(items: Seq<MenuItemView>) -> int
    decreases items,
{
    if items.len() == 0 {
        0
    } else {
        let rest = nesting(items.subrange(0, items.len() - 1));
        let last = 1 + nesting(items[items.len() - 1].children);
        if rest >= last {
            rest
        } else {
            last
        }
    }
}

/// Whether no level of the tree holds more than `limit` rows.
pub open spec fn levels_within(items: Seq<MenuItemView>, limit: int) -> bool
    decreases items,
{
    items.len() <= limit && (items.len() == 0 || (levels_within(
        items.subrange(0, items.len() - 1),
        limit,
    ) && levels_within(items[items.len() - 1].children, limit)))
}

proof fn lemma_parsed_rows_bounded(cs: Seq<Option<LayoutNode>>, depth: int, upto: int)
    requires
        0 <= depth < MAX_DEPTH,
        upto <= MAX_ITEMS,
    ensures
        nesting(parse_upto(cs, depth, upto)) <= MAX_DEPTH - depth,
        levels_within(parse_upto(cs, depth, upto), MAX_ITEMS as int),
        parse_upto(cs, depth, upto).len() <= if upto < 0 { 0 } else { upto },
    decreases cs, upto,
{
    if 0 < upto <= cs.len() {
        let init = parse_upto(cs, depth, upto - 1);
        lemma_parsed_rows_bounded(cs, depth, upto - 1);
        match cs[upto - 1] {
            Some(n) => {
                lemma_parsed_node_bounded(n, depth);
                let rows = init.push(parse_node(n, depth));
                assert(rows.subrange(0, rows.len() - 1) =~= init);
            },
            None => {},
        }
    }
}

proof fn lemma_parsed_node_bounded(n: LayoutNode, depth: int)
    requires
        0 <= depth < MAX_DEPTH,
    ensures
        nesting(parse_node(n, depth).children) <= MAX_DEPTH - depth - 1,
        levels_within(parse_node(n, depth).children, MAX_ITEMS as int),
    decreases n, 0int,
{
    let cs = n.children@;
    if depth + 1 < MAX_DEPTH {
        lemma_parsed_rows_bounded(
            cs,
            depth + 1,
            if cs.len() < MAX_ITEMS {
                cs.len() as int
            } else {
                MAX_ITEMS as int
            },
        );
    }
}

/// A parsed menu is never deeper than [`MAX_DEPTH`] levels and no level of it
/// holds more than [`MAX_ITEMS`] rows, whatever the client sent — a cycle or
/// a flood in a malicious tree stops there.
pub proof fn lemma_parsed_menus_are_bounded(root: LayoutNode)
    ensures
        nesting(parse_level(root.children@, 0)) <= MAX_DEPTH,
        levels_within(parse_level(root.children@, 0), MAX_ITEMS as int),
{
    let cs = root.children@;
    lemma_parsed_rows_bounded(
        cs,
        0,
        if cs.len() < MAX_ITEMS {
            cs.len() as int
        } else {
            MAX_ITEMS as int
        },
    );
}

/// A label without access-key markers comes through unchanged.
pub proof fn lemma_plain_labels_survive(s: Seq<char>)
    requires
        forall|i: int| 0 <= i < s.len() ==> !is_marker(#[trigger] s[i]),
    ensures
        spec_strip(s) == s,
    decreases s.len(),
{
    if s.len() > 0 {
        let rest = s.skip(1);
        assert forall|i: int| 0 <= i < rest.len() implies !is_marker(#[trigger] rest[i]) by {
            assert(rest[i] == s[i + 1]);
        }
        lemma_plain_labels_survive(rest);
        assert(seq![s[0]] + rest =~= s);
    }
}

} // verus!
