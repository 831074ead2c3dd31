//! The layout of a frame: from catalog, session state and viewport height
//! to the text lines the host prints.

use crate::catalog::{category_views, group_views, shortcut_views, Category, CategoryView, Config, GroupView, Shortcut, ShortcutGroup, ShortcutView};
use crate::session::TuiView;
use crate::text::{contains_text, decimal, decimal_string, lowercase, occurs_in, pad_right, padded};
use vstd::prelude::*;
use vstd::string::*;

verus! {

/// Width of the column that holds a shortcut's keys.
pub const KEYS_WIDTH: usize = 20;

/// Number of lines of the footer: the rule and the legend.
pub const FOOTER_LINES: usize = 2;

/// The texts of a sequence of lines.
pub open spec fn texts(lines: Seq<String>) -> Seq<Seq<char>> {
    Seq::new(lines.len(), |i: int| lines[i]@)
}

pub open spec fn header() -> Seq<char> {
    "━━━ Shortcuts TUI ━━━"@
}

pub open spec fn footer_rule() -> Seq<char> {
    "━━━━━━━━━━━━━━━━━━━━━━━━━━━━━━━━━━━━━━━━━━━━━━━━━━"@
}

pub open spec fn legend() -> Seq<char> {
    "Tab: Next | Shift+Tab: Prev | 1-9: Jump | /: Search | ESC/q: Quit"@
}

pub open spec fn blank() -> Seq<char> {
    Seq::empty()
}

/// The icon of a category, empty where it has none.
pub open spec fn icon_text(icon: Option<Seq<char>>) -> Seq<char> {
    match icon {
        Some(i) => i,
        None => Seq::empty(),
    }
}

/// One entry of the tab bar: marker, 1-based number, icon and name.
pub open spec fn tab_entry(index: nat, active: nat, category: CategoryView) -> Seq<char> {
    (if index == active {
        "▸"@
    } else {
        " "@
    }) + " "@ + decimal(index + 1) + ":"@ + icon_text(category.icon) + " "@ + category.name + " "@
}

/// The tab bar: the entries of all categories in order.
pub open spec fn tab_bar(categories: Seq<CategoryView>, active: nat) -> Seq<char>
    decreases categories.len(),
{
    if categories.len() == 0 {
        Seq::empty()
    } else {
        tab_bar(categories.drop_last(), active) + tab_entry(
            (categories.len() - 1) as nat,
            active,
            categories.last(),
        )
    }
}

/// The search status: the prompt with the query and a cursor, or a hint.
pub open spec fn search_line(search_mode: bool, query: Seq<char>) -> Seq<char> {
    if search_mode {
        "/ "@ + query + "_"@
    } else {
        "Press / to search"@
    }
}

/// A lowercase query matches lowercase keys or a lowercase description
/// when it occurs in either.
pub open spec fn folded_match(query: Seq<char>, keys: Seq<char>, description: Seq<char>) -> bool {
    occurs_in(query, keys) || occurs_in(query, description)
}

/// A shortcut is shown unless a non-empty query is being searched for and
/// occurs in neither its keys nor its description, case ignored.
pub open spec fn shown(shortcut: ShortcutView, search_mode: bool, query: Seq<char>) -> bool {
    !search_mode || query.len() == 0 || folded_match(
        lowercase(query),
        lowercase(shortcut.keys),
        lowercase(shortcut.description),
    )
}

pub open spec fn shortcut_row(shortcut: ShortcutView) -> Seq<char> {
    "  "@ + padded(shortcut.keys, KEYS_WIDTH as nat) + " "@ + shortcut.description
}

pub open spec fn group_title(name: Seq<char>) -> Seq<char> {
    "─── "@ + name + " ───"@
}

/// The rows of the shortcuts that are shown, in order.
pub open spec fn shortcut_rows(
    shortcuts: Seq<ShortcutView>,
    search_mode: bool,
    query: Seq<char>,
) -> Seq<Seq<char>>
    decreases shortcuts.len(),
{
    if shortcuts.len() == 0 {
        Seq::empty()
    } else if shown(shortcuts.last(), search_mode, query) {
        shortcut_rows(shortcuts.drop_last(), search_mode, query).push(
            shortcut_row(shortcuts.last()),
        )
    } else {
        shortcut_rows(shortcuts.drop_last(), search_mode, query)
    }
}

/// A group: its title, its rows, and a blank line.
pub open spec fn group_lines(group: GroupView, search_mode: bool, query: Seq<char>) -> Seq<
    Seq<char>,
> {
    seq![group_title(group.name)] + shortcut_rows(group.shortcuts, search_mode, query).push(
        blank(),
    )
}

/// The lines of all groups in order.
pub open spec fn content_lines(groups: Seq<GroupView>, search_mode: bool, query: Seq<char>) -> Seq<
    Seq<char>,
>
    decreases groups.len(),
{
    if groups.len() == 0 {
        Seq::empty()
    } else {
        content_lines(groups.drop_last(), search_mode, query) + group_lines(
            groups.last(),
            search_mode,
            query,
        )
    }
}

/// The groups of the active category; none where the catalog has no such
/// category.
pub open spec fn active_groups(s: TuiView) -> Seq<GroupView> {
    if s.active_tab < s.catalog.categories.len() {
        s.catalog.categories[s.active_tab as int].groups
    } else {
        Seq::empty()
    }
}

/// Everything above the padding: header, tab bar, search status and the
/// active category, with blank lines between them.
pub open spec fn body_lines(s: TuiView) -> Seq<Seq<char>> {
    seq![
        header(),
        blank(),
        tab_bar(s.catalog.categories, s.active_tab),
        blank(),
        search_line(s.search_mode, s.search_query),
        blank(),
    ] + content_lines(active_groups(s), s.search_mode, s.search_query)
}

/// The number of blank lines that put the footer on the last lines of a
/// viewport of `rows` lines; zero where the body leaves no room.
pub open spec fn padding(rows: nat, produced: nat) -> nat {
    if rows >= produced + FOOTER_LINES {
        (rows - FOOTER_LINES - produced) as nat
    } else {
        0
    }
}

pub open spec fn blank_lines(n: nat) -> Seq<Seq<char>> {
    Seq::new(n, |i: int| blank())
}

/// The whole frame: body, padding, then the rule and the legend.
pub open spec fn frame_lines(s: TuiView, rows: nat) -> Seq<Seq<char>> {
    body_lines(s) + blank_lines(padding(rows, body_lines(s).len())) + seq![footer_rule(), legend()]
}

/// The frame always ends with the rule and the legend, and fills the
/// viewport exactly whenever the body leaves room for the footer.
pub proof fn lemma_frame_shape(s: TuiView, rows: nat)
    ensures
        frame_lines(s, rows).len() >= 8,
        frame_lines(s, rows)[frame_lines(s, rows).len() - 2] == footer_rule(),
        frame_lines(s, rows).last() == legend(),
        rows >= body_lines(s).len() + FOOTER_LINES ==> frame_lines(s, rows).len() == rows,
        rows < body_lines(s).len() + FOOTER_LINES ==> frame_lines(s, rows).len() == body_lines(
            s,
        ).len() + FOOTER_LINES,
{
}

/// A text occurs in every text that holds it between a prefix and a suffix.
pub proof fn lemma_occurs_in_middle(prefix: Seq<char>, needle: Seq<char>, suffix: Seq<char>)
    ensures
        occurs_in(needle, prefix + needle + suffix),
{
    let hay = prefix + needle + suffix;
    let i = prefix.len() as int;
    assert(hay.subrange(i, i + needle.len()) =~= needle);
}

/// Filtering ignores case: queries with the same lowercase form, both empty
/// or both not, select the same shortcuts, and shortcuts whose keys and
/// descriptions have the same lowercase forms are selected alike.
pub proof fn lemma_filter_ignores_case(
    a: ShortcutView,
    b: ShortcutView,
    search_mode: bool,
    p: Seq<char>,
    q: Seq<char>,
)
    requires
        lowercase(a.keys) == lowercase(b.keys),
        lowercase(a.description) == lowercase(b.description),
        lowercase(p) == lowercase(q),
        (p.len() == 0) == (q.len() == 0),
    ensures
        shown(a, search_mode, p) == shown(b, search_mode, q),
{
}

/// Without a search, or with an empty query, every shortcut has its row.
pub proof fn lemma_no_filter_shows_all(
    shortcuts: Seq<ShortcutView>,
    search_mode: bool,
    query: Seq<char>,
)
    requires
        !search_mode || query.len() == 0,
    ensures
        shortcut_rows(shortcuts, search_mode, query).len() == shortcuts.len(),
        forall|i: int|
            0 <= i < shortcuts.len() ==> #[trigger] shortcut_rows(shortcuts, search_mode, query)[i]
                == shortcut_row(shortcuts[i]),
    decreases shortcuts.len(),
{
    if shortcuts.len() > 0 {
        lemma_no_filter_shows_all(shortcuts.drop_last(), search_mode, query);
    }
}

fn push_line(lines: &mut Vec<String>, line: String)
    ensures
        texts(final(lines)@) == texts(old(lines)@).push(line@),
{
    lines.push(line);
    assert(texts(lines@) =~= texts(old(lines)@).push(line@));
}

/// The entry of one category in the tab bar.
pub fn tab_entry_text(index: usize, active: usize, category: &Category) -> (r: String)
    requires
        index < usize::MAX,
    ensures
        r@ == tab_entry(index as nat, active as nat, category@),
{
    let mut r = if index == active {
        String::from_str("▸")
    } else {
        String::from_str(" ")
    };
    r.append(" ");
    let number = decimal_string(index + 1);
    r.append(number.as_str());
    r.append(":");
    match &category.icon {
        Some(icon) => {
            r.append(icon.as_str());
        },
        None => {
            assert(r@ + Seq::<char>::empty() =~= r@);
        },
    }
    r.append(" ");
    r.append(category.name.as_str());
    r.append(" ");
    r
}

/// The tab bar of a catalog.
pub fn tab_bar_text(categories: &Vec<Category>, active: usize) -> (r: String)
    ensures
        r@ == tab_bar(category_views(categories@), active as nat),
{
    let ghost all = category_views(categories@);
    let mut r = String::new();
    let mut i: usize = 0;
    assert(all.take(0) =~= Seq::empty());
    while i < categories.len()
        invariant
            i <= categories.len(),
            all == category_views(categories@),
            r@ == tab_bar(all.take(i as int), active as nat),
        decreases categories.len() - i,
    {
        let entry = tab_entry_text(i, active, &categories[i]);
        r.append(entry.as_str());
        proof {
            assert(all.take(i + 1).drop_last() =~= all.take(i as int));
            assert(all.take(i + 1).last() == categories[i as int]@);
        }
        i += 1;
    }
    assert(all.take(i as int) =~= all);
    r
}

/// The search status line.
pub fn search_line_text(search_mode: bool, query: &str) -> (r: String)
    ensures
        r@ == search_line(search_mode, query@),
{
    if search_mode {
        let mut r = String::from_str("/ ");
        r.append(query);
        r.append("_");
        r
    } else {
        String::from_str("Press / to search")
    }
}

/// Decides a match on texts that are already in lowercase.
pub fn matches_folded(query: &str, keys: &str, description: &str) -> (r: bool)
    ensures
        r == folded_match(query@, keys@, description@),
{
    contains_text(keys, query) || contains_text(description, query)
}

/// Decides whether a shortcut is shown under the given search.
pub fn shortcut_matches(shortcut: &Shortcut, search_mode: bool, query: &str) -> (r: bool)
    ensures
        r == shown(shortcut@, search_mode, query@),
{
    if !search_mode || query.is_empty() {
        return true;
    }
    let folded_query = query.to_lowercase();
    let folded_keys = shortcut.keys.as_str().to_lowercase();
    let folded_description = shortcut.description.as_str().to_lowercase();
    matches_folded(folded_query.as_str(), folded_keys.as_str(), folded_description.as_str())
}

/// The row of one shortcut: the keys in their column, then the description.
pub fn shortcut_row_text(shortcut: &Shortcut) -> (r: String)
    ensures
        r@ == shortcut_row(shortcut@),
{
    let mut r = String::from_str("  ");
    let keys = pad_right(shortcut.keys.as_str(), KEYS_WIDTH);
    r.append(keys.as_str());
    r.append(" ");
    r.append(shortcut.description.as_str());
    r
}

/// The title line of a group.
pub fn group_title_text(name: &str) -> (r: String)
    ensures
        r@ == group_title(name@),
{
    let mut r = String::from_str("─── ");
    r.append(name);
    r.append(" ───");
    r
}

/// Appends the lines of one group.
fn push_group(lines: &mut Vec<String>, group: &ShortcutGroup, search_mode: bool, query: &str)
    ensures
        texts(final(lines)@) == texts(old(lines)@) + group_lines(group@, search_mode, query@),
{
    let ghost before = texts(lines@);
    let ghost all = shortcut_views(group.shortcuts@);
    push_line(lines, group_title_text(group.name.as_str()));
    let mut i: usize = 0;
    assert(all.take(0) =~= Seq::empty());
    while i < group.shortcuts.len()
        invariant
            i <= group.shortcuts.len(),
            all == shortcut_views(group.shortcuts@),
            texts(lines@) == before.push(group_title(group@.name)) + shortcut_rows(
                all.take(i as int),
                search_mode,
                query@,
            ),
        decreases group.shortcuts.len() - i,
    {
        proof {
            assert(all.take(i + 1).drop_last() =~= all.take(i as int));
            assert(all.take(i + 1).last() == group.shortcuts[i as int]@);
        }
        if shortcut_matches(&group.shortcuts[i], search_mode, query) {
            push_line(lines, shortcut_row_text(&group.shortcuts[i]));
        }
        i += 1;
    }
    assert(all.take(i as int) =~= all);
    push_line(lines, String::new());
    assert(texts(lines@) =~= before + group_lines(group@, search_mode, query@));
}

/// Lays out a frame. `cols` is accepted but lines are not cut to it.
pub fn render_frame(
    config: &Config,
    active_tab: usize,
    search_mode: bool,
    query: &str,
    rows: usize,
    cols: usize,
) -> (lines: Vec<String>)
    ensures
        texts(lines@) == frame_lines(
            TuiView {
                catalog: config@,
                active_tab: active_tab as nat,
                search_mode,
                search_query: query@,
            },
            rows as nat,
        ),
{
    let ghost s = TuiView {
        catalog: config@,
        active_tab: active_tab as nat,
        search_mode,
        search_query: query@,
    };
    let mut lines: Vec<String> = Vec::new();
    assert(texts(lines@) =~= Seq::empty());
    push_line(&mut lines, String::from_str("━━━ Shortcuts TUI ━━━"));
    push_line(&mut lines, String::new());
    push_line(&mut lines, tab_bar_text(&config.categories, active_tab));
    push_line(&mut lines, String::new());
    push_line(&mut lines, search_line_text(search_mode, query));
    push_line(&mut lines, String::new());
    let ghost top = texts(lines@);
    assert(top =~= body_lines(s).take(6));
    if active_tab < config.categories.len() {
        let groups = &config.categories[active_tab].groups;
        let ghost all = group_views(groups@);
        assert(all == active_groups(s));
        let mut g: usize = 0;
        assert(all.take(0) =~= Seq::empty());
        assert(top + Seq::<Seq<char>>::empty() =~= top);
        while g < groups.len()
            invariant
                g <= groups.len(),
                all == group_views(groups@),
                texts(lines@) == top + content_lines(all.take(g as int), search_mode, query@),
            decreases groups.len() - g,
        {
            proof {
                assert(all.take(g + 1).drop_last() =~= all.take(g as int));
                assert(all.take(g + 1).last() == groups[g as int]@);
            }
            push_group(&mut lines, &groups[g], search_mode, query);
            assert(texts(lines@) =~= top + content_lines(all.take(g + 1), search_mode, query@));
            g += 1;
        }
        assert(all.take(g as int) =~= all);
    } else {
        assert(top + Seq::<Seq<char>>::empty() =~= top);
    }
    assert(texts(lines@) =~= body_lines(s));
    let produced: usize = lines.len();
    let pad: usize = if rows >= FOOTER_LINES && rows - FOOTER_LINES >= produced {
        rows - FOOTER_LINES - produced
    } else {
        0
    };
    assert(pad == padding(rows as nat, produced as nat));
    let mut k: usize = 0;
    assert(texts(lines@) =~= body_lines(s) + blank_lines(0));
    while k < pad
        invariant
            k <= pad,
            texts(lines@) == body_lines(s) + blank_lines(k as nat),
        decreases pad - k,
    {
        push_line(&mut lines, String::new());
        k += 1;
        assert(texts(lines@) =~= body_lines(s) + blank_lines(k as nat));
    }
    push_line(
        &mut lines,
        String::from_str("━━━━━━━━━━━━━━━━━━━━━━━━━━━━━━━━━━━━━━━━━━━━━━━━━━"),
    );
    push_line(
        &mut lines,
        String::from_str("Tab: Next | Shift+Tab: Prev | 1-9: Jump | /: Search | ESC/q: Quit"),
    );
    assert(texts(lines@) =~= frame_lines(s, rows as nat));
    lines
}

} // verus!
