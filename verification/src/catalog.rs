//! The shortcut catalog: categories, each with groups of shortcuts.
//!
//! A catalog is built once and only read afterwards. Each type has a view
//! that holds its texts as sequences of characters.

use vstd::prelude::*;
use vstd::string::*;

verus! {

/// One shortcut: the keys that trigger it and what it does.
#[derive(Debug, Clone, PartialEq, Eq)]
pub struct Shortcut {
    pub keys: String,
    pub description: String,
}

/// A named group of shortcuts, in display order.
#[derive(Debug, Clone, PartialEq, Eq)]
pub struct ShortcutGroup {
    pub name: String,
    pub shortcuts: Vec<Shortcut>,
}

/// A top-level tab. `icon` and `color` are presentation hints.
#[derive(Debug, Clone, PartialEq, Eq)]
pub struct Category {
    pub name: String,
    pub icon: Option<String>,
    pub color: Option<String>,
    pub groups: Vec<ShortcutGroup>,
}

/// The whole catalog.
#[derive(Debug, Clone, PartialEq, Eq)]
pub struct Config {
    pub categories: Vec<Category>,
}

/// A shortcut as the contracts see it.
pub struct ShortcutView {
    pub keys: Seq<char>,
    pub description: Seq<char>,
}

/// A group as the contracts see it.
pub struct GroupView {
    pub name: Seq<char>,
    pub shortcuts: Seq<ShortcutView>,
}

/// A category as the contracts see it.
pub struct CategoryView {
    pub name: Seq<char>,
    pub icon: Option<Seq<char>>,
    pub color: Option<Seq<char>>,
    pub groups: Seq<GroupView>,
}

/// A catalog as the contracts see it.
pub struct ConfigView {
    pub categories: Seq<CategoryView>,
}

/// The view of an optional text.
pub open spec fn optional_text(t: Option<String>) -> Option<Seq<char>> {
    match t {
        Some(s) => Some(s@),
        None => None,
    }
}

/// The views of a sequence of shortcuts, in order.
pub open spec fn shortcut_views(s: Seq<Shortcut>) -> Seq<ShortcutView> {
    Seq::new(s.len(), |i: int| s[i]@)
}

/// The views of a sequence of groups, in order.
pub open spec fn group_views(s: Seq<ShortcutGroup>) -> Seq<GroupView> {
    Seq::new(s.len(), |i: int| s[i]@)
}

/// The views of a sequence of categories, in order.
pub open spec fn category_views(s: Seq<Category>) -> Seq<CategoryView> {
    Seq::new(s.len(), |i: int| s[i]@)
}

impl View for Shortcut {
    type V = ShortcutView;

    open spec fn view(&self) -> ShortcutView {
        ShortcutView { keys: self.keys@, description: self.description@ }
    }
}

impl View for ShortcutGroup {
    type V = GroupView;

    open spec fn view(&self) -> GroupView {
        GroupView { name: self.name@, shortcuts: shortcut_views(self.shortcuts@) }
    }
}

impl View for Category {
    type V = CategoryView;

    open spec fn view(&self) -> CategoryView {
        CategoryView {
            name: self.name@,
            icon: optional_text(self.icon),
            color: optional_text(self.color),
            groups: group_views(self.groups@),
        }
    }
}

impl View for Config {
    type V = ConfigView;

    open spec fn view(&self) -> ConfigView {
        ConfigView { categories: category_views(self.categories@) }
    }
}

/// The view of a shortcut with the given texts.
pub open spec fn entry(keys: &str, description: &str) -> ShortcutView {
    ShortcutView { keys: keys@, description: description@ }
}

/// The view of a category that has both an icon and a color.
pub open spec fn tab(name: &str, icon: &str, color: &str, groups: Seq<GroupView>) -> CategoryView {
    CategoryView { name: name@, icon: Some(icon@), color: Some(color@), groups }
}

/// The built-in catalog: the tabs "Git" and "Zellij".
pub open spec fn default_catalog() -> ConfigView {
    ConfigView {
        categories: seq![
            tab(
                "Git",
                "",
                "#f7768e",
                seq![
                    GroupView {
                        name: "Basics"@,
                        shortcuts: seq![
                            entry("git status", "Check repository status"),
                            entry("git add .", "Stage all changes"),
                            entry("git commit -m", "Commit with message"),
                        ],
                    },
                ],
            ),
            tab(
                "Zellij",
                "",
                "#7aa2f7",
                seq![
                    GroupView {
                        name: "Panes"@,
                        shortcuts: seq![
                            entry("Ctrl+p n", "New pane"),
                            entry("Ctrl+p d", "New pane down"),
                            entry("Ctrl+p r", "New pane right"),
                            entry("Ctrl+p x", "Close pane"),
                        ],
                    },
                    GroupView {
                        name: "Tabs"@,
                        shortcuts: seq![
                            entry("Ctrl+t n", "New tab"),
                            entry("Ctrl+t x", "Close tab"),
                            entry("Ctrl+t h/l", "Previous/Next tab"),
                        ],
                    },
                ],
            ),
        ],
    }
}

/// The built-in catalog is never empty: each of its two categories has a
/// group, and each group has a shortcut.
pub proof fn lemma_default_catalog_is_filled()
    ensures
        default_catalog().categories.len() == 2,
        forall|c: int|
            0 <= c < 2 ==> (#[trigger] default_catalog().categories[c]).groups.len() > 0,
        forall|c: int, g: int|
            0 <= c < 2 && 0 <= g < default_catalog().categories[c].groups.len() ==> (
            #[trigger] default_catalog().categories[c].groups[g]).shortcuts.len() > 0,
{
}

impl Shortcut {
    pub fn new(keys: &str, description: &str) -> (s: Shortcut)
        ensures
            s@ == entry(keys, description),
    {
        Shortcut { keys: String::from_str(keys), description: String::from_str(description) }
    }
}

impl ShortcutGroup {
    pub fn new(name: &str, shortcuts: Vec<Shortcut>) -> (g: ShortcutGroup)
        ensures
            g@ == (GroupView { name: name@, shortcuts: shortcut_views(shortcuts@) }),
    {
        ShortcutGroup { name: String::from_str(name), shortcuts }
    }
}

impl Category {
    /// A category without icon or color.
    pub fn new(name: &str, groups: Vec<ShortcutGroup>) -> (c: Category)
        ensures
            c@ == (CategoryView { name: name@, icon: None, color: None, groups: group_views(groups@) }),
    {
        Category { name: String::from_str(name), icon: None, color: None, groups }
    }

    /// A category with an icon and a color.
    pub fn styled(name: &str, icon: &str, color: &str, groups: Vec<ShortcutGroup>) -> (c: Category)
        ensures
            c@ == tab(name, icon, color, group_views(groups@)),
    {
        Category {
            name: String::from_str(name),
            icon: Some(String::from_str(icon)),
            color: Some(String::from_str(color)),
            groups,
        }
    }
}

impl Config {
    pub fn new(categories: Vec<Category>) -> (c: Config)
        ensures
            c@ == (ConfigView { categories: category_views(categories@) }),
    {
        Config { categories }
    }

    /// The built-in catalog, used when no configuration is given.
    pub fn default_config() -> (c: Config)
        ensures
            c@ == default_catalog(),
            c@.categories.len() == 2,
    {
        let basics = vec![
            Shortcut::new("git status", "Check repository status"),
            Shortcut::new("git add .", "Stage all changes"),
            Shortcut::new("git commit -m", "Commit with message"),
        ];
        assert(shortcut_views(basics@) =~= default_catalog().categories[0].groups[0].shortcuts);
        let git_groups = vec![ShortcutGroup::new("Basics", basics)];
        assert(group_views(git_groups@) =~= default_catalog().categories[0].groups);
        let panes = vec![
            Shortcut::new("Ctrl+p n", "New pane"),
            Shortcut::new("Ctrl+p d", "New pane down"),
            Shortcut::new("Ctrl+p r", "New pane right"),
            Shortcut::new("Ctrl+p x", "Close pane"),
        ];
        assert(shortcut_views(panes@) =~= default_catalog().categories[1].groups[0].shortcuts);
        let tabs = vec![
            Shortcut::new("Ctrl+t n", "New tab"),
            Shortcut::new("Ctrl+t x", "Close tab"),
            Shortcut::new("Ctrl+t h/l", "Previous/Next tab"),
        ];
        assert(shortcut_views(tabs@) =~= default_catalog().categories[1].groups[1].shortcuts);
        let zellij_groups = vec![
            ShortcutGroup::new("Panes", panes),
            ShortcutGroup::new("Tabs", tabs),
        ];
        assert(group_views(zellij_groups@) =~= default_catalog().categories[1].groups);
        let categories = vec![
            Category::styled("Git", "", "#f7768e", git_groups),
            Category::styled("Zellij", "", "#7aa2f7", zellij_groups),
        ];
        assert(category_views(categories@) =~= default_catalog().categories);
        Config::new(categories)
    }
}

} // verus!
