//! The navigation and search state machine.
//!
//! A session is in one of two modes, browsing or searching. Each key event
//! is one transition; the result tells the host whether to redraw, to close
//! the pane, or to pass the key on.

use crate::catalog::{default_catalog, Config, ConfigView};
use crate::frame;
use vstd::arithmetic::div_mod::*;
use vstd::prelude::*;

verus! {

/// The identity of a key, as far as the session distinguishes keys.
#[derive(Debug, Clone, Copy, PartialEq, Eq, Structural)]
pub enum Key {
    Esc,
    Tab,
    Backspace,
    Char(char),
    /// Any other key.
    Other,
}

/// A key event: the key, and whether the reverse (shift) modifier is held.
#[derive(Debug, Clone, Copy, PartialEq, Eq, Structural)]
pub struct KeyEvent {
    pub key: Key,
    pub shift: bool,
}

/// An event delivered by the host.
#[derive(Debug, Clone, Copy, PartialEq, Eq, Structural)]
pub enum HostEvent {
    Key(KeyEvent),
    /// Any event that is not a key.
    Other,
}

/// What the host should do after an event.
#[derive(Debug, Clone, Copy, PartialEq, Eq, Structural)]
pub enum Outcome {
    /// The event was not for the session; the state is unchanged.
    Unhandled,
    /// The event was handled; the state may have changed.
    Redraw,
    /// The event was handled and asks to close the session.
    Close,
}

impl Outcome {
    /// Every outcome but `Unhandled` counts as handled.
    pub open spec fn is_handled(self) -> bool {
        self != Outcome::Unhandled
    }

    /// True when the event was handled, so that a redraw is warranted.
    pub fn handled(self) -> (r: bool)
        ensures
            r == self.is_handled(),
    {
        match self {
            Outcome::Unhandled => false,
            Outcome::Redraw => true,
            Outcome::Close => true,
        }
    }

    /// True when the session asks to be closed.
    pub fn closes(self) -> (r: bool)
        ensures
            r == (self == Outcome::Close),
    {
        match self {
            Outcome::Close => true,
            _ => false,
        }
    }
}

/// A session as the contracts see it.
pub struct TuiView {
    pub catalog: ConfigView,
    pub active_tab: nat,
    pub search_mode: bool,
    pub search_query: Seq<char>,
}

impl TuiView {
    /// The active tab is a category of the catalog, if there is any, and
    /// the query is empty while browsing.
    pub open spec fn wf(self) -> bool {
        &&& self.catalog.categories.len() > 0 ==> self.active_tab < self.catalog.categories.len()
        &&& !self.search_mode ==> self.search_query.len() == 0
    }
}

/// The state a session starts in: first tab, browsing, empty query.
pub open spec fn initial(catalog: ConfigView) -> TuiView {
    TuiView { catalog, active_tab: 0, search_mode: false, search_query: Seq::empty() }
}

/// The character is one of the digits `1` to `9`, which jump to a tab.
/// The catalog that loading gives: the source, or the built-in catalog
/// where there is none.
pub open spec fn loaded(source: Option<Config>) -> ConfigView {
    match source {
        Some(c) => c@,
        None => default_catalog(),
    }
}

/// The session with another catalog and the same navigation and search
/// state.
pub open spec fn with_catalog(s: TuiView, catalog: ConfigView) -> TuiView {
    TuiView { catalog, ..s }
}

/// The state of the session is well formed over the given catalog: the
/// active tab is one of its categories, if it has any, and the query is
/// empty while browsing.
pub open spec fn fits(s: TuiView, catalog: ConfigView) -> bool {
    with_catalog(s, catalog).wf()
}

/// The character is one of the digits `1` to `9`, which jump to a tab.
pub open spec fn is_jump_digit(c: char) -> bool {
    '1' <= c && c <= '9'
}

/// The number a digit stands for.
pub open spec fn digit_value(c: char) -> nat {
    (c as int - 48) as nat
}

/// The tab after `active` among `n` tabs, cyclically.
pub open spec fn next_tab(active: nat, n: nat) -> nat {
    ((active as int + 1) % (n as int)) as nat
}

/// The tab before `active` among `n` tabs, cyclically.
pub open spec fn previous_tab(active: nat, n: nat) -> nat {
    ((active as int - 1 + n as int) % (n as int)) as nat
}

/// The state after one key event.
pub open spec fn step(s: TuiView, ev: KeyEvent) -> TuiView {
    let n = s.catalog.categories.len();
    match ev.key {
        Key::Esc => if s.search_mode {
            TuiView { search_mode: false, search_query: Seq::empty(), ..s }
        } else {
            s
        },
        Key::Tab => if n == 0 {
            s
        } else if ev.shift {
            TuiView { active_tab: previous_tab(s.active_tab, n), ..s }
        } else {
            TuiView { active_tab: next_tab(s.active_tab, n), ..s }
        },
        Key::Backspace => if s.search_mode && s.search_query.len() > 0 {
            TuiView { search_query: s.search_query.drop_last(), ..s }
        } else {
            s
        },
        Key::Char(c) => if s.search_mode {
            TuiView { search_query: s.search_query.push(c), ..s }
        } else if c == '/' {
            TuiView { search_mode: true, ..s }
        } else if is_jump_digit(c) && digit_value(c) <= n {
            TuiView { active_tab: (digit_value(c) - 1) as nat, ..s }
        } else {
            s
        },
        Key::Other => s,
    }
}

/// What the host is told after one key event.
pub open spec fn outcome(s: TuiView, ev: KeyEvent) -> Outcome {
    match ev.key {
        Key::Esc => if s.search_mode {
            Outcome::Redraw
        } else {
            Outcome::Close
        },
        Key::Tab => Outcome::Redraw,
        Key::Backspace => if s.search_mode {
            Outcome::Redraw
        } else {
            Outcome::Unhandled
        },
        Key::Char(c) => if s.search_mode {
            Outcome::Redraw
        } else if c == 'q' {
            Outcome::Close
        } else if c == '/' || is_jump_digit(c) {
            Outcome::Redraw
        } else {
            Outcome::Unhandled
        },
        Key::Other => Outcome::Unhandled,
    }
}

/// The state after a sequence of key events, in order.
pub open spec fn run(s: TuiView, events: Seq<KeyEvent>) -> TuiView
    decreases events.len(),
{
    if events.len() == 0 {
        s
    } else {
        step(run(s, events.drop_last()), events.last())
    }
}

/// The state after the same key event `times` times.
pub open spec fn repeat(s: TuiView, ev: KeyEvent, times: nat) -> TuiView
    decreases times,
{
    if times == 0 {
        s
    } else {
        step(repeat(s, ev, (times - 1) as nat), ev)
    }
}

/// The Tab key without modifiers.
pub open spec fn tab_key() -> KeyEvent {
    KeyEvent { key: Key::Tab, shift: false }
}

/// The Tab key with the reverse modifier.
pub open spec fn reverse_tab_key() -> KeyEvent {
    KeyEvent { key: Key::Tab, shift: true }
}

/// The Escape key.
pub open spec fn escape_key() -> KeyEvent {
    KeyEvent { key: Key::Esc, shift: false }
}

/// The key that enters search mode.
pub open spec fn slash_key() -> KeyEvent {
    KeyEvent { key: Key::Char('/'), shift: false }
}

/// One transition keeps a session well formed and never touches the catalog.
pub proof fn lemma_step_wf(s: TuiView, ev: KeyEvent)
    requires
        s.wf(),
    ensures
        step(s, ev).wf(),
        step(s, ev).catalog == s.catalog,
{
    let n = s.catalog.categories.len() as int;
    if n > 0 {
        lemma_mod_bound(s.active_tab as int + 1, n);
        lemma_mod_bound(s.active_tab as int - 1 + n, n);
    }
}

/// After every transition of any sequence of key events the session is well
/// formed: the active tab stays inside a non-empty catalog.
pub proof fn lemma_run_wf(s: TuiView, events: Seq<KeyEvent>, k: int)
    requires
        s.wf(),
        0 <= k <= events.len(),
    ensures
        run(s, events.take(k)).wf(),
        run(s, events.take(k)).catalog == s.catalog,
        s.catalog.categories.len() > 0 ==> run(s, events.take(k)).active_tab
            < s.catalog.categories.len(),
    decreases k,
{
    if k > 0 {
        lemma_run_wf(s, events, k - 1);
        assert(events.take(k).drop_last() =~= events.take(k - 1));
        lemma_step_wf(run(s, events.take(k - 1)), events[k - 1]);
    }
}

proof fn lemma_tab_repeat(s: TuiView, k: nat)
    requires
        s.wf(),
        s.catalog.categories.len() > 0,
    ensures
        repeat(s, tab_key(), k) == (TuiView {
            active_tab: ((s.active_tab as int + k as int) % (s.catalog.categories.len() as int)) as nat,
            ..s
        }),
        repeat(s, reverse_tab_key(), k) == (TuiView {
            active_tab: ((s.active_tab as int - k as int) % (s.catalog.categories.len() as int)) as nat,
            ..s
        }),
    decreases k,
{
    let n = s.catalog.categories.len() as int;
    let a = s.active_tab as int;
    if k == 0 {
        lemma_small_mod(s.active_tab, n as nat);
    } else {
        lemma_tab_repeat(s, (k - 1) as nat);
        let up = a + k - 1;
        let down = a - (k - 1);
        lemma_mod_bound(up, n);
        lemma_mod_bound(down, n);
        lemma_add_mod_noop_right(1, up, n);
        assert((up % n + 1) % n == (a + k) % n);
        lemma_add_mod_noop_right(n - 1, down, n);
        lemma_mod_add_multiples_vanish(a - k, n);
        assert((down % n - 1 + n) % n == (a - k) % n);
    }
}

/// Pressing Tab as many times as there are categories returns to the tab
/// the session started on, and so does pressing reverse-Tab that often.
/// Nothing else changes either.
pub proof fn lemma_tab_cycle(s: TuiView)
    requires
        s.wf(),
        s.catalog.categories.len() > 0,
    ensures
        repeat(s, tab_key(), s.catalog.categories.len()) == s,
        repeat(s, reverse_tab_key(), s.catalog.categories.len()) == s,
{
    let n = s.catalog.categories.len();
    lemma_tab_repeat(s, n);
    lemma_mod_add_multiples_vanish(s.active_tab as int, n as int);
    lemma_mod_add_multiples_vanish(s.active_tab - n, n as int);
    lemma_small_mod(s.active_tab, n);
}

/// Escape in search mode leaves search mode with an empty query, whatever
/// the query held; so does entering search mode, pressing any keys but
/// Escape, and then pressing Escape.
pub proof fn lemma_escape_clears_search(s: TuiView, typed: Seq<KeyEvent>)
    requires
        forall|i: int| 0 <= i < typed.len() ==> (#[trigger] typed[i]).key != Key::Esc,
    ensures
        s.search_mode ==> !step(s, escape_key()).search_mode && step(
            s,
            escape_key(),
        ).search_query.len() == 0,
        !s.search_mode ==> !step(run(step(s, slash_key()), typed), escape_key()).search_mode
            && step(run(step(s, slash_key()), typed), escape_key()).search_query.len() == 0,
        outcome(step(s, slash_key()), escape_key()) == Outcome::Redraw,
{
    if !s.search_mode {
        lemma_typing_stays_in_search(step(s, slash_key()), typed);
    }
}

proof fn lemma_typing_stays_in_search(s: TuiView, typed: Seq<KeyEvent>)
    requires
        s.search_mode,
        forall|i: int| 0 <= i < typed.len() ==> (#[trigger] typed[i]).key != Key::Esc,
    ensures
        run(s, typed).search_mode,
    decreases typed.len(),
{
    if typed.len() > 0 {
        lemma_typing_stays_in_search(s, typed.drop_last());
    }
}

/// A digit from 1 to 9 beyond the number of categories changes nothing but
/// is still handled.
pub proof fn lemma_digit_out_of_range(s: TuiView, c: char, shift: bool)
    requires
        !s.search_mode,
        is_jump_digit(c),
        digit_value(c) > s.catalog.categories.len(),
    ensures
        step(s, KeyEvent { key: Key::Char(c), shift }) == s,
        outcome(s, KeyEvent { key: Key::Char(c), shift }) == Outcome::Redraw,
{
}

/// A session: the catalog and the navigation and search state.
pub struct ShortcutsTui {
    config: Config,
    active_tab: usize,
    search_query: String,
    search_mode: bool,
}

impl View for ShortcutsTui {
    type V = TuiView;

    closed spec fn view(&self) -> TuiView {
        TuiView {
            catalog: self.config@,
            active_tab: self.active_tab as nat,
            search_mode: self.search_mode,
            search_query: self.search_query@,
        }
    }
}

impl Default for ShortcutsTui {
    /// The same session as `ShortcutsTui::new` gives.
    fn default() -> (t: ShortcutsTui)
        ensures
            t@ == initial(ConfigView { categories: Seq::empty() }),
            t@.wf(),
    {
        ShortcutsTui::new()
    }
}

impl ShortcutsTui {
    /// A session over an empty catalog.
    pub fn new() -> (t: ShortcutsTui)
        ensures
            t@ == initial(ConfigView { categories: Seq::empty() }),
            t@.wf(),
    {
        let t = ShortcutsTui {
            config: Config { categories: Vec::new() },
            active_tab: 0,
            search_query: String::new(),
            search_mode: false,
        };
        assert(t@.catalog.categories =~= Seq::empty());
        t
    }

    /// Sets the catalog to the given one, or to the built-in one when none
    /// is given. The navigation and search state is left as it is.
    pub fn load(&mut self, source: Option<Config>)
        ensures
            final(self)@ == with_catalog(old(self)@, loaded(source)),
            source is None ==> final(self)@.catalog.categories.len() == 2,
            fits(old(self)@, loaded(source)) ==> final(self)@.wf(),
    {
        match source {
            Some(c) => {
                self.config = c;
            },
            None => {
                self.config = Config::default_config();
            },
        }
    }

    /// Sets the catalog to the built-in one. The navigation and search
    /// state is left as it is.
    pub fn load_default_config(&mut self)
        ensures
            final(self)@ == with_catalog(old(self)@, default_catalog()),
            final(self)@.catalog.categories.len() == 2,
            fits(old(self)@, default_catalog()) ==> final(self)@.wf(),
    {
        self.config = Config::default_config();
    }

    /// Handles one key event.
    pub fn handle_key(&mut self, key: KeyEvent) -> (r: Outcome)
        ensures
            final(self)@ == step(old(self)@, key),
            r == outcome(old(self)@, key),
            old(self)@.wf() ==> final(self)@.wf(),
    {
        proof {
            if old(self)@.wf() {
                lemma_step_wf(old(self)@, key);
            }
        }
        let n: usize = self.config.categories.len();
        assert(n == self@.catalog.categories.len());
        match key.key {
            Key::Esc => {
                if self.search_mode {
                    self.search_mode = false;
                    self.search_query.clear();
                    Outcome::Redraw
                } else {
                    Outcome::Close
                }
            },
            Key::Tab => {
                if n > 0 {
                    let a: usize = self.active_tab % n;
                    if key.shift {
                        proof {
                            lemma_add_mod_noop_right(n - 1, self.active_tab as int, n as int);
                            if a == 0 {
                                lemma_small_mod((n - 1) as nat, n as nat);
                            } else {
                                lemma_mod_add_multiples_vanish(a - 1, n as int);
                                lemma_small_mod((a - 1) as nat, n as nat);
                            }
                        }
                        self.active_tab = if a == 0 {
                            n - 1
                        } else {
                            a - 1
                        };
                    } else {
                        proof {
                            lemma_add_mod_noop_right(1, self.active_tab as int, n as int);
                            if a + 1 == n {
                                lemma_mod_self_0(n as int);
                            } else {
                                lemma_small_mod((a + 1) as nat, n as nat);
                            }
                        }
                        self.active_tab = if a + 1 == n {
                            0
                        } else {
                            a + 1
                        };
                    }
                }
                Outcome::Redraw
            },
            Key::Backspace => {
                if self.search_mode {
                    let _ = self.search_query.pop();
                    Outcome::Redraw
                } else {
                    Outcome::Unhandled
                }
            },
            Key::Char(c) => {
                if self.search_mode {
                    self.search_query.push(c);
                    Outcome::Redraw
                } else if c == 'q' {
                    Outcome::Close
                } else if c == '/' {
                    self.search_mode = true;
                    Outcome::Redraw
                } else if '1' <= c && c <= '9' {
                    let d: usize = (c as u32 - 48) as usize;
                    if d <= n {
                        self.active_tab = d - 1;
                    }
                    Outcome::Redraw
                } else {
                    Outcome::Unhandled
                }
            },
            Key::Other => Outcome::Unhandled,
        }
    }

    /// Handles one host event: key events go to `handle_key`, all others
    /// are left to the host.
    pub fn update(&mut self, event: HostEvent) -> (r: Outcome)
        ensures
            old(self)@.wf() ==> final(self)@.wf(),
            match event {
                HostEvent::Key(key) => final(self)@ == step(old(self)@, key) && r == outcome(
                    old(self)@,
                    key,
                ),
                HostEvent::Other => final(self)@ == old(self)@ && r == Outcome::Unhandled,
            },
    {
        match event {
            HostEvent::Key(key) => self.handle_key(key),
            HostEvent::Other => Outcome::Unhandled,
        }
    }

    /// Lays out the frame for the current state.
    pub fn render(&self, rows: usize, cols: usize) -> (lines: Vec<String>)
        ensures
            frame::texts(lines@) == frame::frame_lines(self@, rows as nat),
    {
        frame::render_frame(
            &self.config,
            self.active_tab,
            self.search_mode,
            self.search_query.as_str(),
            rows,
            cols,
        )
    }

    pub fn active_tab(&self) -> (r: usize)
        ensures
            r == self@.active_tab,
    {
        self.active_tab
    }

    pub fn search_mode(&self) -> (r: bool)
        ensures
            r == self@.search_mode,
    {
        self.search_mode
    }

    pub fn search_query(&self) -> (r: &str)
        ensures
            r@ == self@.search_query,
    {
        self.search_query.as_str()
    }

    pub fn config(&self) -> (r: &Config)
        ensures
            r@ == self@.catalog,
    {
        &self.config
    }
}

} // verus!
