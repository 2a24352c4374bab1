//! Lookup tables of the sources and of the notification channels.
use vstd::prelude::*;

use crate::config::{Config, TgBot};
use crate::text::{str_eq, strs};

verus! {

/// A producer of advisories, known by a unique name.
pub trait Grab {
    fn get_name(&self) -> String;
}

/// Names are unique in a table of named entries.
pub open spec fn names_unique<G>(s: Seq<(Seq<char>, G)>) -> bool {
    forall|i: int, j: int|
        0 <= i < s.len() && 0 <= j < s.len() && #[trigger] s[i].0 == #[trigger] s[j].0 ==> i == j
}

/// Some entry has name `n`.
pub open spec fn has_name<G>(s: Seq<(Seq<char>, G)>, n: Seq<char>) -> bool {
    exists|i: int| 0 <= i < s.len() && #[trigger] s[i].0 == n
}

/// The position of the entry named `n` (meaningful where `has_name`).
pub open spec fn name_index<G>(s: Seq<(Seq<char>, G)>, n: Seq<char>) -> int {
    choose|i: int| 0 <= i < s.len() && #[trigger] s[i].0 == n
}

/// The names of a table, in order.
pub open spec fn entry_names<G>(s: Seq<(Seq<char>, G)>) -> Seq<Seq<char>> {
    s.map_values(|e: (Seq<char>, G)| e.0)
}

/// The table after `g` is registered under `n`: it replaces an entry of the
/// same name, or comes last.
pub open spec fn registered<G>(s: Seq<(Seq<char>, G)>, n: Seq<char>, g: G) -> Seq<(Seq<char>, G)> {
    if has_name(s, n) {
        s.update(name_index(s, n), (n, g))
    } else {
        s.push((n, g))
    }
}

/// The sources of a pass, each under its name.
pub struct GrabManager<G> {
    entries: Vec<(String, G)>,
}

impl<G> View for GrabManager<G> {
    type V = Seq<(Seq<char>, G)>;

    closed spec fn view(&self) -> Seq<(Seq<char>, G)> {
        self.entries@.map_values(|e: (String, G)| (e.0@, e.1))
    }
}

impl<G: Grab> GrabManager<G> {
    /// No two sources share a name.
    pub open spec fn wf(&self) -> bool {
        names_unique(self@)
    }

    /// An empty table.
    pub fn new() -> (r: Self)
        ensures
            r.wf(),
            r@ == Seq::<(Seq<char>, G)>::empty(),
    {
        let r = GrabManager { entries: Vec::new() };
        assert(r@ =~= Seq::<(Seq<char>, G)>::empty());
        r
    }

    /// The number of sources.
    pub fn len(&self) -> (r: usize)
        ensures
            r == self@.len(),
    {
        self.entries.len()
    }

    fn index_of(&self, name: &str) -> (r: Option<usize>)
        requires
            self.wf(),
        ensures
            r is None <==> !has_name(self@, name@),
            r is Some ==> r->0 == name_index(self@, name@) && r->0 < self@.len(),
    {
        let mut i: usize = 0;
        while i < self.entries.len()
            invariant
                self.wf(),
                i <= self@.len(),
                self@.len() == self.entries@.len(),
                forall|j: int| 0 <= j < i ==> self@[j].0 != name@,
            decreases self.entries@.len() - i,
        {
            if str_eq(self.entries[i].0.as_str(), name) {
                assert(self@[i as int].0 == name@);
                let ghost k = name_index(self@, name@);
                assert(self@[k].0 == name@);
                return Some(i);
            }
            i = i + 1;
        }
        None
    }

    /// Registers `grab` under `name`, replacing a source of the same name.
    pub fn register_as(&mut self, name: String, grab: G)
        requires
            old(self).wf(),
        ensures
            final(self).wf(),
            final(self)@ == registered(old(self)@, name@, grab),
    {
        let ghost s = self@;
        let ghost n = name@;
        match self.index_of(name.as_str()) {
            Some(i) => {
                self.entries.set(i, (name, grab));
                assert(self@ =~= s.update(i as int, (n, grab)));
                assert forall|a: int, b: int|
                    0 <= a < self@.len() && 0 <= b < self@.len() && #[trigger] self@[a].0
                        == #[trigger] self@[b].0 implies a == b by {
                    assert(self@[a].0 == s[a].0);
                    assert(self@[b].0 == s[b].0);
                }
            },
            None => {
                self.entries.push((name, grab));
                assert(self@ =~= s.push((n, grab)));
                assert forall|a: int, b: int|
                    0 <= a < self@.len() && 0 <= b < self@.len() && #[trigger] self@[a].0
                        == #[trigger] self@[b].0 implies a == b by {
                    if a < s.len() && b == s.len() {
                        assert(s[a].0 == n);
                    }
                    if b < s.len() && a == s.len() {
                        assert(s[b].0 == n);
                    }
                }
            },
        }
    }

    /// Registers `grab` under the name it reports, replacing a source of the
    /// same name.
    pub fn register(&mut self, grab: G)
        requires
            old(self).wf(),
        ensures
            final(self).wf(),
            exists|n: Seq<char>| final(self)@ == #[trigger] registered(old(self)@, n, grab),
    {
        let name = grab.get_name();
        self.register_as(name, grab);
    }

    /// The source registered under `name`, if any.
    pub fn get(&self, name: &str) -> (r: Option<&G>)
        requires
            self.wf(),
        ensures
            r is None <==> !has_name(self@, name@),
            r is Some ==> *r->0 == self@[name_index(self@, name@)].1,
    {
        match self.index_of(name) {
            None => None,
            Some(i) => Some(&self.entries[i].1),
        }
    }

    /// The names of all sources, in registration order.
    pub fn names(&self) -> (r: Vec<String>)
        ensures
            strs(r@) == entry_names(self@),
    {
        let mut r: Vec<String> = Vec::new();
        let mut i: usize = 0;
        while i < self.entries.len()
            invariant
                i <= self@.len(),
                self@.len() == self.entries@.len(),
                strs(r@) == entry_names(self@).take(i as int),
            decreases self.entries@.len() - i,
        {
            let ghost before = r@;
            r.push(self.entries[i].0.clone());
            assert(self@[i as int].0 == self.entries@[i as int].0@);
            assert(strs(r@) =~= entry_names(self@).take(i + 1)) by {
                assert(strs(before) == entry_names(self@).take(i as int));
                assert(strs(before).len() == before.len());
                assert(before.len() == i);
                assert forall|j: int| 0 <= j < i implies strs(r@)[j] == strs(before)[j] by {
                    assert(r@[j] == before[j]);
                }
            }
            i = i + 1;
        }
        assert(entry_names(self@).take(self@.len() as int) =~= entry_names(self@));
        r
    }
}

/// The notification channels that every message goes to.
pub struct BotManager<B> {
    pub bots: Vec<B>,
}

impl<B> BotManager<B> {
    /// No channel yet.
    pub fn new() -> (r: Self)
        ensures
            r.bots@ == Seq::<B>::empty(),
    {
        BotManager { bots: Vec::new() }
    }

    /// Adds a channel after the others.
    pub fn add_bot(&mut self, bot: B)
        ensures
            final(self).bots@ == old(self).bots@.push(bot),
    {
        self.bots.push(bot);
    }
}

/// The characters `char::is_whitespace` accepts: those with the Unicode
/// White_Space property.
pub open spec fn is_white_space(c: char) -> bool {
    c == '\t' || c == '\n' || c == '\u{0B}' || c == '\u{0C}' || c == '\r' || c == ' ' || c
        == '\u{85}' || c == '\u{A0}' || c == '\u{1680}' || ('\u{2000}' <= c && c <= '\u{200A}')
        || c == '\u{2028}' || c == '\u{2029}' || c == '\u{202F}' || c == '\u{205F}' || c
        == '\u{3000}'
}

/// A setting left blank: empty or white space only.
pub open spec fn is_blank(s: Seq<char>) -> bool {
    forall|i: int| 0 <= i < s.len() ==> is_white_space(#[trigger] s[i])
}

/// Whether `c` is white space.
pub fn white_space(c: char) -> (r: bool)
    ensures
        r == is_white_space(c),
{
    c == '\t' || c == '\n' || c == '\u{0B}' || c == '\u{0C}' || c == '\r' || c == ' ' || c
        == '\u{85}' || c == '\u{A0}' || c == '\u{1680}' || ('\u{2000}' <= c && c <= '\u{200A}')
        || c == '\u{2028}' || c == '\u{2029}' || c == '\u{202F}' || c == '\u{205F}' || c
        == '\u{3000}'
}

/// Whether `s` is empty or white space only.
pub fn blank(s: &str) -> (r: bool)
    ensures
        r == is_blank(s@),
{
    let n = s.unicode_len();
    let mut i: usize = 0;
    while i < n
        invariant
            n == s@.len(),
            i <= n,
            forall|j: int| 0 <= j < i ==> is_white_space(#[trigger] s@[j]),
        decreases n - i,
    {
        if !white_space(s.get_char(i)) {
            return false;
        }
        i = i + 1;
    }
    true
}

/// The channels the settings turn on: Telegram, where its token is not blank.
pub fn init(config: Config) -> (r: BotManager<TgBot>)
    ensures
        !is_blank(config.tg_bot.token@) ==> r.bots@ == seq![config.tg_bot],
        is_blank(config.tg_bot.token@) ==> r.bots@ == Seq::<TgBot>::empty(),
{
    let mut bots: BotManager<TgBot> = BotManager::new();
    if !blank(config.tg_bot.token.as_str()) {
        let ghost tg = config.tg_bot;
        bots.add_bot(config.tg_bot);
        assert(bots.bots@ =~= seq![tg]);
    }
    bots
}

} // verus!
