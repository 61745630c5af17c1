//! Plugin names, the opcodes that scripts yield to plugins, and the
//! registry of installed plugins.

use vstd::prelude::*;
use vstd::string::StringExecFns;
use crate::registry::{Registry, RegistryKey};
use crate::text::{
    ascii_lower, ascii_upper, is_ascii_text, is_lower_word, lemma_lower_word_case_round_trip,
    push_char, split_once_char, split_once_text, str_eq, to_lowercase, to_uppercase,
    unicode_lowercase, is_first_index,
};

verus! {

/// The plugins a game mode can install; each owns one global table in Lua.
#[derive(Clone, Copy, Debug, PartialEq, Eq, Structural, Hash)]
pub enum PluginName {
    Entity,
    Farcaster,
    Input,
    Layer,
    Memory,
    On,
    Player,
    Room,
    Scene,
    Timer,
    Constants,
    Json,
    Rock,
}

/// The text under which a plugin is known to scripts.
pub open spec fn plugin_name_text(n: PluginName) -> Seq<char> {
    match n {
        PluginName::Entity => "entity"@,
        PluginName::Farcaster => "fc"@,
        PluginName::Input => "input"@,
        PluginName::Layer => "layer"@,
        PluginName::Memory => "memory"@,
        PluginName::On => "on"@,
        PluginName::Player => "player"@,
        PluginName::Room => "room"@,
        PluginName::Scene => "scene"@,
        PluginName::Timer => "timer"@,
        PluginName::Constants => "Const"@,
        PluginName::Json => "json"@,
        PluginName::Rock => "rock"@,
    }
}

/// The plugin whose text is exactly `s`, if any (the match is case-sensitive).
pub open spec fn plugin_name_from_text(s: Seq<char>) -> Option<PluginName> {
    if s == "entity"@ {
        Some(PluginName::Entity)
    } else if s == "fc"@ {
        Some(PluginName::Farcaster)
    } else if s == "input"@ {
        Some(PluginName::Input)
    } else if s == "layer"@ {
        Some(PluginName::Layer)
    } else if s == "memory"@ {
        Some(PluginName::Memory)
    } else if s == "on"@ {
        Some(PluginName::On)
    } else if s == "player"@ {
        Some(PluginName::Player)
    } else if s == "room"@ {
        Some(PluginName::Room)
    } else if s == "scene"@ {
        Some(PluginName::Scene)
    } else if s == "timer"@ {
        Some(PluginName::Timer)
    } else if s == "Const"@ {
        Some(PluginName::Constants)
    } else if s == "json"@ {
        Some(PluginName::Json)
    } else if s == "rock"@ {
        Some(PluginName::Rock)
    } else {
        None
    }
}

impl PluginName {
    /// The plugin's text, also the name of its global table.
    pub fn as_str(&self) -> (r: &'static str)
        ensures
            r@ == plugin_name_text(*self),
    {
        match self {
            PluginName::Entity => "entity",
            PluginName::Farcaster => "fc",
            PluginName::Input => "input",
            PluginName::Layer => "layer",
            PluginName::Memory => "memory",
            PluginName::On => "on",
            PluginName::Player => "player",
            PluginName::Room => "room",
            PluginName::Scene => "scene",
            PluginName::Timer => "timer",
            PluginName::Constants => "Const",
            PluginName::Json => "json",
            PluginName::Rock => "rock",
        }
    }

    /// Parses a plugin's text; `None` when no plugin has exactly that text.
    pub fn parse(s: &str) -> (r: Option<PluginName>)
        ensures
            r == plugin_name_from_text(s@),
    {
        if str_eq(s, "entity") {
            Some(PluginName::Entity)
        } else if str_eq(s, "fc") {
            Some(PluginName::Farcaster)
        } else if str_eq(s, "input") {
            Some(PluginName::Input)
        } else if str_eq(s, "layer") {
            Some(PluginName::Layer)
        } else if str_eq(s, "memory") {
            Some(PluginName::Memory)
        } else if str_eq(s, "on") {
            Some(PluginName::On)
        } else if str_eq(s, "player") {
            Some(PluginName::Player)
        } else if str_eq(s, "room") {
            Some(PluginName::Room)
        } else if str_eq(s, "scene") {
            Some(PluginName::Scene)
        } else if str_eq(s, "timer") {
            Some(PluginName::Timer)
        } else if str_eq(s, "Const") {
            Some(PluginName::Constants)
        } else if str_eq(s, "json") {
            Some(PluginName::Json)
        } else if str_eq(s, "rock") {
            Some(PluginName::Rock)
        } else {
            None
        }
    }
}

/// Parsing the text of a plugin gives that plugin back, and a text that
/// parses names the plugin it parses to.
pub proof fn lemma_plugin_name_round_trip(n: PluginName, s: Seq<char>)
    ensures
        plugin_name_from_text(plugin_name_text(n)) == Some(n),
        plugin_name_from_text(s) == Some(n) ==> plugin_name_text(n) == s,
{
    reveal_strlit("entity");
    reveal_strlit("fc");
    reveal_strlit("input");
    reveal_strlit("layer");
    reveal_strlit("memory");
    reveal_strlit("on");
    reveal_strlit("player");
    reveal_strlit("room");
    reveal_strlit("scene");
    reveal_strlit("timer");
    reveal_strlit("Const");
    reveal_strlit("json");
    reveal_strlit("rock");
    match n {
        PluginName::Entity => {
        },
        PluginName::Farcaster => {
            assert("fc"@.len() != "entity"@.len());
        },
        PluginName::Input => {
            assert("input"@.len() != "entity"@.len());
            assert("input"@.len() != "fc"@.len());
        },
        PluginName::Layer => {
            assert("layer"@.len() != "entity"@.len());
            assert("layer"@.len() != "fc"@.len());
            assert("layer"@[0] != "input"@[0]);
        },
        PluginName::Memory => {
            assert("memory"@[0] != "entity"@[0]);
            assert("memory"@.len() != "fc"@.len());
            assert("memory"@.len() != "input"@.len());
            assert("memory"@.len() != "layer"@.len());
        },
        PluginName::On => {
            assert("on"@.len() != "entity"@.len());
            assert("on"@[0] != "fc"@[0]);
            assert("on"@.len() != "input"@.len());
            assert("on"@.len() != "layer"@.len());
            assert("on"@.len() != "memory"@.len());
        },
        PluginName::Player => {
            assert("player"@[0] != "entity"@[0]);
            assert("player"@.len() != "fc"@.len());
            assert("player"@.len() != "input"@.len());
            assert("player"@.len() != "layer"@.len());
            assert("player"@[0] != "memory"@[0]);
            assert("player"@.len() != "on"@.len());
        },
        PluginName::Room => {
            assert("room"@.len() != "entity"@.len());
            assert("room"@.len() != "fc"@.len());
            assert("room"@.len() != "input"@.len());
            assert("room"@.len() != "layer"@.len());
            assert("room"@.len() != "memory"@.len());
            assert("room"@.len() != "on"@.len());
            assert("room"@.len() != "player"@.len());
        },
        PluginName::Scene => {
            assert("scene"@.len() != "entity"@.len());
            assert("scene"@.len() != "fc"@.len());
            assert("scene"@[0] != "input"@[0]);
            assert("scene"@[0] != "layer"@[0]);
            assert("scene"@.len() != "memory"@.len());
            assert("scene"@.len() != "on"@.len());
            assert("scene"@.len() != "player"@.len());
            assert("scene"@.len() != "room"@.len());
        },
        PluginName::Timer => {
            assert("timer"@.len() != "entity"@.len());
            assert("timer"@.len() != "fc"@.len());
            assert("timer"@[0] != "input"@[0]);
            assert("timer"@[0] != "layer"@[0]);
            assert("timer"@.len() != "memory"@.len());
            assert("timer"@.len() != "on"@.len());
            assert("timer"@.len() != "player"@.len());
            assert("timer"@.len() != "room"@.len());
            assert("timer"@[0] != "scene"@[0]);
        },
        PluginName::Constants => {
            assert("Const"@.len() != "entity"@.len());
            assert("Const"@.len() != "fc"@.len());
            assert("Const"@[0] != "input"@[0]);
            assert("Const"@[0] != "layer"@[0]);
            assert("Const"@.len() != "memory"@.len());
            assert("Const"@.len() != "on"@.len());
            assert("Const"@.len() != "player"@.len());
            assert("Const"@.len() != "room"@.len());
            assert("Const"@[0] != "scene"@[0]);
            assert("Const"@[0] != "timer"@[0]);
        },
        PluginName::Json => {
            assert("json"@.len() != "entity"@.len());
            assert("json"@.len() != "fc"@.len());
            assert("json"@.len() != "input"@.len());
            assert("json"@.len() != "layer"@.len());
            assert("json"@.len() != "memory"@.len());
            assert("json"@.len() != "on"@.len());
            assert("json"@.len() != "player"@.len());
            assert("json"@[0] != "room"@[0]);
            assert("json"@.len() != "scene"@.len());
            assert("json"@.len() != "timer"@.len());
            assert("json"@.len() != "Const"@.len());
        },
        PluginName::Rock => {
            assert("rock"@.len() != "entity"@.len());
            assert("rock"@.len() != "fc"@.len());
            assert("rock"@.len() != "input"@.len());
            assert("rock"@.len() != "layer"@.len());
            assert("rock"@.len() != "memory"@.len());
            assert("rock"@.len() != "on"@.len());
            assert("rock"@.len() != "player"@.len());
            assert("rock"@[2] != "room"@[2]);
            assert("rock"@.len() != "scene"@.len());
            assert("rock"@.len() != "timer"@.len());
            assert("rock"@.len() != "Const"@.len());
            assert("rock"@[0] != "json"@[0]);
        },
    }
}

/// The opcode a script yields for operation `op` of plugin `n`: the plugin's
/// text in uppercase, `_`, then the operation's text.
pub open spec fn plugin_opcode_text(n: PluginName, op: Seq<char>) -> Seq<char> {
    ascii_upper(plugin_name_text(n)) + seq!['_'] + op
}

/// Every plugin text is ASCII; all but that of `Constants` are lowercase words.
pub proof fn lemma_plugin_name_text_shape(n: PluginName)
    ensures
        is_ascii_text(plugin_name_text(n)),
        n != PluginName::Constants ==> is_lower_word(plugin_name_text(n)),
{
    reveal_strlit("entity");
    reveal_strlit("fc");
    reveal_strlit("input");
    reveal_strlit("layer");
    reveal_strlit("memory");
    reveal_strlit("on");
    reveal_strlit("player");
    reveal_strlit("room");
    reveal_strlit("scene");
    reveal_strlit("timer");
    reveal_strlit("Const");
    reveal_strlit("json");
    reveal_strlit("rock");
    let t = plugin_name_text(n);
    match n {
        PluginName::Entity => {
            assert(t[0] == 'e');
            assert(t[1] == 'n');
            assert(t[2] == 't');
            assert(t[3] == 'i');
            assert(t[4] == 't');
            assert(t[5] == 'y');
        },
        PluginName::Farcaster => {
            assert(t[0] == 'f');
            assert(t[1] == 'c');
        },
        PluginName::Input => {
            assert(t[0] == 'i');
            assert(t[1] == 'n');
            assert(t[2] == 'p');
            assert(t[3] == 'u');
            assert(t[4] == 't');
        },
        PluginName::Layer => {
            assert(t[0] == 'l');
            assert(t[1] == 'a');
            assert(t[2] == 'y');
            assert(t[3] == 'e');
            assert(t[4] == 'r');
        },
        PluginName::Memory => {
            assert(t[0] == 'm');
            assert(t[1] == 'e');
            assert(t[2] == 'm');
            assert(t[3] == 'o');
            assert(t[4] == 'r');
            assert(t[5] == 'y');
        },
        PluginName::On => {
            assert(t[0] == 'o');
            assert(t[1] == 'n');
        },
        PluginName::Player => {
            assert(t[0] == 'p');
            assert(t[1] == 'l');
            assert(t[2] == 'a');
            assert(t[3] == 'y');
            assert(t[4] == 'e');
            assert(t[5] == 'r');
        },
        PluginName::Room => {
            assert(t[0] == 'r');
            assert(t[1] == 'o');
            assert(t[2] == 'o');
            assert(t[3] == 'm');
        },
        PluginName::Scene => {
            assert(t[0] == 's');
            assert(t[1] == 'c');
            assert(t[2] == 'e');
            assert(t[3] == 'n');
            assert(t[4] == 'e');
        },
        PluginName::Timer => {
            assert(t[0] == 't');
            assert(t[1] == 'i');
            assert(t[2] == 'm');
            assert(t[3] == 'e');
            assert(t[4] == 'r');
        },
        PluginName::Constants => {
            assert(t[0] == 'C');
            assert(t[1] == 'o');
            assert(t[2] == 'n');
            assert(t[3] == 's');
            assert(t[4] == 't');
        },
        PluginName::Json => {
            assert(t[0] == 'j');
            assert(t[1] == 's');
            assert(t[2] == 'o');
            assert(t[3] == 'n');
        },
        PluginName::Rock => {
            assert(t[0] == 'r');
            assert(t[1] == 'o');
            assert(t[2] == 'c');
            assert(t[3] == 'k');
        },
    }
}

/// Builds the opcode of operation `op` of plugin `name`.
pub fn plugin_opcode(name: PluginName, op: &str) -> (r: String)
    ensures
        r@ == plugin_opcode_text(name, op@),
{
    proof {
        lemma_plugin_name_text_shape(name);
    }
    let mut r = to_uppercase(name.as_str());
    push_char(&mut r, '_');
    r.append(op);
    r
}

/// Splits an opcode at its first `_` into the plugin part and the operation
/// part; `None` when there is no `_`.
pub fn split_plugin_opcode(opcode: &str) -> (r: Option<(String, String)>)
    ensures
        match r {
            Some((a, b)) => split_once_text(opcode@, '_') == Some((a@, b@)),
            None => split_once_text(opcode@, '_') is None,
        },
{
    split_once_char(opcode, '_')
}

/// The label under which a scene waits on a plugin operation: both parts
/// lowercased, joined by `.`.
pub fn label_for_plugin_op(prefix: &str, suffix: &str) -> (r: String)
    ensures
        r@ == unicode_lowercase(prefix@) + seq!['.'] + unicode_lowercase(suffix@),
        is_ascii_text(prefix@) && is_ascii_text(suffix@) ==> r@ == ascii_lower(prefix@) + seq!['.']
            + ascii_lower(suffix@),
{
    let mut r = to_lowercase(prefix);
    push_char(&mut r, '.');
    let s = to_lowercase(suffix);
    r.append(s.as_str());
    r
}

/// The plugin that the plugin part of an opcode names: the part is
/// lowercased, then parsed.
pub fn plugin_for_prefix(prefix: &str) -> (r: Option<PluginName>)
    ensures
        r == plugin_name_from_text(unicode_lowercase(prefix@)),
        is_ascii_text(prefix@) ==> r == plugin_name_from_text(ascii_lower(prefix@)),
{
    let lower = to_lowercase(prefix);
    PluginName::parse(lower.as_str())
}

/// An opcode built for a plugin splits back into the plugin's uppercase text
/// and the operation, and that part, lowercased, names the plugin again; the
/// one exception is `Constants`, whose text is not lowercase, so that its
/// opcodes name no plugin.
pub proof fn lemma_opcode_routes_to_plugin(n: PluginName, op: Seq<char>)
    ensures
        split_once_text(plugin_opcode_text(n, op), '_') == Some((ascii_upper(plugin_name_text(n)), op)),
        is_ascii_text(ascii_upper(plugin_name_text(n))),
        plugin_name_from_text(ascii_lower(ascii_upper(plugin_name_text(n)))) == (if n
            == PluginName::Constants {
            None
        } else {
            Some(n)
        }),
{
    lemma_plugin_name_text_shape(n);
    let t = plugin_name_text(n);
    let u = ascii_upper(t);
    let s = plugin_opcode_text(n, op);
    if n == PluginName::Constants {
        reveal_strlit("entity");
        reveal_strlit("fc");
        reveal_strlit("input");
        reveal_strlit("layer");
        reveal_strlit("memory");
        reveal_strlit("on");
        reveal_strlit("player");
        reveal_strlit("room");
        reveal_strlit("scene");
        reveal_strlit("timer");
        reveal_strlit("Const");
        reveal_strlit("json");
        reveal_strlit("rock");
        assert(u[0] == 'C');
        assert(u[1] == 'O');
        assert(u[2] == 'N');
        assert(u[3] == 'S');
        assert(u[4] == 'T');
        assert(is_ascii_text(u));
        let l = ascii_lower(u);
        assert(l[0] == 'c');
        assert(l.len() != "entity"@.len());
        assert(l.len() != "fc"@.len());
        assert(l[0] != "input"@[0]);
        assert(l[0] != "layer"@[0]);
        assert(l.len() != "memory"@.len());
        assert(l.len() != "on"@.len());
        assert(l.len() != "player"@.len());
        assert(l.len() != "room"@.len());
        assert(l[0] != "scene"@[0]);
        assert(l[0] != "timer"@[0]);
        assert(l[0] != "Const"@[0]);
        assert(l.len() != "json"@.len());
        assert(l.len() != "rock"@.len());
    } else {
        lemma_lower_word_case_round_trip(t);
        lemma_plugin_name_round_trip(n, t);
    }
    assert(is_first_index(s, '_', u.len() as int));
    let k = choose|k: int| is_first_index(s, '_', k);
    if k < u.len() {
        assert(s[k] == u[k]);
    }
    crate::text::lemma_first_index_unique(s, '_', u.len() as int, k);
    assert(s.subrange(0, u.len() as int) =~= u);
    assert(s.subrange(u.len() as int + 1, s.len() as int) =~= op);
}

impl View for PluginName {
    type V = PluginName;

    open spec fn view(&self) -> PluginName {
        *self
    }
}

impl RegistryKey for PluginName {
    fn key_eq(&self, other: &Self) -> (r: bool) {
        *self == *other
    }

    fn key_clone(&self) -> (r: Self) {
        *self
    }
}

/// The installed plugins, at most one under each name.
pub struct PluginComposer<P> {
    plugins: Registry<PluginName, P>,
}

impl<P> View for PluginComposer<P> {
    type V = Map<PluginName, P>;

    closed spec fn view(&self) -> Map<PluginName, P> {
        self.plugins@
    }
}

impl<P> PluginComposer<P> {
    pub closed spec fn wf(&self) -> bool {
        self.plugins.wf()
    }

    /// A composer with no plugins.
    pub fn new() -> (r: Self)
        ensures
            r.wf(),
            r@ == Map::<PluginName, P>::empty(),
    {
        PluginComposer { plugins: Registry::new() }
    }

    /// Whether a plugin is installed under `name`.
    pub fn contains(&self, name: PluginName) -> (r: bool)
        requires
            self.wf(),
        ensures
            r == self@.contains_key(name),
    {
        self.plugins.contains_key(&name)
    }

    /// The plugin installed under `name`.
    pub fn get(&self, name: PluginName) -> (r: Option<&P>)
        requires
            self.wf(),
        ensures
            r is Some <==> self@.contains_key(name),
            r matches Some(p) ==> *p == self@[name],
    {
        self.plugins.get(&name)
    }

    /// Installs `plugin` under `name` unless a plugin is already installed
    /// there, in which case nothing changes and `plugin` is dropped. Returns
    /// whether it was installed.
    pub fn add_plugin(&mut self, name: PluginName, plugin: P) -> (r: bool)
        requires
            old(self).wf(),
        ensures
            final(self).wf(),
            r == !old(self)@.contains_key(name),
            r ==> final(self)@ == old(self)@.insert(name, plugin),
            !r ==> final(self)@ == old(self)@,
    {
        if self.plugins.contains_key(&name) {
            false
        } else {
            self.plugins.insert(name, plugin);
            true
        }
    }

    /// Uninstalls the plugin under `name`, if any.
    pub fn remove_plugin(&mut self, name: PluginName) -> (r: Option<P>)
        requires
            old(self).wf(),
        ensures
            final(self).wf(),
            final(self)@ == old(self)@.remove(name),
            r is Some <==> old(self)@.contains_key(name),
            r matches Some(p) ==> p == old(self)@[name],
    {
        self.plugins.remove(&name)
    }

    /// The installed plugins with their names.
    pub fn consume_plugins(self) -> (r: Vec<(PluginName, P)>)
        requires
            self.wf(),
        ensures
            crate::registry::distinct_keys(r@),
            crate::registry::entries_map(r@) == self@,
    {
        self.plugins.into_entries()
    }
}

/// Removing the plugin that `add_plugin` just installed gives back the
/// plugins the composer had before.
pub proof fn lemma_add_then_remove<P>(
    before: PluginComposer<P>,
    added: PluginComposer<P>,
    removed: PluginComposer<P>,
    name: PluginName,
    p: P,
)
    requires
        !before@.contains_key(name),
        added@ == before@.insert(name, p),
        removed@ == added@.remove(name),
    ensures
        removed@ == before@,
{
    assert(before@.insert(name, p).remove(name) =~= before@);
}

} // verus!
