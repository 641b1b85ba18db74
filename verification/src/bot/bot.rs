//! The decisions of the bot's event dispatch: how many shards to run, which
//! prefix command a message invokes, and where an interaction is routed.
//!
//! The application runs the shards and the dispatch loop, and calls the
//! user's handlers and modules as these decisions say.

use vstd::prelude::*;
use crate::bot::command::CommandRegistry;
use crate::json::JsonValue;
use crate::models::interaction::{ApplicationCommandType, Interaction, InteractionData, InteractionType};
use crate::text::{chars_of, push_char, starts_with};

verus! {

/// Shard count configuration.
#[derive(Debug, Clone, Copy, PartialEq, Eq, Structural)]
pub enum ShardCount {
    /// A single shard (the default).
    Single,
    /// A fixed number of shards.
    Fixed(u32),
    /// Query Discord's `GET /gateway/bot` for the recommended shard count.
    Auto,
}

impl Default for ShardCount {
    fn default() -> (r: Self)
        ensures
            r == ShardCount::Single,
    {
        ShardCount::Single
    }
}

impl ShardCount {
    /// The configuration for running `num_shards` shards: one shard (or
    /// none asked for) is the single-shard default.
    pub fn from_count(num_shards: u32) -> (r: Self)
        ensures
            num_shards <= 1 ==> r == ShardCount::Single,
            num_shards > 1 ==> r == ShardCount::Fixed(num_shards),
    {
        if num_shards <= 1 {
            ShardCount::Single
        } else {
            ShardCount::Fixed(num_shards)
        }
    }

    /// The number of shards to run, given the answer to `GET /gateway/bot`
    /// when the count is automatic: its `shards` (low 32 bits, 1 when
    /// absent), at least 1.
    pub fn total(self, gateway_bot: Option<&JsonValue>) -> (r: u32)
        requires
            self is Auto ==> gateway_bot is Some,
        ensures
            match self {
                ShardCount::Single => r == 1,
                ShardCount::Fixed(n) => r == n,
                ShardCount::Auto => r == recommended_shards_spec(*gateway_bot->0),
            },
    {
        match self {
            ShardCount::Single => 1,
            ShardCount::Fixed(n) => n,
            ShardCount::Auto => match gateway_bot {
                Some(resp) => recommended_shards(resp),
                None => 1,
            },
        }
    }
}

/// The shard count Discord recommends in a `GET /gateway/bot` answer: its
/// `shards` field (low 32 bits, 1 when absent or malformed), at least 1.
pub open spec fn recommended_shards_spec(resp: JsonValue) -> u32 {
    let n = match resp.get_spec("shards"@) {
        Some(JsonValue::UInt(v)) => (v % 0x1_0000_0000) as u32,
        _ => 1,
    };
    if n < 1 { 1 } else { n }
}

/// The shard count Discord recommends in a `GET /gateway/bot` answer.
pub fn recommended_shards(resp: &JsonValue) -> (r: u32)
    ensures
        r == recommended_shards_spec(*resp),
        r >= 1,
{
    let n: u32 = match resp.get("shards") {
        Some(JsonValue::UInt(v)) => (*v % 0x1_0000_0000) as u32,
        _ => 1,
    };
    if n < 1 { 1 } else { n }
}

/// How long to wait after starting shard `shard_id` of `num_shards` before
/// starting the next: Discord requires 5 seconds between IDENTIFY requests
/// of a multi-shard bot; none after the last shard.
pub fn identify_delay_secs(shard_id: u32, num_shards: u32) -> (r: u64)
    ensures
        r == if num_shards > 1 && shard_id + 1 < num_shards { 5u64 } else { 0u64 },
{
    if num_shards > 1 && (shard_id as u64) + 1 < (num_shards as u64) {
        5
    } else {
        0
    }
}

// ── Prefix commands ──────────────────────────────────────────────────────

/// Whether a character is white space (Unicode `White_Space`), as
/// `char::is_whitespace` says.
pub open spec fn is_ws(c: char) -> bool {
    let v = c as u32;
    ||| 9 <= v <= 13
    ||| v == 32
    ||| v == 0x85
    ||| v == 0xa0
    ||| v == 0x1680
    ||| 0x2000 <= v <= 0x200a
    ||| v == 0x2028
    ||| v == 0x2029
    ||| v == 0x202f
    ||| v == 0x205f
    ||| v == 0x3000
}

/// Whether a character is white space.
pub fn is_whitespace(c: char) -> (r: bool)
    ensures
        r == is_ws(c),
{
    let v = c as u32;
    (9 <= v && v <= 13) || v == 32 || v == 0x85 || v == 0xa0 || v == 0x1680 || (0x2000 <= v && v <= 0x200a)
        || v == 0x2028 || v == 0x2029 || v == 0x202f || v == 0x205f || v == 0x3000
}

/// The position of the first character at or after `i` that is not white
/// space (the end when there is none).
pub open spec fn skip_ws(s: Seq<char>, i: int) -> int
    decreases s.len() - i,
{
    if 0 <= i < s.len() && is_ws(s[i]) {
        skip_ws(s, i + 1)
    } else {
        i
    }
}

/// The position of the first white-space character at or after `i` (the
/// end when there is none).
pub open spec fn skip_word(s: Seq<char>, i: int) -> int
    decreases s.len() - i,
{
    if 0 <= i < s.len() && !is_ws(s[i]) {
        skip_word(s, i + 1)
    } else {
        i
    }
}

/// Skipping white space stops at the end or at a character that is not
/// white space, and passes only white space.
pub proof fn lemma_skip_ws(s: Seq<char>, i: int)
    requires
        0 <= i <= s.len(),
    ensures
        i <= skip_ws(s, i) <= s.len(),
        skip_ws(s, i) < s.len() ==> !is_ws(s[skip_ws(s, i)]),
        forall|k: int| i <= k < skip_ws(s, i) ==> is_ws(#[trigger] s[k]),
    decreases s.len() - i,
{
    if i < s.len() && is_ws(s[i]) {
        lemma_skip_ws(s, i + 1);
    }
}

/// Skipping a word stops at the end or at white space, and passes only
/// characters that are not white space.
pub proof fn lemma_skip_word(s: Seq<char>, i: int)
    requires
        0 <= i <= s.len(),
    ensures
        i <= skip_word(s, i) <= s.len(),
        skip_word(s, i) < s.len() ==> is_ws(s[skip_word(s, i)]),
        i < s.len() && !is_ws(s[i]) ==> skip_word(s, i) > i,
        forall|k: int| i <= k < skip_word(s, i) ==> !is_ws(#[trigger] s[k]),
    decreases s.len() - i,
{
    if i < s.len() && !is_ws(s[i]) {
        lemma_skip_word(s, i + 1);
    }
}

/// The white-space separated words of `s` from position `i` on, as
/// `str::split_whitespace` gives them.
pub open spec fn words_from(s: Seq<char>, i: int) -> Seq<Seq<char>>
    decreases s.len() - i,
{
    if 0 <= i <= s.len() {
        let a = skip_ws(s, i);
        proof {
            lemma_skip_ws(s, i);
            lemma_skip_word(s, a);
        }
        if a >= s.len() {
            Seq::empty()
        } else {
            let b = skip_word(s, a);
            seq![s.subrange(a, b)] + words_from(s, b)
        }
    } else {
        Seq::empty()
    }
}

/// Every word `split_whitespace` gives is non-empty and holds no white
/// space.
pub proof fn lemma_words_are_words(s: Seq<char>, i: int)
    requires
        0 <= i <= s.len(),
    ensures
        forall|k: int| 0 <= k < words_from(s, i).len() ==> {
            let w = #[trigger] words_from(s, i)[k];
            &&& w.len() > 0
            &&& forall|j: int| 0 <= j < w.len() ==> !is_ws(w[j])
        },
    decreases s.len() - i,
{
    let a = skip_ws(s, i);
    lemma_skip_ws(s, i);
    if a < s.len() {
        let b = skip_word(s, a);
        lemma_skip_word(s, a);
        lemma_words_are_words(s, b);
        let first = s.subrange(a, b);
        assert(words_from(s, i) == seq![first] + words_from(s, b));
        assert forall|k: int| 0 <= k < words_from(s, i).len() implies {
            let w = #[trigger] words_from(s, i)[k];
            &&& w.len() > 0
            &&& forall|j: int| 0 <= j < w.len() ==> !is_ws(w[j])
        } by {
            if k == 0 {
                assert(words_from(s, i)[0] == first);
                assert forall|j: int| 0 <= j < first.len() implies !is_ws(first[j]) by {
                    assert(first[j] == s[a + j]);
                }
            } else {
                assert(words_from(s, i)[k] == words_from(s, b)[k - 1]);
            }
        }
    }
}

/// The command a message invokes: when its content starts with `prefix`,
/// the first word after the prefix (leading white space skipped) is the
/// command's name and the white-space separated words after the character
/// that ends it are its arguments.
pub open spec fn prefix_command_spec(content: Seq<char>, prefix: Seq<char>) -> Option<(Seq<char>, Seq<Seq<char>>)> {
    if prefix.len() <= content.len() && content.subrange(0, prefix.len() as int) == prefix {
        let a = skip_ws(content, prefix.len() as int);
        let b = skip_word(content, a);
        let rest = if b < content.len() { b + 1 } else { b };
        Some((content.subrange(a, b), words_from(content, rest)))
    } else {
        None
    }
}

/// A prefix command found in a message.
#[derive(Debug, Clone)]
pub struct PrefixCommand {
    /// The command's name (without the prefix).
    pub name: String,
    /// The words that follow it.
    pub args: Vec<String>,
}

/// The texts of a list of strings.
pub open spec fn texts(v: Seq<String>) -> Seq<Seq<char>> {
    v.map_values(|s: String| s@)
}

fn string_of(cs: &Vec<char>, from: usize, to: usize) -> (r: String)
    requires
        from <= to <= cs@.len(),
    ensures
        r@ == cs@.subrange(from as int, to as int),
{
    let mut s = String::new();
    let mut i: usize = from;
    while i < to
        invariant
            from <= i <= to,
            to <= cs@.len(),
            s@ == cs@.subrange(from as int, i as int),
        decreases to - i,
    {
        push_char(&mut s, cs[i]);
        i = i + 1;
        assert(s@ =~= cs@.subrange(from as int, i as int));
    }
    s
}

fn skip_ws_exec(cs: &Vec<char>, i: usize) -> (r: usize)
    requires
        i <= cs@.len(),
    ensures
        r == skip_ws(cs@, i as int),
    decreases cs@.len() - i,
{
    if i < cs.len() && is_whitespace(cs[i]) {
        skip_ws_exec(cs, i + 1)
    } else {
        i
    }
}

fn skip_word_exec(cs: &Vec<char>, i: usize) -> (r: usize)
    requires
        i <= cs@.len(),
    ensures
        r == skip_word(cs@, i as int),
    decreases cs@.len() - i,
{
    if i < cs.len() && !is_whitespace(cs[i]) {
        skip_word_exec(cs, i + 1)
    } else {
        i
    }
}

fn words_exec(cs: &Vec<char>, i: usize) -> (r: Vec<String>)
    requires
        i <= cs@.len(),
    ensures
        texts(r@) == words_from(cs@, i as int),
{
    let mut out: Vec<String> = Vec::new();
    let mut pos: usize = i;
    let ghost done: Seq<Seq<char>> = Seq::empty();
    assert(texts(out@) =~= Seq::<Seq<char>>::empty());
    loop
        invariant
            i <= pos <= cs@.len(),
            texts(out@) + words_from(cs@, pos as int) == words_from(cs@, i as int),
        decreases cs@.len() - pos,
    {
        let a = skip_ws_exec(cs, pos);
        proof {
            lemma_skip_ws(cs@, pos as int);
        }
        if a >= cs.len() {
            assert(words_from(cs@, pos as int) == Seq::<Seq<char>>::empty());
            assert(texts(out@) + Seq::<Seq<char>>::empty() =~= texts(out@));
            return out;
        }
        let b = skip_word_exec(cs, a);
        proof {
            lemma_skip_word(cs@, a as int);
        }
        let w = string_of(cs, a, b);
        let ghost before = texts(out@);
        out.push(w);
        proof {
            assert(texts(out@) =~= before.push(cs@.subrange(a as int, b as int)));
            assert(words_from(cs@, pos as int) == seq![cs@.subrange(a as int, b as int)] + words_from(cs@, b as int));
            assert(texts(out@) + words_from(cs@, b as int) =~= before + words_from(cs@, pos as int));
        }
        pos = b;
    }
}

/// Find the prefix command a message's content invokes, if it starts with
/// `prefix`.
pub fn parse_prefix_command(content: &str, prefix: &str) -> (r: Option<PrefixCommand>)
    ensures
        match prefix_command_spec(content@, prefix@) {
            Some((name, args)) => r matches Some(c) && c.name@ == name && texts(c.args@) == args,
            None => r is None,
        },
{
    if !starts_with(content, prefix) {
        return None;
    }
    let cs = chars_of(content);
    let start = prefix.unicode_len();
    let a = skip_ws_exec(&cs, start);
    proof {
        lemma_skip_ws(cs@, start as int);
    }
    let b = skip_word_exec(&cs, a);
    proof {
        lemma_skip_word(cs@, a as int);
    }
    let name = string_of(&cs, a, b);
    let rest = if b < cs.len() { b + 1 } else { b };
    let args = words_exec(&cs, rest);
    Some(PrefixCommand { name, args })
}

/// The handler and the arguments that a message invokes: its prefix
/// command, when the content starts with the prefix and a handler is
/// registered under the command's name; `None` when the message is not a
/// command, and goes to the message handler.
pub fn prefix_command_handler<'a, H>(commands: &'a CommandRegistry<H>, content: &str, prefix: &str) -> (r: Option<(&'a H, Vec<String>)>)
    requires
        commands.wf(),
    ensures
        match prefix_command_spec(content@, prefix@) {
            Some((name, args)) => if commands.handlers().contains_key(name) {
                r matches Some((h, a)) && *h == commands.handlers()[name] && texts(a@) == args
            } else {
                r is None
            },
            None => r is None,
        },
{
    match parse_prefix_command(content, prefix) {
        Some(c) => match commands.get(c.name.as_str()) {
            Some(h) => Some((h, c.args)),
            None => None,
        },
        None => None,
    }
}

// ── Interaction routing ──────────────────────────────────────────────────

/// The position of the first module whose command names include `name`.
pub open spec fn first_module_with(modules: Seq<Vec<String>>, name: Seq<char>) -> Option<int> {
    if exists|i: int| 0 <= i < modules.len() && texts(modules[i]@).contains(name) {
        Some(choose|i: int|
            0 <= i < modules.len() && texts(modules[i]@).contains(name) && forall|j: int|
                0 <= j < i ==> !texts(#[trigger] modules[j]@).contains(name))
    } else {
        None
    }
}

/// Find the first module whose command names include `name`.
pub fn find_module(modules: &Vec<Vec<String>>, name: &str) -> (r: Option<usize>)
    ensures
        match r {
            Some(i) => i < modules@.len() && texts(modules@[i as int]@).contains(name@)
                && forall|j: int| 0 <= j < i ==> !texts(#[trigger] modules@[j]@).contains(name@),
            None => forall|j: int| 0 <= j < modules@.len() ==> !texts(#[trigger] modules@[j]@).contains(name@),
        },
{
    let n = modules.len();
    let mut i: usize = 0;
    while i < n
        invariant
            n == modules@.len(),
            i <= n,
            forall|j: int| 0 <= j < i ==> !texts(#[trigger] modules@[j]@).contains(name@),
        decreases n - i,
    {
        let names = &modules[i];
        let m = names.len();
        let mut k: usize = 0;
        while k < m
            invariant
                m == names@.len(),
                k <= m,
                n == modules@.len(),
                i < n,
                *names == modules@[i as int],
                forall|j: int| 0 <= j < i ==> !texts(#[trigger] modules@[j]@).contains(name@),
                forall|j: int| 0 <= j < k ==> (#[trigger] names@[j])@ != name@,
            decreases m - k,
        {
            if crate::text::str_eq(names[k].as_str(), name) {
                proof {
                    assert(texts(names@)[k as int] == name@);
                }
                return Some(i);
            }
            k = k + 1;
        }
        proof {
            if texts(names@).contains(name@) {
                let j = choose|j: int| 0 <= j < texts(names@).len() && texts(names@)[j] == name@;
                assert(names@[j]@ == name@);
            }
        }
        i = i + 1;
    }
    None
}

/// Where an interaction is delivered.
#[derive(Debug, Clone, Copy, PartialEq, Eq, Structural)]
pub enum InteractionRoute {
    /// A slash command: the module's interaction handler.
    SlashCommand(usize),
    /// A user or message command: the module's context-menu handler.
    ContextMenu(usize),
    /// An autocomplete request: the module's autocomplete handler.
    Autocomplete(usize),
    /// A component or modal: every module's component handler, in order.
    Components,
    /// The event handler's interaction callback.
    Handler,
}

/// The command names the modules provide, one list per module, in the
/// order the modules were registered.
pub struct ModuleCommands {
    pub slash: Vec<Vec<String>>,
    pub user: Vec<Vec<String>>,
    pub message: Vec<Vec<String>>,
}

/// Where an interaction of kind `kind`, invoking command `command` (its
/// kind and name, when it is an application command), is delivered.
pub open spec fn route_spec(kind: InteractionType, command: Option<(ApplicationCommandType, Seq<char>)>, m: ModuleCommands) -> InteractionRoute {
    match kind {
        InteractionType::ApplicationCommand => match command {
            Some((ApplicationCommandType::ChatInput, name)) => match first_module_with(m.slash@, name) {
                Some(i) => InteractionRoute::SlashCommand(i as usize),
                None => InteractionRoute::Handler,
            },
            Some((ApplicationCommandType::User, name)) => match first_module_with(m.user@, name) {
                Some(i) => InteractionRoute::ContextMenu(i as usize),
                None => InteractionRoute::Handler,
            },
            Some((ApplicationCommandType::Message, name)) => match first_module_with(m.message@, name) {
                Some(i) => InteractionRoute::ContextMenu(i as usize),
                None => InteractionRoute::Handler,
            },
            None => InteractionRoute::Handler,
        },
        InteractionType::ApplicationCommandAutocomplete => match command {
            Some((_, name)) => match first_module_with(m.slash@, name) {
                Some(i) => InteractionRoute::Autocomplete(i as usize),
                None => InteractionRoute::Handler,
            },
            None => InteractionRoute::Handler,
        },
        InteractionType::MessageComponent | InteractionType::ModalSubmit => InteractionRoute::Components,
        _ => InteractionRoute::Handler,
    }
}

/// The kind and name of the application command an interaction carries.
pub open spec fn invoked_command(i: Interaction) -> Option<(ApplicationCommandType, Seq<char>)> {
    match i.data {
        Some(InteractionData::ApplicationCommand(d)) => Some((d.kind, d.name@)),
        _ => None,
    }
}

proof fn lemma_find_is_first(modules: Seq<Vec<String>>, name: Seq<char>, r: Option<usize>)
    requires
        match r {
            Some(i) => i < modules.len() && texts(modules[i as int]@).contains(name)
                && forall|j: int| 0 <= j < i ==> !texts(#[trigger] modules[j]@).contains(name),
            None => forall|j: int| 0 <= j < modules.len() ==> !texts(#[trigger] modules[j]@).contains(name),
        },
    ensures
        match r {
            Some(i) => first_module_with(modules, name) == Some(i as int),
            None => first_module_with(modules, name) is None,
        },
{
    if let Some(i) = r {
        let k = choose|k: int|
            0 <= k < modules.len() && texts(modules[k]@).contains(name) && forall|j: int|
                0 <= j < k ==> !texts(#[trigger] modules[j]@).contains(name);
        assert(0 <= i < modules.len() && texts(modules[i as int]@).contains(name));
        if k < i {
            assert(!texts(modules[k]@).contains(name));
        }
        if k > i {
            assert(!texts(modules[i as int]@).contains(name));
        }
    }
}

/// Decide where an interaction is delivered.
///
/// A slash command goes to the first module that provides a slash command
/// of its name, a user or message command to the first module that
/// provides such a command of its name (its context-menu handler), and an
/// autocomplete request to the first module with a slash command of its
/// name; when no module matches, or the interaction carries no command,
/// the event handler gets it.  Components and modal submissions go to
/// every module; anything else (such as a ping) to the event handler.
pub fn route_interaction(interaction: &Interaction, modules: &ModuleCommands) -> (r: InteractionRoute)
    ensures
        r == route_spec(interaction.kind, invoked_command(*interaction), *modules),
{
    match interaction.kind {
        InteractionType::ApplicationCommand => match interaction.command_data() {
            Some(data) => {
                let lists = match data.kind {
                    ApplicationCommandType::ChatInput => &modules.slash,
                    ApplicationCommandType::User => &modules.user,
                    ApplicationCommandType::Message => &modules.message,
                };
                let found = find_module(lists, data.name.as_str());
                proof {
                    lemma_find_is_first(lists@, data.name@, found);
                }
                match found {
                    Some(i) => match data.kind {
                        ApplicationCommandType::ChatInput => InteractionRoute::SlashCommand(i),
                        _ => InteractionRoute::ContextMenu(i),
                    },
                    None => InteractionRoute::Handler,
                }
            },
            None => InteractionRoute::Handler,
        },
        InteractionType::ApplicationCommandAutocomplete => match interaction.command_data() {
            Some(data) => {
                let found = find_module(&modules.slash, data.name.as_str());
                proof {
                    lemma_find_is_first(modules.slash@, data.name@, found);
                }
                match found {
                    Some(i) => InteractionRoute::Autocomplete(i),
                    None => InteractionRoute::Handler,
                }
            },
            None => InteractionRoute::Handler,
        },
        InteractionType::MessageComponent | InteractionType::ModalSubmit => InteractionRoute::Components,
        _ => InteractionRoute::Handler,
    }
}

} // verus!
