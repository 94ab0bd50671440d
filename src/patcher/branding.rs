//! Renaming the product, its paid tier and its servers.
use crate::patcher::Patch;
use crate::text::{chars_of, contains, holds, replace_chars, replace_text, replaced, string_of};
use vstd::prelude::*;

verus! {

/// Renames the paid tier "Nitro" to "<instance> Premium" or "Premium".
pub struct NitroRebranding {
    pub instance_name: String,
}

impl NitroRebranding {
    pub fn new(instance_name: &str) -> (r: Self)
        ensures
            r.instance_name@ == instance_name@,
    {
        NitroRebranding { instance_name: instance_name.to_owned() }
    }
}

pub open spec fn nitro_rebranded(name: Seq<char>, content: Seq<char>) -> Seq<char> {
    if !contains(content, "Nitro"@) {
        content
    } else {
        let c = replaced(content, "Discord Nitro"@, name + " Premium"@);
        let c = replaced(c, "\"Nitro\""@, "\"Premium\""@);
        let c = replaced(c, "Nitro "@, "Premium "@);
        let c = replaced(c, " Nitro"@, " Premium"@);
        let c = replaced(c, "[Nitro]"@, "[Premium]"@);
        let c = replaced(c, "*Nitro*"@, "*Premium*"@);
        replaced(c, "\"Nitro. "@, "\"Premium. "@)
    }
}

/// `a` followed by `b`.
fn joined(a: &str, b: &str) -> (r: Vec<char>)
    ensures
        r@ == a@ + b@,
{
    let mut x = chars_of(a);
    let mut y = chars_of(b);
    x.append(&mut y);
    x
}

/// `a`, then `b`, then `c`.
fn joined3(a: &str, b: &str, c: &str) -> (r: Vec<char>)
    ensures
        r@ == a@ + b@ + c@,
{
    let mut x = joined(a, b);
    let mut z = chars_of(c);
    x.append(&mut z);
    x
}

impl Patch for NitroRebranding {
    open spec fn transform(&self, content: Seq<char>) -> Seq<char> {
        nitro_rebranded(self.instance_name@, content)
    }

    fn name(&self) -> &'static str {
        "nitro_rebranding"
    }

    fn apply(&self, content: &str) -> (r: String) {
        let c = chars_of(content);
        if !holds(&c, "Nitro") {
            return string_of(&c);
        }
        let from = chars_of("Discord Nitro");
        let to = joined(self.instance_name.as_str(), " Premium");
        let c = replace_chars(&c, &from, &to);
        let c = replace_text(&c, "\"Nitro\"", "\"Premium\"");
        let c = replace_text(&c, "Nitro ", "Premium ");
        let c = replace_text(&c, " Nitro", " Premium");
        let c = replace_text(&c, "[Nitro]", "[Premium]");
        let c = replace_text(&c, "*Nitro*", "*Premium*");
        let c = replace_text(&c, "\"Nitro. ", "\"Premium. ");
        string_of(&c)
    }
}

/// Renames the product "Discord" to the instance's name where it stands as a word.
pub struct DiscordRebranding {
    pub instance_name: String,
}

impl DiscordRebranding {
    pub fn new(instance_name: &str) -> (r: Self)
        ensures
            r.instance_name@ == instance_name@,
    {
        DiscordRebranding { instance_name: instance_name.to_owned() }
    }
}

pub open spec fn discord_rebranded(name: Seq<char>, content: Seq<char>) -> Seq<char> {
    if !contains(content, "Discord"@) {
        content
    } else {
        let c = replaced(content, " Discord "@, " "@ + name + " "@);
        let c = replaced(c, "Discord "@, name + " "@);
        let c = replaced(c, " Discord"@, " "@ + name);
        let c = replaced(c, "Discord's"@, name + "'s"@);
        replaced(c, "*Discord*"@, "*"@ + name + "*"@)
    }
}

impl Patch for DiscordRebranding {
    open spec fn transform(&self, content: Seq<char>) -> Seq<char> {
        discord_rebranded(self.instance_name@, content)
    }

    fn name(&self) -> &'static str {
        "discord_rebranding"
    }

    fn apply(&self, content: &str) -> (r: String) {
        let c = chars_of(content);
        if !holds(&c, "Discord") {
            return string_of(&c);
        }
        let name = self.instance_name.as_str();
        let from = chars_of(" Discord ");
        let to = joined3(" ", name, " ");
        let c = replace_chars(&c, &from, &to);
        let from = chars_of("Discord ");
        let to = joined(name, " ");
        let c = replace_chars(&c, &from, &to);
        let from = chars_of(" Discord");
        let to = joined(" ", name);
        let c = replace_chars(&c, &from, &to);
        let from = chars_of("Discord's");
        let to = joined(name, "'s");
        let c = replace_chars(&c, &from, &to);
        let from = chars_of("*Discord*");
        let to = joined3("*", name, "*");
        let c = replace_chars(&c, &from, &to);
        string_of(&c)
    }
}

pub const TITLE_MARKER: &'static str = "isPlatformEmbedded";

pub const TITLE_FROM: &'static str = "isPlatformEmbedded?void 0:\"Discord\"";

pub const TITLE_PREFIX: &'static str = "isPlatformEmbedded?void 0:\"";

/// Puts the instance's name in the window title.
pub struct TitleRebranding {
    pub instance_name: String,
}

impl TitleRebranding {
    pub fn new(instance_name: &str) -> (r: Self)
        ensures
            r.instance_name@ == instance_name@,
    {
        TitleRebranding { instance_name: instance_name.to_owned() }
    }
}

pub open spec fn title_rebranded(name: Seq<char>, content: Seq<char>) -> Seq<char> {
    if !contains(content, TITLE_MARKER@) {
        content
    } else {
        replaced(content, TITLE_FROM@, TITLE_PREFIX@ + name + "\""@)
    }
}

impl Patch for TitleRebranding {
    open spec fn transform(&self, content: Seq<char>) -> Seq<char> {
        title_rebranded(self.instance_name@, content)
    }

    fn name(&self) -> &'static str {
        "title_rebranding"
    }

    fn apply(&self, content: &str) -> (r: String) {
        let c = chars_of(content);
        if !holds(&c, TITLE_MARKER) {
            return string_of(&c);
        }
        let from = chars_of(TITLE_FROM);
        let to = joined3(TITLE_PREFIX, self.instance_name.as_str(), "\"");
        let c = replace_chars(&c, &from, &to);
        string_of(&c)
    }
}

/// Says "Guild" for "Server" in the interface's texts.
pub struct ServerToGuild;

/// The replacements, in order: each capitalised one followed by its lower-case form.
pub open spec fn guild_pairs() -> Seq<(Seq<char>, Seq<char>)> {
    seq![
        ("\"Server\""@, "\"Guild\""@),
        ("\"server\""@, "\"guild\""@),
        ("\"Server "@, "\"Guild "@),
        ("\"server "@, "\"guild "@),
        (" Server\""@, " Guild\""@),
        (" server\""@, " guild\""@),
        (" Server "@, " Guild "@),
        (" server "@, " guild "@),
        ("\"Server.\""@, "\"Guild.\""@),
        ("\"server.\""@, "\"guild.\""@),
        (" Server.\""@, " Guild.\""@),
        (" server.\""@, " guild.\""@),
        ("\"Server,\""@, "\"Guild,\""@),
        ("\"server,\""@, "\"guild,\""@),
        (" Server,\""@, " Guild,\""@),
        (" server,\""@, " guild,\""@),
        (" Server,"@, " Guild,"@),
        (" server,"@, " guild,"@),
        ("\"Servers\""@, "\"Guilds\""@),
        ("\"servers\""@, "\"guilds\""@),
        ("\"Servers "@, "\"Guilds "@),
        ("\"servers "@, "\"guilds "@),
        (" Servers\""@, " Guilds\""@),
        (" servers\""@, " guilds\""@),
        (" Servers "@, " Guilds "@),
        (" servers "@, " guilds "@),
        ("\"Servers.\""@, "\"Guilds.\""@),
        ("\"servers.\""@, "\"guilds.\""@),
        (" Servers.\""@, " Guilds.\""@),
        (" servers.\""@, " guilds.\""@),
        ("\"Servers,\""@, "\"Guilds,\""@),
        ("\"servers,\""@, "\"guilds,\""@),
        (" Servers,\""@, " Guilds,\""@),
        (" servers,\""@, " guilds,\""@),
        (" Servers,"@, " Guilds,"@),
        (" servers,"@, " guilds,"@),
        ("\nServers"@, "\nGuilds"@),
        ("\nservers"@, "\nguilds"@)
    ]
}

/// `content` after the first `k` replacements of `pairs`, in order.
pub open spec fn apply_pairs(content: Seq<char>, pairs: Seq<(Seq<char>, Seq<char>)>, k: int) -> Seq<
    char,
>
    decreases k,
{
    if k <= 0 {
        content
    } else {
        replaced(apply_pairs(content, pairs, k - 1), pairs[k - 1].0, pairs[k - 1].1)
    }
}

pub open spec fn server_to_guild(content: Seq<char>) -> Seq<char> {
    if !contains(content, "Server"@) && !contains(content, "server"@) {
        content
    } else {
        apply_pairs(content, guild_pairs(), guild_pairs().len() as int)
    }
}

pub open spec fn pair_views(v: Seq<(&'static str, &'static str)>) -> Seq<(Seq<char>, Seq<char>)> {
    v.map_values(|p: (&'static str, &'static str)| (p.0@, p.1@))
}

fn guild_pair_list() -> (r: Vec<(&'static str, &'static str)>)
    ensures
        pair_views(r@) == guild_pairs(),
{
    let r = vec![
        ("\"Server\"", "\"Guild\""),
        ("\"server\"", "\"guild\""),
        ("\"Server ", "\"Guild "),
        ("\"server ", "\"guild "),
        (" Server\"", " Guild\""),
        (" server\"", " guild\""),
        (" Server ", " Guild "),
        (" server ", " guild "),
        ("\"Server.\"", "\"Guild.\""),
        ("\"server.\"", "\"guild.\""),
        (" Server.\"", " Guild.\""),
        (" server.\"", " guild.\""),
        ("\"Server,\"", "\"Guild,\""),
        ("\"server,\"", "\"guild,\""),
        (" Server,\"", " Guild,\""),
        (" server,\"", " guild,\""),
        (" Server,", " Guild,"),
        (" server,", " guild,"),
        ("\"Servers\"", "\"Guilds\""),
        ("\"servers\"", "\"guilds\""),
        ("\"Servers ", "\"Guilds "),
        ("\"servers ", "\"guilds "),
        (" Servers\"", " Guilds\""),
        (" servers\"", " guilds\""),
        (" Servers ", " Guilds "),
        (" servers ", " guilds "),
        ("\"Servers.\"", "\"Guilds.\""),
        ("\"servers.\"", "\"guilds.\""),
        (" Servers.\"", " Guilds.\""),
        (" servers.\"", " guilds.\""),
        ("\"Servers,\"", "\"Guilds,\""),
        ("\"servers,\"", "\"guilds,\""),
        (" Servers,\"", " Guilds,\""),
        (" servers,\"", " guilds,\""),
        (" Servers,", " Guilds,"),
        (" servers,", " guilds,"),
        ("\nServers", "\nGuilds"),
        ("\nservers", "\nguilds")
    ];
    assert(pair_views(r@) =~= guild_pairs());
    r
}

impl Patch for ServerToGuild {
    open spec fn transform(&self, content: Seq<char>) -> Seq<char> {
        server_to_guild(content)
    }

    fn name(&self) -> &'static str {
        "server_to_guild"
    }

    fn apply(&self, content: &str) -> (r: String) {
        let c = chars_of(content);
        if !holds(&c, "Server") && !holds(&c, "server") {
            return string_of(&c);
        }
        let pairs = guild_pair_list();
        let mut r = c;
        let mut i: usize = 0;
        while i < pairs.len()
            invariant
                i <= pairs.len(),
                pair_views(pairs@) == guild_pairs(),
                r@ == apply_pairs(content@, guild_pairs(), i as int),
            decreases pairs.len() - i,
        {
            let (from, to) = pairs[i];
            assert(guild_pairs()[i as int] == (from@, to@));
            r = replace_text(&r, from, to);
            i = i + 1;
        }
        string_of(&r)
    }
}

} // verus!
