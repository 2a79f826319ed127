//! The server's configuration and how it is read from the deployment file.

use vstd::prelude::*;
use vstd::string::*;

verus! {

/// Declares toml's map type, which backs `toml::Table`.
#[verifier::external_type_specification]
#[verifier::external_body]
#[verifier::reject_recursive_types(K)]
#[verifier::reject_recursive_types(V)]
pub struct ExTomlMap<K, V>(toml::map::Map<K, V>);

/// Declares toml's value type.
#[verifier::external_type_specification]
#[verifier::external_body]
pub struct ExTomlValue(toml::Value);

/// The table that toml parses from the text `content`, if it parses.
pub uninterp spec fn toml_document(content: Seq<char>) -> Option<toml::Table>;

/// The value that `table` holds under `key`, if any.
pub uninterp spec fn toml_entry(table: toml::Table, key: Seq<char>) -> Option<toml::Value>;

/// The table that `value` is, if it is one.
pub uninterp spec fn toml_subtable(value: toml::Value) -> Option<toml::Table>;

/// How toml renders `value` as text.
pub uninterp spec fn toml_rendering(value: toml::Value) -> Seq<char>;

/// Calls `parse::<toml::Table>()` on `content`; a parse error becomes `None`.
/// Claimed: the result is `toml_document(content)`, a function of the text.
#[verifier::external_body]
fn parse_toml_table(content: &str) -> (r: Option<toml::Table>)
    ensures
        r == toml_document(content@),
{
    content.parse::<toml::Table>().ok()
}

/// Calls `toml::Table::get` with `key`. Claimed: the result is
/// `toml_entry(table, key)`.
#[verifier::external_body]
fn toml_get<'a>(table: &'a toml::Table, key: &str) -> (r: Option<&'a toml::Value>)
    ensures
        match r {
            Some(v) => toml_entry(*table, key@) == Some(*v),
            None => toml_entry(*table, key@) is None,
        },
{
    table.get(key)
}

/// Calls `toml::Value::as_table`. Claimed: the result is
/// `toml_subtable(value)`.
#[verifier::external_body]
fn toml_as_table<'a>(value: &'a toml::Value) -> (r: Option<&'a toml::Table>)
    ensures
        match r {
            Some(t) => toml_subtable(*value) == Some(*t),
            None => toml_subtable(*value) is None,
        },
{
    value.as_table()
}

/// Calls `to_string` on a `toml::Value` (its `Display`). Claimed: the text
/// is `toml_rendering(value)`. For a string value toml renders it quoted.
#[verifier::external_body]
fn toml_to_string(value: &toml::Value) -> (r: String)
    ensures
        r@ == toml_rendering(*value),
{
    value.to_string()
}

/// The rendering of the value at `table[k1][k2]`, where `table[k1]` must be
/// a table.
pub open spec fn text_at2(table: toml::Table, k1: Seq<char>, k2: Seq<char>) -> Option<Seq<char>> {
    match toml_entry(table, k1) {
        Some(v1) => match toml_subtable(v1) {
            Some(t1) => match toml_entry(t1, k2) {
                Some(v) => Some(toml_rendering(v)),
                None => None,
            },
            None => None,
        },
        None => None,
    }
}

/// The rendering of the value at `table[k1][k2][k3]`, where `table[k1]` and
/// `table[k1][k2]` must be tables.
pub open spec fn text_at3(table: toml::Table, k1: Seq<char>, k2: Seq<char>, k3: Seq<char>) -> Option<
    Seq<char>,
> {
    match toml_entry(table, k1) {
        Some(v1) => match toml_subtable(v1) {
            Some(t1) => text_at2(t1, k2, k3),
            None => None,
        },
        None => None,
    }
}

/// `found` when there is one, else `base`.
pub open spec fn overridden(base: Seq<char>, found: Option<Seq<char>>) -> Seq<char> {
    match found {
        Some(t) => t,
        None => base,
    }
}

/// The server's configuration: where the game chat's socket is, the chat
/// channel it belongs to, and the origins of the web client in development
/// and in production.
#[derive(Debug)]
pub struct Config {
    socket_path: String,
    channel_id: u64,
    pub dev_url: String,
    pub prod_url: String,
}

/// A configuration as plain values.
pub struct ConfigView {
    pub socket_path: Seq<char>,
    pub channel_id: u64,
    pub dev_url: Seq<char>,
    pub prod_url: Seq<char>,
}

impl View for Config {
    type V = ConfigView;

    closed spec fn view(&self) -> ConfigView {
        ConfigView {
            socket_path: self.socket_path@,
            channel_id: self.channel_id,
            dev_url: self.dev_url@,
            prod_url: self.prod_url@,
        }
    }
}

/// The configuration used where the deployment file says nothing.
pub open spec fn default_config() -> ConfigView {
    ConfigView {
        socket_path: "/tmp/minecraft_chat/chat.sock"@,
        channel_id: 1315044374127841374,
        dev_url: "http://localhost:8080"@,
        prod_url: "https://zxq5.dev"@,
    }
}

/// The configuration that the deployment file's text `content` gives (none
/// when the file could not be read): the defaults, with the socket path from
/// `chatsync.socket_path` and the origins from `server.dev.url` and
/// `server.prod.url` where the file has them, each as toml renders it.
pub open spec fn loaded_config(content: Option<Seq<char>>) -> ConfigView {
    let d = default_config();
    match content {
        None => d,
        Some(c) => match toml_document(c) {
            None => d,
            Some(t) => ConfigView {
                socket_path: overridden(d.socket_path, text_at2(t, "chatsync"@, "socket_path"@)),
                channel_id: d.channel_id,
                dev_url: overridden(d.dev_url, text_at3(t, "server"@, "dev"@, "url"@)),
                prod_url: overridden(d.prod_url, text_at3(t, "server"@, "prod"@, "url"@)),
            },
        },
    }
}

/// A deployment file that cannot be read, or whose text toml does not
/// parse, leaves the whole configuration at its defaults; one that parses
/// keeps the default channel in every case.
pub proof fn lemma_load_falls_back(content: Seq<char>)
    ensures
        loaded_config(None) == default_config(),
        toml_document(content) is None ==> loaded_config(Some(content)) == default_config(),
        loaded_config(Some(content)).channel_id == default_config().channel_id,
{
}

/// A deployment file that toml parses into `t` configures the socket path
/// from `chatsync.socket_path` alone and each origin from its own
/// `server.<stage>.url` alone, falling back to the built-in values where the
/// file has none; the channel is always the built-in one.
pub proof fn lemma_load_reads_each_key(c: Seq<char>, t: toml::Table)
    requires
        toml_document(c) == Some(t),
    ensures
        loaded_config(Some(c)).socket_path == (match text_at2(t, "chatsync"@, "socket_path"@) {
            Some(x) => x,
            None => "/tmp/minecraft_chat/chat.sock"@,
        }),
        loaded_config(Some(c)).dev_url == (match text_at3(t, "server"@, "dev"@, "url"@) {
            Some(x) => x,
            None => "http://localhost:8080"@,
        }),
        loaded_config(Some(c)).prod_url == (match text_at3(t, "server"@, "prod"@, "url"@) {
            Some(x) => x,
            None => "https://zxq5.dev"@,
        }),
        loaded_config(Some(c)).channel_id == 1315044374127841374,
{
}

/// Two deployment files whose `chatsync` entries agree configure the same
/// socket path, whatever else they hold.
pub proof fn lemma_socket_path_only_from_chatsync(c1: Seq<char>, t1: toml::Table, c2: Seq<char>, t2: toml::Table)
    requires
        toml_document(c1) == Some(t1),
        toml_document(c2) == Some(t2),
        toml_entry(t1, "chatsync"@) == toml_entry(t2, "chatsync"@),
    ensures
        loaded_config(Some(c1)).socket_path == loaded_config(Some(c2)).socket_path,
{
}

fn lookup2(table: &toml::Table, k1: &str, k2: &str) -> (r: Option<String>)
    ensures
        match r {
            Some(s) => text_at2(*table, k1@, k2@) == Some(s@),
            None => text_at2(*table, k1@, k2@) is None,
        },
{
    if let Some(v1) = toml_get(table, k1) {
        if let Some(t1) = toml_as_table(v1) {
            if let Some(v) = toml_get(t1, k2) {
                return Some(toml_to_string(v));
            }
        }
    }
    None
}

fn lookup3(table: &toml::Table, k1: &str, k2: &str, k3: &str) -> (r: Option<String>)
    ensures
        match r {
            Some(s) => text_at3(*table, k1@, k2@, k3@) == Some(s@),
            None => text_at3(*table, k1@, k2@, k3@) is None,
        },
{
    if let Some(v1) = toml_get(table, k1) {
        if let Some(t1) = toml_as_table(v1) {
            return lookup2(t1, k2, k3);
        }
    }
    None
}

impl Config {
    /// Where the game chat's socket is.
    pub fn socket_path(&self) -> (r: &String)
        ensures
            r@ == self@.socket_path,
    {
        &self.socket_path
    }

    /// The origin of the web client in development.
    pub fn dev_url(&self) -> (r: &String)
        ensures
            r@ == self@.dev_url,
    {
        &self.dev_url
    }

    /// The origin of the web client in production.
    pub fn prod_url(&self) -> (r: &String)
        ensures
            r@ == self@.prod_url,
    {
        &self.prod_url
    }

    /// The chat channel of the game chat.
    pub fn channel_id(&self) -> (r: u64)
        ensures
            r == self@.channel_id,
    {
        self.channel_id
    }

    /// The configuration from the text of the deployment file, or `None`
    /// when the file could not be read; text that toml does not parse gives
    /// the defaults.
    pub fn load(content: Option<&str>) -> (c: Config)
        ensures
            c@ == loaded_config(
                match content {
                    Some(s) => Some(s@),
                    None => None,
                },
            ),
            match content {
                None => c@ == default_config(),
                Some(s) => match toml_document(s@) {
                    None => c@ == default_config(),
                    Some(t) => {
                        &&& c@.socket_path == (match text_at2(t, "chatsync"@, "socket_path"@) {
                            Some(x) => x,
                            None => "/tmp/minecraft_chat/chat.sock"@,
                        })
                        &&& c@.dev_url == (match text_at3(t, "server"@, "dev"@, "url"@) {
                            Some(x) => x,
                            None => "http://localhost:8080"@,
                        })
                        &&& c@.prod_url == (match text_at3(t, "server"@, "prod"@, "url"@) {
                            Some(x) => x,
                            None => "https://zxq5.dev"@,
                        })
                        &&& c@.channel_id == 1315044374127841374
                    },
                },
            },
    {
        let text = match content {
            Some(text) => text,
            None => {
                return Config::default();
            },
        };
        let table = match parse_toml_table(text) {
            Some(table) => table,
            None => {
                return Config::default();
            },
        };
        Config::from_table(&table)
    }

    /// The configuration that a parsed deployment file gives: the defaults,
    /// with the values that the table holds at `chatsync.socket_path`,
    /// `server.dev.url` and `server.prod.url`, rendered by toml.
    pub fn from_table(table: &toml::Table) -> (c: Config)
        ensures
            c@ == (ConfigView {
                socket_path: overridden(
                    default_config().socket_path,
                    text_at2(*table, "chatsync"@, "socket_path"@),
                ),
                channel_id: default_config().channel_id,
                dev_url: overridden(default_config().dev_url, text_at3(*table, "server"@, "dev"@, "url"@)),
                prod_url: overridden(
                    default_config().prod_url,
                    text_at3(*table, "server"@, "prod"@, "url"@),
                ),
            }),
    {
        let mut config = Config::default();
        if let Some(path) = lookup2(table, "chatsync", "socket_path") {
            config.socket_path = path;
        }
        if let Some(url) = lookup3(table, "server", "dev", "url") {
            config.dev_url = url;
        }
        if let Some(url) = lookup3(table, "server", "prod", "url") {
            config.prod_url = url;
        }
        config
    }
}

impl Default for Config {
    fn default() -> (c: Config)
        ensures
            c@ == default_config(),
    {
        Config {
            socket_path: String::from_str("/tmp/minecraft_chat/chat.sock"),
            channel_id: 1315044374127841374,
            dev_url: String::from_str("http://localhost:8080"),
            prod_url: String::from_str("https://zxq5.dev"),
        }
    }
}

} // verus!
