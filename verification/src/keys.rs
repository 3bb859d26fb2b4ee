//! Redis key layout shared by the signal engine, the decision layer and the
//! execution engine: `{prefix}:{SYMBOL}` with the symbol upper-cased, and the
//! handles that carry a prefix and a parsed connection URL.

use vstd::prelude::*;
use vstd::string::*;
use vstd::utf8::*;
use crate::text::{ascii_upper, concat, to_upper, unicode_upper};

verus! {

/// Declares `redis::Client`: parsed connection settings, opaque here.
#[verifier::external_type_specification]
#[verifier::external_body]
pub struct ExRedisClient(redis::Client);

/// Declares `redis::RedisError`, opaque here.
#[verifier::external_type_specification]
#[verifier::external_body]
pub struct ExRedisError(redis::RedisError);

/// Whether `redis::Client::open` accepts a URL: it parses with the `url`
/// crate, has a `redis`, `rediss`, `unix` or `redis+unix` scheme, and carries
/// what that scheme needs (a host; a path; TLS support built in). It depends
/// on the URL alone, for a given build of the `redis` crate.
pub uninterp spec fn redis_url_opens(url: Seq<char>) -> bool;

/// Calls `redis::Client::open`, which parses the URL into connection
/// settings and opens no connection. It succeeds exactly on the URLs that
/// `redis_url_opens` names; which those are is not spelled out, as it rests on
/// the URL grammar of the `redis` and `url` crates.
#[verifier::external_body]
fn open_client(redis_url: &str) -> (r: Result<redis::Client, redis::RedisError>)
    ensures
        r is Ok <==> redis_url_opens(redis_url@),
{
    redis::Client::open(redis_url)
}

/// The key of a symbol under a prefix: `{prefix}:{SYMBOL}`.
pub open spec fn symbol_key(prefix: Seq<char>, symbol: Seq<char>) -> Seq<char> {
    prefix + ":"@ + unicode_upper(symbol)
}

/// `{prefix}:{SYMBOL}`, the symbol upper-cased.
pub fn prefixed_symbol_key(prefix: &str, symbol: &str) -> (k: String)
    ensures
        k@ == symbol_key(prefix@, symbol@),
        is_ascii_chars(symbol@) ==> k@ == prefix@ + ":"@ + ascii_upper(symbol@),
{
    let mut k = concat(prefix, ":");
    let upper = to_upper(symbol);
    k.append(upper.as_str());
    k
}

/// `{prefix}:{name}`, the name kept as given.
pub fn prefixed_key(prefix: &str, name: &str) -> (k: String)
    ensures
        k@ == prefix@ + ":"@ + name@,
{
    let mut k = concat(prefix, ":");
    k.append(name);
    k
}

/// The key under which the execution engine records a symbol's open position.
pub fn position_key(symbol: &str) -> (k: String)
    ensures
        k@ == "market:position:"@ + symbol@,
{
    let k = prefixed_key("market:position", symbol);
    proof {
        reveal_strlit("market:position:");
        reveal_strlit("market:position");
        reveal_strlit(":");
        assert("market:position"@ + ":"@ =~= "market:position:"@);
    }
    k
}

/// The prefix in use: the given one, or the default.
pub open spec fn prefix_or(given: Option<&str>, default: Seq<char>) -> Seq<char> {
    match given {
        Some(p) => p@,
        None => default,
    }
}

fn prefix_or_default(given: Option<&str>, default: &str) -> (p: String)
    ensures
        p@ == prefix_or(given, default@),
{
    match given {
        Some(p) => String::from_str(p),
        None => String::from_str(default),
    }
}

/// Where the decision layer reads signals: `market:signal:{SYMBOL}` by default.
pub struct SignalConsumer {
    key_prefix: String,
}

impl SignalConsumer {
    /// The key prefix.
    pub closed spec fn prefix(&self) -> Seq<char> {
        self.key_prefix@
    }

    /// A consumer with the given prefix, or `market:signal`.
    pub fn new(key_prefix: Option<&str>) -> (c: Self)
        ensures
            c.prefix() == prefix_or(key_prefix, "market:signal"@),
    {
        SignalConsumer { key_prefix: prefix_or_default(key_prefix, "market:signal") }
    }

    /// The Redis key of a symbol's signal.
    pub fn get_signal_key(&self, symbol: &str) -> (k: String)
        ensures
            k@ == symbol_key(self.prefix(), symbol@),
            is_ascii_chars(symbol@) ==> k@ == self.prefix() + ":"@ + ascii_upper(symbol@),
    {
        prefixed_symbol_key(self.key_prefix.as_str(), symbol)
    }
}

/// Where the decision layer pushes commands: `execution:queue:{SYMBOL}` by default.
pub struct CommandDispatcher {
    key_prefix: String,
}

impl CommandDispatcher {
    /// The key prefix.
    pub closed spec fn prefix(&self) -> Seq<char> {
        self.key_prefix@
    }

    /// A dispatcher with the given prefix, or `execution:queue`.
    pub fn new(key_prefix: Option<&str>) -> (d: Self)
        ensures
            d.prefix() == prefix_or(key_prefix, "execution:queue"@),
    {
        CommandDispatcher { key_prefix: prefix_or_default(key_prefix, "execution:queue") }
    }

    /// The Redis key of a symbol's execution queue.
    pub fn get_queue_key(&self, symbol: &str) -> (k: String)
        ensures
            k@ == symbol_key(self.prefix(), symbol@),
            is_ascii_chars(symbol@) ==> k@ == self.prefix() + ":"@ + ascii_upper(symbol@),
    {
        prefixed_symbol_key(self.key_prefix.as_str(), symbol)
    }
}

/// A Redis URL that did not parse.
#[derive(Debug)]
pub struct ClientError {
    /// The URL that was given.
    pub redis_url: String,
}

/// The execution engine's view of the command queues: `execution:queue:{SYMBOL}`.
pub struct RedisListener {
    client: redis::Client,
    redis_url: String,
    key_prefix: String,
}

impl RedisListener {
    /// The key prefix.
    pub closed spec fn prefix(&self) -> Seq<char> {
        self.key_prefix@
    }

    /// The connection settings held, as parsed from the URL.
    pub closed spec fn connection(&self) -> redis::Client {
        self.client
    }

    /// The URL the connection settings were parsed from.
    pub closed spec fn url(&self) -> Seq<char> {
        self.redis_url@
    }

    /// A listener for the given Redis URL, with the prefix `execution:queue`;
    /// an error when the URL does not parse.
    pub fn new(redis_url: &str) -> (r: Result<Self, ClientError>)
        ensures
            r is Ok <==> redis_url_opens(redis_url@),
            r matches Ok(l) ==> l.prefix() == "execution:queue"@ && l.url() == redis_url@,
            r matches Err(e) ==> e.redis_url@ == redis_url@,
    {
        match open_client(redis_url) {
            Ok(client) => Ok(
                RedisListener {
                    client,
                    redis_url: String::from_str(redis_url),
                    key_prefix: String::from_str("execution:queue"),
                },
            ),
            Err(_) => Err(ClientError { redis_url: String::from_str(redis_url) }),
        }
    }

    /// The Redis key of a symbol's queue.
    pub fn get_queue_key(&self, symbol: &str) -> (k: String)
        ensures
            k@ == symbol_key(self.prefix(), symbol@),
            is_ascii_chars(symbol@) ==> k@ == self.prefix() + ":"@ + ascii_upper(symbol@),
    {
        prefixed_symbol_key(self.key_prefix.as_str(), symbol)
    }

    /// The parsed connection settings: the ones held.
    pub fn client(&self) -> (c: &redis::Client)
        ensures
            *c == self.connection(),
    {
        &self.client
    }
}

/// Where the signal engine publishes signals: `market:signal:{SYMBOL}` by default.
pub struct RedisSignalStore {
    client: redis::Client,
    redis_url: String,
    key_prefix: String,
}

impl RedisSignalStore {
    /// The key prefix.
    pub closed spec fn prefix(&self) -> Seq<char> {
        self.key_prefix@
    }

    /// The connection settings held, as parsed from the URL.
    pub closed spec fn connection(&self) -> redis::Client {
        self.client
    }

    /// The URL the connection settings were parsed from.
    pub closed spec fn url(&self) -> Seq<char> {
        self.redis_url@
    }

    /// A store for the given Redis URL and prefix (`market:signal` when none
    /// is given); an error when the URL does not parse.
    pub fn new(redis_url: &str, key_prefix: Option<&str>) -> (r: Result<Self, ClientError>)
        ensures
            r is Ok <==> redis_url_opens(redis_url@),
            r matches Ok(s) ==> s.prefix() == prefix_or(key_prefix, "market:signal"@) && s.url()
                == redis_url@,
            r matches Err(e) ==> e.redis_url@ == redis_url@,
    {
        match open_client(redis_url) {
            Ok(client) => Ok(
                RedisSignalStore {
                    client,
                    redis_url: String::from_str(redis_url),
                    key_prefix: prefix_or_default(key_prefix, "market:signal"),
                },
            ),
            Err(_) => Err(ClientError { redis_url: String::from_str(redis_url) }),
        }
    }

    /// The Redis key of a symbol's signal.
    pub fn get_signal_key(&self, symbol: &str) -> (k: String)
        ensures
            k@ == symbol_key(self.prefix(), symbol@),
            is_ascii_chars(symbol@) ==> k@ == self.prefix() + ":"@ + ascii_upper(symbol@),
    {
        prefixed_symbol_key(self.key_prefix.as_str(), symbol)
    }

    /// The key prefix.
    pub fn key_prefix(&self) -> (p: &str)
        ensures
            p@ == self.prefix(),
    {
        self.key_prefix.as_str()
    }

    /// The parsed connection settings: the ones held.
    pub fn client(&self) -> (c: &redis::Client)
        ensures
            *c == self.connection(),
    {
        &self.client
    }
}

/// Step-by-step construction of a `RedisSignalStore`.
pub struct RedisSignalStoreBuilder {
    redis_url: String,
    key_prefix: Option<String>,
    max_connections: Option<u32>,
}

/// The builder's prefix, as characters.
pub open spec fn opt_string_view(o: Option<String>) -> Option<Seq<char>> {
    match o {
        Some(s) => Some(s@),
        None => None,
    }
}

impl RedisSignalStoreBuilder {
    /// The URL to connect to.
    pub closed spec fn url(&self) -> Seq<char> {
        self.redis_url@
    }

    /// The prefix set so far.
    pub closed spec fn prefix_setting(&self) -> Option<Seq<char>> {
        opt_string_view(self.key_prefix)
    }

    /// The connection limit set so far.
    pub closed spec fn connection_limit(&self) -> Option<u32> {
        self.max_connections
    }

    /// A builder for the given URL with nothing else set.
    pub fn new(redis_url: &str) -> (b: Self)
        ensures
            b.url() == redis_url@,
            b.prefix_setting() is None,
            b.connection_limit() is None,
    {
        RedisSignalStoreBuilder {
            redis_url: String::from_str(redis_url),
            key_prefix: None,
            max_connections: None,
        }
    }

    /// Sets the key prefix.
    pub fn key_prefix(self, prefix: &str) -> (b: Self)
        ensures
            b.url() == self.url(),
            b.prefix_setting() == Some(prefix@),
            b.connection_limit() == self.connection_limit(),
    {
        RedisSignalStoreBuilder {
            redis_url: self.redis_url,
            key_prefix: Some(String::from_str(prefix)),
            max_connections: self.max_connections,
        }
    }

    /// Sets the connection limit, kept for pooling.
    pub fn max_connections(self, max: u32) -> (b: Self)
        ensures
            b.url() == self.url(),
            b.prefix_setting() == self.prefix_setting(),
            b.connection_limit() == Some(max),
    {
        RedisSignalStoreBuilder {
            redis_url: self.redis_url,
            key_prefix: self.key_prefix,
            max_connections: Some(max),
        }
    }

    /// The prefix the built store will use: the set one, or `market:signal`.
    pub open spec fn built_prefix(&self) -> Seq<char> {
        match self.prefix_setting() {
            Some(p) => p,
            None => "market:signal"@,
        }
    }

    /// The store: the set prefix, or `market:signal`, over the builder's URL;
    /// an error exactly when that URL does not parse. The connection limit
    /// plays no part.
    pub fn build(self) -> (r: Result<RedisSignalStore, ClientError>)
        ensures
            r is Ok <==> redis_url_opens(self.url()),
            r matches Ok(s) ==> s.prefix() == self.built_prefix() && s.url() == self.url(),
            r matches Err(e) ==> e.redis_url@ == self.url(),
    {
        match self.key_prefix {
            Some(p) => RedisSignalStore::new(self.redis_url.as_str(), Some(p.as_str())),
            None => RedisSignalStore::new(self.redis_url.as_str(), None),
        }
    }
}

/// A store with the default prefix.
pub fn create_redis_store(redis_url: &str) -> (r: Result<RedisSignalStore, ClientError>)
    ensures
        r is Ok <==> redis_url_opens(redis_url@),
        r matches Ok(s) ==> s.prefix() == "market:signal"@ && s.url() == redis_url@,
        r matches Err(e) ==> e.redis_url@ == redis_url@,
{
    RedisSignalStore::new(redis_url, None)
}

/// Setting a connection limit leaves what building gives unchanged: the
/// builder after `max_connections` succeeds on the same URL, with the same
/// prefix, as the builder before it.
pub proof fn lemma_connection_limit_keeps_build(
    before: RedisSignalStoreBuilder,
    after: RedisSignalStoreBuilder,
    max: u32,
)
    requires
        after.url() == before.url(),
        after.prefix_setting() == before.prefix_setting(),
        after.connection_limit() == Some(max),
    ensures
        redis_url_opens(after.url()) == redis_url_opens(before.url()),
        after.built_prefix() == before.built_prefix(),
        after.url() == before.url(),
{
}

/// Settings of the decision layer.
pub struct BrainConfig {
    /// Redis connection URL
    pub redis_url: String,
    /// LLM API endpoint
    pub llm_endpoint: String,
    /// LLM API key
    pub llm_api_key: String,
    /// LLM model name
    pub llm_model: String,
}

impl Default for BrainConfig {
    fn default() -> (c: Self)
        ensures
            c.redis_url@ == "redis://localhost:6379"@,
            c.llm_endpoint@ == "http://localhost:11434/api/generate"@,
            c.llm_api_key@ == Seq::<char>::empty(),
            c.llm_model@ == "llama2"@,
    {
        BrainConfig {
            redis_url: String::from_str("redis://localhost:6379"),
            llm_endpoint: String::from_str("http://localhost:11434/api/generate"),
            llm_api_key: String::new(),
            llm_model: String::from_str("llama2"),
        }
    }
}

/// A key built for a symbol sits under the prefix it was built with, after
/// a colon, whatever the symbol; two symbols share a key only when their
/// upper-case forms agree.
pub proof fn lemma_symbol_keys_separate(prefix: Seq<char>, a: Seq<char>, b: Seq<char>)
    ensures
        symbol_key(prefix, a).subrange(0, prefix.len() + 1int) == prefix + ":"@,
        symbol_key(prefix, a) == symbol_key(prefix, b) <==> unicode_upper(a) == unicode_upper(b),
{
    reveal_strlit(":");
    let ka = symbol_key(prefix, a);
    let kb = symbol_key(prefix, b);
    assert(ka.subrange(0, prefix.len() + 1int) =~= prefix + ":"@);
    if ka == kb {
        assert(unicode_upper(a) =~= ka.subrange(prefix.len() + 1int, ka.len() as int));
        assert(unicode_upper(b) =~= kb.subrange(prefix.len() + 1int, kb.len() as int));
    }
}

} // verus!
