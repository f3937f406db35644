//! Configuration of the node and of its command-line tool: log levels, the
//! chains the node runs on and their Electrum servers, channel storage and
//! the persistence interfaces of channel history.
use vstd::prelude::*;
use vstd::string::StrSliceExecFns;
use crate::text::{dec_chars, push_decimal};

verus! {

/// Log verbosity levels.
#[derive(Copy, Clone, PartialEq, Eq, Structural, Debug, Hash)]
pub enum LogLevel {
    Error,
    Warn,
    Info,
    Debug,
    Trace,
}

/// The level for a count of `-v` flags: one level per flag from `Error`,
/// `Trace` from four on.
pub open spec fn level_for(verbose: u8) -> LogLevel {
    if verbose == 0 {
        LogLevel::Error
    } else if verbose == 1 {
        LogLevel::Warn
    } else if verbose == 2 {
        LogLevel::Info
    } else if verbose == 3 {
        LogLevel::Debug
    } else {
        LogLevel::Trace
    }
}

/// Number of each level.
pub open spec fn level_number(l: LogLevel) -> u8 {
    match l {
        LogLevel::Error => 0,
        LogLevel::Warn => 1,
        LogLevel::Info => 2,
        LogLevel::Debug => 3,
        LogLevel::Trace => 4,
    }
}

/// Name of each level in a `RUST_LOG` filter.
pub open spec fn level_filter(l: LogLevel) -> Seq<char> {
    match l {
        LogLevel::Error => "error"@,
        LogLevel::Warn => "warn"@,
        LogLevel::Info => "info"@,
        LogLevel::Debug => "debug"@,
        LogLevel::Trace => "trace"@,
    }
}

/// Name of each level as displayed.
pub open spec fn level_name(l: LogLevel) -> Seq<char> {
    match l {
        LogLevel::Error => "Error"@,
        LogLevel::Warn => "Warn"@,
        LogLevel::Info => "Info"@,
        LogLevel::Debug => "Debug"@,
        LogLevel::Trace => "Trace"@,
    }
}

impl LogLevel {
    /// The level with the given number, if there is one.
    pub fn from_u8(n: u8) -> (r: Option<LogLevel>)
        ensures
            r matches Some(l) ==> level_number(l) == n,
            r is None <==> n > 4,
    {
        match n {
            0 => Some(LogLevel::Error),
            1 => Some(LogLevel::Warn),
            2 => Some(LogLevel::Info),
            3 => Some(LogLevel::Debug),
            4 => Some(LogLevel::Trace),
            _ => None,
        }
    }

    /// The level for a count of `-v` flags.
    pub fn from_verbosity(verbose: u8) -> (r: LogLevel)
        ensures
            r == level_for(verbose),
    {
        match LogLevel::from_u8(verbose) {
            Some(l) => l,
            None => LogLevel::Trace,
        }
    }

    /// Number of the level.
    pub fn to_u8(self) -> (r: u8)
        ensures
            r == level_number(self),
    {
        match self {
            LogLevel::Error => 0,
            LogLevel::Warn => 1,
            LogLevel::Info => 2,
            LogLevel::Debug => 3,
            LogLevel::Trace => 4,
        }
    }

    /// Name of the level in a `RUST_LOG` filter.
    pub fn filter(&self) -> (r: &'static str)
        ensures
            r@ == level_filter(*self),
    {
        match self {
            LogLevel::Error => "error",
            LogLevel::Warn => "warn",
            LogLevel::Info => "info",
            LogLevel::Debug => "debug",
            LogLevel::Trace => "trace",
        }
    }

    /// Name of the level as displayed.
    pub fn to_display_string(&self) -> (r: String)
        ensures
            r@ == level_name(*self),
    {
        match self {
            LogLevel::Error => String::from_str("Error"),
            LogLevel::Warn => String::from_str("Warn"),
            LogLevel::Info => String::from_str("Info"),
            LogLevel::Debug => String::from_str("Debug"),
            LogLevel::Trace => String::from_str("Trace"),
        }
    }
}

/// A verbosity level read back from its number is the level itself.
pub proof fn law_level_number_roundtrip(l: LogLevel)
    ensures
        level_for(level_number(l)) == l,
{
}

/// More `-v` flags never lower the verbosity.
pub proof fn law_verbosity_monotone(a: u8, b: u8)
    requires
        a <= b,
    ensures
        level_number(level_for(a)) <= level_number(level_for(b)),
{
}

/// Blockchains the node can run on.
#[derive(Copy, Clone, PartialEq, Eq, Structural, Debug, Hash)]
pub enum Chain {
    Mainnet,
    Testnet3,
    Regtest,
    Signet,
    SignetCustom,
    LiquidV1,
    Other,
}

/// Default port of the Electrum server of each chain.
pub open spec fn electrum_port(chain: Chain) -> u16 {
    match chain {
        Chain::Mainnet => 50001,
        Chain::Testnet3 | Chain::Regtest => 60001,
        Chain::Signet | Chain::SignetCustom => 60601,
        Chain::LiquidV1 => 50501,
        Chain::Other => 60001,
    }
}

/// Default port of the Electrum server of a chain.
pub fn default_electrum_port(chain: &Chain) -> (r: u16)
    ensures
        r == electrum_port(*chain),
{
    match chain {
        Chain::Mainnet => 50001,
        Chain::Testnet3 | Chain::Regtest => 60001,
        Chain::Signet | Chain::SignetCustom => 60601,
        Chain::LiquidV1 => 50501,
        Chain::Other => 60001,
    }
}

/// `{server}:{port}`, the port being the given one or the chain's default.
pub open spec fn electrum_url_text(server: Seq<char>, port: Option<u16>, chain: Chain) -> Seq<char> {
    server + ":"@ + dec_chars(
        match port {
            Some(p) => p as nat,
            None => electrum_port(chain) as nat,
        },
    )
}

/// URL of the Electrum server: `{server}:{port}`, with the chain's default
/// port when none is given.
pub fn electrum_url(server: &str, port: Option<u16>, chain: &Chain) -> (r: String)
    ensures
        r@ == electrum_url_text(server@, port, *chain),
{
    let p = match port {
        Some(p) => p,
        None => default_electrum_port(chain),
    };
    let mut out = String::from_str(server);
    out.append(":");
    push_decimal(&mut out, p as u64);
    out
}

/// Configuration of the disk storage of channel states.
#[derive(Clone, PartialEq, Eq, Debug)]
pub struct DiskConfig {
    /// Directory of the channel files
    pub path: String,
}

/// Filter of the messages a connection daemon passes on; it passes all.
#[derive(Copy, Clone, PartialEq, Eq, Structural, Debug, Default)]
pub struct MessageFilter {}

/// Marker trait defining transaction role in a graph
pub trait TxRole {}

/// Marker trait defining public key role in a graph
pub trait PkRole {}

/// History of states of a channel, for users to implement over their
/// storage.
pub trait History {
    type State;
    type Error;

    fn height(&self) -> usize;
    fn get(&self, height: usize) -> Result<Self::State, Self::Error>;
    fn top(&self) -> Result<Self::State, Self::Error>;
    fn bottom(&self) -> Result<Self::State, Self::Error>;
    fn dig(&self) -> Result<Self::State, Self::Error>;
    fn push(&mut self, state: Self::State) -> Result<&mut Self, Self::Error>;
}


/// `s` with every occurrence of `pat` replaced by `rep`, occurrences taken
/// from left to right without overlapping (what `str::replace` does).
pub open spec fn replace_all(s: Seq<char>, pat: Seq<char>, rep: Seq<char>) -> Seq<char>
    recommends
        pat.len() > 0,
    decreases s.len(),
{
    if s.len() == 0 || pat.len() == 0 {
        s
    } else if pat.len() <= s.len() && s.take(pat.len() as int) == pat {
        rep + replace_all(s.skip(pat.len() as int), pat, rep)
    } else {
        seq![s[0]] + replace_all(s.skip(1), pat, rep)
    }
}

/// Whether `pat` occurs in `s` at position `i`.
fn occurs_at(s: &str, n: usize, pat: &str, m: usize, i: usize) -> (r: bool)
    requires
        n == s@.len(),
        m == pat@.len(),
        i <= n,
    ensures
        r == (m <= n - i && s@.skip(i as int).take(m as int) == pat@),
{
    if m > n - i {
        return false;
    }
    let mut k: usize = 0;
    while k < m
        invariant
            k <= m,
            m <= n - i,
            n == s@.len(),
            m == pat@.len(),
            forall|j: int| 0 <= j < k ==> s@[i + j] == pat@[j],
        decreases m - k,
    {
        if s.get_char(i + k) != pat.get_char(k) {
            proof {
                assert(s@.skip(i as int).take(m as int)[k as int] != pat@[k as int]);
            }
            return false;
        }
        k = k + 1;
    }
    proof {
        assert(s@.skip(i as int).take(m as int) =~= pat@);
    }
    true
}

/// `s` with every occurrence of `pat` replaced by `rep`.
pub fn replace_str(s: &str, pat: &str, rep: &str) -> (r: String)
    requires
        pat@.len() > 0,
    ensures
        r@ == replace_all(s@, pat@, rep@),
{
    let n = s.unicode_len();
    let m = pat.unicode_len();
    let mut out = String::new();
    let mut i: usize = 0;
    proof {
        assert(s@.skip(0) =~= s@);
        assert(out@ + replace_all(s@, pat@, rep@) =~= replace_all(s@, pat@, rep@));
    }
    while i < n
        invariant
            i <= n,
            n == s@.len(),
            m == pat@.len(),
            m > 0,
            out@ + replace_all(s@.skip(i as int), pat@, rep@) == replace_all(s@, pat@, rep@),
        decreases n - i,
    {
        let ghost rest = s@.skip(i as int);
        if occurs_at(s, n, pat, m, i) {
            out.append(rep);
            proof {
                assert(rest.skip(m as int) =~= s@.skip(i + m));
                assert(out@ + replace_all(s@.skip(i + m), pat@, rep@) =~= replace_all(s@, pat@, rep@));
            }
            i = i + m;
        } else {
            let c = s.substring_char(i, i + 1);
            out.append(c);
            proof {
                assert(c@ =~= seq![rest[0]]);
                assert(rest.skip(1) =~= s@.skip(i + 1));
                assert(out@ + replace_all(s@.skip(i + 1), pat@, rep@) =~= replace_all(s@, pat@, rep@));
            }
            i = i + 1;
        }
    }
    proof {
        assert(s@.skip(n as int) =~= Seq::<char>::empty());
        assert(out@ + Seq::<char>::empty() =~= out@);
    }
    out
}

/// A configuration parameter with `{data_dir}` and then `{node_id}`
/// replaced by the given texts.
pub open spec fn param_text(param: Seq<char>, data_dir: Seq<char>, node_id: Seq<char>) -> Seq<char> {
    replace_all(replace_all(param, "{data_dir}"@, data_dir), "{node_id}"@, node_id)
}

/// Replaces `{data_dir}` and then `{node_id}` in a configuration parameter
/// by the data directory and the text of the node id.
pub fn substitute_param(param: &str, data_dir: &str, node_id: &str) -> (r: String)
    ensures
        r@ == param_text(param@, data_dir@, node_id@),
{
    proof {
        reveal_strlit("{data_dir}");
        reveal_strlit("{node_id}");
    }
    let first = replace_str(param, "{data_dir}", data_dir);
    replace_str(first.as_str(), "{node_id}", node_id)
}

/// Configuration of the command-line client: the node key, the data
/// directory, the log level and the node endpoint in text form.
#[derive(Clone, PartialEq, Eq, Debug)]
pub struct CliConfig {
    pub node_key: [u8; 32],
    pub data_dir: String,
    pub log_level: LogLevel,
    pub endpoint: String,
}

/// Text of the public key (the node id) of a secret key, as
/// `secp256k1::PublicKey` displays it; none when the bytes are no valid
/// secret key.
pub uninterp spec fn node_id_of(secret: Seq<u8>) -> Option<Seq<char>>;

/// Calls `secp256k1::SecretKey::from_slice` (through `bitcoin`'s re-export)
/// and, for a valid key, `PublicKey::from_secret_key` and the key's
/// `Display`. The result is named `node_id_of` of the bytes; it is `None`
/// exactly when the key is refused.
#[verifier::external_body]
pub(crate) fn node_id_text(secret: &[u8; 32]) -> (r: Option<String>)
    ensures
        match r {
            Some(t) => node_id_of(secret@) == Some(t@),
            None => node_id_of(secret@) is None,
        },
{
    match bitcoin::secp256k1::SecretKey::from_slice(secret) {
        Ok(key) => Some(
            bitcoin::secp256k1::PublicKey::from_secret_key(&bitcoin::secp256k1::Secp256k1::new(), &key).to_string(),
        ),
        Err(_) => None,
    }
}

/// Errors of merging the client configuration.
#[derive(Copy, Clone, PartialEq, Eq, Structural, Debug, Hash)]
pub enum CliConfigError {
    /// the node key is no valid secret key, so `{node_id}` has no value
    InvalidNodeKey,
}

/// The data directory in use: the command line's, else the configuration's.
pub open spec fn merged_data_dir(read: CliConfig, data_dir: Option<String>) -> String {
    match data_dir {
        Some(d) => d,
        None => read.data_dir,
    }
}

/// The configuration in use: the one read (or the default one) with the
/// command-line options over it: the data directory when one was given, the
/// log level when `-v` was given, and the endpoint when one was given, its
/// `{data_dir}` and `{node_id}` replaced by the data directory in use and the
/// node id of the node key. Substituting the node id fails when the node key
/// is no valid secret key.
pub fn merge_cli_config(read: CliConfig, data_dir: Option<String>, verbose: u8, connect: Option<String>) -> (r: Result<CliConfig, CliConfigError>)
    ensures
        r is Err <==> (connect is Some && node_id_of(read.node_key@) is None),
        r is Err ==> r == Err::<CliConfig, CliConfigError>(CliConfigError::InvalidNodeKey),
        r matches Ok(c) ==> {
            &&& c.node_key == read.node_key
            &&& c.data_dir == merged_data_dir(read, data_dir)
            &&& c.log_level == if verbose > 0 { level_for(verbose) } else { read.log_level }
            &&& c.endpoint@ == match connect {
                Some(e) => param_text(e@, c.data_dir@, node_id_of(read.node_key@)->Some_0),
                None => read.endpoint@,
            }
        },
{
    let mut me = read;
    if let Some(d) = data_dir {
        me.data_dir = d;
    }
    if verbose > 0 {
        me.log_level = LogLevel::from_verbosity(verbose);
    }
    if let Some(e) = connect {
        match node_id_text(&me.node_key) {
            Some(node_id) => {
                me.endpoint = substitute_param(e.as_str(), me.data_dir.as_str(), node_id.as_str());
            }
            None => {
                return Err(CliConfigError::InvalidNodeKey);
            }
        }
    }
    Ok(me)
}

/// The `RUST_LOG` filter to set for a log level: none when the environment
/// already sets one.
pub fn rust_log_filter(already_set: bool, level: LogLevel) -> (r: Option<&'static str>)
    ensures
        already_set ==> r is None,
        !already_set ==> (r matches Some(f) && f@ == level_filter(level)),
{
    if already_set { None } else { Some(level.filter()) }
}


/// Addresses of the node's message buses.
#[derive(Clone, PartialEq, Eq, Debug, Hash)]
pub enum Endpoint {
    /// an in-process socket, by its name
    Inproc(String),
    /// any other address, by its text
    Socket(String),
}

/// The control bus endpoint: the in-process socket `lnp-ctl` when the
/// daemons run as threads, the configured endpoint otherwise.
pub fn ctl_endpoint(threaded: bool, configured: Endpoint) -> (r: Endpoint)
    ensures
        threaded ==> (r matches Endpoint::Inproc(name) && name@ == "lnp-ctl"@),
        !threaded ==> r == configured,
{
    if threaded { Endpoint::Inproc(String::from_str("lnp-ctl")) } else { configured }
}


/// A path with a component added: joined by `/`, unless the path is empty or
/// already ends with `/` (as `PathBuf::push` joins a relative component).
pub open spec fn joined(path: Seq<char>, component: Seq<char>) -> Seq<char> {
    if path.len() == 0 || path.last() == '/' { path + component } else { path + seq!['/'] + component }
}

/// Adds a relative component to a path.
fn join(path: &str, component: &str) -> (r: String)
    ensures
        r@ == joined(path@, component@),
{
    let n = path.unicode_len();
    let mut out = String::from_str(path);
    if n > 0 && path.get_char(n - 1) == '/' {
        out.append(component);
    } else if n == 0 {
        out.append(component);
    } else {
        proof {
            reveal_strlit("/");
        }
        out.append("/");
        out.append(component);
    }
    out
}

/// The directory of the channel files: `channels` in the data directory.
pub fn channel_dir(data_dir: &str) -> (r: String)
    ensures
        r@ == joined(data_dir@, "channels"@),
{
    join(data_dir, "channels")
}

/// The file of a channel, named by the text of its id with the extension
/// `channel`, in the directory of the channel files. The id text holds no
/// `/` and no `.`.
pub fn channel_file(data_dir: &str, channel_id: &str) -> (r: String)
    ensures
        r@ == joined(joined(data_dir@, "channels"@), channel_id@) + ".channel"@,
{
    let dir = channel_dir(data_dir);
    let mut file = join(dir.as_str(), channel_id);
    file.append(".channel");
    file
}

} // verus!
