use vstd::prelude::*;

verus! {

/// `bitcoin::Network`, whose four variants Verus reads from the type itself.
#[verifier::external_type_specification]
pub struct ExNetwork(bitcoin::Network);

/// The selector text names no chain.
#[derive(Clone, Copy, Debug, PartialEq, Eq, Structural)]
pub enum ConfigError {
    UnknownChain,
}

/// Whether `c` is `n` up to ASCII case, for a lower-case `n`.
pub open spec fn char_matches(c: char, n: char) -> bool {
    c == n || ('A' <= c && c <= 'Z' && c as u32 + 32 == n as u32)
}

/// Whether the text `s` is the lower-case name `name` up to ASCII case.
pub open spec fn text_matches(s: Seq<char>, name: Seq<char>) -> bool {
    s.len() == name.len() && forall|i: int| 0 <= i < s.len() ==> char_matches(#[trigger] s[i], name[i])
}

/// The chain that the selector text `s` names, if any: the chain's name or
/// its alias, in any ASCII case.
pub open spec fn spec_select(s: Seq<char>) -> Option<Chain> {
    if text_matches(s, "mainnet"@) || text_matches(s, "main"@) {
        Some(Chain::Mainnet)
    } else if text_matches(s, "testnet"@) || text_matches(s, "test"@) {
        Some(Chain::Testnet)
    } else if text_matches(s, "signet"@) {
        Some(Chain::Signet)
    } else if text_matches(s, "regtest"@) {
        Some(Chain::Regtest)
    } else {
        None
    }
}

fn matches_name(s: &str, name: &str) -> (r: bool)
    ensures
        r == text_matches(s@, name@),
{
    let n: usize = s.unicode_len();
    if n != name.unicode_len() {
        return false;
    }
    let mut i: usize = 0;
    while i < n
        invariant
            n == s@.len(),
            n == name@.len(),
            i <= n,
            forall|j: int| 0 <= j < i ==> char_matches(#[trigger] s@[j], name@[j]),
        decreases n - i,
    {
        let c: char = s.get_char(i);
        let m: char = name.get_char(i);
        if !(c == m || ('A' <= c && c <= 'Z' && c as u32 + 32 == m as u32)) {
            return false;
        }
        i = i + 1;
    }
    true
}

/// One of the four networks that the tool can follow.
#[derive(Clone, Copy, Debug, PartialEq, Eq, Structural)]
pub enum Chain {
    Mainnet,
    Testnet,
    Signet,
    Regtest,
}

/// The fixed parameters of one chain, read all at once.
#[derive(Clone, Copy, Debug)]
pub struct ChainParams {
    pub network: bitcoin::Network,
    pub default_rpc_port: u16,
    pub inscription_content_size_limit: Option<usize>,
    pub first_inscription_height: u32,
    pub first_dune_height: u32,
    pub genesis_hex: &'static str,
    pub data_dir_subpath: Option<&'static str>,
    pub explorer_base_url: &'static str,
    pub name: &'static str,
}

impl Default for Chain {
    fn default() -> (r: Chain)
        ensures
            r == Chain::Mainnet,
    {
        Chain::Mainnet
    }
}

impl Chain {
    /// The chain that the selector text names: `mainnet` (or `main`),
    /// `testnet` (or `test`), `signet` or `regtest`, in any ASCII case.
    pub fn from_selector(s: &str) -> (r: Result<Chain, ConfigError>)
        ensures
            r is Ok <==> spec_select(s@) is Some,
            r is Ok ==> r->Ok_0 == spec_select(s@)->0,
            r is Err ==> r->Err_0 == ConfigError::UnknownChain,
    {
        if matches_name(s, "mainnet") || matches_name(s, "main") {
            Ok(Chain::Mainnet)
        } else if matches_name(s, "testnet") || matches_name(s, "test") {
            Ok(Chain::Testnet)
        } else if matches_name(s, "signet") {
            Ok(Chain::Signet)
        } else if matches_name(s, "regtest") {
            Ok(Chain::Regtest)
        } else {
            Err(ConfigError::UnknownChain)
        }
    }

    /// All of the chain's fixed parameters.
    pub fn params(self) -> (r: ChainParams)
        ensures
            r.network == self.spec_network(),
            r.default_rpc_port == self.spec_default_rpc_port(),
            r.inscription_content_size_limit == self.spec_inscription_content_size_limit(),
            r.first_inscription_height == self.spec_first_inscription_height(),
            r.first_dune_height == self.spec_first_dune_height(),
            r.genesis_hex@ == self.spec_genesis_hex(),
            r.data_dir_subpath is None <==> self == Chain::Mainnet,
            r.data_dir_subpath is Some ==> r.data_dir_subpath->0@ == self.spec_data_dir_subpath(),
            r.explorer_base_url@ == self.spec_explorer_base_url(),
            r.name@ == self.spec_name(),
    {
        ChainParams {
            network: self.network(),
            default_rpc_port: self.default_rpc_port(),
            inscription_content_size_limit: self.inscription_content_size_limit(),
            first_inscription_height: self.first_inscription_height(),
            first_dune_height: self.first_dune_height(),
            genesis_hex: self.genesis_hex(),
            data_dir_subpath: self.data_dir_subpath(),
            explorer_base_url: self.explorer_base_url(),
            name: self.name(),
        }
    }

    /// The consensus network whose wire and address rules the chain follows.
    pub fn network(self) -> (r: bitcoin::Network)
        ensures
            r == self.spec_network(),
    {
        match self {
            Chain::Mainnet => bitcoin::Network::Bitcoin,
            Chain::Testnet => bitcoin::Network::Testnet,
            Chain::Signet => bitcoin::Network::Signet,
            Chain::Regtest => bitcoin::Network::Regtest,
        }
    }

    /// The port on which the chain's node serves RPC unless told otherwise.
    pub fn default_rpc_port(self) -> (r: u16)
        ensures
            r == self.spec_default_rpc_port(),
    {
        match self {
            Chain::Mainnet => 32552,
            Chain::Regtest => 18332,
            Chain::Signet => 38332,
            Chain::Testnet => 44873,
        }
    }

    /// The largest inscription content that the chain accepts, if any.
    pub fn inscription_content_size_limit(self) -> (r: Option<usize>)
        ensures
            r == self.spec_inscription_content_size_limit(),
    {
        match self {
            Chain::Mainnet | Chain::Regtest => None,
            Chain::Testnet | Chain::Signet => None,
        }
    }

    /// The first block height at which inscriptions are recognised.
    pub fn first_inscription_height(self) -> (r: u32)
        ensures
            r == self.spec_first_inscription_height(),
    {
        match self {
            Chain::Mainnet => 0,
            Chain::Regtest => 0,
            Chain::Signet => 0,
            Chain::Testnet => 0,
        }
    }

    /// The first block height at which dunes are recognised.
    pub fn first_dune_height(self) -> (r: u32)
        ensures
            r == self.spec_first_dune_height(),
    {
        match self {
            Chain::Mainnet => 0,
            Chain::Regtest => 0,
            Chain::Signet => 0,
            Chain::Testnet => 0,
        }
    }

    /// Whether inscriptions are recognised in the block at `height`.
    pub fn inscriptions_active(self, height: u32) -> (r: bool)
        ensures
            r == self.spec_inscriptions_active(height as int),
    {
        height >= self.first_inscription_height()
    }

    /// Whether dunes are recognised in the block at `height`.
    pub fn dunes_active(self, height: u32) -> (r: bool)
        ensures
            r == self.spec_dunes_active(height as int),
    {
        height >= self.first_dune_height()
    }

    /// The directory below the base data directory that holds this chain's
    /// data; the main network keeps its data in the base directory itself.
    pub fn data_dir_subpath(self) -> (r: Option<&'static str>)
        ensures
            r is None <==> self == Chain::Mainnet,
            r is Some ==> r->0@ == self.spec_data_dir_subpath(),
    {
        match self {
            Chain::Mainnet => None,
            Chain::Testnet => Some("testnet3"),
            Chain::Signet => Some("signet"),
            Chain::Regtest => Some("regtest"),
        }
    }

    /// The data directory of this chain below the base directory `data_dir`.
    pub fn join_with_data_dir(self, data_dir: &str) -> (r: String)
        ensures
            self == Chain::Mainnet ==> r@ == data_dir@,
            self != Chain::Mainnet ==> r@ == path_joined(data_dir@, self.spec_data_dir_subpath()),
    {
        match self.data_dir_subpath() {
            None => String::from_str(data_dir),
            Some(sub) => join_path(data_dir, sub),
        }
    }

    /// The start of the explorer link of an inscription on this chain.
    pub fn explorer_base_url(self) -> (r: &'static str)
        ensures
            r@ == self.spec_explorer_base_url(),
    {
        match self {
            Chain::Mainnet => "https://localhost/inscription/",
            Chain::Regtest => "http://localhost/inscription/",
            Chain::Signet => "https://localhost/inscription/",
            Chain::Testnet => "https://localhost/inscription/",
        }
    }

    /// The chain's display name.
    pub fn name(self) -> (r: &'static str)
        ensures
            r@ == self.spec_name(),
    {
        match self {
            Chain::Mainnet => "mainnet",
            Chain::Regtest => "regtest",
            Chain::Signet => "signet",
            Chain::Testnet => "testnet",
        }
    }

    /// The chain's display name as an owned string.
    pub fn to_string(self) -> (r: String)
        ensures
            r@ == self.spec_name(),
    {
        String::from_str(self.name())
    }

    pub open spec fn spec_default_rpc_port(self) -> u16 {
        match self {
            Chain::Mainnet => 32552,
            Chain::Regtest => 18332,
            Chain::Signet => 38332,
            Chain::Testnet => 44873,
        }
    }

    pub open spec fn spec_inscription_content_size_limit(self) -> Option<usize> {
        None
    }

    pub open spec fn spec_first_inscription_height(self) -> u32 {
        0
    }

    pub open spec fn spec_first_dune_height(self) -> u32 {
        0
    }

    pub open spec fn spec_inscriptions_active(self, height: int) -> bool {
        height >= self.spec_first_inscription_height()
    }

    pub open spec fn spec_dunes_active(self, height: int) -> bool {
        height >= self.spec_first_dune_height()
    }

    pub open spec fn spec_data_dir_subpath(self) -> Seq<char> {
        match self {
            Chain::Mainnet => Seq::empty(),
            Chain::Testnet => "testnet3"@,
            Chain::Signet => "signet"@,
            Chain::Regtest => "regtest"@,
        }
    }

    pub open spec fn spec_explorer_base_url(self) -> Seq<char> {
        match self {
            Chain::Regtest => "http://localhost/inscription/"@,
            _ => "https://localhost/inscription/"@,
        }
    }

    pub open spec fn spec_name(self) -> Seq<char> {
        match self {
            Chain::Mainnet => "mainnet"@,
            Chain::Regtest => "regtest"@,
            Chain::Signet => "signet"@,
            Chain::Testnet => "testnet"@,
        }
    }

    pub open spec fn spec_network(self) -> bitcoin::Network {
        match self {
            Chain::Mainnet => bitcoin::Network::Bitcoin,
            Chain::Testnet => bitcoin::Network::Testnet,
            Chain::Signet => bitcoin::Network::Signet,
            Chain::Regtest => bitcoin::Network::Regtest,
        }
    }
}

/// Both activation gates are non-decreasing step functions of the height:
/// off at every height below the chain's activation height, on at it and at
/// every height above, so a protocol once recognised stays recognised.
pub proof fn lemma_activation_monotone(chain: Chain, h1: int, h2: int)
    requires
        0 <= h1 <= h2,
    ensures
        chain.spec_inscriptions_active(h1) ==> chain.spec_inscriptions_active(h2),
        chain.spec_dunes_active(h1) ==> chain.spec_dunes_active(h2),
        chain.spec_inscriptions_active(h1) <==> h1 >= chain.spec_first_inscription_height(),
        chain.spec_dunes_active(h1) <==> h1 >= chain.spec_first_dune_height(),
{
}

pub uninterp spec fn path_joined(base: Seq<char>, part: Seq<char>) -> Seq<char>;

/// Relies on `std::path::Path::join`: the path `base` extended by the
/// relative component `part`, with the platform's separator.
#[verifier::external_body]
fn join_path(base: &str, part: &str) -> (r: String)
    ensures
        r@ == path_joined(base@, part@),
{
    std::path::Path::new(base).join(part).to_string_lossy().into_owned()
}

} // verus!
