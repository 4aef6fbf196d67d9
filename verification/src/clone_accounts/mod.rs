//! Snapshots of a cluster's accounts for a local validator: the command line, what to
//! fetch, and what to make of the replies.

use vstd::prelude::*;
use vstd::string::{StrSliceExecFns, StringExecFns};

use crate::constants::{DEVNET_ALT, MAINNET_ALT};
use crate::pubkey::Pubkey;
use crate::text::{ascii_lowercase, same_text, small, trim, trimmed_end, trimmed_start};

pub mod cli_laws;
pub mod plan;
pub mod plan_laws;

verus! {

/// A cluster.
#[derive(Clone, Copy, Debug, PartialEq, Eq, Structural)]
pub enum Network {
    Devnet,
    Mainnet,
}

/// `text` without outer white space and with small letters.
pub open spec fn normalized(text: Seq<char>) -> Seq<char> {
    trimmed_end(trimmed_start(text)).map_values(|c: char| small(c))
}

/// The cluster that `text` names, up to outer white space and ASCII case.
pub open spec fn network_named(text: Seq<char>) -> Option<Network> {
    let name = normalized(text);
    if name == "mainnet"@ || name == "mainnet-beta"@ {
        Some(Network::Mainnet)
    } else if name == "devnet"@ {
        Some(Network::Devnet)
    } else {
        None
    }
}

/// What is said of a text that names no cluster.
pub open spec fn network_complaint(text: Seq<char>) -> Seq<char> {
    "network must be devnet or mainnet (or mainnet-beta), got `"@ + normalized(text) + "`"@
}

impl Network {
    /// The cluster that `text` names.
    pub fn parse(text: &str) -> (r: Result<Network, String>)
        ensures
            match r {
                Ok(network) => network_named(text@) == Some(network),
                Err(complaint) => network_named(text@) is None && complaint@ == network_complaint(
                    text@,
                ),
            },
    {
        let name = ascii_lowercase(trim(text));
        if same_text(name.as_str(), "mainnet") || same_text(name.as_str(), "mainnet-beta") {
            Ok(Network::Mainnet)
        } else if same_text(name.as_str(), "devnet") {
            Ok(Network::Devnet)
        } else {
            let mut complaint = String::from_str(
                "network must be devnet or mainnet (or mainnet-beta), got `",
            );
            complaint.append(name.as_str());
            complaint.append("`");
            Err(complaint)
        }
    }

    /// The public RPC endpoint of the cluster.
    pub open spec fn endpoint(self) -> Seq<char> {
        match self {
            Network::Devnet => "https://api.devnet.solana.com"@,
            Network::Mainnet => "https://api.mainnet-beta.solana.com"@,
        }
    }

    /// The public, rate-limited RPC endpoint of the cluster.
    pub fn default_rpc(self) -> (r: &'static str)
        ensures
            r@ == self.endpoint(),
    {
        match self {
            Network::Devnet => "https://api.devnet.solana.com",
            Network::Mainnet => "https://api.mainnet-beta.solana.com",
        }
    }

    /// The lookup table for trades on the cluster.
    pub open spec fn lookup_table(self) -> Pubkey {
        match self {
            Network::Devnet => DEVNET_ALT,
            Network::Mainnet => MAINNET_ALT,
        }
    }

    /// The lookup table for trades on the cluster.
    pub fn alt(self) -> (r: Pubkey)
        ensures
            r == self.lookup_table(),
    {
        match self {
            Network::Devnet => DEVNET_ALT,
            Network::Mainnet => MAINNET_ALT,
        }
    }

    /// The label of the lookup table.
    pub open spec fn lookup_table_label(self) -> Seq<char> {
        match self {
            Network::Devnet => "alt:devnet"@,
            Network::Mainnet => "alt:mainnet"@,
        }
    }

    /// The label of the lookup table.
    pub fn alt_label(self) -> (r: &'static str)
        ensures
            r@ == self.lookup_table_label(),
    {
        match self {
            Network::Devnet => "alt:devnet",
            Network::Mainnet => "alt:mainnet",
        }
    }
}

/// What the command line asks for. `rpc_url` comes from its option or from the one
/// argument without an option.
#[derive(Clone, Debug, PartialEq, Eq)]
pub struct Cli {
    pub network: Option<Network>,
    pub rpc_url: Option<String>,
}

/// A command line that was understood.
#[derive(Clone, Debug, PartialEq, Eq)]
pub enum CliRequest {
    Help,
    Run(Cli),
}

/// What a command line says: help, or a run with a cluster and an endpoint, or a
/// complaint.
pub enum CliView {
    Help,
    Run { network: Option<Network>, rpc_url: Option<Seq<char>> },
    Complaint(Seq<char>),
}

/// The text of an optional string.
pub open spec fn text_of(s: Option<String>) -> Option<Seq<char>> {
    match s {
        Some(s) => Some(s@),
        None => None,
    }
}

/// What the arguments from `i` on say, given what was read before them.
pub open spec fn cli_from(
    args: Seq<String>,
    i: nat,
    network: Option<Network>,
    flag: Option<Seq<char>>,
    positional: Option<Seq<char>>,
) -> CliView
    decreases args.len() - i,
{
    if i >= args.len() {
        if flag is Some && positional is Some {
            CliView::Complaint("use either --rpc-url or one positional RPC URL, not both"@)
        } else {
            CliView::Run {
                network,
                rpc_url: if flag is Some {
                    flag
                } else {
                    positional
                },
            }
        }
    } else {
        let arg = args[i as int]@;
        let next = args[i as int + 1]@;
        if arg == "-h"@ || arg == "--help"@ {
            CliView::Help
        } else if arg == "-n"@ || arg == "--network"@ {
            if i + 1 >= args.len() {
                CliView::Complaint("--network requires a value (devnet or mainnet)"@)
            } else {
                match network_named(next) {
                    Some(named) => cli_from(args, i + 2, Some(named), flag, positional),
                    None => CliView::Complaint(network_complaint(next)),
                }
            }
        } else if arg == "-r"@ || arg == "--rpc-url"@ {
            if i + 1 >= args.len() {
                CliView::Complaint("--rpc-url requires a URL"@)
            } else {
                cli_from(args, i + 2, network, Some(next), positional)
            }
        } else if arg.len() > 0 && arg[0] == '-' {
            CliView::Complaint("unknown option `"@ + arg + "` (try --help)"@)
        } else if positional is Some {
            CliView::Complaint("unexpected extra argument `"@ + arg + "`"@)
        } else {
            cli_from(args, i + 1, network, flag, Some(arg))
        }
    }
}

/// Whether `r` is what the arguments say.
pub open spec fn understood(said: CliView, r: Result<CliRequest, String>) -> bool {
    match said {
        CliView::Help => r == Ok::<CliRequest, String>(CliRequest::Help),
        CliView::Run { network, rpc_url } => match r {
            Ok(CliRequest::Run(cli)) => cli.network == network && text_of(cli.rpc_url) == rpc_url,
            _ => false,
        },
        CliView::Complaint(complaint) => match r {
            Err(message) => message@ == complaint,
            _ => false,
        },
    }
}

/// Reads the command line, the program's name left out.
pub fn parse_cli(args: &Vec<String>) -> (r: Result<CliRequest, String>)
    ensures
        understood(cli_from(args@, 0, None, None, None), r),
{
    let mut network: Option<Network> = None;
    let mut flag: Option<String> = None;
    let mut positional: Option<String> = None;
    let mut i: usize = 0;
    while i < args.len()
        invariant
            i <= args@.len(),
            cli_from(args@, i as nat, network, text_of(flag), text_of(positional)) == cli_from(
                args@,
                0,
                None,
                None,
                None,
            ),
        decreases args@.len() - i,
    {
        let arg = args[i].as_str();
        if same_text(arg, "-h") || same_text(arg, "--help") {
            return Ok(CliRequest::Help);
        } else if same_text(arg, "-n") || same_text(arg, "--network") {
            if i + 1 >= args.len() {
                return Err(String::from_str("--network requires a value (devnet or mainnet)"));
            }
            match Network::parse(args[i + 1].as_str()) {
                Ok(named) => {
                    network = Some(named);
                },
                Err(complaint) => {
                    return Err(complaint);
                },
            }
            i = i + 2;
        } else if same_text(arg, "-r") || same_text(arg, "--rpc-url") {
            if i + 1 >= args.len() {
                return Err(String::from_str("--rpc-url requires a URL"));
            }
            flag = Some(args[i + 1].clone());
            i = i + 2;
        } else if arg.unicode_len() > 0 && arg.get_char(0) == '-' {
            let mut complaint = String::from_str("unknown option `");
            complaint.append(arg);
            complaint.append("` (try --help)");
            return Err(complaint);
        } else if positional.is_some() {
            let mut complaint = String::from_str("unexpected extra argument `");
            complaint.append(arg);
            complaint.append("`");
            return Err(complaint);
        } else {
            positional = Some(args[i].clone());
            i = i + 1;
        }
    }
    if flag.is_some() && positional.is_some() {
        return Err(
            String::from_str("use either --rpc-url or one positional RPC URL, not both"),
        );
    }
    let rpc_url = if flag.is_some() {
        flag
    } else {
        positional
    };
    Ok(CliRequest::Run(Cli { network, rpc_url }))
}

/// The cluster of a run: the command line's, else the environment's, else devnet. An
/// environment that names no cluster is a complaint.
pub fn chosen_network(from_cli: Option<Network>, from_env: Option<String>) -> (r: Result<
    Network,
    String,
>)
    ensures
        match from_cli {
            Some(network) => r == Ok::<Network, String>(network),
            None => match from_env {
                None => r == Ok::<Network, String>(Network::Devnet),
                Some(text) => match r {
                    Ok(network) => network_named(text@) == Some(network),
                    Err(complaint) => network_named(text@) is None && complaint@
                        == network_complaint(text@),
                },
            },
        },
{
    match from_cli {
        Some(network) => Ok(network),
        None => match from_env {
            Some(text) => Network::parse(text.as_str()),
            None => Ok(Network::Devnet),
        },
    }
}

/// The endpoint of a run: the command line's, else the environment's, else the public
/// one of the cluster.
pub fn chosen_endpoint(
    from_cli: Option<String>,
    from_env: Option<String>,
    network: Network,
) -> (r: String)
    ensures
        from_cli matches Some(url) ==> r@ == url@,
        from_cli is None ==> (from_env matches Some(url) ==> r@ == url@),
        from_cli is None && from_env is None ==> r@ == network.endpoint(),
{
    match from_cli {
        Some(url) => url,
        None => match from_env {
            Some(url) => url,
            None => String::from_str(network.default_rpc()),
        },
    }
}

} // verus!
