//! Laws of the command line: what one more argument changes.

use vstd::prelude::*;

use crate::clone_accounts::{
    cli_from, network_complaint, network_named, normalized, understood, CliRequest, CliView,
    Network,
};
use crate::constants::{DEVNET_ALT, MAINNET_ALT};
use crate::text::{
    is_space, law_trimming_ignores_outer_space, small, trimmed_end, trimmed_start,
};

verus! {

/// What a command line says.
pub open spec fn said(args: Seq<String>) -> CliView {
    cli_from(args, 0, None, None, None)
}

/// Reading up to the end of arguments that call for a run leaves the same to read with
/// more after them.
proof fn lemma_read_on(
    args: Seq<String>,
    more: Seq<String>,
    i: nat,
    network: Option<Network>,
    flag: Option<Seq<char>>,
    positional: Option<Seq<char>>,
) -> (state: (Option<Network>, Option<Seq<char>>, Option<Seq<char>>))
    requires
        i <= args.len(),
        cli_from(args, i, network, flag, positional) is Run,
    ensures
        cli_from(args + more, i, network, flag, positional) == cli_from(
            args + more,
            args.len(),
            state.0,
            state.1,
            state.2,
        ),
        state.1 is None || state.2 is None,
        cli_from(args, i, network, flag, positional) == (CliView::Run {
            network: state.0,
            rpc_url: if state.1 is Some {
                state.1
            } else {
                state.2
            },
        }),
    decreases args.len() - i,
{
    if i == args.len() {
        (network, flag, positional)
    } else {
        let all = args + more;
        let arg = args[i as int]@;
        assert(all[i as int] == args[i as int]);
        if arg == "-n"@ || arg == "--network"@ {
            assert(all[i as int + 1] == args[i as int + 1]);
            lemma_read_on(
                args,
                more,
                i + 2,
                network_named(args[i as int + 1]@),
                flag,
                positional,
            )
        } else if arg == "-r"@ || arg == "--rpc-url"@ {
            assert(all[i as int + 1] == args[i as int + 1]);
            lemma_read_on(args, more, i + 2, network, Some(args[i as int + 1]@), positional)
        } else {
            lemma_read_on(args, more, i + 1, network, flag, Some(arg))
        }
    }
}

/// No arguments ask for a run with nothing set.
pub proof fn law_no_arguments()
    ensures
        said(Seq::empty()) == (CliView::Run { network: None, rpc_url: None }),
{
}

/// One more argument after those of a run: help is help whatever stood before it; an
/// option without its value, and an unknown option, are complaints; and an argument
/// without an option is the endpoint, where none was given.
pub proof fn law_one_more_argument(args: Seq<String>, last: String)
    requires
        said(args) is Run,
    ensures
        ({
            let option = last@;
            let now = said(args.push(last));
            let url = said(args)->rpc_url;
            &&& option == "-h"@ || option == "--help"@ ==> now is Help
            &&& option == "-n"@ || option == "--network"@ || option == "-r"@ || option
                == "--rpc-url"@ ==> now is Complaint
            &&& option.len() > 0 && option[0] == '-' && option != "-h"@ && option != "--help"@
                ==> now is Complaint
            &&& (option.len() == 0 || option[0] != '-') && url is None ==> now == (CliView::Run {
                network: said(args)->network,
                rpc_url: Some(option),
            })
            &&& (option.len() == 0 || option[0] != '-') && url is Some ==> now is Complaint
        }),
{
    reveal_strlit("-h");
    reveal_strlit("--help");
    reveal_strlit("-n");
    reveal_strlit("--network");
    reveal_strlit("-r");
    reveal_strlit("--rpc-url");
    let more = seq![last];
    assert(args.push(last) =~= args + more);
    let (network, flag, positional) = lemma_read_on(args, more, 0, None, None, None);
    let all = args + more;
    assert(all[args.len() as int] == last);
    reveal_with_fuel(cli_from, 3);
}

/// An option with its value after the arguments of a run: it sets the cluster that the
/// value names and leaves the endpoint, or it sets the endpoint and leaves the cluster.
/// A value that names no cluster is a complaint, and so is an endpoint beside one given
/// without an option.
pub proof fn law_one_more_option(args: Seq<String>, option: String, value: String)
    requires
        said(args) is Run,
    ensures
        ({
            let now = said(args.push(option).push(value));
            let before = said(args);
            &&& option@ == "-n"@ || option@ == "--network"@ ==> match network_named(value@) {
                Some(named) => now == (CliView::Run {
                    network: Some(named),
                    rpc_url: before->rpc_url,
                }),
                None => now == CliView::Complaint(network_complaint(value@)),
            }
            &&& option@ == "-r"@ || option@ == "--rpc-url"@ ==> {
                ||| now == (CliView::Run {
                    network: before->network,
                    rpc_url: Some(value@),
                })
                ||| before->rpc_url is Some && now is Complaint
            }
        }),
{
    reveal_strlit("-h");
    reveal_strlit("--help");
    reveal_strlit("-n");
    reveal_strlit("--network");
    reveal_strlit("-r");
    reveal_strlit("--rpc-url");
    let more = seq![option, value];
    assert(args.push(option).push(value) =~= args + more);
    let (network, flag, positional) = lemma_read_on(args, more, 0, None, None, None);
    let all = args + more;
    assert(all[args.len() as int] == option);
    assert(all[args.len() as int + 1] == value);
    reveal_with_fuel(cli_from, 3);
    if option@ == "-r"@ || option@ == "--rpc-url"@ {
        assert(option@ != "-n"@ && option@ != "--network"@) by {
            assert("-r"@.len() == 2 && "-r"@[1] == 'r');
            assert("-n"@.len() == 2 && "-n"@[1] == 'n');
            assert("--rpc-url"@[2] == 'r');
            assert("--network"@[2] == 'n');
        }
    }
}

/// `text` with its ASCII capitals made small.
pub open spec fn in_small_letters(text: Seq<char>) -> Seq<char> {
    text.map_values(|c: char| small(c))
}

proof fn lemma_small_start(text: Seq<char>)
    ensures
        trimmed_start(in_small_letters(text)) == in_small_letters(trimmed_start(text)),
    decreases text.len(),
{
    let other = in_small_letters(text);
    if text.len() > 0 {
        assert(other[0] == small(text[0]));
        if is_space(text[0]) {
            lemma_small_start(text.skip(1));
            assert(other.skip(1) =~= in_small_letters(text.skip(1)));
        }
    }
}

proof fn lemma_small_end(text: Seq<char>)
    ensures
        trimmed_end(in_small_letters(text)) == in_small_letters(trimmed_end(text)),
    decreases text.len(),
{
    let other = in_small_letters(text);
    if text.len() > 0 {
        assert(other.last() == small(text.last()));
        if is_space(text.last()) {
            lemma_small_end(text.drop_last());
            assert(other.drop_last() =~= in_small_letters(text.drop_last()));
        }
    }
}

/// Neither white space round a cluster's name nor the case of its letters matters.
pub proof fn law_cluster_names_are_forgiving(text: Seq<char>, c: char)
    ensures
        is_space(c) ==> network_named(seq![c] + text) == network_named(text),
        is_space(c) ==> network_named(text.push(c)) == network_named(text),
        network_named(in_small_letters(text)) == network_named(text),
{
    if is_space(c) {
        law_trimming_ignores_outer_space(text, c);
    }
    lemma_small_start(text);
    lemma_small_end(trimmed_start(text));
    let bare = trimmed_end(trimmed_start(text));
    assert(normalized(in_small_letters(text)) =~= in_small_letters(in_small_letters(bare)));
    assert(in_small_letters(in_small_letters(bare)) =~= in_small_letters(bare));
    assert(normalized(text) =~= in_small_letters(bare));
}

/// Mainnet goes by two names and devnet by one; nothing else names a cluster.
pub proof fn law_cluster_names(text: Seq<char>)
    ensures
        network_named("mainnet"@) == Some(Network::Mainnet),
        network_named("mainnet-beta"@) == Some(Network::Mainnet),
        network_named("devnet"@) == Some(Network::Devnet),
        ({
            let bare = in_small_letters(trimmed_end(trimmed_start(text)));
            network_named(text) is None <==> bare != "mainnet"@ && bare != "mainnet-beta"@ && bare
                != "devnet"@
        }),
{
    reveal_strlit("mainnet");
    reveal_strlit("mainnet-beta");
    reveal_strlit("devnet");
    lemma_bare("mainnet"@);
    lemma_bare("mainnet-beta"@);
    lemma_bare("devnet"@);
    assert("devnet"@.len() != "mainnet"@.len());
    assert("devnet"@.len() != "mainnet-beta"@.len());
    assert(normalized(text) =~= in_small_letters(trimmed_end(trimmed_start(text))));
}

proof fn lemma_bare(text: Seq<char>)
    requires
        text.len() > 0,
        forall|i: int|
            0 <= i < text.len() ==> !is_space(#[trigger] text[i]) && small(text[i]) == text[i],
    ensures
        normalized(text) == text,
{
    assert(!is_space(text[0]) && !is_space(text.last()));
    assert(normalized(text) =~= text);
}

/// A run is given the cluster and the endpoint that its command line names, and neither
/// where it names none; a complaint is handed on word for word.
pub proof fn law_command_lines_are_understood(view: CliView, r: Result<CliRequest, String>)
    requires
        understood(view, r),
    ensures
        view is Help <==> r == Ok::<CliRequest, String>(CliRequest::Help),
        view is Complaint <==> r is Err,
        r matches Err(message) ==> message@ == view->Complaint_0,
        r matches Ok(CliRequest::Run(cli)) ==> {
            &&& cli.network == view->network
            &&& cli.rpc_url matches Some(url) ==> view->rpc_url == Some(url@)
            &&& cli.rpc_url is None ==> view->rpc_url is None
        },
{
}

/// A text that names no cluster is quoted, normalized, in the complaint about it, and the
/// clusters have endpoints and lookup tables of their own.
pub proof fn law_clusters_are_told_apart(text: Seq<char>)
    ensures
        network_complaint(text) == "network must be devnet or mainnet (or mainnet-beta), got `"@
            + normalized(text) + "`"@,
        Network::Devnet.endpoint() == "https://api.devnet.solana.com"@,
        Network::Mainnet.endpoint() == "https://api.mainnet-beta.solana.com"@,
        Network::Devnet.lookup_table() == DEVNET_ALT,
        Network::Mainnet.lookup_table() == MAINNET_ALT,
{
}

} // verus!
