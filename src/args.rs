//! Command-line options.

use vstd::prelude::*;
use crate::text::same_text;

verus! {

/// The options that shape a session.
#[derive(Debug, Clone, PartialEq, Eq)]
pub struct CliOptions {
    /// Address of the service; asked for interactively when absent.
    pub address: Option<String>,
    /// Path of a CA certificate; giving one turns encryption on.
    pub ca_cert_path: Option<String>,
    /// Server name to check the TLS certificate against.
    pub domain: Option<String>,
}

/// What the command line asks for.
#[derive(Debug, Clone, PartialEq, Eq)]
pub enum CliRequest {
    Help,
    Version,
    Run(CliOptions),
}

/// Which option an argument names, if any.
#[derive(Debug, Clone, Copy, PartialEq, Eq, Structural)]
pub enum Flag {
    Help,
    Version,
    Address,
    Cert,
    Domain,
    NotAFlag,
}

pub open spec fn flag_of(a: Seq<char>) -> Flag {
    if a == "--help"@ || a == "-h"@ {
        Flag::Help
    } else if a == "--version"@ || a == "-v"@ {
        Flag::Version
    } else if a == "--address"@ || a == "-a"@ {
        Flag::Address
    } else if a == "--cert"@ || a == "-c"@ {
        Flag::Cert
    } else if a == "--domain"@ || a == "-d"@ {
        Flag::Domain
    } else {
        Flag::NotAFlag
    }
}

/// Reads the arguments from position `i` on, with `acc` holding the options
/// gathered before it. Every position is read, values too; the first help
/// or version flag decides, and for a repeated option the last value wins.
/// An option with no value after it is ignored.
pub open spec fn parse_from(args: Seq<String>, i: nat, acc: CliOptions) -> CliRequest
    decreases args.len() - i,
{
    if i >= args.len() {
        CliRequest::Run(acc)
    } else {
        let value = if i + 1 < args.len() { Some(args[i + 1 as int]) } else { None };
        match flag_of(args[i as int]@) {
            Flag::Help => CliRequest::Help,
            Flag::Version => CliRequest::Version,
            Flag::Address => parse_from(args, i + 1, CliOptions {
                address: if value is Some { value } else { acc.address },
                ..acc
            }),
            Flag::Cert => parse_from(args, i + 1, CliOptions {
                ca_cert_path: if value is Some { value } else { acc.ca_cert_path },
                ..acc
            }),
            Flag::Domain => parse_from(args, i + 1, CliOptions {
                domain: if value is Some { value } else { acc.domain },
                ..acc
            }),
            Flag::NotAFlag => parse_from(args, i + 1, acc),
        }
    }
}

/// What the arguments (without the program name) ask for.
pub open spec fn parse_spec(args: Seq<String>) -> CliRequest {
    parse_from(args, 0, CliOptions { address: None, ca_cert_path: None, domain: None })
}

/// Which option `a` names.
pub fn flag(a: &str) -> (r: Flag)
    ensures
        r == flag_of(a@),
{
    if same_text(a, "--help") || same_text(a, "-h") {
        Flag::Help
    } else if same_text(a, "--version") || same_text(a, "-v") {
        Flag::Version
    } else if same_text(a, "--address") || same_text(a, "-a") {
        Flag::Address
    } else if same_text(a, "--cert") || same_text(a, "-c") {
        Flag::Cert
    } else if same_text(a, "--domain") || same_text(a, "-d") {
        Flag::Domain
    } else {
        Flag::NotAFlag
    }
}

/// Reads the command-line arguments that follow the program name.
pub fn parse_args(args: &Vec<String>) -> (r: CliRequest)
    ensures
        r == parse_spec(args@),
{
    let mut acc = CliOptions { address: None, ca_cert_path: None, domain: None };
    let n = args.len();
    let mut i: usize = 0;
    while i < n
        invariant
            n == args@.len(),
            i <= n,
            parse_from(args@, i as nat, acc) == parse_spec(args@),
        decreases n - i,
    {
        let value = if i + 1 < n { Some(args[i + 1].clone()) } else { None };
        match flag(args[i].as_str()) {
            Flag::Help => return CliRequest::Help,
            Flag::Version => return CliRequest::Version,
            Flag::Address => if value.is_some() {
                acc.address = value;
            },
            Flag::Cert => if value.is_some() {
                acc.ca_cert_path = value;
            },
            Flag::Domain => if value.is_some() {
                acc.domain = value;
            },
            Flag::NotAFlag => {},
        }
        i = i + 1;
    }
    CliRequest::Run(acc)
}

} // verus!
