//! The command line: one binary serves one role, named together with its
//! port by `--service-instance <role>:<port>`, on the address given by
//! `--bind-host <ip>`.

use vstd::prelude::*;
use crate::text::{parse_port, port_number, same_text};

verus! {

pub const USAGE: &'static str = "Usage: military-portal --service-instance <citizen|officer|admin>:<port> --bind-host <ip>";

/// The role a service instance serves.
#[derive(Clone, Copy, Debug, PartialEq, Eq, Structural)]
pub enum ServiceRole {
    Citizen,
    Officer,
    Admin,
}

impl ServiceRole {
    pub open spec fn spec_name(&self) -> Seq<char> {
        match self {
            ServiceRole::Citizen => "citizen"@,
            ServiceRole::Officer => "officer"@,
            ServiceRole::Admin => "admin"@,
        }
    }

    /// The role's name, as the gateway's role header carries it.
    pub fn name(&self) -> (n: &'static str)
        ensures
            n@ == self.spec_name(),
    {
        match self {
            ServiceRole::Citizen => "citizen",
            ServiceRole::Officer => "officer",
            ServiceRole::Admin => "admin",
        }
    }
}

pub open spec fn role_named(s: Seq<char>) -> Option<ServiceRole> {
    if s == "citizen"@ {
        Some(ServiceRole::Citizen)
    } else if s == "officer"@ {
        Some(ServiceRole::Officer)
    } else if s == "admin"@ {
        Some(ServiceRole::Admin)
    } else {
        None
    }
}

/// The role of the given name.
pub fn parse_role(s: &str) -> (r: Option<ServiceRole>)
    ensures
        r == role_named(s@),
{
    if same_text(s, "citizen") {
        Some(ServiceRole::Citizen)
    } else if same_text(s, "officer") {
        Some(ServiceRole::Officer)
    } else if same_text(s, "admin") {
        Some(ServiceRole::Admin)
    } else {
        None
    }
}

pub open spec fn health_message(role: ServiceRole) -> Seq<char> {
    role.spec_name() + "-service ok"@
}

/// The body of `GET /health`.
pub fn health_text(role: ServiceRole) -> (s: String)
    ensures
        s@ == health_message(role),
{
    let mut s = String::from_str(role.name());
    s.append("-service ok");
    s
}

/// A valid command line.
pub struct CliArgs {
    pub service_role: ServiceRole,
    pub bind_host: String,
    pub port: u16,
}

/// What the command line asks for.
pub enum CliCommand {
    /// Print `USAGE` and stop successfully.
    Help,
    /// Report the message (see `cli_error_text`) and stop with status 2.
    Fail(String),
    Run(CliArgs),
}

pub enum CliCommandView {
    Help,
    Fail(Seq<char>),
    Run { role: ServiceRole, bind_host: Seq<char>, port: u16 },
}

impl View for CliCommand {
    type V = CliCommandView;

    open spec fn view(&self) -> CliCommandView {
        match self {
            CliCommand::Help => CliCommandView::Help,
            CliCommand::Fail(m) => CliCommandView::Fail(m@),
            CliCommand::Run(a) => CliCommandView::Run { role: a.service_role, bind_host: a.bind_host@, port: a.port },
        }
    }
}

/// How a left-to-right pass over the arguments ends.
pub enum Scan {
    Help,
    MissingValue(Seq<char>),
    Unknown(Seq<char>),
    Done { instance: Option<Seq<char>>, host: Option<Seq<char>> },
}

pub open spec fn is_help_flag(a: Seq<char>) -> bool {
    a == "-h"@ || a == "--help"@
}

/// The pass over `args` from position `i` on: a help flag stops it; every
/// other argument is a flag that takes the next argument as its value; a
/// flag given twice keeps the later value.
pub open spec fn scan(args: Seq<Seq<char>>, i: int, instance: Option<Seq<char>>, host: Option<Seq<char>>) -> Scan
    decreases args.len() - i,
{
    if i < 0 || i >= args.len() {
        Scan::Done { instance, host }
    } else if is_help_flag(args[i]) {
        Scan::Help
    } else if i + 1 >= args.len() {
        Scan::MissingValue(args[i])
    } else if args[i] == "--service-instance"@ {
        scan(args, i + 2, Some(args[i + 1]), host)
    } else if args[i] == "--bind-host"@ {
        scan(args, i + 2, instance, Some(args[i + 1]))
    } else {
        Scan::Unknown(args[i])
    }
}

/// `k` is the position of the first colon of `v`.
pub open spec fn first_colon_at(v: Seq<char>, k: int) -> bool {
    &&& 0 <= k < v.len()
    &&& v[k] == ':'
    &&& forall|j: int| 0 <= j < k ==> v[j] != ':'
}

/// `<role>:<port>` split at its first colon.
pub open spec fn split_instance(v: Seq<char>) -> Option<(Seq<char>, Seq<char>)> {
    if exists|k: int| first_colon_at(v, k) {
        let k = choose|k: int| first_colon_at(v, k);
        Some((v.take(k), v.skip(k + 1)))
    } else {
        None
    }
}

pub open spec fn quoted(prefix: Seq<char>, value: Seq<char>) -> Seq<char> {
    prefix + " (got '"@ + value + "')"@
}

/// The meaning of a command line (without the program's name).
pub open spec fn cli_command(args: Seq<Seq<char>>) -> CliCommandView {
    match scan(args, 0, None, None) {
        Scan::Help => CliCommandView::Help,
        Scan::MissingValue(a) => CliCommandView::Fail("missing value for "@ + a),
        Scan::Unknown(a) => CliCommandView::Fail("unknown argument: "@ + a),
        Scan::Done { instance, host } => match instance {
            None => CliCommandView::Fail("--service-instance is required"@),
            Some(v) => match split_instance(v) {
                None => CliCommandView::Fail(quoted("--service-instance must be <role>:<port>"@, v)),
                Some((role, port)) => match role_named(role) {
                    None => CliCommandView::Fail(
                        quoted("--service-instance role must be one of: citizen, officer, admin"@, role),
                    ),
                    Some(r) => match port_number(port) {
                        None => CliCommandView::Fail(quoted("--service-instance port must be a valid port"@, port)),
                        Some(p) => match host {
                            None => CliCommandView::Fail("--bind-host is required"@),
                            Some(h) => CliCommandView::Run { role: r, bind_host: h, port: p },
                        },
                    },
                },
            },
        },
    }
}

proof fn lemma_first_colon_unique(v: Seq<char>, k1: int, k2: int)
    requires
        first_colon_at(v, k1),
        first_colon_at(v, k2),
    ensures
        k1 == k2,
{
    if k1 < k2 {
        assert(v[k1] != ':');
    } else if k2 < k1 {
        assert(v[k2] != ':');
    }
}

/// Splits `<role>:<port>` at its first colon.
pub fn split_at_first_colon(v: &str) -> (r: Option<(String, String)>)
    ensures
        match split_instance(v@) {
            Some((a, b)) => r matches Some((x, y)) && x@ == a && y@ == b,
            None => r is None,
        },
{
    let n = v.unicode_len();
    let mut k: usize = 0;
    while k < n
        invariant
            n == v@.len(),
            k <= n,
            forall|j: int| 0 <= j < k ==> v@[j] != ':',
        decreases n - k,
    {
        if v.get_char(k) == ':' {
            assert(first_colon_at(v@, k as int));
            proof {
                let c = choose|c: int| first_colon_at(v@, c);
                lemma_first_colon_unique(v@, c, k as int);
            }
            let role = String::from_str(v.substring_char(0, k));
            let port = String::from_str(v.substring_char(k + 1, n));
            assert(v@.subrange(0, k as int) =~= v@.take(k as int));
            assert(v@.subrange(k + 1, n as int) =~= v@.skip(k + 1));
            return Some((role, port));
        }
        k = k + 1;
    }
    assert(!exists|c: int| first_colon_at(v@, c));
    None
}

fn text_with_quote(prefix: &str, value: &str) -> (s: String)
    ensures
        s@ == quoted(prefix@, value@),
{
    let mut s = String::from_str(prefix);
    s.append(" (got '");
    s.append(value);
    s.append("')");
    s
}

fn text_after(prefix: &str, value: &str) -> (s: String)
    ensures
        s@ == prefix@ + value@,
{
    let mut s = String::from_str(prefix);
    s.append(value);
    s
}

/// Reads the command line (without the program's name).
pub fn parse_command_line(args: &Vec<String>) -> (c: CliCommand)
    ensures
        c@ == cli_command(args.deep_view()),
{
    let ghost a = args.deep_view();
    let n = args.len();
    let mut instance: Option<String> = None;
    let mut host: Option<String> = None;
    let mut i: usize = 0;
    while i < n
        invariant
            n == args@.len(),
            a == args.deep_view(),
            i <= n,
            scan(a, 0, None, None) == scan(a, i as int, instance.deep_view(), host.deep_view()),
        decreases n - i,
    {
        let arg = args[i].as_str();
        assert(arg@ == a[i as int]);
        if same_text(arg, "-h") || same_text(arg, "--help") {
            return CliCommand::Help;
        }
        if i + 1 >= n {
            return CliCommand::Fail(text_after("missing value for ", arg));
        }
        let value = args[i + 1].clone();
        assert(value@ == a[i + 1]);
        if same_text(arg, "--service-instance") {
            instance = Some(value);
        } else if same_text(arg, "--bind-host") {
            host = Some(value);
        } else {
            return CliCommand::Fail(text_after("unknown argument: ", arg));
        }
        i = i + 2;
    }
    let instance = match instance {
        Some(v) => v,
        None => {
            return CliCommand::Fail(String::from_str("--service-instance is required"));
        },
    };
    let (role_text, port_text) = match split_at_first_colon(instance.as_str()) {
        Some(parts) => parts,
        None => {
            return CliCommand::Fail(
                text_with_quote("--service-instance must be <role>:<port>", instance.as_str()),
            );
        },
    };
    let role = match parse_role(role_text.as_str()) {
        Some(r) => r,
        None => {
            return CliCommand::Fail(text_with_quote(
                "--service-instance role must be one of: citizen, officer, admin",
                role_text.as_str(),
            ));
        },
    };
    let port = match parse_port(port_text.as_str()) {
        Some(p) => p,
        None => {
            return CliCommand::Fail(
                text_with_quote("--service-instance port must be a valid port", port_text.as_str()),
            );
        },
    };
    match host {
        Some(h) => CliCommand::Run(CliArgs { service_role: role, bind_host: h, port }),
        None => CliCommand::Fail(String::from_str("--bind-host is required")),
    }
}

pub open spec fn cli_error_message(message: Seq<char>) -> Seq<char> {
    "error: "@ + message + "\n\n"@ + USAGE@
}

/// What a failed command line prints to standard error.
pub fn cli_error_text(message: &str) -> (s: String)
    ensures
        s@ == cli_error_message(message@),
{
    let mut s = String::from_str("error: ");
    s.append(message);
    s.append("\n\n");
    s.append(USAGE);
    s
}

} // verus!
