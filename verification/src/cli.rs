//! The command line: which command an argument list asks for.

use vstd::prelude::*;

use crate::text::same_text;

verus! {

pub const USAGE: &'static str = "warp-server — self-hosted Binary Ninja WARP server

USAGE:
    warp-server [serve]                          run the HTTP server (default)
    warp-server admin create <email> [username]  create an admin and print an API key
    warp-server admin key <email> [key-name]     mint a new API key for an existing user
    warp-server admin promote <email>            grant the Admin role to a user
    warp-server help

Configuration is read from the environment (and .env); see README.md.";

/// An administration command.
#[derive(Debug, Clone, PartialEq, Eq)]
pub enum AdminCommand {
    /// Create an admin and print an API key for them.
    Create { email: String, username: Option<String> },
    /// Mint a new API key for an existing user.
    Key { email: String, name: String },
    /// Grant the Admin role to a user.
    Promote { email: String },
}

/// What the program is asked to do.
#[derive(Debug, Clone, PartialEq, Eq)]
pub enum Command {
    Serve,
    Help,
    Admin(AdminCommand),
}

pub open spec fn texts(args: Seq<String>) -> Seq<Seq<char>> {
    args.map_values(|a: String| a@)
}

pub open spec fn opt_first(args: Seq<Seq<char>>) -> Option<Seq<char>> {
    if args.len() > 0 { Some(args[0]) } else { None }
}

/// The admin command that `args` (after `admin`) spell, or `None` when they
/// spell none.
pub open spec fn admin_spec(args: Seq<Seq<char>>) -> Option<(Seq<char>, Seq<char>, Option<Seq<char>>)> {
    if args.len() >= 2 && (args[0] == "create"@ || args[0] == "key"@) {
        Some((args[0], args[1], opt_first(args.skip(2))))
    } else if args.len() == 2 && args[0] == "promote"@ {
        Some((args[0], args[1], None))
    } else {
        None
    }
}

pub open spec fn admin_view(c: AdminCommand) -> (Seq<char>, Seq<char>, Option<Seq<char>>) {
    match c {
        AdminCommand::Create { email, username } => ("create"@, email@, match username { Some(u) => Some(u@), None => None }),
        AdminCommand::Key { email, name } => ("key"@, email@, Some(name@)),
        AdminCommand::Promote { email } => ("promote"@, email@, None),
    }
}

/// `c` is the admin command `cmd` for `email` with the optional extra
/// argument `extra`; a key with no name is named `cli`.
pub open spec fn admin_command_is(
    c: AdminCommand,
    cmd: Seq<char>,
    email: Seq<char>,
    extra: Option<Seq<char>>,
) -> bool {
    let v = admin_view(c);
    &&& v.0 == cmd
    &&& v.1 == email
    &&& if cmd == "key"@ {
        v.2 == Some(match extra { Some(n) => n, None => "cli"@ })
    } else {
        v.2 == extra
    }
}

/// `admin create <email> [username]`, `admin key <email> [key-name]` (the
/// key is named `cli` by default) or `admin promote <email>`; anything else
/// is an invalid admin command.
pub fn parse_admin(args: &Vec<String>) -> (r: Result<AdminCommand, String>)
    ensures
        match admin_spec(texts(args@)) {
            None => r matches Err(m) && m@ == "invalid admin command\n\n"@ + USAGE@,
            Some((cmd, email, extra)) => r matches Ok(c) && admin_command_is(c, cmd, email, extra),
        },
{
    proof {
        reveal_strlit("create");
        reveal_strlit("key");
        reveal_strlit("promote");
    }
    let ghost a = texts(args@);
    if args.len() >= 2 && same_text(args[0].as_str(), "create") {
        assert(a[0] == args@[0]@);
        let username = if args.len() > 2 { Some(args[2].clone()) } else { None };
        assert(args.len() > 2 ==> a.skip(2)[0] == args@[2]@);
        return Ok(AdminCommand::Create { email: args[1].clone(), username });
    }
    if args.len() >= 2 && same_text(args[0].as_str(), "key") {
        assert(a[0] == args@[0]@);
        let name = if args.len() > 2 { args[2].clone() } else { String::from_str("cli") };
        assert(args.len() > 2 ==> a.skip(2)[0] == args@[2]@);
        return Ok(AdminCommand::Key { email: args[1].clone(), name });
    }
    if args.len() == 2 && same_text(args[0].as_str(), "promote") {
        assert(a[0] == args@[0]@);
        return Ok(AdminCommand::Promote { email: args[1].clone() });
    }
    assert(args.len() >= 1 ==> a[0] == args@[0]@);
    Err(String::from_str("invalid admin command\n\n").concat(USAGE))
}

/// No command, or `serve`, runs the server; `help`, `--help` and `-h` print
/// the usage; `admin ...` is an administration command; anything else is
/// refused with the usage.
pub fn parse_command(args: &Vec<String>) -> (r: Result<Command, String>)
    ensures
        args@.len() == 0 ==> r == Ok::<Command, String>(Command::Serve),
        args@.len() > 0 && args@[0]@ == "serve"@ ==> r == Ok::<Command, String>(Command::Serve),
        args@.len() > 0 && (args@[0]@ == "help"@ || args@[0]@ == "--help"@ || args@[0]@ == "-h"@)
            ==> r == Ok::<Command, String>(Command::Help),
        args@.len() > 0 && args@[0]@ == "admin"@ ==> match admin_spec(texts(args@.skip(1))) {
            None => r matches Err(m) && m@ == "invalid admin command\n\n"@ + USAGE@,
            Some((cmd, email, extra)) => r matches Ok(Command::Admin(c)) && admin_command_is(c, cmd, email, extra),
        },
        args@.len() > 0 && !(args@[0]@ == "serve"@ || args@[0]@ == "help"@ || args@[0]@ == "--help"@
            || args@[0]@ == "-h"@ || args@[0]@ == "admin"@) ==> (r matches Err(m)
            && m@ == "unknown command '"@ + args@[0]@ + "'\n\n"@ + USAGE@),
{
    proof {
        reveal_strlit("serve");
        reveal_strlit("help");
        reveal_strlit("--help");
        reveal_strlit("-h");
        reveal_strlit("admin");
        assert("serve"@.len() != "help"@.len() && "serve"@.len() != "--help"@.len());
        assert("serve"@[0] != "-h"@[0] && "admin"@[0] != "help"@[0] && "admin"@.len() != "--help"@.len());
        assert("admin"@[0] != "-h"@[0] && "admin"@[0] != "serve"@[0]);
    }
    if args.len() == 0 {
        return Ok(Command::Serve);
    }
    let first = args[0].as_str();
    if same_text(first, "serve") {
        Ok(Command::Serve)
    } else if same_text(first, "help") || same_text(first, "--help") || same_text(first, "-h") {
        Ok(Command::Help)
    } else if same_text(first, "admin") {
        let mut rest: Vec<String> = Vec::new();
        let mut i: usize = 1;
        while i < args.len()
            invariant
                1 <= i <= args.len(),
                rest@ == args@.subrange(1, i as int),
            decreases args.len() - i,
        {
            rest.push(args[i].clone());
            i += 1;
        }
        assert(rest@ =~= args@.skip(1));
        match parse_admin(&rest) {
            Ok(c) => Ok(Command::Admin(c)),
            Err(m) => Err(m),
        }
    } else {
        Err(String::from_str("unknown command '").concat(first).concat("'\n\n").concat(USAGE))
    }
}

} // verus!
