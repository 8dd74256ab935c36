//! Reading the command line: which command runs, and the options of `connect` and `export`.
use crate::text::{chars_of, extend_str, is_text, occurs_at, starts_with, string_of};
use vstd::prelude::*;

verus! {

/// The characters of each argument.
pub open spec fn arg_views(args: Seq<String>) -> Seq<Seq<char>> {
    args.map_values(|a: String| a@)
}

/// The command a command line asks for.
pub enum Command {
    /// No command was given.
    NoCommand,
    Serve,
    /// `connect`; its arguments start at the third.
    Connect,
    Bind { lib_name: String, out_dir: String },
    Proxy { service: String },
    /// `export`; its arguments start at the third.
    Export,
    Help,
    /// `connect` or `proxy` without a service name; `true` for `proxy`.
    MissingService { proxy: bool },
    /// `bind` without a library path.
    MissingLibrary,
    /// `export` without a function name.
    MissingFunction,
    Unknown { command: String },
}

/// The contents of a `Command`, as character sequences.
pub enum CommandView {
    NoCommand,
    Serve,
    Connect,
    Bind { lib_name: Seq<char>, out_dir: Seq<char> },
    Proxy { service: Seq<char> },
    Export,
    Help,
    MissingService { proxy: bool },
    MissingLibrary,
    MissingFunction,
    Unknown { command: Seq<char> },
}

impl View for Command {
    type V = CommandView;

    open spec fn view(&self) -> CommandView {
        match self {
            Command::NoCommand => CommandView::NoCommand,
            Command::Serve => CommandView::Serve,
            Command::Connect => CommandView::Connect,
            Command::Bind { lib_name, out_dir } => CommandView::Bind {
                lib_name: lib_name@,
                out_dir: out_dir@,
            },
            Command::Proxy { service } => CommandView::Proxy { service: service@ },
            Command::Export => CommandView::Export,
            Command::Help => CommandView::Help,
            Command::MissingService { proxy } => CommandView::MissingService { proxy: *proxy },
            Command::MissingLibrary => CommandView::MissingLibrary,
            Command::MissingFunction => CommandView::MissingFunction,
            Command::Unknown { command } => CommandView::Unknown { command: command@ },
        }
    }
}

/// The command that the program's arguments (the program's own name first) ask for.
pub open spec fn command_of(args: Seq<Seq<char>>) -> CommandView {
    if args.len() < 2 {
        CommandView::NoCommand
    } else {
        let c = args[1];
        if c == "serve"@ {
            CommandView::Serve
        } else if c == "connect"@ {
            if args.len() < 3 {
                CommandView::MissingService { proxy: false }
            } else {
                CommandView::Connect
            }
        } else if c == "bind"@ {
            if args.len() < 3 {
                CommandView::MissingLibrary
            } else {
                CommandView::Bind {
                    lib_name: args[2],
                    out_dir: if args.len() > 4 && args[3] == "--out"@ {
                        args[4]
                    } else {
                        "lib/ffi/generated/"@ + args[2]
                    },
                }
            }
        } else if c == "proxy"@ {
            if args.len() < 3 {
                CommandView::MissingService { proxy: true }
            } else {
                CommandView::Proxy { service: args[2] }
            }
        } else if c == "export"@ {
            if args.len() < 3 {
                CommandView::MissingFunction
            } else {
                CommandView::Export
            }
        } else if c == "-h"@ || c == "--help"@ || c == "help"@ {
            CommandView::Help
        } else {
            CommandView::Unknown { command: c }
        }
    }
}

fn copy_string(s: &String) -> (out: String)
    ensures
        out@ == s@,
{
    s.clone()
}

/// Read the command from the program's arguments (the program's own name first).
pub fn parse_command(args: &[String]) -> (cmd: Command)
    ensures
        cmd@ == command_of(arg_views(args@)),
{
    let ghost a = arg_views(args@);
    if args.len() < 2 {
        return Command::NoCommand;
    }
    assert(a[1] == args@[1]@);
    let c = args[1].as_str();
    if str_is(c, "serve") {
        Command::Serve
    } else if str_is(c, "connect") {
        if args.len() < 3 {
            Command::MissingService { proxy: false }
        } else {
            Command::Connect
        }
    } else if str_is(c, "bind") {
        if args.len() < 3 {
            Command::MissingLibrary
        } else {
            assert(a[2] == args@[2]@);
            let lib_name = copy_string(&args[2]);
            if args.len() > 4 {
                assert(a[3] == args@[3]@);
            }
            let out_dir = if args.len() > 4 && str_is(args[3].as_str(), "--out") {
                assert(a[3] == args@[3]@);
                assert(a[4] == args@[4]@);
                copy_string(&args[4])
            } else {
                let mut d: Vec<char> = Vec::new();
                extend_str(&mut d, "lib/ffi/generated/");
                extend_str(&mut d, args[2].as_str());
                string_of(&d)
            };
            Command::Bind { lib_name, out_dir }
        }
    } else if str_is(c, "proxy") {
        if args.len() < 3 {
            Command::MissingService { proxy: true }
        } else {
            assert(a[2] == args@[2]@);
            Command::Proxy { service: copy_string(&args[2]) }
        }
    } else if str_is(c, "export") {
        if args.len() < 3 {
            Command::MissingFunction
        } else {
            Command::Export
        }
    } else if str_is(c, "-h") || str_is(c, "--help") || str_is(c, "help") {
        Command::Help
    } else {
        Command::Unknown { command: copy_string(&args[1]) }
    }
}

fn str_is(a: &str, b: &str) -> (r: bool)
    ensures
        r == (a@ == b@),
{
    is_text(&chars_of(a), b)
}

/// The directory that holds channel files: the one `METROPIPE_DIR` names where
/// it is set, else `/dev/shm` where it exists (Linux), else `/tmp` where it
/// exists (macOS), else `./.metropipe`.
pub open spec fn channel_dir_of(
    env_dir: Option<Seq<char>>,
    dev_shm_exists: bool,
    tmp_exists: bool,
) -> Seq<char> {
    match env_dir {
        Some(d) => d,
        None => if dev_shm_exists {
            "/dev/shm"@
        } else if tmp_exists {
            "/tmp"@
        } else {
            "./.metropipe"@
        },
    }
}

/// The path of a service's channel file in the directory `channel_dir_of` picks.
pub open spec fn channel_path_of(
    service: Seq<char>,
    env_dir: Option<Seq<char>>,
    dev_shm_exists: bool,
    tmp_exists: bool,
) -> Seq<char> {
    channel_dir_of(env_dir, dev_shm_exists, tmp_exists) + "/metro_"@ + service
}

/// The path of a service's channel file, given the value of `METROPIPE_DIR`
/// (where it is set) and whether `/dev/shm` and `/tmp` exist.
pub fn channel_path(
    service: &str,
    env_dir: Option<&str>,
    dev_shm_exists: bool,
    tmp_exists: bool,
) -> (path: String)
    ensures
        path@ == channel_path_of(
            service@,
            match env_dir {
                Some(d) => Some(d@),
                None => None,
            },
            dev_shm_exists,
            tmp_exists,
        ),
{
    let mut d: Vec<char> = Vec::new();
    match env_dir {
        Some(dir) => extend_str(&mut d, dir),
        None => if dev_shm_exists {
            extend_str(&mut d, "/dev/shm")
        } else if tmp_exists {
            extend_str(&mut d, "/tmp")
        } else {
            extend_str(&mut d, "./.metropipe")
        },
    }
    extend_str(&mut d, "/metro_");
    extend_str(&mut d, service);
    string_of(&d)
}

// ---------------------------------------------------------------- connect

/// The options of `connect`.
pub struct ConnectOptions {
    pub service: String,
    pub send: Option<String>,
    pub listen: bool,
    pub gen_stubs: bool,
    pub stubs_dir: String,
}

/// The options of `connect`, as character sequences.
pub struct ConnectView {
    pub service: Seq<char>,
    pub send: Option<Seq<char>>,
    pub listen: bool,
    pub gen_stubs: bool,
    pub stubs_dir: Seq<char>,
}

impl View for ConnectOptions {
    type V = ConnectView;

    open spec fn view(&self) -> ConnectView {
        ConnectView {
            service: self.service@,
            send: match self.send {
                Some(s) => Some(s@),
                None => None,
            },
            listen: self.listen,
            gen_stubs: self.gen_stubs,
            stubs_dir: self.stubs_dir@,
        }
    }
}

/// Whether an argument is a flag: it begins with `--`.
pub open spec fn is_flag(a: Seq<char>) -> bool {
    occurs_at(a, "--"@, 0)
}

/// Reading the flags of `connect` from argument `i` on, with `o` read so far.
pub open spec fn connect_flags_from(args: Seq<Seq<char>>, i: int, o: ConnectView) -> ConnectView
    decreases args.len() - i,
{
    if i < 0 || i >= args.len() {
        o
    } else if args[i] == "--send"@ && i + 1 < args.len() {
        connect_flags_from(args, i + 2, ConnectView { send: Some(args[i + 1]), ..o })
    } else if args[i] == "--listen"@ {
        connect_flags_from(args, i + 1, ConnectView { listen: true, ..o })
    } else if args[i] == "--gen-stubs"@ {
        if i + 1 < args.len() && !is_flag(args[i + 1]) {
            connect_flags_from(
                args,
                i + 2,
                ConnectView { gen_stubs: true, stubs_dir: args[i + 1], ..o },
            )
        } else {
            connect_flags_from(
                args,
                i + 1,
                ConnectView {
                    gen_stubs: true,
                    stubs_dir: "metropipe_"@ + o.service + "_stubs"@,
                    ..o
                },
            )
        }
    } else {
        connect_flags_from(args, i + 1, o)
    }
}

/// The options that the arguments of `connect` (the service name first) give.
pub open spec fn connect_options_of(args: Seq<Seq<char>>) -> ConnectView {
    connect_flags_from(
        args,
        1,
        ConnectView {
            service: args[0],
            send: None,
            listen: false,
            gen_stubs: false,
            stubs_dir: Seq::empty(),
        },
    )
}

/// Read the options of `connect` from its arguments, the service name first.
pub fn parse_connect_args(args: &[String]) -> (o: ConnectOptions)
    requires
        args@.len() >= 1,
    ensures
        o@ == connect_options_of(arg_views(args@)),
{
    let ghost a = arg_views(args@);
    assert(a[0] == args@[0]@);
    let mut o = ConnectOptions {
        service: copy_string(&args[0]),
        send: None,
        listen: false,
        gen_stubs: false,
        stubs_dir: String::new(),
    };
    let dash = chars_of("--");
    let mut i: usize = 1;
    while i < args.len()
        invariant
            a == arg_views(args@),
            dash@ == "--"@,
            1 <= i <= args@.len(),
            connect_flags_from(a, i as int, o@) == connect_options_of(a),
        decreases args@.len() - i,
    {
        assert(a[i as int] == args@[i as int]@);
        let arg = args[i].as_str();
        if str_is(arg, "--send") && i + 1 < args.len() {
            assert(a[i + 1] == args@[i + 1]@);
            o.send = Some(copy_string(&args[i + 1]));
            i = i + 2;
        } else if str_is(arg, "--listen") {
            o.listen = true;
            i = i + 1;
        } else if str_is(arg, "--gen-stubs") {
            o.gen_stubs = true;
            if i + 1 < args.len() && !starts_with(&chars_of(args[i + 1].as_str()), &dash) {
                assert(a[i + 1] == args@[i + 1]@);
                o.stubs_dir = copy_string(&args[i + 1]);
                i = i + 2;
            } else {
                let mut d: Vec<char> = Vec::new();
                extend_str(&mut d, "metropipe_");
                extend_str(&mut d, o.service.as_str());
                extend_str(&mut d, "_stubs");
                o.stubs_dir = string_of(&d);
                i = i + 1;
            }
        } else {
            i = i + 1;
        }
    }
    o
}

} // verus!
