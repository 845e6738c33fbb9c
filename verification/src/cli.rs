//! Command-line parsing.

use vstd::prelude::*;
use crate::config::{Config, logs_in_data_dir};
use crate::error::{Error, ErrorView};

verus! {

#[derive(Debug, Clone, Copy, PartialEq, Eq, Structural)]
pub enum Command {
    /// Foreground daemon. The default.
    Run,
    Install,
    Uninstall,
    /// Under the SCM. Set by the registration, not typed by hand.
    Service,
}

#[derive(Debug)]
pub struct Cli {
    pub command: Command,
    pub config: Config,
    /// The overrides seen, so `--install` can pass them into the registration.
    pub passthrough: Vec<String>,
}

/// What the arguments read so far have set.
pub struct ParseState {
    pub command: Command,
    /// The last `--child` value, if any.
    pub child_path: Option<Seq<char>>,
    /// The last `--data-dir` value, if any.
    pub data_dir: Option<Seq<char>>,
    /// Each override seen, flag then value, in order.
    pub passthrough: Seq<Seq<char>>,
}

pub enum ParseOutcome {
    Parsed(ParseState),
    /// The message of the configuration error.
    Failed(Seq<char>),
}

/// Nothing read yet.
pub open spec fn initial_state() -> ParseState {
    ParseState { command: Command::Run, child_path: None, data_dir: None, passthrough: Seq::empty() }
}

pub open spec fn unknown_flag_message(arg: Seq<char>) -> Seq<char> {
    "don't know '"@ + arg + "'; flags are --install, --uninstall, --child, --data-dir"@
}

pub open spec fn missing_value_message(flag: Seq<char>) -> Seq<char> {
    flag + " needs a value"@
}

/// Reads `args` in order, from state `st`. Command flags overwrite the
/// command; `--child` and `--data-dir` take the next argument as their value
/// and are recorded for the passthrough; anything else is refused.
pub open spec fn parse_args(args: Seq<Seq<char>>, st: ParseState) -> ParseOutcome
    decreases args.len(),
{
    if args.len() == 0 {
        ParseOutcome::Parsed(st)
    } else {
        let a = args[0];
        if a == "--install"@ {
            parse_args(args.skip(1), ParseState { command: Command::Install, ..st })
        } else if a == "--uninstall"@ {
            parse_args(args.skip(1), ParseState { command: Command::Uninstall, ..st })
        } else if a == "--service"@ {
            parse_args(args.skip(1), ParseState { command: Command::Service, ..st })
        } else if a == "--child"@ || a == "--data-dir"@ {
            if args.len() < 2 {
                ParseOutcome::Failed(missing_value_message(a))
            } else {
                let v = args[1];
                let next = if a == "--child"@ {
                    ParseState { child_path: Some(v), passthrough: st.passthrough + seq![a, v], ..st }
                } else {
                    ParseState { data_dir: Some(v), passthrough: st.passthrough + seq![a, v], ..st }
                };
                parse_args(args.skip(2), next)
            }
        } else {
            ParseOutcome::Failed(unknown_flag_message(a))
        }
    }
}

pub open spec fn texts(v: Seq<String>) -> Seq<Seq<char>> {
    v.map_values(|s: String| s@)
}

/// `cli` is what the agent runs with after reading to state `st`, starting
/// from the configuration `defaults`.
pub open spec fn cli_matches(cli: Cli, st: ParseState, defaults: Config) -> bool {
    &&& cli.command == st.command
    &&& texts(cli.passthrough@) == st.passthrough
    &&& cli.config.child_path@ == match st.child_path {
        Some(p) => p,
        None => defaults.child_path@,
    }
    &&& match st.data_dir {
        Some(d) => cli.config.data_dir@ == d && logs_in_data_dir(cli.config),
        None => {
            &&& cli.config.data_dir@ == defaults.data_dir@
            &&& cli.config.agent_log@ == defaults.agent_log@
            &&& cli.config.child_log@ == defaults.child_log@
        },
    }
    &&& cli.config.interval_ms == defaults.interval_ms
    &&& cli.config.max_backoff_ms == defaults.max_backoff_ms
    &&& cli.config.console == (st.command == Command::Run)
}

/// The five flags are distinct texts.
proof fn lemma_flags_distinct()
    ensures
        "--install"@ != "--uninstall"@,
        "--install"@ != "--service"@,
        "--install"@ != "--child"@,
        "--install"@ != "--data-dir"@,
        "--uninstall"@ != "--service"@,
        "--uninstall"@ != "--child"@,
        "--uninstall"@ != "--data-dir"@,
        "--service"@ != "--child"@,
        "--service"@ != "--data-dir"@,
        "--child"@ != "--data-dir"@,
{
    reveal_strlit("--install");
    reveal_strlit("--uninstall");
    reveal_strlit("--service");
    reveal_strlit("--child");
    reveal_strlit("--data-dir");
    assert("--install"@[2] != "--service"@[2]);
    assert("--uninstall"@.len() == 11);
    assert("--child"@.len() == 7);
    assert("--data-dir"@.len() == 10);
}

/// Reading `args` from `st` leaves the overrides it saw as a suffix `p` of
/// the passthrough, and reading `p` alone from any state that agrees with
/// `st` on the overrides reaches the same overrides, keeping that state's
/// command.
proof fn lemma_overrides_replay(args: Seq<Seq<char>>, st: ParseState, t: ParseState)
    requires
        parse_args(args, st) is Parsed,
        t.child_path == st.child_path,
        t.data_dir == st.data_dir,
    ensures
        ({
            let fin = parse_args(args, st)->Parsed_0;
            let p = fin.passthrough.skip(st.passthrough.len() as int);
            &&& st.passthrough.len() <= fin.passthrough.len()
            &&& fin.passthrough == st.passthrough + p
            &&& parse_args(p, t) == ParseOutcome::Parsed(ParseState {
                command: t.command,
                child_path: fin.child_path,
                data_dir: fin.data_dir,
                passthrough: t.passthrough + p,
            })
        }),
    decreases args.len(),
{
    lemma_flags_distinct();
    let fin = parse_args(args, st)->Parsed_0;
    if args.len() == 0 {
        assert(fin.passthrough.skip(st.passthrough.len() as int) =~= Seq::<Seq<char>>::empty());
        assert(t.passthrough + Seq::<Seq<char>>::empty() =~= t.passthrough);
        assert(fin.passthrough =~= st.passthrough + Seq::<Seq<char>>::empty());
    } else {
        let a = args[0];
        if a == "--install"@ || a == "--uninstall"@ || a == "--service"@ {
            let c = if a == "--install"@ {
                Command::Install
            } else if a == "--uninstall"@ {
                Command::Uninstall
            } else {
                Command::Service
            };
            lemma_overrides_replay(args.skip(1), ParseState { command: c, ..st }, t);
        } else {
            let v = args[1];
            let next = if a == "--child"@ {
                ParseState { child_path: Some(v), passthrough: st.passthrough + seq![a, v], ..st }
            } else {
                ParseState { data_dir: Some(v), passthrough: st.passthrough + seq![a, v], ..st }
            };
            let t2 = if a == "--child"@ {
                ParseState { child_path: Some(v), passthrough: t.passthrough + seq![a, v], ..t }
            } else {
                ParseState { data_dir: Some(v), passthrough: t.passthrough + seq![a, v], ..t }
            };
            lemma_overrides_replay(args.skip(2), next, t2);
            let q = fin.passthrough.skip(next.passthrough.len() as int);
            let p = fin.passthrough.skip(st.passthrough.len() as int);
            assert(p =~= seq![a, v] + q);
            assert(p[0] == a);
            assert(p[1] == v);
            assert(p.skip(2) =~= q);
            assert(t2.passthrough + q =~= t.passthrough + p);
            assert(fin.passthrough =~= st.passthrough + p);
        }
    }
}

/// Law: the overrides that `parse` collects for `--install` reproduce the
/// same configuration when the registered service reads them back behind
/// `--service`: the service copy sees the same child path and data
/// directory, the same overrides again, and runs as the service.
pub proof fn lemma_passthrough_round_trip(args: Seq<Seq<char>>)
    requires
        parse_args(args, initial_state()) is Parsed,
    ensures
        ({
            let fin = parse_args(args, initial_state())->Parsed_0;
            parse_args(seq!["--service"@] + fin.passthrough, initial_state()) == ParseOutcome::Parsed(
                ParseState {
                    command: Command::Service,
                    child_path: fin.child_path,
                    data_dir: fin.data_dir,
                    passthrough: fin.passthrough,
                },
            )
        }),
{
    lemma_flags_distinct();
    let fin = parse_args(args, initial_state())->Parsed_0;
    let t = ParseState { command: Command::Service, ..initial_state() };
    lemma_overrides_replay(args, initial_state(), t);
    assert(fin.passthrough.skip(0) =~= fin.passthrough);
    let full = seq!["--service"@] + fin.passthrough;
    assert(full[0] == "--service"@);
    assert(full.skip(1) =~= fin.passthrough);
    assert(Seq::<Seq<char>>::empty() + fin.passthrough =~= fin.passthrough);
}

/// The command line the service manager starts the registered agent with:
/// `--service`, then the overrides given to `--install`, in order.
pub fn launch_arguments(passthrough: &Vec<String>) -> (args: Vec<String>)
    ensures
        texts(args@) == seq!["--service"@] + texts(passthrough@),
{
    let mut args: Vec<String> = Vec::new();
    args.push(String::from_str("--service"));
    let n = passthrough.len();
    let mut i: usize = 0;
    while i < n
        invariant
            n == passthrough.len(),
            i <= n,
            texts(args@) == seq!["--service"@] + texts(passthrough@).take(i as int),
        decreases n - i,
    {
        let ghost before = args@;
        args.push(passthrough[i].clone());
        proof {
            assert(texts(passthrough@).take(i + 1) =~= texts(passthrough@).take(i as int).push(passthrough@[i as int]@));
            assert(texts(args@) =~= texts(before).push(passthrough@[i as int]@));
        }
        i = i + 1;
    }
    proof {
        assert(texts(passthrough@).take(n as int) =~= texts(passthrough@));
    }
    args
}

/// Reading `args` then `more` is reading `more` from where `args` left off,
/// when `args` reads cleanly.
proof fn lemma_parse_concat(args: Seq<Seq<char>>, more: Seq<Seq<char>>, st: ParseState)
    requires
        parse_args(args, st) is Parsed,
    ensures
        parse_args(args + more, st) == parse_args(more, parse_args(args, st)->Parsed_0),
    decreases args.len(),
{
    if args.len() == 0 {
        assert(args + more =~= more);
    } else {
        let all = args + more;
        let a = args[0];
        assert(all[0] == a);
        if a == "--install"@ || a == "--uninstall"@ || a == "--service"@ {
            assert(all.skip(1) =~= args.skip(1) + more);
            let c = if a == "--install"@ {
                Command::Install
            } else if a == "--uninstall"@ {
                Command::Uninstall
            } else {
                Command::Service
            };
            lemma_parse_concat(args.skip(1), more, ParseState { command: c, ..st });
        } else {
            let v = args[1];
            assert(all[1] == v);
            assert(all.skip(2) =~= args.skip(2) + more);
            let next = if a == "--child"@ {
                ParseState { child_path: Some(v), passthrough: st.passthrough + seq![a, v], ..st }
            } else {
                ParseState { data_dir: Some(v), passthrough: st.passthrough + seq![a, v], ..st }
            };
            lemma_parse_concat(args.skip(2), more, next);
        }
    }
}

/// Law: a command flag at the end of any argument list that reads cleanly
/// selects its command and changes nothing else; the last command flag wins.
pub proof fn lemma_later_command_wins(args: Seq<Seq<char>>, st: ParseState, flag: Seq<char>)
    requires
        parse_args(args, st) is Parsed,
        flag == "--install"@ || flag == "--uninstall"@ || flag == "--service"@,
    ensures
        ({
            let fin = parse_args(args, st)->Parsed_0;
            parse_args(args + seq![flag], st) == ParseOutcome::Parsed(ParseState {
                command: if flag == "--install"@ {
                    Command::Install
                } else if flag == "--uninstall"@ {
                    Command::Uninstall
                } else {
                    Command::Service
                },
                child_path: fin.child_path,
                data_dir: fin.data_dir,
                passthrough: fin.passthrough,
            })
        }),
{
    lemma_flags_distinct();
    lemma_parse_concat(args, seq![flag], st);
    assert(seq![flag][0] == flag);
    assert(seq![flag].skip(1) =~= Seq::<Seq<char>>::empty());
    reveal_with_fuel(parse_args, 2);
}

/// Law: `--child v` or `--data-dir v` at the end of any argument list that
/// reads cleanly sets that override to `v` and appends the pair to the
/// passthrough, whatever came before; nothing else changes. So the child
/// path and data directory are the values after the last such flags, and
/// the passthrough is every override pair, in order.
pub proof fn lemma_later_override_wins(args: Seq<Seq<char>>, st: ParseState, flag: Seq<char>, v: Seq<char>)
    requires
        parse_args(args, st) is Parsed,
        flag == "--child"@ || flag == "--data-dir"@,
    ensures
        ({
            let fin = parse_args(args, st)->Parsed_0;
            parse_args(args + seq![flag, v], st) == ParseOutcome::Parsed(ParseState {
                command: fin.command,
                child_path: if flag == "--child"@ { Some(v) } else { fin.child_path },
                data_dir: if flag == "--data-dir"@ { Some(v) } else { fin.data_dir },
                passthrough: fin.passthrough + seq![flag, v],
            })
        }),
{
    lemma_flags_distinct();
    lemma_parse_concat(args, seq![flag, v], st);
    let x = seq![flag, v];
    assert(x[0] == flag);
    assert(x[1] == v);
    assert(x.skip(2) =~= Seq::<Seq<char>>::empty());
    reveal_with_fuel(parse_args, 2);
}

/// Law: after any argument list that reads cleanly, an argument that is no
/// known flag is refused, naming it; a trailing `--child` or `--data-dir`
/// without a value is refused, naming the flag.
pub proof fn lemma_bad_last_argument_refused(args: Seq<Seq<char>>, st: ParseState, a: Seq<char>)
    requires
        parse_args(args, st) is Parsed,
    ensures
        a != "--install"@ && a != "--uninstall"@ && a != "--service"@ && a != "--child"@ && a
            != "--data-dir"@ ==> parse_args(args + seq![a], st) == ParseOutcome::Failed(
            "don't know '"@ + a + "'; flags are --install, --uninstall, --child, --data-dir"@,
        ),
        a == "--child"@ || a == "--data-dir"@ ==> parse_args(args + seq![a], st) == ParseOutcome::Failed(
            a + " needs a value"@,
        ),
{
    lemma_flags_distinct();
    lemma_parse_concat(args, seq![a], st);
    assert(seq![a][0] == a);
    assert(seq![a].len() == 1);
}

/// Law: with no arguments the agent runs in the foreground with no overrides.
pub proof fn lemma_no_arguments()
    ensures
        parse_args(Seq::empty(), initial_state()) == ParseOutcome::Parsed(ParseState {
            command: Command::Run,
            child_path: None,
            data_dir: None,
            passthrough: Seq::empty(),
        }),
{
}

fn same_text(a: &str, b: &str) -> (r: bool)
    ensures
        r == (a@ == b@),
{
    let sa = String::from_str(a);
    let sb = String::from_str(b);
    sa == sb
}

/// Parses the agent's arguments (without the program name), starting from
/// the default configuration.
pub fn parse(args: &Vec<String>, defaults: Config) -> (r: Result<Cli, Error>)
    ensures
        match parse_args(texts(args@), initial_state()) {
            ParseOutcome::Parsed(st) => r matches Ok(cli) && cli_matches(cli, st, defaults),
            ParseOutcome::Failed(m) => r matches Err(e) && e@ == ErrorView::Config(m),
        },
{
    let ghost all = texts(args@);
    let ghost d = defaults;
    let mut config = defaults;
    let mut command = Command::Run;
    let mut passthrough: Vec<String> = Vec::new();
    let ghost mut st = initial_state();
    let n = args.len();
    let mut i: usize = 0;
    assert(all.skip(0) =~= all);
    while i < n
        invariant
            n == args.len(),
            i <= n,
            all == texts(args@),
            parse_args(all, initial_state()) == parse_args(all.skip(i as int), st),
            command == st.command,
            texts(passthrough@) == st.passthrough,
            config.child_path@ == match st.child_path {
                Some(p) => p,
                None => d.child_path@,
            },
            match st.data_dir {
                Some(dd) => config.data_dir@ == dd && logs_in_data_dir(config),
                None => {
                    &&& config.data_dir@ == d.data_dir@
                    &&& config.agent_log@ == d.agent_log@
                    &&& config.child_log@ == d.child_log@
                },
            },
            config.interval_ms == d.interval_ms,
            config.max_backoff_ms == d.max_backoff_ms,
            config.console == d.console,
        decreases n - i,
    {
        let arg = &args[i];
        let ghost rest = all.skip(i as int);
        assert(rest[0] == arg@);
        assert(rest.skip(1) =~= all.skip(i + 1));
        if same_text(arg.as_str(), "--install") {
            command = Command::Install;
            proof { st = ParseState { command: Command::Install, ..st }; }
            i = i + 1;
        } else if same_text(arg.as_str(), "--uninstall") {
            command = Command::Uninstall;
            proof { st = ParseState { command: Command::Uninstall, ..st }; }
            i = i + 1;
        } else if same_text(arg.as_str(), "--service") {
            command = Command::Service;
            proof { st = ParseState { command: Command::Service, ..st }; }
            i = i + 1;
        } else if same_text(arg.as_str(), "--child") || same_text(arg.as_str(), "--data-dir") {
            if i + 1 >= n {
                let mut msg = arg.clone();
                msg.append(" needs a value");
                return Err(Error::Config(msg));
            }
            let value = args[i + 1].clone();
            assert(rest[1] == value@);
            assert(rest.skip(2) =~= all.skip(i + 2));
            if same_text(arg.as_str(), "--child") {
                config.child_path = value.clone();
                proof {
                    st = ParseState {
                        child_path: Some(value@),
                        passthrough: st.passthrough + seq![arg@, value@],
                        ..st
                    };
                }
            } else {
                config.set_data_dir(value.clone());
                proof {
                    st = ParseState {
                        data_dir: Some(value@),
                        passthrough: st.passthrough + seq![arg@, value@],
                        ..st
                    };
                }
            }
            let ghost before = passthrough@;
            passthrough.push(arg.clone());
            passthrough.push(value);
            proof {
                assert(texts(passthrough@) =~= texts(before) + seq![arg@, value@]);
            }
            i = i + 2;
        } else {
            let mut msg = String::from_str("don't know '");
            msg.append(arg.as_str());
            msg.append("'; flags are --install, --uninstall, --child, --data-dir");
            return Err(Error::Config(msg));
        }
    }
    assert(all.skip(n as int) =~= Seq::<Seq<char>>::empty());
    config.console = command == Command::Run;
    Ok(Cli { command, config, passthrough })
}

} // verus!
