//! The agent's configuration and where its files live.

use vstd::prelude::*;
use crate::error::{Error, ErrorView};
use crate::paths::{
    path_join, path_parent, is_plain_name, is_path_sep, is_joined, is_verbatim, ends_with_name,
    needs_separator, joined_by_separator, joined_path, parent_path,
};

verus! {

pub const SERVICE_NAME: &'static str = "FlamingoAgent";
pub const SERVICE_DISPLAY_NAME: &'static str = "Flamingo Metrics Agent";
pub const SERVICE_DESCRIPTION: &'static str = "Gets the UTC time and its own memory use every few seconds and passes them to logger-child, which writes them to an admins-only log.";
/// Appended to the registered command line so the SCM-launched copy knows.
pub const SERVICE_ARG: &'static str = "--service";
pub const INTERVAL_SECS: u64 = 5;
/// The longest wait between two attempts to start the child.
pub const MAX_BACKOFF_SECS: u64 = 60;
/// Where the data directory goes when the system names no `ProgramData`.
pub const DEFAULT_PROGRAM_DATA: &'static str = "C:\\ProgramData";
pub const DATA_DIR_NAME: &'static str = "FlamingoAgent";
pub const AGENT_LOG_NAME: &'static str = "agent.log";
pub const CHILD_LOG_NAME: &'static str = "child.log";

/// Durations are held in milliseconds; paths as text.
#[derive(Debug, Clone)]
pub struct Config {
    pub interval_ms: u64,
    pub child_path: String,
    pub data_dir: String,
    pub agent_log: String,
    /// The file the restrictive ACL is applied to.
    pub child_log: String,
    /// Foreground run: mirror logs to stderr, let the child inherit stdio.
    pub console: bool,
    pub max_backoff_ms: u64,
}

/// `file` is the file `name` in directory `dir`, as `Path::join` places it:
/// exactly its join, which on every platform ends in the name and, for an
/// ordinary directory, is the directory, one separator and the name.
pub open spec fn placed_in(file: Seq<char>, dir: Seq<char>, name: Seq<char>) -> bool {
    &&& file == joined_path(dir, name)
    &&& ends_with_name(file, name)
    &&& !is_verbatim(dir) ==> is_joined(file, dir, name)
    &&& needs_separator(dir) ==> joined_by_separator(file, dir, name)
}

/// The directory the child goes in: the executable's parent, or the
/// current directory when it has none.
pub open spec fn exe_dir(exe: Seq<char>) -> Seq<char> {
    match parent_path(exe) {
        Some(d) => d,
        None => "."@,
    }
}

/// `dir` is a proper prefix of `path`: what `Path::parent` gives back.
pub open spec fn is_directory_of(dir: Seq<char>, path: Seq<char>) -> bool {
    dir.len() < path.len() && path.subrange(0, dir.len() as int) == dir
}

/// Both logs sit in the data directory under their fixed names.
pub open spec fn logs_in_data_dir(c: Config) -> bool {
    &&& placed_in(c.agent_log@, c.data_dir@, "agent.log"@)
    &&& placed_in(c.child_log@, c.data_dir@, "child.log"@)
}

/// `new` is `old` with the data directory moved to `dir`, and both logs
/// moved with it; nothing else changes.
pub open spec fn data_dir_moved(old: Config, new: Config, dir: Seq<char>) -> bool {
    &&& new.data_dir@ == dir
    &&& logs_in_data_dir(new)
    &&& new.interval_ms == old.interval_ms
    &&& new.child_path@ == old.child_path@
    &&& new.console == old.console
    &&& new.max_backoff_ms == old.max_backoff_ms
}

/// Two configurations hold the same values.
pub open spec fn same_config(x: Config, y: Config) -> bool {
    &&& x.interval_ms == y.interval_ms
    &&& x.child_path@ == y.child_path@
    &&& x.data_dir@ == y.data_dir@
    &&& x.agent_log@ == y.agent_log@
    &&& x.child_log@ == y.child_log@
    &&& x.console == y.console
    &&& x.max_backoff_ms == y.max_backoff_ms
}

/// Law: moving the data directory twice leaves the same configuration as
/// moving it once, to the second directory: no trace of the first move stays.
pub proof fn lemma_second_move_wins(
    c0: Config,
    c1: Config,
    c2: Config,
    once: Config,
    a: Seq<char>,
    b: Seq<char>,
)
    requires
        data_dir_moved(c0, c1, a),
        data_dir_moved(c1, c2, b),
        data_dir_moved(c0, once, b),
    ensures
        same_config(c2, once),
{
}

/// The message `validate` gives for a missing child binary.
pub open spec fn no_child_message(path: Seq<char>) -> Seq<char> {
    "no child binary at "@ + path + ", point --child at it"@
}

/// Every character from position `i` on is allowed in a plain file name.
spec fn plain_chars_from(s: Seq<char>, i: int) -> bool
    decreases s.len() - i,
{
    if i < 0 || i >= s.len() {
        true
    } else {
        !is_path_sep(s[i]) && s[i] != ':' && plain_chars_from(s, i + 1)
    }
}

proof fn lemma_plain_chars(s: Seq<char>, i: int)
    requires
        0 <= i,
        plain_chars_from(s, i),
    ensures
        forall|j: int| i <= j < s.len() ==> !is_path_sep(#[trigger] s[j]) && s[j] != ':',
    decreases s.len() - i,
{
    if i < s.len() {
        lemma_plain_chars(s, i + 1);
    }
}

/// The fixed names the agent places in directories are plain file names.
proof fn lemma_fixed_names_plain()
    ensures
        is_plain_name("FlamingoAgent"@),
        is_plain_name("agent.log"@),
        is_plain_name("child.log"@),
        is_plain_name("logger-child.exe"@),
{
    reveal_strlit("FlamingoAgent");
    reveal_strlit("agent.log");
    reveal_strlit("child.log");
    reveal_strlit("logger-child.exe");
    reveal_with_fuel(plain_chars_from, 17);
    assert(plain_chars_from("FlamingoAgent"@, 0));
    lemma_plain_chars("FlamingoAgent"@, 0);
    assert(plain_chars_from("agent.log"@, 0));
    lemma_plain_chars("agent.log"@, 0);
    assert(plain_chars_from("child.log"@, 0));
    lemma_plain_chars("child.log"@, 0);
    assert(plain_chars_from("logger-child.exe"@, 0));
    lemma_plain_chars("logger-child.exe"@, 0);
    assert("FlamingoAgent"@ != seq!['.']);
    assert("FlamingoAgent"@ != seq!['.', '.']);
    assert("agent.log"@ != seq!['.', '.']);
    assert("child.log"@ != seq!['.', '.']);
    assert("logger-child.exe"@ != seq!['.', '.']);
}

fn join_name(dir: &str, name: &str) -> (res: String)
    requires
        is_plain_name(name@),
    ensures
        placed_in(res@, dir@, name@),
{
    path_join(dir, name)
}

/// The child's file name on the supported platform.
pub fn child_file_name() -> (name: &'static str)
    ensures
        name@ == "logger-child.exe"@,
{
    "logger-child.exe"
}

impl Config {
    /// The default configuration, given the system's `ProgramData` directory
    /// (if it names one) and the directory of the running executable (if it
    /// has one; else the current directory). The child sits in the
    /// executable's directory; the logs in `ProgramData\FlamingoAgent`.
    pub fn with_locations(program_data: Option<&str>, exe_dir: Option<&str>) -> (c: Config)
        ensures
            c.interval_ms == INTERVAL_SECS * 1000,
            c.max_backoff_ms == MAX_BACKOFF_SECS * 1000,
            c.console,
            placed_in(
                c.data_dir@,
                match program_data {
                    Some(p) => p@,
                    None => "C:\\ProgramData"@,
                },
                "FlamingoAgent"@,
            ),
            logs_in_data_dir(c),
            placed_in(
                c.child_path@,
                match exe_dir {
                    Some(d) => d@,
                    None => "."@,
                },
                "logger-child.exe"@,
            ),
    {
        proof {
            lemma_fixed_names_plain();
        }
        let base: &str = match program_data {
            Some(p) => p,
            None => DEFAULT_PROGRAM_DATA,
        };
        let data_dir = join_name(base, DATA_DIR_NAME);
        let dir: &str = match exe_dir {
            Some(d) => d,
            None => ".",
        };
        let child_path = join_name(dir, child_file_name());
        let agent_log = join_name(data_dir.as_str(), AGENT_LOG_NAME);
        let child_log = join_name(data_dir.as_str(), CHILD_LOG_NAME);
        Config {
            interval_ms: INTERVAL_SECS * 1000,
            child_path,
            agent_log,
            child_log,
            data_dir,
            console: true,
            max_backoff_ms: MAX_BACKOFF_SECS * 1000,
        }
    }

    /// The default configuration, given the system's `ProgramData` directory
    /// (if it names one) and the path of the running executable: the child
    /// next to the executable (`Path::parent` decides which directory that
    /// is), the logs in `ProgramData\FlamingoAgent`.
    pub fn with_defaults(program_data: Option<&str>, exe: &str) -> (c: Config)
        ensures
            c.interval_ms == INTERVAL_SECS * 1000,
            c.max_backoff_ms == MAX_BACKOFF_SECS * 1000,
            c.console,
            placed_in(
                c.data_dir@,
                match program_data {
                    Some(p) => p@,
                    None => "C:\\ProgramData"@,
                },
                "FlamingoAgent"@,
            ),
            logs_in_data_dir(c),
            placed_in(c.child_path@, exe_dir(exe@), "logger-child.exe"@),
            exe_dir(exe@) == "."@ || is_directory_of(exe_dir(exe@), exe@),
            is_plain_name(exe@) ==> placed_in(c.child_path@, Seq::<char>::empty(), "logger-child.exe"@),
    {
        let exe_dir = path_parent(exe);
        match exe_dir {
            Some(d) => {
                proof {
                    if is_plain_name(exe@) {
                        assert(d@ =~= Seq::<char>::empty());
                    }
                }
                Config::with_locations(program_data, Some(d.as_str()))
            },
            None => Config::with_locations(program_data, None),
        }
    }

    /// Moves the data directory, and both logs with it.
    pub fn set_data_dir(&mut self, dir: String)
        ensures
            data_dir_moved(*old(self), *final(self), dir@),
    {
        proof {
            lemma_fixed_names_plain();
        }
        self.agent_log = join_name(dir.as_str(), AGENT_LOG_NAME);
        self.child_log = join_name(dir.as_str(), CHILD_LOG_NAME);
        self.data_dir = dir;
    }

    /// Checks the configuration before the agent starts: the interval must
    /// not be zero, and the child binary must exist (`child_is_file` says
    /// whether `child_path` names a file).
    pub fn validate(&self, child_is_file: bool) -> (r: Result<(), Error>)
        ensures
            self.interval_ms == 0 ==> (r matches Err(e) && e@ == ErrorView::Config(
                "--interval has to be at least 1"@,
            )),
            self.interval_ms != 0 && !child_is_file ==> (r matches Err(e) && e@ == ErrorView::Config(
                no_child_message(self.child_path@),
            )),
            r is Ok <==> self.interval_ms != 0 && child_is_file,
    {
        if self.interval_ms == 0 {
            return Err(Error::config("--interval has to be at least 1"));
        }
        if !child_is_file {
            let mut msg = String::from_str("no child binary at ");
            msg.append(self.child_path.as_str());
            msg.append(", point --child at it");
            return Err(Error::Config(msg));
        }
        Ok(())
    }
}

} // verus!
