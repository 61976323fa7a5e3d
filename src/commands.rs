//! The command lines that start the backend, stop it and call into it. There
//! are exactly two platform families: Windows, and every other system.

use vstd::prelude::*;
use crate::decimal::{decimal, decimal_text};

verus! {

/// The platform family, chosen once at startup by the host.
#[derive(Clone, Copy, Debug, PartialEq, Eq, Structural)]
pub enum Platform {
    Windows,
    Unix,
}

/// A program to run, its arguments and the directory to run it in.
#[derive(Clone, Debug)]
pub struct CommandLine {
    pub program: String,
    pub args: Vec<String>,
    pub working_dir: Option<String>,
}

/// The text of each string in `v`.
pub open spec fn texts(v: Seq<String>) -> Seq<Seq<char>> {
    v.map_values(|a: String| a@)
}

/// The text of an optional string.
pub open spec fn opt_text(o: Option<String>) -> Option<Seq<char>> {
    match o {
        Some(s) => Some(s@),
        None => None,
    }
}

impl CommandLine {
    pub open spec fn program_text(&self) -> Seq<char> {
        self.program@
    }

    pub open spec fn arg_texts(&self) -> Seq<Seq<char>> {
        texts(self.args@)
    }

    pub open spec fn dir_text(&self) -> Option<Seq<char>> {
        opt_text(self.working_dir)
    }

    /// Program, arguments and directory are, as text, the given ones.
    pub open spec fn is(
        &self,
        program: Seq<char>,
        args: Seq<Seq<char>>,
        dir: Option<Seq<char>>,
    ) -> bool {
        &&& self.program_text() == program
        &&& self.arg_texts() == args
        &&& self.dir_text() == dir
    }
}

/// The directory, relative to the host's own, that holds the backend's scripts.
pub open spec fn shell_dir() -> Seq<char> {
    "src/shell"@
}

/// The interpreter that runs scripts, with the flag that hands it one.
pub open spec fn launch_prefix(p: Platform) -> Seq<Seq<char>> {
    match p {
        Platform::Windows => seq!["cmd"@, "/C"@],
        Platform::Unix => seq!["sh"@, "-c"@],
    }
}

/// The script that starts the backend and records its PID and URL.
pub open spec fn start_script(p: Platform) -> Seq<char> {
    match p {
        Platform::Windows => "./windows/start_uvicorn.bat"@,
        Platform::Unix => "./linux/start_uvicorn.sh"@,
    }
}

/// The script that performs one backend operation and exits.
pub open spec fn call_script(p: Platform) -> Seq<char> {
    match p {
        Platform::Windows => "./windows/call_backend.bat"@,
        Platform::Unix => "./linux/call_backend.sh"@,
    }
}

/// The program that ends a process, and its arguments around the PID.
pub open spec fn kill_args(p: Platform, pid: u32) -> Seq<Seq<char>> {
    match p {
        Platform::Windows => seq!["/PID"@, decimal(pid as nat), "/F"@],
        Platform::Unix => seq!["-TERM"@, decimal(pid as nat)],
    }
}

pub open spec fn kill_program(p: Platform) -> Seq<char> {
    match p {
        Platform::Windows => "taskkill"@,
        Platform::Unix => "kill"@,
    }
}

/// The arguments that hand a script, an operation and its arguments to the
/// interpreter.
pub open spec fn call_args(p: Platform, op: Seq<char>, args: Seq<Seq<char>>) -> Seq<Seq<char>> {
    match p {
        Platform::Windows => seq!["/C"@, call_script(p), op] + args,
        Platform::Unix => seq![call_script(p), op] + args,
    }
}

fn push_text(v: &mut Vec<String>, s: &str)
    ensures
        texts(final(v)@) == texts(old(v)@).push(s@),
{
    v.push(String::from_str(s));
    assert(texts(final(v)@) =~= texts(old(v)@).push(s@));
}

/// The command that starts the backend detached from the host.
pub fn launch_command(p: Platform) -> (r: CommandLine)
    ensures
        r.is(
            launch_prefix(p)[0],
            seq![launch_prefix(p)[1], start_script(p)],
            Some(shell_dir()),
        ),
{
    let mut args: Vec<String> = Vec::new();
    let program = match p {
        Platform::Windows => {
            push_text(&mut args, "/C");
            push_text(&mut args, "./windows/start_uvicorn.bat");
            String::from_str("cmd")
        },
        Platform::Unix => {
            push_text(&mut args, "-c");
            push_text(&mut args, "./linux/start_uvicorn.sh");
            String::from_str("sh")
        },
    };
    assert(texts(args@) =~= seq![launch_prefix(p)[1], start_script(p)]);
    CommandLine { program, args, working_dir: Some(String::from_str("src/shell")) }
}

/// The command that forcibly ends process `pid`.
pub fn kill_command(p: Platform, pid: u32) -> (r: CommandLine)
    ensures
        r.is(kill_program(p), kill_args(p, pid), None),
{
    let mut args: Vec<String> = Vec::new();
    let number = decimal_text(pid as u64);
    let program = match p {
        Platform::Windows => {
            push_text(&mut args, "/PID");
            push_text(&mut args, number.as_str());
            push_text(&mut args, "/F");
            String::from_str("taskkill")
        },
        Platform::Unix => {
            push_text(&mut args, "-TERM");
            push_text(&mut args, number.as_str());
            String::from_str("kill")
        },
    };
    assert(texts(args@) =~= kill_args(p, pid));
    CommandLine { program, args, working_dir: None }
}

/// The one-shot command that performs backend operation `op` with `args`,
/// passed in order.
pub fn call_command(p: Platform, op: &str, args: &Vec<String>) -> (r: CommandLine)
    ensures
        r.is(launch_prefix(p)[0], call_args(p, op@, texts(args@)), Some(shell_dir())),
{
    let mut all: Vec<String> = Vec::new();
    let program = match p {
        Platform::Windows => {
            push_text(&mut all, "/C");
            push_text(&mut all, "./windows/call_backend.bat");
            String::from_str("cmd")
        },
        Platform::Unix => {
            push_text(&mut all, "./linux/call_backend.sh");
            String::from_str("sh")
        },
    };
    push_text(&mut all, op);
    let ghost head = texts(all@);
    let mut i: usize = 0;
    while i < args.len()
        invariant
            i <= args@.len(),
            texts(all@) == head + texts(args@).subrange(0, i as int),
        decreases args@.len() - i,
    {
        push_text(&mut all, args[i].as_str());
        assert(texts(args@).subrange(0, i + 1) =~= texts(args@).subrange(0, i as int).push(
            args@[i as int]@,
        ));
        assert(texts(all@) =~= head + texts(args@).subrange(0, i + 1));
        i += 1;
    }
    assert(texts(args@).subrange(0, args@.len() as int) =~= texts(args@));
    assert(head + texts(args@) =~= call_args(p, op@, texts(args@)));
    CommandLine { program, args: all, working_dir: Some(String::from_str("src/shell")) }
}

} // verus!
