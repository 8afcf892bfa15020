//! The command line that starts the web server.
use vstd::prelude::*;

verus! {

/// The platform family the launcher runs on.
#[derive(Clone, Copy, Debug, PartialEq, Eq, Structural)]
pub enum Platform {
    /// Programs such as `npm` are batch scripts there and need the command
    /// interpreter to run them.
    Windows,
    /// Every other platform: the package manager is run directly.
    Other,
}

/// How the package manager is invoked.
#[derive(Clone, Copy, Debug, PartialEq, Eq, Structural)]
pub enum Strategy {
    /// Through the command interpreter (`cmd /C npm ...`).
    InterpreterWrapped,
    /// The package manager itself (`npm ...`).
    Direct,
}

/// A program and its arguments.
#[derive(Debug)]
pub struct Invocation {
    pub program: String,
    pub args: Vec<String>,
}

/// A program name and its arguments, as character sequences.
pub struct InvocationView {
    pub program: Seq<char>,
    pub args: Seq<Seq<char>>,
}

impl View for Invocation {
    type V = InvocationView;

    open spec fn view(&self) -> InvocationView {
        InvocationView { program: self.program@, args: self.args@.map_values(|a: String| a@) }
    }
}

pub open spec fn strategy_spec(p: Platform) -> Strategy {
    match p {
        Platform::Windows => Strategy::InterpreterWrapped,
        Platform::Other => Strategy::Direct,
    }
}

/// The package-manager arguments that run the production start script.
pub open spec fn start_script_args() -> Seq<Seq<char>> {
    seq!["run"@, "start"@]
}

/// The invocation that runs the start script with the given strategy.
pub open spec fn invocation_spec(s: Strategy) -> InvocationView {
    match s {
        Strategy::InterpreterWrapped => InvocationView {
            program: "cmd"@,
            args: seq!["/C"@, "npm"@] + start_script_args(),
        },
        Strategy::Direct => InvocationView { program: "npm"@, args: start_script_args() },
    }
}

/// The invocation goes through the command interpreter.
pub open spec fn is_interpreter_wrapped(v: InvocationView) -> bool {
    &&& v.program == "cmd"@
    &&& v.args.len() >= 2
    &&& v.args[0] == "/C"@
    &&& v.args[1] == "npm"@
}

/// The invocation runs the package manager itself.
pub open spec fn is_direct(v: InvocationView) -> bool {
    v.program == "npm"@
}

/// The strategy used on a platform family.
pub fn strategy_for(p: Platform) -> (r: Strategy)
    ensures
        r == strategy_spec(p),
{
    match p {
        Platform::Windows => Strategy::InterpreterWrapped,
        Platform::Other => Strategy::Direct,
    }
}

/// The command line that runs the start script on a platform family.
pub fn launch_command(p: Platform) -> (r: Invocation)
    ensures
        r@ == invocation_spec(strategy_spec(p)),
{
    let mut args: Vec<String> = Vec::new();
    let program = match strategy_for(p) {
        Strategy::InterpreterWrapped => {
            args.push("/C".to_owned());
            args.push("npm".to_owned());
            "cmd".to_owned()
        },
        Strategy::Direct => "npm".to_owned(),
    };
    args.push("run".to_owned());
    args.push("start".to_owned());
    let r = Invocation { program, args };
    assert(r@.args =~= invocation_spec(strategy_spec(p)).args);
    r
}

/// Every platform family gets exactly one invocation strategy: the command
/// line is interpreter-wrapped on Windows, direct elsewhere, and never both.
pub proof fn lemma_exactly_one_strategy(p: Platform)
    ensures
        is_interpreter_wrapped(invocation_spec(strategy_spec(p))) != is_direct(
            invocation_spec(strategy_spec(p)),
        ),
        is_interpreter_wrapped(invocation_spec(strategy_spec(p))) <==> p == Platform::Windows,
        is_direct(invocation_spec(strategy_spec(p))) <==> p == Platform::Other,
{
    reveal_strlit("cmd");
    reveal_strlit("npm");
    assert("cmd"@[0] != "npm"@[0]);
    assert("cmd"@ != "npm"@);
    if p == Platform::Windows {
        let v = invocation_spec(strategy_spec(p));
        assert(v.args[0] == "/C"@);
        assert(v.args[1] == "npm"@);
    }
}

} // verus!
