use vstd::prelude::*;
use vstd::string::StringExecFns;
use crate::expression::{cmd, Expression};

verus! {

/// Where the build puts the small programs that exercise pipelines, relative
/// to the package root: `target/debug/<name>`.
pub fn path_to_exe(name: &str) -> (r: String)
    ensures
        r@ == "target/debug/"@ + name@,
{
    let dir = String::from_str("target/debug/");
    dir.concat(name)
}

/// The `status` program asked to exit with `code`.
fn status_cmd(code: &str) -> (r: Expression)
    ensures
        r matches Expression::Cmd(argv) && argv@.len() == 2 && argv@[0]@ == "target/debug/status"@
            && argv@[1]@ == code@,
{
    let exe = path_to_exe("status");
    let mut args: Vec<String> = Vec::new();
    args.push(code.to_string());
    proof {
        reveal_strlit("target/debug/");
        reveal_strlit("status");
        reveal_strlit("target/debug/status");
        assert(exe@ =~= "target/debug/status"@);
    }
    let r = cmd(exe.as_str(), args);
    proof {
        let argv = r->Cmd_0@;
        assert(argv[1] == argv.subrange(1, argv.len() as int)[0]);
    }
    r
}

/// A command that exits with status 0.
pub fn true_cmd() -> (r: Expression)
    ensures
        r matches Expression::Cmd(argv) && argv@.len() == 2 && argv@[0]@ == "target/debug/status"@
            && argv@[1]@ == "0"@,
{
    status_cmd("0")
}

/// A command that exits with status 1.
pub fn false_cmd() -> (r: Expression)
    ensures
        r matches Expression::Cmd(argv) && argv@.len() == 2 && argv@[0]@ == "target/debug/status"@
            && argv@[1]@ == "1"@,
{
    status_cmd("1")
}

} // verus!
