use vstd::prelude::*;

verus! {

/// The host family, which decides the interpreter's binary name.
#[derive(Clone, Copy, Debug, PartialEq, Eq, Structural)]
pub enum Platform {
    Windows,
    Unix,
}

pub open spec fn interpreter_binary_spec(platform: Platform) -> Seq<char> {
    match platform {
        Platform::Windows => "python"@,
        Platform::Unix => "python3"@,
    }
}

/// The interpreter that runs the worker: `python` on Windows, `python3` elsewhere.
pub fn interpreter_binary(platform: Platform) -> (r: &'static str)
    ensures
        r@ == interpreter_binary_spec(platform),
{
    match platform {
        Platform::Windows => "python",
        Platform::Unix => "python3",
    }
}

/// The shell command whose success shows the interpreter is installed:
/// the binary followed by ` --version`.
pub fn version_check_command(platform: Platform) -> (r: &'static str)
    ensures
        r@ == interpreter_binary_spec(platform) + " --version"@,
{
    proof {
        reveal_strlit("python");
        reveal_strlit("python3");
        reveal_strlit(" --version");
        reveal_strlit("python --version");
        reveal_strlit("python3 --version");
        assert("python --version"@ =~= "python"@ + " --version"@);
        assert("python3 --version"@ =~= "python3"@ + " --version"@);
    }
    match platform {
        Platform::Windows => "python --version",
        Platform::Unix => "python3 --version",
    }
}

} // verus!
