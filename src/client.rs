use vstd::prelude::*;

verus! {

/// A program to run and its arguments; the program is looked up on the search
/// path of the environment.
pub struct Invocation {
    pub program: String,
    pub args: Vec<String>,
}

/// The external client's executable name.
pub open spec fn client_program() -> Seq<char> {
    "openvpn"@
}

/// The probe that tells whether the client is installed and runs: the client
/// asked for its version.
pub fn version_probe() -> (r: Invocation)
    ensures
        r.program@ == client_program(),
        r.args@.len() == 1,
        r.args@[0]@ == "--version"@,
{
    let mut args: Vec<String> = Vec::new();
    args.push("--version".to_owned());
    Invocation { program: "openvpn".to_owned(), args }
}

/// The client started on one profile: its path is the sole configuration
/// argument.
pub fn client_invocation(path: &str) -> (r: Invocation)
    ensures
        r.program@ == client_program(),
        r.args@.len() == 2,
        r.args@[0]@ == "--config"@,
        r.args@[1]@ == path@,
{
    let mut args: Vec<String> = Vec::new();
    args.push("--config".to_owned());
    args.push(path.to_owned());
    Invocation { program: "openvpn".to_owned(), args }
}

} // verus!
