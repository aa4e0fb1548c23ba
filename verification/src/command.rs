//! The command that a run starts.

use vstd::prelude::*;
use vstd::string::StringExecFns;

verus! {

/// Which environment the started process gets.
#[derive(Clone, Debug, PartialEq, Eq)]
pub enum Environment {
    /// The caller's own environment, passed through whole.
    Inherited,
    /// These variables and no others, each as name and value.
    Exactly(Vec<(String, String)>),
}

/// An external command, fully formed: what to execute, with which arguments
/// in which order, and in which environment.
#[derive(Clone, Debug, PartialEq, Eq)]
pub struct CommandDescription {
    pub program: String,
    pub args: Vec<String>,
    pub environment: Environment,
}

/// Directory inside the container on which the source directory is mounted.
pub open spec fn mount_point() -> Seq<char> {
    ":/build"@
}

/// Name of the image, up to the tag.
pub open spec fn image_prefix() -> Seq<char> {
    "ink-verifier:"@
}

/// The arguments that have a container engine run one contract build and
/// remove the container afterwards: the image `ink-verifier` at `tag` is
/// entered at `package-contract`, with `build_dir` mounted on `/build`.
pub open spec fn build_args(build_dir: Seq<char>, tag: Seq<char>) -> Seq<Seq<char>> {
    seq![
        "run"@,
        "--entrypoint"@,
        "package-contract"@,
        "-v"@,
        build_dir + mount_point(),
        "--rm"@,
        image_prefix() + tag,
    ]
}

/// Describes the contract build for the container engine `engine`. The
/// process inherits the caller's environment.
pub fn container_build(engine: &str, build_dir: &str, tag: &str) -> (cmd: CommandDescription)
    ensures
        cmd.program@ == engine@,
        cmd.args@.len() == build_args(build_dir@, tag@).len(),
        forall|i: int|
            0 <= i < cmd.args@.len() ==> (#[trigger] cmd.args@[i])@ == build_args(
                build_dir@,
                tag@,
            )[i],
        cmd.environment is Inherited,
{
    let mut args: Vec<String> = Vec::new();
    args.push(String::from_str("run"));
    args.push(String::from_str("--entrypoint"));
    args.push(String::from_str("package-contract"));
    args.push(String::from_str("-v"));
    args.push(String::from_str(build_dir).concat(":/build"));
    args.push(String::from_str("--rm"));
    args.push(String::from_str("ink-verifier:").concat(tag));
    CommandDescription {
        program: String::from_str(engine),
        args,
        environment: Environment::Inherited,
    }
}

} // verus!
