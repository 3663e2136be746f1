//! The workspace model and the sandbox command builder.
//!
//! A workspace is the per-request scratch directory together with the one
//! input file inside it. The command builder assembles, purely and
//! deterministically, the full argument list of the resource-limited,
//! network-isolated, privilege-dropped container invocation that compiles
//! the mounted input file.

use vstd::prelude::*;
use vstd::string::*;

verus! {

/// The per-request scratch directory and the input file path inside it.
pub struct Workspace {
    /// The directory exclusively owned by one request.
    pub dir: String,
    /// The path of the one input file inside `dir`.
    pub input_file: String,
}

impl Workspace {
    /// The input file lies inside the directory, under the fixed name.
    pub open spec fn wf(&self) -> bool {
        self.input_file@ == self.dir@ + "/input.sv"@
    }

    /// Lay out a workspace rooted at an (already created) directory.
    pub fn new(dir: String) -> (w: Workspace)
        ensures
            w.wf(),
            w.dir@ == dir@,
    {
        let input_file = dir.clone().concat("/input.sv");
        Workspace { dir, input_file }
    }
}

/// Workspaces rooted at distinct directories never share their input
/// file: requests with distinct scratch directories cannot observe or
/// overwrite each other's input.
pub proof fn lemma_workspaces_disjoint(a: Workspace, b: Workspace)
    requires
        a.wf(),
        b.wf(),
        a.dir@ != b.dir@,
    ensures
        a.input_file@ != b.input_file@,
{
    if a.input_file@ == b.input_file@ {
        assert((a.dir@ + "/input.sv"@).len() == a.dir@.len() + "/input.sv"@.len());
        assert((b.dir@ + "/input.sv"@).len() == b.dir@.len() + "/input.sv"@.len());
        assert(a.dir@.len() == b.dir@.len());
        assert(a.dir@ =~= (a.dir@ + "/input.sv"@).subrange(0, a.dir@.len() as int));
        assert(b.dir@ =~= (b.dir@ + "/input.sv"@).subrange(0, b.dir@.len() as int));
        assert(a.dir@ == b.dir@);
    }
}

/// A fully specified external-process invocation: executable name and
/// ordered argument list. Built once per request, immutable afterwards.
pub struct SandboxCommand {
    /// The executable to spawn.
    pub program: String,
    /// The arguments, in order.
    pub args: Vec<String>,
}

/// The views of an argument list, argument by argument.
pub open spec fn arg_views(args: Seq<String>) -> Seq<Seq<char>> {
    args.map_values(|a: String| a@)
}

/// The fixed arguments of a secure container launch: an ephemeral
/// container that self-removes, drops every capability but the one needed
/// to act as the invoking user, may gain no new privileges, has no network,
/// is memory-capped (soft cap below the memory+swap hard cap, so the
/// container is OOM-killed rather than exhausting the host), is bounded in
/// process count, and learns its internal timeout from the environment.
pub open spec fn secure_docker_args() -> Seq<Seq<char>> {
    seq![
        "run"@,
        "--rm"@,
        "--cap-drop=ALL"@,
        "--cap-add=DAC_OVERRIDE"@,
        "--security-opt=no-new-privileges"@,
        "--workdir"@,
        "/playground"@,
        "--net"@,
        "none"@,
        "--memory"@,
        "256m"@,
        "--memory-swap"@,
        "320m"@,
        "--env"@,
        "PLAYGROUND_TIMEOUT=10"@,
        "--pids-limit"@,
        "512"@,
    ]
}

/// The volume specification binding the workspace's input file onto the
/// fixed in-container working directory under the same file name.
pub open spec fn mount_spec(input_file: Seq<char>) -> Seq<char> {
    input_file + ":/playground/input.sv"@
}

/// The complete argument list of the compilation command: the secure
/// container launch, the bind mount of the input file, the container
/// image, and the in-container compiler invocation against the mounted
/// file with the resolved module as the entry point to elaborate.
pub open spec fn compile_args(input_file: Seq<char>, module_name: Seq<char>) -> Seq<Seq<char>> {
    secure_docker_args() + seq![
        "--volume"@,
        mount_spec(input_file),
        "llhd-sandbox"@,
        "moore"@,
        "input.sv"@,
        "-e"@,
        module_name,
    ]
}

/// The assembled compilation command always carries the isolation and
/// resource-cap flags: no network, all capabilities dropped, no new
/// privileges, and both memory limits. Together with the exact contract
/// of [`SandboxCommand::compile_command`], which pins the argument list to
/// a function of the workspace path and the module name alone, this makes
/// command construction deterministic.
pub proof fn lemma_compile_args_isolation(input_file: Seq<char>, module_name: Seq<char>)
    ensures
        compile_args(input_file, module_name).len() == 24,
        compile_args(input_file, module_name)[2] == "--cap-drop=ALL"@,
        compile_args(input_file, module_name)[4] == "--security-opt=no-new-privileges"@,
        compile_args(input_file, module_name)[7] == "--net"@,
        compile_args(input_file, module_name)[8] == "none"@,
        compile_args(input_file, module_name)[9] == "--memory"@,
        compile_args(input_file, module_name)[10] == "256m"@,
        compile_args(input_file, module_name)[11] == "--memory-swap"@,
        compile_args(input_file, module_name)[12] == "320m"@,
        compile_args(input_file, module_name)[17] == "--volume"@,
        compile_args(input_file, module_name)[18] == mount_spec(input_file),
        compile_args(input_file, module_name)[22] == "-e"@,
        compile_args(input_file, module_name)[23] == module_name,
{
}

impl SandboxCommand {
    /// Assemble the basic command to launch a secure container.
    pub fn basic_secure_docker_command() -> (c: SandboxCommand)
        ensures
            c.program@ == "docker"@,
            arg_views(c.args@) == secure_docker_args(),
    {
        let mut args: Vec<String> = Vec::new();
        args.push(String::from_str("run"));
        args.push(String::from_str("--rm"));
        args.push(String::from_str("--cap-drop=ALL"));
        args.push(String::from_str("--cap-add=DAC_OVERRIDE"));
        args.push(String::from_str("--security-opt=no-new-privileges"));
        args.push(String::from_str("--workdir"));
        args.push(String::from_str("/playground"));
        args.push(String::from_str("--net"));
        args.push(String::from_str("none"));
        args.push(String::from_str("--memory"));
        args.push(String::from_str("256m"));
        args.push(String::from_str("--memory-swap"));
        args.push(String::from_str("320m"));
        args.push(String::from_str("--env"));
        args.push(String::from_str("PLAYGROUND_TIMEOUT=10"));
        args.push(String::from_str("--pids-limit"));
        args.push(String::from_str("512"));
        proof {
            assert(arg_views(args@) =~~= secure_docker_args());
        }
        SandboxCommand { program: String::from_str("docker"), args }
    }

    /// Assemble the container command that bind-mounts the workspace's
    /// input file into the container's working directory.
    pub fn docker_command(workspace: &Workspace) -> (c: SandboxCommand)
        ensures
            c.program@ == "docker"@,
            arg_views(c.args@) == secure_docker_args() + seq![
                "--volume"@,
                mount_spec(workspace.input_file@),
            ],
    {
        let mount = workspace.input_file.clone().concat(":/playground/input.sv");
        let mut c = Self::basic_secure_docker_command();
        let ghost before = arg_views(c.args@);
        c.args.push(String::from_str("--volume"));
        c.args.push(mount);
        proof {
            assert(arg_views(c.args@) =~~= before + seq![
                "--volume"@,
                mount_spec(workspace.input_file@),
            ]);
        }
        c
    }

    /// Assemble the full command that compiles the workspace's input file
    /// inside the sandbox, elaborating the resolved module.
    pub fn compile_command(workspace: &Workspace, module_name: &str) -> (c: SandboxCommand)
        ensures
            c.program@ == "docker"@,
            arg_views(c.args@) == compile_args(workspace.input_file@, module_name@),
    {
        let mut c = Self::docker_command(workspace);
        let ghost before = arg_views(c.args@);
        c.args.push(String::from_str("llhd-sandbox"));
        c.args.push(String::from_str("moore"));
        c.args.push(String::from_str("input.sv"));
        c.args.push(String::from_str("-e"));
        c.args.push(module_name.to_owned());
        proof {
            let tail = seq!["llhd-sandbox"@, "moore"@, "input.sv"@, "-e"@, module_name@];
            assert(arg_views(c.args@) =~~= before + tail);
            assert(before + tail =~~= compile_args(workspace.input_file@, module_name@));
        }
        c
    }
}

} // verus!
