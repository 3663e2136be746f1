use llhd_playground::sandbox::{SandboxCommand, Workspace};

fn expected_args(input_file: &str, module: &str) -> Vec<String> {
    let mut args: Vec<String> = [
        "run",
        "--rm",
        "--cap-drop=ALL",
        "--cap-add=DAC_OVERRIDE",
        "--security-opt=no-new-privileges",
        "--workdir",
        "/playground",
        "--net",
        "none",
        "--memory",
        "256m",
        "--memory-swap",
        "320m",
        "--env",
        "PLAYGROUND_TIMEOUT=10",
        "--pids-limit",
        "512",
        "--volume",
    ]
    .iter()
    .map(|s| s.to_string())
    .collect();
    args.push(format!("{}:/playground/input.sv", input_file));
    for s in ["llhd-sandbox", "moore", "input.sv", "-e"] {
        args.push(s.to_string());
    }
    args.push(module.to_string());
    args
}

#[test]
fn workspace_lays_out_input_file() {
    let w = Workspace::new(String::from("/tmp/scratch-1"));
    assert_eq!(w.dir, "/tmp/scratch-1");
    assert_eq!(w.input_file, "/tmp/scratch-1/input.sv");
}

#[test]
fn distinct_directories_give_distinct_input_files() {
    let a = Workspace::new(String::from("/tmp/scratch-1"));
    let b = Workspace::new(String::from("/tmp/scratch-2"));
    assert_ne!(a.input_file, b.input_file);
}

#[test]
fn basic_secure_command_flags() {
    let c = SandboxCommand::basic_secure_docker_command();
    assert_eq!(c.program, "docker");
    assert_eq!(c.args, expected_args("", "")[..17].to_vec());
    assert!(c.args.contains(&"--net".to_string()));
    assert!(c.args.contains(&"--cap-drop=ALL".to_string()));
    assert!(c.args.contains(&"--security-opt=no-new-privileges".to_string()));
    assert!(c.args.contains(&"--memory".to_string()));
    assert!(c.args.contains(&"--memory-swap".to_string()));
}

#[test]
fn compile_command_is_exact() {
    let w = Workspace::new(String::from("/tmp/ws"));
    let c = SandboxCommand::compile_command(&w, "foo");
    assert_eq!(c.program, "docker");
    assert_eq!(c.args, expected_args("/tmp/ws/input.sv", "foo"));
}

#[test]
fn compile_command_is_deterministic() {
    let w = Workspace::new(String::from("/tmp/ws"));
    let a = SandboxCommand::compile_command(&w, "top");
    let b = SandboxCommand::compile_command(&w, "top");
    assert_eq!(a.program, b.program);
    assert_eq!(a.args, b.args);
}

#[test]
fn module_name_is_the_entry_point() {
    let w = Workspace::new(String::from("/tmp/ws"));
    let c = SandboxCommand::compile_command(&w, "counter");
    let n = c.args.len();
    assert_eq!(c.args[n - 2], "-e");
    assert_eq!(c.args[n - 1], "counter");
}
