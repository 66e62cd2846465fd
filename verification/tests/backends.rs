use container_pid::containerd::Containerd;
use container_pid::docker::{parse_docker_output, Docker};
use container_pid::error::ErrorKind;
use container_pid::lxc::Lxc;
use container_pid::lxd::Lxd;
use container_pid::nspawn::Nspawn;
use container_pid::output::CommandOutput;
use container_pid::podman::Podman;
use container_pid::tools::Tools;

fn printed(stdout: &[u8]) -> Result<CommandOutput, String> {
    Ok(CommandOutput {
        code: Some(0),
        status: String::from("exit status: 0"),
        stdout: stdout.to_vec(),
        stderr: Vec::new(),
    })
}

fn failed(code: i32, stderr: &[u8]) -> Result<CommandOutput, String> {
    Ok(CommandOutput {
        code: Some(code),
        status: format!("exit status: {}", code),
        stdout: b"true;1\nPid: 1\nLeader=1\n1".to_vec(),
        stderr: stderr.to_vec(),
    })
}

fn killed() -> Result<CommandOutput, String> {
    Ok(CommandOutput {
        code: None,
        status: String::from("signal: 9 (SIGKILL)"),
        stdout: b"true;1".to_vec(),
        stderr: Vec::new(),
    })
}

fn not_started() -> Result<CommandOutput, String> {
    Err(String::from("No such file or directory (os error 2)"))
}

fn inspect() -> Vec<String> {
    (Docker {}).command("c1", &Tools::none())
}

#[test]
fn docker_is_asked_with_inspect() {
    assert_eq!(
        inspect(),
        vec!["docker", "inspect", "--format", "{{.State.Running}};{{.State.Pid}}", "c1"]
    );
}

#[test]
fn docker_pid_is_preferred_where_it_is_installed() {
    let mut tools = Tools::none();
    tools.docker_pid = true;
    tools.docker = true;
    assert_eq!((Docker {}).command("c1", &tools), vec!["docker-pid", "c1"]);
}

#[test]
fn docker_output_of_a_running_container_gives_its_pid() {
    assert_eq!(parse_docker_output(&inspect(), "c1", &printed(b"true;1234\n")).unwrap(), 1234);
    assert_eq!(parse_docker_output(&inspect(), "c1", &printed(b"true;1234")).unwrap(), 1234);
    assert_eq!(parse_docker_output(&inspect(), "c1", &printed(b"true;+5 \t\n")).unwrap(), 5);
    assert_eq!(parse_docker_output(&inspect(), "c1", &printed(b"true;-5\n")).unwrap(), -5);
    assert_eq!(parse_docker_output(&inspect(), "c1", &printed(b"true;007\n")).unwrap(), 7);
}

#[test]
fn docker_output_accepts_the_whole_range_of_a_pid_and_no_more() {
    let ok = |out: &[u8]| parse_docker_output(&inspect(), "c1", &printed(out));
    assert_eq!(ok(b"true;2147483647").unwrap(), 2147483647);
    assert_eq!(ok(b"true;-2147483648").unwrap(), -2147483648);
    assert_eq!(ok(b"true;0000000000000000000002147483647").unwrap(), 2147483647);
    assert_eq!(ok(b"true;2147483648").unwrap_err().kind, ErrorKind::ParseError);
    assert_eq!(ok(b"true;-2147483649").unwrap_err().kind, ErrorKind::ParseError);
    assert_eq!(ok(b"true;99999999999999999999999999").unwrap_err().kind, ErrorKind::ParseError);
}

#[test]
fn docker_output_strips_unicode_white_space_at_the_end() {
    let out = "true;1234\u{a0}\u{2003}\u{3000}\r\n".as_bytes().to_vec();
    assert_eq!(parse_docker_output(&inspect(), "c1", &printed(&out)).unwrap(), 1234);
}

#[test]
fn docker_output_without_semicolon_is_a_parse_error() {
    let e = parse_docker_output(&inspect(), "c1", &printed(b"true 1234\n")).unwrap_err();
    assert_eq!(e.kind, ErrorKind::ParseError);
    assert_eq!(e.message, "unexpected docker output format for container 'c1'");
    let e = parse_docker_output(&inspect(), "c1", &printed(b"")).unwrap_err();
    assert_eq!(e.kind, ErrorKind::ParseError);
}

#[test]
fn docker_container_that_does_not_run_is_not_found() {
    for out in [&b"false;0\n"[..], b"True;12", b" true;12", b"true ;12", b";12"] {
        let e = parse_docker_output(&inspect(), "c1", &printed(out)).unwrap_err();
        assert_eq!(e.kind, ErrorKind::NotFound);
        assert_eq!(e.message, "container 'c1' is not running");
    }
}

#[test]
fn docker_output_with_a_bad_pid_is_a_parse_error() {
    let e = parse_docker_output(&inspect(), "c1", &printed(b"true;12a\n")).unwrap_err();
    assert_eq!(e.kind, ErrorKind::ParseError);
    assert_eq!(e.message, "invalid PID '12a' from docker for container 'c1'");
    for out in [&b"true;\n"[..], b"true; 12", b"true;12;13", b"true;+", b"true;-", b"true;1_000"] {
        let e = parse_docker_output(&inspect(), "c1", &printed(out)).unwrap_err();
        assert_eq!(e.kind, ErrorKind::ParseError);
    }
}

#[test]
fn docker_output_that_is_not_utf8_is_read_with_replacement_characters() {
    let e = parse_docker_output(&inspect(), "c1", &printed(b"true;12\xff\n")).unwrap_err();
    assert_eq!(e.kind, ErrorKind::ParseError);
    assert_eq!(e.message, "invalid PID '12\u{fffd}' from docker for container 'c1'");
}

#[test]
fn docker_that_fails_surfaces_its_standard_error_and_the_command() {
    let e = parse_docker_output(&inspect(), "c1", &failed(1, b"Error: No such object: c1\n\n"))
        .unwrap_err();
    assert_eq!(e.kind, ErrorKind::ExternalCommandFailed);
    assert_eq!(
        e.message,
        "docker command failed (exit status: 1): Error: No such object: c1\nCommand: docker inspect --format {{.State.Running}};{{.State.Pid}} c1"
    );
    let e = parse_docker_output(&inspect(), "c1", &killed()).unwrap_err();
    assert_eq!(e.kind, ErrorKind::ExternalCommandFailed);
}

#[test]
fn docker_that_cannot_be_started_fails_the_lookup() {
    let e = parse_docker_output(&inspect(), "c1", &not_started()).unwrap_err();
    assert_eq!(e.kind, ErrorKind::ExternalCommandFailed);
    assert_eq!(
        e.message,
        "failed to execute command: docker inspect --format {{.State.Running}};{{.State.Pid}} c1: No such file or directory (os error 2)"
    );
}

#[test]
fn docker_lookup_reads_the_answer_to_its_own_command() {
    let docker = Docker {};
    assert_eq!(docker.lookup("c1", &Tools::none(), &printed(b"true;42\n")).unwrap(), 42);
    let mut tools = Tools::none();
    tools.docker_pid = true;
    let e = docker.lookup("c1", &tools, &not_started()).unwrap_err();
    assert_eq!(
        e.message,
        "failed to execute command: docker-pid c1: No such file or directory (os error 2)"
    );
}

#[test]
fn docker_needs_docker_or_docker_pid() {
    let docker = Docker {};
    let mut tools = Tools::none();
    let e = docker.check_required_tools(&tools).unwrap_err();
    assert_eq!(e.kind, ErrorKind::ToolMissing);
    assert_eq!(
        e.message,
        "docker runtime not found: neither 'docker' nor 'docker-pid' command is available"
    );
    tools.docker = true;
    assert!(docker.check_required_tools(&tools).is_ok());
    tools.docker = false;
    tools.docker_pid = true;
    assert!(docker.check_required_tools(&tools).is_ok());
}

#[test]
fn podman_is_asked_as_docker_is() {
    let podman = Podman {};
    assert_eq!(
        podman.command("p1"),
        vec!["podman", "inspect", "--format", "{{.State.Running}};{{.State.Pid}}", "p1"]
    );
    assert_eq!(podman.lookup("p1", &printed(b"true;99\n")).unwrap(), 99);
    let e = podman.lookup("p1", &printed(b"false;0\n")).unwrap_err();
    assert_eq!(e.kind, ErrorKind::NotFound);
    let e = podman.lookup("p1", &not_started()).unwrap_err();
    assert_eq!(
        e.message,
        "failed to execute command: podman inspect --format {{.State.Running}};{{.State.Pid}} p1: No such file or directory (os error 2)"
    );
}

#[test]
fn podman_needs_podman() {
    let mut tools = Tools::none();
    let e = (Podman {}).check_required_tools(&tools).unwrap_err();
    assert_eq!(e.kind, ErrorKind::ToolMissing);
    assert_eq!(e.message, "podman not found");
    tools.podman = true;
    assert!((Podman {}).check_required_tools(&tools).is_ok());
}

#[test]
fn nspawn_reads_the_leader_of_the_machine() {
    let nspawn = Nspawn {};
    assert_eq!(nspawn.command("m1"), vec!["machinectl", "show", "--property=Leader", "m1"]);
    assert_eq!(nspawn.lookup("m1", &printed(b"Leader=77\n")).unwrap(), 77);
    assert_eq!(nspawn.lookup("m1", &printed(b"=8")).unwrap(), 8);
}

#[test]
fn nspawn_output_of_another_shape_is_a_parse_error() {
    let nspawn = Nspawn {};
    let e = nspawn.lookup("m1", &printed(b"Leader 77\n")).unwrap_err();
    assert_eq!(e.kind, ErrorKind::ParseError);
    assert_eq!(e.message, "unexpected output format from machinectl show for container 'm1'");
    let e = nspawn.lookup("m1", &printed(b"Leader= x7 \n")).unwrap_err();
    assert_eq!(e.kind, ErrorKind::ParseError);
    assert_eq!(e.message, "invalid PID 'x7' from machinectl for container 'm1'");
    let e = nspawn.lookup("m1", &printed(b"Leader=7=7\n")).unwrap_err();
    assert_eq!(e.kind, ErrorKind::ParseError);
}

#[test]
fn nspawn_failures_of_machinectl_are_reported() {
    let nspawn = Nspawn {};
    let e = nspawn.lookup("m1", &failed(1, b"No machine 'm1' known\n")).unwrap_err();
    assert_eq!(e.kind, ErrorKind::ExternalCommandFailed);
    assert_eq!(
        e.message,
        "machinectl show command failed (exit status: 1): No machine 'm1' known"
    );
    let e = nspawn.lookup("m1", &not_started()).unwrap_err();
    assert_eq!(
        e.message,
        "failed to execute 'machinectl show': No such file or directory (os error 2)"
    );
    let mut tools = Tools::none();
    let e = nspawn.check_required_tools(&tools).unwrap_err();
    assert_eq!(e.kind, ErrorKind::ToolMissing);
    assert_eq!(
        e.message,
        "systemd-nspawn runtime not found: 'machinectl' command is not available"
    );
    tools.machinectl = true;
    assert!(nspawn.check_required_tools(&tools).is_ok());
}

#[test]
fn lxc_reads_the_pid_that_lxc_info_prints() {
    let lxc = Lxc {};
    assert_eq!(lxc.command("c"), vec!["lxc-info", "--no-humanize", "--pid", "--name", "c"]);
    assert_eq!(lxc.lookup("c", &printed(b"1234")).unwrap(), 1234);
    assert_eq!(lxc.lookup("c", &printed(b" \n\t 1234")).unwrap(), 1234);
    assert_eq!(lxc.lookup("c", &printed(b"1234\n")).unwrap(), 1234);
    assert_eq!(lxc.lookup("c", &printed(b"\t1234 \r\n")).unwrap(), 1234);
}

#[test]
fn lxc_output_that_is_no_pid_is_a_parse_error() {
    let lxc = Lxc {};
    let e = lxc.lookup("c", &printed(b" 12 34\n")).unwrap_err();
    assert_eq!(e.kind, ErrorKind::ParseError);
    assert_eq!(e.message, "invalid PID '12 34' from lxc-info for container 'c'");
    let e = lxc.lookup("c", &printed(b"")).unwrap_err();
    assert_eq!(e.kind, ErrorKind::ParseError);
    assert_eq!(e.message, "invalid PID '' from lxc-info for container 'c'");
}

#[test]
fn lxc_failures_of_lxc_info_are_reported() {
    let lxc = Lxc {};
    let e = lxc.lookup("c", &failed(1, b"  c doesn't exist\n")).unwrap_err();
    assert_eq!(e.kind, ErrorKind::ExternalCommandFailed);
    assert_eq!(e.message, "lxc-info command failed (exit status: 1): c doesn't exist\n");
    let e = lxc.lookup("c", &not_started()).unwrap_err();
    assert_eq!(e.message, "failed to execute 'lxc-info': No such file or directory (os error 2)");
    let mut tools = Tools::none();
    let e = lxc.check_required_tools(&tools).unwrap_err();
    assert_eq!(e.kind, ErrorKind::ToolMissing);
    assert_eq!(e.message, "LXC runtime not found: 'lxc-info' command is not available");
    tools.lxc_info = true;
    assert!(lxc.check_required_tools(&tools).is_ok());
}

#[test]
fn lxd_reads_the_pid_line_of_lxc_info() {
    let lxd = Lxd {};
    assert_eq!(lxd.command("c"), vec!["lxc", "info", "c"]);
    let out = b"Name: c\nStatus: Running\nPid: 4321\nPid: 1\n";
    assert_eq!(lxd.lookup("c", &printed(out)).unwrap(), 4321);
    assert_eq!(lxd.lookup("c", &printed(b"Pid:9")).unwrap(), 9);
}

#[test]
fn lxd_output_without_a_pid_line_is_a_parse_error() {
    let lxd = Lxd {};
    let e = lxd.lookup("c", &printed(b"Name: c\nStatus: Stopped\n pid: 3\nPID: 4\n")).unwrap_err();
    assert_eq!(e.kind, ErrorKind::ParseError);
    assert_eq!(e.message, "no 'Pid' field found in lxd info output for container 'c'");
}

#[test]
fn lxd_pid_line_of_another_shape_is_a_parse_error() {
    let lxd = Lxd {};
    let e = lxd.lookup("c", &printed(b"Name: c\nPid\nPid: 5\n")).unwrap_err();
    assert_eq!(e.kind, ErrorKind::ParseError);
    assert_eq!(e.message, "unexpected format in 'Pid' field from lxc info");
    let e = lxd.lookup("c", &printed(b"Pid: 12 \n")).unwrap_err();
    assert_eq!(e.kind, ErrorKind::ParseError);
    assert_eq!(e.message, "invalid PID '12' from lxd for container 'c'");
    let e = lxd.lookup("c", &printed(b"Pid: 1:2\n")).unwrap_err();
    assert_eq!(e.message, "invalid PID '1:2' from lxd for container 'c'");
}

#[test]
fn lxd_failures_of_lxc_are_reported() {
    let lxd = Lxd {};
    let e = lxd.lookup("c", &failed(1, b"Error: not found\n")).unwrap_err();
    assert_eq!(e.kind, ErrorKind::ExternalCommandFailed);
    assert_eq!(e.message, "lxc info command failed (exit status: 1): Error: not found");
    let e = lxd.lookup("c", &not_started()).unwrap_err();
    assert_eq!(e.message, "failed to execute 'lxc info': No such file or directory (os error 2)");
    let mut tools = Tools::none();
    let e = lxd.check_required_tools(&tools).unwrap_err();
    assert_eq!(e.kind, ErrorKind::ToolMissing);
    assert_eq!(e.message, "LXD runtime not found: 'lxc' command is not available");
    tools.lxc = true;
    assert!(lxd.check_required_tools(&tools).is_ok());
}

const TASKS: &[u8] = b"TASK    PID      STATUS\nv2      17515    RUNNING\nv1      14602    RUNNING\nv1      1    STOPPED\n";

#[test]
fn containerd_reads_the_pid_of_the_first_line_of_the_task() {
    let containerd = Containerd {};
    assert_eq!(containerd.command(), vec!["ctr", "task", "list"]);
    assert_eq!(containerd.lookup("v1", &printed(TASKS)).unwrap(), 14602);
    assert_eq!(containerd.lookup("v2", &printed(TASKS)).unwrap(), 17515);
    assert_eq!(containerd.lookup("v1", &printed(b"\n\tv1\t\t7 \x0b RUNNING  \n")).unwrap(), 7);
}

#[test]
fn containerd_passes_over_the_heading_and_lines_of_another_shape() {
    let containerd = Containerd {};
    let e = containerd.lookup("TASK", &printed(TASKS)).unwrap_err();
    assert_eq!(e.kind, ErrorKind::NotFound);
    assert_eq!(e.message, "no containerd task found with id 'TASK'");
    let out = b"TASK PID STATUS\nv1 12\nv1 12 RUNNING now\nv11 13 RUNNING\n";
    assert_eq!(containerd.lookup("v1", &printed(out)).unwrap_err().kind, ErrorKind::NotFound);
    assert_eq!(containerd.lookup("v1", &printed(b"v1 12 RUNNING")).unwrap_err().kind, ErrorKind::NotFound);
    assert_eq!(containerd.lookup("v1", &printed(b"")).unwrap_err().kind, ErrorKind::NotFound);
}

#[test]
fn containerd_task_with_a_bad_pid_is_a_parse_error() {
    let containerd = Containerd {};
    let out = b"TASK PID STATUS\nv1 x12 RUNNING\nv1 12 RUNNING\n";
    let e = containerd.lookup("v1", &printed(out)).unwrap_err();
    assert_eq!(e.kind, ErrorKind::ParseError);
    assert_eq!(e.message, "invalid PID 'x12' from containerd for container 'v1'");
}

#[test]
fn containerd_failures_of_ctr_are_reported() {
    let containerd = Containerd {};
    let e = containerd.lookup("v1", &failed(1, b"ctr: failed to dial\n")).unwrap_err();
    assert_eq!(e.kind, ErrorKind::ExternalCommandFailed);
    assert_eq!(e.message, "containerd task list failed (exit status: 1): ctr: failed to dial");
    let e = containerd.lookup("v1", &not_started()).unwrap_err();
    assert_eq!(
        e.message,
        "failed to execute 'ctr task list': No such file or directory (os error 2)"
    );
    let mut tools = Tools::none();
    let e = containerd.check_required_tools(&tools).unwrap_err();
    assert_eq!(e.kind, ErrorKind::ToolMissing);
    assert_eq!(e.message, "containerd runtime not found: 'ctr' command is not available");
    tools.ctr = true;
    assert!(containerd.check_required_tools(&tools).is_ok());
}
