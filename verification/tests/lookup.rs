use container_pid::cgroup::{DirEntry, Listing};
use container_pid::error::ErrorKind;
use container_pid::lookup::{Config, Lookup};
use container_pid::output::CommandOutput;
use container_pid::process_id::Probe;
use container_pid::system::{Reply, Request, Step};
use container_pid::tools::Tools;
use container_pid::Backend;
use std::collections::HashMap;

struct Machine {
    programs: HashMap<String, Result<CommandOutput, String>>,
    files: HashMap<String, Vec<u8>>,
    dirs: HashMap<String, Vec<(String, bool)>>,
    links: HashMap<String, Vec<String>>,
    asked: Vec<String>,
}

impl Machine {
    fn new() -> Machine {
        Machine {
            programs: HashMap::new(),
            files: HashMap::new(),
            dirs: HashMap::new(),
            links: HashMap::new(),
            asked: Vec::new(),
        }
    }

    fn program(&mut self, line: &str, code: i32, stdout: &[u8], stderr: &[u8]) {
        self.programs.insert(
            String::from(line),
            Ok(CommandOutput {
                code: Some(code),
                status: format!("exit status: {}", code),
                stdout: stdout.to_vec(),
                stderr: stderr.to_vec(),
            }),
        );
    }

    fn file(&mut self, path: &str, contents: &[u8]) {
        self.files.insert(String::from(path), contents.to_vec());
    }

    fn dir(&mut self, path: &str, entries: &[(&str, bool)]) {
        let entries = entries.iter().map(|(name, is_dir)| (String::from(*name), *is_dir)).collect();
        self.dirs.insert(String::from(path), entries);
    }

    fn fds(&mut self, path: &str, targets: &[&str]) {
        self.links.insert(String::from(path), targets.iter().map(|t| String::from(*t)).collect());
    }

    fn answer(&mut self, request: Request) -> Reply {
        match request {
            Request::Run(argv) => {
                let line = argv.join(" ");
                self.asked.push(format!("run {}", line));
                match self.programs.get(&line) {
                    Some(ran) => Reply::Ran(ran.clone()),
                    None => Reply::Ran(Err(String::from("No such file or directory"))),
                }
            }
            Request::Probe(path) => {
                self.asked.push(format!("probe {}", path));
                if self.dirs.contains_key(&path) || self.files.contains_key(&path) {
                    Reply::Probed(Probe::Exists)
                } else {
                    Reply::Probed(Probe::Missing)
                }
            }
            Request::ReadFile(path) => {
                self.asked.push(format!("read {}", path));
                match self.files.get(&path) {
                    Some(bytes) => Reply::File(Ok(bytes.clone())),
                    None => Reply::File(Err(String::from("No such file or directory"))),
                }
            }
            Request::ListDir(path) => {
                self.asked.push(format!("list {}", path));
                match self.dirs.get(&path) {
                    Some(entries) => Reply::Dir(Listing {
                        entries: entries
                            .iter()
                            .map(|(name, is_dir)| DirEntry { name: name.clone(), is_dir: *is_dir })
                            .collect(),
                        failure: None,
                    }),
                    None => Reply::Dir(Listing {
                        entries: Vec::new(),
                        failure: Some(String::from("No such file or directory")),
                    }),
                }
            }
            Request::ReadLinks(path) => {
                self.asked.push(format!("links {}", path));
                match self.links.get(&path) {
                    Some(targets) => Reply::Links(Ok(targets.iter().map(|t| Ok(t.clone())).collect())),
                    None => Reply::Links(Err(String::from("Permission denied"))),
                }
            }
        }
    }

    fn resolve(&mut self, backend: Backend, id: &str, config: &Config) -> Result<i32, (ErrorKind, String)> {
        let mut lookup = Lookup::start(backend, id, config);
        for _ in 0..1000 {
            match lookup.next() {
                Step::Ask(request) => {
                    let reply = self.answer(request);
                    lookup = lookup.resume(reply);
                }
                Step::Done(answer) => return answer.map_err(|e| (e.kind, e.message)),
            }
        }
        panic!("the lookup does not end");
    }
}

fn config() -> Config {
    Config { tools: Tools::none(), proc_root: String::from("/proc"), own_pid: 500 }
}

fn processes(machine: &mut Machine) {
    machine.dir(
        "/proc",
        &[("cpuinfo", false), ("1", true), ("self", true), ("500", true), ("77", true), ("78", true)],
    );
    machine.file("/proc/1/cmdline", b"/sbin/init\0");
    machine.file("/proc/1/status", b"Name:\tinit\nPPid:\t0\n");
    machine.file("/proc/500/cmdline", b"container-pid\0web-1\0");
    machine.file("/proc/500/status", b"Name:\tcontainer-pid\nPPid:\t1\n");
    machine.file("/proc/77/cmdline", b"/usr/bin/firecracker\0--id\0vm-7\0");
    machine.file("/proc/77/status", b"Name:\tfirecracker\nPid:\t77\nPPid:\t1\n");
    machine.file("/proc/78/cmdline", b"sleep\0web-1\0");
    machine.file("/proc/78/status", b"Name:\tsleep\nPid:\t78\nPPid:\t77\n");
    machine.fds("/proc/77/fd", &["/dev/null", "socket:[1]", "/tmp/log_vm-7_start.logs"]);
    machine.fds("/proc/78/fd", &["/tmp/log_vm-8_start.logs"]);
}

#[test]
fn process_id_probes_the_entry_of_the_process() {
    let mut machine = Machine::new();
    machine.dir("/fake/123", &[]);
    let config = Config { tools: Tools::none(), proc_root: String::from("/fake"), own_pid: 1 };
    assert_eq!(machine.resolve(Backend::ProcessId, "123", &config), Ok(123));
    assert_eq!(machine.asked, vec!["probe /fake/123"]);
    let e = machine.resolve(Backend::ProcessId, "124", &config).unwrap_err();
    assert_eq!(e, (ErrorKind::NotFound, String::from("no process with PID 124 found")));
}

#[test]
fn process_id_asks_nothing_about_text_that_is_no_integer() {
    let mut machine = Machine::new();
    let e = machine.resolve(Backend::ProcessId, "web", &config()).unwrap_err();
    assert_eq!(e, (ErrorKind::ParseError, String::from("'web' is not a valid PID (process ID)")));
    assert!(machine.asked.is_empty());
}

#[test]
fn backends_with_one_program_run_it_once() {
    let mut machine = Machine::new();
    machine.program("docker inspect --format {{.State.Running}};{{.State.Pid}} web", 0, b"true;10\n", b"");
    machine.program("podman inspect --format {{.State.Running}};{{.State.Pid}} web", 0, b"true;11\n", b"");
    machine.program("machinectl show --property=Leader web", 0, b"Leader=12\n", b"");
    machine.program("lxc-info --no-humanize --pid --name web", 0, b"13", b"");
    machine.program("lxc info web", 0, b"Name: web\nPid: 14\n", b"");
    machine.program("ctr task list", 0, b"TASK PID STATUS\nweb 15 RUNNING\n", b"");
    let config = config();
    assert_eq!(machine.resolve(Backend::Docker, "web", &config), Ok(10));
    assert_eq!(machine.resolve(Backend::Podman, "web", &config), Ok(11));
    assert_eq!(machine.resolve(Backend::Nspawn, "web", &config), Ok(12));
    assert_eq!(machine.resolve(Backend::Lxc, "web", &config), Ok(13));
    assert_eq!(machine.resolve(Backend::Lxd, "web", &config), Ok(14));
    assert_eq!(machine.resolve(Backend::Containerd, "web", &config), Ok(15));
    assert_eq!(machine.asked.len(), 6);
    let e = machine.resolve(Backend::Docker, "db", &config).unwrap_err();
    assert_eq!(e.0, ErrorKind::ExternalCommandFailed);
}

#[test]
fn docker_runs_docker_pid_where_the_tools_hold_it() {
    let mut machine = Machine::new();
    machine.program("docker-pid web", 0, b"true;10\n", b"");
    let mut config = config();
    config.tools.docker_pid = true;
    assert_eq!(machine.resolve(Backend::Docker, "web", &config), Ok(10));
    assert_eq!(machine.asked, vec!["run docker-pid web"]);
}

#[test]
fn command_finds_the_first_other_process_that_mentions_the_text() {
    let mut machine = Machine::new();
    processes(&mut machine);
    assert_eq!(machine.resolve(Backend::Command, "web-1", &config()), Ok(78));
    assert_eq!(
        machine.asked,
        vec!["list /proc", "read /proc/1/cmdline", "read /proc/77/cmdline", "read /proc/78/cmdline"]
    );
    assert_eq!(machine.resolve(Backend::Command, "--id vm-7", &config()), Ok(77));
    assert_eq!(machine.resolve(Backend::Command, "init ", &config()), Ok(1));
}

#[test]
fn command_that_matches_no_process_is_not_found() {
    let mut machine = Machine::new();
    processes(&mut machine);
    let e = machine.resolve(Backend::Command, "container-pid", &config()).unwrap_err();
    assert_eq!(
        e,
        (ErrorKind::NotFound, String::from("no process found with command line matching 'container-pid'"))
    );
    let mut empty = Machine::new();
    let e = empty.resolve(Backend::Command, "x", &config()).unwrap_err();
    assert_eq!(
        e,
        (
            ErrorKind::Internal,
            String::from("failed to read /proc directory - is procfs mounted?: No such file or directory")
        )
    );
}

#[test]
fn rkt_finds_the_child_of_the_supervisor() {
    let mut machine = Machine::new();
    processes(&mut machine);
    machine.program("rkt status pod-1", 0, b"state=running\npid=77\nexited=false\n", b"");
    assert_eq!(machine.resolve(Backend::Rkt, "pod-1", &config()), Ok(78));
    assert_eq!(
        machine.asked,
        vec![
            "run rkt status pod-1",
            "list /proc",
            "read /proc/cpuinfo/status",
            "read /proc/1/status",
            "read /proc/self/status",
            "read /proc/500/status",
            "read /proc/77/status",
            "read /proc/78/status",
        ]
    );
}

#[test]
fn rkt_pod_without_a_process_is_not_found() {
    let mut machine = Machine::new();
    processes(&mut machine);
    machine.program("rkt status pod-2", 0, b"state=running\npid=78\n", b"");
    let e = machine.resolve(Backend::Rkt, "pod-2", &config()).unwrap_err();
    assert_eq!(
        e,
        (
            ErrorKind::NotFound,
            String::from("could not find container process belonging to rkt container 'pod-2': no child process found for pid 78")
        )
    );
    machine.program("rkt status pod-3", 0, b"state=exited\n", b"");
    let e = machine.resolve(Backend::Rkt, "pod-3", &config()).unwrap_err();
    assert_eq!(
        e,
        (
            ErrorKind::ParseError,
            String::from("expected to find `pid=` field in output of 'rkt status pod-3', got: state=exited\n")
        )
    );
    machine.program("rkt status pod-4", 254, b"", b"status: cannot get pod\n");
    let e = machine.resolve(Backend::Rkt, "pod-4", &config()).unwrap_err();
    assert_eq!(
        e,
        (
            ErrorKind::ExternalCommandFailed,
            String::from("Failed to list containers. 'rkt status pod-4' failed (exit status: 254): status: cannot get pod")
        )
    );
}

fn cluster(machine: &mut Machine) {
    let selector = |pod: &str| {
        format!(
            "kubectl get pod -o jsonpath='{{range .items[?(@.metadata.name==\"{}\")].status.containerStatuses[*]}}{{.name}}{{\"\\t\"}}{{.containerID}}{{\"\\n\"}}{{end}}' -n ",
            pod
        )
    };
    machine.program(
        &(selector("web") + "default"),
        0,
        b"app\tcontainerd://abc123\nuser-container\tcontainerd://def456\n",
        b"",
    );
    machine.program(&(selector("web") + "prod"), 0, b"app\tdocker://abc123\n", b"");
    machine.program(&(selector("gone") + "default"), 1, b"", b"Error from server (NotFound)\n");
    machine.dir("/sys/fs/cgroup", &[("cgroup.procs", false), ("kubepods.slice", true), ("user.slice", true)]);
    machine.dir("/sys/fs/cgroup/kubepods.slice", &[("pod1", true), ("pod2", true)]);
    machine.dir("/sys/fs/cgroup/kubepods.slice/pod1", &[("cgroup.procs", false)]);
    machine.dir("/sys/fs/cgroup/kubepods.slice/pod2", &[("abc123", true), ("def456", true)]);
    machine.dir("/sys/fs/cgroup/user.slice", &[]);
    machine.file("/sys/fs/cgroup/kubepods.slice/pod2/abc123/cgroup.procs", b"1234\n1235\n");
    machine.file("/sys/fs/cgroup/kubepods.slice/pod2/def456/cgroup.procs", b"");
    machine.program(
        "journalctl -u vhive --no-pager --boot=0 --reverse -o cat --grep=user-containerID=def456",
        0,
        b"2024-01-01T00:00:00 vmID=vm-7 extra=1\n2023-12-31T00:00:00 vmID=vm-6\n",
        b"",
    );
}

#[test]
fn kubernetes_goes_from_the_pod_to_a_process_of_its_cgroup() {
    let mut machine = Machine::new();
    cluster(&mut machine);
    assert_eq!(machine.resolve(Backend::Kubernetes, "web", &config()), Ok(1234));
    assert_eq!(machine.asked.len(), 6);
    assert_eq!(
        &machine.asked[1..],
        &[
            "list /sys/fs/cgroup",
            "list /sys/fs/cgroup/kubepods.slice",
            "list /sys/fs/cgroup/kubepods.slice/pod1",
            "list /sys/fs/cgroup/kubepods.slice/pod2",
            "read /sys/fs/cgroup/kubepods.slice/pod2/abc123/cgroup.procs",
        ]
    );
    assert_eq!(machine.resolve(Backend::Kubernetes, "default/web/app", &config()), Ok(1234));
}

#[test]
fn kubernetes_says_at_which_step_it_failed() {
    let mut machine = Machine::new();
    cluster(&mut machine);
    let e = machine.resolve(Backend::Kubernetes, "gone", &config()).unwrap_err();
    assert_eq!(
        e,
        (
            ErrorKind::ExternalCommandFailed,
            String::from("failed to get containerd ID for pod 'gone' in namespace 'default': kubectl get pod failed (exit status: 1): Error from server (NotFound)\n")
        )
    );
    let e = machine.resolve(Backend::Kubernetes, "default/web/db", &config()).unwrap_err();
    assert_eq!(
        e,
        (
            ErrorKind::NotFound,
            String::from("failed to get containerd ID for pod 'web' in namespace 'default': no container named 'db' found in pod 'web'")
        )
    );
    let e = machine.resolve(Backend::Kubernetes, "prod/web", &config()).unwrap_err();
    assert_eq!(
        e,
        (
            ErrorKind::ParseError,
            String::from("failed to get containerd ID for pod 'web' in namespace 'prod': container ID does not have expected 'containerd://' prefix: docker://abc123")
        )
    );
    let e = machine.resolve(Backend::Kubernetes, "default/web/user-container", &config()).unwrap_err();
    assert_eq!(
        e,
        (
            ErrorKind::ParseError,
            String::from("failed to get PID from cgroup '/sys/fs/cgroup/kubepods.slice/pod2/def456': invalid PID value '' in cgroup.procs")
        )
    );
    machine.dirs.remove("/sys/fs/cgroup/kubepods.slice/pod2");
    let e = machine.resolve(Backend::Kubernetes, "web", &config()).unwrap_err();
    assert_eq!(
        e,
        (
            ErrorKind::NotFound,
            String::from("failed to find cgroup for containerd ID 'abc123': cgroup not found in directory tree")
        )
    );
    machine.dirs.remove("/sys/fs/cgroup");
    let e = machine.resolve(Backend::Kubernetes, "web", &config()).unwrap_err();
    assert_eq!(
        e,
        (
            ErrorKind::Internal,
            String::from("failed to find cgroup for containerd ID 'abc123': failed to read directory '/sys/fs/cgroup': No such file or directory")
        )
    );
}

#[test]
fn vhive_goes_from_the_pod_to_the_process_of_its_virtual_machine() {
    let mut machine = Machine::new();
    cluster(&mut machine);
    processes(&mut machine);
    assert_eq!(machine.resolve(Backend::Vhive, "web", &config()), Ok(77));
    assert_eq!(
        &machine.asked[1..],
        &[
            "run journalctl -u vhive --no-pager --boot=0 --reverse -o cat --grep=user-containerID=def456",
            "list /proc",
            "read /proc/1/cmdline",
            "read /proc/500/cmdline",
            "read /proc/77/cmdline",
            "links /proc/77/fd",
        ]
    );
    assert_eq!(machine.resolve(Backend::Vhive, "default/web/app", &config()), Ok(77));
}

#[test]
fn vhive_says_at_which_step_it_failed() {
    let mut machine = Machine::new();
    cluster(&mut machine);
    processes(&mut machine);
    let e = machine.resolve(Backend::Vhive, "prod/web", &config()).unwrap_err();
    assert_eq!(
        e,
        (
            ErrorKind::NotFound,
            String::from("containerd id lookup failed: no container named 'user-container' found in pod 'web'")
        )
    );
    machine.programs.remove(
        "journalctl -u vhive --no-pager --boot=0 --reverse -o cat --grep=user-containerID=def456",
    );
    let e = machine.resolve(Backend::Vhive, "web", &config()).unwrap_err();
    assert_eq!(
        e,
        (
            ErrorKind::ExternalCommandFailed,
            String::from("cannot get firecracker vm id for containerd://def456: cannot start journalctl: No such file or directory")
        )
    );
    machine.program(
        "journalctl -u vhive --no-pager --boot=0 --reverse -o cat --grep=user-containerID=def456",
        0,
        b"2024-01-01T00:00:00 vmID=vm-9\n",
        b"",
    );
    let e = machine.resolve(Backend::Vhive, "web", &config()).unwrap_err();
    assert_eq!(
        e,
        (
            ErrorKind::NotFound,
            String::from("cannot find pid for firecracker vmID vm-9: no process found for firecracker vm id vm-9")
        )
    );
}

#[test]
fn entry_beyond_the_range_of_a_pid_is_never_the_answer() {
    let mut machine = Machine::new();
    machine.dir("/proc", &[("4294967297", true), ("2147483648", true)]);
    machine.file("/proc/4294967297/cmdline", b"firecracker\0");
    machine.fds("/proc/4294967297/fd", &["/tmp/log_vm-7_start.logs"]);
    machine.file("/proc/2147483648/cmdline", b"firecracker\0");
    machine.fds("/proc/2147483648/fd", &["/tmp/log_vm-7_start.logs"]);
    let e = machine.resolve(Backend::VhiveFcVmid, "vm-7", &config()).unwrap_err();
    assert_eq!(
        e,
        (
            ErrorKind::NotFound,
            String::from("cannot find pid for firecracker vmID vm-7: no process found for firecracker vm id vm-7")
        )
    );
    assert_eq!(machine.asked, vec!["list /proc"]);
    machine.dir("/proc", &[("4294967297", true), ("1", true)]);
    machine.file("/proc/1/cmdline", b"firecracker\0");
    machine.fds("/proc/1/fd", &["/tmp/log_vm-7_start.logs"]);
    assert_eq!(machine.resolve(Backend::VhiveFcVmid, "vm-7", &config()), Ok(1));
}

#[test]
fn member_beyond_the_range_of_a_pid_fails_the_lookup_of_a_pod() {
    let mut machine = Machine::new();
    cluster(&mut machine);
    machine.file("/sys/fs/cgroup/kubepods.slice/pod2/abc123/cgroup.procs", b"4294967297\n");
    let e = machine.resolve(Backend::Kubernetes, "web", &config()).unwrap_err();
    assert_eq!(
        e,
        (
            ErrorKind::ParseError,
            String::from("failed to get PID from cgroup '/sys/fs/cgroup/kubepods.slice/pod2/abc123': invalid PID value '4294967297' in cgroup.procs")
        )
    );
}

#[test]
fn virtual_machine_is_found_by_its_marker_file() {
    let mut machine = Machine::new();
    processes(&mut machine);
    assert_eq!(machine.resolve(Backend::VhiveFcVmid, "vm-7", &config()), Ok(77));
    assert_eq!(
        machine.asked,
        vec![
            "list /proc",
            "read /proc/1/cmdline",
            "read /proc/500/cmdline",
            "read /proc/77/cmdline",
            "links /proc/77/fd",
        ]
    );
    let e = machine.resolve(Backend::VhiveFcVmid, "vm-8", &config()).unwrap_err();
    assert_eq!(
        e,
        (
            ErrorKind::NotFound,
            String::from("cannot find pid for firecracker vmID vm-8: no process found for firecracker vm id vm-8")
        )
    );
}

#[test]
fn search_for_a_virtual_machine_fails_where_the_system_does_not_answer() {
    let mut machine = Machine::new();
    processes(&mut machine);
    machine.files.remove("/proc/1/cmdline");
    let e = machine.resolve(Backend::VhiveFcVmid, "vm-7", &config()).unwrap_err();
    assert_eq!(
        e,
        (
            ErrorKind::Internal,
            String::from("cannot find pid for firecracker vmID vm-7: cannot read cmdline of process 1: No such file or directory")
        )
    );
    let mut machine = Machine::new();
    processes(&mut machine);
    machine.links.remove("/proc/77/fd");
    let e = machine.resolve(Backend::VhiveFcVmid, "vm-7", &config()).unwrap_err();
    assert_eq!(
        e,
        (
            ErrorKind::Internal,
            String::from("cannot find pid for firecracker vmID vm-7: cannot list /proc/77/fd: Permission denied")
        )
    );
    let mut machine = Machine::new();
    let e = machine.resolve(Backend::VhiveFcVmid, "vm-7", &config()).unwrap_err();
    assert_eq!(
        e,
        (
            ErrorKind::Internal,
            String::from("cannot find pid for firecracker vmID vm-7: cannot list /proc: No such file or directory")
        )
    );
}

#[test]
fn searches_of_the_processes_go_by_the_root_of_the_config() {
    let mut machine = Machine::new();
    machine.dir("/fake", &[("77", true)]);
    machine.file("/fake/77/cmdline", b"firecracker\0web-1\0");
    machine.file("/fake/77/status", b"PPid:\t5\n");
    machine.fds("/fake/77/fd", &["/tmp/log_vm-7_start.logs"]);
    machine.program("rkt status pod-1", 0, b"pid=5\n", b"");
    let config = Config { tools: Tools::none(), proc_root: String::from("/fake"), own_pid: 1 };
    assert_eq!(machine.resolve(Backend::VhiveFcVmid, "vm-7", &config), Ok(77));
    assert_eq!(machine.resolve(Backend::Command, "web-1", &config), Ok(77));
    assert_eq!(machine.resolve(Backend::Rkt, "pod-1", &config), Ok(77));
    assert_eq!(
        machine.asked,
        vec![
            "list /fake",
            "read /fake/77/cmdline",
            "links /fake/77/fd",
            "list /fake",
            "read /fake/77/cmdline",
            "run rkt status pod-1",
            "list /fake",
            "read /fake/77/status",
        ]
    );
    let missing = Config { tools: Tools::none(), proc_root: String::from("/none"), own_pid: 1 };
    let e = machine.resolve(Backend::Command, "web-1", &missing).unwrap_err();
    assert_eq!(
        e,
        (
            ErrorKind::Internal,
            String::from("failed to read /none directory - is procfs mounted?: No such file or directory")
        )
    );
    let e = machine.resolve(Backend::Rkt, "pod-1", &missing).unwrap_err();
    assert_eq!(
        e,
        (
            ErrorKind::Internal,
            String::from("could not find container process belonging to rkt container 'pod-1': failed to read /none directory: No such file or directory")
        )
    );
}

#[test]
fn lookup_ignores_answers_to_other_questions() {
    let lookup = Lookup::start(Backend::Lxc, "web", &config());
    let lookup = lookup.resume(Reply::Probed(Probe::Exists));
    let lookup = lookup.resume(Reply::File(Ok(b"12".to_vec())));
    match lookup.next() {
        Step::Ask(Request::Run(argv)) => assert_eq!(argv[0], "lxc-info"),
        _ => panic!("the lookup should still want its program run"),
    }
    let lookup = lookup.resume(Reply::Ran(Err(String::from("gone"))));
    let lookup = lookup.resume(Reply::Ran(Ok(CommandOutput {
        code: Some(0),
        status: String::new(),
        stdout: b"12".to_vec(),
        stderr: Vec::new(),
    })));
    match lookup.next() {
        Step::Done(Err(e)) => assert_eq!(e.kind, ErrorKind::ExternalCommandFailed),
        _ => panic!("the lookup should have ended with the first answer"),
    }
}
