use container_pid::dispatch::{Action, Dispatch};
use container_pid::error::{ErrorKind, LookupError};
use container_pid::tools::Tools;
use container_pid::{
    default_order, lookup_container_pid, lookup_container_type, Backend, Container,
    AVAILABLE_CONTAINER_TYPES,
};
use std::cell::Cell;
use std::rc::Rc;

struct Fake {
    name: &'static str,
    tools: bool,
    pid: Option<i32>,
    checks: Rc<Cell<usize>>,
    lookups: Rc<Cell<usize>>,
}

impl Container for Fake {
    fn lookup(&self, container_id: &str) -> Result<i32, LookupError> {
        self.lookups.set(self.lookups.get() + 1);
        match self.pid {
            Some(pid) => Ok(pid),
            None => Err(LookupError::new(
                ErrorKind::NotFound,
                format!("{} does not know '{}'", self.name, container_id),
            )),
        }
    }

    fn check_required_tools(&self) -> Result<(), LookupError> {
        self.checks.set(self.checks.get() + 1);
        if self.tools {
            Ok(())
        } else {
            Err(LookupError::new(ErrorKind::ToolMissing, format!("{} not found", self.name)))
        }
    }

    fn name(&self) -> String {
        String::from(self.name)
    }
}

struct Counters {
    checks: Rc<Cell<usize>>,
    lookups: Rc<Cell<usize>>,
}

fn fake(name: &'static str, tools: bool, pid: Option<i32>) -> (Box<dyn Container>, Counters) {
    let checks = Rc::new(Cell::new(0));
    let lookups = Rc::new(Cell::new(0));
    let counters = Counters { checks: checks.clone(), lookups: lookups.clone() };
    (Box::new(Fake { name, tools, pid, checks, lookups }), counters)
}

#[test]
fn no_backend_is_asked_after_one_has_succeeded() {
    let (a, a_count) = fake("A", true, Some(11));
    let (b, b_count) = fake("B", true, Some(22));
    assert_eq!(lookup_container_pid("x", &[a, b], &[]).unwrap(), 11);
    assert_eq!(a_count.lookups.get(), 1);
    assert_eq!(b_count.lookups.get(), 0);
    assert_eq!(a_count.checks.get(), 1);
    assert_eq!(b_count.checks.get(), 1);
}

#[test]
fn later_backend_is_asked_when_the_earlier_ones_fail() {
    let (a, a_count) = fake("A", true, None);
    let (b, b_count) = fake("B", true, None);
    let (c, c_count) = fake("C", true, Some(33));
    let (d, d_count) = fake("D", true, Some(44));
    assert_eq!(lookup_container_pid("x", &[a, b, c, d], &[]).unwrap(), 33);
    assert_eq!(a_count.lookups.get(), 1);
    assert_eq!(b_count.lookups.get(), 1);
    assert_eq!(c_count.lookups.get(), 1);
    assert_eq!(d_count.lookups.get(), 0);
}

#[test]
fn chosen_backend_without_tools_fails_the_call_before_any_lookup() {
    let (a, a_count) = fake("A", true, Some(11));
    let (b, b_count) = fake("B", false, Some(22));
    let (c, c_count) = fake("C", false, Some(33));
    let (f, f_count) = fake("F", true, Some(44));
    let e = lookup_container_pid("x", &[a, b, c], &[f]).unwrap_err();
    assert_eq!(e.kind, ErrorKind::ToolMissing);
    assert_eq!(e.message, "B not found");
    assert_eq!(a_count.lookups.get(), 0);
    assert_eq!(b_count.lookups.get(), 0);
    assert_eq!(c_count.lookups.get(), 0);
    assert_eq!(f_count.lookups.get(), 0);
    assert_eq!(a_count.checks.get(), 1);
    assert_eq!(b_count.checks.get(), 1);
    assert_eq!(c_count.checks.get(), 0);
    assert_eq!(f_count.checks.get(), 0);
}

#[test]
fn failures_of_all_backends_are_reported_in_order() {
    let (a, _) = fake("A", true, None);
    let (b, _) = fake("B", true, None);
    let e = lookup_container_pid("web", &[a, b], &[]).unwrap_err();
    assert_eq!(e.kind, ErrorKind::NotFound);
    assert_eq!(
        e.message,
        "no suitable container found, got the following errors:\n  - A: A does not know 'web'\n  - B: B does not know 'web'"
    );
}

#[test]
fn default_list_is_used_where_the_caller_chose_none() {
    let (a, a_count) = fake("A", false, None);
    let (b, b_count) = fake("B", true, Some(22));
    assert_eq!(lookup_container_pid("x", &[], &[a, b]).unwrap(), 22);
    assert_eq!(a_count.lookups.get(), 1);
    assert_eq!(b_count.lookups.get(), 1);
    assert_eq!(a_count.checks.get(), 0);
    assert_eq!(b_count.checks.get(), 0);
}

#[test]
fn default_list_is_not_used_where_the_caller_chose() {
    let (a, _) = fake("A", true, None);
    let (f, f_count) = fake("F", true, Some(44));
    let e = lookup_container_pid("x", &[a], &[f]).unwrap_err();
    assert_eq!(
        e.message,
        "no suitable container found, got the following errors:\n  - A: A does not know 'x'"
    );
    assert_eq!(f_count.lookups.get(), 0);
}

#[test]
fn lookup_without_any_backend_fails_with_an_empty_report() {
    let e = lookup_container_pid("x", &[], &[]).unwrap_err();
    assert_eq!(e.kind, ErrorKind::NotFound);
    assert_eq!(e.message, "no suitable container found, got the following errors:");
}

#[test]
fn dispatch_checks_every_chosen_backend_and_then_looks_up() {
    let d = Dispatch::new(2, 3);
    assert_eq!(d.next(), Action::Check(0));
    let d = d.checked(Ok(()));
    assert_eq!(d.next(), Action::Check(1));
    let d = d.checked(Ok(()));
    assert_eq!(d.next(), Action::Lookup(0));
    let d = d.looked_up("A", Err(LookupError::new(ErrorKind::ParseError, String::from("bad"))));
    assert_eq!(d.next(), Action::Lookup(1));
    let d = d.looked_up("B", Ok(7));
    assert_eq!(d.next(), Action::Finish);
    assert_eq!(d.finish().unwrap(), 7);
}

#[test]
fn dispatch_over_the_default_list_checks_nothing() {
    let d = Dispatch::new(0, 2);
    assert_eq!(d.next(), Action::Lookup(0));
    let d = d.looked_up("A", Err(LookupError::new(ErrorKind::NotFound, String::from("no"))));
    assert_eq!(d.next(), Action::Lookup(1));
    let d = d.looked_up("B", Err(LookupError::new(ErrorKind::NotFound, String::from("nope"))));
    assert_eq!(d.next(), Action::Finish);
    let e = d.finish().unwrap_err();
    assert_eq!(
        e.message,
        "no suitable container found, got the following errors:\n  - A: no\n  - B: nope"
    );
}

#[test]
fn dispatch_ignores_answers_that_it_did_not_want() {
    let d = Dispatch::new(1, 0);
    let d = d.looked_up("A", Ok(7));
    assert_eq!(d.next(), Action::Check(0));
    let d = d.checked(Err(LookupError::new(ErrorKind::ToolMissing, String::from("gone"))));
    assert_eq!(d.next(), Action::Finish);
    let d = d.checked(Ok(()));
    let d = d.looked_up("A", Ok(7));
    assert_eq!(d.next(), Action::Finish);
    let e = d.finish().unwrap_err();
    assert_eq!(e.kind, ErrorKind::ToolMissing);
    assert_eq!(e.message, "gone");
}

#[test]
fn every_available_name_chooses_a_backend() {
    let expected = [
        Backend::ProcessId,
        Backend::Rkt,
        Backend::Podman,
        Backend::Docker,
        Backend::Nspawn,
        Backend::Lxc,
        Backend::Lxd,
        Backend::Command,
        Backend::Containerd,
        Backend::Kubernetes,
    ];
    assert_eq!(AVAILABLE_CONTAINER_TYPES.len(), expected.len());
    for (name, backend) in AVAILABLE_CONTAINER_TYPES.iter().zip(expected) {
        assert_eq!(lookup_container_type(name), Some(backend));
    }
}

#[test]
fn other_names_choose_no_backend() {
    for name in ["", "Docker", "docker ", "vhive", "vhive_fc_vmid", "process-id", "k8s"] {
        assert_eq!(lookup_container_type(name), None);
    }
}

#[test]
fn default_order_holds_the_backends_whose_tools_are_installed() {
    assert_eq!(default_order(&Tools::none()), vec![Backend::ProcessId]);
    let mut tools = Tools::none();
    tools.kubectl = true;
    tools.docker_pid = true;
    tools.lxc = true;
    assert_eq!(
        default_order(&tools),
        vec![Backend::ProcessId, Backend::Docker, Backend::Lxd, Backend::Kubernetes]
    );
    let all = Tools::detect(|_| true);
    assert_eq!(
        default_order(&all),
        vec![
            Backend::ProcessId,
            Backend::Rkt,
            Backend::Podman,
            Backend::Docker,
            Backend::Nspawn,
            Backend::Lxc,
            Backend::Lxd,
            Backend::Containerd,
            Backend::Kubernetes,
        ]
    );
}

#[test]
fn tools_are_detected_by_the_names_of_the_programs() {
    let tools = Tools::detect(|name| name == "lxc-info" || name == "docker-pid");
    assert!(tools.lxc_info && tools.docker_pid);
    assert!(!tools.lxc && !tools.docker && !tools.podman && !tools.rkt);
    assert!(!tools.machinectl && !tools.ctr && !tools.kubectl && !tools.journalctl);
    let asked = std::cell::RefCell::new(Vec::new());
    Tools::detect(|name| {
        asked.borrow_mut().push(String::from(name));
        false
    });
    let mut asked = asked.into_inner();
    asked.sort();
    assert_eq!(
        asked,
        vec![
            "ctr", "docker", "docker-pid", "journalctl", "kubectl", "lxc", "lxc-info",
            "machinectl", "podman", "rkt",
        ]
    );
}

#[test]
fn backends_report_under_their_names_and_know_their_tools() {
    assert_eq!(Backend::ProcessId.name(), "ProcessId");
    assert_eq!(Backend::VhiveFcVmid.name(), "VhiveFcVmid");
    assert_eq!(Backend::Kubernetes.name(), "Kubernetes");
    let none = Tools::none();
    assert!(Backend::ProcessId.check_required_tools(&none).is_ok());
    assert!(Backend::Command.check_required_tools(&none).is_ok());
    assert!(Backend::VhiveFcVmid.check_required_tools(&none).is_ok());
    for backend in [
        Backend::Rkt,
        Backend::Podman,
        Backend::Docker,
        Backend::Nspawn,
        Backend::Lxc,
        Backend::Lxd,
        Backend::Containerd,
        Backend::Kubernetes,
        Backend::Vhive,
    ] {
        assert_eq!(backend.check_required_tools(&none).unwrap_err().kind, ErrorKind::ToolMissing);
    }
}
