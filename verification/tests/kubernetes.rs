use container_pid::cgroup::{CgroupSearch, DirEntry, Listing};
use container_pid::error::ErrorKind;
use container_pid::kubernetes::{
    find_cgroup, get_cgroup_pid, get_containerd_id, kubectl_command, parse_userinput,
    procs_file, select_containerd_id, Kubernetes,
};
use container_pid::output::CommandOutput;
use container_pid::tools::Tools;

fn finished(code: i32, stdout: &[u8], stderr: &[u8]) -> Result<CommandOutput, String> {
    Ok(CommandOutput {
        code: Some(code),
        status: format!("exit status: {}", code),
        stdout: stdout.to_vec(),
        stderr: stderr.to_vec(),
    })
}

#[test]
fn userinput_with_one_field_names_a_pod_in_the_default_namespace() {
    let (namespace, pod, container) = parse_userinput("foo").unwrap();
    assert_eq!(namespace, "default");
    assert_eq!(pod, "foo");
    assert_eq!(container, None);
}

#[test]
fn userinput_with_two_fields_names_namespace_and_pod() {
    let (namespace, pod, container) = parse_userinput("ns/foo").unwrap();
    assert_eq!(namespace, "ns");
    assert_eq!(pod, "foo");
    assert_eq!(container, None);
}

#[test]
fn userinput_with_three_fields_names_a_container() {
    let (namespace, pod, container) = parse_userinput("ns/foo/c").unwrap();
    assert_eq!(namespace, "ns");
    assert_eq!(pod, "foo");
    assert_eq!(container, Some("c"));
}

#[test]
fn userinput_keeps_further_slashes_in_the_container() {
    let (namespace, pod, container) = parse_userinput("ns/foo/c/d/").unwrap();
    assert_eq!(namespace, "ns");
    assert_eq!(pod, "foo");
    assert_eq!(container, Some("c/d/"));
}

#[test]
fn userinput_accepts_empty_fields() {
    assert_eq!(parse_userinput("").unwrap(), ("default", "", None));
    assert_eq!(parse_userinput("/").unwrap(), ("", "", None));
    assert_eq!(parse_userinput("//").unwrap(), ("", "", Some("")));
    assert_eq!(parse_userinput("é/ü").unwrap(), ("é", "ü", None));
}

#[test]
fn kubectl_is_asked_for_name_and_id_of_each_container() {
    let argv = kubectl_command("ns", "web");
    assert_eq!(
        argv,
        vec![
            "kubectl",
            "get",
            "pod",
            "-o",
            "jsonpath='{range .items[?(@.metadata.name==\"web\")].status.containerStatuses[*]}{.name}{\"\\t\"}{.containerID}{\"\\n\"}{end}'",
            "-n",
            "ns",
        ]
    );
}

#[test]
fn first_container_is_taken_when_none_is_named() {
    let listing = "app\tcontainerd://abc\nsidecar\tcontainerd://def\n";
    assert_eq!(select_containerd_id(listing, "web", None).unwrap(), "abc");
}

#[test]
fn named_container_is_taken_by_exact_name() {
    let listing = "app\tcontainerd://abc\nsidecar\tcontainerd://def\n";
    assert_eq!(select_containerd_id(listing, "web", Some("sidecar")).unwrap(), "def");
    let e = select_containerd_id(listing, "web", Some("side")).unwrap_err();
    assert_eq!(e.kind, ErrorKind::NotFound);
    assert_eq!(e.message, "no container named 'side' found in pod 'web'");
}

#[test]
fn pod_without_containers_is_not_found() {
    let e = select_containerd_id("", "web", None).unwrap_err();
    assert_eq!(e.kind, ErrorKind::NotFound);
    assert_eq!(e.message, "no containers found in pod 'web'");
    let e = select_containerd_id("no tab here\na\tb\tc\n", "web", None).unwrap_err();
    assert_eq!(e.kind, ErrorKind::NotFound);
}

#[test]
fn stripping_the_scheme_yields_the_bare_id() {
    assert_eq!(select_containerd_id("c\tcontainerd://abc", "p", None).unwrap(), "abc");
    assert_eq!(select_containerd_id("c\tcontainerd://", "p", None).unwrap(), "");
}

#[test]
fn id_without_the_scheme_is_a_parse_error() {
    let e = select_containerd_id("c\tabc", "p", None).unwrap_err();
    assert_eq!(e.kind, ErrorKind::ParseError);
    assert_eq!(e.message, "container ID does not have expected 'containerd://' prefix: abc");
    let e = select_containerd_id("c\tdocker://abc", "p", None).unwrap_err();
    assert_eq!(e.kind, ErrorKind::ParseError);
}

#[test]
fn containerd_id_is_read_from_the_answer_of_kubectl() {
    let ran = finished(0, b"app\tcontainerd://abc123\n", b"");
    assert_eq!(get_containerd_id(&ran, "web", Some("app")).unwrap(), "abc123");
}

#[test]
fn kubectl_that_cannot_be_started_fails_the_query() {
    let ran: Result<CommandOutput, String> = Err(String::from("No such file or directory"));
    let e = get_containerd_id(&ran, "web", None).unwrap_err();
    assert_eq!(e.kind, ErrorKind::ExternalCommandFailed);
    assert_eq!(e.message, "failed to execute 'kubectl get pod': No such file or directory");
}

#[test]
fn kubectl_that_fails_surfaces_its_standard_error() {
    let ran = finished(1, b"app\tcontainerd://abc123\n", b"pods \"web\" not found\n");
    let e = get_containerd_id(&ran, "web", None).unwrap_err();
    assert_eq!(e.kind, ErrorKind::ExternalCommandFailed);
    assert_eq!(e.message, "kubectl get pod failed (exit status: 1): pods \"web\" not found\n");
}

#[test]
fn answer_of_kubectl_has_to_be_utf8() {
    let ran = finished(0, b"app\tcontainerd://abc\xff\n", b"");
    let e = get_containerd_id(&ran, "web", None).unwrap_err();
    assert_eq!(e.kind, ErrorKind::ParseError);
    assert_eq!(e.message, "kubectl response contains non-UTF8 data");
}

#[test]
fn cgroup_procs_file_lies_in_the_cgroup() {
    assert_eq!(procs_file("/sys/fs/cgroup/a/abc"), "/sys/fs/cgroup/a/abc/cgroup.procs");
}

#[test]
fn first_line_of_cgroup_procs_is_the_pid() {
    assert_eq!(get_cgroup_pid("/c", &Ok(b"1234\n".to_vec())).unwrap(), 1234);
    assert_eq!(get_cgroup_pid("/c", &Ok(b"1234\n5678\n".to_vec())).unwrap(), 1234);
    assert_eq!(get_cgroup_pid("/c", &Ok(b"+7".to_vec())).unwrap(), 7);
    assert_eq!(get_cgroup_pid("/c", &Ok(b"2147483647\n".to_vec())).unwrap(), 2147483647);
}

#[test]
fn number_beyond_a_pid_is_a_parse_error() {
    for contents in [&b"2147483648\n"[..], b"4294967297\n", b"18446744073709551615\n"] {
        let e = get_cgroup_pid("/c", &Ok(contents.to_vec())).unwrap_err();
        assert_eq!(e.kind, ErrorKind::ParseError);
    }
    let e = get_cgroup_pid("/c", &Ok(b"4294967297\n".to_vec())).unwrap_err();
    assert_eq!(e.message, "invalid PID value '4294967297' in cgroup.procs");
    assert_eq!(get_cgroup_pid("/c", &Ok(b"0\n".to_vec())).unwrap(), 0);
    assert_eq!(get_cgroup_pid("/c", &Ok(b"0002147483647\n".to_vec())).unwrap(), 2147483647);
}

#[test]
fn empty_or_malformed_cgroup_procs_is_a_parse_error() {
    for contents in [&b""[..], b"\n1234\n", b"12a\n", b" 12\n", b"-1\n", b"18446744073709551616\n"] {
        let e = get_cgroup_pid("/c", &Ok(contents.to_vec())).unwrap_err();
        assert_eq!(e.kind, ErrorKind::ParseError);
    }
    let e = get_cgroup_pid("/c", &Ok(b"12a\n".to_vec())).unwrap_err();
    assert_eq!(e.message, "invalid PID value '12a' in cgroup.procs");
    let e = get_cgroup_pid("/c", &Ok(b"12\xff\n".to_vec())).unwrap_err();
    assert_eq!(e.kind, ErrorKind::ParseError);
    assert_eq!(e.message, "cgroup.procs contains non-UTF8 data");
}

#[test]
fn unreadable_cgroup_procs_is_an_internal_error() {
    let e = get_cgroup_pid("/c", &Err(String::from("permission denied"))).unwrap_err();
    assert_eq!(e.kind, ErrorKind::Internal);
    assert_eq!(e.message, "failed to read cgroup.procs file at '/c/cgroup.procs': permission denied");
}

#[test]
fn kubernetes_needs_kubectl() {
    let mut tools = Tools::none();
    let e = (Kubernetes {}).check_required_tools(&tools).unwrap_err();
    assert_eq!(e.kind, ErrorKind::ToolMissing);
    assert_eq!(e.message, "kubernetes runtime not found: 'kubectl' command is not available");
    tools.kubectl = true;
    assert!((Kubernetes {}).check_required_tools(&tools).is_ok());
}

fn dir(name: &str) -> DirEntry {
    DirEntry { name: String::from(name), is_dir: true }
}

fn file(name: &str) -> DirEntry {
    DirEntry { name: String::from(name), is_dir: false }
}

fn listing(entries: Vec<DirEntry>) -> Listing {
    Listing { entries, failure: None }
}

// The tree that the searches below walk:
//   /r/cgroup.procs   /r/a/   /r/a/x/   /r/a/x/abc123/   /r/a/y   /r/b/   /r/b/z/
fn answer(path: &str) -> Listing {
    match path {
        "/r" => listing(vec![file("cgroup.procs"), dir("a"), dir("b")]),
        "/r/a" => listing(vec![dir("x"), file("y")]),
        "/r/a/x" => listing(vec![file("cgroup.procs"), dir("abc123")]),
        "/r/b" => listing(vec![dir("z")]),
        "/r/b/z" => listing(vec![]),
        _ => Listing { entries: vec![], failure: Some(String::from("no such directory")) },
    }
}

fn walk(mut search: CgroupSearch, asked: &mut Vec<String>) -> Result<String, String> {
    loop {
        match search.wanted() {
            Some(path) => {
                asked.push(path.clone());
                search = search.visit_dirs(answer(&path));
            }
            None => return search.outcome().unwrap().map_err(|e| e.message),
        }
    }
}

#[test]
fn search_finds_the_one_directory_with_the_name() {
    let mut asked = Vec::new();
    let found = walk(CgroupSearch::new("/r", "abc123"), &mut asked);
    assert_eq!(found, Ok(String::from("/r/a/x/abc123")));
    assert_eq!(asked, vec!["/r", "/r/a", "/r/a/x"]);
}

#[test]
fn search_without_a_match_visits_the_whole_tree() {
    let mut asked = Vec::new();
    let found = walk(CgroupSearch::new("/r", "nothing"), &mut asked);
    assert_eq!(found, Err(String::from("cgroup not found in directory tree")));
    assert_eq!(asked, vec!["/r", "/r/a", "/r/a/x", "/r/a/x/abc123", "/r/b", "/r/b/z"]);
}

#[test]
fn search_matches_directories_only_and_whole_names_only() {
    let mut asked = Vec::new();
    assert!(walk(CgroupSearch::new("/r", "y"), &mut asked).is_err());
    assert!(walk(CgroupSearch::new("/r", "abc12"), &mut asked).is_err());
    assert!(walk(CgroupSearch::new("/r", "a/x"), &mut asked).is_err());
    assert_eq!(walk(CgroupSearch::new("/r", "b"), &mut asked), Ok(String::from("/r/b")));
}

#[test]
fn search_takes_the_first_match_in_listing_order() {
    let mut asked = Vec::new();
    assert_eq!(walk(CgroupSearch::new("/r", "x"), &mut asked), Ok(String::from("/r/a/x")));
    assert_eq!(walk(CgroupSearch::new("/r", "z"), &mut asked), Ok(String::from("/r/b/z")));
}

#[test]
fn unreadable_root_fails_the_search() {
    let search = CgroupSearch::new("/nowhere", "abc123");
    assert_eq!(search.wanted(), Some(String::from("/nowhere")));
    let search = search.visit_dirs(answer("/nowhere"));
    assert_eq!(search.wanted(), None);
    let e = search.outcome().unwrap().unwrap_err();
    assert_eq!(e.kind, ErrorKind::Internal);
    assert_eq!(e.message, "failed to read directory '/nowhere': no such directory");
}

#[test]
fn unreadable_directory_below_the_root_is_passed_over() {
    let search = CgroupSearch::new("/r", "abc123");
    let search = search.visit_dirs(listing(vec![dir("locked"), dir("abc123")]));
    assert_eq!(search.wanted(), Some(String::from("/r/locked")));
    let search = search.visit_dirs(Listing {
        entries: vec![],
        failure: Some(String::from("permission denied")),
    });
    assert_eq!(search.outcome().unwrap().unwrap(), "/r/abc123");
}

#[test]
fn root_listing_that_breaks_off_fails_after_its_entries() {
    let search = CgroupSearch::new("/r", "abc123");
    let search = search.visit_dirs(Listing {
        entries: vec![dir("abc123")],
        failure: Some(String::from("input/output error")),
    });
    assert_eq!(search.outcome().unwrap().unwrap(), "/r/abc123");
    let search = CgroupSearch::new("/r", "abc123");
    let search = search.visit_dirs(Listing {
        entries: vec![file("abc123")],
        failure: Some(String::from("input/output error")),
    });
    let e = search.outcome().unwrap().unwrap_err();
    assert_eq!(e.kind, ErrorKind::Internal);
}

#[test]
fn ended_search_ignores_further_listings() {
    let search = CgroupSearch::new("/r", "abc123").visit_dirs(listing(vec![]));
    assert!(search.outcome().unwrap().is_err());
    let search = search.visit_dirs(listing(vec![dir("abc123")]));
    assert!(search.outcome().unwrap().is_err());
}

#[test]
fn cgroup_search_starts_at_the_cgroup_root() {
    let search = find_cgroup("abc123");
    assert_eq!(search.wanted(), Some(String::from("/sys/fs/cgroup")));
    assert!(search.outcome().is_none());
}
