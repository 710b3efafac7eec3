use docker_owl::docker::{
    choose_endpoint,
    container_list_filters, event_filters, ContainerListFilter, DockerContainerInfo,
    DockerEvents, EventObjectType, EventStreamFilter,
};

fn event_filter_text(f: &EventStreamFilter) -> String {
    match f {
        EventStreamFilter::Type(EventObjectType::Container) => "type=container".to_string(),
        EventStreamFilter::Event(e) => format!("event={}", e),
        EventStreamFilter::Label(l) => format!("label={}", l),
    }
}

fn container_filter_text(f: &ContainerListFilter) -> String {
    match f {
        ContainerListFilter::Status(s) => format!("status={}", s),
        ContainerListFilter::LabelName(l) => format!("label={}", l),
    }
}

#[test]
fn event_filters_for_default_label() {
    let fs: Vec<String> = event_filters("virtual-host").iter().map(event_filter_text).collect();
    assert_eq!(
        fs,
        vec!["type=container", "event=start", "event=stop", "event=die", "label=virtual-host"]
    );
}

#[test]
fn event_filters_for_several_labels() {
    let fs: Vec<String> = event_filters(" a\tb  c ").iter().map(event_filter_text).collect();
    assert_eq!(
        fs,
        vec!["type=container", "event=start", "event=stop", "event=die", "label=a", "label=b", "label=c"]
    );
}

#[test]
fn container_filters_for_labels() {
    let fs: Vec<String> = container_list_filters("a b").iter().map(container_filter_text).collect();
    assert_eq!(fs, vec!["status=running", "label=a", "label=b"]);
    let none: Vec<String> = container_list_filters("").iter().map(container_filter_text).collect();
    assert_eq!(none, vec!["status=running"]);
}

#[test]
fn docker_events_normalizes_endpoint() {
    let d = DockerEvents::from_endpoint("HTTP://Example.COM:2375", "a").unwrap();
    assert_eq!(d.endpoint, "http://example.com:2375/");
    let d = DockerEvents::from_endpoint("unix:///var/run/docker.sock", "virtual-host").unwrap();
    assert_eq!(d.endpoint, "unix:///var/run/docker.sock");
    assert_eq!(d.event_filters.len(), 5);
    assert_eq!(d.container_filters.len(), 2);
}

#[test]
fn docker_events_refuses_bad_endpoint() {
    assert!(DockerEvents::from_endpoint("not a url", "a").is_none());
    assert!(DockerEvents::from_endpoint("", "a").is_none());
}

#[test]
fn docker_events_new_accepts_url() {
    let d = DockerEvents::new("tcp://127.0.0.1:2375", "x y").unwrap();
    assert_eq!(d.endpoint, "tcp://127.0.0.1:2375");
    assert_eq!(d.event_filters.len(), 6);
}

#[test]
fn shiplift_options_carry_the_filters() {
    let d = DockerEvents::from_endpoint("tcp://127.0.0.1:2375", "virtual-host").unwrap();
    let q = d.events_options().serialize().unwrap();
    assert!(q.contains("virtual-host"));
    assert!(q.contains("start"));
    assert!(q.contains("container"));
    let q = d.container_list_options().serialize().unwrap();
    assert!(q.contains("running"));
    assert!(q.contains("virtual-host"));
}

#[test]
fn container_info_from_event() {
    let info = DockerContainerInfo::from_event(
        Some("abc".to_string()),
        Some("start".to_string()),
        Some("nginx".to_string()),
    );
    assert_eq!(info.id, "abc");
    assert_eq!(info.status, "start");
    assert_eq!(info.from, "nginx");
}

#[test]
fn endpoint_option_then_docker_host_then_socket() {
    assert_eq!(choose_endpoint("tcp://a:1", Some("tcp://b:2")), "tcp://a:1");
    assert_eq!(choose_endpoint("", Some("tcp://b:2")), "tcp://b:2");
    assert_eq!(choose_endpoint("", None), "unix:///var/run/docker.sock");
}

#[test]
fn container_list_options_keep_the_last_label() {
    let d = DockerEvents::from_endpoint("tcp://127.0.0.1:2375", "first second").unwrap();
    let q = d.container_list_options().serialize().unwrap();
    assert!(q.contains("%22second%22"));
    assert!(!q.contains("%22first%22"));
    let e = d.events_options().serialize().unwrap();
    assert!(e.contains("%22first%22"));
    assert!(e.contains("%22second%22"));
    assert!(e.contains("%22die%22"));
}
