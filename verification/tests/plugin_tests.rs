use docker_owl::labels::ContainerLabels;
use docker_owl::plugins::encrypt::{
    account_key_path, certificate_needed, challenge_from_name, is_continue_key, Acme, AcmeDirectory, Challenge,
    DhGroup, FFDHE2048, FFDHE3072, FFDHE4096,
};
use docker_owl::plugins::template::Template;
use docker_owl::plugins::{OwlPlugin, OwlPlugins, Plugin};
use docker_owl::{notifications, run_step, Args, Env, Notification, RunAction, RunEvent};

fn labels(pairs: &[(&str, &str)]) -> ContainerLabels {
    let mut l = ContainerLabels::new();
    for (k, v) in pairs {
        l.insert(k.to_string(), v.to_string());
    }
    l
}

#[test]
fn acme_new_has_documented_defaults() {
    let a = Acme::new(false);
    assert!(matches!(a.directory, AcmeDirectory::LetsEncrypt));
    assert_eq!(a.default_dest, "./certs");
    assert_eq!(a.default_webroot, "./www");
    assert_eq!(a.default_challenge, "dns");
    assert_eq!(a.default_hostname, "localhost");
    assert_eq!(a.default_mail, None);
    assert_eq!(a.default_keysize, 4096);
    let a = Acme::new(true);
    assert!(matches!(a.directory, AcmeDirectory::LetsEncryptStaging));
}

#[test]
fn acme_settings_without_labels_are_defaults() {
    let a = Acme::new(false);
    let s = a.settings(&labels(&[("letsencrypt-enable", "")]));
    assert_eq!(s.dest, "./certs");
    assert_eq!(s.webroot, "./www");
    assert!(matches!(s.challenge, Challenge::Dns));
    assert_eq!(s.hostname, "localhost");
    assert_eq!(s.mail, None);
    assert_eq!(s.keysize, 4096);
    assert_eq!(s.dh_group, None);
    assert_eq!(s.dh_path, "./certs/dhparam.pem");
    assert_eq!(s.certificate_path, "./certs/localhost.pem");
    assert_eq!(s.private_key_path, "./certs/localhost.key");
}

#[test]
fn acme_settings_follow_labels() {
    let a = Acme::new(false);
    let s = a.settings(&labels(&[
        ("letsencrypt-enable", "true"),
        ("letsencrypt-dest", "/etc/ssl"),
        ("letsencrypt-webroot", "/srv/www"),
        ("letsencrypt-challenge", "http"),
        ("letsencrypt-hostname", "example.org"),
        ("letsencrypt-mail", "admin@example.org"),
        ("letsencrypt-keysize", "2048"),
        ("letsencrypt-dh-group", "ffdhe3072"),
    ]));
    assert_eq!(s.dest, "/etc/ssl");
    assert_eq!(s.webroot, "/srv/www");
    assert!(matches!(s.challenge, Challenge::Http));
    assert_eq!(s.hostname, "example.org");
    assert_eq!(s.mail, Some("admin@example.org".to_string()));
    assert_eq!(s.keysize, 2048);
    assert_eq!(s.dh_group, Some("ffdhe3072".to_string()));
    assert_eq!(s.dh_path, "/etc/ssl/dhparam.pem");
    assert_eq!(s.certificate_path, "/etc/ssl/example.org.pem");
    assert_eq!(s.private_key_path, "/etc/ssl/example.org.key");
}

#[test]
fn acme_keysize_falls_back_on_bad_number() {
    let a = Acme::new(false);
    let s = a.settings(&labels(&[("letsencrypt-keysize", "big")]));
    assert_eq!(s.keysize, 4096);
    let s = a.settings(&labels(&[("letsencrypt-keysize", "99999999999")]));
    assert_eq!(s.keysize, 4096);
    let s = a.settings(&labels(&[("letsencrypt-keysize", "+3072")]));
    assert_eq!(s.keysize, 3072);
}

#[test]
fn challenge_names() {
    assert!(matches!(challenge_from_name("dns"), Challenge::Dns));
    assert!(matches!(challenge_from_name("http"), Challenge::Http));
    assert!(matches!(challenge_from_name("tls"), Challenge::Unsupported));
    assert!(matches!(challenge_from_name("DNS"), Challenge::Unsupported));
}

#[test]
fn dh_groups() {
    assert!(matches!(DhGroup::from_name("ffdhe2048"), Some(DhGroup::Ffdhe2048)));
    assert!(matches!(DhGroup::from_name("ffdhe3072"), Some(DhGroup::Ffdhe3072)));
    assert!(matches!(DhGroup::from_name("ffdhe4096"), Some(DhGroup::Ffdhe4096)));
    assert!(DhGroup::from_name("ffdhe8192").is_none());
    assert_eq!(DhGroup::Ffdhe2048.pem(), FFDHE2048);
    assert_eq!(DhGroup::Ffdhe3072.pem(), FFDHE3072);
    assert_eq!(DhGroup::Ffdhe4096.pem(), FFDHE4096);
    for g in [DhGroup::Ffdhe2048, DhGroup::Ffdhe3072, DhGroup::Ffdhe4096].iter() {
        assert!(g.pem().starts_with("-----BEGIN DH PARAMETERS-----\n"));
        assert!(g.pem().ends_with("\n-----END DH PARAMETERS-----"));
    }
}

#[test]
fn dh_params_only_when_asked_and_missing() {
    let a = Acme::new(false);
    let s = a.settings(&labels(&[("letsencrypt-dh-group", "ffdhe4096")]));
    assert!(matches!(s.dh_params_to_write(false), Some(DhGroup::Ffdhe4096)));
    assert!(s.dh_params_to_write(true).is_none());
    let s = a.settings(&labels(&[]));
    assert!(s.dh_params_to_write(false).is_none());
}

#[test]
fn continue_key_is_newline() {
    assert!(is_continue_key(b'\n'));
    assert!(!is_continue_key(b'a'));
    assert!(!is_continue_key(b'\r'));
}

#[test]
fn account_key_lives_in_certs() {
    assert_eq!(account_key_path(), "./certs/account_pkey");
}

#[test]
fn plugin_names() {
    assert_eq!(Acme::new(false).get_name(), "Acme");
    assert_eq!(Template::new().get_name(), "Template");
}

#[test]
fn acme_runs_on_enable_label() {
    let a = Acme::new(false);
    assert!(a.should_process(&labels(&[("letsencrypt-enable", "")])));
    assert!(!a.should_process(&labels(&[("letsencrypt-dest", "x")])));
}

#[test]
fn template_runs_on_enable_files_and_src() {
    let t = Template::new();
    let needed = [
        ("owl-template-enable", "1"),
        ("owl-template-files", "a.conf"),
        ("owl-template-src", "/tpl"),
    ];
    assert!(t.should_process(&labels(&needed)));
    let mut with_dest = needed.to_vec();
    with_dest.push(("owl-template-dest", "/out"));
    assert!(t.should_process(&labels(&with_dest)));
    for skip in 0..needed.len() {
        let some: Vec<(&str, &str)> =
            needed.iter().enumerate().filter(|(i, _)| *i != skip).map(|(_, p)| *p).collect();
        assert!(!t.should_process(&labels(&some)));
    }
}

#[test]
fn template_files_and_outputs() {
    let files = Template::template_files("/tpl", "nginx.conf  /etc/abs.conf");
    let pairs: Vec<(String, String)> = files.into_iter().map(|f| (f.path, f.name)).collect();
    assert_eq!(
        pairs,
        vec![
            ("/tpl/nginx.conf".to_string(), "nginx.conf".to_string()),
            ("/etc/abs.conf".to_string(), "/etc/abs.conf".to_string()),
        ]
    );
    assert_eq!(Template::output_path("/out", "nginx.conf"), "/out/nginx.conf");
    assert_eq!(Template::output_path("/out/", "a"), "/out/a");
}

#[test]
fn template_job_reads_labels() {
    let t = Template::new();
    let job = t.job(&labels(&[
        ("owl-template-enable", "1"),
        ("owl-template-files", "a b"),
        ("owl-template-src", "src"),
        ("owl-template-dest", "dst"),
    ]));
    assert_eq!(job.dest, Some("dst".to_string()));
    let paths: Vec<String> = job.files.iter().map(|f| f.path.clone()).collect();
    assert_eq!(paths, vec!["src/a".to_string(), "src/b".to_string()]);
}

#[test]
fn template_job_without_dest_goes_to_standard_output() {
    let t = Template::new();
    let job = t.job(&labels(&[
        ("owl-template-enable", "1"),
        ("owl-template-files", "a"),
        ("owl-template-src", "src"),
    ]));
    assert_eq!(job.dest, None);
    assert_eq!(job.files.len(), 1);
}

#[test]
fn acme_mail_label_is_used() {
    let a = Acme::new(false);
    let s = a.settings(&labels(&[("letsencrypt-mail", "ops@example.org")]));
    assert_eq!(s.mail, Some("ops@example.org".to_string()));
}

#[test]
fn certificate_needed_when_forced_or_missing() {
    let none: Vec<String> = Vec::new();
    assert!(certificate_needed(&none, false));
    assert!(!certificate_needed(&none, true));
    let forced = vec!["PATH=/bin".to_string(), "LETSENCRYPT_FORCE=true".to_string()];
    assert!(certificate_needed(&forced, true));
    let not_forced = vec!["LETSENCRYPT_FORCE=false".to_string(), "LETSENCRYPT_FORCE".to_string()];
    assert!(!certificate_needed(&not_forced, true));
    assert!(certificate_needed(&not_forced, false));
}

#[test]
fn registered_plugins_run_as_labels_say() {
    let mut plugins = OwlPlugins::default();
    assert_eq!(plugins.plugins.len(), 0);
    plugins.register_all_plugins(&Env { env_debug: false });
    assert_eq!(plugins.plugins.len(), 2);
    assert!(matches!(plugins.plugins[0], Plugin::Acme(_)));
    assert!(matches!(plugins.plugins[1], Plugin::Template(_)));
    assert_eq!(plugins.plugins[0].get_name(), "Acme");
    assert_eq!(plugins.plugins[1].get_name(), "Template");

    assert_eq!(plugins.plugins_to_run(&labels(&[])), Vec::<usize>::new());
    assert_eq!(plugins.plugins_to_run(&labels(&[("letsencrypt-enable", "")])), vec![0]);
    let template = [
        ("owl-template-enable", "1"),
        ("owl-template-files", "a"),
        ("owl-template-src", "s"),
    ];
    assert_eq!(plugins.plugins_to_run(&labels(&template)), vec![1]);
    let mut both = template.to_vec();
    both.push(("letsencrypt-enable", "yes"));
    assert_eq!(plugins.plugins_to_run(&labels(&both)), vec![0, 1]);
}

#[test]
fn register_plugin_appends() {
    let mut plugins = OwlPlugins::default();
    plugins.register_plugin(Plugin::Template(Template::new()));
    plugins.register_plugin(Plugin::Acme(Acme::new(true)));
    assert!(matches!(plugins.plugins[0], Plugin::Template(_)));
    assert!(matches!(plugins.plugins[1], Plugin::Acme(_)));
    assert_eq!(plugins.plugins_to_run(&labels(&[("letsencrypt-enable", "")])), vec![1]);
}

fn args(watch: bool) -> Args {
    Args {
        flag_version: false,
        flag_endpoint: "unix:///var/run/docker.sock".to_string(),
        flag_watch: watch,
        flag_only_labels: "virtual-host".to_string(),
        flag_notify: String::new(),
        flag_notify_restart: String::new(),
        flag_notify_reload: String::new(),
    }
}

#[test]
fn run_once_without_watch() {
    assert!(matches!(run_step(&args(false), RunEvent::Started), RunAction::ProcessContainersOnce));
}

#[test]
fn run_watches_events() {
    let a = args(true);
    assert!(matches!(run_step(&a, RunEvent::Started), RunAction::ListenForEvents));
    assert!(matches!(run_step(&a, RunEvent::ContainerChanged), RunAction::ProcessContainers));
    assert!(matches!(run_step(&a, RunEvent::EventsEnded), RunAction::Stop));
}

fn notification_text(n: &Notification) -> String {
    match n {
        Notification::RunCommand(c) => format!("run {}", c),
        Notification::RestartContainer(id) => format!("restart {}", id),
        Notification::ReloadContainer(id) => format!("reload {}", id),
    }
}

#[test]
fn no_notification_without_options() {
    assert!(notifications(&args(true)).is_empty());
}

#[test]
fn notifications_follow_options() {
    let mut a = args(false);
    a.flag_notify_restart = "web".to_string();
    let ns: Vec<String> = notifications(&a).iter().map(notification_text).collect();
    assert_eq!(ns, vec!["restart web"]);
    a.flag_notify = "nginx -s reload".to_string();
    a.flag_notify_reload = "proxy".to_string();
    let ns: Vec<String> = notifications(&a).iter().map(notification_text).collect();
    assert_eq!(ns, vec!["run nginx -s reload", "restart web", "reload proxy"]);
}
