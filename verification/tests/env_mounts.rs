use coretoolbox::env::{
    env_arg_string, forwarded_env_args, getenv_required_utf8, lookup_env, preserved_env, EnvValue,
    EnvVar,
};
use coretoolbox::error::ToolboxError;
use coretoolbox::host::{
    existing_paths, is_ostree_based_host, ostree_marker_path, probed_path_strings, process_id,
    real_uid,
};
use coretoolbox::launch::{run, Host, LaunchConfig};
use coretoolbox::mounts::{
    contains_text, device_candidate_paths, device_mount_args, host_arg_string, host_mount_args,
    self_arg_string, volume_arg_string,
};

fn var(name: &str, value: &str) -> EnvVar {
    EnvVar { name: name.to_string(), value: Some(value.to_string()) }
}

fn not_text(name: &str) -> EnvVar {
    EnvVar { name: name.to_string(), value: None }
}

fn strings(items: &[&str]) -> Vec<String> {
    items.iter().map(|s| s.to_string()).collect()
}

#[test]
fn looking_a_name_up() {
    let env = vec![var("A", "1"), not_text("B"), var("A", "2"), var("", "empty")];
    assert_eq!(lookup_env(&env, &"A".to_string()), EnvValue::Text("1".to_string()));
    assert_eq!(lookup_env(&env, &"B".to_string()), EnvValue::NotText);
    assert_eq!(lookup_env(&env, &"C".to_string()), EnvValue::Unset);
    assert_eq!(lookup_env(&env, &"".to_string()), EnvValue::Text("empty".to_string()));
    assert_eq!(lookup_env(&Vec::new(), &"A".to_string()), EnvValue::Unset);
}

#[test]
fn required_variables() {
    let env = vec![var("USER", "alice"), not_text("XDG_RUNTIME_DIR")];
    assert_eq!(getenv_required_utf8(&env, &"USER".to_string()), Ok("alice".to_string()));
    assert_eq!(
        getenv_required_utf8(&env, &"HOME".to_string()),
        Err(ToolboxError::MissingEnvVar("HOME".to_string()))
    );
    assert_eq!(
        getenv_required_utf8(&env, &"XDG_RUNTIME_DIR".to_string()),
        Err(ToolboxError::InvalidEncoding("XDG_RUNTIME_DIR".to_string()))
    );
}

#[test]
fn preserved_names_in_order() {
    assert_eq!(
        preserved_env(),
        strings(&[
            "COLORTERM",
            "DBUS_SESSION_BUS_ADDRESS",
            "DESKTOP_SESSION",
            "DISPLAY",
            "LANG",
            "SHELL",
            "SSH_AUTH_SOCK",
            "TERM",
            "VTE_VERSION",
            "XDG_CURRENT_DESKTOP",
            "XDG_DATA_DIRS",
            "XDG_MENU_PREFIX",
            "XDG_RUNTIME_DIR",
            "XDG_SEAT",
            "XDG_SESSION_DESKTOP",
            "XDG_SESSION_ID",
            "XDG_SESSION_TYPE",
            "XDG_VTNR",
        ])
    );
}

#[test]
fn forwarding_takes_what_is_preserved_and_set() {
    let env = vec![
        var("XDG_RUNTIME_DIR", "/run/user/1000"),
        var("USER", "alice"),
        var("TERM", "xterm-256color"),
        var("HOME", "/home/alice"),
        var("COLORTERM", ""),
        var("LANG", "en_US.UTF-8=x"),
        not_text("PATH"),
    ];
    assert_eq!(
        forwarded_env_args(&env),
        Ok(strings(&[
            "--env=COLORTERM=",
            "--env=LANG=en_US.UTF-8=x",
            "--env=TERM=xterm-256color",
            "--env=XDG_RUNTIME_DIR=/run/user/1000",
        ]))
    );
    assert_eq!(forwarded_env_args(&Vec::new()), Ok(Vec::new()));
    assert_eq!(forwarded_env_args(&vec![var("USER", "alice")]), Ok(Vec::new()));
}

#[test]
fn forwarding_all_preserved_names() {
    let env: Vec<EnvVar> = preserved_env().iter().rev().map(|n| var(n, "v")).collect();
    let expected: Vec<String> = preserved_env().iter().map(|n| format!("--env={}=v", n)).collect();
    assert_eq!(forwarded_env_args(&env), Ok(expected));
}

#[test]
fn forwarding_refuses_a_value_that_is_not_text() {
    let env = vec![var("TERM", "xterm"), not_text("XDG_SEAT"), not_text("DISPLAY")];
    assert_eq!(
        forwarded_env_args(&env),
        Err(ToolboxError::InvalidEncoding("DISPLAY".to_string()))
    );
}

#[test]
fn environment_argument() {
    assert_eq!(env_arg_string(&"A".to_string(), &"b c".to_string()), "--env=A=b c");
}

#[test]
fn volume_arguments() {
    assert_eq!(volume_arg_string("/a", "/b"), "--volume=/a:/b:rslave");
    assert_eq!(host_arg_string("/usr"), "--volume=/usr:/host/usr:rslave");
    assert_eq!(
        self_arg_string("/usr/bin/coretoolbox"),
        "--volume=/usr/bin/coretoolbox:/toolbox.entrypoint:rslave"
    );
}

#[test]
fn device_mounts_with_no_device() {
    assert_eq!(device_mount_args(&Vec::new()), Vec::<String>::new());
    assert_eq!(device_mount_args(&strings(&["/dev/null", "/dev"])), Vec::<String>::new());
}

#[test]
fn device_mounts_with_some_devices() {
    assert_eq!(
        device_mount_args(&strings(&["/dev/fuse", "/dev/kvm", "/dev/bus"])),
        strings(&["--volume=/dev/bus:/dev/bus:rslave", "--volume=/dev/fuse:/dev/fuse:rslave"])
    );
    assert_eq!(
        device_mount_args(&strings(&["/dev/dri"])),
        strings(&["--volume=/dev/dri:/dev/dri:rslave"])
    );
}

#[test]
fn device_mounts_with_all_devices() {
    assert_eq!(device_candidate_paths(), strings(&["/dev/bus", "/dev/dri", "/dev/fuse"]));
    assert_eq!(
        device_mount_args(&device_candidate_paths()),
        strings(&[
            "--volume=/dev/bus:/dev/bus:rslave",
            "--volume=/dev/dri:/dev/dri:rslave",
            "--volume=/dev/fuse:/dev/fuse:rslave",
        ])
    );
}

#[test]
fn host_mounts_on_an_image_based_host() {
    assert_eq!(
        host_mount_args(true),
        strings(&[
            "--volume=/usr:/host/usr:rslave",
            "--volume=/var:/host/var:rslave",
            "--volume=/etc:/host/etc:rslave",
            "--volume=/run:/host/run:rslave",
            "--volume=/sysroot:/host/sysroot:rslave",
        ])
    );
}

#[test]
fn host_mounts_on_another_host() {
    assert_eq!(
        host_mount_args(false),
        strings(&[
            "--volume=/usr:/host/usr:rslave",
            "--volume=/var:/host/var:rslave",
            "--volume=/etc:/host/etc:rslave",
            "--volume=/run:/host/run:rslave",
            "--volume=/media:/host/media:rslave",
            "--volume=/mnt:/host/mnt:rslave",
            "--volume=/home:/host/home:rslave",
            "--volume=/srv:/host/srv:rslave",
        ])
    );
}

#[test]
fn conditional_mounts_never_meet() {
    let yes = host_mount_args(true);
    let no = host_mount_args(false);
    for a in &yes[4..] {
        assert!(!no.contains(a));
    }
    for a in &no[4..] {
        assert!(!yes.contains(a));
    }
    assert_eq!(yes.len(), 5);
    assert_eq!(no.len(), 8);
}

#[test]
fn membership_of_a_text() {
    let list = strings(&["a", "b"]);
    assert!(contains_text(&list, &"b".to_string()));
    assert!(!contains_text(&list, &"c".to_string()));
    assert!(!contains_text(&Vec::new(), &"a".to_string()));
}

#[test]
fn the_host_is_observed() {
    assert_eq!(ostree_marker_path(), "/run/ostree-booted");
    assert_eq!(
        probed_path_strings(),
        strings(&["/run/ostree-booted", "/dev/bus", "/dev/dri", "/dev/fuse"])
    );
    let candidates = probed_path_strings();
    let found = existing_paths();
    for path in &candidates {
        assert_eq!(found.contains(path), std::path::Path::new(path).exists());
    }
    assert_eq!(
        is_ostree_based_host(&found),
        std::path::Path::new("/run/ostree-booted").exists()
    );
    let mut last = 0;
    for path in &found {
        let at = candidates.iter().position(|c| c == path).unwrap();
        assert!(found.iter().filter(|p| *p == path).count() == 1);
        assert!(at >= last);
        last = at;
        assert!(std::path::Path::new(path).exists());
    }
    assert_eq!(real_uid(), real_uid());
    assert_eq!(process_id(), process_id());
    assert!(process_id() > 0);
}

#[test]
fn a_launch_of_this_process() {
    let env = vec![var("USER", "alice"), var("XDG_RUNTIME_DIR", "/run/user/1000")];
    let config = LaunchConfig::for_this_process("img".to_string(), &env).unwrap();
    assert_eq!(config.image, "img");
    assert_eq!(config.runtime_dir, "/run/user/1000");
    assert_eq!(config.real_uid, real_uid());
    assert_eq!(config.pid, process_id());
    assert_eq!(
        LaunchConfig::for_this_process("img".to_string(), &Vec::new()),
        Err(ToolboxError::MissingEnvVar("XDG_RUNTIME_DIR".to_string()))
    );
    let host = Host::observe("/bin/self".to_string(), env.clone());
    assert_eq!(host.self_bin, "/bin/self");
    assert_eq!(host.env, env);
    assert_eq!(host.existing, existing_paths());
    let config = LaunchConfig::new("img".to_string(), 1000, 55, &env).unwrap();
    let plan = run(&config, &host).unwrap();
    let key = plan.args.iter().find(|a| a.starts_with("--env=TOOLBOX_STATEFILE=")).unwrap();
    let name = key.strip_prefix("--env=TOOLBOX_STATEFILE=").unwrap();
    assert_eq!(plan.statefile_path, format!("/run/user/1000/{}", name));
    let random = name.strip_prefix("toolbox-data-55-").unwrap();
    assert_eq!(format!("{:x}", u32::from_str_radix(random, 16).unwrap()), random);
    let config = LaunchConfig::new("img".to_string(), 0, 55, &env).unwrap();
    assert_eq!(run(&config, &host), Err(ToolboxError::UidOutOfRange(0)));
}

#[test]
fn the_marker_decides_the_kind_of_host() {
    assert!(is_ostree_based_host(&strings(&["/run/ostree-booted"])));
    assert!(is_ostree_based_host(&strings(&["/dev/fuse", "/run/ostree-booted", "/dev/bus"])));
    assert!(!is_ostree_based_host(&Vec::new()));
    assert!(!is_ostree_based_host(&strings(&["/dev/fuse", "/sysroot", "/run/ostree-booted "])));
    assert!(!is_ostree_based_host(&strings(&["/run/ostree", "run/ostree-booted"])));
}
