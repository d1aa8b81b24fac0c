use hostfetch::{collect_host_snapshot, render_line, value_or, HostSnapshot};

#[test]
fn value_or_keeps_a_present_value() {
    assert_eq!(value_or(Some(String::from("/bin/zsh")), "unknown"), "/bin/zsh");
}

#[test]
fn value_or_falls_back_when_absent() {
    assert_eq!(value_or(None, "unknown-host"), "unknown-host");
}

#[test]
fn unset_shell_renders_the_placeholder_line() {
    let snap = collect_host_snapshot(None, None);
    assert_eq!(snap.shell, "unknown");
    let line = render_line(&snap, 6);
    assert!(line.ends_with("   Shell: unknown"));
}

#[test]
fn unavailable_kernel_renders_the_placeholder_line() {
    let snap = collect_host_snapshot(None, None);
    assert_eq!(snap.kernel, "Unknown");
    let line = render_line(&snap, 4);
    assert!(line.ends_with("   Kernel: Unknown"));
}

#[test]
fn given_shell_and_kernel_are_kept_verbatim() {
    let snap = collect_host_snapshot(
        Some(String::from("/bin/bash")),
        Some(String::from("6.1.0-amd64")),
    );
    assert_eq!(snap.shell, "/bin/bash");
    assert_eq!(snap.kernel, "6.1.0-amd64");
}

#[test]
fn snapshot_new_keeps_every_field() {
    let snap = HostSnapshot::new(
        String::from("u"),
        String::from("h"),
        String::from("d"),
        String::from("k"),
        42,
        String::from("s"),
        String::from("c"),
        7,
        3,
    );
    assert_eq!(snap.username, "u");
    assert_eq!(snap.hostname, "h");
    assert_eq!(snap.distro, "d");
    assert_eq!(snap.kernel, "k");
    assert_eq!(snap.uptime_seconds, 42);
    assert_eq!(snap.shell, "s");
    assert_eq!(snap.cpu_brand, "c");
    assert_eq!(snap.total_memory_kib, 7);
    assert_eq!(snap.used_memory_kib, 3);
}
