use hostfetch::{logo_row_text, render_all, render_info, render_line, HostSnapshot, LOGO_ROWS};

fn scenario_snapshot() -> HostSnapshot {
    HostSnapshot::new(
        String::from("alice"),
        String::from("devbox"),
        String::from("Linux 6.1"),
        String::from("6.1.0-amd64"),
        7384,
        String::from("/bin/zsh"),
        String::from("Generic CPU"),
        16384000,
        4096000,
    )
}

#[test]
fn line_count_matches_logo_rows() {
    let lines = render_all(&scenario_snapshot());
    assert_eq!(lines.len(), 16);
    assert_eq!(lines.len(), LOGO_ROWS);
}

#[test]
fn scenario_uptime_line() {
    let lines = render_all(&scenario_snapshot());
    assert_eq!(lines[5], format!("{}   Uptime: 02h 03m", logo_row_text(5)));
}

#[test]
fn scenario_memory_line() {
    let lines = render_all(&scenario_snapshot());
    assert_eq!(lines[8], format!("{}   Memory: 4000/16000 MB", logo_row_text(8)));
}

#[test]
fn mapped_rows_carry_their_fields() {
    let lines = render_all(&scenario_snapshot());
    assert_eq!(lines[2], format!("{}   alice@devbox", logo_row_text(2)));
    assert_eq!(lines[3], format!("{}   OS: Linux 6.1", logo_row_text(3)));
    assert_eq!(lines[4], format!("{}   Kernel: 6.1.0-amd64", logo_row_text(4)));
    assert_eq!(lines[6], format!("{}   Shell: /bin/zsh", logo_row_text(6)));
    assert_eq!(lines[7], format!("{}   CPU: Generic CPU", logo_row_text(7)));
}

#[test]
fn rows_keep_logo_order_and_unmapped_rows_are_bare() {
    let snap = scenario_snapshot();
    let lines = render_all(&snap);
    for i in 0..16usize {
        assert!(lines[i].starts_with(logo_row_text(i)));
        let mapped = (2..=8).contains(&i);
        if !mapped {
            assert_eq!(lines[i], format!("{}   ", logo_row_text(i)));
            assert_eq!(render_info(&snap, i), "");
        }
    }
}

#[test]
fn render_line_matches_render_all() {
    let snap = scenario_snapshot();
    let lines = render_all(&snap);
    for i in 0..16usize {
        assert_eq!(lines[i], render_line(&snap, i));
    }
}
