//! Lays the info lines out beside the fixed logo: one output line per
//! logo row, in logo order, each row paired with at most one info field
//! through a fixed row-to-field mapping.
use vstd::prelude::*;
use vstd::string::StringExecFns;
use crate::formatting::{format_memory, format_uptime, memory_seq, uptime_seq};
use crate::host::{HostSnapshot, HostView};

verus! {

/// Number of rows in the fixed logo.
pub const LOGO_ROWS: usize = 16;

/// The logo text of row `i`.
pub open spec fn logo_row(i: int) -> Seq<char> {
    if i == 0 {
        ("      MMM.           .MMM")@
    } else if i == 1 {
        ("      MMMMMMMMMMMMMMMMMMM")@
    } else if i == 2 {
        ("      MMMMMMMMMMMMMMMMMMM")@
    } else if i == 3 {
        ("      MMMMMMMMMMMMMMMMMMM")@
    } else if i == 4 {
        ("      MMMM::- -:::::::-::")@
    } else if i == 5 {
        ("      MMMM  :   '::'  :  ")@
    } else if i == 6 {
        ("      MMMM .:         :. ")@
    } else if i == 7 {
        ("      MMMM .:         :. ")@
    } else if i == 8 {
        ("      MMMM  ':.___.:'  ")@
    } else if i == 9 {
        ("      MMMM    '---'    ")@
    } else if i == 10 {
        ("   .::::::::::..        ")@
    } else if i == 11 {
        ("  :::::::::::::::  .:::. ")@
    } else if i == 12 {
        (" :::::::::::::::::..:::  ")@
    } else if i == 13 {
        (" ::::::::::::::::::::'   ")@
    } else if i == 14 {
        ("  ':::::::::::::::'      ")@
    } else {
        ("    `'::::::::'`         ")@
    }
}

/// The info text paired with logo row `i` for the host view `v`; rows
/// outside the fixed mapping get the empty text.
pub open spec fn info_seq(v: HostView, i: int) -> Seq<char> {
    if i == 2 {
        v.username + seq!['@'] + v.hostname
    } else if i == 3 {
        ("OS: ")@ + v.distro
    } else if i == 4 {
        ("Kernel: ")@ + v.kernel
    } else if i == 5 {
        ("Uptime: ")@ + uptime_seq(v.uptime_seconds)
    } else if i == 6 {
        ("Shell: ")@ + v.shell
    } else if i == 7 {
        ("CPU: ")@ + v.cpu_brand
    } else if i == 8 {
        ("Memory: ")@ + memory_seq(v.used_memory_kib, v.total_memory_kib)
    } else {
        Seq::empty()
    }
}

/// One full output line: the logo row, three spaces, and the info text.
pub open spec fn line_seq(v: HostView, i: int) -> Seq<char> {
    logo_row(i) + seq![' ', ' ', ' '] + info_seq(v, i)
}

/// The logo text of row `i`.
pub fn logo_row_text(i: usize) -> (r: &'static str)
    requires
        i < LOGO_ROWS,
    ensures
        r@ == logo_row(i as int),
{
    if i == 0 {
        "      MMM.           .MMM"
    } else if i == 1 {
        "      MMMMMMMMMMMMMMMMMMM"
    } else if i == 2 {
        "      MMMMMMMMMMMMMMMMMMM"
    } else if i == 3 {
        "      MMMMMMMMMMMMMMMMMMM"
    } else if i == 4 {
        "      MMMM::- -:::::::-::"
    } else if i == 5 {
        "      MMMM  :   '::'  :  "
    } else if i == 6 {
        "      MMMM .:         :. "
    } else if i == 7 {
        "      MMMM .:         :. "
    } else if i == 8 {
        "      MMMM  ':.___.:'  "
    } else if i == 9 {
        "      MMMM    '---'    "
    } else if i == 10 {
        "   .::::::::::..        "
    } else if i == 11 {
        "  :::::::::::::::  .:::. "
    } else if i == 12 {
        " :::::::::::::::::..:::  "
    } else if i == 13 {
        " ::::::::::::::::::::'   "
    } else if i == 14 {
        "  ':::::::::::::::'      "
    } else {
        "    `'::::::::'`         "
    }
}

/// The info text paired with logo row `i` of the snapshot.
pub fn render_info(snap: &HostSnapshot, i: usize) -> (r: String)
    requires
        i < LOGO_ROWS,
    ensures
        r@ == info_seq(snap@, i as int),
{
    if i == 2 {
        let mut s = snap.username.clone();
        s.append("@");
        s.append(snap.hostname.as_str());
        proof {
            reveal_strlit("@");
            assert(("@")@ =~= seq!['@']);
            assert(s@ =~= info_seq(snap@, i as int));
        }
        s
    } else if i == 3 {
        let mut s = String::from_str("OS: ");
        s.append(snap.distro.as_str());
        s
    } else if i == 4 {
        let mut s = String::from_str("Kernel: ");
        s.append(snap.kernel.as_str());
        s
    } else if i == 5 {
        let mut s = String::from_str("Uptime: ");
        let uptime = format_uptime(snap.uptime_seconds);
        s.append(uptime.as_str());
        s
    } else if i == 6 {
        let mut s = String::from_str("Shell: ");
        s.append(snap.shell.as_str());
        s
    } else if i == 7 {
        let mut s = String::from_str("CPU: ");
        s.append(snap.cpu_brand.as_str());
        s
    } else if i == 8 {
        let mut s = String::from_str("Memory: ");
        let memory = format_memory(snap.used_memory_kib, snap.total_memory_kib);
        s.append(memory.as_str());
        s
    } else {
        let s = String::new();
        proof {
            assert(s@ =~= info_seq(snap@, i as int));
        }
        s
    }
}

/// One full output line for logo row `i`.
pub fn render_line(snap: &HostSnapshot, i: usize) -> (r: String)
    requires
        i < LOGO_ROWS,
    ensures
        r@ == line_seq(snap@, i as int),
{
    let mut s = String::from_str(logo_row_text(i));
    s.append("   ");
    let info = render_info(snap, i);
    s.append(info.as_str());
    proof {
        reveal_strlit("   ");
        assert(("   ")@ =~= seq![' ', ' ', ' ']);
        assert(s@ =~= line_seq(snap@, i as int));
    }
    s
}

/// All output lines: exactly one per logo row, in logo order, whatever
/// the snapshot holds.
pub fn render_all(snap: &HostSnapshot) -> (lines: Vec<String>)
    ensures
        lines@.len() == LOGO_ROWS,
        forall|i: int| 0 <= i < LOGO_ROWS ==> lines@[i]@ == line_seq(snap@, i),
{
    let mut lines: Vec<String> = Vec::new();
    let mut i: usize = 0;
    while i < LOGO_ROWS
        invariant
            i <= LOGO_ROWS,
            lines@.len() == i,
            forall|j: int| 0 <= j < i ==> lines@[j]@ == line_seq(snap@, j),
        decreases LOGO_ROWS - i,
    {
        let line = render_line(snap, i);
        lines.push(line);
        i = i + 1;
    }
    lines
}

/// Where the shell is unknown (the environment variable was unset, so the
/// snapshot holds the placeholder), the shell info reads exactly
/// `Shell: unknown`.
pub proof fn lemma_shell_line_when_unset(v: HostView)
    requires
        v.shell == ("unknown")@,
    ensures
        info_seq(v, 6) == ("Shell: unknown")@,
{
    reveal_strlit("Shell: ");
    reveal_strlit("unknown");
    reveal_strlit("Shell: unknown");
    assert(("Shell: ")@ + ("unknown")@ =~= ("Shell: unknown")@);
}

/// Where the kernel release could not be obtained (the snapshot holds the
/// placeholder), the kernel info reads exactly `Kernel: Unknown`.
pub proof fn lemma_kernel_line_when_unavailable(v: HostView)
    requires
        v.kernel == ("Unknown")@,
    ensures
        info_seq(v, 4) == ("Kernel: Unknown")@,
{
    reveal_strlit("Kernel: ");
    reveal_strlit("Unknown");
    reveal_strlit("Kernel: Unknown");
    assert(("Kernel: ")@ + ("Unknown")@ =~= ("Kernel: Unknown")@);
}

/// Info text stands only beside the mapped rows: every other row is the
/// bare logo text and the separator, with empty info.
pub proof fn lemma_unmapped_row_bare(v: HostView, i: int)
    requires
        0 <= i < LOGO_ROWS,
        !(2 <= i <= 8),
    ensures
        info_seq(v, i) == Seq::<char>::empty(),
        line_seq(v, i) == logo_row(i) + seq![' ', ' ', ' '],
{
    assert(line_seq(v, i) =~= logo_row(i) + seq![' ', ' ', ' ']);
}

} // verus!
