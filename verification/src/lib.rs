//! Queries local host facts (user, hostname, distribution, kernel, uptime,
//! shell, CPU, memory), formats them, and lays them out beside a fixed
//! ASCII-art logo, one info line per logo row. The formatting and the
//! row layout are verified; the operating-system queries go through
//! trusted wrappers around outside crates.
pub mod digits;
pub mod formatting;
pub mod host;
pub mod render;
pub mod sys;

pub use crate::formatting::{format_memory, format_uptime};
pub use crate::host::{collect_host_snapshot, value_or, HostSnapshot};
pub use crate::render::{logo_row_text, render_all, render_info, render_line, LOGO_ROWS};
