//! Tray rendering policy: ranked snapshot + settings -> title and tooltip.
//!
//! The tooltip always lists the whole snapshot under a fixed header, one
//! line per process, or a fixed "no data" sentinel for an empty snapshot.
//! The title follows the display mode: `Always` shows the configured parts
//! for the top process, `WarningOnly` shows name and percentage only while
//! the top process is at or above the high-CPU threshold.  Long process
//! names are shortened on character boundaries, never byte offsets.

use vstd::prelude::*;
use crate::process::ProcessInfo;
use crate::settings::AppSettings;
use crate::settings::TrayDisplayMode;
use crate::text::dec_chars;
use crate::text::pct_chars;
use crate::text::pct_string;
use crate::text::u32_to_string;
use crate::text::u64_to_string;

verus! {

/// Names longer than this many characters are shortened in the title.
pub const NAME_LIMIT: usize = 12;

/// A shortened name keeps this many leading characters plus `"..."`.
pub const NAME_PREFIX: usize = 8;

/// A name over [`NAME_LIMIT`] characters is cut to its first
/// [`NAME_PREFIX`] characters with an ellipsis marker appended.
pub open spec fn truncated_name_chars(name: Seq<char>) -> Seq<char> {
    if name.len() > NAME_LIMIT as nat {
        name.take(NAME_PREFIX as int) + seq!['.', '.', '.']
    } else {
        name
    }
}

/// The title shown for a non-empty snapshot whose top entry is `top`, when
/// both the name part and the percentage part are wanted.
pub open spec fn name_and_pct_chars(top: ProcessInfo) -> Seq<char> {
    truncated_name_chars(top.name@) + ": "@ + pct_chars(top.cpu_usage as nat)
}

/// The tray title for a snapshot under the given settings.
pub open spec fn title_chars(s: Seq<ProcessInfo>, settings: AppSettings) -> Seq<char> {
    if s.len() == 0 {
        Seq::<char>::empty()
    } else {
        let top = s[0];
        match settings.tray_display_mode {
            TrayDisplayMode::Always => {
                if settings.tray_show_process && settings.tray_show_percentage {
                    name_and_pct_chars(top)
                } else if settings.tray_show_process {
                    truncated_name_chars(top.name@)
                } else if settings.tray_show_percentage {
                    pct_chars(top.cpu_usage as nat)
                } else {
                    Seq::<char>::empty()
                }
            },
            TrayDisplayMode::WarningOnly => {
                if settings.high_cpu_alert_enabled && top.cpu_usage >= settings.high_cpu_threshold {
                    name_and_pct_chars(top)
                } else {
                    Seq::<char>::empty()
                }
            },
        }
    }
}

/// One tooltip line: `{rank}. {name} ({pid}): {usage}%`.
pub open spec fn tooltip_line_chars(p: ProcessInfo, rank: nat) -> Seq<char> {
    dec_chars(rank) + ". "@ + p.name@ + " ("@ + dec_chars(p.pid as nat) + "): "@ + pct_chars(
        p.cpu_usage as nat,
    )
}

/// The newline-led tooltip lines for the entries of `s` from index `i` on.
pub open spec fn tooltip_lines_from(s: Seq<ProcessInfo>, i: int) -> Seq<char>
    decreases s.len() - i,
{
    if i < 0 || i >= s.len() {
        Seq::<char>::empty()
    } else {
        seq!['\n'] + tooltip_line_chars(s[i], (i + 1) as nat) + tooltip_lines_from(s, i + 1)
    }
}

/// The whole tooltip: a fixed header and one line per entry, or the fixed
/// "no data" sentinel for an empty snapshot.
pub open spec fn tooltip_chars(s: Seq<ProcessInfo>) -> Seq<char> {
    if s.len() == 0 {
        "No data"@
    } else {
        "Top CPU processes:"@ + tooltip_lines_from(s, 0)
    }
}

/// Shortens a process name for the tray title, on character boundaries.
pub fn truncated_name(name: &str) -> (t: String)
    ensures
        t@ == truncated_name_chars(name@),
{
    let n = name.unicode_len();
    if n > NAME_LIMIT {
        let mut t = String::from_str(name.substring_char(0, NAME_PREFIX));
        proof {
            reveal_strlit("...");
        }
        t.append("...");
        t
    } else {
        String::from_str(name)
    }
}

/// Renders the tray title for a ranked snapshot under the given settings;
/// see [`title_chars`].
pub fn render_title(snapshot: &Vec<ProcessInfo>, settings: &AppSettings) -> (t: String)
    ensures
        t@ == title_chars(snapshot@, *settings),
{
    if snapshot.len() == 0 {
        return String::new();
    }
    let top = &snapshot[0];
    let show_both = match settings.tray_display_mode {
        TrayDisplayMode::Always => settings.tray_show_process && settings.tray_show_percentage,
        TrayDisplayMode::WarningOnly => settings.high_cpu_alert_enabled && top.cpu_usage
            >= settings.high_cpu_threshold,
    };
    if show_both {
        let mut t = truncated_name(top.name.as_str());
        t.append(": ");
        let pct = pct_string(top.cpu_usage);
        t.append(pct.as_str());
        t
    } else if matches!(settings.tray_display_mode, TrayDisplayMode::Always)
        && settings.tray_show_process {
        truncated_name(top.name.as_str())
    } else if matches!(settings.tray_display_mode, TrayDisplayMode::Always)
        && settings.tray_show_percentage {
        pct_string(top.cpu_usage)
    } else {
        String::new()
    }
}

/// One tooltip line for the process ranked `rank` (starting at 1); see
/// [`tooltip_line_chars`].
fn tooltip_line(p: &ProcessInfo, rank: u64) -> (l: String)
    ensures
        l@ == tooltip_line_chars(*p, rank as nat),
{
    let mut l = u64_to_string(rank);
    l.append(". ");
    l.append(p.name.as_str());
    l.append(" (");
    let pid_s = u32_to_string(p.pid);
    l.append(pid_s.as_str());
    l.append("): ");
    let pct = pct_string(p.cpu_usage);
    l.append(pct.as_str());
    l
}

/// Renders the tooltip for a ranked snapshot; see [`tooltip_chars`].
pub fn render_tooltip(snapshot: &Vec<ProcessInfo>) -> (t: String)
    ensures
        t@ == tooltip_chars(snapshot@),
{
    if snapshot.len() == 0 {
        return String::from_str("No data");
    }
    let mut t = String::from_str("Top CPU processes:");
    let n = snapshot.len();
    let mut i: usize = 0;
    while i < n
        invariant
            n == snapshot@.len(),
            i <= n,
            t@ + tooltip_lines_from(snapshot@, i as int) == tooltip_chars(snapshot@),
        decreases n - i,
    {
        let ghost before = t@;
        proof {
            reveal_strlit("\n");
        }
        t.append("\n");
        let line = tooltip_line(&snapshot[i], (i as u64) + 1);
        t.append(line.as_str());
        proof {
            assert(t@ =~= before + (seq!['\n'] + tooltip_line_chars(
                snapshot@[i as int],
                (i + 1) as nat,
            )));
            assert(before + tooltip_lines_from(snapshot@, i as int) == tooltip_chars(snapshot@));
            assert(tooltip_lines_from(snapshot@, i as int) == seq!['\n'] + tooltip_line_chars(
                snapshot@[i as int],
                (i + 1) as nat,
            ) + tooltip_lines_from(snapshot@, i + 1));
            assert(t@ + tooltip_lines_from(snapshot@, i + 1) =~= before + tooltip_lines_from(
                snapshot@,
                i as int,
            ));
        }
        i = i + 1;
    }
    proof {
        assert(tooltip_lines_from(snapshot@, n as int) =~= Seq::<char>::empty());
        assert(t@ =~= t@ + Seq::<char>::empty());
    }
    t
}

/// Renders title and tooltip together, as one cycle publishes them.
pub fn render(snapshot: &Vec<ProcessInfo>, settings: &AppSettings) -> (r: (String, String))
    ensures
        r.0@ == title_chars(snapshot@, *settings),
        r.1@ == tooltip_chars(snapshot@),
{
    (render_title(snapshot, settings), render_tooltip(snapshot))
}

} // verus!
