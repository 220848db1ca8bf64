//! Picking the window a native capture targets.
//!
//! The capture itself — enumerating the desktop's windows, grabbing the
//! image, encoding it — belongs to the surrounding runtime.  What the
//! bridge decides is which window to take: among the windows of the
//! requested process that sit on a monitor and are not minimized, the
//! largest by area, and among equally large ones the one enumerated last.

use vstd::prelude::*;

use crate::json::dec_digits;

verus! {

/// One enumerated window, as plain values with the enumeration's
/// fallbacks already applied.
#[derive(Clone, Copy, PartialEq, Eq, Structural, Debug)]
pub struct CaptureWindow {
    /// The window's native identifier.
    pub id: u32,
    /// The owning process.
    pub pid: u32,
    pub width: u32,
    pub height: u32,
    pub minimized: bool,
    /// Whether the window sits on some monitor.
    pub on_monitor: bool,
}

/// Whether a capture may target `w` on behalf of `pid`.
pub open spec fn eligible(w: CaptureWindow, pid: u32) -> bool {
    w.on_monitor && w.pid == pid && !w.minimized
}

/// The window's area.
pub open spec fn area(w: CaptureWindow) -> int {
    w.width * w.height
}

/// Picks the capture target for `pid`: the largest eligible window, the
/// last enumerated among equally large ones.  With no eligible window the
/// error names the process.
pub fn select_window_for_pid(windows: &Vec<CaptureWindow>, pid: u32) -> (r: Result<
    usize,
    String,
>)
    ensures
        match r {
            Ok(i) => i < windows@.len() && eligible(windows@[i as int], pid) && (forall|j: int|
                0 <= j < windows@.len() && eligible(windows@[j], pid) ==> area(windows@[j])
                    <= area(windows@[i as int])) && (forall|j: int|
                i < j < windows@.len() && eligible(windows@[j], pid) ==> area(windows@[j])
                    < area(windows@[i as int])),
            Err(e) => (forall|j: int|
                0 <= j < windows@.len() ==> !eligible(windows@[j], pid)) && e@ == (
            "No visible window found for PID ")@ + dec_digits(pid as nat),
        },
{
    let mut best: Option<usize> = None;
    let mut best_area: u64 = 0;
    let mut k: usize = 0;
    while k < windows.len()
        invariant
            k <= windows@.len(),
            match best {
                Some(i) => i < k && eligible(windows@[i as int], pid) && best_area == area(
                    windows@[i as int],
                ) && (forall|j: int|
                    0 <= j < k && eligible(windows@[j], pid) ==> area(windows@[j])
                        <= best_area) && (forall|j: int|
                    i < j < k && eligible(windows@[j], pid) ==> area(windows@[j]) < best_area),
                None => forall|j: int| 0 <= j < k ==> !eligible(windows@[j], pid),
            },
        decreases windows@.len() - k,
    {
        let w = windows[k];
        if w.on_monitor && w.pid == pid && !w.minimized {
            proof {
                assert((w.width as int) * (w.height as int) < 0x10000000000000000) by (nonlinear_arith)
                    requires w.width <= 0xFFFFFFFF && w.height <= 0xFFFFFFFF,
                ;
            }
            let a: u64 = (w.width as u64) * (w.height as u64);
            let take_it: bool = match best {
                Some(_) => a >= best_area,
                None => true,
            };
            if take_it {
                best = Some(k);
                best_area = a;
            }
        }
        k = k + 1;
    }
    match best {
        Some(i) => Ok(i),
        None => {
            let digits = crate::json::dec_string(pid as u64);
            let mut msg = String::new();
            msg.append("No visible window found for PID ");
            msg.append(digits.as_str());
            proof {
                assert(msg@ =~= ("No visible window found for PID ")@ + dec_digits(
                    pid as nat,
                ));
            }
            Err(msg)
        },
    }
}

} // verus!
