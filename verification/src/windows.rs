use vstd::prelude::*;

use crate::text::{decimal, push_char, push_decimal};

verus! {

/// The windows, in hours, that the statistics lines report on once enough
/// time has elapsed: those of 1, 6, 12 and 24 hours that are no longer
/// than the elapsed time, shortest first.
pub open spec fn windows_for(elapsed_hours: nat) -> Seq<usize> {
    if elapsed_hours >= 24 {
        seq![1usize, 6, 12, 24]
    } else if elapsed_hours >= 12 {
        seq![1usize, 6, 12]
    } else if elapsed_hours >= 6 {
        seq![1usize, 6]
    } else if elapsed_hours >= 1 {
        seq![1usize]
    } else {
        Seq::empty()
    }
}

/// Returns only the time windows for which enough data has been collected.
/// `elapsed_hours` is the whole part (the floor) of the hours elapsed since
/// collection began; as the windows are whole hours, a window fits in the
/// elapsed time exactly when it fits in its whole part.
pub fn active_windows(elapsed_hours: u64) -> (w: Vec<usize>)
    ensures
        w@ == windows_for(elapsed_hours as nat),
{
    let mut w: Vec<usize> = Vec::new();
    if elapsed_hours >= 1 {
        w.push(1);
    }
    if elapsed_hours >= 6 {
        w.push(6);
    }
    if elapsed_hours >= 12 {
        w.push(12);
    }
    if elapsed_hours >= 24 {
        w.push(24);
    }
    assert(w@ =~= windows_for(elapsed_hours as nat));
    w
}

/// The windows written in decimal and joined by slashes, as in `1/6/12`.
pub open spec fn slash_joined(windows: Seq<usize>) -> Seq<char>
    decreases windows.len(),
{
    if windows.len() == 0 {
        Seq::empty()
    } else if windows.len() == 1 {
        decimal(windows[0] as nat)
    } else {
        slash_joined(windows.drop_last()) + seq!['/'] + decimal(windows.last() as nat)
    }
}

/// Builds the label of a statistics line, like `1h` or `1/6/12/24h`.
pub fn windows_label(windows: &[usize]) -> (label: String)
    ensures
        label@ == slash_joined(windows@) + seq!['h'],
{
    let mut label = String::new();
    let n = windows.len();
    let mut i: usize = 0;
    while i < n
        invariant
            n == windows@.len(),
            i <= n,
            label@ == slash_joined(windows@.take(i as int)),
        decreases n - i,
    {
        if i > 0 {
            push_char(&mut label, '/');
        }
        push_decimal(&mut label, windows[i] as u128);
        assert(windows@.take(i + 1).drop_last() =~= windows@.take(i as int));
        i += 1;
    }
    assert(windows@.take(n as int) =~= windows@);
    push_char(&mut label, 'h');
    label
}

/// Statistics appear progressively: the windows shown after more elapsed
/// time start with all the windows shown before.
pub proof fn lemma_windows_progressive(earlier: nat, later: nat)
    requires
        earlier <= later,
    ensures
        windows_for(earlier).len() <= windows_for(later).len(),
        windows_for(earlier) == windows_for(later).take(windows_for(earlier).len() as int),
{
    assert(windows_for(earlier) =~= windows_for(later).take(windows_for(earlier).len() as int));
}

/// A window is shown exactly when it is one of 1, 6, 12 and 24 hours and
/// that much time has elapsed.
pub proof fn lemma_window_shown(elapsed_hours: nat, h: usize)
    ensures
        windows_for(elapsed_hours).contains(h) <==> ((h == 1 || h == 6 || h == 12 || h == 24)
            && h <= elapsed_hours),
{
    let w = windows_for(elapsed_hours);
    if (h == 1 || h == 6 || h == 12 || h == 24) && h <= elapsed_hours {
        if h == 1 {
            assert(w[0] == h);
        } else if h == 6 {
            assert(w[1] == h);
        } else if h == 12 {
            assert(w[2] == h);
        } else {
            assert(w[3] == h);
        }
    }
}

} // verus!
