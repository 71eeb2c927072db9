//! Choosing the game's window among the top-level windows.

use vstd::prelude::*;
use crate::text;
use crate::text::{chars_of, contains_chars, trim_chars};

verus! {

/// What the window list reports of one top-level window.
pub struct WindowInfo {
    pub visible: bool,
    pub title: String,
}

/// The window is visible and its trimmed title is non-empty and contains one
/// of `keys`.
pub open spec fn window_matches(keys: Seq<&str>, w: WindowInfo) -> bool {
    let t = text::trim(w.title@);
    &&& w.visible
    &&& t.len() > 0
    &&& exists|k: int| 0 <= k < keys.len() && text::contains_seq(t, #[trigger] keys[k]@)
}

/// The positions of the matching windows, in the order listed.
pub open spec fn matching_windows(keys: Seq<&str>, ws: Seq<WindowInfo>) -> Seq<usize>
    decreases ws.len(),
{
    if ws.len() == 0 {
        Seq::empty()
    } else {
        let rest = matching_windows(keys, ws.drop_last());
        if window_matches(keys, ws.last()) {
            rest.push((ws.len() - 1) as usize)
        } else {
            rest
        }
    }
}

/// Whether the window is visible and its trimmed title is non-empty and
/// contains one of `keys`.
pub fn matches(keys: &[&str], w: &WindowInfo) -> (res: bool)
    ensures
        res == window_matches(keys@, *w),
{
    if !w.visible {
        return false;
    }
    let title = chars_of(w.title.as_str());
    let t = trim_chars(title.as_slice());
    if t.len() == 0 {
        return false;
    }
    let mut k: usize = 0;
    while k < keys.len()
        invariant
            k <= keys@.len(),
            w.visible,
            t@.len() > 0,
            t@ == text::trim(w.title@),
            forall|j: int| 0 <= j < k ==> !text::contains_seq(t@, #[trigger] keys@[j]@),
        decreases keys.len() - k,
    {
        let key = chars_of(keys[k]);
        if contains_chars(t.as_slice(), key.as_slice()) {
            return true;
        }
        k += 1;
    }
    false
}

/// The positions of the visible windows whose trimmed title contains one of
/// `keys`, in the order listed.
pub fn find(keys: &[&str], windows: &[WindowInfo]) -> (res: Vec<usize>)
    ensures
        res@ == matching_windows(keys@, windows@),
{
    let mut res: Vec<usize> = Vec::new();
    let mut i: usize = 0;
    while i < windows.len()
        invariant
            i <= windows@.len(),
            res@ == matching_windows(keys@, windows@.take(i as int)),
        decreases windows.len() - i,
    {
        let ghost pre = windows@.take(i as int);
        assert(windows@.take(i + 1).drop_last() =~= pre);
        assert(windows@.take(i + 1).last() == windows@[i as int]);
        if matches(keys, &windows[i]) {
            res.push(i);
        }
        i += 1;
    }
    assert(windows@.take(windows@.len() as int) =~= windows@);
    res
}

/// The window to bring to the front: the first visible window whose trimmed
/// title contains one of `keys`, or `None` (then nothing is focused).
pub fn focus_game(keys: &[&str], windows: &[WindowInfo]) -> (res: Option<usize>)
    ensures
        res matches Some(i) ==> matching_windows(keys@, windows@).len() > 0 && i == matching_windows(keys@, windows@)[0],
        res is None ==> matching_windows(keys@, windows@).len() == 0,
{
    let found = find(keys, windows);
    if found.len() > 0 {
        Some(found[0])
    } else {
        None
    }
}

} // verus!
