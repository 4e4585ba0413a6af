//! Finding the game windows and bringing one of them to the foreground.
use vstd::prelude::*;

use crate::text::{trim_char, trim_char_matches};

verus! {

/// Collects the handles of the windows with a given title while the window
/// list is enumerated; each window is kept once, in the order first seen.
pub struct WindowSearch {
    title: String,
    found: Vec<isize>,
}

/// No handle occurs twice.
pub open spec fn distinct(s: Seq<isize>) -> bool {
    forall|i: int, j: int| 0 <= i < j < s.len() ==> s[i] != s[j]
}

impl WindowSearch {
    /// The title searched for.
    pub closed spec fn title_spec(&self) -> Seq<char> {
        self.title@
    }

    /// The handles found so far, in the order first seen.
    pub closed spec fn found_spec(&self) -> Seq<isize> {
        self.found@
    }

    /// A search for windows titled `title`, with nothing found yet.
    pub fn new(title: &str) -> (search: Self)
        ensures
            search.title_spec() == title@,
            search.found_spec() == Seq::<isize>::empty(),
    {
        WindowSearch { title: title.to_owned(), found: Vec::new() }
    }

    /// Visits one window of the enumeration with the text read from it
    /// (NUL padded). A window with the searched title that was not found
    /// before is added at the end.
    pub fn visit(&mut self, hwnd: isize, window_text: &str)
        ensures
            final(self).title_spec() == old(self).title_spec(),
            final(self).found_spec() == visit_spec(old(self).found_spec(), old(self).title_spec(), hwnd, window_text@),
    {
        let text = trim_char_matches(window_text, '\0');
        if text == self.title {
            let mut i: usize = 0;
            while i < self.found.len()
                invariant
                    i <= self.found@.len(),
                    forall|j: int| 0 <= j < i ==> self.found@[j] != hwnd,
                decreases self.found@.len() - i,
            {
                if self.found[i] == hwnd {
                    assert(self.found@.contains(hwnd));
                    return;
                }
                i = i + 1;
            }
            self.found.push(hwnd);
        }
    }

    /// The handles found, in the order first seen.
    pub fn found(&self) -> (hwnds: Vec<isize>)
        ensures
            hwnds@ == self.found_spec(),
    {
        self.found.clone()
    }
}

/// The handles found after visiting one more window: the window is added
/// at the end when its text, stripped of its NUL padding, is the title and
/// it was not found before.
pub open spec fn visit_spec(found: Seq<isize>, title: Seq<char>, hwnd: isize, text: Seq<char>) -> Seq<isize> {
    if trim_char(text, '\0') == title && !found.contains(hwnd) {
        found.push(hwnd)
    } else {
        found
    }
}

/// The handles that a new search for `title` finds over a whole enumeration
/// of windows, each given by its handle and its text.
pub open spec fn search_spec(title: Seq<char>, windows: Seq<(isize, Seq<char>)>) -> Seq<isize>
    decreases windows.len(),
{
    if windows.len() == 0 {
        Seq::empty()
    } else {
        visit_spec(search_spec(title, windows.drop_last()), title, windows.last().0, windows.last().1)
    }
}

/// A search over a whole enumeration finds only windows with the title,
/// each once, and nothing at all when no window has the title: nothing is
/// carried over from an earlier search.
pub proof fn lemma_search_finds_only_titled(title: Seq<char>, windows: Seq<(isize, Seq<char>)>)
    ensures
        forall|h: isize| #[trigger] search_spec(title, windows).contains(h) ==> exists|i: int|
            0 <= i < windows.len() && windows[i].0 == h && trim_char(windows[i].1, '\0') == title,
        distinct(search_spec(title, windows)),
        (forall|i: int| 0 <= i < windows.len() ==> trim_char(#[trigger] windows[i].1, '\0') != title)
            ==> search_spec(title, windows) == Seq::<isize>::empty(),
    decreases windows.len(),
{
    if windows.len() > 0 {
        let rest = windows.drop_last();
        lemma_search_finds_only_titled(title, rest);
        let before = search_spec(title, rest);
        let w = windows.last();
        lemma_visit_keeps_distinct(before, w.0, trim_char(w.1, '\0') == title);
        assert forall|h: isize| #[trigger] search_spec(title, windows).contains(h) implies exists|i: int|
            0 <= i < windows.len() && windows[i].0 == h && trim_char(windows[i].1, '\0') == title by {
            if before.contains(h) {
                let i = choose|i: int| 0 <= i < rest.len() && rest[i].0 == h && trim_char(rest[i].1, '\0') == title;
                assert(windows[i] == rest[i]);
            } else {
                let k = choose|k: int| 0 <= k < search_spec(title, windows).len() && search_spec(title, windows)[k] == h;
                assert(search_spec(title, windows) == before.push(w.0));
                assert(k == before.len());
                assert(windows[windows.len() - 1] == w);
            }
        }
        if forall|i: int| 0 <= i < windows.len() ==> trim_char(#[trigger] windows[i].1, '\0') != title {
            assert forall|i: int| 0 <= i < rest.len() implies trim_char(#[trigger] rest[i].1, '\0') != title by {
                assert(rest[i] == windows[i]);
            }
            assert(windows[windows.len() - 1] == w);
        }
    }
}

/// Visiting windows never lists a window twice.
pub proof fn lemma_visit_keeps_distinct(before: Seq<isize>, hwnd: isize, matches: bool)
    requires
        distinct(before),
    ensures
        distinct(if matches && !before.contains(hwnd) { before.push(hwnd) } else { before }),
{
    if matches && !before.contains(hwnd) {
        let after = before.push(hwnd);
        assert forall|i: int, j: int| 0 <= i < j < after.len() implies after[i] != after[j] by {
            if j == before.len() {
                assert(before[i] == after[i]);
            }
        }
    }
}

// ---------------------------------------------------------------------------
// Ordering windows by the creation time of their processes
// ---------------------------------------------------------------------------

/// `s` with `w` inserted after every element whose creation time is not later.
pub open spec fn insert_by_time(s: Seq<(isize, i64)>, w: (isize, i64)) -> Seq<(isize, i64)>
    decreases s.len(),
{
    if s.len() == 0 {
        seq![w]
    } else if s.last().1 <= w.1 {
        s.push(w)
    } else {
        insert_by_time(s.drop_last(), w).push(s.last())
    }
}

/// The windows in ascending order of creation time; windows created at the
/// same time keep their order (a stable sort, as `sort_by` is).
pub open spec fn sort_by_time(s: Seq<(isize, i64)>) -> Seq<(isize, i64)>
    decreases s.len(),
{
    if s.len() == 0 {
        s
    } else {
        insert_by_time(sort_by_time(s.drop_last()), s.last())
    }
}

/// The windows of `s` created at time `t`, in their order in `s`.
pub open spec fn created_at(s: Seq<(isize, i64)>, t: i64) -> Seq<(isize, i64)>
    decreases s.len(),
{
    if s.len() == 0 {
        Seq::empty()
    } else if s.last().1 == t {
        created_at(s.drop_last(), t).push(s.last())
    } else {
        created_at(s.drop_last(), t)
    }
}

proof fn lemma_insert_stable(r: Seq<(isize, i64)>, w: (isize, i64), t: i64)
    ensures
        created_at(insert_by_time(r, w), t) == if w.1 == t { created_at(r, t).push(w) } else { created_at(r, t) },
    decreases r.len(),
{
    if r.len() == 0 {
        assert(seq![w].drop_last() =~= Seq::<(isize, i64)>::empty());
        assert(seq![w].last() == w);
        assert(created_at(Seq::<(isize, i64)>::empty(), t) == Seq::<(isize, i64)>::empty());
        assert(Seq::<(isize, i64)>::empty().push(w) =~= seq![w]);
    } else if r.last().1 <= w.1 {
        assert(r.push(w).drop_last() =~= r);
        assert(r.push(w).last() == w);
    } else {
        let rp = r.drop_last();
        let last = r.last();
        lemma_insert_stable(rp, w, t);
        let q = insert_by_time(rp, w);
        assert(insert_by_time(r, w) == q.push(last));
        assert(q.push(last).drop_last() =~= q);
        assert(q.push(last).last() == last);
        assert(created_at(r, t) == if last.1 == t { created_at(rp, t).push(last) } else { created_at(rp, t) });
    }
}

/// Sorting by creation time is stable: the windows created at any one time
/// come out in the order in which they went in.
pub proof fn lemma_sort_stable(s: Seq<(isize, i64)>, t: i64)
    ensures
        created_at(sort_by_time(s), t) == created_at(s, t),
    decreases s.len(),
{
    if s.len() > 0 {
        lemma_sort_stable(s.drop_last(), t);
        lemma_insert_stable(sort_by_time(s.drop_last()), s.last(), t);
    }
}

/// Ascending by creation time.
pub open spec fn ascending(s: Seq<(isize, i64)>) -> bool {
    forall|i: int, j: int| 0 <= i < j < s.len() ==> s[i].1 <= s[j].1
}

/// The handles of a list of windows.
pub open spec fn handles(s: Seq<(isize, i64)>) -> Seq<isize> {
    s.map_values(|w: (isize, i64)| w.0)
}

proof fn lemma_insert_at(s: Seq<(isize, i64)>, w: (isize, i64), p: int)
    requires
        0 <= p <= s.len(),
        forall|j: int| p <= j < s.len() ==> s[j].1 > w.1,
        p == 0 || s[p - 1].1 <= w.1,
    ensures
        insert_by_time(s, w) == s.take(p).push(w) + s.skip(p),
    decreases s.len(),
{
    if s.len() == 0 {
        assert(s.take(p).push(w) + s.skip(p) =~= seq![w]);
    } else if p == s.len() {
        assert(s.take(p) =~= s);
        assert(s.take(p).push(w) + s.skip(p) =~= s.push(w));
    } else {
        lemma_insert_at(s.drop_last(), w, p);
        assert(s.drop_last().take(p) =~= s.take(p));
        assert(s.take(p).push(w) + s.skip(p) =~= (s.take(p).push(w) + s.drop_last().skip(p)).push(
            s.last(),
        ));
    }
}

/// Orders windows by the creation time of their processes, earliest first,
/// keeping the enumeration order between windows created at the same time.
pub fn sort_by_creation_time(windows: &Vec<(isize, i64)>) -> (sorted: Vec<isize>)
    ensures
        sorted@ == handles(sort_by_time(windows@)),
{
    let mut acc: Vec<(isize, i64)> = Vec::new();
    let mut i: usize = 0;
    assert(windows@.take(0) =~= Seq::<(isize, i64)>::empty());
    while i < windows.len()
        invariant
            i <= windows@.len(),
            acc@ == sort_by_time(windows@.take(i as int)),
        decreases windows@.len() - i,
    {
        let w = windows[i];
        proof {
            assert(windows@.take(i + 1).drop_last() =~= windows@.take(i as int));
            lemma_sort_ascending(windows@.take(i as int));
        }
        let mut p: usize = acc.len();
        while p > 0 && acc[p - 1].1 > w.1
            invariant
                p <= acc@.len(),
                forall|j: int| p <= j < acc@.len() ==> acc@[j].1 > w.1,
            decreases p,
        {
            p = p - 1;
        }
        proof {
            lemma_insert_at(acc@, w, p as int);
        }
        let ghost before = acc@;
        acc.insert(p, w);
        assert(acc@ =~= before.take(p as int).push(w) + before.skip(p as int));
        i = i + 1;
    }
    assert(windows@.take(windows@.len() as int) =~= windows@);
    let mut sorted: Vec<isize> = Vec::new();
    let mut k: usize = 0;
    while k < acc.len()
        invariant
            k <= acc@.len(),
            sorted@ == handles(acc@.take(k as int)),
        decreases acc@.len() - k,
    {
        sorted.push(acc[k].0);
        assert(acc@.take(k + 1) =~= acc@.take(k as int).push(acc@[k as int]));
        assert(handles(acc@.take(k + 1)) =~= handles(acc@.take(k as int)).push(acc@[k as int].0));
        k = k + 1;
    }
    assert(acc@.take(acc@.len() as int) =~= acc@);
    sorted
}

proof fn lemma_insert_ascending(s: Seq<(isize, i64)>, w: (isize, i64))
    requires
        ascending(s),
    ensures
        ascending(insert_by_time(s, w)),
        insert_by_time(s, w).len() == s.len() + 1,
        insert_by_time(s, w).to_multiset() == s.to_multiset().insert(w),
    decreases s.len(),
{
    broadcast use vstd::seq_lib::group_to_multiset_ensures;
    if s.len() == 0 {
        assert(seq![w] =~= Seq::<(isize, i64)>::empty().push(w));
    } else if s.last().1 <= w.1 {
    } else {
        lemma_insert_ascending(s.drop_last(), w);
        let r = insert_by_time(s.drop_last(), w);
        assert(s.drop_last().push(s.last()) =~= s);
        assert forall|k: int| 0 <= k < r.len() implies r[k].1 <= s.last().1 by {
            assert(r.to_multiset().count(r[k]) > 0);
            assert(s.drop_last().to_multiset().insert(w).count(r[k]) > 0);
            if r[k] != w {
                assert(s.drop_last().to_multiset().count(r[k]) > 0);
                assert(s.drop_last().contains(r[k]));
            }
        }
        assert(s.to_multiset() == s.drop_last().to_multiset().insert(s.last()));
        assert(r.push(s.last()).to_multiset() =~= s.to_multiset().insert(w));
    }
}

/// Sorting by creation time gives ascending creation times (the promise of
/// the window lookup that sorts by creation time).
pub proof fn lemma_sort_ascending(s: Seq<(isize, i64)>)
    ensures
        ascending(sort_by_time(s)),
        sort_by_time(s).to_multiset() == s.to_multiset(),
    decreases s.len(),
{
    broadcast use vstd::seq_lib::group_to_multiset_ensures;
    if s.len() > 0 {
        lemma_sort_ascending(s.drop_last());
        lemma_insert_ascending(sort_by_time(s.drop_last()), s.last());
        assert(s.drop_last().push(s.last()) =~= s);
    }
}

/// The client windows, oldest first, from the game's windows sorted by
/// creation time: all of them, or all but the first client's.
pub open spec fn client_windows(hwnds: Seq<isize>, start: isize, include_start: bool) -> Seq<isize>
    decreases hwnds.len(),
{
    if hwnds.len() == 0 {
        Seq::empty()
    } else {
        let before = client_windows(hwnds.drop_last(), start, include_start);
        if include_start || hwnds.last() != start {
            before.push(hwnds.last())
        } else {
            before
        }
    }
}

/// The client window at `index` among the client windows, if there are so
/// many.
pub fn client_window(hwnds: &Vec<isize>, start: isize, index: usize, include_start: bool) -> (w: Option<isize>)
    ensures
        w == (if index < client_windows(hwnds@, start, include_start).len() {
            Some(client_windows(hwnds@, start, include_start)[index as int])
        } else {
            None
        }),
{
    let mut clients: Vec<isize> = Vec::new();
    let mut i: usize = 0;
    assert(hwnds@.take(0) =~= Seq::<isize>::empty());
    while i < hwnds.len()
        invariant
            i <= hwnds@.len(),
            clients@ == client_windows(hwnds@.take(i as int), start, include_start),
        decreases hwnds@.len() - i,
    {
        proof {
            assert(hwnds@.take(i + 1).drop_last() =~= hwnds@.take(i as int));
            assert(hwnds@.take(i + 1).last() == hwnds@[i as int]);
        }
        if include_start || hwnds[i] != start {
            clients.push(hwnds[i]);
        }
        i = i + 1;
    }
    assert(hwnds@.take(i as int) =~= hwnds@);
    if index < clients.len() {
        Some(clients[index])
    } else {
        None
    }
}

/// The creation time of a process as one 64-bit number, from the low and
/// high halves of a FILETIME.
pub open spec fn filetime_spec(low: u32, high: u32) -> i64 {
    (high as int * 0x1_0000_0000 + low as int) as i64
}

/// Joins the halves of a FILETIME the way the window lookup does:
/// `low | (high << 32)`.
pub fn creation_time_from_filetime(low: u32, high: u32) -> (time: i64)
    ensures
        time == filetime_spec(low, high),
{
    let joined: u64 = (low as u64) | ((high as u64) << 32u64);
    assert(joined == high as u64 * 0x1_0000_0000u64 + low as u64) by (bit_vector)
        requires joined == (low as u64) | ((high as u64) << 32u64);
    joined as i64
}

/// What to do in one round of switching to a window.
#[derive(PartialEq, Eq, Structural, Clone, Copy, Debug)]
pub enum SwitchStep {
    /// The window is in the foreground: switching is over.
    Done,
    /// Attach the input of the foreground window's thread to ours, raise and
    /// show the window, then detach again.
    RaiseAttached,
    /// Raise and show the window.
    Raise,
}

/// One round of switching to `target` while `foreground` is the foreground
/// window: windows of other threads only let themselves be replaced after
/// their input is attached to ours.
pub fn switch_step(foreground: isize, target: isize, foreground_thread: u32, current_thread: u32) -> (step: SwitchStep)
    ensures
        foreground == target ==> step is Done,
        foreground != target && foreground_thread != current_thread ==> step is RaiseAttached,
        foreground != target && foreground_thread == current_thread ==> step is Raise,
{
    if foreground == target {
        SwitchStep::Done
    } else if foreground_thread != current_thread {
        SwitchStep::RaiseAttached
    } else {
        SwitchStep::Raise
    }
}

} // verus!
