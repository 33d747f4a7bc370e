use vstd::prelude::*;
use crate::error::{ActionError, ErrorView};

verus! {

/// Time that a typed query stays "fresh" before the display decays back to
/// the unfiltered list, in milliseconds.
pub const FILTER_TEXT_CLEAR_MILLIS: u64 = 1000;

/// What the selected item of the working set can do, as the working set
/// answered for it.
#[derive(Clone, Copy, Debug, PartialEq, Eq, Structural)]
pub struct Capability {
    /// Its action runs with no further input.
    pub selectable: bool,
    /// Its action runs on a line of free text.
    pub selectable_with_text: bool,
}

/// A filtered view of the working set: the query, the indices of the items
/// that match it in display order, and the highlighted position among them
/// (`-1` when nothing is highlighted).
#[derive(Debug)]
pub struct Filtering {
    pub selected_idx: i32,
    pub filter_text: String,
    pub filter_indices: Vec<usize>,
}

/// The interaction state of the controller.
#[derive(Debug)]
pub enum Status {
    /// No query; the window is hidden or idle.
    Initial,
    /// An action runs as the job of the given number.
    Running(u64),
    /// The last action failed.
    Error(ActionError),
    /// The window shows the full, unfiltered list.
    FilteringNone,
    /// The user is typing; the time of the last edit is kept.
    FilteringEntering(Filtering, u64),
    /// The user is moving the highlight.
    FilteringMoving(Filtering),
    /// Free text is being entered for the item of the given index.
    EnteringText(usize),
}

/// The model of a [`Filtering`].
pub struct FilteringView {
    pub selected_idx: int,
    pub filter_text: Seq<char>,
    pub filter_indices: Seq<usize>,
}

/// The model of a [`Status`].
pub enum StatusView {
    Initial,
    Running(u64),
    Error(ErrorView),
    FilteringNone,
    FilteringEntering(FilteringView, u64),
    FilteringMoving(FilteringView),
    EnteringText(usize),
}

impl View for Filtering {
    type V = FilteringView;

    open spec fn view(&self) -> FilteringView {
        FilteringView {
            selected_idx: self.selected_idx as int,
            filter_text: self.filter_text@,
            filter_indices: self.filter_indices@,
        }
    }
}

impl View for Status {
    type V = StatusView;

    open spec fn view(&self) -> StatusView {
        match self {
            Status::Initial => StatusView::Initial,
            Status::Running(j) => StatusView::Running(*j),
            Status::Error(e) => StatusView::Error(e@),
            Status::FilteringNone => StatusView::FilteringNone,
            Status::FilteringEntering(f, t) => StatusView::FilteringEntering(f@, *t),
            Status::FilteringMoving(f) => StatusView::FilteringMoving(f@),
            Status::EnteringText(i) => StatusView::EnteringText(*i),
        }
    }
}

/// A filtered view over a working set of `list_len` items: the highlight
/// is `-1` exactly when no item matches, and lies among the matches
/// otherwise; every match indexes the working set.
pub open spec fn filtering_wf(f: FilteringView, list_len: nat) -> bool {
    &&& -1 <= f.selected_idx < f.filter_indices.len()
    &&& (f.selected_idx == -1 <==> f.filter_indices.len() == 0)
    &&& forall|k: int| 0 <= k < f.filter_indices.len() ==> (#[trigger] f.filter_indices[k]) < list_len
}

/// Every index that the state holds lies within a working set of
/// `list_len` items.
pub open spec fn status_wf(s: StatusView, list_len: nat) -> bool {
    match s {
        StatusView::FilteringEntering(f, _) => filtering_wf(f, list_len),
        StatusView::FilteringMoving(f) => filtering_wf(f, list_len),
        StatusView::EnteringText(i) => i < list_len,
        _ => true,
    }
}

/// Each index lies within a working set of `list_len` items.
pub open spec fn indices_within(indices: Seq<usize>, list_len: nat) -> bool {
    forall|k: int| 0 <= k < indices.len() ==> (#[trigger] indices[k]) < list_len
}

/// A fresh filtered view over the matches of a query: the first match is
/// highlighted, or nothing when there is none.
pub open spec fn fresh_filtering(text: Seq<char>, indices: Seq<usize>) -> FilteringView {
    FilteringView {
        selected_idx: if indices.len() == 0 { -1 } else { 0 },
        filter_text: text,
        filter_indices: indices,
    }
}

/// The identity order over a working set of `n` items.
pub open spec fn all_indices(n: nat) -> Seq<usize> {
    Seq::new(n, |i: int| i as usize)
}

/// The highlight after moving by `delta` over `n` matches: kept within the
/// matches, or `-1` when there is none.
pub open spec fn clamp_selection(selected: int, delta: int, n: nat) -> int {
    if n == 0 {
        -1
    } else if selected + delta >= n {
        n - 1
    } else if selected + delta < 0 {
        0
    } else {
        selected + delta
    }
}

/// The filtered view of a state, if it has one.
pub open spec fn filtering_of(s: StatusView) -> Option<FilteringView> {
    match s {
        StatusView::FilteringEntering(f, _) => Some(f),
        StatusView::FilteringMoving(f) => Some(f),
        _ => None,
    }
}

/// The index into the working set of the highlighted item, if any.
pub open spec fn selected_item(s: StatusView) -> Option<usize> {
    match filtering_of(s) {
        Some(f) => if 0 <= f.selected_idx < f.filter_indices.len() {
            Some(f.filter_indices[f.selected_idx])
        } else {
            None
        },
        None => None,
    }
}

/// The state after Escape.
pub open spec fn escape_next(s: StatusView) -> StatusView {
    match s {
        StatusView::Initial => StatusView::Initial,
        StatusView::FilteringNone => StatusView::Initial,
        _ => StatusView::FilteringNone,
    }
}

/// The state after a move of the highlight by `delta`, over a working set
/// of `list_len` items.
pub open spec fn move_next(s: StatusView, delta: int, list_len: nat) -> StatusView {
    match s {
        StatusView::Initial | StatusView::FilteringNone => StatusView::FilteringMoving(
            fresh_filtering(Seq::empty(), all_indices(list_len)),
        ),
        StatusView::FilteringEntering(f, _) | StatusView::FilteringMoving(f) => {
            StatusView::FilteringMoving(
                FilteringView {
                    selected_idx: clamp_selection(f.selected_idx, delta, f.filter_indices.len()),
                    ..f
                },
            )
        },
        StatusView::Error(_) => StatusView::FilteringNone,
        _ => s,
    }
}

/// The query that typing `ch` leads to, in the states where typing filters.
pub open spec fn query_after_char(s: StatusView, ch: char) -> Option<Seq<char>> {
    match s {
        StatusView::Initial | StatusView::FilteringNone => Some(seq![ch]),
        StatusView::FilteringEntering(f, _) | StatusView::FilteringMoving(f) => Some(
            f.filter_text.push(ch),
        ),
        _ => None,
    }
}

/// The state after typing `ch` at time `now`, where `indices` are the
/// matches of the new query.
pub open spec fn char_next(s: StatusView, ch: char, indices: Seq<usize>, now: u64) -> StatusView {
    match query_after_char(s, ch) {
        Some(q) => StatusView::FilteringEntering(fresh_filtering(q, indices), now),
        None => match s {
            StatusView::Error(_) => StatusView::FilteringNone,
            _ => s,
        },
    }
}

/// The state after the decay timer fires at time `now`.
pub open spec fn timeout_next(s: StatusView, now: u64) -> StatusView {
    match s {
        StatusView::FilteringEntering(_, t) => if now >= t + FILTER_TEXT_CLEAR_MILLIS {
            StatusView::FilteringNone
        } else {
            s
        },
        _ => s,
    }
}

/// The state after Tab, where `sent` is `None` when the highlighted item
/// cannot be sent and the outcome of sending it otherwise.
pub open spec fn tab_next(s: StatusView, sent: Option<Result<(), ErrorView>>) -> StatusView {
    match s {
        StatusView::Error(_) => StatusView::FilteringNone,
        _ => if selected_item(s) is Some {
            match sent {
                None => s,
                Some(Ok(())) => StatusView::FilteringNone,
                Some(Err(e)) => StatusView::Error(e),
            }
        } else {
            s
        },
    }
}

/// The state after Space, where `caps` says what the highlighted item can do.
pub open spec fn space_next(s: StatusView, caps: Capability) -> StatusView {
    match s {
        StatusView::Error(_) => StatusView::FilteringNone,
        _ => match selected_item(s) {
            Some(i) => if caps.selectable_with_text && !caps.selectable {
                StatusView::EnteringText(i)
            } else {
                s
            },
            None => s,
        },
    }
}

/// The state after Enter, where `caps` says what the highlighted item can
/// do and `job` numbers an action that it starts.
pub open spec fn enter_next(s: StatusView, caps: Capability, job: u64) -> StatusView {
    match s {
        StatusView::Error(_) => StatusView::FilteringNone,
        StatusView::EnteringText(_) => StatusView::Running(job),
        _ => match selected_item(s) {
            Some(i) => if caps.selectable {
                StatusView::Running(job)
            } else if caps.selectable_with_text {
                StatusView::EnteringText(i)
            } else {
                s
            },
            None => s,
        },
    }
}

/// The state after Ctrl-C: typing mode is left once the highlighted item
/// has been handed to the clipboard.
pub open spec fn copy_next(s: StatusView) -> StatusView {
    match s {
        StatusView::Error(_) => StatusView::FilteringNone,
        _ => match (filtering_of(s), selected_item(s)) {
            (Some(f), Some(_)) => StatusView::FilteringMoving(f),
            _ => s,
        },
    }
}

/// The state after the job `job` completed with `result`; a result that
/// the state no longer waits for changes nothing.
pub open spec fn complete_next(s: StatusView, job: u64, result: Result<(), ErrorView>) -> StatusView {
    match s {
        StatusView::Running(j) => if j == job {
            match result {
                Ok(()) => StatusView::FilteringNone,
                Err(e) => StatusView::Error(e),
            }
        } else {
            s
        },
        _ => s,
    }
}

/// The state after the decay timer fired at each of `nows`, in order.
pub open spec fn after_timeouts(s: StatusView, nows: Seq<u64>) -> StatusView
    decreases nows.len(),
{
    if nows.len() == 0 {
        s
    } else {
        after_timeouts(timeout_next(s, nows[0]), nows.drop_first())
    }
}

/// Some of `nows` lies at least the grace period after `t`.
pub open spec fn some_expired(nows: Seq<u64>, t: u64) -> bool {
    exists|k: int| 0 <= k < nows.len() && #[trigger] nows[k] >= t + FILTER_TEXT_CLEAR_MILLIS
}

/// After a character typed at time `t`, whatever came before it (typing
/// or moving the highlight), the timer firings `nows` with no other input
/// in between bring the state back to the unfiltered list once one of them
/// lies the grace period after `t`, and leave the query on show while none
/// does; once back, further firings change nothing.
pub proof fn lemma_decay_returns_once(
    s: StatusView,
    ch: char,
    indices: Seq<usize>,
    t: u64,
    nows: Seq<u64>,
)
    requires
        query_after_char(s, ch) is Some,
    ensures
        some_expired(nows, t) ==> after_timeouts(char_next(s, ch, indices, t), nows)
            == StatusView::FilteringNone,
        !some_expired(nows, t) ==> after_timeouts(char_next(s, ch, indices, t), nows)
            == char_next(s, ch, indices, t),
        after_timeouts(StatusView::FilteringNone, nows) == StatusView::FilteringNone,
    decreases nows.len(),
{
    lemma_unfiltered_stays(nows);
    let s1 = char_next(s, ch, indices, t);
    if nows.len() > 0 {
        lemma_decay_returns_once(s, ch, indices, t, nows.drop_first());
        if nows[0] >= t + FILTER_TEXT_CLEAR_MILLIS {
            assert(timeout_next(s1, nows[0]) == StatusView::FilteringNone);
            assert(some_expired(nows, t));
        } else {
            assert(timeout_next(s1, nows[0]) == s1);
            if some_expired(nows, t) {
                let k = choose|k: int| 0 <= k < nows.len() && #[trigger] nows[k] >= t
                    + FILTER_TEXT_CLEAR_MILLIS;
                assert(nows.drop_first()[k - 1] == nows[k]);
                assert(some_expired(nows.drop_first(), t));
            } else {
                assert forall|k: int| 0 <= k < nows.drop_first().len() implies !(
                #[trigger] nows.drop_first()[k] >= t + FILTER_TEXT_CLEAR_MILLIS) by {
                    assert(nows.drop_first()[k] == nows[k + 1]);
                }
            }
        }
    }
}

proof fn lemma_unfiltered_stays(nows: Seq<u64>)
    ensures
        after_timeouts(StatusView::FilteringNone, nows) == StatusView::FilteringNone,
    decreases nows.len(),
{
    if nows.len() > 0 {
        lemma_unfiltered_stays(nows.drop_first());
    }
}

/// Moving the highlight by any `delta`, over matches of any number
/// (none included), keeps it within `[-1, number of matches - 1]`, and
/// keeps every index of the state within the working set.
pub proof fn lemma_move_in_range(s: StatusView, delta: int, list_len: nat)
    requires
        status_wf(s, list_len),
    ensures
        status_wf(move_next(s, delta, list_len), list_len),
        filtering_of(move_next(s, delta, list_len)) matches Some(f) ==> -1 <= f.selected_idx
            < f.filter_indices.len(),
{
    match s {
        StatusView::Initial | StatusView::FilteringNone => {
            let f = fresh_filtering(Seq::empty(), all_indices(list_len));
            assert(forall|k: int|
                0 <= k < f.filter_indices.len() ==> (#[trigger] f.filter_indices[k]) < list_len);
        },
        _ => {},
    }
}

/// While an action runs as job `job`, no key starts another: Enter, Space,
/// Tab, a move and a typed character all leave the state as it is, and the
/// result of `job` is taken afterwards as it would have been at once.
pub proof fn lemma_single_flight(
    job: u64,
    caps: Capability,
    other_job: u64,
    sent: Option<Result<(), ErrorView>>,
    delta: int,
    list_len: nat,
    ch: char,
    indices: Seq<usize>,
    now: u64,
    result: Result<(), ErrorView>,
)
    ensures
        enter_next(StatusView::Running(job), caps, other_job) == StatusView::Running(job),
        space_next(StatusView::Running(job), caps) == StatusView::Running(job),
        tab_next(StatusView::Running(job), sent) == StatusView::Running(job),
        move_next(StatusView::Running(job), delta, list_len) == StatusView::Running(job),
        char_next(StatusView::Running(job), ch, indices, now) == StatusView::Running(job),
        copy_next(StatusView::Running(job)) == StatusView::Running(job),
        timeout_next(StatusView::Running(job), now) == StatusView::Running(job),
        complete_next(enter_next(StatusView::Running(job), caps, other_job), job, result)
            == complete_next(StatusView::Running(job), job, result),
        complete_next(StatusView::Running(job), job, result) == match result {
            Ok(()) => StatusView::FilteringNone,
            Err(e) => StatusView::Error(e),
        },
{
}

} // verus!
