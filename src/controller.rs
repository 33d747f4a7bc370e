use vstd::prelude::*;
use crate::context::{Context, matching_indices};
use crate::error::{ActionError, ErrorView};
use crate::item::{Item, ItemData};
use crate::status::{
    Capability, Filtering, Status, StatusView, all_indices, char_next,
    complete_next, copy_next, enter_next, escape_next, filtering_of,
    indices_within, move_next, query_after_char, selected_item, space_next, status_wf, tab_next,
    timeout_next, FILTER_TEXT_CLEAR_MILLIS,
};
use crate::text::push_char;

verus! {

/// An action that the controller asks the caller to run off the
/// interaction thread; its result comes back through
/// [`MinionsApp::process_running_callback`] with the same job number.
#[derive(Debug)]
pub struct JobRequest {
    pub job: u64,
    /// The index of the item in the working set.
    pub item_index: usize,
    /// The free text entered for the item, if the action takes one.
    pub text: Option<String>,
}

/// The interaction controller: the working set, the current state, and the
/// number that the next started action gets.
pub struct MinionsApp {
    pub ctx: Context,
    pub status: Status,
    pub next_job: u64,
}

/// The outcome of a result, with the items left out.
pub open spec fn result_shape(result: Result<Vec<Item>, ActionError>) -> Result<(), ErrorView> {
    match result {
        Ok(_) => Ok(()),
        Err(e) => Err(e@),
    }
}

pub(crate) fn identity_indices(n: usize) -> (r: Vec<usize>)
    ensures
        r@ == all_indices(n as nat),
{
    let mut r: Vec<usize> = Vec::new();
    let mut i: usize = 0;
    while i < n
        invariant
            i <= n,
            r@ == all_indices(i as nat),
        decreases n - i,
    {
        r.push(i);
        i = i + 1;
        assert(r@ =~= all_indices(i as nat));
    }
    r
}

/// Whether each of `indices` lies within a working set of `list_len` items.
pub fn indices_in_range(indices: &Vec<usize>, list_len: usize) -> (r: bool)
    ensures
        r == indices_within(indices@, list_len as nat),
{
    let mut k: usize = 0;
    while k < indices.len()
        invariant
            k <= indices@.len(),
            forall|j: int| 0 <= j < k ==> (#[trigger] indices@[j]) < list_len,
        decreases indices@.len() - k,
    {
        if indices[k] >= list_len {
            return false;
        }
        k = k + 1;
    }
    true
}

impl MinionsApp {
    /// Every index that the state holds lies within the working set, and
    /// the working set fits a signed 32-bit highlight.
    pub open spec fn wf(&self) -> bool {
        &&& status_wf(self.status@, self.ctx.list_items@.len())
        &&& self.ctx.list_items@.len() < i32::MAX
        &&& self.ctx.root().len() < i32::MAX
        &&& match filtering_of(self.status@) {
            Some(f) => f.filter_indices.len() < i32::MAX,
            None => true,
        }
    }

    /// A controller over `ctx`, in the initial state.
    pub fn new(ctx: Context) -> (r: MinionsApp)
        requires
            ctx.list_items@.len() < i32::MAX,
            ctx.root().len() < i32::MAX,
        ensures
            r.wf(),
            r.status@ == StatusView::Initial,
            r.ctx == ctx,
    {
        MinionsApp { ctx, status: Status::Initial, next_job: 0 }
    }

    fn take_status(&mut self) -> (r: Status)
        ensures
            r == old(self).status,
            final(self).status == Status::Initial,
            final(self).ctx == old(self).ctx,
            final(self).next_job == old(self).next_job,
    {
        let mut s = Status::Initial;
        std::mem::swap(&mut s, &mut self.status);
        s
    }

    /// The index into the working set of the highlighted item, if any.
    pub fn selected_index(&self) -> (r: Option<usize>)
        requires
            self.wf(),
        ensures
            r == selected_item(self.status@),
            r matches Some(i) ==> i < self.ctx.list_items@.len(),
    {
        match &self.status {
            Status::FilteringEntering(f, _) | Status::FilteringMoving(f) => {
                if f.selected_idx >= 0 {
                    Some(f.filter_indices[f.selected_idx as usize])
                } else {
                    None
                }
            },
            _ => None,
        }
    }

    /// The query that typing `ch` would filter by, in the states where
    /// typing filters.
    pub fn pending_query(&self, ch: char) -> (r: Option<String>)
        ensures
            r is Some == query_after_char(self.status@, ch) is Some,
            r matches Some(q) ==> q@ == query_after_char(self.status@, ch).unwrap(),
    {
        match &self.status {
            Status::Initial | Status::FilteringNone => {
                let mut q = String::new();
                push_char(&mut q, ch);
                Some(q)
            },
            Status::FilteringEntering(f, _) | Status::FilteringMoving(f) => {
                let mut q = f.filter_text.clone();
                push_char(&mut q, ch);
                Some(q)
            },
            _ => None,
        }
    }

    /// Handles Escape; returns whether the window is to be hidden. Leaving
    /// the unfiltered list resets the working set.
    pub fn process_keyevent_escape(&mut self) -> (hide: bool)
        requires
            old(self).wf(),
        ensures
            final(self).wf(),
            final(self).status@ == escape_next(old(self).status@),
            hide == (old(self).status@ is Initial),
            final(self).next_job == old(self).next_job,
            old(self).status@ is FilteringNone ==> {
                &&& final(self).ctx.list_items@ == old(self).ctx.root()
                &&& final(self).ctx.reference is None
                &&& final(self).ctx.root() == old(self).ctx.root()
            },
            !(old(self).status@ is FilteringNone) ==> final(self).ctx == old(self).ctx,
    {
        let old_status = self.take_status();
        match old_status {
            Status::Initial => {
                self.status = Status::Initial;
                true
            },
            Status::FilteringNone => {
                self.ctx.reset();
                self.status = Status::Initial;
                false
            },
            _ => {
                self.status = Status::FilteringNone;
                false
            },
        }
    }
    /// Handles a move of the highlight by `delta` (Up/Down, Ctrl-J/K).
    pub fn process_keyevent_move(&mut self, delta: i32)
        requires
            old(self).wf(),
        ensures
            final(self).wf(),
            final(self).status@ == move_next(
                old(self).status@,
                delta as int,
                old(self).ctx.list_items@.len(),
            ),
            final(self).ctx == old(self).ctx,
            final(self).next_job == old(self).next_job,
    {
        let old_status = self.take_status();
        let ghost s0 = old_status@;
        match old_status {
            Status::Initial | Status::FilteringNone => {
                let n = self.ctx.list_items.len();
                let indices = identity_indices(n);
                let selected_idx: i32 = if n == 0 { -1 } else { 0 };
                self.status = Status::FilteringMoving(
                    Filtering { selected_idx, filter_text: String::new(), filter_indices: indices },
                );
                assert(self.status@ == move_next(s0, delta as int, n as nat));
            },
            Status::FilteringEntering(f, _) | Status::FilteringMoving(f) => {
                let n = f.filter_indices.len();
                let wanted: i64 = f.selected_idx as i64 + delta as i64;
                let new_idx: i32 = if n == 0 {
                    -1
                } else if wanted >= n as i64 {
                    (n - 1) as i32
                } else if wanted < 0 {
                    0
                } else {
                    wanted as i32
                };
                self.status = Status::FilteringMoving(
                    Filtering {
                        selected_idx: new_idx,
                        filter_text: f.filter_text,
                        filter_indices: f.filter_indices,
                    },
                );
                assert(self.status@ == move_next(s0, delta as int, self.ctx.list_items@.len()));
            },
            Status::Error(_) => {
                self.status = Status::FilteringNone;
            },
            other => {
                self.status = other;
            },
        }
    }

    /// Handles the decay timer firing at time `now` (milliseconds): a query
    /// left untouched for the grace period falls back to the unfiltered
    /// list; in any other case nothing changes.
    pub fn process_timeout(&mut self, now: u64) -> (changed: bool)
        requires
            old(self).wf(),
        ensures
            final(self).wf(),
            final(self).status@ == timeout_next(old(self).status@, now),
            changed == (final(self).status@ != old(self).status@),
            final(self).ctx == old(self).ctx,
            final(self).next_job == old(self).next_job,
    {
        let fire = match &self.status {
            Status::FilteringEntering(_, t) => *t <= u64::MAX - FILTER_TEXT_CLEAR_MILLIS && now
                >= *t + FILTER_TEXT_CLEAR_MILLIS,
            _ => false,
        };
        if fire {
            self.status = Status::FilteringNone;
        }
        fire
    }

    /// Handles a printable character typed at time `now` (milliseconds).
    /// `indices` are the matches of [`Self::pending_query`] for `ch`, in
    /// display order. Returns whether a query is now being typed, in which
    /// case a decay timer is to be armed.
    pub fn process_keyevent_char(&mut self, ch: char, indices: Vec<usize>, now: u64) -> (typing: bool)
        requires
            old(self).wf(),
            indices_within(indices@, old(self).ctx.list_items@.len()),
            indices@.len() < i32::MAX,
        ensures
            final(self).wf(),
            final(self).status@ == char_next(old(self).status@, ch, indices@, now),
            typing == (query_after_char(old(self).status@, ch) is Some),
            final(self).ctx == old(self).ctx,
            final(self).next_job == old(self).next_job,
    {
        let old_status = self.take_status();
        let ghost s0 = old_status@;
        let selected_idx: i32 = if indices.len() == 0 { -1 } else { 0 };
        match old_status {
            Status::Initial | Status::FilteringNone => {
                let mut q = String::new();
                push_char(&mut q, ch);
                self.status = Status::FilteringEntering(
                    Filtering { selected_idx, filter_text: q, filter_indices: indices },
                    now,
                );
                true
            },
            Status::FilteringEntering(f, _) | Status::FilteringMoving(f) => {
                let mut q = f.filter_text;
                push_char(&mut q, ch);
                self.status = Status::FilteringEntering(
                    Filtering { selected_idx, filter_text: q, filter_indices: indices },
                    now,
                );
                true
            },
            Status::Error(_) => {
                self.status = Status::FilteringNone;
                false
            },
            other => {
                self.status = other;
                false
            },
        }
    }
    /// Handles Tab. `sent` is `None` when the highlighted item cannot be
    /// sent, and otherwise the outcome of sending it at once.
    pub fn process_keyevent_tab(&mut self, sent: Option<Result<(), ActionError>>)
        requires
            old(self).wf(),
        ensures
            final(self).wf(),
            final(self).status@ == tab_next(
                old(self).status@,
                match sent {
                    None => None,
                    Some(Ok(())) => Some(Ok(())),
                    Some(Err(e)) => Some(Err(e@)),
                },
            ),
            final(self).ctx == old(self).ctx,
            final(self).next_job == old(self).next_job,
    {
        let has_selection = self.selected_index().is_some();
        let old_status = self.take_status();
        match old_status {
            Status::Error(_) => {
                self.status = Status::FilteringNone;
            },
            other => {
                if has_selection {
                    match sent {
                        None => {
                            self.status = other;
                        },
                        Some(Ok(())) => {
                            self.status = Status::FilteringNone;
                        },
                        Some(Err(e)) => {
                            self.status = Status::Error(e);
                        },
                    }
                } else {
                    self.status = other;
                }
            },
        }
    }

    /// Handles Space, where `caps` says what the highlighted item can do.
    /// Returns whether the state changed.
    pub fn process_keyevent_space(&mut self, caps: Capability) -> (changed: bool)
        requires
            old(self).wf(),
        ensures
            final(self).wf(),
            final(self).status@ == space_next(old(self).status@, caps),
            changed == (final(self).status@ != old(self).status@),
            final(self).ctx == old(self).ctx,
            final(self).next_job == old(self).next_job,
    {
        let selected = self.selected_index();
        let old_status = self.take_status();
        match old_status {
            Status::Error(_) => {
                self.status = Status::FilteringNone;
                true
            },
            other => match selected {
                Some(i) => {
                    if caps.selectable_with_text && !caps.selectable {
                        self.status = Status::EnteringText(i);
                        true
                    } else {
                        self.status = other;
                        false
                    }
                },
                None => {
                    self.status = other;
                    false
                },
            },
        }
    }

    /// Handles Enter, where `caps` says what the highlighted item can do and
    /// `entry_text` is the free text entered so far. Returns the action to
    /// start, if any; while one runs no other is started.
    pub fn process_keyevent_enter(&mut self, caps: Capability, entry_text: String) -> (r: Option<
        JobRequest,
    >)
        requires
            old(self).wf(),
        ensures
            final(self).wf(),
            final(self).status@ == enter_next(old(self).status@, caps, old(self).next_job),
            final(self).ctx == old(self).ctx,
            r is Some <==> (final(self).status@ is Running && !(old(self).status@ is Running)),
            r matches Some(req) ==> {
                &&& req.job == old(self).next_job
                &&& final(self).next_job == old(self).next_job.wrapping_add(1)
                &&& match old(self).status@ {
                    StatusView::EnteringText(i) => req.item_index == i && req.text
                        == Some(entry_text),
                    _ => Some(req.item_index) == selected_item(old(self).status@)
                        && req.text is None,
                }
            },
            r is None ==> final(self).next_job == old(self).next_job,
    {
        let selected = self.selected_index();
        let job = self.next_job;
        let old_status = self.take_status();
        match old_status {
            Status::Error(_) => {
                self.status = Status::FilteringNone;
                None
            },
            Status::EnteringText(i) => {
                self.status = Status::Running(job);
                self.next_job = job.wrapping_add(1);
                Some(JobRequest { job, item_index: i, text: Some(entry_text) })
            },
            other => match selected {
                Some(i) => {
                    if caps.selectable {
                        self.status = Status::Running(job);
                        self.next_job = job.wrapping_add(1);
                        Some(JobRequest { job, item_index: i, text: None })
                    } else if caps.selectable_with_text {
                        self.status = Status::EnteringText(i);
                        None
                    } else {
                        self.status = other;
                        None
                    }
                },
                None => {
                    self.status = other;
                    None
                },
            },
        }
    }

    /// Handles Ctrl-C, once the caller has handed the item of
    /// [`Self::selected_index`] to the clipboard: typing mode is left.
    pub fn process_keyevent_copy(&mut self)
        requires
            old(self).wf(),
        ensures
            final(self).wf(),
            final(self).status@ == copy_next(old(self).status@),
            final(self).ctx == old(self).ctx,
            final(self).next_job == old(self).next_job,
    {
        let is_error = match &self.status {
            Status::Error(_) => true,
            _ => false,
        };
        if self.selected_index().is_none() && !is_error {
            return;
        }
        let old_status = self.take_status();
        match old_status {
            Status::FilteringEntering(f, _) | Status::FilteringMoving(f) => {
                self.status = Status::FilteringMoving(f);
            },
            _ => {
                self.status = Status::FilteringNone;
            },
        }
    }
    /// Takes the result of the job `job`. A result that the state waits
    /// for moves to the unfiltered list, with the returned items as the
    /// working set, or to the error; any other is dropped. Returns whether
    /// the result was taken.
    pub fn process_running_callback(&mut self, job: u64, result: Result<Vec<Item>, ActionError>) -> (taken: bool)
        requires
            old(self).wf(),
            result matches Ok(items) ==> items@.len() < i32::MAX,
        ensures
            final(self).wf(),
            final(self).status@ == complete_next(old(self).status@, job, result_shape(result)),
            taken == (old(self).status@ == StatusView::Running(job)),
            final(self).next_job == old(self).next_job,
            final(self).ctx.reference == old(self).ctx.reference,
            final(self).ctx.root() == old(self).ctx.root(),
            match result {
                Ok(items) if taken => final(self).ctx.list_items@ == items@,
                _ => final(self).ctx.list_items == old(self).ctx.list_items,
            },
    {
        let waiting = match &self.status {
            Status::Running(j) => *j == job,
            _ => false,
        };
        if !waiting {
            return false;
        }
        match result {
            Ok(items) => {
                self.ctx.async_select_callback(items);
                self.status = Status::FilteringNone;
            },
            Err(e) => {
                self.status = Status::Error(e);
            },
        }
        true
    }

    /// Handles the global hotkey: the working set goes back to its root
    /// list and the window is shown. With `send_clipboard`, the text on the
    /// clipboard (`None` when there is none) is bound as the reference and
    /// the unfiltered list is shown; otherwise the state is initial.
    pub fn reset_window(&mut self, send_clipboard: bool, clipboard_text: Option<String>)
        requires
            old(self).wf(),
        ensures
            final(self).wf(),
            final(self).ctx.list_items@ == old(self).ctx.root(),
            final(self).ctx.root() == old(self).ctx.root(),
            final(self).next_job == old(self).next_job,
            match (send_clipboard, clipboard_text) {
                (true, Some(t)) => {
                    &&& final(self).ctx.reference == Some(ItemData::Text(t))
                    &&& final(self).status@ == StatusView::FilteringNone
                },
                _ => {
                    &&& final(self).ctx.reference is None
                    &&& final(self).status@ == StatusView::Initial
                },
            },
    {
        self.ctx.reset();
        self.status = Status::Initial;
        if send_clipboard {
            if let Some(t) = clipboard_text {
                self.ctx.set_reference(ItemData::Text(t));
                self.status = Status::FilteringNone;
            }
        }
    }
    /// Handles a printable character typed at time `now` (milliseconds),
    /// filtering the working set by the new query with
    /// [`Context::filter`]. Returns whether a query is now being typed, in
    /// which case a decay timer is to be armed.
    pub fn type_char(&mut self, ch: char, now: u64) -> (typing: bool)
        requires
            old(self).wf(),
        ensures
            final(self).wf(),
            typing == (query_after_char(old(self).status@, ch) is Some),
            final(self).ctx == old(self).ctx,
            final(self).next_job == old(self).next_job,
            match query_after_char(old(self).status@, ch) {
                Some(q) => final(self).status@ == char_next(
                    old(self).status@,
                    ch,
                    matching_indices(old(self).ctx.list_items@, q, old(self).ctx.list_items@.len()),
                    now,
                ),
                None => final(self).status@ == char_next(old(self).status@, ch, Seq::empty(), now),
            },
    {
        match self.pending_query(ch) {
            Some(q) => {
                let indices = self.ctx.filter(q.as_str());
                self.process_keyevent_char(ch, indices, now)
            },
            None => self.process_keyevent_char(ch, Vec::new(), now),
        }
    }
}

} // verus!
