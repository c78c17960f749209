//! The debounced resize request. Window-resize bursts must collapse into one
//! outbound resize call: every new request arms a fresh timer token and the
//! token of the previous, still-pending timer becomes stale, so only the
//! latest timer to fire produces a request.

use vstd::prelude::*;

verus! {

/// One outbound `try-resize-grid` call, as the debounce hands it out. The
/// requested size is never below one cell in either direction.
#[derive(Clone, Copy, PartialEq, Eq, Debug)]
pub struct ResizeRequest {
    pub grid: i64,
    pub cols: i64,
    pub rows: i64,
}

/// The single-slot debounce: at most one timer is armed, and arming a new one
/// cancels the old one by outdating its token.
#[derive(Clone, Copy, PartialEq, Eq, Debug)]
pub struct ResizeScheduler {
    /// The token the next `arm` hands out.
    pub next_token: u64,
    /// The token of the armed timer, if one is pending.
    pub armed: Option<u64>,
    /// The column count the pending request would ask for.
    pub pending_cols: i64,
    /// The row count the pending request would ask for.
    pub pending_rows: i64,
}

pub open spec fn at_least_one(v: i64) -> i64 {
    if v < 1 {
        1
    } else {
        v
    }
}

/// The scheduler after arming a timer for a `cols` by `rows` resize.
pub open spec fn armed_state(s: ResizeScheduler, cols: i64, rows: i64) -> ResizeScheduler {
    ResizeScheduler {
        next_token: (s.next_token + 1) as u64,
        armed: Some(s.next_token),
        pending_cols: cols,
        pending_rows: rows,
    }
}

/// What a firing timer with `token` produces: a request only when the token is
/// still the armed one.
pub open spec fn fire_result(s: ResizeScheduler, token: u64) -> Option<ResizeRequest> {
    if s.armed == Some(token) {
        Some(
            ResizeRequest {
                grid: 1,
                cols: at_least_one(s.pending_cols),
                rows: at_least_one(s.pending_rows),
            },
        )
    } else {
        None
    }
}

/// The scheduler after a timer with `token` fired.
pub open spec fn fired_state(s: ResizeScheduler, token: u64) -> ResizeScheduler {
    if s.armed == Some(token) {
        ResizeScheduler { armed: None, ..s }
    } else {
        s
    }
}

impl ResizeScheduler {
    pub fn new() -> (s: ResizeScheduler)
        ensures
            s.armed is None,
            s.next_token == 0,
    {
        ResizeScheduler { next_token: 0, armed: None, pending_cols: 0, pending_rows: 0 }
    }

    /// Request a (debounced) resize to `cols` by `rows`: arm a fresh timer and
    /// cancel whatever timer was pending, so that a burst of requests ends in
    /// a single call. Returns the token the timer must fire with.
    pub fn arm(&mut self, cols: i64, rows: i64) -> (token: u64)
        requires
            old(self).next_token < u64::MAX,
        ensures
            token == old(self).next_token,
            *final(self) == armed_state(*old(self), cols, rows),
    {
        let token = self.next_token;
        self.next_token = self.next_token + 1;
        self.armed = Some(token);
        self.pending_cols = cols;
        self.pending_rows = rows;
        token
    }

    /// A timer fired. Only the latest armed token yields the outbound request
    /// (clamped to at least one cell each way); a stale, cancelled token
    /// yields nothing and changes nothing.
    pub fn fire(&mut self, token: u64) -> (r: Option<ResizeRequest>)
        ensures
            r == fire_result(*old(self), token),
            *final(self) == fired_state(*old(self), token),
    {
        match self.armed {
            Some(t) => {
                if t == token {
                    self.armed = None;
                    Some(
                        ResizeRequest {
                            grid: 1,
                            cols: if self.pending_cols < 1 {
                                1
                            } else {
                                self.pending_cols
                            },
                            rows: if self.pending_rows < 1 {
                                1
                            } else {
                                self.pending_rows
                            },
                        },
                    )
                } else {
                    None
                }
            },
            None => None,
        }
    }
}

/// Remembers the window size of the previous allocation, so that only a real
/// size change asks the editor for a resize: asking unconditionally would
/// answer the editor's own resize with another request, forever.
#[derive(Clone, Copy, PartialEq, Eq, Debug)]
pub struct SizeTracker {
    pub prev_width: i32,
    pub prev_height: i32,
}

impl SizeTracker {
    pub fn new(width: i32, height: i32) -> (t: SizeTracker)
        ensures
            t.prev_width == width,
            t.prev_height == height,
    {
        SizeTracker { prev_width: width, prev_height: height }
    }

    /// The window was allocated `width` by `height`: record it, and say
    /// whether that is news worth a (debounced) resize request.
    pub fn on_allocation(&mut self, width: i32, height: i32) -> (changed: bool)
        ensures
            changed == !(old(self).prev_width == width && old(self).prev_height == height),
            final(self).prev_width == width,
            final(self).prev_height == height,
    {
        let changed = !(self.prev_width == width && self.prev_height == height);
        self.prev_width = width;
        self.prev_height = height;
        changed
    }
}

/// Two resize requests in one burst end in exactly one outbound call, and it
/// asks for the later size: the first timer's token is stale and yields
/// nothing, the second yields the request once, and nothing fires after that.
pub proof fn lemma_debounce_collapses_burst(s: ResizeScheduler, c1: i64, r1: i64, c2: i64, r2: i64)
    requires
        s.next_token < u64::MAX - 1,
    ensures
        fire_result(armed_state(armed_state(s, c1, r1), c2, r2), s.next_token) is None,
        fire_result(armed_state(armed_state(s, c1, r1), c2, r2), armed_state(s, c1, r1).next_token)
            == Some(
            ResizeRequest { grid: 1, cols: at_least_one(c2), rows: at_least_one(r2) },
        ),
        fire_result(
            fired_state(
                armed_state(armed_state(s, c1, r1), c2, r2),
                armed_state(s, c1, r1).next_token,
            ),
            s.next_token,
        ) is None,
        fire_result(
            fired_state(
                armed_state(armed_state(s, c1, r1), c2, r2),
                armed_state(s, c1, r1).next_token,
            ),
            armed_state(s, c1, r1).next_token,
        ) is None,
{
}

} // verus!
