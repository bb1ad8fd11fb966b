//! The reply coordinator: the decision logic of one full
//! drain, send, poll-until-match-or-deadline cycle. The application shell
//! performs the network calls and the clock reads, and feeds every result
//! into the state machine below; each transition is specified exactly.

use vstd::prelude::*;

use crate::telegram::{
    batch_ids_bounded, drain_step_model, extract_text_reply, is_candidate_reply, DrainStep,
    TelegramError, Update,
};

verus! {

/// Index of the first candidate reply in a batch, or the batch's length when
/// none matches.
pub open spec fn match_prefix_end(s: Seq<Update>, user_id: i64) -> int
    decreases s.len(),
{
    if s.len() == 0 {
        0
    } else if is_candidate_reply(s[0], user_id) {
        0
    } else {
        1 + match_prefix_end(s.skip(1), user_id)
    }
}

/// The first-match index is well placed: everything before it is no
/// candidate, and when it lies inside the batch it names a candidate.
pub proof fn lemma_match_prefix_end(s: Seq<Update>, user_id: i64)
    ensures
        0 <= match_prefix_end(s, user_id) <= s.len(),
        forall|i: int|
            0 <= i < match_prefix_end(s, user_id) ==> !is_candidate_reply(s[i], user_id),
        match_prefix_end(s, user_id) < s.len() ==> is_candidate_reply(
            s[match_prefix_end(s, user_id)],
            user_id,
        ),
    decreases s.len(),
{
    if s.len() == 0 {
    } else if is_candidate_reply(s[0], user_id) {
    } else {
        lemma_match_prefix_end(s.skip(1), user_id);
        let k = match_prefix_end(s, user_id);
        assert forall|i: int| 0 <= i < k implies !is_candidate_reply(s[i], user_id) by {
            if i > 0 {
                assert(s.skip(1)[i - 1] == s[i]);
            }
        }
        if k < s.len() {
            assert(s.skip(1)[k - 1] == s[k]);
        }
    }
}

/// The first-match index is pinned by any witness: a prefix without a
/// candidate, closed by a candidate or the batch's end.
pub proof fn lemma_match_prefix_at(s: Seq<Update>, user_id: i64, k: int)
    requires
        0 <= k <= s.len(),
        forall|i: int| 0 <= i < k ==> !is_candidate_reply(s[i], user_id),
        k < s.len() ==> is_candidate_reply(s[k], user_id),
    ensures
        match_prefix_end(s, user_id) == k,
    decreases k,
{
    if k == 0 {
        if s.len() > 0 {
            assert(is_candidate_reply(s[0], user_id));
        }
    } else {
        assert(!is_candidate_reply(s[0], user_id));
        assert forall|i: int| 0 <= i < k - 1 implies !is_candidate_reply(
            s.skip(1)[i],
            user_id,
        ) by {
            assert(s.skip(1)[i] == s[i + 1]);
        }
        if k < s.len() {
            assert(s.skip(1)[k - 1] == s[k]);
        }
        lemma_match_prefix_at(s.skip(1), user_id, k - 1);
    }
}

/// The reply a batch yields: the text of its first candidate event, if any.
pub open spec fn batch_reply(s: Seq<Update>, user_id: i64) -> Option<Seq<char>> {
    let k = match_prefix_end(s, user_id);
    if k < s.len() {
        Option::Some(s[k].message.unwrap().text.unwrap()@)
    } else {
        Option::None
    }
}

/// The cursor after processing a batch: just past the last event processed,
/// unchanged when the batch is empty. Processing stops at the first candidate
/// reply, so events after it are left unconsumed.
pub open spec fn batch_cursor(cursor: i64, s: Seq<Update>, user_id: i64) -> int {
    let k = match_prefix_end(s, user_id);
    if s.len() == 0 {
        cursor as int
    } else if k < s.len() {
        s[k].update_id + 1
    } else {
        s.last().update_id + 1
    }
}

/// What one poll pass produced: the advanced cursor and, possibly, the reply.
#[derive(Debug, Clone)]
pub struct BatchResult {
    pub cursor: i64,
    pub reply: Option<String>,
}

/// Processes a retrieved batch in ascending order: advances the cursor past
/// each event and stops at the first candidate reply.
pub fn process_batch(cursor: i64, updates: &Vec<Update>, user_id: i64) -> (r: BatchResult)
    requires
        batch_ids_bounded(updates@),
    ensures
        r.cursor as int == batch_cursor(cursor, updates@, user_id),
        r.reply is Some <==> batch_reply(updates@, user_id) is Some,
        r.reply matches Some(t) ==> t@ == batch_reply(updates@, user_id).unwrap(),
{
    let n = updates.len();
    let mut cur = cursor;
    let mut idx: usize = 0;
    while idx < n
        invariant
            idx <= n,
            n == updates@.len(),
            batch_ids_bounded(updates@),
            forall|i: int| 0 <= i < idx ==> !is_candidate_reply(updates@[i], user_id),
            cur as int == (if idx == 0 {
                cursor as int
            } else {
                updates@[idx - 1].update_id + 1
            }),
        decreases n - idx,
    {
        let u = &updates[idx];
        cur = u.update_id + 1;
        match extract_text_reply(u, user_id) {
            Some(t) => {
                proof {
                    lemma_match_prefix_at(updates@, user_id, idx as int);
                }
                return BatchResult { cursor: cur, reply: Some(t.to_owned()) };
            },
            None => {},
        }
        idx += 1;
    }
    proof {
        lemma_match_prefix_at(updates@, user_id, n as int);
    }
    BatchResult { cursor: cur, reply: None }
}

/// Cursor monotonicity: when the batch's sequence numbers are ascending and
/// at least the current cursor — the retrieval contract of the event
/// stream — the new cursor is one past the largest sequence number processed
/// and never below the old cursor.
pub proof fn lemma_cursor_monotonic(cursor: i64, s: Seq<Update>, user_id: i64)
    requires
        forall|i: int, j: int| 0 <= i < j < s.len() ==> s[i].update_id < s[j].update_id,
        forall|i: int| 0 <= i < s.len() ==> s[i].update_id >= cursor,
    ensures
        batch_cursor(cursor, s, user_id) >= cursor,
        s.len() == 0 ==> batch_cursor(cursor, s, user_id) == cursor,
        s.len() > 0 ==> ({
            let k = if match_prefix_end(s, user_id) < s.len() {
                match_prefix_end(s, user_id)
            } else {
                s.len() - 1
            };
            &&& batch_cursor(cursor, s, user_id) == s[k].update_id + 1
            &&& forall|i: int| 0 <= i <= k ==> s[i].update_id <= s[k].update_id
        }),
{
    lemma_match_prefix_end(s, user_id);
}

/// The bounds of one poll pass, computed from the remaining time: how long
/// the remote service may hold the call open, and how long the caller lets
/// the whole call run.
#[derive(Debug, Clone, Copy, PartialEq, Eq, Structural)]
pub struct PollPlan {
    /// Server-side wait, capped at 30 s so the overall deadline is re-checked
    /// at least that often.
    pub long_poll_secs: u64,
    /// Caller-side execution budget: 5 s of grace past the server wait, but
    /// never past the overall deadline.
    pub budget_secs: u64,
    /// Whether the budget coincides with the overall deadline; when such a
    /// budget expires, the run has simply timed out rather than failed.
    pub budget_is_deadline: bool,
}

/// Plans one poll pass. No pass is planned once the deadline has arrived.
/// The plan never lets a call outlive the remaining time, nor run more than
/// 5 s past its own long-poll window: the run's cumulative blocking exceeds
/// the overall timeout by at most that one bounded overshoot.
pub fn plan_poll(remaining_secs: u64) -> (r: Option<PollPlan>)
    ensures
        (r is Some <==> remaining_secs > 0),
        r matches Some(p) ==> ({
            &&& p.long_poll_secs == (if remaining_secs < 30 {
                remaining_secs as int
            } else {
                30int
            })
            &&& p.budget_secs == (if p.long_poll_secs + 5 < remaining_secs {
                p.long_poll_secs + 5
            } else {
                remaining_secs as int
            })
            &&& (p.budget_is_deadline <==> p.budget_secs == remaining_secs)
            &&& p.budget_secs <= remaining_secs
            &&& p.budget_secs <= p.long_poll_secs + 5
            &&& p.long_poll_secs <= 30
        }),
{
    if remaining_secs == 0 {
        None
    } else {
        let long_poll_secs: u64 = if remaining_secs < 30 {
            remaining_secs
        } else {
            30
        };
        let budget_secs: u64 = if long_poll_secs + 5 < remaining_secs {
            long_poll_secs + 5
        } else {
            remaining_secs
        };
        Some(
            PollPlan {
                long_poll_secs,
                budget_secs,
                budget_is_deadline: budget_secs == remaining_secs,
            },
        )
    }
}

/// The overall deadline in seconds: the configured minutes, saturating as
/// `Duration` arithmetic would.
pub fn overall_timeout_secs(timeout_minutes: u64) -> (r: u64)
    ensures
        r as int == (if timeout_minutes * 60 <= u64::MAX as int {
            timeout_minutes * 60
        } else {
            u64::MAX as int
        }),
{
    if timeout_minutes <= u64::MAX / 60 {
        timeout_minutes * 60
    } else {
        u64::MAX
    }
}

/// The single terminal result of a run.
#[derive(Debug, Clone)]
pub enum Outcome {
    /// The awaited reply arrived; carries its text.
    Replied(String),
    /// The overall deadline elapsed with no matching reply.
    TimedOut,
    /// A transport or protocol error ended the run.
    Failed(TelegramError),
}

/// Where a run stands.
#[derive(Debug, Clone)]
pub enum Phase {
    /// Discarding stale events; `offset` is the drain cursor.
    Draining { offset: i64 },
    /// The stale events are gone; the prompt is being sent.
    Sending { cursor: i64 },
    /// The prompt is out; new events are being awaited.
    Polling { cursor: i64 },
    /// The run has ended.
    Done { outcome: Outcome },
}

/// The run's state machine. Every transition below is driven by the
/// application shell with the outcome of one network call or clock read.
#[derive(Debug, Clone)]
pub struct Coordinator {
    pub user_id: i64,
    pub phase: Phase,
}

impl Coordinator {
    /// A fresh run: draining starts at cursor 0.
    pub fn new(user_id: i64) -> (r: Self)
        ensures
            r.user_id == user_id,
            r.phase == (Phase::Draining { offset: 0 }),
    {
        Coordinator { user_id, phase: Phase::Draining { offset: 0 } }
    }

    /// A transport or protocol failure ends the run from any active phase.
    pub fn on_error(&mut self, error: TelegramError)
        requires
            !(old(self).phase is Done),
        ensures
            final(self).user_id == old(self).user_id,
            final(self).phase matches Phase::Done { outcome: Outcome::Failed(e) } && e == error,
    {
        self.phase = Phase::Done { outcome: Outcome::Failed(error) };
    }

    /// One drain pass: an empty batch ends the drain and moves on to
    /// sending; otherwise the drain cursor advances past the batch.
    pub fn on_drain_batch(&mut self, batch: &Vec<Update>)
        requires
            old(self).phase is Draining,
            batch_ids_bounded(batch@),
        ensures
            final(self).user_id == old(self).user_id,
            old(self).phase matches Phase::Draining { offset } ==> match drain_step_model(
                offset,
                batch@,
            ) {
                DrainStep::Done { cursor } => final(self).phase == (Phase::Sending { cursor }),
                DrainStep::Continue { offset: advanced } => final(self).phase == (Phase::Draining {
                    offset: advanced,
                }),
            },
    {
        match &self.phase {
            Phase::Draining { offset } => {
                match crate::telegram::drain_step(*offset, batch) {
                    DrainStep::Done { cursor } => {
                        self.phase = Phase::Sending { cursor };
                    },
                    DrainStep::Continue { offset: advanced } => {
                        self.phase = Phase::Draining { offset: advanced };
                    },
                }
            },
            _ => {
                proof {
                    assert(false);
                }
            },
        }
    }

    /// The prompt went out; polling begins at the drained cursor, which
    /// sending does not move.
    pub fn on_sent(&mut self)
        requires
            old(self).phase is Sending,
        ensures
            final(self).user_id == old(self).user_id,
            old(self).phase matches Phase::Sending { cursor } ==> final(self).phase
                == (Phase::Polling { cursor }),
    {
        match &self.phase {
            Phase::Sending { cursor } => {
                self.phase = Phase::Polling { cursor: *cursor };
            },
            _ => {
                proof {
                    assert(false);
                }
            },
        }
    }

    /// One poll pass: the first candidate reply ends the run with its text;
    /// otherwise the cursor advances past the batch and polling goes on.
    pub fn on_poll_batch(&mut self, batch: &Vec<Update>)
        requires
            old(self).phase is Polling,
            batch_ids_bounded(batch@),
        ensures
            final(self).user_id == old(self).user_id,
            old(self).phase matches Phase::Polling { cursor } ==> ({
                let reply = batch_reply(batch@, old(self).user_id);
                &&& (reply matches Some(t) ==> (final(self).phase matches Phase::Done {
                    outcome: Outcome::Replied(rt),
                } && rt@ == t))
                &&& (reply is None ==> final(self).phase == (Phase::Polling {
                    cursor: batch_cursor(cursor, batch@, old(self).user_id) as i64,
                }))
                &&& ((forall|i: int| 0 <= i < batch@.len() ==> batch@[i].update_id >= cursor)
                    ==> batch_cursor(cursor, batch@, old(self).user_id) >= cursor)
            }),
    {
        proof {
            lemma_match_prefix_end(batch@, self.user_id);
        }
        match &self.phase {
            Phase::Polling { cursor } => {
                let r = process_batch(*cursor, batch, self.user_id);
                match r.reply {
                    Some(text) => {
                        self.phase = Phase::Done { outcome: Outcome::Replied(text) };
                    },
                    None => {
                        self.phase = Phase::Polling { cursor: r.cursor };
                    },
                }
            },
            _ => {
                proof {
                    assert(false);
                }
            },
        }
    }

    /// The overall deadline arrived while polling: the run has timed out.
    /// This also covers an execution budget that expired exactly at the
    /// deadline.
    pub fn on_deadline(&mut self)
        requires
            old(self).phase is Polling,
        ensures
            final(self).user_id == old(self).user_id,
            final(self).phase == (Phase::Done { outcome: Outcome::TimedOut }),
    {
        self.phase = Phase::Done { outcome: Outcome::TimedOut };
    }

    /// A poll call outran its execution budget. When that budget was the
    /// overall deadline the run has merely timed out; otherwise the
    /// connection hung, which is a transport failure distinct from the
    /// ordinary timeout.
    pub fn on_poll_budget_exceeded(&mut self, budget_was_deadline: bool)
        requires
            old(self).phase is Polling,
        ensures
            final(self).user_id == old(self).user_id,
            budget_was_deadline ==> final(self).phase == (Phase::Done {
                outcome: Outcome::TimedOut,
            }),
            !budget_was_deadline ==> (final(self).phase matches Phase::Done {
                outcome: Outcome::Failed(TelegramError::Transport { message }),
            } && message@ == "telegram getUpdates timed out"@),
    {
        if budget_was_deadline {
            self.phase = Phase::Done { outcome: Outcome::TimedOut };
        } else {
            self.phase = Phase::Done {
                outcome: Outcome::Failed(
                    TelegramError::Transport {
                        message: "telegram getUpdates timed out".to_owned(),
                    },
                ),
            };
        }
    }
}

} // verus!
