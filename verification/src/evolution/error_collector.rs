//! Error collector: records failed executions, and tells when a kind of
//! failure has repeated often enough to call for a new skill.

use vstd::prelude::*;
use crate::outside::{is_hyphenated_uuid, is_rfc3339_utc};
use crate::text::str_eq;
use crate::types::ErrorRecord;

verus! {

/// The failures recorded so far, oldest first.
pub struct ErrorCollector {
    errors: Vec<ErrorRecord>,
    error_threshold: u32,
}

/// The threshold a new collector starts with.
pub open spec fn default_threshold() -> u32 {
    3
}

/// `r` is a new record of a first failure with the given fields, a UUID and
/// an RFC 3339 time of creation.
pub open spec fn is_new_record(
    r: ErrorRecord,
    session_id: Seq<char>,
    task: Seq<char>,
    error_type: Seq<char>,
    error_message: Seq<char>,
    context: Seq<char>,
) -> bool {
    &&& r.session_id@ == session_id
    &&& r.task@ == task
    &&& r.error_type@ == error_type
    &&& r.error_message@ == error_message
    &&& r.context@ == context
    &&& r.attempts == 1
    &&& !r.resolved
    &&& is_hyphenated_uuid(r.id@)
    &&& is_rfc3339_utc(r.created_at@)
}

/// The most recent record of kind `error_type`, if any.
pub open spec fn latest_of_type(errors: Seq<ErrorRecord>, error_type: Seq<char>) -> Option<ErrorRecord>
    decreases errors.len(),
{
    if errors.len() == 0 {
        None
    } else if errors.last().error_type@ == error_type {
        Some(errors.last())
    } else {
        latest_of_type(errors.drop_last(), error_type)
    }
}

/// Whether the failures of kind `error_type` call for a new skill: the most
/// recent one has been attempted at least `threshold` times and is unresolved.
pub open spec fn evolve_due(errors: Seq<ErrorRecord>, threshold: u32, error_type: Seq<char>) -> bool {
    match latest_of_type(errors, error_type) {
        Some(e) => e.attempts >= threshold && !e.resolved,
        None => false,
    }
}

/// The most recent record counts one more attempt if it is of kind `error_type`.
pub open spec fn after_attempt(errors: Seq<ErrorRecord>, error_type: Seq<char>) -> Seq<ErrorRecord> {
    if errors.len() > 0 && errors.last().error_type@ == error_type {
        errors.update(
            errors.len() - 1,
            ErrorRecord { attempts: (errors.last().attempts + 1) as u32, ..errors.last() },
        )
    } else {
        errors
    }
}

/// The most recent record is resolved if it is of kind `error_type`.
pub open spec fn after_resolved(errors: Seq<ErrorRecord>, error_type: Seq<char>) -> Seq<ErrorRecord> {
    if errors.len() > 0 && errors.last().error_type@ == error_type {
        errors.update(errors.len() - 1, ErrorRecord { resolved: true, ..errors.last() })
    } else {
        errors
    }
}

/// The `count` most recent records, newest first.
pub open spec fn most_recent(errors: Seq<ErrorRecord>, count: nat) -> Seq<ErrorRecord> {
    let k = if count < errors.len() { count as int } else { errors.len() as int };
    Seq::new(k as nat, |i: int| errors[errors.len() - 1 - i])
}

/// Whether one more attempt on the most recent record is representable.
pub open spec fn attempt_fits(errors: Seq<ErrorRecord>, error_type: Seq<char>) -> bool {
    errors.len() > 0 && errors.last().error_type@ == error_type ==> errors.last().attempts < u32::MAX
}

impl ErrorCollector {
    /// The records, oldest first.
    pub closed spec fn errors(&self) -> Seq<ErrorRecord> {
        self.errors@
    }

    /// The number of attempts from which a failure calls for a new skill.
    pub closed spec fn threshold(&self) -> u32 {
        self.error_threshold
    }

    /// An empty collector with threshold 3.
    pub fn new() -> (r: Self)
        ensures
            r.errors() == Seq::<ErrorRecord>::empty(),
            r.threshold() == 3,
    {
        ErrorCollector { errors: Vec::new(), error_threshold: 3 }
    }

    /// The same collector with threshold `threshold`.
    pub fn with_threshold(self, threshold: u32) -> (r: Self)
        ensures
            r.errors() == self.errors(),
            r.threshold() == threshold,
    {
        ErrorCollector { errors: self.errors, error_threshold: threshold }
    }

    /// Records a first failure and returns a copy of the new record.
    pub fn record(
        &mut self,
        session_id: &str,
        task: &str,
        error_type: &str,
        error_message: &str,
        context: &str,
    ) -> (r: ErrorRecord)
        ensures
            final(self).errors() == old(self).errors().push(r),
            final(self).threshold() == old(self).threshold(),
            is_new_record(r, session_id@, task@, error_type@, error_message@, context@),
    {
        let record = ErrorRecord::new(session_id, task, error_type, error_message, context);
        let copy = record.clone();
        self.errors.push(record);
        copy
    }

    /// Counts one more attempt on the most recent record if it is of kind
    /// `error_type`.
    pub fn update_attempt(&mut self, error_type: &str)
        requires
            attempt_fits(old(self).errors(), error_type@),
        ensures
            final(self).errors() == after_attempt(old(self).errors(), error_type@),
            final(self).threshold() == old(self).threshold(),
    {
        let n = self.errors.len();
        if n == 0 {
            return;
        }
        if !str_eq(self.errors[n - 1].error_type.as_str(), error_type) {
            return;
        }
        let mut last = self.errors.pop().unwrap();
        last.increment_attempt();
        self.errors.push(last);
        assert(self.errors@ =~= after_attempt(old(self).errors(), error_type@));
    }

    /// Marks the most recent record resolved if it is of kind `error_type`.
    pub fn mark_resolved(&mut self, error_type: &str)
        ensures
            final(self).errors() == after_resolved(old(self).errors(), error_type@),
            final(self).threshold() == old(self).threshold(),
    {
        let n = self.errors.len();
        if n == 0 {
            return;
        }
        if !str_eq(self.errors[n - 1].error_type.as_str(), error_type) {
            return;
        }
        let mut last = self.errors.pop().unwrap();
        last.resolved = true;
        self.errors.push(last);
        assert(self.errors@ =~= after_resolved(old(self).errors(), error_type@));
    }

    /// Whether failures of kind `error_type` call for a new skill.
    pub fn should_evolve(&self, error_type: &str) -> (r: bool)
        ensures
            r == evolve_due(self.errors(), self.threshold(), error_type@),
    {
        let mut i = self.errors.len();
        assert(self.errors@.take(i as int) =~= self.errors@);
        while i > 0
            invariant
                i <= self.errors@.len(),
                latest_of_type(self.errors@, error_type@) == latest_of_type(
                    self.errors@.take(i as int),
                    error_type@,
                ),
            decreases i,
        {
            let e = &self.errors[i - 1];
            assert(self.errors@.take(i as int).last() == *e);
            assert(self.errors@.take(i as int).drop_last() =~= self.errors@.take(i - 1));
            if str_eq(e.error_type.as_str(), error_type) {
                return e.attempts >= self.error_threshold && !e.resolved;
            }
            i -= 1;
        }
        assert(self.errors@.take(0) =~= Seq::<ErrorRecord>::empty());
        false
    }

    /// Copies of the `count` most recent records, newest first.
    pub fn recent_errors(&self, count: usize) -> (r: Vec<ErrorRecord>)
        ensures
            r@ == most_recent(self.errors(), count as nat),
    {
        let n = self.errors.len();
        let k = if count < n { count } else { n };
        let mut out: Vec<ErrorRecord> = Vec::new();
        for j in 0..k
            invariant
                n == self.errors@.len(),
                k <= n,
                k == (if count < n { count } else { n }),
                out@ =~= Seq::new(j as nat, |i: int| self.errors@[n - 1 - i]),
        {
            out.push(self.errors[n - 1 - j].clone());
        }
        out
    }
}

// ---------------------------------------------------------------------------
// Laws
// ---------------------------------------------------------------------------

/// A failure just recorded is the one that decides whether its kind calls for
/// a new skill.
pub proof fn law_record_decides(errors: Seq<ErrorRecord>, r: ErrorRecord, error_type: Seq<char>)
    requires
        r.error_type@ == error_type,
    ensures
        latest_of_type(errors.push(r), error_type) == Some(r),
{
    assert(errors.push(r).last() == r);
}

/// Starting from a freshly recorded failure, the kind calls for a new skill
/// exactly once it has been attempted `threshold` times: after `k` further
/// attempts it is due if and only if `1 + k >= threshold`.
pub proof fn law_evolve_after_threshold(
    errors: Seq<ErrorRecord>,
    r: ErrorRecord,
    threshold: u32,
    k: nat,
)
    requires
        r.attempts == 1,
        !r.resolved,
        1 + k < u32::MAX,
    ensures
        evolve_due(attempts_after(errors.push(r), r.error_type@, k), threshold, r.error_type@) <==> 1
            + k >= threshold,
        latest_of_type(attempts_after(errors.push(r), r.error_type@, k), r.error_type@) == Some(
            ErrorRecord { attempts: (1 + k) as u32, ..r },
        ),
    decreases k,
{
    let t = r.error_type@;
    if k == 0 {
        assert(errors.push(r).last() == r);
        assert(ErrorRecord { attempts: 1u32, ..r } == r);
    } else {
        law_evolve_after_threshold(errors, r, threshold, (k - 1) as nat);
        let prev = attempts_after(errors.push(r), t, (k - 1) as nat);
        lemma_attempts_after_shape(errors, r, (k - 1) as nat);
        assert(prev.last() == ErrorRecord { attempts: k as u32, ..r });
        let next = after_attempt(prev, t);
        assert(next.last() == ErrorRecord { attempts: (1 + k) as u32, ..r });
    }
}

/// `k` further attempts on kind `error_type`.
pub open spec fn attempts_after(errors: Seq<ErrorRecord>, error_type: Seq<char>, k: nat) -> Seq<ErrorRecord>
    decreases k,
{
    if k == 0 {
        errors
    } else {
        after_attempt(attempts_after(errors, error_type, (k - 1) as nat), error_type)
    }
}

proof fn lemma_attempts_after_shape(errors: Seq<ErrorRecord>, r: ErrorRecord, k: nat)
    requires
        r.attempts == 1,
        1 + k < u32::MAX,
    ensures
        attempts_after(errors.push(r), r.error_type@, k).len() == errors.len() + 1,
        attempts_after(errors.push(r), r.error_type@, k).last() == (ErrorRecord {
            attempts: (1 + k) as u32,
            ..r
        }),
    decreases k,
{
    if k == 0 {
        assert(ErrorRecord { attempts: 1u32, ..r } == r);
    } else {
        lemma_attempts_after_shape(errors, r, (k - 1) as nat);
    }
}

/// A resolved failure does not call for a new skill, however often it was
/// attempted.
pub proof fn law_resolved_never_due(errors: Seq<ErrorRecord>, threshold: u32, error_type: Seq<char>)
    requires
        errors.len() > 0,
        errors.last().error_type@ == error_type,
    ensures
        !evolve_due(after_resolved(errors, error_type), threshold, error_type),
{
    let after = after_resolved(errors, error_type);
    assert(after.last().resolved);
    assert(after.last().error_type@ == error_type);
}

} // verus!
