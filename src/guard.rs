use vstd::prelude::*;

use crate::error::{ErrorKind, TemplateError};

verus! {

/// One of the two buffers that the engine hands back.
#[derive(Clone, Copy, Debug, PartialEq, Eq)]
pub enum Slot {
    Output,
    Error,
}

/// What the holder of the engine's result must do next.
#[derive(Clone, Copy, Debug, PartialEq, Eq)]
pub enum GuardStep {
    /// Copy the text of this buffer and hand it to `record_copy`.
    Copy(Slot),
    /// Release this buffer through the engine, once, and report it to `record_release`.
    Release(Slot),
    /// Both buffers are copied and released: `finish` gives the outcome.
    Finish,
}

/// What a `ResultGuard` knows: the texts copied so far, which buffers are
/// released, and the releases in the order they were made.
pub ghost struct GuardView {
    pub output: Option<Seq<char>>,
    pub error: Option<Seq<char>>,
    pub output_released: bool,
    pub error_released: bool,
    pub log: Seq<Slot>,
}

/// The ownership of one result of the engine.
///
/// The texts of both buffers are copied out before either is released, each
/// buffer is released exactly once, and a released buffer is never read again.
/// The outcome is made from the copies alone.
pub struct ResultGuard {
    output: Option<String>,
    error: Option<String>,
    output_released: bool,
    error_released: bool,
    log: Ghost<Seq<Slot>>,
}

/// Whether `slot` has been released.
pub open spec fn released(v: GuardView, slot: Slot) -> bool {
    match slot {
        Slot::Output => v.output_released,
        Slot::Error => v.error_released,
    }
}

/// The guard's invariant: a buffer is released only after it was copied, and
/// the log holds each released buffer once and nothing else.
pub open spec fn guard_wf(v: GuardView) -> bool {
    &&& v.output_released ==> v.output is Some
    &&& v.error_released ==> v.error is Some
    &&& v.log.no_duplicates()
    &&& forall|s: Slot| v.log.contains(s) <==> released(v, s)
}

/// The step that the guard asks for in state `v`: both copies first, then
/// both releases, then the outcome.
pub open spec fn step_of(v: GuardView) -> GuardStep {
    if v.output is None {
        GuardStep::Copy(Slot::Output)
    } else if v.error is None {
        GuardStep::Copy(Slot::Error)
    } else if !v.output_released {
        GuardStep::Release(Slot::Output)
    } else if !v.error_released {
        GuardStep::Release(Slot::Error)
    } else {
        GuardStep::Finish
    }
}

/// The state of a guard that has just taken a result.
pub open spec fn fresh_view() -> GuardView {
    GuardView {
        output: None,
        error: None,
        output_released: false,
        error_released: false,
        log: Seq::empty(),
    }
}

/// `v` after the copy of `text` from `slot`.
pub open spec fn after_copy(v: GuardView, slot: Slot, text: Seq<char>) -> GuardView {
    match slot {
        Slot::Output => GuardView { output: Some(text), ..v },
        Slot::Error => GuardView { error: Some(text), ..v },
    }
}

/// `v` after the release of `slot`.
pub open spec fn after_release(v: GuardView, slot: Slot) -> GuardView {
    match slot {
        Slot::Output => GuardView { output_released: true, log: v.log.push(slot), ..v },
        Slot::Error => GuardView { error_released: true, log: v.log.push(slot), ..v },
    }
}

/// The engine's result as a typed outcome: a non-empty error text is an
/// `Execution` failure whatever the output holds; otherwise the output is the
/// rendered text.
pub fn translate(output: String, error: String) -> (r: Result<String, TemplateError>)
    ensures
        error@.len() > 0 ==> r == Err::<String, TemplateError>(
            TemplateError { kind: ErrorKind::Execution, message: error },
        ),
        error@.len() == 0 ==> r == Ok::<String, TemplateError>(output),
{
    if error.as_str().is_empty() {
        Ok(output)
    } else {
        Err(TemplateError { kind: ErrorKind::Execution, message: error })
    }
}

proof fn lemma_push_contains(log: Seq<Slot>, slot: Slot, s: Slot)
    ensures
        log.push(slot).contains(s) <==> (log.contains(s) || s == slot),
{
    let w = log.push(slot);
    if w.contains(s) {
        let k = choose|k: int| 0 <= k < w.len() && w[k] == s;
        if k < log.len() {
            assert(log[k] == s);
        }
    }
    if log.contains(s) {
        let k = choose|k: int| 0 <= k < log.len() && log[k] == s;
        assert(w[k] == s);
    }
    if s == slot {
        assert(w[log.len() as int] == s);
    }
}

proof fn lemma_push_keeps_distinct(log: Seq<Slot>, slot: Slot)
    requires
        log.no_duplicates(),
        !log.contains(slot),
    ensures
        log.push(slot).no_duplicates(),
{
    let w = log.push(slot);
    assert forall|i: int, j: int| 0 <= i < w.len() && 0 <= j < w.len() && i != j implies w[i]
        != w[j] by {
        if i == log.len() {
            assert(log[j] == w[j]);
        } else if j == log.len() {
            assert(log[i] == w[i]);
        }
    }
}

impl View for ResultGuard {
    type V = GuardView;

    closed spec fn view(&self) -> GuardView {
        GuardView {
            output: match self.output {
                Some(s) => Some(s@),
                None => None,
            },
            error: match self.error {
                Some(s) => Some(s@),
                None => None,
            },
            output_released: self.output_released,
            error_released: self.error_released,
            log: self.log@,
        }
    }
}

impl ResultGuard {
    /// Takes ownership of a result that the engine has just returned.
    pub fn new() -> (g: ResultGuard)
        ensures
            g@ == fresh_view(),
            guard_wf(g@),
    {
        ResultGuard {
            output: None,
            error: None,
            output_released: false,
            error_released: false,
            log: Ghost(Seq::empty()),
        }
    }

    /// The next thing the holder must do.
    pub fn next_step(&self) -> (r: GuardStep)
        ensures
            r == step_of(self@),
    {
        if self.output.is_none() {
            GuardStep::Copy(Slot::Output)
        } else if self.error.is_none() {
            GuardStep::Copy(Slot::Error)
        } else if !self.output_released {
            GuardStep::Release(Slot::Output)
        } else if !self.error_released {
            GuardStep::Release(Slot::Error)
        } else {
            GuardStep::Finish
        }
    }

    /// Records `text` as the content of `slot`, read while it was still held.
    pub fn record_copy(&mut self, slot: Slot, text: String)
        requires
            guard_wf(old(self)@),
            step_of(old(self)@) == GuardStep::Copy(slot),
        ensures
            final(self)@ == after_copy(old(self)@, slot, text@),
            guard_wf(final(self)@),
    {
        match slot {
            Slot::Output => self.output = Some(text),
            Slot::Error => self.error = Some(text),
        }
        assert(forall|s: Slot| released(self@, s) == released(old(self)@, s));
    }

    /// Records that `slot` has been released.
    pub fn record_release(&mut self, slot: Slot)
        requires
            guard_wf(old(self)@),
            step_of(old(self)@) == GuardStep::Release(slot),
        ensures
            final(self)@ == after_release(old(self)@, slot),
            guard_wf(final(self)@),
    {
        let ghost v = self@;
        match slot {
            Slot::Output => self.output_released = true,
            Slot::Error => self.error_released = true,
        }
        self.log = Ghost(self.log@.push(slot));
        proof {
            let w = self@;
            assert(v == old(self)@);
            assert(!released(v, slot));
            assert(v.log.contains(slot) <==> released(v, slot));
            lemma_push_keeps_distinct(v.log, slot);
            assert forall|s: Slot| w.log.contains(s) <==> released(w, s) by {
                lemma_push_contains(v.log, slot, s);
                assert(v.log.contains(s) <==> released(v, s));
            }
        }
    }

    /// The outcome, made from the copied texts once both buffers are released.
    pub fn finish(self) -> (r: Result<String, TemplateError>)
        requires
            guard_wf(self@),
            step_of(self@) == GuardStep::Finish,
        ensures
            self@.error.unwrap().len() > 0 ==> (r matches Err(e) && e.kind == ErrorKind::Execution
                && e.message@ == self@.error.unwrap()),
            self@.error.unwrap().len() == 0 ==> (r matches Ok(s) && s@ == self@.output.unwrap()),
    {
        let output = self.output.unwrap();
        let error = self.error.unwrap();
        translate(output, error)
    }
}

} // verus!
