//! The window actions that ask the learner before they happen: at most one is pending at a
//! time, and only the answer to the pending one completes it.

use vstd::prelude::*;

use crate::text::{chars_of, parses_as_uuid, push_char, str_equals, version_seven_uuid_text};

verus! {

/// What the window is asked to do.
#[derive(Clone, Copy, Debug, PartialEq, Eq, Structural)]
pub enum NativeAction {
    Close,
    Quit,
    Reload,
}

/// A window action waiting for the learner's decision.
#[derive(Clone, Debug, PartialEq, Eq)]
pub struct ActionRequest {
    pub id: String,
    pub action: NativeAction,
}

/// The message given when an answer names no pending action.
pub open spec fn not_pending_message() -> Seq<char> {
    "This window action is no longer pending."@
}

/// Wraps `uuid::Uuid::now_v7`, formatted as text: a new identifier for a request, a
/// version 7 UUID in the hyphenated lower-case form that `Uuid`'s `Display` writes. Its
/// value depends on the clock, a process-wide counter and chance; only its form is stated.
#[verifier::external_body]
fn new_request_id() -> (r: String)
    ensures
        version_seven_uuid_text(r@),
{
    uuid::Uuid::now_v7().to_string()
}

/// A version 7 UUID text that differs from `id` in its last digit.
fn other_request_id(id: &String) -> (r: String)
    requires
        version_seven_uuid_text(id@),
    ensures
        version_seven_uuid_text(r@),
        r@ != id@,
{
    let chars = chars_of(id.as_str());
    let replacement = if chars[35] == '0' {
        '1'
    } else {
        '0'
    };
    let mut r = String::new();
    let mut i: usize = 0;
    while i < 35
        invariant
            chars@ == id@,
            id@.len() == 36,
            i <= 35,
            r@ == id@.take(i as int),
        decreases 35 - i,
    {
        push_char(&mut r, chars[i]);
        i = i + 1;
        assert(r@ =~= id@.take(i as int));
    }
    push_char(&mut r, replacement);
    assert(r@[35] != id@[35]);
    r
}

/// A new request identifier other than `last`, when there is one: drawn again when the
/// draw repeats `last`, and changed in its last digit should the second draw repeat it too.
fn fresh_request_id(last: &Option<String>) -> (r: String)
    ensures
        version_seven_uuid_text(r@),
        last matches Some(l) ==> r@ != l@,
{
    let id = new_request_id();
    match last {
        None => id,
        Some(l) => {
            if !str_equals(id.as_str(), l.as_str()) {
                return id;
            }
            let again = new_request_id();
            if !str_equals(again.as_str(), l.as_str()) {
                return again;
            }
            other_request_id(&again)
        },
    }
}

/// The decision state of the window: whether it is ready, whether leaving was approved,
/// the pending request, and the identifier of the last request issued.
#[derive(Debug, Default)]
pub struct LifecycleState {
    pub ready: bool,
    pub approved_exit: bool,
    pub pending: Option<ActionRequest>,
    pub last_request_id: Option<String>,
}

/// What asking for `action` does: while a request is pending nothing changes and nothing
/// comes back; otherwise a request with a new identifier, a version 7 UUID other than the
/// last one issued, becomes the pending one and the last issued.
pub open spec fn begins(
    before: LifecycleState,
    action: NativeAction,
    after: LifecycleState,
    r: Option<ActionRequest>,
) -> bool {
    if before.pending is Some {
        r is None && after == before
    } else {
        &&& r matches Some(request)
        &&& request.action == action
        &&& version_seven_uuid_text(request.id@)
        &&& parses_as_uuid(request.id@)
        &&& (before.last_request_id matches Some(last) ==> request.id@ != last@)
        &&& after.pending == Some(request)
        &&& after.last_request_id == Some(request.id)
        &&& after.ready == before.ready
        &&& after.approved_exit == before.approved_exit
    }
}

/// What answering the request named `id` does: the pending request with that identifier
/// is completed and stops being pending; any other answer is refused and changes nothing.
pub open spec fn takes(
    before: LifecycleState,
    id: Seq<char>,
    after: LifecycleState,
    r: Result<ActionRequest, &'static str>,
) -> bool {
    if before.pending matches Some(p) && p.id@ == id {
        &&& r == Ok::<ActionRequest, &'static str>(before.pending->Some_0)
        &&& after.pending is None
        &&& after.last_request_id == before.last_request_id
        &&& after.ready == before.ready
        &&& after.approved_exit == before.approved_exit
    } else {
        r matches Err(m) && m@ == not_pending_message() && after == before
    }
}

impl LifecycleState {
    /// Asks for an action (see [`begins`]).
    pub fn begin(&mut self, action: NativeAction) -> (r: Option<ActionRequest>)
        ensures
            begins(*old(self), action, *final(self), r),
    {
        if self.pending.is_some() {
            return None;
        }
        let id = fresh_request_id(&self.last_request_id);
        proof {
            lemma_version_seven_parses(id@);
        }
        let request = ActionRequest { id: id.clone(), action };
        let copy = ActionRequest { id: id.clone(), action };
        self.pending = Some(copy);
        self.last_request_id = Some(id);
        Some(request)
    }

    /// Completes the pending action named `id` (see [`takes`]).
    pub fn take(&mut self, id: &str) -> (r: Result<ActionRequest, &'static str>)
        ensures
            takes(*old(self), id@, *final(self), r),
    {
        let matches = match &self.pending {
            Some(request) => str_equals(request.id.as_str(), id),
            None => false,
        };
        if !matches {
            return Err("This window action is no longer pending.");
        }
        let request = self.pending.take();
        match request {
            Some(r) => Ok(r),
            None => Err("This window action is no longer pending."),
        }
    }
}

/// The hyphenated text of a version 7 UUID is one that the UUID parser accepts.
proof fn lemma_version_seven_parses(s: Seq<char>)
    requires
        version_seven_uuid_text(s),
    ensures
        parses_as_uuid(s),
{
}

/// An answer finishes only the request it names: once a request has been begun and
/// answered, the next request gets another identifier, and answering the first one again
/// is refused and changes nothing.
pub proof fn lemma_stale_answers_are_refused(
    s0: LifecycleState,
    first_action: NativeAction,
    s1: LifecycleState,
    first: ActionRequest,
    s2: LifecycleState,
    first_answer: Result<ActionRequest, &'static str>,
    second_action: NativeAction,
    s3: LifecycleState,
    second: ActionRequest,
    s4: LifecycleState,
    stale_answer: Result<ActionRequest, &'static str>,
)
    requires
        begins(s0, first_action, s1, Some(first)),
        takes(s1, first.id@, s2, first_answer),
        begins(s2, second_action, s3, Some(second)),
        takes(s3, first.id@, s4, stale_answer),
    ensures
        first_answer matches Ok(done) && done.action == first_action,
        second.id@ != first.id@,
        stale_answer is Err,
        s4 == s3,
{
}

} // verus!
