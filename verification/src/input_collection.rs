//! Input collection protocol: once a command with declared arguments is
//! confirmed, this session solicits one typed argument per interaction
//! cycle, accumulates them in declared order, and on completion asks the
//! host to run the handler with the full list. A cancellation at any point
//! discards the partial list; a handler never sees an incomplete one.

use vstd::prelude::*;

verus! {

use crate::resources::{spec_matches_kind, CapturedInput, CommandDesc, InputDesc};

/// The transient state of one argument-collection session: the descriptor
/// being filled, how many arguments have been captured, and the captures
/// themselves in declared order.
pub struct InputCollectionState<H> {
    pub command: CommandDesc<H>,
    pub current_input: usize,
    pub found_inputs: Vec<CapturedInput>,
}

/// One discrete event the host delivers to a collection session: the
/// captured argument an interaction cycle produced, or a cancellation.
#[derive(Debug, PartialEq)]
pub enum CollectionEvent {
    Captured(CapturedInput),
    Cancel,
}

/// What the session asks of the host after an event: keep collecting
/// (solicit the next argument), pop back to the prior context, or run the
/// given handler with the complete argument list.
#[derive(Debug, PartialEq)]
pub enum CollectionAction<H> {
    Keep,
    Pop,
    Invoke(H, Vec<CapturedInput>),
}

impl<H> InputCollectionState<H> {
    /// Internal consistency: one captured argument per completed step, each
    /// of its declared kind, and no more captures than declared arguments.
    pub open spec fn wf(self) -> bool {
        &&& self.current_input == self.found_inputs@.len()
        &&& self.found_inputs@.len() <= self.command.inputs@.len()
        &&& forall|i: int|
            0 <= i < self.found_inputs@.len() ==> spec_matches_kind(
                self.found_inputs@[i],
                self.command.inputs@[i],
            )
    }
}

/// The transition relation of the collection session: how the state after
/// one event, and the action handed back to the host, relate to the state
/// before it. A cancellation pops and changes nothing; a capture advances
/// the session, and the capture that fills the last declared slot turns
/// into an invocation of the command's own handler with every captured
/// argument in capture order.
pub open spec fn collection_step<H>(
    pre: InputCollectionState<H>,
    ev: CollectionEvent,
    post: InputCollectionState<H>,
    r: CollectionAction<H>,
) -> bool {
    match ev {
        CollectionEvent::Cancel => {
            &&& r is Pop
            &&& post == pre
        },
        CollectionEvent::Captured(v) => {
            &&& post.command == pre.command
            &&& post.current_input == pre.current_input + 1
            &&& if pre.current_input + 1 < pre.command.inputs@.len() {
                &&& r is Keep
                &&& post.found_inputs@ == pre.found_inputs@.push(v)
            } else {
                &&& r matches CollectionAction::Invoke(h, args) && h == pre.command.handler
                    && args@ == pre.found_inputs@.push(v)
                &&& post.found_inputs@.len() == 0
            }
        },
    }
}

impl<H: Copy> InputCollectionState<H> {
    /// The kind of the argument the session currently solicits, or `None`
    /// when every declared argument has been captured.
    pub fn next_kind(&self) -> (r: Option<InputDesc>)
        ensures
            self.current_input < self.command.inputs@.len() ==> r == Some(
                self.command.inputs@[self.current_input as int],
            ),
            self.current_input >= self.command.inputs@.len() ==> r is None,
    {
        if self.current_input < self.command.inputs.len() {
            Some(self.command.inputs[self.current_input])
        } else {
            None
        }
    }

    /// Feeds one event to the session. A captured argument must be of the
    /// kind currently solicited — the host guarantees this by asking
    /// [`Self::next_kind`] and checking the capture against it before
    /// delivering. The session's behaviour is [`collection_step`].
    pub fn handle_event(&mut self, ev: CollectionEvent) -> (r: CollectionAction<H>)
        requires
            old(self).wf(),
            old(self).current_input < old(self).command.inputs@.len(),
            ev matches CollectionEvent::Captured(v) ==> spec_matches_kind(
                v,
                old(self).command.inputs@[old(self).current_input as int],
            ),
        ensures
            collection_step(*old(self), ev, *final(self), r),
            r is Keep ==> final(self).wf(),
            // a handler only ever sees a complete, well-kinded argument list
            r matches CollectionAction::Invoke(h, args) ==> args@.len() == old(
                self,
            ).command.inputs@.len() && forall|i: int|
                0 <= i < args@.len() ==> spec_matches_kind(
                    args@[i],
                    old(self).command.inputs@[i],
                ),
    {
        match ev {
            CollectionEvent::Cancel => CollectionAction::Pop,
            CollectionEvent::Captured(v) => {
                let declared = self.command.inputs.len();
                self.found_inputs.push(v);
                self.current_input = self.current_input + 1;
                if self.current_input < declared {
                    CollectionAction::Keep
                } else {
                    let mut args: Vec<CapturedInput> = Vec::new();
                    core::mem::swap(&mut args, &mut self.found_inputs);
                    CollectionAction::Invoke(self.command.handler, args)
                }
            },
        }
    }
}

/// N-argument completion, shown for a command declaring two arguments:
/// from a fresh session, the first capture only advances the session — no
/// invocation — and the second invokes the command's own handler with
/// exactly the two captured values in capture order. One invocation, after
/// exactly as many cycles as declared arguments.
pub proof fn lemma_two_cycle_completion<H>(
    s0: InputCollectionState<H>,
    s1: InputCollectionState<H>,
    s2: InputCollectionState<H>,
    v1: CapturedInput,
    v2: CapturedInput,
    r1: CollectionAction<H>,
    r2: CollectionAction<H>,
)
    requires
        s0.command.inputs@.len() == 2,
        s0.current_input == 0,
        s0.found_inputs@.len() == 0,
        collection_step(s0, CollectionEvent::Captured(v1), s1, r1),
        collection_step(s1, CollectionEvent::Captured(v2), s2, r2),
    ensures
        r1 is Keep,
        r2 matches CollectionAction::Invoke(h, args) && h == s0.command.handler && args@ =~= seq![
            v1,
            v2,
        ],
{
}

/// Cancel mid-collection: a cancellation, at any point of the sequence,
/// leaves the session untouched, invokes nothing, and asks the host to
/// pop; the partial argument list dies with the popped session.
pub proof fn lemma_cancel_discards<H>(
    s0: InputCollectionState<H>,
    s1: InputCollectionState<H>,
    r: CollectionAction<H>,
)
    requires
        collection_step(s0, CollectionEvent::Cancel, s1, r),
    ensures
        r is Pop,
        !(r is Invoke),
        s1 == s0,
{
}

} // verus!
