//! Command-line entry protocol: accumulates typed characters into a
//! candidate command name and, on confirmation, resolves it through the
//! registry — invoking a zero-argument command at once, handing a
//! multi-argument one over to the input collection protocol, and silently
//! popping on an unknown name or a cancellation.

use vstd::prelude::*;

verus! {

use crate::input_collection::InputCollectionState;
use crate::keys::{
    as_alphanumeric, is_confirmation, lemma_alphanumeric_confirmation_disjoint, spec_alphanumeric,
    spec_confirmation, KeyCode,
};
use crate::resources::{CapturedInput, CommandDesc, CommandList};

/// The transient state of one command-line entry session: the characters
/// typed so far. The host echoes them to its text display as they arrive.
pub struct CommandEntryState {
    pub command: String,
}

/// What the entry session asks of the host after a key press: keep
/// accepting keys, pop back with no effect, run a zero-argument command's
/// handler (with the empty argument list), or replace this session by an
/// argument-collection session for the resolved command.
pub enum EntryAction<H> {
    Keep,
    Pop,
    Invoke(H, Vec<CapturedInput>),
    Begin(InputCollectionState<H>),
}

/// Relies on `String::push`: appends the given char to the end of the
/// string.
#[verifier::external_body]
fn push_char(s: &mut String, c: char)
    ensures
        final(s)@ == old(s)@.push(c),
{
    s.push(c)
}

/// The decision made at the moment a typed name is confirmed: an unknown
/// name pops with no effect; a resolved command with no declared arguments
/// is invoked at once with the empty argument list; one with declared
/// arguments becomes a fresh collection session.
pub open spec fn entry_resolution<H>(
    commands: CommandList<H>,
    name: Seq<char>,
    r: EntryAction<H>,
) -> bool {
    match commands.spec_get(name) {
        None => r is Pop,
        Some(d) => if d.inputs@.len() == 0 {
            r matches EntryAction::Invoke(h, args) && h == d.handler && args@.len() == 0
        } else {
            r matches EntryAction::Begin(st) && st.command.name@ == d.name@
                && st.command.inputs@ == d.inputs@ && st.command.handler == d.handler
                && st.current_input == 0 && st.found_inputs@.len() == 0
        },
    }
}

/// Resolves `name` through the registry, per [`entry_resolution`].
pub fn instantiate_command<H: Copy>(commands: &CommandList<H>, name: &str) -> (r: EntryAction<H>)
    ensures
        entry_resolution(*commands, name@, r),
{
    match commands.get(name) {
        None => EntryAction::Pop,
        Some(desc) => {
            if desc.inputs.len() == 0 {
                EntryAction::Invoke(desc.handler, Vec::new())
            } else {
                let command = desc.clone();
                EntryAction::Begin(
                    InputCollectionState { command, current_input: 0, found_inputs: Vec::new() },
                )
            }
        },
    }
}

/// The transition relation of the entry session: an alphanumeric key
/// appends its character and the session continues; an affirmative
/// confirmation resolves the accumulated name per [`entry_resolution`]; a
/// negative one pops with no effect; any other key changes nothing.
pub open spec fn entry_step<H>(
    pre: CommandEntryState,
    key: KeyCode,
    commands: CommandList<H>,
    post: CommandEntryState,
    r: EntryAction<H>,
) -> bool {
    match spec_alphanumeric(key) {
        Some(c) => {
            &&& post.command@ == pre.command@.push(c)
            &&& r is Keep
        },
        None => if spec_confirmation(key) == Some(true) {
            &&& post == pre
            &&& entry_resolution(commands, pre.command@, r)
        } else if spec_confirmation(key) == Some(false) {
            &&& post == pre
            &&& r is Pop
        } else {
            &&& post == pre
            &&& r is Keep
        },
    }
}

impl CommandEntryState {
    /// Feeds one key press to the session; the behaviour is [`entry_step`].
    /// Keys that are neither alphanumeric nor confirmations pass through
    /// with no effect.
    pub fn handle_key<H: Copy>(&mut self, key: KeyCode, commands: &CommandList<H>) -> (r:
        EntryAction<H>)
        ensures
            entry_step(*old(self), key, *commands, *final(self), r),
    {
        if let Some(letter) = as_alphanumeric(key) {
            push_char(&mut self.command, letter);
        }
        if let Some(activate) = is_confirmation(key) {
            proof {
                lemma_alphanumeric_confirmation_disjoint(key);
            }
            if activate {
                return instantiate_command(commands, self.command.as_str());
            } else {
                return EntryAction::Pop;
            }
        }
        EntryAction::Keep
    }
}

/// Zero-argument dispatch: when the confirmed name resolves to a command
/// declaring no arguments, the session invokes the command's handler at
/// once, with the empty captured-argument list, and never enters the input
/// collection protocol.
pub proof fn lemma_zero_argument_dispatch<H>(
    pre: CommandEntryState,
    key: KeyCode,
    commands: CommandList<H>,
    post: CommandEntryState,
    r: EntryAction<H>,
    d: CommandDesc<H>,
)
    requires
        spec_confirmation(key) == Some(true),
        commands.spec_get(pre.command@) == Some(d),
        d.inputs@.len() == 0,
        entry_step(pre, key, commands, post, r),
    ensures
        r matches EntryAction::Invoke(h, args) && h == d.handler && args@.len() == 0,
        !(r is Begin),
{
    lemma_alphanumeric_confirmation_disjoint(key);
}

} // verus!
