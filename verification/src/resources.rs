//! Session resources: the layers and line styles that live in generational
//! tables, and the command registry that maps names — and alias names — to
//! command descriptors.

use vstd::prelude::*;

verus! {

use crate::common::{GenerationID, GenerationVec};
use crate::components::Color;

/// The generational table the session's layers live in.
pub type Layers = GenerationVec<Layer>;

/// The generational table the session's line styles live in.
pub type LineTypes = GenerationVec<LineType>;

/// A drawing layer: a named, flagged grouping of entities, referring to its
/// default line style by a stable handle.
#[derive(Debug, PartialEq)]
pub struct Layer {
    pub name: String,
    pub color: Color,
    pub line_type: GenerationID<LineType>,
    pub hidden: bool,
    pub frozen: bool,
    pub locked: bool,
}

/// The dash pattern a line style denotes. The drawing predicate itself
/// (from pen position and scale to whether ink is laid) belongs to the
/// renderer; the core records which pattern a style stands for.
#[derive(Clone, Copy, Debug, PartialEq, Eq, Structural)]
pub enum LinePattern {
    Continuous,
    Hidden,
}

/// A line style, stored in a generational table and referenced from layers.
#[derive(Clone, Copy, Debug, PartialEq, Eq, Structural)]
pub struct LineType {
    pub pattern: LinePattern,
}

/// The kind of one declared argument of a command: a typed placeholder that
/// one interaction cycle fills.
#[derive(Clone, Copy, Debug, PartialEq, Eq, Structural)]
pub enum InputDesc {
    Point,
    Select,
    Multiselect,
}

/// A captured argument: the concrete value one interaction cycle produced
/// for a declared argument. A point is a pair of world coordinates; an
/// entity is referred to by its numeric identity in the host's store.
#[derive(Clone, Debug, PartialEq)]
pub enum CapturedInput {
    Point(i64, i64),
    Select(u64),
    Multiselect(Vec<u64>),
}

/// Whether a captured argument has the declared kind.
pub open spec fn spec_matches_kind(v: CapturedInput, k: InputDesc) -> bool {
    match v {
        CapturedInput::Point(_, _) => k is Point,
        CapturedInput::Select(_) => k is Select,
        CapturedInput::Multiselect(_) => k is Multiselect,
    }
}

/// Tests whether a captured argument has the declared kind, per
/// [`spec_matches_kind`].
pub fn matches_kind(v: &CapturedInput, k: InputDesc) -> (r: bool)
    ensures
        r == spec_matches_kind(*v, k),
{
    match v {
        CapturedInput::Point(_, _) => matches!(k, InputDesc::Point),
        CapturedInput::Select(_) => matches!(k, InputDesc::Select),
        CapturedInput::Multiselect(_) => matches!(k, InputDesc::Multiselect),
    }
}

/// Describes one command: its canonical name, the ordered kinds of the
/// arguments it must capture before it runs, and the handler the host runs
/// when it does. The handler is opaque to the core: the host supplies a
/// copyable value (a function pointer, an identifier) and receives it back
/// unchanged on invocation.
pub struct CommandDesc<H> {
    pub name: String,
    pub inputs: Vec<InputDesc>,
    pub handler: H,
}

impl<H: Copy> Clone for CommandDesc<H> {
    /// An equal descriptor: same name, same declared arguments, same
    /// handler.
    fn clone(&self) -> (res: Self)
        ensures
            res.name@ == self.name@,
            res.inputs@ == self.inputs@,
            res.handler == self.handler,
    {
        let name = self.name.clone();
        let mut inputs: Vec<InputDesc> = Vec::new();
        let mut i: usize = 0;
        while i < self.inputs.len()
            invariant
                i <= self.inputs.len(),
                inputs@ == self.inputs@.subrange(0, i as int),
            decreases self.inputs.len() - i,
        {
            inputs.push(self.inputs[i]);
            proof {
                assert(self.inputs@.subrange(0, i as int).push(self.inputs@[i as int])
                    =~= self.inputs@.subrange(0, i as int + 1));
            }
            i = i + 1;
        }
        proof {
            assert(self.inputs@.subrange(0, self.inputs@.len() as int) =~= self.inputs@);
        }
        CommandDesc { name, inputs, handler: self.handler }
    }
}

/// The value an association list yields for `key`: that of the latest entry
/// whose name reads `key`. A later entry thus overrides an earlier one
/// under the same name.
pub open spec fn assoc_find<V>(s: Seq<(String, V)>, key: Seq<char>) -> Option<V>
    decreases s.len(),
{
    if s.len() == 0 {
        None
    } else if s.last().0@ == key {
        Some(s.last().1)
    } else {
        assoc_find(s.drop_last(), key)
    }
}

/// The command registry: a mapping from canonical name to descriptor, and a
/// separate mapping from alias name to canonical name. It is populated once
/// at session start and read-only afterwards while commands are in flight.
pub struct CommandList<H> {
    alias: Vec<(String, String)>,
    commands: Vec<(String, CommandDesc<H>)>,
}

impl<H> CommandList<H> {
    /// The descriptor registered under canonical name `key`, if any.
    pub closed spec fn spec_command(self, key: Seq<char>) -> Option<CommandDesc<H>> {
        assoc_find(self.commands@, key)
    }

    /// The canonical name that `key` is an alias of, if any.
    pub closed spec fn spec_alias(self, key: Seq<char>) -> Option<Seq<char>> {
        match assoc_find(self.alias@, key) {
            Some(canonical) => Some(canonical@),
            None => None,
        }
    }

    /// What looking `key` up resolves to: a direct registration first, and
    /// otherwise exactly one step through the alias table. The single step
    /// reads the command mapping as it stands at lookup time, and an alias
    /// that names another alias resolves to nothing.
    pub open spec fn spec_get(self, key: Seq<char>) -> Option<CommandDesc<H>> {
        match self.spec_command(key) {
            Some(d) => Some(d),
            None => match self.spec_alias(key) {
                Some(canonical) => self.spec_command(canonical),
                None => None,
            },
        }
    }

    pub fn new() -> (r: Self)
        ensures
            forall|k: Seq<char>| r.spec_command(k) is None,
            forall|k: Seq<char>| r.spec_alias(k) is None,
    {
        CommandList { alias: Vec::new(), commands: Vec::new() }
    }

    /// Registers `value` under `key`, inserting or overwriting: the latest
    /// registration under a name is the one every later lookup sees, also
    /// through aliases of that name.
    pub fn add(&mut self, key: &str, value: CommandDesc<H>)
        ensures
            forall|k: Seq<char>|
                #![trigger final(self).spec_command(k)]
                final(self).spec_command(k) == if k == key@ {
                    Some(value)
                } else {
                    old(self).spec_command(k)
                },
            forall|k: Seq<char>|
                #![trigger final(self).spec_alias(k)]
                final(self).spec_alias(k) == old(self).spec_alias(k),
    {
        let ghost val = value;
        let owned = key.to_owned();
        self.commands.push((owned, value));
        proof {
            assert(self.commands@.drop_last() =~= old(self).commands@);
            assert forall|k: Seq<char>|
                self.spec_command(k) == (if k == key@ {
                    Some(val)
                } else {
                    old(self).spec_command(k)
                }) by {
                assert(self.commands@.last().1 == val);
            }
        }
    }

    /// Records `key` as an alias for canonical name `command`. The alias is
    /// resolved lazily at lookup time, not snapshotted: re-registering the
    /// canonical command later changes what the alias resolves to.
    pub fn alias(&mut self, key: &str, command: &str)
        ensures
            forall|k: Seq<char>|
                #![trigger final(self).spec_alias(k)]
                final(self).spec_alias(k) == if k == key@ {
                    Some(command@)
                } else {
                    old(self).spec_alias(k)
                },
            forall|k: Seq<char>|
                #![trigger final(self).spec_command(k)]
                final(self).spec_command(k) == old(self).spec_command(k),
    {
        let owned_key = key.to_owned();
        let owned_command = command.to_owned();
        self.alias.push((owned_key, owned_command));
        proof {
            assert(self.alias@.drop_last() =~= old(self).alias@);
            assert forall|k: Seq<char>|
                self.spec_alias(k) == (if k == key@ {
                    Some(command@)
                } else {
                    old(self).spec_alias(k)
                }) by {
                assert(self.alias@.last().1@ == command@);
            }
        }
    }

    /// Looks `key` up directly and, when that misses, once more as an
    /// alias. Absence is the normal result for an unknown name, never a
    /// fault.
    pub fn get(&self, key: &str) -> (r: Option<&CommandDesc<H>>)
        ensures
            match r {
                Some(d) => self.spec_get(key@) == Some(*d),
                None => self.spec_get(key@) is None,
            },
    {
        let owned = key.to_owned();
        let direct = Self::find_command(&self.commands, &owned);
        match direct {
            Some(d) => Some(d),
            None => match Self::find_alias(&self.alias, &owned) {
                Some(canonical) => Self::find_command(&self.commands, canonical),
                None => None,
            },
        }
    }

    /// Scans the command entries from the latest backwards for one whose
    /// name reads `key`.
    fn find_command<'a>(commands: &'a Vec<(String, CommandDesc<H>)>, key: &String) -> (r: Option<
        &'a CommandDesc<H>,
    >)
        ensures
            match r {
                Some(d) => assoc_find(commands@, key@) == Some(*d),
                None => assoc_find(commands@, key@) is None,
            },
    {
        proof {
            assert(commands@.subrange(0, commands@.len() as int) =~= commands@);
        }
        let mut i: usize = commands.len();
        while i > 0
            invariant
                i <= commands.len(),
                assoc_find(commands@, key@) == assoc_find(
                    commands@.subrange(0, i as int),
                    key@,
                ),
            decreases i,
        {
            i = i - 1;
            proof {
                assert(commands@.subrange(0, i as int + 1).last() == commands@[i as int]);
                assert(commands@.subrange(0, i as int + 1).drop_last() =~= commands@.subrange(
                    0,
                    i as int,
                ));
            }
            if commands[i].0 == *key {
                return Some(&commands[i].1);
            }
        }
        proof {
            assert(assoc_find(commands@.subrange(0, 0), key@) is None);
        }
        None
    }

    /// Scans the alias entries from the latest backwards for one whose name
    /// reads `key`.
    fn find_alias<'a>(alias: &'a Vec<(String, String)>, key: &String) -> (r: Option<&'a String>)
        ensures
            match r {
                Some(c) => assoc_find(alias@, key@) == Some(*c),
                None => assoc_find(alias@, key@) is None,
            },
    {
        proof {
            assert(alias@.subrange(0, alias@.len() as int) =~= alias@);
        }
        let mut i: usize = alias.len();
        while i > 0
            invariant
                i <= alias.len(),
                assoc_find(alias@, key@) == assoc_find(alias@.subrange(0, i as int), key@),
            decreases i,
        {
            i = i - 1;
            proof {
                assert(alias@.subrange(0, i as int + 1).last() == alias@[i as int]);
                assert(alias@.subrange(0, i as int + 1).drop_last() =~= alias@.subrange(
                    0,
                    i as int,
                ));
            }
            if alias[i].0 == *key {
                return Some(&alias[i].1);
            }
        }
        proof {
            assert(assoc_find(alias@.subrange(0, 0), key@) is None);
        }
        None
    }
}

/// Builds a [`CommandDesc`]. A name and a handler are required;
/// declared arguments are optional and accumulate in order. Calling
/// `build` without name or handler is a registration bug, not a runtime
/// condition, and is ruled out at the call site.
pub struct CommandDescBuilder<H> {
    name: Option<String>,
    inputs: Vec<InputDesc>,
    handler: Option<H>,
}

impl<H> CommandDescBuilder<H> {
    /// The name given so far.
    pub closed spec fn spec_name(self) -> Option<Seq<char>> {
        match self.name {
            Some(n) => Some(n@),
            None => None,
        }
    }

    /// The declared arguments given so far, in order.
    pub closed spec fn spec_inputs(self) -> Seq<InputDesc> {
        self.inputs@
    }

    /// The handler given so far.
    pub closed spec fn spec_handler(self) -> Option<H> {
        self.handler
    }

    pub fn new(name: &str) -> (r: Self)
        ensures
            r.spec_name() == Some(name@),
            r.spec_inputs().len() == 0,
            r.spec_handler() is None,
    {
        CommandDescBuilder { name: Some(name.to_owned()), inputs: Vec::new(), handler: None }
    }

    /// Declares one more argument, after those declared before.
    pub fn with_input(self, input: InputDesc) -> (r: Self)
        ensures
            r.spec_name() == self.spec_name(),
            r.spec_inputs() == self.spec_inputs().push(input),
            r.spec_handler() == self.spec_handler(),
    {
        let mut s = self;
        s.inputs.push(input);
        s
    }

    /// Supplies the handler the host will run for this command.
    pub fn with_function(self, func: H) -> (r: Self)
        ensures
            r.spec_name() == self.spec_name(),
            r.spec_inputs() == self.spec_inputs(),
            r.spec_handler() == Some(func),
    {
        let mut s = self;
        s.handler = Some(func);
        s
    }

    /// Finishes the descriptor. Requiring name and handler here makes the
    /// incomplete-build failure a condition the builder's caller can never
    /// reach.
    pub fn build(self) -> (r: CommandDesc<H>)
        requires
            self.spec_name() is Some,
            self.spec_handler() is Some,
        ensures
            Some(r.name@) == self.spec_name(),
            r.inputs@ == self.spec_inputs(),
            Some(r.handler) == self.spec_handler(),
    {
        let CommandDescBuilder { name, inputs, handler } = self;
        let name = match name {
            Some(n) => n,
            None => vstd::pervasive::unreached(),
        };
        let handler = match handler {
            Some(h) => h,
            None => vstd::pervasive::unreached(),
        };
        CommandDesc { name, inputs, handler }
    }
}

/// Alias indirection is single-hop: when `c` is not a command and its alias
/// entry names `b`, which is itself not a command (at most an alias),
/// looking `c` up resolves to nothing — aliases do not chain. Looking `b`
/// itself up still resolves through `b`'s own alias entry, if it has one.
pub proof fn lemma_alias_single_hop<H>(r: CommandList<H>, c: Seq<char>, b: Seq<char>)
    requires
        r.spec_command(c) is None,
        r.spec_alias(c) == Some(b),
        r.spec_command(b) is None,
    ensures
        r.spec_get(c) is None,
        r.spec_alias(b) matches Some(a) ==> r.spec_get(b) == r.spec_command(a),
{
}

/// Aliases are late-bound: after re-registering the canonical name `name`
/// with a new descriptor `d` — which is what `add`'s contract states of
/// `r2` relative to `r1` — an alias `x` of `name` resolves to `d`, not to
/// whatever stood under `name` when the alias was recorded.
pub proof fn lemma_alias_late_bound<H>(
    r1: CommandList<H>,
    r2: CommandList<H>,
    x: Seq<char>,
    name: Seq<char>,
    d: CommandDesc<H>,
)
    requires
        forall|k: Seq<char>|
            #![trigger r2.spec_command(k)]
            r2.spec_command(k) == if k == name {
                Some(d)
            } else {
                r1.spec_command(k)
            },
        forall|k: Seq<char>| r2.spec_alias(k) == r1.spec_alias(k),
        r1.spec_alias(x) == Some(name),
        r2.spec_command(x) is None,
    ensures
        r2.spec_get(x) == Some(d),
{
}

} // verus!
