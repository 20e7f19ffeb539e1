//! The built-in command set of an editor session: `quit` (alias `exit`)
//! with no arguments, `line` (alias `l`) declaring two points, and `arc`
//! declaring three.

use vstd::prelude::*;

verus! {

use crate::resources::{CommandDescBuilder, CommandList, InputDesc};

/// Builds the session's command registry. The handlers themselves come
/// from the host; the registry records which handler belongs to which
/// name, which aliases resolve to it, and which arguments it declares.
pub fn register_commands<H: Copy>(quit: H, line: H, arc: H) -> (r: CommandList<H>)
    ensures
        r.spec_get("quit"@) matches Some(d) && d.name@ == "quit"@ && d.inputs@.len() == 0
            && d.handler == quit,
        r.spec_get("exit"@) == r.spec_get("quit"@),
        r.spec_get("line"@) matches Some(d) && d.name@ == "line"@ && d.inputs@ =~= seq![
            InputDesc::Point,
            InputDesc::Point,
        ] && d.handler == line,
        r.spec_get("l"@) == r.spec_get("line"@),
        r.spec_get("arc"@) matches Some(d) && d.name@ == "arc"@ && d.inputs@ =~= seq![
            InputDesc::Point,
            InputDesc::Point,
            InputDesc::Point,
        ] && d.handler == arc,
        r.spec_alias("exit"@) == Some("quit"@),
        r.spec_alias("l"@) == Some("line"@),
        forall|k: Seq<char>|
            #![trigger r.spec_command(k)]
            r.spec_command(k) is Some ==> k == "quit"@ || k == "line"@ || k == "arc"@,
        forall|k: Seq<char>|
            #![trigger r.spec_alias(k)]
            r.spec_alias(k) is Some ==> k == "exit"@ || k == "l"@,
{
    let mut commands = CommandList::new();
    proof {
        reveal_strlit("quit");
        reveal_strlit("exit");
        reveal_strlit("line");
        reveal_strlit("l");
        reveal_strlit("arc");
        assert("quit"@.len() == 4 && "exit"@.len() == 4 && "line"@.len() == 4 && "l"@.len() == 1
            && "arc"@.len() == 3);
        assert("quit"@[0] == 'q' && "exit"@[0] == 'e' && "line"@[0] == 'l');
    }
    let quit_desc = CommandDescBuilder::new("quit").with_function(quit).build();
    commands.add("quit", quit_desc);
    commands.alias("exit", "quit");
    let line_desc = CommandDescBuilder::new("line").with_function(line).with_input(
        InputDesc::Point,
    ).with_input(InputDesc::Point).build();
    commands.add("line", line_desc);
    commands.alias("l", "line");
    let arc_desc = CommandDescBuilder::new("arc").with_function(arc).with_input(
        InputDesc::Point,
    ).with_input(InputDesc::Point).with_input(InputDesc::Point).build();
    commands.add("arc", arc_desc);
    commands
}

} // verus!
