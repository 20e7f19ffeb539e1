use pretender::resources::{CommandDescBuilder, CommandList, InputDesc};

fn descriptor(name: &str, handler: u32, inputs: &[InputDesc]) -> pretender::resources::CommandDesc<u32> {
    let mut builder = CommandDescBuilder::new(name).with_function(handler);
    for input in inputs {
        builder = builder.with_input(*input);
    }
    builder.build()
}

#[test]
fn get_finds_registered_command() {
    let mut registry: CommandList<u32> = CommandList::new();
    registry.add("line", descriptor("line", 1, &[InputDesc::Point, InputDesc::Point]));
    let found = registry.get("line").expect("line is registered");
    assert_eq!(found.name, "line");
    assert_eq!(found.inputs, vec![InputDesc::Point, InputDesc::Point]);
    assert_eq!(found.handler, 1);
}

#[test]
fn get_unknown_name_is_absent() {
    let mut registry: CommandList<u32> = CommandList::new();
    registry.add("line", descriptor("line", 1, &[]));
    assert!(registry.get("circle").is_none());
    assert!(CommandList::<u32>::new().get("line").is_none());
}

#[test]
fn add_overwrites_last_write_wins() {
    let mut registry: CommandList<u32> = CommandList::new();
    registry.add("cmd", descriptor("cmd", 1, &[]));
    registry.add("cmd", descriptor("cmd", 2, &[InputDesc::Select]));
    let found = registry.get("cmd").expect("cmd is registered");
    assert_eq!(found.handler, 2);
    assert_eq!(found.inputs, vec![InputDesc::Select]);
}

#[test]
fn alias_resolves_to_canonical_command() {
    let mut registry: CommandList<u32> = CommandList::new();
    registry.add("quit", descriptor("quit", 9, &[]));
    registry.alias("exit", "quit");
    let found = registry.get("exit").expect("exit resolves through quit");
    assert_eq!(found.name, "quit");
    assert_eq!(found.handler, 9);
}

#[test]
fn alias_indirection_is_single_hop() {
    let mut registry: CommandList<u32> = CommandList::new();
    registry.add("a", descriptor("a", 1, &[]));
    registry.alias("b", "a");
    registry.alias("c", "b");
    // "b" resolves to whatever "a" names; "c" points at an alias and gets nothing
    assert_eq!(registry.get("b").expect("one hop resolves").handler, 1);
    assert!(registry.get("c").is_none());
}

#[test]
fn alias_is_late_bound() {
    let mut registry: CommandList<u32> = CommandList::new();
    registry.add("cmd", descriptor("cmd", 1, &[]));
    registry.alias("x", "cmd");
    assert_eq!(registry.get("x").expect("alias resolves").handler, 1);
    registry.add("cmd", descriptor("cmd", 2, &[]));
    // the alias was not snapshotted: it now sees the re-registered command
    assert_eq!(registry.get("x").expect("alias resolves anew").handler, 2);
}

#[test]
fn direct_name_beats_alias() {
    let mut registry: CommandList<u32> = CommandList::new();
    registry.add("a", descriptor("a", 1, &[]));
    registry.add("b", descriptor("b", 2, &[]));
    registry.alias("b", "a");
    // "b" is itself registered, so the alias entry is never consulted
    assert_eq!(registry.get("b").expect("direct hit").handler, 2);
}

#[test]
fn builder_accumulates_inputs_in_order() {
    let desc = CommandDescBuilder::new("arc")
        .with_function(7u32)
        .with_input(InputDesc::Point)
        .with_input(InputDesc::Select)
        .with_input(InputDesc::Multiselect)
        .build();
    assert_eq!(desc.name, "arc");
    assert_eq!(desc.inputs, vec![InputDesc::Point, InputDesc::Select, InputDesc::Multiselect]);
    assert_eq!(desc.handler, 7);
}

#[test]
fn descriptor_clone_is_equal() {
    let desc = descriptor("line", 3, &[InputDesc::Point, InputDesc::Point]);
    let copy = desc.clone();
    assert_eq!(copy.name, desc.name);
    assert_eq!(copy.inputs, desc.inputs);
    assert_eq!(copy.handler, desc.handler);
}
