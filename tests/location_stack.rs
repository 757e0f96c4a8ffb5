use culprit::{format_location_stack, StackLink, StaticLocation};

fn loc() -> StaticLocation {
    StaticLocation::new("src/location_stack.rs", 130, 19)
}

fn nodes() -> Vec<StackLink> {
    vec![
        StackLink::new("Node(0)".to_string(), loc()),
        StackLink::new("Node(1)".to_string(), loc()),
        StackLink::new("Node(2)".to_string(), loc()),
    ]
}

#[test]
fn test_format_location_stack() {
    let loc = loc().to_text();
    let output = format_location_stack(&nodes(), Some("TrivialError"), false);
    assert_eq!(
        output,
        format!(
            "0: Node(0) at {loc}\n\
            1: Node(1) at {loc}\n\
            2: Node(2) at {loc}\n\
            3: TrivialError",
        )
    );
}

#[test]
fn test_summarize_location_stack() {
    let loc = loc().to_text();
    let output = format_location_stack(&nodes(), Some("TrivialError"), true);
    assert_eq!(
        output,
        format!(
            "0: Node(0) at {loc}\n\
            1: Node(2) at {loc}\n\
            2: TrivialError",
        )
    );
}

#[test]
fn single_link_stack_with_and_without_source() {
    let one = vec![StackLink::new("Top".to_string(), StaticLocation::new("a.rs", 3, 4))];
    assert_eq!("0: Top at a.rs:3:4", format_location_stack(&one, None, false));
    assert_eq!("0: Top at a.rs:3:4", format_location_stack(&one, None, true));
    assert_eq!(
        "0: Top at a.rs:3:4\n1: io",
        format_location_stack(&one, Some("io"), true)
    );
}
