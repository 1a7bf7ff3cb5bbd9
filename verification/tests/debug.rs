use threadid::debug::{push_decimal, DebugThreadId};
use threadid::UniqueThreadId;

fn decimal(n: u64) -> String {
    let mut out = String::new();
    push_decimal(&mut out, n);
    out
}

#[test]
fn decimal_digits_match_the_standard_formatting() {
    for n in [0, 1, 9, 10, 11, 99, 100, 101, 12345, 1_000_000, u64::MAX - 1, u64::MAX] {
        assert_eq!(decimal(n), format!("{}", n));
    }
    assert_eq!(decimal(u64::MAX), "18446744073709551615");
}

#[test]
fn decimal_digits_are_appended() {
    let mut out = String::from("id ");
    push_decimal(&mut out, 4072);
    assert_eq!(out, "id 4072");
}

#[test]
fn unnamed_thread_shows_its_identifier() {
    let id = DebugThreadId::new(UniqueThreadId::from_int(17), None);
    assert_eq!(id.name(), None);
    assert_eq!(id.id().to_int(), 17);
    assert_eq!(id.to_display_string(), "17");
    assert_eq!(id.to_debug_string(), "ThreadId(17)");
}

#[test]
fn named_thread_shows_its_quoted_name() {
    let id = DebugThreadId::new(UniqueThreadId::from_int(3), Some(String::from("worker")));
    assert_eq!(id.name(), Some("worker"));
    assert_eq!(id.id(), UniqueThreadId::from_int(3));
    assert_eq!(id.to_display_string(), "3(\"worker\")");
    assert_eq!(id.to_debug_string(), "ThreadId(3, \"worker\")");
}

#[test]
fn name_is_escaped_as_a_string_literal() {
    let id = DebugThreadId::new(UniqueThreadId::from_int(8), Some(String::from("a\"b\n")));
    assert_eq!(id.to_display_string(), "8(\"a\\\"b\\n\")");
    assert_eq!(id.to_debug_string(), "ThreadId(8, \"a\\\"b\\n\")");
}

#[test]
fn forms_are_composed_from_their_parts() {
    assert_eq!(DebugThreadId::compose_display(250, None), "250");
    assert_eq!(DebugThreadId::compose_display(250, Some("<n>")), "250(<n>)");
    assert_eq!(DebugThreadId::compose_debug(250, None), "ThreadId(250)");
    assert_eq!(DebugThreadId::compose_debug(250, Some("<n>")), "ThreadId(250, <n>)");
}

#[test]
fn clone_keeps_both_parts() {
    let id = DebugThreadId::new(UniqueThreadId::from_int(5), Some(String::from("main")));
    let copy = id.clone();
    assert_eq!(copy.name(), Some("main"));
    assert_eq!(copy.id(), id.id());
}
