use web3api::msgpack::context::Context;
use web3api::msgpack::utils::{throw_index_out_of_range, throw_invalid_length};
use web3api::msgpack::{E_INDEX_OUT_OF_RANGE, E_INVALID_LENGTH};

#[test]
fn a_new_context_is_empty() {
    let context = Context::new();
    assert!(context.is_empty());
    assert_eq!(context.get_length(), 0);
    assert_eq!(context.print_with_context("message"), "message");
    assert!(Context::default().is_empty());
}

#[test]
fn push_and_pop_are_a_stack() {
    let mut context = Context::new();
    context.push("outer");
    context.push("inner");
    assert!(!context.is_empty());
    assert_eq!(context.get_length(), 2);
    assert_eq!(context.pop(), Some("inner".to_string()));
    assert_eq!(context.get_length(), 1);
    assert_eq!(context.pop(), Some("outer".to_string()));
    assert_eq!(context.pop(), None);
    assert!(context.is_empty());
}

#[test]
fn print_with_context_lists_the_innermost_first() {
    let mut context = Context::new();
    context.push("a");
    assert_eq!(context.print_with_context("m"), "m\n  at a");
    context.push("b");
    context.push("");
    assert_eq!(context.print_with_context("m"), "m\n  at \n  at b\n  at a");
    assert_eq!(context.print_with_context(""), "\n  at \n  at b\n  at a");
    assert_eq!(context.get_length(), 3);
}

#[test]
fn a_cloned_context_keeps_its_labels() {
    let mut context = Context::new();
    context.push("outer");
    context.push("inner");
    let mut copy = context.clone();
    assert_eq!(copy.print_with_context("m"), "m\n  at inner\n  at outer");
    assert_eq!(copy.pop(), Some("inner".to_string()));
    assert_eq!(context.get_length(), 2);
    assert_eq!(copy.get_length(), 1);
}

#[test]
fn the_fault_names_are_fixed() {
    assert_eq!(E_INVALID_LENGTH, "Invalid length");
    assert_eq!(E_INDEX_OUT_OF_RANGE, "Index out of range");
}

#[test]
fn invalid_length_message() {
    let context = Context::new();
    assert_eq!(
        throw_invalid_length(&context, 0, 10, 1234567890),
        "DataView::new(): Invalid length [ byte_length: 0 byte_offset: 10 buffer.byte_length: 1234567890 ]"
    );
    assert_eq!(
        throw_invalid_length(&context, usize::MAX, 9, 99),
        format!(
            "DataView::new(): Invalid length [ byte_length: {} byte_offset: 9 buffer.byte_length: 99 ]",
            usize::MAX
        )
    );
}

#[test]
fn index_out_of_range_message() {
    let mut context = Context::new();
    assert_eq!(
        throw_index_out_of_range(&context, "get_u16", 2, 7, 8),
        "get_u16: Index out of range [ length: 2 byte_offset: 7 byte_length: 8 ]"
    );
    context.push("entry");
    assert_eq!(
        throw_index_out_of_range(&context, "set_bytes", 1000, 100, 101),
        "set_bytes: Index out of range [ length: 1000 byte_offset: 100 byte_length: 101 ]\n  at entry"
    );
}

#[test]
fn numbers_in_messages_are_decimal() {
    let context = Context::new();
    for value in [0i128, 9, 10, 11, 99, 100, 101, 4096, 1 << 64, i128::MAX, -1, -10, -109, i128::MIN] {
        assert_eq!(
            throw_index_out_of_range(&context, "m", value, 0, 0),
            format!("m: Index out of range [ length: {} byte_offset: 0 byte_length: 0 ]", value)
        );
    }
}
