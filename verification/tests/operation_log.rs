use bus_mapping::Error;
use bus_mapping::evm::{Stack, StackAddress};
use bus_mapping::operation::{
    CallContextField, CallContextOp, Operation, OperationContainer, OperationRef, RW, StackOp,
    Target,
};
use bus_mapping::replay::replay_stack_write;
use bus_mapping::word::Word;

#[test]
fn container_appends_in_insertion_order() {
    let mut container = OperationContainer::new();
    let read = Operation {
        rwc: 1,
        rw: RW::READ,
        op: CallContextOp { call_id: 1, field: CallContextField::TxId, value: Word::one() },
    };
    let write = Operation {
        rwc: 2,
        rw: RW::WRITE,
        op: StackOp::new(1, StackAddress(1023), Word::from_u64(5)),
    };

    assert_eq!(container.insert_call_context(read), Ok(OperationRef(Target::CallContext, 0)));
    assert_eq!(container.insert_stack(write), Ok(OperationRef(Target::Stack, 0)));
    assert_eq!(container.call_context.len(), 1);
    assert_eq!(container.stack.len(), 1);
    assert_eq!(container.call_context[0], read);
    assert_eq!(container.stack[0], write);
}

#[test]
fn container_rejects_out_of_order_insertion() {
    let mut container = OperationContainer::new();
    let first = Operation {
        rwc: 5,
        rw: RW::WRITE,
        op: StackOp::new(1, StackAddress(1023), Word::from_u64(9)),
    };
    let stale = Operation {
        rwc: 5,
        rw: RW::WRITE,
        op: StackOp::new(1, StackAddress(1022), Word::from_u64(10)),
    };

    assert_eq!(container.insert_stack(first), Ok(OperationRef(Target::Stack, 0)));
    assert_eq!(container.insert_stack(stale), Err(Error::ContainerInvariant));
    // The rejected insertion changed nothing.
    assert_eq!(container.stack.len(), 1);
    assert_eq!(container.stack[0], first);
}

#[test]
fn replay_overwrites_a_filled_slot() {
    // With two values on the stack, the top rests at address 1022; a write
    // there replaces the top instead of pushing.
    let mut stack = Stack::from_vec(vec![Word::from_u64(1), Word::from_u64(2)]);
    let op = StackOp::new(1, StackAddress(1022), Word::from_u64(9));
    replay_stack_write(&mut stack, &op);
    assert_eq!(stack, Stack::from_vec(vec![Word::from_u64(1), Word::from_u64(9)]));
}

#[test]
fn word_values_are_exact() {
    assert_eq!(Word::from_u64(2_000_000_000u64), Word { lo: 2_000_000_000u128, hi: 0 });
    assert_eq!(Word::one(), Word::from_u64(1));
    assert_eq!(Word::zero(), Word::from_u64(0));
}

#[test]
fn stack_last_and_last_filled() {
    let empty = Stack::new();
    assert_eq!(empty.last(), Err(Error::StackUnderflow));
    assert_eq!(empty.last_filled(), StackAddress(1024));

    let one_deep = Stack::from_vec(vec![Word::from_u64(7)]);
    assert_eq!(one_deep.last(), Ok(Word::from_u64(7)));
    assert_eq!(one_deep.last_filled(), StackAddress(1023));

    let two_deep = Stack::from_vec(vec![Word::from_u64(7), Word::from_u64(8)]);
    assert_eq!(two_deep.last(), Ok(Word::from_u64(8)));
    assert_eq!(two_deep.last_filled(), StackAddress(1022));
}
