use bus_mapping::Error;
use bus_mapping::circuit_input_builder::{Call, CircuitInputStateRef, ExecState, TransactionContext};
use bus_mapping::evm::{GethExecStep, OpcodeId, Stack, StackAddress};
use bus_mapping::opcodes::GasPrice;
use bus_mapping::operation::{CallContextField, CallContextOp, OperationRef, RW, StackOp, Target};
use bus_mapping::replay::replay_stack_write;
use bus_mapping::word::Word;

fn state_with_one_call(tx_id: u64, call_id: u64) -> CircuitInputStateRef {
    CircuitInputStateRef::new(TransactionContext::new(tx_id), vec![Call { call_id }])
}

fn gasprice_program_steps(gas_price: Word) -> Vec<GethExecStep> {
    vec![
        GethExecStep { op: OpcodeId::GASPRICE, pc: 0, gas: 100_000, stack: Stack::new() },
        GethExecStep {
            op: OpcodeId::STOP,
            pc: 1,
            gas: 98_000,
            stack: Stack::from_vec(vec![gas_price]),
        },
    ]
}

#[test]
fn gasprice_opcode_impl() -> Result<(), Error> {
    // A transaction with gas price two gwei, executing GASPRICE then STOP.
    let two_gwei: Word = Word::from_u64(2_000_000_000u64);
    let call_id: u64 = 1;
    let mut state = state_with_one_call(1, call_id);
    let steps = gasprice_program_steps(two_gwei);

    let records = GasPrice::gen_associated_ops(&mut state, &steps)?;

    let step = records
        .iter()
        .find(|step| step.exec_state == ExecState::Op(OpcodeId::GASPRICE))
        .unwrap();

    let op_gasprice = &state.container.stack[step.bus_mapping_instance[1].as_usize()];
    assert_eq!(
        (op_gasprice.rw(), op_gasprice.op()),
        (RW::WRITE, &StackOp::new(1, StackAddress(1023usize), two_gwei))
    );

    let operation = &state.container.call_context[step.bus_mapping_instance[0].as_usize()];
    assert_eq!(
        (operation.rw(), operation.op()),
        (
            RW::READ,
            &CallContextOp { call_id, field: CallContextField::TxId, value: Word::one() }
        )
    );

    Ok(())
}

#[test]
fn gasprice_produces_two_operations_in_fixed_order() {
    // The fixed per-instruction order: first the context-field read of the
    // transaction ordinal, then the stack write of the observed value.
    let price: Word = Word::from_u64(7u64);
    let mut state = state_with_one_call(3, 9);
    let steps = gasprice_program_steps(price);

    let records = GasPrice::gen_associated_ops(&mut state, &steps).unwrap();
    assert_eq!(records.len(), 1);
    let refs = &records[0].bus_mapping_instance;
    assert_eq!(refs.len(), 2);
    assert_eq!(refs[0], OperationRef(Target::CallContext, 0));
    assert_eq!(refs[1], OperationRef(Target::Stack, 0));

    assert_eq!(state.container.call_context.len(), 1);
    assert_eq!(state.container.stack.len(), 1);
    let read = &state.container.call_context[0];
    let write = &state.container.stack[0];
    assert!(read.rwc() < write.rwc());
    assert_eq!(read.rw(), RW::READ);
    assert_eq!(read.op().field, CallContextField::TxId);
    assert_eq!(read.op().value, Word::from_u64(3));
    assert_eq!(read.op().call_id, 9);
    assert_eq!(write.rw(), RW::WRITE);
    assert_eq!(write.op().address, StackAddress(1023));
    assert_eq!(write.op().value, price);
    assert_eq!(write.op().call_id, 9);
}

#[test]
fn gasprice_missing_following_step_fails() {
    // The window omits the step after the instruction: no post-execution
    // stack snapshot exists, so the handler fails and appends nothing.
    let mut state = state_with_one_call(1, 1);
    let steps = vec![GethExecStep {
        op: OpcodeId::GASPRICE,
        pc: 0,
        gas: 100_000,
        stack: Stack::new(),
    }];

    let r = GasPrice::gen_associated_ops(&mut state, &steps);
    assert_eq!(r, Err(Error::InvalidGethExecTrace));
    assert!(state.container.stack.is_empty());
    assert!(state.container.call_context.is_empty());
}

#[test]
fn gasprice_following_stack_empty_fails() {
    // The following snapshot exists but its stack holds no value to observe.
    let mut state = state_with_one_call(1, 1);
    let steps = vec![
        GethExecStep { op: OpcodeId::GASPRICE, pc: 0, gas: 100_000, stack: Stack::new() },
        GethExecStep { op: OpcodeId::STOP, pc: 1, gas: 98_000, stack: Stack::new() },
    ];

    let r = GasPrice::gen_associated_ops(&mut state, &steps);
    assert_eq!(r, Err(Error::StackUnderflow));
    assert!(state.container.stack.is_empty());
    assert!(state.container.call_context.is_empty());
}

#[test]
fn gasprice_no_current_call_fails() {
    // A trace context with no executing call frame rejects the step.
    let mut state = CircuitInputStateRef::new(TransactionContext::new(1), vec![]);
    let steps = gasprice_program_steps(Word::from_u64(5));

    let r = GasPrice::gen_associated_ops(&mut state, &steps);
    assert_eq!(r, Err(Error::InvalidGethExecStep));
    assert!(state.container.stack.is_empty());
    assert!(state.container.call_context.is_empty());
}

#[test]
fn gasprice_handler_is_deterministic() {
    // Identical raw-step input and trace-context state give identical
    // output on repeated invocation.
    let price: Word = Word::from_u64(42u64);
    let mut state_a = state_with_one_call(2, 5);
    let mut state_b = state_with_one_call(2, 5);
    let steps = gasprice_program_steps(price);

    let records_a = GasPrice::gen_associated_ops(&mut state_a, &steps).unwrap();
    let records_b = GasPrice::gen_associated_ops(&mut state_b, &steps).unwrap();

    assert_eq!(records_a, records_b);
    assert_eq!(state_a, state_b);
}

#[test]
fn gasprice_rerun_preserves_operation_order() {
    // Re-running construction over the same input never changes the relative
    // order of the operations recorded for the instruction occurrence.
    let price: Word = Word::from_u64(11u64);
    let mut orders: Vec<Vec<(Target, usize)>> = Vec::new();
    for _ in 0..2 {
        let mut state = state_with_one_call(1, 1);
        let steps = gasprice_program_steps(price);
        let records = GasPrice::gen_associated_ops(&mut state, &steps).unwrap();
        orders.push(
            records[0]
                .bus_mapping_instance
                .iter()
                .map(|oref| (oref.0, oref.1))
                .collect(),
        );
    }
    assert_eq!(orders[0], orders[1]);
    assert_eq!(orders[0], vec![(Target::CallContext, 0), (Target::Stack, 0)]);
}

#[test]
fn gasprice_replay_reproduces_observed_values() {
    // Replaying the recorded operation log against the pre-instruction
    // snapshot reproduces the values the raw trace shows after execution.
    let price: Word = Word::from_u64(2_000_000_000u64);
    let tx_id: u64 = 1;
    let mut state = state_with_one_call(tx_id, 1);
    let steps = gasprice_program_steps(price);

    GasPrice::gen_associated_ops(&mut state, &steps).unwrap();

    let mut replayed = steps[0].stack.clone();
    replay_stack_write(&mut replayed, state.container.stack[0].op());
    assert_eq!(replayed, steps[1].stack);

    let read = &state.container.call_context[0];
    assert_eq!(read.op().value, Word::from_u64(tx_id));
}
