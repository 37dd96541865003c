use blind_box::blind_box::{
    build_open_blind_box, build_purchase_blind_box, AddBlindBoxOutputCells, BlindBoxArgs, BlindBoxConfig,
    BLIND_BOX_PRICE,
};
use blind_box::cell::{CellDep, CellOutput, DepType, LiveCell, OutPoint};
use blind_box::chain::ChainState;
use blind_box::error::{BuildError, OpError};
use blind_box::instruction::{Instruction, TransactionCalculator};
use blind_box::operation::Operation;
use blind_box::script::{Script, SearchMode};
use blind_box::verification::{
    CellView, ProxyLockContext, ScriptEnv, VerificationTree, Verifier, VerifyArgs, VerifyError,
    CUSTOM_ERROR_START,
};
use blind_box::workspace::Workspace;

const CKB: u64 = 100_000_000;

fn lock(arg: u8) -> Script {
    Script::new(vec![0x11; 32], 0, vec![arg])
}

fn series() -> Script {
    Script::new(vec![0xcc; 32], 1, vec![7, 7])
}

fn config() -> BlindBoxConfig {
    BlindBoxConfig { code_hash: vec![0xbb; 32], hash_type: 1, price: BLIND_BOX_PRICE, series: series() }
}

fn cell(tx: u8, capacity: u64, owner: Script) -> LiveCell {
    LiveCell::new(OutPoint::new(vec![tx; 32], 0), CellOutput::new(capacity, owner, None, Vec::new()))
}

fn chain(cells: Vec<LiveCell>) -> ChainState {
    ChainState { cells, simulated: false, fixture_lock: lock(0) }
}

fn args(count: u8, price: u64, buyer: Script) -> Vec<u8> {
    BlindBoxArgs { series_hash: series().hash(), purchase_count: count, price, buyer }.encode()
}

fn view(capacity: u64, owner: Script, type_hash: Option<Vec<u8>>) -> CellView {
    CellView { capacity, lock: owner, type_hash }
}

fn purchase_env(capacity: u64, payer: Script) -> ScriptEnv {
    ScriptEnv {
        args: args(2, 100, lock(0)),
        group_inputs: vec![],
        group_outputs: vec![view(capacity, lock(1), None)],
        inputs: vec![view(1000, payer, None)],
        outputs: vec![view(capacity, lock(1), None)],
    }
}

fn open_env(minted: usize) -> ScriptEnv {
    let mut outputs = Vec::new();
    for _ in 0..minted {
        outputs.push(view(0, lock(0), Some(series().hash())));
    }
    outputs.push(view(0, lock(9), Some(series().hash())));
    outputs.push(view(0, lock(0), None));
    ScriptEnv {
        args: args(5, 100, lock(0)),
        group_inputs: vec![view(500, lock(1), None)],
        group_outputs: vec![],
        inputs: vec![view(500, lock(1), None)],
        outputs,
    }
}

fn run(env: &ScriptEnv) -> Result<(), VerifyError> {
    VerificationTree::blind_box().run(env, 16)
}

#[test]
fn purchase_args_round_trip() {
    for count in [1u8, 2, 128, 255] {
        for price in [0u64, 1, BLIND_BOX_PRICE, u64::MAX] {
            let buyer = Script::new(vec![count; 32], 2, vec![1, 2, 3, count]);
            let bytes = args(count, price, buyer.duplicate());
            let back = BlindBoxArgs::decode(&bytes).expect("decodes");
            assert_eq!(back.purchase_count, count);
            assert_eq!(back.price, price);
            assert!(back.buyer.same_as(&buyer));
            assert_eq!(back.series_hash, series().hash());
        }
    }
}

#[test]
fn args_layout_is_fixed() {
    let bytes = args(3, 0x0102030405060708, lock(4));
    assert_eq!(&bytes[0..32], series().hash().as_slice());
    assert_eq!(bytes[32], 3);
    assert_eq!(&bytes[33..41], &[8, 7, 6, 5, 4, 3, 2, 1]);
    assert_eq!(&bytes[41..], lock(4).to_bytes().as_slice());
    assert_eq!(lock(4).to_bytes().len(), 54);
    assert_eq!(&lock(4).to_bytes()[0..4], &[54, 0, 0, 0]);
}

#[test]
fn truncated_args_are_rejected() {
    let bytes = args(3, 9, lock(4));
    assert!(BlindBoxArgs::decode(&bytes[..40]).is_none());
    assert!(BlindBoxArgs::decode(&bytes[..bytes.len() - 1]).is_none());
    let env = ScriptEnv { args: bytes[..40].to_vec(), ..purchase_env(200, lock(0)) };
    assert_eq!(run(&env), Err(VerifyError::BadArgs));
}

#[test]
fn purchase_accepted_at_exact_price() {
    assert_eq!(run(&purchase_env(200, lock(0))), Ok(()));
}

#[test]
fn purchase_one_short_is_insufficient_pay() {
    assert_eq!(run(&purchase_env(199, lock(0))), Err(VerifyError::InsufficientPay));
}

#[test]
fn purchase_without_buyer_input_has_no_payer() {
    assert_eq!(run(&purchase_env(200, lock(3))), Err(VerifyError::NoPayerFound));
}

#[test]
fn open_with_fewer_boxes_is_insufficient() {
    assert_eq!(run(&open_env(4)), Err(VerifyError::InsufficientOpen));
}

#[test]
fn open_with_all_boxes_is_accepted() {
    assert_eq!(run(&open_env(5)), Ok(()));
}

#[test]
fn ambiguous_shape_is_unknown_operation() {
    let mut both = purchase_env(200, lock(0));
    both.group_inputs.push(view(200, lock(1), None));
    assert_eq!(run(&both), Err(VerifyError::UnknownOperation));
    let mut neither = purchase_env(200, lock(0));
    neither.group_outputs.clear();
    assert_eq!(run(&neither), Err(VerifyError::UnknownOperation));
}

#[test]
fn name_table_gap_is_configuration_error() {
    let tree = VerificationTree::new(vec![
        ("root".to_string(), Verifier::Entry),
        ("purchase".to_string(), Verifier::Purchase),
    ]);
    assert_eq!(tree.run(&open_env(5), 16), Err(VerifyError::UnknownVerifier));
    assert_eq!(tree.run(&purchase_env(200, lock(0)), 16), Ok(()));
    let empty = VerificationTree::new(vec![]);
    assert_eq!(empty.run(&open_env(5), 16), Err(VerifyError::UnknownVerifier));
}

#[test]
fn step_budget_is_enforced() {
    assert_eq!(VerificationTree::blind_box().run(&open_env(5), 1), Err(VerifyError::CyclesExceeded));
    assert_eq!(VerificationTree::blind_box().run(&open_env(5), 2), Ok(()));
}

#[test]
fn purchase_node_needs_a_group_output() {
    let tree = VerificationTree::new(vec![("root".to_string(), Verifier::Purchase)]);
    let env = ScriptEnv { group_outputs: vec![], ..purchase_env(200, lock(0)) };
    assert_eq!(tree.run(&env, 16), Err(VerifyError::IndexOutOfBound));
}

#[test]
fn error_codes_start_at_custom_threshold() {
    assert_eq!(VerifyError::BadArgs.code(), CUSTOM_ERROR_START);
    assert_eq!(VerifyError::UnknownOperation.code(), CUSTOM_ERROR_START + 1);
    assert_eq!(VerifyError::InsufficientPay.code(), CUSTOM_ERROR_START + 2);
    assert_eq!(VerifyError::NoPayerFound.code(), CUSTOM_ERROR_START + 3);
    assert_eq!(VerifyError::InsufficientOpen.code(), CUSTOM_ERROR_START + 4);
    assert!(VerifyError::UnknownVerifier.code() < CUSTOM_ERROR_START);
}

#[test]
fn balance_covers_outputs_and_fee() {
    let payer = lock(0);
    let chain = chain(vec![
        cell(1, 100 * CKB, payer.duplicate()),
        cell(2, 100 * CKB, lock(5)),
        cell(3, 100 * CKB, payer.duplicate()),
        cell(4, 100 * CKB, payer.duplicate()),
    ]);
    let instr = Instruction::new(vec![
        Operation::AddOutputCell {
            lock: lock(7),
            type_script: None,
            data: vec![],
            capacity: 150 * CKB,
            absolute_capacity: true,
            type_id: false,
        },
        Operation::Balance { payer: payer.duplicate(), change_receiver: payer.duplicate(), fee_rate: 1000 },
    ]);
    let ws = TransactionCalculator::new(vec![instr]).run(&chain).expect("balanced");
    assert_eq!(ws.inputs().len(), 2);
    assert_eq!(ws.outputs().len(), 2);
    let fee = ws.size() * 1000 / 1000;
    assert_eq!(ws.input_capacity(), ws.output_capacity() + fee);
    assert_eq!(ws.outputs()[1].capacity, 200 * CKB - 150 * CKB - fee);
    assert!(ws.input_capacity() >= ws.output_capacity() + fee);
}

#[test]
fn balance_without_change_cell_leaves_remainder_as_fee() {
    let payer = lock(0);
    let chain = chain(vec![cell(1, 100 * CKB, payer.duplicate())]);
    let instr = Instruction::new(vec![
        Operation::AddOutputCell {
            lock: lock(7),
            type_script: None,
            data: vec![],
            capacity: 99 * CKB,
            absolute_capacity: true,
            type_id: false,
        },
        Operation::Balance { payer: payer.duplicate(), change_receiver: payer, fee_rate: 1000 },
    ]);
    let ws = TransactionCalculator::new(vec![instr]).run(&chain).expect("balanced");
    assert_eq!(ws.outputs().len(), 1);
    assert!(ws.input_capacity() >= ws.output_capacity() + ws.size());
}

#[test]
fn balance_without_funds_is_imbalanced() {
    let chain = chain(vec![cell(1, 100 * CKB, lock(0))]);
    let instr = Instruction::new(vec![
        Operation::AddOutputCell {
            lock: lock(7),
            type_script: None,
            data: vec![],
            capacity: 150 * CKB,
            absolute_capacity: true,
            type_id: false,
        },
        Operation::Balance { payer: lock(0), change_receiver: lock(0), fee_rate: 1000 },
    ]);
    let r = TransactionCalculator::new(vec![instr]).run(&chain);
    assert_eq!(
        r.err(),
        Some(BuildError { instruction: 0, operation: 1, error: OpError::ImbalancedTransaction })
    );
}

fn sample_ops(tag: u8) -> Vec<Operation> {
    vec![
        Operation::AddCellDep { dep: CellDep::new(OutPoint::new(vec![tag; 32], 1), DepType::Code) },
        Operation::AddOutputCell {
            lock: lock(tag),
            type_script: None,
            data: vec![tag],
            capacity: 0,
            absolute_capacity: false,
            type_id: false,
        },
    ]
}

#[test]
fn merged_instruction_runs_like_both_in_turn() {
    let chain = chain(vec![]);
    let mut a = Instruction::new(sample_ops(1));
    a.merge(Instruction::new(sample_ops(2)));
    let merged = TransactionCalculator::new(vec![a]).run(&chain).expect("merged");
    let separate = TransactionCalculator::new(vec![Instruction::new(sample_ops(1)), Instruction::new(sample_ops(2))])
        .run(&chain)
        .expect("separate");
    assert_eq!(merged.outputs().len(), 2);
    assert_eq!(merged.cell_deps().len(), 2);
    assert_eq!(merged.size(), separate.size());
    assert_eq!(merged.output_capacity(), separate.output_capacity());
    for i in 0..2 {
        assert!(merged.outputs()[i].lock.same_as(&separate.outputs()[i].lock));
        assert_eq!(merged.outputs()[i].data, separate.outputs()[i].data);
        assert_eq!(merged.outputs()[i].capacity, separate.outputs()[i].capacity);
    }
}

#[test]
fn footprint_capacity_is_computed() {
    let chain = chain(vec![]);
    let ws = TransactionCalculator::new(vec![Instruction::new(sample_ops(3))]).run(&chain).expect("ok");
    // 8 bytes of capacity, 34 of lock, 1 of data
    assert_eq!(ws.outputs()[0].capacity, 43 * CKB);
}

#[test]
fn duplicate_cell_dep_is_added_once() {
    let dep = || Operation::AddCellDep { dep: CellDep::new(OutPoint::new(vec![5; 32], 0), DepType::DepGroup) };
    let ws = TransactionCalculator::new(vec![Instruction::new(vec![dep(), dep()])])
        .run(&chain(vec![]))
        .expect("ok");
    assert_eq!(ws.cell_deps().len(), 1);
}

#[test]
fn input_query_takes_first_matches_and_fails_when_short() {
    let chain = chain(vec![cell(1, 10, lock(0)), cell(2, 20, lock(1)), cell(3, 30, lock(0))]);
    let q = |count: usize| Operation::AddInputCell { lock: lock(0), type_script: None, count, mode: SearchMode::Exact };
    let ws = TransactionCalculator::new(vec![Instruction::new(vec![q(2)])]).run(&chain).expect("two");
    assert_eq!(ws.input_capacity(), 40);
    let r = TransactionCalculator::new(vec![Instruction::new(vec![q(3)])]).run(&chain);
    assert_eq!(r.err().map(|e| e.error), Some(OpError::InsufficientCells));
    let prefix = Operation::AddInputCell {
        lock: Script::new(vec![0x11; 32], 0, vec![]),
        type_script: None,
        count: 3,
        mode: SearchMode::Prefix,
    };
    let ws = TransactionCalculator::new(vec![Instruction::new(vec![prefix])]).run(&chain).expect("prefix");
    assert_eq!(ws.input_capacity(), 60);
}

#[test]
fn operation_errors_are_reported() {
    let chain = chain(vec![cell(1, 10, lock(0))]);
    let fail = |op: Operation| TransactionCalculator::new(vec![Instruction::new(vec![op])]).run(&chain).err().map(|e| e.error);
    assert_eq!(
        fail(Operation::AddOutputCell {
            lock: lock(1),
            type_script: None,
            data: vec![],
            capacity: 1,
            absolute_capacity: true,
            type_id: false
        }),
        Some(OpError::InsufficientCapacity)
    );
    assert_eq!(
        fail(Operation::AddOutputCell {
            lock: Script::new(vec![1; 3], 0, vec![]),
            type_script: None,
            data: vec![],
            capacity: 0,
            absolute_capacity: false,
            type_id: false
        }),
        Some(OpError::MalformedScript)
    );
    assert_eq!(
        fail(Operation::AddOutputCell {
            lock: lock(1),
            type_script: None,
            data: vec![],
            capacity: 0,
            absolute_capacity: false,
            type_id: true
        }),
        Some(OpError::NoInputForTypeId)
    );
    assert_eq!(
        fail(Operation::AddOutputCellByInputIndex {
            input_index: 0,
            data: None,
            lock: None,
            type_script: None,
            adjust_capacity: true
        }),
        Some(OpError::InputIndexOutOfRange)
    );
    assert_eq!(
        fail(Operation::AddInputCellByOutPoint { out_point: OutPoint::new(vec![9; 32], 0) }),
        Some(OpError::CellNotFound)
    );
    assert_eq!(fail(Operation::AddSignature { signer: lock(0), signature: vec![1] }), Some(OpError::NoSignerInput));
    assert_eq!(
        fail(Operation::AddBlindBoxOutputCells(AddBlindBoxOutputCells { config: config(), purchase_cell_index: 0 })),
        Some(OpError::NoPurchaseCell)
    );
}

#[test]
fn purchase_cell_without_blind_box_args_is_bad_args() {
    let chain = chain(vec![cell(1, 10, lock(0))]);
    let ops = vec![
        Operation::AddInputCellByOutPoint { out_point: OutPoint::new(vec![1; 32], 0) },
        Operation::AddBlindBoxOutputCells(AddBlindBoxOutputCells { config: config(), purchase_cell_index: 0 }),
    ];
    let r = TransactionCalculator::new(vec![Instruction::new(ops)]).run(&chain);
    assert_eq!(r.err(), Some(BuildError { instruction: 0, operation: 1, error: OpError::BadArgs }));
}

#[test]
fn type_id_is_derived_from_first_input() {
    let chain = chain(vec![cell(1, 1000 * CKB, lock(0))]);
    let ops = vec![
        Operation::AddInputCellByOutPoint { out_point: OutPoint::new(vec![1; 32], 0) },
        Operation::AddOutputCell {
            lock: lock(1),
            type_script: None,
            data: vec![],
            capacity: 0,
            absolute_capacity: false,
            type_id: true,
        },
    ];
    let ws = TransactionCalculator::new(vec![Instruction::new(ops)]).run(&chain).expect("type id");
    let t = ws.outputs()[0].type_script.as_ref().expect("typed");
    let mut preimage = vec![0u8; 8];
    preimage.extend_from_slice(&[1; 32]);
    preimage.extend_from_slice(&[0, 0, 0, 0]);
    preimage.extend_from_slice(&[0; 8]);
    assert_eq!(t.args, ckb_hash::blake2b_256(&preimage).to_vec());
    assert_eq!(&t.code_hash[25..], b"TYPE_ID");
    assert_eq!(t.hash_type, 1);
}

#[test]
fn signature_lands_in_signer_witness() {
    let chain = chain(vec![cell(1, 10, lock(3)), cell(2, 10, lock(4))]);
    let ops = vec![
        Operation::AddInputCellByOutPoint { out_point: OutPoint::new(vec![1; 32], 0) },
        Operation::AddInputCellByOutPoint { out_point: OutPoint::new(vec![2; 32], 0) },
        Operation::AddSignature { signer: lock(4), signature: vec![9, 9] },
    ];
    let ws = TransactionCalculator::new(vec![Instruction::new(ops)]).run(&chain).expect("signed");
    assert_eq!(ws.witnesses(), &vec![vec![], vec![9, 9]]);
}

#[test]
fn script_hash_is_ledger_hash_of_serialised_script() {
    let s = series();
    assert_eq!(s.hash(), ckb_hash::blake2b_256(s.to_bytes()).to_vec());
    assert_ne!(s.hash(), s.to_bytes());
    assert_eq!(s.hash().len(), 32);
}

#[test]
fn open_builder_mints_recorded_count_for_buyer() {
    let sim = ChainState { cells: vec![], simulated: true, fixture_lock: lock(0) };
    let ws = TransactionCalculator::new(vec![build_open_blind_box(None, config(), lock(1))])
        .run(&sim)
        .expect("open");
    assert_eq!(ws.inputs().len(), 1);
    assert_eq!(ws.outputs().len(), 5);
    for o in ws.outputs() {
        assert!(o.lock.same_as(&lock(0)));
        assert!(o.type_script.as_ref().expect("series").same_as(&series()));
    }
    assert_eq!(ws.cell_deps().len(), 1);
}

#[test]
fn purchase_builder_records_price_times_count() {
    let ws = TransactionCalculator::new(vec![build_purchase_blind_box(None, config(), 3, lock(0), lock(1))])
        .run(&chain(vec![]))
        .expect("purchase");
    let out = &ws.outputs()[0];
    assert_eq!(out.capacity, 3 * BLIND_BOX_PRICE);
    assert!(out.lock.same_as(&lock(1)));
    let t = out.type_script.as_ref().expect("typed");
    assert_eq!(t.code_hash, vec![0xbb; 32]);
    let back = BlindBoxArgs::decode(&t.args).expect("layout");
    assert_eq!(back.purchase_count, 3);
    assert!(back.buyer.same_as(&lock(0)));
}

#[test]
fn purchase_then_open_round_trip_through_chain() {
    let buyer = lock(0);
    let server = lock(1);
    let funds = chain(vec![cell(1, 10_000 * CKB, buyer.duplicate())]);
    let purchase = build_purchase_blind_box(None, config(), 2, buyer.duplicate(), server.duplicate());
    let ws = TransactionCalculator::new(vec![
        Instruction::new(vec![Operation::AddInputCell {
            lock: buyer.duplicate(),
            type_script: None,
            count: 1,
            mode: SearchMode::Exact,
        }]),
        purchase,
    ])
    .run(&funds)
    .expect("purchase");
    let bought = ws.outputs()[0].duplicate();
    let after = chain(vec![LiveCell::new(OutPoint::new(vec![0x42; 32], 0), bought)]);
    let ws2 = TransactionCalculator::new(vec![build_open_blind_box(None, config(), server)])
        .run(&after)
        .expect("open");
    assert_eq!(ws2.outputs().len(), 2);
    let script = ws2.inputs()[0].output.type_script.as_ref().expect("typed").duplicate();
    assert_eq!(run(&ScriptEnv::from_workspace(&ws2, &script)), Ok(()));
}

#[test]
fn simple_lock_needs_thirty_two_arg_bytes() {
    let mut ctx = ProxyLockContext { args: vec![] };
    let short = ScriptEnv { args: vec![1; 31], ..purchase_env(200, lock(0)) };
    assert_eq!(VerifyArgs {}.verify(&short, &mut ctx), Err(VerifyError::BadArgs));
    assert!(ctx.args.is_empty());
    let long = ScriptEnv { args: vec![2; 32], ..purchase_env(200, lock(0)) };
    assert_eq!(VerifyArgs {}.verify(&long, &mut ctx), Ok(None));
    assert_eq!(ctx.args, vec![2; 32]);
}
