use blind_box::blind_box::{build_open_blind_box, build_purchase_blind_box, BlindBoxConfig, BLIND_BOX_PRICE};
use blind_box::cell::{CellDep, CellOutput, DepType, LiveCell, OutPoint};
use blind_box::chain::ChainState;
use blind_box::instruction::{Instruction, TransactionCalculator};
use blind_box::operation::Operation;
use blind_box::script::{Script, SearchMode};
use blind_box::verification::{ScriptEnv, VerificationTree};

const MAX_STEPS: usize = 16;

fn always_success(arg: u8) -> Script {
    Script::new(vec![0x11; 32], 0, vec![arg])
}

fn config() -> BlindBoxConfig {
    BlindBoxConfig {
        code_hash: vec![0xbb; 32],
        hash_type: 1,
        price: BLIND_BOX_PRICE,
        series: Script::new(vec![0xcc; 32], 1, vec![7, 7]),
    }
}

fn fake_chain() -> ChainState {
    ChainState {
        cells: vec![LiveCell::new(
            OutPoint::new(vec![0x01; 32], 0),
            CellOutput::new(10_000 * 100_000_000, always_success(0), None, Vec::new()),
        )],
        simulated: true,
        fixture_lock: always_success(0),
    }
}

fn always_success_dep() -> Operation {
    Operation::AddCellDep { dep: CellDep::new(OutPoint::new(vec![0x22; 32], 0), DepType::Code) }
}

// Test the blind box purchase operation, using the predefined instructions of the library
#[test]
fn test_purchase_blind_box() {
    let chain = fake_chain();
    let prepare = Instruction::new(vec![
        always_success_dep(),
        Operation::AddInputCell {
            lock: always_success(0),
            type_script: None,
            count: 1,
            mode: SearchMode::Exact,
        },
    ]);
    let purchase = build_purchase_blind_box(None, config(), 1, always_success(0), always_success(1));
    let ws = TransactionCalculator::new(vec![prepare, purchase])
        .run(&chain)
        .expect("partial build");
    let script = ws.outputs()[0].type_script.as_ref().expect("fake").duplicate();
    let env = ScriptEnv::from_workspace(&ws, &script);
    let result = VerificationTree::blind_box().run(&env, MAX_STEPS);
    assert_eq!(result, Ok(()), "pass");
    println!("consume cycles: {}", ws.size());
}

/// Test the blind box open operation, using the predefined instructions of the library
#[test]
fn test_open_blind_box() {
    let chain = fake_chain();
    let prepare = Instruction::new(vec![always_success_dep()]);
    let open = build_open_blind_box(None, config(), always_success(1));
    let ws = TransactionCalculator::new(vec![prepare, open])
        .run(&chain)
        .expect("partial open");
    assert_eq!(ws.outputs().len(), 5);
    let script = ws.inputs()[0].output.type_script.as_ref().expect("fake").duplicate();
    let env = ScriptEnv::from_workspace(&ws, &script);
    let result = VerificationTree::blind_box().run(&env, MAX_STEPS);
    assert_eq!(result, Ok(()), "pass");
    println!("consume cycles: {}", ws.size());
}
