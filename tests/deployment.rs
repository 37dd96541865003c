use blind_box::cell::{CellDep, CellOutput, DepType, LiveCell, OutPoint};
use blind_box::chain::ChainState;
use blind_box::deployment::{
    generate_deployment_record_path, new_deployment_record, plan_consume, plan_deploy, plan_migration,
    DeploymentError, DeploymentRecord, ListMode, Network, TypeIdMode,
};
use blind_box::instruction::TransactionCalculator;
use blind_box::operation::Operation;
use blind_box::script::Script;
use blind_box::workspace::Workspace;
use blind_box::blind_box::{build_purchase_blind_box, AddBlindBoxCelldep, BlindBoxConfig, BLIND_BOX_PRICE};
use blind_box::error::OpError;
use blind_box::instruction::Instruction;

const CKB: u64 = 100_000_000;

fn lock(arg: u8) -> Script {
    Script::new(vec![0x11; 32], 0, vec![arg])
}

fn record(operation: &str, owner: Option<&str>) -> DeploymentRecord {
    DeploymentRecord {
        name: "blind-box-type".to_string(),
        date: "2024-01-01T00:00:00+00:00".to_string(),
        operation: operation.to_string(),
        version: "v0.1.0".to_string(),
        tx_hash: "ab".repeat(32),
        out_index: 0,
        data_hash: None,
        occupied_capacity: 0,
        payer_address: "ckt1payer".to_string(),
        owner_address: owner.map(|s| s.to_string()),
        type_id: None,
        comment: None,
    }
}

fn sighash() -> CellDep {
    CellDep::new(OutPoint::new(vec![0x33; 32], 0), DepType::DepGroup)
}

#[test]
fn owner_defaults_to_payer() {
    assert_eq!(record("deploy", None).contract_owner_address(), "ckt1payer");
    assert_eq!(record("deploy", Some("ckt1owner")).contract_owner_address(), "ckt1owner");
}

#[test]
fn network_names() {
    assert_eq!(Network::try_from("mainnet".to_string()), Ok(Network::Mainnet));
    assert_eq!(Network::try_from("testnet".to_string()), Ok(Network::Testnet));
    let custom = Network::try_from("http://localhost:8114".to_string()).expect("url");
    assert_eq!(custom, Network::Custom("http://localhost:8114/".to_string()));
    assert_eq!(custom.to_string(), "http://localhost:8114/");
    assert_eq!(Network::Testnet.to_string(), "testnet");
    assert_eq!(Network::try_from("not a url".to_string()), Err(DeploymentError::InvalidNetwork));
}

#[test]
fn type_id_and_list_modes() {
    assert_eq!(TypeIdMode::try_from("keep".to_string()), Ok(TypeIdMode::Keep));
    assert_eq!(TypeIdMode::try_from("remove".to_string()), Ok(TypeIdMode::Remove));
    assert_eq!(TypeIdMode::try_from("new".to_string()), Ok(TypeIdMode::New));
    assert_eq!(TypeIdMode::try_from("old".to_string()), Err(DeploymentError::InvalidTypeIdMode));
    assert_eq!(ListMode::try_from("all".to_string()), Ok(ListMode::All));
    assert_eq!(ListMode::try_from("deployed".to_string()), Ok(ListMode::Deployed));
    assert_eq!(ListMode::try_from("consumed".to_string()), Ok(ListMode::Consumed));
    assert_eq!(ListMode::try_from("some".to_string()), Err(DeploymentError::InvalidListMode));
}

#[test]
fn record_path_layout() {
    assert_eq!(generate_deployment_record_path("testnet", "blind-box-type"), "migration/testnet/blind-box-type.json");
}

#[test]
fn successor_checks() {
    let payer = "ckt1payer".to_string();
    let v = "v0.1.0".to_string();
    assert_eq!(record("deploy", None).check_successor(&payer, &v), Ok(()));
    assert_eq!(record("consume", None).check_successor(&payer, &v), Err(DeploymentError::AlreadyConsumed));
    assert_eq!(record("deploy", Some("ckt1owner")).check_successor(&payer, &v), Err(DeploymentError::OwnerMismatch));
    assert_eq!(
        record("migrate", None).check_successor(&payer, &"v0.2.0".to_string()),
        Err(DeploymentError::VersionMismatch)
    );
}

#[test]
fn migration_plans() {
    let payer = "ckt1payer".to_string();
    let v = "v0.1.0".to_string();
    let plan = plan_migration(&record("deploy", None), &v, &payer, sighash(), lock(0), None, vec![1, 2], TypeIdMode::Remove)
        .expect("plan");
    assert_eq!(plan.operations.len(), 4);
    match &plan.operations[1] {
        Operation::AddInputCellByOutPoint { out_point } => assert_eq!(out_point.tx_hash, vec![0xab; 32]),
        _ => panic!("input by out point"),
    }
    match &plan.operations[2] {
        Operation::AddOutputCellByInputIndex { type_script, .. } => assert!(matches!(type_script, Some(None))),
        _ => panic!("remade cell"),
    }
    let mut bad = record("deploy", None);
    bad.tx_hash = "xyz".to_string();
    assert_eq!(
        plan_migration(&bad, &v, &payer, sighash(), lock(0), None, vec![], TypeIdMode::Keep).err(),
        Some(DeploymentError::BadRecord)
    );
    assert_eq!(
        plan_migration(&record("consume", None), &v, &payer, sighash(), lock(0), None, vec![], TypeIdMode::New).err(),
        Some(DeploymentError::AlreadyConsumed)
    );
}

#[test]
fn consume_plan_releases_to_receiver() {
    let payer = "ckt1payer".to_string();
    let plan = plan_consume(&record("deploy", None), &"v0.1.0".to_string(), &payer, sighash(), lock(0), Some(lock(8)))
        .expect("plan");
    assert_eq!(plan.operations.len(), 3);
    match &plan.operations[2] {
        Operation::Balance { change_receiver, fee_rate, .. } => {
            assert!(change_receiver.same_as(&lock(8)));
            assert_eq!(*fee_rate, 2000);
        }
        _ => panic!("balance"),
    }
}

#[test]
fn deploy_migrate_consume_on_a_chain() {
    let payer = lock(0);
    let funds = ChainState {
        cells: vec![
            LiveCell::new(OutPoint::new(vec![1; 32], 0), CellOutput::new(1000 * CKB, payer.duplicate(), None, vec![])),
            LiveCell::new(OutPoint::new(vec![2; 32], 0), CellOutput::new(1000 * CKB, payer.duplicate(), None, vec![])),
        ],
        simulated: false,
        fixture_lock: payer.duplicate(),
    };
    let deploy = plan_deploy(sighash(), payer.duplicate(), None, vec![7; 100], true);
    let ws = TransactionCalculator::new(vec![deploy]).run(&funds).expect("deploy");
    assert_eq!(ws.outputs()[0].capacity, (8 + 34 + 65 + 100) * CKB);
    let rec = new_deployment_record(
        &ws,
        &[0xab; 32],
        "deploy".to_string(),
        "c".to_string(),
        "v0.1.0".to_string(),
        "today".to_string(),
        Some(vec![0x0f, 0xa0]),
        "ckt1payer".to_string(),
        None,
    )
    .expect("record");
    assert_eq!(rec.tx_hash, "ab".repeat(32));
    assert_eq!(rec.data_hash, Some("0fa0".to_string()));
    assert_eq!(rec.occupied_capacity, (8 + 34 + 65 + 100) * CKB);
    let type_hash = ws.outputs()[0].type_script.as_ref().expect("type id").hash();
    assert_eq!(rec.type_id, Some(hex::encode(type_hash)));
    assert!(new_deployment_record(&Workspace::new(), &[1], "d".into(), "c".into(), "v".into(), "t".into(), None, "p".into(), None).is_none());
}

#[test]
fn celldep_from_deployment_record() {
    let ops = vec![Operation::AddBlindBoxCelldep(AddBlindBoxCelldep { deployment: Some(record("deploy", None)) })];
    let chain = ChainState { cells: vec![], simulated: false, fixture_lock: lock(0) };
    let ws = TransactionCalculator::new(vec![Instruction::new(ops)]).run(&chain).expect("dep");
    assert_eq!(ws.cell_deps()[0].out_point.tx_hash, vec![0xab; 32]);
    let mut bad = record("deploy", None);
    bad.tx_hash = "abc".to_string();
    let config = BlindBoxConfig { code_hash: vec![0xbb; 32], hash_type: 1, price: BLIND_BOX_PRICE, series: lock(2) };
    let r = TransactionCalculator::new(vec![build_purchase_blind_box(Some(bad), config, 1, lock(0), lock(1))]).run(&chain);
    assert_eq!(r.err().map(|e| e.error), Some(OpError::BadHash));
}

#[test]
fn migration_keeps_type_and_resizes_cell() {
    let payer = lock(0);
    let type_id = Script::new(vec![0x44; 32], 1, vec![0x55; 32]);
    let deployed = LiveCell::new(
        OutPoint::new(vec![0xab; 32], 0),
        CellOutput::new(500 * CKB, payer.duplicate(), Some(type_id.duplicate()), vec![1; 300]),
    );
    let funds = LiveCell::new(OutPoint::new(vec![1; 32], 0), CellOutput::new(1000 * CKB, payer.duplicate(), None, vec![]));
    let chain = ChainState { cells: vec![deployed, funds], simulated: false, fixture_lock: payer.duplicate() };
    let plan = plan_migration(
        &record("deploy", None),
        &"v0.1.0".to_string(),
        &"ckt1payer".to_string(),
        sighash(),
        payer.duplicate(),
        None,
        vec![2; 10],
        TypeIdMode::Keep,
    )
    .expect("plan");
    let ws = TransactionCalculator::new(vec![plan]).run(&chain).expect("migrate");
    let cell = &ws.outputs()[0];
    assert!(cell.type_script.as_ref().expect("kept").same_as(&type_id));
    assert_eq!(cell.data, vec![2; 10]);
    assert_eq!(cell.capacity, (8 + 34 + 65 + 10) * CKB);
    assert_eq!(ws.outputs().len(), 2);
    assert!(ws.input_capacity() >= ws.output_capacity() + ws.size() * 2000 / 1000);
}
