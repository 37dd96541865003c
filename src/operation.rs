//! Operations: single, composable mutations of the transaction under
//! construction, each run once against a snapshot of the chain.
use vstd::arithmetic::div_mod::lemma_div_is_ordered;
use vstd::arithmetic::mul::lemma_mul_inequality;
use vstd::prelude::*;

use crate::blind_box::{
    AddBlindBoxCelldep, AddBlindBoxOutputCell, AddBlindBoxOutputCells, AddBlindBoxPurchaseInputCell,
};
use crate::cell::{
    cell_input_bytes, opt_script_view, CellDep, CellOutput, CellOutputModel, LiveCell,
    LiveCellModel, OutPoint, OutPointModel,
};
use crate::chain::{cell_at, payer_cells, query_cells, ChainModel, ChainState};
use crate::codec::{ckb_hash, ckb_hash_of, le_u64_bytes, push_u64_le};
use crate::error::OpError;
use crate::script::{Script, ScriptModel, SearchMode, HASH_SIZE};
use crate::workspace::{live_cells_view, Workspace, WorkspaceModel, witnesses_view, OUTPUT_OVERHEAD};

verus! {

/// Hash type of a script whose code is found by the type of its cell.
pub const HASH_TYPE_TYPE: u8 = 1;

/// The code hash of the ledger's built-in type-identifier script: the
/// bytes of "TYPE_ID", right-aligned in 32 bytes.
pub open spec fn type_id_code_hash() -> Seq<u8> {
    Seq::new(25, |i: int| 0u8) + seq![0x54u8, 0x59, 0x50, 0x45, 0x5f, 0x49, 0x44]
}

/// The arguments of a type identifier for the output at `index` of a
/// transaction whose first input spends `first`.
pub open spec fn type_id_args(first: OutPointModel, index: int) -> Seq<u8> {
    ckb_hash_of(cell_input_bytes(first) + le_u64_bytes(index as u64))
}

pub open spec fn type_id_script(first: OutPointModel, index: int) -> ScriptModel {
    ScriptModel {
        code_hash: type_id_code_hash(),
        hash_type: HASH_TYPE_TYPE,
        args: type_id_args(first, index),
    }
}

/// One unit of transaction mutation.
#[derive(Debug)]
pub enum Operation {
    /// Adds a cell dependency unless it is there already.
    AddCellDep { dep: CellDep },
    /// Adds, as inputs, the first `count` live cells that answer the query.
    AddInputCell {
        lock: Script,
        type_script: Option<Script>,
        count: usize,
        mode: SearchMode,
    },
    /// Adds, as input, the live cell at `out_point`.
    AddInputCellByOutPoint { out_point: OutPoint },
    /// Adds an output. Without `absolute_capacity` the capacity is raised to
    /// the cell's footprint; with `type_id` the cell gets a fresh type
    /// identifier as its type.
    AddOutputCell {
        lock: Script,
        type_script: Option<Script>,
        data: Vec<u8>,
        capacity: u64,
        absolute_capacity: bool,
        type_id: bool,
    },
    /// Adds an output modelled on an input, with the parts given replaced;
    /// `adjust_capacity` sets its capacity to its footprint.
    AddOutputCellByInputIndex {
        input_index: usize,
        data: Option<Vec<u8>>,
        lock: Option<Script>,
        type_script: Option<Option<Script>>,
        adjust_capacity: bool,
    },
    /// Adds the payer's cells until inputs cover outputs and fee, then gives
    /// the rest to `change_receiver` when it can fill a cell.
    Balance { payer: Script, change_receiver: Script, fee_rate: u64 },
    /// Puts `signature` in the witness of the first input that `signer`
    /// guards.
    AddSignature { signer: Script, signature: Vec<u8> },
    /// Adds the blind-box contract as dependency.
    AddBlindBoxCelldep(AddBlindBoxCelldep),
    /// Adds the purchase cell of a blind-box purchase.
    AddBlindBoxOutputCell(AddBlindBoxOutputCell),
    /// Adds a purchase cell as input, for opening.
    AddBlindBoxPurchaseInputCell(AddBlindBoxPurchaseInputCell),
    /// Mints the cells that a purchase cell pays for.
    AddBlindBoxOutputCells(AddBlindBoxOutputCells),
}

/// Adds, as inputs, the first `count` live cells that answer the query;
/// fails when there are fewer.
pub open spec fn add_queried_inputs(
    chain: ChainModel,
    ws: WorkspaceModel,
    lock: ScriptModel,
    type_script: Option<ScriptModel>,
    mode: SearchMode,
    count: usize,
) -> Result<WorkspaceModel, OpError> {
    let found = query_cells(chain.cells, ws, lock, type_script, mode, count as nat);
    if found.len() < count {
        Err(OpError::InsufficientCells)
    } else {
        add_inputs(ws, found)
    }
}

/// Adds the cells, in order, as inputs.
pub open spec fn add_inputs(ws: WorkspaceModel, cells: Seq<LiveCellModel>) -> Result<
    WorkspaceModel,
    OpError,
>
    decreases cells.len(),
{
    if cells.len() == 0 {
        Ok(ws)
    } else {
        let w1 = ws.with_input(cells[0]);
        if w1.fits() {
            add_inputs(w1, cells.drop_first())
        } else {
            Err(OpError::Overflow)
        }
    }
}

/// Adds `cell` as output; without `absolute` its capacity is first raised to
/// its footprint.
pub open spec fn add_output(ws: WorkspaceModel, cell: CellOutputModel, absolute: bool) -> Result<
    WorkspaceModel,
    OpError,
> {
    if !cell.wf() {
        Err(OpError::MalformedScript)
    } else {
        let occ = cell.occupied_capacity();
        let cap: int = if absolute || cell.capacity >= occ {
            cell.capacity as int
        } else {
            occ
        };
        if cap < occ {
            Err(OpError::InsufficientCapacity)
        } else if cap > u64::MAX {
            Err(OpError::Overflow)
        } else {
            let w = ws.with_output(cell.with_capacity(cap as u64));
            if w.fits() {
                Ok(w)
            } else {
                Err(OpError::Overflow)
            }
        }
    }
}

/// The fee for `size` bytes at `rate` shannons per thousand bytes.
pub open spec fn fee_for(size: int, rate: int) -> int {
    size * rate / 1000
}

/// The output that takes the change.
pub open spec fn change_cell(receiver: ScriptModel, capacity: u64) -> CellOutputModel {
    CellOutputModel { capacity, lock: receiver, type_script: None, data: Seq::empty() }
}

/// The fee of `ws` with a change output to `receiver` added.
pub open spec fn balance_fee(ws: WorkspaceModel, receiver: ScriptModel, rate: u64) -> int {
    fee_for(ws.size() + change_cell(receiver, 0).occupied_bytes() + OUTPUT_OVERHEAD, rate as int)
}

/// Inputs cover outputs and the fee.
pub open spec fn is_covered(ws: WorkspaceModel, receiver: ScriptModel, rate: u64) -> bool {
    ws.input_capacity() >= ws.output_capacity() + balance_fee(ws, receiver, rate)
}

/// Adds candidates, in order, until the inputs cover outputs and fee.
pub open spec fn fill_inputs(
    ws: WorkspaceModel,
    cands: Seq<LiveCellModel>,
    receiver: ScriptModel,
    rate: u64,
) -> Result<WorkspaceModel, OpError>
    decreases cands.len(),
{
    if is_covered(ws, receiver, rate) {
        Ok(ws)
    } else if cands.len() == 0 {
        Err(OpError::ImbalancedTransaction)
    } else {
        let w1 = ws.with_input(cands[0]);
        if w1.fits() {
            fill_inputs(w1, cands.drop_first(), receiver, rate)
        } else {
            Err(OpError::Overflow)
        }
    }
}

/// What is left of the inputs after outputs and fee.
pub open spec fn change_of(ws: WorkspaceModel, receiver: ScriptModel, rate: u64) -> int {
    ws.input_capacity() - ws.output_capacity() - balance_fee(ws, receiver, rate)
}

/// Gives the change to `receiver` when it covers the change cell's footprint.
pub open spec fn settle_change(ws: WorkspaceModel, receiver: ScriptModel, rate: u64) -> Result<
    WorkspaceModel,
    OpError,
> {
    let cell = change_cell(receiver, change_of(ws, receiver, rate) as u64);
    if change_of(ws, receiver, rate) >= cell.occupied_capacity() {
        let w = ws.with_output(cell);
        if w.fits() {
            Ok(w)
        } else {
            Err(OpError::Overflow)
        }
    } else {
        Ok(ws)
    }
}

pub open spec fn balance(
    chain: ChainModel,
    ws: WorkspaceModel,
    payer: ScriptModel,
    receiver: ScriptModel,
    rate: u64,
) -> Result<WorkspaceModel, OpError> {
    if !receiver.wf() {
        Err(OpError::MalformedScript)
    } else {
        match fill_inputs(ws, payer_cells(chain.cells, ws, payer), receiver, rate) {
            Ok(w) => settle_change(w, receiver, rate),
            Err(e) => Err(e),
        }
    }
}

/// `i` is the first input that `signer` guards.
pub open spec fn first_signer_input(inputs: Seq<LiveCellModel>, signer: ScriptModel, i: int) -> bool {
    &&& 0 <= i < inputs.len()
    &&& inputs[i].output.lock == signer
    &&& forall|j: int| 0 <= j < i ==> (#[trigger] inputs[j]).output.lock != signer
}

/// Witnesses, one per input at least, with `sig` at `at`.
pub open spec fn signed_witnesses(w: Seq<Seq<u8>>, n_inputs: int, at: int, sig: Seq<u8>) -> Seq<
    Seq<u8>,
> {
    let len = if w.len() >= n_inputs {
        w.len() as int
    } else {
        n_inputs
    };
    Seq::new(
        len as nat,
        |j: int|
            if j == at {
                sig
            } else if j < w.len() {
                w[j]
            } else {
                Seq::empty()
            },
    )
}

pub open spec fn add_signature(ws: WorkspaceModel, signer: ScriptModel, sig: Seq<u8>) -> Result<
    WorkspaceModel,
    OpError,
> {
    if exists|i: int| first_signer_input(ws.inputs, signer, i) {
        let at = choose|i: int| first_signer_input(ws.inputs, signer, i);
        Ok(ws.with_witnesses(signed_witnesses(ws.witnesses, ws.inputs.len() as int, at, sig)))
    } else {
        Err(OpError::NoSignerInput)
    }
}

pub open spec fn opt_bytes_view(b: Option<Vec<u8>>) -> Option<Seq<u8>> {
    match b {
        Some(b) => Some(b@),
        None => None,
    }
}

pub open spec fn opt_opt_script_view(s: Option<Option<Script>>) -> Option<Option<ScriptModel>> {
    match s {
        Some(t) => Some(opt_script_view(t)),
        None => None,
    }
}

/// The output that `AddOutputCellByInputIndex` starts from.
pub open spec fn remodelled(
    base: CellOutputModel,
    data: Option<Seq<u8>>,
    lock: Option<ScriptModel>,
    type_script: Option<Option<ScriptModel>>,
) -> CellOutputModel {
    CellOutputModel {
        capacity: base.capacity,
        lock: match lock {
            Some(l) => l,
            None => base.lock,
        },
        type_script: match type_script {
            Some(t) => t,
            None => base.type_script,
        },
        data: match data {
            Some(d) => d,
            None => base.data,
        },
    }
}

impl Operation {
    /// What running the operation does to `ws`: the new transaction, or the
    /// error that stops the run.
    #[verifier::opaque]
    pub open spec fn effect(self, chain: ChainModel, ws: WorkspaceModel) -> Result<
        WorkspaceModel,
        OpError,
    > {
        match self {
            Operation::AddCellDep { dep } => {
                let w = ws.with_cell_dep(dep@);
                if w.fits() {
                    Ok(w)
                } else {
                    Err(OpError::Overflow)
                }
            },
            Operation::AddInputCell { lock, type_script, count, mode } => add_queried_inputs(
                chain,
                ws,
                lock@,
                opt_script_view(type_script),
                mode,
                count,
            ),
            Operation::AddInputCellByOutPoint { out_point } => match cell_at(
                chain.cells,
                out_point@,
            ) {
                Some(c) => add_inputs(ws, seq![c]),
                None => Err(OpError::CellNotFound),
            },
            Operation::AddOutputCell {
                lock,
                type_script,
                data,
                capacity,
                absolute_capacity,
                type_id,
            } => {
                if type_id && ws.inputs.len() == 0 {
                    Err(OpError::NoInputForTypeId)
                } else {
                    let t = if type_id {
                        Some(type_id_script(ws.inputs[0].out_point, ws.outputs.len() as int))
                    } else {
                        opt_script_view(type_script)
                    };
                    add_output(
                        ws,
                        CellOutputModel { capacity, lock: lock@, type_script: t, data: data@ },
                        absolute_capacity,
                    )
                }
            },
            Operation::AddOutputCellByInputIndex {
                input_index,
                data,
                lock,
                type_script,
                adjust_capacity,
            } => {
                if input_index >= ws.inputs.len() {
                    Err(OpError::InputIndexOutOfRange)
                } else {
                    let cell = remodelled(
                        ws.inputs[input_index as int].output,
                        opt_bytes_view(data),
                        opt_script_view(lock),
                        opt_opt_script_view(type_script),
                    );
                    if adjust_capacity {
                        add_output(ws, cell.with_capacity(0), false)
                    } else {
                        add_output(ws, cell, true)
                    }
                }
            },
            Operation::Balance { payer, change_receiver, fee_rate } => balance(
                chain,
                ws,
                payer@,
                change_receiver@,
                fee_rate,
            ),
            Operation::AddSignature { signer, signature } => add_signature(
                ws,
                signer@,
                signature@,
            ),
            Operation::AddBlindBoxCelldep(op) => op.effect(ws),
            Operation::AddBlindBoxOutputCell(op) => op.effect(ws),
            Operation::AddBlindBoxPurchaseInputCell(op) => op.effect(chain, ws),
            Operation::AddBlindBoxOutputCells(op) => op.effect(ws),
        }
    }

    /// Runs the operation on `ws`.
    pub fn run(self, chain: &ChainState, ws: &mut Workspace) -> (r: Result<(), OpError>)
        requires
            old(ws).wf(),
        ensures
            final(ws).wf(),
            match self.effect(chain@, old(ws)@) {
                Ok(w) => r is Ok && final(ws)@ == w,
                Err(e) => r == Err::<(), OpError>(e),
            },
    {
        reveal(Operation::effect);
        match self {
            Operation::AddCellDep { dep } => ws.push_cell_dep(dep),
            Operation::AddInputCell { lock, type_script, count, mode } => push_queried_inputs(
                chain,
                ws,
                &lock,
                &type_script,
                mode,
                count,
            ),
            Operation::AddInputCellByOutPoint { out_point } => match chain.cell_at(&out_point) {
                Some(c) => {
                    let v = vec![c];
                    assert(live_cells_view(v@) =~= seq![v@[0]@]);
                    push_inputs(ws, &v)
                },
                None => Err(OpError::CellNotFound),
            },
            Operation::AddOutputCell {
                lock,
                type_script,
                data,
                capacity,
                absolute_capacity,
                type_id,
            } => {
                if type_id && ws.inputs().len() == 0 {
                    return Err(OpError::NoInputForTypeId);
                }
                let t = if type_id {
                    let index = ws.outputs().len();
                    Some(new_type_id(&ws.inputs()[0].out_point, index as u64))
                } else {
                    type_script
                };
                place_output(ws, CellOutput::new(capacity, lock, t, data), absolute_capacity)
            },
            Operation::AddOutputCellByInputIndex {
                input_index,
                data,
                lock,
                type_script,
                adjust_capacity,
            } => {
                if input_index >= ws.inputs().len() {
                    return Err(OpError::InputIndexOutOfRange);
                }
                let base = &ws.inputs()[input_index].output;
                let cell = CellOutput::new(
                    if adjust_capacity {
                        0
                    } else {
                        base.capacity
                    },
                    match lock {
                        Some(l) => l,
                        None => base.lock.duplicate(),
                    },
                    match type_script {
                        Some(t) => t,
                        None => crate::cell::duplicate_opt_script(&base.type_script),
                    },
                    match data {
                        Some(d) => d,
                        None => crate::codec::copy_range(base.data.as_slice(), 0, base.data.len()),
                    },
                );
                proof {
                    assert(base.data@.subrange(0, base.data@.len() as int) =~= base.data@);
                }
                place_output(ws, cell, !adjust_capacity)
            },
            Operation::Balance { payer, change_receiver, fee_rate } => run_balance(
                chain,
                ws,
                &payer,
                change_receiver,
                fee_rate,
            ),
            Operation::AddSignature { signer, signature } => run_add_signature(
                ws,
                &signer,
                signature,
            ),
            Operation::AddBlindBoxCelldep(op) => op.run(ws),
            Operation::AddBlindBoxOutputCell(op) => op.run(ws),
            Operation::AddBlindBoxPurchaseInputCell(op) => op.run(chain, ws),
            Operation::AddBlindBoxOutputCells(op) => op.run(ws),
        }
    }
}

/// Adds, as inputs, the first `count` live cells that answer the query;
/// fails when there are fewer.
pub fn push_queried_inputs(
    chain: &ChainState,
    ws: &mut Workspace,
    lock: &Script,
    type_script: &Option<Script>,
    mode: SearchMode,
    count: usize,
) -> (r: Result<(), OpError>)
    requires
        old(ws).wf(),
    ensures
        final(ws).wf(),
        match add_queried_inputs(chain@, old(ws)@, lock@, opt_script_view(*type_script), mode, count) {
            Ok(w) => r is Ok && final(ws)@ == w,
            Err(e) => r == Err::<(), OpError>(e),
        },
{
    let found = chain.query(ws, lock, type_script, mode, count);
    if found.len() < count {
        Err(OpError::InsufficientCells)
    } else {
        push_inputs(ws, &found)
    }
}

/// Adds the cells, in order, as inputs.
pub fn push_inputs(ws: &mut Workspace, cells: &Vec<LiveCell>) -> (r: Result<(), OpError>)
    requires
        old(ws).wf(),
    ensures
        final(ws).wf(),
        match add_inputs(old(ws)@, live_cells_view(cells@)) {
            Ok(w) => r is Ok && final(ws)@ == w,
            Err(e) => r == Err::<(), OpError>(e),
        },
{
    let ghost all = live_cells_view(cells@);
    let mut i: usize = 0;
    assert(all.subrange(0, all.len() as int) =~= all);
    while i < cells.len()
        invariant
            i <= cells@.len(),
            all == live_cells_view(cells@),
            ws.wf(),
            add_inputs(ws@, all.subrange(i as int, all.len() as int)) == add_inputs(
                old(ws)@,
                all,
            ),
        decreases cells@.len() - i,
    {
        let ghost rest = all.subrange(i as int, all.len() as int);
        assert(rest.drop_first() =~= all.subrange(i + 1, all.len() as int));
        assert(rest[0] == cells@[i as int]@);
        let c = cells[i].duplicate();
        let pushed = ws.push_input(c);
        if pushed.is_err() {
            return Err(OpError::Overflow);
        }
        i = i + 1;
    }
    assert(all.subrange(i as int, all.len() as int) =~= Seq::<LiveCellModel>::empty());
    Ok(())
}

/// Adds `cell` as output; without `absolute` its capacity is first raised to
/// its footprint.
pub fn place_output(ws: &mut Workspace, cell: CellOutput, absolute: bool) -> (r: Result<
    (),
    OpError,
>)
    requires
        old(ws).wf(),
    ensures
        final(ws).wf(),
        match add_output(old(ws)@, cell@, absolute) {
            Ok(w) => r is Ok && final(ws)@ == w,
            Err(e) => r == Err::<(), OpError>(e),
        },
{
    if !cell.check_wf() {
        return Err(OpError::MalformedScript);
    }
    let occ = cell.occupied_capacity();
    let cap: u128 = if absolute || cell.capacity as u128 >= occ {
        cell.capacity as u128
    } else {
        occ
    };
    if cap < occ {
        return Err(OpError::InsufficientCapacity);
    }
    if cap > u64::MAX as u128 {
        return Err(OpError::Overflow);
    }
    let mut cell = cell;
    cell.capacity = cap as u64;
    ws.push_output(cell)
}

/// The type identifier for the output at `index` of a transaction whose
/// first input spends `first`.
pub fn new_type_id(first: &OutPoint, index: u64) -> (r: Script)
    ensures
        r@ == type_id_script(first@, index as int),
{
    let mut preimage = first.input_bytes();
    push_u64_le(&mut preimage, index);
    let args = ckb_hash(preimage.as_slice());
    let mut code_hash: Vec<u8> = Vec::new();
    let mut i: usize = 0;
    while i < 25
        invariant
            i <= 25,
            code_hash@ == Seq::new(i as nat, |k: int| 0u8),
        decreases 25 - i,
    {
        code_hash.push(0);
        i = i + 1;
        assert(code_hash@ =~= Seq::new(i as nat, |k: int| 0u8));
    }
    code_hash.push(0x54);
    code_hash.push(0x59);
    code_hash.push(0x50);
    code_hash.push(0x45);
    code_hash.push(0x5f);
    code_hash.push(0x49);
    code_hash.push(0x44);
    assert(code_hash@ =~= type_id_code_hash());
    Script::new(code_hash, HASH_TYPE_TYPE, args)
}

/// `fee_for(size, rate)` when it fits in `u64`; `None` when it does not.
pub fn fee_within(size: u128, rate: u64) -> (r: Option<u64>)
    requires
        size < 0x4_0000_0000_0000_0000,
    ensures
        r matches Some(f) ==> f == fee_for(size as int, rate as int),
        r is None ==> fee_for(size as int, rate as int) > u64::MAX,
{
    if rate < 1000 || size <= u64::MAX as u128 {
        assert(size * rate < 0x1_0000_0000_0000_0000_0000_0000_0000_0000) by (nonlinear_arith)
            requires
                size < 0x4_0000_0000_0000_0000,
                rate < 1000 || size <= u64::MAX,
                rate <= u64::MAX,
        ;
        let f = size * (rate as u128) / 1000;
        if f > u64::MAX as u128 {
            None
        } else {
            Some(f as u64)
        }
    } else {
        proof {
            lemma_mul_inequality(1000, rate as int, size as int);
            lemma_div_is_ordered(size * 1000, size * rate, 1000);
            assert(size * 1000 / 1000 == size) by (nonlinear_arith);
        }
        None
    }
}

pub proof fn lemma_fee_monotone(a: int, b: int, rate: int)
    requires
        0 <= a <= b,
        0 <= rate,
    ensures
        fee_for(a, rate) <= fee_for(b, rate),
{
    lemma_mul_inequality(a, b, rate);
    lemma_div_is_ordered(a * rate, b * rate, 1000);
}

/// The fee of `ws` with a change output to `receiver` added, when it fits in
/// `u64`.
fn balance_fee_within(ws: &Workspace, receiver: &Script, rate: u64) -> (r: Option<u64>)
    requires
        ws.wf(),
        receiver@.wf(),
    ensures
        r matches Some(f) ==> f == balance_fee(ws@, receiver@, rate),
        r is None ==> balance_fee(ws@, receiver@, rate) > u64::MAX,
{
    let extra = change_output_bytes(receiver);
    fee_within(ws.size() as u128 + extra as u128 + OUTPUT_OVERHEAD as u128, rate)
}

fn change_output_bytes(receiver: &Script) -> (r: u64)
    requires
        receiver@.wf(),
    ensures
        r == change_cell(receiver@, 0).occupied_bytes(),
        r < 0x1_0000_0000_0000,
{
    8 + receiver.occupied_bytes()
}

/// Runs `Balance`.
fn run_balance(
    chain: &ChainState,
    ws: &mut Workspace,
    payer: &Script,
    receiver: Script,
    rate: u64,
) -> (r: Result<(), OpError>)
    requires
        old(ws).wf(),
    ensures
        final(ws).wf(),
        match balance(chain@, old(ws)@, payer@, receiver@, rate) {
            Ok(w) => r is Ok && final(ws)@ == w,
            Err(e) => r == Err::<(), OpError>(e),
        },
{
    if !(receiver.code_hash.len() == HASH_SIZE && receiver.args.len() <= (u32::MAX - 53) as usize) {
        return Err(OpError::MalformedScript);
    }
    let cands = chain.payer_cells(ws, payer);
    let ghost all = live_cells_view(cands@);
    let mut i: usize = 0;
    assert(all.subrange(0, all.len() as int) =~= all);
    let mut fee: u64 = 0;
    loop
        invariant
            i <= cands@.len(),
            all == live_cells_view(cands@),
            all == payer_cells(chain@.cells, old(ws)@, payer@),
            receiver@.wf(),
            ws.wf(),
            fill_inputs(ws@, all.subrange(i as int, all.len() as int), receiver@, rate)
                == fill_inputs(old(ws)@, all, receiver@, rate),
        ensures
            ws.wf(),
            receiver@.wf(),
            fill_inputs(old(ws)@, all, receiver@, rate) == Ok::<WorkspaceModel, OpError>(ws@),
            fee == balance_fee(ws@, receiver@, rate),
            ws@.input_capacity() >= ws@.output_capacity() + fee,
        decreases cands@.len() - i,
    {
        let ghost rest = all.subrange(i as int, all.len() as int);
        let fee_opt = balance_fee_within(ws, &receiver, rate);
        let in_cap = ws.input_capacity();
        let out_cap = ws.output_capacity();
        let covered = match fee_opt {
            Some(f) => {
                fee = f;
                in_cap as u128 >= out_cap as u128 + f as u128
            },
            None => {
                assert(in_cap <= u64::MAX);
                false
            },
        };
        assert(covered == is_covered(ws@, receiver@, rate));
        if covered {
            break ;
        }
        if i >= cands.len() {
            assert(rest.len() == 0);
            return Err(OpError::ImbalancedTransaction);
        }
        assert(rest.drop_first() =~= all.subrange(i + 1, all.len() as int));
        assert(rest[0] == cands@[i as int]@);
        let c = cands[i].duplicate();
        if ws.push_input(c).is_err() {
            return Err(OpError::Overflow);
        }
        i = i + 1;
    }
    let change = ws.input_capacity() - ws.output_capacity() - fee;
    let cell = CellOutput::new(change, receiver, None, Vec::new());
    assert(cell@ == change_cell(receiver@, change));
    let occ = cell.occupied_capacity();
    if change as u128 >= occ {
        ws.push_output(cell)
    } else {
        Ok(())
    }
}

/// The first input that `signer` guards.
fn first_signer(inputs: &Vec<LiveCell>, signer: &Script) -> (r: Option<usize>)
    ensures
        match r {
            Some(i) => first_signer_input(live_cells_view(inputs@), signer@, i as int),
            None => !exists|i: int| first_signer_input(live_cells_view(inputs@), signer@, i),
        },
{
    let ghost v = live_cells_view(inputs@);
    let mut at: usize = 0;
    while at < inputs.len()
        invariant
            at <= inputs@.len(),
            v == live_cells_view(inputs@),
            forall|j: int| 0 <= j < at ==> (#[trigger] v[j]).output.lock != signer@,
        decreases inputs@.len() - at,
    {
        if inputs[at].output.lock.same_as(signer) {
            return Some(at);
        }
        at = at + 1;
    }
    None
}

/// Runs `AddSignature`.
fn run_add_signature(ws: &mut Workspace, signer: &Script, signature: Vec<u8>) -> (r: Result<
    (),
    OpError,
>)
    requires
        old(ws).wf(),
    ensures
        final(ws).wf(),
        match add_signature(old(ws)@, signer@, signature@) {
            Ok(w) => r is Ok && final(ws)@ == w,
            Err(e) => r == Err::<(), OpError>(e),
        },
{
    let ghost inputs = ws@.inputs;
    let n = ws.inputs().len();
    let at = match first_signer(ws.inputs(), signer) {
        Some(at) => at,
        None => {
            return Err(OpError::NoSignerInput);
        },
    };
    proof {
        assert forall|i: int| first_signer_input(inputs, signer@, i) implies i == at by {
            if i > at {
                assert(inputs[at as int].output.lock == signer@);
            }
        }
    }
    let old_w = ws.witnesses();
    let len = if old_w.len() >= n {
        old_w.len()
    } else {
        n
    };
    let ghost target = signed_witnesses(ws@.witnesses, n as int, at as int, signature@);
    let mut w: Vec<Vec<u8>> = Vec::new();
    let mut j: usize = 0;
    while j < len
        invariant
            j <= len,
            len == target.len(),
            old_w@.len() == ws@.witnesses.len(),
            witnesses_view(old_w@) == ws@.witnesses,
            target == signed_witnesses(ws@.witnesses, n as int, at as int, signature@),
            witnesses_view(w@) == target.subrange(0, j as int),
        decreases len - j,
    {
        let item = if j == at {
            crate::codec::copy_range(signature.as_slice(), 0, signature.len())
        } else if j < old_w.len() {
            crate::codec::copy_range(old_w[j].as_slice(), 0, old_w[j].len())
        } else {
            Vec::new()
        };
        proof {
            assert(signature@.subrange(0, signature@.len() as int) =~= signature@);
            if j < old_w@.len() {
                assert(old_w@[j as int]@.subrange(0, old_w@[j as int]@.len() as int) =~= old_w@[j as int]@);
                assert(ws@.witnesses[j as int] == old_w@[j as int]@);
            }
        }
        assert(item@ == target[j as int]);
        let ghost prev = witnesses_view(w@);
        w.push(item);
        assert(witnesses_view(w@) =~= prev.push(item@));
        j = j + 1;
        assert(witnesses_view(w@) =~= target.subrange(0, j as int));
    }
    assert(target.subrange(0, len as int) =~= target);
    ws.set_witnesses(w);
    Ok(())
}

} // verus!
