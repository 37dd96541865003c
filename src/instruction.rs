//! Instructions (ordered lists of operations) and the calculator that runs
//! them, in order, on one transaction.
use vstd::prelude::*;

use crate::chain::{payer_cells, ChainModel, ChainState};
use crate::error::{BuildError, OpError};
use crate::operation::{
    balance, change_cell, change_of, fee_for, fill_inputs, is_covered, lemma_fee_monotone,
    Operation,
};
use crate::script::ScriptModel;
use crate::workspace::{
    lemma_output_totals_push, lemma_outputs_size_nonneg, Workspace, WorkspaceModel, OUTPUT_OVERHEAD,
};

verus! {

/// Operations that run to completion, in order.
#[derive(Debug)]
pub struct Instruction {
    pub operations: Vec<Operation>,
}

/// Moves the position of a failure `by` operations on.
pub open spec fn shift(r: Result<WorkspaceModel, (nat, OpError)>, by: nat) -> Result<
    WorkspaceModel,
    (nat, OpError),
> {
    match r {
        Ok(w) => Ok(w),
        Err((k, e)) => Err(((k + by) as nat, e)),
    }
}

/// Runs `ops` in order from `ws`: the final transaction, or the position
/// and error of the first operation that fails.
pub open spec fn run_ops(ops: Seq<Operation>, chain: ChainModel, ws: WorkspaceModel) -> Result<
    WorkspaceModel,
    (nat, OpError),
>
    decreases ops.len(),
{
    if ops.len() == 0 {
        Ok(ws)
    } else {
        match ops[0].effect(chain, ws) {
            Ok(w) => shift(run_ops(ops.drop_first(), chain, w), 1),
            Err(e) => Err((0, e)),
        }
    }
}

/// Running the operations of two instructions merged is running the first
/// instruction's operations, then the second's on what they built; a failure
/// in the second is reported at its place in the merged list.
pub proof fn lemma_merge_runs_in_sequence(
    a: Seq<Operation>,
    b: Seq<Operation>,
    chain: ChainModel,
    ws: WorkspaceModel,
)
    ensures
        run_ops(a + b, chain, ws) == match run_ops(a, chain, ws) {
            Ok(w) => shift(run_ops(b, chain, w), a.len()),
            Err(e) => Err(e),
        },
    decreases a.len(),
{
    if a.len() == 0 {
        assert(a + b =~= b);
        match run_ops(b, chain, ws) {
            Ok(_) => {},
            Err(_) => {},
        }
    } else {
        assert((a + b).drop_first() =~= a.drop_first() + b);
        assert((a + b)[0] == a[0]);
        match a[0].effect(chain, ws) {
            Ok(w) => {
                lemma_merge_runs_in_sequence(a.drop_first(), b, chain, w);
                match run_ops(a.drop_first(), chain, w) {
                    Ok(w2) => match run_ops(b, chain, w2) {
                        Ok(_) => {},
                        Err(_) => {},
                    },
                    Err(_) => {},
                }
            },
            Err(_) => {},
        }
    }
}

impl Instruction {
    pub fn new(operations: Vec<Operation>) -> (r: Instruction)
        ensures
            r.operations@ == operations@,
    {
        Instruction { operations }
    }

    /// Adds an operation at the end.
    pub fn push(&mut self, op: Operation)
        ensures
            final(self).operations@ == old(self).operations@.push(op),
    {
        self.operations.push(op);
    }

    /// Adds operations at the end, in order.
    pub fn append(&mut self, ops: Vec<Operation>)
        ensures
            final(self).operations@ == old(self).operations@ + ops@,
    {
        let mut ops = ops;
        self.operations.append(&mut ops);
    }

    /// Appends the operations of `other`, keeping both orders.
    pub fn merge(&mut self, other: Instruction)
        ensures
            final(self).operations@ == old(self).operations@ + other.operations@,
    {
        self.append(other.operations);
    }

    /// Runs the operations in order on `ws`; stops at the first failure,
    /// reporting its position.
    pub fn run(self, chain: &ChainState, ws: &mut Workspace) -> (r: Result<(), (usize, OpError)>)
        requires
            old(ws).wf(),
        ensures
            final(ws).wf(),
            match run_ops(self.operations@, chain@, old(ws)@) {
                Ok(w) => r is Ok && final(ws)@ == w,
                Err((k, e)) => k < self.operations@.len() && k <= usize::MAX && r == Err::<
                    (),
                    (usize, OpError),
                >((k as usize, e)),
            },
    {
        let ghost all = self.operations@;
        let mut ops = self.operations;
        let total = ops.len();
        let mut done: usize = 0;
        while ops.len() > 0
            invariant
                ws.wf(),
                all.len() == total,
                all == self.operations@,
                done + ops@.len() == all.len(),
                shift(run_ops(ops@, chain@, ws@), done as nat) == run_ops(all, chain@, old(ws)@),
            decreases ops@.len(),
        {
            let ghost before = ws@;
            let ghost rest = ops@;
            let op = ops.remove(0);
            assert(ops@ =~= rest.drop_first());
            assert(rest[0] == op);
            match op.run(chain, ws) {
                Ok(()) => {},
                Err(e) => {
                    assert(run_ops(rest, chain@, before) == Err::<WorkspaceModel, (nat, OpError)>((0, e)));
                    return Err((done, e));
                },
            }
            proof {
                match run_ops(ops@, chain@, ws@) {
                    Ok(_) => {},
                    Err(_) => {},
                }
            }
            done = done + 1;
        }
        Ok(())
    }
}

/// Moves the position of a failure `by` instructions on.
pub open spec fn shift_instruction(r: Result<WorkspaceModel, (nat, nat, OpError)>, by: nat) -> Result<
    WorkspaceModel,
    (nat, nat, OpError),
> {
    match r {
        Ok(w) => Ok(w),
        Err((i, k, e)) => Err(((i + by) as nat, k, e)),
    }
}

/// Runs the instructions in order from `ws`: the final transaction, or the
/// instruction, the operation within it, and the error of the first
/// operation that fails.
pub open spec fn run_instructions(
    instrs: Seq<Instruction>,
    chain: ChainModel,
    ws: WorkspaceModel,
) -> Result<WorkspaceModel, (nat, nat, OpError)>
    decreases instrs.len(),
{
    if instrs.len() == 0 {
        Ok(ws)
    } else {
        match run_ops(instrs[0].operations@, chain, ws) {
            Ok(w) => shift_instruction(run_instructions(instrs.drop_first(), chain, w), 1),
            Err((k, e)) => Err((0, k, e)),
        }
    }
}

/// The error that reports a failure found by `run_instructions`.
pub open spec fn build_error(i: nat, k: nat, e: OpError) -> BuildError {
    BuildError { instruction: i as usize, operation: k as usize, error: e }
}

/// Runs instructions, in order, on one transaction.
#[derive(Debug)]
pub struct TransactionCalculator {
    pub instructions: Vec<Instruction>,
}

impl TransactionCalculator {
    pub fn new(instructions: Vec<Instruction>) -> (r: TransactionCalculator)
        ensures
            r.instructions@ == instructions@,
    {
        TransactionCalculator { instructions }
    }

    /// Runs every instruction on a new, empty transaction.
    pub fn run(self, chain: &ChainState) -> (r: Result<Workspace, BuildError>)
        ensures
            match run_instructions(self.instructions@, chain@, WorkspaceModel::empty()) {
                Ok(w) => r matches Ok(ws) && ws.wf() && ws@ == w,
                Err((i, k, e)) => r == Err::<Workspace, BuildError>(build_error(i, k, e)),
            },
    {
        let mut ws = Workspace::new();
        match self.run_on(chain, &mut ws) {
            Ok(()) => Ok(ws),
            Err(b) => Err(b),
        }
    }

    /// Runs every instruction on `ws`, a transaction built so far.
    pub fn run_on(self, chain: &ChainState, ws: &mut Workspace) -> (r: Result<(), BuildError>)
        requires
            old(ws).wf(),
        ensures
            final(ws).wf(),
            match run_instructions(self.instructions@, chain@, old(ws)@) {
                Ok(w) => r is Ok && final(ws)@ == w,
                Err((i, k, e)) => r == Err::<(), BuildError>(build_error(i, k, e)),
            },
    {
        let ghost all = self.instructions@;
        let mut instrs = self.instructions;
        let total = instrs.len();
        let mut done: usize = 0;
        while instrs.len() > 0
            invariant
                ws.wf(),
                all.len() == total,
                all == self.instructions@,
                done + instrs@.len() == all.len(),
                shift_instruction(run_instructions(instrs@, chain@, ws@), done as nat)
                    == run_instructions(all, chain@, old(ws)@),
            decreases instrs@.len(),
        {
            let ghost rest = instrs@;
            let ghost before = ws@;
            let instr = instrs.remove(0);
            assert(instrs@ =~= rest.drop_first());
            assert(rest[0] == instr);
            match instr.run(chain, ws) {
                Ok(()) => {
                    proof {
                        match run_instructions(instrs@, chain@, ws@) {
                            Ok(_) => {},
                            Err(_) => {},
                        }
                    }
                },
                Err((k, e)) => {
                    assert(run_instructions(rest, chain@, before) == Err::<
                        WorkspaceModel,
                        (nat, nat, OpError),
                    >((0, k as nat, e)));
                    return Err(BuildError { instruction: done, operation: k, error: e });
                },
            }
            done = done + 1;
        }
        Ok(())
    }
}

/// A calculator run of one instruction that merges `a` and `b` builds the
/// same transaction as a run of `a` then `b`, and fails exactly when that
/// run fails.
pub proof fn lemma_merged_instruction_builds_same(
    merged: Instruction,
    a: Instruction,
    b: Instruction,
    chain: ChainModel,
    ws: WorkspaceModel,
)
    requires
        merged.operations@ == a.operations@ + b.operations@,
    ensures
        run_instructions(seq![merged], chain, ws) is Ok <==> run_instructions(seq![a, b], chain, ws)
            is Ok,
        run_instructions(seq![merged], chain, ws) is Ok ==> run_instructions(seq![merged], chain, ws)
            == run_instructions(seq![a, b], chain, ws),
{
    lemma_merge_runs_in_sequence(a.operations@, b.operations@, chain, ws);
    let one = seq![merged];
    let two = seq![a, b];
    assert(one.drop_first() =~= Seq::<Instruction>::empty());
    assert(two.drop_first() =~= seq![b]);
    assert(two.drop_first().drop_first() =~= Seq::<Instruction>::empty());
    assert(one[0] == merged);
    assert(two[0] == a);
    assert(two.drop_first()[0] == b);
    assert(run_instructions(Seq::<Instruction>::empty(), chain, ws) == Ok::<
        WorkspaceModel,
        (nat, nat, OpError),
    >(ws));
    match run_ops(a.operations@, chain, ws) {
        Ok(w) => {
            assert(run_instructions(Seq::<Instruction>::empty(), chain, w) == Ok::<
                WorkspaceModel,
                (nat, nat, OpError),
            >(w));
            match run_ops(b.operations@, chain, w) {
                Ok(w2) => {
                    assert(run_instructions(Seq::<Instruction>::empty(), chain, w2) == Ok::<
                        WorkspaceModel,
                        (nat, nat, OpError),
                    >(w2));
                    assert(run_instructions(seq![b], chain, w) == Ok::<
                        WorkspaceModel,
                        (nat, nat, OpError),
                    >(w2));
                },
                Err(_) => {
                    assert(run_instructions(seq![b], chain, w) is Err);
                },
            }
        },
        Err(_) => {},
    }
}

proof fn lemma_fill_inputs_covers(
    ws: WorkspaceModel,
    cands: Seq<crate::cell::LiveCellModel>,
    receiver: ScriptModel,
    rate: u64,
)
    ensures
        fill_inputs(ws, cands, receiver, rate) matches Ok(w) ==> is_covered(w, receiver, rate),
    decreases cands.len(),
{
    if !is_covered(ws, receiver, rate) && cands.len() > 0 {
        lemma_fill_inputs_covers(ws.with_input(cands[0]), cands.drop_first(), receiver, rate);
    }
}

/// After a successful balance the inputs cover the outputs and the fee of
/// the transaction as it stands; a balance that cannot get there fails with
/// one of its errors instead of producing the transaction.
pub proof fn lemma_balance_covers_fee(
    chain: ChainModel,
    ws: WorkspaceModel,
    payer: ScriptModel,
    receiver: ScriptModel,
    rate: u64,
)
    ensures
        balance(chain, ws, payer, receiver, rate) matches Ok(w) ==> w.input_capacity()
            >= w.output_capacity() + fee_for(w.size(), rate as int),
        balance(chain, ws, payer, receiver, rate) matches Err(e) ==> e
            == OpError::ImbalancedTransaction || e == OpError::Overflow || e
            == OpError::MalformedScript,
{
    if receiver.wf() {
        let cands = payer_cells(chain.cells, ws, payer);
        lemma_fill_inputs_covers(ws, cands, receiver, rate);
        if let Ok(w) = fill_inputs(ws, cands, receiver, rate) {
            let change = change_of(w, receiver, rate);
            let cell = change_cell(receiver, change as u64);
            let extra = change_cell(receiver, 0).occupied_bytes() + OUTPUT_OVERHEAD;
            if change >= cell.occupied_capacity() {
                lemma_output_totals_push(w.outputs, cell);
                assert(w.with_output(cell).size() == w.size() + extra);
            } else {
                lemma_outputs_size_nonneg(w.outputs);
                lemma_fee_monotone(w.size(), w.size() + extra, rate as int);
            }
        }
        lemma_fill_inputs_errors(ws, cands, receiver, rate);
    }
}

proof fn lemma_fill_inputs_errors(
    ws: WorkspaceModel,
    cands: Seq<crate::cell::LiveCellModel>,
    receiver: ScriptModel,
    rate: u64,
)
    ensures
        fill_inputs(ws, cands, receiver, rate) matches Err(e) ==> e
            == OpError::ImbalancedTransaction || e == OpError::Overflow,
    decreases cands.len(),
{
    if !is_covered(ws, receiver, rate) && cands.len() > 0 {
        lemma_fill_inputs_errors(ws.with_input(cands[0]), cands.drop_first(), receiver, rate);
    }
}

} // verus!
