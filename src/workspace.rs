//! The transaction under construction: inputs, outputs, dependencies and
//! witnesses, with its running totals.
use vstd::prelude::*;

use crate::cell::{
    CellDep, CellDepModel, CellOutput, CellOutputModel, LiveCell, LiveCellModel, OutPoint,
    OutPointModel,
};
use crate::error::OpError;

verus! {

/// Estimated bytes of a transaction apart from its parts.
pub const TX_BASE_SIZE: u64 = 72;

/// Estimated bytes of one input.
pub const INPUT_SIZE: u64 = 44;

/// Estimated bytes of one cell dependency.
pub const CELL_DEP_SIZE: u64 = 37;

/// Estimated bytes an output takes beside its occupied bytes.
pub const OUTPUT_OVERHEAD: u64 = 20;

/// Total capacity of a sequence of live cells.
pub open spec fn input_capacity_of(s: Seq<LiveCellModel>) -> int
    decreases s.len(),
{
    if s.len() == 0 {
        0
    } else {
        input_capacity_of(s.drop_last()) + s.last().output.capacity
    }
}

/// Total capacity of a sequence of cells.
pub open spec fn output_capacity_of(s: Seq<CellOutputModel>) -> int
    decreases s.len(),
{
    if s.len() == 0 {
        0
    } else {
        output_capacity_of(s.drop_last()) + s.last().capacity
    }
}

/// Estimated bytes that a sequence of outputs adds to a transaction.
pub open spec fn outputs_size_of(s: Seq<CellOutputModel>) -> int
    decreases s.len(),
{
    if s.len() == 0 {
        0
    } else {
        outputs_size_of(s.drop_last()) + s.last().occupied_bytes() + OUTPUT_OVERHEAD
    }
}

/// The transaction under construction, as mathematical values.
pub struct WorkspaceModel {
    pub inputs: Seq<LiveCellModel>,
    pub outputs: Seq<CellOutputModel>,
    pub cell_deps: Seq<CellDepModel>,
    pub witnesses: Seq<Seq<u8>>,
}

impl WorkspaceModel {
    pub open spec fn empty() -> WorkspaceModel {
        WorkspaceModel {
            inputs: Seq::empty(),
            outputs: Seq::empty(),
            cell_deps: Seq::empty(),
            witnesses: Seq::empty(),
        }
    }

    pub open spec fn input_capacity(self) -> int {
        input_capacity_of(self.inputs)
    }

    pub open spec fn output_capacity(self) -> int {
        output_capacity_of(self.outputs)
    }

    /// Estimated size in bytes of the transaction without its witnesses.
    pub open spec fn size(self) -> int {
        TX_BASE_SIZE + INPUT_SIZE * self.inputs.len() + CELL_DEP_SIZE * self.cell_deps.len()
            + outputs_size_of(self.outputs)
    }

    /// Totals and size stay within `u64`.
    pub open spec fn fits(self) -> bool {
        &&& self.input_capacity() <= u64::MAX
        &&& self.output_capacity() <= u64::MAX
        &&& self.size() <= u64::MAX
    }

    /// Every output is well formed and covers its own footprint.
    pub open spec fn outputs_valid(self) -> bool {
        forall|i: int|
            0 <= i < self.outputs.len() ==> (#[trigger] self.outputs[i]).wf()
                && self.outputs[i].covers_footprint()
    }

    pub open spec fn wf(self) -> bool {
        self.fits() && self.outputs_valid()
    }

    /// Whether the cell at `p` is already an input.
    pub open spec fn spends(self, p: OutPointModel) -> bool {
        exists|i: int| 0 <= i < self.inputs.len() && (#[trigger] self.inputs[i]).out_point == p
    }

    pub open spec fn with_input(self, c: LiveCellModel) -> WorkspaceModel {
        WorkspaceModel { inputs: self.inputs.push(c), ..self }
    }

    pub open spec fn with_output(self, o: CellOutputModel) -> WorkspaceModel {
        WorkspaceModel { outputs: self.outputs.push(o), ..self }
    }

    /// The dependency is added unless it is there already.
    pub open spec fn with_cell_dep(self, d: CellDepModel) -> WorkspaceModel {
        if self.cell_deps.contains(d) {
            self
        } else {
            WorkspaceModel { cell_deps: self.cell_deps.push(d), ..self }
        }
    }

    pub open spec fn with_witnesses(self, w: Seq<Seq<u8>>) -> WorkspaceModel {
        WorkspaceModel { witnesses: w, ..self }
    }
}

/// The transaction under construction.
#[derive(Debug)]
pub struct Workspace {
    inputs: Vec<LiveCell>,
    outputs: Vec<CellOutput>,
    cell_deps: Vec<CellDep>,
    witnesses: Vec<Vec<u8>>,
    input_capacity: u64,
    output_capacity: u64,
    size: u64,
}

pub open spec fn live_cells_view(v: Seq<LiveCell>) -> Seq<LiveCellModel> {
    v.map_values(|c: LiveCell| c@)
}

pub open spec fn outputs_view(v: Seq<CellOutput>) -> Seq<CellOutputModel> {
    v.map_values(|c: CellOutput| c@)
}

pub open spec fn cell_deps_view(v: Seq<CellDep>) -> Seq<CellDepModel> {
    v.map_values(|c: CellDep| c@)
}

pub open spec fn witnesses_view(v: Seq<Vec<u8>>) -> Seq<Seq<u8>> {
    v.map_values(|w: Vec<u8>| w@)
}

impl View for Workspace {
    type V = WorkspaceModel;

    closed spec fn view(&self) -> WorkspaceModel {
        WorkspaceModel {
            inputs: live_cells_view(self.inputs@),
            outputs: outputs_view(self.outputs@),
            cell_deps: cell_deps_view(self.cell_deps@),
            witnesses: witnesses_view(self.witnesses@),
        }
    }
}

pub proof fn lemma_outputs_size_nonneg(s: Seq<CellOutputModel>)
    ensures
        outputs_size_of(s) >= 0,
    decreases s.len(),
{
    if s.len() > 0 {
        lemma_outputs_size_nonneg(s.drop_last());
    }
}

pub proof fn lemma_input_capacity_push(s: Seq<LiveCellModel>, c: LiveCellModel)
    ensures
        input_capacity_of(s.push(c)) == input_capacity_of(s) + c.output.capacity,
{
    assert(s.push(c).drop_last() =~= s);
}

pub proof fn lemma_output_totals_push(s: Seq<CellOutputModel>, o: CellOutputModel)
    ensures
        output_capacity_of(s.push(o)) == output_capacity_of(s) + o.capacity,
        outputs_size_of(s.push(o)) == outputs_size_of(s) + o.occupied_bytes() + OUTPUT_OVERHEAD,
{
    assert(s.push(o).drop_last() =~= s);
}

impl Workspace {
    /// The running totals agree with the contents, which are valid.
    pub open spec fn wf(&self) -> bool {
        &&& self@.wf()
        &&& self.totals_agree()
    }

    pub closed spec fn totals_agree(&self) -> bool {
        &&& self.input_capacity == self@.input_capacity()
        &&& self.output_capacity == self@.output_capacity()
        &&& self.size == self@.size()
    }

    /// A transaction with nothing in it yet.
    pub fn new() -> (r: Workspace)
        ensures
            r.wf(),
            r@ == WorkspaceModel::empty(),
    {
        let r = Workspace {
            inputs: Vec::new(),
            outputs: Vec::new(),
            cell_deps: Vec::new(),
            witnesses: Vec::new(),
            input_capacity: 0,
            output_capacity: 0,
            size: TX_BASE_SIZE,
        };
        assert(r@.inputs =~= Seq::<LiveCellModel>::empty());
        assert(r@.outputs =~= Seq::<CellOutputModel>::empty());
        assert(r@.cell_deps =~= Seq::<CellDepModel>::empty());
        assert(r@.witnesses =~= Seq::<Seq<u8>>::empty());
        r
    }

    pub fn inputs(&self) -> (r: &Vec<LiveCell>)
        ensures
            live_cells_view(r@) == self@.inputs,
    {
        &self.inputs
    }

    pub fn outputs(&self) -> (r: &Vec<CellOutput>)
        ensures
            outputs_view(r@) == self@.outputs,
    {
        &self.outputs
    }

    pub fn cell_deps(&self) -> (r: &Vec<CellDep>)
        ensures
            cell_deps_view(r@) == self@.cell_deps,
    {
        &self.cell_deps
    }

    pub fn witnesses(&self) -> (r: &Vec<Vec<u8>>)
        ensures
            witnesses_view(r@) == self@.witnesses,
    {
        &self.witnesses
    }

    pub fn input_capacity(&self) -> (r: u64)
        requires
            self.wf(),
        ensures
            r == self@.input_capacity(),
    {
        self.input_capacity
    }

    pub fn output_capacity(&self) -> (r: u64)
        requires
            self.wf(),
        ensures
            r == self@.output_capacity(),
    {
        self.output_capacity
    }

    /// Estimated size in bytes, witnesses left out.
    pub fn size(&self) -> (r: u64)
        requires
            self.wf(),
        ensures
            r == self@.size(),
    {
        self.size
    }

    /// Whether the cell at `p` is already an input.
    pub fn spends(&self, p: &OutPoint) -> (r: bool)
        ensures
            r == self@.spends(p@),
    {
        let mut i: usize = 0;
        while i < self.inputs.len()
            invariant
                i <= self.inputs@.len(),
                forall|j: int| 0 <= j < i ==> self@.inputs[j].out_point != p@,
            decreases self.inputs@.len() - i,
        {
            if self.inputs[i].out_point.same_as(p) {
                assert(self@.inputs[i as int].out_point == p@);
                return true;
            }
            i = i + 1;
        }
        false
    }

    /// Adds an input, unless a total would leave `u64`.
    pub fn push_input(&mut self, c: LiveCell) -> (r: Result<(), OpError>)
        requires
            old(self).wf(),
        ensures
            final(self).wf(),
            r is Ok <==> old(self)@.with_input(c@).fits(),
            r is Ok ==> final(self)@ == old(self)@.with_input(c@),
            r is Err ==> final(self)@ == old(self)@ && r == Err::<(), OpError>(OpError::Overflow),
    {
        let ghost new_model = old(self)@.with_input(c@);
        proof {
            lemma_input_capacity_push(old(self)@.inputs, c@);
        }
        let cap = c.output.capacity;
        if cap > u64::MAX - self.input_capacity || self.size > u64::MAX - INPUT_SIZE {
            return Err(OpError::Overflow);
        }
        self.input_capacity = self.input_capacity + cap;
        self.size = self.size + INPUT_SIZE;
        self.inputs.push(c);
        assert(self@.inputs =~= new_model.inputs);
        assert(self@ =~= new_model);
        Ok(())
    }

    /// Adds an output that is well formed and covers its footprint, unless a
    /// total would leave `u64`.
    pub fn push_output(&mut self, o: CellOutput) -> (r: Result<(), OpError>)
        requires
            old(self).wf(),
            o@.wf(),
            o@.covers_footprint(),
        ensures
            final(self).wf(),
            r is Ok <==> old(self)@.with_output(o@).fits(),
            r is Ok ==> final(self)@ == old(self)@.with_output(o@),
            r is Err ==> final(self)@ == old(self)@ && r == Err::<(), OpError>(OpError::Overflow),
    {
        let ghost new_model = old(self)@.with_output(o@);
        proof {
            lemma_output_totals_push(old(self)@.outputs, o@);
        }
        let cap = o.capacity;
        let extra = o.occupied_bytes() + OUTPUT_OVERHEAD as u128;
        if cap > u64::MAX - self.output_capacity || extra > (u64::MAX - self.size) as u128 {
            return Err(OpError::Overflow);
        }
        self.output_capacity = self.output_capacity + cap;
        self.size = self.size + extra as u64;
        self.outputs.push(o);
        assert(self@.outputs =~= new_model.outputs);
        assert(self@ =~= new_model);
        assert(self@.outputs_valid()) by {
            assert forall|i: int| 0 <= i < self@.outputs.len() implies (#[trigger] self@.outputs[i]).wf()
                && self@.outputs[i].covers_footprint() by {
                if i < old(self)@.outputs.len() {
                    assert(self@.outputs[i] == old(self)@.outputs[i]);
                }
            }
        }
        Ok(())
    }

    /// Whether `d` is among the dependencies.
    pub fn has_cell_dep(&self, d: &CellDep) -> (r: bool)
        ensures
            r == self@.cell_deps.contains(d@),
    {
        let mut i: usize = 0;
        while i < self.cell_deps.len()
            invariant
                i <= self.cell_deps@.len(),
                forall|j: int| 0 <= j < i ==> self@.cell_deps[j] != d@,
            decreases self.cell_deps@.len() - i,
        {
            if self.cell_deps[i].same_as(d) {
                assert(self@.cell_deps[i as int] == d@);
                return true;
            }
            i = i + 1;
        }
        false
    }

    /// Adds a dependency unless it is there already, or the size would leave
    /// `u64`.
    pub fn push_cell_dep(&mut self, d: CellDep) -> (r: Result<(), OpError>)
        requires
            old(self).wf(),
        ensures
            final(self).wf(),
            r is Ok <==> old(self)@.with_cell_dep(d@).fits(),
            r is Ok ==> final(self)@ == old(self)@.with_cell_dep(d@),
            r is Err ==> final(self)@ == old(self)@ && r == Err::<(), OpError>(OpError::Overflow),
    {
        if self.has_cell_dep(&d) {
            return Ok(());
        }
        let ghost new_model = old(self)@.with_cell_dep(d@);
        if self.size > u64::MAX - CELL_DEP_SIZE {
            return Err(OpError::Overflow);
        }
        self.size = self.size + CELL_DEP_SIZE;
        self.cell_deps.push(d);
        assert(self@.cell_deps =~= new_model.cell_deps);
        assert(self@ =~= new_model);
        Ok(())
    }

    /// Replaces the witnesses.
    pub fn set_witnesses(&mut self, w: Vec<Vec<u8>>)
        requires
            old(self).wf(),
        ensures
            final(self).wf(),
            final(self)@ == old(self)@.with_witnesses(witnesses_view(w@)),
    {
        self.witnesses = w;
        assert(self@ =~= old(self)@.with_witnesses(witnesses_view(w@)));
    }
}

} // verus!
