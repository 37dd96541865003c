//! Cells and the references that point at them.
use vstd::prelude::*;

use crate::codec::{
    bytes_eq, copy_range, le_u32_bytes, le_u64_bytes, push_u32_le, push_u64_le, extend_bytes,
};
use crate::script::{Script, ScriptModel, HASH_SIZE};

verus! {

/// Capacity units (shannons) that one byte of a cell costs.
pub const SHANNONS_PER_BYTE: u64 = 100_000_000;

/// Bytes every cell takes for its capacity field.
pub const CAPACITY_FIELD_SIZE: u64 = 8;

/// A reference to an output of an earlier transaction.
#[derive(Debug)]
pub struct OutPoint {
    pub tx_hash: Vec<u8>,
    pub index: u32,
}

pub struct OutPointModel {
    pub tx_hash: Seq<u8>,
    pub index: u32,
}

impl View for OutPoint {
    type V = OutPointModel;

    open spec fn view(&self) -> OutPointModel {
        OutPointModel { tx_hash: self.tx_hash@, index: self.index }
    }
}

/// The serialised form of a transaction input that spends `p` at once.
pub open spec fn cell_input_bytes(p: OutPointModel) -> Seq<u8> {
    le_u64_bytes(0) + p.tx_hash + le_u32_bytes(p.index)
}

impl OutPoint {
    pub fn new(tx_hash: Vec<u8>, index: u32) -> (r: OutPoint)
        ensures
            r@ == (OutPointModel { tx_hash: tx_hash@, index }),
    {
        OutPoint { tx_hash, index }
    }

    pub fn duplicate(&self) -> (r: OutPoint)
        ensures
            r@ == self@,
    {
        let r = OutPoint {
            tx_hash: copy_range(self.tx_hash.as_slice(), 0, self.tx_hash.len()),
            index: self.index,
        };
        assert(r.tx_hash@ =~= self.tx_hash@);
        r
    }

    pub fn same_as(&self, other: &OutPoint) -> (r: bool)
        ensures
            r == (self@ == other@),
    {
        self.index == other.index && bytes_eq(self.tx_hash.as_slice(), other.tx_hash.as_slice())
    }

    /// The serialised form of a transaction input that spends this cell at once.
    pub fn input_bytes(&self) -> (r: Vec<u8>)
        ensures
            r@ == cell_input_bytes(self@),
    {
        let mut out: Vec<u8> = Vec::new();
        push_u64_le(&mut out, 0);
        extend_bytes(&mut out, self.tx_hash.as_slice());
        push_u32_le(&mut out, self.index);
        assert(out@ =~= cell_input_bytes(self@));
        out
    }
}

/// A cell: capacity, the lock that guards it, an optional type, and data.
#[derive(Debug)]
pub struct CellOutput {
    pub capacity: u64,
    pub lock: Script,
    pub type_script: Option<Script>,
    pub data: Vec<u8>,
}

pub struct CellOutputModel {
    pub capacity: u64,
    pub lock: ScriptModel,
    pub type_script: Option<ScriptModel>,
    pub data: Seq<u8>,
}

pub open spec fn opt_script_view(s: Option<Script>) -> Option<ScriptModel> {
    match s {
        Some(s) => Some(s@),
        None => None,
    }
}

impl View for CellOutput {
    type V = CellOutputModel;

    open spec fn view(&self) -> CellOutputModel {
        CellOutputModel {
            capacity: self.capacity,
            lock: self.lock@,
            type_script: opt_script_view(self.type_script),
            data: self.data@,
        }
    }
}

impl CellOutputModel {
    /// Both scripts are well formed.
    pub open spec fn wf(self) -> bool {
        &&& self.lock.wf()
        &&& match self.type_script {
            Some(t) => t.wf(),
            None => true,
        }
    }

    /// Bytes the cell occupies on the ledger.
    pub open spec fn occupied_bytes(self) -> int {
        CAPACITY_FIELD_SIZE + self.lock.occupied_bytes() + match self.type_script {
            Some(t) => t.occupied_bytes(),
            None => 0,
        } + self.data.len()
    }

    /// Capacity the cell must hold to cover its own footprint.
    pub open spec fn occupied_capacity(self) -> int {
        self.occupied_bytes() * SHANNONS_PER_BYTE
    }

    /// The cell's capacity covers its footprint.
    pub open spec fn covers_footprint(self) -> bool {
        self.capacity >= self.occupied_capacity()
    }

    pub open spec fn with_capacity(self, capacity: u64) -> CellOutputModel {
        CellOutputModel { capacity, ..self }
    }
}

pub fn duplicate_opt_script(s: &Option<Script>) -> (r: Option<Script>)
    ensures
        opt_script_view(r) == opt_script_view(*s),
{
    match s {
        Some(s) => Some(s.duplicate()),
        None => None,
    }
}

pub fn opt_script_wf(s: &Option<Script>) -> (r: bool)
    ensures
        r == match opt_script_view(*s) {
            Some(t) => t.wf(),
            None => true,
        },
{
    match s {
        Some(s) => s.code_hash.len() == HASH_SIZE && s.args.len() <= (u32::MAX - 53) as usize,
        None => true,
    }
}

impl CellOutput {
    pub fn new(capacity: u64, lock: Script, type_script: Option<Script>, data: Vec<u8>) -> (r:
        CellOutput)
        ensures
            r@ == (CellOutputModel {
                capacity,
                lock: lock@,
                type_script: opt_script_view(type_script),
                data: data@,
            }),
    {
        CellOutput { capacity, lock, type_script, data }
    }

    pub fn duplicate(&self) -> (r: CellOutput)
        ensures
            r@ == self@,
    {
        let data = copy_range(self.data.as_slice(), 0, self.data.len());
        assert(data@ =~= self.data@);
        CellOutput {
            capacity: self.capacity,
            lock: self.lock.duplicate(),
            type_script: duplicate_opt_script(&self.type_script),
            data,
        }
    }

    /// Whether both scripts are well formed.
    pub fn check_wf(&self) -> (r: bool)
        ensures
            r == self@.wf(),
    {
        self.lock.code_hash.len() == HASH_SIZE && self.lock.args.len() <= (u32::MAX - 53) as usize
            && opt_script_wf(&self.type_script)
    }

    /// Bytes the cell occupies on the ledger.
    pub fn occupied_bytes(&self) -> (r: u128)
        requires
            self@.wf(),
        ensures
            r == self@.occupied_bytes(),
            r < 0x1_0000_0000_0000_0000_0000,
    {
        let t: u128 = match &self.type_script {
            Some(t) => t.occupied_bytes() as u128,
            None => 0,
        };
        CAPACITY_FIELD_SIZE as u128 + self.lock.occupied_bytes() as u128 + t
            + self.data.len() as u128
    }

    /// Capacity the cell must hold to cover its own footprint.
    pub fn occupied_capacity(&self) -> (r: u128)
        requires
            self@.wf(),
        ensures
            r == self@.occupied_capacity(),
    {
        let b = self.occupied_bytes();
        assert(b * SHANNONS_PER_BYTE < u128::MAX) by (nonlinear_arith)
            requires
                b < 0x1_0000_0000_0000_0000_0000,
        ;
        b * (SHANNONS_PER_BYTE as u128)
    }
}

/// A live cell: where it was created, and what it holds.
#[derive(Debug)]
pub struct LiveCell {
    pub out_point: OutPoint,
    pub output: CellOutput,
}

pub struct LiveCellModel {
    pub out_point: OutPointModel,
    pub output: CellOutputModel,
}

impl View for LiveCell {
    type V = LiveCellModel;

    open spec fn view(&self) -> LiveCellModel {
        LiveCellModel { out_point: self.out_point@, output: self.output@ }
    }
}

impl LiveCell {
    pub fn new(out_point: OutPoint, output: CellOutput) -> (r: LiveCell)
        ensures
            r@ == (LiveCellModel { out_point: out_point@, output: output@ }),
    {
        LiveCell { out_point, output }
    }

    pub fn duplicate(&self) -> (r: LiveCell)
        ensures
            r@ == self@,
    {
        LiveCell { out_point: self.out_point.duplicate(), output: self.output.duplicate() }
    }
}

/// How a transaction refers to a dependency.
#[derive(Debug, Clone, Copy, PartialEq, Eq, Structural)]
pub enum DepType {
    /// The cell's data is code.
    Code,
    /// The cell's data lists further dependencies.
    DepGroup,
}

/// A read-only reference to a cell whose code or data the scripts need.
#[derive(Debug)]
pub struct CellDep {
    pub out_point: OutPoint,
    pub dep_type: DepType,
}

pub struct CellDepModel {
    pub out_point: OutPointModel,
    pub dep_type: DepType,
}

impl View for CellDep {
    type V = CellDepModel;

    open spec fn view(&self) -> CellDepModel {
        CellDepModel { out_point: self.out_point@, dep_type: self.dep_type }
    }
}

impl CellDep {
    pub fn new(out_point: OutPoint, dep_type: DepType) -> (r: CellDep)
        ensures
            r@ == (CellDepModel { out_point: out_point@, dep_type }),
    {
        CellDep { out_point, dep_type }
    }

    pub fn duplicate(&self) -> (r: CellDep)
        ensures
            r@ == self@,
    {
        CellDep { out_point: self.out_point.duplicate(), dep_type: self.dep_type }
    }

    pub fn same_as(&self, other: &CellDep) -> (r: bool)
        ensures
            r == (self@ == other@),
    {
        self.dep_type == other.dep_type && self.out_point.same_as(&other.out_point)
    }
}

} // verus!
