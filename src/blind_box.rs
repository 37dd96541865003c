//! The blind-box protocol, builder side: the layout of the purchase cell's
//! type arguments, and the operations that buy and open blind boxes.
use vstd::prelude::*;

use crate::cell::{
    CellDep, CellDepModel, CellOutput, CellOutputModel, DepType, LiveCell, LiveCellModel, OutPoint,
    OutPointModel,
};
use crate::chain::{ChainModel, ChainState};
use crate::codec::{
    copy_range, extend_bytes, from_hex, hex_bytes, is_hex, le_u64_bytes, lemma_u64_bytes_round_trip,
    lemma_u64_value_round_trip, push_u64_le, read_u64_le,
};
use crate::deployment::DeploymentRecord;
use crate::error::OpError;
use crate::instruction::Instruction;
use crate::operation::{
    Operation, add_inputs, add_output, add_queried_inputs, place_output, push_inputs,
    push_queried_inputs,
};
use crate::script::{
    lemma_script_bytes_injective, lemma_script_bytes_len, script_bytes, script_hash, Script,
    ScriptModel, SearchMode, HASH_SIZE,
};
use crate::workspace::{live_cells_view, Workspace, WorkspaceModel};

verus! {

/// Price of one blind box: 500 units of 10^8 shannons.
pub const BLIND_BOX_PRICE: u64 = 50_000_000_000;

/// Name the blind-box contract is deployed under.
pub const BLIND_BOX_NAME: &'static str = "blind-box-type";

/// Boxes in the purchase cell that a simulation seeds for opening.
pub const SIMULATED_PURCHASE_COUNT: u8 = 5;

/// Bytes before the buyer's lock in the arguments: series hash, count, price.
pub const ARGS_HEADER_SIZE: usize = 41;

/// What a blind-box purchase records in its type arguments.
#[derive(Debug)]
pub struct BlindBoxArgs {
    /// Hash of the type that the opened boxes carry.
    pub series_hash: Vec<u8>,
    pub purchase_count: u8,
    /// Price of one box.
    pub price: u64,
    /// Lock of the buyer, who receives the opened boxes.
    pub buyer: Script,
}

pub struct BlindBoxArgsModel {
    pub series_hash: Seq<u8>,
    pub purchase_count: u8,
    pub price: u64,
    pub buyer: ScriptModel,
}

impl View for BlindBoxArgs {
    type V = BlindBoxArgsModel;

    open spec fn view(&self) -> BlindBoxArgsModel {
        BlindBoxArgsModel {
            series_hash: self.series_hash@,
            purchase_count: self.purchase_count,
            price: self.price,
            buyer: self.buyer@,
        }
    }
}

impl BlindBoxArgsModel {
    pub open spec fn wf(self) -> bool {
        self.series_hash.len() == HASH_SIZE && self.buyer.wf()
    }
}

/// The byte layout of the arguments: series hash (32 bytes), count (1 byte),
/// price (8 bytes, little-endian), then the buyer's serialised lock.
pub open spec fn args_bytes(a: BlindBoxArgsModel) -> Seq<u8> {
    a.series_hash + seq![a.purchase_count] + le_u64_bytes(a.price) + script_bytes(a.buyer)
}

/// Whether `b` lays out some well-formed arguments.
pub open spec fn is_args_bytes(b: Seq<u8>) -> bool {
    exists|a: BlindBoxArgsModel| a.wf() && #[trigger] args_bytes(a) == b
}

/// The arguments laid out in `b`.
pub open spec fn args_of(b: Seq<u8>) -> BlindBoxArgsModel
    recommends
        is_args_bytes(b),
{
    choose|a: BlindBoxArgsModel| a.wf() && #[trigger] args_bytes(a) == b
}

/// Encoding the arguments and reading them back gives the same series hash,
/// count, price and buyer lock: the layout is readable, and no two
/// well-formed arguments share it.
pub proof fn lemma_purchase_args_round_trip(a: BlindBoxArgsModel)
    requires
        a.wf(),
    ensures
        is_args_bytes(args_bytes(a)),
        args_of(args_bytes(a)) == a,
{
    assert(is_args_bytes(args_bytes(a)));
    let b = args_of(args_bytes(a));
    lemma_args_bytes_injective(a, b);
}

proof fn lemma_args_bytes_injective(a: BlindBoxArgsModel, b: BlindBoxArgsModel)
    requires
        a.wf(),
        b.wf(),
        args_bytes(a) == args_bytes(b),
    ensures
        a == b,
{
    lemma_u64_value_round_trip(a.price);
    lemma_u64_value_round_trip(b.price);
    let x = args_bytes(a);
    let y = args_bytes(b);
    lemma_script_bytes_len(a.buyer);
    lemma_script_bytes_len(b.buyer);
    assert(x.subrange(0, 32) =~= a.series_hash);
    assert(y.subrange(0, 32) =~= b.series_hash);
    assert(x[32] == a.purchase_count);
    assert(y[32] == b.purchase_count);
    assert(x.subrange(33, 41) =~= le_u64_bytes(a.price));
    assert(y.subrange(33, 41) =~= le_u64_bytes(b.price));
    assert(x.subrange(41, x.len() as int) =~= script_bytes(a.buyer));
    assert(y.subrange(41, y.len() as int) =~= script_bytes(b.buyer));
    lemma_script_bytes_injective(a.buyer, b.buyer);
}

impl BlindBoxArgs {
    /// Lays the arguments out in bytes.
    pub fn encode(&self) -> (r: Vec<u8>)
        requires
            self@.wf(),
        ensures
            r@ == args_bytes(self@),
    {
        let mut out: Vec<u8> = Vec::new();
        extend_bytes(&mut out, self.series_hash.as_slice());
        out.push(self.purchase_count);
        push_u64_le(&mut out, self.price);
        let buyer = self.buyer.to_bytes();
        extend_bytes(&mut out, buyer.as_slice());
        assert(out@ =~= args_bytes(self@));
        out
    }

    /// Reads the arguments back from bytes; `None` when `b` lays out none.
    pub fn decode(b: &[u8]) -> (r: Option<BlindBoxArgs>)
        ensures
            r is Some <==> is_args_bytes(b@),
            r matches Some(a) ==> a@.wf() && args_bytes(a@) == b@ && a@ == args_of(b@),
    {
        if b.len() < ARGS_HEADER_SIZE {
            proof {
                if is_args_bytes(b@) {
                    let a = args_of(b@);
                    lemma_script_bytes_len(a.buyer);
                }
            }
            return None;
        }
        let tail = copy_range(b, ARGS_HEADER_SIZE, b.len());
        match Script::from_slice(tail.as_slice()) {
            None => {
                proof {
                    if is_args_bytes(b@) {
                        let a = args_of(b@);
                        assert(b@.subrange(41, b@.len() as int) =~= script_bytes(a.buyer));
                        assert(a.buyer.wf() && script_bytes(a.buyer) == tail@);
                    }
                }
                None
            },
            Some(buyer) => {
                let a = BlindBoxArgs {
                    series_hash: copy_range(b, 0, 32),
                    purchase_count: b[32],
                    price: read_u64_le(b, 33),
                    buyer,
                };
                proof {
                    lemma_u64_bytes_round_trip(b@.subrange(33, 41));
                    assert(args_bytes(a@) =~= b@);
                    assert(is_args_bytes(b@));
                    lemma_args_bytes_injective(a@, args_of(b@));
                }
                Some(a)
            },
        }
    }
}

/// Where the blind-box contract lives and what a box costs.
#[derive(Debug)]
pub struct BlindBoxConfig {
    /// Code hash of the blind-box type script.
    pub code_hash: Vec<u8>,
    pub hash_type: u8,
    /// Price of one box.
    pub price: u64,
    /// The type that opened boxes carry; the purchase records its hash.
    pub series: Script,
}

pub struct BlindBoxConfigModel {
    pub code_hash: Seq<u8>,
    pub hash_type: u8,
    pub price: u64,
    pub series: ScriptModel,
}

impl View for BlindBoxConfig {
    type V = BlindBoxConfigModel;

    open spec fn view(&self) -> BlindBoxConfigModel {
        BlindBoxConfigModel {
            code_hash: self.code_hash@,
            hash_type: self.hash_type,
            price: self.price,
            series: self.series@,
        }
    }
}

impl BlindBoxConfigModel {
    pub open spec fn wf(self) -> bool {
        self.code_hash.len() == HASH_SIZE && self.series.wf()
    }

    /// The blind-box type script with the given arguments.
    pub open spec fn type_script(self, args: Seq<u8>) -> ScriptModel {
        ScriptModel { code_hash: self.code_hash, hash_type: self.hash_type, args }
    }

    /// The arguments of a purchase of `count` boxes by `buyer`.
    pub open spec fn purchase_args(self, buyer: ScriptModel, count: u8) -> BlindBoxArgsModel {
        BlindBoxArgsModel {
            series_hash: script_hash(self.series),
            purchase_count: count,
            price: self.price,
            buyer,
        }
    }
}

impl BlindBoxConfig {
    /// A copy of this configuration.
    pub fn duplicate(&self) -> (r: BlindBoxConfig)
        ensures
            r@ == self@,
    {
        let code_hash = copy_range(self.code_hash.as_slice(), 0, self.code_hash.len());
        assert(code_hash@ =~= self.code_hash@);
        BlindBoxConfig {
            code_hash,
            hash_type: self.hash_type,
            price: self.price,
            series: self.series.duplicate(),
        }
    }

    fn type_script(&self, args: Vec<u8>) -> (r: Script)
        ensures
            r@ == self@.type_script(args@),
    {
        let code_hash = copy_range(self.code_hash.as_slice(), 0, self.code_hash.len());
        assert(code_hash@ =~= self.code_hash@);
        Script::new(code_hash, self.hash_type, args)
    }

    fn purchase_args(&self, buyer: Script, count: u8) -> (r: BlindBoxArgs)
        requires
            self@.series.wf(),
        ensures
            r@ == self@.purchase_args(buyer@, count),
            r@.series_hash.len() == HASH_SIZE,
    {
        BlindBoxArgs {
            series_hash: self.series.hash(),
            purchase_count: count,
            price: self.price,
            buyer,
        }
    }
}

/// The out point that stands for the blind-box contract in a simulation.
pub open spec fn simulated_contract() -> OutPointModel {
    OutPointModel { tx_hash: Seq::new(32, |i: int| 0u8), index: 0 }
}

/// The out point of the purchase cell that a simulation seeds.
pub open spec fn simulated_purchase() -> OutPointModel {
    OutPointModel { tx_hash: Seq::new(32, |i: int| 0xffu8), index: 0 }
}

fn filled_hash(byte: u8) -> (r: Vec<u8>)
    ensures
        r@ == Seq::new(32, |i: int| byte),
{
    let mut v: Vec<u8> = Vec::new();
    let mut i: usize = 0;
    while i < 32
        invariant
            i <= 32,
            v@ == Seq::new(i as nat, |k: int| byte),
        decreases 32 - i,
    {
        v.push(byte);
        i = i + 1;
        assert(v@ =~= Seq::new(i as nat, |k: int| byte));
    }
    v
}

/// Adds the blind-box contract as a code dependency: the recorded
/// deployment when there is one, else the simulation's stand-in.
#[derive(Debug)]
pub struct AddBlindBoxCelldep {
    pub deployment: Option<DeploymentRecord>,
}

impl AddBlindBoxCelldep {
    pub open spec fn effect(self, ws: WorkspaceModel) -> Result<WorkspaceModel, OpError> {
        let p = match self.deployment {
            Some(rec) => if is_hex(rec.tx_hash@) && hex_bytes(rec.tx_hash@).len() == HASH_SIZE
                && rec.out_index <= u32::MAX {
                Some(OutPointModel { tx_hash: hex_bytes(rec.tx_hash@), index: rec.out_index as u32 })
            } else {
                None
            },
            None => Some(simulated_contract()),
        };
        match p {
            None => Err(OpError::BadHash),
            Some(p) => {
                let w = ws.with_cell_dep(CellDepModel { out_point: p, dep_type: DepType::Code });
                if w.fits() {
                    Ok(w)
                } else {
                    Err(OpError::Overflow)
                }
            },
        }
    }

    pub fn run(self, ws: &mut Workspace) -> (r: Result<(), OpError>)
        requires
            old(ws).wf(),
        ensures
            final(ws).wf(),
            match self.effect(old(ws)@) {
                Ok(w) => r is Ok && final(ws)@ == w,
                Err(e) => r == Err::<(), OpError>(e),
            },
    {
        let out_point = match &self.deployment {
            Some(rec) => {
                let hash = match from_hex(rec.tx_hash.as_str()) {
                    Ok(h) => h,
                    Err(_) => {
                        return Err(OpError::BadHash);
                    },
                };
                if hash.len() != HASH_SIZE || rec.out_index > u32::MAX as usize {
                    return Err(OpError::BadHash);
                }
                OutPoint::new(hash, rec.out_index as u32)
            },
            None => OutPoint::new(filled_hash(0), 0),
        };
        ws.push_cell_dep(CellDep::new(out_point, DepType::Code))
    }
}

/// Adds the purchase cell: guarded by the server's lock, typed by the
/// blind-box script with the purchase recorded in its arguments, holding the
/// payment.
#[derive(Debug)]
pub struct AddBlindBoxOutputCell {
    pub config: BlindBoxConfig,
    pub server: Script,
    pub buyer: Script,
    pub purchase_count: u8,
}

impl AddBlindBoxOutputCell {
    pub open spec fn effect(self, ws: WorkspaceModel) -> Result<WorkspaceModel, OpError> {
        let cfg = self.config@;
        if !cfg.series.wf() || !self.buyer@.wf() {
            Err(OpError::MalformedScript)
        } else if cfg.price * self.purchase_count > u64::MAX {
            Err(OpError::Overflow)
        } else {
            let args = args_bytes(cfg.purchase_args(self.buyer@, self.purchase_count));
            add_output(
                ws,
                CellOutputModel {
                    capacity: (cfg.price * self.purchase_count) as u64,
                    lock: self.server@,
                    type_script: Some(cfg.type_script(args)),
                    data: Seq::empty(),
                },
                true,
            )
        }
    }

    pub fn run(self, ws: &mut Workspace) -> (r: Result<(), OpError>)
        requires
            old(ws).wf(),
        ensures
            final(ws).wf(),
            match self.effect(old(ws)@) {
                Ok(w) => r is Ok && final(ws)@ == w,
                Err(e) => r == Err::<(), OpError>(e),
            },
    {
        let AddBlindBoxOutputCell { config, server, buyer, purchase_count } = self;
        if !(config.series.code_hash.len() == HASH_SIZE && config.series.args.len() <= (u32::MAX
            - 53) as usize) || !(buyer.code_hash.len() == HASH_SIZE && buyer.args.len() <= (u32::MAX
            - 53) as usize) {
            return Err(OpError::MalformedScript);
        }
        let capacity = match config.price.checked_mul(purchase_count as u64) {
            Some(c) => c,
            None => {
                return Err(OpError::Overflow);
            },
        };
        let args = config.purchase_args(buyer, purchase_count);
        proof {
            lemma_script_bytes_len(args@.buyer);
        }
        let bytes = args.encode();
        let type_script = config.type_script(bytes);
        place_output(ws, CellOutput::new(capacity, server, Some(type_script), Vec::new()), true)
    }
}

/// Whether the last output of `w` carries, in its type arguments, a layout
/// that reads back as `a`.
pub open spec fn last_output_reads_back(w: WorkspaceModel, a: BlindBoxArgsModel) -> bool {
    &&& w.outputs.len() > 0
    &&& match w.outputs.last().type_script {
        Some(t) => is_args_bytes(t.args) && args_of(t.args) == a,
        None => false,
    }
}

/// The purchase cell that `AddBlindBoxOutputCell` adds reads back, on the
/// opening side, as the very purchase that built it: same series hash,
/// count, price and buyer lock.
pub proof fn lemma_purchase_cell_reads_back(op: AddBlindBoxOutputCell, ws: WorkspaceModel)
    requires
        script_hash(op.config@.series).len() == HASH_SIZE,
    ensures
        op.effect(ws) is Ok ==> last_output_reads_back(
            op.effect(ws)->Ok_0,
            op.config@.purchase_args(op.buyer@, op.purchase_count),
        ),
{
    let a = op.config@.purchase_args(op.buyer@, op.purchase_count);
    if op.effect(ws) is Ok {
        lemma_purchase_args_round_trip(a);
        let w = op.effect(ws)->Ok_0;
        assert(w.outputs.last().type_script == Some(op.config@.type_script(args_bytes(a))));
    }
}

/// Adds a purchase cell of the server as input. A simulation seeds one that
/// records a purchase of five boxes by the fixture lock.
#[derive(Debug)]
pub struct AddBlindBoxPurchaseInputCell {
    pub config: BlindBoxConfig,
    pub server: Script,
}

impl AddBlindBoxPurchaseInputCell {
    /// The purchase cell that a simulation seeds.
    pub open spec fn simulated_cell(self, chain: ChainModel) -> LiveCellModel {
        let cfg = self.config@;
        LiveCellModel {
            out_point: simulated_purchase(),
            output: CellOutputModel {
                capacity: (cfg.price * SIMULATED_PURCHASE_COUNT) as u64,
                lock: self.server@,
                type_script: Some(
                    cfg.type_script(
                        args_bytes(cfg.purchase_args(chain.fixture_lock, SIMULATED_PURCHASE_COUNT)),
                    ),
                ),
                data: Seq::empty(),
            },
        }
    }

    pub open spec fn effect(self, chain: ChainModel, ws: WorkspaceModel) -> Result<
        WorkspaceModel,
        OpError,
    > {
        let cfg = self.config@;
        if chain.simulated {
            if !cfg.series.wf() || !chain.fixture_lock.wf() {
                Err(OpError::MalformedScript)
            } else if cfg.price * SIMULATED_PURCHASE_COUNT > u64::MAX {
                Err(OpError::Overflow)
            } else {
                add_inputs(ws, seq![self.simulated_cell(chain)])
            }
        } else {
            add_queried_inputs(
                chain,
                ws,
                self.server@,
                Some(cfg.type_script(Seq::empty())),
                SearchMode::Prefix,
                1,
            )
        }
    }

    pub fn run(self, chain: &ChainState, ws: &mut Workspace) -> (r: Result<(), OpError>)
        requires
            old(ws).wf(),
        ensures
            final(ws).wf(),
            match self.effect(chain@, old(ws)@) {
                Ok(w) => r is Ok && final(ws)@ == w,
                Err(e) => r == Err::<(), OpError>(e),
            },
    {
        let ghost spec_self = self;
        let AddBlindBoxPurchaseInputCell { config, server } = self;
        if chain.simulated {
            let fixture = &chain.fixture_lock;
            if !(config.series.code_hash.len() == HASH_SIZE && config.series.args.len() <= (u32::MAX
                - 53) as usize) || !(fixture.code_hash.len() == HASH_SIZE && fixture.args.len() <= (
            u32::MAX - 53) as usize) {
                return Err(OpError::MalformedScript);
            }
            let capacity = match config.price.checked_mul(SIMULATED_PURCHASE_COUNT as u64) {
                Some(c) => c,
                None => {
                    return Err(OpError::Overflow);
                },
            };
            let args = config.purchase_args(fixture.duplicate(), SIMULATED_PURCHASE_COUNT);
            proof {
                lemma_script_bytes_len(args@.buyer);
            }
            let bytes = args.encode();
            let type_script = config.type_script(bytes);
            let cell = LiveCell::new(
                OutPoint::new(filled_hash(0xff), 0),
                CellOutput::new(capacity, server, Some(type_script), Vec::new()),
            );
            assert(cell@ == spec_self.simulated_cell(chain@));
            let v = vec![cell];
            assert(live_cells_view(v@) =~= seq![spec_self.simulated_cell(chain@)]);
            push_inputs(ws, &v)
        } else {
            let type_script = config.type_script(Vec::new());
            assert(type_script@ == config@.type_script(Seq::empty()));
            push_queried_inputs(chain, ws, &server, &Some(type_script), SearchMode::Prefix, 1)
        }
    }
}

/// `n` outputs of `cell`, each with capacity raised to its footprint.
pub open spec fn mint_outputs(ws: WorkspaceModel, cell: CellOutputModel, n: nat) -> Result<
    WorkspaceModel,
    OpError,
>
    decreases n,
{
    if n == 0 {
        Ok(ws)
    } else {
        match add_output(ws, cell, false) {
            Ok(w) => mint_outputs(w, cell, (n - 1) as nat),
            Err(e) => Err(e),
        }
    }
}

/// The cell minted for the buyer when a box is opened.
pub open spec fn opened_box(buyer: ScriptModel, series: ScriptModel) -> CellOutputModel {
    CellOutputModel { capacity: 0, lock: buyer, type_script: Some(series), data: Seq::empty() }
}

/// Reads the purchase back from a purchase cell among the inputs, and mints
/// one cell of the series for the buyer per box bought. An index of
/// `usize::MAX` picks the last input.
#[derive(Debug)]
pub struct AddBlindBoxOutputCells {
    pub config: BlindBoxConfig,
    pub purchase_cell_index: usize,
}

impl AddBlindBoxOutputCells {
    pub open spec fn effect(self, ws: WorkspaceModel) -> Result<WorkspaceModel, OpError> {
        let idx: int = if self.purchase_cell_index == usize::MAX {
            ws.inputs.len() - 1
        } else {
            self.purchase_cell_index as int
        };
        if ws.inputs.len() == 0 || idx >= ws.inputs.len() {
            Err(OpError::NoPurchaseCell)
        } else {
            match ws.inputs[idx].output.type_script {
                None => Err(OpError::BadArgs),
                Some(t) => if !is_args_bytes(t.args) {
                    Err(OpError::BadArgs)
                } else {
                    let a = args_of(t.args);
                    mint_outputs(ws, opened_box(a.buyer, self.config@.series), a.purchase_count as nat)
                },
            }
        }
    }

    pub fn run(self, ws: &mut Workspace) -> (r: Result<(), OpError>)
        requires
            old(ws).wf(),
        ensures
            final(ws).wf(),
            match self.effect(old(ws)@) {
                Ok(w) => r is Ok && final(ws)@ == w,
                Err(e) => r == Err::<(), OpError>(e),
            },
    {
        let n = ws.inputs().len();
        if n == 0 {
            return Err(OpError::NoPurchaseCell);
        }
        let idx = if self.purchase_cell_index == usize::MAX {
            n - 1
        } else {
            self.purchase_cell_index
        };
        if idx >= n {
            return Err(OpError::NoPurchaseCell);
        }
        let args = match &ws.inputs()[idx].output.type_script {
            None => {
                return Err(OpError::BadArgs);
            },
            Some(t) => match BlindBoxArgs::decode(t.args.as_slice()) {
                None => {
                    return Err(OpError::BadArgs);
                },
                Some(a) => a,
            },
        };
        let ghost series = self.config@.series;
        let ghost cell = opened_box(args@.buyer, series);
        let count = args.purchase_count;
        assert(self.effect(old(ws)@) == mint_outputs(old(ws)@, cell, count as nat));
        let mut i: u8 = 0;
        while i < count
            invariant
                i <= count,
                ws.wf(),
                series == self.config@.series,
                cell == opened_box(args@.buyer, series),
                self.effect(old(ws)@) == mint_outputs(old(ws)@, cell, count as nat),
                mint_outputs(ws@, cell, (count - i) as nat) == mint_outputs(
                    old(ws)@,
                    cell,
                    count as nat,
                ),
            decreases count - i,
        {
            let out = CellOutput::new(
                0,
                args.buyer.duplicate(),
                Some(self.config.series.duplicate()),
                Vec::new(),
            );
            assert(out@ =~= cell);
            let ghost before = ws@;
            let placed = place_output(ws, out, false);
            if let Err(e) = placed {
                assert(add_output(before, cell, false) == Err::<WorkspaceModel, OpError>(e));
                assert(mint_outputs(before, cell, (count - i) as nat) == Err::<WorkspaceModel, OpError>(e));
                return Err(e);
            }
            assert(mint_outputs(before, cell, (count - i) as nat) == mint_outputs(ws@, cell, (count - i - 1) as nat));
            i = i + 1;
        }
        Ok(())
    }
}

/// The operations of a purchase: the contract as dependency, then the
/// purchase cell for `purchase_count` boxes bought by `buyer` and kept by
/// the server. Inputs, balance and signatures are left to later operations.
pub fn build_purchase_blind_box(
    deployment: Option<DeploymentRecord>,
    config: BlindBoxConfig,
    purchase_count: u8,
    buyer: Script,
    blind_box_server: Script,
) -> (r: Instruction)
    ensures
        r.operations@.len() == 2,
        r.operations@[0] == Operation::AddBlindBoxCelldep(AddBlindBoxCelldep { deployment }),
        r.operations@[1] matches Operation::AddBlindBoxOutputCell(op) && op.config@ == config@
            && op.server@ == blind_box_server@ && op.buyer@ == buyer@ && op.purchase_count
            == purchase_count,
{
    Instruction::new(
        vec![
            Operation::AddBlindBoxCelldep(AddBlindBoxCelldep { deployment }),
            Operation::AddBlindBoxOutputCell(
                AddBlindBoxOutputCell { config, server: blind_box_server, buyer, purchase_count },
            ),
        ],
    )
}

/// The operations of an opening: the contract as dependency, a purchase cell
/// of the server as input, then one cell of the series for the buyer per box
/// it records.
pub fn build_open_blind_box(
    deployment: Option<DeploymentRecord>,
    config: BlindBoxConfig,
    blind_box_server: Script,
) -> (r: Instruction)
    ensures
        r.operations@.len() == 3,
        r.operations@[0] == Operation::AddBlindBoxCelldep(AddBlindBoxCelldep { deployment }),
        r.operations@[1] matches Operation::AddBlindBoxPurchaseInputCell(op) && op.config@
            == config@ && op.server@ == blind_box_server@,
        r.operations@[2] matches Operation::AddBlindBoxOutputCells(op) && op.config@ == config@
            && op.purchase_cell_index == usize::MAX,
{
    let input_config = config.duplicate();
    Instruction::new(
        vec![
            Operation::AddBlindBoxCelldep(AddBlindBoxCelldep { deployment }),
            Operation::AddBlindBoxPurchaseInputCell(
                AddBlindBoxPurchaseInputCell { config: input_config, server: blind_box_server },
            ),
            Operation::AddBlindBoxOutputCells(
                AddBlindBoxOutputCells { config, purchase_cell_index: usize::MAX },
            ),
        ],
    )
}

} // verus!
