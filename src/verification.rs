//! The verification tree: named nodes that run one after another over a
//! shared context, the first from the root name, each naming the next, and
//! the blind-box nodes that accept or reject a transaction.
use vstd::prelude::*;

use crate::blind_box::{args_of, is_args_bytes, BlindBoxArgs};
use crate::cell::{CellOutput, CellOutputModel, LiveCellModel};
use crate::codec::{bytes_eq, copy_range};
use crate::script::{script_hash, Script, ScriptModel, HASH_SIZE};
use crate::workspace::{live_cells_view, outputs_view, Workspace, WorkspaceModel};

verus! {

/// The first code of the errors that the blind-box protocol defines.
pub const CUSTOM_ERROR_START: i8 = 64;

/// Name of the node every run starts at.
pub const TREE_ROOT: &'static str = "root";

/// Name of the node that checks a purchase.
pub const PURCHASE_NODE: &'static str = "purchase";

/// Name of the node that checks an opening.
pub const OPEN_NODE: &'static str = "open";

/// Why a verification run rejects the transaction.
#[derive(Debug, Clone, Copy, PartialEq, Eq, Structural)]
pub enum VerifyError {
    /// A cell that a node reads is not in the transaction.
    IndexOutOfBound,
    /// A node named a successor that the tree does not have: a
    /// configuration error.
    UnknownVerifier,
    /// The run used up its step budget.
    CyclesExceeded,
    /// The script arguments are not in the blind-box layout.
    BadArgs,
    /// The blind-box cell is both input and output, or neither.
    UnknownOperation,
    /// The purchase cell holds less than price times count.
    InsufficientPay,
    /// No input is guarded by the buyer's lock.
    NoPayerFound,
    /// Fewer boxes minted for the buyer than were bought.
    InsufficientOpen,
}

impl VerifyError {
    pub open spec fn code_spec(self) -> i8 {
        match self {
            VerifyError::IndexOutOfBound => 1,
            VerifyError::UnknownVerifier => 10,
            VerifyError::CyclesExceeded => 11,
            VerifyError::BadArgs => CUSTOM_ERROR_START,
            VerifyError::UnknownOperation => (CUSTOM_ERROR_START + 1) as i8,
            VerifyError::InsufficientPay => (CUSTOM_ERROR_START + 2) as i8,
            VerifyError::NoPayerFound => (CUSTOM_ERROR_START + 3) as i8,
            VerifyError::InsufficientOpen => (CUSTOM_ERROR_START + 4) as i8,
        }
    }

    /// The exit code the script reports for this error.
    pub fn code(&self) -> (r: i8)
        ensures
            r == self.code_spec(),
    {
        match self {
            VerifyError::IndexOutOfBound => 1,
            VerifyError::UnknownVerifier => 10,
            VerifyError::CyclesExceeded => 11,
            VerifyError::BadArgs => CUSTOM_ERROR_START,
            VerifyError::UnknownOperation => CUSTOM_ERROR_START + 1,
            VerifyError::InsufficientPay => CUSTOM_ERROR_START + 2,
            VerifyError::NoPayerFound => CUSTOM_ERROR_START + 3,
            VerifyError::InsufficientOpen => CUSTOM_ERROR_START + 4,
        }
    }
}

/// What a script reads of one cell.
#[derive(Debug)]
pub struct CellView {
    pub capacity: u64,
    pub lock: Script,
    /// Hash of the cell's type script, if it has one.
    pub type_hash: Option<Vec<u8>>,
}

pub struct CellViewModel {
    pub capacity: u64,
    pub lock: ScriptModel,
    pub type_hash: Option<Seq<u8>>,
}

pub open spec fn opt_bytes_view(b: Option<Vec<u8>>) -> Option<Seq<u8>> {
    match b {
        Some(b) => Some(b@),
        None => None,
    }
}

impl View for CellView {
    type V = CellViewModel;

    open spec fn view(&self) -> CellViewModel {
        CellViewModel {
            capacity: self.capacity,
            lock: self.lock@,
            type_hash: opt_bytes_view(self.type_hash),
        }
    }
}

pub open spec fn cells_view(v: Seq<CellView>) -> Seq<CellViewModel> {
    v.map_values(|c: CellView| c@)
}

/// What a running script sees: its arguments, the cells of its group (those
/// it is the type of) on either side, and every input and output.
#[derive(Debug)]
pub struct ScriptEnv {
    pub args: Vec<u8>,
    pub group_inputs: Vec<CellView>,
    pub group_outputs: Vec<CellView>,
    pub inputs: Vec<CellView>,
    pub outputs: Vec<CellView>,
}

pub struct ScriptEnvModel {
    pub args: Seq<u8>,
    pub group_inputs: Seq<CellViewModel>,
    pub group_outputs: Seq<CellViewModel>,
    pub inputs: Seq<CellViewModel>,
    pub outputs: Seq<CellViewModel>,
}

impl View for ScriptEnv {
    type V = ScriptEnvModel;

    open spec fn view(&self) -> ScriptEnvModel {
        ScriptEnvModel {
            args: self.args@,
            group_inputs: cells_view(self.group_inputs@),
            group_outputs: cells_view(self.group_outputs@),
            inputs: cells_view(self.inputs@),
            outputs: cells_view(self.outputs@),
        }
    }
}

/// The context the nodes of one run share.
#[derive(Debug)]
pub struct GlobalContext {
    pub purchase_count: u8,
    pub price: u64,
    pub buyer_lock_script: Script,
    pub series_hash: Vec<u8>,
}

pub struct GlobalContextModel {
    pub purchase_count: u8,
    pub price: u64,
    pub buyer_lock_script: ScriptModel,
    pub series_hash: Seq<u8>,
}

impl View for GlobalContext {
    type V = GlobalContextModel;

    open spec fn view(&self) -> GlobalContextModel {
        GlobalContextModel {
            purchase_count: self.purchase_count,
            price: self.price,
            buyer_lock_script: self.buyer_lock_script@,
            series_hash: self.series_hash@,
        }
    }
}

impl GlobalContextModel {
    pub open spec fn initial() -> GlobalContextModel {
        GlobalContextModel {
            purchase_count: 0,
            price: 0,
            buyer_lock_script: ScriptModel {
                code_hash: Seq::empty(),
                hash_type: 0,
                args: Seq::empty(),
            },
            series_hash: Seq::empty(),
        }
    }
}

impl GlobalContext {
    /// The context a run starts with: nothing read yet.
    pub fn new() -> (r: GlobalContext)
        ensures
            r@ == GlobalContextModel::initial(),
    {
        let r = GlobalContext {
            purchase_count: 0,
            price: 0,
            buyer_lock_script: Script::new(Vec::new(), 0, Vec::new()),
            series_hash: Vec::new(),
        };
        assert(r@.buyer_lock_script.code_hash =~= Seq::<u8>::empty());
        assert(r@.buyer_lock_script.args =~= Seq::<u8>::empty());
        assert(r@.series_hash =~= Seq::<u8>::empty());
        r
    }
}

/// The nodes a blind-box tree is built from.
#[derive(Debug, Clone, Copy, PartialEq, Eq, Structural)]
pub enum Verifier {
    /// Reads the arguments into the context and picks the sub-protocol.
    Entry,
    /// Checks a purchase.
    Purchase,
    /// Checks an opening.
    Open,
}

/// Whether `c` is guarded by `lock` and carries the type `series`.
pub open spec fn is_box_for(c: CellViewModel, lock: ScriptModel, series: Seq<u8>) -> bool {
    c.lock == lock && c.type_hash == Some(series)
}

/// How many of `cells` are boxes of `series` for `lock`.
pub open spec fn count_boxes(cells: Seq<CellViewModel>, lock: ScriptModel, series: Seq<u8>) -> nat
    decreases cells.len(),
{
    if cells.len() == 0 {
        0
    } else {
        count_boxes(cells.drop_last(), lock, series) + if is_box_for(cells.last(), lock, series) {
            1nat
        } else {
            0nat
        }
    }
}

/// Whether some input is guarded by `lock`.
pub open spec fn has_payer(inputs: Seq<CellViewModel>, lock: ScriptModel) -> bool {
    exists|i: int| 0 <= i < inputs.len() && (#[trigger] inputs[i]).lock == lock
}

/// The context the entry node fills from the arguments.
pub open spec fn context_of(args: Seq<u8>) -> GlobalContextModel {
    let a = args_of(args);
    GlobalContextModel {
        purchase_count: a.purchase_count,
        price: a.price,
        buyer_lock_script: a.buyer,
        series_hash: a.series_hash,
    }
}

impl Verifier {
    /// One step of a run: the new context and the name of the next node
    /// (none: the run accepts), or the error that rejects.
    pub open spec fn step(self, env: ScriptEnvModel, ctx: GlobalContextModel) -> Result<
        (GlobalContextModel, Option<Seq<char>>),
        VerifyError,
    > {
        match self {
            Verifier::Entry => {
                if !is_args_bytes(env.args) {
                    Err(VerifyError::BadArgs)
                } else {
                    let in_input = env.group_inputs.len() > 0;
                    let in_output = env.group_outputs.len() > 0;
                    if !in_input && in_output {
                        Ok((context_of(env.args), Some(PURCHASE_NODE@)))
                    } else if in_input && !in_output {
                        Ok((context_of(env.args), Some(OPEN_NODE@)))
                    } else {
                        Err(VerifyError::UnknownOperation)
                    }
                }
            },
            Verifier::Purchase => {
                if env.group_outputs.len() == 0 {
                    Err(VerifyError::IndexOutOfBound)
                } else if env.group_outputs[0].capacity < ctx.price * ctx.purchase_count {
                    Err(VerifyError::InsufficientPay)
                } else if !has_payer(env.inputs, ctx.buyer_lock_script) {
                    Err(VerifyError::NoPayerFound)
                } else {
                    Ok((ctx, None))
                }
            },
            Verifier::Open => {
                if count_boxes(env.outputs, ctx.buyer_lock_script, ctx.series_hash)
                    < ctx.purchase_count {
                    Err(VerifyError::InsufficientOpen)
                } else {
                    Ok((ctx, None))
                }
            },
        }
    }

    /// Runs this node once.
    pub fn verify(&self, env: &ScriptEnv, ctx: &mut GlobalContext) -> (r: Result<
        Option<String>,
        VerifyError,
    >)
        ensures
            match self.step(env@, old(ctx)@) {
                Ok((c, next)) => r matches Ok(n) && final(ctx)@ == c && match n {
                    Some(s) => next == Some(s@),
                    None => next is None,
                },
                Err(e) => r == Err::<Option<String>, VerifyError>(e),
            },
    {
        match self {
            Verifier::Entry => {
                let args = match BlindBoxArgs::decode(env.args.as_slice()) {
                    Some(a) => a,
                    None => {
                        return Err(VerifyError::BadArgs);
                    },
                };
                let in_input = env.group_inputs.len() > 0;
                let in_output = env.group_outputs.len() > 0;
                let next = if !in_input && in_output {
                    PURCHASE_NODE
                } else if in_input && !in_output {
                    OPEN_NODE
                } else {
                    return Err(VerifyError::UnknownOperation);
                };
                ctx.purchase_count = args.purchase_count;
                ctx.price = args.price;
                ctx.buyer_lock_script = args.buyer;
                ctx.series_hash = args.series_hash;
                Ok(Some(next.to_owned()))
            },
            Verifier::Purchase => {
                if env.group_outputs.len() == 0 {
                    return Err(VerifyError::IndexOutOfBound);
                }
                let payment = env.group_outputs[0].capacity;
                let price = ctx.price as u128;
                let count = ctx.purchase_count as u128;
                assert(price * count < 0x1_0000_0000_0000_0000_0000) by (nonlinear_arith)
                    requires
                        price <= u64::MAX,
                        count <= u8::MAX,
                ;
                if (payment as u128) < price * count {
                    return Err(VerifyError::InsufficientPay);
                }
                let mut i: usize = 0;
                while i < env.inputs.len()
                    invariant
                        i <= env.inputs@.len(),
                        ctx@ == old(ctx)@,
                        *self == Verifier::Purchase,
                        env@.group_outputs.len() > 0,
                        env@.group_outputs[0].capacity >= ctx@.price * ctx@.purchase_count,
                        forall|j: int|
                            0 <= j < i ==> (#[trigger] env@.inputs[j]).lock
                                != ctx@.buyer_lock_script,
                    decreases env.inputs@.len() - i,
                {
                    if env.inputs[i].lock.same_as(&ctx.buyer_lock_script) {
                        assert(env@.inputs[i as int].lock == ctx@.buyer_lock_script);
                        return Ok(None);
                    }
                    i = i + 1;
                }
                Err(VerifyError::NoPayerFound)
            },
            Verifier::Open => {
                let mut count: usize = 0;
                let mut i: usize = 0;
                while i < env.outputs.len()
                    invariant
                        i <= env.outputs@.len(),
                        ctx@ == old(ctx)@,
                        *self == Verifier::Open,
                        count <= i,
                        count == count_boxes(
                            env@.outputs.subrange(0, i as int),
                            ctx@.buyer_lock_script,
                            ctx@.series_hash,
                        ),
                    decreases env.outputs@.len() - i,
                {
                    let c = &env.outputs[i];
                    let is_box = c.lock.same_as(&ctx.buyer_lock_script) && match &c.type_hash {
                        Some(h) => bytes_eq(h.as_slice(), ctx.series_hash.as_slice()),
                        None => false,
                    };
                    proof {
                        let s = env@.outputs.subrange(0, i + 1);
                        assert(s.drop_last() =~= env@.outputs.subrange(0, i as int));
                        assert(s.last() == c@);
                    }
                    if is_box {
                        count = count + 1;
                    }
                    i = i + 1;
                }
                assert(env@.outputs.subrange(0, i as int) =~= env@.outputs);
                if count < ctx.purchase_count as usize {
                    Err(VerifyError::InsufficientOpen)
                } else {
                    Ok(None)
                }
            },
        }
    }
}

/// The node a name stands for in `table`: its first entry of that name.
pub open spec fn resolve(table: Seq<(Seq<char>, Verifier)>, name: Seq<char>) -> Option<Verifier>
    decreases table.len(),
{
    if table.len() == 0 {
        None
    } else if table[0].0 == name {
        Some(table[0].1)
    } else {
        resolve(table.drop_first(), name)
    }
}

/// A run from the node named `name` with `fuel` steps left.
pub open spec fn run_tree(
    table: Seq<(Seq<char>, Verifier)>,
    env: ScriptEnvModel,
    ctx: GlobalContextModel,
    name: Seq<char>,
    fuel: nat,
) -> Result<(), VerifyError>
    decreases fuel,
{
    if fuel == 0 {
        Err(VerifyError::CyclesExceeded)
    } else {
        match resolve(table, name) {
            None => Err(VerifyError::UnknownVerifier),
            Some(node) => match node.step(env, ctx) {
                Err(e) => Err(e),
                Ok((c, None)) => Ok(()),
                Ok((c, Some(next))) => run_tree(table, env, c, next, (fuel - 1) as nat),
            },
        }
    }
}

/// A table of named nodes.
#[derive(Debug)]
pub struct VerificationTree {
    pub entries: Vec<(String, Verifier)>,
}

pub open spec fn entries_view(v: Seq<(String, Verifier)>) -> Seq<(Seq<char>, Verifier)> {
    v.map_values(|e: (String, Verifier)| (e.0@, e.1))
}

impl View for VerificationTree {
    type V = Seq<(Seq<char>, Verifier)>;

    open spec fn view(&self) -> Seq<(Seq<char>, Verifier)> {
        entries_view(self.entries@)
    }
}

/// The blind-box tree: root, purchase and open.
pub open spec fn blind_box_table() -> Seq<(Seq<char>, Verifier)> {
    seq![
        (TREE_ROOT@, Verifier::Entry),
        (PURCHASE_NODE@, Verifier::Purchase),
        (OPEN_NODE@, Verifier::Open),
    ]
}

impl VerificationTree {
    /// A tree with the given entries.
    pub fn new(entries: Vec<(String, Verifier)>) -> (r: VerificationTree)
        ensures
            r@ == entries_view(entries@),
    {
        VerificationTree { entries }
    }

    /// The blind-box tree.
    pub fn blind_box() -> (r: VerificationTree)
        ensures
            r@ == blind_box_table(),
    {
        let entries = vec![
            (TREE_ROOT.to_owned(), Verifier::Entry),
            (PURCHASE_NODE.to_owned(), Verifier::Purchase),
            (OPEN_NODE.to_owned(), Verifier::Open),
        ];
        let r = VerificationTree { entries };
        assert(r@ =~= blind_box_table());
        r
    }

    /// The node that `name` stands for.
    pub fn resolve(&self, name: &String) -> (r: Option<Verifier>)
        ensures
            r == resolve(self@, name@),
    {
        let ghost table = self@;
        let mut i: usize = 0;
        assert(table.subrange(0, table.len() as int) =~= table);
        while i < self.entries.len()
            invariant
                i <= self.entries@.len(),
                table == self@,
                resolve(table.subrange(i as int, table.len() as int), name@) == resolve(
                    table,
                    name@,
                ),
            decreases self.entries@.len() - i,
        {
            assert(table.subrange(i as int, table.len() as int).drop_first() =~= table.subrange(
                i + 1,
                table.len() as int,
            ));
            if self.entries[i].0 == *name {
                return Some(self.entries[i].1);
            }
            i = i + 1;
        }
        None
    }

    /// Runs the tree from its root with at most `max_steps` node runs:
    /// accepts with `Ok`, rejects with the first error.
    pub fn run(&self, env: &ScriptEnv, max_steps: usize) -> (r: Result<(), VerifyError>)
        ensures
            r == run_tree(self@, env@, GlobalContextModel::initial(), TREE_ROOT@, max_steps as nat),
    {
        let mut ctx = GlobalContext::new();
        let mut name: String = TREE_ROOT.to_owned();
        let mut fuel: usize = max_steps;
        loop
            invariant
                run_tree(self@, env@, ctx@, name@, fuel as nat) == run_tree(
                    self@,
                    env@,
                    GlobalContextModel::initial(),
                    TREE_ROOT@,
                    max_steps as nat,
                ),
            decreases fuel,
        {
            if fuel == 0 {
                return Err(VerifyError::CyclesExceeded);
            }
            let node = match self.resolve(&name) {
                Some(n) => n,
                None => {
                    return Err(VerifyError::UnknownVerifier);
                },
            };
            match node.verify(env, &mut ctx) {
                Err(e) => {
                    return Err(e);
                },
                Ok(None) => {
                    return Ok(());
                },
                Ok(Some(next)) => {
                    name = next;
                },
            }
            fuel = fuel - 1;
        }
    }
}

/// What the blind-box rules decide about a transaction, stated directly.
pub open spec fn blind_box_verdict(env: ScriptEnvModel) -> Result<(), VerifyError> {
    if !is_args_bytes(env.args) {
        Err(VerifyError::BadArgs)
    } else {
        let a = args_of(env.args);
        let in_input = env.group_inputs.len() > 0;
        let in_output = env.group_outputs.len() > 0;
        if in_input == in_output {
            Err(VerifyError::UnknownOperation)
        } else if in_output {
            if env.group_outputs[0].capacity < a.price * a.purchase_count {
                Err(VerifyError::InsufficientPay)
            } else if !has_payer(env.inputs, a.buyer) {
                Err(VerifyError::NoPayerFound)
            } else {
                Ok(())
            }
        } else if count_boxes(env.outputs, a.buyer, a.series_hash) < a.purchase_count {
            Err(VerifyError::InsufficientOpen)
        } else {
            Ok(())
        }
    }
}

/// Each name of the blind-box tree stands for its node.
proof fn lemma_blind_box_names()
    ensures
        resolve(blind_box_table(), TREE_ROOT@) == Some(Verifier::Entry),
        resolve(blind_box_table(), PURCHASE_NODE@) == Some(Verifier::Purchase),
        resolve(blind_box_table(), OPEN_NODE@) == Some(Verifier::Open),
{
    reveal_strlit("root");
    reveal_strlit("purchase");
    reveal_strlit("open");
    assert(TREE_ROOT@.len() == 4);
    assert(PURCHASE_NODE@.len() == 8);
    assert(OPEN_NODE@.len() == 4);
    assert(TREE_ROOT@[0] != OPEN_NODE@[0]);
    let t = blind_box_table();
    let t1 = t.drop_first();
    let t2 = t1.drop_first();
    assert(t1 =~= seq![(PURCHASE_NODE@, Verifier::Purchase), (OPEN_NODE@, Verifier::Open)]);
    assert(t2 =~= seq![(OPEN_NODE@, Verifier::Open)]);
    assert(resolve(t2, OPEN_NODE@) == Some(Verifier::Open));
    assert(resolve(t1, OPEN_NODE@) == Some(Verifier::Open));
    assert(resolve(t1, PURCHASE_NODE@) == Some(Verifier::Purchase));
}

/// Every name that a node of the blind-box tree passes on resolves in that
/// tree, so no run of it ends for want of a node.
pub proof fn lemma_blind_box_table_total(node: Verifier, env: ScriptEnvModel, ctx: GlobalContextModel)
    ensures
        node.step(env, ctx) matches Ok((c, Some(next))) ==> resolve(blind_box_table(), next)
            is Some,
{
    reveal_strlit("root");
    reveal_strlit("purchase");
    reveal_strlit("open");
    lemma_blind_box_names();
}

/// A run of the blind-box tree from its root, with at least three steps to
/// spend, decides exactly as the blind-box rules say.
pub proof fn lemma_blind_box_tree_decides(env: ScriptEnvModel, fuel: nat)
    requires
        fuel >= 3,
    ensures
        run_tree(blind_box_table(), env, GlobalContextModel::initial(), TREE_ROOT@, fuel)
            == blind_box_verdict(env),
{
    lemma_blind_box_names();
    let t = blind_box_table();
    let ctx0 = GlobalContextModel::initial();
    if is_args_bytes(env.args) {
        let c = context_of(env.args);
        let in_input = env.group_inputs.len() > 0;
        let in_output = env.group_outputs.len() > 0;
        if !in_input && in_output {
            assert(run_tree(t, env, ctx0, TREE_ROOT@, fuel) == run_tree(
                t,
                env,
                c,
                PURCHASE_NODE@,
                (fuel - 1) as nat,
            ));
        } else if in_input && !in_output {
            assert(run_tree(t, env, ctx0, TREE_ROOT@, fuel) == run_tree(
                t,
                env,
                c,
                OPEN_NODE@,
                (fuel - 1) as nat,
            ));
        }
    }
}

/// The hash a script reads for a cell's type: that of a well-formed type
/// script, none otherwise.
pub open spec fn type_hash_of(t: Option<ScriptModel>) -> Option<Seq<u8>> {
    match t {
        Some(s) => if s.wf() {
            Some(script_hash(s))
        } else {
            None
        },
        None => None,
    }
}

pub open spec fn view_of_cell(c: CellOutputModel) -> CellViewModel {
    CellViewModel { capacity: c.capacity, lock: c.lock, type_hash: type_hash_of(c.type_script) }
}

pub open spec fn views_of(cells: Seq<CellOutputModel>) -> Seq<CellViewModel> {
    Seq::new(cells.len(), |i: int| view_of_cell(cells[i]))
}

/// The cells among `cells` whose type is `script`, in order.
pub open spec fn group_of(cells: Seq<CellOutputModel>, script: ScriptModel) -> Seq<CellViewModel>
    decreases cells.len(),
{
    if cells.len() == 0 {
        Seq::empty()
    } else if cells[0].type_script == Some(script) {
        seq![view_of_cell(cells[0])] + group_of(cells.drop_first(), script)
    } else {
        group_of(cells.drop_first(), script)
    }
}

pub open spec fn spent_outputs(ws: WorkspaceModel) -> Seq<CellOutputModel> {
    ws.inputs.map_values(|c: LiveCellModel| c.output)
}

/// What `script`, as a type script, sees of the transaction `ws`.
pub open spec fn env_of(ws: WorkspaceModel, script: ScriptModel) -> ScriptEnvModel {
    ScriptEnvModel {
        args: script.args,
        group_inputs: group_of(spent_outputs(ws), script),
        group_outputs: group_of(ws.outputs, script),
        inputs: views_of(spent_outputs(ws)),
        outputs: views_of(ws.outputs),
    }
}

fn cell_view(c: &CellOutput) -> (r: CellView)
    ensures
        r@ == view_of_cell(c@),
{
    let type_hash = match &c.type_script {
        Some(t) => if t.code_hash.len() == HASH_SIZE && t.args.len() <= (u32::MAX - 53) as usize {
            Some(t.hash())
        } else {
            None
        },
        None => None,
    };
    CellView { capacity: c.capacity, lock: c.lock.duplicate(), type_hash }
}

fn cell_views(cells: &Vec<CellOutput>) -> (r: Vec<CellView>)
    ensures
        cells_view(r@) == views_of(outputs_view(cells@)),
{
    let mut r: Vec<CellView> = Vec::new();
    let mut i: usize = 0;
    while i < cells.len()
        invariant
            i <= cells@.len(),
            cells_view(r@) == views_of(outputs_view(cells@)).subrange(0, i as int),
        decreases cells@.len() - i,
    {
        let v = cell_view(&cells[i]);
        let ghost prev = cells_view(r@);
        assert(views_of(outputs_view(cells@))[i as int] == v@);
        r.push(v);
        assert(cells_view(r@) =~= prev.push(views_of(outputs_view(cells@))[i as int]));
        i = i + 1;
        assert(cells_view(r@) =~= views_of(outputs_view(cells@)).subrange(0, i as int));
    }
    assert(views_of(outputs_view(cells@)).subrange(0, i as int) =~= views_of(outputs_view(cells@)));
    r
}

fn group_views(cells: &Vec<CellOutput>, script: &Script) -> (r: Vec<CellView>)
    ensures
        cells_view(r@) == group_of(outputs_view(cells@), script@),
{
    let ghost all = outputs_view(cells@);
    let mut r: Vec<CellView> = Vec::new();
    let mut i: usize = 0;
    assert(all.subrange(0, all.len() as int) =~= all);
    assert(cells_view(r@) + group_of(all, script@) =~= group_of(all, script@));
    while i < cells.len()
        invariant
            i <= cells@.len(),
            all == outputs_view(cells@),
            cells_view(r@) + group_of(all.subrange(i as int, all.len() as int), script@)
                == group_of(all, script@),
        decreases cells@.len() - i,
    {
        let ghost rest = all.subrange(i as int, all.len() as int);
        assert(rest.drop_first() =~= all.subrange(i + 1, all.len() as int));
        assert(rest[0] == cells@[i as int]@);
        let in_group = match &cells[i].type_script {
            Some(t) => t.same_as(script),
            None => false,
        };
        if in_group {
            let ghost prev = cells_view(r@);
            r.push(cell_view(&cells[i]));
            assert(cells_view(r@) =~= prev + seq![view_of_cell(rest[0])]);
            assert(cells_view(r@) + group_of(all.subrange(i + 1, all.len() as int), script@)
                =~= prev + group_of(rest, script@));
        }
        i = i + 1;
    }
    assert(all.subrange(i as int, all.len() as int) =~= Seq::<CellOutputModel>::empty());
    assert(cells_view(r@) + Seq::<CellViewModel>::empty() =~= cells_view(r@));
    r
}

impl ScriptEnv {
    /// What `script`, run as a type script, sees of the transaction `ws`.
    pub fn from_workspace(ws: &Workspace, script: &Script) -> (r: ScriptEnv)
        ensures
            r@ == env_of(ws@, script@),
    {
        let inputs = ws.inputs();
        let mut spent: Vec<CellOutput> = Vec::new();
        let mut i: usize = 0;
        while i < inputs.len()
            invariant
                i <= inputs@.len(),
                live_cells_view(inputs@) == ws@.inputs,
                outputs_view(spent@) == spent_outputs(ws@).subrange(0, i as int),
            decreases inputs@.len() - i,
        {
            let item = inputs[i].output.duplicate();
            assert(item@ == spent_outputs(ws@)[i as int]);
            let ghost prev = outputs_view(spent@);
            spent.push(item);
            assert(outputs_view(spent@) =~= prev.push(item@));
            i = i + 1;
            assert(outputs_view(spent@) =~= spent_outputs(ws@).subrange(0, i as int));
        }
        assert(spent_outputs(ws@).subrange(0, i as int) =~= spent_outputs(ws@));
        let args = copy_range(script.args.as_slice(), 0, script.args.len());
        assert(args@ =~= script@.args);
        ScriptEnv {
            args,
            group_inputs: group_views(&spent, script),
            group_outputs: group_views(ws.outputs(), script),
            inputs: cell_views(&spent),
            outputs: cell_views(ws.outputs()),
        }
    }
}

/// Bytes the arguments of the simple lock hold at least.
pub const SIMPLE_LOCK_ARGS_MIN: usize = 32;

/// The context of the simple lock: its arguments.
#[derive(Debug)]
pub struct ProxyLockContext {
    pub args: Vec<u8>,
}

/// The only node of the simple lock: the arguments must hold at least 32
/// bytes, and are kept in the context.
#[derive(Debug)]
pub struct VerifyArgs {}

impl VerifyArgs {
    pub fn verify(&self, env: &ScriptEnv, ctx: &mut ProxyLockContext) -> (r: Result<
        Option<String>,
        VerifyError,
    >)
        ensures
            env@.args.len() < SIMPLE_LOCK_ARGS_MIN ==> r == Err::<Option<String>, VerifyError>(
                VerifyError::BadArgs,
            ) && final(ctx).args@ == old(ctx).args@,
            env@.args.len() >= SIMPLE_LOCK_ARGS_MIN ==> r == Ok::<Option<String>, VerifyError>(None)
                && final(ctx).args@ == env@.args,
    {
        if env.args.len() < SIMPLE_LOCK_ARGS_MIN {
            return Err(VerifyError::BadArgs);
        }
        let args = copy_range(env.args.as_slice(), 0, env.args.len());
        assert(args@ =~= env@.args);
        ctx.args = args;
        Ok(None)
    }
}

} // verus!
