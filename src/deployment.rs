//! Records of deployed contract cells, and the rules that decide what may be
//! done next with a recorded deployment.
use vstd::prelude::*;
use vstd::string::StringExecFns;

use crate::cell::{opt_script_view, CellDep, CellDepModel, CellOutputModel, OutPoint, OutPointModel};
use crate::codec::{from_hex, hex_bytes, hex_text, is_hex, to_hex};
use crate::instruction::Instruction;
use crate::operation::{opt_bytes_view, Operation};
use crate::script::{script_hash, Script, ScriptModel, SearchMode, HASH_SIZE};
use crate::workspace::Workspace;

verus! {

/// Why a deployment step is refused.
#[derive(Debug, Clone, Copy, PartialEq, Eq, Structural)]
pub enum DeploymentError {
    /// Not `mainnet`, `testnet` or a URL.
    InvalidNetwork,
    /// Not `keep`, `remove` or `new`.
    InvalidTypeIdMode,
    /// Not `all`, `deployed` or `consumed`.
    InvalidListMode,
    /// The latest record consumed the contract cell.
    AlreadyConsumed,
    /// The payer does not own the contract cell.
    OwnerMismatch,
    /// The latest record is of another version.
    VersionMismatch,
    /// The recorded transaction hash is not 32 bytes of hexadecimal, or the
    /// output index does not fit.
    BadRecord,
    /// The transaction has no output to record.
    NoOutput,
}

/// What the URL parser writes back for the text `s` it accepted.
pub uninterp spec fn url_serialization(s: Seq<char>) -> Seq<char>;

/// Relies on `reqwest::Url::parse` (the `url` crate's parser) and
/// `Url::as_str`: an accepted URL is given back in its serialised form,
/// which depends on the text alone.
#[verifier::external_body]
fn parse_url(s: &str) -> (r: Option<String>)
    ensures
        r matches Some(u) ==> u@ == url_serialization(s@),
{
    match reqwest::Url::parse(s) {
        Ok(u) => Some(u.as_str().to_owned()),
        Err(_) => None,
    }
}

/// The network a deployment goes to.
#[derive(Debug, Clone, PartialEq, Eq)]
pub enum Network {
    Mainnet,
    Testnet,
    /// A node at this URL, in serialised form.
    Custom(String),
}

impl Network {
    /// Reads a network name: `mainnet`, `testnet`, or else a URL.
    pub fn try_from(value: String) -> (r: Result<Network, DeploymentError>)
        ensures
            value@ == "mainnet"@ ==> r == Ok::<Network, DeploymentError>(Network::Mainnet),
            value@ == "testnet"@ ==> r == Ok::<Network, DeploymentError>(Network::Testnet),
            value@ != "mainnet"@ && value@ != "testnet"@ ==> match r {
                Ok(Network::Custom(u)) => u@ == url_serialization(value@),
                Ok(_) => false,
                Err(e) => e == DeploymentError::InvalidNetwork,
            },
    {
        proof {
            reveal_strlit("mainnet");
            reveal_strlit("testnet");
            assert("mainnet"@[0] != "testnet"@[0]);
        }
        if value == "mainnet".to_owned() {
            Ok(Network::Mainnet)
        } else if value == "testnet".to_owned() {
            Ok(Network::Testnet)
        } else {
            match parse_url(value.as_str()) {
                Some(u) => Ok(Network::Custom(u)),
                None => Err(DeploymentError::InvalidNetwork),
            }
        }
    }

    pub open spec fn name_spec(&self) -> Seq<char> {
        match self {
            Network::Mainnet => "mainnet"@,
            Network::Testnet => "testnet"@,
            Network::Custom(u) => u@,
        }
    }

    /// The name a network is written with; a custom one by its URL.
    pub fn to_string(&self) -> (r: String)
        ensures
            r@ == self.name_spec(),
    {
        match self {
            Network::Mainnet => "mainnet".to_owned(),
            Network::Testnet => "testnet".to_owned(),
            Network::Custom(u) => u.clone(),
        }
    }
}

/// What a migration does with the contract cell's type identifier.
#[derive(Debug, Clone, Copy, PartialEq, Eq, Structural)]
pub enum TypeIdMode {
    Keep,
    Remove,
    New,
}

impl TypeIdMode {
    /// Reads `keep`, `remove` or `new`.
    pub fn try_from(value: String) -> (r: Result<TypeIdMode, DeploymentError>)
        ensures
            r == if value@ == "keep"@ {
                Ok::<TypeIdMode, DeploymentError>(TypeIdMode::Keep)
            } else if value@ == "remove"@ {
                Ok(TypeIdMode::Remove)
            } else if value@ == "new"@ {
                Ok(TypeIdMode::New)
            } else {
                Err(DeploymentError::InvalidTypeIdMode)
            },
    {
        if value == "keep".to_owned() {
            Ok(TypeIdMode::Keep)
        } else if value == "remove".to_owned() {
            Ok(TypeIdMode::Remove)
        } else if value == "new".to_owned() {
            Ok(TypeIdMode::New)
        } else {
            Err(DeploymentError::InvalidTypeIdMode)
        }
    }
}

/// Which records a listing shows.
#[derive(Debug, Clone, Copy, PartialEq, Eq, Structural)]
pub enum ListMode {
    All,
    Deployed,
    Consumed,
}

impl ListMode {
    /// Reads `all`, `deployed` or `consumed`.
    pub fn try_from(value: String) -> (r: Result<ListMode, DeploymentError>)
        ensures
            r == if value@ == "all"@ {
                Ok::<ListMode, DeploymentError>(ListMode::All)
            } else if value@ == "deployed"@ {
                Ok(ListMode::Deployed)
            } else if value@ == "consumed"@ {
                Ok(ListMode::Consumed)
            } else {
                Err(DeploymentError::InvalidListMode)
            },
    {
        if value == "all".to_owned() {
            Ok(ListMode::All)
        } else if value == "deployed".to_owned() {
            Ok(ListMode::Deployed)
        } else if value == "consumed".to_owned() {
            Ok(ListMode::Consumed)
        } else {
            Err(DeploymentError::InvalidListMode)
        }
    }
}

/// One entry of a contract's deployment log.
#[derive(Debug, Clone)]
pub struct DeploymentRecord {
    pub name: String,
    pub date: String,
    pub operation: String,
    pub version: String,
    pub tx_hash: String,
    pub out_index: usize,
    pub data_hash: Option<String>,
    pub occupied_capacity: u64,
    pub payer_address: String,
    pub owner_address: Option<String>,
    pub type_id: Option<String>,
    pub comment: Option<String>,
}

/// Where the log of `contract_name` on `network` is kept.
pub open spec fn record_path_spec(network: Seq<char>, contract_name: Seq<char>) -> Seq<char> {
    "migration/"@ + network + "/"@ + contract_name + ".json"@
}

/// Where the log of `contract_name` on `network` is kept.
pub fn generate_deployment_record_path(network: &str, contract_name: &str) -> (r: String)
    ensures
        r@ == record_path_spec(network@, contract_name@),
{
    let mut path = "migration/".to_owned();
    path.append(network);
    path.append("/");
    path.append(contract_name);
    path.append(".json");
    path
}

impl DeploymentRecord {
    /// Who owns the contract cell: the owner when one is recorded, else the
    /// payer.
    pub open spec fn owner_spec(&self) -> Seq<char> {
        match self.owner_address {
            Some(o) => o@,
            None => self.payer_address@,
        }
    }

    /// Who owns the contract cell: the owner when one is recorded, else the
    /// payer.
    pub fn contract_owner_address(&self) -> (r: String)
        ensures
            r@ == self.owner_spec(),
    {
        match &self.owner_address {
            Some(o) => o.clone(),
            None => self.payer_address.clone(),
        }
    }

    /// Whether `payer` may follow this record with a step on `version`: the
    /// cell is not consumed, `payer` owns it, and it is of that version.
    pub open spec fn successor_check(&self, payer: Seq<char>, version: Seq<char>) -> Result<
        (),
        DeploymentError,
    > {
        if self.operation@ == "consume"@ {
            Err(DeploymentError::AlreadyConsumed)
        } else if self.owner_spec() != payer {
            Err(DeploymentError::OwnerMismatch)
        } else if self.version@ != version {
            Err(DeploymentError::VersionMismatch)
        } else {
            Ok(())
        }
    }

    /// Whether `payer` may follow this record with a step on `version`.
    pub fn check_successor(&self, payer: &String, version: &String) -> (r: Result<
        (),
        DeploymentError,
    >)
        ensures
            r == self.successor_check(payer@, version@),
    {
        if self.operation == "consume".to_owned() {
            return Err(DeploymentError::AlreadyConsumed);
        }
        if self.contract_owner_address() != *payer {
            return Err(DeploymentError::OwnerMismatch);
        }
        if self.version != *version {
            return Err(DeploymentError::VersionMismatch);
        }
        Ok(())
    }

    /// The recorded cell, when the record names it well.
    pub open spec fn out_point_spec(&self) -> Option<OutPointModel> {
        if is_hex(self.tx_hash@) && hex_bytes(self.tx_hash@).len() == HASH_SIZE && self.out_index
            <= u32::MAX {
            Some(OutPointModel { tx_hash: hex_bytes(self.tx_hash@), index: self.out_index as u32 })
        } else {
            None
        }
    }

    /// The recorded cell, when the record names it well.
    pub fn out_point(&self) -> (r: Result<OutPoint, DeploymentError>)
        ensures
            match self.out_point_spec() {
                Some(p) => r matches Ok(q) && q@ == p,
                None => r == Err::<OutPoint, DeploymentError>(DeploymentError::BadRecord),
            },
    {
        let hash = match from_hex(self.tx_hash.as_str()) {
            Ok(h) => h,
            Err(_) => {
                return Err(DeploymentError::BadRecord);
            },
        };
        if hash.len() != HASH_SIZE || self.out_index > u32::MAX as usize {
            return Err(DeploymentError::BadRecord);
        }
        Ok(OutPoint::new(hash, self.out_index as u32))
    }
}

/// The hexadecimal text of an optional hash.
pub open spec fn opt_hex(b: Option<Seq<u8>>) -> Option<Seq<char>> {
    match b {
        Some(b) => Some(hex_text(b)),
        None => None,
    }
}

pub open spec fn opt_string_view(s: Option<String>) -> Option<Seq<char>> {
    match s {
        Some(s) => Some(s@),
        None => None,
    }
}

/// The type hash recorded for a contract cell: that of its type, if any.
pub open spec fn recorded_type_id(c: CellOutputModel) -> Option<Seq<u8>> {
    match c.type_script {
        Some(t) => Some(script_hash(t)),
        None => None,
    }
}

/// `rec` records a transaction with hash `tx_hash` whose contract cell is
/// `cell`.
pub open spec fn records_transaction(
    rec: DeploymentRecord,
    cell: CellOutputModel,
    tx_hash: Seq<u8>,
    operation: Seq<char>,
    contract_name: Seq<char>,
    version: Seq<char>,
    date: Seq<char>,
    contract_hash: Option<Seq<u8>>,
    payer_address: Seq<char>,
    owner_address: Option<Seq<char>>,
) -> bool {
    &&& rec.name@ == contract_name
    &&& rec.date@ == date
    &&& rec.operation@ == operation
    &&& rec.version@ == version
    &&& rec.tx_hash@ == hex_text(tx_hash)
    &&& rec.out_index == 0
    &&& opt_string_view(rec.data_hash) == opt_hex(contract_hash)
    &&& rec.occupied_capacity == cell.occupied_capacity()
    &&& rec.payer_address@ == payer_address
    &&& opt_string_view(rec.owner_address) == owner_address
    &&& opt_string_view(rec.type_id) == opt_hex(recorded_type_id(cell))
    &&& rec.comment is None
}

/// The record of a sent transaction `ws` whose hash is `tx_hash`: its first
/// output is the contract cell. `None` when there is no output.
pub fn new_deployment_record(
    ws: &Workspace,
    tx_hash: &[u8],
    operation: String,
    contract_name: String,
    version: String,
    date: String,
    contract_hash: Option<Vec<u8>>,
    payer_address: String,
    owner_address: Option<String>,
) -> (r: Option<DeploymentRecord>)
    requires
        ws.wf(),
    ensures
        match r {
            None => ws@.outputs.len() == 0,
            Some(rec) => ws@.outputs.len() > 0 && records_transaction(
                rec,
                ws@.outputs[0],
                tx_hash@,
                operation@,
                contract_name@,
                version@,
                date@,
                opt_bytes_view(contract_hash),
                payer_address@,
                opt_string_view(owner_address),
            ),
        },
{
    let outputs = ws.outputs();
    if outputs.len() == 0 {
        return None;
    }
    let cell = &outputs[0];
    assert(cell@ == ws@.outputs[0]);
    let occupied = cell.occupied_capacity();
    assert(occupied <= cell.capacity);
    let type_id = match &cell.type_script {
        Some(t) => Some(to_hex(t.hash().as_slice())),
        None => None,
    };
    let data_hash = match &contract_hash {
        Some(h) => Some(to_hex(h.as_slice())),
        None => None,
    };
    Some(
        DeploymentRecord {
            name: contract_name,
            date,
            operation,
            version,
            tx_hash: to_hex(tx_hash),
            out_index: 0,
            data_hash,
            occupied_capacity: occupied as u64,
            payer_address,
            owner_address,
            type_id,
            comment: None,
        },
    )
}

/// The fee rate the deployment steps pay, in shannons per thousand bytes.
pub const DEPLOYMENT_FEE_RATE: u64 = 2000;

/// `owner` if given, else `fallback`.
pub open spec fn owner_or(owner: Option<ScriptModel>, fallback: ScriptModel) -> ScriptModel {
    match owner {
        Some(o) => o,
        None => fallback,
    }
}

/// `op` adds the dependency `dep`.
pub open spec fn adds_cell_dep(op: Operation, dep: CellDepModel) -> bool {
    op matches Operation::AddCellDep { dep: d } && d@ == dep
}

/// `op` pays with `payer`'s cells and leaves the change to `receiver`.
pub open spec fn balances(op: Operation, payer: ScriptModel, receiver: ScriptModel) -> bool {
    op matches Operation::Balance { payer: p, change_receiver: c, fee_rate } && p@ == payer && c@
        == receiver && fee_rate == DEPLOYMENT_FEE_RATE
}

/// `op` spends the cell at `p`.
pub open spec fn spends_cell(op: Operation, p: Option<OutPointModel>) -> bool {
    op matches Operation::AddInputCellByOutPoint { out_point } && Some(out_point@) == p
}

/// `op` adds a contract cell holding `binary` for `lock`, with capacity
/// raised to its footprint and, if `type_id`, a fresh type identifier.
pub open spec fn adds_contract_cell(op: Operation, lock: ScriptModel, binary: Seq<u8>, type_id: bool) -> bool {
    op matches Operation::AddOutputCell {
        lock: l,
        type_script,
        data,
        capacity,
        absolute_capacity,
        type_id: t,
    } && l@ == lock && type_script is None && data@ == binary && capacity == 0
        && !absolute_capacity && t == type_id
}

/// `op` remakes the first input as a contract cell holding `binary` for
/// `lock`; with `keep_type` the type stays, else it is dropped.
pub open spec fn remakes_contract_cell(op: Operation, lock: ScriptModel, binary: Seq<u8>, keep_type: bool) -> bool {
    match op {
        Operation::AddOutputCellByInputIndex {
            input_index,
            data,
            lock: l,
            type_script,
            adjust_capacity,
        } => {
            &&& input_index == 0
            &&& opt_bytes_view(data) == Some(binary)
            &&& opt_script_view(l) == Some(lock)
            &&& adjust_capacity
            &&& if keep_type {
                type_script is None
            } else {
                type_script == Some(None::<Script>)
            }
        },
        _ => false,
    }
}

/// The steps of a deployment.
pub open spec fn is_deploy_plan(
    ops: Seq<Operation>,
    sighash_dep: CellDepModel,
    payer: ScriptModel,
    contract_lock: ScriptModel,
    binary: Seq<u8>,
    type_id: bool,
) -> bool {
    &&& ops.len() == 4
    &&& adds_cell_dep(ops[0], sighash_dep)
    &&& ops[1] matches Operation::AddInputCell { lock, type_script, count, mode } && lock@ == payer
        && type_script is None && count == 1 && mode == SearchMode::Exact
    &&& adds_contract_cell(ops[2], contract_lock, binary, type_id)
    &&& balances(ops[3], payer, contract_lock)
}

/// The steps of a migration.
pub open spec fn is_migration_plan(
    ops: Seq<Operation>,
    sighash_dep: CellDepModel,
    cell: Option<OutPointModel>,
    payer: ScriptModel,
    contract_lock: ScriptModel,
    binary: Seq<u8>,
    mode: TypeIdMode,
) -> bool {
    &&& ops.len() == 4
    &&& adds_cell_dep(ops[0], sighash_dep)
    &&& spends_cell(ops[1], cell)
    &&& match mode {
        TypeIdMode::Keep => remakes_contract_cell(ops[2], contract_lock, binary, true),
        TypeIdMode::Remove => remakes_contract_cell(ops[2], contract_lock, binary, false),
        TypeIdMode::New => adds_contract_cell(ops[2], contract_lock, binary, true),
    }
    &&& balances(ops[3], payer, contract_lock)
}

/// The steps that consume a contract cell.
pub open spec fn is_consume_plan(
    ops: Seq<Operation>,
    sighash_dep: CellDepModel,
    cell: Option<OutPointModel>,
    payer: ScriptModel,
    receiver: ScriptModel,
) -> bool {
    &&& ops.len() == 3
    &&& adds_cell_dep(ops[0], sighash_dep)
    &&& spends_cell(ops[1], cell)
    &&& balances(ops[2], payer, receiver)
}

/// The steps of a deployment: the signature dependency, an input of the
/// payer, the contract cell (owned by `owner_lock`, else by the payer; with
/// a type identifier when asked), and a balance paid by the payer that
/// leaves the change with the contract's owner.
pub fn plan_deploy(
    sighash_dep: CellDep,
    payer_lock: Script,
    owner_lock: Option<Script>,
    contract_binary: Vec<u8>,
    type_id: bool,
) -> (r: Instruction)
    ensures
        is_deploy_plan(
            r.operations@,
            sighash_dep@,
            payer_lock@,
            owner_or(opt_script_view(owner_lock), payer_lock@),
            contract_binary@,
            type_id,
        ),
{
    let contract_lock = match owner_lock {
        Some(o) => o,
        None => payer_lock.duplicate(),
    };
    let change_lock = contract_lock.duplicate();
    let input_lock = payer_lock.duplicate();
    Instruction::new(
        vec![
            Operation::AddCellDep { dep: sighash_dep },
            Operation::AddInputCell {
                lock: input_lock,
                type_script: None,
                count: 1,
                mode: SearchMode::Exact,
            },
            Operation::AddOutputCell {
                lock: contract_lock,
                type_script: None,
                data: contract_binary,
                capacity: 0,
                absolute_capacity: false,
                type_id,
            },
            Operation::Balance {
                payer: payer_lock,
                change_receiver: change_lock,
                fee_rate: DEPLOYMENT_FEE_RATE,
            },
        ],
    )
}

/// The steps of a migration of the contract recorded in `record` to a new
/// binary, when `payer_address` may follow it on `from_version`: the
/// signature dependency, the recorded cell as input, the new contract cell,
/// and a balance paid by the payer. The new cell keeps the old type (`Keep`),
/// drops it (`Remove`), or gets a fresh type identifier (`New`).
pub fn plan_migration(
    record: &DeploymentRecord,
    from_version: &String,
    payer_address: &String,
    sighash_dep: CellDep,
    payer_lock: Script,
    owner_lock: Option<Script>,
    contract_binary: Vec<u8>,
    mode: TypeIdMode,
) -> (r: Result<Instruction, DeploymentError>)
    ensures
        match record.successor_check(payer_address@, from_version@) {
            Err(e) => r == Err::<Instruction, DeploymentError>(e),
            Ok(_) => match record.out_point_spec() {
                None => r == Err::<Instruction, DeploymentError>(DeploymentError::BadRecord),
                Some(p) => r matches Ok(ins) && is_migration_plan(
                    ins.operations@,
                    sighash_dep@,
                    Some(p),
                    payer_lock@,
                    owner_or(opt_script_view(owner_lock), payer_lock@),
                    contract_binary@,
                    mode,
                ),
            },
        },
{
    match record.check_successor(payer_address, from_version) {
        Ok(()) => {},
        Err(e) => {
            return Err(e);
        },
    }
    let out_point = match record.out_point() {
        Ok(p) => p,
        Err(e) => {
            return Err(e);
        },
    };
    let contract_lock = match owner_lock {
        Some(o) => o,
        None => payer_lock.duplicate(),
    };
    let change_lock = contract_lock.duplicate();
    let output = match mode {
        TypeIdMode::Keep => Operation::AddOutputCellByInputIndex {
            input_index: 0,
            data: Some(contract_binary),
            lock: Some(contract_lock),
            type_script: None,
            adjust_capacity: true,
        },
        TypeIdMode::Remove => Operation::AddOutputCellByInputIndex {
            input_index: 0,
            data: Some(contract_binary),
            lock: Some(contract_lock),
            type_script: Some(None),
            adjust_capacity: true,
        },
        TypeIdMode::New => Operation::AddOutputCell {
            lock: contract_lock,
            type_script: None,
            data: contract_binary,
            capacity: 0,
            absolute_capacity: false,
            type_id: true,
        },
    };
    Ok(
        Instruction::new(
            vec![
                Operation::AddCellDep { dep: sighash_dep },
                Operation::AddInputCellByOutPoint { out_point },
                output,
                Operation::Balance {
                    payer: payer_lock,
                    change_receiver: change_lock,
                    fee_rate: DEPLOYMENT_FEE_RATE,
                },
            ],
        ),
    )
}

/// The steps that consume the contract cell recorded in `record`, when
/// `payer_address` may follow it on `version`: the signature dependency, the
/// recorded cell as input, and a balance paid by the payer that gives the
/// released capacity to `receive_lock`, else to the payer.
pub fn plan_consume(
    record: &DeploymentRecord,
    version: &String,
    payer_address: &String,
    sighash_dep: CellDep,
    payer_lock: Script,
    receive_lock: Option<Script>,
) -> (r: Result<Instruction, DeploymentError>)
    ensures
        match record.successor_check(payer_address@, version@) {
            Err(e) => r == Err::<Instruction, DeploymentError>(e),
            Ok(_) => match record.out_point_spec() {
                None => r == Err::<Instruction, DeploymentError>(DeploymentError::BadRecord),
                Some(p) => r matches Ok(ins) && is_consume_plan(
                    ins.operations@,
                    sighash_dep@,
                    Some(p),
                    payer_lock@,
                    owner_or(opt_script_view(receive_lock), payer_lock@),
                ),
            },
        },
{
    match record.check_successor(payer_address, version) {
        Ok(()) => {},
        Err(e) => {
            return Err(e);
        },
    }
    let out_point = match record.out_point() {
        Ok(p) => p,
        Err(e) => {
            return Err(e);
        },
    };
    let receiver = match receive_lock {
        Some(o) => o,
        None => payer_lock.duplicate(),
    };
    Ok(
        Instruction::new(
            vec![
                Operation::AddCellDep { dep: sighash_dep },
                Operation::AddInputCellByOutPoint { out_point },
                Operation::Balance {
                    payer: payer_lock,
                    change_receiver: receiver,
                    fee_rate: DEPLOYMENT_FEE_RATE,
                },
            ],
        ),
    )
}

} // verus!
