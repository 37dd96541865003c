//! Lock and type predicates ("scripts"): a code hash, a hash type and
//! argument bytes, with their canonical serialised form.
use vstd::prelude::*;

use crate::codec::{
    bytes_eq, ckb_hash, ckb_hash_of, copy_range, extend_bytes, le_u32_bytes, push_u32_le,
    read_u32_le, u32_from_le, lemma_u32_bytes_round_trip, lemma_u32_value_round_trip,
};

verus! {

/// Bytes of the serialised form that do not depend on the arguments.
pub const SCRIPT_FIXED_SIZE: usize = 53;

/// Bytes of a code hash.
pub const HASH_SIZE: usize = 32;

/// A predicate on cells: code found by `code_hash` (read as `hash_type`
/// says), run with `args`.
#[derive(Debug)]
pub struct Script {
    pub code_hash: Vec<u8>,
    pub hash_type: u8,
    pub args: Vec<u8>,
}

/// What a [`Script`] is, as mathematical values.
pub struct ScriptModel {
    pub code_hash: Seq<u8>,
    pub hash_type: u8,
    pub args: Seq<u8>,
}

impl View for Script {
    type V = ScriptModel;

    open spec fn view(&self) -> ScriptModel {
        ScriptModel { code_hash: self.code_hash@, hash_type: self.hash_type, args: self.args@ }
    }
}

/// How a pattern script selects scripts.
#[derive(Debug, Clone, Copy, PartialEq, Eq, Structural)]
pub enum SearchMode {
    /// Same code and hash type; the pattern's arguments start the script's.
    Prefix,
    /// The very same script.
    Exact,
}

impl ScriptModel {
    /// A code hash of the right width, and arguments short enough to serialise.
    pub open spec fn wf(self) -> bool {
        &&& self.code_hash.len() == HASH_SIZE
        &&& self.args.len() + SCRIPT_FIXED_SIZE <= u32::MAX
    }

    /// Bytes this script takes in a cell: code hash, hash type and arguments.
    pub open spec fn occupied_bytes(self) -> int {
        HASH_SIZE + 1 + self.args.len()
    }

    /// Whether `self`, as a pattern under `mode`, selects `s`.
    pub open spec fn selects(self, s: ScriptModel, mode: SearchMode) -> bool {
        &&& self.code_hash == s.code_hash
        &&& self.hash_type == s.hash_type
        &&& match mode {
            SearchMode::Exact => self.args == s.args,
            SearchMode::Prefix => self.args.len() <= s.args.len() && s.args.subrange(
                0,
                self.args.len() as int,
            ) == self.args,
        }
    }
}

/// The canonical serialised form of a script: a table of three fields.
pub open spec fn script_bytes(s: ScriptModel) -> Seq<u8> {
    let n = s.args.len();
    le_u32_bytes((SCRIPT_FIXED_SIZE + n) as u32) + le_u32_bytes(16) + le_u32_bytes(48)
        + le_u32_bytes(49) + s.code_hash + seq![s.hash_type] + le_u32_bytes(n as u32) + s.args
}

/// Whether `b` is the serialised form of some well-formed script.
pub open spec fn is_script_bytes(b: Seq<u8>) -> bool {
    exists|s: ScriptModel| s.wf() && #[trigger] script_bytes(s) == b
}

/// The ledger's hash of a script, which type predicates are known by.
pub open spec fn script_hash(s: ScriptModel) -> Seq<u8> {
    ckb_hash_of(script_bytes(s))
}

pub proof fn lemma_script_bytes_len(s: ScriptModel)
    requires
        s.wf(),
    ensures
        script_bytes(s).len() == SCRIPT_FIXED_SIZE + s.args.len(),
{
    lemma_u32_value_round_trip((SCRIPT_FIXED_SIZE + s.args.len()) as u32);
    lemma_u32_value_round_trip(16);
    lemma_u32_value_round_trip(48);
    lemma_u32_value_round_trip(49);
    lemma_u32_value_round_trip(s.args.len() as u32);
}

/// A serialised script decodes to exactly that script.
pub proof fn lemma_script_bytes_injective(s: ScriptModel, t: ScriptModel)
    requires
        s.wf(),
        t.wf(),
        script_bytes(s) == script_bytes(t),
    ensures
        s == t,
{
    lemma_script_bytes_len(s);
    lemma_script_bytes_len(t);
    let b = script_bytes(s);
    assert(b.subrange(16, 48) =~= s.code_hash);
    assert(script_bytes(t).subrange(16, 48) =~= t.code_hash);
    assert(b[48] == s.hash_type);
    assert(script_bytes(t)[48] == t.hash_type);
    assert(b.subrange(53, b.len() as int) =~= s.args);
    assert(script_bytes(t).subrange(53, b.len() as int) =~= t.args);
}

impl Script {
    pub open spec fn wf(&self) -> bool {
        self@.wf()
    }

    /// A script with the given parts.
    pub fn new(code_hash: Vec<u8>, hash_type: u8, args: Vec<u8>) -> (r: Script)
        ensures
            r@ == (ScriptModel { code_hash: code_hash@, hash_type, args: args@ }),
    {
        Script { code_hash, hash_type, args }
    }

    /// A copy of this script.
    pub fn duplicate(&self) -> (r: Script)
        ensures
            r@ == self@,
    {
        let r = Script {
            code_hash: copy_range(self.code_hash.as_slice(), 0, self.code_hash.len()),
            hash_type: self.hash_type,
            args: copy_range(self.args.as_slice(), 0, self.args.len()),
        };
        assert(r.code_hash@ =~= self.code_hash@);
        assert(r.args@ =~= self.args@);
        r
    }

    /// Whether `self` and `other` are the same script.
    pub fn same_as(&self, other: &Script) -> (r: bool)
        ensures
            r == (self@ == other@),
    {
        self.hash_type == other.hash_type && bytes_eq(
            self.code_hash.as_slice(),
            other.code_hash.as_slice(),
        ) && bytes_eq(self.args.as_slice(), other.args.as_slice())
    }

    /// Whether `self`, as a pattern under `mode`, selects `s`.
    pub fn selects(&self, s: &Script, mode: SearchMode) -> (r: bool)
        ensures
            r == self@.selects(s@, mode),
    {
        if self.hash_type != s.hash_type || !bytes_eq(
            self.code_hash.as_slice(),
            s.code_hash.as_slice(),
        ) {
            return false;
        }
        match mode {
            SearchMode::Exact => bytes_eq(self.args.as_slice(), s.args.as_slice()),
            SearchMode::Prefix => {
                if self.args.len() > s.args.len() {
                    false
                } else {
                    let head = copy_range(s.args.as_slice(), 0, self.args.len());
                    bytes_eq(head.as_slice(), self.args.as_slice())
                }
            },
        }
    }

    /// Bytes this script takes in a cell.
    pub fn occupied_bytes(&self) -> (r: u64)
        requires
            self.wf(),
        ensures
            r == self@.occupied_bytes(),
    {
        (HASH_SIZE as u64) + 1 + (self.args.len() as u64)
    }

    /// The canonical serialised form.
    pub fn to_bytes(&self) -> (r: Vec<u8>)
        requires
            self.wf(),
        ensures
            r@ == script_bytes(self@),
    {
        let n = self.args.len();
        let mut out: Vec<u8> = Vec::new();
        push_u32_le(&mut out, (SCRIPT_FIXED_SIZE + n) as u32);
        push_u32_le(&mut out, 16);
        push_u32_le(&mut out, 48);
        push_u32_le(&mut out, 49);
        extend_bytes(&mut out, self.code_hash.as_slice());
        out.push(self.hash_type);
        push_u32_le(&mut out, n as u32);
        extend_bytes(&mut out, self.args.as_slice());
        assert(out@ =~= script_bytes(self@));
        out
    }

    /// The script serialised in `b`, if `b` is the canonical form of one.
    pub fn from_slice(b: &[u8]) -> (r: Option<Script>)
        ensures
            r is Some <==> is_script_bytes(b@),
            r matches Some(s) ==> s.wf() && script_bytes(s@) == b@,
    {
        let len = b.len();
        if len < SCRIPT_FIXED_SIZE || len > u32::MAX as usize {
            proof {
                lemma_not_script_bytes_len(b@);
            }
            return None;
        }
        let total = read_u32_le(b, 0);
        let off0 = read_u32_le(b, 4);
        let off1 = read_u32_le(b, 8);
        let off2 = read_u32_le(b, 12);
        let n = read_u32_le(b, 49);
        if total as usize != len || off0 != 16 || off1 != 48 || off2 != 49 || n as usize != len
            - SCRIPT_FIXED_SIZE {
            proof {
                lemma_not_script_bytes_header(b@);
            }
            return None;
        }
        let s = Script {
            code_hash: copy_range(b, 16, 48),
            hash_type: b[48],
            args: copy_range(b, SCRIPT_FIXED_SIZE, len),
        };
        proof {
            lemma_u32_bytes_round_trip(b@.subrange(0, 4));
            lemma_u32_bytes_round_trip(b@.subrange(4, 8));
            lemma_u32_bytes_round_trip(b@.subrange(8, 12));
            lemma_u32_bytes_round_trip(b@.subrange(12, 16));
            lemma_u32_bytes_round_trip(b@.subrange(49, 53));
            assert(script_bytes(s@) =~= b@);
        }
        Some(s)
    }

    /// The ledger's hash of this script.
    pub fn hash(&self) -> (r: Vec<u8>)
        requires
            self.wf(),
        ensures
            r@ == script_hash(self@),
            r@.len() == HASH_SIZE,
    {
        let bytes = self.to_bytes();
        ckb_hash(bytes.as_slice())
    }
}

proof fn lemma_not_script_bytes_len(b: Seq<u8>)
    requires
        b.len() < SCRIPT_FIXED_SIZE || b.len() > u32::MAX,
    ensures
        !is_script_bytes(b),
{
    if is_script_bytes(b) {
        let s = choose|s: ScriptModel| s.wf() && #[trigger] script_bytes(s) == b;
        lemma_script_bytes_len(s);
    }
}

proof fn lemma_not_script_bytes_header(b: Seq<u8>)
    requires
        SCRIPT_FIXED_SIZE <= b.len() <= u32::MAX,
        !(u32_from_le(b.subrange(0, 4)) == b.len() && u32_from_le(b.subrange(4, 8)) == 16
            && u32_from_le(b.subrange(8, 12)) == 48 && u32_from_le(b.subrange(12, 16)) == 49
            && u32_from_le(b.subrange(49, 53)) == b.len() - SCRIPT_FIXED_SIZE),
    ensures
        !is_script_bytes(b),
{
    if is_script_bytes(b) {
        let s = choose|s: ScriptModel| s.wf() && #[trigger] script_bytes(s) == b;
        lemma_script_bytes_len(s);
        let n = s.args.len();
        assert(b.subrange(0, 4) =~= le_u32_bytes((SCRIPT_FIXED_SIZE + n) as u32));
        assert(b.subrange(4, 8) =~= le_u32_bytes(16));
        assert(b.subrange(8, 12) =~= le_u32_bytes(48));
        assert(b.subrange(12, 16) =~= le_u32_bytes(49));
        assert(b.subrange(49, 53) =~= le_u32_bytes(n as u32));
        lemma_u32_value_round_trip((SCRIPT_FIXED_SIZE + n) as u32);
        lemma_u32_value_round_trip(16);
        lemma_u32_value_round_trip(48);
        lemma_u32_value_round_trip(49);
        lemma_u32_value_round_trip(n as u32);
    }
}

} // verus!
