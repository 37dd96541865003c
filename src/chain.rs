//! What the chain holds, as far as building a transaction asks: the live
//! cells, read from a network or seeded for an offline simulation.
use vstd::prelude::*;

use crate::cell::{LiveCell, LiveCellModel, OutPoint, OutPointModel};
use crate::script::{Script, ScriptModel, SearchMode};
use crate::workspace::{live_cells_view, Workspace, WorkspaceModel};

verus! {

/// A snapshot of live cells that operations query.
#[derive(Debug)]
pub struct ChainState {
    /// The live cells, in the order the chain reports them.
    pub cells: Vec<LiveCell>,
    /// Whether this is a deterministic offline stand-in for a network.
    pub simulated: bool,
    /// The always-succeeding lock that fixtures of a simulation carry.
    pub fixture_lock: Script,
}

pub struct ChainModel {
    pub cells: Seq<LiveCellModel>,
    pub simulated: bool,
    pub fixture_lock: ScriptModel,
}

impl View for ChainState {
    type V = ChainModel;

    open spec fn view(&self) -> ChainModel {
        ChainModel {
            cells: live_cells_view(self.cells@),
            simulated: self.simulated,
            fixture_lock: self.fixture_lock@,
        }
    }
}

/// Whether the cell `c` answers a query by lock and, if given, type.
pub open spec fn cell_selected(
    c: LiveCellModel,
    lock: ScriptModel,
    type_script: Option<ScriptModel>,
    mode: SearchMode,
) -> bool {
    &&& lock.selects(c.output.lock, mode)
    &&& match type_script {
        None => true,
        Some(t) => match c.output.type_script {
            Some(ct) => t.selects(ct, mode),
            None => false,
        },
    }
}

/// The first `n` cells of `cells` that answer the query and that `ws` does
/// not spend yet, in chain order.
pub open spec fn query_cells(
    cells: Seq<LiveCellModel>,
    ws: WorkspaceModel,
    lock: ScriptModel,
    type_script: Option<ScriptModel>,
    mode: SearchMode,
    n: nat,
) -> Seq<LiveCellModel>
    decreases cells.len(),
{
    if n == 0 || cells.len() == 0 {
        Seq::empty()
    } else if cell_selected(cells[0], lock, type_script, mode) && !ws.spends(cells[0].out_point) {
        seq![cells[0]] + query_cells(cells.drop_first(), ws, lock, type_script, mode, (n - 1) as nat)
    } else {
        query_cells(cells.drop_first(), ws, lock, type_script, mode, n)
    }
}

/// Whether `c` is a plain cell of `payer` (no type, no data) that `ws` does
/// not spend yet: a cell that may pay for a transaction.
pub open spec fn payer_cell(c: LiveCellModel, ws: WorkspaceModel, payer: ScriptModel) -> bool {
    &&& c.output.lock == payer
    &&& c.output.type_script is None
    &&& c.output.data.len() == 0
    &&& !ws.spends(c.out_point)
}

/// Every cell of `cells` that may pay for `ws`, in chain order.
pub open spec fn payer_cells(cells: Seq<LiveCellModel>, ws: WorkspaceModel, payer: ScriptModel) -> Seq<
    LiveCellModel,
>
    decreases cells.len(),
{
    if cells.len() == 0 {
        Seq::empty()
    } else if payer_cell(cells[0], ws, payer) {
        seq![cells[0]] + payer_cells(cells.drop_first(), ws, payer)
    } else {
        payer_cells(cells.drop_first(), ws, payer)
    }
}

/// The first cell of `cells` created at `p`.
pub open spec fn cell_at(cells: Seq<LiveCellModel>, p: OutPointModel) -> Option<LiveCellModel>
    decreases cells.len(),
{
    if cells.len() == 0 {
        None
    } else if cells[0].out_point == p {
        Some(cells[0])
    } else {
        cell_at(cells.drop_first(), p)
    }
}

/// Whether the cell `c` answers a query by lock and, if given, type.
pub fn is_selected(c: &LiveCell, lock: &Script, type_script: &Option<Script>, mode: SearchMode) -> (r:
    bool)
    ensures
        r == cell_selected(c@, lock@, crate::cell::opt_script_view(*type_script), mode),
{
    if !lock.selects(&c.output.lock, mode) {
        return false;
    }
    match type_script {
        None => true,
        Some(t) => match &c.output.type_script {
            Some(ct) => t.selects(ct, mode),
            None => false,
        },
    }
}

proof fn lemma_drop_first_subrange<A>(s: Seq<A>, i: int)
    requires
        0 <= i < s.len(),
    ensures
        s.subrange(i, s.len() as int).drop_first() == s.subrange(i + 1, s.len() as int),
        s.subrange(i, s.len() as int)[0] == s[i],
{
    assert(s.subrange(i, s.len() as int).drop_first() =~= s.subrange(i + 1, s.len() as int));
}

impl ChainState {
    /// The first `n` live cells that answer the query and that `ws` does not
    /// spend yet, in chain order.
    pub fn query(
        &self,
        ws: &Workspace,
        lock: &Script,
        type_script: &Option<Script>,
        mode: SearchMode,
        n: usize,
    ) -> (r: Vec<LiveCell>)
        ensures
            live_cells_view(r@) == query_cells(
                self@.cells,
                ws@,
                lock@,
                crate::cell::opt_script_view(*type_script),
                mode,
                n as nat,
            ),
    {
        let ghost cells = self@.cells;
        let ghost t = crate::cell::opt_script_view(*type_script);
        let mut found: Vec<LiveCell> = Vec::new();
        let mut i: usize = 0;
        assert(cells.subrange(0, cells.len() as int) =~= cells);
        assert(live_cells_view(found@) + query_cells(cells, ws@, lock@, t, mode, n as nat) =~= query_cells(cells, ws@, lock@, t, mode, n as nat));
        while i < self.cells.len() && found.len() < n
            invariant
                i <= self.cells@.len(),
                found@.len() <= n,
                cells == self@.cells,
                t == crate::cell::opt_script_view(*type_script),
                live_cells_view(found@) + query_cells(
                    cells.subrange(i as int, cells.len() as int),
                    ws@,
                    lock@,
                    t,
                    mode,
                    (n - found@.len()) as nat,
                ) == query_cells(cells, ws@, lock@, t, mode, n as nat),
            decreases self.cells@.len() - i,
        {
            let c = &self.cells[i];
            proof {
                lemma_drop_first_subrange(cells, i as int);
            }
            let ghost k = (n - found@.len()) as nat;
            let ghost sub = cells.subrange(i as int, cells.len() as int);
            assert(c@ == cells[i as int]);
            let selected = is_selected(c, lock, type_script, mode);
            let spent = ws.spends(&c.out_point);
            if selected && !spent {
                let ghost before = live_cells_view(found@);
                assert(query_cells(sub, ws@, lock@, t, mode, k) == seq![c@] + query_cells(
                    cells.subrange(i + 1, cells.len() as int), ws@, lock@, t, mode, (k - 1) as nat));
                found.push(c.duplicate());
                assert(live_cells_view(found@) =~= before + seq![c@]);
                assert(live_cells_view(found@) + query_cells(
                    cells.subrange(i + 1, cells.len() as int),
                    ws@,
                    lock@,
                    t,
                    mode,
                    (n - found@.len()) as nat,
                ) =~= before + query_cells(
                    cells.subrange(i as int, cells.len() as int),
                    ws@,
                    lock@,
                    t,
                    mode,
                    (n - before.len()) as nat,
                ));
            } else {
                assert(query_cells(sub, ws@, lock@, t, mode, k) == query_cells(
                    cells.subrange(i + 1, cells.len() as int), ws@, lock@, t, mode, k));
            }
            i = i + 1;
        }
        proof {
            let rest = query_cells(
                cells.subrange(i as int, cells.len() as int),
                ws@,
                lock@,
                t,
                mode,
                (n - found@.len()) as nat,
            );
            assert(rest =~= Seq::<LiveCellModel>::empty());
            assert(live_cells_view(found@) + rest =~= live_cells_view(found@));
        }
        found
    }

    /// Every live cell that may pay for `ws`, in chain order.
    pub fn payer_cells(&self, ws: &Workspace, payer: &Script) -> (r: Vec<LiveCell>)
        ensures
            live_cells_view(r@) == payer_cells(self@.cells, ws@, payer@),
    {
        let ghost cells = self@.cells;
        let mut found: Vec<LiveCell> = Vec::new();
        let mut i: usize = 0;
        assert(cells.subrange(0, cells.len() as int) =~= cells);
        assert(live_cells_view(found@) + payer_cells(cells, ws@, payer@) =~= payer_cells(cells, ws@, payer@));
        while i < self.cells.len()
            invariant
                i <= self.cells@.len(),
                cells == self@.cells,
                live_cells_view(found@) + payer_cells(
                    cells.subrange(i as int, cells.len() as int),
                    ws@,
                    payer@,
                ) == payer_cells(cells, ws@, payer@),
            decreases self.cells@.len() - i,
        {
            let c = &self.cells[i];
            proof {
                lemma_drop_first_subrange(cells, i as int);
            }
            if c.output.lock.same_as(payer) && c.output.type_script.is_none()
                && c.output.data.len() == 0 && !ws.spends(&c.out_point) {
                let ghost before = live_cells_view(found@);
                found.push(c.duplicate());
                assert(live_cells_view(found@) =~= before + seq![c@]);
                assert(live_cells_view(found@) + payer_cells(
                    cells.subrange(i + 1, cells.len() as int),
                    ws@,
                    payer@,
                ) =~= before + payer_cells(cells.subrange(i as int, cells.len() as int), ws@, payer@));
            }
            i = i + 1;
        }
        proof {
            assert(cells.subrange(i as int, cells.len() as int) =~= Seq::<LiveCellModel>::empty());
            assert(live_cells_view(found@) + Seq::<LiveCellModel>::empty() =~= live_cells_view(found@));
        }
        found
    }

    /// The live cell created at `p`, if there is one.
    pub fn cell_at(&self, p: &OutPoint) -> (r: Option<LiveCell>)
        ensures
            match r {
                Some(c) => cell_at(self@.cells, p@) == Some(c@),
                None => cell_at(self@.cells, p@) is None,
            },
    {
        let ghost cells = self@.cells;
        let mut i: usize = 0;
        assert(cells.subrange(0, cells.len() as int) =~= cells);
        while i < self.cells.len()
            invariant
                i <= self.cells@.len(),
                cells == self@.cells,
                cell_at(cells.subrange(i as int, cells.len() as int), p@) == cell_at(cells, p@),
            decreases self.cells@.len() - i,
        {
            proof {
                lemma_drop_first_subrange(cells, i as int);
            }
            if self.cells[i].out_point.same_as(p) {
                return Some(self.cells[i].duplicate());
            }
            i = i + 1;
        }
        None
    }
}

} // verus!
