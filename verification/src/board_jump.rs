//! Jumping to the next card that needs a person, or to the next card worth
//! working on, across the columns of the board.
use vstd::prelude::*;
use crate::board_app::{App, column_indices, same_but_cursors};
use crate::card::{Card, is_human_gate};
use crate::queue::QueueStatus;
use crate::text::{owned, str_eq};

verus! {

/// What kind of next work a card offers, best first.
#[derive(Clone, Copy, Debug, PartialEq, Eq, Structural)]
pub enum NextWorkKind {
    Executable,
    Review,
    Decision,
    HumanExecution,
    MissingContext,
    DependencyBlocked,
    Blocked,
    Claimed,
}

pub open spec fn rank_spec(k: NextWorkKind) -> u8 {
    match k {
        NextWorkKind::Executable => 0,
        NextWorkKind::Review => 1,
        NextWorkKind::Decision => 2,
        NextWorkKind::HumanExecution => 3,
        NextWorkKind::MissingContext => 4,
        NextWorkKind::DependencyBlocked => 5,
        NextWorkKind::Blocked => 6,
        NextWorkKind::Claimed => 7,
    }
}

pub open spec fn label_spec(k: NextWorkKind) -> Seq<char> {
    match k {
        NextWorkKind::Executable => "executable"@,
        NextWorkKind::Review => "review"@,
        NextWorkKind::Decision => "decision"@,
        NextWorkKind::HumanExecution => "human-execution"@,
        NextWorkKind::MissingContext => "missing-context"@,
        NextWorkKind::DependencyBlocked => "dependency-blocked"@,
        NextWorkKind::Blocked => "blocked"@,
        NextWorkKind::Claimed => "claimed"@,
    }
}

/// The next-work kind of a card in a work state; closed cards offer none.
pub open spec fn kind_of(s: QueueStatus) -> Option<NextWorkKind> {
    match s {
        QueueStatus::Closed => None,
        QueueStatus::Blocked => Some(NextWorkKind::Blocked),
        QueueStatus::Claimed => Some(NextWorkKind::Claimed),
        QueueStatus::DependencyBlocked => Some(NextWorkKind::DependencyBlocked),
        QueueStatus::ReviewRequired => Some(NextWorkKind::Review),
        QueueStatus::HumanDecision => Some(NextWorkKind::Decision),
        QueueStatus::HumanExecution => Some(NextWorkKind::HumanExecution),
        QueueStatus::MissingContext => Some(NextWorkKind::MissingContext),
        QueueStatus::Executable => Some(NextWorkKind::Executable),
    }
}

/// The human gate a card waits on, if it waits on one.
pub open spec fn gate_of(c: Card) -> Option<Seq<char>> {
    match c.human_intervention {
        Some(h) => if is_human_gate(h@) {
            Some(h@)
        } else {
            None
        },
        None => None,
    }
}

/// The (column, position, card) of each shown card of column `col`, among
/// the positions in `idx`, that waits on a person.
pub open spec fn gate_cands_in(app: App, col: int, idx: Seq<usize>) -> Seq<(usize, usize, usize)>
    decreases idx.len(),
{
    if idx.len() == 0 {
        Seq::empty()
    } else {
        let rest = gate_cands_in(app, col, idx.drop_last());
        if gate_of(app.cards@[idx.last() as int]) is Some {
            rest.push((col as usize, (idx.len() - 1) as usize, idx.last()))
        } else {
            rest
        }
    }
}

/// The cards that wait on a person in the first `n` columns, column by
/// column, top to bottom.
pub open spec fn gate_cands(app: App, n: int) -> Seq<(usize, usize, usize)>
    decreases n,
{
    if n <= 0 {
        Seq::empty()
    } else {
        gate_cands(app, n - 1) + gate_cands_in(app, n - 1, column_indices(app, n - 1))
    }
}

/// Whether the card at `ci` offers next work of rank `r`.
pub open spec fn has_rank(work: Seq<Option<QueueStatus>>, ci: int, r: int) -> bool {
    match work[ci] {
        Some(s) => match kind_of(s) {
            Some(k) => rank_spec(k) == r,
            None => false,
        },
        None => false,
    }
}

/// The shown cards of column `col` among the positions in `idx` that offer
/// next work of rank `r`.
pub open spec fn work_cands_in(work: Seq<Option<QueueStatus>>, r: int, col: int, idx: Seq<usize>) -> Seq<
    (usize, usize, usize),
>
    decreases idx.len(),
{
    if idx.len() == 0 {
        Seq::empty()
    } else {
        let rest = work_cands_in(work, r, col, idx.drop_last());
        if has_rank(work, idx.last() as int, r) {
            rest.push((col as usize, (idx.len() - 1) as usize, idx.last()))
        } else {
            rest
        }
    }
}

/// The cards of rank `r` in the first `n` columns.
pub open spec fn work_cands(app: App, work: Seq<Option<QueueStatus>>, r: int, n: int) -> Seq<
    (usize, usize, usize),
>
    decreases n,
{
    if n <= 0 {
        Seq::empty()
    } else {
        work_cands(app, work, r, n - 1) + work_cands_in(work, r, n - 1, column_indices(app, n - 1))
    }
}

/// The next-work candidates of the ranks below `r`, best rank first, then by
/// column and position.
pub open spec fn ranked_cands(app: App, work: Seq<Option<QueueStatus>>, r: int) -> Seq<
    (usize, usize, usize),
>
    decreases r,
{
    if r <= 0 {
        Seq::empty()
    } else {
        ranked_cands(app, work, r - 1) + work_cands(app, work, r - 1, app.columns@.len() as int)
    }
}

/// `(col, pos)` comes after `cur` in board order.
pub open spec fn after(c: (usize, usize, usize), cur: (int, int)) -> bool {
    c.0 > cur.0 || (c.0 == cur.0 && c.1 > cur.1)
}

/// The first candidate after `cur`.
pub open spec fn first_after(cands: Seq<(usize, usize, usize)>, cur: (int, int)) -> Option<int>
    decreases cands.len(),
{
    if cands.len() == 0 {
        None
    } else {
        match first_after(cands.drop_last(), cur) {
            Some(k) => Some(k),
            None => if after(cands.last(), cur) {
                Some(cands.len() - 1)
            } else {
                None
            },
        }
    }
}

/// The focused column and its cursor (zero when the column has none).
pub open spec fn current_spot(app: App) -> (int, int) {
    (
        app.focus as int,
        if app.focus < app.cursors@.len() {
            app.cursors@[app.focus as int] as int
        } else {
            0
        },
    )
}

/// The candidate a jump lands on: the first after the selection, else the
/// first of all.
pub open spec fn jump_target(cands: Seq<(usize, usize, usize)>, cur: (int, int)) -> (usize, usize, usize) {
    match first_after(cands, cur) {
        Some(k) => cands[k],
        None => cands[0],
    }
}

/// The selection sits on the candidate, with the given status line.
pub open spec fn landed_on(a: App, b: App, c: (usize, usize, usize)) -> bool {
    &&& a.focus == c.0
    &&& a.cursors@ == b.cursors@.update(c.0 as int, c.1)
}

pub proof fn lemma_first_after_prefix(cands: Seq<(usize, usize, usize)>, cur: (int, int), n: int)
    requires
        0 <= n <= cands.len(),
        first_after(cands.take(n), cur) is Some,
    ensures
        first_after(cands, cur) == first_after(cands.take(n), cur),
    decreases cands.len(),
{
    if n == cands.len() {
        assert(cands.take(n) =~= cands);
    } else {
        assert(cands.drop_last().take(n) =~= cands.take(n));
        lemma_first_after_prefix(cands.drop_last(), cur, n);
    }
}

pub proof fn lemma_first_after_bound(cands: Seq<(usize, usize, usize)>, cur: (int, int))
    ensures
        first_after(cands, cur) matches Some(k) ==> 0 <= k < cands.len(),
    decreases cands.len(),
{
    if cands.len() > 0 {
        lemma_first_after_bound(cands.drop_last(), cur);
    }
}

impl NextWorkKind {
    /// The order in which next work is offered, best first.
    pub fn rank(self) -> (r: u8)
        ensures
            r == rank_spec(self),
    {
        match self {
            NextWorkKind::Executable => 0,
            NextWorkKind::Review => 1,
            NextWorkKind::Decision => 2,
            NextWorkKind::HumanExecution => 3,
            NextWorkKind::MissingContext => 4,
            NextWorkKind::DependencyBlocked => 5,
            NextWorkKind::Blocked => 6,
            NextWorkKind::Claimed => 7,
        }
    }

    /// The name shown on the status line.
    pub fn label(self) -> (r: &'static str)
        ensures
            r@ == label_spec(self),
    {
        match self {
            NextWorkKind::Executable => "executable",
            NextWorkKind::Review => "review",
            NextWorkKind::Decision => "decision",
            NextWorkKind::HumanExecution => "human-execution",
            NextWorkKind::MissingContext => "missing-context",
            NextWorkKind::DependencyBlocked => "dependency-blocked",
            NextWorkKind::Blocked => "blocked",
            NextWorkKind::Claimed => "claimed",
        }
    }
}

/// The next work a card in work state `status` offers; a closed card offers
/// none.
pub fn next_work_kind(status: QueueStatus) -> (r: Option<NextWorkKind>)
    ensures
        r == kind_of(status),
{
    match status {
        QueueStatus::Closed => None,
        QueueStatus::Blocked => Some(NextWorkKind::Blocked),
        QueueStatus::Claimed => Some(NextWorkKind::Claimed),
        QueueStatus::DependencyBlocked => Some(NextWorkKind::DependencyBlocked),
        QueueStatus::ReviewRequired => Some(NextWorkKind::Review),
        QueueStatus::HumanDecision => Some(NextWorkKind::Decision),
        QueueStatus::HumanExecution => Some(NextWorkKind::HumanExecution),
        QueueStatus::MissingContext => Some(NextWorkKind::MissingContext),
        QueueStatus::Executable => Some(NextWorkKind::Executable),
    }
}

/// The human gate named by a human intervention value: review, decision or
/// execution; none for `none`, for anything else, or for no value.
pub fn human_gate(value: Option<&str>) -> (r: Option<&str>)
    ensures
        match r {
            Some(g) => value matches Some(v) && g@ == v@ && is_human_gate(v@),
            None => !(value matches Some(v) && is_human_gate(v@)),
        },
{
    match value {
        Some(v) => {
            if str_eq(v, "review") || str_eq(v, "decision") || str_eq(v, "execution") {
                Some(v)
            } else {
                None
            }
        },
        None => None,
    }
}

/// The human intervention kind of a value, by its canonical name.
pub fn human_intervention_kind(value: Option<&str>) -> (r: Option<&'static str>)
    ensures
        match r {
            Some(g) => value matches Some(v) && g@ == v@ && is_human_gate(v@),
            None => !(value matches Some(v) && is_human_gate(v@)),
        },
{
    match value {
        Some(v) => {
            if str_eq(v, "review") {
                Some("review")
            } else if str_eq(v, "decision") {
                Some("decision")
            } else if str_eq(v, "execution") {
                Some("execution")
            } else {
                None
            }
        },
        None => None,
    }
}

/// Everything but the focus, the cursors and the status line is the same.
pub open spec fn same_but_selection(a: App, b: App) -> bool {
    &&& a.board == b.board
    &&& a.boards == b.boards
    &&& a.columns == b.columns
    &&& a.cards == b.cards
    &&& a.labels == b.labels
    &&& a.col_cursor == b.col_cursor
    &&& a.filter == b.filter
    &&& a.mode == b.mode
    &&& a.should_quit == b.should_quit
}

/// The status line when no card waits on a person: it names the filter, if
/// one is set.
pub open spec fn no_human_cards(filter: Option<String>) -> Seq<char> {
    match filter {
        Some(f) => "no human-intervention cards visible for filter: "@ + f@,
        None => "no human-intervention cards on this board"@,
    }
}

/// The status line when no card offers next work.
pub open spec fn no_work_cards(filter: Option<String>) -> Seq<char> {
    match filter {
        Some(f) => "no next-work cards visible for filter: "@ + f@,
        None => "no next-work cards on this board"@,
    }
}


/// The selection moved to the next card that waits on a person, named on
/// the status line; or, with none, the status line says so.
pub open spec fn human_jump_ok(old: App, new: App) -> bool {
    let cands = gate_cands(old, old.columns@.len() as int);
    &&& if cands.len() == 0 {
        &&& new.status@ == no_human_cards(old.filter)
        &&& new.focus == old.focus
        &&& new.cursors == old.cursors
    } else {
        let c = jump_target(cands, current_spot(old));
        &&& landed_on(new, old, c)
        &&& new.status@ == "human_intervention: "@ + old.cards@[c.2 as int].key@ + " "@ + gate_of(
            old.cards@[c.2 as int],
        )->0
    }
    &&& same_but_selection(new, old)
}

/// A well-placed candidate: its column and card exist.
pub open spec fn cand_ok(app: App, c: (usize, usize, usize)) -> bool {
    c.0 < app.columns@.len() && c.2 < app.cards@.len()
}

pub proof fn lemma_gate_cands_in_ok(app: App, col: int, idx: Seq<usize>)
    requires
        0 <= col < app.columns@.len(),
        forall|k: int| 0 <= k < idx.len() ==> idx[k] < app.cards@.len(),
    ensures
        forall|k: int|
            0 <= k < gate_cands_in(app, col, idx).len() ==> cand_ok(
                app,
                #[trigger] gate_cands_in(app, col, idx)[k],
            ) && gate_of(app.cards@[gate_cands_in(app, col, idx)[k].2 as int]) is Some,
    decreases idx.len(),
{
    if idx.len() > 0 {
        lemma_gate_cands_in_ok(app, col, idx.drop_last());
        let rest = gate_cands_in(app, col, idx.drop_last());
        assert forall|k: int| 0 <= k < gate_cands_in(app, col, idx).len() implies cand_ok(
            app,
            #[trigger] gate_cands_in(app, col, idx)[k],
        ) && gate_of(app.cards@[gate_cands_in(app, col, idx)[k].2 as int]) is Some by {
            if k < rest.len() {
                assert(gate_cands_in(app, col, idx)[k] == rest[k]);
            }
        }
    }
}

pub proof fn lemma_gate_cands_ok(app: App, n: int)
    requires
        n <= app.columns@.len(),
    ensures
        forall|k: int|
            0 <= k < gate_cands(app, n).len() ==> cand_ok(app, #[trigger] gate_cands(app, n)[k])
                && gate_of(app.cards@[gate_cands(app, n)[k].2 as int]) is Some,
    decreases n,
{
    if n > 0 {
        lemma_gate_cands_ok(app, n - 1);
        crate::board_app::lemma_shown_prefix_bounds(app, n - 1, app.cards@.len() as int);
        lemma_gate_cands_in_ok(app, n - 1, column_indices(app, n - 1));
        let a = gate_cands(app, n - 1);
        let b = gate_cands_in(app, n - 1, column_indices(app, n - 1));
        assert forall|k: int| 0 <= k < gate_cands(app, n).len() implies cand_ok(
            app,
            #[trigger] gate_cands(app, n)[k],
        ) && gate_of(app.cards@[gate_cands(app, n)[k].2 as int]) is Some by {
            if k < a.len() {
                assert(gate_cands(app, n)[k] == a[k]);
            } else {
                assert(gate_cands(app, n)[k] == b[k - a.len()]);
            }
        }
    }
}

fn card_gate(c: &Card) -> (r: bool)
    ensures
        r == (gate_of(*c) is Some),
{
    match &c.human_intervention {
        Some(h) => str_eq(h.as_str(), "review") || str_eq(h.as_str(), "decision") || str_eq(
            h.as_str(),
            "execution",
        ),
        None => false,
    }
}

/// The index of the first candidate after `cur`, else zero.
fn pick(cands: &Vec<(usize, usize, usize)>, focus: usize, cursor: usize) -> (r: usize)
    ensures
        r == match first_after(cands@, (focus as int, cursor as int)) {
            Some(k) => k,
            None => 0,
        },
{
    let ghost cur = (focus as int, cursor as int);
    let mut k: usize = 0;
    while k < cands.len()
        invariant
            k <= cands.len(),
            cur == (focus as int, cursor as int),
            first_after(cands@.take(k as int), cur) is None,
        decreases cands.len() - k,
    {
        assert(cands@.take(k + 1).drop_last() =~= cands@.take(k as int));
        let (col, pos, _) = cands[k];
        if col > focus || (col == focus && pos > cursor) {
            proof {
                lemma_first_after_prefix(cands@, cur, k + 1);
            }
            return k;
        }
        k = k + 1;
    }
    assert(cands@.take(cands.len() as int) =~= cands@);
    0
}

impl App {
    fn current_cursor(&self) -> (r: usize)
        ensures
            r == current_spot(*self).1,
    {
        if self.focus < self.cursors.len() {
            self.cursors[self.focus]
        } else {
            0
        }
    }

    /// The cards that wait on a person, column by column, top to bottom.
    fn gate_candidates(&self) -> (r: Vec<(usize, usize, usize)>)
        ensures
            r@ == gate_cands(*self, self.columns@.len() as int),
    {
        let mut out: Vec<(usize, usize, usize)> = Vec::new();
        let mut col: usize = 0;
        while col < self.columns.len()
            invariant
                col <= self.columns.len(),
                out@ == gate_cands(*self, col as int),
            decreases self.columns.len() - col,
        {
            let shown = self.column_cards(col);
            proof {
                crate::board_app::lemma_shown_prefix_bounds(*self, col as int, self.cards@.len() as int);
            }
            let mut p: usize = 0;
            while p < shown.len()
                invariant
                    p <= shown.len(),
                    col < self.columns.len(),
                    shown@ == column_indices(*self, col as int),
                    forall|k: int| 0 <= k < shown@.len() ==> shown@[k] < self.cards@.len(),
                    out@ == gate_cands(*self, col as int) + gate_cands_in(
                        *self,
                        col as int,
                        shown@.take(p as int),
                    ),
                decreases shown.len() - p,
            {
                let ghost before = out@;
                assert(shown@.take(p + 1).drop_last() =~= shown@.take(p as int));
                assert(shown@.take(p + 1).last() == shown@[p as int]);
                let ci = shown[p];
                if card_gate(&self.cards[ci]) {
                    out.push((col, p, ci));
                    assert(out@ =~= gate_cands(*self, col as int) + gate_cands_in(
                        *self,
                        col as int,
                        shown@.take(p + 1),
                    ));
                }
                p = p + 1;
            }
            assert(shown@.take(shown@.len() as int) =~= shown@);
            col = col + 1;
        }
        out
    }

    /// Moves the selection to the next card, after the selected one in board
    /// order and wrapping to the first, that waits on a person, and names it
    /// on the status line; says so when there is none.
    pub fn jump_to_human_intervention(&mut self)
        requires
            old(self).columns.len() <= old(self).cursors.len(),
        ensures
            human_jump_ok(*old(self), *final(self)),
    {
        let cands = self.gate_candidates();
        if cands.len() == 0 {
            self.status = match &self.filter {
                Some(f) => owned("no human-intervention cards visible for filter: ").concat(
                    f.as_str(),
                ),
                None => owned("no human-intervention cards on this board"),
            };
            return;
        }
        let cursor = self.current_cursor();
        let next = pick(&cands, self.focus, cursor);
        proof {
            lemma_first_after_bound(cands@, current_spot(*self));
            lemma_gate_cands_ok(*self, self.columns@.len() as int);
            assert(cand_ok(*self, cands@[next as int]));
        }
        let (col, pos, ci) = cands[next];
        let key = self.cards[ci].key.clone();
        let kind = match &self.cards[ci].human_intervention {
            Some(h) => h.clone(),
            None => String::new(),
        };
        self.focus = col;
        self.cursors.set(col, pos);
        self.status = owned("human_intervention: ").concat(key.as_str()).concat(" ").concat(
            kind.as_str(),
        );
    }
}

/// A next-work candidate: its column and card exist and the card has a kind.
pub open spec fn work_ok(app: App, work: Seq<Option<QueueStatus>>, c: (usize, usize, usize)) -> bool {
    &&& cand_ok(app, c)
    &&& work[c.2 as int] matches Some(st) && kind_of(st) is Some
}

pub proof fn lemma_work_cands_in_ok(app: App, work: Seq<Option<QueueStatus>>, r: int, col: int, idx: Seq<usize>)
    requires
        0 <= col < app.columns@.len(),
        work.len() == app.cards@.len(),
        forall|k: int| 0 <= k < idx.len() ==> idx[k] < app.cards@.len(),
    ensures
        forall|k: int|
            0 <= k < work_cands_in(work, r, col, idx).len() ==> work_ok(
                app,
                work,
                #[trigger] work_cands_in(work, r, col, idx)[k],
            ),
    decreases idx.len(),
{
    if idx.len() > 0 {
        lemma_work_cands_in_ok(app, work, r, col, idx.drop_last());
        let rest = work_cands_in(work, r, col, idx.drop_last());
        assert forall|k: int| 0 <= k < work_cands_in(work, r, col, idx).len() implies work_ok(
            app,
            work,
            #[trigger] work_cands_in(work, r, col, idx)[k],
        ) by {
            if k < rest.len() {
                assert(work_cands_in(work, r, col, idx)[k] == rest[k]);
            }
        }
    }
}

pub proof fn lemma_work_cands_ok(app: App, work: Seq<Option<QueueStatus>>, r: int, n: int)
    requires
        n <= app.columns@.len(),
        work.len() == app.cards@.len(),
    ensures
        forall|k: int|
            0 <= k < work_cands(app, work, r, n).len() ==> work_ok(
                app,
                work,
                #[trigger] work_cands(app, work, r, n)[k],
            ),
    decreases n,
{
    if n > 0 {
        lemma_work_cands_ok(app, work, r, n - 1);
        crate::board_app::lemma_shown_prefix_bounds(app, n - 1, app.cards@.len() as int);
        lemma_work_cands_in_ok(app, work, r, n - 1, column_indices(app, n - 1));
        let a = work_cands(app, work, r, n - 1);
        let b = work_cands_in(work, r, n - 1, column_indices(app, n - 1));
        assert forall|k: int| 0 <= k < work_cands(app, work, r, n).len() implies work_ok(
            app,
            work,
            #[trigger] work_cands(app, work, r, n)[k],
        ) by {
            if k < a.len() {
                assert(work_cands(app, work, r, n)[k] == a[k]);
            } else {
                assert(work_cands(app, work, r, n)[k] == b[k - a.len()]);
            }
        }
    }
}

pub proof fn lemma_ranked_cands_ok(app: App, work: Seq<Option<QueueStatus>>, r: int)
    requires
        work.len() == app.cards@.len(),
    ensures
        forall|k: int|
            0 <= k < ranked_cands(app, work, r).len() ==> work_ok(
                app,
                work,
                #[trigger] ranked_cands(app, work, r)[k],
            ),
    decreases r,
{
    if r > 0 {
        lemma_ranked_cands_ok(app, work, r - 1);
        lemma_work_cands_ok(app, work, r - 1, app.columns@.len() as int);
        let a = ranked_cands(app, work, r - 1);
        let b = work_cands(app, work, r - 1, app.columns@.len() as int);
        assert forall|k: int| 0 <= k < ranked_cands(app, work, r).len() implies work_ok(
            app,
            work,
            #[trigger] ranked_cands(app, work, r)[k],
        ) by {
            if k < a.len() {
                assert(ranked_cands(app, work, r)[k] == a[k]);
            } else {
                assert(ranked_cands(app, work, r)[k] == b[k - a.len()]);
            }
        }
    }
}

/// The next-work kind of a candidate card.
pub open spec fn cand_kind(work: Seq<Option<QueueStatus>>, c: (usize, usize, usize)) -> NextWorkKind {
    kind_of(work[c.2 as int]->0)->0
}

impl App {
    /// The cards that offer next work, best rank first, then column by column,
    /// top to bottom. `work` holds the work state of each card, or nothing
    /// where it could not be read.
    fn work_candidates(&self, work: &Vec<Option<QueueStatus>>) -> (r: Vec<(usize, usize, usize)>)
        requires
            work.len() == self.cards.len(),
        ensures
            r@ == ranked_cands(*self, work@, 8),
    {
        let mut out: Vec<(usize, usize, usize)> = Vec::new();
        let mut rank: u8 = 0;
        while rank < 8
            invariant
                rank <= 8,
                work.len() == self.cards.len(),
                out@ == ranked_cands(*self, work@, rank as int),
            decreases 8 - rank,
        {
            let mut col: usize = 0;
            while col < self.columns.len()
                invariant
                    col <= self.columns.len(),
                    rank < 8,
                    work.len() == self.cards.len(),
                    out@ == ranked_cands(*self, work@, rank as int) + work_cands(
                        *self,
                        work@,
                        rank as int,
                        col as int,
                    ),
                decreases self.columns.len() - col,
            {
                let shown = self.column_cards(col);
                proof {
                    crate::board_app::lemma_shown_prefix_bounds(
                        *self,
                        col as int,
                        self.cards@.len() as int,
                    );
                }
                let ghost base = out@;
                let mut p: usize = 0;
                while p < shown.len()
                    invariant
                        p <= shown.len(),
                        col < self.columns.len(),
                        rank < 8,
                        work.len() == self.cards.len(),
                        shown@ == column_indices(*self, col as int),
                        forall|k: int| 0 <= k < shown@.len() ==> shown@[k] < self.cards@.len(),
                        base == ranked_cands(*self, work@, rank as int) + work_cands(
                            *self,
                            work@,
                            rank as int,
                            col as int,
                        ),
                        out@ == base + work_cands_in(work@, rank as int, col as int, shown@.take(p as int)),
                    decreases shown.len() - p,
                {
                    assert(shown@.take(p + 1).drop_last() =~= shown@.take(p as int));
                    assert(shown@.take(p + 1).last() == shown@[p as int]);
                    let ci = shown[p];
                    let hit = match work[ci] {
                        Some(st) => match next_work_kind(st) {
                            Some(k) => k.rank() == rank,
                            None => false,
                        },
                        None => false,
                    };
                    assert(hit == has_rank(work@, ci as int, rank as int));
                    if hit {
                        out.push((col, p, ci));
                        assert(out@ =~= base + work_cands_in(
                            work@,
                            rank as int,
                            col as int,
                            shown@.take(p + 1),
                        ));
                    }
                    p = p + 1;
                }
                assert(shown@.take(shown@.len() as int) =~= shown@);
                assert(out@ =~= ranked_cands(*self, work@, rank as int) + work_cands(
                    *self,
                    work@,
                    rank as int,
                    col + 1,
                ));
                col = col + 1;
            }
            rank = rank + 1;
        }
        out
    }

    /// Moves the selection to the card that offers the best next work, after
    /// the selected card in board order within the ranking and wrapping to
    /// the best, and names it on the status line; says so when no card
    /// offers any. `work` holds the work state of each card, or nothing where
    /// it could not be read.
    pub fn jump_to_next_work(&mut self, work: &Vec<Option<QueueStatus>>)
        requires
            work.len() == old(self).cards.len(),
            old(self).columns.len() <= old(self).cursors.len(),
        ensures
            ({
                let cands = ranked_cands(*old(self), work@, 8);
                if cands.len() == 0 {
                    &&& final(self).status@ == no_work_cards(old(self).filter)
                    &&& final(self).focus == old(self).focus
                    &&& final(self).cursors == old(self).cursors
                } else {
                    let c = jump_target(cands, current_spot(*old(self)));
                    &&& landed_on(*final(self), *old(self), c)
                    &&& final(self).status@ == "next-work: "@ + old(self).cards@[c.2 as int].key@
                        + " "@ + label_spec(cand_kind(work@, c))
                }
            }),
            same_but_selection(*final(self), *old(self)),
    {
        let cands = self.work_candidates(work);
        if cands.len() == 0 {
            self.status = match &self.filter {
                Some(f) => owned("no next-work cards visible for filter: ").concat(f.as_str()),
                None => owned("no next-work cards on this board"),
            };
            return;
        }
        let cursor = self.current_cursor();
        let next = pick(&cands, self.focus, cursor);
        proof {
            lemma_first_after_bound(cands@, current_spot(*self));
            lemma_ranked_cands_ok(*self, work@, 8);
            assert(work_ok(*self, work@, cands@[next as int]));
        }
        let (col, pos, ci) = cands[next];
        let key = self.cards[ci].key.clone();
        let label: &str = match work[ci] {
            Some(st) => match next_work_kind(st) {
                Some(k) => k.label(),
                None => "",
            },
            None => "",
        };
        self.focus = col;
        self.cursors.set(col, pos);
        self.status = owned("next-work: ").concat(key.as_str()).concat(" ").concat(label);
    }
}

} // verus!
