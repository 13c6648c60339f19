//! How the board screen takes the store's answer to the work a key asked
//! for: the status line that reports it, the screen that follows, and which
//! board to show next. Reading the cards and columns again is the business
//! of `reload`, `refresh_columns` and `switch_board`.
use vstd::prelude::*;
use crate::board_app::{App, BoardInfo, Mode, key_location};
use crate::board_nav::{board_pos, find_board, same_but_mode};
use crate::board_state::column_pos;
use crate::text::{owned, str_eq};

verus! {

/// The position of the first board whose id is not `id`.
pub open spec fn other_board(boards: Seq<BoardInfo>, id: Seq<char>) -> Option<int>
    decreases boards.len(),
{
    if boards.len() == 0 {
        None
    } else {
        match other_board(boards.drop_last(), id) {
            Some(i) => Some(i),
            None => if boards.last().id@ != id {
                Some(boards.len() - 1)
            } else {
                None
            },
        }
    }
}

proof fn lemma_other_board_prefix(boards: Seq<BoardInfo>, id: Seq<char>, n: int)
    requires
        0 <= n <= boards.len(),
        other_board(boards.take(n), id) is Some,
    ensures
        other_board(boards, id) == other_board(boards.take(n), id),
    decreases boards.len(),
{
    if n < boards.len() {
        assert(boards.drop_last().take(n) =~= boards.take(n));
        lemma_other_board_prefix(boards.drop_last(), id, n);
    } else {
        assert(boards.take(n) =~= boards);
    }
}

/// The position of the first board whose id is not `id`.
pub fn first_other_board(boards: &Vec<BoardInfo>, id: &str) -> (r: Option<usize>)
    ensures
        match other_board(boards@, id@) {
            Some(i) => r == Some(i as usize) && i < boards.len(),
            None => r is None,
        },
{
    let mut i: usize = 0;
    while i < boards.len()
        invariant
            i <= boards.len(),
            other_board(boards@.take(i as int), id@) is None,
        decreases boards.len() - i,
    {
        assert(boards@.take(i + 1).drop_last() =~= boards@.take(i as int));
        if !str_eq(boards[i].id.as_str(), id) {
            proof {
                assert(other_board(boards@.take(i + 1), id@) == Some(i as int));
                lemma_other_board_prefix(boards@, id@, i + 1);
            }
            return Some(i);
        }
        i = i + 1;
    }
    assert(boards@.take(boards.len() as int) =~= boards@);
    None
}

impl App {
    /// After a column was deleted and its cards moved to `dest_name`: back to
    /// the column manager, saying where the cards went.
    pub fn column_deleted(&mut self, dest_name: &str)
        ensures
            final(self).status@ == "column deleted; cards moved to "@ + dest_name@,
            final(self).mode is ColumnManager,
            same_but_mode(*final(self), *old(self)),
    {
        self.status = owned("column deleted; cards moved to ").concat(dest_name);
        self.mode = Mode::ColumnManager;
    }

    /// After board `board_id` was archived, with the board list read again:
    /// the board screen follows, with the first other board to show.
    pub fn board_archived(&mut self, board_id: &str, board_name: &str, boards: Vec<BoardInfo>) -> (r:
        Option<usize>)
        ensures
            final(self).boards == boards,
            match other_board(boards@, board_id@) {
                Some(i) => r == Some(i as usize),
                None => r is None,
            },
            final(self).mode is Normal,
            final(self).status@ == "archived board '"@ + board_name@ + "' (U to restore)"@,
            final(self).board == old(self).board && final(self).columns == old(self).columns,
            final(self).cards == old(self).cards && final(self).labels == old(self).labels,
            final(self).focus == old(self).focus && final(self).cursors == old(self).cursors,
            final(self).col_cursor == old(self).col_cursor && final(self).filter == old(self).filter,
            final(self).should_quit == old(self).should_quit,
    {
        let next = first_other_board(&boards, board_id);
        self.boards = boards;
        self.mode = Mode::Normal;
        self.status = owned("archived board '").concat(board_name).concat("' (U to restore)");
        next
    }

    /// Once another board is shown: the status names it; from the board
    /// list, the board screen follows.
    pub fn board_shown(&mut self, from_list: bool)
        ensures
            final(self).status@ == "board: "@ + old(self).board.name@,
            final(self).mode == if from_list {
                Mode::Normal
            } else {
                old(self).mode
            },
            same_but_mode(*final(self), *old(self)),
    {
        self.status = owned("board: ").concat(self.board.name.as_str());
        if from_list {
            self.mode = Mode::Normal;
        }
    }

    /// Once the board created from template `template_key` is shown.
    pub fn board_created(&mut self, template_key: &str)
        ensures
            final(self).status@ == "created board "@ + old(self).board.name@ + " ("@ + template_key@
                + ")"@,
            final(self).mode is Normal,
            same_but_mode(*final(self), *old(self)),
    {
        self.status = owned("created board ").concat(self.board.name.as_str()).concat(" (").concat(
            template_key,
        ).concat(")");
        self.mode = Mode::Normal;
    }

    /// Once the restored board is shown.
    pub fn board_unarchived(&mut self)
        ensures
            final(self).status@ == "unarchived board '"@ + old(self).board.name@ + "'"@,
            final(self).mode is Normal,
            same_but_mode(*final(self), *old(self)),
    {
        self.status = owned("unarchived board '").concat(self.board.name.as_str()).concat("'");
        self.mode = Mode::Normal;
    }

    /// After deleting board `board_name`, with the board list read again:
    /// the status says whether it went, or why not.
    pub fn board_deleted(&mut self, board_name: &str, failure: Option<&str>, boards: Vec<BoardInfo>)
        ensures
            final(self).boards == boards,
            final(self).status@ == match failure {
                None => "deleted board '"@ + board_name@ + "'"@,
                Some(e) => "delete failed: "@ + e@,
            },
            final(self).mode is Normal,
            final(self).board == old(self).board && final(self).columns == old(self).columns,
            final(self).cards == old(self).cards && final(self).labels == old(self).labels,
            final(self).focus == old(self).focus && final(self).cursors == old(self).cursors,
            final(self).col_cursor == old(self).col_cursor && final(self).filter == old(self).filter,
            final(self).should_quit == old(self).should_quit,
    {
        self.status = match failure {
            None => owned("deleted board '").concat(board_name).concat("'"),
            Some(e) => owned("delete failed: ").concat(e),
        };
        self.boards = boards;
        self.mode = Mode::Normal;
    }

    /// Before moving a card to board `board_id`, with the board list read
    /// again: the board's place in it, or a status saying it is gone.
    pub fn card_move_target(&mut self, board_id: &str, board_name: &str, boards: Vec<BoardInfo>) -> (r:
        Option<usize>)
        ensures
            final(self).boards == boards,
            match board_pos(boards@, board_id@) {
                Some(i) => r == Some(i as usize) && final(self).status == old(self).status,
                None => r is None && final(self).status@ == "board '"@ + board_name@ + "' not found"@,
            },
            final(self).mode == old(self).mode,
            final(self).board == old(self).board && final(self).columns == old(self).columns,
            final(self).cards == old(self).cards && final(self).labels == old(self).labels,
            final(self).focus == old(self).focus && final(self).cursors == old(self).cursors,
            final(self).col_cursor == old(self).col_cursor && final(self).filter == old(self).filter,
            final(self).should_quit == old(self).should_quit,
    {
        let found = find_board(&boards, board_id);
        self.boards = boards;
        if found.is_none() {
            self.status = owned("board '").concat(board_name).concat("' not found");
        }
        found
    }

    /// Once card `old_key` was moved and the destination board is shown: its
    /// new key `new_key` is selected, and the status says where it went
    /// (`sent` from the backlog, else `moved`).
    pub fn card_moved_to_board(&mut self, old_key: &str, new_key: &str, from_backlog: bool)
        requires
            old(self).columns.len() <= old(self).cursors.len(),
        ensures
            final(self).status@ == (if from_backlog {
                "sent "@
            } else {
                "moved "@
            }) + old_key@ + " -> "@ + old(self).board.name@ + " as "@ + new_key@,
            final(self).mode is Normal,
            match key_location(*old(self), new_key@, old(self).columns@.len() as int) {
                Some((col, pos)) => final(self).focus == col && final(self).cursors@
                    == old(self).cursors@.update(col, pos as usize),
                None => final(self).focus == old(self).focus && final(self).cursors
                    == old(self).cursors,
            },
            final(self).board == old(self).board && final(self).boards == old(self).boards,
            final(self).columns == old(self).columns && final(self).cards == old(self).cards,
            final(self).labels == old(self).labels && final(self).col_cursor == old(self).col_cursor,
            final(self).filter == old(self).filter && final(self).should_quit == old(self).should_quit,
    {
        self.select_key(new_key);
        let verb = if from_backlog {
            "sent "
        } else {
            "moved "
        };
        self.status = owned(verb).concat(old_key).concat(" -> ").concat(self.board.name.as_str()).concat(
            " as ",
        ).concat(new_key);
        self.mode = Mode::Normal;
    }

    /// After the priority of card `key` changed; `badge` is the new
    /// priority's badge.
    pub fn priority_cycled(&mut self, key: &str, badge: &str)
        ensures
            final(self).status@ == key@ + " priority -> "@ + badge@,
            final(self).mode == old(self).mode,
            same_but_mode(*final(self), *old(self)),
    {
        self.status = owned(key).concat(" priority -> ").concat(badge);
    }

    /// After the store refused a due date.
    pub fn due_refused(&mut self, error: &str)
        ensures
            final(self).status@ == "bad date: "@ + error@,
            final(self).mode == old(self).mode,
            same_but_mode(*final(self), *old(self)),
    {
        self.status = owned("bad date: ").concat(error);
    }

    /// After column `name` (id `id`) was added and the columns read again:
    /// the column manager's cursor goes to it.
    pub fn column_added(&mut self, id: &str, name: &str)
        ensures
            final(self).status@ == "added column "@ + name@,
            final(self).col_cursor == match column_pos(old(self).columns@, id@) {
                Some(p) => p as usize,
                None => old(self).col_cursor,
            },
            final(self).mode == old(self).mode,
            final(self).board == old(self).board && final(self).boards == old(self).boards,
            final(self).columns == old(self).columns && final(self).cards == old(self).cards,
            final(self).labels == old(self).labels && final(self).focus == old(self).focus,
            final(self).cursors == old(self).cursors && final(self).filter == old(self).filter,
            final(self).should_quit == old(self).should_quit,
    {
        let mut i: usize = 0;
        while i < self.columns.len()
            invariant
                *self == *old(self),
                i <= self.columns.len(),
                column_pos(self.columns@.take(i as int), id@) is None,
            decreases self.columns.len() - i,
        {
            assert(self.columns@.take(i + 1).drop_last() =~= self.columns@.take(i as int));
            if str_eq(self.columns[i].id.as_str(), id) {
                proof {
                    assert(column_pos(self.columns@.take(i + 1), id@) == Some(i as int));
                    crate::board_state::lemma_column_pos_prefix(self.columns@, id@, i + 1);
                }
                self.col_cursor = i;
                self.status = owned("added column ").concat(name);
                return;
            }
            i = i + 1;
        }
        assert(self.columns@.take(self.columns.len() as int) =~= self.columns@);
        self.status = owned("added column ").concat(name);
    }

    /// After the store refused a column change.
    pub fn column_refused(&mut self, error: &str)
        ensures
            final(self).status@ == "error: "@ + error@,
            final(self).mode == old(self).mode,
            same_but_mode(*final(self), *old(self)),
    {
        self.status = owned("error: ").concat(error);
    }

    /// After a column was renamed to `name`.
    pub fn column_renamed(&mut self, name: &str)
        ensures
            final(self).status@ == "renamed column to "@ + name@,
            final(self).mode == old(self).mode,
            same_but_mode(*final(self), *old(self)),
    {
        self.status = owned("renamed column to ").concat(name);
    }

    /// After the board's agent context was saved: set, or cleared.
    pub fn board_context_saved(&mut self, set: bool)
        ensures
            final(self).status@ == if set {
                "board agent context updated"@
            } else {
                "board agent context cleared"@
            },
            final(self).mode == old(self).mode,
            same_but_mode(*final(self), *old(self)),
    {
        self.status = if set {
            owned("board agent context updated")
        } else {
            owned("board agent context cleared")
        };
    }
}

/// A board as the store lists it among all boards, archived or not.
#[derive(Debug)]
pub struct ListedBoard {
    pub board: BoardInfo,
    pub archived_at: Option<i64>,
}

/// The archived boards among `all`, in the store's order.
pub open spec fn archived_spec(all: Seq<ListedBoard>) -> Seq<BoardInfo>
    decreases all.len(),
{
    if all.len() == 0 {
        Seq::empty()
    } else {
        let rest = archived_spec(all.drop_last());
        if all.last().archived_at is Some {
            rest.push(all.last().board)
        } else {
            rest
        }
    }
}

/// The archived boards among all boards, in the store's order.
pub fn archived_boards(all: Vec<ListedBoard>) -> (r: Vec<BoardInfo>)
    ensures
        r@ == archived_spec(all@),
{
    let ghost full = all@;
    let n = all.len();
    assert(full.len() == n);
    let mut out: Vec<BoardInfo> = Vec::new();
    let mut rest = all;
    let mut i: usize = 0;
    proof {
        assert(full.take(0) =~= Seq::<ListedBoard>::empty());
        assert(full.skip(0) =~= full);
    }
    while rest.len() > 0
        invariant
            i <= full.len(),
            full.len() <= usize::MAX,
            rest@ == full.skip(i as int),
            out@ == archived_spec(full.take(i as int)),
        decreases rest.len(),
    {
        let b = rest.remove(0);
        proof {
            assert(full.take(i + 1).drop_last() =~= full.take(i as int));
            assert(full.take(i + 1).last() == b);
            assert(rest@ =~= full.skip(i + 1));
        }
        if b.archived_at.is_some() {
            out.push(b.board);
        }
        i = i + 1;
    }
    proof {
        assert(full.take(i as int) =~= full);
    }
    out
}

impl App {
    /// After the archived boards were listed: their list opens, or the
    /// status says there are none.
    pub fn archived_boards_shown(&mut self, count: usize)
        ensures
            if count == 0 {
                final(self).status@ == "no archived boards"@ && final(self).mode == old(self).mode
            } else {
                final(self).mode == (Mode::BoardUnarchive { cursor: 0 }) && final(self).status
                    == old(self).status
            },
            same_but_mode(*final(self), *old(self)),
    {
        if count == 0 {
            self.status = owned("no archived boards");
        } else {
            self.mode = Mode::BoardUnarchive { cursor: 0 };
        }
    }
}

} // verus!
