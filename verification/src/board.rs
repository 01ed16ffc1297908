//! A board of the latest notifications.
//!
//! The board numbers the notifications from 1 as they come and keeps the
//! last [`MAX_NOTIF`] of them. The notification number `n` stands in slot
//! `(n - 1) % MAX_NOTIF`, where it replaces the one that came `MAX_NOTIF`
//! earlier.

use crate::text::{decimal, push_decimal};
use vstd::prelude::*;
use vstd::string::StringExecFns;

verus! {

/// How many notifications the board keeps.
pub const MAX_NOTIF: usize = 10;

/// The board as mathematics: how many notifications came so far, and the
/// slots with the number and the text of the notification in each.
pub struct BoardModel {
    pub counter: nat,
    pub lines: Seq<(nat, Seq<char>)>,
}

/// One line of the board as text: the number in decimal, ` - `, the text of
/// the notification and a line feed.
pub open spec fn line_text(line: (nat, Seq<char>)) -> Seq<char> {
    decimal(line.0) + seq![' ', '-', ' '] + line.1 + seq!['\n']
}

/// The lines as text, slot by slot.
pub open spec fn lines_text(lines: Seq<(nat, Seq<char>)>) -> Seq<char>
    decreases lines.len(),
{
    if lines.len() == 0 {
        Seq::empty()
    } else {
        lines_text(lines.drop_last()) + line_text(lines.last())
    }
}

impl BoardModel {
    /// The board before anything came.
    pub open spec fn empty() -> BoardModel {
        BoardModel { counter: 0, lines: Seq::empty() }
    }

    /// The board after the notification `text` came: it gets the next
    /// number, and a slot of its own while there are free ones, else the
    /// slot of the oldest.
    pub open spec fn add(self, text: Seq<char>) -> BoardModel {
        let line = (self.counter + 1, text);
        BoardModel {
            counter: self.counter + 1,
            lines: if self.lines.len() < MAX_NOTIF {
                self.lines.push(line)
            } else {
                self.lines.update((self.counter % (MAX_NOTIF as nat)) as int, line)
            },
        }
    }

    /// The board after the notifications `texts` came, one after the other.
    pub open spec fn add_all(self, texts: Seq<Seq<char>>) -> BoardModel
        decreases texts.len(),
    {
        if texts.len() == 0 {
            self
        } else {
            self.add_all(texts.drop_last()).add(texts.last())
        }
    }

    /// Every slot that is in use holds one of the last `MAX_NOTIF` numbers,
    /// the one that belongs there, and as many slots are in use as
    /// notifications came, up to `MAX_NOTIF`.
    pub open spec fn valid(self) -> bool {
        &&& self.lines.len() == if self.counter < MAX_NOTIF {
            self.counter
        } else {
            MAX_NOTIF as nat
        }
        &&& forall|slot: int|
            0 <= slot < self.lines.len() ==> {
                let number = (#[trigger] self.lines[slot]).0;
                &&& 1 <= number <= self.counter < number + MAX_NOTIF
                &&& (number - 1) % (MAX_NOTIF as int) == slot
            }
    }

    /// What the board shows.
    pub open spec fn text(self) -> Seq<char> {
        lines_text(self.lines)
    }
}

/// Adding a notification keeps a board valid.
pub proof fn lemma_add_keeps_valid(board: BoardModel, text: Seq<char>)
    requires
        board.valid(),
    ensures
        board.add(text).valid(),
{
    let next = board.add(text);
    assert forall|slot: int| 0 <= slot < next.lines.len() implies {
        let number = (#[trigger] next.lines[slot]).0;
        &&& 1 <= number <= next.counter < number + MAX_NOTIF
        &&& (number - 1) % (MAX_NOTIF as int) == slot
    } by {
        if board.lines.len() < MAX_NOTIF {
            if slot < board.lines.len() {
                assert(next.lines[slot] == board.lines[slot]);
            }
        } else if slot != board.counter % (MAX_NOTIF as nat) {
            assert(next.lines[slot] == board.lines[slot]);
        }
    }
}

/// What came to an empty board is counted, and the board is valid.
pub proof fn law_board_counts(texts: Seq<Seq<char>>)
    ensures
        BoardModel::empty().add_all(texts).counter == texts.len(),
        BoardModel::empty().add_all(texts).valid(),
    decreases texts.len(),
{
    if texts.len() > 0 {
        law_board_counts(texts.drop_last());
        lemma_add_keeps_valid(BoardModel::empty().add_all(texts.drop_last()), texts.last());
    }
}

/// The board keeps the latest. After `texts` came to an empty board, each
/// of the last `MAX_NOTIF` of them stands in its slot, with its number and
/// its text.
pub proof fn law_board_keeps_latest(texts: Seq<Seq<char>>, number: nat)
    requires
        1 <= number <= texts.len() < number + MAX_NOTIF,
    ensures
        ({
            let board = BoardModel::empty().add_all(texts);
            let slot = (number - 1) % (MAX_NOTIF as int);
            &&& 0 <= slot < board.lines.len()
            &&& board.lines[slot] == (number, texts[number - 1])
        }),
    decreases texts.len(),
{
    law_board_counts(texts.drop_last());
    law_board_counts(texts);
    if number < texts.len() {
        law_board_keeps_latest(texts.drop_last(), number);
    }
}

/// The board of the latest notifications.
pub struct Notifications {
    counter: usize,
    lines: Vec<(usize, String)>,
}

impl View for Notifications {
    type V = BoardModel;

    closed spec fn view(&self) -> BoardModel {
        BoardModel {
            counter: self.counter as nat,
            lines: Seq::new(self.lines.len() as nat, |i: int| (self.lines[i].0 as nat, self.lines[i].1@)),
        }
    }
}

impl Notifications {
    #[verifier::type_invariant]
    spec fn wf(&self) -> bool {
        self@.valid()
    }

    /// The board before anything came.
    pub fn new() -> (board: Notifications)
        ensures
            board@ == BoardModel::empty(),
    {
        let board = Notifications { counter: 0, lines: Vec::new() };
        assert(board@.lines =~= BoardModel::empty().lines);
        board
    }

    /// How many notifications came since the board was last cleared.
    pub fn counter(&self) -> (counter: usize)
        ensures
            counter == self@.counter,
    {
        self.counter
    }

    /// Puts the notification `text` on the board.
    pub fn add(&mut self, text: String)
        requires
            old(self)@.counter < usize::MAX,
        ensures
            final(self)@ == old(self)@.add(text@),
            final(self)@.valid(),
    {
        let mut board = Notifications::new();
        proof {
            use_type_invariant(&*self);
            use_type_invariant(&board);
        }
        core::mem::swap(self, &mut board);
        let Notifications { counter, mut lines } = board;
        let slot = counter % MAX_NOTIF;
        let line = (counter + 1, text);
        if lines.len() < MAX_NOTIF {
            lines.push(line);
        } else {
            lines[slot] = line;
        }
        proof {
            lemma_add_keeps_valid(old(self)@, text@);
            let next = Notifications { counter: (counter + 1) as usize, lines };
            assert(next@.lines =~= old(self)@.add(text@).lines);
        }
        *self = Notifications { counter: counter + 1, lines };
    }

    /// Takes everything off the board and starts numbering anew.
    pub fn clear(&mut self)
        ensures
            final(self)@ == BoardModel::empty(),
    {
        *self = Notifications::new();
    }

    /// What the board shows: one line for each slot in use.
    pub fn show(&self) -> (text: String)
        ensures
            text@ == self@.text(),
    {
        let mut text = String::new();
        let mut at: usize = 0;
        proof {
            reveal_strlit(" - ");
            reveal_strlit("\n");
            assert(self@.lines.take(0) =~= Seq::empty());
        }
        while at < self.lines.len()
            invariant
                at <= self.lines.len(),
                text@ == lines_text(self@.lines.take(at as int)),
                " - "@ == seq![' ', '-', ' '],
                "\n"@ == seq!['\n'],
            decreases self.lines.len() - at,
        {
            let ghost before = text@;
            push_decimal(&mut text, self.lines[at].0);
            text.append(" - ");
            text.append(self.lines[at].1.as_str());
            text.append("\n");
            proof {
                let upto = self@.lines.take(at + 1);
                assert(upto.drop_last() =~= self@.lines.take(at as int));
                assert(upto.last() == self@.lines[at as int]);
                assert(text@ =~= before + line_text(self@.lines[at as int]));
            }
            at += 1;
        }
        assert(self@.lines.take(at as int) =~= self@.lines);
        text
    }
}

impl Default for Notifications {
    fn default() -> (board: Notifications)
        ensures
            board@ == BoardModel::empty(),
    {
        Notifications::new()
    }
}

} // verus!
