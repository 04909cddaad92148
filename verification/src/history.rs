//! Bounded command history: an ordered sequence of past input lines with a
//! fixed capacity, evicting the oldest line first when full.

use vstd::prelude::*;

verus! {

/// Upper bound on remembered input lines; committing beyond it discards the
/// oldest lines first.
pub const MAX_HISTORY_SIZE: usize = 100;

/// The lines of `s`, each as its character sequence.
pub open spec fn lines_view(s: Seq<String>) -> Seq<Seq<char>> {
    Seq::new(s.len(), |i: int| s[i]@)
}

/// What a history holds after committing `line` to `h`: the line is appended
/// and the front is trimmed until at most `MAX_HISTORY_SIZE` lines remain.
pub open spec fn committed(h: Seq<Seq<char>>, line: Seq<char>) -> Seq<Seq<char>> {
    let pushed = h.push(line);
    if pushed.len() > MAX_HISTORY_SIZE as int {
        pushed.skip(pushed.len() - MAX_HISTORY_SIZE as int)
    } else {
        pushed
    }
}

/// What a history holds after committing each of `lines` to `h` in order.
pub open spec fn commit_all(h: Seq<Seq<char>>, lines: Seq<Seq<char>>) -> Seq<Seq<char>>
    decreases lines.len(),
{
    if lines.len() == 0 {
        h
    } else {
        commit_all(committed(h, lines[0]), lines.skip(1))
    }
}

pub struct CommandHistory {
    lines: Vec<String>,
}

impl View for CommandHistory {
    type V = Seq<Seq<char>>;

    closed spec fn view(&self) -> Seq<Seq<char>> {
        lines_view(self.lines@)
    }
}

impl CommandHistory {
    pub fn new() -> (r: Self)
        ensures
            r@ == Seq::<Seq<char>>::empty(),
    {
        let r = Self { lines: Vec::new() };
        proof {
            assert(r@ =~= Seq::<Seq<char>>::empty());
        }
        r
    }

    /// A history holding the given lines, oldest first, as loaded from a
    /// persisted store; an overlong load is trimmed by the next commit.
    pub fn from_lines(lines: Vec<String>) -> (r: Self)
        ensures
            r@ == lines_view(lines@),
    {
        Self { lines }
    }

    pub fn len(&self) -> (r: usize)
        ensures
            r == self@.len(),
    {
        self.lines.len()
    }

    pub fn get(&self, index: usize) -> (r: Option<&String>)
        ensures
            match r {
                Some(line) => index < self@.len() && line@ == self@[index as int],
                None => index >= self@.len(),
            },
    {
        if index < self.lines.len() {
            Some(&self.lines[index])
        } else {
            None
        }
    }

    /// The stored lines, oldest first, for the persisted history store.
    pub fn lines(&self) -> (r: &Vec<String>)
        ensures
            lines_view(r@) == self@,
    {
        &self.lines
    }

    /// Appends a committed line, then discards lines from the front until at
    /// most `MAX_HISTORY_SIZE` remain.
    pub fn commit(&mut self, line: String)
        ensures
            final(self)@ == committed(old(self)@, line@),
    {
        self.lines.push(line);
        let ghost p = lines_view(self.lines@);
        proof {
            assert(p =~= old(self)@.push(line@));
            assert(p.skip(0) =~= p);
        }
        while self.lines.len() > MAX_HISTORY_SIZE
            invariant
                self.lines@.len() <= p.len(),
                p.len() > MAX_HISTORY_SIZE as int ==> self.lines@.len() >= MAX_HISTORY_SIZE as int,
                p.len() <= MAX_HISTORY_SIZE as int ==> self.lines@.len() == p.len(),
                lines_view(self.lines@) == p.skip(p.len() - self.lines@.len()),
            decreases self.lines@.len(),
        {
            let ghost before = self.lines@;
            self.lines.remove(0);
            proof {
                assert(lines_view(self.lines@) =~= lines_view(before).skip(1));
                assert(lines_view(before).skip(1) =~= p.skip(p.len() - self.lines@.len()));
            }
        }
        proof {
            assert(self@ =~= committed(old(self)@, line@));
        }
    }
}

/// After committing a run of lines into a history of at most
/// `MAX_HISTORY_SIZE` lines, the history holds the last `MAX_HISTORY_SIZE`
/// lines of the old contents followed by the run, oldest first.
pub proof fn lemma_commit_all(h: Seq<Seq<char>>, lines: Seq<Seq<char>>)
    requires
        h.len() <= MAX_HISTORY_SIZE as int,
    ensures
        commit_all(h, lines) == if h.len() + lines.len() <= MAX_HISTORY_SIZE as int {
            h + lines
        } else {
            (h + lines).skip(h.len() + lines.len() - MAX_HISTORY_SIZE as int)
        },
    decreases lines.len(),
{
    let total = h + lines;
    if lines.len() == 0 {
        assert(total =~= h);
    } else {
        let h1 = committed(h, lines[0]);
        let k0: int = if h.len() + 1 > MAX_HISTORY_SIZE as int {
            h.len() + 1 - MAX_HISTORY_SIZE as int
        } else {
            0
        };
        assert(h1 =~= (h + seq![lines[0]]).skip(k0));
        lemma_commit_all(h1, lines.skip(1));
        assert(h1 + lines.skip(1) =~= total.skip(k0));
        if h1.len() + lines.skip(1).len() <= MAX_HISTORY_SIZE as int {
            assert(commit_all(h, lines) =~= if total.len() <= MAX_HISTORY_SIZE as int {
                total
            } else {
                total.skip(total.len() - MAX_HISTORY_SIZE as int)
            });
        } else {
            assert(commit_all(h, lines) =~= total.skip(total.len() - MAX_HISTORY_SIZE as int));
        }
    }
}

/// After committing `lines` into an empty history, the history holds exactly
/// those lines in order when there are at most `MAX_HISTORY_SIZE` of them,
/// and otherwise only the most recent `MAX_HISTORY_SIZE`, the oldest
/// discarded first.
pub proof fn lemma_history_retains_most_recent(lines: Seq<Seq<char>>)
    ensures
        lines.len() <= MAX_HISTORY_SIZE as int ==> commit_all(
            Seq::<Seq<char>>::empty(),
            lines,
        ) == lines,
        lines.len() > MAX_HISTORY_SIZE as int ==> commit_all(Seq::<Seq<char>>::empty(), lines)
            == lines.skip(lines.len() - MAX_HISTORY_SIZE as int),
{
    lemma_commit_all(Seq::<Seq<char>>::empty(), lines);
    assert(Seq::<Seq<char>>::empty() + lines =~= lines);
    if lines.len() > MAX_HISTORY_SIZE as int {
        assert((Seq::<Seq<char>>::empty() + lines).skip(lines.len() - MAX_HISTORY_SIZE as int)
            =~= lines.skip(lines.len() - MAX_HISTORY_SIZE as int));
    }
}

} // verus!
