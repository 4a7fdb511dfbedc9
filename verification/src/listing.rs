//! What a managed directory holds: the numbered lines that show it, and the
//! entry that a number selects.

use crate::text::{decimal, is_number, law_decimal_reads_back, number_value, render};
use vstd::prelude::*;

verus! {

/// What enumerating a managed directory gave.
///
/// `entries` is `None` where the directory could not be opened. Otherwise it
/// holds one item for each entry, in the order of enumeration: the entry's
/// file name, or `None` for an entry that could not be read.
#[derive(Clone, Debug, PartialEq, Eq)]
pub struct Listing {
    pub entries: Option<Vec<Option<String>>>,
}

impl View for Listing {
    type V = Seq<Option<Seq<char>>>;

    /// The entries in order. A directory that could not be opened counts as
    /// an empty one.
    open spec fn view(&self) -> Seq<Option<Seq<char>>> {
        match self.entries {
            Some(entries) => entries.deep_view(),
            None => Seq::empty(),
        }
    }
}

/// The line that shows the entry called `name` at `position`, counted from zero.
pub open spec fn entry_line(position: nat, name: Seq<char>) -> Seq<char> {
    decimal(position + 1) + ". "@ + name
}

/// The lines that show `entries`: one for each entry that could be read, in
/// order, numbered by the entry's place among all of them.
pub open spec fn numbered_lines(entries: Seq<Option<Seq<char>>>) -> Seq<Seq<char>>
    decreases entries.len(),
{
    if entries.len() == 0 {
        Seq::empty()
    } else {
        let before = numbered_lines(entries.drop_last());
        match entries.last() {
            Some(name) => before.push(entry_line((entries.len() - 1) as nat, name)),
            None => before,
        }
    }
}

/// The position, counted from zero, of the entry that the number `selected`,
/// counted from one, picks among `entries`: none where the number is out of
/// range or the entry there could not be read.
pub open spec fn chosen(entries: Seq<Option<Seq<char>>>, selected: nat) -> Option<nat> {
    if 1 <= selected <= entries.len() && entries[selected - 1] is Some {
        Some((selected - 1) as nat)
    } else {
        None
    }
}

impl Listing {
    /// Writes the lines that show the listing.
    pub fn lines(&self) -> (lines: Vec<String>)
        ensures
            lines.deep_view() == numbered_lines(self@),
    {
        let mut lines: Vec<String> = Vec::new();
        match &self.entries {
            None => {
                assert(lines.deep_view() == Seq::<Seq<char>>::empty());
            },
            Some(entries) => {
                let n: usize = entries.len();
                let mut i: usize = 0;
                assert(lines.deep_view() == Seq::<Seq<char>>::empty());
                assert(self@.take(0) == Seq::<Option<Seq<char>>>::empty());
                while i < n
                    invariant
                        i <= n,
                        n == entries.len(),
                        self@ == entries.deep_view(),
                        lines.deep_view() == numbered_lines(self@.take(i as int)),
                    decreases n - i,
                {
                    let ghost before = lines.deep_view();
                    assert(self@.take(i + 1).drop_last() == self@.take(i as int));
                    assert(self@.take(i + 1).last() == entries[i as int].deep_view());
                    match &entries[i] {
                        Some(name) => {
                            let mut line = render(i + 1);
                            line.append(". ");
                            line.append(name.as_str());
                            assert(line@ == entry_line(i as nat, name@));
                            lines.push(line);
                            assert(lines.deep_view() == before.push(line@));
                        },
                        None => {},
                    }
                    i = i + 1;
                }
                assert(self@.take(n as int) == self@);
            },
        }
        lines
    }

    /// Finds the entry that the number `selected`, counted from one, picks.
    pub fn select(&self, selected: usize) -> (position: Option<usize>)
        ensures
            position is Some <==> chosen(self@, selected as nat) is Some,
            position is Some ==> position->0 == chosen(self@, selected as nat)->0,
    {
        match &self.entries {
            None => None,
            Some(entries) => {
                if 1 <= selected && selected <= entries.len() {
                    assert(self@[selected - 1] == entries[selected - 1].deep_view());
                    match &entries[selected - 1] {
                        Some(_) => Some(selected - 1),
                        None => None,
                    }
                } else {
                    None
                }
            },
        }
    }
}

/// Where every entry can be read, there is one line for each entry, in the
/// order of the entries, and the lines are numbered from one upwards.
pub proof fn law_lines_number_every_entry(entries: Seq<Option<Seq<char>>>)
    requires
        forall|k: int| 0 <= k < entries.len() ==> (#[trigger] entries[k]) is Some,
    ensures
        numbered_lines(entries).len() == entries.len(),
        forall|k: int|
            0 <= k < entries.len() ==> #[trigger] numbered_lines(entries)[k] == decimal(
                (k + 1) as nat,
            ) + ". "@ + entries[k]->0,
    decreases entries.len(),
{
    if entries.len() > 0 {
        let shorter = entries.drop_last();
        assert forall|k: int| 0 <= k < shorter.len() implies (#[trigger] shorter[k]) is Some by {
            assert(shorter[k] == entries[k]);
        }
        law_lines_number_every_entry(shorter);
        assert forall|k: int| 0 <= k < entries.len() implies #[trigger] numbered_lines(entries)[k]
            == decimal((k + 1) as nat) + ". "@ + entries[k]->0 by {
            if k < shorter.len() {
                assert(shorter[k] == entries[k]);
                assert(numbered_lines(entries)[k] == numbered_lines(shorter)[k]);
            }
        }
    }
}

/// The number that its line shows for an entry selects that entry.
pub proof fn law_shown_number_selects_the_entry(entries: Seq<Option<Seq<char>>>, position: nat)
    requires
        position < entries.len(),
        entries[position as int] is Some,
    ensures
        is_number(decimal(position + 1)),
        chosen(entries, number_value(decimal(position + 1))) == Some(position),
{
    law_decimal_reads_back(position + 1);
}

} // verus!
