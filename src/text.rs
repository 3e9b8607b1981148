//! Decimal numbers and the short phrases that describe local changes.
use vstd::prelude::*;
use vstd::string::*;

use crate::status::LocalChanges;

verus! {

/// The decimal digit character of `d`.
pub open spec fn digit_char(d: nat) -> char {
    if d == 0 {
        '0'
    } else if d == 1 {
        '1'
    } else if d == 2 {
        '2'
    } else if d == 3 {
        '3'
    } else if d == 4 {
        '4'
    } else if d == 5 {
        '5'
    } else if d == 6 {
        '6'
    } else if d == 7 {
        '7'
    } else if d == 8 {
        '8'
    } else {
        '9'
    }
}

/// `n` written in decimal, without leading zeros.
pub open spec fn decimal_of(n: nat) -> Seq<char>
    decreases n,
{
    if n < 10 {
        seq![digit_char(n)]
    } else {
        decimal_of(n / 10) + seq![digit_char(n % 10)]
    }
}

/// `""` when `n` is one, else `suffix`.
pub open spec fn plural(n: nat, suffix: Seq<char>) -> Seq<char> {
    if n == 1 {
        Seq::empty()
    } else {
        suffix
    }
}

/// `parts` joined with `sep` between each two.
pub open spec fn joined(parts: Seq<Seq<char>>, sep: Seq<char>) -> Seq<char>
    decreases parts.len(),
{
    if parts.len() == 0 {
        Seq::empty()
    } else if parts.len() == 1 {
        parts[0]
    } else {
        joined(parts.drop_last(), sep) + sep + parts.last()
    }
}

/// The notes on local changes: the number of stashes when there are any,
/// then the number of changed files (staged, unstaged and untracked
/// together) when there are any, each counted noun in the plural unless
/// one.
pub open spec fn change_notes_of(changes: LocalChanges, noun: Seq<char>) -> Seq<Seq<char>> {
    match changes {
        LocalChanges::Clean => Seq::empty(),
        LocalChanges::Present { stashes, staged, unstaged, untracked } => {
            let total = (staged + unstaged + untracked) as nat;
            let stash_notes = if stashes > 0 {
                seq![decimal_of(stashes as nat) + " stash"@ + plural(stashes as nat, "es"@)]
            } else {
                Seq::empty()
            };
            if total > 0 {
                stash_notes.push(decimal_of(total) + " "@ + noun + plural(total, "s"@))
            } else {
                stash_notes
            }
        },
    }
}

/// The string of the single digit `d`.
fn digit_str(d: u128) -> (r: &'static str)
    requires
        d < 10,
    ensures
        r@ == seq![digit_char(d as nat)],
{
    proof {
        reveal_strlit("0");
        reveal_strlit("1");
        reveal_strlit("2");
        reveal_strlit("3");
        reveal_strlit("4");
        reveal_strlit("5");
        reveal_strlit("6");
        reveal_strlit("7");
        reveal_strlit("8");
        reveal_strlit("9");
    }
    if d == 0 {
        "0"
    } else if d == 1 {
        "1"
    } else if d == 2 {
        "2"
    } else if d == 3 {
        "3"
    } else if d == 4 {
        "4"
    } else if d == 5 {
        "5"
    } else if d == 6 {
        "6"
    } else if d == 7 {
        "7"
    } else if d == 8 {
        "8"
    } else {
        assert(d == 9);
        "9"
    }
}

/// Writes `n` in decimal.
pub fn decimal(n: u128) -> (r: String)
    ensures
        r@ == decimal_of(n as nat),
    decreases n,
{
    if n < 10 {
        String::from_str(digit_str(n))
    } else {
        let mut text = decimal(n / 10);
        text.append(digit_str(n % 10));
        text
    }
}

/// Joins `parts` with `sep` between each two.
pub fn join(parts: &Vec<String>, sep: &str) -> (r: String)
    ensures
        r@ == joined(parts@.map_values(|p: String| p@), sep@),
{
    let ghost views = parts@.map_values(|p: String| p@);
    let mut text = String::new();
    let mut i: usize = 0;
    while i < parts.len()
        invariant
            i <= parts@.len(),
            views == parts@.map_values(|p: String| p@),
            text@ == joined(views.subrange(0, i as int), sep@),
        decreases parts@.len() - i,
    {
        proof {
            assert(views.subrange(0, i + 1).drop_last() =~= views.subrange(0, i as int));
        }
        if i > 0 {
            text.append(sep);
        } else {
            assert(text@ =~= Seq::<char>::empty());
        }
        text.append(parts[i].as_str());
        i = i + 1;
    }
    assert(views.subrange(0, parts@.len() as int) =~= views);
    text
}

/// The notes on `changes`, counting changed files as `noun`s.
pub fn change_notes(changes: &LocalChanges, noun: &str) -> (r: Vec<String>)
    ensures
        r@.map_values(|p: String| p@) == change_notes_of(*changes, noun@),
{
    let mut notes: Vec<String> = Vec::new();
    match changes {
        LocalChanges::Clean => {},
        LocalChanges::Present { stashes, staged, unstaged, untracked } => {
            if *stashes > 0 {
                let mut note = decimal(*stashes as u128);
                note.append(" stash");
                if *stashes != 1 {
                    note.append("es");
                } else {
                    assert(note@ =~= note@ + Seq::<char>::empty());
                }
                notes.push(note);
            }
            let total: u128 = *staged as u128 + *unstaged as u128 + *untracked as u128;
            if total > 0 {
                let mut note = decimal(total);
                note.append(" ");
                note.append(noun);
                if total != 1 {
                    note.append("s");
                } else {
                    assert(note@ =~= note@ + Seq::<char>::empty());
                }
                notes.push(note);
            }
        },
    }
    assert(notes@.map_values(|p: String| p@) =~= change_notes_of(*changes, noun@));
    notes
}

/// `label` padded with spaces at its end to `width` characters.
pub open spec fn padded(label: Seq<char>, width: nat) -> Seq<char> {
    if label.len() >= width {
        label
    } else {
        label + Seq::new((width - label.len()) as nat, |i: int| ' ')
    }
}

/// Pads `label` with spaces at its end to `width` characters.
pub fn pad_end(label: &str, width: usize) -> (r: String)
    ensures
        r@ == padded(label@, width as nat),
{
    let mut text = String::from_str(label);
    let mut n = label.unicode_len();
    proof {
        reveal_strlit(" ");
    }
    while n < width
        invariant
            label@.len() <= n,
            n <= width || n == label@.len(),
            text@ == label@ + Seq::new((n - label@.len()) as nat, |i: int| ' '),
        decreases width - n,
    {
        let ghost before = text@;
        text.append(" ");
        n = n + 1;
        proof {
            reveal_strlit(" ");
            assert(" "@ =~= seq![' ']);
            assert(text@ =~= before + seq![' ']);
            assert(text@ =~= label@ + Seq::new((n - label@.len()) as nat, |i: int| ' '));
        }
    }
    assert(label@.len() >= width ==> text@ =~= label@);
    assert(label@.len() < width ==> n == width);
    text
}

} // verus!
