//! The strings of a fretted instrument as they are drawn, and the fingers on
//! them.

use vstd::prelude::*;
use vstd::string::StringExecFns;
use crate::text::decimal;
use crate::text::decimal_string;

verus! {

/// One string of one bar. Strings are numbered from 1.
#[derive(Copy, Clone, Debug, PartialEq, Eq, Structural)]
pub struct SingleString {
    pub bar_ordinal: usize,
    pub string: u8,
}

impl SingleString {
    /// The name of the string: the number of its bar, then `:String `, then
    /// its own number.
    pub open spec fn name(self) -> Seq<char> {
        decimal(self.bar_ordinal as nat) + ":String "@ + decimal(self.string as nat)
    }

    /// Writes the name of the string.
    pub fn get_name(&self) -> (s: String)
        ensures
            s@ == self.name(),
    {
        let mut s = decimal_string(self.bar_ordinal as u64);
        s.append(":String ");
        s.append(decimal_string(self.string as u64).as_str());
        s
    }
}

/// The strings of bar `bar_ordinal` of an instrument with `strings` strings:
/// one for each number from 1 to `strings`, in rising order.
pub fn add_strings(bar_ordinal: usize, strings: u8) -> (grid: Vec<SingleString>)
    ensures
        grid@.len() == strings,
        forall|i: int|
            0 <= i < strings ==> #[trigger] grid@[i] == (SingleString {
                bar_ordinal,
                string: (i + 1) as u8,
            }),
{
    let mut grid: Vec<SingleString> = Vec::new();
    let mut string: u8 = 0;
    while string < strings
        invariant
            string <= strings,
            grid@.len() == string,
            forall|i: int|
                0 <= i < string ==> #[trigger] grid@[i] == (SingleString {
                    bar_ordinal,
                    string: (i + 1) as u8,
                }),
        decreases strings - string,
    {
        string += 1;
        grid.push(SingleString { bar_ordinal, string });
    }
    grid
}

/// A finger of a hand shape: the string it is on, counted from 0, and the
/// fret it holds down, or `None` where it mutes the string.
#[derive(Copy, Clone, Debug, PartialEq, Eq, Structural)]
pub struct ShapeFinger {
    pub string: u8,
    pub fret: Option<u8>,
}

/// A string takes a finger unless it is played open: `None` is a muted
/// string, fret 0 an open one.
pub open spec fn takes_finger(fret: Option<u8>) -> bool {
    match fret {
        None => true,
        Some(fret) => fret > 0,
    }
}

/// The fingers of the hand shape that holds string `i` at `frets[i]`: one
/// for each string that takes a finger, in the order of the strings.
pub open spec fn fingers_of(frets: Seq<Option<u8>>) -> Seq<ShapeFinger>
    decreases frets.len(),
{
    if frets.len() == 0 {
        Seq::empty()
    } else {
        let before = fingers_of(frets.drop_last());
        if takes_finger(frets.last()) {
            before.push(ShapeFinger { string: (frets.len() - 1) as u8, fret: frets.last() })
        } else {
            before
        }
    }
}

/// The fingers of a hand shape, given the fret of each string.
pub fn shape_fingers(frets: &Vec<Option<u8>>) -> (fingers: Vec<ShapeFinger>)
    requires
        frets@.len() <= 256,
    ensures
        fingers@ == fingers_of(frets@),
{
    let mut fingers: Vec<ShapeFinger> = Vec::new();
    let n = frets.len();
    let mut i: usize = 0;
    assert(frets@.take(0) =~= Seq::<Option<u8>>::empty());
    while i < n
        invariant
            i <= n,
            n == frets@.len(),
            n <= 256,
            fingers@ == fingers_of(frets@.take(i as int)),
        decreases n - i,
    {
        proof {
            let upto = frets@.take(i as int + 1);
            assert(upto.drop_last() =~= frets@.take(i as int));
            assert(upto.last() == frets@[i as int]);
        }
        let fret = frets[i];
        let shown = match fret {
            None => true,
            Some(f) => f > 0,
        };
        if shown {
            fingers.push(ShapeFinger { string: i as u8, fret });
        }
        i += 1;
    }
    assert(frets@.take(n as int) =~= frets@);
    fingers
}

/// A hand shape has at most one finger on a string, and none on an open
/// one.
pub proof fn lemma_fingers_of(frets: Seq<Option<u8>>)
    requires
        frets.len() <= 256,
    ensures
        fingers_of(frets).len() <= frets.len(),
        forall|k: int|
            0 <= k < fingers_of(frets).len() ==> {
                let finger = #[trigger] fingers_of(frets)[k];
                &&& finger.string < frets.len()
                &&& frets[finger.string as int] == finger.fret
                &&& takes_finger(finger.fret)
            },
        forall|k: int, l: int|
            0 <= k < l < fingers_of(frets).len() ==> fingers_of(frets)[k].string < fingers_of(
                frets,
            )[l].string,
    decreases frets.len(),
{
    if frets.len() > 0 {
        let front = frets.drop_last();
        lemma_fingers_of(front);
        assert(forall|j: int| 0 <= j < front.len() ==> front[j] == frets[j]);
    }
}

} // verus!
