//! Where playback stands: in the tab as a whole, and in the bar being played.
//!
//! A tab is a run of bars of one length. A place in it can be given either as
//! a distance from the start of the tab or as a bar number (counted from 1)
//! and a distance from the start of that bar. [`Position`] keeps both and
//! keeps them in step.

use vstd::prelude::*;
use vstd::arithmetic::div_mod::lemma_fundamental_div_mod;
use vstd::arithmetic::div_mod::lemma_fundamental_div_mod_converse;
use vstd::arithmetic::div_mod::lemma_mod_pos_bound;
use vstd::string::StringExecFns;
use crate::text::decimal;
use crate::text::decimal_string;
use crate::units::Units;

verus! {

/// The distance from the start of the tab at which bar `bar_ordinal` begins,
/// when every bar is `bar_units` long. Bars are numbered from 1.
pub open spec fn bar_start(bar_units: int, bar_ordinal: int) -> int {
    (bar_ordinal - 1) * bar_units
}

/// The number of the bar that holds the place `pos`, when every bar is
/// `bar_units` long.
pub open spec fn bar_ordinal_at(bar_units: int, pos: int) -> int {
    pos / bar_units + 1
}

/// A place given as a distance from the start of the tab.
#[derive(Copy, Clone, Debug, PartialEq, Eq, Structural)]
pub struct TabPosition {
    pub in_tab_pos: Units,
}

impl TabPosition {
    pub fn new(in_tab_pos: Units) -> (r: Self)
        ensures
            r.in_tab_pos == in_tab_pos,
    {
        Self { in_tab_pos }
    }

    /// The text form: the distance between `<TabPosition>(` and `)`.
    pub open spec fn text(self) -> Seq<char> {
        "<TabPosition>("@ + decimal(self.in_tab_pos.0 as nat) + ")"@
    }

    /// Writes the text form.
    pub fn to_string(&self) -> (s: String)
        ensures
            s@ == self.text(),
    {
        let mut s = String::from_str("<TabPosition>(");
        s.append(decimal_string(self.in_tab_pos.0).as_str());
        s.append(")");
        s
    }
}

/// A place given as a bar number and a distance from the start of that bar.
#[derive(Copy, Clone, Debug, PartialEq, Eq, Structural)]
pub struct BarPosition {
    pub bar_ordinal: usize,
    pub in_bar_pos: Units,
}

impl BarPosition {
    pub fn new(bar_ordinal: usize, in_bar_pos: Units) -> (r: Self)
        ensures
            r.bar_ordinal == bar_ordinal,
            r.in_bar_pos == in_bar_pos,
    {
        Self { bar_ordinal, in_bar_pos }
    }

    /// The text form: bar number and distance, with a colon between them,
    /// between `<BarPosition>(` and `)`.
    pub open spec fn text(self) -> Seq<char> {
        "<BarPosition>("@ + decimal(self.bar_ordinal as nat) + ":"@ + decimal(
            self.in_bar_pos.0 as nat,
        ) + ")"@
    }

    /// Writes the text form.
    pub fn to_string(&self) -> (s: String)
        ensures
            s@ == self.text(),
    {
        let mut s = String::from_str("<BarPosition>(");
        s.append(decimal_string(self.bar_ordinal as u64).as_str());
        s.append(":");
        s.append(decimal_string(self.in_bar_pos.0).as_str());
        s.append(")");
        s
    }

    /// The same place as a distance from the start of the tab.
    pub open spec fn in_tab(self, bar_units: Units) -> int {
        bar_start(bar_units.0 as int, self.bar_ordinal as int) + self.in_bar_pos.0
    }
}

/// The playback position: the bar length, and the current place in both
/// forms.
#[derive(Copy, Clone, Debug, PartialEq, Eq, Structural)]
pub struct Position {
    pub bar_units: Units,
    pub tab: TabPosition,
    pub bar: BarPosition,
}

impl Position {
    /// Both forms name the same place.
    pub open spec fn consistent(self) -> bool {
        self.tab.in_tab_pos.0 == self.bar.in_tab(self.bar_units)
    }

    /// Both forms name the same place, and the place lies inside its bar.
    pub open spec fn normal(self) -> bool {
        &&& self.consistent()
        &&& self.bar.bar_ordinal >= 1
        &&& self.bar.in_bar_pos.0 < self.bar_units.0
    }

    /// This position moved to the place `pos` of the tab.
    pub open spec fn at_tab(self, pos: Units) -> Position {
        Position {
            bar_units: self.bar_units,
            tab: TabPosition { in_tab_pos: pos },
            bar: BarPosition {
                bar_ordinal: bar_ordinal_at(self.bar_units.0 as int, pos.0 as int) as usize,
                in_bar_pos: Units((pos.0 % self.bar_units.0) as u64),
            },
        }
    }

    /// This position moved to the place `in_bar_pos` of bar `bar_ordinal`.
    pub open spec fn at_bar(self, bar_ordinal: usize, in_bar_pos: Units) -> Position {
        Position {
            bar_units: self.bar_units,
            tab: TabPosition {
                in_tab_pos: Units(
                    (bar_start(self.bar_units.0 as int, bar_ordinal as int) + in_bar_pos.0) as u64,
                ),
            },
            bar: BarPosition { bar_ordinal, in_bar_pos },
        }
    }

    /// This position moved forward by `delta`.
    pub open spec fn ticked(self, delta: Units) -> Position {
        self.at_tab(Units((self.tab.in_tab_pos.0 + delta.0) as u64))
    }

    /// Playback has reached the place `pos`.
    pub open spec fn passed(self, pos: BarPosition) -> bool {
        pos.in_tab(self.bar_units) <= self.tab.in_tab_pos.0
    }

    /// Playback has reached the end of something that starts at `pos` and
    /// lasts `duration`.
    pub open spec fn passed_with(self, pos: BarPosition, duration: Units) -> bool {
        pos.in_tab(self.bar_units) + duration.0 <= self.tab.in_tab_pos.0
    }

    /// The text form: `<Position>(tab:T, bar:N:B)` for the distance `T` in
    /// the tab, the bar number `N` and the distance `B` in the bar.
    pub open spec fn text(self) -> Seq<char> {
        "<Position>(tab:"@ + decimal(self.tab.in_tab_pos.0 as nat) + ", bar:"@ + decimal(
            self.bar.bar_ordinal as nat,
        ) + ":"@ + decimal(self.bar.in_bar_pos.0 as nat) + ")"@
    }

    /// Writes the text form.
    pub fn to_string(&self) -> (s: String)
        ensures
            s@ == self.text(),
    {
        let mut s = String::from_str("<Position>(tab:");
        s.append(decimal_string(self.tab.in_tab_pos.0).as_str());
        s.append(", bar:");
        s.append(decimal_string(self.bar.bar_ordinal as u64).as_str());
        s.append(":");
        s.append(decimal_string(self.bar.in_bar_pos.0).as_str());
        s.append(")");
        s
    }

    /// The start of a tab whose bars are `bar_units` long.
    pub fn new(bar_units: Units) -> (r: Self)
        ensures
            r.bar_units == bar_units,
            r.tab.in_tab_pos.0 == 0,
            r.bar.bar_ordinal == 1,
            r.bar.in_bar_pos.0 == 0,
            r.consistent(),
    {
        Self {
            bar_units,
            tab: TabPosition::new(Units(0)),
            bar: BarPosition::new(1, Units(0)),
        }
    }

    /// The number of the bar that holds the place `pos`.
    pub fn calc_bar_ordinal(&self, pos: Units) -> (r: usize)
        requires
            self.bar_units.0 > 0,
            pos.0 / self.bar_units.0 < usize::MAX,
        ensures
            r == bar_ordinal_at(self.bar_units.0 as int, pos.0 as int),
            r >= 1,
            bar_start(self.bar_units.0 as int, r as int) <= pos.0,
            pos.0 < bar_start(self.bar_units.0 as int, r as int + 1),
    {
        let bar: u64 = pos.0 / self.bar_units.0;
        proof {
            lemma_fundamental_div_mod(pos.0 as int, self.bar_units.0 as int);
            lemma_mod_pos_bound(pos.0 as int, self.bar_units.0 as int);
            assert(self.bar_units.0 * bar == bar * self.bar_units.0) by (nonlinear_arith);
            assert((bar + 1) * self.bar_units.0 == bar * self.bar_units.0 + self.bar_units.0)
                by (nonlinear_arith);
        }
        bar as usize + 1
    }

    /// The distance from the start of the tab at which bar `bar_ordinal`
    /// begins.
    pub fn cal_bar_pos(&self, bar_ordinal: usize) -> (r: Units)
        requires
            bar_ordinal >= 1,
            bar_start(self.bar_units.0 as int, bar_ordinal as int) <= u64::MAX,
        ensures
            r.0 == bar_start(self.bar_units.0 as int, bar_ordinal as int),
    {
        Units((bar_ordinal - 1) as u64 * self.bar_units.0)
    }

    /// Moves playback forward by `delta`.
    pub fn tick(&mut self, delta: Units)
        requires
            old(self).bar_units.0 > 0,
            old(self).tab.in_tab_pos.0 + delta.0 <= u64::MAX,
            (old(self).tab.in_tab_pos.0 + delta.0) / (old(self).bar_units.0 as int) < usize::MAX,
        ensures
            *final(self) == old(self).ticked(delta),
            final(self).tab.in_tab_pos.0 == old(self).tab.in_tab_pos.0 + delta.0,
            final(self).normal(),
    {
        self.set_in_tab(Units(self.tab.in_tab_pos.0 + delta.0));
    }

    /// Moves playback to the place `pos` of the tab.
    pub fn set_in_tab(&mut self, pos: Units)
        requires
            old(self).bar_units.0 > 0,
            pos.0 / old(self).bar_units.0 < usize::MAX,
        ensures
            *final(self) == old(self).at_tab(pos),
            final(self).normal(),
    {
        self.tab = TabPosition::new(pos);
        self.bar.bar_ordinal = self.calc_bar_ordinal(pos);
        proof {
            lemma_fundamental_div_mod(pos.0 as int, self.bar_units.0 as int);
            assert(self.bar_units.0 * (pos.0 / self.bar_units.0) == (pos.0 / self.bar_units.0)
                * self.bar_units.0) by (nonlinear_arith);
        }
        let start = self.cal_bar_pos(self.bar.bar_ordinal);
        self.bar.in_bar_pos = Units(self.tab.in_tab_pos.0 - start.0);
    }

    /// Moves playback to the place `in_bar_pos` of bar `bar_ordinal`.
    pub fn set_in_bar(&mut self, bar_ordinal: usize, in_bar_pos: Units)
        requires
            bar_ordinal >= 1,
            bar_start(old(self).bar_units.0 as int, bar_ordinal as int) + in_bar_pos.0 <= u64::MAX,
        ensures
            *final(self) == old(self).at_bar(bar_ordinal, in_bar_pos),
            final(self).consistent(),
    {
        proof {
            assert(0 <= bar_start(self.bar_units.0 as int, bar_ordinal as int))
                by (nonlinear_arith)
                requires
                    bar_ordinal >= 1,
                    self.bar_units.0 >= 0,
            ;
        }
        let start = self.cal_bar_pos(bar_ordinal);
        self.tab = TabPosition::new(Units(start.0 + in_bar_pos.0));
        self.bar.bar_ordinal = bar_ordinal;
        self.bar.in_bar_pos = in_bar_pos;
    }

    /// Whether playback has reached the place `pos`.
    pub fn is_passed(&self, pos: &BarPosition) -> (r: bool)
        requires
            pos.bar_ordinal >= 1,
        ensures
            r == self.passed(*pos),
    {
        self.is_passed_with(pos, Units(0))
    }

    /// Whether playback has reached the end of something that starts at
    /// `pos` and lasts `duration`.
    pub fn is_passed_with(&self, pos: &BarPosition, duration: Units) -> (r: bool)
        requires
            pos.bar_ordinal >= 1,
        ensures
            r == self.passed_with(*pos, duration),
    {
        let bars: u128 = (pos.bar_ordinal - 1) as u128;
        let bar_units: u128 = self.bar_units.0 as u128;
        proof {
            assert(bars * bar_units <= 0xffff_ffff_ffff_ffff * 0xffff_ffff_ffff_ffff)
                by (nonlinear_arith)
                requires
                    0 <= bars <= 0xffff_ffff_ffff_ffff,
                    0 <= bar_units <= 0xffff_ffff_ffff_ffff,
            ;
        }
        let end: u128 = bars * bar_units + pos.in_bar_pos.0 as u128 + duration.0 as u128;
        end <= self.tab.in_tab_pos.0 as u128
    }
}

/// A place inside its bar is found again: moving to a bar and a distance
/// shorter than a bar, then reading the place off the tab, gives the same bar
/// and distance.
pub proof fn lemma_bar_then_tab(p: Position, bar_ordinal: usize, in_bar_pos: Units)
    requires
        p.bar_units.0 > 0,
        bar_ordinal >= 1,
        in_bar_pos.0 < p.bar_units.0,
        bar_start(p.bar_units.0 as int, bar_ordinal as int) + in_bar_pos.0 <= u64::MAX,
    ensures
        p.at_bar(bar_ordinal, in_bar_pos).at_tab(p.at_bar(bar_ordinal, in_bar_pos).tab.in_tab_pos)
            == p.at_bar(bar_ordinal, in_bar_pos),
{
    let d = p.bar_units.0 as int;
    let q = bar_ordinal as int - 1;
    let r = in_bar_pos.0 as int;
    let x = q * d + r;
    assert(0 <= q * d) by (nonlinear_arith)
        requires
            0 <= q,
            0 < d,
    ;
    assert(x == bar_start(d, bar_ordinal as int) + r);
    lemma_fundamental_div_mod_converse(x, d, q, r);
}

/// A place of the tab is found again: moving to a place of the tab, then to
/// the bar and distance that were computed for it, gives the same place.
pub proof fn lemma_tab_then_bar(p: Position, pos: Units)
    requires
        p.bar_units.0 > 0,
        pos.0 / p.bar_units.0 < usize::MAX,
    ensures
        p.at_tab(pos).at_bar(p.at_tab(pos).bar.bar_ordinal, p.at_tab(pos).bar.in_bar_pos)
            == p.at_tab(pos),
{
    let d = p.bar_units.0 as int;
    lemma_fundamental_div_mod(pos.0 as int, d);
    assert(d * (pos.0 as int / d) == (pos.0 as int / d) * d) by (nonlinear_arith);
}

/// A place inside its bar has one form only: a position whose two forms
/// agree and whose place lies inside its bar is the one that moving to its
/// place of the tab gives.
pub proof fn lemma_normal_is_at_tab(p: Position)
    requires
        p.bar_units.0 > 0,
        p.normal(),
    ensures
        p == p.at_tab(p.tab.in_tab_pos),
{
    let d = p.bar_units.0 as int;
    let q = p.bar.bar_ordinal as int - 1;
    let r = p.bar.in_bar_pos.0 as int;
    lemma_fundamental_div_mod_converse(p.tab.in_tab_pos.0 as int, d, q, r);
}

/// Moving forward twice is moving forward once by the sum.
pub proof fn lemma_tick_adds(p: Position, a: Units, b: Units)
    requires
        p.tab.in_tab_pos.0 + a.0 + b.0 <= u64::MAX,
    ensures
        p.ticked(a).ticked(b) == p.ticked(Units((a.0 + b.0) as u64)),
{
}

/// What playback has reached stays reached as playback moves forward.
pub proof fn lemma_passed_stays(p: Position, later: Position, pos: BarPosition, duration: Units)
    requires
        p.bar_units == later.bar_units,
        p.tab.in_tab_pos.0 <= later.tab.in_tab_pos.0,
    ensures
        p.passed(pos) ==> later.passed(pos),
        p.passed_with(pos, duration) ==> later.passed_with(pos, duration),
        p.passed_with(pos, duration) ==> p.passed(pos),
{
}

/// Playback in bar `n` has reached every place of the bars before it and no
/// place of the bars after it.
pub proof fn lemma_passed_by_bar(p: Position, pos: BarPosition)
    requires
        p.normal(),
        pos.bar_ordinal >= 1,
        pos.in_bar_pos.0 < p.bar_units.0,
    ensures
        pos.bar_ordinal < p.bar.bar_ordinal ==> p.passed(pos),
        pos.bar_ordinal > p.bar.bar_ordinal ==> !p.passed(pos),
        pos.bar_ordinal == p.bar.bar_ordinal ==> (p.passed(pos) <==> pos.in_bar_pos.0
            <= p.bar.in_bar_pos.0),
{
    let d = p.bar_units.0 as int;
    let a = pos.bar_ordinal as int - 1;
    let b = p.bar.bar_ordinal as int - 1;
    if a < b {
        assert((a + 1) * d <= b * d) by (nonlinear_arith)
            requires
                a + 1 <= b,
                0 < d,
        ;
        assert((a + 1) * d == a * d + d) by (nonlinear_arith);
    }
    if a > b {
        assert((b + 1) * d <= a * d) by (nonlinear_arith)
            requires
                b + 1 <= a,
                0 < d,
        ;
        assert((b + 1) * d == b * d + d) by (nonlinear_arith);
    }
}

} // verus!
