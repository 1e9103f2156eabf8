//! How the entries of a tab light up as playback passes them.
//!
//! Every entry is idle until playback reaches it, current while it sounds,
//! and played once playback has left it. When the end of the played range is
//! passed, or playback stops or is paused, entries fall back to idle.

use vstd::prelude::*;
use crate::position::BarPosition;
use crate::position::Position;
use crate::units::Units;

verus! {

/// What playback is doing.
#[derive(Copy, Clone, Debug, PartialEq, Eq, Structural)]
pub enum PlayState {
    Playing,
    Paused,
    Stopped,
}

impl PlayState {
    pub fn is_playing(&self) -> (r: bool)
        ensures
            r == (*self == PlayState::Playing),
    {
        *self == PlayState::Playing
    }

    pub fn is_paused(&self) -> (r: bool)
        ensures
            r == (*self == PlayState::Paused),
    {
        *self == PlayState::Paused
    }

    pub fn is_stopped(&self) -> (r: bool)
        ensures
            r == (*self == PlayState::Stopped),
    {
        *self == PlayState::Stopped
    }
}

/// The state of playback: what it is doing, where it stands, and the bars it
/// runs over, first and last included.
#[derive(Copy, Clone, Debug, PartialEq, Eq, Structural)]
pub struct PlayControl {
    pub play_state: PlayState,
    pub position: Position,
    pub begin_bar_ordinal: usize,
    pub end_bar_ordinal: usize,
}

/// What a tab on screen knows of playback.
#[derive(Copy, Clone, Debug, PartialEq, Eq, Structural)]
pub struct TabState {
    pub play_control: PlayControl,
}

impl TabState {
    /// Bar `bar_ordinal` is one of the bars that playback runs over.
    pub open spec fn bar_in_range(self, bar_ordinal: usize) -> bool {
        self.play_control.begin_bar_ordinal <= bar_ordinal <= self.play_control.end_bar_ordinal
    }

    /// Whether bar `bar_ordinal` is one of the bars that playback runs over.
    pub fn is_bar_in_range(&self, bar_ordinal: usize) -> (r: bool)
        ensures
            r == self.bar_in_range(bar_ordinal),
    {
        self.play_control.begin_bar_ordinal <= bar_ordinal && bar_ordinal
            <= self.play_control.end_bar_ordinal
    }
}

/// How an entry is shown.
#[derive(Copy, Clone, Debug, PartialEq, Eq, Structural)]
pub enum PlayingState {
    Idle,
    Current,
    Played,
}

impl PlayingState {
    pub fn is_idle(&self) -> (r: bool)
        ensures
            r == (*self == PlayingState::Idle),
    {
        *self == PlayingState::Idle
    }

    pub fn is_current(&self) -> (r: bool)
        ensures
            r == (*self == PlayingState::Current),
    {
        *self == PlayingState::Current
    }

    pub fn is_played(&self) -> (r: bool)
        ensures
            r == (*self == PlayingState::Played),
    {
        *self == PlayingState::Played
    }
}

/// An entry of a tab with the way it is shown: the bar it stands in, where in
/// the bar it starts, how long it sounds with what is tied to it, and its
/// state.
#[derive(Copy, Clone, Debug, PartialEq, Eq, Structural)]
pub struct EntryPlaying {
    pub bar_ordinal: usize,
    pub in_bar_pos: Units,
    pub tied_units: Units,
    pub value: PlayingState,
}

impl EntryPlaying {
    /// Where the entry starts.
    pub open spec fn place(self) -> BarPosition {
        BarPosition { bar_ordinal: self.bar_ordinal, in_bar_pos: self.in_bar_pos }
    }

    /// Where the entry starts.
    pub fn bar_position(&self) -> (r: BarPosition)
        ensures
            r == self.place(),
    {
        BarPosition::new(self.bar_ordinal, self.in_bar_pos)
    }

    /// This entry with the state `value`.
    pub open spec fn with_value(self, value: PlayingState) -> EntryPlaying {
        EntryPlaying {
            bar_ordinal: self.bar_ordinal,
            in_bar_pos: self.in_bar_pos,
            tied_units: self.tied_units,
            value,
        }
    }

    /// The state of this entry once playback has stopped or paused, or the
    /// state it had where neither touches it: a stop clears the bars that
    /// playback runs over, a pause clears the bar that playback stands in.
    pub open spec fn settled(self, tab_state: TabState) -> PlayingState {
        if tab_state.play_control.play_state == PlayState::Stopped {
            if tab_state.bar_in_range(self.bar_ordinal) {
                PlayingState::Idle
            } else {
                self.value
            }
        } else if tab_state.play_control.play_state == PlayState::Paused {
            if self.bar_ordinal == tab_state.play_control.position.bar.bar_ordinal {
                PlayingState::Idle
            } else {
                self.value
            }
        } else {
            self.value
        }
    }

    /// The first step of an advance: a current entry whose sound has ended is
    /// played.
    pub open spec fn after_end(self, new_position: Position) -> PlayingState {
        if self.value == PlayingState::Current && new_position.passed_with(
            self.place(),
            self.tied_units,
        ) {
            PlayingState::Played
        } else {
            self.value
        }
    }

    /// The second step: an idle entry of the bar being played, whose start
    /// playback has reached, is current.
    pub open spec fn after_start(self, new_position: Position) -> PlayingState {
        let value = self.after_end(new_position);
        if self.bar_ordinal == new_position.bar.bar_ordinal && value == PlayingState::Idle
            && new_position.passed(self.place()) {
            PlayingState::Current
        } else {
            value
        }
    }

    /// The state of this entry once playback has moved to `new_position`.
    /// Entries outside the bars that playback runs over keep their state. For
    /// the others the two steps above are taken; then, if the end of the
    /// range was passed, played entries and entries of later bars are idle
    /// again.
    pub open spec fn advanced(
        self,
        tab_state: TabState,
        new_position: Position,
        end_passed: bool,
    ) -> PlayingState {
        if !tab_state.bar_in_range(self.bar_ordinal) {
            self.value
        } else {
            let value = self.after_start(new_position);
            if end_passed && (value == PlayingState::Played || self.bar_ordinal
                > new_position.bar.bar_ordinal) {
                PlayingState::Idle
            } else {
                value
            }
        }
    }

    /// Brings the entries in line with playback that has stopped or paused:
    /// each entry gets its settled state, and nothing else changes.
    pub fn update(entries: &mut Vec<EntryPlaying>, tab_state: &TabState)
        ensures
            final(entries)@.len() == old(entries)@.len(),
            forall|i: int|
                0 <= i < old(entries)@.len() ==> #[trigger] final(entries)@[i] == old(
                    entries,
                )@[i].with_value(old(entries)@[i].settled(*tab_state)),
    {
        let ghost before = entries@;
        let n = entries.len();
        let mut i: usize = 0;
        while i < n
            invariant
                i <= n,
                n == before.len(),
                entries@.len() == n,
                forall|j: int|
                    0 <= j < i ==> #[trigger] entries@[j] == before[j].with_value(
                        before[j].settled(*tab_state),
                    ),
                forall|j: int| i <= j < n ==> #[trigger] entries@[j] == before[j],
            decreases n - i,
        {
            let mut entry = entries[i];
            if tab_state.play_control.play_state.is_stopped() {
                if tab_state.is_bar_in_range(entry.bar_ordinal) {
                    entry.value = PlayingState::Idle;
                }
            } else if tab_state.play_control.play_state.is_paused() {
                if entry.bar_ordinal == tab_state.play_control.position.bar.bar_ordinal {
                    entry.value = PlayingState::Idle;
                }
            }
            entries.set(i, entry);
            i += 1;
        }
    }

    /// Brings the entries in line with playback that has moved to
    /// `new_position`: each entry gets its advanced state, and nothing else
    /// changes. `end_passed` says that the move went past the end of the
    /// range and playback wrapped round.
    pub fn update_with_pos(
        entries: &mut Vec<EntryPlaying>,
        tab_state: &TabState,
        new_position: &Position,
        end_passed: bool,
    )
        requires
            forall|i: int|
                0 <= i < old(entries)@.len() && tab_state.bar_in_range(
                    (#[trigger] old(entries)@[i]).bar_ordinal,
                ) ==> old(entries)@[i].bar_ordinal >= 1,
        ensures
            final(entries)@.len() == old(entries)@.len(),
            forall|i: int|
                0 <= i < old(entries)@.len() ==> #[trigger] final(entries)@[i] == old(
                    entries,
                )@[i].with_value(old(entries)@[i].advanced(*tab_state, *new_position, end_passed)),
    {
        let ghost before = entries@;
        let playing_bar_ordinal = new_position.bar.bar_ordinal;
        let n = entries.len();
        let mut i: usize = 0;
        while i < n
            invariant
                i <= n,
                n == before.len(),
                entries@.len() == n,
                playing_bar_ordinal == new_position.bar.bar_ordinal,
                forall|j: int|
                    0 <= j < n && tab_state.bar_in_range((#[trigger] before[j]).bar_ordinal)
                        ==> before[j].bar_ordinal >= 1,
                forall|j: int|
                    0 <= j < i ==> #[trigger] entries@[j] == before[j].with_value(
                        before[j].advanced(*tab_state, *new_position, end_passed),
                    ),
                forall|j: int| i <= j < n ==> #[trigger] entries@[j] == before[j],
            decreases n - i,
        {
            let mut entry = entries[i];
            assert(entry == before[i as int]);
            let bar_ordinal = entry.bar_ordinal;
            if tab_state.is_bar_in_range(bar_ordinal) {
                if entry.value.is_current() && new_position.is_passed_with(
                    &entry.bar_position(),
                    entry.tied_units,
                ) {
                    entry.value = PlayingState::Played;
                }
                if bar_ordinal == playing_bar_ordinal && entry.value.is_idle()
                    && new_position.is_passed(&entry.bar_position()) {
                    entry.value = PlayingState::Current;
                }
                if end_passed {
                    if entry.value.is_played() || bar_ordinal > playing_bar_ordinal {
                        entry.value = PlayingState::Idle;
                    }
                }
            }
            entries.set(i, entry);
            i += 1;
        }
    }
}

/// How an entry with a duration of its own is shown.
#[derive(Copy, Clone, Debug, PartialEq, Eq, Structural)]
pub enum EntryState {
    Idle,
    Playing,
    Played,
}

impl EntryState {
    pub fn is_idle(&self) -> (r: bool)
        ensures
            r == (*self == EntryState::Idle),
    {
        *self == EntryState::Idle
    }

    pub fn is_playing(&self) -> (r: bool)
        ensures
            r == (*self == EntryState::Playing),
    {
        *self == EntryState::Playing
    }

    pub fn is_played(&self) -> (r: bool)
        ensures
            r == (*self == EntryState::Played),
    {
        *self == EntryState::Played
    }
}

/// An entry with a duration of its own: where it starts, how long it lasts,
/// and its state.
#[derive(Copy, Clone, Debug, PartialEq, Eq, Structural)]
pub struct TimedEntry {
    pub position: BarPosition,
    pub duration: Units,
    pub state: EntryState,
}

impl TimedEntry {
    /// This entry with the state `state`.
    pub open spec fn with_state(self, state: EntryState) -> TimedEntry {
        TimedEntry { position: self.position, duration: self.duration, state }
    }

    /// The state of this entry after a step of time. Nothing changes unless
    /// playback has moved and the entry stands in a bar that playback runs
    /// over. Then at most one thing happens, the first of these that
    /// applies: an idle entry whose start was reached is playing; a playing
    /// entry whose end was reached is played; a played entry is idle again
    /// if the end of the range was passed.
    pub open spec fn timed(self, tab_state: TabState, changed: bool, end_passed: bool) -> EntryState {
        let pos = tab_state.play_control.position;
        if !changed || !tab_state.bar_in_range(self.position.bar_ordinal) {
            self.state
        } else if self.state == EntryState::Idle && pos.passed(self.position) {
            EntryState::Playing
        } else if self.state == EntryState::Playing && pos.passed_with(
            self.position,
            self.duration,
        ) {
            EntryState::Played
        } else if end_passed && self.state == EntryState::Played {
            EntryState::Idle
        } else {
            self.state
        }
    }
}

/// Brings the entries in line with playback after a step of time: each entry
/// gets its timed state, and nothing else changes. `changed` says that the
/// step moved playback, `end_passed` that it went past the end of the range.
pub fn on_time(
    entries: &mut Vec<TimedEntry>,
    tab_state: &TabState,
    changed: bool,
    end_passed: bool,
)
    requires
        forall|i: int|
            0 <= i < old(entries)@.len() && tab_state.bar_in_range(
                (#[trigger] old(entries)@[i]).position.bar_ordinal,
            ) ==> old(entries)@[i].position.bar_ordinal >= 1,
    ensures
        final(entries)@.len() == old(entries)@.len(),
        forall|i: int|
            0 <= i < old(entries)@.len() ==> #[trigger] final(entries)@[i] == old(
                entries,
            )@[i].with_state(old(entries)@[i].timed(*tab_state, changed, end_passed)),
{
    if !changed {
        return ;
    }
    let ghost before = entries@;
    let n = entries.len();
    let mut i: usize = 0;
    while i < n
        invariant
            i <= n,
            n == before.len(),
            entries@.len() == n,
            changed,
            forall|j: int|
                0 <= j < n && tab_state.bar_in_range((#[trigger] before[j]).position.bar_ordinal)
                    ==> before[j].position.bar_ordinal >= 1,
            forall|j: int|
                0 <= j < i ==> #[trigger] entries@[j] == before[j].with_state(
                    before[j].timed(*tab_state, changed, end_passed),
                ),
            forall|j: int| i <= j < n ==> #[trigger] entries@[j] == before[j],
        decreases n - i,
    {
        let mut entry = entries[i];
        assert(entry == before[i as int]);
        if tab_state.is_bar_in_range(entry.position.bar_ordinal) {
            let pos = &tab_state.play_control.position;
            if entry.state.is_idle() && pos.is_passed(&entry.position) {
                entry.state = EntryState::Playing;
            } else if entry.state.is_playing() && pos.is_passed_with(
                &entry.position,
                entry.duration,
            ) {
                entry.state = EntryState::Played;
            } else if end_passed && entry.state.is_played() {
                entry.state = EntryState::Idle;
            }
        }
        entries.set(i, entry);
        i += 1;
    }
}

/// A step of time takes an entry at most one stage further, in the round
/// idle, playing, played, idle.
pub proof fn lemma_timed_one_stage(
    entry: TimedEntry,
    tab_state: TabState,
    changed: bool,
    end_passed: bool,
)
    ensures
        entry.state == EntryState::Idle ==> entry.timed(tab_state, changed, end_passed)
            != EntryState::Played,
        entry.state == EntryState::Playing ==> entry.timed(tab_state, changed, end_passed)
            != EntryState::Idle,
        entry.state == EntryState::Played ==> entry.timed(tab_state, changed, end_passed)
            != EntryState::Playing,
        entry.state == EntryState::Played && !end_passed ==> entry.timed(
            tab_state,
            changed,
            end_passed,
        ) == EntryState::Played,
{
}

/// Settling twice is settling once.
pub proof fn lemma_settled_twice(entry: EntryPlaying, tab_state: TabState)
    ensures
        entry.with_value(entry.settled(tab_state)).settled(tab_state) == entry.settled(tab_state),
{
}

/// While playback is running nothing settles.
pub proof fn lemma_settled_while_playing(entry: EntryPlaying, tab_state: TabState)
    requires
        tab_state.play_control.play_state == PlayState::Playing,
    ensures
        entry.settled(tab_state) == entry.value,
{
}

/// An advance that does not pass the end of the range never takes an entry
/// backwards: idle stays idle or becomes current, current stays current or
/// becomes played, played stays played.
pub proof fn lemma_advance_goes_forward(
    entry: EntryPlaying,
    tab_state: TabState,
    new_position: Position,
)
    ensures
        entry.value == PlayingState::Played ==> entry.advanced(tab_state, new_position, false)
            == PlayingState::Played,
        entry.value == PlayingState::Current ==> entry.advanced(tab_state, new_position, false)
            != PlayingState::Idle,
        entry.value == PlayingState::Idle ==> entry.advanced(tab_state, new_position, false)
            != PlayingState::Played,
{
}

/// An advance past the end of the range leaves no entry of the range played.
pub proof fn lemma_end_clears_played(
    entry: EntryPlaying,
    tab_state: TabState,
    new_position: Position,
)
    requires
        tab_state.bar_in_range(entry.bar_ordinal),
    ensures
        entry.advanced(tab_state, new_position, true) != PlayingState::Played,
{
}

/// An entry is current after an advance only if playback has reached its
/// start, or if it was current before.
pub proof fn lemma_current_needs_start(
    entry: EntryPlaying,
    tab_state: TabState,
    new_position: Position,
    end_passed: bool,
)
    requires
        entry.advanced(tab_state, new_position, end_passed) == PlayingState::Current,
    ensures
        entry.value == PlayingState::Current || (entry.value == PlayingState::Idle
            && new_position.passed(entry.place()) && entry.bar_ordinal
            == new_position.bar.bar_ordinal),
{
}

} // verus!
