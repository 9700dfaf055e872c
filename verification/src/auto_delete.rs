//! Expiry: bundles that were not modified for too long are removed, sweep
//! after sweep.
//!
//! As with requests, the store decides and somebody else acts: a sweep lists
//! what lies under the storage root, asks for the age of each entry in turn,
//! has the expired ones removed, and then sleeps until the next sweep.

use crate::data_source::{DataSource, ReplyView, RequestView};
use crate::storage::{get_comes_to, serve, Disk};
use vstd::prelude::*;

verus! {

/// Seconds between two sweeps unless configured otherwise.
pub const DEFAULT_CHECK_INTERVAL: u64 = 120;

/// Seconds after which an unmodified bundle expires unless configured otherwise.
pub const DEFAULT_DELETE_OLDER_THAN: u64 = 172800;

/// The settings of a running sweeper, neither of them zero.
#[derive(Clone, Copy, Debug, PartialEq, Eq, Structural)]
pub struct AutoDelete {
    pub interval: u64,
    pub delete_older_than: u64,
}

/// A step of a sweep. Entries are counted in the order of the listing.
#[derive(Clone, Copy, Debug, PartialEq, Eq, Structural)]
pub enum SweepAction {
    /// List the storage root. Answered by `SweepEvent::Listed`.
    List,
    /// Find out how long ago the entry was modified. Answered by `SweepEvent::Age`.
    Inspect(usize),
    /// Remove the entry and all that is in it. Any answer will do.
    Remove(usize),
    /// Sleep for so many seconds. Any answer will do.
    Sleep(u64),
}

/// What a sweep is waiting for.
#[derive(Clone, Copy, Debug, PartialEq, Eq, Structural)]
pub enum SweepStage {
    /// Between sweeps.
    Idle,
    Listing,
    /// The age of entry `index` out of `count`.
    Inspecting { index: usize, count: usize },
    /// The removal of entry `index` out of `count`.
    Removing { index: usize, count: usize },
}

/// How the last step of a sweep went.
#[derive(Clone, Copy, Debug, PartialEq, Eq, Structural)]
pub enum SweepEvent {
    /// Nothing was asked for yet, or a sleep is over.
    Awake,
    /// The listing has so many entries.
    Listed(usize),
    /// Whole seconds since the entry was modified, where that could be found out.
    Age(Option<u64>),
    Removed,
    Failed,
}

/// Whether an entry that was modified `elapsed` seconds ago has expired.
pub open spec fn is_expired(elapsed: u64, delete_older_than: u64) -> bool {
    elapsed >= delete_older_than
}

/// The turn that follows the handling of entry `index`: the next entry, or
/// sleep when the listing is through.
pub open spec fn turn_after(interval: u64, index: usize, count: usize) -> (SweepStage, SweepAction) {
    if index < count && index + 1 < count {
        (
            SweepStage::Inspecting { index: (index + 1) as usize, count },
            SweepAction::Inspect((index + 1) as usize),
        )
    } else {
        (SweepStage::Idle, SweepAction::Sleep(interval))
    }
}

/// How a sweep goes on from `stage` after `event`.
pub open spec fn sweep_turn(settings: AutoDelete, stage: SweepStage, event: SweepEvent) -> (
    SweepStage,
    SweepAction,
) {
    match stage {
        SweepStage::Idle => (SweepStage::Listing, SweepAction::List),
        SweepStage::Listing => match event {
            SweepEvent::Listed(count) => if count > 0 {
                (SweepStage::Inspecting { index: 0, count }, SweepAction::Inspect(0))
            } else {
                (SweepStage::Idle, SweepAction::Sleep(settings.interval))
            },
            _ => (SweepStage::Idle, SweepAction::Sleep(settings.interval)),
        },
        SweepStage::Inspecting { index, count } => match event {
            SweepEvent::Age(Some(elapsed)) => if index < count && is_expired(
                elapsed,
                settings.delete_older_than,
            ) {
                (SweepStage::Removing { index, count }, SweepAction::Remove(index))
            } else {
                turn_after(settings.interval, index, count)
            },
            _ => turn_after(settings.interval, index, count),
        },
        SweepStage::Removing { index, count } => turn_after(settings.interval, index, count),
    }
}

impl DataSource {
    /// The settings with which the sweeper is to run, or `None` where it is
    /// switched off, which it is by an interval or an age limit of zero.
    pub fn start_auto_delete(&self, interval: u64, delete_older_than: u64) -> (settings: Option<
        AutoDelete,
    >)
        ensures
            settings == (if interval == 0 || delete_older_than == 0 {
                None::<AutoDelete>
            } else {
                Some(AutoDelete { interval, delete_older_than })
            }),
    {
        if interval == 0 || delete_older_than == 0 {
            None
        } else {
            Some(AutoDelete { interval, delete_older_than })
        }
    }
}

impl AutoDelete {
    /// Whether an entry that was modified `elapsed` seconds ago is to be removed.
    pub fn is_expired(&self, elapsed: u64) -> (expired: bool)
        ensures
            expired == is_expired(elapsed, self.delete_older_than),
    {
        elapsed >= self.delete_older_than
    }

    fn after(&self, index: usize, count: usize) -> (turn: (SweepStage, SweepAction))
        ensures
            turn == turn_after(self.interval, index, count),
    {
        if index < count && index + 1 < count {
            (SweepStage::Inspecting { index: index + 1, count }, SweepAction::Inspect(index + 1))
        } else {
            (SweepStage::Idle, SweepAction::Sleep(self.interval))
        }
    }

    /// The next turn of the sweeper. It starts at `SweepStage::Idle` and never
    /// ends: after each sweep it sleeps and starts over.
    pub fn advance(&self, stage: SweepStage, event: SweepEvent) -> (turn: (SweepStage, SweepAction))
        ensures
            turn == sweep_turn(*self, stage, event),
    {
        match stage {
            SweepStage::Idle => (SweepStage::Listing, SweepAction::List),
            SweepStage::Listing => match event {
                SweepEvent::Listed(count) => {
                    if count > 0 {
                        (SweepStage::Inspecting { index: 0, count }, SweepAction::Inspect(0))
                    } else {
                        (SweepStage::Idle, SweepAction::Sleep(self.interval))
                    }
                },
                _ => (SweepStage::Idle, SweepAction::Sleep(self.interval)),
            },
            SweepStage::Inspecting { index, count } => match event {
                SweepEvent::Age(Some(elapsed)) => {
                    if index < count && self.is_expired(elapsed) {
                        (SweepStage::Removing { index, count }, SweepAction::Remove(index))
                    } else {
                        self.after(index, count)
                    }
                },
                _ => self.after(index, count),
            },
            SweepStage::Removing { index, count } => self.after(index, count),
        }
    }
}

/// How the steps of a sweep are answered where the listing has one entry for
/// each of `ages`, and the age of an entry is found where `ages` holds one.
pub open spec fn sweep_answer(ages: Seq<Option<u64>>, action: SweepAction) -> SweepEvent {
    match action {
        SweepAction::List => if ages.len() <= usize::MAX {
            SweepEvent::Listed(ages.len() as usize)
        } else {
            SweepEvent::Failed
        },
        SweepAction::Inspect(index) => if index < ages.len() {
            SweepEvent::Age(ages[index as int])
        } else {
            SweepEvent::Failed
        },
        SweepAction::Remove(_) => SweepEvent::Removed,
        SweepAction::Sleep(_) => SweepEvent::Awake,
    }
}

/// The entries that the sweeper has removed, in the order of their removal,
/// from `stage` on until it goes to sleep, or until `steps` steps are taken.
pub open spec fn sweep_removals(
    settings: AutoDelete,
    ages: Seq<Option<u64>>,
    stage: SweepStage,
    event: SweepEvent,
    steps: nat,
) -> Seq<usize>
    decreases steps,
{
    let (next, action) = sweep_turn(settings, stage, event);
    if action is Sleep || steps == 0 {
        Seq::empty()
    } else {
        let rest = sweep_removals(
            settings,
            ages,
            next,
            sweep_answer(ages, action),
            (steps - 1) as nat,
        );
        match action {
            SweepAction::Remove(index) => seq![index] + rest,
            _ => rest,
        }
    }
}

/// The entries from `from` on whose age was found and is at or past `limit`.
pub open spec fn expired_from(ages: Seq<Option<u64>>, limit: u64, from: int) -> Seq<usize>
    decreases ages.len() - from,
{
    if from < 0 || from >= ages.len() {
        Seq::empty()
    } else {
        let rest = expired_from(ages, limit, from + 1);
        match ages[from] {
            Some(elapsed) => if is_expired(elapsed, limit) {
                seq![from as usize] + rest
            } else {
                rest
            },
            None => rest,
        }
    }
}

proof fn sweep_goes_through(settings: AutoDelete, ages: Seq<Option<u64>>, index: usize, steps: nat)
    requires
        ages.len() <= usize::MAX,
        index < ages.len(),
        steps >= 2 * (ages.len() - index),
    ensures
        sweep_removals(
            settings,
            ages,
            SweepStage::Inspecting { index, count: ages.len() as usize },
            SweepEvent::Age(ages[index as int]),
            steps,
        ) == expired_from(ages, settings.delete_older_than, index as int),
    decreases ages.len() - index,
{
    reveal_with_fuel(sweep_removals, 3);
    reveal_with_fuel(expired_from, 2);
    let count = ages.len() as usize;
    if index + 1 < count {
        let spent: nat = if ages[index as int] is Some && is_expired(
            ages[index as int]->Some_0,
            settings.delete_older_than,
        ) {
            2
        } else {
            1
        };
        sweep_goes_through(settings, ages, (index + 1) as usize, (steps - spent) as nat);
    }
}

/// One sweep removes exactly the entries whose age was found and is at or
/// past the limit, each once and in the order of the listing, and then goes
/// to sleep for the interval.
pub proof fn sweep_removes_the_expired(settings: AutoDelete, ages: Seq<Option<u64>>)
    requires
        ages.len() <= usize::MAX,
    ensures
        sweep_removals(
            settings,
            ages,
            SweepStage::Idle,
            SweepEvent::Awake,
            2 * ages.len() + 2,
        ) == expired_from(ages, settings.delete_older_than, 0),
{
    reveal_with_fuel(sweep_removals, 3);
    if ages.len() > 0 {
        sweep_goes_through(settings, ages, 0, (2 * ages.len()) as nat);
    }
}

/// An entry is among the expired ones from `from` on exactly if it lies there,
/// its age was found, and that age is at or past the limit.
pub proof fn expired_are_those_past_the_limit(
    ages: Seq<Option<u64>>,
    limit: u64,
    from: int,
    index: usize,
)
    requires
        0 <= from,
        ages.len() <= usize::MAX,
    ensures
        expired_from(ages, limit, from).contains(index) <==> (from <= index < ages.len()
            && ages[index as int] is Some && ages[index as int]->Some_0 >= limit),
    decreases ages.len() - from,
{
    if from < ages.len() {
        expired_are_those_past_the_limit(ages, limit, from + 1, index);
        let rest = expired_from(ages, limit, from + 1);
        let here = seq![from as usize];
        assert(here[0] == from as usize);
        if (here + rest).contains(index) {
            let i = choose|i: int| 0 <= i < (here + rest).len() && (here + rest)[i] == index;
            if i > 0 {
                assert(rest[i - 1] == index);
            }
        }
        if rest.contains(index) {
            let i = choose|i: int| 0 <= i < rest.len() && rest[i] == index;
            assert((here + rest)[i + 1] == index);
        }
        if index == from {
            assert((here + rest)[0] == index);
        }
    }
}

/// Whether the sweep removes the bundle `id`: it is listed at a place whose
/// age was found and is at or past the limit.
pub open spec fn is_swept(
    listing: Seq<Seq<char>>,
    ages: Seq<Option<u64>>,
    limit: u64,
    id: Seq<char>,
) -> bool {
    exists|index: int|
        0 <= index < listing.len() && index < ages.len() && #[trigger] listing[index] == id
            && ages[index] is Some && ages[index]->Some_0 >= limit
}

/// The disk without the bundles that are listed at the places `removals`.
pub open spec fn without_bundles(disk: Disk, listing: Seq<Seq<char>>, removals: Seq<usize>) -> Disk {
    disk.remove_keys(
        Set::new(
            |id: Seq<char>|
                exists|k: int|
                    0 <= k < removals.len() && removals[k] < listing.len() && listing[(
                    #[trigger] removals[k]) as int] == id,
        ),
    )
}

/// The disk after one sweep, where `listing` names the bundles in the order
/// in which they are listed and `ages` holds the age found for each.
pub open spec fn after_sweep(
    settings: AutoDelete,
    disk: Disk,
    listing: Seq<Seq<char>>,
    ages: Seq<Option<u64>>,
) -> Disk {
    without_bundles(
        disk,
        listing,
        sweep_removals(settings, ages, SweepStage::Idle, SweepEvent::Awake, 2 * ages.len() + 2),
    )
}

/// A bundle whose age is at or past the limit is gone after the sweep, and a
/// `Get` for it brings nothing. A bundle that is younger, or whose age could
/// not be found, is untouched: a `Get` brings what it brought before.
pub proof fn sweep_removes_the_expired_only(
    settings: AutoDelete,
    max_size: u64,
    disk: Disk,
    listing: Seq<Seq<char>>,
    ages: Seq<Option<u64>>,
    id: Seq<char>,
    filename: Seq<char>,
)
    requires
        listing.len() == ages.len(),
        ages.len() <= usize::MAX,
    ensures
        is_swept(listing, ages, settings.delete_older_than, id) ==> {
            &&& !after_sweep(settings, disk, listing, ages).dom().contains(id)
            &&& serve(
                max_size,
                RequestView::Get { id, filename },
                after_sweep(settings, disk, listing, ages),
            ) == Some((after_sweep(settings, disk, listing, ages), ReplyView::Content(None)))
        },
        disk.dom().contains(id) && !is_swept(listing, ages, settings.delete_older_than, id) ==> {
            &&& after_sweep(settings, disk, listing, ages).dom().contains(id)
            &&& after_sweep(settings, disk, listing, ages)[id] == disk[id]
            &&& serve(
                max_size,
                RequestView::Get { id, filename },
                after_sweep(settings, disk, listing, ages),
            )->Some_0.1 == serve(max_size, RequestView::Get { id, filename }, disk)->Some_0.1
        },
{
    let limit = settings.delete_older_than;
    let removals = sweep_removals(
        settings,
        ages,
        SweepStage::Idle,
        SweepEvent::Awake,
        2 * ages.len() + 2,
    );
    let after = after_sweep(settings, disk, listing, ages);
    sweep_removes_the_expired(settings, ages);
    get_comes_to(max_size, after, id, filename);
    get_comes_to(max_size, disk, id, filename);
    if is_swept(listing, ages, limit, id) {
        let index = choose|index: int|
            0 <= index < listing.len() && index < ages.len() && #[trigger] listing[index] == id
                && ages[index] is Some && ages[index]->Some_0 >= limit;
        expired_are_those_past_the_limit(ages, limit, 0, index as usize);
        let k = choose|k: int| 0 <= k < removals.len() && removals[k] == index as usize;
        assert(listing[removals[k] as int] == id);
        assert(!after.dom().contains(id));
    }
    if disk.dom().contains(id) && !is_swept(listing, ages, limit, id) {
        if !after.dom().contains(id) {
            let k = choose|k: int|
                0 <= k < removals.len() && removals[k] < listing.len() && listing[(
                #[trigger] removals[k]) as int] == id;
            expired_are_those_past_the_limit(ages, limit, 0, removals[k]);
            assert(removals.contains(removals[k]));
            assert(listing[removals[k] as int] == id);
        }
    }
}

} // verus!
