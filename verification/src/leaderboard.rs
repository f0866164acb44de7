//! The leaderboard snapshot as the data source delivers it.

use vstd::prelude::*;

verus! {

/// What the data source says about a snapshot as a whole.
#[derive(Clone, Debug, PartialEq, Eq)]
pub struct LeaderboardMetadata {
    pub chart: String,
    pub week: String,
    pub description: String,
    pub timestamp: String,
    pub total_entries: u32,
}

/// Mathematical content of a [`LeaderboardMetadata`].
pub struct MetadataView {
    pub chart: Seq<char>,
    pub week: Seq<char>,
    pub description: Seq<char>,
    pub timestamp: Seq<char>,
    pub total_entries: nat,
}

impl View for LeaderboardMetadata {
    type V = MetadataView;

    open spec fn view(&self) -> MetadataView {
        MetadataView {
            chart: self.chart@,
            week: self.week@,
            description: self.description@,
            timestamp: self.timestamp@,
            total_entries: self.total_entries as nat,
        }
    }
}

/// One ranked line of a snapshot.
#[derive(Clone, Debug, PartialEq, Eq)]
pub struct LeaderboardEntry {
    pub position: u32,
    pub title: String,
    pub artist: String,
    pub last_week: Option<u32>,
    pub peak_position: u32,
    pub weeks_on_chart: u32,
    pub is_new: bool,
    pub has_gains: bool,
    pub is_award: bool,
}

/// Mathematical content of a [`LeaderboardEntry`].
pub struct EntryView {
    pub position: nat,
    pub title: Seq<char>,
    pub artist: Seq<char>,
    pub last_week: Option<nat>,
    pub peak_position: nat,
    pub weeks_on_chart: nat,
    pub is_new: bool,
    pub has_gains: bool,
    pub is_award: bool,
}

impl View for LeaderboardEntry {
    type V = EntryView;

    open spec fn view(&self) -> EntryView {
        EntryView {
            position: self.position as nat,
            title: self.title@,
            artist: self.artist@,
            last_week: match self.last_week {
                Some(rank) => Some(rank as nat),
                None => None,
            },
            peak_position: self.peak_position as nat,
            weeks_on_chart: self.weeks_on_chart as nat,
            is_new: self.is_new,
            has_gains: self.has_gains,
            is_award: self.is_award,
        }
    }
}

/// A snapshot: its metadata and its entries in the order received.
#[derive(Clone, Debug, PartialEq, Eq)]
pub struct LeaderboardData {
    pub metadata: LeaderboardMetadata,
    pub rankings: Vec<LeaderboardEntry>,
}

/// Mathematical content of a [`LeaderboardData`].
pub struct LeaderboardView {
    pub metadata: MetadataView,
    pub rankings: Seq<EntryView>,
}

impl View for LeaderboardData {
    type V = LeaderboardView;

    open spec fn view(&self) -> LeaderboardView {
        LeaderboardView {
            metadata: self.metadata@,
            rankings: self.rankings@.map_values(|entry: LeaderboardEntry| entry@),
        }
    }
}

impl LeaderboardView {
    /// The announced number of entries is the number of entries present.
    pub open spec fn count_matches(self) -> bool {
        self.rankings.len() == self.metadata.total_entries
    }

    /// Every rank is a positive integer.
    pub open spec fn positions_positive(self) -> bool {
        forall|i: int| 0 <= i < self.rankings.len() ==> (#[trigger] self.rankings[i]).position >= 1
    }

    /// No rank is held by two entries.
    pub open spec fn positions_distinct(self) -> bool {
        forall|i: int, j: int|
            0 <= i < j < self.rankings.len() ==> (#[trigger] self.rankings[i]).position != (
            #[trigger] self.rankings[j]).position
    }

    /// A snapshot is consistent when its count matches and its ranks are
    /// positive and pairwise distinct.
    pub open spec fn consistent(self) -> bool {
        &&& self.count_matches()
        &&& self.positions_positive()
        &&& self.positions_distinct()
    }
}

impl LeaderboardData {
    /// Decides whether the snapshot is consistent.
    ///
    /// The pipeline commits a snapshot as it was received, consistent or
    /// not; this check lets a caller tell the two apart.
    pub fn is_consistent(&self) -> (ok: bool)
        ensures
            ok == self@.consistent(),
    {
        let n = self.rankings.len();
        if n as u64 != self.metadata.total_entries as u64 {
            return false;
        }
        let mut i: usize = 0;
        while i < n
            invariant
                n == self.rankings@.len(),
                i <= n,
                self@.count_matches(),
                forall|a: int| 0 <= a < i ==> (#[trigger] self@.rankings[a]).position >= 1,
                forall|a: int, b: int|
                    0 <= a < b < n && a < i ==> (#[trigger] self@.rankings[a]).position != (
                    #[trigger] self@.rankings[b]).position,
            decreases n - i,
        {
            if self.rankings[i].position == 0 {
                assert(self@.rankings[i as int].position == 0);
                return false;
            }
            let mut j: usize = i + 1;
            while j < n
                invariant
                    n == self.rankings@.len(),
                    i < j <= n,
                    forall|b: int|
                        i < b < j ==> self@.rankings[i as int].position != (
                        #[trigger] self@.rankings[b]).position,
                decreases n - j,
            {
                if self.rankings[i].position == self.rankings[j].position {
                    assert(self@.rankings[i as int].position == self@.rankings[j as int].position);
                    return false;
                }
                j += 1;
            }
            i += 1;
        }
        true
    }
}

} // verus!
