//! The lifecycle policy: which torrents are throttled, which are removed.
//!
//! A torrent whose tracker list is not empty and names no tracker of the
//! allowlist is throttled: it keeps its data and stops giving it away. A
//! torrent that has been there for longer than the configured number of days
//! is removed. Throttling comes first: no torrent is given both verdicts. The
//! policy is a function of the snapshot, the settings and the current time,
//! and of nothing else.

use crate::api::enums::Status;
use crate::api::fields::TorrentField;
use crate::api::ids::{TorrentId, TorrentIdView};
use crate::api::torrent::{TorrentsArguments, TorrentsArgumentsView};
use crate::scalar::{older_than, TimePoint};
use crate::text::{contains_text, occurs_in};
use vstd::prelude::*;

verus! {

/// What the operator has configured.
#[derive(Debug)]
pub struct TorrentSettings {
    /// List of allowed trackers. Allow the torrent to seed if it's in this list
    pub tracker_allowlist: Vec<String>,
    /// Remove the torrent after an amount of days
    pub remove_after: Option<u32>,
}

/// The mathematical value of [`TorrentSettings`].
pub struct TorrentSettingsView {
    pub tracker_allowlist: Seq<Seq<char>>,
    pub remove_after: Option<u32>,
}

impl DeepView for TorrentSettings {
    type V = TorrentSettingsView;

    open spec fn deep_view(&self) -> TorrentSettingsView {
        TorrentSettingsView {
            tracker_allowlist: self.tracker_allowlist.deep_view(),
            remove_after: self.remove_after,
        }
    }
}

impl Default for TorrentSettings {
    fn default() -> (r: Self)
        ensures
            r.deep_view() == (TorrentSettingsView {
                tracker_allowlist: Seq::empty(),
                remove_after: None,
            }),
    {
        let r = TorrentSettings { tracker_allowlist: Vec::new(), remove_after: None };
        assert(r.tracker_allowlist.deep_view() =~= Seq::<Seq<char>>::empty());
        r
    }
}

/// What the policy decides for one torrent.
#[derive(Debug, Clone, Copy, PartialEq, Eq, Structural)]
pub enum Verdict {
    /// Take its upload and its peers away.
    Throttle,
    /// Remove it from the daemon.
    Remove,
    /// Leave it as it is.
    Ignore,
}

impl TorrentSettingsView {
    /// Whether a tracker list names an allowed tracker: an entry of the
    /// allowlist occurs in it.
    pub open spec fn allows(self, tracker: Seq<char>) -> bool {
        exists|i: int|
            0 <= i < self.tracker_allowlist.len() && occurs_in(
                #[trigger] self.tracker_allowlist[i],
                tracker,
            )
    }

    /// Whether a torrent added at `added` has outlived the configured number
    /// of days at `now`. Without such a number no torrent has.
    pub open spec fn expires(self, added: TimePoint, now: TimePoint) -> bool {
        match self.remove_after {
            Some(days) => older_than(added, now, days as nat),
            None => false,
        }
    }

    /// Whether a torrent is to be throttled: its upload is not limited yet,
    /// it has a tracker list that is not empty, and that list names no
    /// allowed tracker.
    pub open spec fn throttles(self, torrent: TorrentsArgumentsView) -> bool {
        &&& !torrent.upload_limited
        &&& torrent.tracker_list is Some
        &&& torrent.tracker_list->0.len() > 0
        &&& !self.allows(torrent.tracker_list->0)
    }

    /// Whether a torrent is old enough to be removed.
    pub open spec fn outlives(self, torrent: TorrentsArgumentsView, now: TimePoint) -> bool {
        torrent.added_date is Some && self.expires(torrent.added_date->0, now)
    }
}

/// What the policy decides for a torrent. Without settings, and for a torrent
/// without an id, nothing is done.
pub open spec fn verdict(
    settings: Option<TorrentSettingsView>,
    torrent: TorrentsArgumentsView,
    now: TimePoint,
) -> Verdict {
    match settings {
        Some(settings) => if torrent.id is None {
            Verdict::Ignore
        } else if settings.throttles(torrent) {
            Verdict::Throttle
        } else if settings.outlives(torrent, now) {
            Verdict::Remove
        } else {
            Verdict::Ignore
        },
        None => Verdict::Ignore,
    }
}

/// The ids of the torrents that are given the verdict `which`, in the order of
/// the torrents.
pub open spec fn chosen(
    settings: Option<TorrentSettingsView>,
    torrents: Seq<TorrentsArgumentsView>,
    now: TimePoint,
    which: Verdict,
) -> Seq<TorrentIdView>
    decreases torrents.len(),
{
    if torrents.len() == 0 {
        Seq::empty()
    } else {
        let before = chosen(settings, torrents.drop_last(), now, which);
        if which != Verdict::Ignore && verdict(settings, torrents.last(), now) == which {
            before.push(torrents.last().id->0)
        } else {
            before
        }
    }
}

/// The status of each torrent that has one, in the order of the torrents.
pub open spec fn statuses_of(torrents: Seq<TorrentsArgumentsView>) -> Seq<Status>
    decreases torrents.len(),
{
    if torrents.len() == 0 {
        Seq::empty()
    } else {
        let before = statuses_of(torrents.drop_last());
        match torrents.last().status {
            Some(status) => before.push(status),
            None => before,
        }
    }
}

/// The fields of a torrent that the policy and the status count read.
pub open spec fn fields_read() -> Seq<TorrentField> {
    seq![
        TorrentField::Id,
        TorrentField::Status,
        TorrentField::TrackerList,
        TorrentField::AddedDate,
        TorrentField::UploadLimited,
    ]
}

impl TorrentSettings {
    /// Method to check if the tracker is allowed
    /// return `true` if it's the case
    pub fn tracker_allowed(&self, tracker: String) -> (r: bool)
        ensures
            r == self.deep_view().allows(tracker@),
    {
        let ghost list = self.tracker_allowlist.deep_view();
        let mut i: usize = 0;
        while i < self.tracker_allowlist.len()
            invariant
                i <= self.tracker_allowlist.len(),
                list == self.tracker_allowlist.deep_view(),
                forall|k: int| 0 <= k < i ==> !occurs_in(#[trigger] list[k], tracker@),
            decreases self.tracker_allowlist.len() - i,
        {
            assert(list[i as int] == self.tracker_allowlist@[i as int]@);
            if contains_text(tracker.as_str(), self.tracker_allowlist[i].as_str()) {
                assert(occurs_in(self.deep_view().tracker_allowlist[i as int], tracker@));
                return true;
            }
            i += 1;
        }
        false
    }

    /// Method to know if the torrent need to be removed
    pub fn need_removal(&self, added_date: TimePoint, now: TimePoint) -> (r: bool)
        ensures
            r == self.deep_view().expires(added_date, now),
    {
        match self.remove_after {
            Some(days) => added_date.is_older_than(&now, days),
            None => false,
        }
    }

    /// What the policy decides for a torrent.
    pub fn judge(&self, torrent: &TorrentsArguments, now: TimePoint) -> (r: Verdict)
        ensures
            r == verdict(Some(self.deep_view()), torrent.deep_view(), now),
    {
        if torrent.id.is_none() {
            return Verdict::Ignore;
        }
        let throttled = !torrent.upload_limited && match &torrent.tracker_list {
            Some(list) => !list.as_str().is_empty() && !self.tracker_allowed(list.clone()),
            None => false,
        };
        if throttled {
            return Verdict::Throttle;
        }
        let outlived = match torrent.added_date {
            Some(added) => self.need_removal(added, now),
            None => false,
        };
        if outlived {
            Verdict::Remove
        } else {
            Verdict::Ignore
        }
    }
}

/// What the policy decides for a torrent under settings that may be missing.
pub fn judge_with(
    settings: &Option<TorrentSettings>,
    torrent: &TorrentsArguments,
    now: TimePoint,
) -> (r: Verdict)
    ensures
        r == verdict(settings.deep_view(), torrent.deep_view(), now),
{
    match settings {
        Some(settings) => settings.judge(torrent, now),
        None => Verdict::Ignore,
    }
}

/// The ids of the torrents that are given the verdict `which`.
pub fn select(
    settings: &Option<TorrentSettings>,
    torrents: &Vec<TorrentsArguments>,
    now: TimePoint,
    which: Verdict,
) -> (r: Vec<TorrentId>)
    ensures
        r.deep_view() == chosen(settings.deep_view(), torrents.deep_view(), now, which),
{
    let ghost all = torrents.deep_view();
    let mut ids: Vec<TorrentId> = Vec::new();
    let mut i: usize = 0;
    assert(all.take(0) =~= Seq::empty());
    assert(ids.deep_view() =~= Seq::empty());
    while i < torrents.len()
        invariant
            i <= torrents.len(),
            all == torrents.deep_view(),
            ids.deep_view() == chosen(settings.deep_view(), all.take(i as int), now, which),
        decreases torrents.len() - i,
    {
        let torrent = &torrents[i];
        proof {
            let next = all.take(i as int + 1);
            assert(next.drop_last() =~= all.take(i as int));
            assert(next.last() == torrent.deep_view());
        }
        let decided = judge_with(settings, torrent, now);
        if which != Verdict::Ignore && decided == which {
            match &torrent.id {
                Some(id) => {
                    let ghost before = ids.deep_view();
                    let copy = id.clone();
                    ids.push(copy);
                    assert(ids.deep_view() =~= before.push(copy.deep_view()));
                },
                None => {},
            }
        }
        i += 1;
    }
    assert(all.take(i as int) =~= all);
    ids
}

/// The status of each torrent that has one.
pub fn collect_statuses(torrents: &Vec<TorrentsArguments>) -> (r: Vec<Status>)
    ensures
        r@ == statuses_of(torrents.deep_view()),
{
    let ghost all = torrents.deep_view();
    let mut statuses: Vec<Status> = Vec::new();
    let mut i: usize = 0;
    assert(all.take(0) =~= Seq::empty());
    while i < torrents.len()
        invariant
            i <= torrents.len(),
            all == torrents.deep_view(),
            statuses@ == statuses_of(all.take(i as int)),
        decreases torrents.len() - i,
    {
        proof {
            let next = all.take(i as int + 1);
            assert(next.drop_last() =~= all.take(i as int));
            assert(next.last() == torrents@[i as int].deep_view());
        }
        match torrents[i].status {
            Some(status) => {
                statuses.push(status);
            },
            None => {},
        }
        i += 1;
    }
    assert(all.take(i as int) =~= all);
    statuses
}

/// Throttling comes first: a torrent that is to be throttled is not removed,
/// however old it is.
pub proof fn throttle_takes_precedence(
    settings: TorrentSettingsView,
    torrent: TorrentsArgumentsView,
    now: TimePoint,
)
    requires
        torrent.id is Some,
        settings.throttles(torrent),
    ensures
        verdict(Some(settings), torrent, now) == Verdict::Throttle,
{
}

/// A torrent without an id is left alone, whatever else it says.
pub proof fn torrent_without_id_is_ignored(
    settings: Option<TorrentSettingsView>,
    torrent: TorrentsArgumentsView,
    now: TimePoint,
)
    requires
        torrent.id is None,
    ensures
        verdict(settings, torrent, now) == Verdict::Ignore,
{
}

/// With an empty allowlist every torrent that has an id and a tracker list
/// that is not empty, and whose upload is not limited yet, is throttled.
pub proof fn empty_allowlist_throttles_all(
    settings: TorrentSettingsView,
    torrent: TorrentsArgumentsView,
    now: TimePoint,
)
    requires
        settings.tracker_allowlist.len() == 0,
        torrent.id is Some,
        !torrent.upload_limited,
        torrent.tracker_list is Some,
        torrent.tracker_list->0.len() > 0,
    ensures
        verdict(Some(settings), torrent, now) == Verdict::Throttle,
{
}

/// A torrent whose tracker list is empty is not throttled, whatever the
/// allowlist holds: it is removed where it is old enough, and left alone
/// where it is not.
pub proof fn empty_tracker_list_is_not_throttled(
    settings: TorrentSettingsView,
    torrent: TorrentsArgumentsView,
    now: TimePoint,
)
    requires
        torrent.tracker_list is Some,
        torrent.tracker_list->0.len() == 0,
    ensures
        verdict(Some(settings), torrent, now) != Verdict::Throttle,
        torrent.id is Some ==> verdict(Some(settings), torrent, now) == (if settings.outlives(
            torrent,
            now,
        ) {
            Verdict::Remove
        } else {
            Verdict::Ignore
        }),
{
}

/// The verdict depends on the id, the tracker list, the date of addition and
/// the upload limit of a torrent, and on no other field.
pub proof fn verdict_reads_requested_fields(
    settings: Option<TorrentSettingsView>,
    one: TorrentsArgumentsView,
    other: TorrentsArgumentsView,
    now: TimePoint,
)
    requires
        one.id is Some == other.id is Some,
        one.tracker_list == other.tracker_list,
        one.added_date == other.added_date,
        one.upload_limited == other.upload_limited,
    ensures
        verdict(settings, one, now) == verdict(settings, other, now),
{
}

/// No torrent is on both lists: the torrents that are throttled and those
/// that are removed are together no more than the torrents that there are.
pub proof fn lists_share_no_torrent(
    settings: Option<TorrentSettingsView>,
    torrents: Seq<TorrentsArgumentsView>,
    now: TimePoint,
)
    ensures
        chosen(settings, torrents, now, Verdict::Throttle).len() + chosen(
            settings,
            torrents,
            now,
            Verdict::Remove,
        ).len() <= torrents.len(),
    decreases torrents.len(),
{
    if torrents.len() > 0 {
        lists_share_no_torrent(settings, torrents.drop_last(), now);
    }
}

} // verus!
