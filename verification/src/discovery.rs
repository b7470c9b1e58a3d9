//! Turns successive scans into notices of radios that appeared or vanished.

use vstd::prelude::*;
use crate::device::DeviceId;
use crate::device::DeviceIdView;

verus! {

/// Seconds that one scan lasts.
pub const SCAN_SECONDS: u64 = 4;

/// What a [`DiscoveryEvent`] stands for.
pub enum DiscoveryEventView {
    Found(DeviceIdView),
    Lost(DeviceIdView),
    Error(Seq<char>),
}

/// A notice for the user interface about one scan.
#[derive(Debug, Clone, PartialEq, Eq)]
pub enum DiscoveryEvent {
    /// A radio that the previous scan did not see.
    BLERadioFound(DeviceId),
    /// A radio that the previous scan saw and this one did not.
    BLERadioLost(DeviceId),
    /// The scan failed; the text says why.
    Error(String),
}

impl View for DiscoveryEvent {
    type V = DiscoveryEventView;

    open spec fn view(&self) -> DiscoveryEventView {
        match *self {
            DiscoveryEvent::BLERadioFound(d) => DiscoveryEventView::Found(d@),
            DiscoveryEvent::BLERadioLost(d) => DiscoveryEventView::Lost(d@),
            DiscoveryEvent::Error(m) => DiscoveryEventView::Error(m@),
        }
    }
}

/// The identifiers that a vector of devices stands for, in order.
pub open spec fn ids(v: Seq<DeviceId>) -> Seq<DeviceIdView> {
    Seq::new(v.len(), |i: int| v[i]@)
}

/// What a vector of events stands for, in order.
pub open spec fn event_views(v: Seq<DiscoveryEvent>) -> Seq<DiscoveryEventView> {
    Seq::new(v.len(), |i: int| v[i]@)
}

/// The items of `s`, in order, that `other` holds (`keep`) or lacks (`!keep`).
pub open spec fn select(s: Seq<DeviceIdView>, other: Seq<DeviceIdView>, keep: bool) -> Seq<
    DeviceIdView,
>
    decreases s.len(),
{
    if s.len() == 0 {
        Seq::empty()
    } else {
        let rest = select(s.drop_last(), other, keep);
        if other.contains(s.last()) == keep {
            rest.push(s.last())
        } else {
            rest
        }
    }
}

/// The items of `s` that `known` lacks, each once, in order of first sight.
pub open spec fn arrived(s: Seq<DeviceIdView>, known: Seq<DeviceIdView>) -> Seq<DeviceIdView>
    decreases s.len(),
{
    if s.len() == 0 {
        Seq::empty()
    } else {
        let rest = arrived(s.drop_last(), known);
        if known.contains(s.last()) || s.drop_last().contains(s.last()) {
            rest
        } else {
            rest.push(s.last())
        }
    }
}

/// The known radios that `snapshot` lacks, in the order they were known.
pub open spec fn departed(known: Seq<DeviceIdView>, snapshot: Seq<DeviceIdView>) -> Seq<
    DeviceIdView,
> {
    select(known, snapshot, false)
}

/// The known radios that `snapshot` still holds, in the order they were known.
pub open spec fn retained(known: Seq<DeviceIdView>, snapshot: Seq<DeviceIdView>) -> Seq<
    DeviceIdView,
> {
    select(known, snapshot, true)
}

/// A loss for each radio, in order.
pub open spec fn lost_events(s: Seq<DeviceIdView>) -> Seq<DiscoveryEventView> {
    Seq::new(s.len(), |i: int| DiscoveryEventView::Lost(s[i]))
}

/// A find for each radio, in order.
pub open spec fn found_events(s: Seq<DeviceIdView>) -> Seq<DiscoveryEventView> {
    Seq::new(s.len(), |i: int| DiscoveryEventView::Found(s[i]))
}

/// The notices for one successful scan: every loss, then every find.
pub open spec fn diff_events(known: Seq<DeviceIdView>, snapshot: Seq<DeviceIdView>) -> Seq<
    DiscoveryEventView,
> {
    lost_events(departed(known, snapshot)) + found_events(arrived(snapshot, known))
}

/// The radios known after one successful scan: those that stayed, then the
/// new ones.
pub open spec fn diff_known(known: Seq<DeviceIdView>, snapshot: Seq<DeviceIdView>) -> Seq<
    DeviceIdView,
> {
    retained(known, snapshot) + arrived(snapshot, known)
}

/// The set that results from applying notices, in order, to a set of radios.
pub open spec fn replay(start: Set<DeviceIdView>, events: Seq<DiscoveryEventView>) -> Set<
    DeviceIdView,
>
    decreases events.len(),
{
    if events.len() == 0 {
        start
    } else {
        let before = replay(start, events.drop_last());
        match events.last() {
            DiscoveryEventView::Found(d) => before.insert(d),
            DiscoveryEventView::Lost(d) => before.remove(d),
            DiscoveryEventView::Error(_) => before,
        }
    }
}

/// `select` holds exactly the items of `s` that pass the test.
pub proof fn lemma_select_contains(
    s: Seq<DeviceIdView>,
    other: Seq<DeviceIdView>,
    keep: bool,
    x: DeviceIdView,
)
    ensures
        select(s, other, keep).contains(x) <==> (s.contains(x) && other.contains(x) == keep),
    decreases s.len(),
{
    if s.len() > 0 {
        let rest = select(s.drop_last(), other, keep);
        lemma_select_contains(s.drop_last(), other, keep, x);
        assert(s =~= s.drop_last().push(s.last()));
        lemma_push_contains(s.drop_last(), s.last(), x);
        lemma_push_contains(rest, s.last(), x);
    }
}

/// A pushed sequence holds what it held before, and the new item.
pub proof fn lemma_push_contains(s: Seq<DeviceIdView>, y: DeviceIdView, x: DeviceIdView)
    ensures
        s.push(y).contains(x) <==> (s.contains(x) || x == y),
{
    let t = s.push(y);
    if s.contains(x) {
        let i = choose|i: int| 0 <= i < s.len() && s[i] == x;
        assert(t[i] == x);
    }
    if x == y {
        assert(t[s.len() as int] == x);
    }
    if t.contains(x) {
        let i = choose|i: int| 0 <= i < t.len() && t[i] == x;
        if i < s.len() {
            assert(s[i] == x);
        }
    }
}

/// A concatenation holds what either part holds.
pub proof fn lemma_concat_contains(a: Seq<DeviceIdView>, b: Seq<DeviceIdView>, x: DeviceIdView)
    ensures
        (a + b).contains(x) <==> (a.contains(x) || b.contains(x)),
{
    let t = a + b;
    if a.contains(x) {
        let i = choose|i: int| 0 <= i < a.len() && a[i] == x;
        assert(t[i] == x);
    }
    if b.contains(x) {
        let i = choose|i: int| 0 <= i < b.len() && b[i] == x;
        assert(t[a.len() + i] == x);
    }
    if t.contains(x) {
        let i = choose|i: int| 0 <= i < t.len() && t[i] == x;
        if i < a.len() {
            assert(a[i] == x);
        } else {
            assert(b[i - a.len()] == x);
        }
    }
}

/// `arrived` holds exactly the items of `s` that were not known.
pub proof fn lemma_arrived_contains(s: Seq<DeviceIdView>, known: Seq<DeviceIdView>, x: DeviceIdView)
    ensures
        arrived(s, known).contains(x) <==> (s.contains(x) && !known.contains(x)),
    decreases s.len(),
{
    if s.len() > 0 {
        let rest = arrived(s.drop_last(), known);
        lemma_arrived_contains(s.drop_last(), known, x);
        assert(s =~= s.drop_last().push(s.last()));
        lemma_push_contains(s.drop_last(), s.last(), x);
        lemma_push_contains(rest, s.last(), x);
    }
}

/// A selection from a sequence without repeats has no repeats.
pub proof fn lemma_select_no_duplicates(s: Seq<DeviceIdView>, other: Seq<DeviceIdView>, keep: bool)
    requires
        s.no_duplicates(),
    ensures
        select(s, other, keep).no_duplicates(),
    decreases s.len(),
{
    if s.len() > 0 {
        let rest = select(s.drop_last(), other, keep);
        lemma_select_no_duplicates(s.drop_last(), other, keep);
        lemma_select_contains(s.drop_last(), other, keep, s.last());
        if s.drop_last().contains(s.last()) {
            let i = choose|i: int| 0 <= i < s.drop_last().len() && s.drop_last()[i] == s.last();
            assert(s[i] == s[s.len() - 1]);
        }
        lemma_push_no_duplicates(rest, s.last());
    }
}

/// Pushing an item that a sequence lacks keeps it free of repeats.
pub proof fn lemma_push_no_duplicates(s: Seq<DeviceIdView>, y: DeviceIdView)
    requires
        s.no_duplicates(),
        !s.contains(y),
    ensures
        s.push(y).no_duplicates(),
{
    let t = s.push(y);
    assert forall|i: int, j: int| 0 <= i < t.len() && 0 <= j < t.len() && i != j implies t[i]
        != t[j] by {
        if i < s.len() && j < s.len() {
        } else if i < s.len() {
            assert(s.contains(s[i]));
        } else {
            assert(s.contains(s[j]));
        }
    }
}

/// `arrived` never names a radio twice.
pub proof fn lemma_arrived_no_duplicates(s: Seq<DeviceIdView>, known: Seq<DeviceIdView>)
    ensures
        arrived(s, known).no_duplicates(),
    decreases s.len(),
{
    if s.len() > 0 {
        let rest = arrived(s.drop_last(), known);
        lemma_arrived_no_duplicates(s.drop_last(), known);
        lemma_arrived_contains(s.drop_last(), known, s.last());
        if !(known.contains(s.last()) || s.drop_last().contains(s.last())) {
            lemma_push_no_duplicates(rest, s.last());
        }
    } else {
        assert(arrived(s, known) =~= Seq::empty());
    }
}

/// Whether a vector of devices holds one that names the same radio as `d`.
pub fn holds_device(v: &Vec<DeviceId>, d: &DeviceId) -> (r: bool)
    ensures
        r == ids(v@).contains(d@),
{
    let mut i: usize = 0;
    while i < v.len()
        invariant
            i <= v.len(),
            forall|k: int| 0 <= k < i ==> ids(v@)[k] != d@,
        decreases v.len() - i,
    {
        if v[i].same_device(d) {
            assert(ids(v@)[i as int] == d@);
            return true;
        }
        i += 1;
    }
    false
}

/// The memory of the discovery task: the radios that the last successful scan
/// saw.
pub struct DiscoveryDiffer {
    known: Vec<DeviceId>,
}

impl View for DiscoveryDiffer {
    type V = Seq<DeviceIdView>;

    closed spec fn view(&self) -> Seq<DeviceIdView> {
        ids(self.known@)
    }
}

impl DiscoveryDiffer {
    /// No radio is known twice.
    pub closed spec fn wf(&self) -> bool {
        ids(self.known@).no_duplicates()
    }

    /// The set of known radios.
    pub open spec fn known_set(&self) -> Set<DeviceIdView> {
        self@.to_set()
    }

    /// A differ that knows no radio.
    pub fn new() -> (r: DiscoveryDiffer)
        ensures
            r.wf(),
            r@ == Seq::<DeviceIdView>::empty(),
    {
        let r = DiscoveryDiffer { known: Vec::new() };
        assert(ids(r.known@) =~= Seq::empty());
        r
    }

    /// The known radios, in the order they were first seen.
    pub fn known(&self) -> (r: &Vec<DeviceId>)
        ensures
            ids(r@) == self@,
    {
        &self.known
    }

    /// Whether `d` is among the known radios.
    pub fn is_known(&self, d: &DeviceId) -> (r: bool)
        ensures
            r == self@.contains(d@),
    {
        holds_device(&self.known, d)
    }

    /// Takes in one successful scan. Returns a loss for each known radio that
    /// the scan lacks, then a find for each radio of the scan that was not
    /// known; afterwards exactly the radios of the scan are known.
    pub fn apply_snapshot(&mut self, snapshot: &Vec<DeviceId>) -> (events: Vec<DiscoveryEvent>)
        requires
            old(self).wf(),
        ensures
            final(self).wf(),
            final(self)@ == diff_known(old(self)@, ids(snapshot@)),
            final(self).known_set() == ids(snapshot@).to_set(),
            event_views(events@) == diff_events(old(self)@, ids(snapshot@)),
    {
        let ghost before = ids(self.known@);
        let ghost snap = ids(snapshot@);
        let mut events: Vec<DiscoveryEvent> = Vec::new();
        let mut next: Vec<DeviceId> = Vec::new();
        let mut i: usize = 0;
        assert(before.take(0) =~= Seq::empty());
        assert(ids(next@) =~= Seq::empty());
        assert(event_views(events@) =~= lost_events(Seq::empty()));
        while i < self.known.len()
            invariant
                i <= self.known.len(),
                before == ids(self.known@),
                snap == ids(snapshot@),
                ids(next@) == retained(before.take(i as int), snap),
                event_views(events@) == lost_events(departed(before.take(i as int), snap)),
            decreases self.known.len() - i,
        {
            let ghost old_next = ids(next@);
            let ghost old_events = event_views(events@);
            proof {
                assert(before.take(i as int + 1).drop_last() =~= before.take(i as int));
                assert(before.take(i as int + 1).last() == self.known@[i as int]@);
            }
            let d = self.known[i].duplicate();
            if holds_device(snapshot, &d) {
                next.push(d);
                assert(ids(next@) =~= old_next.push(d@));
            } else {
                events.push(DiscoveryEvent::BLERadioLost(d));
                assert(event_views(events@) =~= old_events.push(DiscoveryEventView::Lost(d@)));
                assert(lost_events(departed(before.take(i as int), snap).push(d@)) =~= old_events.push(
                    DiscoveryEventView::Lost(d@),
                ));
            }
            i += 1;
        }
        assert(before.take(i as int) =~= before);
        let ghost kept = retained(before, snap);
        let ghost lost = lost_events(departed(before, snap));
        let mut j: usize = 0;
        proof {
            assert(snap.take(0) =~= Seq::empty());
            assert(ids(next@) =~= kept + arrived(snap.take(0), before));
            assert(event_views(events@) =~= lost + found_events(arrived(snap.take(0), before)));
        }
        while j < snapshot.len()
            invariant
                j <= snapshot.len(),
                snap == ids(snapshot@),
                kept == retained(before, snap),
                ids(next@) == kept + arrived(snap.take(j as int), before),
                event_views(events@) == lost + found_events(arrived(snap.take(j as int), before)),
            decreases snapshot.len() - j,
        {
            let ghost old_next = ids(next@);
            let ghost old_events = event_views(events@);
            let ghost seen = snap.take(j as int);
            let ghost x = snapshot@[j as int]@;
            proof {
                assert(snap.take(j as int + 1).drop_last() =~= seen);
                assert(snap.take(j as int + 1).last() == x);
                assert(snap[j as int] == x);
                lemma_concat_contains(kept, arrived(seen, before), x);
                lemma_select_contains(before, snap, true, x);
                lemma_arrived_contains(seen, before, x);
            }
            if !holds_device(&next, &snapshot[j]) {
                let d = snapshot[j].duplicate();
                let e = snapshot[j].duplicate();
                next.push(d);
                events.push(DiscoveryEvent::BLERadioFound(e));
                proof {
                    let grown = arrived(seen, before).push(x);
                    assert(ids(next@) =~= old_next.push(x));
                    assert(old_next.push(x) =~= kept + grown);
                    assert(event_views(events@) =~= old_events.push(DiscoveryEventView::Found(x)));
                    assert(old_events.push(DiscoveryEventView::Found(x)) =~= lost + found_events(
                        grown,
                    ));
                }
            }
            j += 1;
        }
        proof {
            assert(snap.take(j as int) =~= snap);
            lemma_diff_known_no_duplicates(before, snap);
            lemma_diff_known_is_snapshot(before, snap);
        }
        self.known = next;
        events
    }

    /// Takes in the outcome of one scan. A failed scan yields one error
    /// notice and leaves the known radios as they were; a successful one is
    /// handled as by [`DiscoveryDiffer::apply_snapshot`].
    pub fn poll(&mut self, outcome: Result<Vec<DeviceId>, String>) -> (events: Vec<DiscoveryEvent>)
        requires
            old(self).wf(),
        ensures
            final(self).wf(),
            final(self)@ == scan_known(old(self)@, scan_view(outcome)),
            event_views(events@) == scan_events(old(self)@, scan_view(outcome)),
    {
        match outcome {
            Ok(snapshot) => self.apply_snapshot(&snapshot),
            Err(message) => {
                let mut events: Vec<DiscoveryEvent> = Vec::new();
                events.push(DiscoveryEvent::Error(message));
                assert(event_views(events@) =~= seq![DiscoveryEventView::Error(message@)]);
                events
            },
        }
    }
}

/// What the outcome of a scan stands for.
pub open spec fn scan_view(outcome: Result<Vec<DeviceId>, String>) -> Result<
    Seq<DeviceIdView>,
    Seq<char>,
> {
    match outcome {
        Ok(snapshot) => Ok(ids(snapshot@)),
        Err(message) => Err(message@),
    }
}

/// The notices for one scan, failed or not.
pub open spec fn scan_events(
    known: Seq<DeviceIdView>,
    outcome: Result<Seq<DeviceIdView>, Seq<char>>,
) -> Seq<DiscoveryEventView> {
    match outcome {
        Ok(snapshot) => diff_events(known, snapshot),
        Err(message) => seq![DiscoveryEventView::Error(message)],
    }
}

/// The radios known after one scan, failed or not.
pub open spec fn scan_known(
    known: Seq<DeviceIdView>,
    outcome: Result<Seq<DeviceIdView>, Seq<char>>,
) -> Seq<DeviceIdView> {
    match outcome {
        Ok(snapshot) => diff_known(known, snapshot),
        Err(_) => known,
    }
}

/// The radios known after a series of scans, starting with none.
pub open spec fn known_after(scans: Seq<Result<Seq<DeviceIdView>, Seq<char>>>) -> Seq<DeviceIdView>
    decreases scans.len(),
{
    if scans.len() == 0 {
        Seq::empty()
    } else {
        scan_known(known_after(scans.drop_last()), scans.last())
    }
}

/// Every notice sent over a series of scans, starting with no known radio.
pub open spec fn events_after(scans: Seq<Result<Seq<DeviceIdView>, Seq<char>>>) -> Seq<
    DiscoveryEventView,
>
    decreases scans.len(),
{
    if scans.len() == 0 {
        Seq::empty()
    } else {
        events_after(scans.drop_last()) + scan_events(
            known_after(scans.drop_last()),
            scans.last(),
        )
    }
}

/// The radios of the last successful scan in a series; none if no scan
/// succeeded.
pub open spec fn last_seen(scans: Seq<Result<Seq<DeviceIdView>, Seq<char>>>) -> Set<DeviceIdView>
    decreases scans.len(),
{
    if scans.len() == 0 {
        Set::empty()
    } else {
        match scans.last() {
            Ok(snapshot) => snapshot.to_set(),
            Err(_) => last_seen(scans.drop_last()),
        }
    }
}

/// After a scan no radio is known twice.
pub proof fn lemma_diff_known_no_duplicates(known: Seq<DeviceIdView>, snapshot: Seq<DeviceIdView>)
    requires
        known.no_duplicates(),
    ensures
        diff_known(known, snapshot).no_duplicates(),
{
    let a = retained(known, snapshot);
    let b = arrived(snapshot, known);
    lemma_select_no_duplicates(known, snapshot, true);
    lemma_arrived_no_duplicates(snapshot, known);
    assert forall|i: int, j: int| 0 <= i < a.len() && 0 <= j < b.len() implies a[i] != b[j] by {
        lemma_select_contains(known, snapshot, true, a[i]);
        lemma_arrived_contains(snapshot, known, b[j]);
        assert(a.contains(a[i]));
        assert(b.contains(b[j]));
    }
    vstd::seq_lib::lemma_no_dup_in_concat(a, b);
}

/// After a scan exactly the radios of the scan are known.
pub proof fn lemma_diff_known_is_snapshot(known: Seq<DeviceIdView>, snapshot: Seq<DeviceIdView>)
    ensures
        diff_known(known, snapshot).to_set() == snapshot.to_set(),
{
    let a = retained(known, snapshot);
    let b = arrived(snapshot, known);
    assert forall|x: DeviceIdView| (a + b).contains(x) <==> snapshot.contains(x) by {
        lemma_concat_contains(a, b, x);
        lemma_select_contains(known, snapshot, true, x);
        lemma_arrived_contains(snapshot, known, x);
    }
    assert(diff_known(known, snapshot).to_set() =~= snapshot.to_set());
}

/// Replaying two runs of notices one after the other is replaying their
/// concatenation.
pub proof fn lemma_replay_concat(
    start: Set<DeviceIdView>,
    a: Seq<DiscoveryEventView>,
    b: Seq<DiscoveryEventView>,
)
    ensures
        replay(start, a + b) == replay(replay(start, a), b),
    decreases b.len(),
{
    if b.len() == 0 {
        assert(a + b =~= a);
    } else {
        assert((a + b).drop_last() =~= a + b.drop_last());
        assert((a + b).last() == b.last());
        lemma_replay_concat(start, a, b.drop_last());
    }
}

/// Replaying losses removes exactly the radios they name.
pub proof fn lemma_replay_lost(start: Set<DeviceIdView>, gone: Seq<DeviceIdView>)
    ensures
        replay(start, lost_events(gone)) == start.difference(gone.to_set()),
    decreases gone.len(),
{
    if gone.len() == 0 {
        assert(replay(start, lost_events(gone)) =~= start.difference(gone.to_set()));
    } else {
        let rest = gone.drop_last();
        lemma_replay_lost(start, rest);
        assert(lost_events(gone).drop_last() =~= lost_events(rest));
        assert(lost_events(gone).last() == DiscoveryEventView::Lost(gone.last()));
        assert forall|x: DeviceIdView| gone.contains(x) <==> (rest.contains(x) || x == gone.last()) by {
            assert(gone =~= rest.push(gone.last()));
            lemma_push_contains(rest, gone.last(), x);
        }
        assert(replay(start, lost_events(gone)) =~= start.difference(gone.to_set()));
    }
}

/// Replaying finds adds exactly the radios they name.
pub proof fn lemma_replay_found(start: Set<DeviceIdView>, new: Seq<DeviceIdView>)
    ensures
        replay(start, found_events(new)) == start.union(new.to_set()),
    decreases new.len(),
{
    if new.len() == 0 {
        assert(replay(start, found_events(new)) =~= start.union(new.to_set()));
    } else {
        let rest = new.drop_last();
        lemma_replay_found(start, rest);
        assert(found_events(new).drop_last() =~= found_events(rest));
        assert(found_events(new).last() == DiscoveryEventView::Found(new.last()));
        assert forall|x: DeviceIdView| new.contains(x) <==> (rest.contains(x) || x == new.last()) by {
            assert(new =~= rest.push(new.last()));
            lemma_push_contains(rest, new.last(), x);
        }
        assert(replay(start, found_events(new)) =~= start.union(new.to_set()));
    }
}

/// The notices of one successful scan name, as lost, exactly the known radios
/// that the scan lacks and, as found, exactly the radios of the scan that
/// were not known, each once, with every loss before every find; applied to
/// the set of known radios they give the set of radios in the scan.
pub proof fn lemma_events_are_set_difference(known: Seq<DeviceIdView>, snapshot: Seq<DeviceIdView>)
    requires
        known.no_duplicates(),
    ensures
        departed(known, snapshot).to_set() == known.to_set().difference(snapshot.to_set()),
        arrived(snapshot, known).to_set() == snapshot.to_set().difference(known.to_set()),
        departed(known, snapshot).no_duplicates(),
        arrived(snapshot, known).no_duplicates(),
        forall|i: int, j: int|
            0 <= i < j < diff_events(known, snapshot).len() && diff_events(known, snapshot)[i]
                is Found ==> diff_events(known, snapshot)[j] is Found,
        forall|i: int|
            0 <= i < diff_events(known, snapshot).len() ==> !(diff_events(known, snapshot)[i]
                is Error),
        replay(known.to_set(), diff_events(known, snapshot)) == snapshot.to_set(),
{
    let gone = departed(known, snapshot);
    let new = arrived(snapshot, known);
    assert forall|x: DeviceIdView|
        gone.contains(x) <==> (known.contains(x) && !snapshot.contains(x)) by {
        lemma_select_contains(known, snapshot, false, x);
    }
    assert forall|x: DeviceIdView|
        new.contains(x) <==> (snapshot.contains(x) && !known.contains(x)) by {
        lemma_arrived_contains(snapshot, known, x);
    }
    assert(gone.to_set() =~= known.to_set().difference(snapshot.to_set()));
    assert(new.to_set() =~= snapshot.to_set().difference(known.to_set()));
    lemma_select_no_duplicates(known, snapshot, false);
    lemma_arrived_no_duplicates(snapshot, known);
    lemma_replay_concat(known.to_set(), lost_events(gone), found_events(new));
    lemma_replay_lost(known.to_set(), gone);
    lemma_replay_found(known.to_set().difference(gone.to_set()), new);
    assert(known.to_set().difference(gone.to_set()).union(new.to_set()) =~= snapshot.to_set());
}

/// Over any series of scans that starts with no known radio, no radio is
/// ever known twice, the known radios are those of the last successful scan,
/// and replaying every notice sent so far gives that same set.
pub proof fn lemma_events_reconstruct_scans(scans: Seq<Result<Seq<DeviceIdView>, Seq<char>>>)
    ensures
        known_after(scans).no_duplicates(),
        known_after(scans).to_set() == last_seen(scans),
        replay(Set::empty(), events_after(scans)) == last_seen(scans),
    decreases scans.len(),
{
    if scans.len() == 0 {
        assert(known_after(scans).to_set() =~= Set::empty());
    } else {
        let earlier = scans.drop_last();
        let known = known_after(earlier);
        lemma_events_reconstruct_scans(earlier);
        lemma_replay_concat(Set::empty(), events_after(earlier), scan_events(known, scans.last()));
        match scans.last() {
            Ok(snapshot) => {
                lemma_diff_known_no_duplicates(known, snapshot);
                lemma_diff_known_is_snapshot(known, snapshot);
                lemma_events_are_set_difference(known, snapshot);
            },
            Err(message) => {
                let e = seq![DiscoveryEventView::Error(message)];
                assert(e.drop_last() =~= Seq::empty());
                assert(replay(last_seen(earlier), e.drop_last()) == last_seen(earlier));
                assert(e.last() == DiscoveryEventView::Error(message));
                assert(replay(last_seen(earlier), e) == last_seen(earlier));
            },
        }
    }
}

} // verus!
