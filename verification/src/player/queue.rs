//! Play queue management.
//!
//! The queue holds the items in insertion order and a current position.
//! With shuffle on, `shuffle_order` maps shuffle positions to item indices and
//! navigation walks that order instead of the items.

use vstd::prelude::*;
use super::state::{TrackInfo, stem_or_unknown, stem_or_unknown_string};
use crate::random::{random_in_range, shuffle_in_place, thread_rng};

verus! {

/// The largest queue length: positions are kept as `i32`.
pub const MAX_QUEUE_LEN: usize = 0x7fff_ffff;

/// A single item in the play queue.
#[derive(Debug, Clone)]
pub struct QueueItem {
    /// Path to the audio file
    pub path: String,
    /// Cached metadata (populated after loading)
    pub info: Option<TrackInfo>,
}

/// The title shown for a queue item: its tag title, else its file stem,
/// else `"Unknown"`.
pub open spec fn item_display_title(item: QueueItem) -> Seq<char> {
    match item.info {
        Some(info) => match info.title {
            Some(t) => t@,
            None => stem_or_unknown(item.path@),
        },
        None => stem_or_unknown(item.path@),
    }
}

impl QueueItem {
    /// Create a queue item from a file path.
    pub fn from_path(path: String) -> (r: Self)
        ensures
            r.path == path,
            r.info is None,
    {
        QueueItem { path, info: None }
    }

    /// Create a queue item with metadata.
    pub fn with_info(path: String, info: TrackInfo) -> (r: Self)
        ensures
            r.path == path,
            r.info == Some(info),
    {
        QueueItem { path, info: Some(info) }
    }

    /// Get the display title.
    pub fn display_title(&self) -> (r: String)
        ensures
            r@ == item_display_title(*self),
    {
        match &self.info {
            Some(info) => match &info.title {
                Some(t) => t.clone(),
                None => stem_or_unknown_string(self.path.as_str()),
            },
            None => stem_or_unknown_string(self.path.as_str()),
        }
    }
}

/// Repeat mode for the queue.
#[derive(Debug, Clone, Copy, PartialEq, Eq, Structural)]
pub enum RepeatMode {
    Off,
    /// Repeat entire queue
    All,
    /// Repeat current track
    One,
}

/// The abstract state of a play queue.
pub ghost struct QueueView {
    pub items: Seq<QueueItem>,
    /// Current index into `items`, `-1` before playback starts.
    pub position: int,
    pub shuffle: bool,
    /// Shuffle position → item index.
    pub order: Seq<usize>,
    /// Current index into `order`, `-1` when not started.
    pub shuffle_position: int,
    pub repeat: RepeatMode,
}

/// The state invariant every queue keeps.
pub open spec fn queue_wf(v: QueueView) -> bool {
    &&& v.items.len() <= MAX_QUEUE_LEN
    &&& -1 <= v.position < v.items.len()
    &&& -1 <= v.shuffle_position < v.order.len()
    &&& v.order.no_duplicates()
    &&& forall|i: int| 0 <= i < v.order.len() ==> (#[trigger] v.order[i] as int) < v.items.len()
    &&& !v.shuffle ==> v.order.len() == 0
}

/// Whether navigation follows the shuffle order.
pub open spec fn shuffling(v: QueueView) -> bool {
    v.shuffle && v.order.len() > 0
}

/// The item at the current position, if the position is inside the queue.
pub open spec fn current_of(v: QueueView) -> Option<QueueItem> {
    if 0 <= v.position < v.items.len() {
        Some(v.items[v.position])
    } else {
        None
    }
}

/// The item a returned reference points to.
pub open spec fn deref_item(r: Option<&QueueItem>) -> Option<QueueItem> {
    match r {
        Some(it) => Some(*it),
        None => None,
    }
}

/// A freshly drawn shuffle order for `n` items: every index below `n`
/// exactly once, with `current` first when it names an item.
pub open spec fn is_shuffle_order(order: Seq<usize>, n: int, current: int) -> bool {
    &&& order.len() == n
    &&& order.no_duplicates()
    &&& forall|i: int| 0 <= i < n ==> (#[trigger] order[i] as int) < n
    &&& forall|k: usize| (k as int) < n ==> #[trigger] order.contains(k)
    &&& (0 <= current < n ==> order[0] as int == current)
}

/// Whether skipping forward wraps a repeat-all shuffle and draws a new order.
pub open spec fn forward_reshuffles(v: QueueView) -> bool {
    &&& v.items.len() > 0
    &&& shuffling(v)
    &&& v.repeat == RepeatMode::All
    &&& v.shuffle_position + 1 >= v.order.len()
}

/// Whether skipping forward returns nothing.
pub open spec fn forward_gives_none(v: QueueView) -> bool {
    ||| v.items.len() == 0
    ||| (shuffling(v) && v.repeat == RepeatMode::Off && v.shuffle_position + 1 >= v.order.len())
    ||| (!shuffling(v) && v.repeat == RepeatMode::Off && v.position + 1 >= v.items.len())
}

/// The state after skipping forward, for every case that draws no new order.
pub open spec fn forward_view(v: QueueView) -> QueueView {
    if v.items.len() == 0 {
        v
    } else if shuffling(v) {
        match v.repeat {
            RepeatMode::One => if v.shuffle_position < 0 {
                QueueView { shuffle_position: 0, position: v.order[0] as int, ..v }
            } else {
                v
            },
            RepeatMode::All => {
                let sp = v.shuffle_position + 1;
                QueueView { shuffle_position: sp, position: v.order[sp] as int, ..v }
            },
            RepeatMode::Off => {
                let sp = v.shuffle_position + 1;
                if sp >= v.order.len() {
                    QueueView { shuffle_position: v.order.len() - 1, ..v }
                } else {
                    QueueView { shuffle_position: sp, position: v.order[sp] as int, ..v }
                }
            },
        }
    } else {
        match v.repeat {
            RepeatMode::One => if v.position < 0 {
                QueueView { position: 0, ..v }
            } else {
                v
            },
            RepeatMode::All => {
                let p = v.position + 1;
                QueueView { position: if p >= v.items.len() { 0 } else { p }, ..v }
            },
            RepeatMode::Off => {
                let p = v.position + 1;
                QueueView { position: if p >= v.items.len() { v.items.len() - 1 } else { p }, ..v }
            },
        }
    }
}

/// Whether going back returns nothing.
pub open spec fn backward_gives_none(v: QueueView) -> bool {
    ||| v.items.len() == 0
    ||| (shuffling(v) && v.repeat == RepeatMode::Off && v.shuffle_position - 1 < 0)
    ||| (!shuffling(v) && v.repeat == RepeatMode::Off && v.position - 1 < 0)
}

/// The state after going back one track.
pub open spec fn backward_view(v: QueueView) -> QueueView {
    if v.items.len() == 0 {
        v
    } else if shuffling(v) {
        match v.repeat {
            RepeatMode::One => if v.shuffle_position < 0 {
                QueueView { shuffle_position: 0, position: v.order[0] as int, ..v }
            } else {
                v
            },
            RepeatMode::All => {
                let sp = if v.shuffle_position - 1 < 0 {
                    v.order.len() - 1
                } else {
                    v.shuffle_position - 1
                };
                QueueView { shuffle_position: sp, position: v.order[sp] as int, ..v }
            },
            RepeatMode::Off => {
                let sp = v.shuffle_position - 1;
                if sp < 0 {
                    QueueView { shuffle_position: 0, ..v }
                } else {
                    QueueView { shuffle_position: sp, position: v.order[sp] as int, ..v }
                }
            },
        }
    } else {
        match v.repeat {
            RepeatMode::One => if v.position < 0 {
                QueueView { position: 0, ..v }
            } else {
                v
            },
            RepeatMode::All => {
                let p = v.position - 1;
                QueueView { position: if p < 0 { v.items.len() - 1 } else { p }, ..v }
            },
            RepeatMode::Off => {
                let p = v.position - 1;
                QueueView { position: if p < 0 { 0 } else { p }, ..v }
            },
        }
    }
}

/// The index an item moved from `from` to `to` makes of a position `pos`,
/// so that `pos` keeps naming the same element.
pub open spec fn moved_position(pos: int, from: int, to: int) -> int {
    if pos < 0 {
        pos
    } else if from == pos {
        to
    } else if from < pos && to >= pos {
        pos - 1
    } else if from > pos && to <= pos {
        pos + 1
    } else {
        pos
    }
}

/// A sequence with the element at `from` moved to `to`.
pub open spec fn move_elem<A>(s: Seq<A>, from: int, to: int) -> Seq<A> {
    s.remove(from).insert(to, s[from])
}

/// The state after `reorder(from, to)`.
pub open spec fn reorder_view(v: QueueView, from: int, to: int) -> QueueView {
    if 0 <= from < v.items.len() && 0 <= to < v.items.len() && from != to {
        QueueView {
            items: move_elem(v.items, from, to),
            position: moved_position(v.position, from, to),
            ..v
        }
    } else {
        v
    }
}

/// Whether `reorder_shuffle(from, to)` moves anything.
pub open spec fn reorder_shuffle_moves(v: QueueView, from: int, to: int) -> bool {
    shuffling(v) && 0 <= from < v.order.len() && 0 <= to < v.order.len() && from != to
}

/// The state after `reorder_shuffle(from, to)`.
pub open spec fn reorder_shuffle_view(v: QueueView, from: int, to: int) -> QueueView {
    if reorder_shuffle_moves(v, from, to) {
        QueueView {
            order: move_elem(v.order, from, to),
            shuffle_position: moved_position(v.shuffle_position, from, to),
            ..v
        }
    } else {
        v
    }
}

/// A position after the element at `removed` is taken out.
pub open spec fn position_after_remove(pos: int, removed: int) -> int {
    if removed <= pos {
        if pos - 1 < -1 { -1 } else { pos - 1 }
    } else {
        pos
    }
}

/// An item index after the item at `removed` is taken out.
pub open spec fn index_after_remove(i: usize, removed: usize) -> usize {
    if i > removed { (i - 1) as usize } else { i }
}

/// The state after `remove(index)`.
pub open spec fn remove_view(v: QueueView, index: int) -> QueueView {
    if 0 <= index < v.items.len() {
        let items = v.items.remove(index);
        let position = position_after_remove(v.position, index);
        if v.shuffle {
            let (order1, sp) = match v.order.index_of_first(index as usize) {
                Some(k) => (v.order.remove(k), if k <= v.shuffle_position {
                    if v.shuffle_position - 1 < -1 { -1 } else { v.shuffle_position - 1 }
                } else {
                    v.shuffle_position
                }),
                None => (v.order, v.shuffle_position),
            };
            QueueView {
                items,
                position,
                order: order1.map_values(|i: usize| index_after_remove(i, index as usize)),
                shuffle_position: sp,
                ..v
            }
        } else {
            QueueView { items, position, ..v }
        }
    } else {
        v
    }
}

/// The next repeat mode in the cycle Off → All → One → Off.
pub open spec fn next_repeat(m: RepeatMode) -> RepeatMode {
    match m {
        RepeatMode::Off => RepeatMode::All,
        RepeatMode::All => RepeatMode::One,
        RepeatMode::One => RepeatMode::Off,
    }
}

/// The play queue with current position tracking.
#[derive(Debug, Clone)]
pub struct PlayQueue {
    /// All items in the queue
    items: Vec<QueueItem>,
    /// Current position in the queue (-1 = not started)
    position: i32,
    /// Shuffle mode enabled
    shuffle: bool,
    /// Shuffled indices (maps shuffle position → item index)
    shuffle_order: Vec<usize>,
    /// Current position in shuffle_order when shuffling
    shuffle_position: i32,
    /// Repeat mode
    repeat: RepeatMode,
}

impl View for PlayQueue {
    type V = QueueView;

    closed spec fn view(&self) -> QueueView {
        QueueView {
            items: self.items@,
            position: self.position as int,
            shuffle: self.shuffle,
            order: self.shuffle_order@,
            shuffle_position: self.shuffle_position as int,
            repeat: self.repeat,
        }
    }
}

/// The first index of `x` in `v`.
fn find_index(v: &Vec<usize>, x: usize) -> (r: Option<usize>)
    ensures
        match r {
            Some(k) => {
                &&& v@.index_of_first(x) == Some(k as int)
                &&& (k as int) < v@.len()
                &&& v@[k as int] == x
                &&& forall|j: int| 0 <= j < k ==> v@[j] != x
            },
            None => v@.index_of_first(x) is None && !v@.contains(x),
        },
{
    proof {
        v@.index_of_first_ensures(x);
    }
    let mut i: usize = 0;
    while i < v.len()
        invariant
            i <= v@.len(),
            forall|j: int| 0 <= j < i ==> v@[j] != x,
            match v@.index_of_first(x) {
                Some(index) => {
                    &&& v@.contains(x)
                    &&& 0 <= index < v@.len()
                    &&& v@[index] == x
                    &&& forall|j: int| 0 <= j < index < v@.len() ==> v@[j] != x
                },
                None => !v@.contains(x),
            },
        decreases v@.len() - i,
    {
        if v[i] == x {
            assert(v@.contains(x));
            return Some(i);
        }
        i += 1;
    }
    None
}

/// A duplicate-free sequence of indices below `n` has at most `n` elements.
proof fn lemma_distinct_indices_len(s: Seq<usize>, n: usize)
    requires
        s.no_duplicates(),
        forall|i: int| 0 <= i < s.len() ==> (#[trigger] s[i] as int) < n,
    ensures
        s.len() <= n,
{
    s.unique_seq_to_set();
    let r = Set::<usize>::range(0, n);
    vstd::set_lib::range_set_properties::<usize>(0, n);
    assert forall|x: usize| #[trigger] s.to_set().contains(x) implies r.contains(x) by {
        assert(s.contains(x));
        let i = choose|i: int| 0 <= i < s.len() && s[i] == x;
        assert((s[i] as int) < n);
    }
    assert(s.to_set().subset_of(r));
    vstd::set_lib::lemma_len_subset(s.to_set(), r);
}

/// The shuffle order of a well-formed queue is no longer than its items.
proof fn lemma_wf_order_len(v: QueueView)
    requires
        queue_wf(v),
    ensures
        v.order.len() <= v.items.len(),
{
    lemma_distinct_indices_len(v.order, v.items.len() as usize);
}

proof fn lemma_permutation_of_range(s: Seq<usize>, n: int)
    requires
        0 <= n,
        s.to_multiset() == Seq::new(n as nat, |i: int| i as usize).to_multiset(),
        n <= usize::MAX,
    ensures
        s.len() == n,
        s.no_duplicates(),
        forall|i: int| 0 <= i < n ==> (#[trigger] s[i] as int) < n,
        forall|k: usize| (k as int) < n ==> #[trigger] s.contains(k),
{
    broadcast use vstd::seq_lib::group_to_multiset_ensures;
    let r = Seq::new(n as nat, |i: int| i as usize);
    assert(s.len() == s.to_multiset().len());
    assert(r.len() == r.to_multiset().len());
    assert(s.len() == n);
    assert(r.no_duplicates());
    r.lemma_multiset_has_no_duplicates();
    s.lemma_multiset_has_no_duplicates_conv();
    assert forall|i: int| 0 <= i < n implies (#[trigger] s[i] as int) < n by {
        let x = s[i];
        assert(s.contains(x));
        assert(s.to_multiset().count(x) > 0);
        assert(r.to_multiset().count(x) > 0);
        assert(r.contains(x));
        let j = choose|j: int| 0 <= j < r.len() && r[j] == x;
        assert(r[j] == j as usize);
    }
    assert forall|k: usize| (k as int) < n implies #[trigger] s.contains(k) by {
        assert(r[k as int] == k);
        assert(r.contains(k));
        assert(r.to_multiset().count(k) > 0);
        assert(s.to_multiset().count(k) > 0);
    }
}

/// A drawn shuffle order with the current track moved to its front: the
/// other tracks keep the drawn order. Before playback starts (`current`
/// negative), or when the order lacks the track, the drawn order stands.
pub open spec fn current_first(drawn: Seq<usize>, current: int) -> Seq<usize> {
    if current >= 0 {
        match drawn.index_of_first(current as usize) {
            Some(pos) => drawn.remove(pos).insert(0, current as usize),
            None => drawn,
        }
    } else {
        drawn
    }
}

/// Moves the current track to the front of a drawn shuffle order.
pub fn order_current_first(drawn: Vec<usize>, current: i32) -> (r: Vec<usize>)
    ensures
        r@ == current_first(drawn@, current as int),
{
    let mut indices = drawn;
    if current >= 0 {
        let current_idx = current as usize;
        match find_index(&indices, current_idx) {
            Some(pos) => {
                indices.remove(pos);
                indices.insert(0, current_idx);
            },
            None => {},
        }
    }
    indices
}

proof fn lemma_move_to_front_keeps_multiset(s: Seq<usize>, p: int)
    requires
        0 <= p < s.len(),
    ensures
        s.remove(p).insert(0, s[p]).to_multiset() == s.to_multiset(),
{
    broadcast use vstd::seq_lib::group_to_multiset_ensures;
    let t = s.remove(p);
    assert(t.insert(0, s[p]).to_multiset() == t.to_multiset().insert(s[p]));
    assert(t.to_multiset() == s.to_multiset().remove(s[p]));
    assert(s.to_multiset().count(s[p]) > 0) by {
        assert(s.contains(s[p]));
    }
    assert(s.to_multiset().remove(s[p]).insert(s[p]) =~= s.to_multiset());
}

proof fn lemma_move_elem_no_dup<A>(s: Seq<A>, from: int, to: int)
    requires
        0 <= from < s.len(),
        0 <= to < s.len(),
        s.no_duplicates(),
    ensures
        move_elem(s, from, to).no_duplicates(),
        move_elem(s, from, to).len() == s.len(),
        forall|x: A| #[trigger] move_elem(s, from, to).contains(x) <==> s.contains(x),
{
    broadcast use vstd::seq_lib::group_to_multiset_ensures;
    let t = s.remove(from);
    let u = t.insert(to, s[from]);
    assert(u.to_multiset() == t.to_multiset().insert(s[from]));
    assert(t.to_multiset() == s.to_multiset().remove(s[from]));
    assert(s.to_multiset().count(s[from]) > 0) by {
        assert(s.contains(s[from]));
    }
    assert(s.to_multiset().remove(s[from]).insert(s[from]) =~= s.to_multiset());
    s.lemma_multiset_has_no_duplicates();
    u.lemma_multiset_has_no_duplicates_conv();
    assert forall|x: A| #[trigger] u.contains(x) <==> s.contains(x) by {
        assert(u.contains(x) <==> u.to_multiset().count(x) > 0);
        assert(s.contains(x) <==> s.to_multiset().count(x) > 0);
    }
}

/// The state after `k` forward skips that draw no new shuffle order.
pub open spec fn forward_n(v: QueueView, k: nat) -> QueueView
    decreases k,
{
    if k == 0 {
        v
    } else {
        forward_view(forward_n(v, (k - 1) as nat))
    }
}

/// Whether some of the first `items.len()` forward skips lands on item `i`.
pub open spec fn walk_reaches(v: QueueView, i: int) -> bool {
    exists|k: nat| 0 < k <= v.items.len() && (#[trigger] forward_n(v, k)).position == i
}

proof fn lemma_shuffle_walk(v: QueueView, k: nat)
    requires
        queue_wf(v),
        shuffling(v),
        v.repeat == RepeatMode::Off,
        v.shuffle_position == -1,
        k <= v.order.len(),
    ensures
        forward_n(v, k) == (if k == 0 {
            v
        } else {
            QueueView { shuffle_position: k - 1, position: v.order[k - 1] as int, ..v }
        }),
    decreases k,
{
    if k > 0 {
        lemma_shuffle_walk(v, (k - 1) as nat);
    }
}

/// Law: with shuffle on and repeat off, skipping forward from the start
/// plays the shuffle order front to back, so a freshly drawn order visits
/// every track of the queue exactly once before the queue ends.
pub proof fn shuffle_walk_visits_every_track(v: QueueView)
    requires
        queue_wf(v),
        shuffling(v),
        v.repeat == RepeatMode::Off,
        v.shuffle_position == -1,
        is_shuffle_order(v.order, v.items.len() as int, v.position),
    ensures
        forall|k: nat| 0 < k <= v.items.len() ==> !forward_gives_none(#[trigger] forward_n(v, (k - 1) as nat)),
        forall|k: nat| 0 < k <= v.items.len() ==> (#[trigger] forward_n(v, k)).position == v.order[k - 1] as int,
        forall|i: int| 0 <= i < v.items.len() ==> #[trigger] walk_reaches(v, i),
        forward_gives_none(forward_n(v, v.items.len())),
{
    assert forall|k: nat| 0 < k <= v.items.len() implies !forward_gives_none(#[trigger] forward_n(v, (k - 1) as nat)) by {
        lemma_shuffle_walk(v, (k - 1) as nat);
    }
    assert forall|k: nat| 0 < k <= v.items.len() implies (#[trigger] forward_n(v, k)).position == v.order[k - 1] as int by {
        lemma_shuffle_walk(v, k);
    }
    assert forall|i: int| 0 <= i < v.items.len() implies #[trigger] walk_reaches(v, i) by {
        assert(v.order.contains(i as usize));
        let j = choose|j: int| 0 <= j < v.order.len() && v.order[j] == i as usize;
        lemma_shuffle_walk(v, (j + 1) as nat);
        assert(forward_n(v, (j + 1) as nat).position == i);
    }
    lemma_shuffle_walk(v, v.items.len());
}

/// Law: with repeat-one, once playback has started, skipping forward and
/// going back both stay on the current track and change nothing, with or
/// without shuffle.
pub proof fn repeat_one_stays_on_current_track(v: QueueView)
    requires
        queue_wf(v),
        v.repeat == RepeatMode::One,
        v.items.len() > 0,
        shuffling(v) ==> v.shuffle_position >= 0,
        !shuffling(v) ==> v.position >= 0,
    ensures
        forward_view(v) == v,
        backward_view(v) == v,
        !forward_gives_none(v),
        !backward_gives_none(v),
        !forward_reshuffles(v),
        current_of(forward_view(v)) == current_of(v),
{
}

/// Law: removing a track other than the current one keeps the current
/// track current, and the queue one shorter.
pub proof fn remove_keeps_current_track(v: QueueView, i: int)
    requires
        queue_wf(v),
        0 <= i < v.items.len(),
        0 <= v.position,
        i != v.position,
    ensures
        current_of(remove_view(v, i)) == current_of(v),
        remove_view(v, i).items.len() == v.items.len() - 1,
        current_of(v) is Some,
{
    let r = remove_view(v, i);
    if i < v.position {
        assert(r.position == v.position - 1);
        assert(r.items[v.position - 1] == v.items[v.position]);
    } else {
        assert(r.position == v.position);
        assert(r.items[v.position] == v.items[v.position]);
    }
}

/// Law: in shuffle order, removing a track other than the current one
/// keeps the shuffle position on the current track.
pub proof fn remove_keeps_shuffle_position_on_current_track(v: QueueView, i: int)
    requires
        queue_wf(v),
        v.shuffle,
        0 <= i < v.items.len(),
        0 <= v.shuffle_position,
        0 <= v.position,
        v.order[v.shuffle_position] as int == v.position,
        i != v.position,
    ensures
        0 <= remove_view(v, i).shuffle_position < remove_view(v, i).order.len(),
        remove_view(v, i).order[remove_view(v, i).shuffle_position] as int == remove_view(v, i).position,
        current_of(remove_view(v, i)) == current_of(v),
{
    remove_keeps_current_track(v, i);
    let r = remove_view(v, i);
    match v.order.index_of_first(i as usize) {
        Some(k) => {
            v.order.index_of_first_ensures(i as usize);
            assert(k != v.shuffle_position);
            let o1 = v.order.remove(k);
            if k < v.shuffle_position {
                assert(o1[v.shuffle_position - 1] == v.order[v.shuffle_position]);
            } else {
                assert(o1[v.shuffle_position] == v.order[v.shuffle_position]);
            }
        },
        None => {},
    }
}

/// Law: in linear order without repeat-one, skipping forward plays the next
/// track; at the last track repeat-all goes back to the first, and with
/// repeat off the queue ends there, keeping the last track current.
pub proof fn linear_skip_forward_plays_next_track(v: QueueView)
    requires
        queue_wf(v),
        !shuffling(v),
        v.repeat != RepeatMode::One,
        v.items.len() > 0,
    ensures
        v.position + 1 < v.items.len() ==> forward_view(v) == (QueueView { position: v.position + 1, ..v })
            && !forward_gives_none(v),
        v.position + 1 >= v.items.len() && v.repeat == RepeatMode::All ==> forward_view(v) == (QueueView {
            position: 0,
            ..v
        }) && !forward_gives_none(v),
        v.position + 1 >= v.items.len() && v.repeat == RepeatMode::Off ==> forward_view(v).position == v.position
            && forward_gives_none(v),
{
}

/// Law: in linear order without repeat-one, going back plays the previous
/// track; at the first track repeat-all goes to the last, and with repeat
/// off nothing is played and the first track stays current.
pub proof fn linear_previous_plays_previous_track(v: QueueView)
    requires
        queue_wf(v),
        !shuffling(v),
        v.repeat != RepeatMode::One,
        v.items.len() > 0,
    ensures
        v.position >= 1 ==> backward_view(v) == (QueueView { position: v.position - 1, ..v })
            && !backward_gives_none(v),
        v.position < 1 && v.repeat == RepeatMode::All ==> backward_view(v) == (QueueView {
            position: v.items.len() - 1,
            ..v
        }) && !backward_gives_none(v),
        v.position < 1 && v.repeat == RepeatMode::Off ==> backward_view(v).position == 0 && backward_gives_none(v),
{
}

/// Law: in shuffle order without repeat-one, skipping forward before the end
/// of the order plays the next track of the order.
pub proof fn shuffled_skip_forward_follows_order(v: QueueView)
    requires
        queue_wf(v),
        shuffling(v),
        v.repeat != RepeatMode::One,
        v.shuffle_position + 1 < v.order.len(),
    ensures
        forward_view(v) == (QueueView {
            shuffle_position: v.shuffle_position + 1,
            position: v.order[v.shuffle_position + 1] as int,
            ..v
        }),
        !forward_gives_none(v),
        !forward_reshuffles(v),
        current_of(forward_view(v)) == Some(v.items[v.order[v.shuffle_position + 1] as int]),
{
    lemma_wf_order_len(v);
}

/// Law: in linear order with repeat off or repeat all, going back right
/// after a successful skip forward returns to the same state.
pub proof fn previous_undoes_skip_forward(v: QueueView)
    requires
        queue_wf(v),
        !shuffling(v),
        v.repeat != RepeatMode::One,
        0 <= v.position,
        !forward_gives_none(v),
    ensures
        backward_view(forward_view(v)) == v,
{
}

/// Law: in shuffle order with repeat off or repeat all, going back right
/// after a skip forward that draws no new order returns to the same state.
pub proof fn previous_undoes_shuffled_skip_forward(v: QueueView)
    requires
        queue_wf(v),
        shuffling(v),
        v.repeat != RepeatMode::One,
        0 <= v.shuffle_position,
        v.position == v.order[v.shuffle_position] as int,
        !forward_reshuffles(v),
        !forward_gives_none(v),
    ensures
        backward_view(forward_view(v)) == v,
{
}

proof fn lemma_move_elem_back<A>(s: Seq<A>, from: int, to: int)
    requires
        0 <= from < s.len(),
        0 <= to < s.len(),
    ensures
        move_elem(move_elem(s, from, to), to, from) == s,
{
    let m = move_elem(s, from, to);
    assert(m[to] == s[from]);
    assert(move_elem(m, to, from) =~= s);
}

/// Law: moving an element back to where it came from undoes the move, for
/// the items and for the current position (so `move_down(i - 1)` undoes
/// `move_up(i)` in linear order).
pub proof fn reorder_back_undoes_reorder(v: QueueView, from: int, to: int)
    requires
        queue_wf(v),
    ensures
        reorder_view(reorder_view(v, from, to), to, from) == v,
{
    if 0 <= from < v.items.len() && 0 <= to < v.items.len() && from != to {
        lemma_move_elem_back(v.items, from, to);
    }
}

/// Law: moving an element back within the shuffle order undoes the move, for
/// the order and for the shuffle position.
pub proof fn reorder_shuffle_back_undoes_reorder_shuffle(v: QueueView, from: int, to: int)
    requires
        queue_wf(v),
    ensures
        reorder_shuffle_view(reorder_shuffle_view(v, from, to), to, from) == v,
{
    if reorder_shuffle_moves(v, from, to) {
        lemma_move_elem_back(v.order, from, to);
    }
}

/// Law: reordering the queue keeps the current track current: the position
/// follows the item that was playing.
pub proof fn reorder_keeps_current_track(v: QueueView, from: int, to: int)
    requires
        queue_wf(v),
    ensures
        current_of(reorder_view(v, from, to)) == current_of(v),
{
    if 0 <= from < v.items.len() && 0 <= to < v.items.len() && from != to && 0 <= v.position {
        let m = move_elem(v.items, from, to);
        let p = moved_position(v.position, from, to);
        assert(m[p] == v.items[v.position]);
    }
}

/// Law: reordering within the shuffle order never moves the items.
pub proof fn reorder_shuffle_keeps_items(v: QueueView, from: int, to: int)
    ensures
        reorder_shuffle_view(v, from, to).items == v.items,
        reorder_shuffle_view(v, from, to).position == v.position,
{
}

/// Law: cycling the repeat mode three times returns to the starting mode.
pub proof fn cycle_repeat_has_period_three(m: RepeatMode)
    ensures
        next_repeat(next_repeat(next_repeat(m))) == m,
        next_repeat(m) != m,
{
}

/// Law: the shuffle order of a well-formed queue is never longer than the
/// queue, and every index it holds names an item.
pub proof fn shuffle_order_stays_within_queue(v: QueueView)
    requires
        queue_wf(v),
    ensures
        v.order.len() <= v.items.len(),
        forall|i: int| 0 <= i < v.order.len() ==> (#[trigger] v.order[i] as int) < v.items.len(),
{
    lemma_wf_order_len(v);
}

impl PlayQueue {
    /// The queue invariant.
    pub open spec fn wf(&self) -> bool {
        queue_wf(self@)
    }

    /// Create an empty queue.
    pub fn new() -> (r: Self)
        ensures
            r.wf(),
            r@.items.len() == 0,
            r@.position == -1,
            !r@.shuffle,
            r@.order.len() == 0,
            r@.shuffle_position == -1,
            r@.repeat == RepeatMode::Off,
    {
        PlayQueue {
            items: Vec::new(),
            position: -1,
            shuffle: false,
            shuffle_order: Vec::new(),
            shuffle_position: -1,
            repeat: RepeatMode::Off,
        }
    }

    /// Check if queue is empty.
    pub fn is_empty(&self) -> (r: bool)
        ensures
            r == (self@.items.len() == 0),
    {
        self.items.len() == 0
    }

    /// Get queue length.
    pub fn len(&self) -> (r: usize)
        ensures
            r == self@.items.len(),
    {
        self.items.len()
    }

    /// Add an item to the end of the queue.
    ///
    /// When shuffling, the new item's index is placed at a random shuffle
    /// position after the current one.
    pub fn add(&mut self, item: QueueItem)
        requires
            old(self).wf(),
            old(self)@.items.len() < MAX_QUEUE_LEN,
        ensures
            final(self).wf(),
            final(self)@.items == old(self)@.items.push(item),
            final(self)@.position == old(self)@.position,
            final(self)@.shuffle == old(self)@.shuffle,
            final(self)@.shuffle_position == old(self)@.shuffle_position,
            final(self)@.repeat == old(self)@.repeat,
            !old(self)@.shuffle ==> final(self)@.order == old(self)@.order,
            old(self)@.shuffle && old(self)@.order.len() == 0 ==> final(self)@.order
                == seq![old(self)@.items.len() as usize],
            old(self)@.shuffle && old(self)@.order.len() > 0 ==> exists|k: int|
                {
                    let after = if old(self)@.shuffle_position < 0 {
                        0
                    } else {
                        old(self)@.shuffle_position + 1
                    };
                    &&& after <= k <= old(self)@.order.len()
                    &&& (after >= old(self)@.order.len() ==> k == old(self)@.order.len())
                    &&& final(self)@.order == #[trigger] old(self)@.order.insert(
                        k,
                        old(self)@.items.len() as usize,
                    )
                },
    {
        let new_index = self.items.len();
        self.items.push(item);
        if self.shuffle {
            if self.shuffle_order.len() == 0 {
                self.shuffle_order.push(new_index);
                assert(self.shuffle_order@ =~= seq![new_index]);
            } else {
                let insert_after: usize = if self.shuffle_position < 0 {
                    0
                } else {
                    self.shuffle_position as usize + 1
                };
                let insert_pos = if insert_after >= self.shuffle_order.len() {
                    self.shuffle_order.len()
                } else {
                    let mut rng = thread_rng();
                    random_in_range(&mut rng, insert_after, self.shuffle_order.len())
                };
                let ghost old_order = self.shuffle_order@;
                self.shuffle_order.insert(insert_pos, new_index);
                assert(self.shuffle_order@ == old(self)@.order.insert(
                    insert_pos as int,
                    old(self)@.items.len() as usize,
                ));
                proof {
                    assert forall|i: int| 0 <= i < self.shuffle_order@.len() implies
                        (#[trigger] self.shuffle_order@[i] as int) < self.items@.len() by {
                        if i < insert_pos {
                            assert(self.shuffle_order@[i] == old_order[i]);
                        } else if i > insert_pos {
                            assert(self.shuffle_order@[i] == old_order[i - 1]);
                        }
                    }
                    assert forall|i: int, j: int|
                        0 <= i < self.shuffle_order@.len() && 0 <= j < self.shuffle_order@.len()
                            && i != j implies self.shuffle_order@[i] != self.shuffle_order@[j] by {
                        let o = self.shuffle_order@;
                        if i != insert_pos && j != insert_pos {
                            let oi = if i < insert_pos { i } else { i - 1 };
                            let oj = if j < insert_pos { j } else { j - 1 };
                            assert(o[i] == old_order[oi]);
                            assert(o[j] == old_order[oj]);
                        } else if i == insert_pos {
                            let oj = if j < insert_pos { j } else { j - 1 };
                            assert(o[j] == old_order[oj]);
                            assert((old_order[oj] as int) < new_index);
                        } else {
                            let oi = if i < insert_pos { i } else { i - 1 };
                            assert(o[i] == old_order[oi]);
                            assert((old_order[oi] as int) < new_index);
                        }
                    }
                }
            }
        }
    }

    /// Add an item after the current position.
    pub fn add_next(&mut self, item: QueueItem)
        requires
            old(self).wf(),
            old(self)@.items.len() < MAX_QUEUE_LEN,
        ensures
            final(self).wf(),
            final(self)@.items == old(self)@.items.insert(
                if old(self)@.position < 0 {
                    0
                } else {
                    old(self)@.position + 1
                },
                item,
            ),
            final(self)@.position == old(self)@.position,
            final(self)@.shuffle == old(self)@.shuffle,
            final(self)@.order == old(self)@.order,
            final(self)@.shuffle_position == old(self)@.shuffle_position,
            final(self)@.repeat == old(self)@.repeat,
    {
        let insert_pos: usize = if self.position < 0 {
            0
        } else {
            let p = self.position as usize + 1;
            if p < self.items.len() { p } else { self.items.len() }
        };
        self.items.insert(insert_pos, item);
    }

    /// Clear the queue.
    pub fn clear(&mut self)
        requires
            old(self).wf(),
        ensures
            final(self).wf(),
            final(self)@.items.len() == 0,
            final(self)@.position == -1,
            final(self)@.order.len() == 0,
            final(self)@.shuffle_position == -1,
            final(self)@.shuffle == old(self)@.shuffle,
            final(self)@.repeat == old(self)@.repeat,
    {
        self.items.clear();
        self.position = -1;
        self.shuffle_order.clear();
        self.shuffle_position = -1;
    }

    /// Remove an item at index.
    pub fn remove(&mut self, index: usize) -> (r: Option<QueueItem>)
        requires
            old(self).wf(),
        ensures
            final(self).wf(),
            final(self)@ == remove_view(old(self)@, index as int),
            r == (if (index as int) < old(self)@.items.len() {
                Some(old(self)@.items[index as int])
            } else {
                None
            }),
    {
        proof {
            lemma_wf_order_len(self@);
        }
        if index < self.items.len() {
            let ghost old_v = self@;
            let item = self.items.remove(index);
            if (index as i32) <= self.position {
                self.position = if self.position - 1 < -1 { -1 } else { self.position - 1 };
            }
            if self.shuffle {
                let ghost order0 = self.shuffle_order@;
                let found = find_index(&self.shuffle_order, index);
                match found {
                    Some(shuffle_idx) => {
                        self.shuffle_order.remove(shuffle_idx);
                        if (shuffle_idx as i32) <= self.shuffle_position {
                            self.shuffle_position = if self.shuffle_position - 1 < -1 {
                                -1
                            } else {
                                self.shuffle_position - 1
                            };
                        }
                    },
                    None => {},
                }
                let ghost order1 = self.shuffle_order@;
                proof {
                    match found {
                        Some(k) => {
                            assert(order0[k as int] == index);
                            assert forall|i: int| 0 <= i < order1.len() implies #[trigger] order1[i] != index by {
                                if i < k {
                                    assert(order1[i] == order0[i]);
                                } else {
                                    assert(order1[i] == order0[i + 1]);
                                }
                            }
                            assert forall|i: int, j: int|
                                0 <= i < order1.len() && 0 <= j < order1.len() && i != j
                                implies order1[i] != order1[j] by {
                                let oi = if i < k { i } else { i + 1 };
                                let oj = if j < k { j } else { j + 1 };
                                assert(order1[i] == order0[oi]);
                                assert(order1[j] == order0[oj]);
                            }
                            assert forall|i: int| 0 <= i < order1.len() implies
                                (#[trigger] order1[i] as int) < old_v.items.len() by {
                                let oi = if i < k { i } else { i + 1 };
                                assert(order1[i] == order0[oi]);
                            }
                        },
                        None => {
                            assert forall|i: int| 0 <= i < order1.len() implies #[trigger] order1[i] != index by {
                                assert(order1.contains(order1[i]));
                            }
                            assert forall|i: int| 0 <= i < order1.len() implies
                                (#[trigger] order1[i] as int) < old_v.items.len() by {
                                assert(order1[i] == order0[i]);
                            }
                        },
                    }
                }
                let ghost mid = self@;
                assert(mid.items == old_v.items.remove(index as int));
                let mut j: usize = 0;
                while j < self.shuffle_order.len()
                    invariant
                        self.items@ == mid.items,
                        self.position == mid.position,
                        self.shuffle_position == mid.shuffle_position,
                        self.shuffle == mid.shuffle,
                        self.repeat == mid.repeat,
                        j <= self.shuffle_order@.len(),
                        self.shuffle_order@.len() == order1.len(),
                        forall|i: int| 0 <= i < j ==> #[trigger] self.shuffle_order@[i]
                            == index_after_remove(order1[i], index),
                        forall|i: int| j <= i < order1.len() ==> #[trigger] self.shuffle_order@[i]
                            == order1[i],
                    decreases self.shuffle_order@.len() - j,
                {
                    let x = self.shuffle_order[j];
                    if x > index {
                        self.shuffle_order.set(j, x - 1);
                    }
                    j += 1;
                }
                proof {
                    let o2 = self.shuffle_order@;
                    assert(o2 =~= order1.map_values(|i: usize| index_after_remove(i, index)));
                    assert forall|i: int| 0 <= i < o2.len() implies
                        (#[trigger] o2[i] as int) < self.items@.len() by {
                        assert(o2[i] == index_after_remove(order1[i], index));
                        assert(order1[i] != index);
                        assert((order1[i] as int) < old_v.items.len());
                        assert(self.items@.len() == old_v.items.len() - 1);
                    }
                    assert forall|i: int, j: int| 0 <= i < o2.len() && 0 <= j < o2.len() && i != j
                        implies o2[i] != o2[j] by {
                        assert(o2[i] == index_after_remove(order1[i], index));
                        assert(o2[j] == index_after_remove(order1[j], index));
                        assert(order1[i] != order1[j]);
                    }
                    assert(o2.no_duplicates());
                }
            }
            proof {
                let rv = remove_view(old_v, index as int);
                assert(self@.items == rv.items);
                assert(self@.position == rv.position);
                assert(self@.order == rv.order);
                assert(self@.shuffle_position == rv.shuffle_position);
                assert(self@ == rv);
            }
            Some(item)
        } else {
            None
        }
    }

    /// Move an item from one position to another.
    pub fn reorder(&mut self, from: usize, to: usize)
        requires
            old(self).wf(),
        ensures
            final(self).wf(),
            final(self)@ == reorder_view(old(self)@, from as int, to as int),
    {
        if from < self.items.len() && to < self.items.len() && from != to {
            let item = self.items.remove(from);
            self.items.insert(to, item);
            if self.position >= 0 {
                let pos = self.position as usize;
                if from == pos {
                    self.position = to as i32;
                } else if from < pos && to >= pos {
                    self.position = self.position - 1;
                } else if from > pos && to <= pos {
                    self.position = self.position + 1;
                }
            }
            assert(self.items@ =~= move_elem(old(self)@.items, from as int, to as int));
        }
    }

    /// Move an item up one position. Returns the new index if moved.
    ///
    /// If shuffle is enabled, this reorders the shuffle sequence instead.
    pub fn move_up(&mut self, index: usize) -> (r: Option<usize>)
        requires
            old(self).wf(),
        ensures
            final(self).wf(),
            index == 0 ==> r is None && final(self)@ == old(self)@,
            index > 0 && shuffling(old(self)@) ==> {
                &&& final(self)@ == reorder_shuffle_view(old(self)@, index as int, index - 1)
                &&& r == (if (index as int) < old(self)@.order.len() {
                    Some((index - 1) as usize)
                } else {
                    None
                })
            },
            index > 0 && !shuffling(old(self)@) ==> {
                &&& final(self)@ == reorder_view(old(self)@, index as int, index - 1)
                &&& r == (if (index as int) < old(self)@.items.len() {
                    Some((index - 1) as usize)
                } else {
                    None
                })
            },
    {
        if index == 0 {
            return None;
        }
        if self.shuffle && self.shuffle_order.len() > 0 {
            self.reorder_shuffle(index, index - 1)
        } else if index < self.items.len() {
            self.reorder(index, index - 1);
            Some(index - 1)
        } else {
            None
        }
    }

    /// Move an item down one position. Returns the new index if moved.
    ///
    /// If shuffle is enabled, this reorders the shuffle sequence instead.
    pub fn move_down(&mut self, index: usize) -> (r: Option<usize>)
        requires
            old(self).wf(),
        ensures
            final(self).wf(),
            shuffling(old(self)@) ==> {
                &&& final(self)@ == reorder_shuffle_view(old(self)@, index as int, index + 1)
                &&& r == (if index + 1 < old(self)@.order.len() {
                    Some((index + 1) as usize)
                } else {
                    None
                })
            },
            !shuffling(old(self)@) ==> {
                &&& final(self)@ == reorder_view(old(self)@, index as int, index + 1)
                &&& r == (if index + 1 < old(self)@.items.len() {
                    Some((index + 1) as usize)
                } else {
                    None
                })
            },
    {
        let max_index = if self.shuffle && self.shuffle_order.len() > 0 {
            self.shuffle_order.len() - 1
        } else {
            if self.items.len() == 0 { 0 } else { self.items.len() - 1 }
        };
        if index >= max_index {
            return None;
        }
        if self.shuffle && self.shuffle_order.len() > 0 {
            self.reorder_shuffle(index, index + 1)
        } else {
            self.reorder(index, index + 1);
            Some(index + 1)
        }
    }

    /// Reorder within the shuffle sequence.
    ///
    /// `from` and `to` are indices into the shuffle order, not items; the
    /// items themselves are not moved.
    pub fn reorder_shuffle(&mut self, from: usize, to: usize) -> (r: Option<usize>)
        requires
            old(self).wf(),
        ensures
            final(self).wf(),
            final(self)@ == reorder_shuffle_view(old(self)@, from as int, to as int),
            r == (if reorder_shuffle_moves(old(self)@, from as int, to as int) {
                Some(to)
            } else {
                None
            }),
    {
        if !self.shuffle || self.shuffle_order.len() == 0 {
            return None;
        }
        if from >= self.shuffle_order.len() || to >= self.shuffle_order.len() || from == to {
            return None;
        }
        let ghost o = self.shuffle_order@;
        proof {
            lemma_wf_order_len(self@);
        }
        let item_idx = self.shuffle_order.remove(from);
        self.shuffle_order.insert(to, item_idx);
        if self.shuffle_position >= 0 {
            let pos = self.shuffle_position as usize;
            if from == pos {
                self.shuffle_position = to as i32;
            } else if from < pos && to >= pos {
                self.shuffle_position = self.shuffle_position - 1;
            } else if from > pos && to <= pos {
                self.shuffle_position = self.shuffle_position + 1;
            }
        }
        proof {
            assert(self.shuffle_order@ =~= move_elem(o, from as int, to as int));
            lemma_move_elem_no_dup(o, from as int, to as int);
            let m = self.shuffle_order@;
            assert forall|i: int| 0 <= i < m.len() implies (#[trigger] m[i] as int) < self.items@.len() by {
                assert(m.contains(m[i]));
                assert(o.contains(m[i]));
            }
        }
        Some(to)
    }

    /// Get all items in the queue.
    pub fn items(&self) -> (r: &[QueueItem])
        ensures
            r@ == self@.items,
    {
        self.items.as_slice()
    }

    /// The shuffle order: shuffle position → item index.
    pub fn shuffle_order(&self) -> (r: &[usize])
        ensures
            r@ == self@.order,
    {
        self.shuffle_order.as_slice()
    }

    /// The current shuffle position, `-1` when not started.
    pub fn shuffle_position(&self) -> (r: i32)
        ensures
            r as int == self@.shuffle_position,
    {
        self.shuffle_position
    }

    /// Get current position (index into items).
    pub fn current_index(&self) -> (r: Option<usize>)
        requires
            self.wf(),
        ensures
            r == (if 0 <= self@.position {
                Some(self@.position as usize)
            } else {
                None
            }),
    {
        if self.position >= 0 && (self.position as usize) < self.items.len() {
            Some(self.position as usize)
        } else {
            None
        }
    }

    /// Get count of remaining tracks after current position.
    pub fn remaining_count(&self) -> (r: usize)
        requires
            self.wf(),
        ensures
            r == (if self@.position < 0 {
                self@.items.len() as int
            } else {
                self@.items.len() - (self@.position + 1)
            }),
    {
        if self.position < 0 {
            self.items.len()
        } else {
            self.items.len() - (self.position as usize + 1)
        }
    }

    /// Get current item.
    pub fn current(&self) -> (r: Option<&QueueItem>)
        ensures
            deref_item(r) == current_of(self@),
    {
        if self.position >= 0 && (self.position as usize) < self.items.len() {
            Some(&self.items[self.position as usize])
        } else {
            None
        }
    }

    /// Advance to next track and return it.
    ///
    /// At the end of a repeat-all shuffle a new shuffle order is drawn.
    pub fn skip_forward(&mut self) -> (r: Option<&QueueItem>)
        requires
            old(self).wf(),
        ensures
            final(self).wf(),
            !forward_reshuffles(old(self)@) ==> final(self)@ == forward_view(old(self)@),
            forward_reshuffles(old(self)@) ==> {
                let o = old(self)@;
                let f = final(self)@;
                &&& is_shuffle_order(f.order, o.items.len() as int, o.position)
                &&& f.shuffle_position == 0
                &&& f.position == f.order[0] as int
                &&& f.items == o.items
                &&& f.shuffle == o.shuffle
                &&& f.repeat == o.repeat
            },
            deref_item(r) == (if forward_gives_none(old(self)@) {
                None
            } else {
                current_of(final(self)@)
            }),
    {
        if self.items.len() == 0 {
            return None;
        }
        if self.shuffle && self.shuffle_order.len() > 0 {
            return self.skip_forward_shuffle();
        }
        match self.repeat {
            RepeatMode::One => {
                if self.position < 0 {
                    self.position = 0;
                }
            },
            RepeatMode::All => {
                self.position = self.position + 1;
                if self.position as usize >= self.items.len() {
                    self.position = 0;
                }
            },
            RepeatMode::Off => {
                self.position = self.position + 1;
                if self.position as usize >= self.items.len() {
                    self.position = self.items.len() as i32 - 1;
                    return None;
                }
            },
        }
        self.current()
    }

    /// Skip forward in shuffle mode.
    fn skip_forward_shuffle(&mut self) -> (r: Option<&QueueItem>)
        requires
            old(self).wf(),
            old(self)@.items.len() > 0,
            shuffling(old(self)@),
        ensures
            final(self).wf(),
            !forward_reshuffles(old(self)@) ==> final(self)@ == forward_view(old(self)@),
            forward_reshuffles(old(self)@) ==> {
                let o = old(self)@;
                let f = final(self)@;
                &&& is_shuffle_order(f.order, o.items.len() as int, o.position)
                &&& f.shuffle_position == 0
                &&& f.position == f.order[0] as int
                &&& f.items == o.items
                &&& f.shuffle == o.shuffle
                &&& f.repeat == o.repeat
            },
            deref_item(r) == (if forward_gives_none(old(self)@) {
                None
            } else {
                current_of(final(self)@)
            }),
    {
        proof {
            lemma_wf_order_len(self@);
        }
        match self.repeat {
            RepeatMode::One => {
                if self.shuffle_position < 0 {
                    self.shuffle_position = 0;
                    self.position = self.shuffle_order[0] as i32;
                }
            },
            RepeatMode::All => {
                self.shuffle_position = self.shuffle_position + 1;
                if self.shuffle_position as usize >= self.shuffle_order.len() {
                    self.generate_shuffle_order();
                    self.shuffle_position = 0;
                }
                self.position = self.shuffle_order[self.shuffle_position as usize] as i32;
            },
            RepeatMode::Off => {
                self.shuffle_position = self.shuffle_position + 1;
                if self.shuffle_position as usize >= self.shuffle_order.len() {
                    self.shuffle_position = self.shuffle_order.len() as i32 - 1;
                    return None;
                }
                self.position = self.shuffle_order[self.shuffle_position as usize] as i32;
            },
        }
        self.current()
    }

    /// Go to previous track and return it.
    pub fn previous(&mut self) -> (r: Option<&QueueItem>)
        requires
            old(self).wf(),
        ensures
            final(self).wf(),
            final(self)@ == backward_view(old(self)@),
            deref_item(r) == (if backward_gives_none(old(self)@) {
                None
            } else {
                current_of(final(self)@)
            }),
    {
        if self.items.len() == 0 {
            return None;
        }
        if self.shuffle && self.shuffle_order.len() > 0 {
            return self.previous_shuffle();
        }
        match self.repeat {
            RepeatMode::One => {
                if self.position < 0 {
                    self.position = 0;
                }
            },
            RepeatMode::All => {
                self.position = self.position - 1;
                if self.position < 0 {
                    self.position = self.items.len() as i32 - 1;
                }
            },
            RepeatMode::Off => {
                self.position = self.position - 1;
                if self.position < 0 {
                    self.position = 0;
                    return None;
                }
            },
        }
        self.current()
    }

    /// Go to previous track in shuffle mode.
    fn previous_shuffle(&mut self) -> (r: Option<&QueueItem>)
        requires
            old(self).wf(),
            old(self)@.items.len() > 0,
            shuffling(old(self)@),
        ensures
            final(self).wf(),
            final(self)@ == backward_view(old(self)@),
            deref_item(r) == (if backward_gives_none(old(self)@) {
                None
            } else {
                current_of(final(self)@)
            }),
    {
        proof {
            lemma_wf_order_len(self@);
        }
        match self.repeat {
            RepeatMode::One => {
                if self.shuffle_position < 0 {
                    self.shuffle_position = 0;
                    self.position = self.shuffle_order[0] as i32;
                }
            },
            RepeatMode::All => {
                self.shuffle_position = self.shuffle_position - 1;
                if self.shuffle_position < 0 {
                    self.shuffle_position = self.shuffle_order.len() as i32 - 1;
                }
                self.position = self.shuffle_order[self.shuffle_position as usize] as i32;
            },
            RepeatMode::Off => {
                self.shuffle_position = self.shuffle_position - 1;
                if self.shuffle_position < 0 {
                    self.shuffle_position = 0;
                    return None;
                }
                self.position = self.shuffle_order[self.shuffle_position as usize] as i32;
            },
        }
        self.current()
    }

    /// Jump to a specific position.
    pub fn jump_to(&mut self, index: usize) -> (r: Option<&QueueItem>)
        requires
            old(self).wf(),
        ensures
            final(self).wf(),
            (index as int) < old(self)@.items.len() ==> {
                &&& final(self)@.position == index as int
                &&& final(self)@.shuffle_position == (if shuffling(old(self)@) {
                    match old(self)@.order.index_of_first(index) {
                        Some(k) => k,
                        None => old(self)@.shuffle_position,
                    }
                } else {
                    old(self)@.shuffle_position
                })
                &&& final(self)@.items == old(self)@.items
                &&& final(self)@.order == old(self)@.order
                &&& final(self)@.shuffle == old(self)@.shuffle
                &&& final(self)@.repeat == old(self)@.repeat
                &&& deref_item(r) == Some(old(self)@.items[index as int])
            },
            (index as int) >= old(self)@.items.len() ==> final(self)@ == old(self)@ && r is None,
    {
        proof {
            lemma_wf_order_len(self@);
        }
        if index < self.items.len() {
            self.position = index as i32;
            if self.shuffle && self.shuffle_order.len() > 0 {
                match find_index(&self.shuffle_order, index) {
                    Some(shuffle_pos) => {
                        self.shuffle_position = shuffle_pos as i32;
                    },
                    None => {},
                }
            }
            self.current()
        } else {
            None
        }
    }

    /// Set shuffle mode.
    ///
    /// Turning shuffle on draws a new order that keeps the current track first;
    /// turning it off drops the order.
    pub fn set_shuffle(&mut self, enabled: bool)
        requires
            old(self).wf(),
        ensures
            final(self).wf(),
            final(self)@.shuffle == enabled,
            final(self)@.items == old(self)@.items,
            final(self)@.position == old(self)@.position,
            final(self)@.repeat == old(self)@.repeat,
            enabled ==> {
                &&& is_shuffle_order(final(self)@.order, old(self)@.items.len() as int, old(self)@.position)
                &&& final(self)@.shuffle_position == (if old(self)@.position >= 0 && old(self)@.items.len() > 0 { 0int } else { -1int })
            },
            !enabled ==> final(self)@.order.len() == 0 && final(self)@.shuffle_position == -1,
    {
        self.shuffle = enabled;
        if enabled {
            self.generate_shuffle_order();
        } else {
            self.shuffle_order.clear();
            self.shuffle_position = -1;
        }
    }

    /// Generate a new shuffle order, keeping current track first if playing.
    fn generate_shuffle_order(&mut self)
        requires
            old(self).items@.len() <= MAX_QUEUE_LEN,
            -1 <= old(self).position < old(self).items@.len(),
            old(self).shuffle,
        ensures
            final(self).wf(),
            is_shuffle_order(final(self)@.order, old(self)@.items.len() as int, old(self)@.position),
            final(self)@.shuffle_position == (if old(self)@.position >= 0 && old(self)@.items.len() > 0 { 0int } else { -1int }),
            final(self)@.items == old(self)@.items,
            final(self)@.position == old(self)@.position,
            final(self)@.shuffle == old(self)@.shuffle,
            final(self)@.repeat == old(self)@.repeat,
    {
        let len = self.items.len();
        if len == 0 {
            self.shuffle_order.clear();
            self.shuffle_position = -1;
            return;
        }
        let mut indices: Vec<usize> = Vec::new();
        let mut i: usize = 0;
        while i < len
            invariant
                i <= len,
                indices@ == Seq::new(i as nat, |k: int| k as usize),
            decreases len - i,
        {
            indices.push(i);
            assert(indices@ =~= Seq::new((i + 1) as nat, |k: int| k as usize));
            i += 1;
        }
        let ghost range = indices@;
        let mut rng = thread_rng();
        shuffle_in_place(&mut indices, &mut rng);
        let ghost drawn = indices@;
        let indices = order_current_first(indices, self.position);
        proof {
            lemma_permutation_of_range(drawn, len as int);
            if self.position >= 0 {
                let cur = self.position as usize;
                assert(drawn.contains(cur));
                drawn.index_of_first_ensures(cur);
                let pos = drawn.index_of_first(cur)->Some_0;
                lemma_move_to_front_keeps_multiset(drawn, pos);
                assert(indices@ =~= drawn.remove(pos).insert(0, drawn[pos]));
                assert(indices@[0] == cur);
            } else {
                assert(indices@ == drawn);
            }
        }
        if self.position >= 0 {
            self.shuffle_position = 0;
        } else {
            self.shuffle_position = -1;
        }
        proof {
            lemma_permutation_of_range(indices@, len as int);
            if self.position >= 0 {
                assert(indices@.contains(self.position as usize));
            }
        }
        self.shuffle_order = indices;
    }

    /// Get shuffle mode.
    pub fn shuffle(&self) -> (r: bool)
        ensures
            r == self@.shuffle,
    {
        self.shuffle
    }

    /// Cycle repeat mode.
    pub fn cycle_repeat(&mut self)
        requires
            old(self).wf(),
        ensures
            final(self).wf(),
            final(self)@ == (QueueView { repeat: next_repeat(old(self)@.repeat), ..old(self)@ }),
    {
        self.repeat = match self.repeat {
            RepeatMode::Off => RepeatMode::All,
            RepeatMode::All => RepeatMode::One,
            RepeatMode::One => RepeatMode::Off,
        };
    }

    /// Set repeat mode.
    pub fn set_repeat(&mut self, mode: RepeatMode)
        requires
            old(self).wf(),
        ensures
            final(self).wf(),
            final(self)@ == (QueueView { repeat: mode, ..old(self)@ }),
    {
        self.repeat = mode;
    }

    /// Get repeat mode.
    pub fn repeat(&self) -> (r: RepeatMode)
        ensures
            r == self@.repeat,
    {
        self.repeat
    }

    /// Update metadata for an item.
    pub fn update_info(&mut self, index: usize, info: TrackInfo)
        requires
            old(self).wf(),
        ensures
            final(self).wf(),
            (index as int) < old(self)@.items.len() ==> final(self)@ == (QueueView {
                items: old(self)@.items.update(
                    index as int,
                    QueueItem { info: Some(info), ..old(self)@.items[index as int] },
                ),
                ..old(self)@
            }),
            (index as int) >= old(self)@.items.len() ==> final(self)@ == old(self)@,
    {
        if index < self.items.len() {
            let mut item = self.items.remove(index);
            item.info = Some(info);
            self.items.insert(index, item);
            assert(self.items@ =~= old(self)@.items.update(
                index as int,
                QueueItem { info: Some(info), ..old(self)@.items[index as int] },
            ));
        }
    }
}

}
