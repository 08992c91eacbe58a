//! The safe cursor: a two-state machine in front of the engine's raw cursor.
//!
//! The engine's raw cursor must not be stepped before it has been positioned.
//! The safe cursor therefore keeps track of whether a position was ever asked
//! for, and decides, for every request, which raw operation the engine is to
//! perform. The caller performs that operation and reports the raw cursor's
//! validity flag with the next request.
use vstd::prelude::*;
use crate::bin::Bin;
use crate::error::Error;
use crate::resource::OwnedResource;

verus! {

/// Whether a cursor has been positioned since it was created.
#[derive(Clone, Copy, Debug, PartialEq, Eq, Structural)]
pub enum Positioning {
    /// No position was asked for yet: the cursor shows no entry.
    Unseeked,
    /// A position was asked for; the raw cursor says whether an entry is there.
    Seeked,
}

/// The operation the engine's raw cursor is to perform.
#[derive(Clone, Copy, Debug, PartialEq, Eq)]
pub enum RawMove<'a> {
    /// Leave the raw cursor where it is.
    Stay,
    /// Go to the first entry of the keyspace.
    SeekToFirst,
    /// Go to the last entry of the keyspace.
    SeekToLast,
    /// Advance by one entry.
    Next,
    /// Go back by one entry.
    Prev,
    /// Go to the entry with this key, or else to the one that follows it.
    Seek(&'a [u8]),
    /// Go to the entry with this key, or else to the one that precedes it.
    SeekForPrev(&'a [u8]),
}

/// A raw operation as plain values.
pub enum RawMoveView {
    Stay,
    SeekToFirst,
    SeekToLast,
    Next,
    Prev,
    Seek(Seq<u8>),
    SeekForPrev(Seq<u8>),
}

impl<'a> View for RawMove<'a> {
    type V = RawMoveView;

    open spec fn view(&self) -> RawMoveView {
        match self {
            RawMove::Stay => RawMoveView::Stay,
            RawMove::SeekToFirst => RawMoveView::SeekToFirst,
            RawMove::SeekToLast => RawMoveView::SeekToLast,
            RawMove::Next => RawMoveView::Next,
            RawMove::Prev => RawMoveView::Prev,
            RawMove::Seek(key) => RawMoveView::Seek(key@),
            RawMove::SeekForPrev(key) => RawMoveView::SeekForPrev(key@),
        }
    }
}

impl RawMoveView {
    /// Whether this operation moves the raw cursor relative to where it is.
    pub open spec fn is_step(self) -> bool {
        self is Next || self is Prev
    }

    /// Whether this operation puts the raw cursor at a place that does not
    /// depend on where it was.
    pub open spec fn is_positioning(self) -> bool {
        self is SeekToFirst || self is SeekToLast || self is Seek || self is SeekForPrev
    }
}

/// A positioning request without a key.
#[derive(Clone, Copy, Debug, PartialEq, Eq, Structural)]
pub enum SeekAtom {
    First,
    Last,
    Next,
    Prev,
}

/// The request to go to a key, or else to the entry that follows it.
#[derive(Debug, PartialEq, Eq)]
pub struct SeekNext(pub Bin);

/// The request to go to a key, or else to the entry that precedes it.
#[derive(Debug, PartialEq, Eq)]
pub struct SeekPrev(pub Bin);

/// A key to continue from, in its byte form.
#[derive(Debug, PartialEq, Eq)]
pub struct SeekNextBin(pub Bin);

/// A request to move a cursor.
#[derive(Debug, PartialEq, Eq)]
pub enum Seek {
    Atom(SeekAtom),
    Next(SeekNext),
    Prev(SeekPrev),
}

/// A request to move a cursor, as plain values.
pub enum SeekView {
    First,
    Last,
    Next,
    Prev,
    ExactOrNext(Seq<u8>),
    ExactOrPrev(Seq<u8>),
}

impl View for Seek {
    type V = SeekView;

    open spec fn view(&self) -> SeekView {
        match self {
            Seek::Atom(SeekAtom::First) => SeekView::First,
            Seek::Atom(SeekAtom::Last) => SeekView::Last,
            Seek::Atom(SeekAtom::Next) => SeekView::Next,
            Seek::Atom(SeekAtom::Prev) => SeekView::Prev,
            Seek::Next(next) => SeekView::ExactOrNext(next.0@),
            Seek::Prev(prev) => SeekView::ExactOrPrev(prev.0@),
        }
    }
}

/// Where a step forward leads, and what it asks of the raw cursor. A cursor
/// that was never positioned goes to the first entry; a positioned one advances
/// if it is on an entry, and stays where it is once it has run out.
pub open spec fn step_forward(from: Positioning, raw_valid: bool) -> (Positioning, RawMoveView) {
    match from {
        Positioning::Unseeked => (Positioning::Seeked, RawMoveView::SeekToFirst),
        Positioning::Seeked => if raw_valid {
            (Positioning::Seeked, RawMoveView::Next)
        } else {
            (Positioning::Seeked, RawMoveView::Stay)
        },
    }
}

/// Where a step backward leads, and what it asks of the raw cursor. A cursor
/// that was never positioned goes to the last entry; a positioned one goes back
/// if it is on an entry, and stays where it is once it has run out.
pub open spec fn step_backward(from: Positioning, raw_valid: bool) -> (Positioning, RawMoveView) {
    match from {
        Positioning::Unseeked => (Positioning::Seeked, RawMoveView::SeekToLast),
        Positioning::Seeked => if raw_valid {
            (Positioning::Seeked, RawMoveView::Prev)
        } else {
            (Positioning::Seeked, RawMoveView::Stay)
        },
    }
}

/// Where a request leads, and what it asks of the raw cursor. `raw_valid` is
/// the raw cursor's validity flag when the request is made.
pub open spec fn respond(from: Positioning, request: SeekView, raw_valid: bool) -> (
    Positioning,
    RawMoveView,
) {
    match request {
        SeekView::First => (Positioning::Seeked, RawMoveView::SeekToFirst),
        SeekView::Last => (Positioning::Seeked, RawMoveView::SeekToLast),
        SeekView::Next => step_forward(from, raw_valid),
        SeekView::Prev => step_backward(from, raw_valid),
        SeekView::ExactOrNext(key) => (Positioning::Seeked, RawMoveView::Seek(key)),
        SeekView::ExactOrPrev(key) => (Positioning::Seeked, RawMoveView::SeekForPrev(key)),
    }
}

/// Whether the cursor shows an entry: it was positioned, and the raw cursor is
/// on one.
pub open spec fn shows_entry(at: Positioning, raw_valid: bool) -> bool {
    at == Positioning::Seeked && raw_valid
}

/// The positioning state of one cursor.
#[derive(Debug)]
pub struct SafeIter {
    state: Positioning,
}

impl SafeIter {
    /// The state this cursor is in.
    pub closed spec fn positioning(&self) -> Positioning {
        self.state
    }

    /// A new cursor, not positioned, together with the operation that readies
    /// the raw cursor behind it.
    pub fn new_unseeked() -> (created: (SafeIter, RawMove<'static>))
        ensures
            created.0.positioning() == Positioning::Unseeked,
            created.1 == RawMove::SeekToFirst,
    {
        (SafeIter { state: Positioning::Unseeked }, RawMove::SeekToFirst)
    }

    /// Tells which state this cursor is in.
    pub fn state(&self) -> (at: Positioning)
        ensures
            at == self.positioning(),
    {
        self.state
    }

    /// Steps forward. `raw_valid` is the raw cursor's validity flag before the
    /// step. The raw cursor is advanced only if this cursor was positioned and
    /// the raw cursor is on an entry.
    pub fn next(&mut self, raw_valid: bool) -> (mv: RawMove<'static>)
        ensures
            (final(self).positioning(), mv@) == step_forward(old(self).positioning(), raw_valid),
    {
        match self.state {
            Positioning::Unseeked => {
                self.state = Positioning::Seeked;
                RawMove::SeekToFirst
            },
            Positioning::Seeked => {
                if raw_valid {
                    RawMove::Next
                } else {
                    RawMove::Stay
                }
            },
        }
    }

    /// Steps backward. `raw_valid` is the raw cursor's validity flag before the
    /// step. The raw cursor is moved back only if this cursor was positioned
    /// and the raw cursor is on an entry.
    pub fn prev(&mut self, raw_valid: bool) -> (mv: RawMove<'static>)
        ensures
            (final(self).positioning(), mv@) == step_backward(old(self).positioning(), raw_valid),
    {
        match self.state {
            Positioning::Unseeked => {
                self.state = Positioning::Seeked;
                RawMove::SeekToLast
            },
            Positioning::Seeked => {
                if raw_valid {
                    RawMove::Prev
                } else {
                    RawMove::Stay
                }
            },
        }
    }

    /// The validity of the cursor: that of the raw cursor, whatever the state.
    pub fn valid(&self, raw_valid: bool) -> (v: bool)
        ensures
            v == raw_valid,
    {
        raw_valid
    }

    /// The current key: the raw cursor's, if this cursor shows an entry.
    pub fn key<'a>(&self, raw_valid: bool, raw_key: Option<&'a [u8]>) -> (k: Option<&'a [u8]>)
        ensures
            k == if shows_entry(self.positioning(), raw_valid) {
                raw_key
            } else {
                None
            },
    {
        if self.is_seeked() && raw_valid {
            raw_key
        } else {
            None
        }
    }

    /// The current value: the raw cursor's, if this cursor shows an entry.
    pub fn value<'a>(&self, raw_valid: bool, raw_value: Option<&'a [u8]>) -> (v: Option<&'a [u8]>)
        ensures
            v == if shows_entry(self.positioning(), raw_valid) {
                raw_value
            } else {
                None
            },
    {
        if self.is_seeked() && raw_valid {
            raw_value
        } else {
            None
        }
    }

    /// The current key and value: the raw cursor's, if this cursor shows an
    /// entry. The raw cursor has either both or neither.
    pub fn key_value<'a>(
        &self,
        raw_valid: bool,
        raw_key: Option<&'a [u8]>,
        raw_value: Option<&'a [u8]>,
    ) -> (kv: Option<(&'a [u8], &'a [u8])>)
        requires
            raw_key.is_some() == raw_value.is_some(),
        ensures
            kv == if shows_entry(self.positioning(), raw_valid) && raw_key.is_some() {
                Some((raw_key.unwrap(), raw_value.unwrap()))
            } else {
                None
            },
    {
        if self.is_seeked() && raw_valid {
            match (raw_key, raw_value) {
                (Some(k), Some(v)) => Some((k, v)),
                _ => None,
            }
        } else {
            None
        }
    }

    /// Positions the cursor at `key`, or else at the entry that follows it. The
    /// key is handed to the raw cursor as it is.
    pub fn seek<'a>(&mut self, key: &'a [u8]) -> (mv: RawMove<'a>)
        ensures
            final(self).positioning() == Positioning::Seeked,
            mv == RawMove::Seek(key),
    {
        self.state = Positioning::Seeked;
        RawMove::Seek(key)
    }

    /// Positions the cursor at `key`, or else at the entry that precedes it.
    /// The key is handed to the raw cursor as it is.
    pub fn seek_for_prev<'a>(&mut self, key: &'a [u8]) -> (mv: RawMove<'a>)
        ensures
            final(self).positioning() == Positioning::Seeked,
            mv == RawMove::SeekForPrev(key),
    {
        self.state = Positioning::Seeked;
        RawMove::SeekForPrev(key)
    }

    /// Positions the cursor at the first entry.
    pub fn seek_to_first(&mut self) -> (mv: RawMove<'static>)
        ensures
            final(self).positioning() == Positioning::Seeked,
            mv == RawMove::SeekToFirst,
    {
        self.state = Positioning::Seeked;
        RawMove::SeekToFirst
    }

    /// Positions the cursor at the last entry.
    pub fn seek_to_last(&mut self) -> (mv: RawMove<'static>)
        ensures
            final(self).positioning() == Positioning::Seeked,
            mv == RawMove::SeekToLast,
    {
        self.state = Positioning::Seeked;
        RawMove::SeekToLast
    }

    fn is_seeked(&self) -> (seeked: bool)
        ensures
            seeked == (self.positioning() == Positioning::Seeked),
    {
        match self.state {
            Positioning::Seeked => true,
            Positioning::Unseeked => false,
        }
    }
}

/// Carries out one request on a cursor: decides where the request leads and
/// which operation the raw cursor is to perform for it. `raw_valid` is the raw
/// cursor's validity flag when the request is made.
pub fn iter_seek<'a>(it: &mut SafeIter, seek: &'a Seek, raw_valid: bool) -> (mv: RawMove<'a>)
    ensures
        (final(it).positioning(), mv@) == respond(old(it).positioning(), seek@, raw_valid),
{
    match seek {
        Seek::Atom(SeekAtom::Next) => it.next(raw_valid),
        Seek::Atom(SeekAtom::Prev) => it.prev(raw_valid),
        Seek::Atom(SeekAtom::First) => it.seek_to_first(),
        Seek::Atom(SeekAtom::Last) => it.seek_to_last(),
        Seek::Next(next) => it.seek(next.0.as_bytes()),
        Seek::Prev(prev) => it.seek_for_prev(prev.0.as_bytes()),
    }
}

/// The state of a cursor that was created and then sent `requests`, each with
/// the validity flag that the raw cursor reported when it was made.
pub open spec fn state_after(requests: Seq<(SeekView, bool)>) -> Positioning
    decreases requests.len(),
{
    if requests.len() == 0 {
        Positioning::Unseeked
    } else {
        respond(state_after(requests.drop_last()), requests.last().0, requests.last().1).0
    }
}

/// The raw operation that the request at `index` leads to, on a cursor that was
/// created and then sent `requests`.
pub open spec fn move_at(requests: Seq<(SeekView, bool)>, index: int) -> RawMoveView
    recommends
        0 <= index < requests.len(),
{
    respond(state_after(requests.take(index)), requests[index].0, requests[index].1).1
}

/// A step on a cursor that was never positioned is a seek to the end it steps
/// away from: forward is a seek to the first entry, backward a seek to the last,
/// whatever the raw cursor reports.
pub proof fn lemma_first_step_is_a_seek(raw_valid: bool)
    ensures
        respond(Positioning::Unseeked, SeekView::Next, raw_valid) == respond(
            Positioning::Unseeked,
            SeekView::First,
            raw_valid,
        ),
        respond(Positioning::Unseeked, SeekView::Prev, raw_valid) == respond(
            Positioning::Unseeked,
            SeekView::Last,
            raw_valid,
        ),
{
}

/// A cursor that was never positioned shows no entry, whatever the raw cursor
/// reports.
pub proof fn lemma_unseeked_shows_nothing(raw_valid: bool)
    ensures
        !shows_entry(state_after(Seq::empty()), raw_valid),
        !shows_entry(Positioning::Unseeked, raw_valid),
{
}

/// Every request leaves the cursor positioned.
pub proof fn lemma_requests_position(from: Positioning, request: SeekView, raw_valid: bool)
    ensures
        respond(from, request, raw_valid).0 == Positioning::Seeked,
{
}

/// The raw cursor is never stepped before it was positioned: whenever a request
/// leads to a raw step, the raw cursor reported an entry, and an earlier request
/// led to a positioning operation.
pub proof fn lemma_steps_follow_positioning(requests: Seq<(SeekView, bool)>, index: int)
    requires
        0 <= index < requests.len(),
        move_at(requests, index).is_step(),
    ensures
        requests[index].1,
        exists|earlier: int|
            0 <= earlier < index && (#[trigger] move_at(requests, earlier)).is_positioning(),
{
    let before = requests.take(index);
    assert(state_after(before) == Positioning::Seeked);
    lemma_seeked_was_positioned(before);
    let earlier = choose|earlier: int|
        0 <= earlier < before.len() && (#[trigger] move_at(before, earlier)).is_positioning();
    assert(before.take(earlier) =~= requests.take(earlier));
    assert(move_at(requests, earlier) == move_at(before, earlier));
}

/// A cursor is positioned only after a request that led to a positioning
/// operation.
proof fn lemma_seeked_was_positioned(requests: Seq<(SeekView, bool)>)
    requires
        state_after(requests) == Positioning::Seeked,
    ensures
        exists|earlier: int|
            0 <= earlier < requests.len() && (#[trigger] move_at(requests, earlier)).is_positioning(),
    decreases requests.len(),
{
    let shorter = requests.drop_last();
    let last = requests.len() - 1;
    assert(requests.take(last) =~= shorter);
    if state_after(shorter) == Positioning::Seeked {
        lemma_seeked_was_positioned(shorter);
        let earlier = choose|earlier: int|
            0 <= earlier < shorter.len() && (#[trigger] move_at(shorter, earlier)).is_positioning();
        assert(shorter.take(earlier) =~= requests.take(earlier));
        assert(move_at(requests, earlier) == move_at(shorter, earlier));
    } else {
        assert(move_at(requests, last).is_positioning());
    }
}

/// A cursor together with the handle it was made from: the cursor is the
/// object that borrows, the handle its parent.
pub type OwnedResourceIter<T, I> = OwnedResource<T, I>;

/// One operation of a committed write batch, as the write-ahead log replays it.
#[derive(Debug, PartialEq, Eq)]
pub enum WalRow {
    /// A value was stored under a key.
    Put { key: Box<[u8]>, value: Box<[u8]> },
    /// A key was removed.
    Delete { key: Box<[u8]> },
}

/// A replayed operation as plain bytes.
pub enum WalRowView {
    Put { key: Seq<u8>, value: Seq<u8> },
    Delete { key: Seq<u8> },
}

impl View for WalRow {
    type V = WalRowView;

    open spec fn view(&self) -> WalRowView {
        match self {
            WalRow::Put { key, value } => WalRowView::Put { key: key@, value: value@ },
            WalRow::Delete { key } => WalRowView::Delete { key: key@ },
        }
    }
}

/// Collects the operations of one write batch in the order in which the engine
/// replays them.
#[derive(Debug)]
pub struct WalBatchList {
    items: Vec<WalRow>,
}

impl View for WalBatchList {
    type V = Seq<WalRowView>;

    closed spec fn view(&self) -> Seq<WalRowView> {
        Seq::new(self.items@.len(), |i: int| self.items@[i]@)
    }
}

impl WalBatchList {
    /// A list with no operation in it.
    pub fn new() -> (list: WalBatchList)
        ensures
            list@ == Seq::<WalRowView>::empty(),
    {
        let list = WalBatchList { items: Vec::new() };
        assert(list@ =~= Seq::<WalRowView>::empty());
        list
    }

    /// Records that `value` was stored under `key`.
    pub fn put(&mut self, key: Box<[u8]>, value: Box<[u8]>)
        ensures
            final(self)@ == old(self)@.push(WalRowView::Put { key: key@, value: value@ }),
    {
        self.items.push(WalRow::Put { key, value });
        assert(self@ =~= old(self)@.push(WalRowView::Put { key: key@, value: value@ }));
    }

    /// Records that `key` was removed.
    pub fn delete(&mut self, key: Box<[u8]>)
        ensures
            final(self)@ == old(self)@.push(WalRowView::Delete { key: key@ }),
    {
        self.items.push(WalRow::Delete { key });
        assert(self@ =~= old(self)@.push(WalRowView::Delete { key: key@ }));
    }

    /// The recorded operations, first recorded first.
    pub fn into_items(self) -> (items: Vec<WalRow>)
        ensures
            items@.len() == self@.len(),
            forall|i: int| 0 <= i < items@.len() ==> (#[trigger] items@[i])@ == self@[i],
    {
        self.items
    }
}

/// What a step of a replay cursor comes to: whether the raw cursor is to be
/// advanced, and whether the cursor has run out afterwards. `exhausted` tells
/// whether it had run out before, `raw_valid` what the raw cursor reports.
pub open spec fn replay_step(exhausted: bool, raw_valid: bool) -> (bool, bool) {
    let advance = !exhausted && raw_valid;
    (advance, !advance)
}

/// A replay cursor that has run out stays so: it is never advanced again,
/// whatever the raw cursor reports.
pub proof fn lemma_replay_ends_once(raw_valid: bool)
    ensures
        replay_step(true, raw_valid) == (false, true),
{
}

/// The state of a replay cursor over the write-ahead log. Such a cursor only
/// moves forward, and once it has run out it stays so.
#[derive(Debug)]
pub struct WalIterator {
    exhausted: bool,
}

impl WalIterator {
    /// Whether the cursor has run out.
    pub closed spec fn is_exhausted(&self) -> bool {
        self.exhausted
    }

    /// The state of a new replay cursor. `created` is what the engine answered
    /// when asked for a raw cursor from the starting sequence number: the raw
    /// cursor, which is handed on beside the state, or its account of the
    /// failure.
    pub fn new<W>(created: Result<W, String>) -> (result: Result<(WalIterator, W), Error>)
        ensures
            created matches Ok(raw) ==> (result matches Ok((cursor, handed))
                && !cursor.is_exhausted() && handed == raw),
            created matches Err(detail) ==> (result matches Err(e) && e
                == Error::WalIteratorCreationError(detail)),
    {
        match created {
            Ok(raw) => Ok((WalIterator { exhausted: false }, raw)),
            Err(detail) => Err(Error::WalIteratorCreationError(detail)),
        }
    }

    /// Decides whether the raw cursor is to be advanced: only if this cursor
    /// has not run out and the raw cursor reports that it is valid. Where it is
    /// not to be advanced, the cursor has run out.
    pub fn next(&mut self, raw_valid: bool) -> (advance: bool)
        ensures
            (advance, final(self).is_exhausted()) == replay_step(
                old(self).is_exhausted(),
                raw_valid,
            ),
    {
        if self.exhausted || !raw_valid {
            self.exhausted = true;
            false
        } else {
            true
        }
    }

    /// Takes what the raw cursor yielded after it was advanced: the sequence
    /// number of a write batch with the operations collected from it, or
    /// nothing. Hands out the batch as rows in their order within the batch;
    /// where there is none, the cursor has run out.
    pub fn fetched(&mut self, unit: Option<(u64, WalBatchList)>) -> (rows: Option<
        (u64, Vec<WalRow>),
    >)
        ensures
            unit is None ==> rows is None && final(self).is_exhausted(),
            unit matches Some((sequence_number, list)) ==> (rows matches Some((number, items))
                && number == sequence_number && items@.len() == list@.len() && forall|i: int|
                0 <= i < items@.len() ==> (#[trigger] items@[i])@ == list@[i]),
            unit is Some ==> final(self).is_exhausted() == old(self).is_exhausted(),
    {
        match unit {
            Some((sequence_number, list)) => Some((sequence_number, list.into_items())),
            None => {
                self.exhausted = true;
                None
            },
        }
    }
}

} // verus!
