//! The laser range-finder: a trigger packet answered by a burst of eight
//! datagrams, each tagged by a trailing frame id, that are reassembled in id
//! order and cut into (radius, height) records.
use vstd::prelude::*;
use crate::error::ProtocolError;
use crate::link::{LinkError, Progress};
use crate::wire::{le_u32, read_u32_le};
use vstd::seq_lib::seq_to_set_is_finite;
use vstd::set::axiom_set_insert_len;

verus! {

/// Number of distinct frames that make a complete laser sample.
pub const LASER_FRAME_COUNT: usize = 8;

/// Deadline of each datagram receive.
pub const LASER_RECEIVE_TIMEOUT_MS: u64 = 200;

/// Bytes before the first record of a frame.
pub const LASER_FRAME_HEADER_LEN: usize = 4;

/// Bytes of one record: a radius and a height, each the bits of an `f32`.
pub const LASER_RECORD_LEN: usize = 8;

/// One record in this many surviving ones is kept.
pub const LASER_DECIMATION: usize = 11;

/// The bytes that ask the laser for one burst.
pub open spec fn laser_trigger_spec() -> Seq<u8> {
    seq![0xAAu8, 0x55u8, 0x55u8, 0xAAu8, 0x02u8, 0x00u8, 0x21u8, 0x01u8]
}

/// The trigger packet `AA 55 55 AA 02 00 21 01`.
pub fn laser_trigger() -> (r: Vec<u8>)
    ensures
        r@ == laser_trigger_spec(),
{
    let r = vec![0xAAu8, 0x55u8, 0x55u8, 0xAAu8, 0x02u8, 0x00u8, 0x21u8, 0x01u8];
    assert(r@ =~= laser_trigger_spec());
    r
}

/// One laser record, its two fields as the little-endian bits of `f32` values.
#[derive(Clone, Copy, Debug, PartialEq, Eq, Structural)]
pub struct LaserRecord {
    pub radius_bits: u32,
    pub height_bits: u32,
}

/// Whether the `f32` with these bits is below -70, the rejection floor.
/// Negative floats order by the magnitude bits: the patterns above that of
/// -70 (`C28C0000`) up to negative infinity (`FF800000`) are below it; the
/// NaN patterns past it compare false.
pub open spec fn radius_below_floor(bits: u32) -> bool {
    0xC28C_0000u32 < bits && bits <= 0xFF80_0000u32
}

/// Whether a record survives the rejection floor.
pub open spec fn survives(r: LaserRecord) -> bool {
    !radius_below_floor(r.radius_bits)
}

/// The records of one frame body (its id byte removed): after a 4-byte
/// header, one record per whole 8 bytes; a body shorter than the header has none.
pub open spec fn frame_records(body: Seq<u8>) -> Seq<LaserRecord> {
    if body.len() < LASER_FRAME_HEADER_LEN {
        Seq::empty()
    } else {
        Seq::new(
            ((body.len() - LASER_FRAME_HEADER_LEN) / LASER_RECORD_LEN as int) as nat,
            |i: int|
                LaserRecord {
                    radius_bits: le_u32(body, 4 + 8 * i) as u32,
                    height_bits: le_u32(body, 8 + 8 * i) as u32,
                },
        )
    }
}

/// The records of all frames, frame after frame.
pub open spec fn all_records(frames: Seq<(u8, Seq<u8>)>) -> Seq<LaserRecord>
    decreases frames.len(),
{
    if frames.len() == 0 {
        Seq::empty()
    } else {
        all_records(frames.drop_last()) + frame_records(frames.last().1)
    }
}

/// The predicate `survives`, as a value.
pub open spec fn survives_pred() -> spec_fn(LaserRecord) -> bool {
    |r: LaserRecord| survives(r)
}

/// The records that survive the rejection floor, in order.
pub open spec fn surviving(s: Seq<LaserRecord>) -> Seq<LaserRecord> {
    s.filter(survives_pred())
}

/// Every eleventh record: those at positions 10, 21, 32, ...
pub open spec fn decimate(s: Seq<LaserRecord>) -> Seq<LaserRecord> {
    Seq::new(s.len() / 11, |k: int| s[11 * k + 10])
}

/// The records that a laser sample reports.
pub open spec fn selected_records(frames: Seq<(u8, Seq<u8>)>) -> Seq<LaserRecord> {
    decimate(surviving(all_records(frames)))
}

/// Whether the frame ids of `s` strictly increase.
pub open spec fn ids_increasing(s: Seq<(u8, Seq<u8>)>) -> bool {
    forall|i: int, j: int| 0 <= i < j < s.len() ==> s[i].0 < s[j].0
}

/// Whether some frame of `s` has id `id`.
pub open spec fn has_id(s: Seq<(u8, Seq<u8>)>, id: u8) -> bool {
    exists|i: int| 0 <= i < s.len() && s[i].0 == id
}

/// `after` is `before` with the frame `body` stored under `id`: a frame with
/// that id is replaced, all others stay, and the ids still increase.
pub open spec fn stored(
    before: Seq<(u8, Seq<u8>)>,
    after: Seq<(u8, Seq<u8>)>,
    id: u8,
    body: Seq<u8>,
) -> bool {
    &&& ids_increasing(after)
    &&& after.len() == before.len() + (if has_id(before, id) {
        0int
    } else {
        1int
    })
    &&& forall|k: u8| #[trigger] has_id(after, k) <==> (k == id || has_id(before, k))
    &&& forall|j: int| 0 <= j < after.len() && after[j].0 == id ==> #[trigger] after[j].1 == body
    &&& forall|i: int, j: int|
        0 <= i < before.len() && 0 <= j < after.len() && before[i].0 == after[j].0 && after[j].0
            != id ==> #[trigger] before[i].1 == #[trigger] after[j].1
}

/// Whether the `f32` with bits `bits` is below the rejection floor.
pub fn radius_rejected(bits: u32) -> (r: bool)
    ensures
        r == radius_below_floor(bits),
{
    0xC28C_0000u32 < bits && bits <= 0xFF80_0000u32
}

proof fn lemma_step_div_11(n: int)
    requires
        n >= 0,
    ensures
        n % 11 == 10 ==> (n + 1) / 11 == n / 11 + 1 && 11 * (n / 11) + 10 == n,
        n % 11 != 10 ==> (n + 1) / 11 == n / 11,
{
    assert(n == 11 * (n / 11) + n % 11) by (nonlinear_arith)
        requires
            n >= 0,
    ;
    assert(0 <= n % 11 < 11);
    if n % 11 == 10 {
        assert((n + 1) == 11 * (n / 11 + 1));
        assert((11 * (n / 11 + 1)) / 11 == n / 11 + 1) by (nonlinear_arith);
    } else {
        assert(n + 1 == 11 * (n / 11) + (n % 11 + 1));
        assert((11 * (n / 11) + (n % 11 + 1)) / 11 == n / 11) by (nonlinear_arith)
            requires
                0 <= n % 11 + 1 < 11,
                n / 11 >= 0,
        ;
    }
}

proof fn lemma_decimate_push(t: Seq<LaserRecord>, x: LaserRecord)
    ensures
        decimate(t.push(x)) == (if t.len() % 11 == 10 {
            decimate(t).push(x)
        } else {
            decimate(t)
        }),
{
    let n = t.len() as int;
    lemma_step_div_11(n);
    if n % 11 == 10 {
        assert forall|k: int| 0 <= k < n / 11 implies #[trigger] decimate(t.push(x))[k] == decimate(
            t,
        )[k] by {
            assert(11 * k <= 11 * (n / 11 - 1)) by (nonlinear_arith)
                requires
                    k <= n / 11 - 1,
            ;
        }
        assert(decimate(t.push(x)) =~= decimate(t).push(x));
    } else {
        assert forall|k: int| 0 <= k < (n + 1) / 11 implies #[trigger] decimate(t.push(x))[k]
            == decimate(t)[k] by {
            assert(11 * k <= 11 * (n / 11 - 1)) by (nonlinear_arith)
                requires
                    k <= n / 11 - 1,
            ;
            assert(n == 11 * (n / 11) + n % 11) by (nonlinear_arith)
                requires
                    n >= 0,
            ;
        }
        assert(decimate(t.push(x)) =~= decimate(t));
    }
}

/// One reassembled frame.
pub struct LaserFrame {
    id: u8,
    body: Vec<u8>,
}

/// The frames of one laser burst, keyed by frame id, in increasing id order.
pub struct LaserFrames {
    frames: Vec<LaserFrame>,
}

impl LaserFrames {
    /// The frames as (id, body) pairs, in the order kept.
    pub closed spec fn view(&self) -> Seq<(u8, Seq<u8>)> {
        self.frames@.map_values(|f: LaserFrame| (f.id, f.body@))
    }

    /// The frames are keyed uniquely, in increasing id order.
    pub open spec fn wf(&self) -> bool {
        ids_increasing(self@)
    }

    /// No frames yet.
    pub fn new() -> (r: LaserFrames)
        ensures
            r@ == Seq::<(u8, Seq<u8>)>::empty(),
            r.wf(),
    {
        let r = LaserFrames { frames: Vec::new() };
        assert(r@ =~= Seq::<(u8, Seq<u8>)>::empty());
        r
    }

    /// Number of distinct frame ids collected.
    pub fn len(&self) -> (r: usize)
        ensures
            r == self@.len(),
    {
        self.frames.len()
    }

    /// Takes the outcome of one datagram receive. A timeout ends the sample
    /// with `Timeout`, another failed receive with `IoError`, an empty
    /// datagram with `MalformedFrame`. Otherwise the datagram's last byte is
    /// its frame id and the rest its body, stored under that id; the sample
    /// is complete once eight distinct ids are held.
    pub fn accept(&mut self, received: Result<Vec<u8>, LinkError>) -> (r: Progress<()>)
        requires
            old(self).wf(),
        ensures
            final(self).wf(),
            match received {
                Err(LinkError::TimedOut) => r == Progress::<()>::Failed(ProtocolError::Timeout)
                    && final(self)@ == old(self)@,
                Err(_) => r == Progress::<()>::Failed(ProtocolError::IoError) && final(self)@ == old(
                    self,
                )@,
                Ok(d) => if d@.len() == 0 {
                    r == Progress::<()>::Failed(ProtocolError::MalformedFrame) && final(self)@ == old(
                        self,
                    )@
                } else {
                    &&& stored(old(self)@, final(self)@, d@.last(), d@.drop_last())
                    &&& r == if final(self)@.len() >= LASER_FRAME_COUNT {
                        Progress::<()>::Done(())
                    } else {
                        Progress::<()>::Pending
                    }
                },
            },
    {
        match received {
            Err(LinkError::TimedOut) => Progress::Failed(ProtocolError::Timeout),
            Err(_) => Progress::Failed(ProtocolError::IoError),
            Ok(d) => {
                let mut body = d;
                match body.pop() {
                    None => Progress::Failed(ProtocolError::MalformedFrame),
                    Some(id) => {
                        self.store(id, body);
                        if self.frames.len() >= LASER_FRAME_COUNT {
                            Progress::Done(())
                        } else {
                            Progress::Pending
                        }
                    },
                }
            },
        }
    }

    /// The records that the sample reports: all records of the frames in id
    /// order, less those below the rejection floor, then one in eleven.
    pub fn select_records(&self) -> (r: Vec<LaserRecord>)
        ensures
            r@ == selected_records(self@),
    {
        let ghost frames = self@;
        let mut all: Vec<LaserRecord> = Vec::new();
        let mut f: usize = 0;
        while f < self.frames.len()
            invariant
                frames == self@,
                f <= self.frames@.len(),
                all@ == all_records(frames.take(f as int)),
            decreases self.frames@.len() - f,
        {
            let body = self.frames[f].body.as_slice();
            assert(body@ == frames[f as int].1);
            let ghost start = all@;
            if body.len() >= LASER_FRAME_HEADER_LEN {
                let len: usize = body.len();
                let n: usize = (len - LASER_FRAME_HEADER_LEN) / LASER_RECORD_LEN;
                let mut i: usize = 0;
                while i < n
                    invariant
                        f < frames.len(),
                        len == body@.len(),
                        body@ == frames[f as int].1,
                        body@.len() >= 4,
                        n == (body@.len() - 4) / 8,
                        i <= n,
                        all@ == start + frame_records(body@).take(i as int),
                    decreases n - i,
                {
                    assert(8 * i + 12 <= body@.len()) by (nonlinear_arith)
                        requires
                            i < n,
                            n == (body@.len() - 4) / 8,
                            body@.len() >= 4,
                    ;
                    let rec = LaserRecord {
                        radius_bits: read_u32_le(body, 4 + 8 * i),
                        height_bits: read_u32_le(body, 8 + 8 * i),
                    };
                    all.push(rec);
                    i = i + 1;
                    assert(all@ =~= start + frame_records(body@).take(i as int));
                }
                assert(frame_records(body@).take(n as int) =~= frame_records(body@));
            } else {
                assert(all@ =~= start + frame_records(body@));
            }
            assert(frames.take(f + 1).drop_last() =~= frames.take(f as int));
            f = f + 1;
        }
        assert(frames.take(f as int) =~= frames);
        let mut kept: Vec<LaserRecord> = Vec::new();
        let mut i: usize = 0;
        while i < all.len()
            invariant
                i <= all@.len(),
                kept@ == surviving(all@.take(i as int)),
            decreases all@.len() - i,
        {
            let rec = all[i];
            if !radius_rejected(rec.radius_bits) {
                kept.push(rec);
            }
            proof {
                assert(all@.take(i + 1) =~= all@.take(i as int).push(rec));
                all@.take(i as int).lemma_filter_push(rec, survives_pred());
            }
            i = i + 1;
        }
        assert(all@.take(i as int) =~= all@);
        let mut out: Vec<LaserRecord> = Vec::new();
        let mut j: usize = 0;
        while j < kept.len()
            invariant
                j <= kept@.len(),
                out@ == decimate(kept@.take(j as int)),
            decreases kept@.len() - j,
        {
            proof {
                assert(kept@.take(j + 1) =~= kept@.take(j as int).push(kept@[j as int]));
                lemma_decimate_push(kept@.take(j as int), kept@[j as int]);
            }
            if j % LASER_DECIMATION == 10 {
                out.push(kept[j]);
            }
            j = j + 1;
        }
        assert(kept@.take(j as int) =~= kept@);
        out
    }

    /// Stores `body` under `id`, replacing a frame of the same id.
    pub fn store(&mut self, id: u8, body: Vec<u8>)
        requires
            old(self).wf(),
        ensures
            final(self).wf(),
            stored(old(self)@, final(self)@, id, body@),
    {
        let ghost before = self@;
        let mut p: usize = 0;
        while p < self.frames.len() && self.frames[p].id < id
            invariant
                p <= self.frames@.len(),
                self@ == before,
                ids_increasing(before),
                forall|i: int| 0 <= i < p ==> #[trigger] before[i].0 < id,
            decreases self.frames@.len() - p,
        {
            assert(before[p as int].0 == self.frames@[p as int].id);
            p = p + 1;
        }
        let ghost bodyv = body@;
        if p < self.frames.len() && self.frames[p].id == id {
            self.frames[p] = LaserFrame { id, body };
            let ghost after = self@;
            assert(after =~= before.update(p as int, (id, bodyv)));
            assert(has_id(before, id)) by {
                assert(before[p as int].0 == self.frames@[p as int].id);
            }
            assert(forall|i: int| 0 <= i < after.len() ==> #[trigger] after[i].0 == before[i].0);
            assert forall|k: u8| #[trigger] has_id(after, k) <==> (k == id || has_id(before, k)) by {
                if has_id(before, k) {
                    let i = choose|i: int| 0 <= i < before.len() && before[i].0 == k;
                    assert(after[i].0 == k);
                }
                if k == id {
                    assert(after[p as int].0 == k);
                }
                if has_id(after, k) {
                    let j = choose|j: int| 0 <= j < after.len() && after[j].0 == k;
                    assert(before[j].0 == k);
                }
            }
            assert forall|j: int| 0 <= j < after.len() && after[j].0 == id implies #[trigger] after[j].1
                == bodyv by {
                if j != p {
                    assert(before[j].0 == before[p as int].0);
                }
            }
            assert forall|i: int, j: int|
                0 <= i < before.len() && 0 <= j < after.len() && before[i].0 == after[j].0
                    && after[j].0 != id implies #[trigger] before[i].1 == #[trigger] after[j].1 by {
                assert(j != p);
                assert(after[j] == before[j]);
                if i < j || j < i {
                    assert(before[i].0 != before[j].0);
                }
            }
        } else {
            proof {
                if p < self.frames@.len() {
                    assert(before[p as int].0 == self.frames@[p as int].id);
                }
            }
            self.frames.insert(p, LaserFrame { id, body });
            let ghost after = self@;
            assert(after =~= before.insert(p as int, (id, bodyv)));
            assert(!has_id(before, id)) by {
                if has_id(before, id) {
                    let i = choose|i: int| 0 <= i < before.len() && before[i].0 == id;
                    if i >= p {
                        assert(before[p as int].0 > id || before[p as int].0 == id);
                    }
                }
            }
            assert forall|k: u8| #[trigger] has_id(after, k) <==> (k == id || has_id(before, k)) by {
                if has_id(before, k) {
                    let i = choose|i: int| 0 <= i < before.len() && before[i].0 == k;
                    if i < p {
                        assert(after[i].0 == k);
                    } else {
                        assert(after[i + 1].0 == k);
                    }
                }
                if k == id {
                    assert(after[p as int].0 == k);
                }
                if has_id(after, k) {
                    let j = choose|j: int| 0 <= j < after.len() && after[j].0 == k;
                    if j < p {
                        assert(before[j].0 == k);
                    } else if j > p {
                        assert(before[j - 1].0 == k);
                    }
                }
            }
            assert forall|i: int, j: int| 0 <= i < j < after.len() implies after[i].0 < after[j].0 by {
                if j < p {
                } else if j == p {
                    assert(after[i] == before[i]);
                } else if i < p {
                    assert(after[j] == before[j - 1]);
                } else if i == p {
                    assert(after[j] == before[j - 1]);
                    assert(before[j - 1].0 >= before[p as int].0);
                } else {
                    assert(after[j] == before[j - 1]);
                    assert(after[i] == before[i - 1]);
                }
            }
            assert forall|j: int| 0 <= j < after.len() && after[j].0 == id implies #[trigger] after[j].1
                == bodyv by {
                if j < p {
                    assert(before[j].0 == id);
                } else if j > p {
                    assert(before[j - 1].0 == id);
                }
            }
            assert forall|i: int, j: int|
                0 <= i < before.len() && 0 <= j < after.len() && before[i].0 == after[j].0
                    && after[j].0 != id implies #[trigger] before[i].1 == #[trigger] after[j].1 by {
                assert(j != p);
                let jj = if j < p { j } else { j - 1 };
                assert(after[j] == before[jj]);
                if i < jj || jj < i {
                    assert(before[i].0 != before[jj].0);
                }
            }
        }
    }
}

/// Datagrams stored one after another, in any arrival order, keep one frame
/// per distinct frame id: after the datagrams with ids `ids`, the frames held
/// are as many as the distinct values of `ids`, and carry exactly those ids.
/// So eight distinct ids complete a sample, while with at most seven distinct
/// ids it never completes and the receive deadline ends it with `Timeout`.
pub proof fn lemma_frames_count_distinct_ids(
    states: Seq<Seq<(u8, Seq<u8>)>>,
    ids: Seq<u8>,
    bodies: Seq<Seq<u8>>,
)
    requires
        states.len() == ids.len() + 1,
        bodies.len() == ids.len(),
        states[0].len() == 0,
        forall|i: int|
            0 <= i < ids.len() ==> stored(
                #[trigger] states[i],
                states[i + 1],
                ids[i],
                bodies[i],
            ),
    ensures
        states.last().len() == ids.to_set().len(),
        forall|k: u8| has_id(states.last(), k) <==> ids.contains(k),
    decreases ids.len(),
{
    if ids.len() == 0 {
        assert(ids.to_set() =~= Set::<u8>::empty());
        assert forall|k: u8| has_id(states.last(), k) <==> ids.contains(k) by {
            if has_id(states.last(), k) {
                let i = choose|i: int| 0 <= i < states.last().len() && states.last()[i].0 == k;
            }
        }
    } else {
        let n = ids.len() - 1;
        let states0 = states.take(n + 1);
        let ids0 = ids.take(n);
        let bodies0 = bodies.take(n);
        assert forall|i: int| 0 <= i < ids0.len() implies stored(
            #[trigger] states0[i],
            states0[i + 1],
            ids0[i],
            bodies0[i],
        ) by {
            assert(stored(states[i], states[i + 1], ids[i], bodies[i]));
        }
        lemma_frames_count_distinct_ids(states0, ids0, bodies0);
        assert(states0.last() == states[n]);
        assert(stored(states[n], states[n + 1], ids[n], bodies[n]));
        assert(ids =~= ids0.push(ids[n]));
        ids0.lemma_push_to_set_commute(ids[n]);
        seq_to_set_is_finite(ids0);
        axiom_set_insert_len(ids0.to_set(), ids[n]);
        assert(has_id(states[n], ids[n]) <==> ids0.to_set().contains(ids[n]));
        assert forall|k: u8| has_id(states.last(), k) <==> ids.contains(k) by {
            assert(has_id(states[n + 1], k) <==> (k == ids[n] || has_id(states[n], k)));
            if ids.contains(k) {
                let j = choose|j: int| 0 <= j < ids.len() && ids[j] == k;
                if j < n {
                    assert(ids0[j] == k);
                }
            }
            if ids0.contains(k) {
                let j = choose|j: int| 0 <= j < ids0.len() && ids0[j] == k;
                assert(ids[j] == k);
            }
        }
    }
}

/// A sample reports one record for each eleven that survive the rejection
/// floor: it is non-empty exactly when at least eleven records survive.
pub proof fn lemma_selected_count(frames: Seq<(u8, Seq<u8>)>)
    ensures
        selected_records(frames).len() == surviving(all_records(frames)).len() / 11,
        selected_records(frames).len() > 0 <==> surviving(all_records(frames)).len() >= 11,
{
}

} // verus!
