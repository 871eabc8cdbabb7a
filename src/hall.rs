//! The hall sensor array: a fixed trigger packet, a 44-byte reply holding
//! nine little-endian `i32` samples after a 4-byte header.
use vstd::prelude::*;
use crate::error::ProtocolError;
use crate::link::{LinkError, Progress};
use crate::wire::{
    i32_bits, le_bytes, le_u32, lemma_le_bytes_read, lemma_signed_unsigned, push_u32_le,
    read_i32_le, signed_of, unsigned_of,
};

verus! {

/// Length of a complete hall reply.
pub const HALL_FRAME_LEN: usize = 44;

/// Offset of the first sample in a hall reply.
pub const HALL_HEADER_LEN: usize = 4;

/// Number of samples in one hall reply.
pub const HALL_CHANNELS: usize = 9;

/// Deadline of each receive while a hall reply is being collected.
pub const HALL_RECEIVE_TIMEOUT_MS: u64 = 2000;

/// One hall measurement: nine signed samples.
pub type HallSample = [i32; 9];

/// The bytes that ask the hall array for one sample.
pub open spec fn hall_trigger_spec() -> Seq<u8> {
    seq![0xFFu8, 0xEEu8, 0xAAu8, 0xEFu8, 0xFEu8]
}

/// Sample `k` of a hall reply `b`.
pub open spec fn hall_value(b: Seq<u8>, k: int) -> int {
    signed_of(le_u32(b, HALL_HEADER_LEN + 4 * k))
}

/// The samples of a hall reply, when it is long enough.
pub open spec fn hall_decode_spec(b: Seq<u8>) -> Option<Seq<i32>> {
    if b.len() < HALL_FRAME_LEN {
        None
    } else {
        Some(Seq::new(9, |k: int| hall_value(b, k) as i32))
    }
}

/// Byte `j` of the sample block that carries `s`.
pub open spec fn hall_sample_byte(s: Seq<i32>, j: int) -> u8 {
    le_bytes(unsigned_of(s[j / 4] as int) as u32)[j % 4]
}

/// The 44-byte frame that carries `s`: a zero header, the nine samples and
/// four zero bytes that complete the frame.
pub open spec fn hall_frame_spec(s: Seq<i32>) -> Seq<u8> {
    seq![0u8, 0u8, 0u8, 0u8] + Seq::new(36, |j: int| hall_sample_byte(s, j)) + seq![
        0u8,
        0u8,
        0u8,
        0u8,
    ]
}

/// The trigger packet `FF EE AA EF FE`.
pub fn hall_trigger() -> (r: Vec<u8>)
    ensures
        r@ == hall_trigger_spec(),
{
    let r = vec![0xFFu8, 0xEEu8, 0xAAu8, 0xEFu8, 0xFEu8];
    assert(r@ =~= hall_trigger_spec());
    r
}

/// Decodes a hall reply: `None` when it is shorter than 44 bytes, else its
/// nine samples; bytes past the 44th are ignored.
pub fn hall_parse_data(received: &[u8]) -> (r: Option<HallSample>)
    ensures
        match hall_decode_spec(received@) {
            None => r.is_none(),
            Some(s) => r.is_some() && r.unwrap()@ == s,
        },
{
    if received.len() < HALL_FRAME_LEN {
        return None;
    }
    let mut result: HallSample = [0i32; 9];
    let mut i: usize = 0;
    while i < HALL_CHANNELS
        invariant
            received@.len() >= HALL_FRAME_LEN,
            i <= 9,
            result@.len() == 9,
            forall|k: int| 0 <= k < i ==> result@[k] == hall_value(received@, k),
        decreases 9 - i,
    {
        let v = read_i32_le(received, HALL_HEADER_LEN + 4 * i);
        result[i] = v;
        i = i + 1;
    }
    assert(result@ =~= Seq::new(9, |k: int| hall_value(received@, k) as i32));
    Some(result)
}

/// Encodes nine samples as a 44-byte hall reply with zero header and tail.
pub fn hall_encode_frame(samples: &HallSample) -> (r: Vec<u8>)
    ensures
        r@ == hall_frame_spec(samples@),
        r@.len() == HALL_FRAME_LEN,
{
    let mut out: Vec<u8> = vec![0u8, 0u8, 0u8, 0u8];
    let mut i: usize = 0;
    while i < 9
        invariant
            i <= 9,
            out@.len() == 4 + 4 * i,
            out@.subrange(0, 4) == seq![0u8, 0u8, 0u8, 0u8],
            forall|j: int| 0 <= j < 4 * i ==> #[trigger] out@[4 + j] == hall_sample_byte(samples@, j),
        decreases 9 - i,
    {
        let ghost before = out@;
        let bits = i32_bits(samples[i]);
        push_u32_le(&mut out, bits);
        assert forall|j: int| 0 <= j < 4 * (i + 1) implies #[trigger] out@[4 + j] == hall_sample_byte(
            samples@,
            j,
        ) by {
            if j >= 4 * i {
                assert(j / 4 == i as int);
                assert(j % 4 == j - 4 * i);
            } else {
                assert(out@[4 + j] == before[4 + j]);
            }
        }
        assert(out@.subrange(0, 4) =~= before.subrange(0, 4));
        i = i + 1;
    }
    let mut t: usize = 0;
    while t < 4
        invariant
            t <= 4,
            out@.len() == 40 + t,
            out@.subrange(0, 4) == seq![0u8, 0u8, 0u8, 0u8],
            forall|j: int| 0 <= j < 36 ==> #[trigger] out@[4 + j] == hall_sample_byte(samples@, j),
            forall|j: int| 40 <= j < 40 + t ==> #[trigger] out@[j] == 0u8,
        decreases 4 - t,
    {
        let ghost before = out@;
        out.push(0u8);
        assert(out@.subrange(0, 4) =~= before.subrange(0, 4));
        assert(forall|j: int| 0 <= j < 36 ==> #[trigger] out@[4 + j] == before[4 + j]);
        t = t + 1;
    }
    let ghost spec_frame = hall_frame_spec(samples@);
    assert forall|x: int| 0 <= x < 44 implies #[trigger] out@[x] == spec_frame[x] by {
        if x < 4 {
            assert(out@[x] == out@.subrange(0, 4)[x]);
        } else if x < 40 {
            assert(out@[4 + (x - 4)] == hall_sample_byte(samples@, x - 4));
        }
    }
    assert(out@ =~= spec_frame);
    out
}

/// A hall reply being collected: the bytes received so far, at most 44.
pub struct HallReply {
    buf: Vec<u8>,
}

impl HallReply {
    /// The bytes collected so far.
    pub closed spec fn view(&self) -> Seq<u8> {
        self.buf@
    }

    /// Starts a reply with no bytes.
    pub fn new() -> (r: HallReply)
        ensures
            r@ == Seq::<u8>::empty(),
    {
        HallReply { buf: Vec::new() }
    }

    /// Takes the outcome of one receive. Chunks are concatenated in arrival
    /// order; once 44 bytes are there the reply is decoded. A failed receive
    /// ends the request with `Timeout`.
    pub fn accept(&mut self, received: Result<Vec<u8>, LinkError>) -> (r: Progress<HallSample>)
        requires
            old(self)@.len() < HALL_FRAME_LEN,
        ensures
            match received {
                Err(_) => r == Progress::<HallSample>::Failed(ProtocolError::Timeout) && final(self)@
                    == old(self)@,
                Ok(chunk) => {
                    let all = old(self)@ + chunk@;
                    if all.len() >= HALL_FRAME_LEN {
                        final(self)@ == all.take(HALL_FRAME_LEN as int) && match r {
                            Progress::Done(s) => Some(s@) == hall_decode_spec(all),
                            _ => false,
                        }
                    } else {
                        r == Progress::<HallSample>::Pending && final(self)@ == all
                    }
                },
            },
    {
        match received {
            Err(_) => Progress::Failed(ProtocolError::Timeout),
            Ok(chunk) => {
                let ghost all = self.buf@ + chunk@;
                let mut i: usize = 0;
                while i < chunk.len() && self.buf.len() < HALL_FRAME_LEN
                    invariant
                        i <= chunk@.len(),
                        all == old(self)@ + chunk@,
                        self.buf@ == all.take(old(self)@.len() + i),
                        self.buf@.len() == old(self)@.len() + i,
                        self.buf@.len() <= HALL_FRAME_LEN,
                    decreases chunk@.len() - i,
                {
                    self.buf.push(chunk[i]);
                    i = i + 1;
                    assert(self.buf@ =~= all.take(old(self)@.len() + i));
                }
                if self.buf.len() < HALL_FRAME_LEN {
                    assert(self.buf@ =~= all);
                    Progress::Pending
                } else {
                    assert(hall_decode_spec(all) == hall_decode_spec(self.buf@)) by {
                        assert forall|k: int| 0 <= k < 9 implies hall_value(all, k) == hall_value(
                            self.buf@,
                            k,
                        ) by {
                            let at = HALL_HEADER_LEN + 4 * k;
                            assert(all[at] == self.buf@[at]);
                            assert(all[at + 1] == self.buf@[at + 1]);
                            assert(all[at + 2] == self.buf@[at + 2]);
                            assert(all[at + 3] == self.buf@[at + 3]);
                        }
                        assert(Seq::new(9, |k: int| hall_value(all, k) as i32) =~= Seq::new(
                            9,
                            |k: int| hall_value(self.buf@, k) as i32,
                        ));
                    }
                    match hall_parse_data(self.buf.as_slice()) {
                        Some(s) => Progress::Done(s),
                        None => Progress::Failed(ProtocolError::MalformedFrame),
                    }
                }
            },
        }
    }
}

/// Decoding the frame built from nine samples gives back the same nine samples.
pub proof fn lemma_hall_round_trip(samples: HallSample)
    ensures
        hall_decode_spec(hall_frame_spec(samples@)) == Some(samples@),
{
    let f = hall_frame_spec(samples@);
    assert forall|k: int| 0 <= k < 9 implies (hall_value(f, k) as i32) == samples@[k] by {
        let v = samples@[k];
        let u = unsigned_of(v as int) as u32;
        lemma_signed_unsigned(v);
        lemma_le_bytes_read(u);
        let at = HALL_HEADER_LEN + 4 * k;
        assert(f[at] == hall_sample_byte(samples@, 4 * k));
        assert(f[at + 1] == hall_sample_byte(samples@, 4 * k + 1));
        assert(f[at + 2] == hall_sample_byte(samples@, 4 * k + 2));
        assert(f[at + 3] == hall_sample_byte(samples@, 4 * k + 3));
        assert(f[at] == le_bytes(u)[0]) by {
            assert((4 * k) / 4 == k);
            assert((4 * k) % 4 == 0);
        }
        assert(f[at + 1] == le_bytes(u)[1]) by {
            assert((4 * k + 1) / 4 == k);
            assert((4 * k + 1) % 4 == 1);
        }
        assert(f[at + 2] == le_bytes(u)[2]) by {
            assert((4 * k + 2) / 4 == k);
            assert((4 * k + 2) % 4 == 2);
        }
        assert(f[at + 3] == le_bytes(u)[3]) by {
            assert((4 * k + 3) / 4 == k);
            assert((4 * k + 3) % 4 == 3);
        }
        assert(le_u32(f, at) == le_u32(le_bytes(u), 0));
    }
    assert(Seq::new(9, |k: int| hall_value(f, k) as i32) =~= samples@);
}

} // verus!
