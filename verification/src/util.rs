//! Track identifiers and the counter that numbers outbound frames.

use vstd::prelude::*;

verus! {

/// The number that a sequence of bytes stands for when read with the most
/// significant byte first.
pub open spec fn big_endian(bytes: Seq<u8>) -> nat
    decreases bytes.len(),
{
    if bytes.len() == 0 {
        0
    } else {
        big_endian(bytes.drop_last()) * 256 + bytes.last() as nat
    }
}

/// `256` to the power `n`.
pub open spec fn pow256(n: nat) -> nat
    decreases n,
{
    if n == 0 {
        1
    } else {
        256 * pow256((n - 1) as nat)
    }
}

/// A sequence of `n` bytes stands for a number below `256^n`.
pub proof fn lemma_big_endian_bound(bytes: Seq<u8>)
    ensures
        big_endian(bytes) < pow256(bytes.len()),
    decreases bytes.len(),
{
    if bytes.len() > 0 {
        lemma_big_endian_bound(bytes.drop_last());
    }
}

/// Sixteen bytes fit a `u128`.
pub proof fn lemma_pow256_sixteen()
    ensures
        pow256(16) == 0x1_0000_0000_0000_0000_0000_0000_0000_0000,
{
    reveal_with_fuel(pow256, 17);
}

/// Identifies one track of the catalogue: a 128-bit number.
#[derive(Clone, Copy, Debug, PartialEq, Eq, Hash, Structural)]
pub struct SpotifyId(pub u128);

impl View for SpotifyId {
    type V = u128;

    open spec fn view(&self) -> u128 {
        self.0
    }
}

/// What `SpotifyId::from_raw` answers to bytes that are no identifier.
#[derive(Clone, Copy, Debug, PartialEq, Eq, Structural)]
pub struct SpotifyIdError;

impl SpotifyId {
    /// Whether `gid` has the length of a raw track identifier.
    pub open spec fn is_raw(gid: Seq<u8>) -> bool {
        gid.len() == 16
    }

    /// The identifier that sixteen raw bytes stand for; nothing for bytes of
    /// another length.
    pub open spec fn from_raw_view(gid: Seq<u8>) -> Option<SpotifyId> {
        if SpotifyId::is_raw(gid) {
            Some(SpotifyId(big_endian(gid) as u128))
        } else {
            None
        }
    }

    /// Reads an identifier from its sixteen raw bytes, most significant first.
    /// Bytes of another length are no identifier.
    pub fn from_raw(data: &[u8]) -> (id: Result<SpotifyId, SpotifyIdError>)
        ensures
            id.ok() == SpotifyId::from_raw_view(data@),
    {
        if data.len() != 16 {
            return Err(SpotifyIdError);
        }
        let mut acc: u128 = 0;
        let mut i: usize = 0;
        while i < 16
            invariant
                i <= 16,
                data@.len() == 16,
                acc == big_endian(data@.subrange(0, i as int)),
            decreases 16 - i,
        {
            let ghost prefix = data@.subrange(0, i as int);
            let ghost next = data@.subrange(0, i + 1);
            proof {
                assert(next.drop_last() =~= prefix);
                assert(next.last() == data@[i as int]);
                lemma_big_endian_bound(next);
                lemma_pow256_monotonic((i + 1) as nat, 16);
                lemma_pow256_sixteen();
            }
            acc = acc * 256 + data[i] as u128;
            i = i + 1;
        }
        assert(data@.subrange(0, 16) =~= data@);
        Ok(SpotifyId(acc))
    }
}

/// `pow256` grows with its exponent.
pub proof fn lemma_pow256_monotonic(m: nat, n: nat)
    requires
        m <= n,
    ensures
        pow256(m) <= pow256(n),
    decreases n,
{
    if m < n {
        lemma_pow256_monotonic(m, (n - 1) as nat);
    }
}

/// Hands out consecutive 32-bit numbers, starting over from zero after the
/// largest.
#[derive(Debug)]
pub struct SeqGenerator {
    value: u32,
}

impl SeqGenerator {
    /// The number that the next call of `get` returns.
    pub closed spec fn peek(&self) -> u32 {
        self.value
    }

    /// The number after `value`.
    pub open spec fn successor(value: u32) -> u32 {
        if value == u32::MAX {
            0
        } else {
            (value + 1) as u32
        }
    }

    /// A generator whose first number is `value`.
    pub fn new(value: u32) -> (generator: SeqGenerator)
        ensures
            generator.peek() == value,
    {
        SeqGenerator { value }
    }

    /// Returns the current number and moves on to its successor.
    pub fn get(&mut self) -> (value: u32)
        ensures
            value == old(self).peek(),
            final(self).peek() == SeqGenerator::successor(old(self).peek()),
    {
        let value = self.value;
        self.value = if value == u32::MAX {
            0
        } else {
            value + 1
        };
        value
    }
}

/// The milliseconds in a span of `secs` whole seconds and `subsec_nanos`
/// nanoseconds, the rest of a millisecond left out.
pub open spec fn millis_view(secs: u64, subsec_nanos: u32) -> int {
    secs * 1000 + subsec_nanos / 1_000_000
}

/// The time in milliseconds for a clock reading of `secs` seconds and
/// `subsec_nanos` nanoseconds, where it fits an `i64`.
pub fn millis(secs: u64, subsec_nanos: u32) -> (ms: Option<i64>)
    ensures
        ms == (if millis_view(secs, subsec_nanos) <= i64::MAX {
            Some(millis_view(secs, subsec_nanos) as i64)
        } else {
            None
        }),
{
    if secs > 9_223_372_036_854_775 {
        return None;
    }
    let total: u64 = secs * 1000 + (subsec_nanos / 1_000_000) as u64;
    if total > i64::MAX as u64 {
        None
    } else {
        Some(total as i64)
    }
}

} // verus!
