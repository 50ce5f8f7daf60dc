use vstd::prelude::*;

verus! {

/// Bit `k` (0 = least significant) of the byte `b`.
pub open spec fn u8_bit(b: u8, k: int) -> bool {
    (b >> (k as u8)) & 1u8 == 1u8
}

/// Bit number `i` of a byte sequence, counting from the least significant
/// bit of the first byte.
pub open spec fn bit_at(bytes: Seq<u8>, i: int) -> bool {
    u8_bit(bytes[i / 8], i % 8)
}

/// `bytes` holds exactly the bits of `bits`, least significant bit first,
/// with the unused high bits of the last byte set to zero.
pub open spec fn packs(bytes: Seq<u8>, bits: Seq<bool>) -> bool {
    &&& bytes.len() == (bits.len() + 7) / 8
    &&& forall|i: int| 0 <= i < bytes.len() * 8 ==> #[trigger] bit_at(bytes, i) == (i < bits.len() && bits[i])
}

/// The `count` lowest bits of `value`, least significant first.
pub open spec fn bits_of(value: u32, count: nat) -> Seq<bool> {
    Seq::new(count, |i: int| (value >> (i as u32)) & 1u32 == 1u32)
}

/// Appends values bit by bit, least significant bit first, into a growing
/// byte buffer.
pub struct BitWriter {
    bytes: Vec<u8>,
    bit_offset: usize,
}

impl View for BitWriter {
    type V = Seq<bool>;

    /// The bits written so far, in order.
    closed spec fn view(&self) -> Seq<bool> {
        Seq::new(self.bit_offset as nat, |i: int| bit_at(self.bytes@, i))
    }
}

proof fn lemma_set_bit(b: u8, x: u8, s: u8, k: u8)
    by (bit_vector)
    requires
        x <= 1,
        s < 8,
        k < 8,
    ensures
        k == s ==> ((b | (x << s)) >> k) & 1 == ((b >> k) & 1) | x,
        k != s ==> ((b | (x << s)) >> k) & 1 == (b >> k) & 1,
        (b >> k) & 1 <= 1,
{
}

proof fn lemma_zero_byte_bits(k: u8)
    by (bit_vector)
    requires
        k < 8,
    ensures
        (0u8 >> k) & 1 == 0,
{
}

proof fn lemma_low_bit_as_u8(v: u32)
    by (bit_vector)
    ensures
        v & 1 <= 1,
        ((v & 1) as u8) <= 1,
        (((v & 1) as u8) == 1u8) == ((v & 1) == 1u32),
        (((v & 1) as u8) | 0u8) == ((v & 1) as u8),
{
}

proof fn lemma_or_bit_values(a: u8, x: u8)
    by (bit_vector)
    requires
        a <= 1,
        x <= 1,
    ensures
        (a | x) == 1u8 <==> (a == 1u8 || x == 1u8),
{
}

impl BitWriter {
    /// The buffer holds exactly enough bytes for the bits written, and the
    /// bits past the write position are zero.
    pub closed spec fn wf(&self) -> bool {
        &&& self.bytes@.len() == (self.bit_offset + 7) / 8
        &&& forall|i: int|
            self.bit_offset <= i < self.bytes@.len() * 8 ==> !#[trigger] bit_at(self.bytes@, i)
    }

    /// An empty writer.
    pub fn new() -> (w: Self)
        ensures
            w.wf(),
            w@ == Seq::<bool>::empty(),
    {
        let w = Self { bytes: Vec::new(), bit_offset: 0 };
        assert(w@ =~= Seq::<bool>::empty());
        w
    }

    /// Appends the `count` lowest bits of `value`, least significant first.
    pub fn write_bits(&mut self, value: u32, count: usize)
        requires
            old(self).wf(),
            count <= 32,
            old(self)@.len() + count <= usize::MAX,
        ensures
            final(self).wf(),
            final(self)@ == old(self)@ + bits_of(value, count as nat),
    {
        let mut index: usize = 0;
        while index < count
            invariant
                self.wf(),
                index <= count,
                count <= 32,
                old(self)@.len() + count <= usize::MAX,
                self.bit_offset == old(self)@.len() + index,
                self@ == old(self)@ + bits_of(value, index as nat),
            decreases count - index,
        {
            let ghost before = self@;
            let ghost before_bytes = self.bytes@;
            let ghost off = self.bit_offset as int;
            if self.bit_offset / 8 == self.bytes.len() {
                self.bytes.push(0);
                proof {
                    assert forall|i: int| 0 <= i < self.bytes@.len() * 8 implies
                        #[trigger] bit_at(self.bytes@, i) == (i < before_bytes.len() * 8 && bit_at(before_bytes, i))
                    by {
                        if i >= before_bytes.len() * 8 {
                            assert(i / 8 == before_bytes.len());
                            lemma_zero_byte_bits((i % 8) as u8);
                        } else {
                            assert(i / 8 < before_bytes.len());
                        }
                    }
                }
            }
            let ghost mid_bytes = self.bytes@;
            let shift_amount: u32 = index as u32;
            let low = (value >> shift_amount) & 1;
            proof {
                lemma_low_bit_as_u8(value >> shift_amount);
            }
            let bit: u8 = low as u8;
            let pos = self.bit_offset / 8;
            let shift = self.bit_offset % 8;
            let old_byte = self.bytes[pos];
            let shift8: u8 = shift as u8;
            self.bytes.set(pos, old_byte | (bit << shift8));
            self.bit_offset = self.bit_offset + 1;
            index = index + 1;
            proof {
                lemma_low_bit_as_u8(value >> shift_amount);
                assert(!bit_at(mid_bytes, off));
                assert forall|i: int| 0 <= i < self.bytes@.len() * 8 implies
                    #[trigger] bit_at(self.bytes@, i) == (if i == off { bit == 1u8 } else { bit_at(mid_bytes, i) })
                by {
                    if i / 8 == pos as int {
                        lemma_set_bit(old_byte, bit, shift8, (i % 8) as u8);
                        if i == off {
                            lemma_or_bit_values((old_byte >> shift8) & 1, bit);
                        }
                    }
                }
                assert(self@ =~= old(self)@ + bits_of(value, index as nat)) by {
                    assert forall|i: int| 0 <= i < self@.len() implies self@[i] == (old(self)@ + bits_of(value, index as nat))[i] by {
                        if i < off {
                            assert(before[i] == bit_at(before_bytes, i));
                        }
                    }
                }
            }
        }
    }

    /// The written bits packed into bytes, least significant bit first,
    /// with the last byte padded by zero bits.
    pub fn finish(self) -> (bytes: Vec<u8>)
        requires
            self.wf(),
        ensures
            packs(bytes@, self@),
    {
        self.bytes
    }
}


/// One step of the save-file checksum: rotate the running value left by one
/// bit, then add the byte, wrapping on overflow.
pub open spec fn checksum_step(c: u32, b: u8) -> u32 {
    vstd::wrapping::u32_specs::wrapping_add(
        vstd::wrapping::u32_specs::wrapping_add(c << 1u32, if c >= 0x8000_0000 { 1u32 } else { 0u32 }),
        b as u32,
    )
}

/// The save-file checksum of a byte sequence, folded from the first byte on.
pub open spec fn spec_checksum(s: Seq<u8>) -> u32
    decreases s.len(),
{
    if s.len() == 0 {
        0
    } else {
        checksum_step(spec_checksum(s.drop_last()), s.last())
    }
}

/// Computes the `.d2s` checksum of `bytes`.
pub fn calculate_checksum(bytes: &[u8]) -> (checksum: u32)
    ensures
        checksum == spec_checksum(bytes@),
{
    let mut checksum: u32 = 0;
    let mut i: usize = 0;
    assert(bytes@.take(0) =~= Seq::<u8>::empty());
    while i < bytes.len()
        invariant
            i <= bytes@.len(),
            checksum == spec_checksum(bytes@.take(i as int)),
        decreases bytes@.len() - i,
    {
        let b = bytes[i];
        let carry: u32 = if checksum >= 0x8000_0000 { 1 } else { 0 };
        checksum = (checksum << 1u32).wrapping_add(carry);
        checksum = checksum.wrapping_add(b as u32);
        assert(bytes@.take(i + 1).drop_last() =~= bytes@.take(i as int));
        i = i + 1;
    }
    assert(bytes@.take(i as int) =~= bytes@);
    checksum
}

/// The four little-endian bytes of `w`.
pub open spec fn le_bytes(w: u32) -> Seq<u8> {
    seq![
        (w & 0xff) as u8,
        ((w >> 8u32) & 0xff) as u8,
        ((w >> 16u32) & 0xff) as u8,
        ((w >> 24u32) & 0xff) as u8,
    ]
}

/// `s` with the four bytes at `at` replaced by the little-endian bytes of `w`.
pub open spec fn with_word(s: Seq<u8>, at: int, w: u32) -> Seq<u8> {
    s.take(at) + le_bytes(w) + s.skip(at + 4)
}

/// The header of `s` with its file-size field (bytes 8..12) set to the length
/// of `s` and its checksum field (bytes 12..16) cleared.
pub open spec fn sized_and_cleared(s: Seq<u8>) -> Seq<u8> {
    with_word(with_word(s, 8, s.len() as u32), 12, 0)
}

/// `s` with the file size and checksum fields filled in as the game expects.
pub open spec fn header_fixed(s: Seq<u8>) -> Seq<u8> {
    with_word(sized_and_cleared(s), 12, spec_checksum(sized_and_cleared(s)))
}

/// The file-size field of `s` holds its length, and its checksum field holds
/// the checksum of `s` taken with that field cleared.
pub open spec fn header_valid(s: Seq<u8>) -> bool {
    &&& s.len() >= 16
    &&& s.subrange(8, 12) == le_bytes(s.len() as u32)
    &&& s.subrange(12, 16) == le_bytes(spec_checksum(with_word(s, 12, 0)))
}

proof fn lemma_le_byte_range(w: u32)
    by (bit_vector)
    ensures
        w & 0xff <= 0xff,
        (w >> 8u32) & 0xff <= 0xff,
        (w >> 16u32) & 0xff <= 0xff,
        (w >> 24u32) & 0xff <= 0xff,
{
}

fn put_u32_le(raw: &mut [u8], at: usize, w: u32)
    requires
        at + 4 <= old(raw)@.len(),
    ensures
        final(raw)@ == with_word(old(raw)@, at as int, w),
{
    proof {
        lemma_le_byte_range(w);
    }
    raw[at] = (w & 0xff) as u8;
    raw[at + 1] = ((w >> 8u32) & 0xff) as u8;
    raw[at + 2] = ((w >> 16u32) & 0xff) as u8;
    raw[at + 3] = ((w >> 24u32) & 0xff) as u8;
    assert(raw@ =~= with_word(old(raw)@, at as int, w));
}

/// Writes the file length into bytes 8..12 and the checksum of the whole file
/// (taken with the checksum field zeroed) into bytes 12..16, both little
/// endian. Buffers shorter than a header are left untouched.
pub fn fix_header(raw: &mut [u8])
    ensures
        old(raw)@.len() < 16 ==> final(raw)@ == old(raw)@,
        old(raw)@.len() >= 16 ==> final(raw)@ == header_fixed(old(raw)@),
{
    if raw.len() < 16 {
        return;
    }
    let len = raw.len() as u32;
    put_u32_le(raw, 8, len);
    put_u32_le(raw, 12, 0);
    let checksum = calculate_checksum(raw);
    put_u32_le(raw, 12, checksum);
}

/// Stores `version` as the header's raw version number (bytes 4..8, little
/// endian) and then fixes the header's size and checksum fields.
pub fn set_version_raw(raw: &mut [u8], version: u32)
    requires
        old(raw)@.len() >= 8,
    ensures
        old(raw)@.len() < 16 ==> final(raw)@ == with_word(old(raw)@, 4, version),
        old(raw)@.len() >= 16 ==> final(raw)@ == header_fixed(with_word(old(raw)@, 4, version)),
{
    put_u32_le(raw, 4, version);
    fix_header(raw);
}

proof fn lemma_with_word_len(s: Seq<u8>, at: int, w: u32)
    requires
        0 <= at,
        at + 4 <= s.len(),
    ensures
        with_word(s, at, w).len() == s.len(),
        with_word(s, at, w).subrange(at, at + 4) == le_bytes(w),
        forall|i: int| 0 <= i < s.len() && !(at <= i < at + 4) ==> #[trigger] with_word(s, at, w)[i] == s[i],
{
    assert(with_word(s, at, w).subrange(at, at + 4) =~= le_bytes(w));
}

/// Fixing a header makes it valid: the size field holds the file length and
/// the checksum field holds the checksum of the file with that field cleared.
/// Every byte outside 8..16 is kept.
pub proof fn lemma_fixed_header_is_valid(s: Seq<u8>)
    requires
        s.len() >= 16,
    ensures
        header_valid(header_fixed(s)),
        header_fixed(s).len() == s.len(),
        forall|i: int| 0 <= i < s.len() && !(8 <= i < 16) ==> #[trigger] header_fixed(s)[i] == s[i],
{
    let a = with_word(s, 8, s.len() as u32);
    lemma_with_word_len(s, 8, s.len() as u32);
    let z = sized_and_cleared(s);
    lemma_with_word_len(a, 12, 0);
    let f = header_fixed(s);
    lemma_with_word_len(z, 12, spec_checksum(z));
    assert(f.subrange(8, 12) =~= a.subrange(8, 12));
    assert(with_word(f, 12, 0) =~= z);
}

/// A header that is already valid is left as it is by fixing it.
pub proof fn lemma_valid_header_is_fixed_point(s: Seq<u8>)
    requires
        header_valid(s),
    ensures
        header_fixed(s) == s,
{
    let z = sized_and_cleared(s);
    lemma_with_word_len(s, 8, s.len() as u32);
    assert(with_word(s, 8, s.len() as u32) =~= s);
    assert(z =~= with_word(s, 12, 0));
    lemma_with_word_len(z, 12, spec_checksum(z));
    assert(header_fixed(s) =~= s);
}

/// Fixing a header twice gives the same bytes as fixing it once.
pub proof fn lemma_fix_header_idempotent(s: Seq<u8>)
    requires
        s.len() >= 16,
    ensures
        header_fixed(header_fixed(s)) == header_fixed(s),
{
    lemma_fixed_header_is_valid(s);
    lemma_valid_header_is_fixed_point(header_fixed(s));
}

} // verus!
