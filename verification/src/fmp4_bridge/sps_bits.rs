//! The bits of a coded sequence parameter set, and where a reader of its fields stops.
//!
//! A field of a parameter set is a fixed number of bits or an exponential-Golomb code: zero bits, a
//! one, and as many bits again. A code behind sixty-four zero bits is too large for a reader that
//! keeps it in a word, whether or not its bits are all there.
use vstd::arithmetic::power2::{lemma2_to64, lemma_pow2_strictly_increases, lemma_pow2_unfold, pow2};
use vstd::prelude::*;

verus! {

/// Zero bits in front of a code from which it does not fit a word.
pub const MAX_CODE_ZEROS: usize = 64;

/// What an aspect ratio is announced as that is written out.
pub const EXTENDED_ASPECT: u64 = 255;

/// The bits of a byte, the highest first.
pub open spec fn byte_bits(byte: u8) -> Seq<bool> {
    seq![
        byte / 128 % 2 == 1,
        byte / 64 % 2 == 1,
        byte / 32 % 2 == 1,
        byte / 16 % 2 == 1,
        byte / 8 % 2 == 1,
        byte / 4 % 2 == 1,
        byte / 2 % 2 == 1,
        byte % 2 == 1,
    ]
}

/// The bits of a coded unit from `at` on, where `zeros` zero bytes stand just before it. A three
/// behind two zero bytes belongs to the coding and carries no bits.
pub open spec fn bits_from(nalu: Seq<u8>, at: int, zeros: int) -> Seq<bool>
    decreases nalu.len() - at,
{
    if at < 0 || at >= nalu.len() {
        Seq::empty()
    } else if nalu[at] == 3 && zeros >= 2 {
        bits_from(nalu, at + 1, 0)
    } else if nalu[at] == 0 {
        byte_bits(0) + bits_from(nalu, at + 1, zeros + 1)
    } else {
        byte_bits(nalu[at]) + bits_from(nalu, at + 1, 0)
    }
}

/// The bits of a coded unit behind its header.
pub open spec fn payload_bits(nalu: Seq<u8>) -> Seq<bool> {
    bits_from(nalu, 1, 0)
}

/// Where a reader of bits stands.
pub enum Walk {
    At(int),
    /// No more bits, or a field that is not read on from.
    Ended,
    /// A code that does not fit a word.
    Overflowed,
}

/// Where a reader stands once it has read `count` bits.
pub open spec fn skipped(bits: Seq<bool>, walk: Walk, count: int) -> Walk {
    match walk {
        Walk::At(at) => if at + count <= bits.len() {
            Walk::At(at + count)
        } else {
            Walk::Ended
        },
        _ => walk,
    }
}

/// Whether the next bit is there and set.
pub open spec fn flag_at(bits: Seq<bool>, walk: Walk) -> bool {
    walk matches Walk::At(at) && at < bits.len() && bits[at]
}

/// The number that `count` bits from `from` on write.
pub open spec fn number(bits: Seq<bool>, from: int, count: nat) -> nat
    decreases count,
{
    if count == 0 {
        0
    } else {
        2 * number(bits, from, (count - 1) as nat) + (if bits[from + count - 1] {
            1nat
        } else {
            0nat
        })
    }
}

/// The number that the next `count` bits write, or zero where they are not there.
pub open spec fn number_at(bits: Seq<bool>, walk: Walk, count: nat) -> nat {
    match walk {
        Walk::At(at) => if at + count <= bits.len() {
            number(bits, at, count)
        } else {
            0
        },
        _ => 0,
    }
}

/// The zero bits in a row from `at` on.
pub open spec fn zeros_from(bits: Seq<bool>, at: int) -> nat
    decreases bits.len() - at,
{
    if at < 0 || at >= bits.len() || bits[at] {
        0
    } else {
        1 + zeros_from(bits, at + 1)
    }
}

/// Where a reader stands once it has read a code.
pub open spec fn coded(bits: Seq<bool>, walk: Walk) -> Walk {
    match walk {
        Walk::At(at) => {
            let zeros = zeros_from(bits, at);
            if zeros >= MAX_CODE_ZEROS {
                Walk::Overflowed
            } else if at + 2 * zeros + 1 > bits.len() {
                Walk::Ended
            } else {
                Walk::At(at + 2 * zeros + 1)
            }
        },
        _ => walk,
    }
}

/// The value of the next code, or zero where none can be read.
pub open spec fn code_at(bits: Seq<bool>, walk: Walk) -> int {
    match (walk, coded(bits, walk)) {
        (Walk::At(at), Walk::At(_)) => {
            let zeros = zeros_from(bits, at);
            number(bits, at + zeros, zeros + 1) - 1
        },
        _ => 0,
    }
}

/// Where a reader stands once it has read `count` codes.
pub open spec fn codes(bits: Seq<bool>, walk: Walk, count: nat) -> Walk
    decreases count,
{
    if count == 0 || !(walk is At) {
        walk
    } else {
        codes(bits, coded(bits, walk), (count - 1) as nat)
    }
}

/// Whether sets of a profile say how colour is sampled.
pub open spec fn profile_samples_colour(profile: nat) -> bool {
    ||| profile == 100
    ||| profile == 110
    ||| profile == 122
    ||| profile == 244
    ||| profile == 44
    ||| profile == 83
    ||| profile == 86
    ||| profile == 118
    ||| profile == 128
    ||| profile == 138
    ||| profile == 139
    ||| profile == 134
    ||| profile == 135
}

/// Behind how colour is sampled. Scaling matrices are not read on from.
pub open spec fn behind_colour(bits: Seq<bool>, walk: Walk) -> Walk {
    let format = code_at(bits, walk);
    let walk = coded(bits, walk);
    let walk = if format == 3 {
        skipped(bits, walk, 1)
    } else {
        walk
    };
    let walk = skipped(bits, codes(bits, walk, 2), 1);
    if flag_at(bits, walk) {
        Walk::Ended
    } else {
        skipped(bits, walk, 1)
    }
}

/// Behind how pictures are numbered and ordered.
pub open spec fn behind_order(bits: Seq<bool>, walk: Walk) -> Walk {
    let walk = coded(bits, walk);
    let order = code_at(bits, walk);
    let walk = coded(bits, walk);
    if order == 0 {
        coded(bits, walk)
    } else if order == 1 {
        let walk = codes(bits, skipped(bits, walk, 1), 2);
        let count = code_at(bits, walk);
        codes(bits, coded(bits, walk), count as nat)
    } else {
        walk
    }
}

/// Behind the size of the picture and what is cropped of it.
pub open spec fn behind_picture(bits: Seq<bool>, walk: Walk) -> Walk {
    let walk = skipped(bits, coded(bits, walk), 1);
    let walk = codes(bits, walk, 2);
    let frames_only = flag_at(bits, walk);
    let walk = skipped(bits, walk, if frames_only {
        2
    } else {
        3
    });
    let crops = flag_at(bits, walk);
    let walk = skipped(bits, walk, 1);
    if crops {
        codes(bits, walk, 4)
    } else {
        walk
    }
}

/// Behind `count` schedules of a buffer.
pub open spec fn behind_schedules(bits: Seq<bool>, walk: Walk, count: nat) -> Walk
    decreases count,
{
    if count == 0 || !(walk is At) {
        walk
    } else {
        behind_schedules(bits, skipped(bits, codes(bits, walk, 2), 1), (count - 1) as nat)
    }
}

/// Behind the parameters of a buffer.
pub open spec fn behind_buffer(bits: Seq<bool>, walk: Walk) -> Walk {
    let count = code_at(bits, walk);
    let walk = skipped(bits, coded(bits, walk), 8);
    skipped(bits, behind_schedules(bits, walk, (count + 1) as nat), 20)
}

/// Behind a flag and, where it is set, `count` bits.
pub open spec fn behind_optional(bits: Seq<bool>, walk: Walk, count: int) -> Walk {
    let walk_on = skipped(bits, walk, 1);
    if flag_at(bits, walk) {
        skipped(bits, walk_on, count)
    } else {
        walk_on
    }
}

/// Behind a flag and, where it is set, the parameters of a buffer.
pub open spec fn behind_optional_buffer(bits: Seq<bool>, walk: Walk) -> Walk {
    let walk_on = skipped(bits, walk, 1);
    if flag_at(bits, walk) {
        behind_buffer(bits, walk_on)
    } else {
        walk_on
    }
}

/// Behind the shape of a pixel.
pub open spec fn behind_aspect(bits: Seq<bool>, walk: Walk) -> Walk {
    let walk_on = skipped(bits, walk, 1);
    if flag_at(bits, walk) {
        let aspect = number_at(bits, walk_on, 8);
        skipped(bits, skipped(bits, walk_on, 8), if aspect == EXTENDED_ASPECT {
            32
        } else {
            0
        })
    } else {
        walk_on
    }
}

/// Behind what the video signal is.
pub open spec fn behind_signal(bits: Seq<bool>, walk: Walk) -> Walk {
    let walk_on = skipped(bits, walk, 1);
    if flag_at(bits, walk) {
        behind_optional(bits, skipped(bits, walk_on, 4), 24)
    } else {
        walk_on
    }
}

/// Behind where colour is sampled and how fast pictures follow each other.
pub open spec fn behind_timing(bits: Seq<bool>, walk: Walk) -> Walk {
    let walk_on = skipped(bits, walk, 1);
    let walk_on = if flag_at(bits, walk) {
        codes(bits, walk_on, 2)
    } else {
        walk_on
    };
    behind_optional(bits, walk_on, 65)
}

/// Behind what helps to show the picture.
pub open spec fn behind_usability(bits: Seq<bool>, walk: Walk) -> Walk {
    let walk = behind_optional(bits, behind_aspect(bits, walk), 1);
    let walk = behind_timing(bits, behind_signal(bits, walk));
    let first = flag_at(bits, walk);
    let walk = behind_optional_buffer(bits, walk);
    let second = flag_at(bits, walk);
    let walk = behind_optional_buffer(bits, walk);
    let walk = skipped(bits, walk, if first || second {
        2
    } else {
        1
    });
    let restricted = flag_at(bits, walk);
    let walk = skipped(bits, walk, 1);
    if restricted {
        codes(bits, skipped(bits, walk, 1), 6)
    } else {
        walk
    }
}

/// Where a reader of a whole parameter set stops.
pub open spec fn set_read(bits: Seq<bool>) -> Walk {
    let profile = number_at(bits, Walk::At(0), 8);
    let walk = coded(bits, skipped(bits, Walk::At(0), 24));
    let walk = if profile_samples_colour(profile) {
        behind_colour(bits, walk)
    } else {
        walk
    };
    let walk = behind_picture(bits, behind_order(bits, walk));
    let usable = flag_at(bits, walk);
    let walk = skipped(bits, walk, 1);
    if usable {
        behind_usability(bits, walk)
    } else {
        walk
    }
}

/// Whether a unit's header is one that is read on from.
pub open spec fn header_reads(nalu: Seq<u8>) -> bool {
    &&& nalu.len() > 0
    &&& nalu[0] < 128
    &&& nalu[0] % 32 != 14
    &&& nalu[0] % 32 != 20
    &&& nalu[0] % 32 != 21
}

/// Whether a reader of a coded parameter set comes to a code that does not fit a word.
pub open spec fn set_overflows(nalu: Seq<u8>) -> bool {
    header_reads(nalu) && set_read(payload_bits(nalu)) is Overflowed
}

/// As many bits as a number has bound it.
proof fn number_bounded(bits: Seq<bool>, from: int, count: nat)
    ensures
        number(bits, from, count) < pow2(count),
    decreases count,
{
    if count == 0 {
        lemma2_to64();
    } else {
        number_bounded(bits, from, (count - 1) as nat);
        lemma_pow2_unfold(count);
    }
}

/// Zero bits end at a one, or with the bits.
proof fn zeros_end(bits: Seq<bool>, at: int)
    requires
        0 <= at <= bits.len(),
    ensures
        at + zeros_from(bits, at) <= bits.len(),
        at + zeros_from(bits, at) < bits.len() ==> bits[at + zeros_from(bits, at)],
    decreases bits.len() - at,
{
    if at < bits.len() && !bits[at] {
        zeros_end(bits, at + 1);
    }
}

/// A number that starts with a one is not zero.
proof fn number_positive(bits: Seq<bool>, from: int, count: nat)
    requires
        count > 0,
        bits[from],
    ensures
        number(bits, from, count) > 0,
    decreases count,
{
    if count > 1 {
        number_positive(bits, from, (count - 1) as nat);
    } else {
        reveal_with_fuel(number, 2);
    }
}

/// The bits of a coded unit behind its header.
fn read_payload_bits(nalu: &[u8]) -> (r: Vec<bool>)
    ensures
        r@ == payload_bits(nalu@),
{
    let mut bits: Vec<bool> = Vec::new();
    let mut at: usize = 1;
    let mut zeros: usize = 0;
    assert(bits@ + bits_from(nalu@, 1, 0) =~= payload_bits(nalu@));
    while at < nalu.len()
        invariant
            1 <= at,
            zeros <= at,
            payload_bits(nalu@) == bits@ + bits_from(nalu@, at as int, zeros as int),
        decreases nalu@.len() - at,
    {
        let byte: u8 = nalu[at];
        let ghost older = bits@;
        if byte == 3 && zeros >= 2 {
            zeros = 0;
        } else {
            bits.push(byte / 128 % 2 == 1);
            bits.push(byte / 64 % 2 == 1);
            bits.push(byte / 32 % 2 == 1);
            bits.push(byte / 16 % 2 == 1);
            bits.push(byte / 8 % 2 == 1);
            bits.push(byte / 4 % 2 == 1);
            bits.push(byte / 2 % 2 == 1);
            bits.push(byte % 2 == 1);
            if byte == 0 {
                zeros = zeros + 1;
            } else {
                zeros = 0;
            }
            proof {
                let rest = bits_from(nalu@, at + 1, zeros as int);
                assert(bits@ =~= older + byte_bits(byte));
                assert(older + (byte_bits(byte) + rest) =~= bits@ + rest);
            }
        }
        at = at + 1;
    }
    assert(bits@ + Seq::<bool>::empty() =~= bits@);
    bits
}

/// A reader of bits.
struct BitReader<'a> {
    bits: &'a Vec<bool>,
    at: usize,
    ended: bool,
    overflowed: bool,
}

impl<'a> BitReader<'a> {
    /// Where the reader stands.
    spec fn walk(&self) -> Walk {
        if self.overflowed {
            Walk::Overflowed
        } else if self.ended {
            Walk::Ended
        } else {
            Walk::At(self.at as int)
        }
    }

    /// A reader stands among its bits.
    spec fn wf(&self) -> bool {
        self.at <= self.bits@.len()
    }

    /// Whether a reader went on through the same bits to a place.
    spec fn went(&self, from: &Self, walk: Walk) -> bool {
        &&& self.wf()
        &&& self.bits@ == from.bits@
        &&& self.walk() == walk
    }

    /// Decides whether more can be read.
    fn reads(&self) -> (r: bool)
        ensures
            r == (self.walk() is At),
    {
        !self.ended && !self.overflowed
    }

    /// Reads bits.
    fn skip(&mut self, count: usize)
        requires
            old(self).wf(),
        ensures
            final(self).went(old(self), skipped(old(self).bits@, old(self).walk(), count as int)),
    {
        if self.reads() {
            if count <= self.bits.len() - self.at {
                self.at = self.at + count;
            } else {
                self.ended = true;
            }
        }
    }

    /// Reads one bit.
    fn flag(&mut self) -> (r: bool)
        requires
            old(self).wf(),
        ensures
            r == flag_at(old(self).bits@, old(self).walk()),
            final(self).went(old(self), skipped(old(self).bits@, old(self).walk(), 1)),
    {
        let set = self.reads() && self.at < self.bits.len() && self.bits[self.at];
        self.skip(1);
        set
    }

    /// The number that bits write.
    fn number(&self, from: usize, count: usize) -> (r: u64)
        requires
            from + count <= self.bits@.len(),
            count <= MAX_CODE_ZEROS,
        ensures
            r == number(self.bits@, from as int, count as nat),
    {
        let mut value: u64 = 0;
        let mut i: usize = 0;
        let end: usize = self.bits.len();
        while i < count
            invariant
                i <= count <= MAX_CODE_ZEROS,
                end == self.bits@.len(),
                from + count <= end,
                value == number(self.bits@, from as int, i as nat),
            decreases count - i,
        {
            proof {
                number_bounded(self.bits@, from as int, (i + 1) as nat);
                lemma2_to64();
                if i + 1 < 64 {
                    lemma_pow2_strictly_increases((i + 1) as nat, 64);
                }
                assert(pow2(64) == 0x1_0000_0000_0000_0000);
            }
            value = 2 * value + (if self.bits[from + i] {
                1u64
            } else {
                0u64
            });
            i = i + 1;
        }
        value
    }

    /// Reads a byte.
    fn byte(&mut self) -> (r: u64)
        requires
            old(self).wf(),
        ensures
            r == number_at(old(self).bits@, old(self).walk(), 8),
            final(self).went(old(self), skipped(old(self).bits@, old(self).walk(), 8)),
    {
        let value: u64 = if self.reads() && 8 <= self.bits.len() - self.at {
            self.number(self.at, 8)
        } else {
            0
        };
        self.skip(8);
        value
    }

    /// Reads a code.
    fn code(&mut self) -> (r: u64)
        requires
            old(self).wf(),
        ensures
            r == code_at(old(self).bits@, old(self).walk()),
            r < u64::MAX,
            final(self).went(old(self), coded(old(self).bits@, old(self).walk())),
    {
        if !self.reads() {
            return 0;
        }
        let ghost all = zeros_from(self.bits@, self.at as int);
        let mut zeros: usize = 0;
        let end: usize = self.bits.len();
        while self.at + zeros < end && !self.bits[self.at + zeros]
            invariant
                end == self.bits@.len(),
                self.at + zeros <= end,
                all == zeros + zeros_from(self.bits@, self.at + zeros),
            decreases self.bits@.len() - self.at - zeros,
        {
            zeros = zeros + 1;
        }
        if zeros >= MAX_CODE_ZEROS {
            self.overflowed = true;
            return 0;
        }
        let left: usize = end - self.at - zeros;
        if left <= zeros {
            self.ended = true;
            return 0;
        }
        let one: usize = self.at + zeros;
        let value: u64 = self.number(one, zeros + 1);
        proof {
            zeros_end(self.bits@, self.at as int);
            number_positive(self.bits@, one as int, (zeros + 1) as nat);
        }
        self.at = one + zeros + 1;
        value - 1
    }

    /// Reads codes.
    fn read_codes(&mut self, count: u64)
        requires
            old(self).wf(),
        ensures
            final(self).went(old(self), codes(old(self).bits@, old(self).walk(), count as nat)),
    {
        let ghost from = *self;
        let mut left: u64 = count;
        while left > 0 && self.reads()
            invariant
                self.wf(),
                self.bits@ == from.bits@,
                codes(from.bits@, from.walk(), count as nat) == codes(
                    self.bits@,
                    self.walk(),
                    left as nat,
                ),
            decreases left,
        {
            let _ = self.code();
            left = left - 1;
        }
    }

    /// Reads how colour is sampled.
    fn colour(&mut self)
        requires
            old(self).wf(),
        ensures
            final(self).went(old(self), behind_colour(old(self).bits@, old(self).walk())),
    {
        let format: u64 = self.code();
        if format == 3 {
            self.skip(1);
        }
        self.read_codes(2);
        self.skip(1);
        if self.flag() {
            self.ended = true;
        }
    }

    /// Reads how pictures are numbered and ordered.
    fn order(&mut self)
        requires
            old(self).wf(),
        ensures
            final(self).went(old(self), behind_order(old(self).bits@, old(self).walk())),
    {
        let _ = self.code();
        let order: u64 = self.code();
        if order == 0 {
            let _ = self.code();
        } else if order == 1 {
            self.skip(1);
            self.read_codes(2);
            let count: u64 = self.code();
            self.read_codes(count);
        }
    }

    /// Reads the size of the picture and what is cropped of it.
    fn picture(&mut self)
        requires
            old(self).wf(),
        ensures
            final(self).went(old(self), behind_picture(old(self).bits@, old(self).walk())),
    {
        let _ = self.code();
        self.skip(1);
        self.read_codes(2);
        let frames_only = self.flag();
        self.skip(
            if frames_only {
                1
            } else {
                2
            },
        );
        if self.flag() {
            self.read_codes(4);
        }
    }

    /// Reads the parameters of a buffer.
    fn buffer(&mut self)
        requires
            old(self).wf(),
        ensures
            final(self).went(old(self), behind_buffer(old(self).bits@, old(self).walk())),
    {
        let count: u64 = self.code();
        self.skip(8);
        let ghost from = *self;
        let mut left: u64 = count + 1;
        while left > 0 && self.reads()
            invariant
                self.wf(),
                self.bits@ == from.bits@,
                behind_schedules(from.bits@, from.walk(), (count + 1) as nat) == behind_schedules(
                    self.bits@,
                    self.walk(),
                    left as nat,
                ),
            decreases left,
        {
            self.read_codes(2);
            self.skip(1);
            left = left - 1;
        }
        self.skip(20);
    }

    /// Reads a flag and, where it is set, bits.
    fn optional(&mut self, count: usize)
        requires
            old(self).wf(),
        ensures
            final(self).went(
                old(self),
                behind_optional(old(self).bits@, old(self).walk(), count as int),
            ),
    {
        if self.flag() {
            self.skip(count);
        }
    }

    /// Reads a flag and, where it is set, the parameters of a buffer.
    fn optional_buffer(&mut self) -> (r: bool)
        requires
            old(self).wf(),
        ensures
            r == flag_at(old(self).bits@, old(self).walk()),
            final(self).went(old(self), behind_optional_buffer(old(self).bits@, old(self).walk())),
    {
        let set = self.flag();
        if set {
            self.buffer();
        }
        set
    }

    /// Reads the shape of a pixel.
    fn aspect(&mut self)
        requires
            old(self).wf(),
        ensures
            final(self).went(old(self), behind_aspect(old(self).bits@, old(self).walk())),
    {
        if self.flag() {
            if self.byte() == EXTENDED_ASPECT {
                self.skip(32);
            }
        }
    }

    /// Reads what the video signal is.
    fn signal(&mut self)
        requires
            old(self).wf(),
        ensures
            final(self).went(old(self), behind_signal(old(self).bits@, old(self).walk())),
    {
        if self.flag() {
            self.skip(4);
            self.optional(24);
        }
    }

    /// Reads where colour is sampled and how fast pictures follow each other.
    fn timing(&mut self)
        requires
            old(self).wf(),
        ensures
            final(self).went(old(self), behind_timing(old(self).bits@, old(self).walk())),
    {
        if self.flag() {
            self.read_codes(2);
        }
        self.optional(65);
    }

    /// Reads what helps to show the picture.
    fn usability(&mut self)
        requires
            old(self).wf(),
        ensures
            final(self).went(old(self), behind_usability(old(self).bits@, old(self).walk())),
    {
        self.aspect();
        self.optional(1);
        self.signal();
        self.timing();
        let first = self.optional_buffer();
        let second = self.optional_buffer();
        self.skip(
            if first || second {
                2
            } else {
                1
            },
        );
        if self.flag() {
            self.skip(1);
            self.read_codes(6);
        }
    }
}

/// Decides whether a reader of a coded parameter set comes to a code that does not fit a word.
pub fn sps_overflows(nalu: &[u8]) -> (r: bool)
    ensures
        r == set_overflows(nalu@),
{
    if nalu.len() == 0 || nalu[0] >= 128 || nalu[0] % 32 == 14 || nalu[0] % 32 == 20 || nalu[0] % 32
        == 21 {
        return false;
    }
    let bits = read_payload_bits(nalu);
    let mut reader = BitReader { bits: &bits, at: 0, ended: false, overflowed: false };
    let profile: u64 = reader.byte();
    reader.skip(16);
    let _ = reader.code();
    if profile == 100 || profile == 110 || profile == 122 || profile == 244 || profile == 44
        || profile == 83 || profile == 86 || profile == 118 || profile == 128 || profile == 138
        || profile == 139 || profile == 134 || profile == 135 {
        reader.colour();
    }
    reader.order();
    reader.picture();
    if reader.flag() {
        reader.usability();
    }
    reader.overflowed
}

} // verus!
