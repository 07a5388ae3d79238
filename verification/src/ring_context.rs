//! The ring context: the reference string and the ring size that every ring
//! proof is made and checked under, the rule that picks the size, and the
//! slot that holds the one context of a process.

use crate::suite::{
    domain_size, doubled_up_to, ring_capacity, srs_fits, srs_framed, srs_usable, COUNT_LEN,
    DOMAIN_OVERHEAD, G1_LEN, G2_LEN, RING_SIZE_LIMIT,
};
use vstd::bytes::u64_from_le_bytes;
use vstd::prelude::*;
use vstd::slice::{slice_subrange, slice_to_vec};
use vstd::string::StringSliceAdditionalSpecFns;

verus! {

/// The ring size used when none is configured.
pub const RING_SIZE_DEFAULT: usize = 1023;

/// Whether a byte is an ASCII decimal digit.
pub open spec fn is_digit(b: u8) -> bool {
    0x30 <= b <= 0x39
}

/// Whether every byte is an ASCII decimal digit.
pub open spec fn all_digits(s: Seq<u8>) -> bool {
    forall|i: int| 0 <= i < s.len() ==> is_digit(#[trigger] s[i])
}

/// The number that a string of decimal digits denotes.
pub open spec fn decimal_value(s: Seq<u8>) -> nat
    decreases s.len(),
{
    if s.len() == 0 {
        0
    } else {
        10 * decimal_value(s.drop_last()) + (s.last() - 0x30) as nat
    }
}

/// The text without one leading plus sign.
pub open spec fn unsigned_part(s: Seq<u8>) -> Seq<u8> {
    if s.len() > 0 && s[0] == 0x2b {
        s.subrange(1, s.len() as int)
    } else {
        s
    }
}

/// The size that a text denotes: decimal digits, at least one, after an
/// optional plus sign, with a value that fits the machine word.
pub open spec fn parsed_size(s: Seq<u8>) -> Option<usize> {
    let digits = unsigned_part(s);
    if digits.len() > 0 && all_digits(digits) && decimal_value(digits) <= usize::MAX {
        Some(decimal_value(digits) as usize)
    } else {
        None
    }
}

/// The ring size for a setting: what it denotes, or the default where it is
/// absent or denotes nothing.
pub open spec fn configured_size(setting: Option<Seq<u8>>) -> usize {
    match setting {
        Some(s) => match parsed_size(s) {
            Some(n) => n,
            None => RING_SIZE_DEFAULT,
        },
        None => RING_SIZE_DEFAULT,
    }
}

/// One more digit multiplies the value by ten and adds the digit.
proof fn lemma_decimal_step(s: Seq<u8>, k: int)
    requires
        0 <= k < s.len(),
    ensures
        decimal_value(s.take(k + 1)) == 10 * decimal_value(s.take(k)) + (s[k] - 0x30) as nat,
{
    assert(s.take(k + 1).drop_last() =~= s.take(k));
}

/// A prefix of a digit string denotes no more than the whole string.
proof fn lemma_decimal_prefix(s: Seq<u8>, k: int)
    requires
        0 <= k <= s.len(),
        all_digits(s),
    ensures
        decimal_value(s.take(k)) <= decimal_value(s),
    decreases s.len() - k,
{
    if k == s.len() {
        assert(s.take(k) =~= s);
    } else {
        lemma_decimal_step(s, k);
        assert(is_digit(s[k]));
        lemma_decimal_prefix(s, k + 1);
    }
}

/// Reads a size from a text, as `parsed_size` defines it.
pub fn parse_ring_size(text: &[u8]) -> (size: Option<usize>)
    ensures
        size == parsed_size(text@),
{
    let n = text.len();
    let start: usize = if n > 0 && text[0] == 0x2b {
        1
    } else {
        0
    };
    let ghost digits = unsigned_part(text@);
    assert(digits =~= text@.subrange(start as int, n as int));
    if start == n {
        return None;
    }
    let mut acc: usize = 0;
    let mut i: usize = start;
    assert(digits.take(0) =~= Seq::<u8>::empty());
    while i < n
        invariant
            start <= i <= n,
            n == text.len(),
            digits == text@.subrange(start as int, n as int),
            digits == unsigned_part(text@),
            digits.len() > 0,
            all_digits(digits.take(i - start)),
            acc == decimal_value(digits.take(i - start)),
        decreases n - i,
    {
        let b = text[i];
        let ghost k = i - start;
        assert(digits[k] == b);
        if b < 0x30 || b > 0x39 {
            assert(!is_digit(digits[k]));
            return None;
        }
        let digit = (b - 0x30) as usize;
        proof {
            lemma_decimal_step(digits, k);
        }
        if acc > (usize::MAX - digit) / 10 {
            proof {
                if all_digits(digits) {
                    lemma_decimal_prefix(digits, k + 1);
                }
            }
            return None;
        }
        acc = acc * 10 + digit;
        i += 1;
        proof {
            assert forall|j: int| 0 <= j < digits.take(k + 1).len() implies is_digit(
                #[trigger] digits.take(k + 1)[j],
            ) by {
                if j < k {
                    assert(digits.take(k + 1)[j] == digits.take(k)[j]);
                }
            }
        }
    }
    assert(digits.take(n - start) =~= digits);
    Some(acc)
}

/// The ring size that a setting asks for: the number it holds, or 1023 where
/// there is no setting or it holds no number.
pub fn configured_ring_size(setting: Option<&str>) -> (size: usize)
    ensures
        size == configured_size(setting_bytes(setting)),
{
    match setting {
        Some(s) => match parse_ring_size(s.as_bytes()) {
            Some(n) => n,
            None => RING_SIZE_DEFAULT,
        },
        None => RING_SIZE_DEFAULT,
    }
}

/// Doubling from a later power reaches the same power.
proof fn lemma_doubling_continues(n: nat, p: nat)
    requires
        0 < p < n,
    ensures
        doubled_up_to(n, p) == doubled_up_to(n, 2 * p),
{
}

/// The size of the evaluation domain for rings of `ring_size` keys: the
/// least power of two that is at least `ring_size + 257`.
pub fn piop_domain_size(ring_size: usize) -> (size: usize)
    requires
        ring_size <= RING_SIZE_LIMIT,
    ensures
        size == domain_size(ring_size as nat),
        size >= ring_size + DOMAIN_OVERHEAD,
        size < 0x8000_0000,
{
    let target: usize = ring_size + DOMAIN_OVERHEAD;
    let mut p: usize = 1;
    while p < target
        invariant
            0 < p < 0x8000_0000,
            target <= 0x4000_0000,
            doubled_up_to(target as nat, p as nat) == doubled_up_to(target as nat, 1),
        decreases (if p < target { target - p } else { 0 }),
    {
        proof {
            lemma_doubling_continues(target as nat, p as nat);
        }
        p = p * 2;
    }
    p
}

/// The number of keys that a ring can hold under a context made for
/// `ring_size` keys.
pub fn max_ring_size(ring_size: usize) -> (capacity: usize)
    requires
        ring_size <= RING_SIZE_LIMIT,
    ensures
        capacity == ring_capacity(ring_size as nat),
        capacity >= ring_size,
{
    piop_domain_size(ring_size) - DOMAIN_OVERHEAD
}

/// Checks that a reference string holds the points that its counts
/// announce.
pub fn srs_is_framed(srs: &[u8]) -> (ok: bool)
    ensures
        ok == srs_framed(srs@),
{
    let len = srs.len();
    if len < 2 * COUNT_LEN {
        return false;
    }
    let g1 = u64_from_le_bytes(slice_subrange(srs, 0, COUNT_LEN));
    let room = (len - 2 * COUNT_LEN) / G1_LEN;
    if g1 > room as u64 {
        return false;
    }
    let at = COUNT_LEN + G1_LEN * (g1 as usize);
    let g2 = u64_from_le_bytes(slice_subrange(srs, at, at + COUNT_LEN));
    let rest = (len - at - COUNT_LEN) / G2_LEN;
    g2 <= rest as u64
}

/// Whether a context can be built from a ring size and a reference string:
/// the size is within the limit, the string is framed, and the parameters
/// build from the two.
pub open spec fn context_valid(ring_size: usize, srs: Seq<u8>) -> bool {
    ring_size <= RING_SIZE_LIMIT && srs_framed(srs) && srs_fits(ring_size as int, srs)
}

/// The parameters of the ring proof system: the ring size it was made for
/// and the encoded reference string. Immutable once built.
pub struct RingContext {
    ring_size: usize,
    srs: Vec<u8>,
}

impl RingContext {
    /// The ring size that the context was made for.
    pub closed spec fn size(&self) -> usize {
        self.ring_size
    }

    /// The encoded reference string.
    pub closed spec fn srs(&self) -> Seq<u8> {
        self.srs@
    }

    /// Ring size and reference string together.
    pub open spec fn view(&self) -> (usize, Seq<u8>) {
        (self.size(), self.srs())
    }

    /// The invariant: the parameters build from what the context holds.
    #[verifier::type_invariant]
    pub open spec fn wf(&self) -> bool {
        context_valid(self.size(), self.srs())
    }

    /// Number of keys that a ring under this context can hold.
    pub open spec fn capacity(&self) -> int {
        ring_capacity(self.size() as nat)
    }

    /// Builds a context for rings of `ring_size` keys from an uncompressed
    /// reference string; `None` where the string does not decode or is too
    /// short for that size.
    pub fn from_srs(ring_size: usize, srs: Vec<u8>) -> (ctx: Option<RingContext>)
        ensures
            ctx.is_some() == context_valid(ring_size, srs@),
            ctx matches Some(c) ==> c.wf() && c@ == (ring_size, srs@),
    {
        if ring_size > RING_SIZE_LIMIT || !srs_is_framed(srs.as_slice()) {
            return None;
        }
        if !srs_usable(ring_size, srs.as_slice()) {
            return None;
        }
        Some(RingContext { ring_size, srs })
    }

    /// The ring size that the context was made for. Every context is
    /// well formed, which callers learn here.
    pub fn ring_size(&self) -> (size: usize)
        ensures
            size == self.size(),
            self.wf(),
    {
        proof {
            use_type_invariant(self);
        }
        self.ring_size
    }

    /// Number of keys that a ring under this context can hold.
    pub fn max_ring_size(&self) -> (capacity: usize)
        ensures
            capacity == self.capacity(),
            capacity >= self.size(),
    {
        proof {
            use_type_invariant(self);
        }
        max_ring_size(self.ring_size)
    }

    /// The encoded reference string.
    pub fn srs_bytes(&self) -> (srs: &[u8])
        ensures
            srs@ == self.srs(),
    {
        self.srs.as_slice()
    }
}

/// What a slot holds after an access that asks for `ring_size` and offers
/// `srs`: what it held, if anything; else the context built from the two,
/// if one can be built.
pub open spec fn slot_after(
    held: Option<(usize, Seq<u8>)>,
    ring_size: usize,
    srs: Seq<u8>,
) -> Option<(usize, Seq<u8>)> {
    match held {
        Some(c) => Some(c),
        None => if context_valid(ring_size, srs) {
            Some((ring_size, srs))
        } else {
            None
        },
    }
}

/// The place of the one ring context of a process: empty until the first
/// successful initialisation, never changed after it.
pub struct RingContextSlot {
    ctx: Option<RingContext>,
}

impl RingContextSlot {
    /// What the slot holds: the ring size and the reference string of its
    /// context.
    pub closed spec fn view(&self) -> Option<(usize, Seq<u8>)> {
        match self.ctx {
            Some(c) => Some(c@),
            None => None,
        }
    }

    /// An empty slot.
    pub fn new() -> (slot: RingContextSlot)
        ensures
            slot@.is_none(),
    {
        RingContextSlot { ctx: None }
    }

    /// Whether a context was built.
    pub fn is_initialized(&self) -> (yes: bool)
        ensures
            yes == self@.is_some(),
    {
        self.ctx.is_some()
    }

    /// The context, once built.
    pub fn get(&self) -> (ctx: Option<&RingContext>)
        ensures
            ctx.is_some() == self@.is_some(),
            ctx matches Some(c) ==> self@ == Some(c@),
    {
        match &self.ctx {
            Some(c) => Some(c),
            None => None,
        }
    }

    /// Builds the context on the first call that can; afterwards leaves the
    /// slot as it is, whatever size and string are passed. Returns whether
    /// the slot holds a context.
    pub fn get_or_init(&mut self, ring_size: usize, srs: &[u8]) -> (ready: bool)
        ensures
            final(self)@ == slot_after(old(self)@, ring_size, srs@),
            ready == final(self)@.is_some(),
    {
        if self.ctx.is_some() {
            return true;
        }
        match RingContext::from_srs(ring_size, slice_to_vec(srs)) {
            Some(ctx) => {
                self.ctx = Some(ctx);
                true
            },
            None => false,
        }
    }
}

/// The setting as bytes.
pub open spec fn setting_bytes(setting: Option<&str>) -> Option<Seq<u8>> {
    match setting {
        Some(s) => Some(s.spec_bytes()),
        None => None,
    }
}

/// Access to the process-wide context: reads the configured ring size and
/// builds the context from `srs` if none was built yet. The setting and the
/// string are ignored once a context exists.
pub fn ring_context(slot: &mut RingContextSlot, setting: Option<&str>, srs: &[u8]) -> (ready: bool)
    ensures
        final(slot)@ == slot_after(old(slot)@, configured_size(setting_bytes(setting)), srs@),
        ready == final(slot)@.is_some(),
{
    let ring_size = configured_ring_size(setting);
    slot.get_or_init(ring_size, srs)
}

/// Once a slot holds a context, no later access changes it: the ring size
/// of the first successful initialisation stays, whatever size is asked for
/// afterwards.
pub proof fn lemma_first_context_stays(
    held: Option<(usize, Seq<u8>)>,
    first_size: usize,
    first_srs: Seq<u8>,
    later_size: usize,
    later_srs: Seq<u8>,
)
    ensures
        slot_after(held, first_size, first_srs).is_some() ==> slot_after(
            slot_after(held, first_size, first_srs),
            later_size,
            later_srs,
        ) == slot_after(held, first_size, first_srs),
        held.is_none() && context_valid(first_size, first_srs) ==> slot_after(
            slot_after(held, first_size, first_srs),
            later_size,
            later_srs,
        ) == Some((first_size, first_srs)),
{
}

} // verus!
