use vstd::arithmetic::div_mod::lemma_div_denominator;
use vstd::prelude::*;

verus! {

/// Pixels covered by one segment of a bar.
pub const BAR_SEGMENT: usize = 8;

/// `value * width / max`, at most `width`; zero when `max` is zero.
pub open spec fn bar_fraction(value: int, max: int, width: int) -> int {
    if max == 0 {
        0
    } else if value * width / max > width {
        width
    } else {
        value * width / max
    }
}

/// How much of a bar `width` pixels long shows `value` out of `max`.
pub fn bar_value(value: u32, max: u32, width: u32) -> (r: u32)
    ensures
        r == bar_fraction(value as int, max as int, width as int),
        r <= width,
{
    if max == 0 {
        return 0;
    }
    assert((value as int) * (width as int) <= u64::MAX) by (nonlinear_arith)
        requires
            value <= u32::MAX,
            width <= u32::MAX,
    ;
    let scaled = (value as u64) * (width as u64) / (max as u64);
    if scaled > width as u64 {
        width
    } else {
        scaled as u32
    }
}

/// The sprite of segment `i` of a bar filled to `value` pixels: 0 is a full
/// segment, 8 an empty one, and one in between is filled to `8 - sprite`.
pub open spec fn segment_sprite(i: int, value: int) -> int {
    if (i + 1) * 8 < value {
        0
    } else if i * 8 < value {
        8 - (value - i * 8)
    } else {
        8
    }
}

/// The sprite of each segment of a bar `max` pixels long filled to `value`.
pub fn health_bar_sprites(max: usize, value: usize) -> (r: Vec<usize>)
    requires
        value <= max,
    ensures
        r.len() == max / 8,
        forall|i: int| 0 <= i < r.len() ==> #[trigger] r@[i] == segment_sprite(i, value as int),
{
    let count = max / BAR_SEGMENT;
    let mut r: Vec<usize> = Vec::new();
    let mut i: usize = 0;
    while i < count
        invariant
            count == max / 8,
            value <= max,
            i <= count,
            r.len() == i,
            forall|j: int| 0 <= j < i ==> #[trigger] r@[j] == segment_sprite(j, value as int),
        decreases count - i,
    {
        assert((i + 1) * 8 <= max) by (nonlinear_arith)
            requires
                i < count,
                count == max / 8,
        ;
        let sprite = if (i + 1) * BAR_SEGMENT < value {
            0
        } else if i * BAR_SEGMENT < value {
            BAR_SEGMENT - (value - i * BAR_SEGMENT)
        } else {
            BAR_SEGMENT
        };
        r.push(sprite);
        i += 1;
    }
    r
}

pub open spec fn pow10(n: nat) -> nat
    decreases n,
{
    if n == 0 {
        1
    } else {
        10 * pow10((n - 1) as nat)
    }
}

proof fn lemma_pow10_positive(n: nat)
    ensures
        pow10(n) > 0,
    decreases n,
{
    if n > 0 {
        lemma_pow10_positive((n - 1) as nat);
    }
}

/// The decimal digit of `value` at `place`, counting from the units.
pub open spec fn digit_at(value: nat, place: nat) -> nat {
    (value / pow10(place)) % 10
}

/// The last `count` decimal digits of `value`, most significant first.
pub fn fixed_digits(value: usize, count: usize) -> (r: Vec<u32>)
    ensures
        r.len() == count,
        forall|j: int|
            0 <= j < count ==> #[trigger] r@[j] == digit_at(value as nat, (count - 1 - j) as nat),
{
    let mut r: Vec<u32> = Vec::new();
    let mut k: usize = 0;
    while k < count
        invariant
            k <= count,
            r.len() == k,
            forall|j: int| 0 <= j < k ==> #[trigger] r@[j] == 0,
        decreases count - k,
    {
        r.push(0);
        k += 1;
    }
    let mut current = value;
    let mut i: usize = 0;
    assert(pow10(0) == 1);
    while i < count
        invariant
            i <= count,
            r.len() == count,
            current == value as nat / pow10(i as nat),
            forall|j: int|
                count - i <= j < count ==> #[trigger] r@[j] == digit_at(
                    value as nat,
                    (count - 1 - j) as nat,
                ),
        decreases count - i,
    {
        proof {
            lemma_pow10_positive(i as nat);
            lemma_div_denominator(value as int, pow10(i as nat) as int, 10);
            assert(pow10((i + 1) as nat) == pow10(i as nat) * 10);
        }
        let digit = (current % 10) as u32;
        current = current / 10;
        r.set(count - 1 - i, digit);
        i += 1;
    }
    r
}

/// The decimal digits of `n`, units first; zero has the one digit 0.
pub open spec fn decimal_digits(n: u32) -> Seq<u32>
    decreases n,
{
    if n < 10 {
        seq![n]
    } else {
        seq![(n % 10) as u32] + decimal_digits((n / 10) as u32)
    }
}

/// The decimal digits of `value`, units first.
pub fn number_digits(value: u32) -> (r: Vec<u32>)
    ensures
        r@ == decimal_digits(value),
{
    let mut r: Vec<u32> = Vec::new();
    let mut current = value;
    while current >= 10
        invariant
            r@ + decimal_digits(current) == decimal_digits(value),
        decreases current,
    {
        proof {
            assert(decimal_digits(current) == seq![(current % 10) as u32] + decimal_digits(
                (current / 10) as u32,
            ));
            assert(r@.push(current % 10) + decimal_digits((current / 10) as u32) =~= r@
                + decimal_digits(current));
        }
        r.push(current % 10);
        current = current / 10;
    }
    proof {
        assert(r@.push(current) =~= r@ + decimal_digits(current));
    }
    r.push(current);
    r
}

} // verus!
