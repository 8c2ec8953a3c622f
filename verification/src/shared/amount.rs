use vstd::prelude::*;

use vstd::std_specs::cmp::PartialEqSpecImpl;

verus! {

/// Largest mantissa magnitude of a decimal: 2^96 - 1.
pub const MAX_MANTISSA: i128 = 79228162514264337593543950335i128;

/// Largest number of fractional digits of a decimal.
pub const MAX_SCALE: u32 = 28u32;

/// 10 to the power `n`.
pub open spec fn pow10(n: nat) -> int
    decreases n,
{
    if n == 0 {
        1
    } else {
        10 * pow10((n - 1) as nat)
    }
}

/// Powers of ten are positive.
pub proof fn lemma_pow10_positive(n: nat)
    ensures
        pow10(n) > 0,
    decreases n,
{
    if n > 0 {
        lemma_pow10_positive((n - 1) as nat);
    }
}

/// Powers of ten grow with the exponent.
pub proof fn lemma_pow10_monotonic(a: nat, b: nat)
    requires
        a <= b,
    ensures
        pow10(a) <= pow10(b),
    decreases b,
{
    if a < b {
        lemma_pow10_monotonic(a, (b - 1) as nat);
        lemma_pow10_positive((b - 1) as nat);
    }
}

/// Whether `(mantissa, scale)` is a decimal that `rust_decimal` can hold.
pub open spec fn parts_valid(mantissa: int, scale: int) -> bool {
    -MAX_MANTISSA <= mantissa <= MAX_MANTISSA && 0 <= scale <= MAX_SCALE
}

/// The value of `mantissa / 10^scale` counted in units of 10^-28.
pub open spec fn parts_value(mantissa: int, scale: int) -> int {
    mantissa * pow10((MAX_SCALE - scale) as nat)
}

/// The value of a decimal given as (mantissa, scale).
pub open spec fn pair_value(parts: (i128, u32)) -> int {
    parts_value(parts.0 as int, parts.1 as int)
}

/// An exact sum of two decimals of scales `sa` and `sb` fits in a decimal of the
/// larger of the two scales.
pub open spec fn sum_fits(total: int, sa: int, sb: int) -> bool {
    let s = if sa >= sb { sa } else { sb };
    -MAX_MANTISSA * pow10((MAX_SCALE - s) as nat) <= total <= MAX_MANTISSA * pow10(
        (MAX_SCALE - s) as nat,
    )
}

/// `v` can be held exactly by a decimal of scale `s`.
pub open spec fn within_range(v: int, s: nat) -> bool {
    let e: nat = if s <= MAX_SCALE {
        (MAX_SCALE - s) as nat
    } else {
        0
    };
    -MAX_MANTISSA * pow10(e) <= v <= MAX_MANTISSA * pow10(e)
}

/// A total that is within range at scale `s` fits any addition whose operands have
/// scales no larger than `s`.
pub proof fn lemma_fits_from_range(v: int, s: nat, sa: int, sb: int)
    requires
        within_range(v, s),
        0 <= sa <= s,
        0 <= sb <= s,
        sa <= MAX_SCALE,
        sb <= MAX_SCALE,
    ensures
        sum_fits(v, sa, sb),
{
    let m = if sa >= sb { sa } else { sb };
    let e: nat = if s <= MAX_SCALE { (MAX_SCALE - s) as nat } else { 0 };
    lemma_pow10_monotonic(e, (MAX_SCALE - m) as nat);
    lemma_pow10_positive(e);
    let p = pow10(e);
    let q = pow10((MAX_SCALE - m) as nat);
    assert(MAX_MANTISSA * p <= MAX_MANTISSA * q) by (nonlinear_arith)
        requires
            p <= q,
            MAX_MANTISSA > 0,
    ;
}

/// The name of what `rust_decimal::Decimal::checked_add` returns on the decimals
/// `am / 10^as_` and `bm / 10^bs`, as (mantissa, scale); `None` where it overflows.
pub uninterp spec fn decimal_checked_add(am: i128, as_: u32, bm: i128, bs: u32) -> Option<(i128, u32)>;

/// The name of what `rust_decimal::Decimal::checked_sub` returns on the decimals
/// `am / 10^as_` and `bm / 10^bs`, as (mantissa, scale); `None` where it overflows.
pub uninterp spec fn decimal_checked_sub(am: i128, as_: u32, bm: i128, bs: u32) -> Option<(i128, u32)>;

/// The name of what `rust_decimal::Decimal::checked_mul` returns on the decimal
/// `am / 10^as_` and the integer `q`, as (mantissa, scale); `None` where it overflows.
pub uninterp spec fn decimal_checked_mul(am: i128, as_: u32, q: u32) -> Option<(i128, u32)>;

/// Calls `rust_decimal::Decimal::checked_add` on two decimals given by their parts.
/// Claims: the result is the named one; a result is always a valid decimal whose scale
/// does not exceed the larger input scale (the crate aligns to the larger scale and only
/// ever lowers it when rounding); where the exact sum fits at the larger scale, the result exists and has exactly that value
/// (the crate only rounds or overflows past 96 bits of mantissa).
#[verifier::external_body]
fn add_parts(am: i128, as_: u32, bm: i128, bs: u32) -> (r: Option<(i128, u32)>)
    requires
        parts_valid(am as int, as_ as int),
        parts_valid(bm as int, bs as int),
    ensures
        r == decimal_checked_add(am, as_, bm, bs),
        r matches Some(x) ==> parts_valid(x.0 as int, x.1 as int),
        r matches Some(x) ==> x.1 <= as_ || x.1 <= bs,
        r is None ==> !sum_fits(parts_value(am as int, as_ as int) + parts_value(bm as int, bs as int), as_ as int, bs as int),
        r is Some && sum_fits(parts_value(am as int, as_ as int) + parts_value(bm as int, bs as int), as_ as int, bs as int)
            ==> pair_value(r->0) == parts_value(am as int, as_ as int) + parts_value(bm as int, bs as int),
{
    let a = rust_decimal::Decimal::from_i128_with_scale(am, as_);
    let b = rust_decimal::Decimal::from_i128_with_scale(bm, bs);
    match a.checked_add(b) {
        Some(d) => Some((d.mantissa(), d.scale())),
        None => None,
    }
}

/// Calls `rust_decimal::Decimal::checked_sub` on two decimals given by their parts.
/// Claims: the result is the named one; a result is always a valid decimal whose scale
/// does not exceed the larger input scale; where the exact difference fits at the larger scale, the result exists and has exactly that value.
#[verifier::external_body]
fn sub_parts(am: i128, as_: u32, bm: i128, bs: u32) -> (r: Option<(i128, u32)>)
    requires
        parts_valid(am as int, as_ as int),
        parts_valid(bm as int, bs as int),
    ensures
        r == decimal_checked_sub(am, as_, bm, bs),
        r matches Some(x) ==> parts_valid(x.0 as int, x.1 as int),
        r matches Some(x) ==> x.1 <= as_ || x.1 <= bs,
        r is None ==> !sum_fits(parts_value(am as int, as_ as int) - parts_value(bm as int, bs as int), as_ as int, bs as int),
        r is Some && sum_fits(parts_value(am as int, as_ as int) - parts_value(bm as int, bs as int), as_ as int, bs as int)
            ==> pair_value(r->0) == parts_value(am as int, as_ as int) - parts_value(bm as int, bs as int),
{
    let a = rust_decimal::Decimal::from_i128_with_scale(am, as_);
    let b = rust_decimal::Decimal::from_i128_with_scale(bm, bs);
    match a.checked_sub(b) {
        Some(d) => Some((d.mantissa(), d.scale())),
        None => None,
    }
}

/// Calls `rust_decimal::Decimal::checked_mul` on a decimal given by its parts and
/// `Decimal::from(q)`. Claims: the result is the named one; a result is always a valid
/// decimal whose scale does not exceed the input scale (`q` has scale 0); where `am * q` fits in 96 bits the result exists and has exactly the value
/// of the product.
#[verifier::external_body]
fn mul_parts(am: i128, as_: u32, q: u32) -> (r: Option<(i128, u32)>)
    requires
        parts_valid(am as int, as_ as int),
    ensures
        r == decimal_checked_mul(am, as_, q),
        r matches Some(x) ==> parts_valid(x.0 as int, x.1 as int),
        r matches Some(x) ==> x.1 <= as_,
        r is None ==> !(-MAX_MANTISSA <= am * q <= MAX_MANTISSA),
        r is Some && -MAX_MANTISSA <= am * q <= MAX_MANTISSA
            ==> pair_value(r->0) == parts_value(am as int, as_ as int) * q,
{
    let a = rust_decimal::Decimal::from_i128_with_scale(am, as_);
    match a.checked_mul(rust_decimal::Decimal::from(q)) {
        Some(d) => Some((d.mantissa(), d.scale())),
        None => None,
    }
}

/// Compares two decimals with `rust_decimal`'s `==`, which compares their numeric values
/// (`1.0 == 1.00`). Claims exactly that.
#[verifier::external_body]
fn equal_parts(am: i128, as_: u32, bm: i128, bs: u32) -> (r: bool)
    requires
        parts_valid(am as int, as_ as int),
        parts_valid(bm as int, bs as int),
    ensures
        r == (parts_value(am as int, as_ as int) == parts_value(bm as int, bs as int)),
{
    let a = rust_decimal::Decimal::from_i128_with_scale(am, as_);
    let b = rust_decimal::Decimal::from_i128_with_scale(bm, bs);
    a == b
}

/// The decimal digits of `n`, most significant first; none for zero.
pub open spec fn digits(n: nat) -> Seq<char>
    decreases n,
{
    if n == 0 {
        Seq::empty()
    } else {
        digits(n / 10).push(((n % 10) + 48) as char)
    }
}

/// The digits of `n`, with zeros in front so that there are at least `scale` of them.
pub open spec fn padded_digits(n: nat, scale: nat) -> Seq<char> {
    let d = digits(n);
    if d.len() < scale {
        Seq::new((scale - d.len()) as nat, |i: int| '0') + d
    } else {
        d
    }
}

/// The unsigned text of `n / 10^scale`: the digits with a point before the last `scale`
/// of them and a `0` before a leading point; `0` for zero at scale zero.
pub open spec fn unsigned_decimal_text(n: nat, scale: nat) -> Seq<char> {
    let p = padded_digits(n, scale);
    let whole = (p.len() - scale) as int;
    if scale == 0 {
        if p.len() == 0 {
            seq!['0']
        } else {
            p
        }
    } else {
        (if whole == 0 {
            seq!['0']
        } else {
            p.take(whole)
        }) + seq!['.'] + p.skip(whole)
    }
}

/// The text that `rust_decimal::Decimal`'s `Display` writes for the decimal
/// `mantissa / 10^scale`: a minus sign for a negative value, then the unsigned text.
pub open spec fn decimal_text(mantissa: i128, scale: u32) -> Seq<char> {
    let magnitude: nat = if mantissa < 0 {
        (-mantissa) as nat
    } else {
        mantissa as nat
    };
    (if mantissa < 0 {
        seq!['-']
    } else {
        Seq::empty()
    }) + unsigned_decimal_text(magnitude, scale as nat)
}

/// The name of what `str::parse::<rust_decimal::Decimal>` gives for `text`: the parts of the
/// decimal, or the text of the parse error.
pub uninterp spec fn decimal_parsed(text: Seq<char>) -> Result<(i128, u32), Seq<char>>;

/// Writes a decimal given by its parts with `rust_decimal::Decimal`'s `Display`. Claims:
/// the text is `decimal_text` (the crate writes the digits of the mantissa, pads them with
/// zeros up to the scale, puts the point before the last `scale` digits, a `0` before a
/// leading point, and the sign of a negative value; a mantissa built from an `i128` zero is
/// never negative).
#[verifier::external_body]
fn format_parts(mantissa: i128, scale: u32) -> (r: String)
    requires
        parts_valid(mantissa as int, scale as int),
    ensures
        r@ == decimal_text(mantissa, scale),
{
    rust_decimal::Decimal::from_i128_with_scale(mantissa, scale).to_string()
}

/// Parses a decimal with `str::parse::<rust_decimal::Decimal>`. Claims: the result is the
/// named one, with the parts of the decimal or the text of the error; parts are those of a
/// valid decimal.
#[verifier::external_body]
fn parse_parts(text: &str) -> (r: Result<(i128, u32), String>)
    ensures
        r matches Ok(x) ==> decimal_parsed(text@) is Ok && decimal_parsed(text@)->Ok_0 == x
            && parts_valid(x.0 as int, x.1 as int),
        r matches Err(e) ==> decimal_parsed(text@) is Err && decimal_parsed(text@)->Err_0 == e@,
{
    match text.parse::<rust_decimal::Decimal>() {
        Ok(d) => Ok((d.mantissa(), d.scale())),
        Err(e) => Err(e.to_string()),
    }
}

/// A decimal number `mantissa / 10^scale`, as `rust_decimal::Decimal` represents it.
#[derive(Debug, Clone, Copy)]
pub struct Amount {
    mantissa: i128,
    scale: u32,
}

impl Amount {
    #[verifier::type_invariant]
    spec fn well_formed(self) -> bool {
        parts_valid(self.mantissa as int, self.scale as int)
    }

    /// The integer mantissa of the decimal.
    pub closed spec fn mantissa_spec(self) -> i128 {
        self.mantissa
    }

    /// The number of fractional digits of the decimal.
    pub closed spec fn scale_spec(self) -> u32 {
        self.scale
    }

    /// The value of the decimal in units of 10^-28.
    pub open spec fn value(self) -> int {
        parts_value(self.mantissa_spec() as int, self.scale_spec() as int)
    }

    /// The decimal with the given parts (meaningful when they are valid).
    pub closed spec fn from_parts_spec(parts: (i128, u32)) -> Amount {
        Amount { mantissa: parts.0, scale: parts.1 }
    }

    /// Zero, as `Decimal::ZERO` holds it.
    pub closed spec fn zero_spec() -> Amount {
        Amount { mantissa: 0, scale: 0 }
    }

    /// What `Decimal::checked_add` gives for `self + other`.
    pub closed spec fn sum_spec(self, other: Amount) -> Option<Amount> {
        match decimal_checked_add(self.mantissa, self.scale, other.mantissa, other.scale) {
            Some(x) => Some(Amount::from_parts_spec(x)),
            None => None,
        }
    }

    /// What `Decimal::checked_sub` gives for `self - other`.
    pub closed spec fn difference_spec(self, other: Amount) -> Option<Amount> {
        match decimal_checked_sub(self.mantissa, self.scale, other.mantissa, other.scale) {
            Some(x) => Some(Amount::from_parts_spec(x)),
            None => None,
        }
    }

    /// What `Decimal::checked_mul` gives for `self * q`.
    pub closed spec fn product_spec(self, q: u32) -> Option<Amount> {
        match decimal_checked_mul(self.mantissa, self.scale, q) {
            Some(x) => Some(Amount::from_parts_spec(x)),
            None => None,
        }
    }

    /// Zero has value zero and scale zero.
    pub proof fn lemma_zero_spec()
        ensures
            Amount::zero_spec().value() == 0,
            Amount::zero_spec().scale_spec() == 0,
    {
    }

    /// `num / 10^scale`; the scale may not exceed 28 (`Decimal::new` panics beyond).
    pub fn new(num: i64, scale: u32) -> (r: Amount)
        requires
            scale <= MAX_SCALE,
        ensures
            r.mantissa_spec() == num,
            r.scale_spec() == scale,
    {
        Amount { mantissa: num as i128, scale }
    }

    /// Zero.
    pub fn zero() -> (r: Amount)
        ensures
            r == Amount::zero_spec(),
            r.mantissa_spec() == 0,
            r.scale_spec() == 0,
            r.value() == 0,
    {
        Amount { mantissa: 0, scale: 0 }
    }

    /// The decimal `mantissa / 10^scale`, or `None` where `rust_decimal` cannot hold it.
    pub fn from_parts(mantissa: i128, scale: u32) -> (r: Option<Amount>)
        ensures
            r is Some <==> parts_valid(mantissa as int, scale as int),
            r matches Some(a) ==> a.mantissa_spec() == mantissa && a.scale_spec() == scale,
    {
        if -MAX_MANTISSA <= mantissa && mantissa <= MAX_MANTISSA && scale <= MAX_SCALE {
            Some(Amount { mantissa, scale })
        } else {
            None
        }
    }

    /// The mantissa.
    pub fn mantissa(&self) -> (r: i128)
        ensures
            r == self.mantissa_spec(),
            -MAX_MANTISSA <= r <= MAX_MANTISSA,
    {
        proof {
            use_type_invariant(self);
        }
        self.mantissa
    }

    /// The number of fractional digits.
    pub fn scale(&self) -> (r: u32)
        ensures
            r == self.scale_spec(),
            r <= MAX_SCALE,
    {
        proof {
            use_type_invariant(self);
        }
        self.scale
    }

    /// `self + other`, or `None` where the decimal addition overflows.
    pub fn checked_add(self, other: Amount) -> (r: Option<Amount>)
        ensures
            r == self.sum_spec(other),
            r matches Some(x) ==> x.scale_spec() <= self.scale_spec() || x.scale_spec() <= other.scale_spec(),
            sum_fits(self.value() + other.value(), self.scale_spec() as int, other.scale_spec() as int)
                ==> (r matches Some(x) && x.value() == self.value() + other.value()),
    {
        proof {
            use_type_invariant(&self);
            use_type_invariant(&other);
        }
        match add_parts(self.mantissa, self.scale, other.mantissa, other.scale) {
            Some(x) => Some(Amount { mantissa: x.0, scale: x.1 }),
            None => None,
        }
    }

    /// `self - other`, or `None` where the decimal subtraction overflows.
    pub fn checked_sub(self, other: Amount) -> (r: Option<Amount>)
        ensures
            r == self.difference_spec(other),
            r matches Some(x) ==> x.scale_spec() <= self.scale_spec() || x.scale_spec() <= other.scale_spec(),
            sum_fits(self.value() - other.value(), self.scale_spec() as int, other.scale_spec() as int)
                ==> (r matches Some(x) && x.value() == self.value() - other.value()),
    {
        proof {
            use_type_invariant(&self);
            use_type_invariant(&other);
        }
        match sub_parts(self.mantissa, self.scale, other.mantissa, other.scale) {
            Some(x) => Some(Amount { mantissa: x.0, scale: x.1 }),
            None => None,
        }
    }

    /// `self * q`, or `None` where the decimal multiplication overflows.
    pub fn checked_mul(self, q: u32) -> (r: Option<Amount>)
        ensures
            r == self.product_spec(q),
            r matches Some(x) ==> x.scale_spec() <= self.scale_spec(),
            -MAX_MANTISSA <= self.mantissa_spec() * q <= MAX_MANTISSA
                ==> (r matches Some(x) && x.value() == self.value() * q),
    {
        proof {
            use_type_invariant(&self);
        }
        match mul_parts(self.mantissa, self.scale, q) {
            Some(x) => Some(Amount { mantissa: x.0, scale: x.1 }),
            None => None,
        }
    }

    /// Whether the amount is zero or negative (`amount <= 0`).
    pub fn is_zero_or_negative(&self) -> (r: bool)
        ensures
            r == (self.value() <= 0),
    {
        proof {
            use_type_invariant(self);
            let p = pow10((MAX_SCALE - self.scale) as nat);
            lemma_pow10_positive((MAX_SCALE - self.scale) as nat);
            assert((self.mantissa as int) <= 0 <==> (self.mantissa as int) * p <= 0) by (nonlinear_arith)
                requires
                    p > 0,
            ;
        }
        self.mantissa <= 0
    }

    /// The text of the amount, as `Decimal` displays it.
    pub fn to_text(&self) -> (r: String)
        ensures
            r@ == decimal_text(self.mantissa_spec(), self.scale_spec()),
    {
        proof {
            use_type_invariant(self);
        }
        format_parts(self.mantissa, self.scale)
    }

    /// Parses the text of a decimal; the error is the text of the parse error.
    pub fn parse(text: &str) -> (r: Result<Amount, String>)
        ensures
            r matches Ok(a) ==> decimal_parsed(text@) is Ok && decimal_parsed(text@)->Ok_0 == (
                a.mantissa_spec(),
                a.scale_spec(),
            ),
            r matches Err(e) ==> decimal_parsed(text@) is Err && decimal_parsed(text@)->Err_0 == e@,
    {
        match parse_parts(text) {
            Ok(x) => Ok(Amount { mantissa: x.0, scale: x.1 }),
            Err(e) => Err(e),
        }
    }

    /// Numeric equality of two amounts (`1.0 == 1.00`).
    pub fn equals(&self, other: &Amount) -> (r: bool)
        ensures
            r == (self.value() == other.value()),
    {
        proof {
            use_type_invariant(self);
            use_type_invariant(other);
        }
        equal_parts(self.mantissa, self.scale, other.mantissa, other.scale)
    }
}

impl PartialEq for Amount {
    fn eq(&self, other: &Amount) -> (r: bool) {
        self.equals(other)
    }
}

impl Eq for Amount {
}

impl PartialEqSpecImpl for Amount {
    open spec fn obeys_eq_spec() -> bool {
        true
    }

    open spec fn eq_spec(&self, other: &Amount) -> bool {
        self.value() == other.value()
    }
}

} // verus!
