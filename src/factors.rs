//! Factors of primitive and standard types: the bounds within which their
//! values are drawn.
use vstd::prelude::*;
use rand::rngs::StdRng;
use rand::Rng;
use std::ops::Range;

verus! {

/// The random source that sampling draws from.
#[verifier::external_type_specification]
#[verifier::external_body]
pub struct ExStdRng(StdRng);

/// The factor of the unit type: there is nothing to configure.
#[derive(Clone, Copy, Debug, Default, PartialEq, Eq)]
pub struct UnitSurprise;

/// The factor of integers: values are drawn between `min` and `max`, both included.
#[derive(Clone, Debug, PartialEq)]
pub struct NumberSurprise<N> {
    pub min: N,
    pub max: N,
}

/// The factor of ranges: the factors of the start and end values.
pub struct RangeSurprise<N> {
    pub start: NumberSurprise<N>,
    pub end: NumberSurprise<N>,
}

/// Relies on `rand::Rng::gen_range` over `lo..=hi`: a value between the
/// bounds. It panics on an empty range, which `requires` rules out.
#[verifier::external_body]
fn draw_u8(rng: &mut StdRng, lo: u8, hi: u8) -> (r: u8)
    requires
        lo <= hi,
    ensures
        lo <= r <= hi,
{
    rng.gen_range(lo..=hi)
}

impl Default for NumberSurprise<u8> {
    /// The whole range of the type.
    fn default() -> (r: Self)
        ensures
            r.min == u8::MIN && r.max == u8::MAX,
    {
        NumberSurprise { min: u8::MIN, max: u8::MAX }
    }
}

impl NumberSurprise<u8> {
    /// A number between `min` and `max`, both included.
    pub fn sample(&self, rng: &mut StdRng) -> (r: u8)
        requires
            self.min <= self.max,
        ensures
            self.min <= r <= self.max,
    {
        draw_u8(rng, self.min, self.max)
    }

    /// A number between `min` and `max` that is not zero: the factor of the
    /// non-zero unsigned integers.
    pub fn sample_nonzero(&self, rng: &mut StdRng) -> (r: u8)
        requires
            self.max != 0,
            self.min <= self.max,
        ensures
            r != 0,
            self.min <= r <= self.max,
    {
        let lo = if self.min == 0 {
            1
        } else {
            self.min
        };
        draw_u8(rng, lo, self.max)
    }
}

impl RangeSurprise<u8> {
    /// A range whose bounds are drawn by `start` and `end`, in that order.
    pub fn sample(&self, rng: &mut StdRng) -> (r: Range<u8>)
        requires
            self.start.min <= self.start.max,
            self.end.min <= self.end.max,
        ensures
            self.start.min <= r.start <= self.start.max,
            self.end.min <= r.end <= self.end.max,
    {
        let start = self.start.sample(rng);
        let end = self.end.sample(rng);
        Range { start, end }
    }
}

/// Relies on `rand::Rng::gen_range` over `lo..=hi`: a value between the
/// bounds. It panics on an empty range, which `requires` rules out.
#[verifier::external_body]
fn draw_u16(rng: &mut StdRng, lo: u16, hi: u16) -> (r: u16)
    requires
        lo <= hi,
    ensures
        lo <= r <= hi,
{
    rng.gen_range(lo..=hi)
}

impl Default for NumberSurprise<u16> {
    /// The whole range of the type.
    fn default() -> (r: Self)
        ensures
            r.min == u16::MIN && r.max == u16::MAX,
    {
        NumberSurprise { min: u16::MIN, max: u16::MAX }
    }
}

impl NumberSurprise<u16> {
    /// A number between `min` and `max`, both included.
    pub fn sample(&self, rng: &mut StdRng) -> (r: u16)
        requires
            self.min <= self.max,
        ensures
            self.min <= r <= self.max,
    {
        draw_u16(rng, self.min, self.max)
    }

    /// A number between `min` and `max` that is not zero: the factor of the
    /// non-zero unsigned integers.
    pub fn sample_nonzero(&self, rng: &mut StdRng) -> (r: u16)
        requires
            self.max != 0,
            self.min <= self.max,
        ensures
            r != 0,
            self.min <= r <= self.max,
    {
        let lo = if self.min == 0 {
            1
        } else {
            self.min
        };
        draw_u16(rng, lo, self.max)
    }
}

impl RangeSurprise<u16> {
    /// A range whose bounds are drawn by `start` and `end`, in that order.
    pub fn sample(&self, rng: &mut StdRng) -> (r: Range<u16>)
        requires
            self.start.min <= self.start.max,
            self.end.min <= self.end.max,
        ensures
            self.start.min <= r.start <= self.start.max,
            self.end.min <= r.end <= self.end.max,
    {
        let start = self.start.sample(rng);
        let end = self.end.sample(rng);
        Range { start, end }
    }
}

/// Relies on `rand::Rng::gen_range` over `lo..=hi`: a value between the
/// bounds. It panics on an empty range, which `requires` rules out.
#[verifier::external_body]
fn draw_u32(rng: &mut StdRng, lo: u32, hi: u32) -> (r: u32)
    requires
        lo <= hi,
    ensures
        lo <= r <= hi,
{
    rng.gen_range(lo..=hi)
}

impl Default for NumberSurprise<u32> {
    /// The whole range of the type.
    fn default() -> (r: Self)
        ensures
            r.min == u32::MIN && r.max == u32::MAX,
    {
        NumberSurprise { min: u32::MIN, max: u32::MAX }
    }
}

impl NumberSurprise<u32> {
    /// A number between `min` and `max`, both included.
    pub fn sample(&self, rng: &mut StdRng) -> (r: u32)
        requires
            self.min <= self.max,
        ensures
            self.min <= r <= self.max,
    {
        draw_u32(rng, self.min, self.max)
    }

    /// A number between `min` and `max` that is not zero: the factor of the
    /// non-zero unsigned integers.
    pub fn sample_nonzero(&self, rng: &mut StdRng) -> (r: u32)
        requires
            self.max != 0,
            self.min <= self.max,
        ensures
            r != 0,
            self.min <= r <= self.max,
    {
        let lo = if self.min == 0 {
            1
        } else {
            self.min
        };
        draw_u32(rng, lo, self.max)
    }
}

impl RangeSurprise<u32> {
    /// A range whose bounds are drawn by `start` and `end`, in that order.
    pub fn sample(&self, rng: &mut StdRng) -> (r: Range<u32>)
        requires
            self.start.min <= self.start.max,
            self.end.min <= self.end.max,
        ensures
            self.start.min <= r.start <= self.start.max,
            self.end.min <= r.end <= self.end.max,
    {
        let start = self.start.sample(rng);
        let end = self.end.sample(rng);
        Range { start, end }
    }
}

/// Relies on `rand::Rng::gen_range` over `lo..=hi`: a value between the
/// bounds. It panics on an empty range, which `requires` rules out.
#[verifier::external_body]
fn draw_u64(rng: &mut StdRng, lo: u64, hi: u64) -> (r: u64)
    requires
        lo <= hi,
    ensures
        lo <= r <= hi,
{
    rng.gen_range(lo..=hi)
}

impl Default for NumberSurprise<u64> {
    /// The whole range of the type.
    fn default() -> (r: Self)
        ensures
            r.min == u64::MIN && r.max == u64::MAX,
    {
        NumberSurprise { min: u64::MIN, max: u64::MAX }
    }
}

impl NumberSurprise<u64> {
    /// A number between `min` and `max`, both included.
    pub fn sample(&self, rng: &mut StdRng) -> (r: u64)
        requires
            self.min <= self.max,
        ensures
            self.min <= r <= self.max,
    {
        draw_u64(rng, self.min, self.max)
    }

    /// A number between `min` and `max` that is not zero: the factor of the
    /// non-zero unsigned integers.
    pub fn sample_nonzero(&self, rng: &mut StdRng) -> (r: u64)
        requires
            self.max != 0,
            self.min <= self.max,
        ensures
            r != 0,
            self.min <= r <= self.max,
    {
        let lo = if self.min == 0 {
            1
        } else {
            self.min
        };
        draw_u64(rng, lo, self.max)
    }
}

impl RangeSurprise<u64> {
    /// A range whose bounds are drawn by `start` and `end`, in that order.
    pub fn sample(&self, rng: &mut StdRng) -> (r: Range<u64>)
        requires
            self.start.min <= self.start.max,
            self.end.min <= self.end.max,
        ensures
            self.start.min <= r.start <= self.start.max,
            self.end.min <= r.end <= self.end.max,
    {
        let start = self.start.sample(rng);
        let end = self.end.sample(rng);
        Range { start, end }
    }
}

/// Relies on `rand::Rng::gen_range` over `lo..=hi`: a value between the
/// bounds. It panics on an empty range, which `requires` rules out.
#[verifier::external_body]
fn draw_u128(rng: &mut StdRng, lo: u128, hi: u128) -> (r: u128)
    requires
        lo <= hi,
    ensures
        lo <= r <= hi,
{
    rng.gen_range(lo..=hi)
}

impl Default for NumberSurprise<u128> {
    /// The whole range of the type.
    fn default() -> (r: Self)
        ensures
            r.min == u128::MIN && r.max == u128::MAX,
    {
        NumberSurprise { min: u128::MIN, max: u128::MAX }
    }
}

impl NumberSurprise<u128> {
    /// A number between `min` and `max`, both included.
    pub fn sample(&self, rng: &mut StdRng) -> (r: u128)
        requires
            self.min <= self.max,
        ensures
            self.min <= r <= self.max,
    {
        draw_u128(rng, self.min, self.max)
    }

    /// A number between `min` and `max` that is not zero: the factor of the
    /// non-zero unsigned integers.
    pub fn sample_nonzero(&self, rng: &mut StdRng) -> (r: u128)
        requires
            self.max != 0,
            self.min <= self.max,
        ensures
            r != 0,
            self.min <= r <= self.max,
    {
        let lo = if self.min == 0 {
            1
        } else {
            self.min
        };
        draw_u128(rng, lo, self.max)
    }
}

impl RangeSurprise<u128> {
    /// A range whose bounds are drawn by `start` and `end`, in that order.
    pub fn sample(&self, rng: &mut StdRng) -> (r: Range<u128>)
        requires
            self.start.min <= self.start.max,
            self.end.min <= self.end.max,
        ensures
            self.start.min <= r.start <= self.start.max,
            self.end.min <= r.end <= self.end.max,
    {
        let start = self.start.sample(rng);
        let end = self.end.sample(rng);
        Range { start, end }
    }
}

/// Relies on `rand::Rng::gen_range` over `lo..=hi`: a value between the
/// bounds. It panics on an empty range, which `requires` rules out.
#[verifier::external_body]
fn draw_usize(rng: &mut StdRng, lo: usize, hi: usize) -> (r: usize)
    requires
        lo <= hi,
    ensures
        lo <= r <= hi,
{
    rng.gen_range(lo..=hi)
}

impl Default for NumberSurprise<usize> {
    /// The whole range of the type.
    fn default() -> (r: Self)
        ensures
            r.min == usize::MIN && r.max == usize::MAX,
    {
        NumberSurprise { min: usize::MIN, max: usize::MAX }
    }
}

impl NumberSurprise<usize> {
    /// A number between `min` and `max`, both included.
    pub fn sample(&self, rng: &mut StdRng) -> (r: usize)
        requires
            self.min <= self.max,
        ensures
            self.min <= r <= self.max,
    {
        draw_usize(rng, self.min, self.max)
    }

    /// A number between `min` and `max` that is not zero: the factor of the
    /// non-zero unsigned integers.
    pub fn sample_nonzero(&self, rng: &mut StdRng) -> (r: usize)
        requires
            self.max != 0,
            self.min <= self.max,
        ensures
            r != 0,
            self.min <= r <= self.max,
    {
        let lo = if self.min == 0 {
            1
        } else {
            self.min
        };
        draw_usize(rng, lo, self.max)
    }
}

impl RangeSurprise<usize> {
    /// A range whose bounds are drawn by `start` and `end`, in that order.
    pub fn sample(&self, rng: &mut StdRng) -> (r: Range<usize>)
        requires
            self.start.min <= self.start.max,
            self.end.min <= self.end.max,
        ensures
            self.start.min <= r.start <= self.start.max,
            self.end.min <= r.end <= self.end.max,
    {
        let start = self.start.sample(rng);
        let end = self.end.sample(rng);
        Range { start, end }
    }
}

/// Relies on `rand::Rng::gen_range` over `lo..=hi`: a value between the
/// bounds. It panics on an empty range, which `requires` rules out.
#[verifier::external_body]
fn draw_i8(rng: &mut StdRng, lo: i8, hi: i8) -> (r: i8)
    requires
        lo <= hi,
    ensures
        lo <= r <= hi,
{
    rng.gen_range(lo..=hi)
}

impl Default for NumberSurprise<i8> {
    /// The whole range of the type.
    fn default() -> (r: Self)
        ensures
            r.min == i8::MIN && r.max == i8::MAX,
    {
        NumberSurprise { min: i8::MIN, max: i8::MAX }
    }
}

impl NumberSurprise<i8> {
    /// A number between `min` and `max`, both included.
    pub fn sample(&self, rng: &mut StdRng) -> (r: i8)
        requires
            self.min <= self.max,
        ensures
            self.min <= r <= self.max,
    {
        draw_i8(rng, self.min, self.max)
    }
}

impl RangeSurprise<i8> {
    /// A range whose bounds are drawn by `start` and `end`, in that order.
    pub fn sample(&self, rng: &mut StdRng) -> (r: Range<i8>)
        requires
            self.start.min <= self.start.max,
            self.end.min <= self.end.max,
        ensures
            self.start.min <= r.start <= self.start.max,
            self.end.min <= r.end <= self.end.max,
    {
        let start = self.start.sample(rng);
        let end = self.end.sample(rng);
        Range { start, end }
    }
}

/// Relies on `rand::Rng::gen_range` over `lo..=hi`: a value between the
/// bounds. It panics on an empty range, which `requires` rules out.
#[verifier::external_body]
fn draw_i16(rng: &mut StdRng, lo: i16, hi: i16) -> (r: i16)
    requires
        lo <= hi,
    ensures
        lo <= r <= hi,
{
    rng.gen_range(lo..=hi)
}

impl Default for NumberSurprise<i16> {
    /// The whole range of the type.
    fn default() -> (r: Self)
        ensures
            r.min == i16::MIN && r.max == i16::MAX,
    {
        NumberSurprise { min: i16::MIN, max: i16::MAX }
    }
}

impl NumberSurprise<i16> {
    /// A number between `min` and `max`, both included.
    pub fn sample(&self, rng: &mut StdRng) -> (r: i16)
        requires
            self.min <= self.max,
        ensures
            self.min <= r <= self.max,
    {
        draw_i16(rng, self.min, self.max)
    }
}

impl RangeSurprise<i16> {
    /// A range whose bounds are drawn by `start` and `end`, in that order.
    pub fn sample(&self, rng: &mut StdRng) -> (r: Range<i16>)
        requires
            self.start.min <= self.start.max,
            self.end.min <= self.end.max,
        ensures
            self.start.min <= r.start <= self.start.max,
            self.end.min <= r.end <= self.end.max,
    {
        let start = self.start.sample(rng);
        let end = self.end.sample(rng);
        Range { start, end }
    }
}

/// Relies on `rand::Rng::gen_range` over `lo..=hi`: a value between the
/// bounds. It panics on an empty range, which `requires` rules out.
#[verifier::external_body]
fn draw_i32(rng: &mut StdRng, lo: i32, hi: i32) -> (r: i32)
    requires
        lo <= hi,
    ensures
        lo <= r <= hi,
{
    rng.gen_range(lo..=hi)
}

impl Default for NumberSurprise<i32> {
    /// The whole range of the type.
    fn default() -> (r: Self)
        ensures
            r.min == i32::MIN && r.max == i32::MAX,
    {
        NumberSurprise { min: i32::MIN, max: i32::MAX }
    }
}

impl NumberSurprise<i32> {
    /// A number between `min` and `max`, both included.
    pub fn sample(&self, rng: &mut StdRng) -> (r: i32)
        requires
            self.min <= self.max,
        ensures
            self.min <= r <= self.max,
    {
        draw_i32(rng, self.min, self.max)
    }
}

impl RangeSurprise<i32> {
    /// A range whose bounds are drawn by `start` and `end`, in that order.
    pub fn sample(&self, rng: &mut StdRng) -> (r: Range<i32>)
        requires
            self.start.min <= self.start.max,
            self.end.min <= self.end.max,
        ensures
            self.start.min <= r.start <= self.start.max,
            self.end.min <= r.end <= self.end.max,
    {
        let start = self.start.sample(rng);
        let end = self.end.sample(rng);
        Range { start, end }
    }
}

/// Relies on `rand::Rng::gen_range` over `lo..=hi`: a value between the
/// bounds. It panics on an empty range, which `requires` rules out.
#[verifier::external_body]
fn draw_i64(rng: &mut StdRng, lo: i64, hi: i64) -> (r: i64)
    requires
        lo <= hi,
    ensures
        lo <= r <= hi,
{
    rng.gen_range(lo..=hi)
}

impl Default for NumberSurprise<i64> {
    /// The whole range of the type.
    fn default() -> (r: Self)
        ensures
            r.min == i64::MIN && r.max == i64::MAX,
    {
        NumberSurprise { min: i64::MIN, max: i64::MAX }
    }
}

impl NumberSurprise<i64> {
    /// A number between `min` and `max`, both included.
    pub fn sample(&self, rng: &mut StdRng) -> (r: i64)
        requires
            self.min <= self.max,
        ensures
            self.min <= r <= self.max,
    {
        draw_i64(rng, self.min, self.max)
    }
}

impl RangeSurprise<i64> {
    /// A range whose bounds are drawn by `start` and `end`, in that order.
    pub fn sample(&self, rng: &mut StdRng) -> (r: Range<i64>)
        requires
            self.start.min <= self.start.max,
            self.end.min <= self.end.max,
        ensures
            self.start.min <= r.start <= self.start.max,
            self.end.min <= r.end <= self.end.max,
    {
        let start = self.start.sample(rng);
        let end = self.end.sample(rng);
        Range { start, end }
    }
}

/// Relies on `rand::Rng::gen_range` over `lo..=hi`: a value between the
/// bounds. It panics on an empty range, which `requires` rules out.
#[verifier::external_body]
fn draw_i128(rng: &mut StdRng, lo: i128, hi: i128) -> (r: i128)
    requires
        lo <= hi,
    ensures
        lo <= r <= hi,
{
    rng.gen_range(lo..=hi)
}

impl Default for NumberSurprise<i128> {
    /// The whole range of the type.
    fn default() -> (r: Self)
        ensures
            r.min == i128::MIN && r.max == i128::MAX,
    {
        NumberSurprise { min: i128::MIN, max: i128::MAX }
    }
}

impl NumberSurprise<i128> {
    /// A number between `min` and `max`, both included.
    pub fn sample(&self, rng: &mut StdRng) -> (r: i128)
        requires
            self.min <= self.max,
        ensures
            self.min <= r <= self.max,
    {
        draw_i128(rng, self.min, self.max)
    }
}

impl RangeSurprise<i128> {
    /// A range whose bounds are drawn by `start` and `end`, in that order.
    pub fn sample(&self, rng: &mut StdRng) -> (r: Range<i128>)
        requires
            self.start.min <= self.start.max,
            self.end.min <= self.end.max,
        ensures
            self.start.min <= r.start <= self.start.max,
            self.end.min <= r.end <= self.end.max,
    {
        let start = self.start.sample(rng);
        let end = self.end.sample(rng);
        Range { start, end }
    }
}

/// Relies on `rand::Rng::gen_range` over `lo..=hi`: a value between the
/// bounds. It panics on an empty range, which `requires` rules out.
#[verifier::external_body]
fn draw_isize(rng: &mut StdRng, lo: isize, hi: isize) -> (r: isize)
    requires
        lo <= hi,
    ensures
        lo <= r <= hi,
{
    rng.gen_range(lo..=hi)
}

impl Default for NumberSurprise<isize> {
    /// The whole range of the type.
    fn default() -> (r: Self)
        ensures
            r.min == isize::MIN && r.max == isize::MAX,
    {
        NumberSurprise { min: isize::MIN, max: isize::MAX }
    }
}

impl NumberSurprise<isize> {
    /// A number between `min` and `max`, both included.
    pub fn sample(&self, rng: &mut StdRng) -> (r: isize)
        requires
            self.min <= self.max,
        ensures
            self.min <= r <= self.max,
    {
        draw_isize(rng, self.min, self.max)
    }
}

impl RangeSurprise<isize> {
    /// A range whose bounds are drawn by `start` and `end`, in that order.
    pub fn sample(&self, rng: &mut StdRng) -> (r: Range<isize>)
        requires
            self.start.min <= self.start.max,
            self.end.min <= self.end.max,
        ensures
            self.start.min <= r.start <= self.start.max,
            self.end.min <= r.end <= self.end.max,
    {
        let start = self.start.sample(rng);
        let end = self.end.sample(rng);
        Range { start, end }
    }
}


/// ASCII letters and digits.
pub open spec fn is_ascii_alphanumeric(c: char) -> bool {
    ('a' <= c && c <= 'z') || ('A' <= c && c <= 'Z') || ('0' <= c && c <= '9')
}

/// Relies on `rand::distributions::Alphanumeric`: a byte among `A-Z`,
/// `a-z` and `0-9`, taken as a `char`.
#[verifier::external_body]
fn draw_alphanumeric(rng: &mut StdRng) -> (r: char)
    ensures
        is_ascii_alphanumeric(r),
{
    rng.sample(rand::distributions::Alphanumeric) as char
}

/// Relies on `rand::distributions::Standard` for `char`: any valid `char`.
#[verifier::external_body]
fn draw_char(rng: &mut StdRng) -> (r: char) {
    rng.sample(rand::distributions::Standard)
}

/// The factor of `char`: which characters are drawn.
#[derive(Clone, Copy, Debug, PartialEq, Eq, Structural)]
pub enum CharSurprise {
    /// ASCII letters and digits only.
    Ascii,
    /// Any Unicode scalar value.
    Unicode,
}

impl Default for CharSurprise {
    fn default() -> (r: Self)
        ensures
            r == CharSurprise::Ascii,
    {
        CharSurprise::Ascii
    }
}

impl CharSurprise {
    /// A character of the configured kind.
    pub fn sample(&self, rng: &mut StdRng) -> (r: char)
        ensures
            *self == CharSurprise::Ascii ==> is_ascii_alphanumeric(r),
    {
        match self {
            CharSurprise::Ascii => draw_alphanumeric(rng),
            CharSurprise::Unicode => draw_char(rng),
        }
    }
}

/// Relies on `String`'s `FromIterator<char>`: the characters in order.
#[verifier::external_body]
fn string_from_chars(cs: &Vec<char>) -> (r: String)
    ensures
        r@ == cs@,
{
    cs.iter().collect()
}

/// The factor of `String`: bounds on the length, and the kind of characters.
#[derive(Clone, Debug, PartialEq, Eq)]
pub struct StringSurprise {
    pub min_len: usize,
    pub max_len: usize,
    pub chars: CharSurprise,
}

impl Default for StringSurprise {
    /// Up to a hundred ASCII letters and digits.
    fn default() -> (r: Self)
        ensures
            r.min_len == 0 && r.max_len == 100 && r.chars == CharSurprise::Ascii,
    {
        StringSurprise { min_len: 0, max_len: 100, chars: CharSurprise::Ascii }
    }
}

impl StringSurprise {
    /// A length between `min_len` and `max_len`, both included.
    pub fn len(&self, rng: &mut StdRng) -> (r: usize)
        requires
            self.min_len <= self.max_len,
        ensures
            self.min_len <= r <= self.max_len,
    {
        draw_usize(rng, self.min_len, self.max_len)
    }

    /// A string whose length is drawn first, then each of its characters.
    pub fn sample(&self, rng: &mut StdRng) -> (r: String)
        requires
            self.min_len <= self.max_len,
        ensures
            self.min_len <= r@.len() <= self.max_len,
            self.chars == CharSurprise::Ascii ==> forall|i: int|
                0 <= i < r@.len() ==> is_ascii_alphanumeric(#[trigger] r@[i]),
    {
        let len = self.len(rng);
        let mut cs: Vec<char> = Vec::new();
        let mut i: usize = 0;
        while i < len
            invariant
                i <= len,
                cs@.len() == i,
                self.chars == CharSurprise::Ascii ==> forall|j: int|
                    0 <= j < i ==> is_ascii_alphanumeric(#[trigger] cs@[j]),
            decreases len - i,
        {
            let c = self.chars.sample(rng);
            cs.push(c);
            i = i + 1;
        }
        string_from_chars(&cs)
    }
}

} // verus!
