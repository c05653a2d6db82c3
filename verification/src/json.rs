//! Serialisation of the motion state to its compact JSON wire form, and the
//! strict parser of that same form.
//!
//! The wire format is
//! `{"state":S,"depth":N,"stroke":N,"speed":N,"sensation":N,"pattern":N}`
//! where `S` is `"strokeEngine"` when motion is enabled and `"menu"`
//! otherwise, and every `N` is a decimal integer percentage (the pattern
//! index is a plain integer).  All text is handled as bytes: the format is
//! pure ASCII.

use vstd::prelude::*;

use crate::config::MAX_STATE_LENGTH;
use crate::motion_state::MotionState;

verus! {

/// The canonical decimal digits of a number.
pub open spec fn spec_dec(n: nat) -> Seq<u8>
    decreases n,
{
    if n < 10 {
        seq![(0x30 + n) as u8]
    } else {
        spec_dec(n / 10) + seq![(0x30 + n % 10) as u8]
    }
}

/// Append the canonical decimal digits of `n`.
pub fn push_dec_u32(out: &mut Vec<u8>, n: u32)
    ensures
        final(out)@ == old(out)@ + spec_dec(n as nat),
    decreases n,
{
    if n >= 10 {
        push_dec_u32(out, n / 10);
    }
    out.push(0x30 + (n % 10) as u8);
    proof {
        assert(out@ =~= old(out)@ + spec_dec(n as nat));
    }
}

/// The bytes of `{"state":"`.
pub open spec fn lit_obj_open_state() -> Seq<u8> {
    seq![0x7bu8, 0x22u8, 0x73u8, 0x74u8, 0x61u8, 0x74u8, 0x65u8, 0x22u8, 0x3au8, 0x22u8]
}

/// Append `{"state":"`.
fn push_obj_open_state(out: &mut Vec<u8>)
    ensures
        final(out)@ == old(out)@ + lit_obj_open_state(),
{
    out.push(0x7b);
    out.push(0x22);
    out.push(0x73);
    out.push(0x74);
    out.push(0x61);
    out.push(0x74);
    out.push(0x65);
    out.push(0x22);
    out.push(0x3a);
    out.push(0x22);
    proof {
        assert(out@ =~= old(out)@ + lit_obj_open_state());
    }
}

/// The bytes of `strokeEngine`.
pub open spec fn lit_state_stroke_engine() -> Seq<u8> {
    seq![0x73u8, 0x74u8, 0x72u8, 0x6fu8, 0x6bu8, 0x65u8, 0x45u8, 0x6eu8, 0x67u8, 0x69u8, 0x6eu8, 0x65u8]
}

/// Append `strokeEngine`.
fn push_state_stroke_engine(out: &mut Vec<u8>)
    ensures
        final(out)@ == old(out)@ + lit_state_stroke_engine(),
{
    out.push(0x73);
    out.push(0x74);
    out.push(0x72);
    out.push(0x6f);
    out.push(0x6b);
    out.push(0x65);
    out.push(0x45);
    out.push(0x6e);
    out.push(0x67);
    out.push(0x69);
    out.push(0x6e);
    out.push(0x65);
    proof {
        assert(out@ =~= old(out)@ + lit_state_stroke_engine());
    }
}

/// The bytes of `menu`.
pub open spec fn lit_state_menu() -> Seq<u8> {
    seq![0x6du8, 0x65u8, 0x6eu8, 0x75u8]
}

/// Append `menu`.
fn push_state_menu(out: &mut Vec<u8>)
    ensures
        final(out)@ == old(out)@ + lit_state_menu(),
{
    out.push(0x6d);
    out.push(0x65);
    out.push(0x6e);
    out.push(0x75);
    proof {
        assert(out@ =~= old(out)@ + lit_state_menu());
    }
}

/// The bytes of `","depth":`.
pub open spec fn lit_key_depth() -> Seq<u8> {
    seq![0x22u8, 0x2cu8, 0x22u8, 0x64u8, 0x65u8, 0x70u8, 0x74u8, 0x68u8, 0x22u8, 0x3au8]
}

/// Append `","depth":`.
fn push_key_depth(out: &mut Vec<u8>)
    ensures
        final(out)@ == old(out)@ + lit_key_depth(),
{
    out.push(0x22);
    out.push(0x2c);
    out.push(0x22);
    out.push(0x64);
    out.push(0x65);
    out.push(0x70);
    out.push(0x74);
    out.push(0x68);
    out.push(0x22);
    out.push(0x3a);
    proof {
        assert(out@ =~= old(out)@ + lit_key_depth());
    }
}

/// The bytes of `,"stroke":`.
pub open spec fn lit_key_stroke() -> Seq<u8> {
    seq![0x2cu8, 0x22u8, 0x73u8, 0x74u8, 0x72u8, 0x6fu8, 0x6bu8, 0x65u8, 0x22u8, 0x3au8]
}

/// Append `,"stroke":`.
fn push_key_stroke(out: &mut Vec<u8>)
    ensures
        final(out)@ == old(out)@ + lit_key_stroke(),
{
    out.push(0x2c);
    out.push(0x22);
    out.push(0x73);
    out.push(0x74);
    out.push(0x72);
    out.push(0x6f);
    out.push(0x6b);
    out.push(0x65);
    out.push(0x22);
    out.push(0x3a);
    proof {
        assert(out@ =~= old(out)@ + lit_key_stroke());
    }
}

/// The bytes of `,"speed":`.
pub open spec fn lit_key_speed() -> Seq<u8> {
    seq![0x2cu8, 0x22u8, 0x73u8, 0x70u8, 0x65u8, 0x65u8, 0x64u8, 0x22u8, 0x3au8]
}

/// Append `,"speed":`.
fn push_key_speed(out: &mut Vec<u8>)
    ensures
        final(out)@ == old(out)@ + lit_key_speed(),
{
    out.push(0x2c);
    out.push(0x22);
    out.push(0x73);
    out.push(0x70);
    out.push(0x65);
    out.push(0x65);
    out.push(0x64);
    out.push(0x22);
    out.push(0x3a);
    proof {
        assert(out@ =~= old(out)@ + lit_key_speed());
    }
}

/// The bytes of `,"sensation":`.
pub open spec fn lit_key_sensation() -> Seq<u8> {
    seq![0x2cu8, 0x22u8, 0x73u8, 0x65u8, 0x6eu8, 0x73u8, 0x61u8, 0x74u8, 0x69u8, 0x6fu8, 0x6eu8, 0x22u8, 0x3au8]
}

/// Append `,"sensation":`.
fn push_key_sensation(out: &mut Vec<u8>)
    ensures
        final(out)@ == old(out)@ + lit_key_sensation(),
{
    out.push(0x2c);
    out.push(0x22);
    out.push(0x73);
    out.push(0x65);
    out.push(0x6e);
    out.push(0x73);
    out.push(0x61);
    out.push(0x74);
    out.push(0x69);
    out.push(0x6f);
    out.push(0x6e);
    out.push(0x22);
    out.push(0x3a);
    proof {
        assert(out@ =~= old(out)@ + lit_key_sensation());
    }
}

/// The bytes of `,"pattern":`.
pub open spec fn lit_key_pattern() -> Seq<u8> {
    seq![0x2cu8, 0x22u8, 0x70u8, 0x61u8, 0x74u8, 0x74u8, 0x65u8, 0x72u8, 0x6eu8, 0x22u8, 0x3au8]
}

/// Append `,"pattern":`.
fn push_key_pattern(out: &mut Vec<u8>)
    ensures
        final(out)@ == old(out)@ + lit_key_pattern(),
{
    out.push(0x2c);
    out.push(0x22);
    out.push(0x70);
    out.push(0x61);
    out.push(0x74);
    out.push(0x74);
    out.push(0x65);
    out.push(0x72);
    out.push(0x6e);
    out.push(0x22);
    out.push(0x3a);
    proof {
        assert(out@ =~= old(out)@ + lit_key_pattern());
    }
}

/// The bytes of `}`.
pub open spec fn lit_obj_close() -> Seq<u8> {
    seq![0x7du8]
}

/// Append `}`.
fn push_obj_close(out: &mut Vec<u8>)
    ensures
        final(out)@ == old(out)@ + lit_obj_close(),
{
    out.push(0x7d);
    proof {
        assert(out@ =~= old(out)@ + lit_obj_close());
    }
}

/// The full JSON serialisation of a motion state.
#[verifier::opaque]
pub open spec fn spec_state_json(s: MotionState) -> Seq<u8> {
    lit_obj_open_state() + (if s.motion_enabled {
        lit_state_stroke_engine()
    } else {
        lit_state_menu()
    }) + lit_key_depth() + spec_dec(s.depth as nat) + lit_key_stroke() + spec_dec(
        s.motion_length as nat,
    ) + lit_key_speed() + spec_dec(s.velocity as nat) + lit_key_sensation() + spec_dec(
        s.sensation as nat,
    ) + lit_key_pattern() + spec_dec(s.pattern as nat) + lit_obj_close()
}

impl MotionState {
    /// Serialise the snapshot to its compact JSON form.  The output always
    /// fits the wire buffer: the longest state is far below the cap.
    pub fn as_json(&self) -> (r: Vec<u8>)
        ensures
            r@ == spec_state_json(*self),
    {
        let mut out: Vec<u8> = Vec::new();
        push_obj_open_state(&mut out);
        if self.motion_enabled {
            push_state_stroke_engine(&mut out);
        } else {
            push_state_menu(&mut out);
        }
        push_key_depth(&mut out);
        push_dec_u32(&mut out, self.depth);
        push_key_stroke(&mut out);
        push_dec_u32(&mut out, self.motion_length);
        push_key_speed(&mut out);
        push_dec_u32(&mut out, self.velocity);
        push_key_sensation(&mut out);
        push_dec_u32(&mut out, self.sensation);
        push_key_pattern(&mut out);
        push_dec_u32(&mut out, self.pattern);
        push_obj_close(&mut out);
        proof {
            reveal(spec_state_json);
            assert(out@ =~= spec_state_json(*self));
        }
        out
    }
}

/// The decimal digits of a number below `10^k` are at most `k` bytes long.
pub proof fn lemma_dec_len_at_most(n: nat, k: nat)
    requires
        1 <= k,
        n < vstd::arithmetic::power::pow(10, k),
    ensures
        1 <= spec_dec(n).len() <= k,
    decreases k,
{
    vstd::arithmetic::power::lemma_pow_positive(10, k);
    if n >= 10 {
        assert(k >= 2) by {
            vstd::arithmetic::power::lemma_pow1(10);
            if k == 1 {
                assert(vstd::arithmetic::power::pow(10, 1) == 10);
            }
        }
        assert(vstd::arithmetic::power::pow(10, k) == 10 * vstd::arithmetic::power::pow(
            10,
            (k - 1) as nat,
        )) by {
            vstd::arithmetic::power::lemma_pow_adds(10, 1, (k - 1) as nat);
            vstd::arithmetic::power::lemma_pow1(10);
        }
        assert(n / 10 < vstd::arithmetic::power::pow(10, (k - 1) as nat)) by {
            vstd::arithmetic::div_mod::lemma_multiply_divide_lt(
                n as int,
                10,
                vstd::arithmetic::power::pow(10, (k - 1) as nat) as int,
            );
        }
        lemma_dec_len_at_most(n / 10, (k - 1) as nat);
    }
}

/// The decimal digits of any `u32` are at most ten bytes long.
pub proof fn lemma_dec_len_bound(n: nat)
    requires
        n < 0x100000000,
    ensures
        1 <= spec_dec(n).len() <= 10,
{
    assert(vstd::arithmetic::power::pow(10, 10) == 10000000000) by {
        reveal_with_fuel(vstd::arithmetic::power::pow, 11);
    };
    lemma_dec_len_at_most(n, 10);
}

/// A serialised state always fits the wire buffer.
pub proof fn lemma_state_json_fits(s: MotionState)
    ensures
        spec_state_json(s).len() <= MAX_STATE_LENGTH,
{
    reveal(spec_state_json);
    lemma_dec_len_bound(s.depth as nat);
    lemma_dec_len_bound(s.motion_length as nat);
    lemma_dec_len_bound(s.velocity as nat);
    lemma_dec_len_bound(s.sensation as nat);
    lemma_dec_len_bound(s.pattern as nat);
}

/// A decimal digit.
pub open spec fn spec_is_digit(b: u8) -> bool {
    0x30 <= b <= 0x39
}

/// The number a run of digits denotes.
pub open spec fn spec_digits_val(ds: Seq<u8>) -> int
    decreases ds.len(),
{
    if ds.len() == 0 {
        0
    } else {
        spec_digits_val(ds.drop_last()) * 10 + (ds.last() - 0x30)
    }
}

/// A canonical digit run: non-empty, digits only, no leading zero.
pub open spec fn spec_canonical_digits(ds: Seq<u8>) -> bool {
    &&& ds.len() >= 1
    &&& forall|i: int| 0 <= i < ds.len() ==> spec_is_digit(#[trigger] ds[i])
    &&& (ds.len() > 1 ==> ds[0] != 0x30)
}

/// Writing a number and reading it back are inverse: the canonical digits
/// of the value a canonical run denotes are that run.
pub proof fn lemma_dec_of_val(ds: Seq<u8>)
    requires
        spec_canonical_digits(ds),
    ensures
        spec_digits_val(ds) >= 0,
        spec_dec(spec_digits_val(ds) as nat) == ds,
    decreases ds.len(),
{
    let v = spec_digits_val(ds);
    if ds.len() == 1 {
        assert(spec_is_digit(ds[0]));
        assert(ds.drop_last() =~= Seq::<u8>::empty());
        assert(spec_digits_val(Seq::<u8>::empty()) == 0);
        assert(v == ds.last() - 0x30);
        assert(spec_dec(v as nat) =~= ds);
    } else {
        let prefix = ds.drop_last();
        assert(spec_canonical_digits(prefix)) by {
            assert(forall|i: int| 0 <= i < prefix.len() ==> spec_is_digit(#[trigger] prefix[i]))
                by {
                assert(forall|i: int|
                    0 <= i < prefix.len() ==> #[trigger] prefix[i] == ds[i]);
            }
        }
        lemma_dec_of_val(prefix);
        let pv = spec_digits_val(prefix);
        assert(v == pv * 10 + (ds.last() - 0x30));
        // the prefix of a canonical multi-digit run denotes at least one
        assert(pv >= 1) by {
            if pv == 0 {
                lemma_val_zero_is_zero_digit(prefix);
            }
        }
        assert(v >= 10);
        assert(v as nat / 10 == pv) by {
            vstd::arithmetic::div_mod::lemma_fundamental_div_mod_converse(
                v,
                10,
                pv,
                ds.last() - 0x30,
            );
        }
        assert(v as nat % 10 == ds.last() - 0x30) by {
            vstd::arithmetic::div_mod::lemma_fundamental_div_mod_converse(
                v,
                10,
                pv,
                ds.last() - 0x30,
            );
        }
        assert(spec_dec(v as nat) == spec_dec(pv as nat) + seq![ds.last()]);
        assert(spec_dec(v as nat) =~= ds);
    }
}

/// A canonical run denoting zero is the single zero digit.
proof fn lemma_val_zero_is_zero_digit(ds: Seq<u8>)
    requires
        spec_canonical_digits(ds),
        spec_digits_val(ds) == 0,
    ensures
        ds.len() == 1,
        ds[0] == 0x30,
    decreases ds.len(),
{
    if ds.len() > 1 {
        let prefix = ds.drop_last();
        assert(spec_canonical_digits(prefix)) by {
            assert(forall|i: int|
                0 <= i < prefix.len() ==> #[trigger] prefix[i] == ds[i]);
        }
        assert(spec_digits_val(prefix) * 10 + (ds.last() - 0x30) == 0);
        lemma_val_nonneg(prefix);
        assert(spec_digits_val(prefix) == 0) by (nonlinear_arith)
            requires
                spec_digits_val(prefix) >= 0,
                spec_digits_val(prefix) * 10 + (ds.last() - 0x30) == 0,
                0x30 <= ds.last() <= 0x39,
        ;
        lemma_val_zero_is_zero_digit(prefix);
        assert(ds[0] == prefix[0]);
        assert(false);
    }
}

/// A digit run denotes a non-negative number.
pub proof fn lemma_val_nonneg(ds: Seq<u8>)
    requires
        forall|i: int| 0 <= i < ds.len() ==> spec_is_digit(#[trigger] ds[i]),
    ensures
        spec_digits_val(ds) >= 0,
    decreases ds.len(),
{
    if ds.len() > 0 {
        let prefix = ds.drop_last();
        assert(forall|i: int| 0 <= i < prefix.len() ==> #[trigger] prefix[i] == ds[i]);
        lemma_val_nonneg(prefix);
        assert(spec_digits_val(prefix) * 10 >= 0) by (nonlinear_arith)
            requires spec_digits_val(prefix) >= 0;
    }
}

/// The canonical digits of a number are a canonical run: digits only,
/// and no leading zero unless the number is zero.
pub proof fn lemma_dec_canonical(n: nat)
    ensures
        spec_canonical_digits(spec_dec(n)),
        n >= 1 ==> spec_dec(n)[0] != 0x30,
    decreases n,
{
    if n < 10 {
        assert(spec_dec(n) =~= seq![(0x30 + n) as u8]);
    } else {
        lemma_dec_canonical(n / 10);
        let prefix = spec_dec(n / 10);
        let whole = spec_dec(n);
        assert(whole == prefix + seq![(0x30 + n % 10) as u8]);
        vstd::arithmetic::div_mod::lemma_mod_bound(n as int, 10);
        assert(forall|i: int| 0 <= i < whole.len() ==> spec_is_digit(#[trigger] whole[i])) by {
            assert(forall|i: int| 0 <= i < prefix.len() ==> #[trigger] whole[i] == prefix[i]);
            assert(whole[whole.len() - 1] == (0x30 + n % 10) as u8);
        }
        assert(whole[0] == prefix[0]);
        assert(n / 10 >= 1) by {
            vstd::arithmetic::div_mod::lemma_fundamental_div_mod(n as int, 10);
        }
    }
}

/// Reading back the canonical digits of a number gives the number.
pub proof fn lemma_val_of_dec(n: nat)
    ensures
        spec_digits_val(spec_dec(n)) == n,
    decreases n,
{
    if n < 10 {
        let ds = spec_dec(n);
        assert(ds =~= seq![(0x30 + n) as u8]);
        assert(ds.drop_last() =~= Seq::<u8>::empty());
        assert(spec_digits_val(Seq::<u8>::empty()) == 0);
    } else {
        lemma_val_of_dec(n / 10);
        let prefix = spec_dec(n / 10);
        let whole = spec_dec(n);
        assert(whole == prefix + seq![(0x30 + n % 10) as u8]);
        assert(whole.drop_last() =~= prefix);
        assert(whole.last() == (0x30 + n % 10) as u8);
        vstd::arithmetic::div_mod::lemma_mod_bound(n as int, 10);
        vstd::arithmetic::div_mod::lemma_fundamental_div_mod(n as int, 10);
        assert(spec_digits_val(whole) == (n / 10) * 10 + n % 10);
        assert((n / 10) * 10 == 10 * (n as int / 10)) by (nonlinear_arith);
    }
}

/// A digit prefix of a run never denotes more than the whole run.
pub proof fn lemma_digits_prefix_le(ds: Seq<u8>, i: int)
    requires
        0 <= i <= ds.len(),
        forall|j: int| 0 <= j < ds.len() ==> spec_is_digit(#[trigger] ds[j]),
    ensures
        spec_digits_val(ds.take(i)) <= spec_digits_val(ds),
    decreases ds.len() - i,
{
    lemma_val_nonneg(ds);
    if i == ds.len() {
        assert(ds.take(i) =~= ds);
    } else {
        let a = ds.take(i);
        let b = ds.take(i + 1);
        assert(b.drop_last() =~= a);
        assert(forall|j: int| 0 <= j < a.len() ==> #[trigger] a[j] == ds[j]);
        lemma_val_nonneg(a);
        assert(spec_digits_val(b) == spec_digits_val(a) * 10 + (ds[i] - 0x30));
        assert(spec_digits_val(a) * 10 >= spec_digits_val(a)) by (nonlinear_arith)
            requires spec_digits_val(a) >= 0;
        lemma_digits_prefix_le(ds, i + 1);
    }
}

/// Do the bytes at `at` start with `pat`?
fn matches_at(bytes: &[u8], at: usize, pat: &Vec<u8>) -> (r: bool)
    requires
        at <= bytes@.len(),
    ensures
        r == (at + pat@.len() <= bytes@.len() && bytes@.subrange(
            at as int,
            at + pat@.len(),
        ) == pat@),
{
    if pat.len() > bytes.len() - at {
        proof {
            assert(at + pat@.len() > bytes@.len());
        }
        return false;
    }
    let mut i: usize = 0;
    while i < pat.len()
        invariant
            i <= pat@.len(),
            at + pat@.len() <= bytes@.len(),
            bytes@.len() <= usize::MAX,
            forall|j: int| 0 <= j < i ==> bytes@[at + j] == pat@[j],
        decreases pat@.len() - i,
    {
        if bytes[at + i] != pat[i] {
            proof {
                assert(bytes@.subrange(at as int, at + pat@.len())[i as int] != pat@[i as int]);
            }
            return false;
        }
        i += 1;
    }
    proof {
        assert(bytes@.subrange(at as int, at + pat@.len()) =~= pat@);
    }
    true
}

/// The lengths and offsets of a serialised state's segments.
pub open spec fn spec_state_lit(s: MotionState) -> Seq<u8> {
    if s.motion_enabled {
        lit_state_stroke_engine()
    } else {
        lit_state_menu()
    }
}

/// Where the depth digits start.
pub open spec fn spec_off_depth(s: MotionState) -> int {
    10 + spec_state_lit(s).len() as int + 10
}

/// Where the stroke digits start.
pub open spec fn spec_off_stroke(s: MotionState) -> int {
    spec_off_depth(s) + spec_dec(s.depth as nat).len() + 10
}

/// Where the speed digits start.
pub open spec fn spec_off_speed(s: MotionState) -> int {
    spec_off_stroke(s) + spec_dec(s.motion_length as nat).len() + 9
}

/// Where the sensation digits start.
pub open spec fn spec_off_sensation(s: MotionState) -> int {
    spec_off_speed(s) + spec_dec(s.velocity as nat).len() + 13
}

/// Where the pattern digits start.
pub open spec fn spec_off_pattern(s: MotionState) -> int {
    spec_off_sensation(s) + spec_dec(s.sensation as nat).len() + 11
}

/// A serialised state decomposes into its segments at fixed offsets.
#[verifier::rlimit(100)]
pub proof fn lemma_state_json_decompose(s: MotionState)
    ensures
        ({
            let j = spec_state_json(s);
            let o3 = spec_off_depth(s);
            let o4 = o3 + spec_dec(s.depth as nat).len();
            let o5 = spec_off_stroke(s);
            let o6 = o5 + spec_dec(s.motion_length as nat).len();
            let o7 = spec_off_speed(s);
            let o8 = o7 + spec_dec(s.velocity as nat).len();
            let o9 = spec_off_sensation(s);
            let o10 = o9 + spec_dec(s.sensation as nat).len();
            let o11 = spec_off_pattern(s);
            let o12 = o11 + spec_dec(s.pattern as nat).len();
            &&& j.len() == o12 + 1
            &&& j.subrange(0, 10) == lit_obj_open_state()
            &&& j.subrange(10, 10 + spec_state_lit(s).len() as int) == spec_state_lit(s)
            &&& j.subrange(o3 - 10, o3) == lit_key_depth()
            &&& j.subrange(o3, o4) == spec_dec(s.depth as nat)
            &&& j.subrange(o4, o5) == lit_key_stroke()
            &&& j.subrange(o5, o6) == spec_dec(s.motion_length as nat)
            &&& j.subrange(o6, o7) == lit_key_speed()
            &&& j.subrange(o7, o8) == spec_dec(s.velocity as nat)
            &&& j.subrange(o8, o9) == lit_key_sensation()
            &&& j.subrange(o9, o10) == spec_dec(s.sensation as nat)
            &&& j.subrange(o10, o11) == lit_key_pattern()
            &&& j.subrange(o11, o12) == spec_dec(s.pattern as nat)
            &&& j.subrange(o12, o12 + 1) == lit_obj_close()
        }),
{
    let j = spec_state_json(s);
    let o3 = spec_off_depth(s);
    let o4 = o3 + spec_dec(s.depth as nat).len();
    let o5 = spec_off_stroke(s);
    let o6 = o5 + spec_dec(s.motion_length as nat).len();
    let o7 = spec_off_speed(s);
    let o8 = o7 + spec_dec(s.velocity as nat).len();
    let o9 = spec_off_sensation(s);
    let o10 = o9 + spec_dec(s.sensation as nat).len();
    let o11 = spec_off_pattern(s);
    let o12 = o11 + spec_dec(s.pattern as nat).len();
    reveal(spec_state_json);
    assert(j.subrange(0, 10) =~= lit_obj_open_state());
    assert(j.subrange(10, 10 + spec_state_lit(s).len() as int) =~= spec_state_lit(s));
    assert(j.subrange(o3 - 10, o3) =~= lit_key_depth());
    assert(j.subrange(o3, o4) =~= spec_dec(s.depth as nat));
    assert(j.subrange(o4, o5) =~= lit_key_stroke());
    assert(j.subrange(o5, o6) =~= spec_dec(s.motion_length as nat));
    assert(j.subrange(o6, o7) =~= lit_key_speed());
    assert(j.subrange(o7, o8) =~= spec_dec(s.velocity as nat));
    assert(j.subrange(o8, o9) =~= lit_key_sensation());
    assert(j.subrange(o9, o10) =~= spec_dec(s.sensation as nat));
    assert(j.subrange(o10, o11) =~= lit_key_pattern());
    assert(j.subrange(o11, o12) =~= spec_dec(s.pattern as nat));
    assert(j.subrange(o12, o12 + 1) =~= lit_obj_close());
}

/// The opening segment of every serialised state.
pub proof fn lemma_json_open(s: MotionState)
    ensures
        spec_state_json(s).len() >= 10,
        spec_state_json(s).subrange(0, 10) == lit_obj_open_state(),
{
    lemma_state_json_decompose(s);
}

/// The state-name segment of a serialised state.
pub proof fn lemma_json_state_lit(s: MotionState)
    ensures
        spec_state_json(s).len() >= 10 + spec_state_lit(s).len(),
        spec_state_json(s).subrange(10, 10 + spec_state_lit(s).len() as int)
            == spec_state_lit(s),
{
    lemma_state_json_decompose(s);
}

/// The depth key segment of a serialised state.
pub proof fn lemma_json_key_depth(s: MotionState)
    ensures
        spec_state_json(s).len() >= spec_off_depth(s),
        spec_state_json(s).subrange(spec_off_depth(s) - 10, spec_off_depth(s))
            == lit_key_depth(),
{
    lemma_state_json_decompose(s);
}

/// The depth digits of a serialised state form a whole number there.
pub proof fn lemma_json_depth_number(s: MotionState)
    ensures
        spec_number_at(
            spec_state_json(s),
            spec_off_depth(s),
            s.depth as nat,
            spec_off_depth(s) + spec_dec(s.depth as nat).len(),
        ),
{
    lemma_state_json_decompose(s);
    let j = spec_state_json(s);
    let o4 = spec_off_depth(s) + spec_dec(s.depth as nat).len();
    assert(j.subrange(o4, o4 + 10)[0] == j[o4]);
}

/// The stroke key segment of a serialised state.
pub proof fn lemma_json_key_stroke(s: MotionState)
    ensures
        spec_state_json(s).len() >= spec_off_stroke(s),
        spec_state_json(s).subrange(spec_off_stroke(s) - 10, spec_off_stroke(s))
            == lit_key_stroke(),
{
    lemma_state_json_decompose(s);
}

/// The stroke digits of a serialised state form a whole number there.
pub proof fn lemma_json_stroke_number(s: MotionState)
    ensures
        spec_number_at(
            spec_state_json(s),
            spec_off_stroke(s),
            s.motion_length as nat,
            spec_off_stroke(s) + spec_dec(s.motion_length as nat).len(),
        ),
{
    lemma_state_json_decompose(s);
    let j = spec_state_json(s);
    let o6 = spec_off_stroke(s) + spec_dec(s.motion_length as nat).len();
    assert(j.subrange(o6, o6 + 9)[0] == j[o6]);
}

/// The speed key segment of a serialised state.
pub proof fn lemma_json_key_speed(s: MotionState)
    ensures
        spec_state_json(s).len() >= spec_off_speed(s),
        spec_state_json(s).subrange(spec_off_speed(s) - 9, spec_off_speed(s))
            == lit_key_speed(),
{
    lemma_state_json_decompose(s);
}

/// The speed digits of a serialised state form a whole number there.
pub proof fn lemma_json_speed_number(s: MotionState)
    ensures
        spec_number_at(
            spec_state_json(s),
            spec_off_speed(s),
            s.velocity as nat,
            spec_off_speed(s) + spec_dec(s.velocity as nat).len(),
        ),
{
    lemma_state_json_decompose(s);
    let j = spec_state_json(s);
    let o8 = spec_off_speed(s) + spec_dec(s.velocity as nat).len();
    assert(j.subrange(o8, o8 + 13)[0] == j[o8]);
}

/// The sensation key segment of a serialised state.
pub proof fn lemma_json_key_sensation(s: MotionState)
    ensures
        spec_state_json(s).len() >= spec_off_sensation(s),
        spec_state_json(s).subrange(spec_off_sensation(s) - 13, spec_off_sensation(s))
            == lit_key_sensation(),
{
    lemma_state_json_decompose(s);
}

/// The sensation digits of a serialised state form a whole number there.
pub proof fn lemma_json_sensation_number(s: MotionState)
    ensures
        spec_number_at(
            spec_state_json(s),
            spec_off_sensation(s),
            s.sensation as nat,
            spec_off_sensation(s) + spec_dec(s.sensation as nat).len(),
        ),
{
    lemma_state_json_decompose(s);
    let j = spec_state_json(s);
    let o10 = spec_off_sensation(s) + spec_dec(s.sensation as nat).len();
    assert(j.subrange(o10, o10 + 11)[0] == j[o10]);
}

/// The pattern key segment of a serialised state.
pub proof fn lemma_json_key_pattern(s: MotionState)
    ensures
        spec_state_json(s).len() >= spec_off_pattern(s),
        spec_state_json(s).subrange(spec_off_pattern(s) - 11, spec_off_pattern(s))
            == lit_key_pattern(),
{
    lemma_state_json_decompose(s);
}

/// The pattern digits of a serialised state form a whole number there, and
/// only the closing brace follows them.
pub proof fn lemma_json_pattern_number(s: MotionState)
    ensures
        spec_number_at(
            spec_state_json(s),
            spec_off_pattern(s),
            s.pattern as nat,
            spec_off_pattern(s) + spec_dec(s.pattern as nat).len(),
        ),
        spec_state_json(s).len() == spec_off_pattern(s) + spec_dec(s.pattern as nat).len() + 1,
        spec_state_json(s).subrange(
            spec_off_pattern(s) + spec_dec(s.pattern as nat).len(),
            spec_off_pattern(s) + spec_dec(s.pattern as nat).len() + 1,
        ) == lit_obj_close(),
{
    lemma_state_json_decompose(s);
    let j = spec_state_json(s);
    let o12 = spec_off_pattern(s) + spec_dec(s.pattern as nat).len();
    assert(j.subrange(o12, o12 + 1)[0] == j[o12]);
}

/// The bytes at `at` begin with the canonical digits of `v` and the run
/// ends at `end`: the next byte, if any, is not a digit.
pub open spec fn spec_number_at(bytes: Seq<u8>, at: int, v: nat, end: int) -> bool {
    &&& at <= end <= bytes.len()
    &&& bytes.subrange(at, end) == spec_dec(v)
    &&& (end == bytes.len() || !spec_is_digit(bytes[end]))
}

/// Read a canonical decimal number at `at`.  A success returns the value
/// and the position just past its digits; and wherever the bytes do carry
/// a canonical number that fits, the read succeeds with exactly that
/// number.
fn parse_u32_at(bytes: &[u8], at: usize) -> (r: Option<(u32, usize)>)
    requires
        at <= bytes@.len(),
    ensures
        r matches Some(ve) ==> {
            &&& at < ve.1 <= bytes@.len()
            &&& spec_canonical_digits(bytes@.subrange(at as int, ve.1 as int))
            &&& spec_digits_val(bytes@.subrange(at as int, ve.1 as int)) == ve.0
        },
        forall|v: nat, k: int|
            #[trigger] spec_number_at(bytes@, at as int, v, k) && v <= u32::MAX ==> r == Some(
                (v as u32, k as usize),
            ),
{
    if at >= bytes.len() {
        proof {
            assert forall|v: nat, k: int|
                spec_number_at(bytes@, at as int, v, k) && v <= u32::MAX implies false by {
                lemma_dec_canonical(v);
                assert(bytes@.subrange(at as int, k).len() >= 1);
            }
        }
        return None;
    }
    let first = bytes[at];
    if first < 0x30 || first > 0x39 {
        proof {
            assert forall|v: nat, k: int|
                spec_number_at(bytes@, at as int, v, k) && v <= u32::MAX implies false by {
                lemma_dec_canonical(v);
                assert(bytes@.subrange(at as int, k)[0] == bytes@[at as int]);
            }
        }
        return None;
    }
    if first == 0x30 {
        // a canonical zero is the single digit
        proof {
            let run = bytes@.subrange(at as int, at + 1);
            assert(run =~= seq![bytes@[at as int]]);
            assert(run.drop_last() =~= Seq::<u8>::empty());
            assert(spec_digits_val(Seq::<u8>::empty()) == 0);
            assert(spec_digits_val(run) == 0);
            assert(spec_canonical_digits(run));
            assert forall|v: nat, k: int|
                spec_number_at(bytes@, at as int, v, k) && v <= u32::MAX implies Some(
                (0u32, (at + 1) as usize),
            ) == Some((v as u32, k as usize)) by {
                lemma_dec_canonical(v);
                assert(bytes@.subrange(at as int, k)[0] == bytes@[at as int]);
                assert(v == 0);
                assert(spec_dec(0).len() == 1);
                assert(k == at + 1);
            }
        }
        return Some((0, at + 1));
    }
    let mut value: u32 = (first - 0x30) as u32;
    let mut end: usize = at + 1;
    proof {
        let run = bytes@.subrange(at as int, at + 1);
        assert(run =~= seq![bytes@[at as int]]);
        assert(run.drop_last() =~= Seq::<u8>::empty());
        assert(spec_digits_val(Seq::<u8>::empty()) == 0);
        assert(spec_digits_val(run) == first - 0x30);
        assert(spec_canonical_digits(run));
    }
    while end < bytes.len() && 0x30 <= bytes[end] && bytes[end] <= 0x39
        invariant
            at < end <= bytes@.len(),
            bytes@[at as int] != 0x30,
            spec_canonical_digits(bytes@.subrange(at as int, end as int)),
            spec_digits_val(bytes@.subrange(at as int, end as int)) == value,
        decreases bytes@.len() - end,
    {
        let digit = (bytes[end] - 0x30) as u32;
        if value > (u32::MAX - digit) / 10 {
            // the number would not fit
            proof {
                let run = bytes@.subrange(at as int, end as int);
                let run2 = bytes@.subrange(at as int, end + 1);
                assert(run2.drop_last() =~= run);
                assert(run2.last() == bytes@[end as int]);
                assert(spec_digits_val(run2) == value * 10 + digit);
                vstd::arithmetic::div_mod::lemma_fundamental_div_mod(
                    (u32::MAX - digit) as int,
                    10,
                );
                vstd::arithmetic::div_mod::lemma_mod_bound((u32::MAX - digit) as int, 10);
                assert(value * 10 + digit > u32::MAX) by (nonlinear_arith)
                    requires
                        value > ((u32::MAX - digit) as int) / 10,
                        (u32::MAX - digit) as int == 10 * (((u32::MAX - digit) as int) / 10) + (
                        (u32::MAX - digit) as int) % 10,
                        0 <= ((u32::MAX - digit) as int) % 10 < 10,
                        0 <= digit <= 9,
                ;
                assert forall|v: nat, k: int|
                    spec_number_at(bytes@, at as int, v, k) && v <= u32::MAX implies false by {
                    lemma_dec_canonical(v);
                    let dv = spec_dec(v);
                    // the number's run cannot stop at or before the digit
                    // the scan is looking at
                    assert(k > end) by {
                        if k <= end {
                            if k < end {
                                assert(spec_is_digit(run[k - at]));
                                assert(run[k - at] == bytes@[k]);
                            } else {
                                assert(spec_is_digit(bytes@[end as int]));
                            }
                            assert(k < bytes@.len());
                        }
                    }
                    assert forall|j: int| 0 <= j < dv.len() implies spec_is_digit(
                        dv[j],
                    ) && bytes@[at + j] == dv[j] by {
                        assert(bytes@.subrange(at as int, k)[j] == bytes@[at + j]);
                        assert(bytes@.subrange(at as int, k)[j] == dv[j]);
                    }
                    assert(run2 =~= dv.take(end + 1 - at));
                    lemma_digits_prefix_le(dv, end + 1 - at);
                    lemma_val_of_dec(v);
                }
            }
            return None;
        }
        proof {
            assert(value * 10 + digit <= u32::MAX) by (nonlinear_arith)
                requires
                    value <= (u32::MAX - digit) / 10,
                    0 <= digit <= 9,
            ;
        }
        let ghost old_value = value;
        value = value * 10 + digit;
        proof {
            let run = bytes@.subrange(at as int, end as int);
            let run2 = bytes@.subrange(at as int, end + 1);
            assert(run2.drop_last() =~= run);
            assert(run2.last() == bytes@[end as int]);
            assert(spec_digits_val(run2) == old_value * 10 + digit);
            assert(run2[0] == run[0]);
            assert(forall|i: int|
                0 <= i < run2.len() ==> spec_is_digit(#[trigger] run2[i])) by {
                assert(forall|i: int|
                    0 <= i < run.len() ==> #[trigger] run2[i] == run[i]);
                assert(run2[run2.len() - 1] == bytes@[end as int]);
            }
            assert(spec_canonical_digits(run2));
        }
        end += 1;
    }
    proof {
        let run = bytes@.subrange(at as int, end as int);
        assert forall|v: nat, k: int|
            spec_number_at(bytes@, at as int, v, k) && v <= u32::MAX implies Some(
            (value, end),
        ) == Some((v as u32, k as usize)) by {
            lemma_dec_canonical(v);
            let dv = spec_dec(v);
            assert forall|j: int| 0 <= j < dv.len() implies spec_is_digit(dv[j]) && bytes@[at
                + j] == dv[j] by {
                assert(bytes@.subrange(at as int, k)[j] == bytes@[at + j]);
                assert(bytes@.subrange(at as int, k)[j] == dv[j]);
            }
            assert(k == end) by {
                if k < end {
                    // the run of the number would stop on a digit
                    assert(spec_is_digit(run[k - at]));
                    assert(run[k - at] == bytes@[k]);
                    assert(k < bytes@.len());
                } else if k > end {
                    // the scan would have continued past a digit
                    assert(end < bytes@.len());
                    assert(bytes@[at + (end - at)] == dv[end - at]);
                    assert(spec_is_digit(dv[end - at]));
                }
            }
            assert(dv =~= run);
            lemma_val_of_dec(v);
        }
    }
    Some((value, end))
}

/// Segments laid end to end at the canonical offsets assemble to the
/// canonical serialisation.
proof fn lemma_state_json_assemble(
    bytes: Seq<u8>,
    s: MotionState,
    p1: int,
    p2: int,
    p3: int,
    p4: int,
    p5: int,
    p6: int,
    p7: int,
    p8: int,
    p9: int,
    p10: int,
    p11: int,
)
    requires
        bytes.len() == p11 + 1,
        p1 == 10 + spec_state_lit(s).len(),
        p2 == p1 + 10,
        p3 == p2 + spec_dec(s.depth as nat).len(),
        p4 == p3 + 10,
        p5 == p4 + spec_dec(s.motion_length as nat).len(),
        p6 == p5 + 9,
        p7 == p6 + spec_dec(s.velocity as nat).len(),
        p8 == p7 + 13,
        p9 == p8 + spec_dec(s.sensation as nat).len(),
        p10 == p9 + 11,
        p11 == p10 + spec_dec(s.pattern as nat).len(),
        bytes.subrange(0, 10) == lit_obj_open_state(),
        bytes.subrange(10, p1) == spec_state_lit(s),
        bytes.subrange(p1, p2) == lit_key_depth(),
        bytes.subrange(p2, p3) == spec_dec(s.depth as nat),
        bytes.subrange(p3, p4) == lit_key_stroke(),
        bytes.subrange(p4, p5) == spec_dec(s.motion_length as nat),
        bytes.subrange(p5, p6) == lit_key_speed(),
        bytes.subrange(p6, p7) == spec_dec(s.velocity as nat),
        bytes.subrange(p7, p8) == lit_key_sensation(),
        bytes.subrange(p8, p9) == spec_dec(s.sensation as nat),
        bytes.subrange(p9, p10) == lit_key_pattern(),
        bytes.subrange(p10, p11) == spec_dec(s.pattern as nat),
        bytes.subrange(p11, p11 + 1) == lit_obj_close(),
    ensures
        bytes == spec_state_json(s),
{
    reveal(spec_state_json);
    assert(bytes =~= spec_state_json(s));
}

/// Parse a serialised motion state.  This parser is strict and complete:
/// a success means the input is, byte for byte, the canonical
/// serialisation of the returned state (so serialising the result
/// reproduces the input exactly), and the canonical serialisation of any
/// state is never rejected.
#[verifier::rlimit(100)]
pub fn parse_state_json(bytes: &[u8]) -> (r: Option<MotionState>)
    ensures
        r matches Some(s) ==> bytes@ == spec_state_json(s),
        forall|s: MotionState| (#[trigger] spec_state_json(s)) == bytes@ ==> r is Some,
{
    let total_len = bytes.len();
    let mut lit: Vec<u8> = Vec::new();
    push_obj_open_state(&mut lit);
    if !matches_at(bytes, 0, &lit) {
        proof {
            assert forall|s: MotionState| (#[trigger] spec_state_json(s)) == bytes@
                implies false by {
                lemma_json_open(s);
            }
        }
        return None;
    }
    let mut pos: usize = lit.len();
    let ghost p0 = pos as int;

    let mut lit_se: Vec<u8> = Vec::new();
    push_state_stroke_engine(&mut lit_se);
    let mut lit_menu: Vec<u8> = Vec::new();
    push_state_menu(&mut lit_menu);
    let motion_enabled: bool;
    if matches_at(bytes, pos, &lit_se) {
        motion_enabled = true;
        pos = pos + lit_se.len();
    } else if matches_at(bytes, pos, &lit_menu) {
        motion_enabled = false;
        pos = pos + lit_menu.len();
    } else {
        proof {
            assert forall|s: MotionState| (#[trigger] spec_state_json(s)) == bytes@
                implies false by {
                lemma_json_state_lit(s);
            }
        }
        return None;
    }
    let ghost p1 = pos as int;
    proof {
        assert forall|s: MotionState| (#[trigger] spec_state_json(s)) == bytes@ implies
            s.motion_enabled == motion_enabled && p1 == 10 + spec_state_lit(s).len() by {
            lemma_json_state_lit(s);
            if s.motion_enabled != motion_enabled {
                assert(bytes@.subrange(10, 10 + spec_state_lit(s).len() as int)[0]
                    == bytes@[10]);
                if motion_enabled {
                    assert(bytes@.subrange(p0, p0 + 12)[0] == bytes@[10]);
                } else {
                    assert(bytes@.subrange(p0, p0 + 4)[0] == bytes@[10]);
                }
            }
        }
    }

    let mut lit2: Vec<u8> = Vec::new();
    push_key_depth(&mut lit2);
    if !matches_at(bytes, pos, &lit2) {
        proof {
            assert forall|s: MotionState| (#[trigger] spec_state_json(s)) == bytes@
                implies false by {
                lemma_json_key_depth(s);
            }
        }
        return None;
    }
    pos = pos + lit2.len();
    let ghost p2 = pos as int;
    let parsed = parse_u32_at(bytes, pos);
    proof {
        assert forall|s: MotionState| (#[trigger] spec_state_json(s)) == bytes@ implies
            spec_number_at(bytes@, p2, s.depth as nat, p2 + spec_dec(s.depth as nat).len())
            by {
            lemma_json_depth_number(s);
        }
    }
    let (depth, next) = match parsed {
        Some(ve) => ve,
        None => { return None },
    };
    pos = next;
    let ghost p3 = pos as int;
    proof {
        assert forall|s: MotionState| (#[trigger] spec_state_json(s)) == bytes@ implies
            depth == s.depth && p3 == p2 + spec_dec(s.depth as nat).len() by {
            lemma_json_depth_number(s);
        }
    }

    let mut lit3: Vec<u8> = Vec::new();
    push_key_stroke(&mut lit3);
    if !matches_at(bytes, pos, &lit3) {
        proof {
            assert forall|s: MotionState| (#[trigger] spec_state_json(s)) == bytes@
                implies false by {
                lemma_json_key_stroke(s);
            }
        }
        return None;
    }
    pos = pos + lit3.len();
    let ghost p4 = pos as int;
    let parsed = parse_u32_at(bytes, pos);
    proof {
        assert forall|s: MotionState| (#[trigger] spec_state_json(s)) == bytes@ implies
            spec_number_at(
            bytes@,
            p4,
            s.motion_length as nat,
            p4 + spec_dec(s.motion_length as nat).len(),
        ) by {
            lemma_json_stroke_number(s);
        }
    }
    let (motion_length, next) = match parsed {
        Some(ve) => ve,
        None => { return None },
    };
    pos = next;
    let ghost p5 = pos as int;
    proof {
        assert forall|s: MotionState| (#[trigger] spec_state_json(s)) == bytes@ implies
            motion_length == s.motion_length && p5 == p4 + spec_dec(
            s.motion_length as nat,
        ).len() by {
            lemma_json_stroke_number(s);
        }
    }

    let mut lit4: Vec<u8> = Vec::new();
    push_key_speed(&mut lit4);
    if !matches_at(bytes, pos, &lit4) {
        proof {
            assert forall|s: MotionState| (#[trigger] spec_state_json(s)) == bytes@
                implies false by {
                lemma_json_key_speed(s);
            }
        }
        return None;
    }
    pos = pos + lit4.len();
    let ghost p6 = pos as int;
    let parsed = parse_u32_at(bytes, pos);
    proof {
        assert forall|s: MotionState| (#[trigger] spec_state_json(s)) == bytes@ implies
            spec_number_at(
            bytes@,
            p6,
            s.velocity as nat,
            p6 + spec_dec(s.velocity as nat).len(),
        ) by {
            lemma_json_speed_number(s);
        }
    }
    let (velocity, next) = match parsed {
        Some(ve) => ve,
        None => { return None },
    };
    pos = next;
    let ghost p7 = pos as int;
    proof {
        assert forall|s: MotionState| (#[trigger] spec_state_json(s)) == bytes@ implies
            velocity == s.velocity && p7 == p6 + spec_dec(s.velocity as nat).len() by {
            lemma_json_speed_number(s);
        }
    }

    let mut lit5: Vec<u8> = Vec::new();
    push_key_sensation(&mut lit5);
    if !matches_at(bytes, pos, &lit5) {
        proof {
            assert forall|s: MotionState| (#[trigger] spec_state_json(s)) == bytes@
                implies false by {
                lemma_json_key_sensation(s);
            }
        }
        return None;
    }
    pos = pos + lit5.len();
    let ghost p8 = pos as int;
    let parsed = parse_u32_at(bytes, pos);
    proof {
        assert forall|s: MotionState| (#[trigger] spec_state_json(s)) == bytes@ implies
            spec_number_at(
            bytes@,
            p8,
            s.sensation as nat,
            p8 + spec_dec(s.sensation as nat).len(),
        ) by {
            lemma_json_sensation_number(s);
        }
    }
    let (sensation, next) = match parsed {
        Some(ve) => ve,
        None => { return None },
    };
    pos = next;
    let ghost p9 = pos as int;
    proof {
        assert forall|s: MotionState| (#[trigger] spec_state_json(s)) == bytes@ implies
            sensation == s.sensation && p9 == p8 + spec_dec(s.sensation as nat).len() by {
            lemma_json_sensation_number(s);
        }
    }

    let mut lit6: Vec<u8> = Vec::new();
    push_key_pattern(&mut lit6);
    if !matches_at(bytes, pos, &lit6) {
        proof {
            assert forall|s: MotionState| (#[trigger] spec_state_json(s)) == bytes@
                implies false by {
                lemma_json_key_pattern(s);
            }
        }
        return None;
    }
    pos = pos + lit6.len();
    let ghost p10 = pos as int;
    let parsed = parse_u32_at(bytes, pos);
    proof {
        assert forall|s: MotionState| (#[trigger] spec_state_json(s)) == bytes@ implies
            spec_number_at(
            bytes@,
            p10,
            s.pattern as nat,
            p10 + spec_dec(s.pattern as nat).len(),
        ) by {
            lemma_json_pattern_number(s);
        }
    }
    let (pattern, next) = match parsed {
        Some(ve) => ve,
        None => { return None },
    };
    pos = next;
    let ghost p11 = pos as int;
    proof {
        assert forall|s: MotionState| (#[trigger] spec_state_json(s)) == bytes@ implies
            pattern == s.pattern && p11 == p10 + spec_dec(s.pattern as nat).len() by {
            lemma_json_pattern_number(s);
        }
    }

    let mut lit7: Vec<u8> = Vec::new();
    push_obj_close(&mut lit7);
    if !matches_at(bytes, pos, &lit7) {
        proof {
            assert forall|s: MotionState| (#[trigger] spec_state_json(s)) == bytes@
                implies false by {
                lemma_json_pattern_number(s);
            }
        }
        return None;
    }
    pos = pos + lit7.len();
    if pos != total_len {
        proof {
            assert forall|s: MotionState| (#[trigger] spec_state_json(s)) == bytes@
                implies false by {
                lemma_json_pattern_number(s);
            }
        }
        return None;
    }

    let state = MotionState { depth, motion_length, velocity, sensation, pattern, motion_enabled };
    proof {
        lemma_dec_of_val(bytes@.subrange(p2, p3));
        lemma_dec_of_val(bytes@.subrange(p4, p5));
        lemma_dec_of_val(bytes@.subrange(p6, p7));
        lemma_dec_of_val(bytes@.subrange(p8, p9));
        lemma_dec_of_val(bytes@.subrange(p10, p11));
        lemma_state_json_assemble(
            bytes@, state, p1, p2, p3, p4, p5, p6, p7, p8, p9, p10, p11,
        );
    }
    Some(state)
}

// ---- The pattern-list wire form ----

use crate::pattern::{AvailablePatterns, PatternExecutor};

/// The bytes of `{"name":"`.
pub open spec fn lit_entry_open() -> Seq<u8> {
    seq![0x7bu8, 0x22u8, 0x6eu8, 0x61u8, 0x6du8, 0x65u8, 0x22u8, 0x3au8, 0x22u8]
}

/// Append `{"name":"`.
fn push_entry_open(out: &mut Vec<u8>)
    ensures
        final(out)@ == old(out)@ + lit_entry_open(),
{
    out.push(0x7b);
    out.push(0x22);
    out.push(0x6e);
    out.push(0x61);
    out.push(0x6d);
    out.push(0x65);
    out.push(0x22);
    out.push(0x3a);
    out.push(0x22);
    proof {
        assert(out@ =~= old(out)@ + lit_entry_open());
    }
}

/// The bytes of `","idx":`.
pub open spec fn lit_entry_idx() -> Seq<u8> {
    seq![0x22u8, 0x2cu8, 0x22u8, 0x69u8, 0x64u8, 0x78u8, 0x22u8, 0x3au8]
}

/// Append `","idx":`.
fn push_entry_idx(out: &mut Vec<u8>)
    ensures
        final(out)@ == old(out)@ + lit_entry_idx(),
{
    out.push(0x22);
    out.push(0x2c);
    out.push(0x22);
    out.push(0x69);
    out.push(0x64);
    out.push(0x78);
    out.push(0x22);
    out.push(0x3a);
    proof {
        assert(out@ =~= old(out)@ + lit_entry_idx());
    }
}

/// The bytes of `},`.
pub open spec fn lit_entry_close() -> Seq<u8> {
    seq![0x7du8, 0x2cu8]
}

/// Append `},`.
fn push_entry_close(out: &mut Vec<u8>)
    ensures
        final(out)@ == old(out)@ + lit_entry_close(),
{
    out.push(0x7d);
    out.push(0x2c);
    proof {
        assert(out@ =~= old(out)@ + lit_entry_close());
    }
}

/// The bytes of `Simple Stroke`.
pub open spec fn lit_name_simple() -> Seq<u8> {
    seq![0x53u8, 0x69u8, 0x6du8, 0x70u8, 0x6cu8, 0x65u8, 0x20u8, 0x53u8, 0x74u8, 0x72u8, 0x6fu8, 0x6bu8, 0x65u8]
}

/// Append `Simple Stroke`.
fn push_name_simple(out: &mut Vec<u8>)
    ensures
        final(out)@ == old(out)@ + lit_name_simple(),
{
    out.push(0x53);
    out.push(0x69);
    out.push(0x6d);
    out.push(0x70);
    out.push(0x6c);
    out.push(0x65);
    out.push(0x20);
    out.push(0x53);
    out.push(0x74);
    out.push(0x72);
    out.push(0x6f);
    out.push(0x6b);
    out.push(0x65);
    proof {
        assert(out@ =~= old(out)@ + lit_name_simple());
    }
}

/// The bytes of `Teasing Pounding`.
pub open spec fn lit_name_teasing() -> Seq<u8> {
    seq![0x54u8, 0x65u8, 0x61u8, 0x73u8, 0x69u8, 0x6eu8, 0x67u8, 0x20u8, 0x50u8, 0x6fu8, 0x75u8, 0x6eu8, 0x64u8, 0x69u8, 0x6eu8, 0x67u8]
}

/// Append `Teasing Pounding`.
fn push_name_teasing(out: &mut Vec<u8>)
    ensures
        final(out)@ == old(out)@ + lit_name_teasing(),
{
    out.push(0x54);
    out.push(0x65);
    out.push(0x61);
    out.push(0x73);
    out.push(0x69);
    out.push(0x6e);
    out.push(0x67);
    out.push(0x20);
    out.push(0x50);
    out.push(0x6f);
    out.push(0x75);
    out.push(0x6e);
    out.push(0x64);
    out.push(0x69);
    out.push(0x6e);
    out.push(0x67);
    proof {
        assert(out@ =~= old(out)@ + lit_name_teasing());
    }
}

/// The bytes of `Half'n'Half`.
pub open spec fn lit_name_halfhalf() -> Seq<u8> {
    seq![0x48u8, 0x61u8, 0x6cu8, 0x66u8, 0x27u8, 0x6eu8, 0x27u8, 0x48u8, 0x61u8, 0x6cu8, 0x66u8]
}

/// Append `Half'n'Half`.
fn push_name_halfhalf(out: &mut Vec<u8>)
    ensures
        final(out)@ == old(out)@ + lit_name_halfhalf(),
{
    out.push(0x48);
    out.push(0x61);
    out.push(0x6c);
    out.push(0x66);
    out.push(0x27);
    out.push(0x6e);
    out.push(0x27);
    out.push(0x48);
    out.push(0x61);
    out.push(0x6c);
    out.push(0x66);
    proof {
        assert(out@ =~= old(out)@ + lit_name_halfhalf());
    }
}

/// The bytes of `Deeper`.
pub open spec fn lit_name_deeper() -> Seq<u8> {
    seq![0x44u8, 0x65u8, 0x65u8, 0x70u8, 0x65u8, 0x72u8]
}

/// Append `Deeper`.
fn push_name_deeper(out: &mut Vec<u8>)
    ensures
        final(out)@ == old(out)@ + lit_name_deeper(),
{
    out.push(0x44);
    out.push(0x65);
    out.push(0x65);
    out.push(0x70);
    out.push(0x65);
    out.push(0x72);
    proof {
        assert(out@ =~= old(out)@ + lit_name_deeper());
    }
}

/// The bytes of `Stop'n'Go`.
pub open spec fn lit_name_stopngo() -> Seq<u8> {
    seq![0x53u8, 0x74u8, 0x6fu8, 0x70u8, 0x27u8, 0x6eu8, 0x27u8, 0x47u8, 0x6fu8]
}

/// Append `Stop'n'Go`.
fn push_name_stopngo(out: &mut Vec<u8>)
    ensures
        final(out)@ == old(out)@ + lit_name_stopngo(),
{
    out.push(0x53);
    out.push(0x74);
    out.push(0x6f);
    out.push(0x70);
    out.push(0x27);
    out.push(0x6e);
    out.push(0x27);
    out.push(0x47);
    out.push(0x6f);
    proof {
        assert(out@ =~= old(out)@ + lit_name_stopngo());
    }
}

/// The bytes of `Torque`.
pub open spec fn lit_name_torque() -> Seq<u8> {
    seq![0x54u8, 0x6fu8, 0x72u8, 0x71u8, 0x75u8, 0x65u8]
}

/// Append `Torque`.
fn push_name_torque(out: &mut Vec<u8>)
    ensures
        final(out)@ == old(out)@ + lit_name_torque(),
{
    out.push(0x54);
    out.push(0x6f);
    out.push(0x72);
    out.push(0x71);
    out.push(0x75);
    out.push(0x65);
    proof {
        assert(out@ =~= old(out)@ + lit_name_torque());
    }
}

/// The bytes of `[`.
pub open spec fn lit_bracket_open() -> Seq<u8> {
    seq![0x5bu8]
}

/// Append `[`.
fn push_bracket_open(out: &mut Vec<u8>)
    ensures
        final(out)@ == old(out)@ + lit_bracket_open(),
{
    out.push(0x5b);
    proof {
        assert(out@ =~= old(out)@ + lit_bracket_open());
    }
}

/// The bytes of `]`.
pub open spec fn lit_bracket_close() -> Seq<u8> {
    seq![0x5du8]
}

/// Append `]`.
fn push_bracket_close(out: &mut Vec<u8>)
    ensures
        final(out)@ == old(out)@ + lit_bracket_close(),
{
    out.push(0x5d);
    proof {
        assert(out@ =~= old(out)@ + lit_bracket_close());
    }
}

/// The advertised name of a pattern, as bytes.
pub open spec fn spec_pattern_name(p: AvailablePatterns) -> Seq<u8> {
    match p {
        AvailablePatterns::Simple(_) => lit_name_simple(),
        AvailablePatterns::TeasingPounding(_) => lit_name_teasing(),
        AvailablePatterns::HalfHalf(_) => lit_name_halfhalf(),
        AvailablePatterns::Deeper(_) => lit_name_deeper(),
        AvailablePatterns::StopNGo(_) => lit_name_stopngo(),
        AvailablePatterns::Torque(_) => lit_name_torque(),
    }
}

/// One catalogue entry with its trailing comma.
pub open spec fn spec_pattern_entry(p: AvailablePatterns, idx: nat) -> Seq<u8> {
    lit_entry_open() + spec_pattern_name(p) + lit_entry_idx() + spec_dec(idx) + lit_entry_close()
}

/// The concatenated entries of the first `n` slots.
pub open spec fn spec_pattern_entries(slots: Seq<Option<AvailablePatterns>>, n: int) -> Seq<u8>
    decreases n,
{
    if n <= 0 {
        Seq::empty()
    } else {
        spec_pattern_entries(slots, n - 1) + (match slots[n - 1] {
            Some(p) => spec_pattern_entry(p, (n - 1) as nat),
            None => Seq::empty(),
        })
    }
}

/// The full pattern-list serialisation: the bracketed entries, with the
/// last entry's comma dropped (when the catalogue is empty, the opening
/// bracket itself goes, leaving a lone closing bracket, exactly as popping
/// the trailing comma does).
pub open spec fn spec_patterns_json(slots: Seq<Option<AvailablePatterns>>) -> Seq<u8> {
    (lit_bracket_open() + spec_pattern_entries(slots, slots.len() as int)).drop_last()
        + lit_bracket_close()
}

/// Append one catalogue entry.
fn push_pattern_entry(out: &mut Vec<u8>, p: &AvailablePatterns, idx: u32)
    ensures
        final(out)@ == old(out)@ + spec_pattern_entry(*p, idx as nat),
{
    push_entry_open(out);
    match p {
        AvailablePatterns::Simple(_) => push_name_simple(out),
        AvailablePatterns::TeasingPounding(_) => push_name_teasing(out),
        AvailablePatterns::HalfHalf(_) => push_name_halfhalf(out),
        AvailablePatterns::Deeper(_) => push_name_deeper(out),
        AvailablePatterns::StopNGo(_) => push_name_stopngo(out),
        AvailablePatterns::Torque(_) => push_name_torque(out),
    }
    push_entry_idx(out);
    push_dec_u32(out, idx);
    push_entry_close(out);
    proof {
        assert(out@ =~= old(out)@ + spec_pattern_entry(*p, idx as nat));
    }
}

impl PatternExecutor {
    /// Serialise the catalogue as a JSON array of `{"name":..,"idx":..}`
    /// records, one per occupied slot.
    pub fn get_all_patterns_json(&self) -> (r: Vec<u8>)
        requires
            self.wf(),
        ensures
            r@ == spec_patterns_json(self.patterns@),
    {
        let mut out: Vec<u8> = Vec::new();
        push_bracket_open(&mut out);
        let mut i: usize = 0;
        while i < self.patterns.len()
            invariant
                self.wf(),
                i <= self.patterns@.len(),
                out@ == lit_bracket_open() + spec_pattern_entries(self.patterns@, i as int),
            decreases self.patterns@.len() - i,
        {
            match &self.patterns[i] {
                Some(p) => {
                    push_pattern_entry(&mut out, p, i as u32);
                },
                None => {},
            }
            proof {
                assert(out@ =~= lit_bracket_open() + spec_pattern_entries(
                    self.patterns@,
                    i as int + 1,
                ));
            }
            i += 1;
        }
        // Remove the last comma.
        out.pop();
        push_bracket_close(&mut out);
        proof {
            assert(out@ =~= spec_patterns_json(self.patterns@));
        }
        out
    }
}

} // verus!
