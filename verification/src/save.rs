use vstd::prelude::*;

verus! {

/// The player progress that goes into the save file: position and coins.
/// Health and points are not persisted.
#[derive(Clone, Copy, PartialEq, Eq, Structural, Debug)]
pub struct SaveData {
    pub x: i32,
    pub y: i32,
    pub coins: i32,
}

/// The opening of the save file up to the value of `x`:
/// `{"position":{"x":`.
pub open spec fn save_prefix() -> Seq<u8> {
    seq![
        123, 34, 112, 111, 115, 105, 116, 105, 111, 110, 34, 58, 123, 34, 120,
        34, 58,
    ]
}

/// The bytes between the `x` and `y` values: `,"y":`.
pub open spec fn save_mid_y() -> Seq<u8> {
    seq![44, 34, 121, 34, 58]
}

/// The bytes between the `y` and `coins` values: `},"coins":`.
pub open spec fn save_mid_coins() -> Seq<u8> {
    seq![125, 44, 34, 99, 111, 105, 110, 115, 34, 58]
}

/// The closing byte of the save file: `}`.
pub open spec fn save_suffix() -> Seq<u8> {
    seq![125]
}

/// Decimal digits of `n`, most significant first, without leading zeros
/// (except for `n == 0`, which is the single digit `0`).
pub open spec fn dec_rep(n: nat) -> Seq<u8>
    decreases n,
{
    if n < 10 {
        seq![(48 + n) as u8]
    } else {
        dec_rep(n / 10).push((48 + n % 10) as u8)
    }
}

/// Decimal representation of `v`: a minus sign for negative values, then
/// the digits of the magnitude.
pub open spec fn int_rep(v: int) -> Seq<u8> {
    if v < 0 {
        seq![45] + dec_rep((-v) as nat)
    } else {
        dec_rep(v as nat)
    }
}

/// The save file for `d`, as `serde`-style compact JSON with the fields in
/// declaration order: `{"position":{"x":X,"y":Y},"coins":C}`.
pub open spec fn spec_encode_save(d: SaveData) -> Seq<u8> {
    save_prefix() + int_rep(d.x as int) + save_mid_y() + int_rep(d.y as int) + save_mid_coins()
        + int_rep(d.coins as int) + save_suffix()
}

/// Whether `c` is an ASCII decimal digit.
pub open spec fn is_digit(c: u8) -> bool {
    48 <= c <= 57
}

/// The numeric value of the digit byte `c`.
pub open spec fn digit_val(c: u8) -> int {
    c - 48
}

/// The first index at or after `i` that does not hold a digit (or the end
/// of `s`).
pub open spec fn digits_end(s: Seq<u8>, i: int) -> int
    decreases s.len() - i when 0 <= i <= s.len()
{
    if i < s.len() && is_digit(s[i]) {
        digits_end(s, i + 1)
    } else {
        i
    }
}

/// The value of the digit run `s[i..j)`, read as a decimal number.
pub open spec fn digits_value(s: Seq<u8>, i: int, j: int) -> int
    decreases j - i when i <= j
{
    if j <= i {
        0
    } else {
        digits_value(s, i, j - 1) * 10 + digit_val(s[j - 1])
    }
}

/// Parses a JSON number at index `i` of `s`: an optional minus sign, a
/// digit run, and an optional fraction, whose digits are dropped (the value
/// is truncated toward zero). Yields the value and the index just past the
/// number, or nothing when no digit follows the optional sign or the value
/// does not fit an `i32`.
pub open spec fn spec_parse_number(s: Seq<u8>, i: int) -> Option<(int, int)> {
    let neg = i < s.len() && s[i] == 45;
    let i1 = if neg {
        i + 1
    } else {
        i
    };
    if i1 < s.len() && is_digit(s[i1]) {
        let j = digits_end(s, i1);
        let mag = digits_value(s, i1, j);
        let v = if neg {
            -mag
        } else {
            mag
        };
        let k = if j + 1 < s.len() && s[j] == 46 && is_digit(s[j + 1]) {
            digits_end(s, j + 1)
        } else {
            j
        };
        if i32::MIN <= v <= i32::MAX {
            Some((v, k))
        } else {
            None
        }
    } else {
        None
    }
}

/// Whether the bytes of `lit` stand in `s` at index `i`.
pub open spec fn lit_at(s: Seq<u8>, i: int, lit: Seq<u8>) -> bool {
    0 <= i && i + lit.len() <= s.len() && s.subrange(i, i + lit.len()) == lit
}

/// Parses the save-file bytes: the fixed JSON frame around three numbers,
/// with nothing allowed after the closing brace. Yields the restored data,
/// or nothing when the bytes do not have that shape.
pub open spec fn spec_parse_save(s: Seq<u8>) -> Option<SaveData> {
    if !lit_at(s, 0, save_prefix()) {
        None
    } else {
        match spec_parse_number(s, save_prefix().len() as int) {
            None => None,
            Some((x, p1)) => {
                if !lit_at(s, p1, save_mid_y()) {
                    None
                } else {
                    match spec_parse_number(s, p1 + save_mid_y().len()) {
                        None => None,
                        Some((y, p2)) => {
                            if !lit_at(s, p2, save_mid_coins()) {
                                None
                            } else {
                                match spec_parse_number(s, p2 + save_mid_coins().len()) {
                                    None => None,
                                    Some((coins, p3)) => {
                                        if p3 + 1 == s.len() && s[p3] == 125 {
                                            Some(SaveData {
                                                x: x as i32,
                                                y: y as i32,
                                                coins: coins as i32,
                                            })
                                        } else {
                                            None
                                        }
                                    },
                                }
                            }
                        },
                    }
                }
            },
        }
    }
}

/// Appends the decimal digits of `n` to `out`.
fn push_u32_dec(out: &mut Vec<u8>, n: u32)
    ensures
        final(out)@ == old(out)@ + dec_rep(n as nat),
    decreases n,
{
    if n < 10 {
        out.push(48 + n as u8);
        assert(out@ =~= old(out)@ + dec_rep(n as nat));
    } else {
        push_u32_dec(out, n / 10);
        out.push(48 + (n % 10) as u8);
        assert(out@ =~= old(out)@ + dec_rep(n as nat));
    }
}

/// Appends the decimal representation of `v` to `out`.
fn push_i32(out: &mut Vec<u8>, v: i32)
    ensures
        final(out)@ == old(out)@ + int_rep(v as int),
{
    if v < 0 {
        out.push(45);
        let mag: u32 = (-(v as i64)) as u32;
        push_u32_dec(out, mag);
        assert(out@ =~= old(out)@ + int_rep(v as int));
    } else {
        push_u32_dec(out, v as u32);
    }
}

/// Appends every byte of `lit` to `out`.
fn push_lit(out: &mut Vec<u8>, lit: &Vec<u8>)
    ensures
        final(out)@ == old(out)@ + lit@,
{
    let mut i: usize = 0;
    while i < lit.len()
        invariant
            i <= lit.len(),
            out@ == old(out)@ + lit@.subrange(0, i as int),
        decreases lit.len() - i,
    {
        out.push(lit[i]);
        i = i + 1;
        assert(out@ =~= old(out)@ + lit@.subrange(0, i as int));
    }
    assert(out@ =~= old(out)@ + lit@);
}

/// The opening literal as bytes.
fn lit_prefix() -> (v: Vec<u8>)
    ensures
        v@ == save_prefix(),
{
    let mut v: Vec<u8> = Vec::new();
    v.push(123);
    v.push(34);
    v.push(112);
    v.push(111);
    v.push(115);
    v.push(105);
    v.push(116);
    v.push(105);
    v.push(111);
    v.push(110);
    v.push(34);
    v.push(58);
    v.push(123);
    v.push(34);
    v.push(120);
    v.push(34);
    v.push(58);
    assert(v@ =~= save_prefix());
    v
}

/// The literal between `x` and `y` as bytes.
fn lit_mid_y() -> (v: Vec<u8>)
    ensures
        v@ == save_mid_y(),
{
    let mut v: Vec<u8> = Vec::new();
    v.push(44);
    v.push(34);
    v.push(121);
    v.push(34);
    v.push(58);
    assert(v@ =~= save_mid_y());
    v
}

/// The literal between `y` and `coins` as bytes.
fn lit_mid_coins() -> (v: Vec<u8>)
    ensures
        v@ == save_mid_coins(),
{
    let mut v: Vec<u8> = Vec::new();
    v.push(125);
    v.push(44);
    v.push(34);
    v.push(99);
    v.push(111);
    v.push(105);
    v.push(110);
    v.push(115);
    v.push(34);
    v.push(58);
    assert(v@ =~= save_mid_coins());
    v
}

/// Every byte of `dec_rep(n)` is a digit, and there is at least one.
proof fn lemma_dec_rep_digits(n: nat)
    ensures
        dec_rep(n).len() >= 1,
        forall|k: int| 0 <= k < dec_rep(n).len() ==> is_digit(#[trigger] dec_rep(n)[k]),
    decreases n,
{
    if n >= 10 {
        lemma_dec_rep_digits(n / 10);
    }
}

/// If `s[i..e)` holds only digits and `e` ends the run, the digit scan from
/// `i` stops exactly at `e`.
proof fn lemma_digits_end_of_run(s: Seq<u8>, i: int, e: int)
    requires
        0 <= i <= e <= s.len(),
        forall|k: int| i <= k < e ==> is_digit(#[trigger] s[k]),
        e == s.len() || !is_digit(s[e]),
    ensures
        digits_end(s, i) == e,
    decreases e - i,
{
    if i < e {
        lemma_digits_end_of_run(s, i + 1, e);
    }
}

/// When `s` holds `dec_rep(n)` at index `i`, the digit-run value there is
/// exactly `n`.
proof fn lemma_digits_value_of_rep(s: Seq<u8>, i: int, n: nat)
    requires
        0 <= i,
        i + dec_rep(n).len() <= s.len(),
        s.subrange(i, i + dec_rep(n).len()) == dec_rep(n),
    ensures
        digits_value(s, i, i + dec_rep(n).len()) == n,
    decreases n,
{
    let e = i + dec_rep(n).len();
    if n < 10 {
        assert(s[i] == s.subrange(i, e)[0]);
        assert(digits_value(s, i, i) == 0);
        assert(digits_value(s, i, e) == digit_val(s[i]));
    } else {
        assert forall|k: int| 0 <= k < dec_rep(n / 10).len() implies #[trigger] s.subrange(
            i,
            e - 1,
        )[k] == dec_rep(n / 10)[k] by {
            assert(s[i + k] == s.subrange(i, e)[k]);
        }
        assert(s.subrange(i, e - 1) =~= dec_rep(n / 10));
        lemma_digits_value_of_rep(s, i, n / 10);
        assert(s[e - 1] == s.subrange(i, e)[e - 1 - i]);
        assert(digit_val(s[e - 1]) == n % 10);
        assert(digits_value(s, i, e) == digits_value(s, i, e - 1) * 10 + digit_val(s[e - 1]));
        assert(n / 10 * 10 + n % 10 == n);
    }
}

/// Parsing a number where `s` holds the decimal representation of `v`,
/// bounded on the right by the end of `s` or a byte that is neither a digit
/// nor a dot, yields exactly `v` and the boundary position.
proof fn lemma_parse_int_rep(s: Seq<u8>, i: int, v: int)
    requires
        0 <= i,
        i32::MIN <= v <= i32::MAX,
        i + int_rep(v).len() <= s.len(),
        s.subrange(i, i + int_rep(v).len()) == int_rep(v),
        ({
            let e = i + int_rep(v).len();
            e == s.len() || (!is_digit(s[e]) && s[e] != 46)
        }),
    ensures
        spec_parse_number(s, i) == Some((v, i + int_rep(v).len())),
{
    let e = i + int_rep(v).len();
    if v < 0 {
        let mag = (-v) as nat;
        lemma_dec_rep_digits(mag);
        assert(s[i] == s.subrange(i, e)[0]);
        assert(s[i] == 45);
        assert forall|k: int| i + 1 <= k < e implies is_digit(#[trigger] s[k]) by {
            assert(s[k] == s.subrange(i, e)[k - i]);
            assert(s.subrange(i, e)[k - i] == dec_rep(mag)[k - i - 1]);
        }
        assert forall|k: int| 0 <= k < dec_rep(mag).len() implies #[trigger] s.subrange(
            i + 1,
            e,
        )[k] == dec_rep(mag)[k] by {
            assert(s[i + 1 + k] == s.subrange(i, e)[k + 1]);
        }
        assert(s.subrange(i + 1, e) =~= dec_rep(mag));
        lemma_digits_end_of_run(s, i + 1, e);
        lemma_digits_value_of_rep(s, i + 1, mag);
    } else {
        let mag = v as nat;
        lemma_dec_rep_digits(mag);
        assert forall|k: int| i <= k < e implies is_digit(#[trigger] s[k]) by {
            assert(s[k] == s.subrange(i, e)[k - i]);
        }
        assert(s[i] != 45);
        lemma_digits_end_of_run(s, i, e);
        lemma_digits_value_of_rep(s, i, mag);
    }
}

/// Round trip: parsing the encoding of any save data yields that data back.
pub proof fn lemma_save_roundtrip(d: SaveData)
    ensures
        spec_parse_save(spec_encode_save(d)) == Some(d),
{
    let s = spec_encode_save(d);
    let rx = int_rep(d.x as int);
    let ry = int_rep(d.y as int);
    let rc = int_rep(d.coins as int);
    let e1 = 17 + rx.len();
    let b2 = e1 + 5;
    let e2 = b2 + ry.len();
    let b3 = e2 + 10;
    let e3 = b3 + rc.len();
    assert(s.len() == e3 + 1);
    assert(s.subrange(0, 17) =~= save_prefix());
    assert(s.subrange(17, e1 as int) =~= rx);
    assert(s[e1 as int] == 44);
    lemma_parse_int_rep(s, 17, d.x as int);
    assert(s.subrange(e1 as int, b2 as int) =~= save_mid_y());
    assert(s.subrange(b2 as int, e2 as int) =~= ry);
    assert(s[e2 as int] == 125);
    lemma_parse_int_rep(s, b2 as int, d.y as int);
    assert(s.subrange(e2 as int, b3 as int) =~= save_mid_coins());
    assert(s.subrange(b3 as int, e3 as int) =~= rc);
    assert(s[e3 as int] == 125);
    lemma_parse_int_rep(s, b3 as int, d.coins as int);
    assert(spec_parse_save(s) == Some(d));
}

/// Whether the bytes of `lit` stand in `bytes` at index `at`.
fn has_lit(bytes: &Vec<u8>, at: usize, lit: &Vec<u8>) -> (r: bool)
    ensures
        r == lit_at(bytes@, at as int, lit@),
{
    if at > bytes.len() || bytes.len() - at < lit.len() {
        return false;
    }
    let mut i: usize = 0;
    while i < lit.len()
        invariant
            i <= lit.len(),
            at + lit.len() <= bytes.len(),
            forall|k: int| 0 <= k < i ==> bytes@[at + k] == lit@[k],
        decreases lit.len() - i,
    {
        if bytes[at + i] != lit[i] {
            proof {
                assert(bytes@.subrange(at as int, at + lit@.len())[i as int] == bytes@[at + i]);
            }
            return false;
        }
        i = i + 1;
    }
    proof {
        assert(bytes@.subrange(at as int, at + lit@.len()) =~= lit@);
    }
    true
}

/// Parses a JSON number at index `at` of `bytes`, exactly as
/// `spec_parse_number` describes.
fn parse_number(bytes: &Vec<u8>, at: usize) -> (r: Option<(i32, usize)>)
    ensures
        ({
            let sp = spec_parse_number(bytes@, at as int);
            match r {
                Some(p) => sp == Some((p.0 as int, p.1 as int)) && p.1 <= bytes.len(),
                None => sp is None,
            }
        }),
{
    let n = bytes.len();
    let neg = at < n && bytes[at] == 45;
    let i1 = if neg {
        at + 1
    } else {
        at
    };
    if !(i1 < n && 48 <= bytes[i1] && bytes[i1] <= 57) {
        return None;
    }
    let mut j = i1;
    let mut acc: i64 = 0;
    let mut over = false;
    while j < n && 48 <= bytes[j] && bytes[j] <= 57
        invariant
            i1 <= j <= n,
            n == bytes@.len(),
            forall|k: int| i1 <= k < j ==> is_digit(bytes@[k]),
            digits_end(bytes@, i1 as int) == digits_end(bytes@, j as int),
            !over ==> acc == digits_value(bytes@, i1 as int, j as int) && 0 <= acc
                <= 0x8000_0000,
            over ==> digits_value(bytes@, i1 as int, j as int) > 0x8000_0000,
        decreases n - j,
    {
        let d = bytes[j] - 48;
        proof {
            assert(digits_value(bytes@, i1 as int, j + 1) == digits_value(
                bytes@,
                i1 as int,
                j as int,
            ) * 10 + digit_val(bytes@[j as int]));
        }
        if !over {
            acc = acc * 10 + d as i64;
            if acc > 0x8000_0000 {
                over = true;
            }
        }
        j = j + 1;
        proof {
            assert(digits_end(bytes@, (j - 1) as int) == digits_end(bytes@, j as int));
        }
    }
    proof {
        assert(digits_end(bytes@, j as int) == j as int);
    }
    let mut k = j;
    if j < n && bytes[j] == 46 && j + 1 < n && 48 <= bytes[j + 1] && bytes[j + 1] <= 57 {
        k = j + 1;
        while k < n && 48 <= bytes[k] && bytes[k] <= 57
            invariant
                j + 1 <= k <= n,
                n == bytes@.len(),
                digits_end(bytes@, (j + 1) as int) == digits_end(bytes@, k as int),
            decreases n - k,
        {
            k = k + 1;
            proof {
                assert(digits_end(bytes@, (k - 1) as int) == digits_end(bytes@, k as int));
            }
        }
        proof {
            assert(digits_end(bytes@, k as int) == k as int);
        }
    }
    if over {
        return None;
    }
    if neg {
        Some(((-acc) as i32, k))
    } else {
        if acc > 0x7fff_ffff {
            return None;
        }
        Some((acc as i32, k))
    }
}

/// Parses save-file bytes back into save data, exactly as `spec_parse_save`
/// describes; `None` when the bytes do not have the save-file shape.
pub fn parse_save(bytes: &Vec<u8>) -> (r: Option<SaveData>)
    ensures
        r == spec_parse_save(bytes@),
{
    let prefix = lit_prefix();
    if !has_lit(bytes, 0, &prefix) {
        return None;
    }
    let (x, p1) = match parse_number(bytes, prefix.len()) {
        Some(p) => p,
        None => {
            return None;
        },
    };
    let mid_y = lit_mid_y();
    if !has_lit(bytes, p1, &mid_y) {
        return None;
    }
    let (y, p2) = match parse_number(bytes, p1 + mid_y.len()) {
        Some(p) => p,
        None => {
            return None;
        },
    };
    let mid_coins = lit_mid_coins();
    if !has_lit(bytes, p2, &mid_coins) {
        return None;
    }
    let (coins, p3) = match parse_number(bytes, p2 + mid_coins.len()) {
        Some(p) => p,
        None => {
            return None;
        },
    };
    if p3 < bytes.len() && bytes[p3] == 125 && p3 + 1 == bytes.len() {
        Some(SaveData { x, y, coins })
    } else {
        None
    }
}

/// Encodes the save data as its JSON save-file bytes.
pub fn encode_save(d: &SaveData) -> (out: Vec<u8>)
    ensures
        out@ == spec_encode_save(*d),
{
    let mut out: Vec<u8> = Vec::new();
    let prefix = lit_prefix();
    push_lit(&mut out, &prefix);
    push_i32(&mut out, d.x);
    let mid_y = lit_mid_y();
    push_lit(&mut out, &mid_y);
    push_i32(&mut out, d.y);
    let mid_coins = lit_mid_coins();
    push_lit(&mut out, &mid_coins);
    push_i32(&mut out, d.coins);
    out.push(125);
    assert(out@ =~= spec_encode_save(*d));
    out
}

} // verus!
