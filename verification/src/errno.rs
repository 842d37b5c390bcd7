//! Descriptions of Windows error numbers: decoding the UTF-16 message the
//! system formats for an error into text.
use vstd::prelude::*;

use crate::text::{push_char, trim_end_chars};

verus! {

/// An error number of the operating system.
#[derive(Clone, Copy, Debug, PartialEq, Eq, Structural)]
pub struct Errno(pub i32);

/// The Unicode replacement character, for units that decode to no character.
pub const REPLACEMENT_CHARACTER: char = '\u{FFFD}';

/// The size of the buffers a description is formatted into.
pub const MESSAGE_BUFFER_LEN: usize = 2048;

/// The character whose scalar value is `v`, if there is one (`char::from_u32`).
#[verifier::external_body]
fn char_from_u32(v: u32) -> (r: Option<char>)
    ensures
        r is Some <==> (v <= 0x10FFFF && !(0xD800 <= v <= 0xDFFF)),
        r matches Some(c) ==> c as u32 == v,
{
    char::from_u32(v)
}

/// A UTF-16 high (leading) surrogate.
pub open spec fn is_high_surrogate(u: u16) -> bool {
    0xD800 <= u <= 0xDBFF
}

/// A UTF-16 low (trailing) surrogate.
pub open spec fn is_low_surrogate(u: u16) -> bool {
    0xDC00 <= u <= 0xDFFF
}

/// The character of a surrogate pair.
pub open spec fn pair_scalar(hi: u16, lo: u16) -> u32 {
    (0x10000 + (hi - 0xD800) * 0x400 + (lo - 0xDC00)) as u32
}

/// The scalar value of the character decoded first from `units`, and how
/// many units it takes: a unit that is no surrogate is a character; a high
/// surrogate followed by a low one is a pair; any other surrogate is the
/// replacement character and takes one unit.
pub open spec fn first_decoded(units: Seq<u16>) -> (u32, int)
    recommends
        units.len() > 0,
{
    let u = units[0];
    if !is_high_surrogate(u) && !is_low_surrogate(u) {
        (u as u32, 1)
    } else if is_high_surrogate(u) && units.len() > 1 && is_low_surrogate(units[1]) {
        (pair_scalar(u, units[1]), 2)
    } else {
        (0xFFFD, 1)
    }
}

/// The characters of `units` decoded as UTF-16, with the replacement
/// character for each unpaired surrogate (`char::decode_utf16`, lossily).
pub open spec fn decode_utf16_lossy(units: Seq<u16>) -> Seq<u32>
    decreases units.len(),
{
    if units.len() == 0 {
        Seq::<u32>::empty()
    } else {
        let (c, n) = first_decoded(units);
        if n == 2 {
            seq![c] + decode_utf16_lossy(units.skip(2))
        } else {
            seq![c] + decode_utf16_lossy(units.skip(1))
        }
    }
}

/// The units before the first zero unit.
pub open spec fn until_zero(units: Seq<u16>) -> Seq<u16>
    decreases units.len(),
{
    if units.len() == 0 || units[0] == 0 {
        Seq::<u16>::empty()
    } else {
        seq![units[0]] + until_zero(units.drop_first())
    }
}

/// The length of a character's UTF-8 encoding.
pub open spec fn utf8_len(v: u32) -> int {
    if v < 0x80 {
        1
    } else if v < 0x800 {
        2
    } else if v < 0x10000 {
        3
    } else {
        4
    }
}

/// The longest prefix of `chars` that is taken one character at a time while
/// each next character's UTF-8 encoding still fits in `room` bytes.
pub open spec fn fitting_prefix(chars: Seq<u32>, room: int) -> Seq<u32>
    decreases chars.len(),
{
    if chars.len() == 0 || utf8_len(chars[0]) > room {
        Seq::<u32>::empty()
    } else {
        seq![chars[0]] + fitting_prefix(chars.drop_first(), room - utf8_len(chars[0]))
    }
}

/// The scalar values of a sequence of characters.
pub open spec fn scalars(s: Seq<char>) -> Seq<u32> {
    s.map_values(|c: char| c as u32)
}

/// The characters whose scalar values are `v`.
pub open spec fn chars_of_scalars(v: Seq<u32>) -> Seq<char> {
    v.map_values(|x: u32| x as char)
}

/// Characters read back from their scalar values are the same characters.
proof fn lemma_chars_of_scalars(s: Seq<char>)
    ensures
        chars_of_scalars(scalars(s)) == s,
{
    assert forall|i: int| 0 <= i < s.len() implies #[trigger] chars_of_scalars(scalars(s))[i]
        == s[i] by {
        vstd::utf8::char_u32_cast(s[i], s[i] as u32);
    }
    assert(chars_of_scalars(scalars(s)) =~= s);
}

proof fn lemma_scalars_push(s: Seq<char>, c: char)
    ensures
        scalars(s.push(c)) == scalars(s).push(c as u32),
{
    assert(scalars(s.push(c)) =~= scalars(s).push(c as u32));
}

proof fn lemma_decode_step(units: Seq<u16>, i: int)
    requires
        0 <= i < units.len(),
    ensures
        decode_utf16_lossy(units.skip(i)) == seq![first_decoded(units.skip(i)).0]
            + decode_utf16_lossy(units.skip(i + first_decoded(units.skip(i)).1)),
        first_decoded(units.skip(i)).1 == 1 || (first_decoded(units.skip(i)).1 == 2 && i + 1
            < units.len()),
{
    let t = units.skip(i);
    let n = first_decoded(t).1;
    assert(t.skip(n) =~= units.skip(i + n));
}

proof fn lemma_fit_step(chars: Seq<u32>, room: int)
    requires
        chars.len() > 0,
        utf8_len(chars[0]) <= room,
    ensures
        fitting_prefix(chars, room) == seq![chars[0]] + fitting_prefix(
            chars.drop_first(),
            room - utf8_len(chars[0]),
        ),
{
}

fn utf8_width(v: u32) -> (r: usize)
    ensures
        r == utf8_len(v),
{
    if v < 0x80 {
        1
    } else if v < 0x800 {
        2
    } else if v < 0x10000 {
        3
    } else {
        4
    }
}

proof fn lemma_until_zero_prefix(units: Seq<u16>, k: int)
    requires
        0 <= k <= units.len(),
        forall|j: int| 0 <= j < k ==> units[j] != 0,
        k == units.len() || units[k] == 0,
    ensures
        until_zero(units) == units.take(k),
    decreases units.len(),
{
    if units.len() == 0 || units[0] == 0 {
        assert(k == 0);
        assert(units.take(0) =~= Seq::<u16>::empty());
    } else {
        let t = units.drop_first();
        assert forall|j: int| 0 <= j < k - 1 implies t[j] != 0 by {
            assert(t[j] == units[j + 1]);
        }
        if k < units.len() {
            assert(t[k - 1] == units[k]);
        }
        lemma_until_zero_prefix(t, k - 1);
        assert(seq![units[0]] + t.take(k - 1) =~= units.take(k));
    }
}

/// Decodes the UTF-16 units of `input` before its first zero unit, with the
/// replacement character for unpaired surrogates, into the characters that
/// fit, one after the other, into `capacity` bytes of UTF-8; decoding stops
/// at the first character that does not fit.
pub fn from_utf16_lossy(input: &[u16], capacity: usize) -> (r: String)
    ensures
        scalars(r@) == fitting_prefix(decode_utf16_lossy(until_zero(input@)), capacity as int),
        r@ == chars_of_scalars(
            fitting_prefix(decode_utf16_lossy(until_zero(input@)), capacity as int),
        ),
{
    let n = input.len();
    let mut k: usize = 0;
    while k < n && input[k] != 0
        invariant
            n == input@.len(),
            k <= n,
            forall|j: int| 0 <= j < k ==> input@[j] != 0,
        decreases n - k,
    {
        k = k + 1;
    }
    let ghost units = input@.take(k as int);
    proof {
        lemma_until_zero_prefix(input@, k as int);
    }
    let mut out = String::new();
    let mut used: usize = 0;
    let mut i: usize = 0;
    proof {
        assert(units.skip(0) =~= units);
        assert(scalars(out@) =~= Seq::<u32>::empty());
        assert(Seq::<u32>::empty() + fitting_prefix(decode_utf16_lossy(units), capacity as int)
            =~= fitting_prefix(decode_utf16_lossy(units), capacity as int));
    }
    while i < k
        invariant
            n == input@.len(),
            k <= n,
            units == input@.take(k as int),
            until_zero(input@) == units,
            i <= k,
            used <= capacity,
            fitting_prefix(decode_utf16_lossy(units), capacity as int) == scalars(out@)
                + fitting_prefix(decode_utf16_lossy(units.skip(i as int)), capacity - used),
        decreases k - i,
    {
        let u = input[i];
        let ghost t = units.skip(i as int);
        proof {
            lemma_decode_step(units, i as int);
            assert(t[0] == u);
        }
        let mut step: usize = 1;
        let v: u32 = if u < 0xD800 || u > 0xDFFF {
            u as u32
        } else if u <= 0xDBFF && i + 1 < k && input[i + 1] >= 0xDC00 && input[i + 1] <= 0xDFFF {
            let lo = input[i + 1];
            proof {
                assert(t[1] == lo);
            }
            step = 2;
            0x10000u32 + ((u - 0xD800u16) as u32) * 0x400u32 + ((lo - 0xDC00u16) as u32)
        } else {
            proof {
                if i + 1 < k {
                    assert(t[1] == input@[i + 1]);
                }
            }
            0xFFFDu32
        };
        assert(v == first_decoded(t).0 && step == first_decoded(t).1);
        let ghost rest = decode_utf16_lossy(t);
        let w = utf8_width(v);
        if w > capacity - used {
            proof {
                assert(rest[0] == v);
                assert(rest.len() > 0);
                assert(utf8_len(rest[0]) > capacity - used);
                assert(fitting_prefix(rest, capacity - used) =~= Seq::<u32>::empty());
                assert(scalars(out@) + Seq::<u32>::empty() =~= scalars(out@));
                lemma_chars_of_scalars(out@);
            }
            return out;
        }
        let c = match char_from_u32(v) {
            Some(c) => c,
            None => REPLACEMENT_CHARACTER,
        };
        proof {
            assert(v <= 0x10FFFF && !(0xD800 <= v <= 0xDFFF)) by {
                if u < 0xD800 || u > 0xDFFF {
                } else if step == 2 {
                    assert(0x10000 <= v <= 0x10FFFF);
                } else {
                }
            }
            assert(c as u32 == v);
            let before = scalars(out@);
            assert(rest[0] == v);
            lemma_fit_step(rest, capacity - used);
            assert(rest.drop_first() =~= decode_utf16_lossy(units.skip(i + step)));
            assert(before + (seq![v] + fitting_prefix(rest.drop_first(), capacity - used - w))
                =~= before.push(v) + fitting_prefix(rest.drop_first(), capacity - used - w));
        }
        let ghost before = out@;
        push_char(&mut out, c);
        proof {
            lemma_scalars_push(before, c);
        }
        used = used + w;
        i = i + step;
    }
    proof {
        assert(units.skip(k as int) =~= Seq::<u16>::empty());
        assert(scalars(out@) + Seq::<u32>::empty() =~= scalars(out@));
        lemma_chars_of_scalars(out@);
    }
    out
}

/// The description of an error from the message the system formatted for
/// it: `written` is how many units the system wrote into `buf`, zero when it
/// could not format the message, in which case the error of that failure,
/// `last_error`, is reported instead. The message is decoded into at most
/// `MESSAGE_BUFFER_LEN` bytes and loses its trailing white space (the line
/// break the system appends).
pub fn description_from(buf: &[u16], written: u32, last_error: i32) -> (r: Result<String, Errno>)
    requires
        written <= buf@.len(),
    ensures
        written == 0 ==> r == Err::<String, Errno>(Errno(last_error)),
        written != 0 ==> (r matches Ok(s) && s@ == crate::text::trim_end(
            chars_of_scalars(
                fitting_prefix(
                    decode_utf16_lossy(until_zero(buf@.take(written as int))),
                    MESSAGE_BUFFER_LEN as int,
                ),
            ),
        )),
{
    if written == 0 {
        return Err(Errno(last_error));
    }
    let mut head: Vec<u16> = Vec::new();
    let mut i: usize = 0;
    while i < written as usize
        invariant
            written <= buf@.len(),
            i <= written,
            head@ == buf@.take(i as int),
        decreases written - i,
    {
        head.push(buf[i]);
        i = i + 1;
        assert(head@ =~= buf@.take(i as int));
    }
    let msg = from_utf16_lossy(head.as_slice(), MESSAGE_BUFFER_LEN);
    let chars = crate::text::chars_of(msg.as_str());
    let trimmed = trim_end_chars(&chars);
    let s = crate::text::string_of(trimmed.as_slice());
    Ok(s)
}

} // verus!

verus! {

/// The units of a sequence as scalar values.
pub open spec fn widen(units: Seq<u16>) -> Seq<u32> {
    units.map_values(|u: u16| u as u32)
}

/// The length of the UTF-8 encoding of a sequence of characters.
pub open spec fn utf8_total(chars: Seq<u32>) -> int
    decreases chars.len(),
{
    if chars.len() == 0 {
        0
    } else {
        utf8_len(chars[0]) + utf8_total(chars.drop_first())
    }
}

proof fn lemma_utf8_total_nonneg(chars: Seq<u32>)
    ensures
        utf8_total(chars) >= 0,
    decreases chars.len(),
{
    if chars.len() > 0 {
        lemma_utf8_total_nonneg(chars.drop_first());
    }
}

/// A message of plain characters (no zero unit, no surrogate) whose UTF-8
/// encoding fits the room is decoded whole and unchanged.
pub proof fn lemma_plain_message_kept(units: Seq<u16>, room: int)
    requires
        forall|i: int|
            0 <= i < units.len() ==> #[trigger] units[i] != 0 && !is_high_surrogate(units[i])
                && !is_low_surrogate(units[i]),
        utf8_total(widen(units)) <= room,
    ensures
        fitting_prefix(decode_utf16_lossy(until_zero(units)), room) == widen(units),
    decreases units.len(),
{
    if units.len() == 0 {
        assert(widen(units) =~= Seq::<u32>::empty());
    } else {
        let t = units.drop_first();
        assert forall|i: int| 0 <= i < t.len() implies #[trigger] t[i] != 0 && !is_high_surrogate(
            t[i],
        ) && !is_low_surrogate(t[i]) by {
            assert(t[i] == units[i + 1]);
        }
        assert(widen(t) =~= widen(units).drop_first());
        assert(units[0] != 0);
        assert(until_zero(units) == seq![units[0]] + until_zero(t));
        let u = until_zero(units);
        assert(u[0] == units[0]);
        assert(u.skip(1) =~= until_zero(t));
        assert(first_decoded(u) == (units[0] as u32, 1int));
        assert(decode_utf16_lossy(u) == seq![units[0] as u32] + decode_utf16_lossy(until_zero(t)));
        lemma_plain_message_kept(t, room - utf8_len(units[0] as u32));
        let d = decode_utf16_lossy(u);
        assert(d[0] == units[0] as u32);
        assert(d.drop_first() =~= decode_utf16_lossy(until_zero(t)));
        assert(widen(units) =~= seq![units[0] as u32] + widen(t));
        lemma_utf8_total_nonneg(widen(t));
        assert(widen(units)[0] == units[0] as u32);
        assert(utf8_total(widen(units)) == utf8_len(units[0] as u32) + utf8_total(widen(t)));
        lemma_fit_step(d, room);
    }
}

} // verus!
