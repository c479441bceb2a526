//! The program loader: it tokenizes program text into lines of four
//! decimal byte values, skips comment lines, and fills the 256-byte
//! program image, failing the whole load when a line is malformed or
//! the image would overflow.
//!
//! A line's tokens are its maximal runs of non-whitespace bytes. A line
//! holding a `#` token anywhere is a comment and is skipped whole.
//! Every other line must begin with four tokens that each parse as a
//! decimal byte — an optional leading `+`, then decimal digits, value
//! at most 255 — and any further tokens after the four are ignored.
use crate::Fault;
use vstd::prelude::*;
use vstd::string::StringSliceAdditionalSpecFns;

verus! {

/// ASCII whitespace: tab, line feed, vertical tab, form feed, carriage
/// return, and space.
pub open spec fn is_space(b: u8) -> bool {
    b == 32 || (9 <= b && b <= 13)
}

/// An ASCII decimal digit.
pub open spec fn is_digit(b: u8) -> bool {
    48 <= b && b <= 57
}

/// The first position in `[i, hi)` holding a non-whitespace byte, or
/// `hi` when there is none.
pub open spec fn next_non_ws(s: Seq<u8>, i: int, hi: int) -> int
    decreases hi - i,
{
    if i >= hi {
        hi
    } else if is_space(s[i]) {
        next_non_ws(s, i + 1, hi)
    } else {
        i
    }
}

/// The first position in `[i, hi)` holding a whitespace byte, or `hi`
/// when there is none.
pub open spec fn next_ws(s: Seq<u8>, i: int, hi: int) -> int
    decreases hi - i,
{
    if i >= hi {
        hi
    } else if !is_space(s[i]) {
        next_ws(s, i + 1, hi)
    } else {
        i
    }
}

/// Where [`next_non_ws`] lands: between `i` and `hi`, and on a
/// non-whitespace byte unless it is `hi`.
pub proof fn lemma_next_non_ws(s: Seq<u8>, i: int, hi: int)
    requires
        i <= hi,
    ensures
        i <= next_non_ws(s, i, hi) <= hi,
        next_non_ws(s, i, hi) < hi ==> !is_space(s[next_non_ws(s, i, hi)]),
    decreases hi - i,
{
    if i < hi && is_space(s[i]) {
        lemma_next_non_ws(s, i + 1, hi);
    }
}

/// Where [`next_ws`] lands: between `i` and `hi`, and on a whitespace
/// byte unless it is `hi`.
pub proof fn lemma_next_ws(s: Seq<u8>, i: int, hi: int)
    requires
        i <= hi,
    ensures
        i <= next_ws(s, i, hi) <= hi,
        next_ws(s, i, hi) < hi ==> is_space(s[next_ws(s, i, hi)]),
    decreases hi - i,
{
    if i < hi && !is_space(s[i]) {
        lemma_next_ws(s, i + 1, hi);
    }
}

/// The whitespace-separated tokens of `s` within `[i, hi)`, in order,
/// each given as its run of bytes.
pub open spec fn tokens_in(s: Seq<u8>, i: int, hi: int) -> Seq<Seq<u8>>
    decreases hi - i,
    via tokens_in_decreases
{
    let j = next_non_ws(s, i, hi);
    if j >= hi {
        Seq::empty()
    } else {
        let k = next_ws(s, j, hi);
        seq![s.subrange(j, k)] + tokens_in(s, k, hi)
    }
}

#[via_fn]
proof fn tokens_in_decreases(s: Seq<u8>, i: int, hi: int) {
    let j = next_non_ws(s, i, hi);
    if j < hi {
        if i <= hi {
            lemma_next_non_ws(s, i, hi);
            lemma_next_ws(s, j + 1, hi);
            assert(next_ws(s, j, hi) == next_ws(s, j + 1, hi));
        }
    }
}

/// The numeric value of a run of decimal digit bytes, most significant
/// first.
pub open spec fn digits_val(t: Seq<u8>) -> int
    decreases t.len(),
{
    if t.len() == 0 {
        0
    } else {
        digits_val(t.drop_last()) * 10 + (t.last() - 48)
    }
}

/// Whether every byte of `t` is a decimal digit.
pub open spec fn all_digits(t: Seq<u8>) -> bool {
    forall|n: int| 0 <= n < t.len() ==> is_digit(#[trigger] t[n])
}

/// What a token parses to as a decimal byte: after an optional leading
/// `+`, at least one digit and digits only, with a value of at most
/// 255; anything else is no byte.
pub open spec fn parse_byte_spec(t: Seq<u8>) -> Option<u8> {
    let d = if t.len() > 0 && t[0] == 43 {
        t.drop_first()
    } else {
        t
    };
    if d.len() > 0 && all_digits(d) && digits_val(d) <= 255 {
        Some(digits_val(d) as u8)
    } else {
        None
    }
}

/// A digit run's value only grows as digits are appended: any prefix of
/// an all-digit run is worth no more than the whole, and no run is
/// worth less than zero.
pub proof fn lemma_digits_val_prefix(t: Seq<u8>, n: int)
    requires
        0 <= n <= t.len(),
        all_digits(t),
    ensures
        0 <= digits_val(t.subrange(0, n)) <= digits_val(t),
    decreases t.len(),
{
    if t.len() == 0 {
        assert(t.subrange(0, n) =~= t);
    } else {
        assert(all_digits(t.drop_last()));
        lemma_digits_val_prefix(t.drop_last(), if n <= t.len() - 1 {
            n
        } else {
            t.len() - 1
        });
        if n == t.len() {
            assert(t.subrange(0, n) =~= t);
        } else {
            assert(t.subrange(0, n) =~= t.drop_last().subrange(0, n));
        }
    }
}

/// The single-byte token that marks a comment line.
pub open spec fn hash_token() -> Seq<u8> {
    seq![35u8]
}

/// What one line of program text asks of the loader.
pub enum LineAction {
    /// A comment line — one of its tokens is `#` — contributing nothing.
    Skip,
    /// Four decimal byte values to append to the program image.
    Write(u8, u8, u8, u8),
    /// A malformed line, failing the whole load.
    Fail,
}

/// How the line occupying `[lo, hi)` of the text loads: skipped when
/// any token is `#`, four bytes when the first four tokens each parse
/// as a decimal byte, and malformed otherwise.
pub open spec fn line_action(s: Seq<u8>, lo: int, hi: int) -> LineAction {
    let ts = tokens_in(s, lo, hi);
    if exists|n: int| 0 <= n < ts.len() && #[trigger] ts[n] == hash_token() {
        LineAction::Skip
    } else if ts.len() >= 4 && parse_byte_spec(ts[0]) is Some && parse_byte_spec(ts[1]) is Some
        && parse_byte_spec(ts[2]) is Some && parse_byte_spec(ts[3]) is Some {
        LineAction::Write(
            parse_byte_spec(ts[0])->Some_0,
            parse_byte_spec(ts[1])->Some_0,
            parse_byte_spec(ts[2])->Some_0,
            parse_byte_spec(ts[3])->Some_0,
        )
    } else {
        LineAction::Fail
    }
}

fn is_space_byte(b: u8) -> (r: bool)
    ensures
        r == is_space(b),
{
    b == 32 || (9 <= b && b <= 13)
}

fn find_non_ws(s: &[u8], i: usize, hi: usize) -> (j: usize)
    requires
        i <= hi <= s@.len(),
    ensures
        j == next_non_ws(s@, i as int, hi as int),
        i <= j <= hi,
        j < hi ==> !is_space(s@[j as int]),
    decreases hi - i,
{
    if i == hi {
        hi
    } else if is_space_byte(s[i]) {
        find_non_ws(s, i + 1, hi)
    } else {
        i
    }
}

fn find_ws(s: &[u8], i: usize, hi: usize) -> (j: usize)
    requires
        i <= hi <= s@.len(),
    ensures
        j == next_ws(s@, i as int, hi as int),
        i <= j <= hi,
    decreases hi - i,
{
    if i == hi {
        hi
    } else if !is_space_byte(s[i]) {
        find_ws(s, i + 1, hi)
    } else {
        i
    }
}

/// Whether any token in `[pos, hi)` is exactly `#`.
fn scan_hash(s: &[u8], pos: usize, hi: usize) -> (r: bool)
    requires
        pos <= hi <= s@.len(),
    ensures
        r == exists|n: int|
            0 <= n < tokens_in(s@, pos as int, hi as int).len() && #[trigger] tokens_in(
                s@,
                pos as int,
                hi as int,
            )[n] == hash_token(),
    decreases hi - pos,
{
    let ghost ts = tokens_in(s@, pos as int, hi as int);
    let j = find_non_ws(s, pos, hi);
    if j == hi {
        return false;
    }
    let k = find_ws(s, j, hi);
    let ghost tok = s@.subrange(j as int, k as int);
    let ghost rest = tokens_in(s@, k as int, hi as int);
    proof {
        assert(ts == seq![tok] + rest);
        lemma_next_ws(s@, j as int + 1, hi as int);
        assert(k as int >= j as int + 1);
    }
    // a token is the comment mark exactly when it is the one byte `#`
    if k == j + 1 && s[j] == 35 {
        proof {
            assert(ts[0] =~= hash_token());
        }
        return true;
    }
    proof {
        assert(tok != hash_token()) by {
            if tok == hash_token() {
                assert(tok.len() == 1);
                assert(tok[0] == 35);
                assert(s@[j as int] == 35);
            }
        }
    }
    let r = scan_hash(s, k, hi);
    proof {
        if r {
            let n = choose|n: int| 0 <= n < rest.len() && #[trigger] rest[n] == hash_token();
            assert(ts[n + 1] == hash_token());
        } else {
            assert forall|n: int| 0 <= n < ts.len() implies #[trigger] ts[n] != hash_token() by {
                if n == 0 {
                    assert(ts[0] == tok);
                } else {
                    assert(ts[n] == rest[n - 1]);
                }
            }
        }
    }
    r
}

/// Parse the bytes in `[lo, hi)` as one decimal byte token.
#[verifier::loop_isolation(false)]
fn parse_byte_range(s: &[u8], lo: usize, hi: usize) -> (r: Option<u8>)
    requires
        lo <= hi <= s@.len(),
    ensures
        r == parse_byte_spec(s@.subrange(lo as int, hi as int)),
    {
    let ghost t = s@.subrange(lo as int, hi as int);
    // 43 is the byte `+`: one optional leading sign
    let start = if lo < hi && s[lo] == 43 {
        lo + 1
    } else {
        lo
    };
    let ghost d = if t.len() > 0 && t[0] == 43 {
        t.drop_first()
    } else {
        t
    };
    proof {
        assert(t.len() > 0 ==> t[0] == s@[lo as int]);
        assert(d =~= s@.subrange(start as int, hi as int));
    }
    if start == hi {
        return None;
    }
    let mut j = start;
    let mut acc: u16 = 0;
    while j < hi
        invariant
            start <= j <= hi <= s@.len(),
            acc <= 255,
            d == s@.subrange(start as int, hi as int),
            start < hi,
            all_digits(s@.subrange(start as int, j as int)),
            acc as int == digits_val(s@.subrange(start as int, j as int)),
        decreases hi - j,
    {
        let b = s[j];
        if b < 48 || b > 57 {
            proof {
                // the byte at offset j - start spoils the digit run
                assert(d[j as int - start as int] == s@[j as int]);
                assert(!is_digit(d[j as int - start as int]));
                assert(!all_digits(d));
                assert(parse_byte_spec(t) is None);
            }
            return None;
        }
        proof {
            let pre = s@.subrange(start as int, j as int);
            let ext = s@.subrange(start as int, j as int + 1);
            assert(ext.drop_last() =~= pre);
            assert(ext.last() == s@[j as int]);
        }
        let v: u16 = acc * 10 + (b - 48) as u16;
        if v > 255 {
            proof {
                let ext = s@.subrange(start as int, j as int + 1);
                assert(digits_val(ext) == digits_val(ext.drop_last()) * 10 + (ext.last() - 48));
                assert(digits_val(ext) == v);
                if all_digits(d) && digits_val(d) <= 255 {
                    let m = j as int + 1 - start as int;
                    assert(ext =~= d.subrange(0, m));
                    lemma_digits_val_prefix(d, m);
                    assert(false);
                }
                assert(parse_byte_spec(t) is None);
            }
            return None;
        }
        acc = v;
        j = j + 1;
    }
    proof {
        assert(s@.subrange(start as int, j as int) =~= d);
    }
    Some(acc as u8)
}

/// Parse one token of a string as a decimal byte: an optional leading
/// `+`, then decimal digits with a value of at most 255. This is also
/// how a line of console input becomes a byte for the I/O register.
pub fn parse_byte(token: &str) -> (r: Option<u8>)
    ensures
        r == parse_byte_spec(token.spec_bytes()),
{
    let bytes = token.as_bytes();
    let r = parse_byte_range(bytes, 0, bytes.len());
    proof {
        assert(bytes@.subrange(0, bytes@.len() as int) =~= token.spec_bytes());
    }
    r
}

/// Load the line occupying `[lo, hi)` of the program text into the
/// image at `prom_end`: a comment line changes nothing, a well-formed
/// line appends its four bytes (a fault when they would not fit), and a
/// malformed line is a fault. On any fault the image is unchanged.
fn parse_line_range(s: &[u8], lo: usize, hi: usize, prom: &mut Vec<u8>, prom_end: usize) -> (r:
    Result<usize, Fault>)
    requires
        lo <= hi <= s@.len(),
        old(prom)@.len() == 256,
        prom_end <= 256,
    ensures
        final(prom)@.len() == 256,
        match line_action(s@, lo as int, hi as int) {
            LineAction::Skip => r == Ok::<usize, Fault>(prom_end) && final(prom)@ == old(prom)@,
            LineAction::Write(a, b, c, d) => if prom_end + 4 <= 256 {
                &&& r == Ok::<usize, Fault>((prom_end + 4) as usize)
                &&& final(prom)@ == old(prom)@.update(prom_end as int, a).update(
                    prom_end as int + 1,
                    b,
                ).update(prom_end as int + 2, c).update(prom_end as int + 3, d)
            } else {
                r == Err::<usize, Fault>(Fault::Load) && final(prom)@ == old(prom)@
            },
            LineAction::Fail => r == Err::<usize, Fault>(Fault::Load) && final(prom)@ == old(
                prom,
            )@,
        },
{
    let ghost ts = tokens_in(s@, lo as int, hi as int);
    if scan_hash(s, lo, hi) {
        return Ok(prom_end);
    }
    let mut pos = lo;
    let mut n: usize = 0;
    let mut vals: Vec<u8> = Vec::new();
    let ghost mut seen: Seq<Seq<u8>> = Seq::empty();
    while n < 4
        invariant
            lo <= pos <= hi <= s@.len(),
            prom@ == old(prom)@,
            prom@.len() == 256,
            n == vals@.len(),
            n == seen.len(),
            n <= 4,
            ts == tokens_in(s@, lo as int, hi as int),
            ts == seen + tokens_in(s@, pos as int, hi as int),
            forall|idx: int|
                0 <= idx < n ==> parse_byte_spec(#[trigger] seen[idx]) == Some(vals@[idx]),
            !(exists|m: int| 0 <= m < ts.len() && #[trigger] ts[m] == hash_token()),
        decreases 4 - n,
    {
        let ghost rest = tokens_in(s@, pos as int, hi as int);
        let j = find_non_ws(s, pos, hi);
        if j == hi {
            proof {
                assert(rest =~= Seq::<Seq<u8>>::empty());
                assert(ts =~= seen);
            }
            return Err(Fault::Load);
        }
        let k = find_ws(s, j, hi);
        let ghost tok = s@.subrange(j as int, k as int);
        proof {
            assert(rest == seq![tok] + tokens_in(s@, k as int, hi as int));
            assert(ts[n as int] == tok);
            lemma_next_ws(s@, j as int + 1, hi as int);
        }
        match parse_byte_range(s, j, k) {
            None => {
                return Err(Fault::Load);
            },
            Some(v) => {
                vals.push(v);
                proof {
                    seen = seen.push(tok);
                    assert(ts =~= seen + tokens_in(s@, k as int, hi as int));
                }
                pos = k;
                n = n + 1;
            },
        }
    }
    proof {
        assert(ts[0] == seen[0] && ts[1] == seen[1] && ts[2] == seen[2] && ts[3] == seen[3]);
        assert(ts.len() >= 4);
    }
    if prom_end + 4 > 256 {
        return Err(Fault::Load);
    }
    let v0 = vals[0];
    let v1 = vals[1];
    let v2 = vals[2];
    let v3 = vals[3];
    prom[prom_end] = v0;
    prom[prom_end + 1] = v1;
    prom[prom_end + 2] = v2;
    prom[prom_end + 3] = v3;
    Ok(prom_end + 4)
}

/// Load one line of program text into the image at `prom_end`,
/// returning where the image now ends: a comment line leaves it alone,
/// a well-formed line appends its four bytes, and a malformed or
/// overflowing line is the load fault, with the image unchanged.
pub fn parse_line(line: &str, prom: &mut Vec<u8>, prom_end: usize) -> (r: Result<usize, Fault>)
    requires
        old(prom)@.len() == 256,
        prom_end <= 256,
    ensures
        final(prom)@.len() == 256,
        match line_action(line.spec_bytes(), 0, line.spec_bytes().len() as int) {
            LineAction::Skip => r == Ok::<usize, Fault>(prom_end) && final(prom)@ == old(prom)@,
            LineAction::Write(a, b, c, d) => if prom_end + 4 <= 256 {
                &&& r == Ok::<usize, Fault>((prom_end + 4) as usize)
                &&& final(prom)@ == old(prom)@.update(prom_end as int, a).update(
                    prom_end as int + 1,
                    b,
                ).update(prom_end as int + 2, c).update(prom_end as int + 3, d)
            } else {
                r == Err::<usize, Fault>(Fault::Load) && final(prom)@ == old(prom)@
            },
            LineAction::Fail => r == Err::<usize, Fault>(Fault::Load) && final(prom)@ == old(
                prom,
            )@,
        },
{
    let bytes = line.as_bytes();
    parse_line_range(bytes, 0, bytes.len(), prom, prom_end)
}

/// The blank program image: 256 zero bytes.
pub open spec fn zero_image() -> Seq<u8> {
    Seq::new(256, |n: int| 0u8)
}

/// The first line-feed byte at or after `i`, or the text's length when
/// there is none.
pub open spec fn next_nl(s: Seq<u8>, i: int) -> int
    decreases s.len() - i,
{
    if i < 0 || i >= s.len() {
        s.len() as int
    } else if s[i] == 10 {
        i
    } else {
        next_nl(s, i + 1)
    }
}

/// Where [`next_nl`] lands: between `i` and the text's length.
pub proof fn lemma_next_nl(s: Seq<u8>, i: int)
    requires
        0 <= i <= s.len(),
    ensures
        i <= next_nl(s, i) <= s.len(),
    decreases s.len() - i,
{
    if i < s.len() && s[i] != 10 {
        lemma_next_nl(s, i + 1);
    }
}

fn find_nl(s: &[u8], i: usize) -> (j: usize)
    requires
        i <= s@.len(),
    ensures
        j == next_nl(s@, i as int),
        i <= j <= s@.len(),
    decreases s@.len() - i,
{
    if i == s.len() {
        i
    } else if s[i] == 10 {
        i
    } else {
        find_nl(s, i + 1)
    }
}

/// How the program text from position `i` on loads, given the image
/// built so far and where it ends: line by line, each line the bytes up
/// to the next line feed, applying [`line_action`] — until the text is
/// exhausted, a line is malformed, or the image would pass 256 bytes.
pub open spec fn spec_load_from(s: Seq<u8>, i: int, prom: Seq<u8>, end: int) -> Result<
    (Seq<u8>, int),
    Fault,
>
    decreases s.len() - i,
    via spec_load_from_decreases
{
    if i < 0 || i >= s.len() {
        Ok((prom, end))
    } else {
        let j = next_nl(s, i);
        let nxt = if j < s.len() {
            j + 1
        } else {
            j
        };
        match line_action(s, i, j) {
            LineAction::Skip => spec_load_from(s, nxt, prom, end),
            LineAction::Write(a, b, c, d) => if end + 4 <= 256 {
                spec_load_from(
                    s,
                    nxt,
                    prom.update(end, a).update(end + 1, b).update(end + 2, c).update(end + 3, d),
                    end + 4,
                )
            } else {
                Err(Fault::Load)
            },
            LineAction::Fail => Err(Fault::Load),
        }
    }
}

#[via_fn]
proof fn spec_load_from_decreases(s: Seq<u8>, i: int, prom: Seq<u8>, end: int) {
    if 0 <= i < s.len() {
        lemma_next_nl(s, i);
    }
}

/// Build the 256-byte program image from whole program text, zero
/// filled past what the text provides. The load fails — with the image
/// discarded — when any line is malformed or the text holds more than
/// 64 instruction lines.
pub fn load_image(bytes: &[u8]) -> (r: Result<Vec<u8>, Fault>)
    ensures
        match spec_load_from(bytes@, 0, zero_image(), 0) {
            Ok(pe) => r is Ok && r->Ok_0@ == pe.0 && pe.0.len() == 256,
            Err(f) => r == Err::<Vec<u8>, Fault>(f),
        },
{
    let mut prom: Vec<u8> = vec![0u8; 256];
    let mut end: usize = 0;
    let mut i: usize = 0;
    proof {
        assert(prom@ =~= zero_image());
    }
    while i < bytes.len()
        invariant
            i <= bytes@.len(),
            prom@.len() == 256,
            end <= 256,
            spec_load_from(bytes@, 0, zero_image(), 0) == spec_load_from(
                bytes@,
                i as int,
                prom@,
                end as int,
            ),
        decreases bytes@.len() - i,
    {
        let j = find_nl(bytes, i);
        match parse_line_range(bytes, i, j, &mut prom, end) {
            Ok(e2) => {
                end = e2;
            },
            Err(_) => {
                return Err(Fault::Load);
            },
        }
        i = if j < bytes.len() {
            j + 1
        } else {
            j
        };
    }
    Ok(prom)
}

} // verus!
