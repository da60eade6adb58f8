//! The byte encoding of the values that messages are made of.
//!
//! Unsigned numbers are written seven bits at a time, low bits first, with
//! the high bit of a byte saying that more follow. Signed numbers are folded
//! onto unsigned ones first. Byte strings and texts are written as their
//! length and then their bytes, texts as UTF-8. A flag is one byte, 0 or 1.
//! An optional value is a flag and then the value, if there is one.
//!
//! Each kind of value has a function that says what its encoding is
//! (`..._wire`), a function that says what a parser makes of given bytes
//! (`parse_...`), a pair of executable functions that write and read it, and
//! a lemma that reading what was written gives the value back.
//!
//! A writer appends to a buffer. A reader starts at a position in a buffer
//! and gives the value together with the position of the bytes after it. It
//! gives `None` when the bytes at the position are no encoding of such a
//! value, and when the position lies past the end of the buffer.

use vstd::prelude::*;
use vstd::slice::{slice_subrange, slice_to_vec};
use vstd::utf8::{
    decode_utf8, encode_utf8, encode_utf8_decode_utf8, encode_utf8_valid_utf8, valid_utf8,
};

verus! {

/// One more than the largest number that fits in 32 bits.
pub open spec fn limit32() -> int {
    0x1_0000_0000
}

/// One more than the largest number that fits in 64 bits.
pub open spec fn limit64() -> int {
    0x1_0000_0000_0000_0000
}

/// The encoding of an unsigned number.
pub open spec fn varint(v: nat) -> Seq<u8>
    decreases v,
{
    if v < 128 {
        seq![v as u8]
    } else {
        seq![(v % 128 + 128) as u8] + varint(v / 128)
    }
}

/// What a parser makes of the start of `b` when it expects a number below
/// `limit`: the number and the bytes after it, or `None`.
///
/// A byte below 128 ends the number. It is refused when the number would
/// reach the limit. A byte from 128 on is refused when no further digit can
/// follow below the limit.
pub open spec fn parse_varint(b: Seq<u8>, limit: int) -> Option<(nat, Seq<u8>)>
    decreases b.len(),
{
    if b.len() == 0 {
        None
    } else if b[0] < 128 {
        if b[0] < limit {
            Some((b[0] as nat, b.skip(1)))
        } else {
            None
        }
    } else if limit <= 128 {
        None
    } else {
        match parse_varint(b.skip(1), limit / 128) {
            Some((high, rest)) => Some(((b[0] - 128 + 128 * high) as nat, rest)),
            None => None,
        }
    }
}

/// Whether the encoding of `v` is accepted by a parser with this limit.
pub open spec fn fits(v: nat, limit: int) -> bool
    decreases v,
{
    if v < 128 {
        v < limit
    } else {
        limit > 128 && fits(v / 128, limit / 128)
    }
}

/// Every number below 2^32 fits the 32-bit limit.
pub proof fn lemma_fits32(v: nat)
    requires
        v < limit32(),
    ensures
        fits(v, limit32()),
{
    reveal_with_fuel(fits, 6);
}

/// Every number below 2^64 fits the 64-bit limit.
pub proof fn lemma_fits64(v: nat)
    requires
        v < limit64(),
    ensures
        fits(v, limit64()),
{
    reveal_with_fuel(fits, 11);
}

/// Reading an encoded number gives the number back and leaves what
/// followed it.
pub proof fn lemma_varint_round_trip(v: nat, limit: int, rest: Seq<u8>)
    requires
        fits(v, limit),
    ensures
        parse_varint(varint(v) + rest, limit) == Some((v, rest)),
    decreases v,
{
    let b = varint(v) + rest;
    if v < 128 {
        assert(b.skip(1) =~= rest);
    } else {
        lemma_varint_round_trip(v / 128, limit / 128, rest);
        assert(b.skip(1) =~= varint(v / 128) + rest);
    }
}

/// Appends the encoding of a number.
pub fn put_varint(out: &mut Vec<u8>, v: u64)
    ensures
        final(out)@ == old(out)@ + varint(v as nat),
{
    let mut left: u64 = v;
    while left >= 128
        invariant
            out@ + varint(left as nat) == old(out)@ + varint(v as nat),
        decreases left,
    {
        let ghost before = out@;
        out.push((left % 128) as u8 + 128);
        proof {
            assert(out@ + varint((left / 128) as nat) =~= before + varint(left as nat));
        }
        left = left / 128;
    }
    out.push(left as u8);
    proof {
        assert(out@ =~= old(out)@ + varint(v as nat));
    }
}

/// Reads a number below `limit` at `pos`, and says where the bytes after it
/// start.
pub fn take_varint(buf: &[u8], pos: usize, limit: u128) -> (taken: Option<(u64, usize)>)
    requires
        limit <= limit64(),
    ensures
        match taken {
            Some((v, next)) => pos < next <= buf.len() && v < limit && parse_varint(
                buf@.skip(pos as int),
                limit as int,
            ) == Some((v as nat, buf@.skip(next as int))),
            None => pos <= buf.len() ==> parse_varint(buf@.skip(pos as int), limit as int) is None,
        },
    decreases buf.len() - pos,
{
    if pos >= buf.len() {
        return None;
    }
    let first = buf[pos];
    proof {
        assert(buf@.skip(pos as int).skip(1) =~= buf@.skip(pos + 1));
    }
    if first < 128 {
        if (first as u128) < limit {
            Some((first as u64, pos + 1))
        } else {
            None
        }
    } else if limit <= 128 {
        None
    } else {
        match take_varint(buf, pos + 1, limit / 128) {
            Some((high, next)) => Some(((first - 128) as u64 + 128 * high, next)),
            None => None,
        }
    }
}

/// The encoding of a 32-bit number.
pub open spec fn u32_wire(v: u32) -> Seq<u8> {
    varint(v as nat)
}

/// What a parser makes of the start of `b` when it expects a 32-bit number.
pub open spec fn parse_u32(b: Seq<u8>) -> Option<(u32, Seq<u8>)> {
    match parse_varint(b, limit32()) {
        Some((v, rest)) => Some((v as u32, rest)),
        None => None,
    }
}

/// The unsigned number onto which a signed one is folded: 0, -1, 1, -2, ...
/// become 0, 1, 2, 3, ...
pub open spec fn zigzag(i: int) -> nat {
    if i >= 0 {
        (2 * i) as nat
    } else {
        (-2 * i - 1) as nat
    }
}

/// The signed number that was folded onto `n`.
pub open spec fn unzigzag(n: nat) -> int {
    if n % 2 == 0 {
        n as int / 2
    } else {
        -(n as int / 2) - 1
    }
}

/// The encoding of a signed 32-bit number.
pub open spec fn int32_wire(i: i32) -> Seq<u8> {
    varint(zigzag(i as int))
}

/// What a parser makes of the start of `b` when it expects a signed 32-bit
/// number.
pub open spec fn parse_int32(b: Seq<u8>) -> Option<(i32, Seq<u8>)> {
    match parse_varint(b, limit32()) {
        Some((n, rest)) => Some((unzigzag(n) as i32, rest)),
        None => None,
    }
}

/// The encoding of a flag.
pub open spec fn flag_wire(f: bool) -> Seq<u8> {
    seq![if f { 1u8 } else { 0u8 }]
}

/// What a parser makes of the start of `b` when it expects a flag.
pub open spec fn parse_flag(b: Seq<u8>) -> Option<(bool, Seq<u8>)> {
    if b.len() == 0 {
        None
    } else if b[0] == 0 {
        Some((false, b.skip(1)))
    } else if b[0] == 1 {
        Some((true, b.skip(1)))
    } else {
        None
    }
}

/// What a parser makes of the start of `b` when it expects a block of 32
/// bytes. Such a block is written as it is.
pub open spec fn parse_block(b: Seq<u8>) -> Option<(Seq<u8>, Seq<u8>)> {
    if b.len() >= 32 {
        Some((b.take(32), b.skip(32)))
    } else {
        None
    }
}

/// The encoding of a byte string.
pub open spec fn bytes_wire(s: Seq<u8>) -> Seq<u8> {
    varint(s.len()) + s
}

/// What a parser makes of the start of `b` when it expects a byte string.
pub open spec fn parse_bytes(b: Seq<u8>) -> Option<(Seq<u8>, Seq<u8>)> {
    match parse_varint(b, limit64()) {
        Some((n, rest)) => if n <= rest.len() {
            Some((rest.take(n as int), rest.skip(n as int)))
        } else {
            None
        },
        None => None,
    }
}

/// The encoding of a text.
pub open spec fn text_wire(t: Seq<char>) -> Seq<u8> {
    bytes_wire(encode_utf8(t))
}

/// What a parser makes of the start of `b` when it expects a text.
pub open spec fn parse_text(b: Seq<u8>) -> Option<(Seq<char>, Seq<u8>)> {
    match parse_bytes(b) {
        Some((raw, rest)) => if valid_utf8(raw) {
            Some((decode_utf8(raw), rest))
        } else {
            None
        },
        None => None,
    }
}

/// The encoding of an optional text.
pub open spec fn opt_text_wire(t: Option<Seq<char>>) -> Seq<u8> {
    match t {
        None => flag_wire(false),
        Some(t) => flag_wire(true) + text_wire(t),
    }
}

/// What a parser makes of the start of `b` when it expects an optional text.
pub open spec fn parse_opt_text(b: Seq<u8>) -> Option<(Option<Seq<char>>, Seq<u8>)> {
    match parse_flag(b) {
        Some((false, rest)) => Some((None, rest)),
        Some((true, rest)) => match parse_text(rest) {
            Some((t, rest)) => Some((Some(t), rest)),
            None => None,
        },
        None => None,
    }
}

/// The encoding of an optional signed 32-bit number.
pub open spec fn opt_int32_wire(i: Option<i32>) -> Seq<u8> {
    match i {
        None => flag_wire(false),
        Some(i) => flag_wire(true) + int32_wire(i),
    }
}

/// What a parser makes of the start of `b` when it expects an optional
/// signed 32-bit number.
pub open spec fn parse_opt_int32(b: Seq<u8>) -> Option<(Option<i32>, Seq<u8>)> {
    match parse_flag(b) {
        Some((false, rest)) => Some((None, rest)),
        Some((true, rest)) => match parse_int32(rest) {
            Some((i, rest)) => Some((Some(i), rest)),
            None => None,
        },
        None => None,
    }
}

/// The encodings of the pairs of a list, one after the other.
pub open spec fn pairs_body(pairs: Seq<(Seq<char>, Seq<char>)>) -> Seq<u8>
    decreases pairs.len(),
{
    if pairs.len() == 0 {
        Seq::empty()
    } else {
        text_wire(pairs[0].0) + text_wire(pairs[0].1) + pairs_body(pairs.skip(1))
    }
}

/// The encoding of a list of pairs of texts: their number, then the pairs.
pub open spec fn pairs_wire(pairs: Seq<(Seq<char>, Seq<char>)>) -> Seq<u8> {
    varint(pairs.len()) + pairs_body(pairs)
}

/// What a parser makes of the start of `b` when it expects `count` pairs of
/// texts.
pub open spec fn parse_pairs_body(b: Seq<u8>, count: nat) -> Option<
    (Seq<(Seq<char>, Seq<char>)>, Seq<u8>),
>
    decreases count,
{
    if count == 0 {
        Some((Seq::empty(), b))
    } else {
        match parse_text(b) {
            Some((name, rest)) => match parse_text(rest) {
                Some((value, rest)) => match parse_pairs_body(rest, (count - 1) as nat) {
                    Some((others, rest)) => Some((seq![(name, value)] + others, rest)),
                    None => None,
                },
                None => None,
            },
            None => None,
        }
    }
}

/// What a parser makes of the start of `b` when it expects a list of pairs
/// of texts.
pub open spec fn parse_pairs(b: Seq<u8>) -> Option<(Seq<(Seq<char>, Seq<char>)>, Seq<u8>)> {
    match parse_varint(b, limit64()) {
        Some((count, rest)) => parse_pairs_body(rest, count),
        None => None,
    }
}

/// Whether a text can be encoded: the length of its UTF-8 encoding fits in
/// 64 bits.
pub open spec fn text_encodable(t: Seq<char>) -> bool {
    encode_utf8(t).len() < limit64()
}

/// Whether a list of pairs of texts can be encoded: its length fits in 64
/// bits, and each text can be encoded.
pub open spec fn pairs_encodable(pairs: Seq<(Seq<char>, Seq<char>)>) -> bool {
    &&& pairs.len() < limit64()
    &&& forall|i: int|
        0 <= i < pairs.len() ==> text_encodable(#[trigger] pairs[i].0) && text_encodable(
            pairs[i].1,
        )
}

/// Reading an encoded 32-bit number gives it back.
pub proof fn lemma_u32_round_trip(v: u32, rest: Seq<u8>)
    ensures
        parse_u32(u32_wire(v) + rest) == Some((v, rest)),
{
    lemma_fits32(v as nat);
    lemma_varint_round_trip(v as nat, limit32(), rest);
}

/// Folding and unfolding a signed number gives it back, and a signed 32-bit
/// number folds onto an unsigned one.
pub proof fn lemma_zigzag(i: int)
    ensures
        unzigzag(zigzag(i)) == i,
        -0x8000_0000 <= i < 0x8000_0000 ==> zigzag(i) < limit32(),
{
}

/// Reading an encoded signed 32-bit number gives it back.
pub proof fn lemma_int32_round_trip(i: i32, rest: Seq<u8>)
    ensures
        parse_int32(int32_wire(i) + rest) == Some((i, rest)),
{
    lemma_zigzag(i as int);
    lemma_fits32(zigzag(i as int));
    lemma_varint_round_trip(zigzag(i as int), limit32(), rest);
}

/// Reading an encoded flag gives it back.
pub proof fn lemma_flag_round_trip(f: bool, rest: Seq<u8>)
    ensures
        parse_flag(flag_wire(f) + rest) == Some((f, rest)),
{
    assert((flag_wire(f) + rest).skip(1) =~= rest);
}

/// Reading a block of 32 bytes gives it back.
pub proof fn lemma_block_round_trip(block: Seq<u8>, rest: Seq<u8>)
    requires
        block.len() == 32,
    ensures
        parse_block(block + rest) == Some((block, rest)),
{
    assert((block + rest).take(32) =~= block);
    assert((block + rest).skip(32) =~= rest);
}

/// Reading an encoded byte string gives it back.
pub proof fn lemma_bytes_round_trip(s: Seq<u8>, rest: Seq<u8>)
    requires
        s.len() < limit64(),
    ensures
        parse_bytes(bytes_wire(s) + rest) == Some((s, rest)),
{
    lemma_fits64(s.len());
    lemma_varint_round_trip(s.len(), limit64(), s + rest);
    assert(bytes_wire(s) + rest =~= varint(s.len()) + (s + rest));
    assert((s + rest).take(s.len() as int) =~= s);
    assert((s + rest).skip(s.len() as int) =~= rest);
}

/// Reading an encoded text gives it back.
pub proof fn lemma_text_round_trip(t: Seq<char>, rest: Seq<u8>)
    requires
        text_encodable(t),
    ensures
        parse_text(text_wire(t) + rest) == Some((t, rest)),
{
    lemma_bytes_round_trip(encode_utf8(t), rest);
    encode_utf8_valid_utf8(t);
    encode_utf8_decode_utf8(t);
}

/// Reading an encoded optional text gives it back.
pub proof fn lemma_opt_text_round_trip(t: Option<Seq<char>>, rest: Seq<u8>)
    requires
        t matches Some(text) ==> text_encodable(text),
    ensures
        parse_opt_text(opt_text_wire(t) + rest) == Some((t, rest)),
{
    match t {
        None => {
            lemma_flag_round_trip(false, rest);
        },
        Some(text) => {
            lemma_flag_round_trip(true, text_wire(text) + rest);
            lemma_text_round_trip(text, rest);
            assert(opt_text_wire(t) + rest =~= flag_wire(true) + (text_wire(text) + rest));
        },
    }
}

/// Reading an encoded optional signed 32-bit number gives it back.
pub proof fn lemma_opt_int32_round_trip(i: Option<i32>, rest: Seq<u8>)
    ensures
        parse_opt_int32(opt_int32_wire(i) + rest) == Some((i, rest)),
{
    match i {
        None => {
            lemma_flag_round_trip(false, rest);
        },
        Some(code) => {
            lemma_flag_round_trip(true, int32_wire(code) + rest);
            lemma_int32_round_trip(code, rest);
            assert(opt_int32_wire(i) + rest =~= flag_wire(true) + (int32_wire(code) + rest));
        },
    }
}

/// Reading the encoded pairs of a list gives them back.
pub proof fn lemma_pairs_body_round_trip(pairs: Seq<(Seq<char>, Seq<char>)>, rest: Seq<u8>)
    requires
        pairs_encodable(pairs),
    ensures
        parse_pairs_body(pairs_body(pairs) + rest, pairs.len()) == Some((pairs, rest)),
    decreases pairs.len(),
{
    if pairs.len() == 0 {
        assert(pairs_body(pairs) + rest =~= rest);
        assert(pairs =~= Seq::empty());
    } else {
        let others = pairs.skip(1);
        let after_name = text_wire(pairs[0].1) + (pairs_body(others) + rest);
        assert(pairs_body(pairs) + rest =~= text_wire(pairs[0].0) + after_name);
        lemma_text_round_trip(pairs[0].0, after_name);
        lemma_text_round_trip(pairs[0].1, pairs_body(others) + rest);
        assert(pairs_encodable(others)) by {
            assert forall|i: int| 0 <= i < others.len() implies text_encodable(
                #[trigger] others[i].0,
            ) && text_encodable(others[i].1) by {
                assert(others[i] == pairs[i + 1]);
            }
        }
        lemma_pairs_body_round_trip(others, rest);
        assert(seq![(pairs[0].0, pairs[0].1)] + others =~= pairs);
    }
}

/// Reading an encoded list of pairs gives it back.
pub proof fn lemma_pairs_round_trip(pairs: Seq<(Seq<char>, Seq<char>)>, rest: Seq<u8>)
    requires
        pairs_encodable(pairs),
    ensures
        parse_pairs(pairs_wire(pairs) + rest) == Some((pairs, rest)),
{
    lemma_fits64(pairs.len());
    lemma_varint_round_trip(pairs.len(), limit64(), pairs_body(pairs) + rest);
    assert(pairs_wire(pairs) + rest =~= varint(pairs.len()) + (pairs_body(pairs) + rest));
    lemma_pairs_body_round_trip(pairs, rest);
}

/// The 32-bit limit, for the executable parser.
pub const LIMIT32: u128 = 0x1_0000_0000;

/// The 64-bit limit, for the executable parser.
pub const LIMIT64: u128 = 0x1_0000_0000_0000_0000;

/// Turns bytes into the text that they encode in UTF-8.
///
/// This is `String::from_utf8` of the standard library. It gives a text
/// exactly when the bytes are valid UTF-8, and the text it gives is the one
/// whose UTF-8 encoding is those bytes.
#[verifier::external_body]
fn string_from_utf8(bytes: Vec<u8>) -> (text: Option<String>)
    ensures
        text is Some <==> valid_utf8(bytes@),
        text matches Some(t) ==> encode_utf8(t@) == bytes@,
{
    match String::from_utf8(bytes) {
        Ok(text) => Some(text),
        Err(_) => None,
    }
}

/// Appends bytes as they are.
pub fn put_raw(out: &mut Vec<u8>, data: &[u8])
    ensures
        final(out)@ == old(out)@ + data@,
{
    let mut i: usize = 0;
    while i < data.len()
        invariant
            i <= data.len(),
            out@ == old(out)@ + data@.take(i as int),
        decreases data.len() - i,
    {
        out.push(data[i]);
        proof {
            assert(data@.take(i + 1) =~= data@.take(i as int).push(data@[i as int]));
            assert(out@ =~= old(out)@ + data@.take(i + 1));
        }
        i = i + 1;
    }
    proof {
        assert(data@.take(i as int) =~= data@);
    }
}

/// Appends the encoding of a 32-bit number.
pub fn put_u32(out: &mut Vec<u8>, v: u32)
    ensures
        final(out)@ == old(out)@ + u32_wire(v),
{
    put_varint(out, v as u64);
}

/// Reads a 32-bit number at `pos`.
pub fn take_u32(buf: &[u8], pos: usize) -> (taken: Option<(u32, usize)>)
    ensures
        match taken {
            Some((v, next)) => pos <= next <= buf.len() && parse_u32(buf@.skip(pos as int))
                == Some((v, buf@.skip(next as int))),
            None => pos <= buf.len() ==> parse_u32(buf@.skip(pos as int)) is None,
        },
{
    match take_varint(buf, pos, LIMIT32) {
        Some((v, next)) => Some((v as u32, next)),
        None => None,
    }
}

/// Appends the encoding of a signed 32-bit number.
pub fn put_int32(out: &mut Vec<u8>, i: i32)
    ensures
        final(out)@ == old(out)@ + int32_wire(i),
{
    let folded: u32 = if i >= 0 {
        (i as u32) * 2
    } else {
        ((-(i + 1)) as u32) * 2 + 1
    };
    put_varint(out, folded as u64);
}

/// Reads a signed 32-bit number at `pos`.
pub fn take_int32(buf: &[u8], pos: usize) -> (taken: Option<(i32, usize)>)
    ensures
        match taken {
            Some((i, next)) => pos <= next <= buf.len() && parse_int32(buf@.skip(pos as int))
                == Some((i, buf@.skip(next as int))),
            None => pos <= buf.len() ==> parse_int32(buf@.skip(pos as int)) is None,
        },
{
    match take_varint(buf, pos, LIMIT32) {
        Some((n, next)) => {
            let half = (n / 2) as i32;
            let i = if n % 2 == 0 {
                half
            } else {
                -half - 1
            };
            Some((i, next))
        },
        None => None,
    }
}

/// Appends the encoding of a flag.
pub fn put_flag(out: &mut Vec<u8>, f: bool)
    ensures
        final(out)@ == old(out)@ + flag_wire(f),
{
    out.push(if f { 1 } else { 0 });
    proof {
        assert(out@ =~= old(out)@ + flag_wire(f));
    }
}

/// Reads a flag at `pos`.
pub fn take_flag(buf: &[u8], pos: usize) -> (taken: Option<(bool, usize)>)
    ensures
        match taken {
            Some((f, next)) => pos <= next <= buf.len() && parse_flag(buf@.skip(pos as int))
                == Some((f, buf@.skip(next as int))),
            None => pos <= buf.len() ==> parse_flag(buf@.skip(pos as int)) is None,
        },
{
    if pos >= buf.len() {
        return None;
    }
    proof {
        assert(buf@.skip(pos as int).skip(1) =~= buf@.skip(pos + 1));
    }
    let first = buf[pos];
    if first == 0 {
        Some((false, pos + 1))
    } else if first == 1 {
        Some((true, pos + 1))
    } else {
        None
    }
}

/// Appends a block of 32 bytes.
pub fn put_block(out: &mut Vec<u8>, block: &[u8; 32])
    ensures
        final(out)@ == old(out)@ + block@,
{
    let mut i: usize = 0;
    while i < 32
        invariant
            i <= 32,
            out@ == old(out)@ + block@.take(i as int),
        decreases 32 - i,
    {
        out.push(block[i]);
        proof {
            assert(block@.take(i + 1) =~= block@.take(i as int).push(block@[i as int]));
            assert(out@ =~= old(out)@ + block@.take(i + 1));
        }
        i = i + 1;
    }
    proof {
        assert(block@.take(32) =~= block@);
    }
}

/// Reads a block of 32 bytes at `pos`.
pub fn take_block(buf: &[u8], pos: usize) -> (taken: Option<([u8; 32], usize)>)
    ensures
        match taken {
            Some((block, next)) => pos <= next <= buf.len() && parse_block(buf@.skip(pos as int))
                == Some((block@, buf@.skip(next as int))),
            None => pos <= buf.len() ==> parse_block(buf@.skip(pos as int)) is None,
        },
{
    if pos > buf.len() || buf.len() - pos < 32 {
        return None;
    }
    let mut block: [u8; 32] = [0u8; 32];
    let mut i: usize = 0;
    while i < 32
        invariant
            i <= 32,
            pos + 32 <= buf.len(),
            forall|j: int| 0 <= j < i ==> block@[j] == buf@[pos + j],
        decreases 32 - i,
    {
        block[i] = buf[pos + i];
        i = i + 1;
    }
    proof {
        assert(block@ =~= buf@.skip(pos as int).take(32));
        assert(buf@.skip(pos as int).skip(32) =~= buf@.skip(pos + 32));
    }
    Some((block, pos + 32))
}

/// Appends the encoding of a byte string.
pub fn put_bytes(out: &mut Vec<u8>, data: &[u8])
    ensures
        final(out)@ == old(out)@ + bytes_wire(data@),
        data@.len() < limit64(),
{
    put_varint(out, data.len() as u64);
    put_raw(out, data);
    proof {
        assert(out@ =~= old(out)@ + bytes_wire(data@));
    }
}

/// Reads a byte string at `pos`.
pub fn take_bytes(buf: &[u8], pos: usize) -> (taken: Option<(Vec<u8>, usize)>)
    ensures
        match taken {
            Some((data, next)) => pos <= next <= buf.len() && parse_bytes(buf@.skip(pos as int))
                == Some((data@, buf@.skip(next as int))),
            None => pos <= buf.len() ==> parse_bytes(buf@.skip(pos as int)) is None,
        },
{
    match take_varint(buf, pos, LIMIT64) {
        None => None,
        Some((n, start)) => {
            let left = buf.len() - start;
            if n > left as u64 {
                None
            } else {
                let n = n as usize;
                let data = slice_to_vec(slice_subrange(buf, start, start + n));
                proof {
                    assert(data@ =~= buf@.skip(start as int).take(n as int));
                    assert(buf@.skip(start as int).skip(n as int) =~= buf@.skip(start + n));
                }
                Some((data, start + n))
            }
        },
    }
}

/// Appends the encoding of a text.
pub fn put_text(out: &mut Vec<u8>, text: &str)
    ensures
        final(out)@ == old(out)@ + text_wire(text@),
        text_encodable(text@),
{
    put_bytes(out, text.as_bytes());
}

/// Reads a text at `pos`.
pub fn take_text(buf: &[u8], pos: usize) -> (taken: Option<(String, usize)>)
    ensures
        match taken {
            Some((text, next)) => pos <= next <= buf.len() && parse_text(buf@.skip(pos as int))
                == Some((text@, buf@.skip(next as int))),
            None => pos <= buf.len() ==> parse_text(buf@.skip(pos as int)) is None,
        },
{
    match take_bytes(buf, pos) {
        None => None,
        Some((raw, next)) => {
            match string_from_utf8(raw) {
                None => None,
                Some(text) => {
                    proof {
                        encode_utf8_decode_utf8(text@);
                    }
                    Some((text, next))
                },
            }
        },
    }
}

/// Appends the encoding of an optional text.
pub fn put_opt_text(out: &mut Vec<u8>, text: &Option<String>)
    ensures
        final(out)@ == old(out)@ + opt_text_wire(text_opt(*text)),
        text_opt(*text) matches Some(t) ==> text_encodable(t),
{
    match text {
        None => {
            put_flag(out, false);
        },
        Some(t) => {
            put_flag(out, true);
            put_text(out, t.as_str());
            proof {
                assert(out@ =~= old(out)@ + (flag_wire(true) + text_wire(t@)));
            }
        },
    }
}

/// Reads an optional text at `pos`.
pub fn take_opt_text(buf: &[u8], pos: usize) -> (taken: Option<(Option<String>, usize)>)
    ensures
        match taken {
            Some((text, next)) => pos <= next <= buf.len() && parse_opt_text(
                buf@.skip(pos as int),
            ) == Some((text_opt(text), buf@.skip(next as int))),
            None => pos <= buf.len() ==> parse_opt_text(buf@.skip(pos as int)) is None,
        },
{
    match take_flag(buf, pos) {
        None => None,
        Some((false, next)) => Some((None, next)),
        Some((true, next)) => match take_text(buf, next) {
            None => None,
            Some((text, next)) => Some((Some(text), next)),
        },
    }
}

/// Appends the encoding of an optional signed 32-bit number.
pub fn put_opt_int32(out: &mut Vec<u8>, i: Option<i32>)
    ensures
        final(out)@ == old(out)@ + opt_int32_wire(i),
{
    match i {
        None => {
            put_flag(out, false);
        },
        Some(code) => {
            put_flag(out, true);
            put_int32(out, code);
            proof {
                assert(out@ =~= old(out)@ + (flag_wire(true) + int32_wire(code)));
            }
        },
    }
}

/// Reads an optional signed 32-bit number at `pos`.
pub fn take_opt_int32(buf: &[u8], pos: usize) -> (taken: Option<(Option<i32>, usize)>)
    ensures
        match taken {
            Some((i, next)) => pos <= next <= buf.len() && parse_opt_int32(buf@.skip(pos as int))
                == Some((i, buf@.skip(next as int))),
            None => pos <= buf.len() ==> parse_opt_int32(buf@.skip(pos as int)) is None,
        },
{
    match take_flag(buf, pos) {
        None => None,
        Some((false, next)) => Some((None, next)),
        Some((true, next)) => match take_int32(buf, next) {
            None => None,
            Some((code, next)) => Some((Some(code), next)),
        },
    }
}

/// The text of an optional string.
pub open spec fn text_opt(s: Option<String>) -> Option<Seq<char>> {
    match s {
        Some(t) => Some(t@),
        None => None,
    }
}

/// The texts of a list of pairs of strings.
pub open spec fn pair_texts(v: Seq<(String, String)>) -> Seq<(Seq<char>, Seq<char>)> {
    Seq::new(v.len(), |i: int| (v[i].0@, v[i].1@))
}

/// Appends the encoding of a list of pairs of texts.
pub fn put_pairs(out: &mut Vec<u8>, pairs: &Vec<(String, String)>)
    ensures
        final(out)@ == old(out)@ + pairs_wire(pair_texts(pairs@)),
        pairs_encodable(pair_texts(pairs@)),
{
    let ghost texts = pair_texts(pairs@);
    put_varint(out, pairs.len() as u64);
    let ghost start = out@;
    let mut i: usize = 0;
    proof {
        assert(texts.skip(0) =~= texts);
    }
    while i < pairs.len()
        invariant
            i <= pairs.len(),
            texts == pair_texts(pairs@),
            out@ + pairs_body(texts.skip(i as int)) == start + pairs_body(texts),
            forall|j: int|
                0 <= j < i ==> text_encodable(#[trigger] texts[j].0) && text_encodable(texts[j].1),
        decreases pairs.len() - i,
    {
        let ghost before = out@;
        put_text(out, pairs[i].0.as_str());
        put_text(out, pairs[i].1.as_str());
        proof {
            assert(texts[i as int] == (pairs@[i as int].0@, pairs@[i as int].1@));
            assert(texts.skip(i as int).skip(1) =~= texts.skip(i + 1));
            assert(out@ + pairs_body(texts.skip(i + 1)) =~= before + pairs_body(
                texts.skip(i as int),
            ));
        }
        i = i + 1;
    }
    proof {
        assert(out@ =~= old(out)@ + pairs_wire(texts));
    }
}

/// Reads a list of pairs of texts at `pos`.
pub fn take_pairs(buf: &[u8], pos: usize) -> (taken: Option<(Vec<(String, String)>, usize)>)
    ensures
        match taken {
            Some((pairs, next)) => pos <= next <= buf.len() && parse_pairs(buf@.skip(pos as int))
                == Some((pair_texts(pairs@), buf@.skip(next as int))),
            None => pos <= buf.len() ==> parse_pairs(buf@.skip(pos as int)) is None,
        },
{
    let (count, start) = match take_varint(buf, pos, LIMIT64) {
        None => {
            return None;
        },
        Some(taken) => taken,
    };
    let mut pairs: Vec<(String, String)> = Vec::new();
    let mut at: usize = start;
    let mut done: u64 = 0;
    proof {
        let all = parse_pairs_body(buf@.skip(start as int), count as nat);
        if let Some((others, rest)) = all {
            assert(pair_texts(pairs@) + others =~= others);
        }
    }
    while done < count
        invariant
            pos <= at <= buf.len(),
            done <= count,
            parse_varint(buf@.skip(pos as int), limit64()) == Some(
                (count as nat, buf@.skip(start as int)),
            ),
            parse_pairs_body(buf@.skip(start as int), count as nat) == (match parse_pairs_body(
                buf@.skip(at as int),
                (count - done) as nat,
            ) {
                Some((others, rest)) => Some((pair_texts(pairs@) + others, rest)),
                None => None,
            }),
        decreases count - done,
    {
        let ghost before = pair_texts(pairs@);
        let (name, after_name) = match take_text(buf, at) {
            None => {
                return None;
            },
            Some(taken) => taken,
        };
        let (value, after_value) = match take_text(buf, after_name) {
            None => {
                return None;
            },
            Some(taken) => taken,
        };
        proof {
            let tail = parse_pairs_body(buf@.skip(after_value as int), (count - done - 1) as nat);
            if let Some((others, rest)) = tail {
                assert(before + (seq![(name@, value@)] + others) =~= before.push(
                    (name@, value@),
                ) + others);
            }
        }
        pairs.push((name, value));
        proof {
            assert(pair_texts(pairs@) =~= before.push((name@, value@)));
        }
        at = after_value;
        done = done + 1;
    }
    proof {
        assert(pair_texts(pairs@) + Seq::empty() =~= pair_texts(pairs@));
    }
    Some((pairs, at))
}

} // verus!
