//! The layout of values on the wire, and that it can be read back.
//!
//! Integers are little-endian and of fixed width, a length is eight bytes, a
//! string is its length followed by its UTF-8 bytes, an option is one byte that
//! tells whether a value follows, and a list is its length followed by its
//! items. Fields follow each other without padding.

use vstd::prelude::*;
use vstd::utf8::*;

verus! {

/// The number of values that `width` bytes can hold.
pub open spec fn byte_range(width: nat) -> nat
    decreases width,
{
    if width == 0 {
        1
    } else {
        256 * byte_range((width - 1) as nat)
    }
}

/// `n` in `width` bytes, lowest byte first.
pub open spec fn le_bytes(n: nat, width: nat) -> Seq<u8>
    decreases width,
{
    if width == 0 {
        Seq::empty()
    } else {
        seq![(n % 256) as u8] + le_bytes(n / 256, (width - 1) as nat)
    }
}

/// A string: its length in bytes, then the bytes.
pub open spec fn wire_text(s: Seq<char>) -> Seq<u8> {
    le_bytes(encode_utf8(s).len(), 8) + encode_utf8(s)
}

/// An optional block of bytes whose length is not written.
pub open spec fn wire_opt_block(b: Option<Seq<u8>>) -> Seq<u8> {
    match b {
        None => seq![0u8],
        Some(block) => seq![1u8] + block,
    }
}

/// Strings one after the other.
pub open spec fn wire_items(v: Seq<Seq<char>>) -> Seq<u8>
    decreases v.len(),
{
    if v.len() == 0 {
        Seq::empty()
    } else {
        wire_text(v[0]) + wire_items(v.drop_first())
    }
}

/// A list of strings: how many there are, then each.
pub open spec fn wire_texts(v: Seq<Seq<char>>) -> Seq<u8> {
    le_bytes(v.len(), 8) + wire_items(v)
}

/// Whether `bytes` starts with `image`.
pub open spec fn starts_with(bytes: Seq<u8>, image: Seq<u8>) -> bool {
    image.len() <= bytes.len() && bytes.take(image.len() as int) == image
}

/// Every machine length fits in eight bytes, and every 32-bit number in four.
pub proof fn lemma_byte_ranges()
    ensures
        byte_range(4) == 0x1_0000_0000,
        byte_range(8) == 0x1_0000_0000_0000_0000,
{
    reveal_with_fuel(byte_range, 9);
}

proof fn lemma_le_len(n: nat, width: nat)
    ensures
        le_bytes(n, width).len() == width,
    decreases width,
{
    if width > 0 {
        lemma_le_len(n / 256, (width - 1) as nat);
    }
}

proof fn lemma_le_injective(a: nat, b: nat, width: nat)
    requires
        a < byte_range(width),
        b < byte_range(width),
        le_bytes(a, width) == le_bytes(b, width),
    ensures
        a == b,
    decreases width,
{
    if width > 0 {
        let w = (width - 1) as nat;
        let x = le_bytes(a, width);
        let y = le_bytes(b, width);
        assert(x[0] == (a % 256) as u8 && y[0] == (b % 256) as u8);
        assert(x.drop_first() =~= le_bytes(a / 256, w));
        assert(y.drop_first() =~= le_bytes(b / 256, w));
        lemma_le_injective(a / 256, b / 256, w);
        assert(a == 256 * (a / 256) + a % 256);
        assert(b == 256 * (b / 256) + b % 256);
    }
}

/// Equal sequences that start with parts of equal length have equal parts.
proof fn lemma_split(x: Seq<u8>, r: Seq<u8>, y: Seq<u8>, s: Seq<u8>)
    requires
        x + r == y + s,
        x.len() == y.len(),
    ensures
        x == y,
        r == s,
{
    assert(x =~= (x + r).take(x.len() as int));
    assert(y =~= (y + s).take(y.len() as int));
    assert(r =~= (x + r).skip(x.len() as int));
    assert(s =~= (y + s).skip(y.len() as int));
}

/// A number can be read off the front.
pub proof fn lemma_peel_le(a: nat, r: Seq<u8>, b: nat, s: Seq<u8>, width: nat)
    requires
        a < byte_range(width),
        b < byte_range(width),
        le_bytes(a, width) + r == le_bytes(b, width) + s,
    ensures
        a == b,
        r == s,
{
    lemma_le_len(a, width);
    lemma_le_len(b, width);
    lemma_split(le_bytes(a, width), r, le_bytes(b, width), s);
    lemma_le_injective(a, b, width);
}

/// A string can be read off the front of anything a machine can hold.
pub proof fn lemma_peel_text(a: Seq<char>, r: Seq<u8>, b: Seq<char>, s: Seq<u8>)
    requires
        wire_text(a) + r == wire_text(b) + s,
        (wire_text(a) + r).len() < byte_range(8),
    ensures
        a == b,
        r == s,
{
    let x = encode_utf8(a);
    let y = encode_utf8(b);
    assert(wire_text(a) + r =~= le_bytes(x.len(), 8) + (x + r));
    assert(wire_text(b) + s =~= le_bytes(y.len(), 8) + (y + s));
    lemma_peel_le(x.len(), x + r, y.len(), y + s, 8);
    lemma_split(x, r, y, s);
    encode_utf8_decode_utf8(a);
    encode_utf8_decode_utf8(b);
}

/// An optional block of known length can be read off the front.
pub proof fn lemma_peel_opt_block(
    a: Option<Seq<u8>>,
    r: Seq<u8>,
    b: Option<Seq<u8>>,
    s: Seq<u8>,
    size: nat,
)
    requires
        a matches Some(x) ==> x.len() == size,
        b matches Some(x) ==> x.len() == size,
        wire_opt_block(a) + r == wire_opt_block(b) + s,
    ensures
        a == b,
        r == s,
{
    let whole = wire_opt_block(a) + r;
    assert(whole[0] == wire_opt_block(a)[0]);
    assert((wire_opt_block(b) + s)[0] == wire_opt_block(b)[0]);
    lemma_split(wire_opt_block(a), r, wire_opt_block(b), s);
    match (a, b) {
        (Some(x), Some(y)) => {
            lemma_split(seq![1u8], x, seq![1u8], y);
        },
        _ => {},
    }
}

proof fn lemma_peel_items(a: Seq<Seq<char>>, r: Seq<u8>, b: Seq<Seq<char>>, s: Seq<u8>)
    requires
        a.len() == b.len(),
        wire_items(a) + r == wire_items(b) + s,
        (wire_items(a) + r).len() < byte_range(8),
    ensures
        a == b,
        r == s,
    decreases a.len(),
{
    if a.len() == 0 {
        assert(wire_items(a) + r =~= r);
        assert(wire_items(b) + s =~= s);
        assert(a =~= b);
    } else {
        let x = wire_items(a.drop_first()) + r;
        let y = wire_items(b.drop_first()) + s;
        assert(wire_items(a) + r =~= wire_text(a[0]) + x);
        assert(wire_items(b) + s =~= wire_text(b[0]) + y);
        lemma_peel_text(a[0], x, b[0], y);
        lemma_peel_items(a.drop_first(), r, b.drop_first(), s);
        assert(a =~= seq![a[0]] + a.drop_first());
        assert(b =~= seq![b[0]] + b.drop_first());
    }
}

/// A list takes at least as many bytes as it has items.
proof fn lemma_items_len(v: Seq<Seq<char>>)
    ensures
        wire_items(v).len() >= v.len(),
    decreases v.len(),
{
    if v.len() > 0 {
        lemma_items_len(v.drop_first());
        lemma_le_len(encode_utf8(v[0]).len(), 8);
    }
}

/// A list of strings can be read off the front of anything a machine can hold.
pub proof fn lemma_peel_texts(a: Seq<Seq<char>>, r: Seq<u8>, b: Seq<Seq<char>>, s: Seq<u8>)
    requires
        wire_texts(a) + r == wire_texts(b) + s,
        (wire_texts(a) + r).len() < byte_range(8),
    ensures
        a == b,
        r == s,
{
    lemma_items_len(a);
    lemma_items_len(b);
    let x = wire_items(a) + r;
    let y = wire_items(b) + s;
    assert(wire_texts(a) + r =~= le_bytes(a.len(), 8) + x);
    assert(wire_texts(b) + s =~= le_bytes(b.len(), 8) + y);
    lemma_peel_le(a.len(), x, b.len(), y, 8);
    lemma_peel_items(a, r, b, s);
}

/// Law: each byte of a number holds its share of it, lowest first: the number is
/// the sum of the bytes, each 256 times the weight of the one before.
pub proof fn law_bytes_add_up(n: nat, width: nat)
    requires
        width > 0,
    ensures
        le_bytes(n, width).len() == width,
        le_bytes(n, width)[0] == n % 256,
        le_bytes(n, width).skip(1) == le_bytes(n / 256, (width - 1) as nat),
        le_bytes(n, 0).len() == 0,
{
    lemma_le_len(n, width);
    assert(le_bytes(n, width).skip(1) =~= le_bytes(n / 256, (width - 1) as nat));
}

/// Law: a string is its number of bytes in eight bytes and then the bytes, a list
/// is its number of strings in eight bytes and then each, and an option is a zero
/// byte, or a one and then the block.
pub proof fn law_layout(s: Seq<char>, v: Seq<Seq<char>>, block: Seq<u8>)
    ensures
        wire_text(s).len() == 8 + encode_utf8(s).len(),
        wire_text(s).take(8) == le_bytes(encode_utf8(s).len(), 8),
        wire_text(s).skip(8) == encode_utf8(s),
        wire_texts(v).take(8) == le_bytes(v.len(), 8),
        wire_texts(v.push(s)).skip(8) == wire_texts(v).skip(8) + wire_text(s),
        wire_texts(Seq::empty()).len() == 8,
        wire_opt_block(None) == seq![0u8],
        wire_opt_block(Some(block)) == seq![1u8] + block,
{
    lemma_le_len(encode_utf8(s).len(), 8);
    lemma_le_len(v.len(), 8);
    lemma_le_len(v.push(s).len(), 8);
    lemma_le_len(0, 8);
    assert(wire_text(s).take(8) =~= le_bytes(encode_utf8(s).len(), 8));
    assert(wire_text(s).skip(8) =~= encode_utf8(s));
    assert(wire_texts(v).take(8) =~= le_bytes(v.len(), 8));
    assert(wire_texts(v).skip(8) =~= wire_items(v));
    assert(wire_texts(v.push(s)).skip(8) =~= wire_items(v.push(s)));
    lemma_items_push(v, s);
}

proof fn lemma_items_push(v: Seq<Seq<char>>, s: Seq<char>)
    ensures
        wire_items(v.push(s)) == wire_items(v) + wire_text(s),
    decreases v.len(),
{
    reveal_with_fuel(wire_items, 2);
    if v.len() == 0 {
        assert(v.push(s).drop_first() =~= Seq::<Seq<char>>::empty());
        assert(wire_items(v.push(s)) =~= wire_items(v) + wire_text(s));
    } else {
        lemma_items_push(v.drop_first(), s);
        assert(v.push(s).drop_first() =~= v.drop_first().push(s));
        assert(wire_items(v.push(s)) =~= wire_items(v) + wire_text(s));
    }
}

/// Law: bytes start with an image exactly where they are the image and some rest.
pub proof fn law_starts_with(bytes: Seq<u8>, image: Seq<u8>, rest: Seq<u8>)
    ensures
        starts_with(image + rest, image),
        starts_with(bytes, image) ==> bytes == image + bytes.skip(image.len() as int),
{
    assert((image + rest).take(image.len() as int) =~= image);
    if starts_with(bytes, image) {
        assert(bytes =~= bytes.take(image.len() as int) + bytes.skip(image.len() as int));
    }
}

} // verus!
