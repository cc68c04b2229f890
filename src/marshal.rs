use vstd::prelude::*;
use vstd::string::StringSliceAdditionalSpecFns;
use vstd::utf8::*;

verus! {

/// The byte that ends a string in the host's calling convention.
pub const TERMINATOR: u8 = 0;

/// Whether a byte string holds the terminator anywhere.
pub open spec fn has_terminator(bytes: Seq<u8>) -> bool {
    bytes.contains(TERMINATOR)
}

/// The buffer that the host reads for a byte string: the bytes, then the
/// terminator.
pub open spec fn terminated(bytes: Seq<u8>) -> Seq<u8> {
    bytes.push(TERMINATOR)
}

/// What the host reads from a buffer: the bytes before the first terminator.
pub open spec fn read_until_terminator(buf: Seq<u8>) -> Seq<u8>
    decreases buf.len(),
{
    if buf.len() == 0 || buf[0] == TERMINATOR {
        Seq::empty()
    } else {
        seq![buf[0]] + read_until_terminator(buf.drop_first())
    }
}

/// Encodes a string as a terminated byte buffer, or gives `None` when the
/// string holds the terminator character and so cannot be encoded.
pub fn to_c_buffer(s: &str) -> (r: Option<Vec<u8>>)
    ensures
        r is None <==> s@.contains('\0'),
        r is None <==> has_terminator(s.spec_bytes()),
        r matches Some(buf) ==> buf@ == terminated(s.spec_bytes()),
{
    proof {
        lemma_terminator_byte_iff_char(s@);
        assert(s.spec_bytes() == encode_utf8(s@));
    }
    let bytes = s.as_bytes();
    let mut buf: Vec<u8> = Vec::new();
    let mut i: usize = 0;
    while i < bytes.len()
        invariant
            bytes@ == s.spec_bytes(),
            has_terminator(bytes@) <==> s@.contains('\0'),
            i <= bytes@.len(),
            buf@ == bytes@.subrange(0, i as int),
            !bytes@.subrange(0, i as int).contains(TERMINATOR),
        decreases bytes@.len() - i,
    {
        if bytes[i] == TERMINATOR {
            assert(bytes@[i as int] == TERMINATOR);
            assert(has_terminator(s.spec_bytes()));
            return None;
        }
        buf.push(bytes[i]);
        proof {
            assert(bytes@.subrange(0, i + 1) =~= bytes@.subrange(0, i as int).push(bytes@[i as int]));
        }
        i = i + 1;
    }
    proof {
        assert(bytes@.subrange(0, i as int) =~= bytes@);
    }
    buf.push(TERMINATOR);
    Some(buf)
}

/// The UTF-8 form of one character holds a zero byte exactly when the
/// character is the null character.
proof fn lemma_scalar_terminator(c: char)
    ensures
        encode_scalar(c as u32).contains(TERMINATOR) <==> c == '\0',
{
    broadcast use char_is_scalar;

    let v = c as u32;
    let e = encode_scalar(v);
    if has_width_1_encoding(v) {
        assert(e[0] == leading_byte_width_1(v));
        assert(v <= 0x7F ==> ((v & 0x7F) as u8 == 0 <==> v == 0)) by (bit_vector);
        if c == '\0' {
            assert(e[0] == TERMINATOR);
        }
    } else {
        assert(0xC0 | ((v >> 6) & 0x1F) as u8 != 0) by (bit_vector);
        assert(0xE0 | ((v >> 12) & 0x0F) as u8 != 0) by (bit_vector);
        assert(0xF0 | ((v >> 18) & 0x7) as u8 != 0) by (bit_vector);
        assert(0x80 | (v & 0x3F) as u8 != 0) by (bit_vector);
        assert(0x80 | ((v >> 6) & 0x3F) as u8 != 0) by (bit_vector);
        assert(0x80 | ((v >> 12) & 0x3F) as u8 != 0) by (bit_vector);
        assert(forall|i: int| 0 <= i < e.len() ==> e[i] != TERMINATOR);
        assert(c != '\0');
    }
}

/// A string's UTF-8 form holds the terminator byte exactly when the string
/// holds the null character.
pub proof fn lemma_terminator_byte_iff_char(chars: Seq<char>)
    ensures
        has_terminator(encode_utf8(chars)) <==> chars.contains('\0'),
    decreases chars.len(),
{
    if chars.len() == 0 {
        assert(!encode_utf8(chars).contains(TERMINATOR));
    } else {
        let head = encode_scalar(chars[0] as u32);
        let rest = chars.drop_first();
        lemma_scalar_terminator(chars[0]);
        lemma_terminator_byte_iff_char(rest);
        let all = encode_utf8(chars);
        assert(all == head + encode_utf8(rest));
        if all.contains(TERMINATOR) {
            let k = choose|k: int| 0 <= k < all.len() && all[k] == TERMINATOR;
            if k < head.len() {
                assert(head[k] == TERMINATOR);
                assert(chars[0] == '\0');
            } else {
                assert(encode_utf8(rest)[k - head.len()] == TERMINATOR);
                let j = choose|j: int| 0 <= j < rest.len() && rest[j] == '\0';
                assert(chars[j + 1] == '\0');
            }
        }
        if chars.contains('\0') {
            let j = choose|j: int| 0 <= j < chars.len() && chars[j] == '\0';
            if j == 0 {
                let k = choose|k: int| 0 <= k < head.len() && head[k] == TERMINATOR;
                assert(all[k] == TERMINATOR);
            } else {
                assert(rest[j - 1] == '\0');
                let tail = encode_utf8(rest);
                let k = choose|k: int| 0 <= k < tail.len() && tail[k] == TERMINATOR;
                assert(all[head.len() + k] == TERMINATOR);
            }
        }
    }
}

/// Reading a terminated buffer gives back the bytes it was made from, when
/// they hold no terminator.
pub proof fn lemma_read_terminated(bytes: Seq<u8>)
    requires
        !has_terminator(bytes),
    ensures
        read_until_terminator(terminated(bytes)) == bytes,
    decreases bytes.len(),
{
    let buf = terminated(bytes);
    if bytes.len() == 0 {
        assert(buf[0] == TERMINATOR);
    } else {
        assert(buf[0] == bytes[0]);
        assert(buf.drop_first() =~= terminated(bytes.drop_first()));
        assert(!has_terminator(bytes.drop_first())) by {
            if bytes.drop_first().contains(TERMINATOR) {
                let k = choose|k: int| 0 <= k < bytes.drop_first().len() && bytes.drop_first()[k] == TERMINATOR;
                assert(bytes[k + 1] == TERMINATOR);
            }
        }
        lemma_read_terminated(bytes.drop_first());
        assert(seq![bytes[0]] + bytes.drop_first() =~= bytes);
    }
}

/// A string without the null character survives encoding: the bytes that the
/// host reads from its buffer are valid UTF-8 and decode to the same string.
pub proof fn law_buffer_round_trip(s: &str)
    requires
        !s@.contains('\0'),
    ensures
        valid_utf8(read_until_terminator(terminated(s.spec_bytes()))),
        decode_utf8(read_until_terminator(terminated(s.spec_bytes()))) == s@,
{
    broadcast use encode_utf8_valid_utf8, encode_utf8_decode_utf8;

    lemma_terminator_byte_iff_char(s@);
    lemma_read_terminated(s.spec_bytes());
}

} // verus!
