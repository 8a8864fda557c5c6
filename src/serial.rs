//! Collecting zero-terminated text that arrives byte by byte.
use vstd::prelude::*;

verus! {

/// Number of bytes of `s` before its first zero byte (all of `s` if none).
pub open spec fn text_len(s: Seq<u8>) -> nat
    decreases s.len(),
{
    if s.len() == 0 || s[0] == 0 {
        0
    } else {
        1 + text_len(s.drop_first())
    }
}

proof fn lemma_text_len_step(s: Seq<u8>, i: int)
    requires
        0 <= i < s.len(),
        s[i] != 0,
    ensures
        text_len(s.skip(i)) == 1 + text_len(s.skip(i + 1)),
{
    assert(s.skip(i).drop_first() =~= s.skip(i + 1));
}

proof fn lemma_text_len_bound(s: Seq<u8>)
    ensures
        text_len(s) <= s.len(),
        text_len(s) < s.len() ==> s[text_len(s) as int] == 0,
        forall|j: int| 0 <= j < text_len(s) ==> s[j] != 0,
    decreases s.len(),
{
    if s.len() > 0 && s[0] != 0 {
        lemma_text_len_bound(s.drop_first());
        assert forall|j: int| 0 <= j < text_len(s) implies s[j] != 0 by {
            if j > 0 {
                assert(s[j] == s.drop_first()[j - 1]);
            }
        }
    }
}

/// Whether to keep pulling bytes from the reader after receiving `byte`:
/// the zero byte ends a piece of text.
pub fn keeps_reading(byte: u8) -> (r: bool)
    ensures
        r == (byte != 0),
{
    byte != 0
}

/// Number of bytes of `received` before its first zero byte.
pub fn text_length(received: &[u8]) -> (n: usize)
    ensures
        n == text_len(received@),
{
    let ghost s = received@;
    proof {
        assert(s.skip(0) =~= s);
    }
    let mut n: usize = 0;
    while n < received.len() && keeps_reading(received[n])
        invariant
            n <= received@.len(),
            s == received@,
            text_len(s) == n + text_len(s.skip(n as int)),
        decreases received@.len() - n,
    {
        proof {
            lemma_text_len_step(s, n as int);
        }
        n = n + 1;
    }
    proof {
        if n < s.len() {
            assert(s.skip(n as int)[0] == s[n as int]);
        } else {
            assert(s.skip(n as int).len() == 0);
        }
    }
    n
}

/// Appends the text in `received` to `buf` at `offset`: the bytes up to,
/// not including, the first zero byte. `received` holds what the reader
/// produced before it reported that nothing more was available. Returns
/// the offset after the text, and whether the terminating zero was seen.
pub fn read_str(received: &[u8], buf: &mut Vec<u8>, offset: usize) -> (r: (usize, bool))
    requires
        offset + text_len(received@) <= old(buf)@.len(),
    ensures
        r.0 == offset + text_len(received@),
        r.1 == (text_len(received@) < received@.len()),
        final(buf)@ == old(buf)@.take(offset as int) + received@.take(text_len(received@) as int)
            + old(buf)@.skip(offset + text_len(received@)),
{
    let ghost s = received@;
    let ghost start = buf@;
    proof {
        lemma_text_len_bound(s);
        assert(s.skip(0) =~= s);
    }
    let size: usize = buf.len();
    let mut len: usize = 0;
    while len < received.len() && received[len] != 0
        invariant
            len <= received@.len(),
            s == received@,
            text_len(s) == len + text_len(s.skip(len as int)),
            offset + text_len(s) <= start.len(),
            buf@.len() == start.len(),
            start.len() == size,
            buf@ == start.take(offset as int) + s.take(len as int) + start.skip(offset + len),
        decreases received@.len() - len,
    {
        proof {
            lemma_text_len_step(s, len as int);
        }
        buf.set(offset + len, received[len]);
        assert(buf@ =~= start.take(offset as int) + s.take(len + 1) + start.skip(offset + len + 1));
        len = len + 1;
    }
    proof {
        if len < s.len() {
            assert(s.skip(len as int)[0] == s[len as int]);
        } else {
            assert(s.skip(len as int).len() == 0);
        }
    }
    (offset + len, len < received.len())
}

} // verus!
