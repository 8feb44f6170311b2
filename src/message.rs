//! Fixed-size message buffers: accepting an outgoing line, removing the
//! zero padding of a decrypted one, and wiping scratch buffers.
use vstd::prelude::*;

verus! {

/// Hard cap on the plaintext of one message, in bytes; outgoing lines are
/// padded with zeros up to exactly this size.
pub const PLAINTEXT_LEN: usize = 256;

/// Size of the buffer that one socket read fills; a read never forwards more.
pub const CIPHERTEXT_LEN: usize = 512;

/// `line` padded with zero bytes to `PLAINTEXT_LEN` bytes.
pub open spec fn padded(line: Seq<u8>) -> Seq<u8>
    recommends
        line.len() <= PLAINTEXT_LEN,
{
    Seq::new(PLAINTEXT_LEN as nat, |i: int| if i < line.len() { line[i] } else { 0u8 })
}

/// `s` without its trailing zero bytes.
pub open spec fn strip_zeros(s: Seq<u8>) -> Seq<u8>
    decreases s.len(),
{
    if s.len() > 0 && s.last() == 0 {
        strip_zeros(s.drop_last())
    } else {
        s
    }
}

/// Whether every byte of `s` is zero.
pub open spec fn all_zero(s: Seq<u8>) -> bool {
    forall|i: int| 0 <= i < s.len() ==> s[i] == 0
}

/// What the line source does with one line of input.
#[derive(Debug, PartialEq, Eq)]
pub enum LineOutcome {
    /// The line fits: it is sent as this zero-padded buffer.
    Forward(Vec<u8>),
    /// The line is longer than the cap (its length is given): it is
    /// reported to the user and nothing is sent.
    TooLong(usize),
}

/// Accepts a line of at most `PLAINTEXT_LEN` bytes as a zero-padded buffer
/// of exactly that size, and rejects a longer one.
pub fn accept_line(line: &[u8]) -> (r: LineOutcome)
    ensures
        line@.len() <= PLAINTEXT_LEN ==> r is Forward && r->Forward_0@ == padded(line@),
        line@.len() > PLAINTEXT_LEN ==> r == LineOutcome::TooLong(line@.len() as usize),
{
    let n = line.len();
    if n > PLAINTEXT_LEN {
        return LineOutcome::TooLong(n);
    }
    let mut buf: Vec<u8> = Vec::with_capacity(PLAINTEXT_LEN);
    let mut i: usize = 0;
    while i < PLAINTEXT_LEN
        invariant
            n == line@.len(),
            n <= PLAINTEXT_LEN,
            i <= PLAINTEXT_LEN,
            buf@.len() == i,
            forall|j: int| 0 <= j < i ==> buf@[j] == padded(line@)[j],
        decreases PLAINTEXT_LEN - i,
    {
        if i < n {
            buf.push(line[i]);
        } else {
            buf.push(0u8);
        }
        i = i + 1;
    }
    assert(buf@ =~= padded(line@));
    LineOutcome::Forward(buf)
}

/// Removes the trailing zero padding of a decrypted message.
pub fn trim_padding(msg: &[u8]) -> (r: Vec<u8>)
    ensures
        r@ == strip_zeros(msg@),
{
    let mut end: usize = msg.len();
    assert(msg@.subrange(0, end as int) =~= msg@);
    while end > 0 && msg[end - 1] == 0
        invariant
            end <= msg@.len(),
            strip_zeros(msg@.subrange(0, end as int)) == strip_zeros(msg@),
        decreases end,
    {
        assert(msg@.subrange(0, end as int).drop_last() =~= msg@.subrange(0, end - 1));
        end = end - 1;
    }
    let mut r: Vec<u8> = Vec::with_capacity(end);
    let mut i: usize = 0;
    while i < end
        invariant
            end <= msg@.len(),
            i <= end,
            r@ =~= msg@.subrange(0, i as int),
        decreases end - i,
    {
        r.push(msg[i]);
        i = i + 1;
    }
    assert(msg@ =~= msg@.subrange(0, msg@.len() as int));
    r
}

/// Overwrites every byte of a scratch buffer with zero, keeping its length.
pub fn wipe(buf: &mut Vec<u8>)
    ensures
        final(buf)@.len() == old(buf)@.len(),
        all_zero(final(buf)@),
{
    let n = buf.len();
    let mut i: usize = 0;
    while i < n
        invariant
            n == buf@.len(),
            n == old(buf)@.len(),
            i <= n,
            forall|j: int| 0 <= j < i ==> buf@[j] == 0,
        decreases n - i,
    {
        buf[i] = 0u8;
        i = i + 1;
    }
}

/// Zero bytes appended to a sequence are exactly what stripping removes.
proof fn lemma_strip_appended_zeros(s: Seq<u8>, k: nat)
    ensures
        strip_zeros(s + Seq::new(k, |i: int| 0u8)) == strip_zeros(s),
    decreases k,
{
    if k == 0 {
        assert(s + Seq::new(0, |i: int| 0u8) =~= s);
    } else {
        let t = s + Seq::new(k, |i: int| 0u8);
        assert(t.drop_last() =~= s + Seq::new((k - 1) as nat, |i: int| 0u8));
        lemma_strip_appended_zeros(s, (k - 1) as nat);
    }
}

/// Removing the padding gives back any accepted line that holds no zero
/// byte: the line source's padding and the receiver's trimming are inverse.
pub proof fn lemma_padding_round_trip(line: Seq<u8>)
    requires
        line.len() <= PLAINTEXT_LEN,
        forall|i: int| 0 <= i < line.len() ==> line[i] != 0,
    ensures
        strip_zeros(padded(line)) == line,
{
    let k = (PLAINTEXT_LEN - line.len()) as nat;
    assert(padded(line) =~= line + Seq::new(k, |i: int| 0u8));
    lemma_strip_appended_zeros(line, k);
}

} // verus!
