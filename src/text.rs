//! Byte-string helpers: name patterns, fixed-capacity diagnostic buffers and
//! the decoding of text handed across the plugin boundary.
use vstd::prelude::*;

verus! {

/// Capacity, in bytes, of every host-owned diagnostic buffer.
pub const DIAGNOSTIC_CAPACITY: usize = 256;

/// `prefix` is the beginning of `s`.
pub open spec fn has_prefix(s: Seq<u8>, prefix: Seq<u8>) -> bool {
    prefix.len() <= s.len() && s.subrange(0, prefix.len() as int) == prefix
}

/// `suffix` is the end of `s`.
pub open spec fn has_suffix(s: Seq<u8>, suffix: Seq<u8>) -> bool {
    suffix.len() <= s.len() && s.subrange(s.len() - suffix.len(), s.len() as int) == suffix
}

/// The bytes of `buf` before its first zero byte (all of it when there is none).
pub open spec fn until_nul(buf: Seq<u8>) -> Seq<u8>
    decreases buf.len(),
{
    if buf.len() == 0 || buf[0] == 0 {
        Seq::empty()
    } else {
        seq![buf[0]] + until_nul(buf.drop_first())
    }
}

/// Whether `s` begins with `prefix`.
pub fn starts_with(s: &[u8], prefix: &[u8]) -> (r: bool)
    ensures
        r == has_prefix(s@, prefix@),
{
    if prefix.len() > s.len() {
        return false;
    }
    let mut i: usize = 0;
    while i < prefix.len()
        invariant
            prefix.len() <= s.len(),
            i <= prefix.len(),
            forall|j: int| 0 <= j < i ==> s@[j] == prefix@[j],
        decreases prefix.len() - i,
    {
        if s[i] != prefix[i] {
            assert(s@.subrange(0, prefix.len() as int)[i as int] != prefix@[i as int]);
            return false;
        }
        i = i + 1;
    }
    assert(s@.subrange(0, prefix.len() as int) =~= prefix@);
    true
}

/// Whether `s` ends with `suffix`.
pub fn ends_with(s: &[u8], suffix: &[u8]) -> (r: bool)
    ensures
        r == has_suffix(s@, suffix@),
{
    if suffix.len() > s.len() {
        return false;
    }
    let start: usize = s.len() - suffix.len();
    let mut i: usize = 0;
    while i < suffix.len()
        invariant
            start == s.len() - suffix.len(),
            i <= suffix.len(),
            forall|j: int| 0 <= j < i ==> s@[start + j] == suffix@[j],
        decreases suffix.len() - i,
    {
        if s[start + i] != suffix[i] {
            assert(s@.subrange(start as int, s@.len() as int)[i as int] != suffix@[i as int]);
            return false;
        }
        i = i + 1;
    }
    assert(s@.subrange(start as int, s@.len() as int) =~= suffix@);
    true
}

/// A fresh host-owned diagnostic buffer: `DIAGNOSTIC_CAPACITY` zero bytes.
pub fn diagnostic_buffer() -> (r: Vec<u8>)
    ensures
        r@.len() == DIAGNOSTIC_CAPACITY,
        forall|i: int| 0 <= i < r@.len() ==> r@[i] == 0,
{
    let mut buf: Vec<u8> = Vec::new();
    let mut i: usize = 0;
    while i < DIAGNOSTIC_CAPACITY
        invariant
            i <= DIAGNOSTIC_CAPACITY,
            buf@.len() == i,
            forall|j: int| 0 <= j < buf@.len() ==> buf@[j] == 0,
        decreases DIAGNOSTIC_CAPACITY - i,
    {
        buf.push(0u8);
        i = i + 1;
    }
    buf
}

proof fn lemma_until_nul_at(buf: Seq<u8>, n: int)
    requires
        0 <= n <= buf.len(),
        forall|j: int| 0 <= j < n ==> buf[j] != 0,
        n == buf.len() || buf[n] == 0,
    ensures
        until_nul(buf) == buf.subrange(0, n),
    decreases n,
{
    if n == 0 {
        assert(buf.subrange(0, 0) =~= Seq::<u8>::empty());
    } else {
        let rest = buf.drop_first();
        assert forall|j: int| 0 <= j < n - 1 implies rest[j] != 0 by {
            assert(rest[j] == buf[j + 1]);
        }
        lemma_until_nul_at(rest, n - 1);
        assert(buf.subrange(0, n) =~= seq![buf[0]] + rest.subrange(0, n - 1));
    }
}

/// The text of a zero-terminated buffer: its bytes before the first zero
/// byte. A buffer without any zero byte is read to its end, never beyond.
pub fn text_before_nul(buf: &[u8]) -> (r: Vec<u8>)
    ensures
        r@ == until_nul(buf@),
{
    let mut out: Vec<u8> = Vec::new();
    let mut i: usize = 0;
    while i < buf.len() && buf[i] != 0
        invariant
            i <= buf.len(),
            out@ == buf@.subrange(0, i as int),
            forall|j: int| 0 <= j < i ==> buf@[j] != 0,
        decreases buf.len() - i,
    {
        out.push(buf[i]);
        i = i + 1;
        assert(out@ =~= buf@.subrange(0, i as int));
    }
    proof {
        lemma_until_nul_at(buf@, i as int);
    }
    out
}

/// The characters that lossy UTF-8 decoding makes of `bytes`: each maximal
/// invalid sequence becomes U+FFFD.
pub uninterp spec fn utf8_lossy(bytes: Seq<u8>) -> Seq<char>;

/// Relies on `String::from_utf8_lossy`: the decoded text depends on the
/// bytes alone, and no bytes give no text.
#[verifier::external_body]
fn decode_lossy(bytes: &[u8]) -> (r: String)
    ensures
        r@ == utf8_lossy(bytes@),
        bytes@.len() == 0 ==> r@.len() == 0,
{
    String::from_utf8_lossy(bytes).into_owned()
}

/// Text that crossed the plugin boundary as bytes, decoded for display.
pub fn display_text(bytes: &[u8]) -> (r: String)
    ensures
        r@ == utf8_lossy(bytes@),
{
    decode_lossy(bytes)
}

/// The failure reason a callee left in a diagnostic buffer.
pub struct Diagnostic {
    /// The reason's bytes, without the terminating zero.
    pub reason: Vec<u8>,
}

impl Diagnostic {
    /// Reads the reason out of a zero-terminated buffer.
    pub fn from_buffer(buf: &[u8]) -> (r: Diagnostic)
        ensures
            r.reason@ == until_nul(buf@),
    {
        Diagnostic { reason: text_before_nul(buf) }
    }

    /// Whether a reason was given: an empty text means none was.
    pub fn is_given(&self) -> (r: bool)
        ensures
            r == (self.reason@.len() > 0),
    {
        self.reason.len() > 0
    }

    /// The reason as text, or `None` when no reason was given.
    pub fn text(&self) -> (r: Option<String>)
        ensures
            self.reason@.len() == 0 ==> r.is_none(),
            self.reason@.len() > 0 ==> (r matches Some(t) && t@ == utf8_lossy(self.reason@)),
    {
        if self.reason.len() == 0 {
            None
        } else {
            Some(decode_lossy(self.reason.as_slice()))
        }
    }
}

} // verus!
