//! An adapter for the length-prefixed string representation used by a C host
//! application: a byte buffer paired with a declared byte length, allocated
//! from an externally managed memory pool.
//!
//! The adapter converts between that representation and native text values,
//! and compares two such strings the way the host library does: byte by byte,
//! stopping at a terminating zero byte rather than at the declared length.

use vstd::prelude::*;
use vstd::slice::{slice_index_get, slice_subrange};
use vstd::utf8::{decode_utf8, encode_utf8, encode_utf8_decode_utf8, encode_utf8_valid_utf8,
    valid_utf8};

verus! {

/// A memory pool in the style of the host allocator: construction hands out
/// buffers whose lifetime the pool owns, and the pool accounts for every byte
/// it has handed out.
#[allow(non_camel_case_types)]
pub struct ngx_pool_t {
    allocated: u64,
}

impl ngx_pool_t {
    /// Total number of bytes this pool has handed out, saturating at `u64::MAX`.
    pub closed spec fn spec_allocated(&self) -> u64 {
        self.allocated
    }

    /// How many bytes the pool has handed out so far.
    pub fn allocated(&self) -> (r: u64)
        ensures
            r == self.spec_allocated(),
    {
        self.allocated
    }

    /// Hands out a buffer of `size` bytes, charged against the pool's account.
    pub fn palloc(&mut self, size: u64) -> (r: Vec<u8>)
        ensures
            r@ == Seq::new(size as nat, |i: int| 0u8),
            final(self).spec_allocated() == if old(self).spec_allocated() + size <= u64::MAX {
                (old(self).spec_allocated() + size) as u64
            } else {
                u64::MAX
            },
    {
        if size <= u64::MAX - self.allocated {
            self.allocated = self.allocated + size;
        } else {
            self.allocated = u64::MAX;
        }
        let mut buf: Vec<u8> = Vec::new();
        let mut i: u64 = 0;
        while i < size
            invariant
                i <= size,
                buf@ =~= Seq::new(i as nat, |j: int| 0u8),
            decreases size - i,
        {
            buf.push(0u8);
            i = i + 1;
        }
        buf
    }
}

/// Creates a fresh memory pool with nothing allocated from it yet.
pub fn ngx_create_pool() -> (r: ngx_pool_t)
    ensures
        r.spec_allocated() == 0,
{
    ngx_pool_t { allocated: 0 }
}

/// A host-style string: a declared byte length together with the buffer it
/// refers to, or no buffer at all.
///
/// The representation invariant is [`ngx_str_t::wf`]: an absent buffer forces
/// `len == 0`, and a present buffer holds at least `len` bytes. The buffer may
/// be longer than `len`; literal construction, for one, stores a terminating
/// zero byte after the declared content so that the terminator-scanning
/// comparison of the host library finds its mark.
#[allow(non_camel_case_types)]
#[derive(Debug)]
pub struct ngx_str_t {
    pub len: u64,
    pub data: Option<Vec<u8>>,
}

impl ngx_str_t {
    /// The whole backing buffer as a byte sequence; empty when no buffer is
    /// attached.
    pub open spec fn buf(&self) -> Seq<u8> {
        match self.data {
            Option::None => Seq::empty(),
            Option::Some(v) => v@,
        }
    }

    /// The declared content: the first `len` bytes of the buffer.
    pub open spec fn prefix(&self) -> Seq<u8> {
        self.buf().take(self.len as int)
    }

    /// Well-formedness: a missing buffer means an empty string, and a present
    /// buffer covers at least the declared length.
    pub open spec fn wf(&self) -> bool {
        &&& self.len <= self.buf().len()
        &&& self.data is None ==> self.len == 0
    }

    /// The text this string denotes: the declared content decoded as UTF-8.
    /// Meaningful only when `valid_utf8(self.prefix())` holds.
    pub open spec fn text(&self) -> Seq<char> {
        decode_utf8(self.prefix())
    }
}

/// Builds an empty host string with no backing buffer, as the host's
/// null-string initializer does.
pub fn ngx_null_string() -> (r: ngx_str_t)
    ensures
        r.len == 0,
        r.data is None,
        r.wf(),
{
    ngx_str_t { len: 0, data: None }
}

/// Builds a host string from literal text, as the host's string initializer
/// does: the declared length covers exactly the text's bytes, and a
/// terminating zero byte follows them in the buffer.
pub fn ngx_string(s: &str) -> (r: ngx_str_t)
    ensures
        r.wf(),
        r.len == encode_utf8(s@).len(),
        r.buf() == encode_utf8(s@).push(0u8),
        r.prefix() == encode_utf8(s@),
        valid_utf8(r.prefix()),
        r.text() == s@,
{
    broadcast use encode_utf8_valid_utf8, encode_utf8_decode_utf8;

    let bytes = s.as_bytes();
    let n: usize = bytes.len();
    let mut buf = vstd::slice::slice_to_vec(bytes);
    buf.push(0u8);
    let r = ngx_str_t { len: n as u64, data: Some(buf) };
    proof {
        assert(r.buf() =~= encode_utf8(s@).push(0u8));
        assert(r.prefix() =~= encode_utf8(s@));
    }
    r
}

/// Requests `data`'s byte length from the pool and copies the text's bytes
/// into the fresh buffer, byte for byte.
fn str_to_uchar(pool: &mut ngx_pool_t, data: &str) -> (r: Vec<u8>)
    ensures
        r@ == encode_utf8(data@),
        final(pool).spec_allocated() == if old(pool).spec_allocated() + encode_utf8(data@).len()
            <= u64::MAX {
            (old(pool).spec_allocated() + encode_utf8(data@).len()) as u64
        } else {
            u64::MAX
        },
{
    let src = data.as_bytes();
    let n: usize = src.len();
    let mut buf = pool.palloc(n as u64);
    let mut i: usize = 0;
    while i < n
        invariant
            i <= n,
            n == src@.len(),
            buf@.len() == n,
            forall|j: int| 0 <= j < i ==> buf@[j] == src@[j],
        decreases n - i,
    {
        buf[i] = *slice_index_get(src, i);
        i = i + 1;
    }
    proof {
        assert(buf@ =~= encode_utf8(data@));
    }
    buf
}

impl ngx_str_t {
    /// Builds a host string from owned text: the byte length of `data` is
    /// requested from `pool`, the bytes are copied into that allocation, and
    /// the declared length is set to exactly that byte count.
    pub fn from_string(pool: &mut ngx_pool_t, data: String) -> (r: Self)
        ensures
            r.wf(),
            r.data is Some,
            r.buf() == encode_utf8(data@),
            r.len == encode_utf8(data@).len(),
            r.prefix() == encode_utf8(data@),
            valid_utf8(r.prefix()),
            r.text() == data@,
            final(pool).spec_allocated() == if old(pool).spec_allocated() + r.len <= u64::MAX {
                (old(pool).spec_allocated() + r.len) as u64
            } else {
                u64::MAX
            },
    {
        broadcast use encode_utf8_valid_utf8, encode_utf8_decode_utf8;

        let buf = str_to_uchar(pool, data.as_str());
        let n: usize = buf.len();
        let r = ngx_str_t { data: Some(buf), len: n as u64 };
        proof {
            assert(r.prefix() =~= encode_utf8(data@));
        }
        r
    }
}

/// Relies on `core::str::from_utf8`: it returns `Ok` exactly when the bytes
/// are valid UTF-8, and the resulting `str` is a view of those very bytes, so
/// its characters are their decoding.
#[verifier::external_body]
fn bytes_as_str(bytes: &[u8]) -> (r: Option<&str>)
    ensures
        r is Some <==> valid_utf8(bytes@),
        r is Some ==> r.unwrap()@ == decode_utf8(bytes@),
{
    core::str::from_utf8(bytes).ok()
}

impl ngx_str_t {
    /// Views the declared content as text without copying.
    ///
    /// The caller owes valid UTF-8 in the declared content, as the host
    /// contract demands of every such buffer; the host treats anything else
    /// as a fatal error. [`ngx_str_t::try_to_string`] is the checked road in.
    pub fn to_str(&self) -> (r: &str)
        requires
            self.wf(),
            valid_utf8(self.prefix()),
        ensures
            r@ == self.text(),
    {
        match &self.data {
            None => {
                proof {
                    reveal_strlit("");
                    assert(self.prefix() =~= Seq::<u8>::empty());
                    assert(""@ =~= self.text());
                }
                ""
            },
            Some(v) => {
                let vlen: usize = v.len();
                assert(self.len as int <= vlen as int);
                let s = slice_subrange(v.as_slice(), 0, self.len as usize);
                proof {
                    assert(s@ =~= self.prefix());
                }
                bytes_as_str(s).unwrap()
            },
        }
    }

    /// Copies the declared content into an independently owned text value.
    /// Same obligation as [`ngx_str_t::to_str`]: the content must be valid
    /// UTF-8.
    pub fn to_string(&self) -> (r: String)
        requires
            self.wf(),
            valid_utf8(self.prefix()),
        ensures
            r@ == self.text(),
    {
        self.to_str().to_owned()
    }

    /// The checked counterpart of [`ngx_str_t::to_string`]: decodes the
    /// declared content, and reports invalid UTF-8 as `None` instead of
    /// aborting.
    pub fn try_to_string(&self) -> (r: Option<String>)
        requires
            self.wf(),
        ensures
            r is Some <==> valid_utf8(self.prefix()),
            r is Some ==> r.unwrap()@ == self.text(),
    {
        match &self.data {
            None => {
                proof {
                    assert(self.prefix() =~= Seq::<u8>::empty());
                    assert(valid_utf8(self.prefix()));
                }
                Some(self.to_string())
            },
            Some(v) => {
                let vlen: usize = v.len();
                assert(self.len as int <= vlen as int);
                let s = slice_subrange(v.as_slice(), 0, self.len as usize);
                proof {
                    assert(s@ =~= self.prefix());
                }
                match bytes_as_str(s) {
                    Some(_) => Some(self.to_string()),
                    None => None,
                }
            },
        }
    }
}

/// The host's byte comparison, made safe: bytes are compared pairwise until a
/// mismatch decides against equality or a terminating zero byte decides for
/// it. Where the host primitive would read on past a buffer that holds no
/// terminator, this scan stops at the end of the shorter buffer and counts
/// everything compared so far as agreement.
pub open spec fn terminated_bytes_agree(a: Seq<u8>, b: Seq<u8>) -> bool
    decreases a.len(),
{
    if a.len() == 0 || b.len() == 0 {
        true
    } else if a[0] != b[0] {
        false
    } else if a[0] == 0 {
        true
    } else {
        terminated_bytes_agree(a.drop_first(), b.drop_first())
    }
}

/// Compares two buffers the way the host's terminator-scanning primitive
/// does, but bounds-checked: the scan never leaves either buffer.
fn scan_bytes_agree(a: &Vec<u8>, b: &Vec<u8>) -> (r: bool)
    ensures
        r == terminated_bytes_agree(a@, b@),
{
    let mut i: usize = 0;
    proof {
        assert(a@.skip(0) =~= a@);
        assert(b@.skip(0) =~= b@);
    }
    loop
        invariant
            i <= a@.len(),
            i <= b@.len(),
            terminated_bytes_agree(a@, b@) == terminated_bytes_agree(
                a@.skip(i as int),
                b@.skip(i as int),
            ),
        decreases a@.len() - i,
    {
        if i == a.len() || i == b.len() {
            proof {
                assert(a@.skip(i as int).len() == 0 || b@.skip(i as int).len() == 0);
            }
            return true;
        }
        let x: u8 = a[i];
        let y: u8 = b[i];
        proof {
            assert(a@.skip(i as int)[0] == x);
            assert(b@.skip(i as int)[0] == y);
        }
        if x != y {
            return false;
        }
        if x == 0 {
            return true;
        }
        proof {
            assert(a@.skip(i as int).drop_first() =~= a@.skip(i as int + 1));
            assert(b@.skip(i as int).drop_first() =~= b@.skip(i as int + 1));
        }
        i = i + 1;
    }
}

impl ngx_str_t {
    /// What `==` on host strings means: the declared lengths agree, and either
    /// both strings are empty or the terminator-scanning comparison of the two
    /// buffers reports agreement.
    ///
    /// A known boundary of the host semantics carries over: because the scan
    /// goes by the terminating zero byte and by the buffers' ends, not by the
    /// declared length, equality of strings whose buffers hold no terminator
    /// within the declared length is not transitive. Bytes past a terminator
    /// never take part, and a buffer that ends before a terminator agrees
    /// with any longer buffer that matches it byte for byte.
    pub open spec fn spec_eq(&self, other: &Self) -> bool {
        &&& self.len == other.len
        &&& (self.len == 0 || terminated_bytes_agree(self.buf(), other.buf()))
    }
}

impl PartialEq for ngx_str_t {
    /// Equality as the host library checks it: equal declared lengths, then a
    /// terminator-scanning byte comparison; two zero-length strings are equal
    /// whatever their buffers. See [`ngx_str_t::spec_eq`] for the boundary
    /// conditions this inherits.
    fn eq(&self, other: &Self) -> (r: bool) {
        if self.len != other.len {
            return false;
        }
        if self.len == 0 {
            return true;
        }
        match (&self.data, &other.data) {
            (Some(a), Some(b)) => scan_bytes_agree(a, b),
            _ => true,
        }
    }
}

impl vstd::std_specs::cmp::PartialEqSpecImpl for ngx_str_t {
    open spec fn obeys_eq_spec() -> bool {
        true
    }

    open spec fn eq_spec(&self, other: &Self) -> bool {
        self.spec_eq(other)
    }
}

proof fn lemma_scan_reflexive(s: Seq<u8>)
    ensures
        terminated_bytes_agree(s, s),
    decreases s.len(),
{
    if s.len() == 0 {
    } else if s[0] == 0 {
    } else {
        lemma_scan_reflexive(s.drop_first());
    }
}

/// Round-trip law: a host string whose declared content is exactly the UTF-8
/// encoding of text `t` — as `from_string` builds it — is valid UTF-8 and
/// views back as exactly `t`.
pub proof fn lemma_text_round_trip(s: ngx_str_t, t: Seq<char>)
    requires
        s.prefix() == encode_utf8(t),
    ensures
        valid_utf8(s.prefix()),
        s.text() == t,
{
    broadcast use encode_utf8_valid_utf8, encode_utf8_decode_utf8;
}

/// Reflexivity law: a host string equals any independently constructed host
/// string that carries the same declared length and the same buffer contents.
pub proof fn lemma_eq_identical_content(a: ngx_str_t, b: ngx_str_t)
    requires
        a.len == b.len,
        a.buf() == b.buf(),
    ensures
        a.spec_eq(&b),
{
    lemma_scan_reflexive(a.buf());
}

proof fn lemma_scan_agrees_up_to(a: Seq<u8>, b: Seq<u8>, n: int)
    requires
        0 <= n <= a.len(),
        n <= b.len(),
        forall|j: int| 0 <= j < n ==> a[j] == b[j],
        a.len() == n || a[n] == 0,
        b.len() == n || b[n] == 0,
    ensures
        terminated_bytes_agree(a, b),
    decreases n,
{
    if a.len() == 0 || b.len() == 0 {
    } else if n == 0 {
        assert(a[0] == 0 && b[0] == 0);
    } else if a[0] == 0 {
    } else {
        lemma_scan_agrees_up_to(a.drop_first(), b.drop_first(), n - 1);
    }
}

/// Matching-content law: two well-formed host strings of the same declared
/// length and the same declared content are equal whenever each buffer either
/// ends exactly at the declared length — as pool-built strings do — or holds a
/// terminating zero byte right after it — as literal-built strings do. Without
/// that proviso the terminator scan may read differing bytes past the declared
/// content; see [`ngx_str_t::spec_eq`].
pub proof fn lemma_eq_matching_content(a: ngx_str_t, b: ngx_str_t)
    requires
        a.wf(),
        b.wf(),
        a.len == b.len,
        a.prefix() == b.prefix(),
        a.buf().len() == a.len || a.buf()[a.len as int] == 0,
        b.buf().len() == b.len || b.buf()[b.len as int] == 0,
    ensures
        a.spec_eq(&b),
{
    if a.len > 0 {
        assert forall|j: int| 0 <= j < a.len implies a.buf()[j] == #[trigger] b.buf()[j] by {
            assert(a.prefix()[j] == a.buf()[j]);
            assert(b.prefix()[j] == b.buf()[j]);
            assert(a.prefix()[j] == b.prefix()[j]);
        }
        lemma_scan_agrees_up_to(a.buf(), b.buf(), a.len as int);
    }
}

/// Empty-string law: two host strings of declared length zero are equal, with
/// or without backing buffers.
pub proof fn lemma_empty_strings_equal(a: ngx_str_t, b: ngx_str_t)
    requires
        a.len == 0,
        b.len == 0,
    ensures
        a.spec_eq(&b),
{
}

} // verus!
