//! The `Bytes` value: a byte sequence that is either a borrowed view into
//! memory owned by another party or a heap buffer owned by the value itself.
//!
//! The two variants let one type hand out freshly computed byte data as well
//! as references into existing memory, with equality, ordering and hashing
//! always computed over the byte content, never over addresses. Lengths are
//! capped at `u32::MAX` so that the length always fits a 32-bit field; a
//! manually packed two-word layout is not expressible in safe code, so the
//! representation here is a plain tagged variant type and the two-word
//! footprint goal is best-effort.

use vstd::prelude::*;

verus! {

use vstd::string::StringSliceAdditionalSpecFns;
use vstd::std_specs::cmp::PartialEqSpec;
use vstd::std_specs::cmp::PartialOrdSpec;
use vstd::std_specs::hash::DefaultHasherAdditionalSpecFns;
use std::hash::Hasher;

/// The storage of a [`Bytes`] value: a borrowed slice or an owned buffer.
enum BytesStorage<'a> {
    /// A view into memory owned by another party; never released here.
    Borrowed(&'a [u8]),
    /// A buffer exclusively owned, and released, by this value.
    Owned(Vec<u8>),
}

/// A byte sequence that either borrows memory owned by another party or owns
/// a heap buffer, with all value semantics computed over the content.
pub struct Bytes<'a> {
    data: BytesStorage<'a>,
}

impl<'a> View for Bytes<'a> {
    type V = Seq<u8>;

    closed spec fn view(&self) -> Seq<u8> {
        match self.data {
            BytesStorage::Borrowed(s) => s@,
            BytesStorage::Owned(v) => v@,
        }
    }
}

impl<'a> Bytes<'a> {
    /// True when the value is a borrowed view into external memory.
    pub closed spec fn is_borrowed(&self) -> bool {
        self.data is Borrowed
    }

    /// True when the value owns its buffer.
    pub open spec fn is_owned(&self) -> bool {
        !self.is_borrowed()
    }

    /// The length always fits the 32-bit length field of the design.
    pub open spec fn wf(&self) -> bool {
        self@.len() <= u32::MAX
    }

    /// Borrows external memory without copying.
    pub fn from_borrowed(s: &'a [u8]) -> (r: Self)
        requires
            s@.len() <= u32::MAX,
        ensures
            r@ == s@,
            r.is_borrowed(),
            r.wf(),
    {
        Bytes { data: BytesStorage::Borrowed(s) }
    }

    /// Borrows the bytes of an externally owned string without copying.
    pub fn from_borrowed_str(s: &'a str) -> (r: Self)
        requires
            s.spec_bytes().len() <= u32::MAX,
        ensures
            r@ == s.spec_bytes(),
            r.is_borrowed(),
            r.wf(),
    {
        Bytes { data: BytesStorage::Borrowed(s.as_bytes()) }
    }

    /// Returns the byte content, whichever variant holds it.
    pub fn as_bytes(&self) -> (r: &[u8])
        ensures
            r@ == self@,
    {
        match &self.data {
            BytesStorage::Borrowed(s) => s,
            BytesStorage::Owned(v) => v.as_slice(),
        }
    }

    /// Returns the byte content with the externally bounded lifetime: a view
    /// for borrowed values, nothing for owned ones, whose buffer cannot
    /// outlive this value.
    pub fn as_bytes_borrowed(&self) -> (r: Option<&'a [u8]>)
        ensures
            r is Some <==> self.is_borrowed(),
            r matches Some(s) ==> s@ == self@,
    {
        match &self.data {
            BytesStorage::Borrowed(s) => Some(s),
            BytesStorage::Owned(_) => None,
        }
    }

    /// Replaces the whole content by adopting `data` as an owned buffer.
    ///
    /// Fails with [`SetBytesError::LengthOverflow`], and leaves the value
    /// untouched, exactly when the new content is longer than `u32::MAX`.
    pub fn set(&mut self, data: Vec<u8>) -> (r: Result<(), SetBytesError>)
        requires
            old(self).wf(),
        ensures
            r is Ok <==> data@.len() <= u32::MAX,
            r is Ok ==> final(self)@ == data@ && final(self).is_owned(),
            r is Err ==> *final(self) == *old(self) && r == Err::<(), SetBytesError>(
                SetBytesError::LengthOverflow,
            ),
            final(self).wf(),
    {
        if data.len() > u32::MAX as usize {
            return Err(SetBytesError::LengthOverflow);
        }
        self.set_unchecked(data);
        Ok(())
    }

    /// Replaces the whole content by adopting `data` as an owned buffer; the
    /// caller must already know that the length fits the 32-bit field.
    pub fn set_unchecked(&mut self, data: Vec<u8>)
        requires
            data@.len() <= u32::MAX,
        ensures
            final(self)@ == data@,
            final(self).is_owned(),
            final(self).wf(),
    {
        self.data = BytesStorage::Owned(data);
    }
}

/// The characters that lossy UTF-8 decoding yields for a byte sequence:
/// well-formed sequences decode as themselves, malformed ones have each
/// invalid part replaced.
pub uninterp spec fn utf8_lossy_of(b: Seq<u8>) -> Seq<char>;

/// Relies on `String::from_utf8_lossy`: the result is a function of the byte
/// content alone, valid UTF-8 is decoded without replacement, and no bytes
/// means no characters.
#[verifier::external_body]
fn utf8_lossy(b: &[u8]) -> (r: String)
    ensures
        r@ == utf8_lossy_of(b@),
        vstd::utf8::valid_utf8(b@) ==> r@ == vstd::utf8::decode_utf8(b@),
        b@.len() == 0 ==> r@.len() == 0,
{
    String::from_utf8_lossy(b).into_owned()
}

/// Relies on `<[u8]>::as_ptr` for the address of the first byte; nothing is
/// assumed of the result, which depends on where the slice lives in memory.
#[verifier::external_body]
fn slice_addr(s: &[u8]) -> usize {
    s.as_ptr() as usize
}

impl<'a> Bytes<'a> {
    /// Decodes the content as text, best-effort: invalid sequences come out
    /// as replacement characters.
    pub fn as_utf8_str(&self) -> (r: String)
        ensures
            r@ == utf8_lossy_of(self@),
            vstd::utf8::valid_utf8(self@) ==> r@ == vstd::utf8::decode_utf8(self@),
    {
        utf8_lossy(self.as_bytes())
    }

    /// Returns the raw address of the current storage: identity, which plays
    /// no part in equality, ordering or hashing.
    pub fn as_ptr(&self) -> usize {
        slice_addr(self.as_bytes())
    }

    /// Feeds the byte content, and nothing else, to the hasher.
    pub fn hash_into(&self, state: &mut std::collections::hash_map::DefaultHasher)
        ensures
            final(state)@ == old(state)@.push(self@),
    {
        state.write(self.as_bytes());
    }

    /// Returns a hash code computed over the byte content alone: values of
    /// equal content hash alike, whichever variant holds them.
    pub fn hash_code(&self) -> (r: u64)
        ensures
            r == std::collections::hash_map::DefaultHasher::spec_finish(
                Seq::<Seq<u8>>::empty().push(self@),
            ),
    {
        let mut state = std::collections::hash_map::DefaultHasher::new();
        self.hash_into(&mut state);
        state.finish()
    }
}

impl<'a> PartialEq for Bytes<'a> {
    /// Equality is computed over the byte content, never over the address or
    /// the storage variant.
    fn eq(&self, other: &Self) -> (r: bool)
    {
        let this = self.as_bytes();
        let that = other.as_bytes();
        crate::order::bytes_equal(this, that)
    }
}

impl<'a> vstd::std_specs::cmp::PartialEqSpecImpl for Bytes<'a> {
    open spec fn obeys_eq_spec() -> bool {
        true
    }

    open spec fn eq_spec(&self, other: &Self) -> bool {
        self@ == other@
    }
}

impl<'a> Eq for Bytes<'a> {}

impl<'a> PartialOrd for Bytes<'a> {
    /// Ordering is lexicographic over the byte content, never over the
    /// address or the storage variant.
    fn partial_cmp(&self, other: &Self) -> (r: Option<core::cmp::Ordering>)
    {
        let this = self.as_bytes();
        let that = other.as_bytes();
        Some(crate::order::lex_cmp_bytes(this, that))
    }
}

impl<'a> vstd::std_specs::cmp::PartialOrdSpecImpl for Bytes<'a> {
    open spec fn obeys_partial_cmp_spec() -> bool {
        true
    }

    open spec fn partial_cmp_spec(&self, other: &Self) -> Option<core::cmp::Ordering> {
        Some(crate::order::lex_cmp_spec(self@, other@))
    }
}

impl<'a> Clone for Bytes<'a> {
    /// Duplicates the value per variant: a borrowed view is repeated over the
    /// same external memory, an owned buffer is copied into a fresh
    /// allocation, so that no two live values ever own one buffer.
    fn clone(&self) -> (r: Self)
        ensures
            r@ == self@,
            r.is_borrowed() == self.is_borrowed(),
    {
        match &self.data {
            BytesStorage::Borrowed(s) => Bytes { data: BytesStorage::Borrowed(s) },
            BytesStorage::Owned(v) => Bytes {
                data: BytesStorage::Owned(vstd::slice::slice_to_vec(v.as_slice())),
            },
        }
    }
}

impl<'a> std::hash::Hash for Bytes<'a> {
    /// Relies on `<[u8] as Hash>::hash`: the content bytes, and nothing of
    /// the address or the variant, are fed to the hasher, so content-equal
    /// values hash alike. Nothing can be stated of the opaque hasher state.
    #[verifier::external_body]
    fn hash<H: std::hash::Hasher>(&self, state: &mut H) {
        self.as_bytes().hash(state);
    }
}

/// Two values are equal exactly when their byte contents are equal,
/// irrespective of the storage variant: `==` never reads the address.
pub proof fn lemma_eq_is_content_based<'a>(a: Bytes<'a>, b: Bytes<'a>)
    ensures
        a.eq_spec(&b) <==> a@ == b@,
{
}

/// Ordering is lexicographic over the byte content, and a value compares as
/// equal exactly when the contents are equal: ordering and equality agree.
pub proof fn lemma_ord_is_lexicographic<'a>(a: Bytes<'a>, b: Bytes<'a>)
    ensures
        a.partial_cmp_spec(&b) == Some(crate::order::lex_cmp_spec(a@, b@)),
        a.partial_cmp_spec(&b) == Some(core::cmp::Ordering::Equal) <==> a.eq_spec(&b),
{
    crate::order::lemma_lex_cmp_equal_iff(a@, b@);
}

/// Content-equal values produce equal hash codes, whichever variant holds
/// them: what [`Bytes::hash_code`] returns is a function of the byte content
/// alone.
pub proof fn lemma_hash_consistency<'a>(a: Bytes<'a>, b: Bytes<'a>)
    requires
        a@ == b@,
    ensures
        std::collections::hash_map::DefaultHasher::spec_finish(
            Seq::<Seq<u8>>::empty().push(a@),
        ) == std::collections::hash_map::DefaultHasher::spec_finish(
            Seq::<Seq<u8>>::empty().push(b@),
        ),
{
}

/// The error of [`Bytes::set`].
#[derive(Debug, Clone, PartialEq, Eq, PartialOrd, Ord)]
pub enum SetBytesError {
    /// The length of the given data would overflow a `u32`.
    LengthOverflow,
}

} // verus!
