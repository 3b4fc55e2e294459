//! Validated views of blob bytes and the owned buffer that grows them.
use crate::error::Error;
use crate::ffi::wrap_unit;
use vstd::prelude::*;
use vstd::slice::slice_subrange;
use vstd::slice::slice_to_vec;

verus! {

/// The number of leading bytes that must be present before a header can be
/// asked for the size it declares.
pub const FDT_V1_SIZE: usize = 28;

/// `len` bytes whose header declares `declared` bytes are a blob: the header
/// is whole and declares no more than is there.
pub open spec fn accepted(len: nat, declared: int) -> bool {
    FDT_V1_SIZE <= len && 0 <= declared <= len
}

/// The header is whole, but the size it declares is no size at all.
pub open spec fn unrepresentable(len: nat, declared: int) -> bool {
    FDT_V1_SIZE <= len && declared < 0
}

/// The bytes are too few for a header, or the header declares more bytes
/// than are there.
pub open spec fn rejected(len: nat, declared: int) -> bool {
    len < FDT_V1_SIZE || (0 <= declared && declared > len)
}

/// A buffer of `cap` bytes can be named to the native layer, whose sizes
/// are 32-bit signed integers.
pub open spec fn capacity_fits(cap: int) -> bool {
    cap <= i32::MAX
}

/// The native layer was asked for `cap` bytes and answered with `status`,
/// with storage of `len` bytes whose header declares `declared`: all is in
/// order, and the storage is a blob.
pub open spec fn opened(cap: int, status: i32, len: nat, declared: int) -> bool {
    capacity_fits(cap) && status == 0 && len == cap && accepted(len, declared)
}

/// The capacity could be named, and the native layer reported an error.
pub open spec fn open_refused(cap: int, status: i32) -> bool {
    capacity_fits(cap) && status != 0
}

/// The capacity cannot be named to the native layer, or the size that the
/// materialized header declares is no size at all.
pub open spec fn open_unrepresentable(cap: int, status: i32, len: nat, declared: int) -> bool {
    !capacity_fits(cap) || (status == 0 && len == cap && unrepresentable(len, declared))
}

/// The native layer reported success, but the storage is not of the
/// capacity asked for or fails validation.
pub open spec fn open_invalid(cap: int, status: i32, len: nat, declared: int) -> bool {
    capacity_fits(cap) && status == 0 && (len != cap || rejected(len, declared))
}

/// Validation has exactly one outcome for every input.
pub proof fn lemma_validation_outcomes(len: nat, declared: int)
    ensures
        accepted(len, declared) || unrepresentable(len, declared) || rejected(len, declared),
        !(accepted(len, declared) && unrepresentable(len, declared)),
        !(accepted(len, declared) && rejected(len, declared)),
        !(unrepresentable(len, declared) && rejected(len, declared)),
{
}

/// Bytes too few for a header are rejected, whatever size is claimed for
/// them.
pub proof fn lemma_short_input_rejected(len: nat, declared: int)
    requires
        len < FDT_V1_SIZE,
    ensures
        rejected(len, declared),
        !accepted(len, declared),
        !unrepresentable(len, declared),
{
}

/// A header that declares more bytes than are present is rejected. One
/// that is whole and declares a size within the bytes is accepted.
pub proof fn lemma_inflated_claim_rejected(len: nat, declared: int)
    ensures
        declared > len ==> rejected(len, declared) && !accepted(len, declared),
        FDT_V1_SIZE <= len && 0 <= declared <= len ==> accepted(len, declared) && !rejected(
            len,
            declared,
        ),
{
}

/// Taking over a materialized buffer has exactly one outcome for every
/// input.
pub proof fn lemma_open_outcomes(cap: int, status: i32, len: nat, declared: int)
    ensures
        opened(cap, status, len, declared) || open_refused(cap, status) || open_unrepresentable(
            cap,
            status,
            len,
            declared,
        ) || open_invalid(cap, status, len, declared),
        !(opened(cap, status, len, declared) && open_refused(cap, status)),
        !(opened(cap, status, len, declared) && open_unrepresentable(cap, status, len, declared)),
        !(opened(cap, status, len, declared) && open_invalid(cap, status, len, declared)),
        !(open_refused(cap, status) && open_unrepresentable(cap, status, len, declared)),
        !(open_refused(cap, status) && open_invalid(cap, status, len, declared)),
        !(open_unrepresentable(cap, status, len, declared) && open_invalid(
            cap,
            status,
            len,
            declared,
        )),
{
}

/// Where the native layer reports a failure, nothing is taken over,
/// whatever storage comes with the report.
pub proof fn lemma_failed_materialize_not_opened(cap: int, status: i32, len: nat, declared: int)
    requires
        status != 0,
    ensures
        !opened(cap, status, len, declared),
        !open_invalid(cap, status, len, declared),
        open_refused(cap, status) || open_unrepresentable(cap, status, len, declared),
{
}

/// A blob of `declared` bytes within `len` borrowed bytes may be shown to
/// the native layer: it lies within the bytes and holds a whole header.
pub open spec fn presentable(len: nat, declared: nat) -> bool {
    FDT_V1_SIZE <= declared <= len
}

/// Says whether `data` is long enough for its header to be read. Only then
/// may the native layer be asked for the size the header declares.
pub fn has_header(data: &[u8]) -> (b: bool)
    ensures
        b == (data@.len() >= FDT_V1_SIZE),
{
    data.len() >= FDT_V1_SIZE
}

/// Reads the size that a header declares as a length: the value itself,
/// unless it is negative and so no length at all.
pub fn declared_len(declared: i32) -> (r: Result<usize, Error>)
    ensures
        declared >= 0 ==> (r matches Ok(len) && len == declared),
        declared < 0 ==> r matches Err(Error::TryFromInt(_)),
{
    match usize::try_from(declared) {
        Ok(len) => Ok(len),
        Err(e) => Err(Error::from(e)),
    }
}

/// Decides whether `data` may be treated as a blob, given the size that its
/// header declares. `declared` is looked at only where `has_header(data)`.
pub fn validate_bytes<'a>(data: &'a [u8], declared: i32) -> (r: Result<&'a [u8], Error>)
    ensures
        accepted(data@.len(), declared as int) ==> (r matches Ok(bytes) && bytes@ == data@),
        unrepresentable(data@.len(), declared as int) ==> r matches Err(Error::TryFromInt(_)),
        rejected(data@.len(), declared as int) ==> r matches Err(Error::Invalid),
{
    if !has_header(data) {
        return Err(Error::Invalid);
    }
    match declared_len(declared) {
        Err(e) => Err(e),
        Ok(len) => {
            if len <= data.len() {
                Ok(data)
            } else {
                Err(Error::Invalid)
            }
        },
    }
}

/// A shared view of blob bytes: the bytes it borrows, and the size that
/// their header declared when the view was made.
///
/// A view is well formed when the declared size is within the borrowed
/// bytes. Every view that validation hands out is; one made without
/// validation is only if its maker saw to it.
#[derive(Debug, Clone, Copy)]
pub struct Fdt<'a> {
    data: &'a [u8],
    size: usize,
}

impl<'a> View for Fdt<'a> {
    type V = Seq<u8>;

    /// The blob itself: the declared size's worth of the borrowed bytes.
    open spec fn view(&self) -> Seq<u8> {
        self.backing().take(self.declared() as int)
    }
}

impl<'a> Fdt<'a> {
    /// All the bytes that the view borrows.
    pub closed spec fn backing(&self) -> Seq<u8> {
        self.data@
    }

    /// The size that the header declared.
    pub closed spec fn declared(&self) -> nat {
        self.size as nat
    }

    /// The declared size is within the borrowed bytes.
    pub open spec fn wf(&self) -> bool {
        self.declared() <= self.backing().len()
    }

    /// Validates `data` against the size its header declares and, where it
    /// passes, views it as a blob. The bytes are borrowed, not copied.
    pub fn from_bytes(data: &'a [u8], declared: i32) -> (r: Result<Fdt<'a>, Error>)
        ensures
            accepted(data@.len(), declared as int) ==> (r matches Ok(fdt) && fdt.backing() == data@
                && fdt.declared() == declared && fdt.wf()),
            unrepresentable(data@.len(), declared as int) ==> r matches Err(Error::TryFromInt(_)),
            rejected(data@.len(), declared as int) ==> r matches Err(Error::Invalid),
    {
        match validate_bytes(data, declared) {
            Err(e) => Err(e),
            Ok(bytes) => {
                let size = declared as usize;
                Ok(Self::from_bytes_unchecked(bytes, size))
            },
        }
    }

    /// Validates `data` as `from_bytes` does and, where it passes, views it
    /// as a blob that can be written to.
    pub fn from_bytes_mut(data: &'a mut [u8], declared: i32) -> (r: Result<FdtMut<'a>, Error>)
        ensures
            accepted(old(data)@.len(), declared as int) ==> (r matches Ok(fdt) && fdt.backing() == old(
                data,
            )@ && fdt.declared() == declared && fdt.wf()),
            unrepresentable(old(data)@.len(), declared as int) ==> r matches Err(
                Error::TryFromInt(_),
            ),
            rejected(old(data)@.len(), declared as int) ==> r matches Err(Error::Invalid),
            r matches Ok(fdt) ==> final(data)@ == final(fdt.data)@,
            r is Err ==> final(data)@ == old(data)@,
    {
        match validate_bytes(&*data, declared) {
            Err(e) => Err(e),
            Ok(_) => {
                let size = declared as usize;
                Ok(Self::from_bytes_mut_unchecked(data, size))
            },
        }
    }

    /// Views `data` as a writable blob of `declared` bytes without
    /// validating anything, on the same terms as `from_bytes_unchecked`.
    pub fn from_bytes_mut_unchecked(data: &'a mut [u8], declared: usize) -> (fdt: FdtMut<'a>)
        ensures
            fdt.backing() == old(data)@,
            fdt.declared() == declared,
            final(data)@ == final(fdt.data)@,
    {
        FdtMut { data, size: declared }
    }

    /// Views `data` as a blob of `declared` bytes without validating
    /// anything. The view is well formed only if `declared` is within
    /// `data`; whoever calls this answers for that.
    pub fn from_bytes_unchecked(data: &'a [u8], declared: usize) -> (fdt: Fdt<'a>)
        ensures
            fdt.backing() == data@,
            fdt.declared() == declared,
    {
        Fdt { data, size: declared }
    }

    /// Says whether the view is well formed. A caller that cannot prove it
    /// asks here before reading the bytes.
    pub fn well_formed(&self) -> (b: bool)
        ensures
            b == self.wf(),
    {
        self.size <= self.data.len()
    }

    /// The blob's bytes: as many as the header declared, however many more
    /// the view borrows.
    pub fn as_bytes(&self) -> (bytes: &'a [u8])
        requires
            self.wf(),
        ensures
            bytes@ == self@,
    {
        slice_subrange(self.data, 0, self.size)
    }

    /// The blob's bytes for the native layer, which reads a header wherever
    /// it is pointed: they are handed out only where the view is well
    /// formed and the blob holds a whole header.
    pub fn native_bytes(&self) -> (r: Result<&'a [u8], Error>)
        ensures
            presentable(self.backing().len(), self.declared()) ==> (r matches Ok(bytes) && bytes@
                == self@),
            !presentable(self.backing().len(), self.declared()) ==> r matches Err(Error::Invalid),
    {
        if self.size < FDT_V1_SIZE || !self.well_formed() {
            return Err(Error::Invalid);
        }
        Ok(self.as_bytes())
    }

    /// The size that the header declared.
    pub fn len(&self) -> (n: usize)
        ensures
            n == self.declared(),
    {
        self.size
    }

    /// Copies the blob into a buffer of its own.
    pub fn to_owned(&self) -> (buf: FdtBuf)
        requires
            self.wf(),
        ensures
            buf.backing() == self@,
            buf.declared() == self.declared(),
            buf@ == self@,
            buf.wf(),
    {
        FdtBuf::from_fdt(self)
    }
}

/// An exclusive view of blob bytes: the bytes it borrows, and the size that
/// their header declared when the view was made.
///
/// Writing through the view does not change the size it goes by. Where
/// the header has been rewritten, `revalidate` takes up the new size.
///
/// The fields are open so that contracts can say how the borrowed bytes
/// stand once the view is given up. Set them through the constructors.
#[derive(Debug)]
pub struct FdtMut<'a> {
    /// All the bytes that the view borrows.
    pub data: &'a mut [u8],
    /// The size that the header declared.
    pub size: usize,
}

impl<'a> View for FdtMut<'a> {
    type V = Seq<u8>;

    /// The blob itself: the declared size's worth of the borrowed bytes.
    open spec fn view(&self) -> Seq<u8> {
        self.backing().take(self.declared() as int)
    }
}

impl<'a> FdtMut<'a> {
    /// All the bytes that the view borrows.
    pub open spec fn backing(&self) -> Seq<u8> {
        self.data@
    }

    /// The size that the header declared.
    pub open spec fn declared(&self) -> nat {
        self.size as nat
    }

    /// The declared size is within the borrowed bytes.
    pub open spec fn wf(&self) -> bool {
        self.declared() <= self.backing().len()
    }

    /// The same blob as a shared view.
    pub fn as_fdt(&self) -> (fdt: Fdt<'_>)
        ensures
            fdt.backing() == self.backing(),
            fdt.declared() == self.declared(),
    {
        Fdt { data: &*self.data, size: self.size }
    }

    /// Takes up the size that the header declares now, after the bytes
    /// were written to: validates the borrowed bytes against `declared`
    /// as `from_bytes` does. Where that fails, the view goes on by the size
    /// it had. The bytes are not touched either way.
    pub fn revalidate(&mut self, declared: i32) -> (r: Result<(), Error>)
        ensures
            accepted(old(self).backing().len(), declared as int) ==> (r is Ok && final(self).declared() == declared && final(self).wf()),
            unrepresentable(old(self).backing().len(), declared as int) ==> r matches Err(
                Error::TryFromInt(_),
            ),
            rejected(old(self).backing().len(), declared as int) ==> r matches Err(Error::Invalid),
            r is Err ==> final(self).declared() == old(self).declared(),
            final(self).backing() == old(self).backing(),
            final(final(self).data)@ == final(old(self).data)@,
    {
        match validate_bytes(&*self.data, declared) {
            Err(e) => Err(e),
            Ok(_) => {
                self.size = declared as usize;
                Ok(())
            },
        }
    }

    /// The blob's bytes for the native layer, open to writing, on the terms
    /// of `Fdt::native_bytes`. Where they are refused, the view is as it
    /// was.
    pub fn native_bytes_mut(&mut self) -> (r: Result<&mut [u8], Error>)
        ensures
            presentable(old(self).backing().len(), old(self).declared()) ==> (r matches Ok(bytes)
                && bytes@ == old(self)@ && final(self).backing() == final(bytes)@ + old(self).backing().skip(old(self).declared() as int)),
            !presentable(old(self).backing().len(), old(self).declared()) ==> (r matches Err(
                Error::Invalid,
            ) && final(self).backing() == old(self).backing()),
            final(self).declared() == old(self).declared(),
            final(final(self).data)@ == final(old(self).data)@,
    {
        if self.size < FDT_V1_SIZE || self.size > self.data.len() {
            return Err(Error::Invalid);
        }
        Ok(self.as_bytes_mut())
    }

    /// The blob's bytes, open to writing: as many as the header declared.
    /// What lies behind them in the borrowed bytes cannot be reached and
    /// stays as it is.
    pub fn as_bytes_mut(&mut self) -> (bytes: &mut [u8])
        requires
            old(self).wf(),
        ensures
            bytes@ == old(self)@,
            final(self).declared() == old(self).declared(),
            final(self).backing() == final(bytes)@ + old(self).backing().skip(
                old(self).declared() as int,
            ),
            final(final(self).data)@ == final(old(self).data)@,
    {
        let (blob, _) = self.data.split_at_mut(self.size);
        blob
    }
}

/// A blob in storage of its own: the bytes of the storage, and the size
/// that their header declared when the buffer was made or last
/// revalidated.
///
/// Every buffer that this module makes is well formed: the declared size is
/// within the storage.
#[derive(Debug)]
pub struct FdtBuf {
    inner: Vec<u8>,
    size: usize,
}

impl View for FdtBuf {
    type V = Seq<u8>;

    /// The blob itself: the declared size's worth of the storage.
    open spec fn view(&self) -> Seq<u8> {
        self.backing().take(self.declared() as int)
    }
}

impl Clone for FdtBuf {
    fn clone(&self) -> (buf: Self)
        ensures
            buf.backing() == self.backing(),
            buf.declared() == self.declared(),
    {
        FdtBuf { inner: self.inner.clone(), size: self.size }
    }
}

impl FdtBuf {
    /// All the bytes of the storage.
    pub closed spec fn backing(&self) -> Seq<u8> {
        self.inner@
    }

    /// The size that the header declared.
    pub closed spec fn declared(&self) -> nat {
        self.size as nat
    }

    /// The declared size is within the storage.
    pub open spec fn wf(&self) -> bool {
        self.declared() <= self.backing().len()
    }

    /// Copies the blob that `fdt` views, byte for byte, into storage of
    /// exactly its size.
    pub fn from_fdt(fdt: &Fdt) -> (buf: FdtBuf)
        requires
            fdt.wf(),
        ensures
            buf.backing() == fdt@,
            buf.declared() == fdt.declared(),
            buf@ == fdt@,
            buf.wf(),
    {
        let inner = slice_to_vec(fdt.as_bytes());
        FdtBuf { inner, size: fdt.len() }
    }

    /// Says which capacity to name to the native layer when a buffer of
    /// `cap` bytes is to be filled: `cap` itself, if the native size type
    /// can hold it.
    pub fn native_capacity(cap: usize) -> (r: Result<i32, Error>)
        ensures
            capacity_fits(cap as int) ==> (r matches Ok(n) && n == cap),
            !capacity_fits(cap as int) ==> r matches Err(Error::TryFromInt(_)),
    {
        match i32::try_from(cap) {
            Ok(n) => Ok(n),
            Err(e) => Err(Error::from(e)),
        }
    }

    /// Says how many bytes a buffer must hold to grow this one by
    /// `additional` bytes beyond its declared size: their sum, if the
    /// native size type can hold it.
    pub fn grown_capacity(&self, additional: usize) -> (r: Result<usize, Error>)
        ensures
            capacity_fits(self.declared() + additional) ==> (r matches Ok(cap) && cap
                == self.declared() + additional),
            !capacity_fits(self.declared() + additional) ==> r matches Err(Error::TryFromInt(_)),
    {
        let wide: u128 = self.size as u128 + additional as u128;
        match i32::try_from(wide) {
            Err(e) => Err(Error::from(e)),
            Ok(_) => Ok(wide as usize),
        }
    }

    /// Takes over what the native layer materialized when asked to open a
    /// blob into `cap` bytes: `status` is what it returned, `storage` the
    /// bytes it was given to fill, `declared` the size that their header
    /// declares now.
    ///
    /// The storage becomes a buffer only if the capacity could be named to
    /// the native layer, the status is success, the storage is `cap` bytes
    /// long and it passes validation.
    pub fn from_fdt_capacity(cap: usize, status: i32, storage: Vec<u8>, declared: i32) -> (r:
        Result<FdtBuf, Error>)
        ensures
            opened(cap as int, status, storage@.len(), declared as int) ==> (r matches Ok(buf)
                && buf.backing() == storage@ && buf.declared() == declared && buf.wf()),
            open_refused(cap as int, status) ==> r == Err::<FdtBuf, Error>(Error::Raw(status)),
            open_unrepresentable(cap as int, status, storage@.len(), declared as int)
                ==> r matches Err(Error::TryFromInt(_)),
            open_invalid(cap as int, status, storage@.len(), declared as int) ==> r matches Err(
                Error::Invalid,
            ),
    {
        match Self::native_capacity(cap) {
            Err(e) => { return Err(e); },
            Ok(_) => {},
        }
        match wrap_unit(status) {
            Err(e) => { return Err(e); },
            Ok(()) => {},
        }
        if storage.len() != cap {
            return Err(Error::Invalid);
        }
        match validate_bytes(storage.as_slice(), declared) {
            Err(e) => Err(e),
            Ok(_) => {
                let size = declared as usize;
                Ok(FdtBuf { inner: storage, size })
            },
        }
    }

    /// Grows the buffer by `additional` bytes beyond its declared size, by
    /// replacing it with what the native layer materialized into storage
    /// of that capacity (see `from_fdt_capacity`).
    ///
    /// The buffer is replaced only when the new one stands; on every error
    /// it is left as it was.
    pub fn reserve(&mut self, additional: usize, status: i32, storage: Vec<u8>, declared: i32) -> (r:
        Result<(), Error>)
        ensures
            old(self).wf() ==> final(self).wf(),
            opened(
                old(self).declared() + additional,
                status,
                storage@.len(),
                declared as int,
            ) ==> (r is Ok && final(self).backing() == storage@ && final(self).declared()
                == declared),
            open_refused(old(self).declared() + additional, status) ==> r == Err::<(), Error>(
                Error::Raw(status),
            ),
            open_unrepresentable(
                old(self).declared() + additional,
                status,
                storage@.len(),
                declared as int,
            ) ==> r matches Err(Error::TryFromInt(_)),
            open_invalid(
                old(self).declared() + additional,
                status,
                storage@.len(),
                declared as int,
            ) ==> r matches Err(Error::Invalid),
            r is Ok ==> final(self).backing().len() == old(self).declared() + additional,
            r is Err ==> *final(self) == *old(self),
            status != 0 ==> r is Err,
    {
        match self.grown_capacity(additional) {
            Err(e) => Err(e),
            Ok(cap) => match Self::from_fdt_capacity(cap, status, storage, declared) {
                Err(e) => Err(e),
                Ok(new) => {
                    *self = new;
                    Ok(())
                },
            },
        }
    }

    /// Takes up the size that the header declares now, after the storage
    /// was written to: validates the storage against `declared` as
    /// `Fdt::from_bytes` does. Where that fails, the buffer is as it was.
    pub fn revalidate(&mut self, declared: i32) -> (r: Result<(), Error>)
        ensures
            accepted(old(self).backing().len(), declared as int) ==> (r is Ok && final(self).declared() == declared && final(self).wf()),
            unrepresentable(old(self).backing().len(), declared as int) ==> r matches Err(
                Error::TryFromInt(_),
            ),
            rejected(old(self).backing().len(), declared as int) ==> r matches Err(Error::Invalid),
            r is Err ==> *final(self) == *old(self),
            final(self).backing() == old(self).backing(),
    {
        match validate_bytes(self.inner.as_slice(), declared) {
            Err(e) => Err(e),
            Ok(_) => {
                self.size = declared as usize;
                Ok(())
            },
        }
    }

    /// Views the buffer as a blob.
    pub fn borrow(&self) -> (fdt: Fdt<'_>)
        ensures
            fdt.backing() == self.backing(),
            fdt.declared() == self.declared(),
            fdt@ == self@,
    {
        Fdt::from_bytes_unchecked(self.inner.as_slice(), self.size)
    }

    /// Views the buffer as a blob that can be written to.
    pub fn borrow_mut(&mut self) -> (fdt: FdtMut<'_>)
        ensures
            fdt.backing() == old(self).backing(),
            fdt.declared() == old(self).declared(),
            fdt@ == old(self)@,
            final(self).declared() == old(self).declared(),
            final(self).backing() == final(fdt.data)@,
    {
        let size = self.size;
        Fdt::from_bytes_mut_unchecked(self.inner.as_mut_slice(), size)
    }

    /// Gives up the storage.
    pub fn into_inner(self) -> (bytes: Vec<u8>)
        ensures
            bytes@ == self.backing(),
    {
        self.inner
    }
}

/// A copy of a blob reads back as the blob: for a well-formed view `fdt`,
/// the buffer `buf` that holds its copy and the view `back` borrowed from
/// that buffer, `back` is well formed and its bytes are those of `fdt`.
pub proof fn lemma_copy_round_trip(fdt: Fdt, buf: FdtBuf, back: Fdt)
    requires
        fdt.wf(),
        buf.backing() == fdt@,
        buf.declared() == fdt.declared(),
        back.backing() == buf.backing(),
        back.declared() == buf.declared(),
    ensures
        buf.wf(),
        back.wf(),
        buf@ == fdt@,
        back@ == fdt@,
        back@.len() == fdt.declared(),
{
}

/// Growing makes room without changing the blob's length, where the
/// materialized copy declares what the buffer declared. Take a buffer
/// `before` of declared size `l`, grown by `n` into `after`: `storage` was
/// taken over, and its header declares `l` again. Then `after` is well
/// formed, its storage holds `l + n` bytes, and its blob is `l` bytes long.
pub proof fn lemma_reserve_keeps_declared_size(
    before: FdtBuf,
    after: FdtBuf,
    n: nat,
    status: i32,
    storage: Seq<u8>,
)
    requires
        opened((before.declared() + n) as int, status, storage.len(), before.declared() as int),
        after.backing() == storage,
        after.declared() == before.declared(),
    ensures
        after.wf(),
        after.backing().len() == before.declared() + n,
        after@.len() == before.declared(),
{
}

} // verus!
