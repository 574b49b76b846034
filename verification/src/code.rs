//! The mapped image of compiled code that one or more units share, and the
//! registration of its function types with the engine.

use std::ops::Range;
use std::sync::Arc;
use vstd::prelude::*;
use vstd::slice::slice_subrange;
use wasmtime_runtime::MmapVec;

verus! {

/// `wasmtime_runtime::MmapVec`, a mapping of bytes into memory. Nothing is
/// known of what is inside a value but what the items below say.
#[verifier::external_type_specification]
#[verifier::external_body]
pub struct ExMmapVec(wasmtime_runtime::MmapVec);

/// The bytes that the mapping `mmap` holds: the slice that an `MmapVec`
/// dereferences to.
pub uninterp spec fn mapped_bytes(mmap: MmapVec) -> Seq<u8>;

/// Dereferences the `MmapVec` to the slice of its bytes.
#[verifier::external_body]
fn mapped(mmap: &MmapVec) -> (r: &[u8])
    ensures
        r@ == mapped_bytes(*mmap),
{
    &mmap[..]
}

/// Calls `MmapVec::image_range` and takes the start of the range as a number:
/// the address of the first byte of the slice that the `MmapVec` dereferences
/// to. Trusted of it is what holds of every slice: its address is not zero,
/// and its bytes do not reach past the end of the address space.
#[verifier::external_body]
fn mapped_at(mmap: &MmapVec) -> (r: usize)
    ensures
        r != 0,
        r + mapped_bytes(*mmap).len() <= usize::MAX,
{
    mmap.image_range().start as usize
}

/// Whether `range` is an interval of offsets into an image of `len` bytes.
pub open spec fn range_within(range: Range<usize>, len: nat) -> bool {
    range.start <= range.end && range.end <= len
}

/// Whether an image of `len` bytes that is mapped at address `base` has the
/// two sections `text` and `info` inside it, does not start at address zero and
/// does not reach past the end of the address space.
pub open spec fn layout_valid(len: nat, base: usize, text: Range<usize>, info: Range<usize>) -> bool {
    &&& base != 0
    &&& base + len <= usize::MAX
    &&& range_within(text, len)
    &&& range_within(info, len)
}

/// An image of compiled code as it is mapped into memory: the mapping, the
/// address of its first byte, and the two sections that a component reads,
/// the text with the compiled routines and the metadata written at
/// compilation.
pub struct CodeMemory {
    mmap: MmapVec,
    base: usize,
    text: Range<usize>,
    wasmtime_info: Range<usize>,
}

impl CodeMemory {
    #[verifier::type_invariant]
    closed spec fn inv(self) -> bool {
        layout_valid(mapped_bytes(self.mmap).len(), self.base, self.text, self.wasmtime_info)
    }

    /// The bytes of the whole image.
    pub closed spec fn image(&self) -> Seq<u8> {
        mapped_bytes(self.mmap)
    }

    /// The address at which the first byte of the image is mapped.
    pub closed spec fn base(&self) -> usize {
        self.base
    }

    /// The offsets of the text section in the image.
    pub closed spec fn text_range(&self) -> Range<usize> {
        self.text
    }

    /// The offsets of the metadata section in the image.
    pub closed spec fn info_range(&self) -> Range<usize> {
        self.wasmtime_info
    }

    /// Whether the image is laid out as `layout_valid` asks. It holds of every
    /// image that `new` has made.
    pub open spec fn wf(&self) -> bool {
        layout_valid(self.image().len(), self.base(), self.text_range(), self.info_range())
    }

    /// The bytes of the text section.
    pub open spec fn text_bytes(&self) -> Seq<u8> {
        self.image().subrange(self.text_range().start as int, self.text_range().end as int)
    }

    /// The bytes of the metadata section.
    pub open spec fn info_bytes(&self) -> Seq<u8> {
        self.image().subrange(self.info_range().start as int, self.info_range().end as int)
    }

    /// The address of the first byte of the text section.
    pub open spec fn text_base(&self) -> int {
        self.base() + self.text_range().start
    }

    /// Describes the mapped image `mmap`, whose text is at the offsets `text`
    /// and whose metadata is at the offsets `wasmtime_info`. Returns `None` if
    /// and only if one of the two is no interval of offsets into the image.
    pub fn new(mmap: MmapVec, text: Range<usize>, wasmtime_info: Range<usize>) -> (r: Option<
        CodeMemory,
    >)
        ensures
            r.is_some() == (range_within(text, mapped_bytes(mmap).len()) && range_within(
                wasmtime_info,
                mapped_bytes(mmap).len(),
            )),
            r matches Some(c) ==> {
                &&& c.wf()
                &&& c.image() == mapped_bytes(mmap)
                &&& c.text_range() == text
                &&& c.info_range() == wasmtime_info
            },
    {
        let len = mapped(&mmap).len();
        let base = mapped_at(&mmap);
        if text.start <= text.end && text.end <= len && wasmtime_info.start <= wasmtime_info.end
            && wasmtime_info.end <= len {
            Some(CodeMemory { mmap, base, text, wasmtime_info })
        } else {
            None
        }
    }

    /// The bytes of the whole image.
    pub fn mmap(&self) -> (r: &[u8])
        ensures
            r@ == self.image(),
    {
        mapped(&self.mmap)
    }

    /// The text section: the compiled routines.
    pub fn text(&self) -> (r: &[u8])
        ensures
            r@ == self.text_bytes(),
            self.wf(),
    {
        proof {
            use_type_invariant(self);
        }
        slice_subrange(mapped(&self.mmap), self.text.start, self.text.end)
    }

    /// The metadata section: what compilation wrote down about the code.
    pub fn wasmtime_info(&self) -> (r: &[u8])
        ensures
            r@ == self.info_bytes(),
            self.wf(),
    {
        proof {
            use_type_invariant(self);
        }
        slice_subrange(mapped(&self.mmap), self.wasmtime_info.start, self.wasmtime_info.end)
    }

    /// The addresses that the image takes, from its first byte to just past
    /// its last one.
    pub fn image_range(&self) -> (r: Range<usize>)
        ensures
            r.start == self.base(),
            r.end == self.base() + self.image().len(),
            r.start != 0,
            self.wf(),
    {
        proof {
            use_type_invariant(self);
        }
        self.base..(self.base + mapped(&self.mmap).len())
    }

    /// The address of the first byte of the text section.
    pub fn text_address(&self) -> (r: usize)
        ensures
            r == self.text_base(),
            r != 0,
            self.wf(),
    {
        proof {
            use_type_invariant(self);
        }
        self.base + self.text.start
    }

    /// The number of bytes in the text section.
    pub fn text_len(&self) -> (r: usize)
        ensures
            r == self.text_bytes().len(),
            self.wf(),
    {
        proof {
            use_type_invariant(self);
        }
        self.text.end - self.text.start
    }
}

/// The registration of one compilation's function types with an engine.
#[derive(Clone, Copy, Debug, PartialEq, Eq, Structural)]
pub struct TypeCollection {
    /// The number that the engine gave to this registration.
    pub registration: u64,
}

/// What the units that come out of one compilation share: the mapped code and
/// the registration of its function types.
pub struct CodeObject {
    code_memory: Arc<CodeMemory>,
    signatures: TypeCollection,
}

impl CodeObject {
    /// The mapped code.
    pub closed spec fn memory(&self) -> CodeMemory {
        *self.code_memory
    }

    /// The registration of the function types.
    pub closed spec fn registration(&self) -> TypeCollection {
        self.signatures
    }

    /// Puts mapped code and a registration together.
    pub fn new(code_memory: Arc<CodeMemory>, signatures: TypeCollection) -> (r: CodeObject)
        ensures
            r.memory() == *code_memory,
            r.registration() == signatures,
    {
        CodeObject { code_memory, signatures }
    }

    /// The mapped code.
    pub fn code_memory(&self) -> (r: &Arc<CodeMemory>)
        ensures
            **r == self.memory(),
    {
        &self.code_memory
    }

    /// The registration of the function types.
    pub fn signatures(&self) -> (r: &TypeCollection)
        ensures
            *r == self.registration(),
    {
        &self.signatures
    }
}

} // verus!
