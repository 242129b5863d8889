//! Source positions: files, byte ranges and spans.

use vstd::prelude::*;

verus! {

/// Identifies a source file by a number other than zero. The number is held
/// as a `NonZeroU32`, so that a span, which may be empty, is no larger than a
/// byte range.
#[verifier::external_body]
#[derive(Debug, Copy, PartialEq, Eq)]
pub struct FileId(std::num::NonZeroU32);

impl Clone for FileId {
    fn clone(&self) -> (r: FileId)
        ensures
            r == *self,
    {
        *self
    }
}

/// The number that identifies a file.
pub uninterp spec fn file_number(f: FileId) -> u32;

impl FileId {
    /// Relies on `NonZeroU32::new`, which holds `n` unless it is zero.
    #[verifier::external_body]
    pub fn new(n: u32) -> (r: Option<FileId>)
        ensures
            r is Some <==> n != 0,
            r matches Some(f) ==> file_number(f) == n,
    {
        std::num::NonZeroU32::new(n).map(FileId)
    }

    /// Relies on `NonZeroU32::get`, which returns the number held.
    #[verifier::external_body]
    pub fn get(&self) -> (r: u32)
        ensures
            r == file_number(*self),
            r != 0,
    {
        self.0.get()
    }
}

/// Byte offsets into source files.
pub type BytePos = u32;

/// Byte ranges in source files.
#[derive(Debug, Copy, Clone, PartialEq, Eq)]
pub struct ByteRange {
    file_id: FileId,
    start: BytePos,
    end: BytePos,
}

pub open spec fn min_u32(a: u32, b: u32) -> u32 {
    if a <= b { a } else { b }
}

pub open spec fn max_u32(a: u32, b: u32) -> u32 {
    if a >= b { a } else { b }
}

impl ByteRange {
    pub closed spec fn spec_file_id(self) -> FileId {
        self.file_id
    }

    pub closed spec fn spec_start(self) -> u32 {
        self.start
    }

    pub closed spec fn spec_end(self) -> u32 {
        self.end
    }

    pub fn new(file_id: FileId, start: BytePos, end: BytePos) -> (r: ByteRange)
        ensures
            r.spec_file_id() == file_id,
            r.spec_start() == start,
            r.spec_end() == end,
    {
        ByteRange { file_id, start, end }
    }

    pub fn file_id(&self) -> (r: FileId)
        ensures
            r == self.spec_file_id(),
    {
        self.file_id
    }

    pub fn start(&self) -> (r: BytePos)
        ensures
            r == self.spec_start(),
    {
        self.start
    }

    pub fn end(&self) -> (r: BytePos)
        ensures
            r == self.spec_end(),
    {
        self.end
    }

    /// The range that covers both ranges, in the file of `self`, or none when
    /// they lie in different files.
    pub open spec fn spec_merge(self, other: ByteRange) -> Option<ByteRange> {
        if file_number(self.spec_file_id()) == file_number(other.spec_file_id()) {
            Some(
                ByteRange::from_parts(
                    self.spec_file_id(),
                    min_u32(self.spec_start(), other.spec_start()),
                    max_u32(self.spec_end(), other.spec_end()),
                ),
            )
        } else {
            None
        }
    }

    pub closed spec fn from_parts(file_id: FileId, start: u32, end: u32) -> ByteRange {
        ByteRange { file_id, start, end }
    }

    pub fn merge(&self, other: &ByteRange) -> (r: Option<ByteRange>)
        ensures
            r == self.spec_merge(*other),
            r is Some <==> file_number(self.spec_file_id()) == file_number(other.spec_file_id()),
            r matches Some(m) ==> {
                &&& m.spec_file_id() == self.spec_file_id()
                &&& m.spec_start() == min_u32(self.spec_start(), other.spec_start())
                &&& m.spec_end() == max_u32(self.spec_end(), other.spec_end())
            },
    {
        if self.file_id.get() == other.file_id.get() {
            let start = if self.start <= other.start { self.start } else { other.start };
            let end = if self.end >= other.end { self.end } else { other.end };
            Some(ByteRange::new(self.file_id, start, end))
        } else {
            None
        }
    }
}

/// A region of source text, or no position at all.
#[derive(Debug, Copy, Clone, PartialEq, Eq)]
pub enum Span {
    Range(ByteRange),
    Empty,
}

impl Span {
    pub open spec fn spec_merge(self, other: Span) -> Span {
        match (self, other) {
            (Span::Range(a), Span::Range(b)) => match a.spec_merge(b) {
                Some(m) => Span::Range(m),
                None => Span::Empty,
            },
            _ => Span::Empty,
        }
    }

    /// The span covering both, which is empty unless both are ranges in one file.
    pub fn merge(&self, other: &Span) -> (r: Span)
        ensures
            r == self.spec_merge(*other),
            r matches Span::Range(m) ==> self matches Span::Range(a) && other matches Span::Range(b)
                && file_number(a.spec_file_id()) == file_number(b.spec_file_id()) && {
                &&& m.spec_file_id() == a.spec_file_id()
                &&& m.spec_start() == min_u32(a.spec_start(), b.spec_start())
                &&& m.spec_end() == max_u32(a.spec_end(), b.spec_end())
            },
            (self matches Span::Range(a) && other matches Span::Range(b) && file_number(
                a.spec_file_id(),
            ) == file_number(b.spec_file_id())) ==> r is Range,
    {
        match (self, other) {
            (Span::Range(a), Span::Range(b)) => match a.merge(b) {
                Some(m) => Span::Range(m),
                None => Span::Empty,
            },
            _ => Span::Empty,
        }
    }
}

/// A value paired with the span it was read from.
#[derive(Debug, Clone)]
pub struct Spanned<T> {
    span: Span,
    inner: T,
}

impl<T> Spanned<T> {
    pub closed spec fn spec_span(self) -> Span {
        self.span
    }

    pub closed spec fn spec_inner(self) -> T {
        self.inner
    }

    pub fn new(span: Span, inner: T) -> (r: Self)
        ensures
            r.spec_span() == span,
            r.spec_inner() == inner,
    {
        Spanned { span, inner }
    }

    pub fn empty(inner: T) -> (r: Self)
        ensures
            r.spec_span() == Span::Empty,
            r.spec_inner() == inner,
    {
        Spanned { span: Span::Empty, inner }
    }

    pub fn span(&self) -> (r: Span)
        ensures
            r == self.spec_span(),
    {
        self.span
    }

    pub fn inner(&self) -> (r: &T)
        ensures
            *r == self.spec_inner(),
    {
        &self.inner
    }

    /// Merge the supplied span with the span of `other` and return `other`'s value in that span.
    pub fn merge(span: Span, other: Spanned<T>) -> (r: Spanned<T>)
        ensures
            r.spec_span() == span.spec_merge(other.spec_span()),
            r.spec_inner() == other.spec_inner(),
    {
        let Spanned { span: other_span, inner } = other;
        Spanned { span: span.merge(&other_span), inner }
    }
}

} // verus!
