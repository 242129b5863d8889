use ddl::name::{Ident, Named};
use ddl::source::{ByteRange, FileId, Span, Spanned};

#[test]
/// `ByteRange` is used a lot. Ensure it doesn't grow accidentally.
fn byte_range_size() {
    assert_eq!(std::mem::size_of::<ByteRange>(), 12);
}

#[test]
/// `Span` is used a lot. Ensure it doesn't grow accidentally.
fn span_size() {
    assert_eq!(std::mem::size_of::<Span>(), 12);
}

#[test]
fn byte_range_accessors() {
    let r = ByteRange::new(FileId::new(3).unwrap(), 4, 9);
    assert_eq!(r.file_id(), FileId::new(3).unwrap());
    assert_eq!(r.start(), 4);
    assert_eq!(r.end(), 9);
}

#[test]
fn byte_range_merge_same_file_covers_both() {
    let a = ByteRange::new(FileId::new(1).unwrap(), 5, 10);
    let b = ByteRange::new(FileId::new(1).unwrap(), 2, 7);
    let m = a.merge(&b).unwrap();
    assert_eq!((m.file_id(), m.start(), m.end()), (FileId::new(1).unwrap(), 2, 10));
}

#[test]
fn byte_range_merge_other_file_is_none() {
    let a = ByteRange::new(FileId::new(1).unwrap(), 5, 10);
    let b = ByteRange::new(FileId::new(2).unwrap(), 2, 7);
    assert!(a.merge(&b).is_none());
}

#[test]
fn span_merge_cases() {
    let a = Span::Range(ByteRange::new(FileId::new(1).unwrap(), 0, 3));
    let b = Span::Range(ByteRange::new(FileId::new(1).unwrap(), 8, 12));
    assert_eq!(a.merge(&b), Span::Range(ByteRange::new(FileId::new(1).unwrap(), 0, 12)));
    assert_eq!(a.merge(&Span::Empty), Span::Empty);
    assert_eq!(Span::Empty.merge(&b), Span::Empty);
    let c = Span::Range(ByteRange::new(FileId::new(2).unwrap(), 0, 3));
    assert_eq!(a.merge(&c), Span::Empty);
}

#[test]
fn spanned_merge_widens_span() {
    let inner = Spanned::new(Span::Range(ByteRange::new(FileId::new(1).unwrap(), 6, 9)), 42u32);
    assert_eq!(*inner.inner(), 42);
    let merged = Spanned::merge(Span::Range(ByteRange::new(FileId::new(1).unwrap(), 1, 2)), inner);
    assert_eq!(merged.span(), Span::Range(ByteRange::new(FileId::new(1).unwrap(), 1, 9)));
    assert_eq!(*merged.inner(), 42);
    let empty = Spanned::empty("x");
    assert_eq!(empty.span(), Span::Empty);
}

#[test]
fn ident_and_named() {
    let id = Ident::new("alpha");
    assert_eq!(id.as_str(), "alpha");
    assert!(Ident::new("a") < Ident::new("b"));
    let n = Named::new(("x", 7u32));
    assert_eq!(*n.value(), 7);
    assert_eq!(n.0, "x");
}

#[test]
fn file_id_zero_is_refused() {
    assert!(FileId::new(0).is_none());
    assert_eq!(FileId::new(7).unwrap().get(), 7);
}
