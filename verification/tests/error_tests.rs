use notify_backend::backend::{Error, ErrorWrap};
use notify_backend::capability::{operable, Capability};
use notify_backend::native::{
    FromBytesWithNulError, IntoStringError, IoError, IoErrorKind, NulError,
};

fn s(text: &str) -> String {
    text.to_string()
}

#[test]
fn empty_capability_set_is_inoperable() {
    let caps: Vec<Capability> = Vec::new();
    assert!(!operable(&caps));
}

#[test]
fn nonempty_capability_set_is_operable() {
    let caps = vec![Capability::WatchFile, Capability::Recursive];
    assert!(operable(&caps));
}

#[test]
fn flatten_general_yields_exactly_one_error() {
    let wrap = ErrorWrap::General(Error::NotImplemented);
    let errors = wrap.as_error_vec();
    assert_eq!(errors.len(), 1);
    assert_eq!(*errors[0], Error::NotImplemented);
}

#[test]
fn flatten_all_yields_exactly_one_error() {
    let wrap = ErrorWrap::All(Error::Generic(s("broken")));
    let errors = wrap.as_error_vec();
    assert_eq!(errors.len(), 1);
    assert_eq!(*errors[0], Error::Generic(s("broken")));
}

#[test]
fn flatten_single_yields_exactly_one_error() {
    let wrap = ErrorWrap::Single(Error::NotImplemented, vec![s("/tmp/x")]);
    let errors = wrap.as_error_vec();
    assert_eq!(errors.len(), 1);
    assert_eq!(*errors[0], Error::NotImplemented);
}

#[test]
fn flatten_multiple_yields_entry_errors_in_order() {
    let wrap = ErrorWrap::Multiple(vec![
        (Error::Generic(s("first")), vec![s("/a")]),
        (Error::NotImplemented, vec![]),
        (Error::Generic(s("third")), vec![s("/b"), s("/c")]),
    ]);
    let errors = wrap.as_error_vec();
    assert_eq!(errors.len(), 3);
    assert_eq!(*errors[0], Error::Generic(s("first")));
    assert_eq!(*errors[1], Error::NotImplemented);
    assert_eq!(*errors[2], Error::Generic(s("third")));
}

#[test]
fn not_found_io_fault_becomes_non_existent_with_empty_paths() {
    let fault = IoError::new(IoErrorKind::NotFound, s("no such file"));
    assert_eq!(Error::from_io(fault), Error::NonExistent(vec![]));
}

#[test]
fn other_io_fault_is_wrapped_verbatim() {
    let fault = IoError::new(IoErrorKind::PermissionDenied, s("denied"));
    assert_eq!(Error::from_io(fault.clone()), Error::Io(fault));
}

#[test]
fn wrap_from_io_translates_not_found() {
    let fault = IoError::new(IoErrorKind::NotFound, s("gone"));
    assert_eq!(
        ErrorWrap::from_io(fault),
        ErrorWrap::General(Error::NonExistent(vec![]))
    );
    let fault = IoError::new(IoErrorKind::TimedOut, s("slow"));
    assert_eq!(
        ErrorWrap::from_io(fault.clone()),
        ErrorWrap::General(Error::Io(fault))
    );
}

#[test]
fn unsupported_capability_preserved_in_both_forms() {
    let cap = Capability::TrackRename;
    assert_eq!(Error::from(cap), Error::NotSupported(cap));
    assert_eq!(
        ErrorWrap::from(cap),
        ErrorWrap::General(Error::NotSupported(cap))
    );
}

#[test]
fn ffi_failures_convert_into_both_forms() {
    let nul = NulError::find(vec![1, 2, 0, 3]).unwrap();
    assert_eq!(nul.nul_position, 2);
    assert_eq!(Error::from(nul.clone()), Error::FfiNul(nul.clone()));
    assert_eq!(
        ErrorWrap::from(nul.clone()),
        ErrorWrap::General(Error::FfiNul(nul))
    );

    let utf8 = IntoStringError {
        bytes: vec![0x66, 0xff],
        valid_up_to: 1,
    };
    assert_eq!(Error::from(utf8.clone()), Error::FfiIntoString(utf8.clone()));
    assert_eq!(
        ErrorWrap::from(utf8.clone()),
        ErrorWrap::General(Error::FfiIntoString(utf8))
    );

    let buf = FromBytesWithNulError::NotNulTerminated;
    assert_eq!(Error::from(buf), Error::FfiFromBytes(buf));
    assert_eq!(
        ErrorWrap::from(buf),
        ErrorWrap::General(Error::FfiFromBytes(buf))
    );
}

#[test]
fn buffer_classification_reports_the_malformation() {
    assert_eq!(FromBytesWithNulError::classify(&vec![104, 105, 0]), None);
    assert_eq!(
        FromBytesWithNulError::classify(&vec![104, 105]),
        Some(FromBytesWithNulError::NotNulTerminated)
    );
    assert_eq!(
        FromBytesWithNulError::classify(&vec![104, 0, 105, 0]),
        Some(FromBytesWithNulError::InteriorNul(1))
    );
    assert_eq!(
        FromBytesWithNulError::classify(&vec![]),
        Some(FromBytesWithNulError::NotNulTerminated)
    );
}

#[test]
fn into_string_failure_keeps_bytes_and_prefix_length() {
    let err = IntoStringError::new(vec![0x66, 0xff], 1);
    assert_eq!(err.bytes, vec![0x66, 0xff]);
    assert_eq!(err.valid_up_to, 1);
}

#[test]
fn contract_version_is_the_published_revision() {
    assert_eq!(notify_backend::backend::contract_version(), s("1.0.0"));
}

#[test]
fn nul_scan_finds_first_nul_only() {
    assert_eq!(NulError::find(vec![7, 8, 9]), None);
    let found = NulError::find(vec![7, 0, 0, 9]).unwrap();
    assert_eq!(found.nul_position, 1);
    assert_eq!(found.bytes, vec![7, 0, 0, 9]);
}

#[test]
fn plain_error_wraps_as_general() {
    let wrap: ErrorWrap = Error::Unavailable(None).into();
    assert_eq!(wrap, ErrorWrap::General(Error::Unavailable(None)));
}

#[test]
fn single_failing_path_leaves_the_others_to_retry() {
    let requested = vec![s("/watch/a"), s("/watch/b"), s("/watch/c")];
    let wrap = ErrorWrap::Single(Error::Generic(s("cannot watch")), vec![s("/watch/b")]);
    assert!(wrap.affected(&s("/watch/b")));
    assert!(!wrap.affected(&s("/watch/a")));
    let retry = wrap.likely_retry_set(&requested);
    assert_eq!(retry, vec![s("/watch/a"), s("/watch/c")]);
}

#[test]
fn general_unavailable_leaves_the_full_input_to_retry() {
    let requested = vec![s("/watch/a"), s("/watch/b")];
    let wrap = ErrorWrap::General(Error::Unavailable(Some(s("reason"))));
    let retry = wrap.likely_retry_set(&requested);
    assert_eq!(retry, requested);
}

#[test]
fn all_error_leaves_nothing_to_retry() {
    let requested = vec![s("/watch/a"), s("/watch/b")];
    let wrap = ErrorWrap::All(Error::NotImplemented);
    let retry = wrap.likely_retry_set(&requested);
    assert!(retry.is_empty());
}

#[test]
fn multiple_subsets_are_all_subtracted() {
    let requested = vec![s("/a"), s("/b"), s("/c"), s("/d")];
    let wrap = ErrorWrap::Multiple(vec![
        (Error::Generic(s("one")), vec![s("/b")]),
        (Error::NotImplemented, vec![]),
        (Error::Generic(s("two")), vec![s("/d"), s("/b")]),
    ]);
    let retry = wrap.likely_retry_set(&requested);
    assert_eq!(retry, vec![s("/a"), s("/c")]);
}
