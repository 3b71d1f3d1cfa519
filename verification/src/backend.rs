//! The `Backend` trait and related types.

use vstd::prelude::*;
use crate::capability::Capability;
use crate::native::{FromBytesWithNulError, IntoStringError, IoError, IoErrorKind, NulError};
use crate::paths::{contains_path, path_views, unique_paths};
use crate::stream;

verus! {

/// Convenient alias for the return signature of [`Backend::new`].
pub type NewResult<B> = Result<B, ErrorWrap>;

/// The revision of the backend contract this crate publishes, as
/// [`Backend::trait_version`] reports it by default.
pub fn contract_version() -> (v: String)
    ensures
        v@ == "1.0.0"@,
{
    "1.0.0".to_owned()
}

/// Any error which may occur during the initialisation of a backend.
#[derive(Clone, Debug, PartialEq, Eq)]
pub enum Error {
    /// An error represented by an arbitrary string.
    Generic(String),

    /// An I/O fault.
    Io(IoError),

    /// The backend's implementation of something is incomplete: a stubbed
    /// capability was exercised. Mostly of use while developing backends.
    NotImplemented,

    /// The backend is unavailable, likely because its upstream or native API
    /// is inoperable on this host. An optional reason may be supplied.
    Unavailable(Option<String>),

    /// One or more of the paths passed to the backend do not exist.
    ///
    /// The frontend pre-checks that paths exist, so this covers losing a data
    /// race against the filesystem: a path gone between that check and the
    /// backend's initialisation. It carries the paths reported missing when
    /// those are known, and is empty when the backend cannot tell which path
    /// was at fault.
    NonExistent(Vec<String>),

    /// Watching the given paths needs a capability this backend does not
    /// support; carries that capability.
    NotSupported(Capability),

    /// A string conversion failed on a nul byte at an FFI boundary.
    FfiNul(NulError),

    /// A string conversion back from native bytes failed on invalid UTF-8 at
    /// an FFI boundary.
    FfiIntoString(IntoStringError),

    /// A null-terminated buffer from an FFI boundary was malformed.
    FfiFromBytes(FromBytesWithNulError),
}

impl Error {
    /// Converts an I/O fault surfaced during construction.
    ///
    /// A `NotFound` fault is translated to `NonExistent` with an empty path
    /// list, covering the race between the frontend's existence check and
    /// the backend's initialisation; backends that know the failing path
    /// should build `NonExistent` themselves with it. Every other fault is
    /// wrapped verbatim.
    pub fn from_io(err: IoError) -> (r: Error)
        ensures
            err.kind == IoErrorKind::NotFound ==> (r matches Error::NonExistent(ps)
                && ps@.len() == 0),
            err.kind != IoErrorKind::NotFound ==> r == Error::Io(err),
    {
        match err.kind {
            IoErrorKind::NotFound => Error::NonExistent(Vec::new()),
            _ => Error::Io(err),
        }
    }
}

impl core::convert::From<Capability> for Error {
    /// An unsupported capability, preserved exactly.
    fn from(cap: Capability) -> (r: Self) {
        Error::NotSupported(cap)
    }
}

impl vstd::std_specs::convert::FromSpecImpl<Capability> for Error {
    open spec fn obeys_from_spec() -> bool {
        true
    }

    open spec fn from_spec(cap: Capability) -> Self {
        Error::NotSupported(cap)
    }
}

impl core::convert::From<NulError> for Error {
    /// A nul-byte conversion failure, preserved exactly.
    fn from(err: NulError) -> (r: Self) {
        Error::FfiNul(err)
    }
}

impl vstd::std_specs::convert::FromSpecImpl<NulError> for Error {
    open spec fn obeys_from_spec() -> bool {
        true
    }

    open spec fn from_spec(err: NulError) -> Self {
        Error::FfiNul(err)
    }
}

impl core::convert::From<IntoStringError> for Error {
    /// An invalid-UTF-8 conversion failure, preserved exactly.
    fn from(err: IntoStringError) -> (r: Self) {
        Error::FfiIntoString(err)
    }
}

impl vstd::std_specs::convert::FromSpecImpl<IntoStringError> for Error {
    open spec fn obeys_from_spec() -> bool {
        true
    }

    open spec fn from_spec(err: IntoStringError) -> Self {
        Error::FfiIntoString(err)
    }
}

impl core::convert::From<FromBytesWithNulError> for Error {
    /// A malformed null-terminated buffer, preserved exactly.
    fn from(err: FromBytesWithNulError) -> (r: Self) {
        Error::FfiFromBytes(err)
    }
}

impl vstd::std_specs::convert::FromSpecImpl<FromBytesWithNulError> for Error {
    open spec fn obeys_from_spec() -> bool {
        true
    }

    open spec fn from_spec(err: FromBytesWithNulError) -> Self {
        Error::FfiFromBytes(err)
    }
}

/// A composite error wrapper.
///
/// Backend construction operates on many paths at once and failure is not
/// all-or-nothing, so errors are reported together with the subset of the
/// requested paths they affect. The most specific variant applicable should
/// be chosen. In every scenario that affects subsets of paths, the working
/// assumption is that passing only the non-erroring paths again would be
/// likely — not guaranteed — to succeed.
#[derive(Clone, Debug, PartialEq, Eq)]
pub enum ErrorWrap {
    /// An error about the backend itself or in general, tied to no specific
    /// path.
    General(Error),

    /// One error affecting every path passed in.
    ///
    /// Semantically a `Single` listing all the paths; this variant avoids
    /// duplicating the full path list.
    All(Error),

    /// One error affecting only the given subset of the paths.
    Single(Error, Vec<String>),

    /// Several errors, each with the subset of paths it affects.
    ///
    /// The subsets may coincide, overlap, or be empty — an empty subset
    /// denotes a general condition reported alongside specific ones. Within
    /// any one subset, paths are expected to be unique, though that is not
    /// strictly enforced.
    Multiple(Vec<(Error, Vec<String>)>),
}

impl ErrorWrap {
    /// The errors this wrapper carries, in order, with path associations
    /// discarded.
    pub open spec fn error_seq(self) -> Seq<Error> {
        match self {
            ErrorWrap::General(err) => seq![err],
            ErrorWrap::All(err) => seq![err],
            ErrorWrap::Single(err, _) => seq![err],
            ErrorWrap::Multiple(ve) => ve@.map_values(|pr: (Error, Vec<String>)| pr.0),
        }
    }

    /// Whether this wrapper attributes an error to the given path.
    ///
    /// `General` attributes its error to no path; `All` to every path.
    pub open spec fn affects(self, path: Seq<char>) -> bool {
        match self {
            ErrorWrap::General(_) => false,
            ErrorWrap::All(_) => true,
            ErrorWrap::Single(_, ps) => path_views(ps@).contains(path),
            ErrorWrap::Multiple(ve) => exists|i: int|
                0 <= i < ve@.len() && #[trigger] path_views(ve@[i].1@).contains(path),
        }
    }

    /// Whether this wrapper attributes errors only to paths among
    /// `requested`: the reporting guarantee construction owes, since
    /// failures are associated with subsets of the originally requested
    /// paths. `General` lists no path, and `All` stands for the whole
    /// requested set without listing it, so both hold trivially.
    pub open spec fn attributes_within(self, requested: Seq<Seq<char>>) -> bool {
        ||| self is General
        ||| self is All
        ||| forall|p: Seq<char>| self.affects(p) ==> requested.contains(p)
    }

    /// The subset of `requested` not attributed to any error, in order: the
    /// paths with which re-attempting construction is likely to succeed.
    pub open spec fn retry_views(self, requested: Seq<String>) -> Seq<Seq<char>>
        decreases requested.len(),
    {
        if requested.len() == 0 {
            Seq::empty()
        } else {
            let rest = self.retry_views(requested.drop_last());
            if self.affects(requested.last()@) {
                rest
            } else {
                rest.push(requested.last()@)
            }
        }
    }

    /// Reduces to the sequence of errors, discarding all path information:
    /// exactly one error for `General`, `All` and `Single`, and the
    /// per-entry errors in entry order for `Multiple`.
    pub fn as_error_vec(&self) -> (r: Vec<&Error>)
        ensures
            r@.len() == self.error_seq().len(),
            forall|i: int| 0 <= i < r@.len() ==> *r@[i] == self.error_seq()[i],
    {
        match self {
            ErrorWrap::Multiple(ve) => {
                let mut r: Vec<&Error> = Vec::new();
                let mut i: usize = 0;
                while i < ve.len()
                    invariant
                        0 <= i <= ve@.len(),
                        r@.len() == i,
                        forall|k: int| 0 <= k < i ==> *r@[k] == ve@[k].0,
                    decreases ve@.len() - i,
                {
                    r.push(&ve[i].0);
                    i += 1;
                }
                r
            },
            ErrorWrap::General(err) | ErrorWrap::All(err) | ErrorWrap::Single(err, _) => {
                let mut r: Vec<&Error> = Vec::new();
                r.push(err);
                r
            },
        }
    }

    /// Whether this wrapper attributes an error to `path`.
    pub fn affected(&self, path: &String) -> (r: bool)
        ensures
            r == self.affects(path@),
    {
        match self {
            ErrorWrap::General(_) => false,
            ErrorWrap::All(_) => true,
            ErrorWrap::Single(_, ps) => contains_path(ps, path),
            ErrorWrap::Multiple(ve) => {
                let mut i: usize = 0;
                while i < ve.len()
                    invariant
                        self is Multiple,
                        self->Multiple_0 == *ve,
                        0 <= i <= ve@.len(),
                        forall|k: int| 0 <= k < i ==> !path_views(ve@[k].1@).contains(path@),
                    decreases ve@.len() - i,
                {
                    if contains_path(&ve[i].1, path) {
                        proof {
                            let gi = i as int;
                            assert(0 <= gi < ve@.len() && path_views(ve@[gi].1@).contains(path@));
                            assert(self.affects(path@));
                        }
                        return true;
                    }
                    i += 1;
                }
                false
            },
        }
    }

    /// Computes the likely-to-succeed retry set: the requested paths, in
    /// order, minus every path this wrapper attributes an error to.
    ///
    /// For `General` that is the entire original input, since the error is
    /// not path-attributed and retry-ability is backend-specific; for `All`
    /// it is empty; for `Single` and `Multiple` it is the input minus the
    /// affected subsets.
    pub fn likely_retry_set(&self, requested: &Vec<String>) -> (r: Vec<String>)
        ensures
            path_views(r@) == self.retry_views(requested@),
    {
        let ghost all = requested@;
        let mut r: Vec<String> = Vec::new();
        let mut i: usize = 0;
        while i < requested.len()
            invariant
                0 <= i <= all.len(),
                all == requested@,
                path_views(r@) == self.retry_views(all.take(i as int)),
            decreases all.len() - i,
        {
            let ghost gi = i as int;
            let ghost prev = r@;
            let p = &requested[i];
            if !self.affected(p) {
                r.push(p.clone());
            }
            proof {
                assert(all.take(gi + 1).drop_last() =~= all.take(gi));
                assert(all.take(gi + 1).last() == all[gi]);
                if !self.affects(all[gi]@) {
                    assert(path_views(r@) =~= path_views(prev).push(all[gi]@));
                }
            }
            i += 1;
        }
        proof {
            assert(all.take(all.len() as int) =~= all);
        }
        r
    }
}

impl core::convert::From<Error> for ErrorWrap {
    /// A plain error becomes a general, path-unattributed condition.
    ///
    /// The conversion takes the error by value; a caller that only holds a
    /// reference clones it first. No by-reference conversion is provided,
    /// because no exact contract can be stated for one: what a clone of a
    /// path-list-carrying error returns is not pinned down.
    fn from(err: Error) -> (r: Self) {
        ErrorWrap::General(err)
    }
}

impl vstd::std_specs::convert::FromSpecImpl<Error> for ErrorWrap {
    open spec fn obeys_from_spec() -> bool {
        true
    }

    open spec fn from_spec(err: Error) -> Self {
        ErrorWrap::General(err)
    }
}

impl ErrorWrap {
    /// Converts an I/O fault surfaced during construction into a general
    /// condition, translating `NotFound` the same way [`Error::from_io`]
    /// does.
    pub fn from_io(err: IoError) -> (r: ErrorWrap)
        ensures
            err.kind == IoErrorKind::NotFound ==> (r matches ErrorWrap::General(
                Error::NonExistent(ps),
            ) && ps@.len() == 0),
            err.kind != IoErrorKind::NotFound ==> r == ErrorWrap::General(Error::Io(err)),
    {
        ErrorWrap::General(Error::from_io(err))
    }
}

impl core::convert::From<Capability> for ErrorWrap {
    /// An unsupported capability becomes a general condition, the capability
    /// preserved exactly.
    fn from(cap: Capability) -> (r: Self) {
        ErrorWrap::General(Error::NotSupported(cap))
    }
}

impl vstd::std_specs::convert::FromSpecImpl<Capability> for ErrorWrap {
    open spec fn obeys_from_spec() -> bool {
        true
    }

    open spec fn from_spec(cap: Capability) -> Self {
        ErrorWrap::General(Error::NotSupported(cap))
    }
}

impl core::convert::From<NulError> for ErrorWrap {
    /// A nul-byte conversion failure becomes a general condition.
    fn from(err: NulError) -> (r: Self) {
        ErrorWrap::General(Error::FfiNul(err))
    }
}

impl vstd::std_specs::convert::FromSpecImpl<NulError> for ErrorWrap {
    open spec fn obeys_from_spec() -> bool {
        true
    }

    open spec fn from_spec(err: NulError) -> Self {
        ErrorWrap::General(Error::FfiNul(err))
    }
}

impl core::convert::From<IntoStringError> for ErrorWrap {
    /// An invalid-UTF-8 conversion failure becomes a general condition.
    fn from(err: IntoStringError) -> (r: Self) {
        ErrorWrap::General(Error::FfiIntoString(err))
    }
}

impl vstd::std_specs::convert::FromSpecImpl<IntoStringError> for ErrorWrap {
    open spec fn obeys_from_spec() -> bool {
        true
    }

    open spec fn from_spec(err: IntoStringError) -> Self {
        ErrorWrap::General(Error::FfiIntoString(err))
    }
}

impl core::convert::From<FromBytesWithNulError> for ErrorWrap {
    /// A malformed null-terminated buffer becomes a general condition.
    fn from(err: FromBytesWithNulError) -> (r: Self) {
        ErrorWrap::General(Error::FfiFromBytes(err))
    }
}

impl vstd::std_specs::convert::FromSpecImpl<FromBytesWithNulError> for ErrorWrap {
    open spec fn obeys_from_spec() -> bool {
        true
    }

    open spec fn from_spec(err: FromBytesWithNulError) -> Self {
        ErrorWrap::General(Error::FfiFromBytes(err))
    }
}

/// Law: converting an unsupported-capability condition preserves the
/// capability exactly, in both error forms — the plain form yields
/// `NotSupported` carrying that capability, and the composite form yields
/// `General` around that same error.
pub proof fn lemma_unsupported_capability_conversions(cap: Capability)
    ensures
        <Error as vstd::std_specs::convert::FromSpec<Capability>>::from_spec(cap)
            == Error::NotSupported(cap),
        <ErrorWrap as vstd::std_specs::convert::FromSpec<Capability>>::from_spec(cap)
            == ErrorWrap::General(Error::NotSupported(cap)),
{
}

/// Law: a path-unattributed `General` condition leaves the entire original
/// input as the retry set, since nothing marks any path as failing, while an
/// `All` condition leaves the retry set empty, every path being affected.
pub proof fn lemma_retry_set_extremes(w: ErrorWrap, requested: Seq<String>)
    ensures
        (w matches ErrorWrap::General(_)) ==> w.retry_views(requested) == path_views(requested),
        (w matches ErrorWrap::All(_)) ==> w.retry_views(requested) == Seq::<Seq<char>>::empty(),
    decreases requested.len(),
{
    if requested.len() == 0 {
        assert(path_views(requested) =~= Seq::<Seq<char>>::empty());
    } else {
        lemma_retry_set_extremes(w, requested.drop_last());
        if w matches ErrorWrap::General(_) {
            assert(path_views(requested) =~= path_views(requested.drop_last()).push(
                requested.last()@));
        }
    }
}

/// A trait for types that implement watching backends.
///
/// A backend watches an immutable set of paths: when the watched set must
/// change, the instance is dropped and a new one constructed in its place.
/// Construction must initialise every native resource needed to watch the
/// given paths — and only those paths — and dropping the instance must
/// release every resource it acquired, on every exit path. A running
/// instance is pulled from by exactly one consumer at a time; cancellation
/// is achieved solely by dropping it.
pub trait Backend: Sized {
    /// The native readiness handle this backend can lend to an external
    /// reactor so the consumer's event loop can wake on activity instead of
    /// polling on a cadence.
    type Driver;

    /// The views of the paths this instance watches.
    spec fn watched(&self) -> Seq<Seq<char>>;

    /// Whether this instance has signalled the end of its item sequence.
    spec fn done(&self) -> bool;

    /// Creates an instance that watches over the given set of paths.
    ///
    /// The caller guarantees the paths are unique, and tries to make sure
    /// they point to unique filesystem trees — which it cannot fully
    /// guarantee, links being what they are. The caller also pre-checks that
    /// the paths exist, but the backend must tolerate losing that data race
    /// and may then fail with `NonExistent`. On success the instance watches
    /// exactly the given paths and has not ended its sequence.
    /// On failure the composite error attributes errors only to requested
    /// paths.
    fn new(paths: Vec<String>) -> (r: NewResult<Self>)
        requires
            unique_paths(path_views(paths@)),
        ensures
            (r matches Ok(b) ==> b.watched() == path_views(paths@) && !b.done()),
            (r matches Err(w) ==> w.attributes_within(path_views(paths@))),
    ;

    /// Returns the operational capabilities of this backend.
    ///
    /// The answer may vary with environmental factors, so a frontend must
    /// not cache it beyond one construction attempt. An empty answer marks
    /// the backend inoperable at the moment (see
    /// [`operable`](crate::capability::operable)); in general a backend that
    /// cannot run should instead fail from `new` with `Unavailable`.
    fn capabilities() -> (caps: Vec<Capability>);

    /// Returns the readiness handle used to drive the consumer's event
    /// loop, or `None` to make the frontend fall back to its own polling
    /// cadence. The handle is lent for the instance's lifetime and becomes
    /// invalid the moment the instance is dropped.
    fn driver(&self) -> (d: Option<Self::Driver>);

    /// Returns the name of this backend, ideally short and in
    /// `namespace/name` form.
    ///
    /// The name serves debug output, issue reporting, and differentiation: a
    /// frontend hosting several backend types refuses two with an identical
    /// name. The value may legitimately change between instances, for
    /// example for a backend that proxies to varying remote backends; the
    /// consequences for differentiation are then the frontend's policy.
    fn name() -> (n: String);

    /// The revision of this backend contract the implementation was built
    /// against, for compatibility diagnostics; not the implementation's own
    /// release version.
    ///
    /// The default returns [`contract_version`], this crate's own revision;
    /// an implementation built against another revision overrides it, so the
    /// trait itself pins no particular string.
    fn trait_version() -> (v: String) {
        contract_version()
    }

    /// Pulls the next stream item: a decoded event, a stream-level error, or
    /// `None` for the end of the sequence.
    ///
    /// Items come in the order the backend observed or decoded them, with no
    /// cross-path ordering promised. An error item is not necessarily fatal:
    /// further items may follow for unrelated paths. After the end of the
    /// sequence has once been signalled, no further item is ever yielded.
    /// The set of watched paths never changes over an instance's lifetime.
    fn poll(&mut self) -> (item: Option<stream::Item>)
        ensures
            final(self).watched() == old(self).watched(),
            old(self).done() ==> item is None,
            item is None ==> final(self).done(),
    ;
}

} // verus!
