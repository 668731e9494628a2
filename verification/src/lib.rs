//! Error types for a Wavefront OBJ / MTL loader.
//!
//! Two value types carry every failure a load can hit: [`LoadError`] pairs a
//! closed category tag ([`LoadErrorKind`]) with a fixed message for semantic
//! rejections, and [`ObjError`] unions the four possible causes (I/O,
//! integer parse, float parse, semantic) into the one error type that the
//! loader's public entry points return.

use vstd::prelude::*;
use vstd::std_specs::cmp::PartialEqSpec;
use vstd::std_specs::convert::FromSpec;
use vstd::string::StringExecFns;

verus! {

/// The closed set of semantic failure categories a load can report.
///
/// The set is deliberately exhaustive: a new failure category is a new
/// variant here, never an ad-hoc string-only error.
#[derive(Copy, PartialEq, Eq, Clone, Debug, Structural)]
pub enum LoadErrorKind {
    /// Met unexpected statement.
    UnexpectedStatement,
    /// Received wrong number of arguments.
    WrongNumberOfArguments,
    /// Received unexpected type of arguments.
    WrongTypeOfArguments,
    /// Model should be triangulated first to be loaded properly.
    UntriangulatedModel,
    /// Model cannot be transformed into requested form.
    InsufficientData,
}

/// The fixed category phrase that renders for each [`LoadErrorKind`].
pub open spec fn phrase_of(kind: LoadErrorKind) -> Seq<char> {
    match kind {
        LoadErrorKind::UnexpectedStatement => "Met unexpected statement"@,
        LoadErrorKind::WrongNumberOfArguments => "Received wrong number of arguments"@,
        LoadErrorKind::WrongTypeOfArguments => "Received unexpected type of arguments"@,
        LoadErrorKind::UntriangulatedModel => "Model should be triangulated first to be loaded properly"@,
        LoadErrorKind::InsufficientData => "Model cannot be transformed into requested form"@,
    }
}

impl LoadErrorKind {
    /// The human-readable category phrase for this kind: a total, fixed
    /// mapping with no failure modes.
    pub fn phrase(&self) -> (r: &'static str)
        ensures
            r@ == phrase_of(*self),
    {
        match *self {
            LoadErrorKind::UnexpectedStatement => "Met unexpected statement",
            LoadErrorKind::WrongNumberOfArguments => "Received wrong number of arguments",
            LoadErrorKind::WrongTypeOfArguments => "Received unexpected type of arguments",
            LoadErrorKind::UntriangulatedModel => "Model should be triangulated first to be loaded properly",
            LoadErrorKind::InsufficientData => "Model cannot be transformed into requested form",
        }
    }
}

/// A semantic load failure: the file's syntax was fine but its content
/// violated the format's rules.
///
/// Pairs a [`LoadErrorKind`] with a fixed, statically-known message supplied
/// by the raise site. Immutable once constructed; equality is structural
/// over the kind and the message text.
#[derive(Eq, Clone, Debug)]
pub struct LoadError {
    kind: LoadErrorKind,
    message: &'static str,
}

/// Relies on `str`'s `PartialEq`: two string slices compare equal exactly
/// when their character sequences are equal.
#[verifier::external_body]
fn str_eq(a: &str, b: &str) -> (r: bool)
    ensures
        r == (a@ == b@),
{
    a == b
}

impl LoadError {
    /// The failure category this error was raised with.
    pub closed spec fn spec_kind(self) -> LoadErrorKind {
        self.kind
    }

    /// The fixed message this error was raised with, as a character sequence.
    pub closed spec fn spec_message(self) -> Seq<char> {
        self.message@
    }

    /// The exact text that [`LoadError::render`] produces.
    pub open spec fn render_spec(self) -> Seq<char> {
        phrase_of(self.spec_kind()) + ": "@ + self.spec_message()
    }

    /// Creates a new custom error from a specified kind and message.
    pub fn new(kind: LoadErrorKind, message: &'static str) -> (r: Self)
        ensures
            r.spec_kind() == kind,
            r.spec_message() == message@,
    {
        LoadError { kind, message }
    }

    /// Renders this error as `"<category phrase>: <message>"`.
    pub fn render(&self) -> (r: String)
        ensures
            r@ == self.render_spec(),
    {
        let mut s = String::from_str(self.kind.phrase());
        s.append(": ");
        s.append(self.message);
        s
    }

    /// A `LoadError` is the root of its cause chain: it wraps no further
    /// cause, so the chain always ends here.
    pub fn cause<'a>(&'a self) -> (r: Option<ErrorCause<'a>>)
        ensures
            r is None,
    {
        None
    }
}

impl PartialEq for LoadError {
    fn eq(&self, other: &LoadError) -> (r: bool) {
        self.kind == other.kind && str_eq(self.message, other.message)
    }
}

impl vstd::std_specs::cmp::PartialEqSpecImpl for LoadError {
    open spec fn obeys_eq_spec() -> bool {
        true
    }

    open spec fn eq_spec(&self, other: &LoadError) -> bool {
        self.spec_kind() == other.spec_kind() && self.spec_message() == other.spec_message()
    }
}

/// Relies on `std::io::Error` being an ordinary owned value type; declared
/// here so `ObjError` can hold one. Verus sees nothing inside it.
#[verifier::external_type_specification]
#[verifier::external_body]
pub struct ExIoError(std::io::Error);

/// Relies on `std::num::ParseIntError` being an ordinary owned value type;
/// declared here so `ObjError` can hold one.
#[verifier::external_type_specification]
#[verifier::external_body]
pub struct ExParseIntError(std::num::ParseIntError);

/// Relies on `std::num::ParseFloatError` being an ordinary owned value type;
/// declared here so `ObjError` can hold one.
#[verifier::external_type_specification]
#[verifier::external_body]
pub struct ExParseFloatError(std::num::ParseFloatError);

/// The error type for loading of the `obj` file: the single failure channel
/// of the whole load pipeline.
///
/// Exactly one of the four causes is present, and each variant owns its
/// wrapped cause outright, so no information is lost in the union.
#[derive(Debug)]
pub enum ObjError {
    /// An I/O failure occurred while reading the `obj` file.
    Io(std::io::Error),
    /// A token expected to be an integer could not be parsed as one.
    ParseInt(std::num::ParseIntError),
    /// A token expected to be a floating point number could not be parsed as
    /// one.
    ParseFloat(std::num::ParseFloatError),
    /// The file was lexically fine, but its semantics were rejected.
    Load(LoadError),
}

/// A borrowed reference to the cause wrapped inside an [`ObjError`], for
/// diagnostic traversal without taking ownership.
pub enum ErrorCause<'a> {
    /// The wrapped I/O failure.
    Io(&'a std::io::Error),
    /// The wrapped integer-parse failure.
    ParseInt(&'a std::num::ParseIntError),
    /// The wrapped float-parse failure.
    ParseFloat(&'a std::num::ParseFloatError),
    /// The wrapped semantic load failure.
    Load(&'a LoadError),
}

impl From<std::io::Error> for ObjError {
    fn from(err: std::io::Error) -> (r: ObjError) {
        ObjError::Io(err)
    }
}

impl vstd::std_specs::convert::FromSpecImpl<std::io::Error> for ObjError {
    open spec fn obeys_from_spec() -> bool {
        true
    }

    open spec fn from_spec(v: std::io::Error) -> ObjError {
        ObjError::Io(v)
    }
}

impl From<std::num::ParseIntError> for ObjError {
    fn from(err: std::num::ParseIntError) -> (r: ObjError) {
        ObjError::ParseInt(err)
    }
}

impl vstd::std_specs::convert::FromSpecImpl<std::num::ParseIntError> for ObjError {
    open spec fn obeys_from_spec() -> bool {
        true
    }

    open spec fn from_spec(v: std::num::ParseIntError) -> ObjError {
        ObjError::ParseInt(v)
    }
}

impl From<std::num::ParseFloatError> for ObjError {
    fn from(err: std::num::ParseFloatError) -> (r: ObjError) {
        ObjError::ParseFloat(err)
    }
}

impl vstd::std_specs::convert::FromSpecImpl<std::num::ParseFloatError> for ObjError {
    open spec fn obeys_from_spec() -> bool {
        true
    }

    open spec fn from_spec(v: std::num::ParseFloatError) -> ObjError {
        ObjError::ParseFloat(v)
    }
}

impl From<LoadError> for ObjError {
    fn from(err: LoadError) -> (r: ObjError) {
        ObjError::Load(err)
    }
}

impl vstd::std_specs::convert::FromSpecImpl<LoadError> for ObjError {
    open spec fn obeys_from_spec() -> bool {
        true
    }

    open spec fn from_spec(v: LoadError) -> ObjError {
        ObjError::Load(v)
    }
}

impl ObjError {
    /// The wrapped cause, as a shared reference: every variant carries one,
    /// so the result is never `None`, and the chain ends one hop below.
    pub fn cause<'a>(&'a self) -> (r: Option<ErrorCause<'a>>)
        ensures
            self is Io ==> (r matches Some(ErrorCause::Io(c)) && *c == self->Io_0),
            self is ParseInt ==> (r matches Some(ErrorCause::ParseInt(c)) && *c == self->ParseInt_0),
            self is ParseFloat ==> (r matches Some(ErrorCause::ParseFloat(c)) && *c == self->ParseFloat_0),
            self is Load ==> (r matches Some(ErrorCause::Load(c)) && *c == self->Load_0),
    {
        match *self {
            ObjError::Io(ref err) => Some(ErrorCause::Io(err)),
            ObjError::ParseInt(ref err) => Some(ErrorCause::ParseInt(err)),
            ObjError::ParseFloat(ref err) => Some(ErrorCause::ParseFloat(err)),
            ObjError::Load(ref err) => Some(ErrorCause::Load(err)),
        }
    }

    /// Renders this error by delegating entirely to the wrapped cause's own
    /// text; `ObjError` contributes no wrapping text of its own.
    pub fn render(&self) -> (r: String)
        ensures
            (match *self {
                ObjError::Io(e) => vstd::string::to_string_from_display_ensures(&e, r),
                ObjError::ParseInt(e) => vstd::string::to_string_from_display_ensures(&e, r),
                ObjError::ParseFloat(e) => vstd::string::to_string_from_display_ensures(&e, r),
                ObjError::Load(le) => r@ == le.render_spec(),
            }),
    {
        match self {
            ObjError::Io(e) => e.to_string(),
            ObjError::ParseInt(e) => e.to_string(),
            ObjError::ParseFloat(e) => e.to_string(),
            ObjError::Load(e) => e.render(),
        }
    }
}

/// A type for results generated by `load_obj` and `load_mtl` where the `Err`
/// type is hard-wired to `ObjError`.
pub type ObjResult<T> = Result<T, ObjError>;

/// The raise shorthand used by the parser: builds a [`LoadError`] from a kind
/// and a fixed message and fails the current operation with it, already
/// wrapped as the unified error type.
pub fn make_error<T>(kind: LoadErrorKind, message: &'static str) -> (r: ObjResult<T>)
    ensures
        r matches Err(e) && e matches ObjError::Load(le) && le.spec_kind() == kind
            && le.spec_message() == message@,
{
    Err(ObjError::Load(LoadError::new(kind, message)))
}

/// Law: rendering is a pure function of the error value. The contract of
/// [`LoadError::render`] pins the text exactly, so any two renderings of
/// equal errors have identical text.
pub proof fn lemma_render_pure(a: &LoadError, b: &LoadError, ra: &String, rb: &String)
    requires
        a.eq_spec(b),
        ra@ == a.render_spec(),
        rb@ == b.render_spec(),
    ensures
        ra@ == rb@,
{
}

/// Law: converting an I/O failure into `ObjError` is lossless: the
/// conversion yields exactly the `Io` variant holding that failure, and
/// unwrapping the variant gives the very failure back.
pub proof fn lemma_io_wrap_round_trip(e: std::io::Error)
    ensures
        <ObjError as FromSpec<std::io::Error>>::obeys_from_spec(),
        <ObjError as FromSpec<std::io::Error>>::from_spec(e) == ObjError::Io(e),
        (ObjError::Io(e))->Io_0 == e,
{
}

/// Law: converting an integer-parse failure into `ObjError` is lossless, as
/// [`lemma_io_wrap_round_trip`] states for I/O failures.
pub proof fn lemma_parse_int_wrap_round_trip(e: std::num::ParseIntError)
    ensures
        <ObjError as FromSpec<std::num::ParseIntError>>::obeys_from_spec(),
        <ObjError as FromSpec<std::num::ParseIntError>>::from_spec(e) == ObjError::ParseInt(e),
        (ObjError::ParseInt(e))->ParseInt_0 == e,
{
}

/// Law: converting a float-parse failure into `ObjError` is lossless, as
/// [`lemma_io_wrap_round_trip`] states for I/O failures.
pub proof fn lemma_parse_float_wrap_round_trip(e: std::num::ParseFloatError)
    ensures
        <ObjError as FromSpec<std::num::ParseFloatError>>::obeys_from_spec(),
        <ObjError as FromSpec<std::num::ParseFloatError>>::from_spec(e) == ObjError::ParseFloat(e),
        (ObjError::ParseFloat(e))->ParseFloat_0 == e,
{
}

/// Law: wrapping a [`LoadError`] into `ObjError::Load` and unwrapping it
/// returns a value structurally equal to the original: same kind, same
/// message.
pub proof fn lemma_load_wrap_round_trip(le: LoadError)
    ensures
        <ObjError as FromSpec<LoadError>>::obeys_from_spec(),
        <ObjError as FromSpec<LoadError>>::from_spec(le) == ObjError::Load(le),
        (ObjError::Load(le))->Load_0 == le,
        (ObjError::Load(le))->Load_0.eq_spec(&le),
{
}

/// Law: the variant tag of an `ObjError` uniquely determines which cause is
/// present: every value is one of the four variants, and no value is two of
/// them at once.
pub proof fn lemma_variants_disjoint(e: &ObjError)
    ensures
        e is Io || e is ParseInt || e is ParseFloat || e is Load,
        !(e is Io && e is ParseInt),
        !(e is Io && e is ParseFloat),
        !(e is Io && e is Load),
        !(e is ParseInt && e is ParseFloat),
        !(e is ParseInt && e is Load),
        !(e is ParseFloat && e is Load),
{
}

/// Law: two `LoadError` values are equal exactly when both their kind and
/// their message text are equal, and the executable `==` decides exactly
/// that relation.
pub proof fn lemma_load_error_eq(a: &LoadError, b: &LoadError)
    ensures
        <LoadError as PartialEqSpec>::obeys_eq_spec(),
        a.eq_spec(b) <==> (a.spec_kind() == b.spec_kind() && a.spec_message() == b.spec_message()),
{
}

} // verus!
