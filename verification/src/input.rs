//! The opaque input that a dispatch receives, and the value-conversion layer
//! that reinterprets it as the statically-typed case a predicate expects.

use vstd::prelude::*;

verus! {

/// Relies on `serde_json::Value`, the generic structured-data tree: declared
/// opaque, carried through the conversion layer, and only ever inspected by
/// the decoders that `Schema` implementations supply.
#[verifier::external_type_specification]
#[verifier::external_body]
pub struct ExValue(serde_json::Value);

/// One dynamically-typed trace step. `Native` holds a value of the
/// registration-time universe `N`; `Text` holds raw text that may parse as a
/// case; `Structured` holds a generic structured-data tree; `Wrapped` nests
/// any of the above behind an opaque wrapper.
pub enum Input<N> {
    Native(N),
    Text(String),
    Structured(serde_json::Value),
    Wrapped(Box<Input<N>>),
}

/// What `serde_json` parses the given text into, if anything: a function of
/// the characters alone.
pub uninterp spec fn parsed_json(s: Seq<char>) -> Option<serde_json::Value>;

/// Relies on `serde_json::from_str::<serde_json::Value>`: whether and how a
/// string parses as a structured-data tree depends on its characters alone;
/// a parse error is discarded as "no match".
#[verifier::external_body]
fn parse_from_str(s: &str) -> (r: Option<serde_json::Value>)
    ensures
        r == parsed_json(s@),
{
    serde_json::from_str(s).ok()
}

/// A case type that a schema predicate accepts: it can be produced from a
/// native value of the universe `N`, or from a structured-data tree.
pub trait Schema: Sized {
    /// The universe of native values this case may be found in.
    type Native;

    /// Which case, if any, the given native value holds. An implementation
    /// describes itself by overriding this; left unoverridden it is an
    /// arbitrary unspecified function, of which nothing can be concluded.
    open spec fn spec_of_native(n: Self::Native) -> Option<Self> {
        arbitrary()
    }

    /// Which case, if any, the given structured-data tree encodes.
    /// Unoverridden it is an arbitrary unspecified function.
    open spec fn spec_of_structured(v: serde_json::Value) -> Option<Self> {
        arbitrary()
    }

    fn of_native(n: &Self::Native) -> (r: Option<Self>)
        ensures
            r == Self::spec_of_native(*n),
    ;

    fn of_structured(v: &serde_json::Value) -> (r: Option<Self>)
        ensures
            r == Self::spec_of_structured(*v),
    ;
}

/// A case type that a direct predicate accepts: only an exact native match
/// counts, no parsing is ever attempted (for types with no meaningful
/// textual form).
pub trait Direct: Sized {
    /// The universe of native values this case may be found in.
    type Native;

    /// Which case, if any, the given native value holds. An implementation
    /// describes itself by overriding this; left unoverridden it is an
    /// arbitrary unspecified function, of which nothing can be concluded.
    open spec fn spec_of_native(n: Self::Native) -> Option<Self> {
        arbitrary()
    }

    fn of_native(n: &Self::Native) -> (r: Option<Self>)
        ensures
            r == Self::spec_of_native(*n),
    ;
}

/// The schema conversion chain, in order: a native match; text, parsed as a
/// structured-data tree and then decoded; a structured-data tree, decoded;
/// a wrapper, unwrapped recursively. No match means no case.
pub open spec fn spec_convert_to<T: Schema>(input: Input<T::Native>) -> Option<T>
    decreases input,
{
    match input {
        Input::Native(n) => T::spec_of_native(n),
        Input::Text(s) => match parsed_json(s@) {
            Some(v) => T::spec_of_structured(v),
            None => None,
        },
        Input::Structured(v) => T::spec_of_structured(v),
        Input::Wrapped(b) => spec_convert_to::<T>(*b),
    }
}

/// The direct conversion chain: a native match, or a wrapper unwrapped
/// recursively; text and structured data never match.
pub open spec fn spec_interpret_as<T: Direct>(input: Input<T::Native>) -> Option<T>
    decreases input,
{
    match input {
        Input::Native(n) => T::spec_of_native(n),
        Input::Text(_) => None,
        Input::Structured(_) => None,
        Input::Wrapped(b) => spec_interpret_as::<T>(*b),
    }
}

/// Reinterprets an opaque input as the case `T` of a schema predicate,
/// trying in order a native match, a textual parse, a structured-data
/// decode, and recursive unwrapping. Parse misses fold silently into `None`.
pub fn convert_to<T: Schema>(input: &Input<T::Native>) -> (r: Option<T>)
    ensures
        r == spec_convert_to::<T>(*input),
    decreases *input,
{
    match input {
        Input::Native(n) => T::of_native(n),
        Input::Text(s) => match parse_from_str(s.as_str()) {
            Some(v) => T::of_structured(&v),
            None => None,
        },
        Input::Structured(v) => T::of_structured(v),
        Input::Wrapped(b) => convert_to::<T>(&**b),
    }
}

/// Reinterprets an opaque input as the case `T` of a direct predicate: only
/// an exact native match or a recursively unwrapped native match counts.
pub fn interpret_as<T: Direct>(input: &Input<T::Native>) -> (r: Option<T>)
    ensures
        r == spec_interpret_as::<T>(*input),
    decreases *input,
{
    match input {
        Input::Native(n) => T::of_native(n),
        Input::Text(_) => None,
        Input::Structured(_) => None,
        Input::Wrapped(b) => interpret_as::<T>(&**b),
    }
}

/// Wrapper-transparency of the schema conversion: a wrapped input converts
/// exactly as the input it wraps.
pub proof fn lemma_convert_unwraps<T: Schema>(b: Box<Input<T::Native>>)
    ensures
        spec_convert_to::<T>(Input::Wrapped(b)) == spec_convert_to::<T>(*b),
{
}

/// Wrapper-transparency of the direct conversion: a wrapped input converts
/// exactly as the input it wraps.
pub proof fn lemma_interpret_unwraps<T: Direct>(b: Box<Input<T::Native>>)
    ensures
        spec_interpret_as::<T>(Input::Wrapped(b)) == spec_interpret_as::<T>(*b),
{
}

} // verus!
