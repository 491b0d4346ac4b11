//! The apiVersion/kind pair of a resource type: stamped on encode,
//! checked on decode.
use vstd::prelude::*;
use std::marker::PhantomData;

verus! {

/// A resource type with a fixed apiVersion and kind.
pub trait TypeMeta {
    fn api_version() -> &'static str;

    fn kind() -> &'static str;
}

/// Why an apiVersion/kind pair was refused.
#[derive(Debug, Clone, PartialEq, Eq)]
pub enum TypeMetaError {
    /// One of the two fields is present and the other, named here, is not.
    MissingField(&'static str),
    /// A field, named here, occurs twice.
    DuplicateField(&'static str),
    /// Both fields are present but differ from those expected.
    Mismatch {
        expected_api_version: String,
        expected_kind: String,
        found_api_version: String,
        found_kind: String,
    },
}

/// The views of a sequence of string slices, one after the other.
pub open spec fn joined(parts: Seq<&str>) -> Seq<char>
    decreases parts.len(),
{
    if parts.len() == 0 {
        Seq::empty()
    } else {
        joined(parts.drop_last()) + parts.last()@
    }
}

/// Relies on `<[&str]>::concat`: the slices one after the other.
#[verifier::external_body]
fn join(parts: &[&str]) -> (r: String)
    ensures
        r@ == joined(parts@),
{
    parts.concat()
}

/// The text of an error, as a decoder reports it.
pub open spec fn type_meta_message(e: TypeMetaError) -> Seq<char> {
    match e {
        TypeMetaError::MissingField(f) => "missing field `"@ + f@ + "`"@,
        TypeMetaError::DuplicateField(f) => "duplicate field `"@ + f@ + "`"@,
        TypeMetaError::Mismatch {
            expected_api_version,
            expected_kind,
            found_api_version,
            found_kind,
        } => "invalid value: "@ + found_api_version@ + "/"@ + found_kind@ + ", expected "@
            + expected_api_version@ + "/"@ + expected_kind@,
    }
}

impl TypeMetaError {
    /// The text of the error.
    pub fn message(&self) -> (r: String)
        ensures
            r@ == type_meta_message(*self),
    {
        match self {
            TypeMetaError::MissingField(f) => {
                let parts = vec!["missing field `", *f, "`"];
                let r = join(parts.as_slice());
                proof {
                    reveal_with_fuel(joined, 9);
                }
                assert(r@ =~= type_meta_message(*self));
                r
            },
            TypeMetaError::DuplicateField(f) => {
                let parts = vec!["duplicate field `", *f, "`"];
                let r = join(parts.as_slice());
                proof {
                    reveal_with_fuel(joined, 9);
                }
                assert(r@ =~= type_meta_message(*self));
                r
            },
            TypeMetaError::Mismatch {
                expected_api_version,
                expected_kind,
                found_api_version,
                found_kind,
            } => {
                let parts = vec![
                    "invalid value: ",
                    found_api_version.as_str(),
                    "/",
                    found_kind.as_str(),
                    ", expected ",
                    expected_api_version.as_str(),
                    "/",
                    expected_kind.as_str(),
                ];
                let r = join(parts.as_slice());
                proof {
                    reveal_with_fuel(joined, 9);
                }
                assert(r@ =~= type_meta_message(*self));
                r
            },
        }
    }
}

/// Whether `r` is the outcome of checking a found apiVersion/kind pair
/// against the expected one: both present and equal, or both absent, is
/// valid; one absent names the missing field; two present that differ are
/// a mismatch citing both pairs.
pub open spec fn type_meta_outcome(
    r: Result<(), TypeMetaError>,
    expected_api_version: Seq<char>,
    expected_kind: Seq<char>,
    api_version: Option<Seq<char>>,
    kind: Option<Seq<char>>,
) -> bool {
    match (api_version, kind) {
        (Some(a), Some(k)) => if a == expected_api_version && k == expected_kind {
            r is Ok
        } else {
            match r {
                Err(TypeMetaError::Mismatch {
                    expected_api_version: ea,
                    expected_kind: ek,
                    found_api_version: fa,
                    found_kind: fk,
                }) => ea@ == expected_api_version && ek@ == expected_kind && fa@ == a && fk@ == k,
                _ => false,
            }
        },
        (None, None) => r is Ok,
        (Some(_), None) => r == Err::<(), TypeMetaError>(TypeMetaError::MissingField("kind")),
        (None, Some(_)) => r == Err::<(), TypeMetaError>(TypeMetaError::MissingField("apiVersion")),
    }
}

/// The view of an optional string.
pub open spec fn opt_string_view(o: Option<String>) -> Option<Seq<char>> {
    match o {
        Some(s) => Some(s@),
        None => None,
    }
}

/// Checks a found apiVersion/kind pair against the expected one.
pub fn check_type_meta(
    expected_api_version: &str,
    expected_kind: &str,
    api_version: Option<String>,
    kind: Option<String>,
) -> (r: Result<(), TypeMetaError>)
    ensures
        type_meta_outcome(
            r,
            expected_api_version@,
            expected_kind@,
            opt_string_view(api_version),
            opt_string_view(kind),
        ),
{
    match (api_version, kind) {
        (Some(a), Some(k)) => {
            let ea = expected_api_version.to_owned();
            let ek = expected_kind.to_owned();
            if a == ea && k == ek {
                Ok(())
            } else {
                Err(
                    TypeMetaError::Mismatch {
                        expected_api_version: ea,
                        expected_kind: ek,
                        found_api_version: a,
                        found_kind: k,
                    },
                )
            }
        },
        (None, None) => Ok(()),
        (Some(_), None) => Err(TypeMetaError::MissingField("kind")),
        (None, Some(_)) => Err(TypeMetaError::MissingField("apiVersion")),
    }
}

/// What is encoded decodes: a found pair equal to the expected one is
/// valid, whatever the pair.
pub proof fn lemma_encoded_pair_is_valid(
    api_version: Seq<char>,
    kind: Seq<char>,
    r: Result<(), TypeMetaError>,
)
    requires
        type_meta_outcome(r, api_version, kind, Some(api_version), Some(kind)),
    ensures
        r is Ok,
{
}

/// The fields of an apiVersion/kind envelope, as read one by one: each is
/// `None` until read, and holds the value read after (itself optional).
#[derive(Debug, Clone, PartialEq, Eq)]
pub struct TypeMetaFields {
    pub api_version: Option<Option<String>>,
    pub kind: Option<Option<String>>,
}

impl TypeMetaFields {
    /// No field read yet.
    pub fn new() -> (r: TypeMetaFields)
        ensures
            r.api_version is None,
            r.kind is None,
    {
        TypeMetaFields { api_version: None, kind: None }
    }

    /// Records the field `name` with `value`. A field read before is a
    /// duplicate; a name other than `apiVersion` and `kind` is ignored.
    pub fn add(&mut self, name: &str, value: Option<String>) -> (r: Result<(), TypeMetaError>)
        ensures
            name@ == "apiVersion"@ ==> if old(self).api_version is Some {
                &&& r == Err::<(), TypeMetaError>(TypeMetaError::DuplicateField("apiVersion"))
                &&& *final(self) == *old(self)
            } else {
                &&& r is Ok
                &&& *final(self) == (TypeMetaFields { api_version: Some(value), ..*old(self) })
            },
            name@ == "kind"@ ==> if old(self).kind is Some {
                &&& r == Err::<(), TypeMetaError>(TypeMetaError::DuplicateField("kind"))
                &&& *final(self) == *old(self)
            } else {
                &&& r is Ok
                &&& *final(self) == (TypeMetaFields { kind: Some(value), ..*old(self) })
            },
            name@ != "apiVersion"@ && name@ != "kind"@ ==> r is Ok && *final(self) == *old(self),
    {
        proof {
            reveal_strlit("kind");
            reveal_strlit("apiVersion");
            assert("kind"@.len() != "apiVersion"@.len());
        }
        let n = name.to_owned();
        if n == "apiVersion".to_owned() {
            if self.api_version.is_some() {
                Err(TypeMetaError::DuplicateField("apiVersion"))
            } else {
                self.api_version = Some(value);
                Ok(())
            }
        } else if n == "kind".to_owned() {
            if self.kind.is_some() {
                Err(TypeMetaError::DuplicateField("kind"))
            } else {
                self.kind = Some(value);
                Ok(())
            }
        } else {
            Ok(())
        }
    }
}

/// The flattened value of a field: absent where never read or read as
/// absent.
pub open spec fn field_value(f: Option<Option<String>>) -> Option<Seq<char>> {
    match f {
        Some(Some(s)) => Some(s@),
        _ => None,
    }
}

fn flatten(f: Option<Option<String>>) -> (r: Option<String>)
    ensures
        opt_string_view(r) == field_value(f),
{
    match f {
        Some(Some(s)) => Some(s),
        _ => None,
    }
}

/// A marker for the apiVersion/kind pair of the resource type `T`; it holds
/// no data of its own.
pub struct TypeMetaStruct<T> {
    marker: PhantomData<T>,
}

/// Two markers of one type are always equal: they hold nothing.
impl<T> PartialEq for TypeMetaStruct<T> {
    fn eq(&self, _rhs: &TypeMetaStruct<T>) -> (r: bool) {
        true
    }
}

impl<T> vstd::std_specs::cmp::PartialEqSpecImpl for TypeMetaStruct<T> {
    open spec fn obeys_eq_spec() -> bool {
        true
    }

    open spec fn eq_spec(&self, _rhs: &TypeMetaStruct<T>) -> bool {
        true
    }
}

impl<T: TypeMeta> TypeMetaStruct<T> {
    /// The marker.
    pub fn new() -> (r: TypeMetaStruct<T>) {
        TypeMetaStruct { marker: PhantomData }
    }

    /// The apiVersion and kind to write for `T`.
    pub fn encode(&self) -> (r: (&'static str, &'static str)) {
        (T::api_version(), T::kind())
    }

    /// Checks a found apiVersion/kind pair against those of `T`: valid where
    /// both are absent or both match; one missing names it; a mismatch
    /// cites the found pair.
    pub fn decode(api_version: Option<String>, kind: Option<String>) -> (r: Result<
        TypeMetaStruct<T>,
        TypeMetaError,
    >)
        ensures
            api_version is None && kind is None ==> r is Ok,
            api_version is Some && kind is None ==> (r matches Err(
                TypeMetaError::MissingField(f),
            ) && f@ == "kind"@),
            api_version is None && kind is Some ==> (r matches Err(
                TypeMetaError::MissingField(f),
            ) && f@ == "apiVersion"@),
            api_version is Some && kind is Some ==> match r {
                Ok(_) => true,
                Err(TypeMetaError::Mismatch { found_api_version, found_kind, .. }) => Some(
                    found_api_version@,
                ) == opt_string_view(api_version) && Some(found_kind@) == opt_string_view(kind),
                _ => false,
            },
    {
        match check_type_meta(T::api_version(), T::kind(), api_version, kind) {
            Ok(()) => Ok(TypeMetaStruct::new()),
            Err(e) => Err(e),
        }
    }

    /// Checks the fields read from an envelope against those of `T`.
    pub fn from_fields(fields: TypeMetaFields) -> (r: Result<TypeMetaStruct<T>, TypeMetaError>)
        ensures
            ({
                let a = field_value(fields.api_version);
                let k = field_value(fields.kind);
                &&& a is None && k is None ==> r is Ok
                &&& a is Some && k is None ==> (r matches Err(TypeMetaError::MissingField(f))
                    && f@ == "kind"@)
                &&& a is None && k is Some ==> (r matches Err(TypeMetaError::MissingField(f))
                    && f@ == "apiVersion"@)
                &&& a is Some && k is Some ==> match r {
                    Ok(_) => true,
                    Err(TypeMetaError::Mismatch { found_api_version, found_kind, .. }) => Some(
                        found_api_version@,
                    ) == a && Some(found_kind@) == k,
                    _ => false,
                }
            }),
    {
        let a = flatten(fields.api_version);
        let k = flatten(fields.kind);
        Self::decode(a, k)
    }
}

} // verus!
