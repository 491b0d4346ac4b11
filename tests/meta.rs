use kubeapi::meta::{check_type_meta, TypeMeta, TypeMetaError, TypeMetaFields, TypeMetaStruct};

struct TestType;

impl TypeMeta for TestType {
    fn api_version() -> &'static str {
        "v1alpha1"
    }
    fn kind() -> &'static str {
        "Test"
    }
}

fn some(s: &str) -> Option<String> {
    Some(s.to_string())
}

fn decode_fields(fields: &[(&str, Option<String>)]) -> Result<(), String> {
    let mut f = TypeMetaFields::new();
    for (name, value) in fields {
        f.add(name, value.clone()).map_err(|e| e.message())?;
    }
    match TypeMetaStruct::<TestType>::from_fields(f) {
        Ok(_) => Ok(()),
        Err(e) => Err(e.message()),
    }
}

#[test]
fn test_typemeta_serde() {
    let t: TypeMetaStruct<TestType> = TypeMetaStruct::new();
    assert_eq!(t.encode(), ("v1alpha1", "Test"));

    assert_eq!(
        decode_fields(&[("apiVersion", some("v1alpha1")), ("kind", some("Test"))]),
        Ok(())
    );
    // Reversed order of fields
    assert_eq!(
        decode_fields(&[("kind", some("Test")), ("apiVersion", some("v1alpha1"))]),
        Ok(())
    );
    // No apiVersion/kind is also ok
    assert_eq!(decode_fields(&[]), Ok(()));
}

#[test]
fn test_typemeta_serde_error() {
    assert_eq!(
        decode_fields(&[("kind", some("TestType"))]),
        Err("missing field `apiVersion`".to_string())
    );
    assert_eq!(
        decode_fields(&[("apiVersion", some("bogus"))]),
        Err("missing field `kind`".to_string())
    );
    assert_eq!(
        decode_fields(&[("apiVersion", some("v1alpha1")), ("apiVersion", None)]),
        Err("duplicate field `apiVersion`".to_string())
    );
    assert_eq!(
        decode_fields(&[("kind", some("NotTest")), ("apiVersion", some("v1alpha1"))]),
        Err("invalid value: v1alpha1/NotTest, expected v1alpha1/Test".to_string())
    );
}

#[test]
fn typemeta_matrix() {
    assert_eq!(check_type_meta("v1", "Pod", some("v1"), some("Pod")), Ok(()));
    assert_eq!(check_type_meta("v1", "Pod", None, None), Ok(()));
    assert_eq!(
        check_type_meta("v1", "Pod", some("v1"), None),
        Err(TypeMetaError::MissingField("kind"))
    );
    assert_eq!(
        check_type_meta("v1", "Pod", None, some("Pod")),
        Err(TypeMetaError::MissingField("apiVersion"))
    );
    assert_eq!(
        check_type_meta("v1", "Pod", some("v2"), some("Pod")),
        Err(TypeMetaError::Mismatch {
            expected_api_version: "v1".to_string(),
            expected_kind: "Pod".to_string(),
            found_api_version: "v2".to_string(),
            found_kind: "Pod".to_string(),
        })
    );
}

#[test]
fn unknown_envelope_fields_are_ignored() {
    assert_eq!(
        decode_fields(&[("metadata", some("x")), ("apiVersion", some("v1alpha1")), ("kind", some("Test"))]),
        Ok(())
    );
}

#[test]
fn typemeta_messages() {
    assert_eq!(TypeMetaError::MissingField("kind").message(), "missing field `kind`");
    assert_eq!(TypeMetaError::DuplicateField("kind").message(), "duplicate field `kind`");
    let e = TypeMetaError::Mismatch {
        expected_api_version: "apps/v1".to_string(),
        expected_kind: "Deployment".to_string(),
        found_api_version: "v1".to_string(),
        found_kind: "Pod".to_string(),
    };
    assert_eq!(e.message(), "invalid value: v1/Pod, expected apps/v1/Deployment");
}

#[test]
fn typemeta_decode_and_duplicate_kind() {
    assert!(TypeMetaStruct::<TestType>::decode(some("v1alpha1"), some("Test")).is_ok());
    assert!(TypeMetaStruct::<TestType>::decode(None, None) == Ok(TypeMetaStruct::new()));
    let mut f = TypeMetaFields::new();
    assert_eq!(f.add("kind", None), Ok(()));
    assert_eq!(f.add("kind", some("Test")), Err(TypeMetaError::DuplicateField("kind")));
    assert_eq!(f.kind, Some(None));
}
