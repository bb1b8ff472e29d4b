use kythera::abi::{derive_method_num, encode_method_names};
use kythera::{pascal_case_split, Abi, AbiError, Method, MethodType};

#[test]
fn test_method_derivation() {
    let method_name = String::from("TestTransfer");

    match derive_method_num(&method_name) {
        Ok(method_num) => {
            assert_eq!(method_num, 3760293944);
        }
        Err(_) => {
            panic!("derive_method_num failed for {}", method_name);
        }
    }
}

#[test]
fn test_fail_method_derivation() {
    let method_name = String::from("test_transfer");

    match derive_method_num(&method_name) {
        Ok(_) => {
            panic!("derive_method_num success for {}", method_name);
        }
        Err(err) => {
            assert_eq!(
                format!("Could not generate method number for `{}`", method_name),
                err.message()
            )
        }
    }
}

#[test]
fn test_pascal_case() {
    assert_eq!(pascal_case_split("TestOne"), vec!["Test", "One"]);
    assert_eq!(
        pascal_case_split("TestFailWithMultipleWords"),
        vec!["Test", "Fail", "With", "Multiple", "Words"]
    );
    assert_eq!(pascal_case_split("Test1"), vec!["Test", "1"]);
    assert_eq!(pascal_case_split("testOne"), Vec::<&str>::new());
}

#[test]
fn test_tuple_serde() {
    let test_transfer_name = String::from("TestTransfer");
    let test_transfer_fail_name = String::from("TestFailTransfer");

    let abi = Abi {
        constructor: None,
        set_up: None,
        methods: vec![
            Method::new_from_name(&test_transfer_name).unwrap(),
            Method::new_from_name(&test_transfer_fail_name).unwrap(),
        ],
    };
    assert_eq!(abi.methods[0].kind(), MethodType::Test);
    assert_eq!(abi.methods[1].kind(), MethodType::TestFail);

    let serialized_abi: Vec<u8> = vec![
        129, 130, 129, 108, 84, 101, 115, 116, 84, 114, 97, 110, 115, 102, 101, 114, 129, 112,
        84, 101, 115, 116, 70, 97, 105, 108, 84, 114, 97, 110, 115, 102, 101, 114,
    ];

    let abi_vec = abi.encode().unwrap();
    assert_eq!(abi_vec, serialized_abi);

    let deserialized_abi = Abi::decode(&serialized_abi).unwrap();
    assert_eq!(deserialized_abi, abi);
}

#[test]
fn test_fail_tuple_serde() {
    let serialized_abi: Vec<u8> = vec![
        129, 130, 129, 108, 84, 101, 115, 116, 84, 114, 97, 110, 115, 102, 101, 114, 129, 112,
        116, 101, 115, 116, 70, 97, 105, 108, 84, 114, 97, 110, 115, 102, 101, 114,
    ];

    let names = vec![String::from("TestTransfer"), String::from("testFailTransfer")];
    assert_eq!(encode_method_names(names).unwrap(), serialized_abi);
    assert!(derive_method_num("testFailTransfer").is_err());

    match Abi::decode(&serialized_abi) {
        Ok(_) => panic!("Deserialization should fail"),
        Err(err) => {
            assert!(err
                .message()
                .contains("Couldn't deserialize method: testFailTransfer"));
        }
    };
}

#[test]
fn test_method_constructor() {
    assert_eq!(
        Method::new_from_name("TestOne").unwrap().kind(),
        MethodType::Test
    );
    assert_eq!(
        Method::new_from_name("TestFailOne").unwrap().kind(),
        MethodType::TestFail
    );
    assert_eq!(
        Method::new_from_name("Constructor").unwrap().kind(),
        MethodType::Constructor
    );
    assert_eq!(
        Method::new_from_name("Setup").unwrap().kind(),
        MethodType::Setup
    );

    assert!(Method::new_from_name("testOne").is_err());
    assert!(Method::new_from_name("").is_err());
}

#[test]
fn constructor_has_method_number_one() {
    let m = Method::new_from_name("Constructor").unwrap();
    assert_eq!(m.number(), 1);
    assert_eq!(m.name(), "Constructor");
}

#[test]
fn entrypoint_kind_for_other_names() {
    assert_eq!(
        Method::new_from_name("HelloWorld").unwrap().kind(),
        MethodType::Entrypoint
    );
    assert_eq!(
        Method::new_from_name("Tester").unwrap().kind(),
        MethodType::Entrypoint
    );
    assert_eq!(
        Method::new_from_name("SetupTwo").unwrap().kind(),
        MethodType::Setup
    );
}

#[test]
fn pascal_case_split_edge_cases() {
    assert_eq!(pascal_case_split(""), Vec::<&str>::new());
    assert_eq!(pascal_case_split("A"), vec!["A"]);
    assert_eq!(pascal_case_split("ABC"), vec!["A", "B", "C"]);
    assert_eq!(pascal_case_split("Test12"), vec!["Test", "1", "2"]);
}

#[test]
fn from_methods_sorts_lifecycle_methods() {
    let abi = Abi::from_methods(vec![
        Method::new_from_name("TestOne").unwrap(),
        Method::new_from_name("Constructor").unwrap(),
        Method::new_from_name("Setup").unwrap(),
        Method::new_from_name("TestFailTwo").unwrap(),
    ])
    .unwrap();
    assert_eq!(abi.constructor().unwrap().name(), "Constructor");
    assert_eq!(abi.set_up().unwrap().name(), "Setup");
    let names: Vec<&str> = abi.methods().iter().map(|m| m.name()).collect();
    assert_eq!(names, vec!["TestOne", "TestFailTwo"]);
    assert_eq!(
        abi.names(),
        vec!["Constructor", "Setup", "TestOne", "TestFailTwo"]
    );
}

#[test]
fn from_methods_refuses_two_constructors() {
    let r = Abi::from_methods(vec![
        Method::new_from_name("Constructor").unwrap(),
        Method::new_from_name("Constructor").unwrap(),
    ]);
    assert_eq!(r, Err(AbiError::DuplicateLifecycleMethod));
    let r = Abi::from_methods(vec![
        Method::new_from_name("Setup").unwrap(),
        Method::new_from_name("SetupAgain").unwrap(),
    ]);
    assert_eq!(r, Err(AbiError::DuplicateLifecycleMethod));
}

#[test]
fn decode_refuses_duplicate_and_malformed() {
    let names = vec![String::from("Constructor"), String::from("Constructor")];
    let bytes = encode_method_names(names).unwrap();
    assert_eq!(Abi::decode(&bytes), Err(AbiError::DuplicateLifecycleMethod));
    assert_eq!(Abi::decode(&[1, 2, 3]), Err(AbiError::Malformed));
}

#[test]
fn decode_round_trips_lifecycle_methods() {
    let abi = Abi::from_methods(vec![
        Method::new_from_name("Constructor").unwrap(),
        Method::new_from_name("Setup").unwrap(),
        Method::new_from_name("TestA").unwrap(),
    ])
    .unwrap();
    let bytes = abi.encode().unwrap();
    assert_eq!(Abi::decode(&bytes).unwrap(), abi);
}
