use instructor::descriptor::{
    EnumInfo, InstructMacroResult, Parameter, ParameterInfo, StructInfo,
};

fn address_get_info() -> InstructMacroResult {
    InstructMacroResult::Struct(StructInfo {
        name: "Address".to_string(),
        description: "".to_string(),
        parameters: vec![
            Parameter::Field(ParameterInfo {
                name: "street".to_string(),
                ty: "String".to_string(),
                comment: "".to_string(),
                is_optional: false,
                is_list: false,
            }),
            Parameter::Field(ParameterInfo {
                name: "city".to_string(),
                ty: "String".to_string(),
                comment: "".to_string(),
                is_optional: false,
                is_list: false,
            }),
        ],
        is_optional: false,
        is_list: false,
    })
}

fn status_get_info() -> InstructMacroResult {
    InstructMacroResult::Enum(EnumInfo {
        title: "Status".to_string(),
        values: vec![
            "Active".to_string(),
            "Inactive".to_string(),
            "Pending".to_string(),
        ],
        ty: "Status".to_string(),
        description: "This is an enum representing the status of a person".to_string(),
        is_optional: false,
        is_list: false,
    })
}

fn described_user_get_info() -> InstructMacroResult {
    InstructMacroResult::Struct(StructInfo {
        name: "User".to_string(),
        description: "This is a user struct".to_string(),
        parameters: vec![
            Parameter::Field(ParameterInfo {
                name: "name".to_string(),
                ty: "String".to_string(),
                comment: "This is the user's name".to_string(),
                is_optional: false,
                is_list: false,
            }),
            Parameter::Field(ParameterInfo {
                name: "age".to_string(),
                ty: "i32".to_string(),
                comment: "This is the user's age".to_string(),
                is_optional: false,
                is_list: false,
            }),
        ],
        is_optional: false,
        is_list: false,
    })
}

fn named_user_get_info() -> InstructMacroResult {
    InstructMacroResult::Struct(StructInfo {
        name: "User".to_string(),
        description: "This is a struct with Option types".to_string(),
        parameters: vec![Parameter::Field(ParameterInfo {
            name: "name".to_string(),
            ty: "String".to_string(),
            comment: "This is a list of numbers".to_string(),
            is_optional: false,
            is_list: false,
        })],
        is_optional: false,
        is_list: false,
    })
}

#[test]
fn test_string_conversion() {
    let info = InstructMacroResult::Struct(StructInfo {
        name: "TestStruct".to_string(),
        description: "This is a struct".to_string(),
        parameters: vec![
            Parameter::Field(ParameterInfo {
                name: "field1".to_string(),
                ty: "String".to_string(),
                comment: "This is a sample example that spans across three lines".to_string(),
                is_optional: false,
                is_list: false,
            }),
            Parameter::Field(ParameterInfo {
                name: "field2".to_string(),
                ty: "str".to_string(),
                comment: "This is a test field".to_string(),
                is_optional: false,
                is_list: false,
            }),
        ],
        is_optional: false,
        is_list: false,
    });
    let desired_struct = StructInfo {
        name: "TestStruct".to_string(),
        description: "This is a struct".to_string(),
        parameters: vec![
            Parameter::Field(ParameterInfo {
                name: "field1".to_string(),
                ty: "String".to_string(),
                comment: "This is a sample example that spans across three lines".to_string(),
                is_optional: false,
                is_list: false,
            }),
            Parameter::Field(ParameterInfo {
                name: "field2".to_string(),
                ty: "str".to_string(),
                comment: "This is a test field".to_string(),
                is_optional: false,
                is_list: false,
            }),
        ],
        is_optional: false,
        is_list: false,
    };

    let info_struct = match info {
        InstructMacroResult::Struct(s) => s,
        _ => panic!("Expected StructInfo"),
    };

    println!("info_struct: {:?}", info_struct);
    println!("desired_struct: {:?}", desired_struct);
    assert!(info_struct == desired_struct);
}

#[test]
fn test_nested_struct_macro() {
    let mut parameters = vec![
        Parameter::Field(ParameterInfo {
            name: "name".to_string(),
            ty: "String".to_string(),
            comment: "".to_string(),
            is_optional: false,
            is_list: false,
        }),
        Parameter::Field(ParameterInfo {
            name: "age".to_string(),
            ty: "u8".to_string(),
            comment: "".to_string(),
            is_optional: false,
            is_list: false,
        }),
    ];
    parameters.push(
        address_get_info()
            .override_description("".to_string())
            .set_optional(false)
            .set_list(false)
            .wrap_info("address".to_string()),
    );
    let info = InstructMacroResult::Struct(StructInfo {
        name: "User".to_string(),
        description: "".to_string(),
        parameters,
        is_optional: false,
        is_list: false,
    });

    let desired_struct = StructInfo {
        name: "User".to_string(),
        description: "".to_string(),
        parameters: vec![
            Parameter::Field(ParameterInfo {
                name: "name".to_string(),
                ty: "String".to_string(),
                comment: "".to_string(),
                is_optional: false,
                is_list: false,
            }),
            Parameter::Field(ParameterInfo {
                name: "age".to_string(),
                ty: "u8".to_string(),
                comment: "".to_string(),
                is_optional: false,
                is_list: false,
            }),
            Parameter::Struct(StructInfo {
                name: "address".to_string(),
                description: "".to_string(),
                parameters: vec![
                    Parameter::Field(ParameterInfo {
                        name: "street".to_string(),
                        ty: "String".to_string(),
                        comment: "".to_string(),
                        is_optional: false,
                        is_list: false,
                    }),
                    Parameter::Field(ParameterInfo {
                        name: "city".to_string(),
                        ty: "String".to_string(),
                        comment: "".to_string(),
                        is_optional: false,
                        is_list: false,
                    }),
                ],
                is_optional: false,
                is_list: false,
            }),
        ],
        is_optional: false,
        is_list: false,
    };

    let info_struct = match info {
        InstructMacroResult::Struct(s) => s,
        _ => panic!("Expected StructInfo"),
    };
    assert!(info_struct == desired_struct);
}

#[test]
fn test_single_enum() {
    let info = InstructMacroResult::Enum(EnumInfo {
        title: "Status".to_string(),
        values: vec![
            "Active".to_string(),
            "Inactive".to_string(),
            "Pending".to_string(),
        ],
        ty: "Status".to_string(),
        description: "".to_string(),
        is_optional: false,
        is_list: false,
    });

    let desired_enum = EnumInfo {
        title: "Status".to_string(),
        values: vec![
            "Active".to_string(),
            "Inactive".to_string(),
            "Pending".to_string(),
        ],
        ty: "Status".to_string(),
        description: "".to_string(),
        is_optional: false,
        is_list: false,
    };

    let info_enum = match info {
        InstructMacroResult::Enum(e) => e,
        _ => panic!("Expected EnumInfo"),
    };

    assert!(info_enum == desired_enum);
}

#[test]
fn test_enum_as_struct_property() {
    let mut parameters = vec![Parameter::Field(ParameterInfo {
        name: "name".to_string(),
        ty: "String".to_string(),
        comment: "".to_string(),
        is_optional: false,
        is_list: false,
    })];
    parameters.push(
        status_get_info()
            .override_description("".to_string())
            .set_optional(false)
            .set_list(false)
            .wrap_info("status".to_string()),
    );
    let info = InstructMacroResult::Struct(StructInfo {
        name: "User".to_string(),
        description: "".to_string(),
        parameters,
        is_optional: false,
        is_list: false,
    });

    let desired_struct = StructInfo {
        name: "User".to_string(),
        description: "".to_string(),
        parameters: vec![
            Parameter::Field(ParameterInfo {
                name: "name".to_string(),
                ty: "String".to_string(),
                comment: "".to_string(),
                is_optional: false,
                is_list: false,
            }),
            Parameter::Enum(EnumInfo {
                title: "status".to_string(),
                values: vec![
                    "Active".to_string(),
                    "Inactive".to_string(),
                    "Pending".to_string(),
                ],
                ty: "Status".to_string(),
                description: "This is an enum representing the status of a person".to_string(),
                is_optional: false,
                is_list: false,
            }),
        ],
        is_optional: false,
        is_list: false,
    };

    let info_struct = match info {
        InstructMacroResult::Struct(s) => s,
        _ => panic!("Expected StructInfo"),
    };

    println!("info_struct: {:?}", info_struct);
    println!("desired_struct: {:?}", desired_struct);

    assert!(info_struct == desired_struct);
}

#[test]
fn test_option_type_support() {
    let info = InstructMacroResult::Struct(StructInfo {
        name: "TestOptionStruct".to_string(),
        description: "This is a struct with Option types".to_string(),
        parameters: vec![
            Parameter::Field(ParameterInfo {
                name: "field1".to_string(),
                ty: "Option<String>".to_string(),
                comment: "This is an optional string field".to_string(),
                is_optional: true,
                is_list: false,
            }),
            Parameter::Field(ParameterInfo {
                name: "field2".to_string(),
                ty: "Option<i32>".to_string(),
                comment: "This is an optional integer field".to_string(),
                is_optional: true,
                is_list: false,
            }),
        ],
        is_optional: false,
        is_list: false,
    });
    let desired_struct = StructInfo {
        name: "TestOptionStruct".to_string(),
        description: "This is a struct with Option types".to_string(),
        is_optional: false,
        is_list: false,
        parameters: vec![
            Parameter::Field(ParameterInfo {
                name: "field1".to_string(),
                ty: "Option<String>".to_string(),
                comment: "This is an optional string field".to_string(),
                is_optional: true,
                is_list: false,
            }),
            Parameter::Field(ParameterInfo {
                name: "field2".to_string(),
                ty: "Option<i32>".to_string(),
                comment: "This is an optional integer field".to_string(),
                is_optional: true,
                is_list: false,
            }),
        ],
    };

    let info_struct = match info {
        InstructMacroResult::Struct(s) => s,
        _ => panic!("Expected StructInfo"),
    };

    assert_eq!(info_struct, desired_struct);
}

#[test]
fn test_option_maybe_struct() {
    let mut parameters: Vec<Parameter> = Vec::new();
    parameters.push(
        described_user_get_info()
            .override_description("This is an optional user field".to_string())
            .set_optional(true)
            .wrap_info("user".to_string()),
    );
    let info = InstructMacroResult::Struct(StructInfo {
        name: "MaybeUser".to_string(),
        description: "This is a struct with Option<user> type".to_string(),
        parameters,
        is_optional: false,
        is_list: false,
    });

    let desired_struct = StructInfo {
        name: "MaybeUser".to_string(),
        description: "This is a struct with Option<user> type".to_string(),
        parameters: vec![Parameter::Struct(StructInfo {
            name: "user".to_string(),
            description: "This is an optional user field".to_string(),
            parameters: vec![
                Parameter::Field(ParameterInfo {
                    name: "name".to_string(),
                    ty: "String".to_string(),
                    comment: "This is the user's name".to_string(),
                    is_optional: false,
                    is_list: false,
                }),
                Parameter::Field(ParameterInfo {
                    name: "age".to_string(),
                    ty: "i32".to_string(),
                    comment: "This is the user's age".to_string(),
                    is_optional: false,
                    is_list: false,
                }),
            ],
            is_optional: true,
            is_list: false,
        })],
        is_optional: false,
        is_list: false,
    };

    let info_struct = match info {
        InstructMacroResult::Struct(s) => s,
        _ => panic!("Expected StructInfo"),
    };

    assert_eq!(info_struct, desired_struct);
}

#[test]
fn test_vec_simple_type() {
    let info = InstructMacroResult::Struct(StructInfo {
        name: "Numbers".to_string(),
        description: "This is a struct with Option types".to_string(),
        parameters: vec![Parameter::Field(ParameterInfo {
            name: "numbers".to_string(),
            ty: "i32".to_string(),
            comment: "This is a list of numbers".to_string(),
            is_optional: false,
            is_list: true,
        })],
        is_optional: false,
        is_list: false,
    });

    let desired_struct = StructInfo {
        name: "Numbers".to_string(),
        description: "This is a struct with Option types".to_string(),
        parameters: vec![Parameter::Field(ParameterInfo {
            name: "numbers".to_string(),
            ty: "i32".to_string(),
            comment: "This is a list of numbers".to_string(),
            is_optional: false,
            is_list: true,
        })],
        is_optional: false,
        is_list: false,
    };

    let info_struct = match info {
        InstructMacroResult::Struct(s) => s,
        _ => panic!("Expected StructInfo"),
    };

    assert_eq!(info_struct, desired_struct);
}

#[test]
fn test_vec_struct() {
    let mut parameters: Vec<Parameter> = Vec::new();
    parameters.push(
        named_user_get_info()
            .override_description("This is a list of users".to_string())
            .set_optional(false)
            .set_list(true)
            .wrap_info("users".to_string()),
    );
    let info = InstructMacroResult::Struct(StructInfo {
        name: "Users".to_string(),
        description: "This is a struct with Option types".to_string(),
        parameters,
        is_optional: false,
        is_list: false,
    });

    let desired_struct = StructInfo {
        name: "Users".to_string(),
        description: "This is a struct with Option types".to_string(),
        parameters: vec![Parameter::Struct(StructInfo {
            name: "users".to_string(),
            description: "This is a list of users".to_string(),
            parameters: vec![Parameter::Field(ParameterInfo {
                name: "name".to_string(),
                ty: "String".to_string(),
                comment: "This is a list of numbers".to_string(),
                is_optional: false,
                is_list: false,
            })],
            is_optional: false,
            is_list: true,
        })],
        is_optional: false,
        is_list: false,
    };
    let info_struct = match info {
        InstructMacroResult::Struct(s) => s,
        _ => panic!("Expected StructInfo"),
    };

    assert_eq!(info_struct, desired_struct);
}
