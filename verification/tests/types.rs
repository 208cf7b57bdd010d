use lua_to_ts::lua::{
    GenericDeclaration, GenericDeclarationParameter, GenericParameterInfo, IndexedTypeInfo,
    TypeArgument, TypeDeclaration, TypeField, TypeFieldKey, TypeInfo,
};
use lua_to_ts::statements::transform_type_declaration::{
    skip_type, transform_type_declaration as declaration_statement,
};
use lua_to_ts::ts::{
    BindingIdent, Ident, Stmt, Str, TsEntityName, TsType, TsTypeElement, TsTypeParam,
    TsTypeParamDecl,
};
use lua_to_ts::types::transform_table_type::transform_table_type;
use lua_to_ts::types::transform_type::transform_type;
use lua_to_ts::types::transform_type_declaration::transform_type_declaration;
use lua_to_ts::types::transform_type_generic::{skipped_type_name, transform_type_generic};

fn id(name: &str) -> Ident {
    Ident { sym: name.to_owned() }
}

fn basic(name: &str) -> TypeInfo {
    TypeInfo::Basic(name.to_owned())
}

fn type_ref(name: &str) -> TsType {
    TsType::TypeRef { name: TsEntityName::Ident(id(name)), params: None }
}

fn lit(text: &str) -> TsType {
    TsType::LitStr(Str { value: text.to_owned() })
}

#[test]
fn basic_and_array_types() {
    assert_eq!(*transform_type(&basic("string")), type_ref("string"));
    assert_eq!(
        *transform_type(&TypeInfo::Array(Box::new(basic("number")))),
        TsType::Array(Box::new(type_ref("number")))
    );
}

#[test]
fn literal_types() {
    assert_eq!(*transform_type(&TypeInfo::String("\"a\"".to_owned())), lit("\"a\""));
    assert_eq!(*transform_type(&TypeInfo::Boolean("true".to_owned())), TsType::LitBool(true));
    assert_eq!(*transform_type(&TypeInfo::Boolean("false".to_owned())), TsType::LitBool(false));
}

#[test]
fn optional_becomes_union_with_undefined() {
    assert_eq!(
        *transform_type(&TypeInfo::Optional { base: Box::new(basic("number")) }),
        TsType::Union(vec![type_ref("number"), TsType::Undefined])
    );
}

#[test]
fn union_and_intersection() {
    let u = TypeInfo::Union { left: Box::new(basic("a")), right: Box::new(basic("b")) };
    assert_eq!(*transform_type(&u), TsType::Union(vec![type_ref("a"), type_ref("b")]));
    let i = TypeInfo::Intersection { left: Box::new(basic("a")), right: Box::new(basic("b")) };
    assert_eq!(*transform_type(&i), TsType::Intersection(vec![type_ref("a"), type_ref("b")]));
}

#[test]
fn generic_and_module_types() {
    let g = TypeInfo::Generic { base: "Map".to_owned(), generics: vec![basic("string"), basic("number")] };
    assert_eq!(
        *transform_type(&g),
        TsType::TypeRef {
            name: TsEntityName::Ident(id("Map")),
            params: Some(vec![type_ref("string"), type_ref("number")]),
        }
    );
    let m = TypeInfo::Module { module: "mod".to_owned(), type_info: Box::new(IndexedTypeInfo::Basic("T".to_owned())) };
    assert_eq!(
        *transform_type(&m),
        TsType::TypeRef { name: TsEntityName::Qualified { left: id("mod"), right: id("T") }, params: None }
    );
}

#[test]
fn callback_names_unnamed_arguments_underscore() {
    let c = TypeInfo::Callback {
        generics: None,
        arguments: vec![
            TypeArgument { name: Some("x".to_owned()), type_info: basic("number") },
            TypeArgument { name: None, type_info: basic("string") },
        ],
        return_type: Box::new(basic("boolean")),
    };
    assert_eq!(
        *transform_type(&c),
        TsType::Fn {
            type_params: None,
            params: vec![
                BindingIdent { id: id("x"), type_ann: Some(Box::new(type_ref("number"))) },
                BindingIdent { id: id("_"), type_ann: Some(Box::new(type_ref("string"))) },
            ],
            ret: Box::new(type_ref("boolean")),
        }
    );
}

#[test]
fn tuples_become_lua_tuples() {
    let one = TypeInfo::Tuple { types: vec![basic("number")] };
    assert_eq!(*transform_type(&one), TsType::Paren(Box::new(type_ref("number"))));
    let two = TypeInfo::Tuple {
        types: vec![basic("number"), TypeInfo::Variadic { type_info: Box::new(basic("string")) }],
    };
    assert_eq!(
        *transform_type(&two),
        TsType::TypeRef {
            name: TsEntityName::Ident(id("LuaTuple")),
            params: Some(vec![TsType::Tuple(vec![
                type_ref("number"),
                TsType::Rest(Box::new(TsType::Array(Box::new(type_ref("string"))))),
            ])]),
        }
    );
}

#[test]
fn variadic_becomes_lua_tuple_of_array() {
    let v = TypeInfo::Variadic { type_info: Box::new(basic("number")) };
    assert_eq!(
        *transform_type(&v),
        TsType::TypeRef {
            name: TsEntityName::Ident(id("LuaTuple")),
            params: Some(vec![TsType::Array(Box::new(type_ref("number")))]),
        }
    );
}

#[test]
fn untransformable_types_are_reported() {
    assert_eq!(
        *transform_type(&TypeInfo::Typeof { source: "typeof(x)".to_owned() }),
        lit("[lua-to-ts] Failed to transform: `typeof(x)` because: TS has no functional equivalent of Luau typeof")
    );
    assert_eq!(
        *transform_type(&TypeInfo::GenericPack { source: "T...".to_owned() }),
        lit("[lua-to-ts] Failed to transform: `T...` because: TS does not allow variadic type arguments")
    );
    assert_eq!(
        *transform_type(&TypeInfo::Other("?".to_owned())),
        lit("[lua-to-ts] Failed to transform: `?` because: Unknown TypeInfo kind")
    );
}

#[test]
fn table_types_become_type_literals() {
    let fields = vec![
        TypeField { key: TypeFieldKey::Name("a".to_owned()), value: basic("number") },
        TypeField {
            key: TypeFieldKey::Name("b".to_owned()),
            value: TypeInfo::Optional { base: Box::new(basic("string")) },
        },
        TypeField { key: TypeFieldKey::IndexSignature(basic("string")), value: basic("boolean") },
    ];
    assert_eq!(
        transform_table_type(&fields),
        TsType::TypeLit(vec![
            TsTypeElement::Property { key: id("a"), optional: false, type_ann: Box::new(type_ref("number")) },
            TsTypeElement::Property {
                key: id("b"),
                optional: true,
                type_ann: Box::new(TsType::Union(vec![type_ref("string"), TsType::Undefined])),
            },
            TsTypeElement::Index {
                param: id("_"),
                param_type: Box::new(type_ref("string")),
                type_ann: Box::new(type_ref("boolean")),
            },
        ])
    );
}

#[test]
fn generic_parameters_keep_defaults() {
    let g = GenericDeclaration {
        generics: vec![
            GenericDeclarationParameter {
                parameter: GenericParameterInfo::Name("T".to_owned()),
                default_type: Some(basic("number")),
                source: "T = number".to_owned(),
            },
            GenericDeclarationParameter {
                parameter: GenericParameterInfo::Variadic { source: "U...".to_owned() },
                default_type: None,
                source: "U...".to_owned(),
            },
        ],
    };
    assert_eq!(
        transform_type_generic(Some(&g)),
        Some(TsTypeParamDecl {
            params: vec![
                TsTypeParam { name: id("T"), constraint: None, default: Some(Box::new(type_ref("number"))) },
                TsTypeParam {
                    name: id("FailedToTransformType"),
                    constraint: Some(Box::new(lit(
                        "[lua-to-ts] Failed to transform: `U...` because: variadic type generic not supported"
                    ))),
                    default: None,
                },
            ],
        })
    );
    assert_eq!(transform_type_generic(None), None);
    assert_eq!(skipped_type_name(), id("FailedToTransformType"));
}

#[test]
fn type_declaration_becomes_type_alias() {
    let d = TypeDeclaration {
        name: "Pair".to_owned(),
        name_source: "Pair".to_owned(),
        generics: Some(GenericDeclaration {
            generics: vec![GenericDeclarationParameter {
                parameter: GenericParameterInfo::Name("T".to_owned()),
                default_type: None,
                source: "T".to_owned(),
            }],
        }),
        type_definition: TypeInfo::Tuple { types: vec![basic("T"), basic("T")] },
    };
    let expected_type = TsType::TypeRef {
        name: TsEntityName::Ident(id("LuaTuple")),
        params: Some(vec![TsType::Tuple(vec![type_ref("T"), type_ref("T")])]),
    };
    assert_eq!(
        transform_type_declaration(&d),
        Stmt::TypeAlias {
            id: id("Pair"),
            type_params: Some(TsTypeParamDecl {
                params: vec![TsTypeParam { name: id("T"), constraint: None, default: None }],
            }),
            type_ann: Box::new(expected_type),
        }
    );
}

#[test]
fn declaration_statement_drops_generic_defaults() {
    let d = TypeDeclaration {
        name: "Box".to_owned(),
        name_source: "Box".to_owned(),
        generics: Some(GenericDeclaration {
            generics: vec![GenericDeclarationParameter {
                parameter: GenericParameterInfo::Name("T".to_owned()),
                default_type: Some(basic("number")),
                source: "T = number".to_owned(),
            }],
        }),
        type_definition: basic("T"),
    };
    assert_eq!(
        declaration_statement(&d),
        Stmt::TypeAlias {
            id: id("Box"),
            type_params: Some(TsTypeParamDecl {
                params: vec![TsTypeParam { name: id("T"), constraint: None, default: None }],
            }),
            type_ann: Box::new(type_ref("T")),
        }
    );
    assert_eq!(
        skip_type("bad: ", "X"),
        TsTypeParam { name: id("FailedToTransformType"), constraint: Some(Box::new(lit("bad: X"))), default: None }
    );
}
