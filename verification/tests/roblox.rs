use lua_to_ts::roblox::{compare_names, name_before, sorted_unique_positions, transform_dom, Dom, Instance};
use lua_to_ts::ts::{Ident, ModuleItem, TsEntityName, TsType, TsTypeElement};
use std::cmp::Ordering;

fn instance(name: &str, class: &str, children: Vec<Instance>) -> Instance {
    Instance { name: name.to_owned(), class: class.to_owned(), children }
}

fn id(name: &str) -> Ident {
    Ident { sym: name.to_owned() }
}

fn class_ref(class: &str) -> TsType {
    TsType::TypeRef { name: TsEntityName::Ident(id(class)), params: None }
}

fn property(name: &str, type_ann: TsType) -> TsTypeElement {
    TsTypeElement::Property { key: id(name), optional: false, type_ann: Box::new(type_ann) }
}

#[test]
fn names_compare_as_strings_do() {
    assert_eq!(compare_names("a", "b"), Ordering::Less);
    assert_eq!(compare_names("b", "a"), Ordering::Greater);
    assert_eq!(compare_names("ab", "ab"), Ordering::Equal);
    assert_eq!(compare_names("a", "ab"), Ordering::Less);
    assert_eq!(compare_names("Z", "a"), Ordering::Less);
    assert_eq!(compare_names("é", "z"), Ordering::Greater);
    assert!(name_before("", "a"));
    assert!(!name_before("a", "a"));
}

#[test]
fn positions_keep_the_first_of_each_name_in_name_order() {
    let children = vec![
        instance("b", "Part", vec![]),
        instance("a", "Folder", vec![]),
        instance("b", "Model", vec![]),
        instance("c", "Part", vec![]),
    ];
    assert_eq!(sorted_unique_positions(&children), vec![1, 0, 3]);
}

#[test]
fn model_becomes_sorted_interfaces() {
    let root = instance(
        "root",
        "DataModel",
        vec![
            instance(
                "Zeta",
                "Model",
                vec![
                    instance("b", "Part", vec![]),
                    instance("a", "Folder", vec![instance("inner", "Part", vec![])]),
                    instance("b", "Script", vec![]),
                ],
            ),
            instance("Alpha", "Folder", vec![]),
            instance("Zeta", "Part", vec![]),
        ],
    );
    let items = transform_dom(Dom { root });
    assert_eq!(
        items,
        vec![
            ModuleItem::ExportInterface { id: id("Alpha"), extends: id("Folder"), body: vec![] },
            ModuleItem::ExportInterface {
                id: id("Zeta"),
                extends: id("Model"),
                body: vec![
                    property(
                        "a",
                        TsType::Intersection(vec![
                            class_ref("Folder"),
                            TsType::TypeLit(vec![property("inner", class_ref("Part"))]),
                        ]),
                    ),
                    property("b", class_ref("Part")),
                ],
            },
        ]
    );
}

#[test]
fn empty_model_has_no_interfaces() {
    assert_eq!(transform_dom(Dom { root: instance("root", "DataModel", vec![]) }), vec![]);
}
