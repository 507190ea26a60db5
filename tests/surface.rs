use crud_schema::compile_schema;
use crud_schema::model::ConfigModel;
use crud_schema::schema::Span;
use crud_schema::surface::{Method, Verb};

fn text_of(m: &ConfigModel, sp: Span) -> String {
    m.text[sp.start..sp.end].iter().collect()
}

fn names(m: &ConfigModel, i: usize) -> Vec<String> {
    let o = &m.objects[i];
    let owner = text_of(m, o.name);
    o.surface()
        .iter()
        .map(|meth: &Method| {
            let child = meth.child.map(|c| text_of(m, c)).unwrap_or_default();
            crud_schema::surface::method_ident(&owner, &child, *meth)
        })
        .collect()
}

const SCHEMA: &str = "Library; \
    root Book { ordered_children: BookChapter, batch_children: Tag, \
                singleton_children: Cover, singleton_family_children: Setting } \
    ordered_child BookChapter { parent: Book, unordered_children: Category } \
    unordered_child Category { parent: BookChapter } \
    batch Tag { parent: Book } \
    singleton Cover { parent: Book } \
    singleton_family Setting { parent: Book } \
    singleton Config {}";

#[test]
fn root_with_children_surface() {
    let m = compile_schema(SCHEMA).unwrap();
    assert_eq!(
        names(&m, 0),
        vec![
            "get", "update", "list", "add", "batch_add",
            "delete_recursive", "delete_non_recursive_DANGEROUS",
            "batch_delete_non_recursive_DANGEROUS", "batch_delete_all_non_recursive_DANGEROUS",
            "add_chapter", "batch_add_chapters", "list_chapters",
            "list_tags", "batch_delete_all_tags", "batch_replace_all_tags",
            "get_cover", "set_cover", "delete_cover",
            "get_setting", "set_setting", "batch_set_settings", "delete_setting",
            "batch_delete_settings", "list_settings", "batch_delete_all_settings",
        ]
    );
}

#[test]
fn child_surfaces() {
    let m = compile_schema(SCHEMA).unwrap();
    assert_eq!(
        names(&m, 1),
        vec![
            "get", "update", "unchecked_list", "unchecked_add", "unchecked_batch_add",
            "delete_recursive", "delete_non_recursive_DANGEROUS",
            "batch_delete_non_recursive_DANGEROUS",
            "add_category", "batch_add_categories", "list_categories",
        ]
    );
    assert_eq!(
        names(&m, 2),
        vec!["get", "update", "unchecked_list", "unchecked_add", "unchecked_batch_add", "delete", "batch_delete"]
    );
    let add = m.objects[1].surface()[3];
    assert_eq!(add.verb, Verb::Add);
    assert!(add.after && add.unchecked);
    let add = m.objects[2].surface()[3];
    assert!(!add.after && add.unchecked);
}

#[test]
fn leaf_surfaces() {
    let m = compile_schema(SCHEMA).unwrap();
    assert_eq!(
        names(&m, 3),
        vec!["unchecked_list", "unchecked_batch_delete_all", "unchecked_batch_replace_all"]
    );
    assert_eq!(names(&m, 4), vec!["unchecked_get", "unchecked_set", "unchecked_delete"]);
    assert_eq!(
        names(&m, 5),
        vec![
            "unchecked_get", "unchecked_set", "unchecked_batch_set", "unchecked_delete",
            "unchecked_batch_delete", "unchecked_list", "unchecked_batch_delete_all",
        ]
    );
    assert_eq!(names(&m, 6), vec!["get", "set", "delete"]);
    let fam = m.objects[5].surface();
    assert!(fam[0].keyed && fam[3].keyed && !fam[1].keyed);
}

#[test]
fn leaf_root_has_plain_deletes() {
    let m = compile_schema("Repo; root A { unordered_children: B } unordered_child B { parent: A } root C {}")
        .unwrap();
    assert_eq!(
        names(&m, 2),
        vec!["get", "update", "list", "add", "batch_add", "delete", "batch_delete", "batch_delete_all"]
    );
    let b = names(&m, 1);
    assert!(b.contains(&"delete".to_string()));
    assert!(!b.iter().any(|n| n.contains("recursive")));
    let a = names(&m, 0);
    assert!(a.contains(&"delete_recursive".to_string()));
    assert!(!a.contains(&"delete".to_string()));
}

#[test]
fn multi_parent_child_has_the_same_surface() {
    let one = compile_schema("R; root A {} unordered_child B { parent: A }").unwrap();
    let two = compile_schema("R; root A {} root Z {} unordered_child B { parent: A, Z }").unwrap();
    assert_eq!(names(&one, 1), names(&two, 2));
}
