use crud_schema::compile_schema;
use crud_schema::handler::{plan_request, Call, Envelope, Rejection};
use crud_schema::model::ConfigModel;
use crud_schema::schema::{ConfigAst, ObjectKind, Prop, SchemaErrorKind, Span};

fn text_of(m: &ConfigModel, sp: Span) -> String {
    m.text[sp.start..sp.end].iter().collect()
}

#[test]
fn kind_keywords() {
    assert_eq!(ObjectKind::from_str("root"), Some(ObjectKind::Root));
    assert_eq!(ObjectKind::from_str("ordered_child"), Some(ObjectKind::OrderedChild));
    assert_eq!(ObjectKind::from_str("unordered_child"), Some(ObjectKind::UnorderedChild));
    assert_eq!(ObjectKind::from_str("batch"), Some(ObjectKind::Batch));
    assert_eq!(ObjectKind::from_str("singleton"), Some(ObjectKind::Singleton));
    assert_eq!(ObjectKind::from_str("singleton_family"), Some(ObjectKind::SingletonFamily));
    assert_eq!(ObjectKind::from_str("child"), None);
    assert_eq!(ObjectKind::from_str("Root"), None);
    assert!(ObjectKind::is_keyword_ident("batch"));
    assert!(!ObjectKind::is_keyword_ident("Repo"));
    assert_eq!(ObjectKind::Batch.keyword(), "batch");
    assert!(ObjectKind::expected_list().contains("`singleton_family`"));
}

#[test]
fn root_with_unordered_child_compiles() {
    let m = compile_schema("Repo; root A { unordered_children: B } unordered_child B { parent: A }")
        .unwrap();
    assert_eq!(text_of(&m, m.repository_name), "Repo");
    assert_eq!(m.objects.len(), 2);
    let a = &m.objects[0];
    let b = &m.objects[1];
    assert_eq!(a.kind, ObjectKind::Root);
    assert_eq!(text_of(&m, a.name), "A");
    assert!(a.parents.is_empty());
    assert_eq!(a.unordered_children.len(), 1);
    assert_eq!(text_of(&m, a.unordered_children[0]), "B");
    assert!(a.has_children());
    assert_eq!(b.kind, ObjectKind::UnorderedChild);
    assert_eq!(b.parents.len(), 1);
    assert_eq!(text_of(&m, b.parents[0]), "A");
    assert!(!b.has_children());
}

#[test]
fn batch_with_children_is_rejected() {
    let e = compile_schema("Repo; batch C { parent: A, ordered_children: D }").unwrap_err();
    assert_eq!(e.kind, SchemaErrorKind::LeafWithChildren);
    assert_eq!(e.pos, 12);
    assert!(e.kind.message().contains("cannot have children"));
}

#[test]
fn lists_properties_and_separators() {
    let ast = ConfigAst::parse(
        "R;\n root A { ordered_children: B, C, batch_children: D singleton_children: E }\n\
         ordered_child B { parent: A, X }",
    )
    .unwrap();
    assert_eq!(ast.objects.len(), 2);
    let a = &ast.objects[0];
    assert_eq!(a.ordered_children.len(), 2);
    assert_eq!(a.batch_children.len(), 1);
    assert_eq!(a.singleton_children.len(), 1);
    assert!(a.unordered_children.is_empty());
    assert!(a.parent.is_none());
    let b = &ast.objects[1];
    assert_eq!(b.parent.as_ref().map(|p| p.len()), Some(2));
}

#[test]
fn empty_schema_body() {
    let m = compile_schema("Repo;").unwrap();
    assert!(m.objects.is_empty());
}

#[test]
fn parse_errors() {
    let e = ConfigAst::parse("").unwrap_err();
    assert_eq!((e.kind, e.pos), (SchemaErrorKind::ExpectedIdent, 0));
    let e = ConfigAst::parse("Repo root A {}").unwrap_err();
    assert_eq!((e.kind, e.pos), (SchemaErrorKind::ExpectedSemicolon, 0));
    let e = ConfigAst::parse("root A {}").unwrap_err();
    assert_eq!((e.kind, e.pos), (SchemaErrorKind::MissingRepositoryName, 0));
    let e = ConfigAst::parse("R; child A {}").unwrap_err();
    assert_eq!((e.kind, e.pos), (SchemaErrorKind::UnknownKind, 3));
    let e = ConfigAst::parse("R; root A ( }").unwrap_err();
    assert_eq!((e.kind, e.pos), (SchemaErrorKind::ExpectedOpenBrace, 10));
    let e = ConfigAst::parse("R; root A : }").unwrap_err();
    assert_eq!((e.kind, e.pos), (SchemaErrorKind::ExpectedOpenBrace, 10));
    let e = ConfigAst::parse("R; root A { children: B }").unwrap_err();
    assert_eq!((e.kind, e.pos), (SchemaErrorKind::UnknownProperty, 12));
    let e = ConfigAst::parse("R; root A { batch_children B }").unwrap_err();
    assert_eq!((e.kind, e.pos), (SchemaErrorKind::ExpectedColon, 27));
    let e = ConfigAst::parse("R; root A { batch_children: B, }").unwrap_err();
    assert_eq!((e.kind, e.pos), (SchemaErrorKind::ExpectedIdentAfterComma, 31));
    let e = ConfigAst::parse("R; root A { batch_children: B").unwrap_err();
    assert_eq!((e.kind, e.pos), (SchemaErrorKind::UnexpectedEnd, 29));
    let e = ConfigAst::parse("R; root A { batch_children: }").unwrap_err();
    assert_eq!((e.kind, e.pos), (SchemaErrorKind::ExpectedIdent, 28));
}

#[test]
fn duplicate_property_is_an_error() {
    let e = ConfigAst::parse("R; ordered_child A { parent: X, parent: Y }").unwrap_err();
    assert_eq!(e.kind, SchemaErrorKind::DuplicateProperty(Prop::Parent));
    assert_eq!(e.pos, 32);
    assert_eq!(e.kind.message(), "duplicate `parent` property");
    let e = ConfigAst::parse("R; root A { batch_children: X batch_children: Y }").unwrap_err();
    assert_eq!(e.kind, SchemaErrorKind::DuplicateProperty(Prop::BatchChildren));
}

#[test]
fn model_errors() {
    let e = compile_schema("R; root A { parent: B }").unwrap_err();
    assert_eq!((e.kind, e.pos), (SchemaErrorKind::RootWithParent, 8));
    let e = compile_schema("R; root A {} ordered_child B {}").unwrap_err();
    assert_eq!((e.kind, e.pos), (SchemaErrorKind::MissingParent, 27));
    let e = compile_schema("R; batch B { }").unwrap_err();
    assert_eq!((e.kind, e.pos), (SchemaErrorKind::MissingParent, 9));
    let e = compile_schema("R; singleton S { unordered_children: T }").unwrap_err();
    assert_eq!((e.kind, e.pos), (SchemaErrorKind::LeafWithChildren, 13));
    let e = compile_schema("R; singleton_family S { parent: A, batch_children: T }").unwrap_err();
    assert_eq!((e.kind, e.pos), (SchemaErrorKind::LeafWithChildren, 20));
}

#[test]
fn singletons_may_be_top_level() {
    let m = compile_schema("R; singleton S {} singleton_family F { parent: A } root A { singleton_family_children: F }")
        .unwrap();
    assert_eq!(m.objects[0].kind, ObjectKind::Singleton);
    assert!(m.objects[0].parents.is_empty());
    assert_eq!(m.objects[1].kind, ObjectKind::SingletonFamily);
    assert_eq!(m.objects[1].parents.len(), 1);
}

#[test]
fn dangling_names_are_errors() {
    let e = compile_schema("R; root A { ordered_children: B }").unwrap_err();
    assert_eq!((e.kind, e.pos), (SchemaErrorKind::UnknownObject, 30));
    let e = compile_schema("R; root A {} unordered_child B { parent: Q }").unwrap_err();
    assert_eq!((e.kind, e.pos), (SchemaErrorKind::UnknownObject, 41));
    assert!(e.kind.message().starts_with("unknown object"));
    assert!(compile_schema("R; root A {} unordered_child B { parent: A }").is_ok());
}

#[test]
fn names_in_the_model() {
    let m = compile_schema("Shop; root Order {}").unwrap();
    assert_eq!(m.name_of(m.repository_name), "Shop");
    assert_eq!(m.name_of(m.objects[0].name), "Order");
}

#[test]
fn unordered_child_requires_parent_id_for_collection_operations() {
    let m = compile_schema("Repo; root A { unordered_children: B } unordered_child B { parent: A }")
        .unwrap();
    let b = &m.objects[1];
    for req in [
        Envelope::List { parent_id: false },
        Envelope::Create { parent_id: false, after: false },
        Envelope::CreateBatch { parent_id: false, after: false },
        Envelope::DeleteAll { parent_id: false, non_recursive: true },
        Envelope::ReplaceAll { parent_id: false },
    ] {
        assert_eq!(plan_request(b.kind, b.has_children(), req), Err(Rejection::ParentIdRequired));
    }
    let a = &m.objects[0];
    assert_eq!(
        plan_request(a.kind, a.has_children(), Envelope::Create { parent_id: false, after: false }),
        Ok(Call::Add { under_parent: false, after: false })
    );
}

#[test]
fn lone_repository_name_lacks_semicolon() {
    let e = ConfigAst::parse("Repo").unwrap_err();
    assert_eq!((e.kind, e.pos), (SchemaErrorKind::ExpectedSemicolon, 0));
    let e = ConfigAst::parse("  root ").unwrap_err();
    assert_eq!((e.kind, e.pos), (SchemaErrorKind::MissingRepositoryName, 2));
}

#[test]
fn earlier_grammar_error_comes_before_stray_character() {
    let e = ConfigAst::parse("R; child A ( }").unwrap_err();
    assert_eq!((e.kind, e.pos), (SchemaErrorKind::UnknownKind, 3));
    let e = ConfigAst::parse("R; root A { parent: B, parent: C } %").unwrap_err();
    assert_eq!(e.kind, SchemaErrorKind::DuplicateProperty(Prop::Parent));
    let e = ConfigAst::parse("R; root A { } %").unwrap_err();
    assert_eq!((e.kind, e.pos), (SchemaErrorKind::UnexpectedChar, 14));
}

#[test]
fn foreign_character_reports_what_was_expected() {
    let e = ConfigAst::parse("Repo.").unwrap_err();
    assert_eq!((e.kind, e.pos), (SchemaErrorKind::ExpectedSemicolon, 0));
    let e = ConfigAst::parse("Repo - root A {}").unwrap_err();
    assert_eq!((e.kind, e.pos), (SchemaErrorKind::ExpectedSemicolon, 0));
    let e = ConfigAst::parse("batch.").unwrap_err();
    assert_eq!((e.kind, e.pos), (SchemaErrorKind::MissingRepositoryName, 0));
    let e = ConfigAst::parse("R; root A { parent . }").unwrap_err();
    assert_eq!((e.kind, e.pos), (SchemaErrorKind::ExpectedColon, 19));
    let e = ConfigAst::parse("R; root %").unwrap_err();
    assert_eq!((e.kind, e.pos), (SchemaErrorKind::ExpectedIdent, 8));
    let e = ConfigAst::parse("R; %").unwrap_err();
    assert_eq!((e.kind, e.pos), (SchemaErrorKind::UnexpectedChar, 3));
}

#[test]
fn diagnostics_name_the_unknown_word() {
    let text = "R; child A {}";
    let e = ConfigAst::parse(text).unwrap_err();
    assert_eq!(
        e.message_in(text),
        "unknown type `child`; expected `root`, `ordered_child`, `unordered_child`, `batch`, `singleton`, or `singleton_family`"
    );
    let text = "R; root A { children: B }";
    let e = ConfigAst::parse(text).unwrap_err();
    assert_eq!(
        e.message_in(text),
        "unknown property `children`; expected one of: `parent`, `ordered_children`, `unordered_children`, `batch_children`, `singleton_children`, `singleton_family_children`"
    );
    let text = "R; root A { parent: B, parent: C }";
    let e = ConfigAst::parse(text).unwrap_err();
    assert_eq!(e.message_in(text), "duplicate `parent` property");
}
