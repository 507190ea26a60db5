use crud_schema::generate;
use crud_schema::schema::SchemaErrorKind;

const SCHEMA: &str = "Library; \
    root Book { ordered_children: BookChapter, batch_children: Tag, singleton_children: Cover } \
    ordered_child BookChapter { parent: Book } \
    batch Tag { parent: Book } \
    singleton Cover { parent: Book } \
    singleton Settings {}";

#[test]
fn generated_source_is_token_stream() {
    let src = generate(SCHEMA).unwrap();
    let parsed: Result<proc_macro2::TokenStream, _> = src.parse();
    assert!(parsed.is_ok());
}

#[test]
fn repository_trait_lists_managers() {
    let src = generate(SCHEMA).unwrap();
    assert!(src.contains("pub trait Library: Send + Sync {\n"));
    assert!(src.contains(
        "    fn manage_book(&self) -> &::fractic_aws_dynamo::ext::crud::ManageRootUnorderedWithChildren<Book>;\n"
    ));
    assert!(src.contains(
        "    fn manage_book_chapter(&self) -> &::fractic_aws_dynamo::ext::crud::ManageChildOrdered<BookChapter>;\n"
    ));
    assert!(src.contains("    fn manage_tag(&self) -> &::fractic_aws_dynamo::ext::crud::ManageChildBatch<Tag>;\n"));
    assert!(src.contains("    fn manage_cover(&self) -> &::fractic_aws_dynamo::ext::crud::ManageChildSingleton<Cover>;\n"));
    assert!(src.contains(
        "    fn manage_settings(&self) -> &::fractic_aws_dynamo::ext::crud::ManageRootSingleton<Settings>;\n"
    ));
    assert!(src.contains("impl ::fractic_aws_dynamo::ext::crud::ParentOf<BookChapter> for Book {}\n"));
}

#[test]
fn interfaces_and_forwarding() {
    let src = generate(SCHEMA).unwrap();
    assert!(src.contains("pub trait BookCrud {\n"));
    assert!(src.contains("impl BookCrud for Book {\n"));
    assert!(src.contains(
        "async fn add_chapter(&self, repo: &dyn Library, data: BookChapterData, after: ::std::option::Option<&BookChapter>) -> ::std::result::Result<BookChapter, ::fractic_server_error::ServerError> {\n    repo.manage_book_chapter().add(self, data, after).await\n}\n"
    ));
    assert!(src.contains(
        "#[allow(non_snake_case)]\nasync fn delete_non_recursive_DANGEROUS(self, repo: &dyn Library) -> ::std::result::Result<BookData, ::fractic_server_error::ServerError>;\n"
    ));
    assert!(src.contains(
        "async fn unchecked_add(repo: &dyn Library, parent_id: ::fractic_aws_dynamo::schema::PkSk, data: BookChapterData, after: ::std::option::Option<&BookChapter>) -> ::std::result::Result<BookChapter, ::fractic_server_error::ServerError> {\n    let parent = Book::placeholder(parent_id);\n    repo.manage_book_chapter().add(&parent, data, after).await\n}\n"
    ));
    assert!(src.contains("async fn get(repo: &dyn Library) -> ::std::result::Result<Settings, ::fractic_server_error::ServerError> {\n    repo.manage_settings().get().await\n}\n"));
    assert!(src.contains("async fn list_tags(&self, repo: &dyn Library)"));
    assert!(src.contains("pub fn placeholder(id: ::fractic_aws_dynamo::schema::PkSk) -> Self {"));
}

#[test]
fn handlers_for_collections_only() {
    let src = generate(SCHEMA).unwrap();
    assert!(src.contains("pub async fn manage_book_handler(repo: &dyn Library, operation: ::fractic_aws_apigateway::CrudOperation<Book>)"));
    assert!(src.contains("pub async fn manage_book_chapter_handler("));
    assert!(src.contains("pub async fn manage_tag_handler("));
    assert!(!src.contains("manage_cover_handler"));
    assert!(!src.contains("manage_settings_handler"));
    assert!(src.contains(
        "        List { parent_id: ::std::option::Option::Some(parent_id) } => ::std::result::Result::Err(::fractic_aws_apigateway::InvalidCrudRequestParameters::new(\"operations on Book do not allow a parent ID\").into()),\n"
    ));
    assert!(src.contains(
        "        Create { parent_id: ::std::option::Option::Some(parent_id), after: ::std::option::Option::None, data } => ::std::result::Result::Err(::fractic_aws_apigateway::InvalidCrudRequestParameters::new(\"operation not supported for batch collection Tag\").into()),\n"
    ));
}

#[test]
fn generation_reports_schema_errors() {
    let e = generate("Repo; batch C { parent: A, ordered_children: D }").unwrap_err();
    assert_eq!(e.kind, SchemaErrorKind::LeafWithChildren);
    assert_eq!(e.pos, 12);
}

#[test]
fn replace_all_forwards_to_the_ordered_primitive() {
    let src = generate(SCHEMA).unwrap();
    assert!(src.contains(
        "async fn batch_replace_all_tags(&self, repo: &dyn Library, data: ::std::vec::Vec<TagData>) -> ::std::result::Result<(), ::fractic_server_error::ServerError> {\n    repo.manage_tag().batch_replace_all_ordered(self, data).await\n}\n"
    ));
    assert!(src.contains("    let parent = Book::placeholder(parent_id);\n    repo.manage_tag().batch_replace_all_ordered(&parent, data).await\n"));
    assert!(src.contains("repo.manage_tag().batch_replace_all_ordered(&parent, data).await?;"));
    assert!(!src.contains(".batch_replace_all("));
}
