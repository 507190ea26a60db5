//! Source emission: the interface and forwarding implementation of each
//! object, rendered from the operation surface through a small template
//! language in which `$` followed by a letter stands for a name of the
//! object at hand.
use vstd::prelude::*;
use crate::ident::{method_ident_for, prefixed_snake};
use crate::model::{ConfigModel, ConfigModelView, ObjectModel, ObjectModelView, model_spans_in, object_spans_in};
use crate::handler::{
    Call, Envelope, Rejection, carries_parent_id, collection_level, has_handler, item_level, lemma_batch_rejects_item_operations,
    lemma_owned_requires_parent_id, lemma_root_forbids_parent_id, plan, plan_request,
};
use crate::schema::{ObjectKind, Span, span_in, span_text};
use crate::surface::{Method, Verb, children_in, lemma_surface_children_in, method_ident, method_name_in, surface};
use crate::text::{chars_of, extend_chars, string_of};

verus! {

/// The names a template can refer to.
pub struct Names {
    /// `$R`: the repository trait.
    pub repo: Vec<char>,
    /// `$T`: the object type.
    pub ty: Vec<char>,
    /// `$D`: the object's data type.
    pub data: Vec<char>,
    /// `$M`: the repository's accessor for the object's manager.
    pub manager: Vec<char>,
    /// `$P`: the type a placeholder parent is built as.
    pub parent: Vec<char>,
    /// `$C`: the child type of a child-collection method.
    pub child: Vec<char>,
    /// `$E`: the child's data type.
    pub child_data: Vec<char>,
    /// `$K`: the repository's accessor for the child's manager.
    pub child_manager: Vec<char>,
    /// `$N`: the method name.
    pub name: Vec<char>,
}

pub struct NamesView {
    pub repo: Seq<char>,
    pub ty: Seq<char>,
    pub data: Seq<char>,
    pub manager: Seq<char>,
    pub parent: Seq<char>,
    pub child: Seq<char>,
    pub child_data: Seq<char>,
    pub child_manager: Seq<char>,
    pub name: Seq<char>,
}

impl View for Names {
    type V = NamesView;

    open spec fn view(&self) -> NamesView {
        NamesView {
            repo: self.repo@,
            ty: self.ty@,
            data: self.data@,
            manager: self.manager@,
            parent: self.parent@,
            child: self.child@,
            child_data: self.child_data@,
            child_manager: self.child_manager@,
            name: self.name@,
        }
    }
}

/// The name that `$c` stands for, if `c` is a placeholder letter.
pub open spec fn placeholder(n: NamesView, c: char) -> Option<Seq<char>> {
    if c == 'R' {
        Some(n.repo)
    } else if c == 'T' {
        Some(n.ty)
    } else if c == 'D' {
        Some(n.data)
    } else if c == 'M' {
        Some(n.manager)
    } else if c == 'P' {
        Some(n.parent)
    } else if c == 'C' {
        Some(n.child)
    } else if c == 'E' {
        Some(n.child_data)
    } else if c == 'K' {
        Some(n.child_manager)
    } else if c == 'N' {
        Some(n.name)
    } else {
        None
    }
}

/// The template with every placeholder replaced by its name; any other
/// character, a lone `$` included, stands for itself.
pub open spec fn expand(t: Seq<char>, n: NamesView) -> Seq<char>
    decreases t.len(),
{
    if t.len() == 0 {
        Seq::empty()
    } else if t[0] == '$' && t.len() >= 2 && placeholder(n, t[1]) is Some {
        placeholder(n, t[1])->0 + expand(t.skip(2), n)
    } else {
        seq![t[0]] + expand(t.skip(1), n)
    }
}

fn placeholder_of<'a>(n: &'a Names, c: char) -> (r: Option<&'a Vec<char>>)
    ensures
        match r {
            Some(v) => placeholder(n@, c) == Some(v@),
            None => placeholder(n@, c) is None,
        },
{
    if c == 'R' {
        Some(&n.repo)
    } else if c == 'T' {
        Some(&n.ty)
    } else if c == 'D' {
        Some(&n.data)
    } else if c == 'M' {
        Some(&n.manager)
    } else if c == 'P' {
        Some(&n.parent)
    } else if c == 'C' {
        Some(&n.child)
    } else if c == 'E' {
        Some(&n.child_data)
    } else if c == 'K' {
        Some(&n.child_manager)
    } else if c == 'N' {
        Some(&n.name)
    } else {
        None
    }
}

/// Appends the expansion of template `t` to `out`.
pub fn expand_into(out: &mut Vec<char>, t: &Vec<char>, n: &Names)
    ensures
        final(out)@ == old(out)@ + expand(t@, n@),
{
    let mut i: usize = 0;
    assert(t@.skip(0) =~= t@);
    while i < t.len()
        invariant
            i <= t.len(),
            old(out)@ + expand(t@, n@) == out@ + expand(t@.skip(i as int), n@),
        decreases t.len() - i,
    {
        let ghost rest = t@.skip(i as int);
        let ghost before = out@;
        if t[i] == '$' && i + 1 < t.len() {
            match placeholder_of(n, t[i + 1]) {
                Some(v) => {
                    extend_chars(out, v);
                    assert(rest.skip(2) =~= t@.skip(i + 2));
                    assert(before + (v@ + expand(rest.skip(2), n@)) =~= out@ + expand(t@.skip(i + 2), n@));
                    i += 2;
                    continue;
                },
                None => {},
            }
        }
        out.push(t[i]);
        assert(rest.skip(1) =~= t@.skip(i + 1));
        assert(before + (seq![t@[i as int]] + expand(rest.skip(1), n@)) =~= out@ + expand(t@.skip(i + 1), n@));
        i += 1;
    }
    assert(t@.skip(t.len() as int) =~= Seq::<char>::empty());
    assert(out@ + Seq::<char>::empty() =~= out@);
}

/// The rest of a method's signature after its name, and its body, by the
/// object's kind and the method. Each entry forwards to the manager
/// primitive of the same name; `$` marks a name filled in per object.
pub open spec fn method_template(kind: ObjectKind, m: Method) -> (Seq<char>, Seq<char>) {
    if m.child is None && (kind == ObjectKind::Root || kind == ObjectKind::OrderedChild || kind == ObjectKind::UnorderedChild) && m.verb == Verb::Get && !m.unchecked {
        ("(repo: &dyn $R, id: ::fractic_aws_dynamo::schema::PkSk) -> ::std::result::Result<$T, ::fractic_server_error::ServerError>"@, "repo.$M().get(id).await"@)
    } else if m.child is None && (kind == ObjectKind::Root || kind == ObjectKind::OrderedChild || kind == ObjectKind::UnorderedChild) && m.verb == Verb::Update && !m.unchecked {
        ("(&self, repo: &dyn $R) -> ::std::result::Result<(), ::fractic_server_error::ServerError>"@, "repo.$M().update(self).await"@)
    } else if m.child is None && (kind == ObjectKind::Root || kind == ObjectKind::OrderedChild || kind == ObjectKind::UnorderedChild) && m.verb == Verb::List && !m.unchecked {
        ("(repo: &dyn $R) -> ::std::result::Result<::std::vec::Vec<$T>, ::fractic_server_error::ServerError>"@, "repo.$M().query_all().await"@)
    } else if m.child is None && (kind == ObjectKind::Root || kind == ObjectKind::OrderedChild || kind == ObjectKind::UnorderedChild) && m.verb == Verb::Add && !m.unchecked {
        ("(repo: &dyn $R, data: $D) -> ::std::result::Result<$T, ::fractic_server_error::ServerError>"@, "repo.$M().add(data).await"@)
    } else if m.child is None && (kind == ObjectKind::Root || kind == ObjectKind::OrderedChild || kind == ObjectKind::UnorderedChild) && m.verb == Verb::BatchAdd && !m.unchecked {
        ("(repo: &dyn $R, data: ::std::vec::Vec<$D>) -> ::std::result::Result<::std::vec::Vec<$T>, ::fractic_server_error::ServerError>"@, "repo.$M().batch_add(data).await"@)
    } else if m.child is None && (kind == ObjectKind::Root || kind == ObjectKind::OrderedChild || kind == ObjectKind::UnorderedChild) && m.verb == Verb::Delete && !m.unchecked {
        ("(self, repo: &dyn $R) -> ::std::result::Result<$D, ::fractic_server_error::ServerError>"@, "repo.$M().delete(self).await"@)
    } else if m.child is None && (kind == ObjectKind::Root || kind == ObjectKind::OrderedChild || kind == ObjectKind::UnorderedChild) && m.verb == Verb::BatchDelete && !m.unchecked {
        ("(repo: &dyn $R, items: ::std::vec::Vec<$T>) -> ::std::result::Result<::std::vec::Vec<$D>, ::fractic_server_error::ServerError>"@, "repo.$M().batch_delete(items).await"@)
    } else if m.child is None && (kind == ObjectKind::Root || kind == ObjectKind::OrderedChild || kind == ObjectKind::UnorderedChild) && m.verb == Verb::BatchDeleteAll && !m.unchecked {
        ("(repo: &dyn $R) -> ::std::result::Result<(), ::fractic_server_error::ServerError>"@, "repo.$M().batch_delete_all().await"@)
    } else if m.child is None && (kind == ObjectKind::Root || kind == ObjectKind::OrderedChild || kind == ObjectKind::UnorderedChild) && m.verb == Verb::DeleteRecursive && !m.unchecked {
        ("(self, repo: &dyn $R) -> ::std::result::Result<$D, ::fractic_server_error::ServerError>"@, "repo.$M().delete_recursive(self).await"@)
    } else if m.child is None && (kind == ObjectKind::Root || kind == ObjectKind::OrderedChild || kind == ObjectKind::UnorderedChild) && m.verb == Verb::DeleteNonRecursive && !m.unchecked {
        ("(self, repo: &dyn $R) -> ::std::result::Result<$D, ::fractic_server_error::ServerError>"@, "repo.$M().delete_non_recursive(self).await"@)
    } else if m.child is None && (kind == ObjectKind::Root || kind == ObjectKind::OrderedChild || kind == ObjectKind::UnorderedChild) && m.verb == Verb::BatchDeleteNonRecursive && !m.unchecked {
        ("(repo: &dyn $R, items: ::std::vec::Vec<$T>) -> ::std::result::Result<::std::vec::Vec<$D>, ::fractic_server_error::ServerError>"@, "repo.$M().batch_delete_non_recursive(items).await"@)
    } else if m.child is None && (kind == ObjectKind::Root || kind == ObjectKind::OrderedChild || kind == ObjectKind::UnorderedChild) && m.verb == Verb::BatchDeleteAllNonRecursive && !m.unchecked {
        ("(repo: &dyn $R) -> ::std::result::Result<(), ::fractic_server_error::ServerError>"@, "repo.$M().batch_delete_all_non_recursive().await"@)
    } else if m.child is None && (kind == ObjectKind::Root || kind == ObjectKind::OrderedChild || kind == ObjectKind::UnorderedChild) && m.verb == Verb::List && m.unchecked {
        ("(repo: &dyn $R, parent_id: ::fractic_aws_dynamo::schema::PkSk) -> ::std::result::Result<::std::vec::Vec<$T>, ::fractic_server_error::ServerError>"@, "let parent = $P::placeholder(parent_id);\n    repo.$M().query_all(&parent).await"@)
    } else if m.child is None && (kind == ObjectKind::Root || kind == ObjectKind::OrderedChild || kind == ObjectKind::UnorderedChild) && m.verb == Verb::Add && m.unchecked && m.after {
        ("(repo: &dyn $R, parent_id: ::fractic_aws_dynamo::schema::PkSk, data: $D, after: ::std::option::Option<&$T>) -> ::std::result::Result<$T, ::fractic_server_error::ServerError>"@, "let parent = $P::placeholder(parent_id);\n    repo.$M().add(&parent, data, after).await"@)
    } else if m.child is None && (kind == ObjectKind::Root || kind == ObjectKind::OrderedChild || kind == ObjectKind::UnorderedChild) && m.verb == Verb::Add && m.unchecked && !m.after {
        ("(repo: &dyn $R, parent_id: ::fractic_aws_dynamo::schema::PkSk, data: $D) -> ::std::result::Result<$T, ::fractic_server_error::ServerError>"@, "let parent = $P::placeholder(parent_id);\n    repo.$M().add(&parent, data).await"@)
    } else if m.child is None && (kind == ObjectKind::Root || kind == ObjectKind::OrderedChild || kind == ObjectKind::UnorderedChild) && m.verb == Verb::BatchAdd && m.unchecked && m.after {
        ("(repo: &dyn $R, parent_id: ::fractic_aws_dynamo::schema::PkSk, data: ::std::vec::Vec<$D>, after: ::std::option::Option<&$T>) -> ::std::result::Result<::std::vec::Vec<$T>, ::fractic_server_error::ServerError>"@, "let parent = $P::placeholder(parent_id);\n    repo.$M().batch_add(&parent, data, after).await"@)
    } else if m.child is None && (kind == ObjectKind::Root || kind == ObjectKind::OrderedChild || kind == ObjectKind::UnorderedChild) && m.verb == Verb::BatchAdd && m.unchecked && !m.after {
        ("(repo: &dyn $R, parent_id: ::fractic_aws_dynamo::schema::PkSk, data: ::std::vec::Vec<$D>) -> ::std::result::Result<::std::vec::Vec<$T>, ::fractic_server_error::ServerError>"@, "let parent = $P::placeholder(parent_id);\n    repo.$M().batch_add(&parent, data).await"@)
    } else if m.child is None && kind == ObjectKind::Batch && m.verb == Verb::List && !m.unchecked {
        ("(repo: &dyn $R) -> ::std::result::Result<::std::vec::Vec<$T>, ::fractic_server_error::ServerError>"@, "repo.$M().query_all().await"@)
    } else if m.child is None && kind == ObjectKind::Batch && m.verb == Verb::BatchDeleteAll && !m.unchecked {
        ("(repo: &dyn $R) -> ::std::result::Result<(), ::fractic_server_error::ServerError>"@, "repo.$M().batch_delete_all().await"@)
    } else if m.child is None && kind == ObjectKind::Batch && m.verb == Verb::BatchReplaceAll && !m.unchecked {
        ("(repo: &dyn $R, data: ::std::vec::Vec<$D>) -> ::std::result::Result<(), ::fractic_server_error::ServerError>"@, "repo.$M().batch_replace_all_ordered(data).await"@)
    } else if m.child is None && kind == ObjectKind::Batch && m.verb == Verb::List && m.unchecked {
        ("(repo: &dyn $R, parent_id: ::fractic_aws_dynamo::schema::PkSk) -> ::std::result::Result<::std::vec::Vec<$T>, ::fractic_server_error::ServerError>"@, "let parent = $P::placeholder(parent_id);\n    repo.$M().query_all(&parent).await"@)
    } else if m.child is None && kind == ObjectKind::Batch && m.verb == Verb::BatchDeleteAll && m.unchecked {
        ("(repo: &dyn $R, parent_id: ::fractic_aws_dynamo::schema::PkSk) -> ::std::result::Result<(), ::fractic_server_error::ServerError>"@, "let parent = $P::placeholder(parent_id);\n    repo.$M().batch_delete_all(&parent).await"@)
    } else if m.child is None && kind == ObjectKind::Batch && m.verb == Verb::BatchReplaceAll && m.unchecked {
        ("(repo: &dyn $R, parent_id: ::fractic_aws_dynamo::schema::PkSk, data: ::std::vec::Vec<$D>) -> ::std::result::Result<(), ::fractic_server_error::ServerError>"@, "let parent = $P::placeholder(parent_id);\n    repo.$M().batch_replace_all_ordered(&parent, data).await"@)
    } else if m.child is None && kind == ObjectKind::Singleton && m.verb == Verb::Get && !m.unchecked {
        ("(repo: &dyn $R) -> ::std::result::Result<$T, ::fractic_server_error::ServerError>"@, "repo.$M().get().await"@)
    } else if m.child is None && kind == ObjectKind::Singleton && m.verb == Verb::SetItem && !m.unchecked {
        ("(repo: &dyn $R, data: $D) -> ::std::result::Result<$T, ::fractic_server_error::ServerError>"@, "repo.$M().set(data).await"@)
    } else if m.child is None && kind == ObjectKind::Singleton && m.verb == Verb::Delete && !m.unchecked {
        ("(repo: &dyn $R) -> ::std::result::Result<(), ::fractic_server_error::ServerError>"@, "repo.$M().delete().await"@)
    } else if m.child is None && kind == ObjectKind::Singleton && m.verb == Verb::Get && m.unchecked {
        ("(repo: &dyn $R, parent_id: ::fractic_aws_dynamo::schema::PkSk) -> ::std::result::Result<$T, ::fractic_server_error::ServerError>"@, "let parent = $P::placeholder(parent_id);\n    repo.$M().get(&parent).await"@)
    } else if m.child is None && kind == ObjectKind::Singleton && m.verb == Verb::SetItem && m.unchecked {
        ("(repo: &dyn $R, parent_id: ::fractic_aws_dynamo::schema::PkSk, data: $D) -> ::std::result::Result<$T, ::fractic_server_error::ServerError>"@, "let parent = $P::placeholder(parent_id);\n    repo.$M().set(&parent, data).await"@)
    } else if m.child is None && kind == ObjectKind::Singleton && m.verb == Verb::Delete && m.unchecked {
        ("(repo: &dyn $R, parent_id: ::fractic_aws_dynamo::schema::PkSk) -> ::std::result::Result<(), ::fractic_server_error::ServerError>"@, "let parent = $P::placeholder(parent_id);\n    repo.$M().delete(&parent).await"@)
    } else if m.child is None && kind == ObjectKind::SingletonFamily && m.verb == Verb::Get && !m.unchecked {
        ("(repo: &dyn $R, key: &str) -> ::std::result::Result<$T, ::fractic_server_error::ServerError>"@, "repo.$M().get(key).await"@)
    } else if m.child is None && kind == ObjectKind::SingletonFamily && m.verb == Verb::SetItem && !m.unchecked {
        ("(repo: &dyn $R, data: $D) -> ::std::result::Result<$T, ::fractic_server_error::ServerError>"@, "repo.$M().set(data).await"@)
    } else if m.child is None && kind == ObjectKind::SingletonFamily && m.verb == Verb::BatchSet && !m.unchecked {
        ("(repo: &dyn $R, data: ::std::vec::Vec<$D>) -> ::std::result::Result<::std::vec::Vec<$T>, ::fractic_server_error::ServerError>"@, "repo.$M().batch_set(data).await"@)
    } else if m.child is None && kind == ObjectKind::SingletonFamily && m.verb == Verb::Delete && !m.unchecked {
        ("(repo: &dyn $R, key: &str) -> ::std::result::Result<(), ::fractic_server_error::ServerError>"@, "repo.$M().delete(key).await"@)
    } else if m.child is None && kind == ObjectKind::SingletonFamily && m.verb == Verb::BatchDelete && !m.unchecked {
        ("(repo: &dyn $R, keys: ::std::vec::Vec<&str>) -> ::std::result::Result<(), ::fractic_server_error::ServerError>"@, "repo.$M().batch_delete(keys).await"@)
    } else if m.child is None && kind == ObjectKind::SingletonFamily && m.verb == Verb::List && !m.unchecked {
        ("(repo: &dyn $R) -> ::std::result::Result<::std::vec::Vec<$T>, ::fractic_server_error::ServerError>"@, "repo.$M().query_all().await"@)
    } else if m.child is None && kind == ObjectKind::SingletonFamily && m.verb == Verb::BatchDeleteAll && !m.unchecked {
        ("(repo: &dyn $R) -> ::std::result::Result<(), ::fractic_server_error::ServerError>"@, "repo.$M().batch_delete_all().await"@)
    } else if m.child is None && kind == ObjectKind::SingletonFamily && m.verb == Verb::Get && m.unchecked {
        ("(repo: &dyn $R, parent_id: ::fractic_aws_dynamo::schema::PkSk, key: &str) -> ::std::result::Result<$T, ::fractic_server_error::ServerError>"@, "let parent = $P::placeholder(parent_id);\n    repo.$M().get(&parent, key).await"@)
    } else if m.child is None && kind == ObjectKind::SingletonFamily && m.verb == Verb::SetItem && m.unchecked {
        ("(repo: &dyn $R, parent_id: ::fractic_aws_dynamo::schema::PkSk, data: $D) -> ::std::result::Result<$T, ::fractic_server_error::ServerError>"@, "let parent = $P::placeholder(parent_id);\n    repo.$M().set(&parent, data).await"@)
    } else if m.child is None && kind == ObjectKind::SingletonFamily && m.verb == Verb::BatchSet && m.unchecked {
        ("(repo: &dyn $R, parent_id: ::fractic_aws_dynamo::schema::PkSk, data: ::std::vec::Vec<$D>) -> ::std::result::Result<::std::vec::Vec<$T>, ::fractic_server_error::ServerError>"@, "let parent = $P::placeholder(parent_id);\n    repo.$M().batch_set(&parent, data).await"@)
    } else if m.child is None && kind == ObjectKind::SingletonFamily && m.verb == Verb::Delete && m.unchecked {
        ("(repo: &dyn $R, parent_id: ::fractic_aws_dynamo::schema::PkSk, key: &str) -> ::std::result::Result<(), ::fractic_server_error::ServerError>"@, "let parent = $P::placeholder(parent_id);\n    repo.$M().delete(&parent, key).await"@)
    } else if m.child is None && kind == ObjectKind::SingletonFamily && m.verb == Verb::BatchDelete && m.unchecked {
        ("(repo: &dyn $R, parent_id: ::fractic_aws_dynamo::schema::PkSk, keys: ::std::vec::Vec<&str>) -> ::std::result::Result<(), ::fractic_server_error::ServerError>"@, "let parent = $P::placeholder(parent_id);\n    repo.$M().batch_delete(&parent, keys).await"@)
    } else if m.child is None && kind == ObjectKind::SingletonFamily && m.verb == Verb::List && m.unchecked {
        ("(repo: &dyn $R, parent_id: ::fractic_aws_dynamo::schema::PkSk) -> ::std::result::Result<::std::vec::Vec<$T>, ::fractic_server_error::ServerError>"@, "let parent = $P::placeholder(parent_id);\n    repo.$M().query_all(&parent).await"@)
    } else if m.child is None && kind == ObjectKind::SingletonFamily && m.verb == Verb::BatchDeleteAll && m.unchecked {
        ("(repo: &dyn $R, parent_id: ::fractic_aws_dynamo::schema::PkSk) -> ::std::result::Result<(), ::fractic_server_error::ServerError>"@, "let parent = $P::placeholder(parent_id);\n    repo.$M().batch_delete_all(&parent).await"@)
    } else if m.child is Some && m.verb == Verb::Add && m.after {
        ("(&self, repo: &dyn $R, data: $E, after: ::std::option::Option<&$C>) -> ::std::result::Result<$C, ::fractic_server_error::ServerError>"@, "repo.$K().add(self, data, after).await"@)
    } else if m.child is Some && m.verb == Verb::Add && !m.after {
        ("(&self, repo: &dyn $R, data: $E) -> ::std::result::Result<$C, ::fractic_server_error::ServerError>"@, "repo.$K().add(self, data).await"@)
    } else if m.child is Some && m.verb == Verb::BatchAdd && m.after {
        ("(&self, repo: &dyn $R, data: ::std::vec::Vec<$E>, after: ::std::option::Option<&$C>) -> ::std::result::Result<::std::vec::Vec<$C>, ::fractic_server_error::ServerError>"@, "repo.$K().batch_add(self, data, after).await"@)
    } else if m.child is Some && m.verb == Verb::BatchAdd && !m.after {
        ("(&self, repo: &dyn $R, data: ::std::vec::Vec<$E>) -> ::std::result::Result<::std::vec::Vec<$C>, ::fractic_server_error::ServerError>"@, "repo.$K().batch_add(self, data).await"@)
    } else if m.child is Some && m.verb == Verb::List {
        ("(&self, repo: &dyn $R) -> ::std::result::Result<::std::vec::Vec<$C>, ::fractic_server_error::ServerError>"@, "repo.$K().query_all(self).await"@)
    } else if m.child is Some && m.verb == Verb::BatchDeleteAll {
        ("(&self, repo: &dyn $R) -> ::std::result::Result<(), ::fractic_server_error::ServerError>"@, "repo.$K().batch_delete_all(self).await"@)
    } else if m.child is Some && m.verb == Verb::BatchReplaceAll {
        ("(&self, repo: &dyn $R, data: ::std::vec::Vec<$E>) -> ::std::result::Result<(), ::fractic_server_error::ServerError>"@, "repo.$K().batch_replace_all_ordered(self, data).await"@)
    } else if m.child is Some && m.verb == Verb::Get && m.keyed {
        ("(&self, repo: &dyn $R, key: &str) -> ::std::result::Result<$C, ::fractic_server_error::ServerError>"@, "repo.$K().get(self, key).await"@)
    } else if m.child is Some && m.verb == Verb::Get && !m.keyed {
        ("(&self, repo: &dyn $R) -> ::std::result::Result<$C, ::fractic_server_error::ServerError>"@, "repo.$K().get(self).await"@)
    } else if m.child is Some && m.verb == Verb::SetItem {
        ("(&self, repo: &dyn $R, data: $E) -> ::std::result::Result<$C, ::fractic_server_error::ServerError>"@, "repo.$K().set(self, data).await"@)
    } else if m.child is Some && m.verb == Verb::BatchSet {
        ("(&self, repo: &dyn $R, data: ::std::vec::Vec<$E>) -> ::std::result::Result<::std::vec::Vec<$C>, ::fractic_server_error::ServerError>"@, "repo.$K().batch_set(self, data).await"@)
    } else if m.child is Some && m.verb == Verb::Delete && m.keyed {
        ("(&self, repo: &dyn $R, key: &str) -> ::std::result::Result<(), ::fractic_server_error::ServerError>"@, "repo.$K().delete(self, key).await"@)
    } else if m.child is Some && m.verb == Verb::Delete && !m.keyed {
        ("(&self, repo: &dyn $R) -> ::std::result::Result<(), ::fractic_server_error::ServerError>"@, "repo.$K().delete(self).await"@)
    } else if m.child is Some && m.verb == Verb::BatchDelete {
        ("(&self, repo: &dyn $R, keys: ::std::vec::Vec<&str>) -> ::std::result::Result<(), ::fractic_server_error::ServerError>"@, "repo.$K().batch_delete(self, keys).await"@)
    } else {
        ("(repo: &dyn $R) -> ::std::result::Result<(), ::fractic_server_error::ServerError>"@, "::std::result::Result::Ok(())"@)
    }
}

fn method_template_of(kind: ObjectKind, m: Method) -> (r: (&'static str, &'static str))
    ensures
        r.0@ == method_template(kind, m).0,
        r.1@ == method_template(kind, m).1,
{
    if m.child.is_none() && (kind == ObjectKind::Root || kind == ObjectKind::OrderedChild || kind == ObjectKind::UnorderedChild) && m.verb == Verb::Get && !m.unchecked {
        ("(repo: &dyn $R, id: ::fractic_aws_dynamo::schema::PkSk) -> ::std::result::Result<$T, ::fractic_server_error::ServerError>", "repo.$M().get(id).await")
    } else if m.child.is_none() && (kind == ObjectKind::Root || kind == ObjectKind::OrderedChild || kind == ObjectKind::UnorderedChild) && m.verb == Verb::Update && !m.unchecked {
        ("(&self, repo: &dyn $R) -> ::std::result::Result<(), ::fractic_server_error::ServerError>", "repo.$M().update(self).await")
    } else if m.child.is_none() && (kind == ObjectKind::Root || kind == ObjectKind::OrderedChild || kind == ObjectKind::UnorderedChild) && m.verb == Verb::List && !m.unchecked {
        ("(repo: &dyn $R) -> ::std::result::Result<::std::vec::Vec<$T>, ::fractic_server_error::ServerError>", "repo.$M().query_all().await")
    } else if m.child.is_none() && (kind == ObjectKind::Root || kind == ObjectKind::OrderedChild || kind == ObjectKind::UnorderedChild) && m.verb == Verb::Add && !m.unchecked {
        ("(repo: &dyn $R, data: $D) -> ::std::result::Result<$T, ::fractic_server_error::ServerError>", "repo.$M().add(data).await")
    } else if m.child.is_none() && (kind == ObjectKind::Root || kind == ObjectKind::OrderedChild || kind == ObjectKind::UnorderedChild) && m.verb == Verb::BatchAdd && !m.unchecked {
        ("(repo: &dyn $R, data: ::std::vec::Vec<$D>) -> ::std::result::Result<::std::vec::Vec<$T>, ::fractic_server_error::ServerError>", "repo.$M().batch_add(data).await")
    } else if m.child.is_none() && (kind == ObjectKind::Root || kind == ObjectKind::OrderedChild || kind == ObjectKind::UnorderedChild) && m.verb == Verb::Delete && !m.unchecked {
        ("(self, repo: &dyn $R) -> ::std::result::Result<$D, ::fractic_server_error::ServerError>", "repo.$M().delete(self).await")
    } else if m.child.is_none() && (kind == ObjectKind::Root || kind == ObjectKind::OrderedChild || kind == ObjectKind::UnorderedChild) && m.verb == Verb::BatchDelete && !m.unchecked {
        ("(repo: &dyn $R, items: ::std::vec::Vec<$T>) -> ::std::result::Result<::std::vec::Vec<$D>, ::fractic_server_error::ServerError>", "repo.$M().batch_delete(items).await")
    } else if m.child.is_none() && (kind == ObjectKind::Root || kind == ObjectKind::OrderedChild || kind == ObjectKind::UnorderedChild) && m.verb == Verb::BatchDeleteAll && !m.unchecked {
        ("(repo: &dyn $R) -> ::std::result::Result<(), ::fractic_server_error::ServerError>", "repo.$M().batch_delete_all().await")
    } else if m.child.is_none() && (kind == ObjectKind::Root || kind == ObjectKind::OrderedChild || kind == ObjectKind::UnorderedChild) && m.verb == Verb::DeleteRecursive && !m.unchecked {
        ("(self, repo: &dyn $R) -> ::std::result::Result<$D, ::fractic_server_error::ServerError>", "repo.$M().delete_recursive(self).await")
    } else if m.child.is_none() && (kind == ObjectKind::Root || kind == ObjectKind::OrderedChild || kind == ObjectKind::UnorderedChild) && m.verb == Verb::DeleteNonRecursive && !m.unchecked {
        ("(self, repo: &dyn $R) -> ::std::result::Result<$D, ::fractic_server_error::ServerError>", "repo.$M().delete_non_recursive(self).await")
    } else if m.child.is_none() && (kind == ObjectKind::Root || kind == ObjectKind::OrderedChild || kind == ObjectKind::UnorderedChild) && m.verb == Verb::BatchDeleteNonRecursive && !m.unchecked {
        ("(repo: &dyn $R, items: ::std::vec::Vec<$T>) -> ::std::result::Result<::std::vec::Vec<$D>, ::fractic_server_error::ServerError>", "repo.$M().batch_delete_non_recursive(items).await")
    } else if m.child.is_none() && (kind == ObjectKind::Root || kind == ObjectKind::OrderedChild || kind == ObjectKind::UnorderedChild) && m.verb == Verb::BatchDeleteAllNonRecursive && !m.unchecked {
        ("(repo: &dyn $R) -> ::std::result::Result<(), ::fractic_server_error::ServerError>", "repo.$M().batch_delete_all_non_recursive().await")
    } else if m.child.is_none() && (kind == ObjectKind::Root || kind == ObjectKind::OrderedChild || kind == ObjectKind::UnorderedChild) && m.verb == Verb::List && m.unchecked {
        ("(repo: &dyn $R, parent_id: ::fractic_aws_dynamo::schema::PkSk) -> ::std::result::Result<::std::vec::Vec<$T>, ::fractic_server_error::ServerError>", "let parent = $P::placeholder(parent_id);\n    repo.$M().query_all(&parent).await")
    } else if m.child.is_none() && (kind == ObjectKind::Root || kind == ObjectKind::OrderedChild || kind == ObjectKind::UnorderedChild) && m.verb == Verb::Add && m.unchecked && m.after {
        ("(repo: &dyn $R, parent_id: ::fractic_aws_dynamo::schema::PkSk, data: $D, after: ::std::option::Option<&$T>) -> ::std::result::Result<$T, ::fractic_server_error::ServerError>", "let parent = $P::placeholder(parent_id);\n    repo.$M().add(&parent, data, after).await")
    } else if m.child.is_none() && (kind == ObjectKind::Root || kind == ObjectKind::OrderedChild || kind == ObjectKind::UnorderedChild) && m.verb == Verb::Add && m.unchecked && !m.after {
        ("(repo: &dyn $R, parent_id: ::fractic_aws_dynamo::schema::PkSk, data: $D) -> ::std::result::Result<$T, ::fractic_server_error::ServerError>", "let parent = $P::placeholder(parent_id);\n    repo.$M().add(&parent, data).await")
    } else if m.child.is_none() && (kind == ObjectKind::Root || kind == ObjectKind::OrderedChild || kind == ObjectKind::UnorderedChild) && m.verb == Verb::BatchAdd && m.unchecked && m.after {
        ("(repo: &dyn $R, parent_id: ::fractic_aws_dynamo::schema::PkSk, data: ::std::vec::Vec<$D>, after: ::std::option::Option<&$T>) -> ::std::result::Result<::std::vec::Vec<$T>, ::fractic_server_error::ServerError>", "let parent = $P::placeholder(parent_id);\n    repo.$M().batch_add(&parent, data, after).await")
    } else if m.child.is_none() && (kind == ObjectKind::Root || kind == ObjectKind::OrderedChild || kind == ObjectKind::UnorderedChild) && m.verb == Verb::BatchAdd && m.unchecked && !m.after {
        ("(repo: &dyn $R, parent_id: ::fractic_aws_dynamo::schema::PkSk, data: ::std::vec::Vec<$D>) -> ::std::result::Result<::std::vec::Vec<$T>, ::fractic_server_error::ServerError>", "let parent = $P::placeholder(parent_id);\n    repo.$M().batch_add(&parent, data).await")
    } else if m.child.is_none() && kind == ObjectKind::Batch && m.verb == Verb::List && !m.unchecked {
        ("(repo: &dyn $R) -> ::std::result::Result<::std::vec::Vec<$T>, ::fractic_server_error::ServerError>", "repo.$M().query_all().await")
    } else if m.child.is_none() && kind == ObjectKind::Batch && m.verb == Verb::BatchDeleteAll && !m.unchecked {
        ("(repo: &dyn $R) -> ::std::result::Result<(), ::fractic_server_error::ServerError>", "repo.$M().batch_delete_all().await")
    } else if m.child.is_none() && kind == ObjectKind::Batch && m.verb == Verb::BatchReplaceAll && !m.unchecked {
        ("(repo: &dyn $R, data: ::std::vec::Vec<$D>) -> ::std::result::Result<(), ::fractic_server_error::ServerError>", "repo.$M().batch_replace_all_ordered(data).await")
    } else if m.child.is_none() && kind == ObjectKind::Batch && m.verb == Verb::List && m.unchecked {
        ("(repo: &dyn $R, parent_id: ::fractic_aws_dynamo::schema::PkSk) -> ::std::result::Result<::std::vec::Vec<$T>, ::fractic_server_error::ServerError>", "let parent = $P::placeholder(parent_id);\n    repo.$M().query_all(&parent).await")
    } else if m.child.is_none() && kind == ObjectKind::Batch && m.verb == Verb::BatchDeleteAll && m.unchecked {
        ("(repo: &dyn $R, parent_id: ::fractic_aws_dynamo::schema::PkSk) -> ::std::result::Result<(), ::fractic_server_error::ServerError>", "let parent = $P::placeholder(parent_id);\n    repo.$M().batch_delete_all(&parent).await")
    } else if m.child.is_none() && kind == ObjectKind::Batch && m.verb == Verb::BatchReplaceAll && m.unchecked {
        ("(repo: &dyn $R, parent_id: ::fractic_aws_dynamo::schema::PkSk, data: ::std::vec::Vec<$D>) -> ::std::result::Result<(), ::fractic_server_error::ServerError>", "let parent = $P::placeholder(parent_id);\n    repo.$M().batch_replace_all_ordered(&parent, data).await")
    } else if m.child.is_none() && kind == ObjectKind::Singleton && m.verb == Verb::Get && !m.unchecked {
        ("(repo: &dyn $R) -> ::std::result::Result<$T, ::fractic_server_error::ServerError>", "repo.$M().get().await")
    } else if m.child.is_none() && kind == ObjectKind::Singleton && m.verb == Verb::SetItem && !m.unchecked {
        ("(repo: &dyn $R, data: $D) -> ::std::result::Result<$T, ::fractic_server_error::ServerError>", "repo.$M().set(data).await")
    } else if m.child.is_none() && kind == ObjectKind::Singleton && m.verb == Verb::Delete && !m.unchecked {
        ("(repo: &dyn $R) -> ::std::result::Result<(), ::fractic_server_error::ServerError>", "repo.$M().delete().await")
    } else if m.child.is_none() && kind == ObjectKind::Singleton && m.verb == Verb::Get && m.unchecked {
        ("(repo: &dyn $R, parent_id: ::fractic_aws_dynamo::schema::PkSk) -> ::std::result::Result<$T, ::fractic_server_error::ServerError>", "let parent = $P::placeholder(parent_id);\n    repo.$M().get(&parent).await")
    } else if m.child.is_none() && kind == ObjectKind::Singleton && m.verb == Verb::SetItem && m.unchecked {
        ("(repo: &dyn $R, parent_id: ::fractic_aws_dynamo::schema::PkSk, data: $D) -> ::std::result::Result<$T, ::fractic_server_error::ServerError>", "let parent = $P::placeholder(parent_id);\n    repo.$M().set(&parent, data).await")
    } else if m.child.is_none() && kind == ObjectKind::Singleton && m.verb == Verb::Delete && m.unchecked {
        ("(repo: &dyn $R, parent_id: ::fractic_aws_dynamo::schema::PkSk) -> ::std::result::Result<(), ::fractic_server_error::ServerError>", "let parent = $P::placeholder(parent_id);\n    repo.$M().delete(&parent).await")
    } else if m.child.is_none() && kind == ObjectKind::SingletonFamily && m.verb == Verb::Get && !m.unchecked {
        ("(repo: &dyn $R, key: &str) -> ::std::result::Result<$T, ::fractic_server_error::ServerError>", "repo.$M().get(key).await")
    } else if m.child.is_none() && kind == ObjectKind::SingletonFamily && m.verb == Verb::SetItem && !m.unchecked {
        ("(repo: &dyn $R, data: $D) -> ::std::result::Result<$T, ::fractic_server_error::ServerError>", "repo.$M().set(data).await")
    } else if m.child.is_none() && kind == ObjectKind::SingletonFamily && m.verb == Verb::BatchSet && !m.unchecked {
        ("(repo: &dyn $R, data: ::std::vec::Vec<$D>) -> ::std::result::Result<::std::vec::Vec<$T>, ::fractic_server_error::ServerError>", "repo.$M().batch_set(data).await")
    } else if m.child.is_none() && kind == ObjectKind::SingletonFamily && m.verb == Verb::Delete && !m.unchecked {
        ("(repo: &dyn $R, key: &str) -> ::std::result::Result<(), ::fractic_server_error::ServerError>", "repo.$M().delete(key).await")
    } else if m.child.is_none() && kind == ObjectKind::SingletonFamily && m.verb == Verb::BatchDelete && !m.unchecked {
        ("(repo: &dyn $R, keys: ::std::vec::Vec<&str>) -> ::std::result::Result<(), ::fractic_server_error::ServerError>", "repo.$M().batch_delete(keys).await")
    } else if m.child.is_none() && kind == ObjectKind::SingletonFamily && m.verb == Verb::List && !m.unchecked {
        ("(repo: &dyn $R) -> ::std::result::Result<::std::vec::Vec<$T>, ::fractic_server_error::ServerError>", "repo.$M().query_all().await")
    } else if m.child.is_none() && kind == ObjectKind::SingletonFamily && m.verb == Verb::BatchDeleteAll && !m.unchecked {
        ("(repo: &dyn $R) -> ::std::result::Result<(), ::fractic_server_error::ServerError>", "repo.$M().batch_delete_all().await")
    } else if m.child.is_none() && kind == ObjectKind::SingletonFamily && m.verb == Verb::Get && m.unchecked {
        ("(repo: &dyn $R, parent_id: ::fractic_aws_dynamo::schema::PkSk, key: &str) -> ::std::result::Result<$T, ::fractic_server_error::ServerError>", "let parent = $P::placeholder(parent_id);\n    repo.$M().get(&parent, key).await")
    } else if m.child.is_none() && kind == ObjectKind::SingletonFamily && m.verb == Verb::SetItem && m.unchecked {
        ("(repo: &dyn $R, parent_id: ::fractic_aws_dynamo::schema::PkSk, data: $D) -> ::std::result::Result<$T, ::fractic_server_error::ServerError>", "let parent = $P::placeholder(parent_id);\n    repo.$M().set(&parent, data).await")
    } else if m.child.is_none() && kind == ObjectKind::SingletonFamily && m.verb == Verb::BatchSet && m.unchecked {
        ("(repo: &dyn $R, parent_id: ::fractic_aws_dynamo::schema::PkSk, data: ::std::vec::Vec<$D>) -> ::std::result::Result<::std::vec::Vec<$T>, ::fractic_server_error::ServerError>", "let parent = $P::placeholder(parent_id);\n    repo.$M().batch_set(&parent, data).await")
    } else if m.child.is_none() && kind == ObjectKind::SingletonFamily && m.verb == Verb::Delete && m.unchecked {
        ("(repo: &dyn $R, parent_id: ::fractic_aws_dynamo::schema::PkSk, key: &str) -> ::std::result::Result<(), ::fractic_server_error::ServerError>", "let parent = $P::placeholder(parent_id);\n    repo.$M().delete(&parent, key).await")
    } else if m.child.is_none() && kind == ObjectKind::SingletonFamily && m.verb == Verb::BatchDelete && m.unchecked {
        ("(repo: &dyn $R, parent_id: ::fractic_aws_dynamo::schema::PkSk, keys: ::std::vec::Vec<&str>) -> ::std::result::Result<(), ::fractic_server_error::ServerError>", "let parent = $P::placeholder(parent_id);\n    repo.$M().batch_delete(&parent, keys).await")
    } else if m.child.is_none() && kind == ObjectKind::SingletonFamily && m.verb == Verb::List && m.unchecked {
        ("(repo: &dyn $R, parent_id: ::fractic_aws_dynamo::schema::PkSk) -> ::std::result::Result<::std::vec::Vec<$T>, ::fractic_server_error::ServerError>", "let parent = $P::placeholder(parent_id);\n    repo.$M().query_all(&parent).await")
    } else if m.child.is_none() && kind == ObjectKind::SingletonFamily && m.verb == Verb::BatchDeleteAll && m.unchecked {
        ("(repo: &dyn $R, parent_id: ::fractic_aws_dynamo::schema::PkSk) -> ::std::result::Result<(), ::fractic_server_error::ServerError>", "let parent = $P::placeholder(parent_id);\n    repo.$M().batch_delete_all(&parent).await")
    } else if m.child.is_some() && m.verb == Verb::Add && m.after {
        ("(&self, repo: &dyn $R, data: $E, after: ::std::option::Option<&$C>) -> ::std::result::Result<$C, ::fractic_server_error::ServerError>", "repo.$K().add(self, data, after).await")
    } else if m.child.is_some() && m.verb == Verb::Add && !m.after {
        ("(&self, repo: &dyn $R, data: $E) -> ::std::result::Result<$C, ::fractic_server_error::ServerError>", "repo.$K().add(self, data).await")
    } else if m.child.is_some() && m.verb == Verb::BatchAdd && m.after {
        ("(&self, repo: &dyn $R, data: ::std::vec::Vec<$E>, after: ::std::option::Option<&$C>) -> ::std::result::Result<::std::vec::Vec<$C>, ::fractic_server_error::ServerError>", "repo.$K().batch_add(self, data, after).await")
    } else if m.child.is_some() && m.verb == Verb::BatchAdd && !m.after {
        ("(&self, repo: &dyn $R, data: ::std::vec::Vec<$E>) -> ::std::result::Result<::std::vec::Vec<$C>, ::fractic_server_error::ServerError>", "repo.$K().batch_add(self, data).await")
    } else if m.child.is_some() && m.verb == Verb::List {
        ("(&self, repo: &dyn $R) -> ::std::result::Result<::std::vec::Vec<$C>, ::fractic_server_error::ServerError>", "repo.$K().query_all(self).await")
    } else if m.child.is_some() && m.verb == Verb::BatchDeleteAll {
        ("(&self, repo: &dyn $R) -> ::std::result::Result<(), ::fractic_server_error::ServerError>", "repo.$K().batch_delete_all(self).await")
    } else if m.child.is_some() && m.verb == Verb::BatchReplaceAll {
        ("(&self, repo: &dyn $R, data: ::std::vec::Vec<$E>) -> ::std::result::Result<(), ::fractic_server_error::ServerError>", "repo.$K().batch_replace_all_ordered(self, data).await")
    } else if m.child.is_some() && m.verb == Verb::Get && m.keyed {
        ("(&self, repo: &dyn $R, key: &str) -> ::std::result::Result<$C, ::fractic_server_error::ServerError>", "repo.$K().get(self, key).await")
    } else if m.child.is_some() && m.verb == Verb::Get && !m.keyed {
        ("(&self, repo: &dyn $R) -> ::std::result::Result<$C, ::fractic_server_error::ServerError>", "repo.$K().get(self).await")
    } else if m.child.is_some() && m.verb == Verb::SetItem {
        ("(&self, repo: &dyn $R, data: $E) -> ::std::result::Result<$C, ::fractic_server_error::ServerError>", "repo.$K().set(self, data).await")
    } else if m.child.is_some() && m.verb == Verb::BatchSet {
        ("(&self, repo: &dyn $R, data: ::std::vec::Vec<$E>) -> ::std::result::Result<::std::vec::Vec<$C>, ::fractic_server_error::ServerError>", "repo.$K().batch_set(self, data).await")
    } else if m.child.is_some() && m.verb == Verb::Delete && m.keyed {
        ("(&self, repo: &dyn $R, key: &str) -> ::std::result::Result<(), ::fractic_server_error::ServerError>", "repo.$K().delete(self, key).await")
    } else if m.child.is_some() && m.verb == Verb::Delete && !m.keyed {
        ("(&self, repo: &dyn $R) -> ::std::result::Result<(), ::fractic_server_error::ServerError>", "repo.$K().delete(self).await")
    } else if m.child.is_some() && m.verb == Verb::BatchDelete {
        ("(&self, repo: &dyn $R, keys: ::std::vec::Vec<&str>) -> ::std::result::Result<(), ::fractic_server_error::ServerError>", "repo.$K().batch_delete(self, keys).await")
    } else {
        ("(repo: &dyn $R) -> ::std::result::Result<(), ::fractic_server_error::ServerError>", "::std::result::Result::Ok(())")
    }
}

/// The non-recursive deletes, whose names carry an upper-case warning.
pub open spec fn dangerous(m: Method) -> bool {
    m.child is None && (m.verb == Verb::DeleteNonRecursive || m.verb == Verb::BatchDeleteNonRecursive
        || m.verb == Verb::BatchDeleteAllNonRecursive)
}

pub open spec fn signature(kind: ObjectKind, m: Method) -> Seq<char> {
    (if dangerous(m) { "#[allow(non_snake_case)]\n"@ } else { Seq::empty() }) + "async fn $N"@
        + method_template(kind, m).0
}

/// A method as declared in the interface.
pub open spec fn trait_item(kind: ObjectKind, m: Method) -> Seq<char> {
    signature(kind, m) + ";\n"@
}

/// A method as implemented: its body forwards to the manager.
pub open spec fn impl_item(kind: ObjectKind, m: Method) -> Seq<char> {
    signature(kind, m) + " {\n    "@ + method_template(kind, m).1 + "\n}\n"@
}

/// The names a method of object `o` is rendered with.
pub open spec fn names_for(text: Seq<char>, repo: Span, o: ObjectModelView, m: Method) -> NamesView {
    let owner = span_text(text, o.name);
    let child = match m.child {
        Some(c) => span_text(text, c),
        None => Seq::empty(),
    };
    NamesView {
        repo: span_text(text, repo),
        ty: owner,
        data: owner + "Data"@,
        manager: prefixed_snake("manage"@, owner),
        parent: if o.parents.len() > 0 { span_text(text, o.parents[0]) } else { Seq::empty() },
        child,
        child_data: child + "Data"@,
        child_manager: prefixed_snake("manage"@, child),
        name: method_name_in(text, o.name, m),
    }
}

/// The rendered methods `ms` of object `o`, as declared (`in_trait`) or as
/// implemented.
pub open spec fn items(text: Seq<char>, repo: Span, o: ObjectModelView, ms: Seq<Method>, in_trait: bool) -> Seq<char>
    decreases ms.len(),
{
    if ms.len() == 0 {
        Seq::empty()
    } else {
        let m = ms.last();
        let t = if in_trait { trait_item(o.kind, m) } else { impl_item(o.kind, m) };
        items(text, repo, o, ms.drop_last(), in_trait) + expand(t, names_for(text, repo, o, m))
    }
}

/// The interface `<Object>Crud` of an object with every method of its
/// surface, and its implementation for the object type.
pub open spec fn object_source(m: ConfigModelView, o: ObjectModelView) -> Seq<char> {
    let t = span_text(m.text, o.name);
    "pub trait "@ + t + "Crud {\n"@ + items(m.text, m.repository_name, o, surface(o), true) + "}\n\nimpl "@ + t
        + "Crud for "@ + t + " {\n"@ + items(m.text, m.repository_name, o, surface(o), false) + "}\n"@
}

fn push_str(out: &mut Vec<char>, s: &str)
    ensures
        final(out)@ == old(out)@ + s@,
{
    let cs = chars_of(s);
    extend_chars(out, &cs);
}

fn chars_of_string(s: &String) -> (r: Vec<char>)
    ensures
        r@ == s@,
{
    chars_of(s.as_str())
}

fn names_of(model: &ConfigModel, o: &ObjectModel, m: Method) -> (r: Names)
    requires
        model_spans_in(model@),
        object_spans_in(o@, model@.text.len()),
        m.child is Some ==> span_in(m.child->0, model@.text.len()),
    ensures
        r@ == names_for(model@.text, model@.repository_name, o@, m),
{
    let owner = model.name_of(o.name);
    let child = match m.child {
        Some(c) => model.name_of(c),
        None => String::new(),
    };
    let ty = chars_of_string(&owner);
    let mut data = chars_of_string(&owner);
    push_str(&mut data, "Data");
    let manager = chars_of_string(&method_ident_for("manage", owner.as_str()));
    let parent = if o.parents.len() > 0 {
        assert(span_in(o@.parents[0], model@.text.len()));
        chars_of_string(&model.name_of(o.parents[0]))
    } else {
        Vec::new()
    };
    let mut child_data = chars_of_string(&child);
    push_str(&mut child_data, "Data");
    let r = Names {
        repo: chars_of_string(&model.name_of(model.repository_name)),
        ty,
        data,
        manager,
        parent,
        child: chars_of_string(&child),
        child_data,
        child_manager: chars_of_string(&method_ident_for("manage", child.as_str())),
        name: chars_of_string(&method_ident(owner.as_str(), child.as_str(), m)),
    };
    r
}

fn push_item(out: &mut Vec<char>, kind: ObjectKind, m: Method, in_trait: bool, n: &Names)
    ensures
        final(out)@ == old(out)@ + expand(if in_trait { trait_item(kind, m) } else { impl_item(kind, m) }, n@),
{
    let (sig, body) = method_template_of(kind, m);
    let mut t: Vec<char> = Vec::new();
    let dangerous = m.child.is_none() && (m.verb == Verb::DeleteNonRecursive || m.verb == Verb::BatchDeleteNonRecursive
        || m.verb == Verb::BatchDeleteAllNonRecursive);
    if dangerous {
        push_str(&mut t, "#[allow(non_snake_case)]\n");
    }
    push_str(&mut t, "async fn $N");
    push_str(&mut t, sig);
    if in_trait {
        push_str(&mut t, ";\n");
    } else {
        push_str(&mut t, " {\n    ");
        push_str(&mut t, body);
        push_str(&mut t, "\n}\n");
    }
    assert(t@ =~= (if in_trait { trait_item(kind, m) } else { impl_item(kind, m) }));
    expand_into(out, &t, n);
}

fn push_items(out: &mut Vec<char>, model: &ConfigModel, o: &ObjectModel, ms: &Vec<Method>, in_trait: bool)
    requires
        model_spans_in(model@),
        object_spans_in(o@, model@.text.len()),
        children_in(ms@, model@.text.len()),
    ensures
        final(out)@ == old(out)@ + items(model@.text, model@.repository_name, o@, ms@, in_trait),
{
    let mut i: usize = 0;
    while i < ms.len()
        invariant
            i <= ms.len(),
            model_spans_in(model@),
            object_spans_in(o@, model@.text.len()),
            children_in(ms@, model@.text.len()),
            out@ == old(out)@ + items(model@.text, model@.repository_name, o@, ms@.take(i as int), in_trait),
        decreases ms.len() - i,
    {
        let m = ms[i];
        let n = names_of(model, o, m);
        let ghost before = out@;
        push_item(out, o.kind, m, in_trait, &n);
        assert(ms@.take(i + 1).drop_last() =~= ms@.take(i as int));
        assert(out@ =~= old(out)@ + items(model@.text, model@.repository_name, o@, ms@.take(i + 1), in_trait));
        i += 1;
    }
    assert(ms@.take(ms.len() as int) =~= ms@);
}

impl ConfigModel {
    /// The interface and implementation source of object `i`.
    pub fn object_source(&self, i: usize) -> (r: String)
        requires
            model_spans_in(self@),
            i < self@.objects.len(),
        ensures
            r@ == object_source(self@, self@.objects[i as int]),
    {
        let o = &self.objects[i];
        assert(self@.objects[i as int] == o@);
        assert(object_spans_in(o@, self@.text.len()));
        proof {
            lemma_surface_children_in(o@, self@.text.len());
        }
        let ms = o.surface();
        let name = chars_of_string(&self.name_of(o.name));
        let mut out: Vec<char> = Vec::new();
        push_str(&mut out, "pub trait ");
        extend_chars(&mut out, &name);
        push_str(&mut out, "Crud {\n");
        push_items(&mut out, self, o, &ms, true);
        push_str(&mut out, "}\n\nimpl ");
        extend_chars(&mut out, &name);
        push_str(&mut out, "Crud for ");
        extend_chars(&mut out, &name);
        push_str(&mut out, " {\n");
        push_items(&mut out, self, o, &ms, false);
        push_str(&mut out, "}\n");
        assert(out@ =~= object_source(self@, self@.objects[i as int]));
        string_of(&out)
    }
}

/// Every request envelope a handler distinguishes, in the order its match
/// arms are emitted.
pub open spec fn envelopes() -> Seq<Envelope> {
    seq![
        Envelope::List { parent_id: false },
        Envelope::List { parent_id: true },
        Envelope::Create { parent_id: false, after: false },
        Envelope::Create { parent_id: false, after: true },
        Envelope::Create { parent_id: true, after: false },
        Envelope::Create { parent_id: true, after: true },
        Envelope::CreateBatch { parent_id: false, after: false },
        Envelope::CreateBatch { parent_id: false, after: true },
        Envelope::CreateBatch { parent_id: true, after: false },
        Envelope::CreateBatch { parent_id: true, after: true },
        Envelope::Read,
        Envelope::ReadBatch,
        Envelope::Update,
        Envelope::Delete { non_recursive: false },
        Envelope::Delete { non_recursive: true },
        Envelope::DeleteBatch { non_recursive: false },
        Envelope::DeleteBatch { non_recursive: true },
        Envelope::DeleteAll { parent_id: false, non_recursive: false },
        Envelope::DeleteAll { parent_id: false, non_recursive: true },
        Envelope::DeleteAll { parent_id: true, non_recursive: false },
        Envelope::DeleteAll { parent_id: true, non_recursive: true },
        Envelope::ReplaceAll { parent_id: false },
        Envelope::ReplaceAll { parent_id: true },
    ]
}

fn envelopes_of() -> (r: Vec<Envelope>)
    ensures
        r@ == envelopes(),
{
    let mut r: Vec<Envelope> = Vec::new();
    r.push(Envelope::List { parent_id: false });
    r.push(Envelope::List { parent_id: true });
    r.push(Envelope::Create { parent_id: false, after: false });
    r.push(Envelope::Create { parent_id: false, after: true });
    r.push(Envelope::Create { parent_id: true, after: false });
    r.push(Envelope::Create { parent_id: true, after: true });
    r.push(Envelope::CreateBatch { parent_id: false, after: false });
    r.push(Envelope::CreateBatch { parent_id: false, after: true });
    r.push(Envelope::CreateBatch { parent_id: true, after: false });
    r.push(Envelope::CreateBatch { parent_id: true, after: true });
    r.push(Envelope::Read);
    r.push(Envelope::ReadBatch);
    r.push(Envelope::Update);
    r.push(Envelope::Delete { non_recursive: false });
    r.push(Envelope::Delete { non_recursive: true });
    r.push(Envelope::DeleteBatch { non_recursive: false });
    r.push(Envelope::DeleteBatch { non_recursive: true });
    r.push(Envelope::DeleteAll { parent_id: false, non_recursive: false });
    r.push(Envelope::DeleteAll { parent_id: false, non_recursive: true });
    r.push(Envelope::DeleteAll { parent_id: true, non_recursive: false });
    r.push(Envelope::DeleteAll { parent_id: true, non_recursive: true });
    r.push(Envelope::ReplaceAll { parent_id: false });
    r.push(Envelope::ReplaceAll { parent_id: true });
    assert(r@ =~= envelopes());
    r
}

/// The match pattern of an envelope; it binds the fields the arm uses.
pub open spec fn pattern_template(e: Envelope) -> Seq<char> {
    if e == (Envelope::List { parent_id: false }) {
        "List { parent_id: ::std::option::Option::None }"@
    } else if e == (Envelope::List { parent_id: true }) {
        "List { parent_id: ::std::option::Option::Some(parent_id) }"@
    } else if e == (Envelope::Create { parent_id: false, after: false }) {
        "Create { parent_id: ::std::option::Option::None, after: ::std::option::Option::None, data }"@
    } else if e == (Envelope::Create { parent_id: false, after: true }) {
        "Create { parent_id: ::std::option::Option::None, after: ::std::option::Option::Some(after), data }"@
    } else if e == (Envelope::Create { parent_id: true, after: false }) {
        "Create { parent_id: ::std::option::Option::Some(parent_id), after: ::std::option::Option::None, data }"@
    } else if e == (Envelope::Create { parent_id: true, after: true }) {
        "Create { parent_id: ::std::option::Option::Some(parent_id), after: ::std::option::Option::Some(after), data }"@
    } else if e == (Envelope::CreateBatch { parent_id: false, after: false }) {
        "CreateBatch { parent_id: ::std::option::Option::None, after: ::std::option::Option::None, data }"@
    } else if e == (Envelope::CreateBatch { parent_id: false, after: true }) {
        "CreateBatch { parent_id: ::std::option::Option::None, after: ::std::option::Option::Some(after), data }"@
    } else if e == (Envelope::CreateBatch { parent_id: true, after: false }) {
        "CreateBatch { parent_id: ::std::option::Option::Some(parent_id), after: ::std::option::Option::None, data }"@
    } else if e == (Envelope::CreateBatch { parent_id: true, after: true }) {
        "CreateBatch { parent_id: ::std::option::Option::Some(parent_id), after: ::std::option::Option::Some(after), data }"@
    } else if e == (Envelope::Read) {
        "Read { id }"@
    } else if e == (Envelope::ReadBatch) {
        "ReadBatch { ids }"@
    } else if e == (Envelope::Update) {
        "Update { item }"@
    } else if e == (Envelope::Delete { non_recursive: false }) {
        "Delete { id, non_recursive: false }"@
    } else if e == (Envelope::Delete { non_recursive: true }) {
        "Delete { id, non_recursive: true }"@
    } else if e == (Envelope::DeleteBatch { non_recursive: false }) {
        "DeleteBatch { ids, non_recursive: false }"@
    } else if e == (Envelope::DeleteBatch { non_recursive: true }) {
        "DeleteBatch { ids, non_recursive: true }"@
    } else if e == (Envelope::DeleteAll { parent_id: false, non_recursive: false }) {
        "DeleteAll { parent_id: ::std::option::Option::None, non_recursive: false }"@
    } else if e == (Envelope::DeleteAll { parent_id: false, non_recursive: true }) {
        "DeleteAll { parent_id: ::std::option::Option::None, non_recursive: true }"@
    } else if e == (Envelope::DeleteAll { parent_id: true, non_recursive: false }) {
        "DeleteAll { parent_id: ::std::option::Option::Some(parent_id), non_recursive: false }"@
    } else if e == (Envelope::DeleteAll { parent_id: true, non_recursive: true }) {
        "DeleteAll { parent_id: ::std::option::Option::Some(parent_id), non_recursive: true }"@
    } else if e == (Envelope::ReplaceAll { parent_id: false }) {
        "ReplaceAll { parent_id: ::std::option::Option::None, data }"@
    } else if e == (Envelope::ReplaceAll { parent_id: true }) {
        "ReplaceAll { parent_id: ::std::option::Option::Some(parent_id), data }"@
    } else {
        "_"@
    }
}

fn pattern_template_of(e: Envelope) -> (r: &'static str)
    ensures
        r@ == pattern_template(e),
{
    if e == (Envelope::List { parent_id: false }) {
        "List { parent_id: ::std::option::Option::None }"
    } else if e == (Envelope::List { parent_id: true }) {
        "List { parent_id: ::std::option::Option::Some(parent_id) }"
    } else if e == (Envelope::Create { parent_id: false, after: false }) {
        "Create { parent_id: ::std::option::Option::None, after: ::std::option::Option::None, data }"
    } else if e == (Envelope::Create { parent_id: false, after: true }) {
        "Create { parent_id: ::std::option::Option::None, after: ::std::option::Option::Some(after), data }"
    } else if e == (Envelope::Create { parent_id: true, after: false }) {
        "Create { parent_id: ::std::option::Option::Some(parent_id), after: ::std::option::Option::None, data }"
    } else if e == (Envelope::Create { parent_id: true, after: true }) {
        "Create { parent_id: ::std::option::Option::Some(parent_id), after: ::std::option::Option::Some(after), data }"
    } else if e == (Envelope::CreateBatch { parent_id: false, after: false }) {
        "CreateBatch { parent_id: ::std::option::Option::None, after: ::std::option::Option::None, data }"
    } else if e == (Envelope::CreateBatch { parent_id: false, after: true }) {
        "CreateBatch { parent_id: ::std::option::Option::None, after: ::std::option::Option::Some(after), data }"
    } else if e == (Envelope::CreateBatch { parent_id: true, after: false }) {
        "CreateBatch { parent_id: ::std::option::Option::Some(parent_id), after: ::std::option::Option::None, data }"
    } else if e == (Envelope::CreateBatch { parent_id: true, after: true }) {
        "CreateBatch { parent_id: ::std::option::Option::Some(parent_id), after: ::std::option::Option::Some(after), data }"
    } else if e == (Envelope::Read) {
        "Read { id }"
    } else if e == (Envelope::ReadBatch) {
        "ReadBatch { ids }"
    } else if e == (Envelope::Update) {
        "Update { item }"
    } else if e == (Envelope::Delete { non_recursive: false }) {
        "Delete { id, non_recursive: false }"
    } else if e == (Envelope::Delete { non_recursive: true }) {
        "Delete { id, non_recursive: true }"
    } else if e == (Envelope::DeleteBatch { non_recursive: false }) {
        "DeleteBatch { ids, non_recursive: false }"
    } else if e == (Envelope::DeleteBatch { non_recursive: true }) {
        "DeleteBatch { ids, non_recursive: true }"
    } else if e == (Envelope::DeleteAll { parent_id: false, non_recursive: false }) {
        "DeleteAll { parent_id: ::std::option::Option::None, non_recursive: false }"
    } else if e == (Envelope::DeleteAll { parent_id: false, non_recursive: true }) {
        "DeleteAll { parent_id: ::std::option::Option::None, non_recursive: true }"
    } else if e == (Envelope::DeleteAll { parent_id: true, non_recursive: false }) {
        "DeleteAll { parent_id: ::std::option::Option::Some(parent_id), non_recursive: false }"
    } else if e == (Envelope::DeleteAll { parent_id: true, non_recursive: true }) {
        "DeleteAll { parent_id: ::std::option::Option::Some(parent_id), non_recursive: true }"
    } else if e == (Envelope::ReplaceAll { parent_id: false }) {
        "ReplaceAll { parent_id: ::std::option::Option::None, data }"
    } else if e == (Envelope::ReplaceAll { parent_id: true }) {
        "ReplaceAll { parent_id: ::std::option::Option::Some(parent_id), data }"
    } else {
        "_"
    }
}

/// The arm of a rejected request: an invalid-parameters error naming the
/// object, with no manager call.
pub open spec fn rejection_template(e: Rejection) -> Seq<char> {
    if e == Rejection::ParentIdForbidden {
        "::std::result::Result::Err(::fractic_aws_apigateway::InvalidCrudRequestParameters::new(\"operations on $T do not allow a parent ID\").into())"@
    } else if e == Rejection::ParentIdRequired {
        "::std::result::Result::Err(::fractic_aws_apigateway::InvalidCrudRequestParameters::new(\"operations on $T require a valid parent ID\").into())"@
    } else if e == Rejection::AfterForbidden {
        "::std::result::Result::Err(::fractic_aws_apigateway::InvalidCrudRequestParameters::new(\"operations on $T do not allow an `after` parameter\").into())"@
    } else if e == Rejection::NonRecursiveRequired {
        "::std::result::Result::Err(::fractic_aws_apigateway::InvalidCrudRequestParameters::new(\"bulk deletes on $T require non_recursive=true\").into())"@
    } else if e == Rejection::NotSupported {
        "::std::result::Result::Err(::fractic_aws_apigateway::InvalidCrudRequestParameters::new(\"operation not supported for $T\").into())"@
    } else {
        "::std::result::Result::Err(::fractic_aws_apigateway::InvalidCrudRequestParameters::new(\"operation not supported for batch collection $T\").into())"@
    }
}

/// What an arm does: forward to the manager and wrap the result, or
/// reject the request as invalid.
pub open spec fn action_template(kind: ObjectKind, r: Result<Call, Rejection>) -> Seq<char> {
    match r {
        Ok(c) => {
            if c == (Call::List { under_parent: false }) {
                "{ ::std::result::Result::Ok(__CrudOperationResult::Items(repo.$M().query_all().await?)) }"@
            } else if c == (Call::List { under_parent: true }) {
                "{ let parent = $P::placeholder(parent_id); ::std::result::Result::Ok(__CrudOperationResult::Items(repo.$M().query_all(&parent).await?)) }"@
            } else if c == (Call::Add { under_parent: false, after: false }) {
                "{ let created = repo.$M().add(data).await?; ::std::result::Result::Ok(__CrudOperationResult::Created { created_id: created.id }) }"@
            } else if c == (Call::Add { under_parent: true, after: false }) && kind == ObjectKind::OrderedChild {
                "{ let parent = $P::placeholder(parent_id); let created = repo.$M().add(&parent, data, ::std::option::Option::None).await?; ::std::result::Result::Ok(__CrudOperationResult::Created { created_id: created.id }) }"@
            } else if c == (Call::Add { under_parent: true, after: false }) {
                "{ let parent = $P::placeholder(parent_id); let created = repo.$M().add(&parent, data).await?; ::std::result::Result::Ok(__CrudOperationResult::Created { created_id: created.id }) }"@
            } else if c == (Call::Add { under_parent: true, after: true }) {
                "{ let parent = $P::placeholder(parent_id); let after = $T::placeholder(after); let created = repo.$M().add(&parent, data, ::std::option::Option::Some(&after)).await?; ::std::result::Result::Ok(__CrudOperationResult::Created { created_id: created.id }) }"@
            } else if c == (Call::BatchAdd { under_parent: false, after: false }) {
                "{ let created = repo.$M().batch_add(data).await?; ::std::result::Result::Ok(__CrudOperationResult::CreatedBatch { created_ids: created.into_iter().map(|x| x.id).collect() }) }"@
            } else if c == (Call::BatchAdd { under_parent: true, after: false }) && kind == ObjectKind::OrderedChild {
                "{ let parent = $P::placeholder(parent_id); let created = repo.$M().batch_add(&parent, data, ::std::option::Option::None).await?; ::std::result::Result::Ok(__CrudOperationResult::CreatedBatch { created_ids: created.into_iter().map(|x| x.id).collect() }) }"@
            } else if c == (Call::BatchAdd { under_parent: true, after: false }) {
                "{ let parent = $P::placeholder(parent_id); let created = repo.$M().batch_add(&parent, data).await?; ::std::result::Result::Ok(__CrudOperationResult::CreatedBatch { created_ids: created.into_iter().map(|x| x.id).collect() }) }"@
            } else if c == (Call::BatchAdd { under_parent: true, after: true }) {
                "{ let parent = $P::placeholder(parent_id); let after = $T::placeholder(after); let created = repo.$M().batch_add(&parent, data, ::std::option::Option::Some(&after)).await?; ::std::result::Result::Ok(__CrudOperationResult::CreatedBatch { created_ids: created.into_iter().map(|x| x.id).collect() }) }"@
            } else if c == (Call::Get) {
                "{ ::std::result::Result::Ok(__CrudOperationResult::Read(repo.$M().get(id).await?)) }"@
            } else if c == (Call::GetEach) {
                "{ let items = ::futures::future::try_join_all(ids.into_iter().map(|id| repo.$M().get(id))).await?; ::std::result::Result::Ok(__CrudOperationResult::Items(items)) }"@
            } else if c == (Call::Update) {
                "{ repo.$M().update(&item).await?; ::std::result::Result::Ok(__CrudOperationResult::Unit(())) }"@
            } else if c == (Call::Delete) {
                "{ let item = repo.$M().get(id).await?; repo.$M().delete(item).await?; ::std::result::Result::Ok(__CrudOperationResult::Unit(())) }"@
            } else if c == (Call::DeleteRecursive) {
                "{ let item = repo.$M().get(id).await?; repo.$M().delete_recursive(item).await?; ::std::result::Result::Ok(__CrudOperationResult::Unit(())) }"@
            } else if c == (Call::DeleteNonRecursive) {
                "{ let item = repo.$M().get(id).await?; repo.$M().delete_non_recursive(item).await?; ::std::result::Result::Ok(__CrudOperationResult::Unit(())) }"@
            } else if c == (Call::BatchDelete) {
                "{ let items = ::futures::future::try_join_all(ids.into_iter().map(|id| repo.$M().get(id))).await?; repo.$M().batch_delete(items).await?; ::std::result::Result::Ok(__CrudOperationResult::Unit(())) }"@
            } else if c == (Call::BatchDeleteNonRecursive) {
                "{ let items = ::futures::future::try_join_all(ids.into_iter().map(|id| repo.$M().get(id))).await?; repo.$M().batch_delete_non_recursive(items).await?; ::std::result::Result::Ok(__CrudOperationResult::Unit(())) }"@
            } else if c == (Call::DeleteAll { under_parent: false }) {
                "{ repo.$M().batch_delete_all().await?; ::std::result::Result::Ok(__CrudOperationResult::Unit(())) }"@
            } else if c == (Call::DeleteAll { under_parent: true }) {
                "{ let parent = $P::placeholder(parent_id); repo.$M().batch_delete_all(&parent).await?; ::std::result::Result::Ok(__CrudOperationResult::Unit(())) }"@
            } else if c == (Call::DeleteAllNonRecursive) {
                "{ repo.$M().batch_delete_all_non_recursive().await?; ::std::result::Result::Ok(__CrudOperationResult::Unit(())) }"@
            } else if c == (Call::ReplaceAll) {
                "{ let parent = $P::placeholder(parent_id); repo.$M().batch_replace_all_ordered(&parent, data).await?; ::std::result::Result::Ok(__CrudOperationResult::Unit(())) }"@
            } else {
                "{ }"@
            }
        },
        Err(e) => rejection_template(e),
    }
}

fn action_template_of(kind: ObjectKind, r: Result<Call, Rejection>) -> (t: &'static str)
    ensures
        t@ == action_template(kind, r),
{
    match r {
        Ok(c) => {
            if c == (Call::List { under_parent: false }) {
                "{ ::std::result::Result::Ok(__CrudOperationResult::Items(repo.$M().query_all().await?)) }"
            } else if c == (Call::List { under_parent: true }) {
                "{ let parent = $P::placeholder(parent_id); ::std::result::Result::Ok(__CrudOperationResult::Items(repo.$M().query_all(&parent).await?)) }"
            } else if c == (Call::Add { under_parent: false, after: false }) {
                "{ let created = repo.$M().add(data).await?; ::std::result::Result::Ok(__CrudOperationResult::Created { created_id: created.id }) }"
            } else if c == (Call::Add { under_parent: true, after: false }) && kind == ObjectKind::OrderedChild {
                "{ let parent = $P::placeholder(parent_id); let created = repo.$M().add(&parent, data, ::std::option::Option::None).await?; ::std::result::Result::Ok(__CrudOperationResult::Created { created_id: created.id }) }"
            } else if c == (Call::Add { under_parent: true, after: false }) {
                "{ let parent = $P::placeholder(parent_id); let created = repo.$M().add(&parent, data).await?; ::std::result::Result::Ok(__CrudOperationResult::Created { created_id: created.id }) }"
            } else if c == (Call::Add { under_parent: true, after: true }) {
                "{ let parent = $P::placeholder(parent_id); let after = $T::placeholder(after); let created = repo.$M().add(&parent, data, ::std::option::Option::Some(&after)).await?; ::std::result::Result::Ok(__CrudOperationResult::Created { created_id: created.id }) }"
            } else if c == (Call::BatchAdd { under_parent: false, after: false }) {
                "{ let created = repo.$M().batch_add(data).await?; ::std::result::Result::Ok(__CrudOperationResult::CreatedBatch { created_ids: created.into_iter().map(|x| x.id).collect() }) }"
            } else if c == (Call::BatchAdd { under_parent: true, after: false }) && kind == ObjectKind::OrderedChild {
                "{ let parent = $P::placeholder(parent_id); let created = repo.$M().batch_add(&parent, data, ::std::option::Option::None).await?; ::std::result::Result::Ok(__CrudOperationResult::CreatedBatch { created_ids: created.into_iter().map(|x| x.id).collect() }) }"
            } else if c == (Call::BatchAdd { under_parent: true, after: false }) {
                "{ let parent = $P::placeholder(parent_id); let created = repo.$M().batch_add(&parent, data).await?; ::std::result::Result::Ok(__CrudOperationResult::CreatedBatch { created_ids: created.into_iter().map(|x| x.id).collect() }) }"
            } else if c == (Call::BatchAdd { under_parent: true, after: true }) {
                "{ let parent = $P::placeholder(parent_id); let after = $T::placeholder(after); let created = repo.$M().batch_add(&parent, data, ::std::option::Option::Some(&after)).await?; ::std::result::Result::Ok(__CrudOperationResult::CreatedBatch { created_ids: created.into_iter().map(|x| x.id).collect() }) }"
            } else if c == (Call::Get) {
                "{ ::std::result::Result::Ok(__CrudOperationResult::Read(repo.$M().get(id).await?)) }"
            } else if c == (Call::GetEach) {
                "{ let items = ::futures::future::try_join_all(ids.into_iter().map(|id| repo.$M().get(id))).await?; ::std::result::Result::Ok(__CrudOperationResult::Items(items)) }"
            } else if c == (Call::Update) {
                "{ repo.$M().update(&item).await?; ::std::result::Result::Ok(__CrudOperationResult::Unit(())) }"
            } else if c == (Call::Delete) {
                "{ let item = repo.$M().get(id).await?; repo.$M().delete(item).await?; ::std::result::Result::Ok(__CrudOperationResult::Unit(())) }"
            } else if c == (Call::DeleteRecursive) {
                "{ let item = repo.$M().get(id).await?; repo.$M().delete_recursive(item).await?; ::std::result::Result::Ok(__CrudOperationResult::Unit(())) }"
            } else if c == (Call::DeleteNonRecursive) {
                "{ let item = repo.$M().get(id).await?; repo.$M().delete_non_recursive(item).await?; ::std::result::Result::Ok(__CrudOperationResult::Unit(())) }"
            } else if c == (Call::BatchDelete) {
                "{ let items = ::futures::future::try_join_all(ids.into_iter().map(|id| repo.$M().get(id))).await?; repo.$M().batch_delete(items).await?; ::std::result::Result::Ok(__CrudOperationResult::Unit(())) }"
            } else if c == (Call::BatchDeleteNonRecursive) {
                "{ let items = ::futures::future::try_join_all(ids.into_iter().map(|id| repo.$M().get(id))).await?; repo.$M().batch_delete_non_recursive(items).await?; ::std::result::Result::Ok(__CrudOperationResult::Unit(())) }"
            } else if c == (Call::DeleteAll { under_parent: false }) {
                "{ repo.$M().batch_delete_all().await?; ::std::result::Result::Ok(__CrudOperationResult::Unit(())) }"
            } else if c == (Call::DeleteAll { under_parent: true }) {
                "{ let parent = $P::placeholder(parent_id); repo.$M().batch_delete_all(&parent).await?; ::std::result::Result::Ok(__CrudOperationResult::Unit(())) }"
            } else if c == (Call::DeleteAllNonRecursive) {
                "{ repo.$M().batch_delete_all_non_recursive().await?; ::std::result::Result::Ok(__CrudOperationResult::Unit(())) }"
            } else if c == (Call::ReplaceAll) {
                "{ let parent = $P::placeholder(parent_id); repo.$M().batch_replace_all_ordered(&parent, data).await?; ::std::result::Result::Ok(__CrudOperationResult::Unit(())) }"
            } else {
                "{ }"
            }
        },
        Err(e) => {
            if e == Rejection::ParentIdForbidden {
                "::std::result::Result::Err(::fractic_aws_apigateway::InvalidCrudRequestParameters::new(\"operations on $T do not allow a parent ID\").into())"
            } else if e == Rejection::ParentIdRequired {
                "::std::result::Result::Err(::fractic_aws_apigateway::InvalidCrudRequestParameters::new(\"operations on $T require a valid parent ID\").into())"
            } else if e == Rejection::AfterForbidden {
                "::std::result::Result::Err(::fractic_aws_apigateway::InvalidCrudRequestParameters::new(\"operations on $T do not allow an `after` parameter\").into())"
            } else if e == Rejection::NonRecursiveRequired {
                "::std::result::Result::Err(::fractic_aws_apigateway::InvalidCrudRequestParameters::new(\"bulk deletes on $T require non_recursive=true\").into())"
            } else if e == Rejection::NotSupported {
                "::std::result::Result::Err(::fractic_aws_apigateway::InvalidCrudRequestParameters::new(\"operation not supported for $T\").into())"
            } else {
                "::std::result::Result::Err(::fractic_aws_apigateway::InvalidCrudRequestParameters::new(\"operation not supported for batch collection $T\").into())"
            }
        },
    }
}


/// The match arm for envelope `e`: its pattern, then what [`plan`] decides.
pub open spec fn arm(kind: ObjectKind, has_children: bool, e: Envelope) -> Seq<char> {
    "        "@ + pattern_template(e) + " => "@ + action_template(kind, plan(kind, has_children, e)) + ",\n"@
}

/// The match arms of a handler for the envelopes `es`.
pub open spec fn arms(kind: ObjectKind, has_children: bool, es: Seq<Envelope>) -> Seq<char>
    decreases es.len(),
{
    if es.len() == 0 {
        Seq::empty()
    } else {
        arms(kind, has_children, es.drop_last()) + arm(kind, has_children, es.last())
    }
}

/// The names a handler of object `o` is rendered with: `$N` is
/// `manage_<object>_handler`.
pub open spec fn handler_names(m: ConfigModelView, o: ObjectModelView) -> NamesView {
    let owner = span_text(m.text, o.name);
    NamesView {
        repo: span_text(m.text, m.repository_name),
        ty: owner,
        data: owner + "Data"@,
        manager: prefixed_snake("manage"@, owner),
        parent: if o.parents.len() > 0 { span_text(m.text, o.parents[0]) } else { Seq::empty() },
        child: Seq::empty(),
        child_data: Seq::empty(),
        child_manager: Seq::empty(),
        name: prefixed_snake("manage"@, owner) + "_handler"@,
    }
}

/// The start of every handler, up to its first match arm.
pub open spec fn handler_head() -> Seq<char> {
    "#[allow(unused_variables)]\npub async fn $N(repo: &dyn $R, operation: ::fractic_aws_apigateway::CrudOperation<$T>) -> ::std::result::Result<__CrudOperationResult<$T>, ::fractic_server_error::ServerError> {\n    use ::fractic_aws_apigateway::CrudOperation::*;\n    match operation {\n"@
}

pub open spec fn handler_template(kind: ObjectKind, has_children: bool) -> Seq<char> {
    handler_head() + arms(kind, has_children, envelopes()) + "    }\n}\n"@
}

proof fn lemma_handler_head_ends_line()
    ensures
        handler_head().len() > 0 && handler_head().last() == '\n',
{
    reveal_strlit("#[allow(unused_variables)]\npub async fn $N(repo: &dyn $R, operation: ::fractic_aws_apigateway::CrudOperation<$T>) -> ::std::result::Result<__CrudOperationResult<$T>, ::fractic_server_error::ServerError> {\n    use ::fractic_aws_apigateway::CrudOperation::*;\n    match operation {\n");
}

/// The request handler of a collection object: one match arm per envelope,
/// doing what [`plan`] decides for it.
pub open spec fn handler_source(m: ConfigModelView, o: ObjectModelView) -> Seq<char> {
    expand(handler_template(o.kind, o.has_children()), handler_names(m, o))
}

impl ConfigModel {
    /// The request handler source of collection object `i`.
    pub fn handler_source(&self, i: usize) -> (r: String)
        requires
            model_spans_in(self@),
            i < self@.objects.len(),
            has_handler(self@.objects[i as int].kind),
        ensures
            r@ == handler_source(self@, self@.objects[i as int]),
    {
        let o = &self.objects[i];
        assert(self@.objects[i as int] == o@);
        assert(object_spans_in(o@, self@.text.len()));
        let has_children = o.has_children();
        let mut t: Vec<char> = Vec::new();
        push_str(&mut t, "#[allow(unused_variables)]\npub async fn $N(repo: &dyn $R, operation: ::fractic_aws_apigateway::CrudOperation<$T>) -> ::std::result::Result<__CrudOperationResult<$T>, ::fractic_server_error::ServerError> {\n    use ::fractic_aws_apigateway::CrudOperation::*;\n    match operation {\n");
        let ghost head = t@;
        let es = envelopes_of();
        let mut k: usize = 0;
        while k < es.len()
            invariant
                k <= es.len(),
                es@ == envelopes(),
                has_handler(o@.kind),
                has_children == o@.has_children(),
                t@ == head + arms(o@.kind, has_children, es@.take(k as int)),
            decreases es.len() - k,
        {
            let e = es[k];
            let ghost before = t@;
            push_str(&mut t, "        ");
            push_str(&mut t, pattern_template_of(e));
            push_str(&mut t, " => ");
            push_str(&mut t, action_template_of(o.kind, plan_request(o.kind, has_children, e)));
            push_str(&mut t, ",\n");
            assert(es@.take(k + 1).drop_last() =~= es@.take(k as int));
            assert(t@ =~= head + arms(o@.kind, has_children, es@.take(k + 1)));
            k += 1;
        }
        assert(es@.take(es.len() as int) =~= es@);
        push_str(&mut t, "    }\n}\n");
        assert(t@ =~= handler_template(o@.kind, o@.has_children()));
        let owner = self.name_of(o.name);
        let mut name = chars_of_string(&method_ident_for("manage", owner.as_str()));
        push_str(&mut name, "_handler");
        let parent = if o.parents.len() > 0 {
            assert(span_in(o@.parents[0], self@.text.len()));
            chars_of_string(&self.name_of(o.parents[0]))
        } else {
            Vec::new()
        };
        let mut data = chars_of_string(&owner);
        push_str(&mut data, "Data");
        let n = Names {
            repo: chars_of_string(&self.name_of(self.repository_name)),
            ty: chars_of_string(&owner),
            data,
            manager: chars_of_string(&method_ident_for("manage", owner.as_str())),
            parent,
            child: Vec::new(),
            child_data: Vec::new(),
            child_manager: Vec::new(),
            name,
        };
        assert(n@ == handler_names(self@, o@));
        let mut out: Vec<char> = Vec::new();
        expand_into(&mut out, &t, &n);
        assert(out@ =~= handler_source(self@, self@.objects[i as int]));
        string_of(&out)
    }
}

/// The manager type of the storage library that serves an object.
pub open spec fn manager_type(kind: ObjectKind, owned: bool, has_children: bool) -> Seq<char> {
    match kind {
        ObjectKind::Root => if has_children { "ManageRootUnorderedWithChildren"@ } else { "ManageRootUnordered"@ },
        ObjectKind::OrderedChild => if has_children { "ManageChildOrderedWithChildren"@ } else { "ManageChildOrdered"@ },
        ObjectKind::UnorderedChild => if has_children {
            "ManageChildUnorderedWithChildren"@
        } else {
            "ManageChildUnordered"@
        },
        ObjectKind::Batch => if owned { "ManageChildBatch"@ } else { "ManageRootBatch"@ },
        ObjectKind::Singleton => if owned { "ManageChildSingleton"@ } else { "ManageRootSingleton"@ },
        ObjectKind::SingletonFamily => if owned { "ManageChildSingletonFamily"@ } else { "ManageRootSingletonFamily"@ },
    }
}

fn manager_type_of(kind: ObjectKind, owned: bool, has_children: bool) -> (r: &'static str)
    ensures
        r@ == manager_type(kind, owned, has_children),
{
    match kind {
        ObjectKind::Root => if has_children { "ManageRootUnorderedWithChildren" } else { "ManageRootUnordered" },
        ObjectKind::OrderedChild => if has_children { "ManageChildOrderedWithChildren" } else { "ManageChildOrdered" },
        ObjectKind::UnorderedChild => if has_children {
            "ManageChildUnorderedWithChildren"
        } else {
            "ManageChildUnordered"
        },
        ObjectKind::Batch => if owned { "ManageChildBatch" } else { "ManageRootBatch" },
        ObjectKind::Singleton => if owned { "ManageChildSingleton" } else { "ManageRootSingleton" },
        ObjectKind::SingletonFamily => if owned { "ManageChildSingletonFamily" } else { "ManageRootSingletonFamily" },
    }
}

/// The names of an object outside any one method; `$P` is the parent at
/// index `p` of its parent list (empty when there is none).
pub open spec fn object_names(m: ConfigModelView, o: ObjectModelView, p: int) -> NamesView {
    let owner = span_text(m.text, o.name);
    NamesView {
        repo: span_text(m.text, m.repository_name),
        ty: owner,
        data: owner + "Data"@,
        manager: prefixed_snake("manage"@, owner),
        parent: if 0 <= p < o.parents.len() { span_text(m.text, o.parents[p]) } else { Seq::empty() },
        child: Seq::empty(),
        child_data: Seq::empty(),
        child_manager: Seq::empty(),
        name: Seq::empty(),
    }
}

fn object_names_of(model: &ConfigModel, o: &ObjectModel, p: usize) -> (r: Names)
    requires
        model_spans_in(model@),
        object_spans_in(o@, model@.text.len()),
    ensures
        r@ == object_names(model@, o@, p as int),
{
    let owner = model.name_of(o.name);
    let parent = if p < o.parents.len() {
        assert(span_in(o@.parents[p as int], model@.text.len()));
        chars_of_string(&model.name_of(o.parents[p]))
    } else {
        Vec::new()
    };
    let mut data = chars_of_string(&owner);
    push_str(&mut data, "Data");
    let r = Names {
        repo: chars_of_string(&model.name_of(model.repository_name)),
        ty: chars_of_string(&owner),
        data,
        manager: chars_of_string(&method_ident_for("manage", owner.as_str())),
        parent,
        child: Vec::new(),
        child_data: Vec::new(),
        child_manager: Vec::new(),
        name: Vec::new(),
    };
    r
}

/// The repository's accessor for an object's manager.
pub open spec fn accessor_template(o: ObjectModelView) -> Seq<char> {
    "    fn $M(&self) -> &::fractic_aws_dynamo::ext::crud::"@ + manager_type(
        o.kind,
        o.parents.len() > 0,
        o.has_children(),
    ) + "<$T>;\n"@
}

pub open spec fn accessors(m: ConfigModelView, os: Seq<ObjectModelView>) -> Seq<char>
    decreases os.len(),
{
    if os.len() == 0 {
        Seq::empty()
    } else {
        accessors(m, os.drop_last()) + expand(accessor_template(os.last()), object_names(m, os.last(), 0))
    }
}

/// The repository trait: one manager accessor per object.
pub open spec fn repository_source(m: ConfigModelView) -> Seq<char> {
    "pub trait "@ + span_text(m.text, m.repository_name) + ": Send + Sync {\n"@ + accessors(m, m.objects) + "}\n"@
}

pub open spec fn parent_of_template() -> Seq<char> {
    "impl ::fractic_aws_dynamo::ext::crud::ParentOf<$T> for $P {}\n"@
}

/// The parent relation of an object, one impl for each of its first `n`
/// parents.
pub open spec fn parent_impls(m: ConfigModelView, o: ObjectModelView, n: nat) -> Seq<char>
    decreases n,
{
    if n == 0 {
        Seq::empty()
    } else {
        parent_impls(m, o, (n - 1) as nat) + expand(parent_of_template(), object_names(m, o, n - 1))
    }
}

pub open spec fn placeholder_template() -> Seq<char> {
    "impl $T {\n    /// A value that carries only `id`, every other field default-initialized:\n    /// valid as an identifier and for nothing else.\n    pub fn placeholder(id: ::fractic_aws_dynamo::schema::PkSk) -> Self {\n        Self { id, data: ::std::default::Default::default(), auto_fields: ::std::default::Default::default() }\n    }\n}\n"@
}

/// Everything emitted for one object: its placeholder factory, its parent
/// relations, its interface and implementation, and, for a collection, its
/// request handler.
pub open spec fn object_block(m: ConfigModelView, o: ObjectModelView) -> Seq<char> {
    "\n"@ + expand(placeholder_template(), object_names(m, o, 0)) + parent_impls(m, o, o.parents.len())
        + object_source(m, o) + if has_handler(o.kind) { handler_source(m, o) } else { Seq::empty() }
}

pub open spec fn object_blocks(m: ConfigModelView, os: Seq<ObjectModelView>) -> Seq<char>
    decreases os.len(),
{
    if os.len() == 0 {
        Seq::empty()
    } else {
        object_blocks(m, os.drop_last()) + object_block(m, os.last())
    }
}

pub open spec fn result_type_source() -> Seq<char> {
    "#[derive(::serde::Serialize)]\n#[serde(untagged)]\npub enum __CrudOperationResult<T: ::serde::Serialize> {\n    Created { created_id: ::fractic_aws_dynamo::schema::PkSk },\n    CreatedBatch { created_ids: ::std::vec::Vec<::fractic_aws_dynamo::schema::PkSk> },\n    Read(T),\n    Items(::std::vec::Vec<T>),\n    Unit(()),\n}\n"@
}

/// All source generated for a schema.
pub open spec fn generated_source(m: ConfigModelView) -> Seq<char> {
    result_type_source() + repository_source(m) + object_blocks(m, m.objects)
}

impl ConfigModel {
    /// The source of everything generated for this schema: the handlers'
    /// result type, the repository trait, and each object's block.
    pub fn generate(&self) -> (r: String)
        requires
            model_spans_in(self@),
        ensures
            r@ == generated_source(self@),
    {
        let mut out: Vec<char> = Vec::new();
        push_str(&mut out, "#[derive(::serde::Serialize)]\n#[serde(untagged)]\npub enum __CrudOperationResult<T: ::serde::Serialize> {\n    Created { created_id: ::fractic_aws_dynamo::schema::PkSk },\n    CreatedBatch { created_ids: ::std::vec::Vec<::fractic_aws_dynamo::schema::PkSk> },\n    Read(T),\n    Items(::std::vec::Vec<T>),\n    Unit(()),\n}\n");
        push_str(&mut out, "pub trait ");
        let repo = chars_of_string(&self.name_of(self.repository_name));
        extend_chars(&mut out, &repo);
        push_str(&mut out, ": Send + Sync {\n");
        let ghost head = out@;
        let mut i: usize = 0;
        while i < self.objects.len()
            invariant
                model_spans_in(self@),
                i <= self.objects.len(),
                out@ == head + accessors(self@, self@.objects.take(i as int)),
            decreases self.objects.len() - i,
        {
            let o = &self.objects[i];
            assert(self@.objects[i as int] == o@);
            assert(object_spans_in(o@, self@.text.len()));
            let n = object_names_of(self, o, 0);
            let mut t: Vec<char> = Vec::new();
            push_str(&mut t, "    fn $M(&self) -> &::fractic_aws_dynamo::ext::crud::");
            push_str(&mut t, manager_type_of(o.kind, o.parents.len() > 0, o.has_children()));
            push_str(&mut t, "<$T>;\n");
            assert(t@ =~= accessor_template(o@));
            expand_into(&mut out, &t, &n);
            assert(self@.objects.take(i + 1).drop_last() =~= self@.objects.take(i as int));
            assert(out@ =~= head + accessors(self@, self@.objects.take(i + 1)));
            i += 1;
        }
        assert(self@.objects.take(self.objects.len() as int) =~= self@.objects);
        push_str(&mut out, "}\n");
        assert(out@ =~= result_type_source() + repository_source(self@));
        let ghost mid = out@;
        let mut i: usize = 0;
        while i < self.objects.len()
            invariant
                model_spans_in(self@),
                i <= self.objects.len(),
                out@ == mid + object_blocks(self@, self@.objects.take(i as int)),
            decreases self.objects.len() - i,
        {
            let ghost before = out@;
            self.push_object_block(&mut out, i);
            assert(self@.objects.take(i + 1).drop_last() =~= self@.objects.take(i as int));
            assert(out@ =~= mid + object_blocks(self@, self@.objects.take(i + 1)));
            i += 1;
        }
        assert(self@.objects.take(self.objects.len() as int) =~= self@.objects);
        string_of(&out)
    }

    fn push_object_block(&self, out: &mut Vec<char>, i: usize)
        requires
            model_spans_in(self@),
            i < self@.objects.len(),
        ensures
            final(out)@ == old(out)@ + object_block(self@, self@.objects[i as int]),
    {
        let o = &self.objects[i];
        assert(self@.objects[i as int] == o@);
        assert(object_spans_in(o@, self@.text.len()));
        let ghost start = out@;
        push_str(out, "\n");
        let n = object_names_of(self, o, 0);
        let mut t: Vec<char> = Vec::new();
        push_str(&mut t, "impl $T {\n    /// A value that carries only `id`, every other field default-initialized:\n    /// valid as an identifier and for nothing else.\n    pub fn placeholder(id: ::fractic_aws_dynamo::schema::PkSk) -> Self {\n        Self { id, data: ::std::default::Default::default(), auto_fields: ::std::default::Default::default() }\n    }\n}\n");
        expand_into(out, &t, &n);
        let ghost head = out@;
        let mut p: usize = 0;
        while p < o.parents.len()
            invariant
                model_spans_in(self@),
                object_spans_in(o@, self@.text.len()),
                p <= o.parents.len(),
                out@ == head + parent_impls(self@, o@, p as nat),
            decreases o.parents.len() - p,
        {
            let n = object_names_of(self, o, p);
            let mut t: Vec<char> = Vec::new();
            push_str(&mut t, "impl ::fractic_aws_dynamo::ext::crud::ParentOf<$T> for $P {}\n");
            expand_into(out, &t, &n);
            p += 1;
        }
        let src = self.object_source(i);
        let src_chars = chars_of_string(&src);
        extend_chars(out, &src_chars);
        if has_handler_kind(o.kind) {
            let h = self.handler_source(i);
            let h_chars = chars_of_string(&h);
            extend_chars(out, &h_chars);
        }
        assert(out@ =~= start + object_block(self@, self@.objects[i as int]));
    }
}

fn has_handler_kind(kind: ObjectKind) -> (r: bool)
    ensures
        r == has_handler(kind),
{
    match kind {
        ObjectKind::Root | ObjectKind::OrderedChild | ObjectKind::UnorderedChild | ObjectKind::Batch => true,
        _ => false,
    }
}

/// `part` occurs in `whole`.
pub open spec fn contains(whole: Seq<char>, part: Seq<char>) -> bool {
    exists|a: Seq<char>, b: Seq<char>| whole == a + part + b
}

proof fn lemma_contains_within(whole: Seq<char>, part: Seq<char>, pre: Seq<char>, post: Seq<char>)
    requires
        contains(whole, part),
    ensures
        contains(pre + whole + post, part),
{
    let (a, b) = choose|a: Seq<char>, b: Seq<char>| whole == a + part + b;
    assert(pre + whole + post =~= (pre + a) + part + (b + post));
}

/// Every envelope value is one the handlers distinguish.
pub proof fn lemma_every_envelope_listed(e: Envelope)
    ensures
        exists|k: int| 0 <= k < envelopes().len() && envelopes()[k] == e,
{
    if e == (Envelope::List { parent_id: false }) {
        assert(envelopes()[0] == e);
    } else if e == (Envelope::List { parent_id: true }) {
        assert(envelopes()[1] == e);
    } else if e == (Envelope::Create { parent_id: false, after: false }) {
        assert(envelopes()[2] == e);
    } else if e == (Envelope::Create { parent_id: false, after: true }) {
        assert(envelopes()[3] == e);
    } else if e == (Envelope::Create { parent_id: true, after: false }) {
        assert(envelopes()[4] == e);
    } else if e == (Envelope::Create { parent_id: true, after: true }) {
        assert(envelopes()[5] == e);
    } else if e == (Envelope::CreateBatch { parent_id: false, after: false }) {
        assert(envelopes()[6] == e);
    } else if e == (Envelope::CreateBatch { parent_id: false, after: true }) {
        assert(envelopes()[7] == e);
    } else if e == (Envelope::CreateBatch { parent_id: true, after: false }) {
        assert(envelopes()[8] == e);
    } else if e == (Envelope::CreateBatch { parent_id: true, after: true }) {
        assert(envelopes()[9] == e);
    } else if e == (Envelope::Read) {
        assert(envelopes()[10] == e);
    } else if e == (Envelope::ReadBatch) {
        assert(envelopes()[11] == e);
    } else if e == (Envelope::Update) {
        assert(envelopes()[12] == e);
    } else if e == (Envelope::Delete { non_recursive: false }) {
        assert(envelopes()[13] == e);
    } else if e == (Envelope::Delete { non_recursive: true }) {
        assert(envelopes()[14] == e);
    } else if e == (Envelope::DeleteBatch { non_recursive: false }) {
        assert(envelopes()[15] == e);
    } else if e == (Envelope::DeleteBatch { non_recursive: true }) {
        assert(envelopes()[16] == e);
    } else if e == (Envelope::DeleteAll { parent_id: false, non_recursive: false }) {
        assert(envelopes()[17] == e);
    } else if e == (Envelope::DeleteAll { parent_id: false, non_recursive: true }) {
        assert(envelopes()[18] == e);
    } else if e == (Envelope::DeleteAll { parent_id: true, non_recursive: false }) {
        assert(envelopes()[19] == e);
    } else if e == (Envelope::DeleteAll { parent_id: true, non_recursive: true }) {
        assert(envelopes()[20] == e);
    } else if e == (Envelope::ReplaceAll { parent_id: false }) {
        assert(envelopes()[21] == e);
    } else if e == (Envelope::ReplaceAll { parent_id: true }) {
        assert(envelopes()[22] == e);
    }
}

proof fn lemma_arms_contain(kind: ObjectKind, has_children: bool, es: Seq<Envelope>, k: int)
    requires
        0 <= k < es.len(),
    ensures
        contains(arms(kind, has_children, es), arm(kind, has_children, es[k])),
    decreases es.len(),
{
    let rest = arms(kind, has_children, es.drop_last());
    let last = arm(kind, has_children, es.last());
    if k == es.len() - 1 {
        assert(arms(kind, has_children, es) =~= rest + last + Seq::<char>::empty());
    } else {
        lemma_arms_contain(kind, has_children, es.drop_last(), k);
        assert(es.drop_last()[k] == es[k]);
        lemma_contains_within(rest, arm(kind, has_children, es[k]), Seq::empty(), last);
        assert(Seq::<char>::empty() + rest + last =~= arms(kind, has_children, es));
    }
}

/// The handler of every collection holds, for every request envelope, the
/// arm that does exactly what [`plan`] decides for it.
pub proof fn lemma_handler_has_arm(kind: ObjectKind, has_children: bool, e: Envelope)
    ensures
        contains(handler_template(kind, has_children), arm(kind, has_children, e)),
{
    lemma_every_envelope_listed(e);
    let k = choose|k: int| 0 <= k < envelopes().len() && envelopes()[k] == e;
    lemma_arms_contain(kind, has_children, envelopes(), k);
    lemma_contains_within(
        arms(kind, has_children, envelopes()),
        arm(kind, has_children, e),
        handler_head(),
        "    }\n}\n"@,
    );
}

/// The arm for `e` is a bare invalid-parameters error with no manager call.
pub open spec fn rejecting_arm(e: Envelope, r: Rejection) -> Seq<char> {
    "        "@ + pattern_template(e) + " => "@ + rejection_template(r) + ",\n"@
}

/// A root object's handler answers every collection-level request that
/// carries a parent identifier with an invalid-parameters error, without
/// calling any manager.
pub proof fn lemma_root_handler_rejects_parent_id(has_children: bool, e: Envelope)
    requires
        collection_level(e),
        carries_parent_id(e),
    ensures
        contains(handler_template(ObjectKind::Root, has_children), rejecting_arm(e, Rejection::ParentIdForbidden)),
{
    lemma_root_forbids_parent_id(has_children, e);
    lemma_handler_has_arm(ObjectKind::Root, has_children, e);
}

/// The handler of a child or batch object answers every collection-level
/// request without a parent identifier with an invalid-parameters error,
/// without calling any manager (a batch's create requests are rejected as
/// unsupported instead).
pub proof fn lemma_owned_handler_requires_parent_id(kind: ObjectKind, has_children: bool, e: Envelope)
    requires
        kind == ObjectKind::OrderedChild || kind == ObjectKind::UnorderedChild || (kind == ObjectKind::Batch
            && !item_level(e)),
        collection_level(e),
        !carries_parent_id(e),
    ensures
        contains(handler_template(kind, has_children), rejecting_arm(e, Rejection::ParentIdRequired)),
{
    lemma_owned_requires_parent_id(kind, has_children, e);
    lemma_handler_has_arm(kind, has_children, e);
}

/// A batch object's handler answers every item-level request, whatever it
/// holds, with "operation not supported for batch collection", without
/// calling any manager.
pub proof fn lemma_batch_handler_rejects_item_operations(has_children: bool, e: Envelope)
    requires
        item_level(e),
    ensures
        contains(handler_template(ObjectKind::Batch, has_children), rejecting_arm(e, Rejection::NotSupportedForBatch)),
{
    lemma_batch_rejects_item_operations(has_children, e);
    lemma_handler_has_arm(ObjectKind::Batch, has_children, e);
}

proof fn lemma_accessors_contain(m: ConfigModelView, os: Seq<ObjectModelView>, k: int)
    requires
        0 <= k < os.len(),
    ensures
        contains(accessors(m, os), expand(accessor_template(os[k]), object_names(m, os[k], 0))),
    decreases os.len(),
{
    let rest = accessors(m, os.drop_last());
    let last = expand(accessor_template(os.last()), object_names(m, os.last(), 0));
    if k == os.len() - 1 {
        assert(accessors(m, os) =~= rest + last + Seq::<char>::empty());
    } else {
        lemma_accessors_contain(m, os.drop_last(), k);
        assert(os.drop_last()[k] == os[k]);
        lemma_contains_within(rest, expand(accessor_template(os[k]), object_names(m, os[k], 0)), Seq::empty(), last);
        assert(Seq::<char>::empty() + rest + last =~= accessors(m, os));
    }
}

/// The repository trait declares the manager accessor of every object, with
/// the manager type its kind, ownership and children call for.
pub proof fn lemma_repository_declares_accessor(m: ConfigModelView, i: int)
    requires
        0 <= i < m.objects.len(),
    ensures
        contains(repository_source(m), expand(accessor_template(m.objects[i]), object_names(m, m.objects[i], 0))),
{
    lemma_accessors_contain(m, m.objects, i);
    lemma_contains_within(
        accessors(m, m.objects),
        expand(accessor_template(m.objects[i]), object_names(m, m.objects[i], 0)),
        "pub trait "@ + span_text(m.text, m.repository_name) + ": Send + Sync {\n"@,
        "}\n"@,
    );
}

proof fn lemma_parent_impls_contain(m: ConfigModelView, o: ObjectModelView, n: nat, p: int)
    requires
        0 <= p < n,
    ensures
        contains(parent_impls(m, o, n), expand(parent_of_template(), object_names(m, o, p))),
    decreases n,
{
    let rest = parent_impls(m, o, (n - 1) as nat);
    let last = expand(parent_of_template(), object_names(m, o, n - 1));
    if p == n - 1 {
        assert(parent_impls(m, o, n) =~= rest + last + Seq::<char>::empty());
    } else {
        lemma_parent_impls_contain(m, o, (n - 1) as nat, p);
        lemma_contains_within(rest, expand(parent_of_template(), object_names(m, o, p)), Seq::empty(), last);
        assert(Seq::<char>::empty() + rest + last =~= parent_impls(m, o, n));
    }
}

/// An object's block marks each of its parents with the shared `ParentOf`
/// capability, and holds its interface and implementation.
pub proof fn lemma_block_marks_parents(m: ConfigModelView, o: ObjectModelView, p: int)
    requires
        0 <= p < o.parents.len(),
    ensures
        contains(object_block(m, o), expand(parent_of_template(), object_names(m, o, p))),
        contains(object_block(m, o), object_source(m, o)),
{
    let head = "\n"@ + expand(placeholder_template(), object_names(m, o, 0));
    let tail = if has_handler(o.kind) { handler_source(m, o) } else { Seq::empty() };
    lemma_parent_impls_contain(m, o, o.parents.len(), p);
    lemma_contains_within(
        parent_impls(m, o, o.parents.len()),
        expand(parent_of_template(), object_names(m, o, p)),
        head,
        object_source(m, o) + tail,
    );
    assert(object_block(m, o) =~= head + parent_impls(m, o, o.parents.len()) + (object_source(m, o) + tail));
    assert(object_block(m, o) =~= (head + parent_impls(m, o, o.parents.len())) + object_source(m, o) + tail);
}

proof fn lemma_contains_trans(whole: Seq<char>, mid: Seq<char>, part: Seq<char>)
    requires
        contains(whole, mid),
        contains(mid, part),
    ensures
        contains(whole, part),
{
    let (a, b) = choose|a: Seq<char>, b: Seq<char>| whole == a + mid + b;
    let (c, d) = choose|c: Seq<char>, d: Seq<char>| mid == c + part + d;
    assert(whole =~= (a + c) + part + (d + b));
}

proof fn lemma_contains_self(whole: Seq<char>)
    ensures
        contains(whole, whole),
{
    assert(whole =~= Seq::<char>::empty() + whole + Seq::<char>::empty());
}

/// Expanding a concatenation expands each part, unless the first part ends
/// in a `$` that the second part's first letter would complete.
proof fn lemma_expand_concat(x: Seq<char>, y: Seq<char>, n: NamesView)
    requires
        x.len() == 0 || x.last() != '$',
    ensures
        expand(x + y, n) == expand(x, n) + expand(y, n),
    decreases x.len(),
{
    if x.len() == 0 {
        assert(x + y =~= y);
        assert(Seq::<char>::empty() + expand(y, n) =~= expand(y, n));
    } else if x[0] == '$' && x.len() >= 2 && placeholder(n, x[1]) is Some {
        assert((x + y)[0] == x[0] && (x + y)[1] == x[1]);
        assert((x + y).skip(2) =~= x.skip(2) + y);
        lemma_expand_concat(x.skip(2), y, n);
        assert(expand(x + y, n) =~= expand(x, n) + expand(y, n));
    } else {
        assert((x + y)[0] == x[0]);
        if x.len() >= 2 {
            assert((x + y)[1] == x[1]);
        }
        assert((x + y).skip(1) =~= x.skip(1) + y);
        lemma_expand_concat(x.skip(1), y, n);
        assert(expand(x + y, n) =~= expand(x, n) + expand(y, n));
    }
}

proof fn lemma_arm_ends_line(kind: ObjectKind, has_children: bool, e: Envelope)
    ensures
        arm(kind, has_children, e).len() > 0 && arm(kind, has_children, e).last() == '\n',
{
    reveal_strlit(",\n");
}

proof fn lemma_arms_split(kind: ObjectKind, has_children: bool, es: Seq<Envelope>, k: int)
    requires
        0 <= k < es.len(),
    ensures
        exists|a: Seq<char>, b: Seq<char>|
            arms(kind, has_children, es) == a + arm(kind, has_children, es[k]) + b && (a.len() == 0 || a.last()
                == '\n'),
    decreases es.len(),
{
    let rest = arms(kind, has_children, es.drop_last());
    let last = arm(kind, has_children, es.last());
    if k == es.len() - 1 {
        assert(arms(kind, has_children, es) =~= rest + last + Seq::<char>::empty());
        if es.len() > 1 {
            lemma_arm_ends_line(kind, has_children, es.drop_last().last());
            assert(rest.last() == '\n');
        } else {
            assert(es.drop_last().len() == 0);
        }
    } else {
        lemma_arms_split(kind, has_children, es.drop_last(), k);
        assert(es.drop_last()[k] == es[k]);
        let (a, b) = choose|a: Seq<char>, b: Seq<char>|
            rest == a + arm(kind, has_children, es[k]) + b && (a.len() == 0 || a.last() == '\n');
        assert(arms(kind, has_children, es) =~= a + arm(kind, has_children, es[k]) + (b + last));
    }
}

/// A collection's handler source holds, for every request envelope, the
/// arm that does what [`plan`] decides, with the object's names filled in.
pub proof fn lemma_handler_source_has_arm(m: ConfigModelView, o: ObjectModelView, e: Envelope)
    ensures
        contains(handler_source(m, o), expand(arm(o.kind, o.has_children(), e), handler_names(m, o))),
{
    let kind = o.kind;
    let hc = o.has_children();
    let n = handler_names(m, o);
    lemma_every_envelope_listed(e);
    let k = choose|k: int| 0 <= k < envelopes().len() && envelopes()[k] == e;
    lemma_arms_split(kind, hc, envelopes(), k);
    let (a, b) = choose|a: Seq<char>, b: Seq<char>|
        arms(kind, hc, envelopes()) == a + arm(kind, hc, e) + b && (a.len() == 0 || a.last() == '\n');
    let tail = "    }\n}\n"@;
    lemma_handler_head_ends_line();
    let x = handler_head() + a;
    let the_arm = arm(kind, hc, e);
    assert(x.last() != '$');
    lemma_arm_ends_line(kind, hc, e);
    let rest = b + tail;
    assert(handler_template(kind, hc) =~= x + (the_arm + rest));
    lemma_expand_concat(x, the_arm + rest, n);
    lemma_expand_concat(the_arm, rest, n);
    let ex = expand(x, n);
    let ea = expand(the_arm, n);
    let er = expand(rest, n);
    assert(handler_source(m, o) == ex + (ea + er));
    assert(handler_source(m, o) =~= ex + ea + er);
}

proof fn lemma_blocks_contain(m: ConfigModelView, os: Seq<ObjectModelView>, k: int)
    requires
        0 <= k < os.len(),
    ensures
        contains(object_blocks(m, os), object_block(m, os[k])),
    decreases os.len(),
{
    let rest = object_blocks(m, os.drop_last());
    let last = object_block(m, os.last());
    if k == os.len() - 1 {
        assert(object_blocks(m, os) =~= rest + last + Seq::<char>::empty());
    } else {
        lemma_blocks_contain(m, os.drop_last(), k);
        assert(os.drop_last()[k] == os[k]);
        lemma_contains_within(rest, object_block(m, os[k]), Seq::empty(), last);
        assert(Seq::<char>::empty() + rest + last =~= object_blocks(m, os));
    }
}

proof fn lemma_generated_has_block(m: ConfigModelView, i: int)
    requires
        0 <= i < m.objects.len(),
    ensures
        contains(generated_source(m), object_block(m, m.objects[i])),
{
    lemma_blocks_contain(m, m.objects, i);
    lemma_contains_within(
        object_blocks(m, m.objects),
        object_block(m, m.objects[i]),
        result_type_source() + repository_source(m),
        Seq::empty(),
    );
    assert(result_type_source() + repository_source(m) + object_blocks(m, m.objects) + Seq::<char>::empty()
        =~= generated_source(m));
}

/// The generated source holds, for every collection object and every request
/// envelope, the handler arm that does what [`plan`] decides.
pub proof fn lemma_generated_handler_arm(m: ConfigModelView, i: int, e: Envelope)
    requires
        0 <= i < m.objects.len(),
        has_handler(m.objects[i].kind),
    ensures
        contains(
            generated_source(m),
            expand(arm(m.objects[i].kind, m.objects[i].has_children(), e), handler_names(m, m.objects[i])),
        ),
{
    let o = m.objects[i];
    lemma_generated_has_block(m, i);
    let pre = "\n"@ + expand(placeholder_template(), object_names(m, o, 0)) + parent_impls(m, o, o.parents.len())
        + object_source(m, o);
    lemma_contains_self(handler_source(m, o));
    lemma_contains_within(handler_source(m, o), handler_source(m, o), pre, Seq::empty());
    assert(pre + handler_source(m, o) + Seq::<char>::empty() =~= object_block(m, o));
    lemma_handler_source_has_arm(m, o, e);
    lemma_contains_trans(object_block(m, o), handler_source(m, o), expand(arm(o.kind, o.has_children(), e), handler_names(m, o)));
    lemma_contains_trans(generated_source(m), object_block(m, o), expand(arm(o.kind, o.has_children(), e), handler_names(m, o)));
}

/// In the generated source, a root object's handler answers every
/// collection-level request that carries a parent identifier with an
/// invalid-parameters error naming the object, and calls no manager.
pub proof fn lemma_generated_root_rejects_parent_id(m: ConfigModelView, i: int, e: Envelope)
    requires
        0 <= i < m.objects.len(),
        m.objects[i].kind == ObjectKind::Root,
        collection_level(e),
        carries_parent_id(e),
    ensures
        contains(generated_source(m), expand(rejecting_arm(e, Rejection::ParentIdForbidden), handler_names(m, m.objects[i]))),
{
    lemma_root_forbids_parent_id(m.objects[i].has_children(), e);
    lemma_generated_handler_arm(m, i, e);
}

/// In the generated source, a child or batch object's handler answers every
/// collection-level request without a parent identifier with an
/// invalid-parameters error, and calls no manager (a batch's create
/// requests are rejected as unsupported instead).
pub proof fn lemma_generated_owned_requires_parent_id(m: ConfigModelView, i: int, e: Envelope)
    requires
        0 <= i < m.objects.len(),
        m.objects[i].kind == ObjectKind::OrderedChild || m.objects[i].kind == ObjectKind::UnorderedChild || (
        m.objects[i].kind == ObjectKind::Batch && !item_level(e)),
        collection_level(e),
        !carries_parent_id(e),
    ensures
        contains(generated_source(m), expand(rejecting_arm(e, Rejection::ParentIdRequired), handler_names(m, m.objects[i]))),
{
    lemma_owned_requires_parent_id(m.objects[i].kind, m.objects[i].has_children(), e);
    lemma_generated_handler_arm(m, i, e);
}

/// In the generated source, a batch object's handler answers every
/// item-level request, whatever it holds, with "operation not supported for
/// batch collection", and calls no manager.
pub proof fn lemma_generated_batch_rejects_item_operations(m: ConfigModelView, i: int, e: Envelope)
    requires
        0 <= i < m.objects.len(),
        m.objects[i].kind == ObjectKind::Batch,
        item_level(e),
    ensures
        contains(generated_source(m), expand(rejecting_arm(e, Rejection::NotSupportedForBatch), handler_names(m, m.objects[i]))),
{
    lemma_batch_rejects_item_operations(m.objects[i].has_children(), e);
    lemma_generated_handler_arm(m, i, e);
}

/// The generated repository trait declares every object's manager accessor,
/// and every parent of an object is marked with the shared `ParentOf`
/// capability for it.
pub proof fn lemma_generated_repository(m: ConfigModelView, i: int, p: int)
    requires
        0 <= i < m.objects.len(),
    ensures
        contains(generated_source(m), expand(accessor_template(m.objects[i]), object_names(m, m.objects[i], 0))),
        0 <= p < m.objects[i].parents.len() ==> contains(
            generated_source(m),
            expand(parent_of_template(), object_names(m, m.objects[i], p)),
        ),
{
    let o = m.objects[i];
    lemma_repository_declares_accessor(m, i);
    lemma_contains_self(repository_source(m));
    lemma_contains_within(repository_source(m), repository_source(m), result_type_source(), object_blocks(m, m.objects));
    assert(result_type_source() + repository_source(m) + object_blocks(m, m.objects) =~= generated_source(m));
    lemma_contains_trans(generated_source(m), repository_source(m), expand(accessor_template(o), object_names(m, o, 0)));
    if 0 <= p < o.parents.len() {
        lemma_block_marks_parents(m, o, p);
        lemma_generated_has_block(m, i);
        lemma_contains_trans(generated_source(m), object_block(m, o), expand(parent_of_template(), object_names(m, o, p)));
    }
}

} // verus!
