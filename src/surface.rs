//! The operation surface of each object: which methods its interface has,
//! as data, and the names they are emitted under.
use vstd::prelude::*;
use crate::ident::{snake_case, plural, stripped, stripped_pascal, pluralize_pascal, to_snake_case};
use crate::text::{chars_of, string_of, extend_chars};
use crate::model::{ObjectModel, ObjectModelView, object_spans_in};
use crate::schema::{ObjectKind, Span, all_in, span_in, span_text};

verus! {

/// What a method does.
#[derive(Clone, Copy, PartialEq, Eq, Structural, Debug)]
pub enum Verb {
    Get,
    Update,
    List,
    Add,
    BatchAdd,
    Delete,
    BatchDelete,
    BatchDeleteAll,
    DeleteRecursive,
    DeleteNonRecursive,
    BatchDeleteNonRecursive,
    BatchDeleteAllNonRecursive,
    SetItem,
    BatchSet,
    BatchReplaceAll,
}

/// Which list of the owner a child-collection method serves.
#[derive(Clone, Copy, PartialEq, Eq, Structural, Debug)]
pub enum ChildList {
    Ordered,
    Unordered,
    Batch,
    Singleton,
    SingletonFamily,
}

/// One method of an object's interface. `child` is set for a method that
/// acts on a child collection of the object (`add_<child>`); `unchecked`
/// marks a method that takes a parent identifier instead of a parent value;
/// `after` marks one that takes an ordering cursor; `keyed` one that takes a
/// string key.
#[derive(Clone, Copy, PartialEq, Eq, Structural, Debug)]
pub struct Method {
    pub verb: Verb,
    pub unchecked: bool,
    pub after: bool,
    pub keyed: bool,
    pub child: Option<Span>,
}

pub open spec fn own(verb: Verb, unchecked: bool, after: bool, keyed: bool) -> Method {
    Method { verb, unchecked, after, keyed, child: None }
}

/// The delete operations of a collection: with children, a recursive delete
/// and separately named non-recursive ones; without, a plain delete.
pub open spec fn delete_methods(has_children: bool, top_level: bool) -> Seq<Method> {
    if has_children {
        let base = seq![
            own(Verb::DeleteRecursive, false, false, false),
            own(Verb::DeleteNonRecursive, false, false, false),
            own(Verb::BatchDeleteNonRecursive, false, false, false),
        ];
        if top_level { base.push(own(Verb::BatchDeleteAllNonRecursive, false, false, false)) } else { base }
    } else {
        let base = seq![own(Verb::Delete, false, false, false), own(Verb::BatchDelete, false, false, false)];
        if top_level { base.push(own(Verb::BatchDeleteAll, false, false, false)) } else { base }
    }
}

/// The methods an object has on its own records, by kind, whether it has
/// children, and whether it is owned by parents (then the methods that need
/// a parent take its identifier and are marked unchecked).
pub open spec fn own_methods(kind: ObjectKind, has_children: bool, owned: bool) -> Seq<Method> {
    match kind {
        ObjectKind::Root => seq![
            own(Verb::Get, false, false, false),
            own(Verb::Update, false, false, false),
            own(Verb::List, false, false, false),
            own(Verb::Add, false, false, false),
            own(Verb::BatchAdd, false, false, false),
        ] + delete_methods(has_children, true),
        ObjectKind::OrderedChild | ObjectKind::UnorderedChild => {
            let after = kind == ObjectKind::OrderedChild;
            seq![
                own(Verb::Get, false, false, false),
                own(Verb::Update, false, false, false),
                own(Verb::List, true, false, false),
                own(Verb::Add, true, after, false),
                own(Verb::BatchAdd, true, after, false),
            ] + delete_methods(has_children, false)
        },
        ObjectKind::Batch => seq![
            own(Verb::List, owned, false, false),
            own(Verb::BatchDeleteAll, owned, false, false),
            own(Verb::BatchReplaceAll, owned, false, false),
        ],
        ObjectKind::Singleton => seq![
            own(Verb::Get, owned, false, false),
            own(Verb::SetItem, owned, false, false),
            own(Verb::Delete, owned, false, false),
        ],
        ObjectKind::SingletonFamily => seq![
            own(Verb::Get, owned, false, true),
            own(Verb::SetItem, owned, false, false),
            own(Verb::BatchSet, owned, false, false),
            own(Verb::Delete, owned, false, true),
            own(Verb::BatchDelete, owned, false, false),
            own(Verb::List, owned, false, false),
            own(Verb::BatchDeleteAll, owned, false, false),
        ],
    }
}

pub open spec fn on_child(verb: Verb, after: bool, keyed: bool, c: Span) -> Method {
    Method { verb, unchecked: false, after, keyed, child: Some(c) }
}

/// The methods an owner has for one child of the given list.
pub open spec fn child_methods(list: ChildList, c: Span) -> Seq<Method> {
    match list {
        ChildList::Ordered => seq![
            on_child(Verb::Add, true, false, c),
            on_child(Verb::BatchAdd, true, false, c),
            on_child(Verb::List, false, false, c),
        ],
        ChildList::Unordered => seq![
            on_child(Verb::Add, false, false, c),
            on_child(Verb::BatchAdd, false, false, c),
            on_child(Verb::List, false, false, c),
        ],
        ChildList::Batch => seq![
            on_child(Verb::List, false, false, c),
            on_child(Verb::BatchDeleteAll, false, false, c),
            on_child(Verb::BatchReplaceAll, false, false, c),
        ],
        ChildList::Singleton => seq![
            on_child(Verb::Get, false, false, c),
            on_child(Verb::SetItem, false, false, c),
            on_child(Verb::Delete, false, false, c),
        ],
        ChildList::SingletonFamily => seq![
            on_child(Verb::Get, false, true, c),
            on_child(Verb::SetItem, false, false, c),
            on_child(Verb::BatchSet, false, false, c),
            on_child(Verb::Delete, false, true, c),
            on_child(Verb::BatchDelete, false, false, c),
            on_child(Verb::List, false, false, c),
            on_child(Verb::BatchDeleteAll, false, false, c),
        ],
    }
}

/// The methods for every child of a list, in the list's order.
pub open spec fn list_methods(list: ChildList, cs: Seq<Span>) -> Seq<Method>
    decreases cs.len(),
{
    if cs.len() == 0 {
        Seq::empty()
    } else {
        list_methods(list, cs.drop_last()) + child_methods(list, cs.last())
    }
}

/// The whole interface of an object: its own methods, then those for its
/// ordered, unordered, batch, singleton and singleton-family children.
pub open spec fn surface(o: ObjectModelView) -> Seq<Method> {
    own_methods(o.kind, o.has_children(), o.parents.len() > 0)
        + list_methods(ChildList::Ordered, o.ordered_children)
        + list_methods(ChildList::Unordered, o.unordered_children)
        + list_methods(ChildList::Batch, o.batch_children)
        + list_methods(ChildList::Singleton, o.singleton_children)
        + list_methods(ChildList::SingletonFamily, o.singleton_family_children)
}

fn own_method(verb: Verb, unchecked: bool, after: bool, keyed: bool) -> (r: Method)
    ensures
        r == own(verb, unchecked, after, keyed),
{
    Method { verb, unchecked, after, keyed, child: None }
}

fn push_delete_methods(out: &mut Vec<Method>, has_children: bool, top_level: bool)
    ensures
        final(out)@ == old(out)@ + delete_methods(has_children, top_level),
{
    if has_children {
        out.push(own_method(Verb::DeleteRecursive, false, false, false));
        out.push(own_method(Verb::DeleteNonRecursive, false, false, false));
        out.push(own_method(Verb::BatchDeleteNonRecursive, false, false, false));
        if top_level {
            out.push(own_method(Verb::BatchDeleteAllNonRecursive, false, false, false));
        }
    } else {
        out.push(own_method(Verb::Delete, false, false, false));
        out.push(own_method(Verb::BatchDelete, false, false, false));
        if top_level {
            out.push(own_method(Verb::BatchDeleteAll, false, false, false));
        }
    }
    assert(final(out)@ =~= old(out)@ + delete_methods(has_children, top_level));
}

fn own_methods_of(kind: ObjectKind, has_children: bool, owned: bool) -> (r: Vec<Method>)
    ensures
        r@ == own_methods(kind, has_children, owned),
{
    let mut r: Vec<Method> = Vec::new();
    match kind {
        ObjectKind::Root => {
            r.push(own_method(Verb::Get, false, false, false));
            r.push(own_method(Verb::Update, false, false, false));
            r.push(own_method(Verb::List, false, false, false));
            r.push(own_method(Verb::Add, false, false, false));
            r.push(own_method(Verb::BatchAdd, false, false, false));
            push_delete_methods(&mut r, has_children, true);
            assert(r@ =~= own_methods(kind, has_children, owned));
        },
        ObjectKind::OrderedChild | ObjectKind::UnorderedChild => {
            let after = match kind {
                ObjectKind::OrderedChild => true,
                _ => false,
            };
            r.push(own_method(Verb::Get, false, false, false));
            r.push(own_method(Verb::Update, false, false, false));
            r.push(own_method(Verb::List, true, false, false));
            r.push(own_method(Verb::Add, true, after, false));
            r.push(own_method(Verb::BatchAdd, true, after, false));
            push_delete_methods(&mut r, has_children, false);
            assert(r@ =~= own_methods(kind, has_children, owned));
        },
        ObjectKind::Batch => {
            r.push(own_method(Verb::List, owned, false, false));
            r.push(own_method(Verb::BatchDeleteAll, owned, false, false));
            r.push(own_method(Verb::BatchReplaceAll, owned, false, false));
            assert(r@ =~= own_methods(kind, has_children, owned));
        },
        ObjectKind::Singleton => {
            r.push(own_method(Verb::Get, owned, false, false));
            r.push(own_method(Verb::SetItem, owned, false, false));
            r.push(own_method(Verb::Delete, owned, false, false));
            assert(r@ =~= own_methods(kind, has_children, owned));
        },
        ObjectKind::SingletonFamily => {
            r.push(own_method(Verb::Get, owned, false, true));
            r.push(own_method(Verb::SetItem, owned, false, false));
            r.push(own_method(Verb::BatchSet, owned, false, false));
            r.push(own_method(Verb::Delete, owned, false, true));
            r.push(own_method(Verb::BatchDelete, owned, false, false));
            r.push(own_method(Verb::List, owned, false, false));
            r.push(own_method(Verb::BatchDeleteAll, owned, false, false));
            assert(r@ =~= own_methods(kind, has_children, owned));
        },
    }
    r
}

fn child_method(verb: Verb, after: bool, keyed: bool, child: Span) -> (r: Method)
    ensures
        r == on_child(verb, after, keyed, child),
{
    Method { verb, unchecked: false, after, keyed, child: Some(child) }
}

fn push_child_methods(out: &mut Vec<Method>, list: ChildList, ch: Span)
    ensures
        final(out)@ == old(out)@ + child_methods(list, ch),
{
    match list {
        ChildList::Ordered => {
            out.push(child_method(Verb::Add, true, false, ch));
            out.push(child_method(Verb::BatchAdd, true, false, ch));
            out.push(child_method(Verb::List, false, false, ch));
        },
        ChildList::Unordered => {
            out.push(child_method(Verb::Add, false, false, ch));
            out.push(child_method(Verb::BatchAdd, false, false, ch));
            out.push(child_method(Verb::List, false, false, ch));
        },
        ChildList::Batch => {
            out.push(child_method(Verb::List, false, false, ch));
            out.push(child_method(Verb::BatchDeleteAll, false, false, ch));
            out.push(child_method(Verb::BatchReplaceAll, false, false, ch));
        },
        ChildList::Singleton => {
            out.push(child_method(Verb::Get, false, false, ch));
            out.push(child_method(Verb::SetItem, false, false, ch));
            out.push(child_method(Verb::Delete, false, false, ch));
        },
        ChildList::SingletonFamily => {
            out.push(child_method(Verb::Get, false, true, ch));
            out.push(child_method(Verb::SetItem, false, false, ch));
            out.push(child_method(Verb::BatchSet, false, false, ch));
            out.push(child_method(Verb::Delete, false, true, ch));
            out.push(child_method(Verb::BatchDelete, false, false, ch));
            out.push(child_method(Verb::List, false, false, ch));
            out.push(child_method(Verb::BatchDeleteAll, false, false, ch));
        },
    }
    assert(final(out)@ =~= old(out)@ + child_methods(list, ch));
}

fn push_list_methods(out: &mut Vec<Method>, list: ChildList, cs: &Vec<Span>)
    ensures
        final(out)@ == old(out)@ + list_methods(list, cs@),
{
    let mut i: usize = 0;
    while i < cs.len()
        invariant
            i <= cs.len(),
            out@ == old(out)@ + list_methods(list, cs@.take(i as int)),
        decreases cs.len() - i,
    {
        let ghost before = out@;
        push_child_methods(out, list, cs[i]);
        assert(cs@.take(i + 1).drop_last() =~= cs@.take(i as int));
        assert(out@ =~= old(out)@ + list_methods(list, cs@.take(i + 1)));
        i += 1;
    }
    assert(cs@.take(cs.len() as int) =~= cs@);
}

impl ObjectModel {
    /// The methods of this object's interface, in the order they are
    /// emitted.
    pub fn surface(&self) -> (r: Vec<Method>)
        ensures
            r@ == surface(self@),
    {
        let mut r = own_methods_of(self.kind, self.has_children(), self.parents.len() > 0);
        push_list_methods(&mut r, ChildList::Ordered, &self.ordered_children);
        push_list_methods(&mut r, ChildList::Unordered, &self.unordered_children);
        push_list_methods(&mut r, ChildList::Batch, &self.batch_children);
        push_list_methods(&mut r, ChildList::Singleton, &self.singleton_children);
        push_list_methods(&mut r, ChildList::SingletonFamily, &self.singleton_family_children);
        r
    }
}

/// The word a verb is emitted as. The non-recursive deletes carry a
/// warning in their names.
pub open spec fn verb_word(v: Verb) -> Seq<char> {
    match v {
        Verb::Get => "get"@,
        Verb::Update => "update"@,
        Verb::List => "list"@,
        Verb::Add => "add"@,
        Verb::BatchAdd => "batch_add"@,
        Verb::Delete => "delete"@,
        Verb::BatchDelete => "batch_delete"@,
        Verb::BatchDeleteAll => "batch_delete_all"@,
        Verb::DeleteRecursive => "delete_recursive"@,
        Verb::DeleteNonRecursive => "delete_non_recursive_DANGEROUS"@,
        Verb::BatchDeleteNonRecursive => "batch_delete_non_recursive_DANGEROUS"@,
        Verb::BatchDeleteAllNonRecursive => "batch_delete_all_non_recursive_DANGEROUS"@,
        Verb::SetItem => "set"@,
        Verb::BatchSet => "batch_set"@,
        Verb::BatchReplaceAll => "batch_replace_all"@,
    }
}

/// Verbs that act on many children and so name them in the plural.
pub open spec fn is_plural_verb(v: Verb) -> bool {
    match v {
        Verb::BatchAdd | Verb::List | Verb::BatchDelete | Verb::BatchDeleteAll | Verb::BatchSet
        | Verb::BatchReplaceAll => true,
        _ => false,
    }
}

/// The name of a method of the object named `owner`: `unchecked_<verb>` or
/// `<verb>` for its own records; `<verb>_<child>` for a child collection,
/// where `<child>` is the snake_case of the child's name with the owner's
/// name stripped from its front, pluralized for verbs on many.
pub open spec fn method_name(owner: Seq<char>, child: Seq<char>, m: Method) -> Seq<char> {
    match m.child {
        None => if m.unchecked { "unchecked_"@ + verb_word(m.verb) } else { verb_word(m.verb) },
        Some(_) => {
            let base = stripped(owner, child);
            let noun = if is_plural_verb(m.verb) { plural(base) } else { base };
            verb_word(m.verb) + seq!['_'] + snake_case(noun)
        },
    }
}

/// The name of method `m` of the object whose name is at `owner` in `text`.
pub open spec fn method_name_in(text: Seq<char>, owner: Span, m: Method) -> Seq<char> {
    let child = match m.child {
        Some(c) => span_text(text, c),
        None => Seq::empty(),
    };
    method_name(span_text(text, owner), child, m)
}

fn verb_word_of(v: Verb) -> (r: &'static str)
    ensures
        r@ == verb_word(v),
{
    match v {
        Verb::Get => "get",
        Verb::Update => "update",
        Verb::List => "list",
        Verb::Add => "add",
        Verb::BatchAdd => "batch_add",
        Verb::Delete => "delete",
        Verb::BatchDelete => "batch_delete",
        Verb::BatchDeleteAll => "batch_delete_all",
        Verb::DeleteRecursive => "delete_recursive",
        Verb::DeleteNonRecursive => "delete_non_recursive_DANGEROUS",
        Verb::BatchDeleteNonRecursive => "batch_delete_non_recursive_DANGEROUS",
        Verb::BatchDeleteAllNonRecursive => "batch_delete_all_non_recursive_DANGEROUS",
        Verb::SetItem => "set",
        Verb::BatchSet => "batch_set",
        Verb::BatchReplaceAll => "batch_replace_all",
    }
}

fn is_plural_verb_of(v: Verb) -> (r: bool)
    ensures
        r == is_plural_verb(v),
{
    match v {
        Verb::BatchAdd | Verb::List | Verb::BatchDelete | Verb::BatchDeleteAll | Verb::BatchSet
        | Verb::BatchReplaceAll => true,
        _ => false,
    }
}

/// The name of a method of the object named `owner`; `child` is the child's
/// name for a child-collection method and is not read otherwise.
pub fn method_ident(owner: &str, child: &str, m: Method) -> (r: String)
    ensures
        r@ == method_name(owner@, child@, m),
{
    let verb = verb_word_of(m.verb);
    match m.child {
        None => {
            if m.unchecked {
                let mut out = chars_of("unchecked_");
                let w = chars_of(verb);
                extend_chars(&mut out, &w);
                string_of(&out)
            } else {
                verb.to_owned()
            }
        },
        Some(_) => {
            let base = stripped_pascal(owner, child);
            let noun = if is_plural_verb_of(m.verb) { pluralize_pascal(base.as_str()) } else { base };
            let snake = to_snake_case(noun.as_str());
            let mut out = chars_of(verb);
            out.push('_');
            let tail = chars_of(snake.as_str());
            extend_chars(&mut out, &tail);
            let r = string_of(&out);
            assert(r@ =~= method_name(owner@, child@, m));
            r
        },
    }
}

proof fn lemma_list_methods_on_children(list: ChildList, cs: Seq<Span>)
    ensures
        forall|i: int| 0 <= i < list_methods(list, cs).len() ==> (#[trigger] list_methods(list, cs)[i]).child is Some,
    decreases cs.len(),
{
    if cs.len() > 0 {
        lemma_list_methods_on_children(list, cs.drop_last());
        let a = list_methods(list, cs.drop_last());
        let b = child_methods(list, cs.last());
        assert forall|i: int| 0 <= i < (a + b).len() implies (#[trigger] (a + b)[i]).child is Some by {
            if i >= a.len() {
                assert((a + b)[i] == b[i - a.len()]);
            }
        }
    }
}

/// An object's own methods are exactly the table entry for its kind,
/// whether it has children, and whether it is owned by parents; every
/// further method acts on a child collection.
pub proof fn lemma_surface_table(o: ObjectModelView)
    ensures
        ({
            let own = own_methods(o.kind, o.has_children(), o.parents.len() > 0);
            &&& surface(o).take(own.len() as int) == own
            &&& forall|i: int| own.len() <= i < surface(o).len() ==> (#[trigger] surface(o)[i]).child is Some
        }),
{
    let own = own_methods(o.kind, o.has_children(), o.parents.len() > 0);
    let l1 = list_methods(ChildList::Ordered, o.ordered_children);
    let l2 = list_methods(ChildList::Unordered, o.unordered_children);
    let l3 = list_methods(ChildList::Batch, o.batch_children);
    let l4 = list_methods(ChildList::Singleton, o.singleton_children);
    let l5 = list_methods(ChildList::SingletonFamily, o.singleton_family_children);
    lemma_list_methods_on_children(ChildList::Ordered, o.ordered_children);
    lemma_list_methods_on_children(ChildList::Unordered, o.unordered_children);
    lemma_list_methods_on_children(ChildList::Batch, o.batch_children);
    lemma_list_methods_on_children(ChildList::Singleton, o.singleton_children);
    lemma_list_methods_on_children(ChildList::SingletonFamily, o.singleton_family_children);
    let rest = l1 + l2 + l3 + l4 + l5;
    assert(surface(o) =~= own + rest);
    assert(surface(o).take(own.len() as int) =~= own);
    assert forall|i: int| 0 <= i < rest.len() implies (#[trigger] rest[i]).child is Some by {
        if i < l1.len() {
            assert(rest[i] == l1[i]);
        } else if i < l1.len() + l2.len() {
            assert(rest[i] == l2[i - l1.len()]);
        } else if i < l1.len() + l2.len() + l3.len() {
            assert(rest[i] == l3[i - l1.len() - l2.len()]);
        } else if i < l1.len() + l2.len() + l3.len() + l4.len() {
            assert(rest[i] == l4[i - l1.len() - l2.len() - l3.len()]);
        } else {
            assert(rest[i] == l5[i - l1.len() - l2.len() - l3.len() - l4.len()]);
        }
    }
    assert forall|i: int| own.len() <= i < surface(o).len() implies (#[trigger] surface(o)[i]).child is Some by {
        assert(surface(o)[i] == rest[i - own.len()]);
    }
}

pub open spec fn has_own(ms: Seq<Method>, v: Verb) -> bool {
    exists|i: int| 0 <= i < ms.len() && (#[trigger] ms[i]).child is None && ms[i].verb == v
}

/// At most one own method with verb `v`.
pub open spec fn own_unique(ms: Seq<Method>, v: Verb) -> bool {
    forall|i: int, j: int|
        0 <= i < ms.len() && 0 <= j < ms.len() && (#[trigger] ms[i]).child is None && ms[i].verb == v
            && (#[trigger] ms[j]).child is None && ms[j].verb == v ==> i == j
}

/// The delete surface of every object but a batch (which has none): with
/// children, exactly one `delete_recursive` and one non-recursive delete
/// and no plain `delete`; without, exactly one plain `delete` and neither
/// of the others.
pub proof fn lemma_delete_surface(o: ObjectModelView)
    requires
        o.wf(),
        o.kind != ObjectKind::Batch,
    ensures
        o.has_children() ==> has_own(surface(o), Verb::DeleteRecursive) && own_unique(surface(o), Verb::DeleteRecursive)
            && has_own(surface(o), Verb::DeleteNonRecursive) && own_unique(surface(o), Verb::DeleteNonRecursive)
            && !has_own(surface(o), Verb::Delete),
        !o.has_children() ==> has_own(surface(o), Verb::Delete) && own_unique(surface(o), Verb::Delete)
            && !has_own(surface(o), Verb::DeleteRecursive) && !has_own(surface(o), Verb::DeleteNonRecursive),
{
    lemma_surface_table(o);
    let own = own_methods(o.kind, o.has_children(), o.parents.len() > 0);
    let ms = surface(o);
    assert forall|i: int| 0 <= i < ms.len() && (#[trigger] ms[i]).child is None implies i < own.len() && ms[i] == own[i] by {
        if i >= own.len() {
        } else {
            assert(ms.take(own.len() as int)[i] == ms[i]);
        }
    }
    if o.has_children() {
        let k: int = 5;
        assert(own[k].verb == Verb::DeleteRecursive && own[k].child is None);
        assert(own[k + 1].verb == Verb::DeleteNonRecursive && own[k + 1].child is None);
        assert(ms[k] == own[k]);
        assert(ms[k + 1] == own[k + 1]);
    } else {
        let k: int = match o.kind {
            ObjectKind::Root | ObjectKind::OrderedChild | ObjectKind::UnorderedChild => 5,
            ObjectKind::Singleton => 2,
            _ => 3,
        };
        assert(own[k].verb == Verb::Delete && own[k].child is None);
        assert(ms[k] == own[k]);
    }
}

/// A method's name depends on nothing but the owner's name, the child's
/// name (for a child-collection method) and the method: the same inputs
/// give the same identifier wherever they stand in whatever schema text.
pub proof fn lemma_method_name_deterministic(t1: Seq<char>, owner1: Span, m1: Method, t2: Seq<char>, owner2: Span, m2: Method)
    requires
        span_text(t1, owner1) == span_text(t2, owner2),
        m1.verb == m2.verb,
        m1.unchecked == m2.unchecked,
        m1.child is Some <==> m2.child is Some,
        m1.child is Some ==> span_text(t1, m1.child->0) == span_text(t2, m2.child->0),
    ensures
        method_name_in(t1, owner1, m1) == method_name_in(t2, owner2, m2),
{
}

pub open spec fn children_in(ms: Seq<Method>, len: nat) -> bool {
    forall|i: int| 0 <= i < ms.len() && (#[trigger] ms[i]).child is Some ==> span_in(ms[i].child->0, len)
}

proof fn lemma_list_methods_in(list: ChildList, cs: Seq<Span>, len: nat)
    requires
        all_in(cs, len),
    ensures
        children_in(list_methods(list, cs), len),
    decreases cs.len(),
{
    if cs.len() > 0 {
        lemma_list_methods_in(list, cs.drop_last(), len);
        let a = list_methods(list, cs.drop_last());
        let b = child_methods(list, cs.last());
        assert(span_in(cs[cs.len() - 1], len));
        assert forall|i: int| 0 <= i < (a + b).len() && (#[trigger] (a + b)[i]).child is Some implies span_in(
            (a + b)[i].child->0,
            len,
        ) by {
            if i >= a.len() {
                assert((a + b)[i] == b[i - a.len()]);
            } else {
                assert((a + b)[i] == a[i]);
            }
        }
    }
}

proof fn lemma_concat_children_in(a: Seq<Method>, b: Seq<Method>, len: nat)
    requires
        children_in(a, len),
        children_in(b, len),
    ensures
        children_in(a + b, len),
{
    assert forall|i: int| 0 <= i < (a + b).len() && (#[trigger] (a + b)[i]).child is Some implies span_in(
        (a + b)[i].child->0,
        len,
    ) by {
        if i >= a.len() {
            assert((a + b)[i] == b[i - a.len()]);
        } else {
            assert((a + b)[i] == a[i]);
        }
    }
}

/// Every child named by a method of the surface is one of the object's
/// children, so its name lies within the schema text.
pub proof fn lemma_surface_children_in(o: ObjectModelView, len: nat)
    requires
        object_spans_in(o, len),
    ensures
        children_in(surface(o), len),
{
    let own = own_methods(o.kind, o.has_children(), o.parents.len() > 0);
    assert(children_in(own, len));
    lemma_list_methods_in(ChildList::Ordered, o.ordered_children, len);
    lemma_list_methods_in(ChildList::Unordered, o.unordered_children, len);
    lemma_list_methods_in(ChildList::Batch, o.batch_children, len);
    lemma_list_methods_in(ChildList::Singleton, o.singleton_children, len);
    lemma_list_methods_in(ChildList::SingletonFamily, o.singleton_family_children, len);
    let l1 = list_methods(ChildList::Ordered, o.ordered_children);
    let l2 = list_methods(ChildList::Unordered, o.unordered_children);
    let l3 = list_methods(ChildList::Batch, o.batch_children);
    let l4 = list_methods(ChildList::Singleton, o.singleton_children);
    let l5 = list_methods(ChildList::SingletonFamily, o.singleton_family_children);
    lemma_concat_children_in(own, l1, len);
    lemma_concat_children_in(own + l1, l2, len);
    lemma_concat_children_in(own + l1 + l2, l3, len);
    lemma_concat_children_in(own + l1 + l2 + l3, l4, len);
    lemma_concat_children_in(own + l1 + l2 + l3 + l4, l5, len);
}

} // verus!
