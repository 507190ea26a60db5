//! Semantic model: validated objects, each with its kind, its parents and
//! its child lists.
use vstd::prelude::*;
use crate::text::string_of;
use crate::schema::{
    ConfigAst, ConfigAstView, ObjectDecl, ObjectDeclView, ObjectKind, SchemaError,
    SchemaErrorKind, Span, all_in, ast_spans_in, decl_spans_in, or_empty, same_text, span_in,
    span_text,
};

verus! {

/// A validated object.
#[derive(Debug)]
pub struct ObjectModel {
    pub kind: ObjectKind,
    pub name: Span,
    /// The object types that may own this one; empty for a top-level object.
    pub parents: Vec<Span>,
    pub ordered_children: Vec<Span>,
    pub unordered_children: Vec<Span>,
    pub batch_children: Vec<Span>,
    pub singleton_children: Vec<Span>,
    pub singleton_family_children: Vec<Span>,
}

pub struct ObjectModelView {
    pub kind: ObjectKind,
    pub name: Span,
    pub parents: Seq<Span>,
    pub ordered_children: Seq<Span>,
    pub unordered_children: Seq<Span>,
    pub batch_children: Seq<Span>,
    pub singleton_children: Seq<Span>,
    pub singleton_family_children: Seq<Span>,
}

impl View for ObjectModel {
    type V = ObjectModelView;

    open spec fn view(&self) -> ObjectModelView {
        ObjectModelView {
            kind: self.kind,
            name: self.name,
            parents: self.parents@,
            ordered_children: self.ordered_children@,
            unordered_children: self.unordered_children@,
            batch_children: self.batch_children@,
            singleton_children: self.singleton_children@,
            singleton_family_children: self.singleton_family_children@,
        }
    }
}

impl ObjectModelView {
    /// True iff any of the five child lists is non-empty.
    pub open spec fn has_children(self) -> bool {
        self.ordered_children.len() > 0 || self.unordered_children.len() > 0
            || self.batch_children.len() > 0 || self.singleton_children.len() > 0
            || self.singleton_family_children.len() > 0
    }

    /// What the model guarantees of an object of each kind.
    pub open spec fn wf(self) -> bool {
        match self.kind {
            ObjectKind::Root => self.parents.len() == 0,
            ObjectKind::OrderedChild | ObjectKind::UnorderedChild => self.parents.len() > 0,
            ObjectKind::Batch => self.parents.len() > 0 && !self.has_children(),
            ObjectKind::Singleton | ObjectKind::SingletonFamily => !self.has_children(),
        }
    }
}

impl ObjectModel {
    pub fn has_children(&self) -> (r: bool)
        ensures
            r == self@.has_children(),
    {
        self.ordered_children.len() > 0 || self.unordered_children.len() > 0
            || self.batch_children.len() > 0 || self.singleton_children.len() > 0
            || self.singleton_family_children.len() > 0
    }
}

pub open spec fn decl_has_children(d: ObjectDeclView) -> bool {
    d.ordered_children.len() > 0 || d.unordered_children.len() > 0 || d.batch_children.len() > 0
        || d.singleton_children.len() > 0 || d.singleton_family_children.len() > 0
}

/// A `parent` property that is required: absent or empty is an error.
pub open spec fn required_parent(d: ObjectDeclView) -> Option<SchemaErrorKind> {
    match d.parent {
        None => Some(SchemaErrorKind::MissingParent),
        Some(p) => if p.len() == 0 { Some(SchemaErrorKind::EmptyParent) } else { None },
    }
}

/// What is wrong with a declaration, if anything.
pub open spec fn decl_error(d: ObjectDeclView) -> Option<SchemaErrorKind> {
    match d.kind {
        ObjectKind::Root => if d.parent is Some { Some(SchemaErrorKind::RootWithParent) } else { None },
        ObjectKind::OrderedChild | ObjectKind::UnorderedChild => required_parent(d),
        ObjectKind::Batch => if required_parent(d) is Some {
            required_parent(d)
        } else if decl_has_children(d) {
            Some(SchemaErrorKind::LeafWithChildren)
        } else {
            None
        },
        ObjectKind::Singleton | ObjectKind::SingletonFamily => if decl_has_children(d) {
            Some(SchemaErrorKind::LeafWithChildren)
        } else if d.parent is Some && d.parent->0.len() == 0 {
            Some(SchemaErrorKind::EmptyParent)
        } else {
            None
        },
    }
}

pub open spec fn object_of(d: ObjectDeclView) -> ObjectModelView {
    ObjectModelView {
        kind: d.kind,
        name: d.name,
        parents: or_empty(d.parent),
        ordered_children: d.ordered_children,
        unordered_children: d.unordered_children,
        batch_children: d.batch_children,
        singleton_children: d.singleton_children,
        singleton_family_children: d.singleton_family_children,
    }
}

/// The validated objects of the first `n` declarations, or the error of the
/// first invalid one, located at its name.
pub open spec fn build_objects(decls: Seq<ObjectDeclView>, n: nat) -> Result<Seq<ObjectModelView>, SchemaError>
    decreases n,
{
    if n == 0 {
        Ok(Seq::empty())
    } else {
        match build_objects(decls, (n - 1) as nat) {
            Err(e) => Err(e),
            Ok(ms) => {
                let d = decls[n - 1];
                match decl_error(d) {
                    Some(k) => Err(SchemaError { kind: k, pos: d.name.start }),
                    None => Ok(ms.push(object_of(d))),
                }
            },
        }
    }
}

proof fn lemma_references_index(o: ObjectModelView, k: int)
    requires
        0 <= k < references(o).len(),
    ensures
        ({
            let a = o.parents.len();
            let b = a + o.ordered_children.len();
            let c = b + o.unordered_children.len();
            let d = c + o.batch_children.len();
            let e = d + o.singleton_children.len();
            references(o)[k] == if k < a {
                o.parents[k]
            } else if k < b {
                o.ordered_children[k - a]
            } else if k < c {
                o.unordered_children[k - b]
            } else if k < d {
                o.batch_children[k - c]
            } else if k < e {
                o.singleton_children[k - d]
            } else {
                o.singleton_family_children[k - e]
            }
        }),
{
}

proof fn lemma_build_error_stays(decls: Seq<ObjectDeclView>, m: nat, n: nat)
    requires
        m <= n,
        build_objects(decls, m) is Err,
    ensures
        build_objects(decls, n) == build_objects(decls, m),
    decreases n - m,
{
    if m < n {
        lemma_build_error_stays(decls, m, (n - 1) as nat);
    }
}

/// Every name an object refers to: its parents, then its children.
pub open spec fn references(o: ObjectModelView) -> Seq<Span> {
    o.parents + o.ordered_children + o.unordered_children + o.batch_children + o.singleton_children
        + o.singleton_family_children
}

pub open spec fn object_spans_in(o: ObjectModelView, len: nat) -> bool {
    &&& span_in(o.name, len)
    &&& all_in(o.parents, len)
    &&& all_in(o.ordered_children, len)
    &&& all_in(o.unordered_children, len)
    &&& all_in(o.batch_children, len)
    &&& all_in(o.singleton_children, len)
    &&& all_in(o.singleton_family_children, len)
}

/// Every span of the model lies within its text.
pub open spec fn model_spans_in(m: ConfigModelView) -> bool {
    &&& span_in(m.repository_name, m.text.len())
    &&& forall|i: int| 0 <= i < m.objects.len() ==> object_spans_in(#[trigger] m.objects[i], m.text.len())
}

/// Some object of the model is declared under `name`.
pub open spec fn declared(m: ConfigModelView, name: Seq<char>) -> bool {
    exists|j: int| 0 <= j < m.objects.len() && span_text(m.text, (#[trigger] m.objects[j]).name) == name
}

/// Reference `k` of object `i` names no declared object.
pub open spec fn dangling(m: ConfigModelView, i: int, k: int) -> bool {
    0 <= i < m.objects.len() && 0 <= k < references(m.objects[i]).len() && !declared(
        m,
        span_text(m.text, references(m.objects[i])[k]),
    )
}

/// Every parent and child name refers to a declared object.
pub open spec fn resolves(m: ConfigModelView) -> bool {
    forall|i: int, k: int| !#[trigger] dangling(m, i, k)
}

/// Every object of a built model satisfies its kind's invariant.
pub proof fn lemma_built_objects_wf(decls: Seq<ObjectDeclView>, n: nat)
    requires
        build_objects(decls, n) is Ok,
    ensures
        forall|i: int| 0 <= i < build_objects(decls, n)->Ok_0.len() ==> (#[trigger] build_objects(decls, n)->Ok_0[i]).wf(),
    decreases n,
{
    if n > 0 {
        lemma_built_objects_wf(decls, (n - 1) as nat);
        let prev = build_objects(decls, (n - 1) as nat)->Ok_0;
        let d = decls[n - 1];
        assert(decl_error(d) is None);
        assert(object_of(d).wf());
        assert forall|i: int| 0 <= i < prev.push(object_of(d)).len() implies (#[trigger] prev.push(object_of(d))[i]).wf() by {
            if i < prev.len() {
                assert(prev.push(object_of(d))[i] == prev[i]);
            }
        }
    }
}

/// A validated schema.
#[derive(Debug)]
pub struct ConfigModel {
    pub text: Vec<char>,
    pub repository_name: Span,
    pub objects: Vec<ObjectModel>,
}

pub struct ConfigModelView {
    pub text: Seq<char>,
    pub repository_name: Span,
    pub objects: Seq<ObjectModelView>,
}

pub open spec fn objects_view(v: Seq<ObjectModel>) -> Seq<ObjectModelView> {
    v.map_values(|o: ObjectModel| o@)
}

impl View for ConfigModel {
    type V = ConfigModelView;

    open spec fn view(&self) -> ConfigModelView {
        ConfigModelView {
            text: self.text@,
            repository_name: self.repository_name,
            objects: objects_view(self.objects@),
        }
    }
}

/// The model of a parsed schema, or the first declaration error.
pub open spec fn build_model(ast: ConfigAstView) -> Result<ConfigModelView, SchemaError> {
    match build_objects(ast.objects, ast.objects.len()) {
        Err(e) => Err(e),
        Ok(ms) => Ok(ConfigModelView { text: ast.text, repository_name: ast.repository_name, objects: ms }),
    }
}

pub fn copy_spans(v: &Vec<Span>) -> (r: Vec<Span>)
    ensures
        r@ == v@,
{
    let mut r: Vec<Span> = Vec::new();
    let mut i: usize = 0;
    while i < v.len()
        invariant
            i <= v.len(),
            r@ == v@.take(i as int),
        decreases v.len() - i,
    {
        r.push(v[i]);
        assert(v@.take(i + 1) =~= v@.take(i as int).push(v@[i as int]));
        i += 1;
    }
    assert(v@.take(v.len() as int) =~= v@);
    r
}

fn decl_error_of(d: &ObjectDecl) -> (r: Option<SchemaErrorKind>)
    ensures
        r == decl_error(d@),
{
    let has_children = d.ordered_children.len() > 0 || d.unordered_children.len() > 0
        || d.batch_children.len() > 0 || d.singleton_children.len() > 0
        || d.singleton_family_children.len() > 0;
    let required = match &d.parent {
        None => Some(SchemaErrorKind::MissingParent),
        Some(p) => if p.len() == 0 { Some(SchemaErrorKind::EmptyParent) } else { None },
    };
    match d.kind {
        ObjectKind::Root => if d.parent.is_some() { Some(SchemaErrorKind::RootWithParent) } else { None },
        ObjectKind::OrderedChild | ObjectKind::UnorderedChild => required,
        ObjectKind::Batch => if required.is_some() {
            required
        } else if has_children {
            Some(SchemaErrorKind::LeafWithChildren)
        } else {
            None
        },
        ObjectKind::Singleton | ObjectKind::SingletonFamily => if has_children {
            Some(SchemaErrorKind::LeafWithChildren)
        } else {
            match &d.parent {
                Some(p) => if p.len() == 0 { Some(SchemaErrorKind::EmptyParent) } else { None },
                None => None,
            }
        },
    }
}

fn object_of_decl(d: &ObjectDecl) -> (r: ObjectModel)
    ensures
        r@ == object_of(d@),
{
    let parents = match &d.parent {
        Some(p) => copy_spans(p),
        None => Vec::new(),
    };
    ObjectModel {
        kind: d.kind,
        name: d.name,
        parents,
        ordered_children: copy_spans(&d.ordered_children),
        unordered_children: copy_spans(&d.unordered_children),
        batch_children: copy_spans(&d.batch_children),
        singleton_children: copy_spans(&d.singleton_children),
        singleton_family_children: copy_spans(&d.singleton_family_children),
    }
}

impl ConfigModel {
    /// Validates the declarations: classifies each object by kind and
    /// rejects the first one whose properties its kind does not allow.
    pub fn try_from(ast: ConfigAst) -> (r: Result<ConfigModel, SchemaError>)
        ensures
            match r {
                Ok(m) => build_model(ast@) == Ok::<ConfigModelView, SchemaError>(m@) && (ast_spans_in(ast@)
                    ==> model_spans_in(m@)),
                Err(e) => build_model(ast@) == Err::<ConfigModelView, SchemaError>(e),
            },
    {
        let mut objects: Vec<ObjectModel> = Vec::new();
        assert(objects_view(objects@) =~= Seq::empty());
        let mut i: usize = 0;
        while i < ast.objects.len()
            invariant
                i <= ast.objects.len(),
                build_objects(ast@.objects, i as nat) == Ok::<Seq<ObjectModelView>, SchemaError>(objects_view(objects@)),
                objects@.len() == i,
                ast_spans_in(ast@) ==> forall|j: int| 0 <= j < i ==> object_spans_in(#[trigger] objects_view(objects@)[j], ast@.text.len()),
            decreases ast.objects.len() - i,
        {
            let d = &ast.objects[i];
            assert(ast@.objects[i as int] == d@);
            match decl_error_of(d) {
                Some(k) => {
                    proof {
                        lemma_build_error_stays(ast@.objects, (i + 1) as nat, ast@.objects.len());
                    }
                    return Err(SchemaError { kind: k, pos: d.name.start });
                },
                None => {
                    let o = object_of_decl(d);
                    let ghost before = objects@;
                    objects.push(o);
                    assert(objects_view(objects@) =~= objects_view(before).push(o@));
                    proof {
                        if ast_spans_in(ast@) {
                            let len = ast@.text.len();
                            assert(decl_spans_in(ast@.objects[i as int], len));
                            assert(object_spans_in(objects_view(objects@)[i as int], len));
                        }
                    }
                },
            }
            i += 1;
        }
        Ok(ConfigModel { text: ast.text, repository_name: ast.repository_name, objects })
    }
}

fn extend_spans(dst: &mut Vec<Span>, src: &Vec<Span>)
    ensures
        final(dst)@ == old(dst)@ + src@,
{
    let mut i: usize = 0;
    while i < src.len()
        invariant
            i <= src.len(),
            dst@ == old(dst)@ + src@.take(i as int),
        decreases src.len() - i,
    {
        dst.push(src[i]);
        assert(old(dst)@ + src@.take(i + 1) =~= (old(dst)@ + src@.take(i as int)).push(src@[i as int]));
        i += 1;
    }
    assert(src@.take(src.len() as int) =~= src@);
}

fn references_of(o: &ObjectModel) -> (r: Vec<Span>)
    ensures
        r@ == references(o@),
{
    let mut r = copy_spans(&o.parents);
    extend_spans(&mut r, &o.ordered_children);
    extend_spans(&mut r, &o.unordered_children);
    extend_spans(&mut r, &o.batch_children);
    extend_spans(&mut r, &o.singleton_children);
    extend_spans(&mut r, &o.singleton_family_children);
    r
}

impl ConfigModel {
    /// The text of a name in the schema.
    pub fn name_of(&self, sp: Span) -> (r: String)
        requires
            span_in(sp, self.text@.len()),
        ensures
            r@ == span_text(self.text@, sp),
    {
        let mut out: Vec<char> = Vec::new();
        let mut i: usize = sp.start;
        while i < sp.end
            invariant
                sp.start <= i <= sp.end <= self.text@.len(),
                out@ == self.text@.subrange(sp.start as int, i as int),
            decreases sp.end - i,
        {
            out.push(self.text[i]);
            assert(self.text@.subrange(sp.start as int, i + 1) =~= self.text@.subrange(sp.start as int, i as int).push(self.text@[i as int]));
            i += 1;
        }
        string_of(&out)
    }

    /// Whether some object is declared under the name at `sp`.
    fn is_declared(&self, sp: Span) -> (r: bool)
        requires
            model_spans_in(self@),
            span_in(sp, self.text@.len()),
        ensures
            r == declared(self@, span_text(self@.text, sp)),
    {
        let mut j: usize = 0;
        while j < self.objects.len()
            invariant
                model_spans_in(self@),
                span_in(sp, self.text@.len()),
                j <= self.objects.len(),
                forall|jj: int| 0 <= jj < j ==> span_text(self@.text, (#[trigger] self@.objects[jj]).name) != span_text(self@.text, sp),
            decreases self.objects.len() - j,
        {
            assert(self@.objects[j as int] == self.objects[j as int]@);
            assert(object_spans_in(self@.objects[j as int], self.text@.len()));
            if same_text(&self.text, self.objects[j].name, sp) {
                return true;
            }
            j += 1;
        }
        false
    }

    /// Checks that every parent and child name is declared in the schema;
    /// reports the first that is not, at its position.
    pub fn check_references(&self) -> (r: Result<(), SchemaError>)
        requires
            model_spans_in(self@),
        ensures
            r is Ok <==> resolves(self@),
            r is Err ==> r->Err_0.kind == SchemaErrorKind::UnknownObject && exists|i: int, k: int|
                dangling(self@, i, k) && references(self@.objects[i])[k].start == r->Err_0.pos,
    {
        let mut i: usize = 0;
        while i < self.objects.len()
            invariant
                model_spans_in(self@),
                i <= self.objects.len(),
                forall|ii: int, k: int| 0 <= ii < i ==> !#[trigger] dangling(self@, ii, k),
            decreases self.objects.len() - i,
        {
            let refs = references_of(&self.objects[i]);
            assert(self@.objects[i as int] == self.objects[i as int]@);
            assert(object_spans_in(self@.objects[i as int], self.text@.len()));
            assert forall|k: int| 0 <= k < refs@.len() implies span_in(#[trigger] refs@[k], self.text@.len()) by {
                lemma_references_index(self@.objects[i as int], k);
            }
            let mut k: usize = 0;
            while k < refs.len()
                invariant
                    model_spans_in(self@),
                    i < self.objects.len(),
                    refs@ == references(self@.objects[i as int]),
                    all_in(refs@, self.text@.len()),
                    k <= refs.len(),
                    forall|ii: int, kk: int| 0 <= ii < i ==> !#[trigger] dangling(self@, ii, kk),
                    forall|kk: int| 0 <= kk < k ==> !#[trigger] dangling(self@, i as int, kk),
                decreases refs.len() - k,
            {
                assert(span_in(refs@[k as int], self.text@.len()));
                if !self.is_declared(refs[k]) {
                    assert(dangling(self@, i as int, k as int));
                    return Err(SchemaError { kind: SchemaErrorKind::UnknownObject, pos: refs[k].start });
                }
                k += 1;
            }
            i += 1;
        }
        Ok(())
    }
}

} // verus!
