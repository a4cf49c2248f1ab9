//! Looking up the variables declared by a translation unit.
use vstd::prelude::*;
use crate::glsl::declaration::{
    Declaration, SDecl, SingleDeclaration, SSingle, SVariant, TypeQualifier, VariantTypeSpecifier,
    view_decl, view_single,
};
use crate::glsl::parser::{TranslationUnit, view_decls};

verus! {

/// The types that a query is about and that it gives.
pub trait QueryType {
    type Type;
    type ResultType;
}

/// A test on single declarations.
pub trait DeclQuery {
    /// Whether the declaration passes the test.
    spec fn accepts(&self, d: SSingle) -> bool;

    /// Whether the declaration passes the test.
    fn is(&self, decl: &SingleDeclaration) -> (r: bool)
        ensures
            r == self.accepts(decl@),
    ;
}

impl DeclQuery for TypeQualifier {
    /// A declaration passes when its type has this storage qualifier.
    open spec fn accepts(&self, d: SSingle) -> bool {
        d.type_spec matches SVariant::Normal(ft) && ft.qualifer == Some(*self)
    }

    fn is(&self, decl: &SingleDeclaration) -> (r: bool) {
        match &decl.type_spec {
            VariantTypeSpecifier::Normal(full_ts) => match full_ts.qualifer {
                Some(tq) => tq == *self,
                None => false,
            },
            VariantTypeSpecifier::Invariant => false,
        }
    }
}

/// Narrowing a found declaration by a test.
pub trait SingleDeclarationQuery<'a> {
    /// The declaration if it passes the test `t`.
    fn is<T: DeclQuery>(self, t: T) -> Self;
}

impl<'a> SingleDeclarationQuery<'a> for Option<&'a SingleDeclaration> {
    fn is<T: DeclQuery>(self, t: T) -> (r: Self)
        ensures
            r == (match self {
                Some(d) => if t.accepts(d@) { Some(d) } else { None },
                None => None,
            }),
    {
        match self {
            Some(sdec) => {
                if t.is(sdec) {
                    Some(sdec)
                } else {
                    None
                }
            },
            None => None,
        }
    }
}

/// The single declarations of the declaration lists among `ds`, in order.
pub open spec fn flat_singles(ds: Seq<SDecl>) -> Seq<SSingle>
    decreases ds.len(),
{
    if ds.len() == 0 {
        Seq::empty()
    } else {
        flat_singles(ds.drop_last()) + match ds.last() {
            SDecl::DeclarationList(l) => l,
            _ => Seq::empty(),
        }
    }
}

/// The first of `ss` that declares the name `name`.
pub open spec fn first_named(ss: Seq<SSingle>, name: Seq<char>) -> Option<SSingle>
    decreases ss.len(),
{
    if ss.len() == 0 {
        None
    } else if ss[0].name == Some(name) {
        Some(ss[0])
    } else {
        first_named(ss.drop_first(), name)
    }
}

/// Those of `ss` that pass the test `t`, in order.
pub open spec fn select<T: DeclQuery>(ss: Seq<SSingle>, t: &T) -> Seq<SSingle>
    decreases ss.len(),
{
    if ss.len() == 0 {
        Seq::empty()
    } else {
        select(ss.drop_last(), t) + if t.accepts(ss.last()) { seq![ss.last()] } else { Seq::empty() }
    }
}

pub proof fn lemma_first_named_append(a: Seq<SSingle>, b: Seq<SSingle>, name: Seq<char>)
    ensures
        first_named(a + b, name) == (match first_named(a, name) {
            Some(x) => Some(x),
            None => first_named(b, name),
        }),
    decreases a.len(),
{
    if a.len() > 0 {
        assert((a + b).drop_first() =~= a.drop_first() + b);
        assert((a + b)[0] == a[0]);
        lemma_first_named_append(a.drop_first(), b, name);
    } else {
        assert(a + b =~= b);
    }
}

pub proof fn lemma_select_push<T: DeclQuery>(a: Seq<SSingle>, x: SSingle, t: &T)
    ensures
        select(a.push(x), t) == select(a, t) + if t.accepts(x) { seq![x] } else { Seq::empty() },
{
    assert(a.push(x).drop_last() =~= a);
}

pub proof fn lemma_flat_push(ds: Seq<SDecl>, d: SDecl)
    ensures
        flat_singles(ds.push(d)) == flat_singles(ds) + match d {
            SDecl::DeclarationList(l) => l,
            _ => Seq::empty(),
        },
{
    assert(ds.push(d).drop_last() =~= ds);
}

pub open spec fn opt_single_view(r: Option<&SingleDeclaration>) -> Option<SSingle> {
    match r {
        Some(d) => Some(d@),
        None => None,
    }
}

pub open spec fn refs_view(v: Seq<&SingleDeclaration>) -> Seq<SSingle> {
    v.map_values(|d: &SingleDeclaration| d@)
}

/// Looking up declarations.
pub trait Query<'a> {
    /// The first declared variable named `s`.
    fn query_decl(&self, s: &str) -> Option<&SingleDeclaration>;

    /// The declared variables that pass the test `t`, in order.
    fn query_decl_all<'b: 'a, T: DeclQuery>(&'b self, t: T) -> Vec<&'b SingleDeclaration>;
}

impl<'a> Query<'a> for TranslationUnit {
    fn query_decl(&self, s: &str) -> (r: Option<&SingleDeclaration>)
        ensures
            opt_single_view(r) == first_named(flat_singles(self@.decls), s@),
    {
        let mut i: usize = 0;
        let ghost all = flat_singles(self@.decls);
        let wanted = crate::text::string_of(&crate::text::chars_of(s));
        assert(view_decls(self.decls@).subrange(0, self.decls@.len() as int) =~= self@.decls);
        while i < self.decls.len()
            invariant
                i <= self.decls.len(),
                wanted@ == s@,
                all == flat_singles(self@.decls),
                first_named(all, s@) == first_named(flat_singles(view_decls(self.decls@).subrange(i as int, self.decls@.len() as int)), s@),
            decreases self.decls.len() - i,
        {
            proof {
                let ds = view_decls(self.decls@);
                let rest = ds.subrange(i as int, ds.len() as int);
                assert(rest =~= seq![ds[i as int]] + ds.subrange(i + 1, ds.len() as int));
                lemma_flat_prepend(ds[i as int], ds.subrange(i + 1, ds.len() as int));
            }
            assert(view_decls(self.decls@)[i as int] == view_decl(self.decls@[i as int]));
            let ghost here = match view_decl(self.decls@[i as int]) {
                SDecl::DeclarationList(l) => l,
                _ => Seq::empty(),
            };
            proof {
                lemma_first_named_append(here, flat_singles(view_decls(self.decls@).subrange(i + 1, self.decls@.len() as int)), s@);
            }
            match &self.decls[i] {
                Declaration::DeclarationList(list) => {
                    let mut j: usize = 0;
                    assert(here =~= list@.map_values(|d: SingleDeclaration| view_single(d)));
                    assert(here.subrange(0, here.len() as int) =~= here);
                    while j < list.len()
                        invariant
                            j <= list.len(),
                            wanted@ == s@,
                            all == flat_singles(self@.decls),
                            first_named(all, s@) == (match first_named(here, s@) {
                                Some(x) => Some(x),
                                None => first_named(flat_singles(view_decls(self.decls@).subrange(i + 1, self.decls@.len() as int)), s@),
                            }),
                            here == list@.map_values(|d: SingleDeclaration| view_single(d)),
                            first_named(here, s@) == first_named(here.subrange(j as int, here.len() as int), s@),
                        decreases list.len() - j,
                    {
                        proof {
                            let sub = here.subrange(j as int, here.len() as int);
                            assert(sub[0] == list@[j as int]@);
                            assert(sub.drop_first() =~= here.subrange(j + 1, here.len() as int));
                        }
                        match &list[j].name {
                            Some(name) => {
                                if crate::glsl::token::string_eq(name, &wanted) {
                                    proof {
                                        let sub = here.subrange(j as int, here.len() as int);
                                        assert(sub[0].name == Some(s@));
                                        assert(first_named(sub, s@) == Some(sub[0]));
                                        assert(first_named(here, s@) == Some(list@[j as int]@));
                                    }
                                    return Some(&list[j]);
                                }
                            },
                            None => {},
                        }
                        j = j + 1;
                    }
                    assert(here.subrange(here.len() as int, here.len() as int) =~= Seq::<SSingle>::empty());
                },
                _ => {},
            }
            i = i + 1;
        }
        proof {
            let ds = view_decls(self.decls@);
            assert(ds.subrange(ds.len() as int, ds.len() as int) =~= Seq::<SDecl>::empty());
            assert(ds =~= self@.decls);
            assert(ds.subrange(0, ds.len() as int) =~= ds);
        }
        None
    }

    fn query_decl_all<'b: 'a, T: DeclQuery>(&'b self, t: T) -> (r: Vec<&'b SingleDeclaration>)
        ensures
            refs_view(r@) == select(flat_singles(self@.decls), &t),
    {
        let mut res: Vec<&'b SingleDeclaration> = Vec::new();
        let mut i: usize = 0;
        assert(refs_view(res@) =~= select(flat_singles(view_decls(self.decls@).subrange(0, 0)), &t));
        while i < self.decls.len()
            invariant
                i <= self.decls.len(),
                refs_view(res@) == select(flat_singles(view_decls(self.decls@).subrange(0, i as int)), &t),
            decreases self.decls.len() - i,
        {
            let ghost ds = view_decls(self.decls@);
            proof {
                assert(ds.subrange(0, i + 1) =~= ds.subrange(0, i as int).push(ds[i as int]));
                lemma_flat_push(ds.subrange(0, i as int), ds[i as int]);
            }
            let ghost prefix = flat_singles(ds.subrange(0, i as int));
            match &self.decls[i] {
                Declaration::DeclarationList(list) => {
                    let ghost here = list@.map_values(|d: SingleDeclaration| view_single(d));
                    let mut j: usize = 0;
                    assert(prefix + here.subrange(0, 0) =~= prefix);
                    while j < list.len()
                        invariant
                            j <= list.len(),
                            here == list@.map_values(|d: SingleDeclaration| view_single(d)),
                            refs_view(res@) == select(prefix + here.subrange(0, j as int), &t),
                        decreases list.len() - j,
                    {
                        proof {
                            assert(prefix + here.subrange(0, j + 1) =~= (prefix + here.subrange(0, j as int)).push(here[j as int]));
                            lemma_select_push(prefix + here.subrange(0, j as int), here[j as int], &t);
                        }
                        if t.is(&list[j]) {
                            let ghost before = res@;
                            res.push(&list[j]);
                            assert(refs_view(res@) =~= refs_view(before) + seq![here[j as int]]);
                        } else {
                            assert(select(prefix + here.subrange(0, j + 1), &t) =~= select(prefix + here.subrange(0, j as int), &t));
                        }
                        j = j + 1;
                    }
                    assert(here.subrange(0, list@.len() as int) =~= here);
                    assert(view_decl(self.decls@[i as int]) == SDecl::DeclarationList(here));
                },
                _ => {
                    assert(flat_singles(ds.subrange(0, i + 1)) =~= prefix);
                },
            }
            i = i + 1;
        }
        assert(view_decls(self.decls@).subrange(0, self.decls@.len() as int) =~= self@.decls);
        res
    }
}

pub proof fn lemma_flat_prepend(d: SDecl, ds: Seq<SDecl>)
    ensures
        flat_singles(seq![d] + ds) == (match d {
            SDecl::DeclarationList(l) => l,
            _ => Seq::empty(),
        }) + flat_singles(ds),
    decreases ds.len(),
{
    let head = match d {
        SDecl::DeclarationList(l) => l,
        _ => Seq::<SSingle>::empty(),
    };
    if ds.len() == 0 {
        assert(seq![d] + ds =~= seq![d]);
        assert(seq![d].drop_last() =~= Seq::<SDecl>::empty());
        assert(seq![d].last() == d);
        assert(flat_singles(seq![d]) == flat_singles(seq![d].drop_last()) + head);
        assert(head + flat_singles(ds) =~= head);
        assert(Seq::<SSingle>::empty() + head =~= head);
    } else {
        lemma_flat_prepend(d, ds.drop_last());
        assert((seq![d] + ds).drop_last() =~= seq![d] + ds.drop_last());
        assert((seq![d] + ds).last() == ds.last());
        let tail = match ds.last() {
            SDecl::DeclarationList(l) => l,
            _ => Seq::<SSingle>::empty(),
        };
        assert(flat_singles(ds) == flat_singles(ds.drop_last()) + tail);
        assert(flat_singles(seq![d] + ds) == flat_singles(seq![d] + ds.drop_last()) + tail);
        assert(head + flat_singles(ds.drop_last()) + tail =~= head + (flat_singles(ds.drop_last()) + tail));
    }
}

/// The declaration found for a name declares that name, and is one of the
/// declarations searched.
pub proof fn law_found_declares_name(ss: Seq<SSingle>, name: Seq<char>)
    ensures
        first_named(ss, name) matches Some(d) ==> d.name == Some(name) && ss.contains(d),
    decreases ss.len(),
{
    if ss.len() > 0 && ss[0].name != Some(name) {
        law_found_declares_name(ss.drop_first(), name);
        match first_named(ss.drop_first(), name) {
            Some(d) => {
                let k = choose|k: int| 0 <= k < ss.drop_first().len() && ss.drop_first()[k] == d;
                assert(ss[k + 1] == d);
            },
            None => {},
        }
    } else if ss.len() > 0 {
        assert(ss[0] == ss[0]);
    }
}

/// Every declaration a test selects passes the test, and is one of the
/// declarations searched.
pub proof fn law_selected_pass<T: DeclQuery>(ss: Seq<SSingle>, t: &T)
    ensures
        forall|k: int| 0 <= k < select(ss, t).len() ==> t.accepts(#[trigger] select(ss, t)[k]) && ss.contains(select(ss, t)[k]),
    decreases ss.len(),
{
    if ss.len() > 0 {
        let init = ss.drop_last();
        law_selected_pass(init, t);
        assert forall|k: int| 0 <= k < select(ss, t).len() implies t.accepts(#[trigger] select(ss, t)[k]) && ss.contains(select(ss, t)[k]) by {
            if k < select(init, t).len() {
                assert(select(ss, t)[k] == select(init, t)[k]);
                let j = choose|j: int| 0 <= j < init.len() && init[j] == select(init, t)[k];
                assert(ss[j] == init[j]);
            } else {
                assert(select(ss, t)[k] == ss.last());
                assert(ss[ss.len() - 1] == ss.last());
            }
        }
    }
}

/// A declaration found by its name that passes a test is among those the
/// test selects.
pub proof fn law_found_and_passing_is_selected<T: DeclQuery>(ss: Seq<SSingle>, name: Seq<char>, t: &T)
    ensures
        match first_named(ss, name) {
            Some(d) => t.accepts(d) ==> select(ss, t).contains(d),
            None => true,
        },
    decreases ss.len(),
{
    law_found_declares_name(ss, name);
    match first_named(ss, name) {
        Some(d) => {
            if t.accepts(d) {
                let k = choose|k: int| 0 <= k < ss.len() && ss[k] == d;
                lemma_selected_member(ss, t, k);
            }
        },
        None => {},
    }
}

/// A declaration that passes a test is selected.
pub proof fn lemma_selected_member<T: DeclQuery>(ss: Seq<SSingle>, t: &T, k: int)
    requires
        0 <= k < ss.len(),
        t.accepts(ss[k]),
    ensures
        select(ss, t).contains(ss[k]),
    decreases ss.len(),
{
    let init = ss.drop_last();
    if k == ss.len() - 1 {
        assert(select(ss, t)[select(init, t).len() as int] == ss[k]);
    } else {
        assert(init[k] == ss[k]);
        lemma_selected_member(init, t, k);
        let j = choose|j: int| 0 <= j < select(init, t).len() && select(init, t)[j] == ss[k];
        assert(select(ss, t)[j] == ss[k]);
    }
}

/// The storage qualifier written in a declaration's type, if any.
pub open spec fn storage_of(d: SSingle) -> Option<TypeQualifier> {
    match d.type_spec {
        SVariant::Normal(ft) => ft.qualifer,
        SVariant::Invariant => None,
    }
}

/// A declaration passes the storage-qualifier test `q` only if its type
/// carries `q`; a declaration whose type has no storage qualifier (or an
/// `invariant` re-declaration) passes no storage-qualifier test.
pub proof fn law_qualifier_test_needs_qualifier(q: TypeQualifier, d: SSingle)
    ensures
        q.accepts(d) ==> storage_of(d) == Some(q),
        storage_of(d) is None ==> !q.accepts(d),
        storage_of(d) == Some(q) ==> q.accepts(d),
{
}

/// Querying all declarations with the storage qualifier `q` gives declarations
/// whose type carries `q`, and every declaration whose type carries `q`.
pub proof fn law_qualifier_query_selects_qualified(ss: Seq<SSingle>, q: TypeQualifier)
    ensures
        forall|k: int| 0 <= k < select(ss, &q).len() ==> storage_of(#[trigger] select(ss, &q)[k]) == Some(q),
        forall|k: int| 0 <= k < ss.len() && storage_of(#[trigger] ss[k]) == Some(q) ==> select(ss, &q).contains(ss[k]),
{
    law_selected_pass(ss, &q);
    assert forall|k: int| 0 <= k < select(ss, &q).len() implies storage_of(#[trigger] select(ss, &q)[k]) == Some(q) by {
        law_qualifier_test_needs_qualifier(q, select(ss, &q)[k]);
    }
    assert forall|k: int| 0 <= k < ss.len() && storage_of(#[trigger] ss[k]) == Some(q) implies select(ss, &q).contains(ss[k]) by {
        law_qualifier_test_needs_qualifier(q, ss[k]);
        lemma_selected_member(ss, &q, k);
    }
}

} // verus!
