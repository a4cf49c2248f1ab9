//! The preprocessor state: the macros defined so far and the tokens put out.
use vstd::prelude::*;
use crate::glsl::token::string_eq;
use crate::glsl::preprocessor::session::{Define, SDefine, define_wf};

verus! {

/// The macros defined so far, by name, and the spellings of the tokens put
/// out so far (a line break after each source line).
pub struct PreprocessState {
    pub defines: Vec<(String, Define)>,
    pub normal_tokens: Vec<String>,
}

/// The mathematical model of a [`PreprocessState`].
pub ghost struct SState {
    pub defines: Map<Seq<char>, SDefine>,
    pub normal_tokens: Seq<Seq<char>>,
}

/// No name is defined twice.
pub open spec fn keys_unique(d: Seq<(String, Define)>) -> bool {
    forall|i: int, j: int|
        0 <= i < d.len() && 0 <= j < d.len() && #[trigger] d[i].0@ == #[trigger] d[j].0@ ==> i == j
}

/// The definitions as a map from names to macros.
pub open spec fn defines_map(d: Seq<(String, Define)>) -> Map<Seq<char>, SDefine> {
    Map::new(
        |k: Seq<char>| exists|i: int| 0 <= i < d.len() && #[trigger] d[i].0@ == k,
        |k: Seq<char>| d[choose|i: int| 0 <= i < d.len() && #[trigger] d[i].0@ == k].1@,
    )
}

pub open spec fn strings_view(v: Seq<String>) -> Seq<Seq<char>> {
    v.map_values(|s: String| s@)
}

impl View for PreprocessState {
    type V = SState;

    open spec fn view(&self) -> SState {
        SState { defines: defines_map(self.defines@), normal_tokens: strings_view(self.normal_tokens@) }
    }
}

/// The state before anything was read.
pub open spec fn empty_state() -> SState {
    SState { defines: Map::empty(), normal_tokens: Seq::empty() }
}

impl PreprocessState {
    /// Names are unique and every macro is well formed.
    pub open spec fn wf(&self) -> bool {
        &&& keys_unique(self.defines@)
        &&& forall|i: int| 0 <= i < self.defines@.len() ==> define_wf(#[trigger] self.defines@[i].1@)
    }
}

pub proof fn lemma_defines_map_at(d: Seq<(String, Define)>, i: int)
    requires
        keys_unique(d),
        0 <= i < d.len(),
    ensures
        defines_map(d).contains_key(d[i].0@),
        defines_map(d)[d[i].0@] == d[i].1@,
{
    let k = d[i].0@;
    assert(d[i].0@ == k);
    let c = choose|j: int| 0 <= j < d.len() && #[trigger] d[j].0@ == k;
    assert(d[c].0@ == d[i].0@);
}

/// Every macro of a well-formed state is well formed.
pub proof fn lemma_wf_defines(st: &PreprocessState, k: Seq<char>)
    requires
        st.wf(),
        st@.defines.contains_key(k),
    ensures
        define_wf(st@.defines[k]),
{
    let d = st.defines@;
    let i = choose|i: int| 0 <= i < d.len() && #[trigger] d[i].0@ == k;
    lemma_defines_map_at(d, i);
}

impl PreprocessState {
    /// The empty state.
    pub fn new() -> (r: PreprocessState)
        ensures
            r.wf(),
            r@ == empty_state(),
    {
        let r = PreprocessState { defines: Vec::new(), normal_tokens: Vec::new() };
        assert(r@.defines =~= Map::<Seq<char>, SDefine>::empty());
        assert(r@.normal_tokens =~= Seq::<Seq<char>>::empty());
        r
    }

    /// The index of the definition of `s`.
    pub fn find(&self, s: &String) -> (r: Option<usize>)
        requires
            self.wf(),
        ensures
            match r {
                Some(i) => i < self.defines@.len() && self.defines@[i as int].0@ == s@,
                None => !self@.defines.contains_key(s@),
            },
            self@.defines.contains_key(s@) <==> r is Some,
    {
        let mut i: usize = 0;
        while i < self.defines.len()
            invariant
                self.wf(),
                i <= self.defines.len(),
                forall|j: int| 0 <= j < i ==> (#[trigger] self.defines@[j]).0@ != s@,
            decreases self.defines.len() - i,
        {
            if string_eq(&self.defines[i].0, s) {
                proof {
                    lemma_defines_map_at(self.defines@, i as int);
                }
                return Some(i);
            }
            i = i + 1;
        }
        None
    }

    /// Whether `s` names a macro.
    pub fn is_defined(&self, s: &String) -> (r: bool)
        requires
            self.wf(),
        ensures
            r == self@.defines.contains_key(s@),
    {
        self.find(s).is_some()
    }

    /// A copy of the macro named `s`, if there is one.
    pub fn get_defined(&self, s: &String) -> (r: Option<Define>)
        requires
            self.wf(),
        ensures
            match r {
                Some(d) => self@.defines.contains_key(s@) && d@ == self@.defines[s@],
                None => !self@.defines.contains_key(s@),
            },
    {
        match self.find(s) {
            Some(i) => {
                proof {
                    lemma_defines_map_at(self.defines@, i as int);
                }
                Some(self.defines[i].1.copy())
            },
            None => None,
        }
    }

    /// Defines `s` as `d`, replacing an earlier definition of `s`.
    pub fn define(&mut self, s: String, d: Define)
        requires
            old(self).wf(),
            define_wf(d@),
        ensures
            final(self).wf(),
            final(self)@.defines == old(self)@.defines.insert(s@, d@),
            final(self)@.normal_tokens == old(self)@.normal_tokens,
    {
        let ghost k = s@;
        let ghost dv = d@;
        let ghost od = self.defines@;
        match self.find(&s) {
            Some(i) => {
                self.defines.set(i, (s, d));
                proof {
                    let nd = self.defines@;
                    assert(nd[i as int].0@ == k);
                    assert forall|a: int, b: int|
                        0 <= a < nd.len() && 0 <= b < nd.len() && #[trigger] nd[a].0@ == #[trigger] nd[b].0@ implies a == b by {
                        if a != i && b != i {
                            assert(od[a] == nd[a] && od[b] == nd[b]);
                        } else if a == i && b != i {
                            assert(od[b] == nd[b]);
                            assert(od[i as int].0@ == k);
                        } else if a != i && b == i {
                            assert(od[a] == nd[a]);
                            assert(od[i as int].0@ == k);
                        }
                    }
                    assert forall|j: int| 0 <= j < nd.len() implies define_wf(#[trigger] nd[j].1@) by {
                        if j != i {
                            assert(od[j] == nd[j]);
                        }
                    }
                    assert forall|x: Seq<char>| #[trigger] defines_map(nd).contains_key(x) <==> defines_map(od).insert(k, dv).contains_key(x) by {
                        if x == k {
                            lemma_defines_map_at(nd, i as int);
                        } else {
                            if defines_map(od).contains_key(x) {
                                let j = choose|j: int| 0 <= j < od.len() && #[trigger] od[j].0@ == x;
                                assert(j != i);
                                assert(nd[j] == od[j]);
                            }
                            if defines_map(nd).contains_key(x) {
                                let j = choose|j: int| 0 <= j < nd.len() && #[trigger] nd[j].0@ == x;
                                assert(j != i);
                                assert(nd[j] == od[j]);
                            }
                        }
                    }
                    assert forall|x: Seq<char>| #[trigger] defines_map(nd).contains_key(x) implies defines_map(nd)[x] == defines_map(od).insert(k, dv)[x] by {
                        if x == k {
                            lemma_defines_map_at(nd, i as int);
                        } else {
                            let j = choose|j: int| 0 <= j < nd.len() && #[trigger] nd[j].0@ == x;
                            assert(nd[j] == od[j]);
                            lemma_defines_map_at(nd, j);
                            lemma_defines_map_at(od, j);
                        }
                    }
                    assert(defines_map(nd) =~= defines_map(od).insert(k, dv));
                }
            },
            None => {
                self.defines.push((s, d));
                proof {
                    let nd = self.defines@;
                    let n = od.len() as int;
                    assert(nd[n].0@ == k);
                    assert forall|a: int, b: int|
                        0 <= a < nd.len() && 0 <= b < nd.len() && #[trigger] nd[a].0@ == #[trigger] nd[b].0@ implies a == b by {
                        if a < n && b < n {
                            assert(od[a] == nd[a] && od[b] == nd[b]);
                        } else if a < n {
                            assert(od[a] == nd[a]);
                            lemma_defines_map_at(od, a);
                        } else if b < n {
                            assert(od[b] == nd[b]);
                            lemma_defines_map_at(od, b);
                        }
                    }
                    assert forall|j: int| 0 <= j < nd.len() implies define_wf(#[trigger] nd[j].1@) by {
                        if j < n {
                            assert(od[j] == nd[j]);
                        }
                    }
                    assert forall|x: Seq<char>| #[trigger] defines_map(nd).contains_key(x) <==> defines_map(od).insert(k, dv).contains_key(x) by {
                        if x == k {
                            lemma_defines_map_at(nd, n);
                        } else {
                            if defines_map(od).contains_key(x) {
                                let j = choose|j: int| 0 <= j < od.len() && #[trigger] od[j].0@ == x;
                                assert(nd[j] == od[j]);
                            }
                            if defines_map(nd).contains_key(x) {
                                let j = choose|j: int| 0 <= j < nd.len() && #[trigger] nd[j].0@ == x;
                                assert(j != n);
                                assert(nd[j] == od[j]);
                            }
                        }
                    }
                    assert forall|x: Seq<char>| #[trigger] defines_map(nd).contains_key(x) implies defines_map(nd)[x] == defines_map(od).insert(k, dv)[x] by {
                        if x == k {
                            lemma_defines_map_at(nd, n);
                        } else {
                            let j = choose|j: int| 0 <= j < nd.len() && #[trigger] nd[j].0@ == x;
                            assert(j != n);
                            assert(nd[j] == od[j]);
                            lemma_defines_map_at(nd, j);
                            lemma_defines_map_at(od, j);
                        }
                    }
                    assert(defines_map(nd) =~= defines_map(od).insert(k, dv));
                }
            },
        }
    }

    /// Removes the definition of `s`, if there is one.
    pub fn undefine(&mut self, s: &String)
        requires
            old(self).wf(),
        ensures
            final(self).wf(),
            final(self)@.defines == old(self)@.defines.remove(s@),
            final(self)@.normal_tokens == old(self)@.normal_tokens,
    {
        let ghost k = s@;
        let ghost od = self.defines@;
        match self.find(s) {
            Some(i) => {
                let _ = self.defines.remove(i);
                proof {
                    let nd = self.defines@;
                    assert(nd =~= od.remove(i as int));
                    assert forall|a: int, b: int|
                        0 <= a < nd.len() && 0 <= b < nd.len() && #[trigger] nd[a].0@ == #[trigger] nd[b].0@ implies a == b by {
                        let a2 = if a < i { a } else { a + 1 };
                        let b2 = if b < i { b } else { b + 1 };
                        assert(nd[a] == od[a2] && nd[b] == od[b2]);
                    }
                    assert forall|j: int| 0 <= j < nd.len() implies define_wf(#[trigger] nd[j].1@) by {
                        let j2 = if j < i { j } else { j + 1 };
                        assert(nd[j] == od[j2]);
                    }
                    assert forall|x: Seq<char>| #[trigger] defines_map(nd).contains_key(x) <==> defines_map(od).remove(k).contains_key(x) by {
                        if defines_map(od).contains_key(x) && x != k {
                            let j = choose|j: int| 0 <= j < od.len() && #[trigger] od[j].0@ == x;
                            assert(j != i);
                            let j2 = if j < i { j } else { j - 1 };
                            assert(nd[j2] == od[j]);
                        }
                        if defines_map(nd).contains_key(x) {
                            let j = choose|j: int| 0 <= j < nd.len() && #[trigger] nd[j].0@ == x;
                            let j2 = if j < i { j } else { j + 1 };
                            assert(nd[j] == od[j2]);
                            assert(j2 != i);
                        }
                    }
                    assert forall|x: Seq<char>| #[trigger] defines_map(nd).contains_key(x) implies defines_map(nd)[x] == defines_map(od).remove(k)[x] by {
                        let j = choose|j: int| 0 <= j < nd.len() && #[trigger] nd[j].0@ == x;
                        let j2 = if j < i { j } else { j + 1 };
                        assert(nd[j] == od[j2]);
                        lemma_defines_map_at(nd, j);
                        lemma_defines_map_at(od, j2);
                    }
                    assert(defines_map(nd) =~= defines_map(od).remove(k));
                }
            },
            None => {
                assert(defines_map(od) =~= defines_map(od).remove(k));
            },
        }
    }
}

} // verus!
