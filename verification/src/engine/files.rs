//! The files an application is still loading, listed in order of their
//! names.
use vstd::prelude::*;
use crate::text::{chars_of, string_of};

verus! {

/// `a` comes before `b` in the order of strings: at the first character where
/// they differ, `a`'s has the smaller code; or `a` is a proper prefix of `b`.
pub open spec fn str_lt(a: Seq<char>, b: Seq<char>) -> bool
    decreases a.len(),
{
    if a.len() == 0 {
        b.len() > 0
    } else if b.len() == 0 {
        false
    } else if a[0] != b[0] {
        a[0] < b[0]
    } else {
        str_lt(a.drop_first(), b.drop_first())
    }
}

pub proof fn lemma_str_lt_irreflexive(a: Seq<char>)
    ensures
        !str_lt(a, a),
    decreases a.len(),
{
    if a.len() > 0 {
        lemma_str_lt_irreflexive(a.drop_first());
    }
}

pub proof fn lemma_str_lt_transitive(a: Seq<char>, b: Seq<char>, c: Seq<char>)
    requires
        str_lt(a, b),
        str_lt(b, c),
    ensures
        str_lt(a, c),
    decreases a.len(),
{
    if a.len() > 0 && b.len() > 0 && c.len() > 0 && a[0] == b[0] && b[0] == c[0] {
        lemma_str_lt_transitive(a.drop_first(), b.drop_first(), c.drop_first());
    }
}

pub proof fn lemma_str_lt_total(a: Seq<char>, b: Seq<char>)
    ensures
        a == b || str_lt(a, b) || str_lt(b, a),
    decreases a.len(),
{
    if a.len() > 0 && b.len() > 0 && a[0] == b[0] {
        lemma_str_lt_total(a.drop_first(), b.drop_first());
        if a.drop_first() == b.drop_first() {
            assert(a =~= seq![a[0]] + a.drop_first());
            assert(b =~= seq![b[0]] + b.drop_first());
        }
    } else if a.len() == 0 && b.len() == 0 {
        assert(a =~= b);
    }
}

pub proof fn lemma_str_lt_asymmetric(a: Seq<char>, b: Seq<char>)
    requires
        str_lt(a, b),
    ensures
        !str_lt(b, a),
{
    if str_lt(b, a) {
        lemma_str_lt_transitive(a, b, a);
        lemma_str_lt_irreflexive(a);
    }
}

fn string_lt(a: &String, b: &String) -> (r: bool)
    ensures
        r == str_lt(a@, b@),
{
    let av = chars_of(a.as_str());
    let bv = chars_of(b.as_str());
    let mut i: usize = 0;
    assert(a@.subrange(0, a@.len() as int) =~= a@);
    assert(b@.subrange(0, b@.len() as int) =~= b@);
    while i < av.len() && i < bv.len()
        invariant
            av@ == a@,
            bv@ == b@,
            i <= av.len(),
            i <= bv.len(),
            str_lt(a@, b@) == str_lt(a@.subrange(i as int, a@.len() as int), b@.subrange(i as int, b@.len() as int)),
        decreases av.len() - i,
    {
        let ghost sa = a@.subrange(i as int, a@.len() as int);
        let ghost sb = b@.subrange(i as int, b@.len() as int);
        assert(sa[0] == av@[i as int] && sb[0] == bv@[i as int]);
        if av[i] != bv[i] {
            return av[i] < bv[i];
        }
        assert(sa.drop_first() =~= a@.subrange(i + 1, a@.len() as int));
        assert(sb.drop_first() =~= b@.subrange(i + 1, b@.len() as int));
        i = i + 1;
    }
    let ghost sa = a@.subrange(i as int, a@.len() as int);
    let ghost sb = b@.subrange(i as int, b@.len() as int);
    assert(sa.len() == 0 || sb.len() == 0);
    i == av.len() && i < bv.len()
}

/// The names of the files being loaded, each once, in the order of strings.
pub struct AppFileSystem {
    pub loading_files: Vec<String>,
}

pub open spec fn names(v: Seq<String>) -> Seq<Seq<char>> {
    v.map_values(|s: String| s@)
}

/// The names are in strictly increasing order.
pub open spec fn sorted_names(n: Seq<Seq<char>>) -> bool {
    forall|i: int, j: int| 0 <= i < j < n.len() ==> str_lt(#[trigger] n[i], #[trigger] n[j])
}

impl AppFileSystem {
    pub open spec fn wf(&self) -> bool {
        sorted_names(names(self.loading_files@))
    }

    /// No file is loading.
    pub fn new() -> (r: AppFileSystem)
        ensures
            r.wf(),
            names(r.loading_files@).len() == 0,
    {
        AppFileSystem { loading_files: Vec::new() }
    }

    /// Records that the file `filename` is being loaded.
    pub fn start_loading(&mut self, filename: &str)
        requires
            old(self).wf(),
        ensures
            final(self).wf(),
            names(final(self).loading_files@).to_set() == names(old(self).loading_files@).to_set().insert(filename@),
    {
        let name = string_of(&chars_of(filename));
        let ghost old_names = names(self.loading_files@);
        let mut k: usize = 0;
        while k < self.loading_files.len()
            invariant
                self.wf(),
                old_names == names(old(self).loading_files@),
                names(self.loading_files@) == old_names,
                name@ == filename@,
                k <= self.loading_files.len(),
                forall|i: int| 0 <= i < k ==> str_lt(#[trigger] old_names[i], name@),
            ensures
                self.wf(),
                old_names == names(old(self).loading_files@),
                names(self.loading_files@) == old_names,
                k <= self.loading_files.len(),
                forall|i: int| 0 <= i < k ==> str_lt(#[trigger] old_names[i], name@),
                k < self.loading_files.len() ==> !str_lt(old_names[k as int], name@),
            decreases self.loading_files.len() - k,
        {
            assert(old_names[k as int] == self.loading_files@[k as int]@);
            if !string_lt(&self.loading_files[k], &name) {
                break;
            }
            assert(old_names[k as int] == self.loading_files@[k as int]@);
            k = k + 1;
        }
        if k < self.loading_files.len() && !string_lt(&name, &self.loading_files[k]) {
            proof {
                lemma_str_lt_total(old_names[k as int], name@);
                assert(old_names[k as int] == name@);
                assert(names(self.loading_files@).to_set() =~= old_names.to_set().insert(filename@)) by {
                    assert(old_names.contains(name@));
                }
            }
            return;
        }
        let ghost before = self.loading_files@;
        self.loading_files.insert(k, name);
        proof {
            let n = names(self.loading_files@);
            assert(n =~= old_names.insert(k as int, filename@));
            if k < old_names.len() {
                lemma_str_lt_total(old_names[k as int], filename@);
                lemma_str_lt_asymmetric(filename@, old_names[k as int]);
            }
            assert forall|i: int, j: int| 0 <= i < j < n.len() implies str_lt(#[trigger] n[i], #[trigger] n[j]) by {
                if j < k {
                    assert(n[i] == old_names[i] && n[j] == old_names[j]);
                } else if j == k {
                    assert(n[i] == old_names[i]);
                } else if i < k {
                    assert(n[i] == old_names[i] && n[j] == old_names[j - 1]);
                    assert(str_lt(old_names[i], filename@));
                    if j - 1 > k {
                        assert(str_lt(old_names[k as int], old_names[j - 1]));
                        lemma_str_lt_transitive(filename@, old_names[k as int], old_names[j - 1]);
                    }
                    lemma_str_lt_transitive(old_names[i], filename@, old_names[j - 1]);
                } else if i == k {
                    assert(n[j] == old_names[j - 1]);
                    if j - 1 > k {
                        assert(str_lt(old_names[k as int], old_names[j - 1]));
                        lemma_str_lt_transitive(filename@, old_names[k as int], old_names[j - 1]);
                    }
                } else {
                    assert(n[i] == old_names[i - 1] && n[j] == old_names[j - 1]);
                }
            }
            assert(n.to_set() =~= old_names.to_set().insert(filename@)) by {
                assert forall|x: Seq<char>| n.contains(x) <==> (old_names.contains(x) || x == filename@) by {
                    if n.contains(x) {
                        let j = choose|j: int| 0 <= j < n.len() && n[j] == x;
                        if j < k {
                            assert(old_names[j] == x);
                        } else if j > k {
                            assert(old_names[j - 1] == x);
                        }
                    }
                    if old_names.contains(x) {
                        let j = choose|j: int| 0 <= j < old_names.len() && old_names[j] == x;
                        if j < k {
                            assert(n[j] == x);
                        } else {
                            assert(n[j + 1] == x);
                        }
                    }
                    if x == filename@ {
                        assert(n[k as int] == x);
                    }
                }
            }
        }
    }

    /// Records that the file `filename` has been loaded.
    pub fn finish_loading(&mut self, filename: &str)
        requires
            old(self).wf(),
        ensures
            final(self).wf(),
            names(final(self).loading_files@).to_set() == names(old(self).loading_files@).to_set().remove(filename@),
    {
        let name = string_of(&chars_of(filename));
        let ghost old_names = names(self.loading_files@);
        let mut k: usize = 0;
        while k < self.loading_files.len()
            invariant
                self.wf(),
                old_names == names(old(self).loading_files@),
                names(self.loading_files@) == old_names,
                name@ == filename@,
                k <= self.loading_files.len(),
                forall|i: int| 0 <= i < k ==> #[trigger] old_names[i] != name@,
            decreases self.loading_files.len() - k,
        {
            assert(old_names[k as int] == self.loading_files@[k as int]@);
            if crate::glsl::token::string_eq(&self.loading_files[k], &name) {
                let _ = self.loading_files.remove(k);
                proof {
                    let n = names(self.loading_files@);
                    assert(n =~= old_names.remove(k as int));
                    assert forall|i: int, j: int| 0 <= i < j < n.len() implies str_lt(#[trigger] n[i], #[trigger] n[j]) by {
                        let i2 = if i < k { i } else { i + 1 };
                        let j2 = if j < k { j } else { j + 1 };
                        assert(n[i] == old_names[i2] && n[j] == old_names[j2]);
                    }
                    assert forall|i: int| 0 <= i < old_names.len() && i != k implies #[trigger] old_names[i] != filename@ by {
                        if i > k {
                            assert(str_lt(old_names[k as int], old_names[i]));
                            lemma_str_lt_irreflexive(filename@);
                        }
                    }
                    assert(n.to_set() =~= old_names.to_set().remove(filename@)) by {
                        assert forall|x: Seq<char>| n.contains(x) <==> (old_names.contains(x) && x != filename@) by {
                            if n.contains(x) {
                                let j = choose|j: int| 0 <= j < n.len() && n[j] == x;
                                let j2 = if j < k { j } else { j + 1 };
                                assert(old_names[j2] == x);
                            }
                            if old_names.contains(x) && x != filename@ {
                                let j = choose|j: int| 0 <= j < old_names.len() && old_names[j] == x;
                                assert(j != k);
                                let j2 = if j < k { j } else { j - 1 };
                                assert(n[j2] == x);
                            }
                        }
                    }
                }
                return;
            }
            k = k + 1;
        }
        assert(old_names.to_set() =~= old_names.to_set().remove(filename@)) by {
            assert(!old_names.contains(filename@));
        }
    }

    /// The names of the files being loaded, in the order of strings.
    pub fn loading_files(&self) -> (r: Vec<String>)
        requires
            self.wf(),
        ensures
            names(r@) == names(self.loading_files@),
            sorted_names(names(r@)),
    {
        let mut r: Vec<String> = Vec::new();
        let mut i: usize = 0;
        while i < self.loading_files.len()
            invariant
                i <= self.loading_files.len(),
                names(r@) == names(self.loading_files@).subrange(0, i as int),
            decreases self.loading_files.len() - i,
        {
            let x = string_of(&chars_of(self.loading_files[i].as_str()));
            assert(x@ == self.loading_files@[i as int]@);
            let ghost before = r@;
            r.push(x);
            assert(names(r@) =~= names(before).push(x@));
            assert(names(self.loading_files@).subrange(0, i + 1) =~= names(self.loading_files@).subrange(0, i as int).push(x@));
            i = i + 1;
        }
        assert(names(self.loading_files@).subrange(0, i as int) =~= names(self.loading_files@));
        r
    }
}

/// Starting and then finishing the loading of a file leaves the other files
/// being loaded as they were, and that file not loading.
pub proof fn law_start_then_finish(loading: Set<Seq<char>>, name: Seq<char>)
    ensures
        loading.insert(name).remove(name) == loading.remove(name),
{
    assert(loading.insert(name).remove(name) =~= loading.remove(name));
}

} // verus!
