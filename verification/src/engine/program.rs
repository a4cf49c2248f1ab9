//! The GL side of a linked shader program, with its caches of attribute and
//! uniform locations.
use vstd::prelude::*;
use std::rc::Rc;
use crate::glsl::token::string_eq;
use crate::text::{chars_of, string_of};
use crate::webgl::{WebGLProgram, WebGLUniformLocation};

verus! {

/// A linked program, the attribute locations looked up so far and the uniform
/// locations looked up so far, by name.
#[derive(Debug)]
pub struct ShaderProgramGLState {
    pub prog: WebGLProgram,
    pub coord_map: Vec<(String, u32)>,
    pub uniform_map: Vec<(String, Rc<WebGLUniformLocation>)>,
}

/// The first entry for the name `s` in `v[k..]`.
pub open spec fn first_entry<V>(v: Seq<(String, V)>, s: Seq<char>, k: int) -> Option<V>
    decreases v.len() - k,
{
    if !(0 <= k < v.len()) {
        None
    } else if v[k].0@ == s {
        Some(v[k].1)
    } else {
        first_entry(v, s, k + 1)
    }
}

fn find_entry<V>(v: &Vec<(String, V)>, s: &String) -> (r: Option<usize>)
    ensures
        match r {
            Some(k) => k < v@.len() && first_entry(v@, s@, 0) == Some(v@[k as int].1),
            None => first_entry(v@, s@, 0) is None,
        },
{
    let mut k: usize = 0;
    while k < v.len()
        invariant
            k <= v.len(),
            first_entry(v@, s@, 0) == first_entry(v@, s@, k as int),
        decreases v.len() - k,
    {
        if string_eq(&v[k].0, s) {
            return Some(k);
        }
        k = k + 1;
    }
    None
}

proof fn lemma_first_entry_push<V>(v: Seq<(String, V)>, e: (String, V), s: Seq<char>, k: int)
    requires
        0 <= k <= v.len(),
        first_entry(v, s, k) is None,
    ensures
        first_entry(v.push(e), s, k) == (if e.0@ == s { Some(e.1) } else { None }),
    decreases v.len() - k,
{
    let w = v.push(e);
    if k < v.len() {
        assert(w[k] == v[k]);
        lemma_first_entry_push(v, e, s, k + 1);
    } else {
        assert(first_entry(w, s, k + 1) is None);
    }
}

impl ShaderProgramGLState {
    /// The state of the linked program `prog`: the locations of the attributes
    /// `aVertexPosition`, `aVertexNormal` and `aTextureCoord` are looked up by
    /// `attrib`, in that order, each cached and handed to `enable` as soon as
    /// it is known; then the location of the uniform `uSampler` is looked up by
    /// `uniform` and cached.
    pub fn new<FA, FE, FU>(prog: WebGLProgram, attrib: FA, enable: FE, uniform: FU) -> (r: ShaderProgramGLState)
        where
            FA: Fn(&str) -> u32,
            FE: Fn(u32),
            FU: FnOnce(&str) -> WebGLUniformLocation,
        requires
            forall|s: &str| #[trigger] attrib.requires((s,)),
            forall|c: u32| #[trigger] enable.requires((c,)),
            forall|s: &str| #[trigger] uniform.requires((s,)),
        ensures
            r.prog == prog,
            r.coord_map@.len() == 3,
            r.coord_map@[0].0@ == "aVertexPosition"@,
            attrib.ensures(("aVertexPosition",), r.coord_map@[0].1),
            enable.ensures((r.coord_map@[0].1,), ()),
            r.coord_map@[1].0@ == "aVertexNormal"@,
            attrib.ensures(("aVertexNormal",), r.coord_map@[1].1),
            enable.ensures((r.coord_map@[1].1,), ()),
            r.coord_map@[2].0@ == "aTextureCoord"@,
            attrib.ensures(("aTextureCoord",), r.coord_map@[2].1),
            enable.ensures((r.coord_map@[2].1,), ()),
            r.uniform_map@.len() == 1,
            r.uniform_map@[0].0@ == "uSampler"@,
            uniform.ensures(("uSampler",), *r.uniform_map@[0].1),
    {
        let mut coord_map: Vec<(String, u32)> = Vec::new();
        let pcoord = attrib("aVertexPosition");
        coord_map.push((string_of(&chars_of("aVertexPosition")), pcoord));
        enable(pcoord);
        let ncoord = attrib("aVertexNormal");
        coord_map.push((string_of(&chars_of("aVertexNormal")), ncoord));
        enable(ncoord);
        let texcoord = attrib("aTextureCoord");
        coord_map.push((string_of(&chars_of("aTextureCoord")), texcoord));
        enable(texcoord);
        let sampler = Rc::new(uniform("uSampler"));
        let mut uniform_map: Vec<(String, Rc<WebGLUniformLocation>)> = Vec::new();
        uniform_map.push((string_of(&chars_of("uSampler")), sampler));
        ShaderProgramGLState { prog, coord_map, uniform_map }
    }

    /// The location of the attribute `s`: the cached one, or else the one
    /// `fetch` gives, which is then cached.
    pub fn get_coord<F: FnOnce() -> u32>(&mut self, s: &str, fetch: F) -> (r: u32)
        requires
            call_requires(fetch, ()),
        ensures
            final(self).prog == old(self).prog,
            final(self).uniform_map@ == old(self).uniform_map@,
            match first_entry(old(self).coord_map@, s@, 0) {
                Some(c) => r == c && final(self).coord_map@ == old(self).coord_map@,
                None => call_ensures(fetch, (), r) && first_entry(final(self).coord_map@, s@, 0) == Some(r)
                    && final(self).coord_map@.len() == old(self).coord_map@.len() + 1
                    && final(self).coord_map@.drop_last() == old(self).coord_map@,
            },
    {
        let name = string_of(&chars_of(s));
        match find_entry(&self.coord_map, &name) {
            Some(k) => self.coord_map[k].1,
            None => {
                let coord = fetch();
                let ghost before = self.coord_map@;
                self.coord_map.push((name, coord));
                proof {
                    lemma_first_entry_push(before, self.coord_map@.last(), s@, 0);
                    assert(self.coord_map@.drop_last() =~= before);
                }
                coord
            },
        }
    }

    /// The location of the uniform `s`: the cached one, or else the one
    /// `fetch` gives, which is then cached.
    pub fn get_uniform<F: FnOnce() -> WebGLUniformLocation>(&mut self, s: &str, fetch: F) -> (r: Rc<WebGLUniformLocation>)
        requires
            call_requires(fetch, ()),
        ensures
            final(self).prog == old(self).prog,
            final(self).coord_map@ == old(self).coord_map@,
            match first_entry(old(self).uniform_map@, s@, 0) {
                Some(u) => r == u && final(self).uniform_map@ == old(self).uniform_map@,
                None => call_ensures(fetch, (), *r) && first_entry(final(self).uniform_map@, s@, 0) == Some(r)
                    && final(self).uniform_map@.len() == old(self).uniform_map@.len() + 1
                    && final(self).uniform_map@.drop_last() == old(self).uniform_map@,
            },
    {
        let name = string_of(&chars_of(s));
        match find_entry(&self.uniform_map, &name) {
            Some(k) => self.uniform_map[k].1.clone(),
            None => {
                let u = Rc::new(fetch());
                let ghost before = self.uniform_map@;
                self.uniform_map.push((name, u.clone()));
                proof {
                    lemma_first_entry_push(before, self.uniform_map@.last(), s@, 0);
                    assert(self.uniform_map@.drop_last() =~= before);
                }
                u
            },
        }
    }
}

} // verus!
