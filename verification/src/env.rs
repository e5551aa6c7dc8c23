//! Chained name-to-value scopes.
//!
//! Closures may outlive the call frame that created their scope, and several
//! closures may share one scope, so scopes live in an arena: `Environment`
//! owns every scope record, and a scope is addressed by its index. Each
//! scope's `parent` points at the enclosing scope, always at a smaller
//! index, so lookup chains terminate.

use vstd::prelude::*;

use crate::object::{clone_object, Object, SpecObject};
use crate::token::str_eq;

verus! {

/// One name bound to one value.
#[derive(Debug)]
pub struct Binding {
    pub name: String,
    pub value: Object,
}

/// One scope record: its bindings, newest last, and the index of the
/// enclosing scope (`None` for the root scope).
#[derive(Debug)]
pub struct Scope {
    pub bindings: Vec<Binding>,
    pub parent: Option<usize>,
}

/// The mathematical value of a `Scope`.
pub struct SpecScope {
    pub bindings: Seq<(Seq<char>, SpecObject)>,
    pub parent: Option<int>,
}

/// The mirror of a binding list, elementwise.
pub open spec fn spec_view_bindings(s: Seq<Binding>) -> Seq<(Seq<char>, SpecObject)>
    decreases s,
{
    if s.len() == 0 {
        Seq::empty()
    } else {
        spec_view_bindings(s.drop_last()).push((s.last().name@, s.last().value@))
    }
}

/// Appending one binding appends its mirror.
pub proof fn lemma_view_bindings_push(s: Seq<Binding>, b: Binding)
    ensures
        spec_view_bindings(s.push(b)) == spec_view_bindings(s).push((b.name@, b.value@)),
{
    assert(s.push(b).drop_last() =~= s);
    assert(s.push(b).last() == b);
}

/// The elementwise mirror keeps the length.
pub proof fn lemma_view_bindings_len(s: Seq<Binding>)
    ensures
        spec_view_bindings(s).len() == s.len(),
    decreases s.len(),
{
    if s.len() > 0 {
        lemma_view_bindings_len(s.drop_last());
    }
}

/// The elementwise mirror, pointwise.
pub proof fn lemma_view_bindings_index(s: Seq<Binding>, i: int)
    requires
        0 <= i < s.len(),
    ensures
        spec_view_bindings(s).len() == s.len(),
        spec_view_bindings(s)[i] == (s[i].name@, s[i].value@),
    decreases s.len(),
{
    lemma_view_bindings_len(s);
    if i + 1 < s.len() {
        assert(s.drop_last()[i] == s[i]);
        lemma_view_bindings_index(s.drop_last(), i);
    }
}

impl View for Scope {
    type V = SpecScope;

    open spec fn view(&self) -> SpecScope {
        SpecScope {
            bindings: spec_view_bindings(self.bindings@),
            parent: match self.parent {
                Some(p) => Some(p as int),
                None => None,
            },
        }
    }
}

/// The mirror of the whole arena, elementwise.
pub open spec fn spec_view_scopes(s: Seq<Scope>) -> Seq<SpecScope>
    decreases s,
{
    if s.len() == 0 {
        Seq::empty()
    } else {
        spec_view_scopes(s.drop_last()).push(s.last()@)
    }
}

/// Appending one scope appends its mirror.
pub proof fn lemma_view_scopes_push(s: Seq<Scope>, e: Scope)
    ensures
        spec_view_scopes(s.push(e)) == spec_view_scopes(s).push(e@),
{
    assert(s.push(e).drop_last() =~= s);
    assert(s.push(e).last() == e);
}

/// The elementwise mirror keeps the length.
pub proof fn lemma_view_scopes_len(s: Seq<Scope>)
    ensures
        spec_view_scopes(s).len() == s.len(),
    decreases s.len(),
{
    if s.len() > 0 {
        lemma_view_scopes_len(s.drop_last());
    }
}

/// The elementwise mirror, pointwise.
pub proof fn lemma_view_scopes_index(s: Seq<Scope>, i: int)
    requires
        0 <= i < s.len(),
    ensures
        spec_view_scopes(s).len() == s.len(),
        spec_view_scopes(s)[i] == s[i]@,
    decreases s.len(),
{
    lemma_view_scopes_len(s);
    if i + 1 < s.len() {
        assert(s.drop_last()[i] == s[i]);
        lemma_view_scopes_index(s.drop_last(), i);
    }
}

/// Updating one scope updates its mirror pointwise.
pub proof fn lemma_view_scopes_update(s: Seq<Scope>, i: int, e: Scope)
    requires
        0 <= i < s.len(),
    ensures
        spec_view_scopes(s.update(i, e)) == spec_view_scopes(s).update(i, e@),
    decreases s.len(),
{
    lemma_view_scopes_len(s);
    lemma_view_scopes_len(s.update(i, e));
    assert forall|j: int| 0 <= j < s.len() implies spec_view_scopes(s.update(i, e))[j]
        == spec_view_scopes(s).update(i, e@)[j] by {
        lemma_view_scopes_index(s.update(i, e), j);
        lemma_view_scopes_index(s, j);
    }
    assert(spec_view_scopes(s.update(i, e)) =~= spec_view_scopes(s).update(i, e@));
}

/// Lookup in one scope's own bindings: the newest binding of the name wins.
pub open spec fn spec_assoc(bindings: Seq<(Seq<char>, SpecObject)>, name: Seq<char>) -> Option<
    SpecObject,
>
    decreases bindings.len(),
{
    if bindings.len() == 0 {
        None
    } else if bindings.last().0 == name {
        Some(bindings.last().1)
    } else {
        spec_assoc(bindings.drop_last(), name)
    }
}

/// Lookup along the scope chain: the innermost scope that binds the name
/// wins; an unbound name yields `None`. The walk follows only parent links
/// that point backwards in the arena (every link the library creates does).
pub open spec fn spec_env_lookup(env: Seq<SpecScope>, scope: int, name: Seq<char>) -> Option<
    SpecObject,
>
    decreases scope,
        when 0 <= scope
{
    if scope >= env.len() {
        None
    } else {
        match spec_assoc(env[scope].bindings, name) {
            Some(v) => Some(v),
            None => match env[scope].parent {
                Some(p) => if 0 <= p < scope {
                    spec_env_lookup(env, p, name)
                } else {
                    None
                },
                None => None,
            },
        }
    }
}

/// The arena after binding `name` to `v` in exactly the scope `scope`.
pub open spec fn spec_env_set(env: Seq<SpecScope>, scope: int, name: Seq<char>, v: SpecObject) -> Seq<
    SpecScope,
> {
    env.update(
        scope,
        SpecScope { bindings: env[scope].bindings.push((name, v)), parent: env[scope].parent },
    )
}

/// The arena of every scope created during an evaluation. The root scope is
/// index `0`.
#[derive(Debug)]
pub struct Environment {
    scopes: Vec<Scope>,
}

impl View for Environment {
    type V = Seq<SpecScope>;

    closed spec fn view(&self) -> Seq<SpecScope> {
        spec_view_scopes(self.scopes@)
    }
}

impl Environment {
    /// A fresh environment holding only the root scope, with no bindings.
    pub fn new() -> (env: Environment)
        ensures
            env@.len() == 1,
            env@[0].bindings.len() == 0,
            env@[0].parent is None,
    {
        let mut scopes: Vec<Scope> = Vec::new();
        scopes.push(Scope { bindings: Vec::new(), parent: None });
        let env = Environment { scopes };
        proof {
            let s = env.scopes@;
            assert(s.drop_last() =~= Seq::<Scope>::empty());
            assert(spec_view_scopes(Seq::<Scope>::empty()).len() == 0);
            assert(spec_view_scopes(s) =~= seq![s[0]@]);
            assert(spec_view_bindings(s[0].bindings@).len() == 0);
        }
        env
    }

    /// The number of scopes in the arena.
    pub fn scope_count(&self) -> (n: usize)
        ensures
            n == self@.len(),
    {
        proof {
            lemma_view_scopes_len(self.scopes@);
        }
        self.scopes.len()
    }

    /// A brand-new scope whose enclosing scope is `outer`; its index is
    /// returned. Existing scopes and their bindings are untouched.
    pub fn new_enclosed_environment(&mut self, outer: usize) -> (idx: usize)
        ensures
            idx == old(self)@.len(),
            final(self)@ == old(self)@.push(
                SpecScope { bindings: Seq::empty(), parent: Some(outer as int) },
            ),
    {
        proof {
            lemma_view_scopes_len(self.scopes@);
        }
        let idx = self.scopes.len();
        let ghost pre = self.scopes@;
        let fresh = Scope { bindings: Vec::new(), parent: Some(outer) };
        let ghost freshg = fresh;
        self.scopes.push(fresh);
        proof {
            lemma_view_scopes_push(pre, freshg);
            assert(spec_view_bindings(Seq::<Binding>::empty()) =~= Seq::<(
                Seq<char>,
                SpecObject,
            )>::empty());
        }
        idx
    }

    /// The value bound to `name`, found by walking from `scope` outward
    /// through the enclosing scopes; `None` if no scope binds it.
    pub fn get(&self, scope: usize, name: &str) -> (r: Option<Object>)
        requires
            scope < self@.len(),
        ensures
            match (r, spec_env_lookup(self@, scope as int, name@)) {
                (Some(o), Some(m)) => o@ == m,
                (None, None) => true,
                _ => false,
            },
    {
        proof {
            lemma_view_scopes_len(self.scopes@);
        }
        let mut cur: usize = scope;
        loop
            invariant
                cur < self@.len(),
                self@.len() == self.scopes@.len(),
                spec_env_lookup(self@, scope as int, name@) == spec_env_lookup(
                    self@,
                    cur as int,
                    name@,
                ),
            decreases cur,
        {
            proof {
                lemma_view_scopes_index(self.scopes@, cur as int);
            }
            let sc = &self.scopes[cur];
            let mut j: usize = sc.bindings.len();
            proof {
                lemma_view_bindings_len(sc.bindings@);
                assert(spec_view_bindings(sc.bindings@).subrange(
                    0,
                    sc.bindings@.len() as int,
                ) =~= spec_view_bindings(sc.bindings@));
            }
            loop
                invariant
                    j <= sc.bindings@.len(),
                    spec_view_bindings(sc.bindings@).len() == sc.bindings@.len(),
                    spec_assoc(spec_view_bindings(sc.bindings@), name@) == spec_assoc(
                        spec_view_bindings(sc.bindings@).subrange(0, j as int),
                        name@,
                    ),
                ensures
                    j <= sc.bindings@.len(),
                    spec_assoc(spec_view_bindings(sc.bindings@), name@) == if j > 0 {
                        Some(spec_view_bindings(sc.bindings@)[j - 1].1)
                    } else {
                        None
                    },
                    j > 0 ==> spec_view_bindings(sc.bindings@)[j - 1].0 == name@,
                decreases j,
            {
                if j == 0 {
                    proof {
                        assert(spec_view_bindings(sc.bindings@).subrange(0, 0) =~= Seq::<(
                            Seq<char>,
                            SpecObject,
                        )>::empty());
                    }
                    break ;
                }
                let ghost whole = spec_view_bindings(sc.bindings@);
                proof {
                    lemma_view_bindings_index(sc.bindings@, j as int - 1);
                    assert(whole.subrange(0, j as int).last() == whole[j as int - 1]);
                    assert(whole.subrange(0, j as int).drop_last() =~= whole.subrange(
                        0,
                        j as int - 1,
                    ));
                }
                if str_eq(sc.bindings[j - 1].name.as_str(), name) {
                    break ;
                }
                j = j - 1;
            }
            if j > 0 {
                proof {
                    lemma_view_bindings_index(sc.bindings@, j as int - 1);
                }
                return Some(clone_object(&sc.bindings[j - 1].value));
            }
            match sc.parent {
                Some(p) => {
                    if p < cur {
                        cur = p;
                    } else {
                        return None;
                    }
                },
                None => {
                    return None;
                },
            }
        }
    }

    /// Bind `name` to `val` in exactly the scope `scope`; enclosing scopes
    /// are never touched, and the newest binding of a name shadows older
    /// ones in the same scope.
    pub fn set(&mut self, scope: usize, name: String, val: Object)
        requires
            scope < old(self)@.len(),
        ensures
            final(self)@ == spec_env_set(old(self)@, scope as int, name@, val@),
    {
        proof {
            lemma_view_scopes_len(self.scopes@);
            lemma_view_scopes_index(self.scopes@, scope as int);
        }
        let ghost pre = self.scopes@;
        let ghost prev = self.scopes@[scope as int]@;
        let sc = &mut self.scopes[scope];
        let ghost scpre = *sc;
        sc.bindings.push(Binding { name, value: val });
        proof {
            lemma_view_bindings_push(scpre.bindings@, final(sc).bindings@.last());
            let post = self.scopes@;
            assert(post =~= pre.update(scope as int, *final(sc)));
            lemma_view_scopes_update(pre, scope as int, *final(sc));
        }
    }
}

} // verus!
