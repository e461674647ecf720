//! What the generated loader yields for each declaration under a given
//! environment: the variable's own text when it is present, the declared
//! default when it is absent, and the missing-variable failure when it has
//! neither — in schema order, stopping at the first failure.

use crate::declarative_env_generator::{decls_view, VarView};
use crate::raw_token::text_eq;
use crate::variable_declarations::EnvVariableDeclarations;
use vstd::prelude::*;
use vstd::string::StringExecFns;

verus! {

/// A lookup in the environment, modeled as name/value pairs: the first pair
/// whose name matches, if any.
pub open spec fn env_lookup(env: Seq<(String, String)>, name: Seq<char>) -> Option<Seq<char>>
    decreases env.len(),
{
    if env.len() == 0 {
        None
    } else if env[0].0@ == name {
        Some(env[0].1@)
    } else {
        env_lookup(env.skip(1), name)
    }
}

/// What one declaration resolves to: the environment's text when the variable
/// is present, else the declared default, else the failure carrying the
/// variable's name.
pub open spec fn resolve_entry(v: VarView, env: Seq<(String, String)>) -> Result<
    Seq<char>,
    Seq<char>,
> {
    match env_lookup(env, v.name) {
        Some(t) => Ok(t),
        None => match v.default {
            Some(d) => Ok(d),
            None => Err(v.name),
        },
    }
}

/// What the declarations from position `i` on resolve to, in schema order,
/// stopping at the first failure.
pub open spec fn resolve_values_from(
    ds: Seq<VarView>,
    i: int,
    env: Seq<(String, String)>,
) -> Result<Seq<Seq<char>>, Seq<char>>
    decreases ds.len() - i,
{
    if i < 0 || i >= ds.len() {
        Ok(Seq::empty())
    } else {
        match resolve_entry(ds[i], env) {
            Err(name) => Err(name),
            Ok(t) => match resolve_values_from(ds, i + 1, env) {
                Err(name) => Err(name),
                Ok(rest) => Ok(seq![t] + rest),
            },
        }
    }
}

/// What a whole declaration list resolves to under an environment.
pub open spec fn resolve_values(ds: Seq<VarView>, env: Seq<(String, String)>) -> Result<
    Seq<Seq<char>>,
    Seq<char>,
> {
    resolve_values_from(ds, 0, env)
}

/// The text of each owned string in a list, at the specification level.
pub open spec fn texts_view(vs: Seq<String>) -> Seq<Seq<char>> {
    vs.map_values(|s: String| s@)
}

/// The failure of a variable that is absent from the environment and has no
/// declared default; it carries the variable's name, exactly as the error
/// type the synthesizer emits does.
#[derive(Clone, Debug)]
pub struct RequiredEnvNotFoundError {
    pub key: String,
}

impl RequiredEnvNotFoundError {
    /// Builds the failure for the given variable name.
    pub fn new(key: &str) -> (r: RequiredEnvNotFoundError)
        ensures
            r.key@ == key@,
    {
        RequiredEnvNotFoundError { key: key.to_owned() }
    }

    /// The failure's display text, character for character what the emitted
    /// error type displays.
    pub fn message(&self) -> (r: String)
        ensures
            r@ == "failed to load configuration from env: variable "@ + self.key@
                + " not found and no default value specified"@,
    {
        let mut m: String = "failed to load configuration from env: variable ".to_owned();
        m.append(self.key.as_str());
        m.append(" not found and no default value specified");
        m
    }
}

/// Finds the value of the named variable: the first pair with that name.
pub fn lookup_env(env: &Vec<(String, String)>, name: &str) -> (r: Option<String>)
    ensures
        match r {
            Some(t) => env_lookup(env@, name@) == Some(t@),
            None => env_lookup(env@, name@) is None,
        },
{
    let n = env.len();
    let mut i: usize = 0;
    proof {
        assert(env@.skip(0) =~= env@);
    }
    while i < n
        invariant
            n == env@.len(),
            i <= n,
            env_lookup(env@, name@) == env_lookup(env@.skip(i as int), name@),
        decreases n - i,
    {
        proof {
            assert(env@.skip(i as int)[0] == env@[i as int]);
            assert(env@.skip(i as int).skip(1) =~= env@.skip(i + 1));
        }
        let pair = &env[i];
        if text_eq(&pair.0, name) {
            return Some(pair.1.clone());
        }
        i = i + 1;
    }
    proof {
        assert(env@.skip(n as int) =~= Seq::<(String, String)>::empty());
    }
    None
}

/// Resolves every declaration in schema order: the environment's text when
/// the variable is present, else the declared default; the first variable
/// with neither fails the whole load with its name.
pub fn resolve_env_values(decls: &EnvVariableDeclarations, env: &Vec<(String, String)>) -> (r:
    Result<Vec<String>, RequiredEnvNotFoundError>)
    ensures
        match r {
            Ok(vals) => resolve_values(decls_view(decls.declarations@), env@) == Ok::<
                Seq<Seq<char>>,
                Seq<char>,
            >(texts_view(vals@)),
            Err(e) => resolve_values(decls_view(decls.declarations@), env@) == Err::<
                Seq<Seq<char>>,
                Seq<char>,
            >(e.key@),
        },
{
    let ghost dv = decls_view(decls.declarations@);
    let n = decls.declarations.len();
    let mut out: Vec<String> = Vec::new();
    let mut i: usize = 0;
    while i < n
        invariant
            dv == decls_view(decls.declarations@),
            n == dv.len(),
            i <= n,
            resolve_values(dv, env@) == match resolve_values_from(dv, i as int, env@) {
                Ok(rest) => Ok::<Seq<Seq<char>>, Seq<char>>(texts_view(out@) + rest),
                Err(name) => Err::<Seq<Seq<char>>, Seq<char>>(name),
            },
        decreases n - i,
    {
        let d = &decls.declarations[i];
        let looked = lookup_env(env, d.name.as_str());
        let chosen: String = match looked {
            Some(t) => t,
            None => {
                match &d.default_value {
                    Some(dd) => dd.clone(),
                    None => {
                        proof {
                            assert(resolve_entry(dv[i as int], env@) == Err::<Seq<char>, Seq<char>>(
                                dv[i as int].name,
                            ));
                        }
                        return Err(RequiredEnvNotFoundError { key: d.name.clone() });
                    },
                }
            },
        };
        proof {
            assert(resolve_entry(dv[i as int], env@) == Ok::<Seq<char>, Seq<char>>(chosen@));
        }
        let ghost ch = chosen@;
        let ghost tv_old = texts_view(out@);
        out.push(chosen);
        proof {
            let prev = resolve_values_from(dv, i as int, env@);
            let restr = resolve_values_from(dv, i + 1, env@);
            match restr {
                Ok(rest) => {
                    assert(prev == Ok::<Seq<Seq<char>>, Seq<char>>(seq![ch] + rest));
                    assert(texts_view(out@) =~= tv_old.push(ch));
                    assert(tv_old + (seq![ch] + rest) =~= texts_view(out@) + rest);
                },
                Err(name) => {
                    assert(prev == Err::<Seq<Seq<char>>, Seq<char>>(name));
                },
            }
        }
        i = i + 1;
    }
    proof {
        assert(texts_view(out@) + Seq::<Seq<char>>::empty() =~= texts_view(out@));
    }
    Ok(out)
}

/// Law: a declaration with no default, whose variable is absent from the
/// environment, resolves to the missing-variable failure carrying exactly
/// that declaration's name — whatever its kind or description.
pub proof fn lemma_missing_without_default(v: VarView, env: Seq<(String, String)>)
    requires
        env_lookup(env, v.name) is None,
        v.default is None,
    ensures
        resolve_entry(v, env) == Err::<Seq<char>, Seq<char>>(v.name),
{
}

/// Law: a declaration with a default, whose variable is absent from the
/// environment, resolves to the default text — the text the generated loader
/// then parses as the declared kind, failing the call if that parse fails.
pub proof fn lemma_default_used_when_absent(v: VarView, env: Seq<(String, String)>, d: Seq<char>)
    requires
        env_lookup(env, v.name) is None,
        v.default == Some(d),
    ensures
        resolve_entry(v, env) == Ok::<Seq<char>, Seq<char>>(d),
{
}

/// Law: a present variable resolves to the environment's text, and the
/// declared default plays no part: a declaration differing only in its
/// default resolves identically.
pub proof fn lemma_environment_wins(v: VarView, w: VarView, env: Seq<(String, String)>, t: Seq<
    char,
>)
    requires
        env_lookup(env, v.name) == Some(t),
        w.name == v.name,
    ensures
        resolve_entry(v, env) == Ok::<Seq<char>, Seq<char>>(t),
        resolve_entry(v, env) == resolve_entry(w, env),
{
}

/// Law: the load fails on the first declaration that is both absent and
/// default-less, and the failure carries that declaration's name.
pub proof fn lemma_first_missing_fails(ds: Seq<VarView>, env: Seq<(String, String)>, i: int)
    requires
        0 <= i < ds.len(),
        forall|j: int| 0 <= j < i ==> (#[trigger] resolve_entry(ds[j], env)) is Ok,
        resolve_entry(ds[i], env) is Err,
    ensures
        resolve_values(ds, env) == Err::<Seq<Seq<char>>, Seq<char>>(ds[i].name),
{
    lemma_first_missing_fails_from(ds, env, 0, i);
}

proof fn lemma_first_missing_fails_from(ds: Seq<VarView>, env: Seq<(String, String)>, k: int, i: int)
    requires
        0 <= k <= i < ds.len(),
        forall|j: int| k <= j < i ==> (#[trigger] resolve_entry(ds[j], env)) is Ok,
        resolve_entry(ds[i], env) is Err,
    ensures
        resolve_values_from(ds, k, env) == Err::<Seq<Seq<char>>, Seq<char>>(ds[i].name),
    decreases i - k,
{
    if k == i {
    } else {
        lemma_first_missing_fails_from(ds, env, k + 1, i);
    }
}

} // verus!
