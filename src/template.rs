//! Strict template rendering, where a variable that the template uses and
//! the context lacks is an error.
use vstd::prelude::*;

verus! {

/// The view of a list of string pairs.
pub open spec fn pairs_view(v: Seq<(String, String)>) -> Seq<(Seq<char>, Seq<char>)> {
    v.map_values(|p: (String, String)| (p.0@, p.1@))
}

/// A copy of a list of string pairs.
pub fn clone_pairs(v: &Vec<(String, String)>) -> (r: Vec<(String, String)>)
    ensures
        pairs_view(r@) == pairs_view(v@),
{
    let mut out: Vec<(String, String)> = Vec::new();
    let mut i: usize = 0;
    while i < v.len()
        invariant
            i <= v@.len(),
            pairs_view(out@) =~= pairs_view(v@).subrange(0, i as int),
        decreases v.len() - i,
    {
        let ghost before = out@;
        out.push((v[i].0.clone(), v[i].1.clone()));
        assert(pairs_view(out@) =~= pairs_view(before).push((v@[i as int].0@, v@[i as int].1@)));
        i = i + 1;
    }
    out
}

/// What minijinja renders for `template` with the variables `vars` in strict
/// mode, or `None` where it reports an error.
pub uninterp spec fn render_of(template: Seq<char>, vars: Seq<(Seq<char>, Seq<char>)>) -> Option<
    Seq<char>,
>;

/// Relies on minijinja's `Environment::render_str` with
/// `UndefinedBehavior::Strict`: the output, or the failure, is a function of
/// the template and of the variables.
#[verifier::external_body]
pub(crate) fn render_strict(template: &str, vars: &Vec<(String, String)>) -> (r: Option<String>)
    ensures
        r is Some <==> render_of(template@, pairs_view(vars@)) is Some,
        r is Some ==> r->Some_0@ == render_of(template@, pairs_view(vars@))->Some_0,
{
    let mut env = minijinja::Environment::new();
    env.set_undefined_behavior(minijinja::UndefinedBehavior::Strict);
    let ctx: std::collections::BTreeMap<&str, &str> =
        vars.iter().map(|p| (p.0.as_str(), p.1.as_str())).collect();
    env.render_str(template, ctx).ok()
}

} // verus!
