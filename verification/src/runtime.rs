//! How an application is found, and the count of requests in flight.

use vstd::prelude::*;
use crate::text;
use crate::text::{split_on, split_once, strip_suffix};

verus! {

/// How an application is loaded: the module is imported, the attributes are
/// taken one after the other, and the last one is called if it is a factory.
#[derive(Debug)]
pub struct ImportPlan {
    pub module: String,
    pub attributes: Vec<String>,
    /// An empty attribute follows: loading fails there.
    pub broken: bool,
    pub call: bool,
}

/// The number of pieces before the first empty one.
pub open spec fn filled(pieces: Seq<Seq<char>>) -> nat
    decreases pieces.len(),
{
    if pieces.len() == 0 || pieces[0].len() == 0 {
        0
    } else {
        1 + filled(pieces.skip(1))
    }
}

/// Whether a text is a module and an attribute, both there, around the first
/// colon.
pub open spec fn is_spec(s: Seq<char>, module: Seq<char>, attr: Seq<char>) -> bool {
    &&& s == module.push(':') + attr
    &&& !module.contains(':')
    &&& module.len() > 0
    &&& attr.len() > 0
}

/// The dotted path of an attribute: without the brackets that mark a factory.
pub open spec fn is_path(attr: Seq<char>, path: Seq<char>, call: bool) -> bool {
    if call {
        attr == path + "()"@
    } else {
        attr == path && !"()"@.is_suffix_of(attr)
    }
}

/// A plan does what a specifier says.
pub open spec fn is_plan(plan: ImportPlan, s: Seq<char>) -> bool {
    exists|attr: Seq<char>, path: Seq<char>|
        {
            let pieces = text::split(path, '.');
            &&& #[trigger] is_spec(s, plan.module@, attr)
            &&& #[trigger] is_path(attr, path, plan.call)
            &&& text::texts(plan.attributes@) == pieces.take(filled(pieces) as int)
            &&& plan.broken == (filled(pieces) < pieces.len())
        }
}

/// The text of the error where a specifier has not the right form.
pub const SPEC_FORM: &'static str = "app must be in the form 'module:attr', e.g. 'app:app'";

/// The text of the error where an attribute is empty.
pub const EMPTY_ATTRIBUTE: &'static str = "invalid empty attribute in app spec";

proof fn filled_split(pieces: Seq<Seq<char>>, n: int)
    requires
        0 <= n <= pieces.len(),
        forall|j: int| 0 <= j < n ==> (#[trigger] pieces[j]).len() > 0,
    ensures
        filled(pieces) == n + filled(pieces.skip(n)),
    decreases n,
{
    if n == 0 {
        assert(pieces.skip(0) =~= pieces);
    } else {
        assert(pieces[0].len() > 0);
        assert forall|j: int| 0 <= j < n - 1 implies (#[trigger] pieces.skip(1)[j]).len() > 0 by {
            assert(pieces[j + 1].len() > 0);
        }
        filled_split(pieces.skip(1), n - 1);
        assert(pieces.skip(1).skip(n - 1) =~= pieces.skip(n));
    }
}

/// How to load the application that a specifier `module:attr` names. The
/// attribute may be a dotted path, and may end in `()`: what it names is then
/// called. There is no plan where the specifier lacks the colon, the module or
/// the attribute.
pub fn import_app(spec: &str) -> (r: Option<ImportPlan>)
    ensures
        r is Some <==> exists|module: Seq<char>, attr: Seq<char>|
            #[trigger] is_spec(spec@, module, attr),
        r matches Some(plan) ==> is_plan(plan, spec@),
{
    let (module, attr) = match split_once(spec, ':') {
        None => {
            proof {
                assert forall|m: Seq<char>, a: Seq<char>| !(#[trigger] is_spec(spec@, m, a)) by {
                    if is_spec(spec@, m, a) {
                        assert(spec@[m.len() as int] == ':');
                        assert(spec@.contains(':'));
                    }
                }
            }
            return None;
        },
        Some(p) => p,
    };
    if module.as_str().is_empty() || attr.as_str().is_empty() {
        proof {
            assert forall|m: Seq<char>, a: Seq<char>| !(#[trigger] is_spec(spec@, m, a)) by {
                if is_spec(spec@, m, a) {
                    same_cut(spec@, m, a, module@, attr@);
                }
            }
        }
        return None;
    }
    assert(is_spec(spec@, module@, attr@));
    let (path, call) = match strip_suffix(attr.as_str(), "()") {
        Some(p) => (p, true),
        None => (attr.clone(), false),
    };
    assert(is_path(attr@, path@, call));
    let pieces = split_on(path.as_str(), '.');
    let ghost all = text::split(path@, '.');
    let mut attributes: Vec<String> = Vec::new();
    let mut i: usize = 0;
    while i < pieces.len() && !pieces[i].as_str().is_empty()
        invariant
            i <= pieces@.len(),
            text::texts(pieces@) == all,
            text::texts(attributes@) == all.take(i as int),
            forall|j: int| 0 <= j < i ==> (#[trigger] all[j]).len() > 0,
        decreases pieces@.len() - i,
    {
        let ghost before = attributes@;
        assert(all[i as int] == pieces@[i as int]@);
        attributes.push(pieces[i].clone());
        proof {
            let piece = pieces@[i as int]@;
            assert(text::texts(attributes@) =~= text::texts(before).push(piece));
            assert(all.take(i + 1) =~= all.take(i as int).push(piece));
        }
        i += 1;
    }
    proof {
        assert(pieces@.len() == all.len());
        filled_split(all, i as int);
        if i < pieces@.len() {
            assert(all[i as int] == pieces@[i as int]@);
            assert(all.skip(i as int)[0] == all[i as int]);
        }
    }
    let broken = i < pieces.len();
    let plan = ImportPlan { module, attributes, broken, call };
    proof {
        assert(is_spec(spec@, plan.module@, attr@) && is_path(attr@, path@, plan.call));
        assert(filled(all) == i);
        assert(is_plan(plan, spec@));
    }
    Some(plan)
}

/// The first colon cuts a text in one way only.
proof fn same_cut(s: Seq<char>, m: Seq<char>, a: Seq<char>, m2: Seq<char>, a2: Seq<char>)
    requires
        s == m.push(':') + a,
        !m.contains(':'),
        s == m2.push(':') + a2,
        !m2.contains(':'),
    ensures
        m == m2,
        a == a2,
{
    if m.len() < m2.len() {
        assert(s[m.len() as int] == ':');
        assert(m2[m.len() as int] == s[m.len() as int]);
        assert(m2.contains(':'));
    } else if m2.len() < m.len() {
        assert(s[m2.len() as int] == ':');
        assert(m[m2.len() as int] == s[m2.len() as int]);
        assert(m.contains(':'));
    }
    assert(m =~= s.take(m.len() as int));
    assert(m2 =~= s.take(m2.len() as int));
    assert(a =~= s.skip((m.len() + 1) as int));
    assert(a2 =~= s.skip((m2.len() + 1) as int));
}

/// A specifier has one plan at most.
pub proof fn plan_is_unique(s: Seq<char>, p: ImportPlan, q: ImportPlan)
    requires
        is_plan(p, s),
        is_plan(q, s),
    ensures
        p.module@ == q.module@,
        text::texts(p.attributes@) == text::texts(q.attributes@),
        p.broken == q.broken,
        p.call == q.call,
{
    let (a, pa) = choose|attr: Seq<char>, path: Seq<char>|
        {
            let pieces = text::split(path, '.');
            &&& #[trigger] is_spec(s, p.module@, attr)
            &&& #[trigger] is_path(attr, path, p.call)
            &&& text::texts(p.attributes@) == pieces.take(filled(pieces) as int)
            &&& p.broken == (filled(pieces) < pieces.len())
        };
    let (b, pb) = choose|attr: Seq<char>, path: Seq<char>|
        {
            let pieces = text::split(path, '.');
            &&& #[trigger] is_spec(s, q.module@, attr)
            &&& #[trigger] is_path(attr, path, q.call)
            &&& text::texts(q.attributes@) == pieces.take(filled(pieces) as int)
            &&& q.broken == (filled(pieces) < pieces.len())
        };
    same_cut(s, p.module@, a, q.module@, b);
    let brackets = "()"@;
    if p.call {
        assert((pa + brackets).subrange(pa.len() as int, a.len() as int) =~= brackets);
        assert(brackets.is_suffix_of(a));
    }
    if q.call {
        assert((pb + brackets).subrange(pb.len() as int, b.len() as int) =~= brackets);
        assert(brackets.is_suffix_of(b));
    }
    if p.call && q.call {
        assert(pa =~= a.take(a.len() - brackets.len()));
        assert(pb =~= a.take(a.len() - brackets.len()));
    }
}

/// What stands before and after the first colon is a specifier as soon as both
/// are there, and only then; the module ends at the first colon.
pub proof fn both_parts_are_there(module: Seq<char>, attr: Seq<char>, other: Seq<char>, rest: Seq<char>)
    requires
        !module.contains(':'),
    ensures
        is_spec(module.push(':') + attr, module, attr) <==> module.len() > 0 && attr.len() > 0,
        is_spec(module.push(':') + attr, other, rest) ==> other == module && rest == attr,
{
    let s = module.push(':') + attr;
    if is_spec(s, other, rest) {
        same_cut(s, other, rest, module, attr);
    }
}

/// A specifier that is put together from a module, the names of a dotted path
/// and the brackets of a factory is taken apart into just these.
pub proof fn plan_takes_the_specifier_apart(
    plan: ImportPlan,
    module: Seq<char>,
    names: Seq<Seq<char>>,
    call: bool,
)
    requires
        module.len() > 0 && !module.contains(':'),
        names.len() > 0,
        forall|i: int|
            0 <= i < names.len() ==> (#[trigger] names[i]).len() > 0 && !names[i].contains('.'),
        !call ==> !"()"@.is_suffix_of(text::join(names, '.')),
        is_plan(
            plan,
            module.push(':') + if call {
                text::join(names, '.') + "()"@
            } else {
                text::join(names, '.')
            },
        ),
    ensures
        plan.module@ == module,
        text::texts(plan.attributes@) == names,
        plan.call == call,
        !plan.broken,
{
    let path = text::join(names, '.');
    let brackets = "()"@;
    let attr = if call {
        path + brackets
    } else {
        path
    };
    let s = module.push(':') + attr;
    let (a, pa) = choose|attr: Seq<char>, path: Seq<char>|
        {
            let pieces = text::split(path, '.');
            &&& #[trigger] is_spec(s, plan.module@, attr)
            &&& #[trigger] is_path(attr, path, plan.call)
            &&& text::texts(plan.attributes@) == pieces.take(filled(pieces) as int)
            &&& plan.broken == (filled(pieces) < pieces.len())
        };
    same_cut(s, plan.module@, a, module, attr);
    if plan.call {
        assert((pa + brackets).subrange(pa.len() as int, a.len() as int) =~= brackets);
        assert(brackets.is_suffix_of(a));
    }
    if call {
        assert((path + brackets).subrange(path.len() as int, a.len() as int) =~= brackets);
        assert(brackets.is_suffix_of(a));
        assert(pa =~= a.take(a.len() - brackets.len()));
        assert(path =~= a.take(a.len() - brackets.len()));
    }
    assert(pa == path);
    text::join_split(names, '.');
    filled_split(names, names.len() as int);
    assert(names.skip(names.len() as int) =~= Seq::empty());
    assert(names.take(names.len() as int) =~= names);
}

/// Whether the working directory is to be put on the import path: where it is
/// known not to be there.
pub fn insert_cwd(contained: Option<bool>) -> (r: bool)
    ensures
        r == (contained == Some(false)),
{
    matches!(contained, Some(false))
}

/// Whether a loop is to be asked to stop: where it is known to run.
pub fn stop_asyncio_loop(running: Option<bool>) -> (r: bool)
    ensures
        r == (running == Some(true)),
{
    matches!(running, Some(true))
}

/// How often a loop is asked to stop.
pub const STOP_TRIES: usize = 3;

/// Whether a loop is to be asked to stop once more: where an interrupt got in
/// the way, and it was not asked too often. `tries` counts the times so far.
pub fn stop_again(tries: usize, interrupted: bool) -> (r: bool)
    ensures
        r == (interrupted && tries < STOP_TRIES),
{
    interrupted && tries < STOP_TRIES
}

/// Whether a coroutine may be handed to a loop: unless the loop is known to
/// have stopped.
pub fn may_submit(running: Option<bool>) -> (r: bool)
    ensures
        r == (running != Some(false)),
{
    !matches!(running, Some(false))
}

/// One request in flight. Whoever owns the request to its end owns the guard;
/// a worker that drains waits until all guards are released.
#[derive(Debug)]
pub struct FlightGuard {
    seal: (),
}

impl FlightGuard {
    /// Counts a request as in flight.
    pub fn new(counter: &mut usize) -> (r: FlightGuard)
        requires
            *old(counter) < usize::MAX,
        ensures
            *final(counter) == *old(counter) + 1,
    {
        *counter = *counter + 1;
        FlightGuard { seal: () }
    }

    /// The request is over.
    pub fn release(self, counter: &mut usize)
        requires
            *old(counter) > 0,
        ensures
            *final(counter) == *old(counter) - 1,
    {
        *counter = *counter - 1;
    }
}

} // verus!
