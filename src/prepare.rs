use vstd::prelude::*;

verus! {

/// The names joined into one list, separated by commas.
pub open spec fn joined(names: Seq<Seq<char>>) -> Seq<char>
    decreases names.len(),
{
    if names.len() == 0 {
        Seq::empty()
    } else if names.len() == 1 {
        names[0]
    } else {
        joined(names.drop_last()) + seq![','] + names.last()
    }
}

/// The comma-separated segments of a list, as a reader of the list splits it.
pub open spec fn segments(s: Seq<char>) -> Seq<Seq<char>>
    decreases s.len(),
{
    if s.len() == 0 {
        seq![Seq::empty()]
    } else {
        let p = segments(s.drop_last());
        if s.last() == ',' {
            p.push(Seq::empty())
        } else {
            p.update(p.len() - 1, p.last().push(s.last()))
        }
    }
}

pub open spec fn comma_free(s: Seq<char>) -> bool {
    forall|i: int| 0 <= i < s.len() ==> s[i] != ','
}

/// The views of a list of names.
pub open spec fn name_views(names: Seq<&str>) -> Seq<Seq<char>> {
    names.map_values(|n: &str| n@)
}

/// The value of the `asyncify-imports` pass argument: the names of the imports
/// that may suspend, comma-joined.
pub fn asyncify_imports_argument(names: &[&str]) -> (r: String)
    ensures
        r@ == joined(name_views(names@)),
{
    let mut out = String::new();
    let mut i: usize = 0;
    while i < names.len()
        invariant
            i <= names@.len(),
            out@ == joined(name_views(names@.take(i as int))),
        decreases names@.len() - i,
    {
        let ghost before = names@.take(i as int);
        let ghost prev = out@;
        if i > 0 {
            out.append(",");
        }
        out.append(names[i]);
        i = i + 1;
        proof {
            let now = names@.take(i as int);
            assert(now.drop_last() =~= before);
            assert(name_views(now).drop_last() =~= name_views(before));
            assert(name_views(now).last() == names@[i - 1]@);
            reveal_strlit(",");
            if i == 1 {
                assert(name_views(before).len() == 0);
                assert(out@ =~= names@[0]@);
            } else {
                assert(out@ =~= prev + seq![','] + names@[i - 1]@);
            }
        }
    }
    assert(names@.take(names@.len() as int) =~= names@);
    out
}

/// The pass argument that lists the imports which may suspend.
pub const ASYNCIFY_IMPORTS: &'static str = "asyncify-imports";

/// The mutable `i32` global that guards the start function.
pub const START_GUARD_GLOBAL: &'static str = "run_start";

/// The export under which the guarded start function is offered.
pub const START_EXPORT: &'static str = "async_start";

/// How the load-time transform is configured.
pub struct TransformPlan {
    /// The passes to run, in order.
    pub passes: Vec<&'static str>,
    pub optimization_level: u32,
    /// Name and value of the single pass argument.
    pub pass_argument: (&'static str, String),
    /// Global that guards the start function, starting at zero.
    pub start_guard: &'static str,
    /// Export name of the guarded start function.
    pub start_export: &'static str,
}

/// The transform that makes the imports in `names` suspendable: `asyncify`
/// then `strip` at optimization level 2, told through `asyncify-imports` which
/// imports may suspend, with the start function guarded by `run_start` and
/// exported as `async_start`.
pub fn asyncify_plan(names: &[&str]) -> (r: TransformPlan)
    ensures
        r.passes@.len() == 2,
        r.passes@[0]@ == "asyncify"@,
        r.passes@[1]@ == "strip"@,
        r.optimization_level == 2,
        r.pass_argument.0@ == ASYNCIFY_IMPORTS@,
        r.pass_argument.1@ == joined(name_views(names@)),
        r.start_guard@ == START_GUARD_GLOBAL@,
        r.start_export@ == START_EXPORT@,
{
    TransformPlan {
        passes: vec!["asyncify", "strip"],
        optimization_level: 2,
        pass_argument: (ASYNCIFY_IMPORTS, asyncify_imports_argument(names)),
        start_guard: START_GUARD_GLOBAL,
        start_export: START_EXPORT,
    }
}

} // verus!
