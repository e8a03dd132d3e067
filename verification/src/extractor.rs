//! Extraction of the functions of a repository's source files.
use vstd::prelude::*;

use crate::function::parsed::{
    change_at, descriptor_views, edit_order, edited_function, extraction_error, is_edit_order,
    spec_extraction, Extraction, ParsedFunctions,
};
use crate::function::{Descriptor, DescriptorView};
use crate::parser::{spec_grammar_for, spec_source_language, Error, ParsedCode};

verus! {

/// How files are read.
#[derive(Debug, Clone, Copy, Default)]
pub struct Options {
    /// Whether `.h` files should be read as C++ (not yet acted on: they are read as C).
    pub headers_as_cpp: bool,
}

/// What looking for functions gives in the file at `path` whose text is `text`: nothing for
/// a file of no known language; otherwise the extraction from the text parsed as the file's
/// language (`.h` as C), with the grammar the path gives (see [`spec_extraction`]).
pub open spec fn file_extraction(path: Seq<char>, text: Seq<u8>) -> Option<Extraction> {
    match spec_source_language(path, false) {
        None => None,
        Some(l) => Some(spec_extraction(l, spec_grammar_for(l, Some(path)), text, path)),
    }
}

/// The functions of one source file whose text is `text` (see [`file_extraction`]); an
/// unrecognised extension is an error, as is a failed extraction.
pub fn extract_file(path: &str, text: Vec<u8>, options: &Options) -> (r: Result<
    Vec<Descriptor>,
    Error,
>)
    ensures
        match file_extraction(path@, text@) {
            None => r matches Err(Error::UnknownLanguage { file }) && file@ == path@,
            Some(Extraction::Found(fs)) => r matches Ok(v) && descriptor_views(v@) == fs,
            Some(x) => r matches Err(e) && extraction_error(x, e),
        },
{
    let code = ParsedCode::try_from_path_with_options(path, text, false)?;
    let mut functions = ParsedFunctions::new(code);
    let fs = functions.functions()?;
    let r = crate::function::parsed::copy_descriptors(fs);
    Ok(r)
}

/// A transform failed on a function: the function, and the transform's message.
#[derive(Debug)]
pub struct TransformError {
    pub function: Descriptor,
    pub message: String,
}

/// The change a transform's answer asks for: the new name and definition of a function it
/// gave anew, none for a function it left (or failed on).
pub open spec fn change_of(answer: Result<Option<Descriptor>, String>) -> Option<
    (Seq<char>, Seq<char>),
> {
    match answer {
        Ok(Some(f)) => Some((f.name@, f.definition@)),
        _ => None,
    }
}

/// Change `k` of `changes` is the one the transform's answer asks for.
pub open spec fn answered(
    changes: Seq<Option<(String, String)>>,
    k: int,
    answer: Result<Option<Descriptor>, String>,
) -> bool {
    change_at(changes, k) == change_of(answer)
}

/// The transform, called on function `k`, may answer what change `k` of `changes` asks for.
pub open spec fn transform_answered<F: Fn(&Descriptor) -> Result<Option<Descriptor>, String>>(
    transform: F,
    functions: Seq<Descriptor>,
    changes: Seq<Option<(String, String)>>,
    k: int,
) -> bool {
    exists|answer: Result<Option<Descriptor>, String>|
        #[trigger] call_ensures(transform, (&functions[k],), answer) && answered(changes, k, answer)
}

/// `f` is what the function `f0` becomes when the transform, called on it, may answer.
pub open spec fn transformed_from<F: Fn(&Descriptor) -> Result<Option<Descriptor>, String>>(
    transform: F,
    f0: DescriptorView,
    f: DescriptorView,
) -> bool {
    exists|d: Descriptor, answer: Result<Option<Descriptor>, String>|
        d@ == f0 && #[trigger] call_ensures(transform, (&d,), answer) && f == edited_function(
            f0,
            change_of(answer),
        )
}

/// Applies a transform to a function: what the transform answers, `None` for a function it
/// leaves and `Some` for one it gives anew; a failure is tied to the function.
pub fn apply<F: Fn(&Descriptor) -> Result<Option<Descriptor>, String>>(
    transform: &F,
    function: &Descriptor,
) -> (r: Result<Option<Descriptor>, TransformError>)
    requires
        call_requires(*transform, (function,)),
    ensures
        exists|answer: Result<Option<Descriptor>, String>|
            #[trigger] call_ensures(*transform, (function,), answer) && match answer {
                Ok(f) => r == Ok::<Option<Descriptor>, TransformError>(f),
                Err(m) => r matches Err(e) && e.function@ == function@ && e.message == m,
            },
{
    let answer = transform(function);
    match answer {
        Ok(f) => Ok(f),
        Err(message) => Err(TransformError { function: function.duplicate(), message }),
    }
}

/// At step `t` the transform, called on function `order[t]`, may give `answers[t]`, which asks
/// for change `order[t]` of `changes`.
pub open spec fn step_answered<F: Fn(&Descriptor) -> Result<Option<Descriptor>, String>>(
    transform: F,
    functions: Seq<Descriptor>,
    changes: Seq<Option<(String, String)>>,
    order: Seq<usize>,
    answers: Seq<Result<Option<Descriptor>, String>>,
    t: int,
) -> bool {
    call_ensures(transform, (&functions[order[t] as int],), answers[t]) && answered(
        changes,
        order[t] as int,
        answers[t],
    )
}

/// The transform is consulted on the functions in `order`, one call each, each call's answer
/// asking for the change of the function it was called on (see [`step_answered`]).
pub open spec fn consulted_in_order<F: Fn(&Descriptor) -> Result<Option<Descriptor>, String>>(
    transform: F,
    functions: Seq<Descriptor>,
    changes: Seq<Option<(String, String)>>,
    order: Seq<usize>,
) -> bool {
    exists|answers: Seq<Result<Option<Descriptor>, String>>|
        answers.len() == order.len() && forall|t: int|
            0 <= t < order.len() ==> #[trigger] step_answered(
                transform,
                functions,
                changes,
                order,
                answers,
                t,
            )
}

/// The changes a transform asks of each function (see [`change_of`]), indexed as the
/// functions are; a function the transform fails on is left as it is. The transform is
/// consulted back to front: in the order of [`edit_order`], later definitions first.
pub fn transform_changes<F: Fn(&Descriptor) -> Result<Option<Descriptor>, String>>(
    transform: &F,
    functions: &Vec<Descriptor>,
) -> (r: Vec<Option<(String, String)>>)
    requires
        forall|i: int| 0 <= i < functions@.len() ==> call_requires(*transform, (&functions@[i],)),
    ensures
        r@.len() == functions@.len(),
        exists|order: Seq<usize>|
            is_edit_order(descriptor_views(functions@), order) && consulted_in_order(
                *transform,
                functions@,
                r@,
                order,
            ),
        forall|i: int|
            0 <= i < functions@.len() ==> #[trigger] transform_answered(*transform, functions@, r@, i),
{
    let order = edit_order(functions);
    let n = functions.len();
    let mut r: Vec<Option<(String, String)>> = Vec::new();
    let mut j: usize = 0;
    while j < n
        invariant
            n == functions@.len(),
            0 <= j <= n,
            r@.len() == j,
            forall|k: int| 0 <= k < j ==> r@[k] is None,
        decreases n - j,
    {
        r.push(None);
        j = j + 1;
    }
    let ghost mut answers: Seq<Result<Option<Descriptor>, String>> = Seq::empty();
    let mut t: usize = 0;
    while t < n
        invariant
            n == functions@.len(),
            is_edit_order(descriptor_views(functions@), order@),
            0 <= t <= n,
            r@.len() == n,
            answers.len() == t,
            forall|k: int| 0 <= k < n ==> call_requires(*transform, (&functions@[k],)),
            forall|u: int|
                0 <= u < t ==> #[trigger] step_answered(
                    *transform,
                    functions@,
                    r@,
                    order@,
                    answers,
                    u,
                ),
        decreases n - t,
    {
        let k = order[t];
        let answer = transform(&functions[k]);
        let ghost a = answer;
        let change = match answer {
            Ok(Some(f)) => Some((f.name, f.definition)),
            _ => None,
        };
        let ghost before = r@;
        let ghost before_answers = answers;
        r.set(k, change);
        proof {
            answers = answers.push(a);
            assert(call_ensures(*transform, (&functions@[k as int],), a));
            assert forall|u: int| 0 <= u < t + 1 implies #[trigger] step_answered(
                *transform,
                functions@,
                r@,
                order@,
                answers,
                u,
            ) by {
                if u < t {
                    assert(step_answered(*transform, functions@, before, order@, before_answers, u));
                    assert(answers[u] == before_answers[u]);
                    assert(order@[u] != order@[t as int]);
                    assert(change_at(r@, order@[u] as int) == change_at(before, order@[u] as int));
                } else {
                    assert(answers[u] == a);
                    assert(change_at(r@, k as int) == change_of(a));
                }
            }
        }
        t = t + 1;
    }
    assert(consulted_in_order(*transform, functions@, r@, order@));
    assert forall|i: int| 0 <= i < functions@.len() implies #[trigger] transform_answered(
        *transform,
        functions@,
        r@,
        i,
    ) by {
        assert(order@.contains(i as usize));
        let u = choose|u: int| 0 <= u < order@.len() && order@[u] == i as usize;
        assert(step_answered(*transform, functions@, r@, order@, answers, u));
        assert(call_ensures(*transform, (&functions@[i],), answers[u]));
        assert(answered(r@, i, answers[u]));
    }
    r
}

/// The functions of one source file after a transform (see [`extract_file`] and
/// [`transform_changes`]): each function the transform gives anew takes its new name and
/// definition, which are written back into the code; the others stay as they were.
pub fn transform_file<F: Fn(&Descriptor) -> Result<Option<Descriptor>, String>>(
    path: &str,
    text: Vec<u8>,
    options: &Options,
    transform: &F,
) -> (r: Result<Vec<Descriptor>, Error>)
    requires
        forall|d: &Descriptor| call_requires(*transform, (d,)),
    ensures
        match file_extraction(path@, text@) {
            None => r matches Err(Error::UnknownLanguage { file }) && file@ == path@,
            Some(Extraction::Found(fs0)) => r matches Ok(v) && descriptor_views(v@).len()
                == fs0.len() && forall|k: int|
                0 <= k < fs0.len() ==> #[trigger] transformed_from(
                    *transform,
                    fs0[k],
                    descriptor_views(v@)[k],
                ),
            Some(x) => r matches Err(e) && extraction_error(x, e),
        },
{
    let code = ParsedCode::try_from_path_with_options(path, text, false)?;
    let mut functions = ParsedFunctions::new(code);
    let found = crate::function::parsed::copy_descriptors(functions.functions()?);
    if found.len() == 0 {
        return Ok(found);
    }
    let changes = transform_changes(transform, &found);
    let ghost fs0 = descriptor_views(found@);
    let ghost before = functions.spec_functions();
    assert(before == fs0);
    functions.edit(&changes)?;
    let after = crate::function::parsed::copy_descriptors(functions.functions()?);
    proof {
        assert forall|k: int| 0 <= k < fs0.len() implies #[trigger] transformed_from(
            *transform,
            fs0[k],
            descriptor_views(after@)[k],
        ) by {
            assert(transform_answered(*transform, found@, changes@, k));
            let answer = choose|answer: Result<Option<Descriptor>, String>|
                #[trigger] call_ensures(*transform, (&found@[k],), answer) && answered(
                    changes@,
                    k,
                    answer,
                );
            assert(found@[k]@ == fs0[k]);
            assert(descriptor_views(after@)[k] == edited_function(fs0[k], change_at(changes@, k)));
            assert(call_ensures(*transform, (&found@[k],), answer));
        }
    }
    Ok(after)
}

/// All functions of a list of concatenated lists, as plain values.
pub open spec fn flatten_ok(results: Seq<Result<Vec<Descriptor>, Error>>) -> Seq<DescriptorView>
    decreases results.len(),
{
    if results.len() == 0 {
        Seq::empty()
    } else {
        flatten_ok(results.drop_last()) + match results.last() {
            Ok(fs) => descriptor_views(fs@),
            Err(_) => Seq::empty(),
        }
    }
}

/// The functions of every file that could be read, file after file; files that failed
/// (including those of no known language) contribute none.
pub fn collect_functions(results: Vec<Result<Vec<Descriptor>, Error>>) -> (r: Vec<Descriptor>)
    ensures
        descriptor_views(r@) == flatten_ok(results@),
{
    let mut r: Vec<Descriptor> = Vec::new();
    let mut i: usize = 0;
    while i < results.len()
        invariant
            0 <= i <= results@.len(),
            descriptor_views(r@) == flatten_ok(results@.subrange(0, i as int)),
        decreases results.len() - i,
    {
        assert(results@.subrange(0, i + 1).drop_last() == results@.subrange(0, i as int));
        match &results[i] {
            Ok(fs) => {
                let mut j: usize = 0;
                let ghost base = descriptor_views(r@);
                while j < fs.len()
                    invariant
                        0 <= j <= fs@.len(),
                        descriptor_views(r@) == base + descriptor_views(fs@.subrange(0, j as int)),
                    decreases fs.len() - j,
                {
                    let d = fs[j].duplicate();
                    let ghost before = r@;
                    r.push(d);
                    assert(descriptor_views(r@) =~= descriptor_views(before).push(d@));
                    assert(descriptor_views(fs@.subrange(0, j + 1)) =~= descriptor_views(
                        fs@.subrange(0, j as int),
                    ).push(fs@[j as int]@));
                    j = j + 1;
                }
                assert(fs@.subrange(0, fs@.len() as int) == fs@);
            },
            Err(_) => {},
        }
        i = i + 1;
    }
    assert(results@.subrange(0, results@.len() as int) == results@);
    r
}

} // verus!
