use vstd::prelude::*;

use crate::text::{is_prefix, join, joined, same_text, starts_with, texts};

verus! {

/// One export of a module instance: its name and whether it is a function.
#[derive(Clone, Debug)]
pub struct ExportEntry {
    pub name: String,
    pub is_function: bool,
}

/// The most suggestions that an error names.
pub const MAX_SUGGESTIONS: usize = 3;

/// Why an export could not be resolved to a function.
#[derive(Clone, Debug)]
pub enum ResolveError {
    /// The module exports no function at all.
    NoFunctions,
    /// No export has the requested name.
    Missing { name: String, suggestions: Vec<String>, command: String },
    /// An export has the requested name but is not a function.
    NotAFunction { name: String, suggestions: Vec<String>, command: String },
}

/// The names of the exported functions that begin with `query`, in export order.
pub open spec fn matching_functions(exports: Seq<ExportEntry>, query: Seq<char>) -> Seq<Seq<char>>
    decreases exports.len(),
{
    if exports.len() == 0 {
        Seq::empty()
    } else {
        let rest = matching_functions(exports.drop_last(), query);
        let e = exports.last();
        if e.is_function && is_prefix(query, e.name@) {
            rest.push(e.name@)
        } else {
            rest
        }
    }
}

/// How many of `n` matches an error names.
pub open spec fn few(n: nat) -> int {
    if n < MAX_SUGGESTIONS {
        n as int
    } else {
        MAX_SUGGESTIONS as int
    }
}

/// The names that an error suggests: the first few exported functions.
pub open spec fn suggestions_for(exports: Seq<ExportEntry>) -> Seq<Seq<char>> {
    let all = matching_functions(exports, Seq::empty());
    all.take(few(all.len()))
}

/// Position of the first export named `name`, if any.
pub open spec fn first_named(exports: Seq<ExportEntry>, name: Seq<char>, i: int) -> bool {
    0 <= i < exports.len() && exports[i].name@ == name && forall|j: int|
        0 <= j < i ==> (#[trigger] exports[j]).name@ != name
}

pub open spec fn has_named(exports: Seq<ExportEntry>, name: Seq<char>) -> bool {
    exists|i: int| 0 <= i < exports.len() && (#[trigger] exports[i]).name@ == name
}

/// The copy-pasteable command line that calls `target` instead.
pub open spec fn suggested_command(path: Seq<char>, target: Seq<char>, args: Seq<String>) -> Seq<
    char,
> {
    "wasmer "@ + path + " -i "@ + target + " "@ + joined(texts(args), " "@)
}

proof fn lemma_matching_are_functions(exports: Seq<ExportEntry>, query: Seq<char>)
    ensures
        matching_functions(exports, query).len() <= exports.len(),
        forall|k: int|
            0 <= k < matching_functions(exports, query).len() ==> exists|i: int|
                0 <= i < exports.len() && (#[trigger] exports[i]).is_function && exports[i].name@
                    == #[trigger] matching_functions(exports, query)[k],
    decreases exports.len(),
{
    if exports.len() > 0 {
        let init = exports.drop_last();
        lemma_matching_are_functions(init, query);
        let m = matching_functions(exports, query);
        let rest = matching_functions(init, query);
        assert forall|k: int| 0 <= k < m.len() implies exists|i: int|
            0 <= i < exports.len() && (#[trigger] exports[i]).is_function && exports[i].name@
                == #[trigger] m[k] by {
            if k < rest.len() {
                let i = choose|i: int|
                    0 <= i < init.len() && (#[trigger] init[i]).is_function && init[i].name@
                        == rest[k];
                assert(exports[i] == init[i]);
            } else {
                assert(exports[exports.len() - 1] == exports.last());
            }
        }
    }
}

/// A failed lookup suggests at most three names, each of them the name of an
/// exported function.
pub proof fn lemma_suggestions_are_exported_functions(exports: Seq<ExportEntry>)
    ensures
        suggestions_for(exports).len() <= MAX_SUGGESTIONS,
        forall|k: int|
            0 <= k < suggestions_for(exports).len() ==> exists|i: int|
                0 <= i < exports.len() && (#[trigger] exports[i]).is_function && exports[i].name@
                    == #[trigger] suggestions_for(exports)[k],
{
    let all = matching_functions(exports, Seq::empty());
    lemma_matching_are_functions(exports, Seq::empty());
    assert forall|k: int| 0 <= k < suggestions_for(exports).len() implies exists|i: int|
        0 <= i < exports.len() && (#[trigger] exports[i]).is_function && exports[i].name@
            == #[trigger] suggestions_for(exports)[k] by {
        assert(suggestions_for(exports)[k] == all[k]);
    }
}

/// Names quoted with backticks and separated by commas.
pub open spec fn quoted_list(names: Seq<Seq<char>>) -> Seq<char> {
    joined(names.map_values(|n: Seq<char>| "`"@ + n + "`"@), ", "@)
}

/// The part of a message that offers the suggestions.
pub open spec fn suggestion_text(suggestions: Seq<String>, command: Seq<char>) -> Seq<char> {
    "Similar functions found: "@ + quoted_list(texts(suggestions)) + ".\nTry with: "@ + command
}

/// The text that reports an error.
pub open spec fn resolve_message(e: ResolveError) -> Seq<char> {
    match e {
        ResolveError::NoFunctions => "The module has no exported functions to call."@,
        ResolveError::Missing { name, suggestions, command } => "No export `"@ + name@
            + "` found in the module.\n"@ + suggestion_text(suggestions@, command@),
        ResolveError::NotAFunction { name, suggestions, command } => "Export `"@ + name@
            + "` found, but is not a function.\n"@ + suggestion_text(suggestions@, command@),
    }
}

fn quote_all(names: &Vec<String>) -> (r: String)
    ensures
        r@ == quoted_list(texts(names@)),
{
    let mut items: Vec<String> = Vec::new();
    let mut i: usize = 0;
    proof {
        reveal_strlit("`");
    }
    while i < names.len()
        invariant
            0 <= i <= names.len(),
            items@.len() == i,
            forall|j: int| 0 <= j < i ==> (#[trigger] items@[j])@ == "`"@ + names@[j]@ + "`"@,
        decreases names.len() - i,
    {
        let mut item = String::from_str("`");
        item.append(names[i].as_str());
        item.append("`");
        items.push(item);
        i = i + 1;
    }
    assert(texts(items@) =~= texts(names@).map_values(|n: Seq<char>| "`"@ + n + "`"@));
    join(&items, ", ")
}

fn suggestion_part(suggestions: &Vec<String>, command: &String) -> (r: String)
    ensures
        r@ == suggestion_text(suggestions@, command@),
{
    proof {
        reveal_strlit("Similar functions found: ");
        reveal_strlit(".\nTry with: ");
    }
    let mut r = String::from_str("Similar functions found: ");
    let names = quote_all(suggestions);
    r.append(names.as_str());
    r.append(".\nTry with: ");
    r.append(command.as_str());
    r
}

impl ResolveError {
    /// The text that reports this error.
    pub fn message(&self) -> (r: String)
        ensures
            r@ == resolve_message(*self),
    {
        proof {
            reveal_strlit("The module has no exported functions to call.");
            reveal_strlit("No export `");
            reveal_strlit("` found in the module.\n");
            reveal_strlit("Export `");
            reveal_strlit("` found, but is not a function.\n");
        }
        match self {
            ResolveError::NoFunctions => String::from_str(
                "The module has no exported functions to call.",
            ),
            ResolveError::Missing { name, suggestions, command } => {
                let mut r = String::from_str("No export `");
                r.append(name.as_str());
                r.append("` found in the module.\n");
                let tail = suggestion_part(suggestions, command);
                r.append(tail.as_str());
                r
            },
            ResolveError::NotAFunction { name, suggestions, command } => {
                let mut r = String::from_str("Export `");
                r.append(name.as_str());
                r.append("` found, but is not a function.\n");
                let tail = suggestion_part(suggestions, command);
                r.append(tail.as_str());
                r
            },
        }
    }
}

/// The exported functions whose names begin with `query`, in export order.
pub fn suggest_function_exports(exports: &Vec<ExportEntry>, query: &str) -> (r: Vec<String>)
    ensures
        texts(r@) == matching_functions(exports@, query@),
{
    let mut r: Vec<String> = Vec::new();
    let mut i: usize = 0;
    while i < exports.len()
        invariant
            0 <= i <= exports.len(),
            texts(r@) == matching_functions(exports@.subrange(0, i as int), query@),
        decreases exports.len() - i,
    {
        let ghost before = exports@.subrange(0, i as int);
        assert(exports@.subrange(0, i + 1).drop_last() =~= before);
        let e = &exports[i];
        if e.is_function && starts_with(e.name.as_str(), query) {
            let ghost old_r = r@;
            r.push(e.name.clone());
            assert(texts(r@) =~= texts(old_r).push(e.name@));
        }
        i = i + 1;
    }
    assert(exports@.subrange(0, i as int) =~= exports@);
    r
}

/// Finds the first export named `name`.
fn find_export(exports: &Vec<ExportEntry>, name: &str) -> (r: Option<usize>)
    ensures
        r is None <==> !has_named(exports@, name@),
        r matches Some(i) ==> first_named(exports@, name@, i as int),
{
    let mut i: usize = 0;
    while i < exports.len()
        invariant
            0 <= i <= exports.len(),
            forall|j: int| 0 <= j < i ==> (#[trigger] exports@[j]).name@ != name@,
        decreases exports.len() - i,
    {
        if same_text(exports[i].name.as_str(), name) {
            return Some(i);
        }
        i = i + 1;
    }
    None
}

/// Resolves `name` to the position of an exported function. On a miss the
/// error names up to three exported functions and a command that calls the
/// first of them from `path` with the same `args`.
pub fn resolve_function(exports: &Vec<ExportEntry>, name: &str, path: &str, args: &Vec<String>) -> (r:
    Result<usize, ResolveError>)
    ensures
        r is Ok <==> exists|i: int|
            first_named(exports@, name@, i) && (#[trigger] exports@[i]).is_function,
        r matches Ok(i) ==> first_named(exports@, name@, i as int) && exports@[i as int].is_function,
        (r matches Err(ResolveError::NoFunctions)) <==> (r is Err && matching_functions(
            exports@,
            Seq::empty(),
        ).len() == 0),
        (r matches Err(ResolveError::Missing { .. })) <==> (!has_named(exports@, name@)
            && matching_functions(exports@, Seq::empty()).len() > 0),
        r matches Err(ResolveError::Missing { name: n, suggestions, command }) ==> n@ == name@
            && texts(suggestions@) == suggestions_for(exports@)
            && command@ == suggested_command(path@, suggestions@[0]@, args@),
        r matches Err(ResolveError::NotAFunction { name: n, suggestions, command }) ==> n@ == name@
            && texts(suggestions@) == suggestions_for(exports@)
            && command@ == suggested_command(path@, suggestions@[0]@, args@),
{
    let found = find_export(exports, name);
    if let Some(i) = found {
        if exports[i].is_function {
            return Ok(i);
        }
    }
    proof {
        assert forall|i: int| first_named(exports@, name@, i) implies !(
        #[trigger] exports@[i]).is_function by {
            if let Some(k) = found {
                if i < k {
                    assert(exports@[i].name@ != name@);
                } else if i > k {
                    assert(exports@[k as int].name@ != name@);
                }
            } else {
                assert(!has_named(exports@, name@));
                assert(exports@[i].name@ == name@);
            }
        }
    }
    let empty = "";
    proof {
        reveal_strlit("");
        assert(empty@ =~= Seq::<char>::empty());
    }
    let all = suggest_function_exports(exports, empty);
    if all.len() == 0 {
        return Err(ResolveError::NoFunctions);
    }
    let mut suggestions: Vec<String> = Vec::new();
    let mut k: usize = 0;
    while k < all.len() && k < MAX_SUGGESTIONS
        invariant
            0 <= k <= all.len(),
            k <= MAX_SUGGESTIONS,
            suggestions@.len() == k,
            forall|j: int| 0 <= j < k ==> (#[trigger] suggestions@[j])@ == all@[j]@,
        decreases all.len() - k,
    {
        suggestions.push(all[k].clone());
        k = k + 1;
    }
    proof {
        assert(texts(suggestions@) =~= texts(all@).take(few(all@.len())));
    }
    let mut command = String::from_str("wasmer ");
    command.append(path);
    command.append(" -i ");
    command.append(all[0].as_str());
    command.append(" ");
    let rest = join(args, " ");
    command.append(rest.as_str());
    proof {
        reveal_strlit("wasmer ");
        reveal_strlit(" -i ");
        reveal_strlit(" ");
        assert(command@ =~= suggested_command(path@, suggestions@[0]@, args@));
    }
    let owned = String::from_str(name);
    match found {
        None => Err(ResolveError::Missing { name: owned, suggestions, command }),
        Some(_) => Err(ResolveError::NotAFunction { name: owned, suggestions, command }),
    }
}

} // verus!
