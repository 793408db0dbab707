use vstd::prelude::*;

use crate::numeric::{parse_i32, parse_i64, parses_in_range};
use crate::text::{decimal, decimal_text, join, joined, texts};

verus! {

/// The kind of a value that a guest function takes or returns.
#[derive(Clone, Copy, Debug, PartialEq, Eq, Structural)]
pub enum ValueKind {
    I32,
    I64,
    F32,
    F64,
    V128,
    ExternRef,
    FuncRef,
}

/// A call argument converted from its command-line text. Floating-point
/// arguments keep their text, which the host turns into a float.
#[derive(Clone, Debug)]
pub enum ArgValue {
    I32(i32),
    I64(i64),
    F32(String),
    F64(String),
}

/// Why the command-line arguments could not be turned into a call.
#[derive(Clone, Debug)]
pub enum InvokeError {
    /// The function takes `expected` parameters but `received` arguments were
    /// given; `raw` is the arguments joined with single spaces.
    ArityMismatch { expected: usize, received: usize, raw: String },
    /// `arg` is not a valid number of the numeric kind `kind`.
    BadArgument { arg: String, kind: ValueKind },
    /// The parameter kind `kind` cannot be written on the command line.
    UnsupportedKind { arg: String, kind: ValueKind },
}

/// The name by which messages refer to a kind.
pub open spec fn kind_name(kind: ValueKind) -> Seq<char> {
    match kind {
        ValueKind::I32 => "i32"@,
        ValueKind::I64 => "i64"@,
        ValueKind::F32 => "f32"@,
        ValueKind::F64 => "f64"@,
        ValueKind::V128 => "V128"@,
        ValueKind::ExternRef => "ExternRef"@,
        ValueKind::FuncRef => "FuncRef"@,
    }
}

/// The text that reports an error.
pub open spec fn invoke_message(e: InvokeError) -> Seq<char> {
    match e {
        InvokeError::ArityMismatch { expected, received, raw } => "Function expected "@
            + decimal_text(expected as nat) + " arguments, but received "@ + decimal_text(
            received as nat,
        ) + ": \""@ + raw@ + "\""@,
        InvokeError::BadArgument { arg, kind } => "Can't convert `"@ + arg@ + "` into a "@
            + kind_name(kind),
        InvokeError::UnsupportedKind { arg, kind } => "Don't know how to convert "@ + arg@
            + " into "@ + kind_name(kind),
    }
}

impl ValueKind {
    /// The name by which messages refer to this kind.
    pub fn name(&self) -> (r: &'static str)
        ensures
            r@ == kind_name(*self),
    {
        proof {
            reveal_strlit("i32");
            reveal_strlit("i64");
            reveal_strlit("f32");
            reveal_strlit("f64");
            reveal_strlit("V128");
            reveal_strlit("ExternRef");
            reveal_strlit("FuncRef");
        }
        match self {
            ValueKind::I32 => "i32",
            ValueKind::I64 => "i64",
            ValueKind::F32 => "f32",
            ValueKind::F64 => "f64",
            ValueKind::V128 => "V128",
            ValueKind::ExternRef => "ExternRef",
            ValueKind::FuncRef => "FuncRef",
        }
    }
}

impl InvokeError {
    /// The text that reports this error.
    pub fn message(&self) -> (r: String)
        ensures
            r@ == invoke_message(*self),
    {
        proof {
            reveal_strlit("Function expected ");
            reveal_strlit(" arguments, but received ");
            reveal_strlit(": \"");
            reveal_strlit("\"");
            reveal_strlit("Can't convert `");
            reveal_strlit("` into a ");
            reveal_strlit("Don't know how to convert ");
            reveal_strlit(" into ");
        }
        match self {
            InvokeError::ArityMismatch { expected, received, raw } => {
                let mut r = String::from_str("Function expected ");
                let e = decimal(*expected);
                r.append(e.as_str());
                r.append(" arguments, but received ");
                let n = decimal(*received);
                r.append(n.as_str());
                r.append(": \"");
                r.append(raw.as_str());
                r.append("\"");
                r
            },
            InvokeError::BadArgument { arg, kind } => {
                let mut r = String::from_str("Can't convert `");
                r.append(arg.as_str());
                r.append("` into a ");
                r.append(kind.name());
                r
            },
            InvokeError::UnsupportedKind { arg, kind } => {
                let mut r = String::from_str("Don't know how to convert ");
                r.append(arg.as_str());
                r.append(" into ");
                r.append(kind.name());
                r
            },
        }
    }
}

/// A kind whose values are written as numbers on the command line.
pub open spec fn is_numeric(kind: ValueKind) -> bool {
    kind is I32 || kind is I64 || kind is F32 || kind is F64
}

/// `v` is `arg` read as a value of kind `kind`.
pub open spec fn converts_to(kind: ValueKind, arg: Seq<char>, v: ArgValue) -> bool {
    match kind {
        ValueKind::I32 => v matches ArgValue::I32(x) && parses_in_range(
            arg,
            i32::MIN as int,
            i32::MAX as int,
            x as int,
        ),
        ValueKind::I64 => v matches ArgValue::I64(x) && parses_in_range(
            arg,
            i64::MIN as int,
            i64::MAX as int,
            x as int,
        ),
        ValueKind::F32 => v matches ArgValue::F32(t) && t@ == arg,
        ValueKind::F64 => v matches ArgValue::F64(t) && t@ == arg,
        _ => false,
    }
}

/// `arg` can be read as a value of kind `kind`. Whether a float's text reads
/// as a float of its kind is told by `float_ok`, which the host computes.
pub open spec fn convertible(kind: ValueKind, arg: Seq<char>, float_ok: bool) -> bool {
    match kind {
        ValueKind::I32 => exists|x: int| parses_in_range(arg, i32::MIN as int, i32::MAX as int, x),
        ValueKind::I64 => exists|x: int| parses_in_range(arg, i64::MIN as int, i64::MAX as int, x),
        ValueKind::F32 | ValueKind::F64 => float_ok,
        _ => false,
    }
}

/// The float flag of the argument at position `i`; a missing flag counts as
/// a text that does not read as a float.
pub open spec fn flag_at(float_ok: Seq<bool>, i: int) -> bool {
    0 <= i < float_ok.len() && float_ok[i]
}

/// Every argument before position `n` can be read as its parameter's kind.
pub open spec fn convertible_upto(
    params: Seq<ValueKind>,
    args: Seq<String>,
    float_ok: Seq<bool>,
    n: int,
) -> bool {
    forall|j: int| 0 <= j < n ==> convertible(#[trigger] params[j], args[j]@, flag_at(float_ok, j))
}

/// Converts a single argument to the kind of its parameter; `float_ok` tells
/// whether the text reads as a float of a float kind.
pub fn convert_argument(kind: ValueKind, arg: &String, float_ok: bool) -> (r: Result<
    ArgValue,
    InvokeError,
>)
    ensures
        r is Ok <==> convertible(kind, arg@, float_ok),
        r matches Ok(v) ==> converts_to(kind, arg@, v),
        r matches Err(e) ==> (is_numeric(kind) && (e matches InvokeError::BadArgument { arg: a, kind: k }
            && a@ == arg@ && k == kind)) || (!is_numeric(kind) && (
        e matches InvokeError::UnsupportedKind { arg: a, kind: k } && a@ == arg@ && k == kind)),
{
    match kind {
        ValueKind::I32 => match parse_i32(arg.as_str()) {
            Some(x) => Ok(ArgValue::I32(x)),
            None => Err(InvokeError::BadArgument { arg: arg.clone(), kind }),
        },
        ValueKind::I64 => match parse_i64(arg.as_str()) {
            Some(x) => Ok(ArgValue::I64(x)),
            None => Err(InvokeError::BadArgument { arg: arg.clone(), kind }),
        },
        ValueKind::F32 | ValueKind::F64 => {
            if !float_ok {
                Err(InvokeError::BadArgument { arg: arg.clone(), kind })
            } else if kind == ValueKind::F32 {
                Ok(ArgValue::F32(arg.clone()))
            } else {
                Ok(ArgValue::F64(arg.clone()))
            }
        },
        _ => Err(InvokeError::UnsupportedKind { arg: arg.clone(), kind }),
    }
}

/// Turns the command-line arguments into call arguments, one per parameter
/// and in order. `float_ok[i]` tells whether `args[i]` reads as a float of
/// its parameter's kind, where that kind is a float kind. The first argument
/// that does not convert is the one reported.
pub fn marshal_arguments(params: &Vec<ValueKind>, args: &Vec<String>, float_ok: &Vec<bool>) -> (r:
    Result<Vec<ArgValue>, InvokeError>)
    ensures
        r is Ok <==> params.len() == args.len() && convertible_upto(
            params@,
            args@,
            float_ok@,
            args.len() as int,
        ),
        r matches Ok(vals) ==> vals.len() == args.len() && forall|i: int|
            0 <= i < vals.len() ==> converts_to(params[i], args[i]@, #[trigger] vals[i]),
        (r matches Err(InvokeError::ArityMismatch { .. })) <==> params.len() != args.len(),
        r matches Err(InvokeError::ArityMismatch { expected, received, raw }) ==> expected
            == params.len() && received == args.len() && raw@ == joined(texts(args@), seq![' ']),
        r matches Err(InvokeError::BadArgument { arg, kind }) ==> exists|i: int|
            0 <= i < args.len() && params.len() == args.len() && convertible_upto(
                params@,
                args@,
                float_ok@,
                i,
            ) && !convertible(params[i], args[i]@, flag_at(float_ok@, i)) && arg@ == args[i]@
                && kind == params[i]
                && is_numeric(kind),
        r matches Err(InvokeError::UnsupportedKind { arg, kind }) ==> exists|i: int|
            0 <= i < args.len() && params.len() == args.len() && convertible_upto(
                params@,
                args@,
                float_ok@,
                i,
            ) && !convertible(params[i], args[i]@, flag_at(float_ok@, i)) && arg@ == args[i]@
                && kind == params[i]
                && !is_numeric(kind),
{
    if params.len() != args.len() {
        let sep = " ";
        proof {
            reveal_strlit(" ");
            assert(sep@ =~= seq![' ']);
        }
        let raw = join(args, sep);
        return Err(InvokeError::ArityMismatch { expected: params.len(), received: args.len(), raw });
    }
    let mut vals: Vec<ArgValue> = Vec::new();
    let mut i: usize = 0;
    while i < args.len()
        invariant
            params.len() == args.len(),
            0 <= i <= args.len(),
            vals.len() == i,
            convertible_upto(params@, args@, float_ok@, i as int),
            forall|j: int| 0 <= j < i ==> converts_to(params[j], args[j]@, #[trigger] vals[j]),
        decreases args.len() - i,
    {
        let flag = i < float_ok.len() && float_ok[i];
        match convert_argument(params[i], &args[i], flag) {
            Ok(v) => {
                vals.push(v);
            },
            Err(e) => {
                assert(!convertible_upto(params@, args@, float_ok@, args.len() as int));
                return Err(e);
            },
        }
        i = i + 1;
    }
    Ok(vals)
}

} // verus!
