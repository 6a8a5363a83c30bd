//! The decisions behind the IPC code generator: which parameters of a
//! command the frontend passes, how a command's result type is described,
//! and how a frontend binding is shaped. The generator reads Rust syntax
//! trees; these functions read what it extracts from them.
use vstd::prelude::*;
use crate::text::{chars_of, str_equal, string_push};

verus! {

/// `text` with every space removed.
pub open spec fn without_spaces(text: Seq<char>) -> Seq<char> {
    text.filter(|c: char| c != ' ')
}

/// The text by which the generator compares and prints a type: the type's
/// token text with every space removed.
pub fn type_str(tokens: &str) -> (r: String)
    ensures
        r@ == without_spaces(tokens@),
{
    let chars = chars_of(tokens);
    let mut r = String::new();
    let mut i: usize = 0;
    while i < chars.len()
        invariant
            i <= chars.len(),
            chars@ == tokens@,
            r@ == without_spaces(chars@.take(i as int)),
        decreases chars.len() - i,
    {
        let c = chars[i];
        if c != ' ' {
            string_push(&mut r, c);
        }
        proof {
            assert(chars@.take(i + 1) =~= chars@.take(i as int).push(c));
            chars@.take(i as int).lemma_filter_push(c, |c: char| c != ' ');
        }
        i = i + 1;
    }
    assert(chars@.take(chars.len() as int) =~= chars@);
    r
}

/// What the generator looks at in a type.
pub struct TypeShape {
    /// The type's tokens with the spaces removed.
    pub text: String,
    /// The path, when the type is a path type.
    pub path: Option<PathShape>,
    /// The type is `()`.
    pub empty_tuple: bool,
}

/// What the generator looks at in a path type.
pub struct PathShape {
    /// The path starts with `::`.
    pub leading_colon: bool,
    /// The names of its segments, in order.
    pub segments: Vec<String>,
    /// The last segment carries generic arguments.
    pub last_has_arguments: bool,
    /// The last segment's first generic argument, when the arguments are in
    /// angle brackets and the first is a type.
    pub last_first_type_arg: Option<Box<TypeShape>>,
}

/// A parameter of a command.
pub struct Param {
    /// The name, when the pattern is a plain identifier.
    pub name: Option<String>,
    pub ty: TypeShape,
}

/// Names under which the framework's own parameters are written bare.
pub open spec fn is_framework_name(s: Seq<char>) -> bool {
    s == "AppHandle"@ || s == "State"@ || s == "Window"@ || s == "WebviewWindow"@
}

/// The framework injects parameters of this type itself: a path that starts
/// with `tauri`, or one of its handle types written bare.
pub open spec fn is_tauri_type_spec(t: TypeShape) -> bool {
    match t.path {
        Some(p) => p.segments@.len() > 0 && (p.segments@[0]@ == "tauri"@ || is_framework_name(
            p.segments@[0]@,
        )),
        None => false,
    }
}

/// Whether the framework supplies a parameter of type `t`.
pub fn is_tauri_type(t: &TypeShape) -> (b: bool)
    ensures
        b == is_tauri_type_spec(*t),
{
    match &t.path {
        Some(p) => {
            if p.segments.len() == 0 {
                return false;
            }
            let first = p.segments[0].as_str();
            str_equal(first, "tauri") || str_equal(first, "AppHandle") || str_equal(first, "State")
                || str_equal(first, "Window") || str_equal(first, "WebviewWindow")
        },
        None => false,
    }
}

/// `Result<T, ..>`: the type is a path whose last segment is `Result` with a
/// type as its first argument, which is then `T`.
pub open spec fn result_inner(t: TypeShape) -> Option<TypeShape> {
    match t.path {
        Some(p) => if p.segments@.len() > 0 && p.segments@.last()@ == "Result"@ {
            match p.last_first_type_arg {
                Some(inner) => Some(*inner),
                None => None,
            }
        } else {
            None
        },
        None => None,
    }
}

/// Which type a result type stands for.
pub enum ResultChoice {
    /// The whole type.
    Whole,
    /// Its first argument (the `T` of `Result<T, ..>`).
    Inner,
}

/// The type that a command's result is described by: `T` for `Result<T, ..>`,
/// the type itself otherwise.
pub open spec fn described_type(t: TypeShape) -> TypeShape {
    match result_inner(t) {
        Some(inner) => inner,
        None => t,
    }
}

/// Whether a result type of shape `t` is described by its first argument.
pub fn unwrap_result(t: &TypeShape) -> (c: ResultChoice)
    ensures
        c == (if result_inner(*t) is Some {
            ResultChoice::Inner
        } else {
            ResultChoice::Whole
        }),
{
    match &t.path {
        Some(p) => {
            let n = p.segments.len();
            if n > 0 && str_equal(p.segments[n - 1].as_str(), "Result") {
                match &p.last_first_type_arg {
                    Some(_) => ResultChoice::Inner,
                    None => ResultChoice::Whole,
                }
            } else {
                ResultChoice::Whole
            }
        },
        None => ResultChoice::Whole,
    }
}

/// The text of the type that a result type is described by.
pub fn unwrap_result_str(t: &TypeShape) -> (s: String)
    ensures
        s@ == described_type(*t).text@,
{
    match unwrap_result(t) {
        ResultChoice::Inner => match &t.path {
            Some(p) => match &p.last_first_type_arg {
                Some(inner) => String::from_str(inner.text.as_str()),
                None => String::from_str(t.text.as_str()),
            },
            None => String::from_str(t.text.as_str()),
        },
        ResultChoice::Whole => String::from_str(t.text.as_str()),
    }
}

/// The path is the single bare word `String`.
pub open spec fn is_plain_string(t: TypeShape) -> bool {
    match t.path {
        Some(p) => !p.leading_colon && p.segments@.len() == 1 && !p.last_has_arguments
            && p.segments@[0]@ == "String"@,
        None => false,
    }
}

/// Whether a parameter typed `t` is taken as `&str` by the frontend binding.
pub fn is_plain_string_type(t: &TypeShape) -> (b: bool)
    ensures
        b == is_plain_string(*t),
{
    match &t.path {
        Some(p) => !p.leading_colon && p.segments.len() == 1 && !p.last_has_arguments && str_equal(
            p.segments[0].as_str(),
            "String",
        ),
        None => false,
    }
}

/// A parameter as the metadata lists it: its name (or `_`) and type text.
pub struct ParamMeta {
    pub name: String,
    pub ty: String,
}

/// What the metadata of a command says.
pub struct CommandMeta {
    /// The command's name.
    pub name: String,
    /// The name of the function that returns the metadata.
    pub meta_fn: String,
    /// The parameters that the frontend passes.
    pub params: Vec<ParamMeta>,
    /// The text of the type the command returns, when it returns a value.
    pub return_type: Option<String>,
}

/// The name of the metadata function of command `name`.
pub open spec fn meta_fn_name(name: Seq<char>) -> Seq<char> {
    "__ipc_meta_"@ + name
}

/// The name of the metadata function of command `name`.
pub fn meta_fn_for(name: &str) -> (s: String)
    ensures
        s@ == meta_fn_name(name@),
{
    String::from_str("__ipc_meta_").concat(name)
}

/// The parameters that the frontend passes: those that the framework does
/// not inject.
pub open spec fn passed_params(params: Seq<Param>) -> Seq<Param> {
    params.filter(|p: Param| !is_tauri_type_spec(p.ty))
}

/// How the metadata lists a parameter.
pub open spec fn param_meta_view(p: Param) -> (Seq<char>, Seq<char>) {
    (
        match p.name {
            Some(n) => n@,
            None => "_"@,
        },
        p.ty.text@,
    )
}

/// How the metadata lists parameters.
pub open spec fn metas_view(s: Seq<ParamMeta>) -> Seq<(Seq<char>, Seq<char>)> {
    s.map_values(|q: ParamMeta| (q.name@, q.ty@))
}

/// How the metadata should list parameters `s`.
pub open spec fn params_meta_view(s: Seq<Param>) -> Seq<(Seq<char>, Seq<char>)> {
    s.map_values(|p: Param| param_meta_view(p))
}

/// The return type the metadata gives for a command's output: none for no
/// output, otherwise the described type's text unless that is `()`.
pub open spec fn return_meta(output: Option<TypeShape>) -> Option<Seq<char>> {
    match output {
        None => None,
        Some(t) => if described_type(t).text@ == "()"@ {
            None
        } else {
            Some(described_type(t).text@)
        },
    }
}

/// The metadata of command `name` with parameters `params` and output type
/// `output` (`None` when it returns nothing).
pub fn command_meta(name: &str, params: &Vec<Param>, output: &Option<TypeShape>) -> (m: CommandMeta)
    ensures
        m.name@ == name@,
        m.meta_fn@ == meta_fn_name(name@),
        metas_view(m.params@) == params_meta_view(passed_params(params@)),
        match m.return_type {
            Some(s) => return_meta(*output) == Some(s@),
            None => return_meta(*output) is None,
        },
{
    let mut metas: Vec<ParamMeta> = Vec::new();
    let ghost kept: Seq<Param> = Seq::empty();
    let mut i: usize = 0;
    while i < params.len()
        invariant
            i <= params.len(),
            kept == params@.take(i as int).filter(|p: Param| !is_tauri_type_spec(p.ty)),
            metas_view(metas@) == params_meta_view(kept),
            metas@.len() == kept.len(),
        decreases params.len() - i,
    {
        let p = &params[i];
        let ghost old_metas = metas@;
        let ghost old_kept = kept;
        proof {
            assert(params@.take(i + 1).drop_last() =~= params@.take(i as int));
            reveal(Seq::filter);
        }
        if !is_tauri_type(&p.ty) {
            let pname = match &p.name {
                Some(n) => String::from_str(n.as_str()),
                None => String::from_str("_"),
            };
            let q = ParamMeta { name: pname, ty: String::from_str(p.ty.text.as_str()) };
            assert((q.name@, q.ty@) == param_meta_view(params@[i as int]));
            metas.push(q);
            proof {
                kept = kept.push(params@[i as int]);
                assert forall|j: int| 0 <= j < metas@.len() implies #[trigger] metas_view(metas@)[j]
                    == params_meta_view(kept)[j] by {
                    if j < old_metas.len() {
                        assert(metas@[j] == old_metas[j]);
                        assert(kept[j] == old_kept[j]);
                        assert(metas_view(old_metas)[j] == params_meta_view(old_kept)[j]);
                    }
                }
            }
        }
        i = i + 1;
        assert(metas_view(metas@) =~= params_meta_view(kept));
    }
    assert(params@.take(params.len() as int) =~= params@);
    let return_type = match output {
        None => None,
        Some(t) => {
            let inner = unwrap_result_str(t);
            if str_equal(inner.as_str(), "()") {
                None
            } else {
                Some(inner)
            }
        },
    };
    CommandMeta {
        name: String::from_str(name),
        meta_fn: meta_fn_for(name),
        params: metas,
        return_type,
    }
}

/// The argument object that a frontend binding sends.
pub enum ArgsPlan {
    /// No parameters: `null`.
    Null,
    /// A JSON object with one member per parameter, named after it; `None`
    /// marks a parameter whose pattern is not a plain identifier, which the
    /// generator reports as an error.
    Json(Vec<Option<String>>),
}

/// The shape of a generated frontend binding.
pub struct BindingPlan {
    /// The command that the binding invokes, named like the function.
    pub command: String,
    /// For each parameter, whether the binding takes it as `&str`.
    pub str_params: Vec<bool>,
    pub args: ArgsPlan,
    /// The value type the binding decodes, when the command returns one:
    /// `T` for `Result<T, ..>`, the type itself otherwise.
    pub decoded: Option<ResultChoice>,
}

/// Whether (and as what) a binding decodes the result of output `output`:
/// nothing for no output or a unit result.
pub open spec fn binding_returns(output: Option<TypeShape>) -> Option<ResultChoice> {
    match output {
        None => None,
        Some(t) => if described_type(t).empty_tuple {
            None
        } else if result_inner(t) is Some {
            Some(ResultChoice::Inner)
        } else {
            Some(ResultChoice::Whole)
        },
    }
}

/// The member names of the argument object.
pub open spec fn field_names(params: Seq<Param>) -> Seq<Option<Seq<char>>> {
    params.map_values(
        |p: Param|
            match p.name {
                Some(n) => Some(n@),
                None => None,
            },
    )
}

/// The member names as planned.
pub open spec fn planned_fields(fields: Seq<Option<String>>) -> Seq<Option<Seq<char>>> {
    fields.map_values(
        |f: Option<String>|
            match f {
                Some(n) => Some(n@),
                None => None,
            },
    )
}

/// Plans the frontend binding of command `name`: parameters typed plain
/// `String` are taken as `&str`, the arguments go as a JSON object (or
/// `null` when there are none), and the result is decoded as described by
/// [`binding_returns`].
pub fn binding_plan(name: &str, params: &Vec<Param>, output: &Option<TypeShape>) -> (b: BindingPlan)
    ensures
        b.command@ == name@,
        b.str_params@ == params@.map_values(|p: Param| is_plain_string(p.ty)),
        params@.len() == 0 ==> b.args is Null,
        params@.len() > 0 ==> (b.args matches ArgsPlan::Json(f) && planned_fields(f@)
            == field_names(params@)),
        b.decoded == binding_returns(*output),
{
    let mut str_params: Vec<bool> = Vec::new();
    let mut fields: Vec<Option<String>> = Vec::new();
    let mut i: usize = 0;
    while i < params.len()
        invariant
            i <= params.len(),
            str_params@ == params@.take(i as int).map_values(|p: Param| is_plain_string(p.ty)),
            planned_fields(fields@) == field_names(params@.take(i as int)),
            fields@.len() == i,
        decreases params.len() - i,
    {
        let p = &params[i];
        str_params.push(is_plain_string_type(&p.ty));
        let f = match &p.name {
            Some(n) => Some(String::from_str(n.as_str())),
            None => None,
        };
        let ghost old_fields = fields@;
        fields.push(f);
        proof {
            assert forall|j: int| 0 <= j < fields@.len() implies #[trigger] planned_fields(
                fields@,
            )[j] == field_names(params@.take(i + 1))[j] by {
                if j < i {
                    assert(fields@[j] == old_fields[j]);
                    assert(params@.take(i + 1)[j] == params@.take(i as int)[j]);
                    assert(planned_fields(old_fields)[j] == field_names(params@.take(i as int))[j]);
                }
            }
        }
        i = i + 1;
        assert(str_params@ =~= params@.take(i as int).map_values(|p: Param| is_plain_string(p.ty)));
        assert(planned_fields(fields@) =~= field_names(params@.take(i as int)));
    }
    assert(params@.take(params.len() as int) =~= params@);
    let args = if params.len() == 0 {
        ArgsPlan::Null
    } else {
        ArgsPlan::Json(fields)
    };
    let decoded = match output {
        None => None,
        Some(t) => {
            let choice = unwrap_result(t);
            let unit = match choice {
                ResultChoice::Inner => match &t.path {
                    Some(p) => match &p.last_first_type_arg {
                        Some(inner) => inner.empty_tuple,
                        None => t.empty_tuple,
                    },
                    None => t.empty_tuple,
                },
                ResultChoice::Whole => t.empty_tuple,
            };
            if unit {
                None
            } else {
                Some(choice)
            }
        },
    };
    BindingPlan { command: String::from_str(name), str_params, args, decoded }
}

/// The metadata lists no parameter that the framework injects, keeps the
/// others in their order, and never describes a result as `()`.
pub proof fn law_meta_describes_frontend_view(params: Seq<Param>, output: Option<TypeShape>)
    ensures
        forall|i: int|
            0 <= i < passed_params(params).len() ==> !is_tauri_type_spec(
                #[trigger] passed_params(params)[i].ty,
            ),
        (forall|i: int| 0 <= i < params.len() ==> !is_tauri_type_spec(#[trigger] params[i].ty))
            ==> passed_params(params) == params,
        return_meta(output) matches Some(s) ==> s != "()"@,
{
    let keep = |p: Param| !is_tauri_type_spec(p.ty);
    assert forall|i: int| 0 <= i < passed_params(params).len() implies !is_tauri_type_spec(
        #[trigger] passed_params(params)[i].ty,
    ) by {
        params.filter_lemma(keep);
    }
    if forall|i: int| 0 <= i < params.len() ==> !is_tauri_type_spec(#[trigger] params[i].ty) {
        lemma_filter_all(params, keep);
    }
}

/// Filtering with a predicate that every element meets keeps the sequence.
proof fn lemma_filter_all(s: Seq<Param>, keep: spec_fn(Param) -> bool)
    requires
        forall|i: int| 0 <= i < s.len() ==> keep(#[trigger] s[i]),
    ensures
        s.filter(keep) == s,
    decreases s.len(),
{
    reveal(Seq::filter);
    if s.len() > 0 {
        lemma_filter_all(s.drop_last(), keep);
        assert(s.drop_last().push(s.last()) =~= s);
    } else {
        assert(s.filter(keep) =~= s);
    }
}


/// The framework's own parameters never reach the frontend: a parameter
/// whose type is a path starting with `tauri`, or with one of the handle
/// types written bare (`AppHandle`, `State`, `Window`, `WebviewWindow`), is
/// recognised as injected and is not among the parameters the metadata
/// lists.
pub proof fn law_framework_parameters_are_never_passed(params: Seq<Param>, i: int)
    requires
        0 <= i < params.len(),
        params[i].ty.path matches Some(p) && p.segments@.len() > 0 && {
            let first = p.segments@[0]@;
            first == "tauri"@ || first == "AppHandle"@ || first == "State"@ || first == "Window"@
                || first == "WebviewWindow"@
        },
    ensures
        is_tauri_type_spec(params[i].ty),
        !passed_params(params).contains(params[i]),
{
    let keep = |p: Param| !is_tauri_type_spec(p.ty);
    params.filter_lemma(keep);
    if passed_params(params).contains(params[i]) {
        let j = choose|j: int|
            0 <= j < passed_params(params).len() && passed_params(params)[j] == params[i];
        assert(keep(passed_params(params)[j]));
    }
}


/// Only the framework's parameters are left out: a parameter whose type is
/// not a path, or a path whose first segment is none of `tauri`,
/// `AppHandle`, `State`, `Window` and `WebviewWindow`, is one that the
/// frontend passes, and the metadata lists it.
pub proof fn law_other_parameters_are_passed(params: Seq<Param>, i: int)
    requires
        0 <= i < params.len(),
        match params[i].ty.path {
            None => true,
            Some(p) => p.segments@.len() == 0 || {
                let first = p.segments@[0]@;
                first != "tauri"@ && first != "AppHandle"@ && first != "State"@ && first
                    != "Window"@ && first != "WebviewWindow"@
            },
        },
    ensures
        !is_tauri_type_spec(params[i].ty),
        passed_params(params).contains(params[i]),
{
    let keep = |p: Param| !is_tauri_type_spec(p.ty);
    params.filter_lemma(keep);
    assert(params.contains(params[i]));
    assert(keep(params[i]));
}

} // verus!
