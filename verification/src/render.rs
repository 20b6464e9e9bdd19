//! The source text of the generated artifacts.

use vstd::prelude::*;
use vstd::string::StringExecFns;
use crate::artifact::{
    input_views, Accessor, ArgsRecord, ArgsRecordView, Generated, GeneratedView, InnerFunction,
    InnerFunctionView, LockMode, NamedInput, NamedInputView, NativeWrapper, NativeWrapperView,
    WebReturn, WebWrapper, WebWrapperView,
};
use crate::command::{
    param_views, ExtraParam, ExtraParamView, ReturnShape, ReturnShapeView, StateParam,
    StateParamView,
};
use crate::decl::texts;

verus! {

/// Joins texts in order, with nothing between them.
pub fn concat_all(items: &Vec<String>) -> (out: String)
    ensures
        out@ == texts(items@).flatten(),
{
    let mut out = String::new();
    let mut i: usize = 0;
    while i < items.len()
        invariant
            i <= items.len(),
            out@ == texts(items@.take(i as int)).flatten(),
        decreases items.len() - i,
    {
        proof {
            let before = texts(items@.take(i as int));
            assert(texts(items@.take(i + 1)) =~= before.push(items@[i as int]@));
            before.lemma_flatten_push(items@[i as int]@);
        }
        out.append(items[i].as_str());
        i += 1;
    }
    assert(items@.take(i as int) =~= items@);
    out
}

/// The return clause as it follows a parameter list: empty for `Unit`, else
/// a space, an arrow and the type.
pub open spec fn ret_text(shape: ReturnShapeView) -> Seq<char> {
    match shape {
        ReturnShapeView::Unit => Seq::empty(),
        ReturnShapeView::Plain(t) => " -> "@ + t,
        ReturnShapeView::Outcome { ok, err } => " -> ::std::result::Result<"@ + ok + ", "@ + err
            + ">"@,
    }
}

/// Renders the return clause of a function with the given return shape.
pub fn ret_tokens(shape: &ReturnShape) -> (out: String)
    ensures
        out@ == ret_text(shape@),
{
    match shape {
        ReturnShape::Unit => String::new(),
        ReturnShape::Plain(t) => String::from_str(" -> ").concat(t.as_str()),
        ReturnShape::Outcome { ok, err } => String::from_str(" -> ::std::result::Result<").concat(
            ok.as_str(),
        ).concat(", ").concat(err.as_str()).concat(">"),
    }
}

/// The state parameter as the inner function declares it.
pub open spec fn state_param_text(s: StateParamView) -> Seq<char> {
    s.ident + (if s.mutable {
        ": &mut "@
    } else {
        ": &"@
    }) + s.ty
}

/// An extra parameter as the inner function declares it, after a comma.
pub open spec fn extra_param_text(p: ExtraParamView) -> Seq<char> {
    (if p.mutable {
        ", mut "@
    } else {
        ", "@
    }) + p.ident + ": "@ + p.ty
}

/// The text of the inner function.
pub open spec fn inner_text(f: InnerFunctionView) -> Seq<char> {
    "#[doc(hidden)] #[inline(always)] fn "@ + f.name + "("@ + state_param_text(f.state)
        + f.params.map_values(|p: ExtraParamView| extra_param_text(p)).flatten() + ")"@
        + ret_text(f.ret) + " "@ + f.body
}

fn render_state_param(s: &StateParam) -> (out: String)
    ensures
        out@ == state_param_text(s@),
{
    s.ident.clone().concat(
        if s.mutable {
            ": &mut "
        } else {
            ": &"
        },
    ).concat(s.ty.as_str())
}

fn render_extra_params(params: &Vec<ExtraParam>) -> (out: String)
    ensures
        out@ == param_views(params@).map_values(|p: ExtraParamView| extra_param_text(p)).flatten(),
{
    let mut items: Vec<String> = Vec::new();
    let mut i: usize = 0;
    while i < params.len()
        invariant
            i <= params.len(),
            items@.len() == i,
            forall|j: int| 0 <= j < i ==> (#[trigger] items@[j])@ == extra_param_text(params@[j]@),
        decreases params.len() - i,
    {
        let p = &params[i];
        let item = String::from_str(
            if p.mutable {
                ", mut "
            } else {
                ", "
            },
        ).concat(p.ident.as_str()).concat(": ").concat(p.ty.as_str());
        items.push(item);
        i += 1;
    }
    assert(texts(items@) =~= param_views(params@).map_values(
        |p: ExtraParamView| extra_param_text(p),
    ));
    concat_all(&items)
}

/// Renders the inner function: hidden from documentation, inlined, private,
/// with the parameters and the body that the command declared.
pub fn render_inner(f: &InnerFunction) -> (out: String)
    ensures
        out@ == inner_text(f@),
{
    let state = render_state_param(&f.state);
    let extras = render_extra_params(&f.params);
    let ret = ret_tokens(&f.ret);
    String::from_str("#[doc(hidden)] #[inline(always)] fn ").concat(f.name.as_str()).concat(
        "(",
    ).concat(state.as_str()).concat(extras.as_str()).concat(")").concat(ret.as_str()).concat(
        " ",
    ).concat(f.body.as_str())
}

/// An input as a wrapper or a record declares it, with a comma after it.
pub open spec fn input_text(p: NamedInputView) -> Seq<char> {
    p.name + ": "@ + p.ty + ", "@
}

/// A list of inputs as a wrapper or a record declares them.
pub open spec fn inputs_text(inputs: Seq<NamedInputView>) -> Seq<char> {
    inputs.map_values(|p: NamedInputView| input_text(p)).flatten()
}

/// The arguments that the host wrapper hands on, each after a comma.
pub open spec fn native_args_text(names: Seq<Seq<char>>) -> Seq<char> {
    names.map_values(|n: Seq<char>| ", "@ + n).flatten()
}

/// The arguments that the sandbox wrapper hands on: fields of the argument
/// record, each after a comma.
pub open spec fn web_args_text(names: Seq<Seq<char>>) -> Seq<char> {
    names.map_values(|n: Seq<char>| ", __args."@ + n).flatten()
}

/// The statement that takes the lock: the same `lock()` of the one mutex in
/// both modes, with a guard that can be borrowed for writing only in the
/// exclusive mode. Unwrapping the guard stops the call where the lock is
/// poisoned.
pub open spec fn lock_text(lock: LockMode, handle: Seq<char>) -> Seq<char> {
    (if lock == LockMode::Exclusive {
        "let mut __webtau_guard = "@
    } else {
        "let __webtau_guard = "@
    }) + handle + ".lock().unwrap(); "@
}

/// The borrow of the guarded state that the inner function receives.
pub open spec fn guard_text(lock: LockMode) -> Seq<char> {
    if lock == LockMode::Exclusive {
        "&mut __webtau_guard"@
    } else {
        "&__webtau_guard"@
    }
}

/// The text of the host wrapper.
pub open spec fn native_text(w: NativeWrapperView) -> Seq<char> {
    "#[cfg(not(target_arch = \"wasm32\"))] #[::tauri::command] pub fn "@ + w.name + "("@
        + inputs_text(w.inputs) + w.handle + ": ::tauri::State<'_, ::std::sync::Mutex<"@
        + w.state_ty + ">>)"@ + ret_text(w.ret) + " { "@ + lock_text(w.lock, w.handle)
        + w.inner_name + "("@ + guard_text(w.lock) + native_args_text(w.call_args) + ") }"@
}

/// The return clause of the sandbox wrapper.
pub open spec fn web_ret_text(r: WebReturn) -> Seq<char> {
    match r {
        WebReturn::Nothing => Seq::empty(),
        WebReturn::Serialized => " -> ::wasm_bindgen::JsValue"@,
        WebReturn::Tagged =>
            " -> ::std::result::Result<::wasm_bindgen::JsValue, ::wasm_bindgen::JsError>"@,
    }
}

/// The parameter list of the sandbox wrapper: empty, or the one opaque
/// argument value.
pub open spec fn web_param_text(args: Option<ArgsRecordView>) -> Seq<char> {
    match args {
        None => Seq::empty(),
        Some(_) => "args: ::wasm_bindgen::JsValue"@,
    }
}

/// The declaration of the argument record and the statement that reads the
/// opaque argument value into it. Unwrapping stops the call where the value
/// does not fit the record.
pub open spec fn web_preamble_text(args: Option<ArgsRecordView>) -> Seq<char> {
    match args {
        None => Seq::empty(),
        Some(record) => "#[derive(::serde::Deserialize)] struct "@ + record.name + " { "@
            + inputs_text(record.fields) + "} let __args: "@ + record.name
            + " = ::serde_wasm_bindgen::from_value(args).unwrap(); "@,
    }
}

/// The name of the container accessor.
pub open spec fn accessor_text(a: Accessor) -> Seq<char> {
    match a {
        Accessor::Read => "with_state"@,
        Accessor::Write => "with_state_mut"@,
    }
}

/// The call of the inner function from inside the accessor's closure.
pub open spec fn web_call_text(w: WebWrapperView) -> Seq<char> {
    w.inner_name + "(state"@ + web_args_text(w.call_args) + ")"@
}

/// What the accessor's closure does with the inner call: drop its value,
/// serialize it, or serialize a success and turn a failure into a tagged
/// error that carries the failure's text.
pub open spec fn web_body_text(w: WebWrapperView) -> Seq<char> {
    match w.result {
        WebReturn::Nothing => web_call_text(w) + ";"@,
        WebReturn::Serialized => "let __result = "@ + web_call_text(w)
            + "; ::serde_wasm_bindgen::to_value(&__result).unwrap()"@,
        WebReturn::Tagged => "match "@ + web_call_text(w)
            + " { Ok(__val) => Ok(::serde_wasm_bindgen::to_value(&__val).unwrap()), Err(__err) => Err(::wasm_bindgen::JsError::new(&__err.to_string())), }"@,
    }
}

/// The text of the sandbox wrapper.
pub open spec fn web_text(w: WebWrapperView) -> Seq<char> {
    "#[cfg(target_arch = \"wasm32\")] #[::wasm_bindgen::prelude::wasm_bindgen] pub fn "@ + w.name
        + "("@ + web_param_text(w.args) + ")"@ + web_ret_text(w.result) + " { "@
        + web_preamble_text(w.args) + accessor_text(w.accessor) + "(|state| { "@ + web_body_text(
        w,
    ) + " }) }"@
}

/// The text of all three artifacts: the inner function, the host wrapper
/// and the sandbox wrapper, in that order.
pub open spec fn generated_text(g: GeneratedView) -> Seq<char> {
    inner_text(g.inner) + " "@ + native_text(g.native) + " "@ + web_text(g.web)
}

fn render_inputs(inputs: &Vec<NamedInput>) -> (out: String)
    ensures
        out@ == inputs_text(input_views(inputs@)),
{
    let mut items: Vec<String> = Vec::new();
    let mut i: usize = 0;
    while i < inputs.len()
        invariant
            i <= inputs.len(),
            items@.len() == i,
            forall|j: int| 0 <= j < i ==> (#[trigger] items@[j])@ == input_text(inputs@[j]@),
        decreases inputs.len() - i,
    {
        let p = &inputs[i];
        items.push(p.name.clone().concat(": ").concat(p.ty.as_str()).concat(", "));
        i += 1;
    }
    assert(texts(items@) =~= input_views(inputs@).map_values(|p: NamedInputView| input_text(p)));
    concat_all(&items)
}

fn render_native_args(names: &Vec<String>) -> (out: String)
    ensures
        out@ == native_args_text(texts(names@)),
{
    let mut items: Vec<String> = Vec::new();
    let mut i: usize = 0;
    while i < names.len()
        invariant
            i <= names.len(),
            items@.len() == i,
            forall|j: int| 0 <= j < i ==> (#[trigger] items@[j])@ == ", "@ + names@[j]@,
        decreases names.len() - i,
    {
        items.push(String::from_str(", ").concat(names[i].as_str()));
        i += 1;
    }
    assert(texts(items@) =~= texts(names@).map_values(|n: Seq<char>| ", "@ + n));
    concat_all(&items)
}

fn render_web_args(names: &Vec<String>) -> (out: String)
    ensures
        out@ == web_args_text(texts(names@)),
{
    let mut items: Vec<String> = Vec::new();
    let mut i: usize = 0;
    while i < names.len()
        invariant
            i <= names.len(),
            items@.len() == i,
            forall|j: int| 0 <= j < i ==> (#[trigger] items@[j])@ == ", __args."@ + names@[j]@,
        decreases names.len() - i,
    {
        items.push(String::from_str(", __args.").concat(names[i].as_str()));
        i += 1;
    }
    assert(texts(items@) =~= texts(names@).map_values(|n: Seq<char>| ", __args."@ + n));
    concat_all(&items)
}

/// Renders the host wrapper: compiled outside the sandbox target only,
/// registered as a host command, with the lock held around the inner call.
pub fn render_native(w: &NativeWrapper) -> (out: String)
    ensures
        out@ == native_text(w@),
{
    let inputs = render_inputs(&w.inputs);
    let ret = ret_tokens(&w.ret);
    let exclusive = match w.lock {
        LockMode::Exclusive => true,
        LockMode::Shared => false,
    };
    let lock = String::from_str(
        if exclusive {
            "let mut __webtau_guard = "
        } else {
            "let __webtau_guard = "
        },
    ).concat(w.handle.as_str()).concat(".lock().unwrap(); ");
    let guard = if exclusive {
        "&mut __webtau_guard"
    } else {
        "&__webtau_guard"
    };
    let args = render_native_args(&w.call_args);
    String::from_str("#[cfg(not(target_arch = \"wasm32\"))] #[::tauri::command] pub fn ").concat(
        w.name.as_str(),
    ).concat("(").concat(inputs.as_str()).concat(w.handle.as_str()).concat(
        ": ::tauri::State<'_, ::std::sync::Mutex<",
    ).concat(w.state_ty.as_str()).concat(">>)").concat(ret.as_str()).concat(" { ").concat(
        lock.as_str(),
    ).concat(w.inner_name.as_str()).concat("(").concat(guard).concat(args.as_str()).concat(") }")
}

fn render_web_preamble(args: &Option<ArgsRecord>) -> (out: String)
    ensures
        out@ == web_preamble_text(
            match *args {
                Some(r) => Some(r@),
                None => None,
            },
        ),
{
    match args {
        None => String::new(),
        Some(record) => {
            let fields = render_inputs(&record.fields);
            String::from_str("#[derive(::serde::Deserialize)] struct ").concat(
                record.name.as_str(),
            ).concat(" { ").concat(fields.as_str()).concat("} let __args: ").concat(
                record.name.as_str(),
            ).concat(" = ::serde_wasm_bindgen::from_value(args).unwrap(); ")
        },
    }
}

fn render_web_body(w: &WebWrapper) -> (out: String)
    ensures
        out@ == web_body_text(w@),
{
    let args = render_web_args(&w.call_args);
    let call = w.inner_name.clone().concat("(state").concat(args.as_str()).concat(")");
    match w.result {
        WebReturn::Nothing => call.concat(";"),
        WebReturn::Serialized => String::from_str("let __result = ").concat(call.as_str()).concat(
            "; ::serde_wasm_bindgen::to_value(&__result).unwrap()",
        ),
        WebReturn::Tagged => String::from_str("match ").concat(call.as_str()).concat(
            " { Ok(__val) => Ok(::serde_wasm_bindgen::to_value(&__val).unwrap()), Err(__err) => Err(::wasm_bindgen::JsError::new(&__err.to_string())), }",
        ),
    }
}

/// Renders the sandbox wrapper: compiled for the sandbox target only, with
/// the state reached through the container's accessor.
pub fn render_wasm(w: &WebWrapper) -> (out: String)
    ensures
        out@ == web_text(w@),
{
    let param = match &w.args {
        None => "",
        Some(_) => "args: ::wasm_bindgen::JsValue",
    };
    let ret = match w.result {
        WebReturn::Nothing => "",
        WebReturn::Serialized => " -> ::wasm_bindgen::JsValue",
        WebReturn::Tagged =>
            " -> ::std::result::Result<::wasm_bindgen::JsValue, ::wasm_bindgen::JsError>",
    };
    let accessor = match w.accessor {
        Accessor::Read => "with_state",
        Accessor::Write => "with_state_mut",
    };
    let preamble = render_web_preamble(&w.args);
    let body = render_web_body(w);
    proof {
        reveal_strlit("");
        assert(""@ =~= Seq::<char>::empty());
    }
    String::from_str(
        "#[cfg(target_arch = \"wasm32\")] #[::wasm_bindgen::prelude::wasm_bindgen] pub fn ",
    ).concat(w.name.as_str()).concat("(").concat(param).concat(")").concat(ret).concat(
        " { ",
    ).concat(preamble.as_str()).concat(accessor).concat("(|state| { ").concat(
        body.as_str(),
    ).concat(" }) }")
}

/// Renders all three artifacts as one text, the inner function first.
pub fn render_all(g: &Generated) -> (out: String)
    ensures
        out@ == generated_text(g@),
{
    let inner = render_inner(&g.inner);
    let native = render_native(&g.native);
    let web = render_wasm(&g.web);
    inner.concat(" ").concat(native.as_str()).concat(" ").concat(web.as_str())
}

} // verus!
