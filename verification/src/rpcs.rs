use vstd::prelude::*;

verus! {

/// The generic arguments of a path segment, each as the text of its tokens.
pub enum SegmentArgs {
    /// No generic arguments.
    Plain,
    AngleBracketed(Vec<String>),
    /// A parenthesized argument list, such as `(A) -> B`, as one text.
    Parenthesized(String),
}

/// A segment of a path: its identifier and its generic arguments.
pub struct SegmentInfo {
    pub ident: String,
    pub args: SegmentArgs,
}

/// A type as the `rpcs` attribute reads it: a path, by its segments, or any
/// other type.
pub enum TypeInfo {
    Path(Vec<SegmentInfo>),
    Other,
}

/// An argument of a method: the receiver, or a typed argument.
pub enum ArgInfo {
    Receiver,
    Typed(TypeInfo),
}

/// A method of the annotated impl block: its name, its return type (as the
/// text of its tokens, `None` where it returns `()` by default), and its
/// arguments.
pub struct MethodInfo {
    pub name: String,
    pub output: Option<String>,
    pub inputs: Vec<ArgInfo>,
}

/// An item of the annotated impl block.
pub enum ItemInfo {
    Method(MethodInfo),
    Other,
}

/// The impl block that the `rpcs` attribute annotates: its self type, the
/// trait that it implements (as the text of the trait's path), its generic
/// parameters (each as the text of its tokens) and its items.
pub struct ImplInfo {
    pub self_ty: TypeInfo,
    pub trait_path: Option<String>,
    pub generics: Vec<String>,
    pub items: Vec<ItemInfo>,
}

/// One arm of the generated dispatcher: the RPC method that it answers and
/// the type into which it decodes the call's parameters.
pub struct RpcArm {
    pub method: String,
    pub param: String,
}

/// What the `rpcs` attribute derives from an impl block.
pub struct Expansion {
    /// The module's name: the identifier of the first segment of the self
    /// type's path.
    pub module_name: String,
    /// The name of the client file written for the module.
    pub client_file: String,
    /// The text of the client file.
    pub client_source: String,
    /// The names of the impl block's methods, in order.
    pub fn_names: Vec<String>,
    /// The parameter types of the dispatcher's arms, in order.
    pub param_names: Vec<String>,
    /// The client return type of each method, in order.
    pub return_names: Vec<String>,
    /// The dispatcher's arms, in order.
    pub arms: Vec<RpcArm>,
    /// The impl block has no method.
    pub is_empty_impl: bool,
    /// The trait that the generated dispatcher implements.
    pub rpc_trait: String,
    /// The generic parameters of the impl blocks, with the storage parameter
    /// `S` added.
    pub generics: Vec<String>,
    /// The generic arguments that the last segment of the self type's path
    /// takes, with `S` added; `None` where the self type is not a path.
    pub self_ty_args: Option<Vec<String>>,
}

/// The texts of a sequence of strings.
pub open spec fn views(v: Seq<String>) -> Seq<Seq<char>> {
    v.map_values(|s: String| s@)
}

/// The texts of a sequence of arms, as pairs of method and parameter type.
pub open spec fn arm_views(v: Seq<RpcArm>) -> Seq<(Seq<char>, Seq<char>)> {
    v.map_values(|a: RpcArm| (a.method@, a.param@))
}

/// The methods that a sequence of arms answer, in order.
pub open spec fn arm_method_names(v: Seq<RpcArm>) -> Seq<Seq<char>> {
    v.map_values(|a: RpcArm| a.method@)
}

/// The lower-case form of a text, as `str::to_lowercase` computes it.
pub uninterp spec fn lowercase(s: Seq<char>) -> Seq<char>;

/// Lower-cases a text.
///
/// Calls `str::to_lowercase`; the contract claims only that the result is
/// `lowercase` of the argument's characters (Unicode's lower-case mapping,
/// a function of the text alone).
#[verifier::external_body]
fn to_lowercase(s: &str) -> (r: String)
    ensures
        r@ == lowercase(s@),
{
    s.to_lowercase()
}

/// The texts joined with `sep` between each two.
pub open spec fn join(parts: Seq<Seq<char>>, sep: Seq<char>) -> Seq<char>
    decreases parts.len(),
{
    if parts.len() == 0 {
        Seq::empty()
    } else if parts.len() == 1 {
        parts[0]
    } else {
        join(parts.drop_last(), sep) + sep + parts.last()
    }
}

/// The text of a path segment: its identifier, then its generic arguments.
pub open spec fn segment_text(s: SegmentInfo) -> Seq<char> {
    s.ident@ + match s.args {
        SegmentArgs::Plain => Seq::empty(),
        SegmentArgs::AngleBracketed(a) => "<"@ + join(views(a@), ", "@) + ">"@,
        SegmentArgs::Parenthesized(t) => t@,
    }
}

/// The text of a path: its segments joined with `::`.
pub open spec fn path_text(segments: Seq<SegmentInfo>) -> Seq<char> {
    join(segments.map_values(|s: SegmentInfo| segment_text(s)), "::"@)
}

/// The parameter type that an argument contributes: the full path of a
/// path-typed argument, nothing for the receiver or any other type.
pub open spec fn arg_params(a: ArgInfo) -> Seq<Seq<char>> {
    match a {
        ArgInfo::Typed(TypeInfo::Path(segments)) => if segments@.len() > 0 {
            seq![path_text(segments@)]
        } else {
            Seq::empty()
        },
        _ => Seq::empty(),
    }
}

/// The parameter types that a method's arguments contribute, in order.
pub open spec fn method_params(inputs: Seq<ArgInfo>) -> Seq<Seq<char>>
    decreases inputs.len(),
{
    if inputs.len() == 0 {
        Seq::empty()
    } else {
        method_params(inputs.drop_last()) + arg_params(inputs.last())
    }
}

/// The client return type of a method: `Result<()>` where it declares no
/// return type, else `Result<..>` round the return type's text.
pub open spec fn return_name(output: Option<String>) -> Seq<char> {
    match output {
        None => "Result<()>"@,
        Some(t) => "Result<"@ + t@ + ">"@,
    }
}

/// The names of the methods among the items, in order.
pub open spec fn impl_fn_names(items: Seq<ItemInfo>) -> Seq<Seq<char>>
    decreases items.len(),
{
    if items.len() == 0 {
        Seq::empty()
    } else {
        impl_fn_names(items.drop_last()) + match items.last() {
            ItemInfo::Method(m) => seq![m.name@],
            ItemInfo::Other => Seq::empty(),
        }
    }
}

/// The client return types of the methods among the items, in order.
pub open spec fn impl_return_names(items: Seq<ItemInfo>) -> Seq<Seq<char>>
    decreases items.len(),
{
    if items.len() == 0 {
        Seq::empty()
    } else {
        impl_return_names(items.drop_last()) + match items.last() {
            ItemInfo::Method(m) => seq![return_name(m.output)],
            ItemInfo::Other => Seq::empty(),
        }
    }
}

/// The parameter types of all methods among the items, in order.
pub open spec fn impl_params(items: Seq<ItemInfo>) -> Seq<Seq<char>>
    decreases items.len(),
{
    if items.len() == 0 {
        Seq::empty()
    } else {
        impl_params(items.drop_last()) + match items.last() {
            ItemInfo::Method(m) => method_params(m.inputs@),
            ItemInfo::Other => Seq::empty(),
        }
    }
}

/// The dispatcher's arms for the items: one for each path-typed argument of
/// each method, with the method's name and the argument's full path, in
/// order.
pub open spec fn impl_arms(items: Seq<ItemInfo>) -> Seq<(Seq<char>, Seq<char>)>
    decreases items.len(),
{
    if items.len() == 0 {
        Seq::empty()
    } else {
        impl_arms(items.drop_last()) + match items.last() {
            ItemInfo::Method(m) => method_params(m.inputs@).map_values(
                |p: Seq<char>| (m.name@, p),
            ),
            ItemInfo::Other => Seq::empty(),
        }
    }
}

/// The module's name: the identifier of the first segment of the self
/// type's path, `Error` for any other self type.
pub open spec fn module_name(self_ty: TypeInfo) -> Seq<char> {
    match self_ty {
        TypeInfo::Path(segments) => segments@[0].ident@,
        TypeInfo::Other => "Error"@,
    }
}

/// The impl block can be read: a self type that is a path has a segment.
pub open spec fn well_formed(item: ImplInfo) -> bool {
    item.self_ty matches TypeInfo::Path(segments) ==> segments@.len() > 0
}

/// The trait that the generated dispatcher implements: the impl block's own
/// trait, else the framework's `RPCs`.
pub open spec fn rpc_trait(trait_path: Option<String>) -> Seq<char> {
    match trait_path {
        Some(t) => t@,
        None => "abcf::RPCs"@,
    }
}

/// The generic parameter added to both impl blocks: the module's store.
pub open spec fn store_param() -> Seq<char> {
    "S: abcf::bs3::Store"@
}

/// The generic arguments of the self type's last segment once `S` is added:
/// appended to an angle-bracketed list, else as the only argument.
pub open spec fn self_ty_args(self_ty: TypeInfo) -> Option<Seq<Seq<char>>> {
    match self_ty {
        TypeInfo::Path(segments) => Some(
            match segments@.last().args {
                SegmentArgs::AngleBracketed(a) => views(a@).push("S"@),
                _ => seq!["S"@],
            },
        ),
        TypeInfo::Other => None,
    }
}

/// The opening of the client file: the imports that its functions use.
pub open spec fn client_header() -> Seq<char> {
    "\nuse abcf_sdk::jsonrpc::endpoint;\nuse abcf_sdk::error::*;\nuse abcf_sdk::providers::Provider;\nuse super::*;\n      "@
}

/// The client function for RPC method `f`: it sends a parameter of type
/// `p` as an ABCI query on the path `rpc/<module>/f`, where `m` names the
/// module's storage module, and returns `r`.
pub open spec fn client_stub(f: Seq<char>, p: Seq<char>, r: Seq<char>, m: Seq<char>) -> Seq<char> {
    "\npub async fn "@ + f + "<P: Provider>(p: P, param: "@ + p + ") -> "@ + r
        + " {\n    let mut p = p;\n\n    let data = serde_json::to_string(&param)?;\n    let abci_query_req = endpoint::abci_query::Request {\n        path: format!(\"rpc/{}/"@ + f
        + "\","@ + m
        + "::MODULE_NAME),\n        data,\n        height:Some(\"0\".to_string()),\n        prove: false,\n    };\n\n    let result: Option<endpoint::abci_query::Response> = p.request(\"abci_query\", &abci_query_req).await?;\n    if result.is_none() {\n      return Err(Error::ErrorString(\"result is none\".to_string()));\n    }\n    let result = result.unwrap();\n    abcf::log::debug!(\"Recv RPC response {:?}\", result);\n\n    if result.response.code == 0 {\n        let res = serde_json::from_slice(&result.response.value)?;\n        Ok(RPCResponse::new(res))\n    } else {\n        Err(Error::ReturnError(endpoint::Response::AbciQuery(result)))\n    }\n}\n            "@
}

/// The first `n` client functions, the i-th made of the i-th method name,
/// parameter type and return type.
pub open spec fn client_stubs(
    fns: Seq<Seq<char>>,
    params: Seq<Seq<char>>,
    rets: Seq<Seq<char>>,
    m: Seq<char>,
    n: nat,
) -> Seq<char>
    decreases n,
{
    if n == 0 {
        Seq::empty()
    } else {
        client_stubs(fns, params, rets, m, (n - 1) as nat) + client_stub(
            fns[n - 1],
            params[n - 1],
            rets[n - 1],
            m,
        )
    }
}

/// How many client functions the file holds: the method names, parameter
/// types and return types are taken side by side, as far as the shortest
/// list reaches.
pub open spec fn stub_count(fns: Seq<Seq<char>>, params: Seq<Seq<char>>, rets: Seq<Seq<char>>) -> nat {
    let a = if fns.len() <= params.len() { fns.len() } else { params.len() };
    if a <= rets.len() { a } else { rets.len() }
}

/// The text of the client file.
pub open spec fn client_source(
    fns: Seq<Seq<char>>,
    params: Seq<Seq<char>>,
    rets: Seq<Seq<char>>,
    m: Seq<char>,
) -> Seq<char> {
    client_header() + client_stubs(fns, params, rets, m, stub_count(fns, params, rets))
}

/// The name of the module's storage module, which client functions name.
pub open spec fn storage_module(name: Seq<char>) -> Seq<char> {
    "__abcf_storage_"@ + lowercase(name)
}

/// The name of the client file for a module.
pub open spec fn client_file(name: Seq<char>) -> Seq<char> {
    lowercase(name) + ".rs"@
}

/// Appends the client function for one method.
fn push_client_stub(out: &mut String, f: &str, p: &str, r: &str, m: &str)
    ensures
        final(out)@ == old(out)@ + client_stub(f@, p@, r@, m@),
{
    out.append("\npub async fn ");
    out.append(f);
    out.append("<P: Provider>(p: P, param: ");
    out.append(p);
    out.append(") -> ");
    out.append(r);
    out.append(" {\n    let mut p = p;\n\n    let data = serde_json::to_string(&param)?;\n    let abci_query_req = endpoint::abci_query::Request {\n        path: format!(\"rpc/{}/");
    out.append(f);
    out.append("\",");
    out.append(m);
    out.append("::MODULE_NAME),\n        data,\n        height:Some(\"0\".to_string()),\n        prove: false,\n    };\n\n    let result: Option<endpoint::abci_query::Response> = p.request(\"abci_query\", &abci_query_req).await?;\n    if result.is_none() {\n      return Err(Error::ErrorString(\"result is none\".to_string()));\n    }\n    let result = result.unwrap();\n    abcf::log::debug!(\"Recv RPC response {:?}\", result);\n\n    if result.response.code == 0 {\n        let res = serde_json::from_slice(&result.response.value)?;\n        Ok(RPCResponse::new(res))\n    } else {\n        Err(Error::ReturnError(endpoint::Response::AbciQuery(result)))\n    }\n}\n            ");
}

/// The text of the client file for the given method names, parameter types
/// and return types.
fn client_source_text(
    fns: &Vec<String>,
    params: &Vec<String>,
    rets: &Vec<String>,
    m: &str,
) -> (s: String)
    ensures
        s@ == client_source(views(fns@), views(params@), views(rets@), m@),
{
    let mut out = String::new();
    out.append("\nuse abcf_sdk::jsonrpc::endpoint;\nuse abcf_sdk::error::*;\nuse abcf_sdk::providers::Provider;\nuse super::*;\n      ");
    let a: usize = if fns.len() <= params.len() { fns.len() } else { params.len() };
    let n: usize = if a <= rets.len() { a } else { rets.len() };
    let ghost vf = views(fns@);
    let ghost vp = views(params@);
    let ghost vr = views(rets@);
    assert(n == stub_count(vf, vp, vr));
    let mut i: usize = 0;
    while i < n
        invariant
            i <= n,
            n <= fns.len(),
            n <= params.len(),
            n <= rets.len(),
            vf == views(fns@),
            vp == views(params@),
            vr == views(rets@),
            out@ == client_header() + client_stubs(vf, vp, vr, m@, i as nat),
        decreases n - i,
    {
        push_client_stub(&mut out, fns[i].as_str(), params[i].as_str(), rets[i].as_str(), m);
        i = i + 1;
    }
    out
}

/// The texts joined with `sep` between each two.
fn join_texts(parts: &Vec<String>, sep: &str) -> (r: String)
    ensures
        r@ == join(views(parts@), sep@),
{
    let mut out = String::new();
    let mut i: usize = 0;
    while i < parts.len()
        invariant
            i <= parts.len(),
            out@ == join(views(parts@).take(i as int), sep@),
        decreases parts.len() - i,
    {
        assert(views(parts@).take(i + 1).drop_last() =~= views(parts@).take(i as int));
        if i > 0 {
            out.append(sep);
        }
        out.append(parts[i].as_str());
        i = i + 1;
    }
    assert(views(parts@).take(i as int) =~= views(parts@));
    out
}

/// The text of a path segment.
fn segment_text_of(s: &SegmentInfo) -> (r: String)
    ensures
        r@ == segment_text(*s),
{
    let mut out = s.ident.clone();
    match &s.args {
        SegmentArgs::Plain => {},
        SegmentArgs::AngleBracketed(a) => {
            out.append("<");
            let inner = join_texts(a, ", ");
            out.append(inner.as_str());
            out.append(">");
        },
        SegmentArgs::Parenthesized(t) => {
            out.append(t.as_str());
        },
    }
    out
}

/// The text of a path.
fn path_text_of(segments: &Vec<SegmentInfo>) -> (r: String)
    ensures
        r@ == path_text(segments@),
{
    let mut texts: Vec<String> = Vec::new();
    let mut i: usize = 0;
    while i < segments.len()
        invariant
            i <= segments.len(),
            views(texts@) == segments@.take(i as int).map_values(|s: SegmentInfo| segment_text(s)),
        decreases segments.len() - i,
    {
        let ghost before = texts@;
        texts.push(segment_text_of(&segments[i]));
        assert(views(texts@) =~= views(before).push(segment_text(segments@[i as int])));
        assert(segments@.take(i + 1).map_values(|s: SegmentInfo| segment_text(s))
            =~= segments@.take(i as int).map_values(|s: SegmentInfo| segment_text(s)).push(
            segment_text(segments@[i as int]),
        ));
        i = i + 1;
    }
    assert(segments@.take(i as int) =~= segments@);
    join_texts(&texts, "::")
}

/// Adds the parameter types of a method's arguments to `params`, and an arm
/// for each of them, paired with the method's name, to `arms`.
fn push_method_params(
    name: &String,
    inputs: &Vec<ArgInfo>,
    params: &mut Vec<String>,
    arms: &mut Vec<RpcArm>,
)
    ensures
        views(final(params)@) == views(old(params)@) + method_params(inputs@),
        arm_views(final(arms)@) == arm_views(old(arms)@) + method_params(inputs@).map_values(
            |p: Seq<char>| (name@, p),
        ),
{
    let ghost params0 = views(params@);
    let ghost arms0 = arm_views(arms@);
    let mut j: usize = 0;
    while j < inputs.len()
        invariant
            j <= inputs.len(),
            views(params@) == params0 + method_params(inputs@.take(j as int)),
            arm_views(arms@) == arms0 + method_params(inputs@.take(j as int)).map_values(
                |p: Seq<char>| (name@, p),
            ),
        decreases inputs.len() - j,
    {
        assert(inputs@.take(j + 1).drop_last() =~= inputs@.take(j as int));
        let ghost before = method_params(inputs@.take(j as int));
        let ghost params_j = params@;
        let ghost arms_j = arms@;
        assert(method_params(inputs@.take(j + 1)) == before + arg_params(inputs@[j as int]));
        match &inputs[j] {
            ArgInfo::Typed(TypeInfo::Path(segments)) => {
                if segments.len() > 0 {
                    let p = path_text_of(segments);
                    params.push(p.clone());
                    arms.push(RpcArm { method: name.clone(), param: p });
                    assert(views(params@) =~= views(params_j).push(path_text(segments@)));
                    assert(arm_views(arms@) =~= arm_views(arms_j).push((name@, path_text(segments@))));
                } else {
                    assert(arg_params(inputs@[j as int]) =~= Seq::<Seq<char>>::empty());
                }
            },
            _ => {
                assert(arg_params(inputs@[j as int]) =~= Seq::<Seq<char>>::empty());
            },
        }
        assert((before + arg_params(inputs@[j as int])).map_values(|p: Seq<char>| (name@, p))
            =~= before.map_values(|p: Seq<char>| (name@, p)) + arg_params(inputs@[j as int]).map_values(
            |p: Seq<char>| (name@, p),
        ));
        j = j + 1;
    }
    assert(inputs@.take(j as int) =~= inputs@);
}

/// The client return type of a method.
fn return_name_text(output: &Option<String>) -> (r: String)
    ensures
        r@ == return_name(*output),
{
    match output {
        None => String::from_str("Result<()>"),
        Some(t) => {
            let mut r = String::from_str("Result<");
            r.append(t.as_str());
            r.append(">");
            r
        },
    }
}

/// The expansion that the `rpcs` attribute derives from an impl block.
pub open spec fn expands_to(item: ImplInfo, e: Expansion) -> bool {
    let name = module_name(item.self_ty);
    &&& e.module_name@ == name
    &&& e.client_file@ == client_file(name)
    &&& views(e.fn_names@) == impl_fn_names(item.items@)
    &&& views(e.param_names@) == impl_params(item.items@)
    &&& views(e.return_names@) == impl_return_names(item.items@)
    &&& arm_views(e.arms@) == impl_arms(item.items@)
    &&& e.is_empty_impl == (impl_fn_names(item.items@).len() == 0)
    &&& e.client_source@ == client_source(
        impl_fn_names(item.items@),
        impl_params(item.items@),
        impl_return_names(item.items@),
        storage_module(name),
    )
    &&& e.rpc_trait@ == rpc_trait(item.trait_path)
    &&& views(e.generics@) == views(item.generics@).push(store_param())
    &&& match e.self_ty_args {
        Some(a) => self_ty_args(item.self_ty) == Some(views(a@)),
        None => self_ty_args(item.self_ty) is None,
    }
}

/// Reads an impl block annotated with `rpcs`: the module's name, the
/// dispatcher's arms (one for each path-typed argument of each method,
/// decoding into that argument's full path), the client file's name and
/// text (the method names, parameter types and return types taken side by
/// side), whether the block has any method, and the trait and generics of
/// the generated dispatcher.
pub fn rpcs(item: &ImplInfo) -> (e: Expansion)
    requires
        well_formed(*item),
    ensures
        expands_to(*item, e),
{
    let mut fn_names: Vec<String> = Vec::new();
    let mut param_names: Vec<String> = Vec::new();
    let mut return_names: Vec<String> = Vec::new();
    let mut arms: Vec<RpcArm> = Vec::new();
    let mut is_empty_impl = true;
    let items = &item.items;
    let mut i: usize = 0;
    while i < items.len()
        invariant
            i <= items.len(),
            views(fn_names@) == impl_fn_names(items@.take(i as int)),
            views(param_names@) == impl_params(items@.take(i as int)),
            views(return_names@) == impl_return_names(items@.take(i as int)),
            arm_views(arms@) == impl_arms(items@.take(i as int)),
            is_empty_impl == (fn_names@.len() == 0),
        decreases items.len() - i,
    {
        assert(items@.take(i + 1).drop_last() =~= items@.take(i as int));
        match &items[i] {
            ItemInfo::Method(m) => {
                let ghost fns_i = fn_names@;
                let ghost rets_i = return_names@;
                fn_names.push(m.name.clone());
                return_names.push(return_name_text(&m.output));
                assert(views(fn_names@) =~= views(fns_i).push(m.name@));
                assert(views(return_names@) =~= views(rets_i).push(return_name(m.output)));
                push_method_params(&m.name, &m.inputs, &mut param_names, &mut arms);
                is_empty_impl = false;
            },
            ItemInfo::Other => {},
        }
        i = i + 1;
    }
    assert(items@.take(i as int) =~= items@);

    let (name, self_ty_args) = match &item.self_ty {
        TypeInfo::Path(segments) => {
            let last = &segments[segments.len() - 1];
            let args = match &last.args {
                SegmentArgs::AngleBracketed(a) => {
                    let mut v = a.clone();
                    v.push(String::from_str("S"));
                    assert(views(v@) =~= views(a@).push("S"@));
                    v
                },
                _ => {
                    let mut v: Vec<String> = Vec::new();
                    v.push(String::from_str("S"));
                    assert(views(v@) =~= seq!["S"@]);
                    v
                },
            };
            (segments[0].ident.clone(), Some(args))
        },
        TypeInfo::Other => (String::from_str("Error"), None),
    };
    let rpc_trait = match &item.trait_path {
        Some(t) => t.clone(),
        None => String::from_str("abcf::RPCs"),
    };
    let mut generics = item.generics.clone();
    generics.push(String::from_str("S: abcf::bs3::Store"));
    assert(views(generics@) =~= views(item.generics@).push(store_param()));

    let lower = to_lowercase(name.as_str());
    let mut client_file = lower.clone();
    client_file.append(".rs");
    let mut storage = String::from_str("__abcf_storage_");
    storage.append(lower.as_str());
    let client_source = client_source_text(&fn_names, &param_names, &return_names, storage.as_str());
    Expansion {
        module_name: name,
        client_file,
        client_source,
        fn_names,
        param_names,
        return_names,
        arms,
        is_empty_impl,
        rpc_trait,
        generics,
        self_ty_args,
    }
}

/// The dispatcher's routing table: the method of each arm, in order.
pub fn dispatch_table(e: &Expansion) -> (t: Vec<String>)
    ensures
        views(t@) == arm_method_names(e.arms@),
        t@.len() == e.arms@.len(),
        forall|k: int| 0 <= k < t@.len() ==> (#[trigger] t@[k])@ == e.arms@[k].method@,
{
    let mut t: Vec<String> = Vec::new();
    let mut i: usize = 0;
    while i < e.arms.len()
        invariant
            i <= e.arms.len(),
            views(t@) == arm_method_names(e.arms@).take(i as int),
        decreases e.arms.len() - i,
    {
        let ghost before = t@;
        t.push(e.arms[i].method.clone());
        assert(views(t@) =~= views(before).push(e.arms@[i as int].method@));
        assert(arm_method_names(e.arms@).take(i + 1) =~= arm_method_names(e.arms@).take(i as int).push(e.arms@[i as int].method@));
        i = i + 1;
    }
    assert(arm_method_names(e.arms@).take(i as int) =~= arm_method_names(e.arms@));
    assert forall|k: int| 0 <= k < t@.len() implies (#[trigger] t@[k])@ == e.arms@[k].method@ by {
        assert(views(t@)[k] == t@[k]@);
        assert(arm_method_names(e.arms@)[k] == e.arms@[k].method@);
    }
    t
}

proof fn lemma_arms_follow_params(items: Seq<ItemInfo>)
    ensures
        impl_arms(items).len() == impl_params(items).len(),
        forall|k: int|
            0 <= k < impl_arms(items).len() ==> (#[trigger] impl_arms(items)[k]).1
                == impl_params(items)[k] && impl_fn_names(items).contains(impl_arms(items)[k].0),
    decreases items.len(),
{
    if items.len() > 0 {
        let rest = items.drop_last();
        lemma_arms_follow_params(rest);
        match items.last() {
            ItemInfo::Method(m) => {
                let fns = impl_fn_names(items);
                assert(fns == impl_fn_names(rest) + seq![m.name@]);
                assert(fns[fns.len() - 1] == m.name@);
                assert forall|k: int| 0 <= k < impl_arms(items).len() implies (
                #[trigger] impl_arms(items)[k]).1 == impl_params(items)[k] && fns.contains(
                    impl_arms(items)[k].0,
                ) by {
                    if k < impl_arms(rest).len() {
                        let j = choose|j: int|
                            0 <= j < impl_fn_names(rest).len() && impl_fn_names(rest)[j]
                                == impl_arms(rest)[k].0;
                        assert(fns[j] == impl_fn_names(rest)[j]);
                    } else {
                        assert(fns[fns.len() - 1] == impl_arms(items)[k].0);
                    }
                }
            },
            ItemInfo::Other => {
                assert(impl_arms(items) =~= impl_arms(rest));
                assert(impl_params(items) =~= impl_params(rest));
                assert(impl_fn_names(items) =~= impl_fn_names(rest));
            },
        }
    }
}

proof fn lemma_one_return_name_per_method(items: Seq<ItemInfo>)
    ensures
        impl_return_names(items).len() == impl_fn_names(items).len(),
    decreases items.len(),
{
    if items.len() > 0 {
        lemma_one_return_name_per_method(items.drop_last());
    }
}

/// Every arm of the dispatcher answers a method of the impl block, and
/// decodes into the parameter type at the same place: the arms follow the
/// parameter types one for one.
pub proof fn law_arms_answer_methods(item: ImplInfo, e: Expansion)
    requires
        expands_to(item, e),
    ensures
        e.arms@.len() == e.param_names@.len(),
        forall|k: int|
            0 <= k < e.arms@.len() ==> (#[trigger] e.arms@[k]).param@ == e.param_names@[k]@
                && exists|j: int| 0 <= j < e.fn_names@.len() && e.fn_names@[j]@ == e.arms@[k].method@,
{
    lemma_arms_follow_params(item.items@);
    assert forall|k: int| 0 <= k < e.arms@.len() implies (#[trigger] e.arms@[k]).param@
        == e.param_names@[k]@ && exists|j: int|
        0 <= j < e.fn_names@.len() && e.fn_names@[j]@ == e.arms@[k].method@ by {
        assert(arm_views(e.arms@)[k] == (e.arms@[k].method@, e.arms@[k].param@));
        assert(impl_arms(item.items@)[k] == arm_views(e.arms@)[k]);
        let j = choose|j: int|
            0 <= j < impl_fn_names(item.items@).len() && impl_fn_names(item.items@)[j]
                == impl_arms(item.items@)[k].0;
        assert(views(e.fn_names@)[j] == e.fn_names@[j]@);
        assert(views(e.param_names@)[k] == e.param_names@[k]@);
    }
}

/// An impl block without methods gets a dispatcher without arms, and a
/// client file that holds only its header.
pub proof fn law_empty_impl_has_no_arms(item: ImplInfo, e: Expansion)
    requires
        expands_to(item, e),
        e.is_empty_impl,
    ensures
        e.arms@.len() == 0,
        e.client_source@ == client_header(),
{
    lemma_arms_follow_params(item.items@);
    if e.arms@.len() > 0 {
        assert(impl_fn_names(item.items@).contains(impl_arms(item.items@)[0].0));
    }
    assert(e.client_source@ =~= client_header());
}

/// The client file holds one function for each method, as long as the
/// parameter types reach, and each method has exactly one return type.
pub proof fn law_one_client_function_per_method(item: ImplInfo, e: Expansion)
    requires
        expands_to(item, e),
    ensures
        e.return_names@.len() == e.fn_names@.len(),
        stub_count(views(e.fn_names@), views(e.param_names@), views(e.return_names@)) == if e.fn_names@.len()
            <= e.param_names@.len() {
            e.fn_names@.len()
        } else {
            e.param_names@.len()
        },
{
    lemma_one_return_name_per_method(item.items@);
}

/// The number of path-typed arguments of a method, counted one by one.
pub open spec fn path_arg_count(inputs: Seq<ArgInfo>) -> nat
    decreases inputs.len(),
{
    if inputs.len() == 0 {
        0
    } else {
        path_arg_count(inputs.drop_last()) + match inputs.last() {
            ArgInfo::Typed(TypeInfo::Path(segments)) => if segments@.len() > 0 {
                1nat
            } else {
                0nat
            },
            _ => 0nat,
        }
    }
}

/// The number of path-typed arguments over all methods among the items.
pub open spec fn impl_path_arg_count(items: Seq<ItemInfo>) -> nat
    decreases items.len(),
{
    if items.len() == 0 {
        0
    } else {
        impl_path_arg_count(items.drop_last()) + match items.last() {
            ItemInfo::Method(m) => path_arg_count(m.inputs@),
            ItemInfo::Other => 0nat,
        }
    }
}

proof fn lemma_method_params_count(inputs: Seq<ArgInfo>)
    ensures
        method_params(inputs).len() == path_arg_count(inputs),
    decreases inputs.len(),
{
    if inputs.len() > 0 {
        lemma_method_params_count(inputs.drop_last());
    }
}

proof fn lemma_impl_arms_count(items: Seq<ItemInfo>)
    ensures
        impl_arms(items).len() == impl_path_arg_count(items),
    decreases items.len(),
{
    if items.len() > 0 {
        lemma_impl_arms_count(items.drop_last());
        if let ItemInfo::Method(m) = items.last() {
            lemma_method_params_count(m.inputs@);
        }
    }
}

proof fn lemma_method_params_has(inputs: Seq<ArgInfo>, j: int, segments: Vec<SegmentInfo>)
    requires
        0 <= j < inputs.len(),
        inputs[j] == ArgInfo::Typed(TypeInfo::Path(segments)),
        segments@.len() > 0,
    ensures
        exists|q: int|
            0 <= q < method_params(inputs).len() && method_params(inputs)[q] == path_text(
                segments@,
            ),
    decreases inputs.len(),
{
    let rest = inputs.drop_last();
    if j == inputs.len() - 1 {
        let q = method_params(rest).len() as int;
        assert(method_params(inputs)[q] == path_text(segments@));
    } else {
        lemma_method_params_has(rest, j, segments);
        let q = choose|q: int|
            0 <= q < method_params(rest).len() && method_params(rest)[q] == path_text(segments@);
        assert(method_params(inputs)[q] == method_params(rest)[q]);
    }
}

proof fn lemma_impl_arms_has(items: Seq<ItemInfo>, i: int, m: MethodInfo, q: int)
    requires
        0 <= i < items.len(),
        items[i] == ItemInfo::Method(m),
        0 <= q < method_params(m.inputs@).len(),
    ensures
        exists|k: int|
            0 <= k < impl_arms(items).len() && impl_arms(items)[k] == (
                m.name@,
                method_params(m.inputs@)[q],
            ),
    decreases items.len(),
{
    let rest = items.drop_last();
    if i == items.len() - 1 {
        let k = impl_arms(rest).len() + q;
        assert(impl_arms(items)[k] == (m.name@, method_params(m.inputs@)[q]));
    } else {
        lemma_impl_arms_has(rest, i, m, q);
        let k = choose|k: int|
            0 <= k < impl_arms(rest).len() && impl_arms(rest)[k] == (
                m.name@,
                method_params(m.inputs@)[q],
            );
        assert(impl_arms(items)[k] == impl_arms(rest)[k]);
    }
}

/// Every path-typed argument of every method, wherever the method stands in
/// the impl block, gets an arm that answers the method and decodes into the
/// argument's full path, and the parameter type at the arm's place is that
/// path; and there are exactly as many arms as path-typed arguments.
pub proof fn law_every_path_argument_has_an_arm(
    item: ImplInfo,
    e: Expansion,
    i: int,
    m: MethodInfo,
    j: int,
    segments: Vec<SegmentInfo>,
)
    requires
        expands_to(item, e),
        0 <= i < item.items@.len(),
        item.items@[i] == ItemInfo::Method(m),
        0 <= j < m.inputs@.len(),
        m.inputs@[j] == ArgInfo::Typed(TypeInfo::Path(segments)),
        segments@.len() > 0,
    ensures
        e.arms@.len() == impl_path_arg_count(item.items@),
        e.param_names@.len() == e.arms@.len(),
        exists|k: int|
            0 <= k < e.arms@.len() && e.arms@[k].method@ == m.name@ && e.arms@[k].param@
                == path_text(segments@) && e.param_names@[k]@ == path_text(segments@),
{
    lemma_impl_arms_count(item.items@);
    lemma_arms_follow_params(item.items@);
    lemma_method_params_has(m.inputs@, j, segments);
    let q = choose|q: int|
        0 <= q < method_params(m.inputs@).len() && method_params(m.inputs@)[q] == path_text(
            segments@,
        );
    lemma_impl_arms_has(item.items@, i, m, q);
    let k = choose|k: int|
        0 <= k < impl_arms(item.items@).len() && impl_arms(item.items@)[k] == (
            m.name@,
            method_params(m.inputs@)[q],
        );
    assert(arm_views(e.arms@)[k] == (e.arms@[k].method@, e.arms@[k].param@));
    assert(views(e.param_names@)[k] == e.param_names@[k]@);
}

proof fn lemma_client_stubs_prefix(
    fns: Seq<Seq<char>>,
    params: Seq<Seq<char>>,
    rets: Seq<Seq<char>>,
    m: Seq<char>,
    n: nat,
    i: nat,
) -> (rest: Seq<char>)
    requires
        i < n,
    ensures
        client_stubs(fns, params, rets, m, n) == client_stubs(fns, params, rets, m, i)
            + client_stub(fns[i as int], params[i as int], rets[i as int], m) + rest,
    decreases n,
{
    if n == i + 1 {
        let rest = Seq::<char>::empty();
        assert(client_stubs(fns, params, rets, m, n) =~= client_stubs(fns, params, rets, m, i)
            + client_stub(fns[i as int], params[i as int], rets[i as int], m) + rest);
        rest
    } else {
        let rest0 = lemma_client_stubs_prefix(fns, params, rets, m, (n - 1) as nat, i);
        let rest = rest0 + client_stub(fns[n - 1], params[n - 1], rets[n - 1], m);
        assert(client_stubs(fns, params, rets, m, n) =~= client_stubs(fns, params, rets, m, i)
            + client_stub(fns[i as int], params[i as int], rets[i as int], m) + rest);
        rest
    }
}

/// The client file opens with its header, and holds the client function of
/// the i-th method, the i-th parameter type and the i-th return type, for
/// every i that all three lists reach; each such function sends its query
/// to the module's storage module, named after the lower-cased module name.
pub proof fn law_client_file_holds_every_function(item: ImplInfo, e: Expansion, i: int)
    requires
        expands_to(item, e),
        0 <= i,
        i < e.fn_names@.len(),
        i < e.param_names@.len(),
        i < e.return_names@.len(),
    ensures
        e.client_source@.len() >= client_header().len(),
        e.client_source@.take(client_header().len() as int) == client_header(),
        exists|off: int|
            #![trigger e.client_source@.subrange(off, off + client_stub(e.fn_names@[i]@, e.param_names@[i]@, e.return_names@[i]@, "__abcf_storage_"@ + lowercase(e.module_name@)).len())]
            client_header().len() <= off && off + client_stub(
                e.fn_names@[i]@,
                e.param_names@[i]@,
                e.return_names@[i]@,
                "__abcf_storage_"@ + lowercase(e.module_name@),
            ).len() <= e.client_source@.len() && e.client_source@.subrange(
                off,
                off + client_stub(
                    e.fn_names@[i]@,
                    e.param_names@[i]@,
                    e.return_names@[i]@,
                    "__abcf_storage_"@ + lowercase(e.module_name@),
                ).len(),
            ) == client_stub(
                e.fn_names@[i]@,
                e.param_names@[i]@,
                e.return_names@[i]@,
                "__abcf_storage_"@ + lowercase(e.module_name@),
            ),
{
    let fns = views(e.fn_names@);
    let params = views(e.param_names@);
    let rets = views(e.return_names@);
    let m = "__abcf_storage_"@ + lowercase(e.module_name@);
    let n = stub_count(fns, params, rets);
    assert(fns[i] == e.fn_names@[i]@);
    assert(params[i] == e.param_names@[i]@);
    assert(rets[i] == e.return_names@[i]@);
    let rest = lemma_client_stubs_prefix(fns, params, rets, m, n, i as nat);
    let stub = client_stub(fns[i], params[i], rets[i], m);
    let off: int = client_header().len() as int + client_stubs(fns, params, rets, m, i as nat).len() as int;
    assert(e.client_source@ == client_header() + (client_stubs(fns, params, rets, m, i as nat)
        + stub + rest));
    assert(e.client_source@.subrange(off, off + stub.len()) =~= stub);
    assert(e.client_source@.take(client_header().len() as int) =~= client_header());
}

/// The client file is named by the whole lower-cased module name followed
/// by `.rs`, and the module is named by the first segment of the self
/// type's path (`Error` for any other self type).
pub proof fn law_client_file_is_module_name(item: ImplInfo, e: Expansion)
    requires
        expands_to(item, e),
    ensures
        e.client_file@ == lowercase(e.module_name@) + ".rs"@,
        e.module_name@ == match item.self_ty {
            TypeInfo::Path(segments) => segments@[0].ident@,
            TypeInfo::Other => "Error"@,
        },
{
}

/// Both impl blocks gain the store parameter `S: abcf::bs3::Store` after
/// their own generic parameters; where the self type is a path, its last
/// segment takes its own generic arguments followed by `S` (only `S` where
/// it has none in angle brackets), whatever the other segments hold; and
/// the dispatcher implements the impl block's own trait, else `abcf::RPCs`.
pub proof fn law_store_parameter_is_added(item: ImplInfo, e: Expansion)
    requires
        expands_to(item, e),
        well_formed(item),
    ensures
        e.generics@.len() == item.generics@.len() + 1,
        forall|k: int| 0 <= k < item.generics@.len() ==> (#[trigger] e.generics@[k])@ == item.generics@[k]@,
        e.generics@[item.generics@.len() as int]@ == "S: abcf::bs3::Store"@,
        e.rpc_trait@ == match item.trait_path {
            Some(t) => t@,
            None => "abcf::RPCs"@,
        },
        match item.self_ty {
            TypeInfo::Path(segments) => match e.self_ty_args {
                Some(args) => args@.len() >= 1 && args@[args@.len() - 1]@ == "S"@ && match segments@[segments@.len() - 1].args {
                    SegmentArgs::AngleBracketed(own) => args@.len() == own@.len() + 1 && forall|k: int|
                        0 <= k < own@.len() ==> (#[trigger] args@[k])@ == own@[k]@,
                    _ => args@.len() == 1,
                },
                None => false,
            },
            TypeInfo::Other => e.self_ty_args is None,
        },
{
    assert(views(e.generics@).len() == e.generics@.len());
    assert(views(item.generics@).len() == item.generics@.len());
    assert forall|k: int| 0 <= k < item.generics@.len() implies (#[trigger] e.generics@[k])@
        == item.generics@[k]@ by {
        assert(views(e.generics@)[k] == e.generics@[k]@);
        assert(views(item.generics@)[k] == item.generics@[k]@);
    }
    assert(views(e.generics@)[item.generics@.len() as int] == e.generics@[item.generics@.len() as int]@);
    if let TypeInfo::Path(segments) = item.self_ty {
        if let Some(args) = e.self_ty_args {
            assert(views(args@).len() == args@.len());
            assert(views(args@)[args@.len() - 1] == args@[args@.len() - 1]@);
            if let SegmentArgs::AngleBracketed(own) = segments@[segments@.len() - 1].args {
                assert(views(own@).len() == own@.len());
                assert forall|k: int| 0 <= k < own@.len() implies (#[trigger] args@[k])@ == own@[k]@ by {
                    assert(views(args@)[k] == args@[k]@);
                    assert(views(own@)[k] == own@[k]@);
                }
            }
        }
    }
}

/// The routing table lists the method of every arm, one entry per arm, in
/// order.
pub proof fn law_dispatch_table_lists_every_arm(e: Expansion, t: Seq<String>)
    requires
        views(t) == arm_method_names(e.arms@),
    ensures
        t.len() == e.arms@.len(),
        forall|k: int| 0 <= k < t.len() ==> (#[trigger] t[k])@ == e.arms@[k].method@,
{
    assert(views(t).len() == t.len());
    assert(arm_method_names(e.arms@).len() == e.arms@.len());
    assert forall|k: int| 0 <= k < t.len() implies (#[trigger] t[k])@ == e.arms@[k].method@ by {
        assert(views(t)[k] == t[k]@);
        assert(arm_method_names(e.arms@)[k] == e.arms@[k].method@);
    }
}

/// The number of methods among the items, counted one by one.
pub open spec fn method_count(items: Seq<ItemInfo>) -> nat
    decreases items.len(),
{
    if items.len() == 0 {
        0
    } else {
        method_count(items.drop_last()) + if items.last() is Method {
            1nat
        } else {
            0nat
        }
    }
}

proof fn lemma_fn_names_count(items: Seq<ItemInfo>)
    ensures
        impl_fn_names(items).len() == method_count(items),
        impl_return_names(items).len() == method_count(items),
    decreases items.len(),
{
    if items.len() > 0 {
        lemma_fn_names_count(items.drop_last());
    }
}

proof fn lemma_method_listed(items: Seq<ItemInfo>, i: int, m: MethodInfo) -> (q: int)
    requires
        0 <= i < items.len(),
        items[i] == ItemInfo::Method(m),
    ensures
        0 <= q < impl_fn_names(items).len(),
        q < impl_return_names(items).len(),
        impl_fn_names(items)[q] == m.name@,
        impl_return_names(items)[q] == return_name(m.output),
    decreases items.len(),
{
    lemma_fn_names_count(items);
    lemma_fn_names_count(items.drop_last());
    if i == items.len() - 1 {
        impl_fn_names(items.drop_last()).len() as int
    } else {
        let q = lemma_method_listed(items.drop_last(), i, m);
        assert(impl_fn_names(items)[q] == impl_fn_names(items.drop_last())[q]);
        assert(impl_return_names(items)[q] == impl_return_names(items.drop_last())[q]);
        q
    }
}

/// Every method of the impl block, wherever it stands, is listed by name,
/// at the same place as its client return type: `Result<()>` where it
/// declares none, else `Result<` round its return type `>`; there are as
/// many names as methods, and the block counts as empty exactly when it has
/// no method.
pub proof fn law_every_method_is_listed(item: ImplInfo, e: Expansion, i: int, m: MethodInfo)
    requires
        expands_to(item, e),
        0 <= i < item.items@.len(),
        item.items@[i] == ItemInfo::Method(m),
    ensures
        e.fn_names@.len() == method_count(item.items@),
        e.return_names@.len() == e.fn_names@.len(),
        !e.is_empty_impl,
        exists|q: int|
            0 <= q < e.fn_names@.len() && (#[trigger] e.fn_names@[q])@ == m.name@
                && e.return_names@[q]@ == match m.output {
                None => "Result<()>"@,
                Some(t) => "Result<"@ + t@ + ">"@,
            },
{
    lemma_fn_names_count(item.items@);
    let q = lemma_method_listed(item.items@, i, m);
    assert(views(e.fn_names@)[q] == e.fn_names@[q]@);
    assert(views(e.return_names@)[q] == e.return_names@[q]@);
}

/// An impl block without any method is empty: it lists no method and gets
/// no arm.
pub proof fn law_impl_without_methods_is_empty(item: ImplInfo, e: Expansion)
    requires
        expands_to(item, e),
        forall|i: int| 0 <= i < item.items@.len() ==> !(#[trigger] item.items@[i] is Method),
    ensures
        e.is_empty_impl,
        e.fn_names@.len() == 0,
        e.arms@.len() == 0,
{
    lemma_fn_names_count(item.items@);
    lemma_no_methods_count(item.items@);
    law_empty_impl_has_no_arms(item, e);
}

proof fn lemma_no_methods_count(items: Seq<ItemInfo>)
    requires
        forall|i: int| 0 <= i < items.len() ==> !(#[trigger] items[i] is Method),
    ensures
        method_count(items) == 0,
    decreases items.len(),
{
    if items.len() > 0 {
        let rest = items.drop_last();
        assert forall|i: int| 0 <= i < rest.len() implies !(#[trigger] rest[i] is Method) by {
            assert(rest[i] == items[i]);
        }
        lemma_no_methods_count(rest);
        assert(!(items[items.len() - 1] is Method));
    }
}

/// A client function opens with its signature: the method's name, the
/// provider parameter, the RPC parameter's type and the return type.
pub proof fn law_client_function_signature(f: Seq<char>, p: Seq<char>, r: Seq<char>, m: Seq<char>)
    ensures
        client_stub(f, p, r, m).len() >= ("\npub async fn "@ + f + "<P: Provider>(p: P, param: "@ + p
            + ") -> "@ + r).len(),
        client_stub(f, p, r, m).take(
            ("\npub async fn "@ + f + "<P: Provider>(p: P, param: "@ + p + ") -> "@ + r).len() as int,
        ) == "\npub async fn "@ + f + "<P: Provider>(p: P, param: "@ + p + ") -> "@ + r,
{
    let sig = "\npub async fn "@ + f + "<P: Provider>(p: P, param: "@ + p + ") -> "@ + r;
    let stub = client_stub(f, p, r, m);
    assert(stub.take(sig.len() as int) =~= sig);
}

} // verus!
