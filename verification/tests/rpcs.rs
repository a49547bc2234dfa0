use abcf::rpcs::{
    dispatch_table, rpcs, ArgInfo, ImplInfo, ItemInfo, MethodInfo, SegmentArgs, SegmentInfo, TypeInfo,
};

fn header() -> String {
    format!(
        r#"
use abcf_sdk::jsonrpc::endpoint;
use abcf_sdk::error::*;
use abcf_sdk::providers::Provider;
use super::*;
      "#
    )
}

fn stub(fn_name: &str, param_name: &str, return_name: &str, module_name_mod_name: &str) -> String {
    format!(
        r#"
pub async fn {}<P: Provider>(p: P, param: {}) -> {} {{
    let mut p = p;

    let data = serde_json::to_string(&param)?;
    let abci_query_req = endpoint::abci_query::Request {{
        path: format!("rpc/{{}}/{}",{}::MODULE_NAME),
        data,
        height:Some("0".to_string()),
        prove: false,
    }};

    let result: Option<endpoint::abci_query::Response> = p.request("abci_query", &abci_query_req).await?;
    if result.is_none() {{
      return Err(Error::ErrorString("result is none".to_string()));
    }}
    let result = result.unwrap();
    abcf::log::debug!("Recv RPC response {{:?}}", result);

    if result.response.code == 0 {{
        let res = serde_json::from_slice(&result.response.value)?;
        Ok(RPCResponse::new(res))
    }} else {{
        Err(Error::ReturnError(endpoint::Response::AbciQuery(result)))
    }}
}}
            "#,
        fn_name, param_name, return_name, fn_name, module_name_mod_name
    )
}

fn seg(ident: &str) -> SegmentInfo {
    SegmentInfo { ident: ident.to_string(), args: SegmentArgs::Plain }
}

fn path(segments: &[&str]) -> TypeInfo {
    TypeInfo::Path(segments.iter().map(|s| seg(s)).collect())
}

fn method(name: &str, output: Option<&str>, inputs: Vec<ArgInfo>) -> ItemInfo {
    ItemInfo::Method(MethodInfo {
        name: name.to_string(),
        output: output.map(|s| s.to_string()),
        inputs,
    })
}

fn plain_impl(self_ty: TypeInfo, items: Vec<ItemInfo>) -> ImplInfo {
    ImplInfo { self_ty, trait_path: None, generics: vec![], items }
}

fn arms_of(e: &abcf::rpcs::Expansion) -> Vec<(String, String)> {
    e.arms.iter().map(|a| (a.method.clone(), a.param.clone())).collect()
}

fn pair(a: &str, b: &str) -> (String, String) {
    (a.to_string(), b.to_string())
}

fn strings(v: &[&str]) -> Vec<String> {
    v.iter().map(|s| s.to_string()).collect()
}

#[test]
fn mock_module_expansion() {
    let item = plain_impl(
        path(&["MockModule"]),
        vec![method(
            "get_owned_outputs",
            Some("RPCResponse < String >"),
            vec![ArgInfo::Receiver, ArgInfo::Typed(TypeInfo::Other), ArgInfo::Typed(path(&["String"]))],
        )],
    );
    let e = rpcs(&item);
    assert_eq!(e.module_name, "MockModule");
    assert_eq!(e.client_file, "mockmodule.rs");
    assert_eq!(e.fn_names, strings(&["get_owned_outputs"]));
    assert_eq!(e.return_names, strings(&["Result<RPCResponse < String >>"]));
    assert_eq!(e.param_names, strings(&["String"]));
    assert_eq!(arms_of(&e), vec![pair("get_owned_outputs", "String")]);
    assert!(!e.is_empty_impl);
    assert_eq!(e.rpc_trait, "abcf::RPCs");
    assert_eq!(e.generics, strings(&["S: abcf::bs3::Store"]));
    assert_eq!(e.self_ty_args, Some(strings(&["S"])));
    let expected = header()
        + &stub(
            "get_owned_outputs",
            "String",
            "Result<RPCResponse < String >>",
            "__abcf_storage_mockmodule",
        );
    assert_eq!(e.client_source, expected);
    assert_eq!(dispatch_table(&e), strings(&["get_owned_outputs"]));
}

#[test]
fn empty_impl_expansion() {
    let item = ImplInfo {
        self_ty: TypeInfo::Path(vec![SegmentInfo {
            ident: "UTXOModule".to_string(),
            args: SegmentArgs::AngleBracketed(strings(&["C"])),
        }]),
        trait_path: None,
        generics: strings(&["C : Config + Sync + Send"]),
        items: vec![ItemInfo::Other],
    };
    let e = rpcs(&item);
    assert_eq!(e.module_name, "UTXOModule");
    assert_eq!(e.client_file, "utxomodule.rs");
    assert!(e.is_empty_impl);
    assert!(e.fn_names.is_empty());
    assert!(e.arms.is_empty());
    assert_eq!(e.client_source, header());
    assert_eq!(e.generics, strings(&["C : Config + Sync + Send", "S: abcf::bs3::Store"]));
    assert_eq!(e.self_ty_args, Some(strings(&["C", "S"])));
    assert!(dispatch_table(&e).is_empty());
}

#[test]
fn non_path_self_type_is_named_error() {
    let item = ImplInfo {
        self_ty: TypeInfo::Other,
        trait_path: Some("my::Rpc".to_string()),
        generics: vec![],
        items: vec![],
    };
    let e = rpcs(&item);
    assert_eq!(e.module_name, "Error");
    assert_eq!(e.client_file, "error.rs");
    assert_eq!(e.rpc_trait, "my::Rpc");
    assert_eq!(e.self_ty_args, None);
}

#[test]
fn default_return_type_is_unit_result() {
    let item = plain_impl(
        path(&["M"]),
        vec![method("ping", None, vec![ArgInfo::Receiver, ArgInfo::Typed(path(&["u64"]))])],
    );
    let e = rpcs(&item);
    assert_eq!(e.return_names, strings(&["Result<()>"]));
    assert_eq!(e.client_source, header() + &stub("ping", "u64", "Result<()>", "__abcf_storage_m"));
}

#[test]
fn multi_segment_parameter_is_one_arm_with_full_path() {
    let item = plain_impl(
        path(&["Mod", "Inner"]),
        vec![
            method(
                "call_me",
                Some("u8"),
                vec![ArgInfo::Receiver, ArgInfo::Typed(path(&["std", "string", "String"]))],
            ),
            method("other", None, vec![ArgInfo::Receiver, ArgInfo::Typed(path(&["X"]))]),
        ],
    );
    let e = rpcs(&item);
    assert_eq!(e.module_name, "Mod");
    assert_eq!(e.param_names, strings(&["std::string::String", "X"]));
    assert_eq!(arms_of(&e), vec![pair("call_me", "std::string::String"), pair("other", "X")]);
    assert_eq!(
        e.client_source,
        header()
            + &stub("call_me", "std::string::String", "Result<u8>", "__abcf_storage_mod")
            + &stub("other", "X", "Result<()>", "__abcf_storage_mod")
    );
}

#[test]
fn generic_parameter_keeps_its_arguments() {
    let item = plain_impl(
        path(&["Svc"]),
        vec![method(
            "put",
            None,
            vec![
                ArgInfo::Receiver,
                ArgInfo::Typed(TypeInfo::Path(vec![
                    seg("std"),
                    seg("collections"),
                    SegmentInfo {
                        ident: "BTreeMap".to_string(),
                        args: SegmentArgs::AngleBracketed(strings(&["u8", "String"])),
                    },
                ])),
            ],
        )],
    );
    let e = rpcs(&item);
    assert_eq!(e.arms[0].param, "std::collections::BTreeMap<u8, String>");
}

#[test]
fn client_functions_take_the_lists_side_by_side() {
    let item = plain_impl(
        path(&["Svc"]),
        vec![
            method("a", Some("u8"), vec![ArgInfo::Receiver]),
            ItemInfo::Other,
            method("b", None, vec![ArgInfo::Receiver, ArgInfo::Typed(path(&["X"]))]),
        ],
    );
    let e = rpcs(&item);
    assert_eq!(e.fn_names, strings(&["a", "b"]));
    assert_eq!(e.param_names, strings(&["X"]));
    assert_eq!(e.return_names, strings(&["Result<u8>", "Result<()>"]));
    assert_eq!(arms_of(&e), vec![pair("b", "X")]);
    assert!(!e.is_empty_impl);
    // the i-th method is paired with the i-th parameter type, as far as the
    // shorter list reaches
    assert_eq!(e.client_source, header() + &stub("a", "X", "Result<u8>", "__abcf_storage_svc"));
}

#[test]
fn every_path_typed_argument_gets_an_arm() {
    let item = plain_impl(
        path(&["Svc"]),
        vec![method(
            "q",
            None,
            vec![ArgInfo::Receiver, ArgInfo::Typed(path(&["Ctx"])), ArgInfo::Typed(path(&["Req"]))],
        )],
    );
    let e = rpcs(&item);
    assert_eq!(e.param_names, strings(&["Ctx", "Req"]));
    assert_eq!(arms_of(&e), vec![pair("q", "Ctx"), pair("q", "Req")]);
    assert_eq!(e.client_source, header() + &stub("q", "Ctx", "Result<()>", "__abcf_storage_svc"));
    // the first arm of a method answers its calls
    let table = dispatch_table(&e);
    let names: Vec<&str> = table.iter().map(|s| s.as_str()).collect();
    assert!(matches!(abcf::dispatch::route(e.is_empty_impl, &names, "q"), Ok(Some(0))));
}

#[test]
fn routing_over_the_expansion() {
    let item = plain_impl(
        path(&["Svc"]),
        vec![
            method("a", None, vec![ArgInfo::Receiver]),
            method("b", None, vec![ArgInfo::Receiver, ArgInfo::Typed(path(&["X"]))]),
        ],
    );
    let e = rpcs(&item);
    let table = dispatch_table(&e);
    let names: Vec<&str> = table.iter().map(|s| s.as_str()).collect();
    assert!(matches!(abcf::dispatch::route(e.is_empty_impl, &names, "b"), Ok(Some(0))));
    assert!(matches!(
        abcf::dispatch::route(e.is_empty_impl, &names, "c"),
        Err(abcf::Error::TempOnlySupportRPC)
    ));
    assert!(matches!(
        abcf::dispatch::route(e.is_empty_impl, &names, "a"),
        Err(abcf::Error::TempOnlySupportRPC)
    ));
}
