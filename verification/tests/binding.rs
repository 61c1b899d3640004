use dylib_mitm::binding::{impl_manual_impl, Abi, FnArg, ItemFn, OverrideError, Visibility};
use dylib_mitm::manual_impl;

fn typed(ty: &str) -> FnArg {
    FnArg::Typed { attrs: Vec::new(), ty: ty.to_string() }
}

fn item(vis: Visibility, inputs: Vec<FnArg>) -> ItemFn {
    ItemFn {
        vis,
        abi: Abi::Named("system".to_string()),
        ident: "Render".to_string(),
        inputs,
        variadic: false,
        output: Some("i32".to_string()),
    }
}

#[test]
fn public_function_is_bound_under_its_own_name() {
    let mut function = item(
        Visibility::Public,
        vec![
            typed("*mut u8"),
            FnArg::Typed { attrs: vec!["#[allow(unused)]".to_string()], ty: "u32".to_string() },
        ],
    );
    function.variadic = true;
    let binding = impl_manual_impl(&function).unwrap();
    assert_eq!(binding.export, "Render");
    assert_eq!(binding.marker, "Render_export_implementation");
    assert_eq!(binding.import, "__Render");
    assert_eq!(binding.stub, "Render_stub_fn");
    assert!(matches!(&binding.marker_ty.abi, Abi::Named(name) if name == "system"));
    assert_eq!(binding.marker_ty.inputs.len(), 2);
    assert_eq!(binding.marker_ty.inputs[0].ty, "*mut u8");
    assert!(binding.marker_ty.inputs[0].attrs.is_empty());
    assert_eq!(binding.marker_ty.inputs[1].ty, "u32");
    assert_eq!(binding.marker_ty.inputs[1].attrs, vec!["#[allow(unused)]".to_string()]);
    assert!(binding.marker_ty.variadic);
    assert_eq!(binding.marker_ty.output, Some("i32".to_string()));
}

#[test]
fn function_without_parameters_and_result_is_bound() {
    let mut function = item(Visibility::Public, Vec::new());
    function.abi = Abi::Rust;
    function.output = None;
    let binding = impl_manual_impl(&function).unwrap();
    assert!(matches!(binding.marker_ty.abi, Abi::Rust));
    assert!(binding.marker_ty.inputs.is_empty());
    assert!(!binding.marker_ty.variadic);
    assert_eq!(binding.marker_ty.output, None);
    function.abi = Abi::Extern;
    assert!(matches!(impl_manual_impl(&function).unwrap().marker_ty.abi, Abi::Extern));
}

#[test]
fn function_that_is_not_public_is_refused() {
    for vis in [Visibility::Inherited, Visibility::Crate, Visibility::Restricted] {
        let e = impl_manual_impl(&item(vis, vec![typed("u32")])).unwrap_err();
        assert_eq!(e, OverrideError::NotPublic);
        assert_eq!(e.message(), "Manual export implementation must be public");
    }
}

#[test]
fn method_is_refused_for_its_receiver() {
    let e = impl_manual_impl(&item(Visibility::Public, vec![FnArg::Receiver, typed("u32")]))
        .unwrap_err();
    assert_eq!(e, OverrideError::Method { position: 0 });
    assert_eq!(e.message(), "Methods are not supported");
    let e = impl_manual_impl(&item(
        Visibility::Public,
        vec![typed("u32"), FnArg::Receiver, FnArg::Receiver],
    ))
    .unwrap_err();
    assert_eq!(e, OverrideError::Method { position: 1 });
}

#[test]
fn visibility_is_checked_before_parameters() {
    let e = impl_manual_impl(&item(Visibility::Inherited, vec![FnArg::Receiver])).unwrap_err();
    assert_eq!(e, OverrideError::NotPublic);
}

#[test]
fn entry_point_binds_the_same_way() {
    let binding = manual_impl(&item(Visibility::Public, vec![typed("f32")])).unwrap();
    assert_eq!(binding.export, "Render");
    assert_eq!(binding.import, "__Render");
    assert_eq!(binding.marker_ty.inputs.len(), 1);
    assert_eq!(binding.marker_ty.inputs[0].ty, "f32");
    assert_eq!(
        manual_impl(&item(Visibility::Crate, Vec::new())).unwrap_err(),
        OverrideError::NotPublic
    );
    assert_eq!(
        manual_impl(&item(Visibility::Public, vec![FnArg::Receiver])).unwrap_err(),
        OverrideError::Method { position: 0 }
    );
}
