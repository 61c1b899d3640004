//! Binding a function of the caller to the export that it replaces.
//!
//! The function becomes the exported symbol itself. Beside it stand a marker
//! type with the shape of the function, a slot for the address of the
//! replaced export, which the function may call through, and a stand-in that
//! the slot holds until the library is loaded.

use vstd::prelude::*;
use vstd::string::*;
use crate::text::clone_names;
use crate::symbols::{
    get_symbol_marker, slot_ident, spec_slot_ident, spec_stub_ident, spec_symbol_marker, stub_ident,
};

verus! {

/// Who can see a function.
#[derive(Clone, Copy, Debug, PartialEq, Eq, Structural)]
pub enum Visibility {
    /// `pub`
    Public,
    /// `crate`
    Crate,
    /// `pub(..)` with a path
    Restricted,
    /// Nothing written.
    Inherited,
}

/// The calling convention of a function.
#[derive(Debug)]
pub enum Abi {
    /// None written: that of Rust.
    Rust,
    /// `extern` without a name.
    Extern,
    /// `extern` with a name.
    Named(String),
}

/// The mathematical value of an [`Abi`].
pub enum AbiView {
    Rust,
    Extern,
    Named(Seq<char>),
}

impl View for Abi {
    type V = AbiView;

    open spec fn view(&self) -> AbiView {
        match *self {
            Abi::Rust => AbiView::Rust,
            Abi::Extern => AbiView::Extern,
            Abi::Named(name) => AbiView::Named(name@),
        }
    }
}

/// One parameter of a function.
#[derive(Debug)]
pub enum FnArg {
    /// `self` in one of its forms.
    Receiver,
    /// A parameter with a pattern and a type.
    Typed { attrs: Vec<String>, ty: String },
}

/// The mathematical value of an [`FnArg`].
pub enum FnArgView {
    Receiver,
    Typed { attrs: Seq<Seq<char>>, ty: Seq<char> },
}

impl View for FnArg {
    type V = FnArgView;

    open spec fn view(&self) -> FnArgView {
        match *self {
            FnArg::Receiver => FnArgView::Receiver,
            FnArg::Typed { attrs, ty } => FnArgView::Typed { attrs: attrs.deep_view(), ty: ty@ },
        }
    }
}

/// What the binding reads of a function item.
#[derive(Debug)]
pub struct ItemFn {
    pub vis: Visibility,
    pub abi: Abi,
    pub ident: String,
    pub inputs: Vec<FnArg>,
    pub variadic: bool,
    /// The type behind the arrow, if there is one.
    pub output: Option<String>,
}

/// The mathematical value of an [`ItemFn`].
pub struct ItemFnView {
    pub vis: Visibility,
    pub abi: AbiView,
    pub ident: Seq<char>,
    pub inputs: Seq<FnArgView>,
    pub variadic: bool,
    pub output: Option<Seq<char>>,
}

pub open spec fn output_view(output: Option<String>) -> Option<Seq<char>> {
    match output {
        Some(ty) => Some(ty@),
        None => None,
    }
}

impl View for ItemFn {
    type V = ItemFnView;

    open spec fn view(&self) -> ItemFnView {
        ItemFnView {
            vis: self.vis,
            abi: self.abi@,
            ident: self.ident@,
            inputs: Seq::new(self.inputs.len() as nat, |i: int| self.inputs[i]@),
            variadic: self.variadic,
            output: output_view(self.output),
        }
    }
}

/// One parameter of a marker type: a type without a name.
#[derive(Debug)]
pub struct BareFnArg {
    pub attrs: Vec<String>,
    pub ty: String,
}

/// The mathematical value of a [`BareFnArg`].
pub struct BareFnArgView {
    pub attrs: Seq<Seq<char>>,
    pub ty: Seq<char>,
}

impl View for BareFnArg {
    type V = BareFnArgView;

    open spec fn view(&self) -> BareFnArgView {
        BareFnArgView { attrs: self.attrs.deep_view(), ty: self.ty@ }
    }
}

/// The type of a pointer to an unsafe function with the calling convention,
/// parameter types and return type of an overriding function.
#[derive(Debug)]
pub struct MarkerSignature {
    pub abi: Abi,
    pub inputs: Vec<BareFnArg>,
    pub variadic: bool,
    pub output: Option<String>,
}

/// The mathematical value of a [`MarkerSignature`].
pub struct MarkerView {
    pub abi: AbiView,
    pub inputs: Seq<BareFnArgView>,
    pub variadic: bool,
    pub output: Option<Seq<char>>,
}

impl View for MarkerSignature {
    type V = MarkerView;

    open spec fn view(&self) -> MarkerView {
        MarkerView {
            abi: self.abi@,
            inputs: Seq::new(self.inputs.len() as nat, |i: int| self.inputs[i]@),
            variadic: self.variadic,
            output: output_view(self.output),
        }
    }
}

/// What is generated beside an overriding function.
#[derive(Debug)]
pub struct OverrideBinding {
    /// The name under which the function is exported: its own.
    pub export: String,
    /// The name of the marker type.
    pub marker: String,
    /// The marker type.
    pub marker_ty: MarkerSignature,
    /// The name of the slot for the address of the replaced export.
    pub import: String,
    /// The name of the stand-in that the slot holds at first.
    pub stub: String,
}

/// The mathematical value of an [`OverrideBinding`].
pub struct BindingView {
    pub export: Seq<char>,
    pub marker: Seq<char>,
    pub marker_ty: MarkerView,
    pub import: Seq<char>,
    pub stub: Seq<char>,
}

impl View for OverrideBinding {
    type V = BindingView;

    open spec fn view(&self) -> BindingView {
        BindingView {
            export: self.export@,
            marker: self.marker@,
            marker_ty: self.marker_ty@,
            import: self.import@,
            stub: self.stub@,
        }
    }
}

/// Why a function cannot replace an export.
#[derive(Clone, Copy, Debug, PartialEq, Eq, Structural)]
pub enum OverrideError {
    /// The function is not public, so it cannot be exported.
    NotPublic,
    /// The parameter at `position` is a receiver: the function is a method.
    Method { position: usize },
}

impl OverrideError {
    /// The words of the error.
    pub fn message(&self) -> (r: String)
        ensures
            r@ == match *self {
                OverrideError::NotPublic => "Manual export implementation must be public"@,
                OverrideError::Method { .. } => "Methods are not supported"@,
            },
    {
        match self {
            OverrideError::NotPublic => String::from_str(
                "Manual export implementation must be public",
            ),
            OverrideError::Method { .. } => String::from_str("Methods are not supported"),
        }
    }
}

/// The parameter at `k` is the first receiver.
pub open spec fn first_receiver(inputs: Seq<FnArgView>, k: int) -> bool {
    &&& 0 <= k < inputs.len()
    &&& inputs[k] is Receiver
    &&& forall|j: int| 0 <= j < k ==> !((#[trigger] inputs[j]) is Receiver)
}

/// No parameter is a receiver.
pub open spec fn no_receiver(inputs: Seq<FnArgView>) -> bool {
    forall|j: int| 0 <= j < inputs.len() ==> !((#[trigger] inputs[j]) is Receiver)
}

/// A parameter without its name.
pub open spec fn spec_bare(arg: FnArgView) -> BareFnArgView {
    match arg {
        FnArgView::Typed { attrs, ty } => BareFnArgView { attrs, ty },
        FnArgView::Receiver => BareFnArgView { attrs: Seq::empty(), ty: Seq::empty() },
    }
}

/// The marker type of a function without receiver.
pub open spec fn spec_marker(item: ItemFnView) -> MarkerView {
    MarkerView {
        abi: item.abi,
        inputs: Seq::new(item.inputs.len(), |i: int| spec_bare(item.inputs[i])),
        variadic: item.variadic,
        output: item.output,
    }
}

/// What is generated beside a public function without receiver.
pub open spec fn spec_binding(item: ItemFnView) -> BindingView {
    BindingView {
        export: item.ident,
        marker: spec_symbol_marker(item.ident),
        marker_ty: spec_marker(item),
        import: spec_slot_ident(item.ident),
        stub: spec_stub_ident(item.ident),
    }
}

/// Whether `r` is the outcome of binding a function: a function that is not
/// public is refused; a public one is refused for its first receiver; any
/// other is bound.
pub open spec fn binds_to(item: ItemFnView, r: Result<BindingView, OverrideError>) -> bool {
    match r {
        Ok(binding) => item.vis == Visibility::Public && no_receiver(item.inputs) && binding
            == spec_binding(item),
        Err(OverrideError::NotPublic) => item.vis != Visibility::Public,
        Err(OverrideError::Method { position }) => item.vis == Visibility::Public
            && first_receiver(item.inputs, position as int),
    }
}

pub open spec fn binding_result_view(r: Result<OverrideBinding, OverrideError>) -> Result<
    BindingView,
    OverrideError,
> {
    match r {
        Ok(binding) => Ok(binding@),
        Err(e) => Err(e),
    }
}

fn clone_abi(abi: &Abi) -> (r: Abi)
    ensures
        r@ == abi@,
{
    match abi {
        Abi::Rust => Abi::Rust,
        Abi::Extern => Abi::Extern,
        Abi::Named(name) => Abi::Named(name.clone()),
    }
}

fn clone_output(output: &Option<String>) -> (r: Option<String>)
    ensures
        output_view(r) == output_view(*output),
{
    match output {
        Some(ty) => Some(ty.clone()),
        None => None,
    }
}

/// Binds a function of the caller to the export of its name.
///
/// The function must be public and must not be a method. Its marker type
/// keeps the calling convention, the parameter types with their attributes,
/// the variadic tail and the return type, and drops the parameter names.
pub fn impl_manual_impl(item: &ItemFn) -> (r: Result<OverrideBinding, OverrideError>)
    ensures
        binds_to(item@, binding_result_view(r)),
{
    match item.vis {
        Visibility::Public => {},
        _ => {
            return Err(OverrideError::NotPublic);
        },
    }
    let mut inputs: Vec<BareFnArg> = Vec::new();
    let mut i: usize = 0;
    while i < item.inputs.len()
        invariant
            0 <= i <= item.inputs.len(),
            inputs.len() == i,
            item.vis == Visibility::Public,
            forall|j: int| 0 <= j < i ==> !((#[trigger] item@.inputs[j]) is Receiver),
            forall|j: int| 0 <= j < i ==> (#[trigger] inputs[j])@ == spec_bare(item@.inputs[j]),
        decreases item.inputs.len() - i,
    {
        assert(item@.inputs[i as int] == item.inputs[i as int]@);
        match &item.inputs[i] {
            FnArg::Receiver => {
                return Err(OverrideError::Method { position: i });
            },
            FnArg::Typed { attrs, ty } => {
                inputs.push(BareFnArg { attrs: clone_names(attrs), ty: ty.clone() });
            },
        }
        i += 1;
    }
    let marker_ty = MarkerSignature {
        abi: clone_abi(&item.abi),
        inputs,
        variadic: item.variadic,
        output: clone_output(&item.output),
    };
    assert(marker_ty@.inputs =~= spec_marker(item@).inputs);
    Ok(
        OverrideBinding {
            export: item.ident.clone(),
            marker: get_symbol_marker(item.ident.as_str()),
            marker_ty,
            import: slot_ident(item.ident.as_str()),
            stub: stub_ident(item.ident.as_str()),
        },
    )
}

/// Every function has exactly one outcome.
pub proof fn lemma_binding_determined(
    item: ItemFnView,
    a: Result<BindingView, OverrideError>,
    b: Result<BindingView, OverrideError>,
)
    requires
        binds_to(item, a),
        binds_to(item, b),
    ensures
        a == b,
{
    match (a, b) {
        (
            Err(OverrideError::Method { position: p }),
            Err(OverrideError::Method { position: q }),
        ) => {
            if p < q {
                assert(!(item.inputs[p as int] is Receiver));
            } else if q < p {
                assert(!(item.inputs[q as int] is Receiver));
            }
        },
        (Err(OverrideError::Method { position: p }), Ok(_)) => {
            assert(!(item.inputs[p as int] is Receiver));
        },
        (Ok(_), Err(OverrideError::Method { position: q })) => {
            assert(!(item.inputs[q as int] is Receiver));
        },
        _ => {},
    }
}

} // verus!
