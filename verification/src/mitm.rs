//! Planning a whole shim: from the options of the caller and the image of
//! the library to everything that is generated.

use vstd::prelude::*;
use vstd::string::*;
use crate::exports::{
    decoded_names, decodes_to, list_exports, listing_view, read_listing, spec_listing,
    well_formed, ExportError, ExportFault, ListingView, RawListing,
};
use crate::reconcile::{
    reconcile, reconciles_to, spec_plan, PlanView, ReconcileError, ReconcileFault, ReconciledPlan,
};
use crate::symbols::{get_symbol_marker, slot_ident, spec_slot_ident, spec_symbol_marker};
use crate::target::{spec_target, TargetDescriptor};
use crate::text::{
    clone_names, file_name_of, is_file_name_of, join, prefix_before, replace_char,
    spec_prefix_before, spec_replace_char, uppercase, uppercase_of,
};
use crate::trampoline::{
    emit_trampolines, spec_trampolines, trampolines_view, Trampoline, TrampolineView,
};

verus! {

/// The options of a shim.
#[derive(Debug)]
pub struct DylibMitmSpecifiedArgs {
    /// The operating system of the target.
    pub os: String,
    /// The instruction set of the target.
    pub arch: String,
    /// The path of the library whose exports are read.
    pub proto_path: String,
    /// An expression for the path of the library to load, where it is not
    /// `proto_path`.
    pub load_lib: Option<String>,
    /// The exports that the caller implements by hand.
    pub manual_impls: Option<Vec<String>>,
}

/// The mathematical value of [`DylibMitmSpecifiedArgs`].
pub struct ArgsView {
    pub os: Seq<char>,
    pub arch: Seq<char>,
    pub proto_path: Seq<char>,
    pub load_lib: Option<Seq<char>>,
    pub manual_impls: Option<Seq<Seq<char>>>,
}

pub open spec fn text_view(text: Option<String>) -> Option<Seq<char>> {
    match text {
        Some(t) => Some(t@),
        None => None,
    }
}

impl View for DylibMitmSpecifiedArgs {
    type V = ArgsView;

    open spec fn view(&self) -> ArgsView {
        ArgsView {
            os: self.os@,
            arch: self.arch@,
            proto_path: self.proto_path@,
            load_lib: text_view(self.load_lib),
            manual_impls: match self.manual_impls {
                Some(names) => Some(names.deep_view()),
                None => None,
            },
        }
    }
}

/// Where the real library is found when the shim is initialised.
#[derive(Debug)]
pub enum LoadTarget {
    /// At the path that its exports were read from.
    ProtoPath(String),
    /// Where an expression of the caller says, once it is evaluated.
    Expression(String),
}

/// The mathematical value of a [`LoadTarget`].
pub enum LoadTargetView {
    ProtoPath(Seq<char>),
    Expression(Seq<char>),
}

impl View for LoadTarget {
    type V = LoadTargetView;

    open spec fn view(&self) -> LoadTargetView {
        match *self {
            LoadTarget::ProtoPath(path) => LoadTargetView::ProtoPath(path@),
            LoadTarget::Expression(code) => LoadTargetView::Expression(code@),
        }
    }
}

impl LoadTarget {
    /// The path to open: the literal one, or for an expression the value
    /// that the host found for it.
    pub fn resolve(&self, evaluated: Option<&str>) -> (r: Option<String>)
        ensures
            text_view(r) == match (self@, evaluated) {
                (LoadTargetView::ProtoPath(path), _) => Some(path),
                (LoadTargetView::Expression(_), Some(value)) => Some(value@),
                (LoadTargetView::Expression(_), None) => None,
            },
    {
        match self {
            LoadTarget::ProtoPath(path) => Some(path.clone()),
            LoadTarget::Expression(_) => match evaluated {
                Some(value) => Some(String::from_str(value)),
                None => None,
            },
        }
    }
}

/// Everything that is generated for a shim.
#[derive(Debug)]
pub struct ShimPlan {
    /// The name of the type that holds the loaded library.
    pub lib_struct: String,
    /// The name of the cell that holds the loaded library.
    pub lib_ident: String,
    /// Where the real library is found.
    pub load_target: LoadTarget,
    /// The exports, parted into forwarded and overridden.
    pub plan: ReconciledPlan,
    /// The slot of each forwarded export.
    pub sym_idents: Vec<String>,
    /// The slot of each overridden export.
    pub manual_syms: Vec<String>,
    /// The marker type of each overridden export.
    pub marker_types: Vec<String>,
    /// The trampoline of each forwarded export.
    pub trampolines: Vec<Trampoline>,
}

/// The mathematical value of a [`ShimPlan`].
pub struct ShimView {
    pub lib_struct: Seq<char>,
    pub lib_ident: Seq<char>,
    pub load_target: LoadTargetView,
    pub plan: PlanView,
    pub sym_idents: Seq<Seq<char>>,
    pub manual_syms: Seq<Seq<char>>,
    pub marker_types: Seq<Seq<char>>,
    pub trampolines: Seq<TrampolineView>,
}

impl View for ShimPlan {
    type V = ShimView;

    open spec fn view(&self) -> ShimView {
        ShimView {
            lib_struct: self.lib_struct@,
            lib_ident: self.lib_ident@,
            load_target: self.load_target@,
            plan: self.plan@,
            sym_idents: self.sym_idents.deep_view(),
            manual_syms: self.manual_syms.deep_view(),
            marker_types: self.marker_types.deep_view(),
            trampolines: trampolines_view(self.trampolines@),
        }
    }
}

/// Why no shim could be planned.
#[derive(Debug)]
pub enum GenerationError {
    /// The exports of the library could not be read.
    Export(ExportError),
    /// A declared override is no export of the library.
    Reconcile(ReconcileError),
    /// The path of the library has no file name to call the shim by.
    LibraryName,
}

/// The mathematical value of a [`GenerationError`].
pub enum GenerationFault {
    Export(ExportFault),
    Reconcile(ReconcileFault),
    LibraryName,
}

impl View for GenerationError {
    type V = GenerationFault;

    open spec fn view(&self) -> GenerationFault {
        match *self {
            GenerationError::Export(e) => GenerationFault::Export(e@),
            GenerationError::Reconcile(e) => GenerationFault::Reconcile(e@),
            GenerationError::LibraryName => GenerationFault::LibraryName,
        }
    }
}

impl GenerationError {
    /// The words of the error.
    pub fn message(&self) -> (r: String)
        ensures
            r@ == match self@ {
                GenerationFault::Export(fault) => ExportError::spec_message(fault),
                GenerationFault::Reconcile(fault) => ReconcileError::spec_message(fault),
                GenerationFault::LibraryName => "Failed to get dylib name"@,
            },
    {
        match self {
            GenerationError::Export(e) => e.message(),
            GenerationError::Reconcile(e) => e.message(),
            GenerationError::LibraryName => String::from_str("Failed to get dylib name"),
        }
    }
}

/// What names are derived from an export.
#[derive(Clone, Copy, Debug, PartialEq, Eq, Structural)]
pub enum Derived {
    /// The name of its slot.
    Slot,
    /// The name of its marker type.
    Marker,
}

pub open spec fn spec_derived(kind: Derived, name: Seq<char>) -> Seq<char> {
    match kind {
        Derived::Slot => spec_slot_ident(name),
        Derived::Marker => spec_symbol_marker(name),
    }
}

/// The derived name of each of the given names, in their order.
pub open spec fn spec_derive_all(kind: Derived, names: Seq<Seq<char>>) -> Seq<Seq<char>> {
    Seq::new(names.len(), |i: int| spec_derived(kind, names[i]))
}

/// The derived name of each of the given names, in their order.
pub fn derive_all(kind: Derived, names: &Vec<String>) -> (r: Vec<String>)
    ensures
        r.deep_view() == spec_derive_all(kind, names.deep_view()),
{
    let mut r: Vec<String> = Vec::new();
    let mut i: usize = 0;
    while i < names.len()
        invariant
            0 <= i <= names.len(),
            r.len() == i,
            forall|j: int| 0 <= j < i ==> (#[trigger] r[j])@ == spec_derived(kind, names[j]@),
        decreases names.len() - i,
    {
        let derived = match kind {
            Derived::Slot => slot_ident(names[i].as_str()),
            Derived::Marker => get_symbol_marker(names[i].as_str()),
        };
        r.push(derived);
        i += 1;
    }
    assert(r.deep_view() =~= spec_derive_all(kind, names.deep_view()));
    r
}

/// The name of a shim: the file name of the library up to its first dot,
/// with every hyphen turned into an underscore.
pub open spec fn spec_library_name(file_name: Seq<char>) -> Seq<char> {
    spec_replace_char(spec_prefix_before(file_name, '.'), '-', '_')
}

/// The name of the cell that holds the loaded library: the name of the shim
/// and `_LIB`, in upper case.
pub open spec fn spec_library_ident(lib_name: Seq<char>) -> Seq<char> {
    uppercase_of(lib_name + "_LIB"@)
}

/// The name of a shim for the file name of its library.
pub fn library_name(file_name: &str) -> (r: String)
    ensures
        r@ == spec_library_name(file_name@),
{
    let stem = prefix_before(file_name, '.');
    replace_char(stem.as_str(), '-', '_')
}

/// The name of the cell that holds the loaded library.
pub fn library_ident(lib_name: &str) -> (r: String)
    ensures
        r@ == spec_library_ident(lib_name@),
{
    let joined = join(lib_name, "_LIB");
    uppercase(joined.as_str())
}

/// The overrides that the options declare: none where they say nothing.
pub open spec fn spec_overrides(args: ArgsView) -> Seq<Seq<char>> {
    match args.manual_impls {
        Some(names) => names,
        None => Seq::empty(),
    }
}

/// Where the options say the library is loaded from: at the path that was
/// read, unless they give an expression.
pub open spec fn spec_load_target(args: ArgsView) -> LoadTargetView {
    match args.load_lib {
        Some(code) => LoadTargetView::Expression(code),
        None => LoadTargetView::ProtoPath(args.proto_path),
    }
}

/// The shim for a target, the exports of the library and the file name of
/// its path, where every override is an export.
pub open spec fn spec_shim(
    args: ArgsView,
    target: TargetDescriptor,
    exports: Seq<Seq<char>>,
    file_name: Seq<char>,
) -> ShimView {
    let plan = spec_plan(exports, spec_overrides(args));
    ShimView {
        lib_struct: spec_library_name(file_name),
        lib_ident: spec_library_ident(spec_library_name(file_name)),
        load_target: spec_load_target(args),
        plan,
        sym_idents: spec_derive_all(Derived::Slot, plan.forwarded),
        manual_syms: spec_derive_all(Derived::Slot, plan.overridden),
        marker_types: spec_derive_all(Derived::Marker, plan.overridden),
        trampolines: spec_trampolines(target.spec_encoding(), plan.forwarded),
    }
}

/// Whether `r` is the outcome of planning a shim for these exports: what
/// the reconciliation refuses is refused; then a path without a file name;
/// otherwise the shim is planned.
pub open spec fn plans_to(
    args: ArgsView,
    target: TargetDescriptor,
    exports: Seq<Seq<char>>,
    file_name: Option<Seq<char>>,
    r: Result<ShimView, GenerationFault>,
) -> bool {
    let overrides = spec_overrides(args);
    let reconciled = reconciles_to(exports, overrides, Ok(spec_plan(exports, overrides)));
    match r {
        Ok(shim) => reconciled && file_name is Some && shim == spec_shim(
            args,
            target,
            exports,
            file_name->Some_0,
        ),
        Err(GenerationFault::Reconcile(fault)) => reconciles_to(exports, overrides, Err(fault)),
        Err(GenerationFault::LibraryName) => reconciled && file_name is None,
        Err(GenerationFault::Export(_)) => false,
    }
}

/// Whether `r` is the outcome of planning a shim from what was read of the
/// image: a listing that could not be read, or the first faulty entry of one
/// that could, is refused; otherwise the outcome is that for its names.
pub open spec fn generates_from(
    args: ArgsView,
    target: TargetDescriptor,
    listing: ListingView,
    file_name: Option<Seq<char>>,
    r: Result<ShimView, GenerationFault>,
) -> bool {
    match listing {
        Err(reason) => r == Err::<ShimView, GenerationFault>(
            GenerationFault::Export(ExportFault::Image { reason }),
        ),
        Ok(entries) => match r {
            Err(GenerationFault::Export(fault)) => decodes_to(entries, Err(fault)),
            _ => well_formed(entries) && plans_to(
                args,
                target,
                decoded_names(entries),
                file_name,
                r,
            ),
        },
    }
}

/// Whether `r` is an outcome of planning a shim for an image. An unsupported
/// target is refused before anything else. Where the file name of the path
/// begins depends on the host: the outcome is that for the name table of the
/// image and for some file name that the path can have.
pub open spec fn generates(
    args: ArgsView,
    image: Seq<u8>,
    r: Result<ShimView, GenerationFault>,
) -> bool {
    match spec_target(args.os, args.arch) {
        None => r == Err::<ShimView, GenerationFault>(
            GenerationFault::Export(ExportFault::UnsupportedTarget),
        ),
        Some(target) => exists|file_name: Option<Seq<char>>| #[trigger]
            generates_for(args, target, image, file_name, r),
    }
}

/// Whether `r` is the outcome of planning a shim for an image, if the path
/// has this file name.
pub open spec fn generates_for(
    args: ArgsView,
    target: TargetDescriptor,
    image: Seq<u8>,
    file_name: Option<Seq<char>>,
    r: Result<ShimView, GenerationFault>,
) -> bool {
    is_file_name_of(args.proto_path, file_name) && generates_from(
        args,
        target,
        spec_listing(target, image),
        file_name,
        r,
    )
}

pub open spec fn shim_result_view(r: Result<ShimPlan, GenerationError>) -> Result<
    ShimView,
    GenerationFault,
> {
    match r {
        Ok(shim) => Ok(shim@),
        Err(e) => Err(e@),
    }
}

/// Plans a shim for the exports of a library.
///
/// The exports are reconciled with the declared overrides. The shim is
/// called by the file name of the library's path. Each export gets its slot,
/// each forwarded export its trampoline in the encoding of the target, each
/// overridden export the name of its marker type.
pub fn plan_shim(
    args: &DylibMitmSpecifiedArgs,
    target: TargetDescriptor,
    exports: &Vec<String>,
    file_name: Option<&str>,
) -> (r: Result<ShimPlan, GenerationError>)
    ensures
        plans_to(
            args@,
            target,
            exports.deep_view(),
            match file_name {
                Some(name) => Some(name@),
                None => None,
            },
            shim_result_view(r),
        ),
{
    let overrides = match &args.manual_impls {
        Some(names) => clone_names(names),
        None => Vec::new(),
    };
    assert(overrides.deep_view() =~= spec_overrides(args@));
    let plan = match reconcile(exports, &overrides) {
        Ok(plan) => plan,
        Err(e) => {
            return Err(GenerationError::Reconcile(e));
        },
    };
    let lib_name = match file_name {
        Some(name) => library_name(name),
        None => {
            return Err(GenerationError::LibraryName);
        },
    };
    let lib_ident = library_ident(lib_name.as_str());
    let load_target = match &args.load_lib {
        Some(code) => LoadTarget::Expression(code.clone()),
        None => LoadTarget::ProtoPath(args.proto_path.clone()),
    };
    let sym_idents = derive_all(Derived::Slot, &plan.forwarded);
    let manual_syms = derive_all(Derived::Slot, &plan.overridden);
    let marker_types = derive_all(Derived::Marker, &plan.overridden);
    let trampolines = emit_trampolines(target, &plan.forwarded);
    Ok(
        ShimPlan {
            lib_struct: lib_name,
            lib_ident,
            load_target,
            plan,
            sym_idents,
            manual_syms,
            marker_types,
            trampolines,
        },
    )
}

/// Plans a shim from what was read of the image of a library.
pub fn plan_from_listing(
    args: &DylibMitmSpecifiedArgs,
    target: TargetDescriptor,
    listing: &RawListing,
    file_name: Option<&str>,
) -> (r: Result<ShimPlan, GenerationError>)
    ensures
        generates_from(
            args@,
            target,
            listing_view(*listing),
            match file_name {
                Some(name) => Some(name@),
                None => None,
            },
            shim_result_view(r),
        ),
{
    match read_listing(listing) {
        Err(e) => Err(GenerationError::Export(e)),
        Ok(exports) => plan_shim(args, target, &exports, file_name),
    }
}

/// Plans the shim for a library from the options of the caller and the bytes
/// of the library's image.
///
/// The target is checked first, and the image is not looked at for one that
/// is not supported. Then the exports are read in the layout of the target,
/// reconciled with the declared overrides, and everything that the shim
/// consists of is laid out.
pub fn impl_dylib_mitm_specified(args: &DylibMitmSpecifiedArgs, dll_img: &[u8]) -> (r: Result<
    ShimPlan,
    GenerationError,
>)
    ensures
        generates(args@, dll_img@, shim_result_view(r)),
{
    let target = match TargetDescriptor::parse(args.os.as_str(), args.arch.as_str()) {
        Some(target) => target,
        None => {
            return Err(GenerationError::Export(ExportError::UnsupportedTarget));
        },
    };
    let listing = list_exports(target, dll_img);
    let file_name = file_name_of(args.proto_path.as_str());
    let name: Option<&str> = match &file_name {
        Some(name) => Some(name.as_str()),
        None => None,
    };
    let r = plan_from_listing(args, target, &listing, name);
    proof {
        let ghost chosen: Option<Seq<char>> = match name {
            Some(n) => Some(n@),
            None => None,
        };
        assert(generates_for(args@, target, dll_img@, chosen, shim_result_view(r)));
    }
    r
}

} // verus!
