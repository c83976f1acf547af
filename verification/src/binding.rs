//! Typed binding of host call sites to named device kernels.
//!
//! A compiled module exports kernels by name, each with a declared
//! parameter list. A binding resolves one name against the module's table
//! exactly once, at construction: an unknown name or a parameter-list
//! mismatch is a construction-time failure, never discovered mid-run. A
//! bound kernel then only assembles launch requests whose arguments match
//! its declared parameter types.

use vstd::prelude::*;
use vstd::string::StrSliceExecFns;

use crate::grid::LaunchGeometry;

verus! {

/// A parameter type of a device kernel entry point.
#[derive(Clone, Copy, PartialEq, Eq, Structural, Debug)]
pub enum ArgType {
    /// Pointer to device-resident source pixels, read-only.
    PtrConstPixel,
    /// Pointer to device-resident destination pixels, written.
    PtrMutPixel,
    /// A 32-bit unsigned scalar.
    Uint32,
    /// A 64-bit scalar passed by its raw bit pattern.
    Double,
}

/// An argument for one kernel parameter. Device pointers and 64-bit
/// scalars are carried as raw 64-bit patterns chosen by the caller; the
/// library only checks them against the declared parameter types.
#[derive(Clone, Copy, PartialEq, Eq, Structural, Debug)]
pub enum ArgValue {
    PtrConstPixel(u64),
    PtrMutPixel(u64),
    Uint32(u32),
    Double(u64),
}

impl ArgValue {
    /// The declared type this argument satisfies.
    pub open spec fn spec_type(&self) -> ArgType {
        match *self {
            ArgValue::PtrConstPixel(_) => ArgType::PtrConstPixel,
            ArgValue::PtrMutPixel(_) => ArgType::PtrMutPixel,
            ArgValue::Uint32(_) => ArgType::Uint32,
            ArgValue::Double(_) => ArgType::Double,
        }
    }

    /// The declared type this argument satisfies.
    pub fn arg_type(&self) -> (t: ArgType)
        ensures
            t == self.spec_type(),
    {
        match *self {
            ArgValue::PtrConstPixel(_) => ArgType::PtrConstPixel,
            ArgValue::PtrMutPixel(_) => ArgType::PtrMutPixel,
            ArgValue::Uint32(_) => ArgType::Uint32,
            ArgValue::Double(_) => ArgType::Double,
        }
    }
}

/// One exported entry point of a compiled module: its name and its
/// declared parameter list.
pub struct KernelSignature {
    pub name: String,
    pub params: Vec<ArgType>,
}

/// The export table of a loaded module.
pub struct ModuleInfo {
    pub kernels: Vec<KernelSignature>,
}

impl ModuleInfo {
    /// A module exports each name at most once.
    pub open spec fn wf(&self) -> bool {
        forall|i: int, j: int|
            0 <= i < j < self.kernels.len() ==> self.kernels[i].name@ != self.kernels[j].name@
    }

    /// Whether the table exports `name` with exactly `params`.
    pub open spec fn spec_has_kernel(&self, name: Seq<char>, params: Seq<ArgType>) -> bool {
        exists|i: int|
            0 <= i < self.kernels.len() && (#[trigger] self.kernels[i]).name@ == name
                && self.kernels[i].params@ == params
    }

    /// Whether the table exports `name` at all.
    pub open spec fn spec_has_name(&self, name: Seq<char>) -> bool {
        exists|i: int| 0 <= i < self.kernels.len() && (#[trigger] self.kernels[i]).name@ == name
    }
}

/// Why a binding was refused at construction.
#[derive(Clone, Copy, PartialEq, Eq, Structural, Debug)]
pub enum BindingError {
    /// The module exports no kernel of the requested name.
    NotFound,
    /// The kernel exists, but its declared parameter list differs from the
    /// placeholder's.
    Mismatch,
}

/// A host-side stand-in for one compiled kernel: its exported name and the
/// parameter list the host binds against.
pub trait KernelPlaceholder {
    /// The exported name.
    spec fn spec_name() -> Seq<char>;

    /// The declared parameter list.
    spec fn spec_params() -> Seq<ArgType>;

    /// The exported name.
    fn get_name() -> (s: &'static str)
        ensures
            s@ == Self::spec_name(),
    ;

    /// The declared parameter list.
    fn params() -> (v: Vec<ArgType>)
        ensures
            v@ == Self::spec_params(),
    ;
}

/// The bilateral kernel entry point: source pixels, destination pixels,
/// the window radius, and the two falloff scalars.
#[allow(non_camel_case_types)]
pub struct bilateral_kernel;

impl KernelPlaceholder for bilateral_kernel {
    open spec fn spec_name() -> Seq<char> {
        "bilateral_kernel"@
    }

    open spec fn spec_params() -> Seq<ArgType> {
        seq![
            ArgType::PtrConstPixel,
            ArgType::PtrMutPixel,
            ArgType::Uint32,
            ArgType::Double,
            ArgType::Double,
        ]
    }

    fn get_name() -> (s: &'static str) {
        "bilateral_kernel"
    }

    fn params() -> (v: Vec<ArgType>) {
        let mut v: Vec<ArgType> = Vec::new();
        v.push(ArgType::PtrConstPixel);
        v.push(ArgType::PtrMutPixel);
        v.push(ArgType::Uint32);
        v.push(ArgType::Double);
        v.push(ArgType::Double);
        proof {
            assert(v@ =~= Self::spec_params());
        }
        v
    }
}

/// Character-wise string equality.
fn str_eq(a: &str, b: &str) -> (r: bool)
    ensures
        r == (a@ == b@),
{
    let alen = a.unicode_len();
    let blen = b.unicode_len();
    if alen != blen {
        proof {
            assert(a@.len() != b@.len());
        }
        return false;
    }
    let mut i: usize = 0;
    while i < alen
        invariant
            i <= alen,
            alen == a@.len(),
            alen == b@.len(),
            forall|j: int| 0 <= j < i ==> a@[j] == b@[j],
        decreases alen - i,
    {
        if a.get_char(i) != b.get_char(i) {
            proof {
                assert(a@[i as int] != b@[i as int]);
            }
            return false;
        }
        i = i + 1;
    }
    proof {
        assert(a@ =~= b@);
    }
    true
}

/// Element-wise equality of two parameter lists.
fn params_eq(a: &Vec<ArgType>, b: &Vec<ArgType>) -> (r: bool)
    ensures
        r == (a@ == b@),
{
    if a.len() != b.len() {
        proof {
            assert(a@.len() != b@.len());
        }
        return false;
    }
    let mut i: usize = 0;
    while i < a.len()
        invariant
            i <= a.len(),
            a.len() == b.len(),
            forall|j: int| 0 <= j < i ==> a@[j] == b@[j],
        decreases a.len() - i,
    {
        if !(a[i] == b[i]) {
            proof {
                assert(a@[i as int] != b@[i as int]);
            }
            return false;
        }
        i = i + 1;
    }
    proof {
        assert(a@ =~= b@);
    }
    true
}

/// A kernel bound against a module: the typed handle through which launch
/// requests for `F` are assembled.
pub struct Kernel<F: KernelPlaceholder> {
    params: Vec<ArgType>,
    placeholder: core::marker::PhantomData<F>,
}

/// A fully checked launch: a shape and an argument list that matches the
/// bound kernel's declared parameters. The caller performs it.
pub struct LaunchRequest {
    pub geometry: LaunchGeometry,
    pub args: Vec<ArgValue>,
}

impl<F: KernelPlaceholder> Kernel<F> {
    /// A binding only ever carries the parameter list of its placeholder:
    /// it is checked at construction and never changes.
    #[verifier::type_invariant]
    spec fn bound_to_placeholder(&self) -> bool {
        self.params@ == F::spec_params()
    }

    /// The declared parameter list of the binding: the placeholder's, by
    /// the construction-time check.
    pub open spec fn spec_params(&self) -> Seq<ArgType> {
        F::spec_params()
    }

    /// Resolves `F` against the module's export table, exactly once.
    ///
    /// Succeeds precisely when the table exports `F`'s name with `F`'s
    /// parameter list; an absent name is `NotFound`, a present name with a
    /// different parameter list is `Mismatch`.
    pub fn new(module: &ModuleInfo) -> (r: Result<Kernel<F>, BindingError>)
        requires
            module.wf(),
        ensures
            r matches Ok(k) ==> k.spec_params() == F::spec_params(),
            r is Ok <==> module.spec_has_kernel(F::spec_name(), F::spec_params()),
            (r is Err && r->Err_0 == BindingError::NotFound) <==> !module.spec_has_name(
                F::spec_name(),
            ),
            (r is Err && r->Err_0 == BindingError::Mismatch) <==> module.spec_has_name(
                F::spec_name(),
            ) && !module.spec_has_kernel(F::spec_name(), F::spec_params()),
    {
        let name = F::get_name();
        let wanted = F::params();
        let mut i: usize = 0;
        while i < module.kernels.len()
            invariant
                i <= module.kernels.len(),
                module.wf(),
                name@ == F::spec_name(),
                wanted@ == F::spec_params(),
                forall|j: int|
                    0 <= j < i ==> (#[trigger] module.kernels[j]).name@ != F::spec_name(),
            decreases module.kernels.len() - i,
        {
            let entry = &module.kernels[i];
            if str_eq(entry.name.as_str(), name) {
                if params_eq(&entry.params, &wanted) {
                    return Ok(Kernel { params: wanted, placeholder: core::marker::PhantomData });
                } else {
                    return Err(BindingError::Mismatch);
                }
            }
            i = i + 1;
        }
        Err(BindingError::NotFound)
    }

    /// Assembles the launch of this kernel with five positional arguments,
    /// checked against the declared parameter list: the request is built
    /// precisely when every argument matches its parameter's type.
    pub fn execute(
        &self,
        geometry: LaunchGeometry,
        i1: ArgValue,
        i2: ArgValue,
        i3: ArgValue,
        i4: ArgValue,
        i5: ArgValue,
    ) -> (r: Result<LaunchRequest, BindingError>)
        ensures
            ({
                let given = seq![i1, i2, i3, i4, i5];
                let types = Seq::new(5, |n: int| given[n].spec_type());
                &&& r is Ok <==> types == self.spec_params()
                &&& r matches Ok(req) ==> req.geometry == geometry && req.args@ == given
                &&& r matches Err(e) ==> e == BindingError::Mismatch
            }),
    {
        let mut args: Vec<ArgValue> = Vec::new();
        args.push(i1);
        args.push(i2);
        args.push(i3);
        args.push(i4);
        args.push(i5);
        let mut types: Vec<ArgType> = Vec::new();
        let mut n: usize = 0;
        while n < args.len()
            invariant
                n <= args.len(),
                args@ == seq![i1, i2, i3, i4, i5],
                types.len() == n,
                forall|m: int| 0 <= m < n ==> types@[m] == (#[trigger] args@[m]).spec_type(),
            decreases args.len() - n,
        {
            types.push(args[n].arg_type());
            n = n + 1;
        }
        proof {
            use_type_invariant(self);
            assert(types@ =~= Seq::new(5, |m: int| seq![i1, i2, i3, i4, i5][m].spec_type()));
        }
        if params_eq(&types, &self.params) {
            Ok(LaunchRequest { geometry, args })
        } else {
            Err(BindingError::Mismatch)
        }
    }
}

} // verus!
