use vstd::prelude::*;

use crate::error::LinkerError;

verus! {

/// Relies on `wasmedge_types::ValType`, the engine's kinds of values, which
/// the library only carries from a host function's declaration to the engine.
#[verifier::external_type_specification]
#[verifier::external_body]
pub struct ExValType(wasmedge_types::ValType);

/// A host function offered to the guest: its name, the kinds of its
/// parameters and results, its implementation and its unit cost.
pub struct HostFunc<H> {
    pub name: String,
    pub params: Vec<wasmedge_types::ValType>,
    pub results: Vec<wasmedge_types::ValType>,
    pub real_fn: H,
    pub cost: u64,
}

/// Collects the host functions of one import namespace before it is
/// registered under its module name.
pub struct ImportModuleBuilder<H> {
    name: String,
    funcs: Vec<HostFunc<H>>,
}

impl<H> ImportModuleBuilder<H> {
    /// The module name the namespace is registered under.
    pub closed spec fn module_name(&self) -> Seq<char> {
        self.name@
    }

    /// The host functions added so far, in order.
    pub closed spec fn added(&self) -> Seq<HostFunc<H>> {
        self.funcs@
    }

    pub fn new(name: &str) -> (r: Self)
        ensures
            r.module_name() == name@,
            r.added().len() == 0,
    {
        ImportModuleBuilder { name: name.to_string(), funcs: Vec::new() }
    }

    /// Adds a host function with parameter kinds `ty.0` and result kinds `ty.1`.
    pub fn add_func(
        &mut self,
        name: &str,
        ty: (Vec<wasmedge_types::ValType>, Vec<wasmedge_types::ValType>),
        real_fn: H,
        cost: u64,
    ) -> (r: Result<(), LinkerError>)
        ensures
            r is Ok,
            final(self).module_name() == old(self).module_name(),
            final(self).added().len() == old(self).added().len() + 1,
            final(self).added().take(old(self).added().len() as int) == old(self).added(),
            final(self).added().last().name@ == name@,
            final(self).added().last().params@ == ty.0@,
            final(self).added().last().results@ == ty.1@,
            final(self).added().last().real_fn == real_fn,
            final(self).added().last().cost == cost,
    {
        let (params, results) = ty;
        self.funcs.push(HostFunc { name: name.to_string(), params, results, real_fn, cost });
        proof {
            assert(self.funcs@.take(old(self).funcs@.len() as int) =~= old(self).funcs@);
        }
        Ok(())
    }

    pub fn name(&self) -> (r: &str)
        ensures
            r@ == self.module_name(),
    {
        self.name.as_str()
    }

    /// The host functions added so far, in order.
    pub fn funcs(&self) -> (r: &Vec<HostFunc<H>>)
        ensures
            r@ == self.added(),
    {
        &self.funcs
    }

    /// Hands over the module name and the host functions, for registration.
    pub fn into_parts(self) -> (r: (String, Vec<HostFunc<H>>))
        ensures
            r.0@ == self.module_name(),
            r.1@ == self.added(),
    {
        (self.name, self.funcs)
    }
}

} // verus!
