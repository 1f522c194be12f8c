use std::sync::Arc;
use vstd::prelude::*;
use crate::domain::Environment;

verus! {

/// Something that is turned from the form in which it came from outside into
/// the form in which it is worked with.
pub trait IntoDomain {
    type Domain;

    fn into_domain(self) -> Self::Domain;
}

/// Something that knows the environment of the process.
pub trait EnvironmentInfra {
    fn get_environment(&self) -> Environment;
}

/// A service that hands out the environment.
pub trait EnvironmentService {
    fn get_environment(&self) -> Environment;
}

/// Hands out the environment that its infrastructure knows.
pub struct PawsEnvironmentService<F>(pub Arc<F>);

impl<F> PawsEnvironmentService<F> {
    /// A service over `infra`.
    pub fn new(infra: Arc<F>) -> (out: Self)
        ensures
            out.0 == infra,
    {
        PawsEnvironmentService(infra)
    }
}

impl<F: EnvironmentInfra> EnvironmentService for PawsEnvironmentService<F> {
    /// Hands out what the infrastructure hands out: the result is one that
    /// its `get_environment` may give for it.
    fn get_environment(&self) -> (out: Environment)
        ensures
            call_ensures(F::get_environment, (&*self.0,), out),
    {
        self.0.get_environment()
    }
}

} // verus!
