//! The application's own factor. It registers nothing with the linker, keeps no
//! application state, and gives every component instance a fresh, empty builder.
use vstd::prelude::*;

verus! {

/// The error type of the runtime's fallible steps: `anyhow::Error`. Verus sees
/// nothing inside it; the factor below never produces one.
#[verifier::external_type_specification]
#[verifier::external_body]
pub struct ExAnyhowError(anyhow::Error);

/// The per-instance builder of [`MyFactor`]; it carries no state.
#[derive(Debug, Clone, Copy, PartialEq, Eq, Structural)]
pub struct MyFactorStateInstanceBuilder {}

/// The application's own factor; it carries no configuration.
#[derive(Debug, Clone, Copy, PartialEq, Eq, Structural)]
pub struct MyFactor {}

impl MyFactor {
    /// Initialises the factor with the runtime's linker. The factor registers
    /// nothing, so this always succeeds and leaves the factor as it was.
    pub fn init(&mut self) -> (r: Result<(), anyhow::Error>)
        ensures
            r is Ok,
            *final(self) == *old(self),
    {
        Ok(())
    }

    /// Configures the factor for a loaded application. The factor keeps no
    /// application state, so this always succeeds with `()`.
    pub fn configure_app(&self) -> (r: Result<(), anyhow::Error>)
        ensures
            r == Ok::<(), anyhow::Error>(()),
    {
        Ok(())
    }

    /// Prepares the factor for one component instance: always a fresh builder.
    pub fn prepare(&self) -> (r: Result<MyFactorStateInstanceBuilder, anyhow::Error>)
        ensures
            r == Ok::<MyFactorStateInstanceBuilder, anyhow::Error>(MyFactorStateInstanceBuilder {}),
    {
        Ok(MyFactorStateInstanceBuilder {})
    }
}

} // verus!
