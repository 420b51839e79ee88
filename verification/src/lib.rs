//! A tensor interchange format and the protocol by which one runtime lends a
//! tensor's buffer to another without copying it.
//!
//! The library has three layers, each built on the one before:
//!
//! - [`dlpack`] describes a buffer: device, element type, shape, strides and
//!   byte offset, with [`extent`] for the arithmetic on shapes;
//! - [`managed`] bundles a descriptor with the lender's release function, to
//!   be called once when the borrower is done;
//! - [`registry`] is the borrower's single slot, which takes one tensor,
//!   holds it while it is used, and hands its buffer back.
//!
//! Every function here is verified against its contract. The contracts speak
//! of views: [`dlpack::TensorView`], [`managed::ManagedView`] and
//! [`registry::RegistryView`] say what a value is, and the functions on the
//! views say what each step of the protocol comes to.

pub mod dlpack;
pub mod extent;
pub mod managed;
pub mod registry;
