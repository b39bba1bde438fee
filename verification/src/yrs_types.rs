//! The `yrs` types that cross this library's verified code.
//!
//! Each is opaque: verified code carries values of these types from one
//! call into `yrs` to the next and never looks inside them.

use vstd::prelude::*;

verus! {

/// A yrs document handle (`Arc`-backed; clones share one document).
#[verifier::external_type_specification]
#[verifier::external_body]
pub struct ExDoc(yrs::Doc);

/// A read-write transaction holding exclusive access to a document store.
#[verifier::external_type_specification]
#[verifier::external_body]
pub struct ExTransactionMut<'doc>(yrs::TransactionMut<'doc>);

/// A read-only transaction on a document store.
#[verifier::external_type_specification]
#[verifier::external_body]
pub struct ExTransaction<'doc>(yrs::Transaction<'doc>);

/// A handle on a shared map branch.
#[verifier::external_type_specification]
#[verifier::external_body]
pub struct ExMapRef(yrs::MapRef);

/// A handle on a shared array branch.
#[verifier::external_type_specification]
#[verifier::external_body]
pub struct ExArrayRef(yrs::ArrayRef);

/// A handle on a shared text branch.
#[verifier::external_type_specification]
#[verifier::external_body]
pub struct ExTextRef(yrs::TextRef);

/// A value about to be integrated into a document.
#[verifier::external_type_specification]
#[verifier::external_body]
pub struct ExIn(yrs::In);

/// A value read out of a document.
#[verifier::external_type_specification]
#[verifier::external_body]
pub struct ExOut(yrs::Out);

/// A plain (non-shared) yrs value.
#[verifier::external_type_specification]
#[verifier::external_body]
pub struct ExAny(yrs::Any);

/// A decoded document update.
#[verifier::external_type_specification]
#[verifier::external_body]
pub struct ExUpdate(yrs::Update);

/// A decoded state vector.
#[verifier::external_type_specification]
#[verifier::external_body]
pub struct ExStateVector(yrs::StateVector);

/// yrs's undo manager.
#[verifier::external_type_specification]
#[verifier::external_body]
#[verifier::reject_recursive_types(M)]
pub struct ExUndoManager<M>(yrs::undo::UndoManager<M>);

/// One entry of an undo or redo stack.
#[verifier::external_type_specification]
#[verifier::external_body]
#[verifier::reject_recursive_types(M)]
pub struct ExStackItem<M>(yrs::undo::StackItem<M>);

/// A handle on a shared xml element branch.
#[verifier::external_type_specification]
#[verifier::external_body]
pub struct ExXmlElementRef(yrs::XmlElementRef);

/// A handle on a shared xml fragment branch.
#[verifier::external_type_specification]
#[verifier::external_body]
pub struct ExXmlFragmentRef(yrs::XmlFragmentRef);

/// A handle on a shared xml text branch.
#[verifier::external_type_specification]
#[verifier::external_body]
pub struct ExXmlTextRef(yrs::XmlTextRef);

} // verus!
