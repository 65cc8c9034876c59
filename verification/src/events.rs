//! Event kinds the client emits for observers.

use vstd::prelude::*;

verus! {

#[derive(Clone, Copy, Debug, PartialEq, Eq, Structural)]
pub enum RequestEvents {
    BeforeRequest,
    FailedRequest,
    SucceedRequest,
}

#[derive(Clone, Copy, Debug, PartialEq, Eq, Structural)]
pub enum CrudEvents {
    AfterSaveChanges,
    BeforeDelete,
    BeforeQuery,
    BeforeStore,
}

#[derive(Clone, Copy, Debug, PartialEq, Eq, Structural)]
pub enum ConversionEvents {
    AfterConversionToDocument,
    AfterConversionToEntity,
    BeforeConversionToDocument,
    BeforeConversionToEntity,
}

#[derive(Clone, Copy, Debug, PartialEq, Eq, Structural)]
pub enum SessionEvents {
    SessionClosing,
    SessionCreated,
    TopologyUpdate,
}

} // verus!
