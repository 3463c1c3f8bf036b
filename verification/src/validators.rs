//! Classification of the references inside a receipt payload.

use crate::payloads::FormRelationshipModelIdOrName;
use vstd::prelude::*;

verus! {

/// How a reference designates its row.
#[derive(Clone, Copy, Debug, PartialEq, Eq, Structural)]
pub enum FormRelationshipModelStatus {
    /// Neither an identifier nor a name: the reference is invalid.
    Absent,
    /// By the identifier of an existing row.
    Id,
    /// By the attributes of a row that is to be created.
    ItemName,
}

/// The classification of a reference with the given identifier and name: an
/// identifier takes precedence over a name.
pub open spec fn classify(id: Option<i32>, name: Option<String>) -> FormRelationshipModelStatus {
    if id is Some {
        FormRelationshipModelStatus::Id
    } else if name is Some {
        FormRelationshipModelStatus::ItemName
    } else {
        FormRelationshipModelStatus::Absent
    }
}

pub struct FormDataValidatorService {}

impl FormDataValidatorService {
    pub fn new() -> (service: Self) {
        Self {  }
    }

    /// Classifies `model` by what it carries.
    pub fn validate_relationship_model<M: FormRelationshipModelIdOrName>(
        &self,
        model: &M,
    ) -> (status: FormRelationshipModelStatus)
        ensures
            status == classify(model.id_field(), model.name_field()),
    {
        if model.get_id_field().is_none() && model.get_name_field().is_none() {
            FormRelationshipModelStatus::Absent
        } else if model.get_id_field().is_some() {
            FormRelationshipModelStatus::Id
        } else {
            FormRelationshipModelStatus::ItemName
        }
    }
}

} // verus!
